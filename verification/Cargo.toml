[package]
name = "plasma_tiles"
version = "0.1.0"
edition = "2021"
publish = false

[dependencies]
cortex-m = "0.7"
embedded-graphics = "0.7"
nrf52840-hal = "0.14"
nrf52840-pac = "0.11"
num-traits = "0.2"
rtt-target = { version = "0.3", features = ["cortex-m"] }
st7735-lcd = "0.8"
