//! Verified core of a tiled plasma renderer for a small color LCD.
//!
//! Once per timer tick the renderer rebuilds a fixed-size RGB565 pixel
//! buffer from per-pixel channel samples, schedules four blits of that
//! buffer in a 2-by-2 mosaic, steps its frame counter, and re-arms the
//! timer for the next fixed interval. The hardware itself (timer
//! peripheral, SPI bus, display controller) lives outside this crate;
//! the library computes the bytes and hands the hardware orders back as
//! plain values.

use vstd::prelude::*;

pub mod color;
pub mod cycle;
pub mod frame;
pub mod timer;

verus! {

/// Width in pixels of one rendered tile.
pub const TILE_W: usize = 64;

/// Height in pixels of one rendered tile.
pub const TILE_H: usize = 64;

/// Number of pixels in one tile.
pub const TILE_PIXELS: usize = TILE_W * TILE_H;

/// Size of the pixel buffer: two bytes per pixel, for the renderer's
/// whole lifetime.
pub const FRAME_BYTES: usize = 2 * TILE_W * TILE_H;

/// On-screen side length of one tile; equals `TILE_W` and `TILE_H`.
pub const TILE_SIDE: u16 = 64;

/// Margin in pixels between neighbouring tiles on the screen.
pub const TILE_GAP: u16 = 3;

/// Distance between the origins of neighbouring tiles: side plus gap.
pub const TILE_STRIDE: u16 = TILE_SIDE + TILE_GAP;

/// Timer ticks between one render cycle and the next.
pub const RENDER_INTERVAL: u32 = 1000;

/// Hardware compare channel that schedules the render cycle.
pub const RENDER_CHANNEL: u32 = 1;

} // verus!
