//! Per-pixel color encoding: clamp the three raw channel samples to
//! their RGB565 bit widths, pack them into one 16-bit word with blue in
//! the high bits, and split the word into little-endian bytes.

use vstd::prelude::*;

verus! {

/// Largest value of a five-bit channel (red, blue).
pub const CHANNEL_MAX_5: u16 = 31;

/// Largest value of a six-bit channel (green).
pub const CHANNEL_MAX_6: u16 = 63;

/// The three raw quantized channel values of one pixel, as the pattern
/// evaluation hands them over: red and blue aim at five bits, green at
/// six. A raw value may overshoot its bit width (the analytic formula
/// can quantize a boundary value one step too high); encoding clamps
/// defensively.
#[derive(Clone, Copy, Debug, PartialEq, Eq, Structural)]
pub struct ChannelSample {
    /// Raw five-bit red sample.
    pub r5: u16,
    /// Raw six-bit green sample.
    pub g6: u16,
    /// Raw five-bit blue sample.
    pub b5: u16,
}

/// A raw channel value clamped to its bit width.
pub open spec fn spec_clamp(raw: u16, max: u16) -> u16 {
    if raw > max {
        max
    } else {
        raw
    }
}

/// The 16-bit word one sample packs to: blue in the top five bits,
/// green in the middle six, red in the low five.
pub open spec fn spec_packed(s: ChannelSample) -> int {
    spec_clamp(s.b5, CHANNEL_MAX_5) * 2048 + spec_clamp(s.g6, CHANNEL_MAX_6) * 32
        + spec_clamp(s.r5, CHANNEL_MAX_5)
}

/// Low byte of a 16-bit word, the first one stored (little endian).
pub open spec fn spec_low_byte(w: int) -> u8 {
    (w % 256) as u8
}

/// High byte of a 16-bit word, the second one stored (little endian).
pub open spec fn spec_high_byte(w: int) -> u8 {
    ((w / 256) % 256) as u8
}

/// Law: clamping keeps every channel within its bit width, so the
/// packed word always fits in 16 bits — no sample can overflow the
/// packing.
pub proof fn lemma_quantized_in_range(s: ChannelSample)
    ensures
        spec_clamp(s.r5, CHANNEL_MAX_5) <= CHANNEL_MAX_5,
        spec_clamp(s.g6, CHANNEL_MAX_6) <= CHANNEL_MAX_6,
        spec_clamp(s.b5, CHANNEL_MAX_5) <= CHANNEL_MAX_5,
        0 <= spec_packed(s) <= 0xFFFF,
{
}

/// Clamps one raw channel value to its bit width.
pub fn clamp_channel(raw: u16, max: u16) -> (c: u16)
    ensures
        c == spec_clamp(raw, max),
{
    if raw > max {
        max
    } else {
        raw
    }
}

/// Packs three already-clamped channels into one RGB565 word:
/// `(b5 << 11) | (g6 << 5) | r5`.
pub fn pack_rgb565(r5: u16, g6: u16, b5: u16) -> (w: u16)
    requires
        r5 <= CHANNEL_MAX_5,
        g6 <= CHANNEL_MAX_6,
        b5 <= CHANNEL_MAX_5,
    ensures
        w == b5 * 2048 + g6 * 32 + r5,
{
    proof {
        assert((b5 << 11) | (g6 << 5) | r5 == b5 * 2048 + g6 * 32 + r5) by (bit_vector)
            requires
                r5 <= 31,
                g6 <= 63,
                b5 <= 31,
        ;
    }
    (b5 << 11) | (g6 << 5) | r5
}

/// Encodes one sample into the two bytes the buffer stores: clamp each
/// channel, pack, and split the word low byte first.
pub fn encode_pixel(s: ChannelSample) -> (b: (u8, u8))
    ensures
        b.0 == spec_low_byte(spec_packed(s)),
        b.1 == spec_high_byte(spec_packed(s)),
{
    let r5 = clamp_channel(s.r5, CHANNEL_MAX_5);
    let g6 = clamp_channel(s.g6, CHANNEL_MAX_6);
    let b5 = clamp_channel(s.b5, CHANNEL_MAX_5);
    let w = pack_rgb565(r5, g6, b5);
    let lo = (w % 256) as u8;
    let hi = (w / 256) as u8;
    (lo, hi)
}

} // verus!
