//! The pixel buffer and the frame renderer that owns it.
//!
//! The buffer holds exactly two bytes per pixel for its whole lifetime
//! and is rewritten in place every frame. The renderer couples it with
//! the wrapping frame counter that drives the pattern.

use vstd::prelude::*;

use crate::color::{encode_pixel, spec_high_byte, spec_low_byte, spec_packed, ChannelSample};
use crate::{FRAME_BYTES, TILE_H, TILE_PIXELS, TILE_W};

verus! {

/// The bytes a full frame encodes to: for each sample, its packed word
/// split into two bytes, low byte first.
pub open spec fn spec_frame_bytes(samples: Seq<ChannelSample>) -> Seq<u8> {
    Seq::new(
        2 * samples.len(),
        |n: int|
            if n % 2 == 0 {
                spec_low_byte(spec_packed(samples[n / 2]))
            } else {
                spec_high_byte(spec_packed(samples[n / 2]))
            },
    )
}

/// Frame counter successor: increments by one and wraps silently to
/// zero at the top of the counter's range.
pub open spec fn spec_wrap_inc(t: u32) -> u32 {
    if t == 0xFFFF_FFFF {
        0
    } else {
        (t + 1) as u32
    }
}

/// The fixed-size pixel buffer: `FRAME_BYTES` bytes, allocated once and
/// reused in place for every frame.
pub struct FrameBuffer {
    bytes: Vec<u8>,
}

impl View for FrameBuffer {
    type V = Seq<u8>;

    closed spec fn view(&self) -> Seq<u8> {
        self.bytes@
    }
}

impl FrameBuffer {
    /// Size invariant: exactly two bytes per pixel, never resized.
    pub open spec fn wf(self) -> bool {
        self@.len() == FRAME_BYTES
    }

    /// A fresh, zeroed buffer.
    pub fn new() -> (buf: Self)
        ensures
            buf.wf(),
            forall|n: int| 0 <= n < FRAME_BYTES ==> buf@[n] == 0u8,
    {
        let mut bytes: Vec<u8> = Vec::new();
        let mut k: usize = 0;
        while k < FRAME_BYTES
            invariant
                k <= FRAME_BYTES,
                bytes@.len() == k,
                forall|n: int| 0 <= n < k ==> bytes@[n] == 0u8,
            decreases FRAME_BYTES - k,
        {
            bytes.push(0u8);
            k = k + 1;
        }
        FrameBuffer { bytes }
    }

    /// Shared view of the raw bytes, for handing a finished frame to
    /// the display hardware.
    pub fn as_bytes(&self) -> (b: &Vec<u8>)
        ensures
            b@ == self@,
    {
        &self.bytes
    }

    /// Rewrites every pixel of the buffer from the given samples: the
    /// word of sample `k` lands at offsets `2k` and `2k + 1`, low byte
    /// first. The buffer keeps its length.
    pub fn fill(&mut self, samples: &Vec<ChannelSample>)
        requires
            old(self).wf(),
            samples@.len() == TILE_PIXELS,
        ensures
            final(self).wf(),
            final(self)@ == spec_frame_bytes(samples@),
    {
        let mut k: usize = 0;
        while k < TILE_PIXELS
            invariant
                k <= TILE_PIXELS,
                self@.len() == FRAME_BYTES,
                samples@.len() == TILE_PIXELS,
                forall|n: int| 0 <= n < 2 * k ==> self@[n] == spec_frame_bytes(samples@)[n],
            decreases TILE_PIXELS - k,
        {
            let b = encode_pixel(samples[k]);
            self.bytes[2 * k] = b.0;
            self.bytes[2 * k + 1] = b.1;
            k = k + 1;
        }
        proof {
            assert(self@ =~= spec_frame_bytes(samples@));
        }
    }
}

/// Law: the rendered bytes are a function of the samples alone — equal
/// sample rows give byte-identical frames, whatever either buffer held
/// before.
pub proof fn lemma_frame_deterministic(a: Seq<ChannelSample>, b: Seq<ChannelSample>)
    requires
        a == b,
    ensures
        spec_frame_bytes(a) == spec_frame_bytes(b),
{
}

/// Law: the word for pixel row `i`, column `j` sits at byte offset
/// `2 * (i * TILE_W + j)`, low byte first.
pub proof fn lemma_pixel_location(samples: Seq<ChannelSample>, i: int, j: int)
    requires
        samples.len() == TILE_PIXELS,
        0 <= i < TILE_H,
        0 <= j < TILE_W,
    ensures
        spec_frame_bytes(samples)[2 * (i * TILE_W + j)] == spec_low_byte(
            spec_packed(samples[i * TILE_W + j]),
        ),
        spec_frame_bytes(samples)[2 * (i * TILE_W + j) + 1] == spec_high_byte(
            spec_packed(samples[i * TILE_W + j]),
        ),
{
}

/// Law: the counter successor wraps to zero exactly at the counter's
/// maximum and otherwise increments by exactly one.
pub proof fn lemma_counter_wraps()
    ensures
        spec_wrap_inc(0xFFFF_FFFFu32) == 0,
        forall|t: u32| t < 0xFFFF_FFFF ==> spec_wrap_inc(t) == t + 1,
{
}

/// Owns the pixel buffer and the frame counter; rebuilds the buffer
/// once per invocation.
pub struct FrameRenderer {
    buffer: FrameBuffer,
    t: u32,
}

impl View for FrameRenderer {
    type V = Seq<u8>;

    closed spec fn view(&self) -> Seq<u8> {
        self.buffer@
    }
}

impl FrameRenderer {
    /// The frame counter driving the time-varying term of the pattern.
    pub closed spec fn counter(self) -> u32 {
        self.t
    }

    /// Renderer well-formedness: the buffer keeps its fixed size.
    pub closed spec fn wf(self) -> bool {
        self.buffer.wf()
    }

    /// A fresh renderer: zeroed buffer, counter at zero.
    pub fn new() -> (fr: Self)
        ensures
            fr.wf(),
            fr.counter() == 0,
            fr@.len() == FRAME_BYTES,
    {
        FrameRenderer { buffer: FrameBuffer::new(), t: 0 }
    }

    /// A fresh renderer whose counter starts at `t`; the pattern phase
    /// is the only thing that differs from `new`.
    pub fn with_counter(t: u32) -> (fr: Self)
        ensures
            fr.wf(),
            fr.counter() == t,
            fr@.len() == FRAME_BYTES,
    {
        FrameRenderer { buffer: FrameBuffer::new(), t }
    }

    /// The current frame counter value.
    pub fn frame_counter(&self) -> (t: u32)
        ensures
            t == self.counter(),
    {
        self.t
    }

    /// The rendered bytes of the last completed frame.
    pub fn frame_bytes(&self) -> (b: &Vec<u8>)
        ensures
            b@ == self@,
    {
        self.buffer.as_bytes()
    }

    /// One render invocation's computing part: rewrites the whole
    /// buffer from the samples, then steps the frame counter by one,
    /// wrapping silently. The buffer length never changes.
    pub fn render_frame(&mut self, samples: &Vec<ChannelSample>)
        requires
            old(self).wf(),
            samples@.len() == TILE_PIXELS,
        ensures
            final(self).wf(),
            final(self)@ == spec_frame_bytes(samples@),
            final(self)@.len() == FRAME_BYTES,
            final(self).counter() == spec_wrap_inc(old(self).counter()),
    {
        self.buffer.fill(samples);
        self.t = if self.t == 0xFFFF_FFFFu32 {
            0
        } else {
            self.t + 1
        };
    }
}

} // verus!
