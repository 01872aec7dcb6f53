//! One complete render cycle: rebuild the frame, plan the four mosaic
//! blits, and re-arm the timer with the fixed interval.

use vstd::prelude::*;

use crate::color::ChannelSample;
use crate::frame::{spec_frame_bytes, spec_wrap_inc, FrameRenderer};
use crate::timer::{ArmRequest, TimerDriver};
use crate::{FRAME_BYTES, RENDER_INTERVAL, TILE_PIXELS, TILE_STRIDE};

verus! {

/// One on-screen origin for a blit of the tile buffer.
#[derive(Clone, Copy, Debug, PartialEq, Eq, Structural)]
pub struct TileOffset {
    /// Horizontal origin on the physical display.
    pub x: u16,
    /// Vertical origin on the physical display.
    pub y: u16,
}

/// The four origins of the 2-by-2 mosaic, in issue order: stride apart
/// in each direction, where the stride is the tile side plus the gap.
pub open spec fn spec_tile_offsets() -> Seq<TileOffset> {
    seq![
        (TileOffset { x: 0, y: 0 }),
        (TileOffset { x: TILE_STRIDE, y: 0 }),
        (TileOffset { x: 0, y: TILE_STRIDE }),
        (TileOffset { x: TILE_STRIDE, y: TILE_STRIDE }),
    ]
}

/// The four blit origins of one frame, in the order they are issued.
pub fn tile_offsets() -> (v: Vec<TileOffset>)
    ensures
        v@ == spec_tile_offsets(),
{
    let mut v: Vec<TileOffset> = Vec::new();
    v.push(TileOffset { x: 0, y: 0 });
    v.push(TileOffset { x: TILE_STRIDE, y: 0 });
    v.push(TileOffset { x: 0, y: TILE_STRIDE });
    v.push(TileOffset { x: TILE_STRIDE, y: TILE_STRIDE });
    proof {
        assert(v@ =~= spec_tile_offsets());
    }
    v
}

/// Everything the hardware must do once the buffer is rebuilt: four
/// blits of the same buffer, in order, then one re-arm.
pub struct CyclePlan {
    /// Blit origins, to be issued sequentially and to completion.
    pub blits: Vec<TileOffset>,
    /// The re-arm order closing the cycle.
    pub rearm: ArmRequest,
}

/// The computing part of one render cycle, entered after the fired
/// event was acknowledged: rewrites the frame from the samples, steps
/// the counter, plans the four mosaic blits, and re-arms the timer —
/// always with the same fixed interval, however long the render took.
pub fn complete_cycle(
    fr: &mut FrameRenderer,
    td: &mut TimerDriver,
    samples: &Vec<ChannelSample>,
) -> (plan: CyclePlan)
    requires
        old(fr).wf(),
        old(td).phase() is Acked,
        samples@.len() == TILE_PIXELS,
    ensures
        final(fr).wf(),
        final(fr)@ == spec_frame_bytes(samples@),
        final(fr)@.len() == FRAME_BYTES,
        final(fr).counter() == spec_wrap_inc(old(fr).counter()),
        final(td).phase() is Armed,
        final(td).channel() == old(td).channel(),
        final(td).interval() == RENDER_INTERVAL,
        plan.blits@ == spec_tile_offsets(),
        plan.rearm.channel == old(td).channel(),
        plan.rearm.interval == RENDER_INTERVAL,
{
    fr.render_frame(samples);
    let blits = tile_offsets();
    let rearm = td.arm(RENDER_INTERVAL);
    CyclePlan { blits, rearm }
}

} // verus!

