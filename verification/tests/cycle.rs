use plasma_tiles::color::ChannelSample;
use plasma_tiles::cycle::{complete_cycle, tile_offsets, TileOffset};
use plasma_tiles::frame::FrameRenderer;
use plasma_tiles::timer::TimerDriver;
use plasma_tiles::{FRAME_BYTES, RENDER_CHANNEL, RENDER_INTERVAL, TILE_PIXELS};

fn plasma_samples(t: u32) -> Vec<ChannelSample> {
    // The analytic pattern of the running system: three phase-shifted
    // cosines of the frame counter and the normalized coordinates.
    let mut v = Vec::new();
    for i in 0..64u32 {
        for j in 0..64u32 {
            let x = i as f32 / 64.0;
            let y = j as f32 / 64.0;
            let r = 0.5 + 0.5 * (t as f32 + x + 0.0).cos();
            let g = 0.5 + 0.5 * (t as f32 + y + 2.0).cos();
            let b = 0.5 + 0.5 * (t as f32 + x + 4.0).cos();
            v.push(ChannelSample {
                r5: (r * 31.0) as u16,
                g6: (g * 63.0) as u16,
                b5: (b * 31.0) as u16,
            });
        }
    }
    v
}

#[test]
fn four_blits_at_fixed_offsets() {
    let offsets = tile_offsets();
    assert_eq!(offsets.len(), 4);
    assert_eq!(offsets[0], TileOffset { x: 0, y: 0 });
    assert_eq!(offsets[1], TileOffset { x: 67, y: 0 });
    assert_eq!(offsets[2], TileOffset { x: 0, y: 67 });
    assert_eq!(offsets[3], TileOffset { x: 67, y: 67 });
}

#[test]
fn cycle_plans_blits_and_rearm() {
    let mut fr = FrameRenderer::new();
    let mut td = TimerDriver::new(RENDER_CHANNEL, RENDER_INTERVAL);
    let samples = plasma_samples(0);
    assert_eq!(samples.len(), TILE_PIXELS);
    let plan = complete_cycle(&mut fr, &mut td, &samples);
    assert_eq!(plan.blits, tile_offsets());
    assert_eq!(plan.rearm.channel, RENDER_CHANNEL);
    assert_eq!(plan.rearm.interval, RENDER_INTERVAL);
    assert_eq!(fr.frame_counter(), 1);
    assert_eq!(fr.frame_bytes().len(), FRAME_BYTES);
}

#[test]
fn rearm_interval_is_fixed_across_cycles() {
    let mut fr = FrameRenderer::new();
    let mut td = TimerDriver::new(RENDER_CHANNEL, RENDER_INTERVAL);
    for _ in 0..3 {
        let samples = plasma_samples(fr.frame_counter());
        let plan = complete_cycle(&mut fr, &mut td, &samples);
        assert_eq!(plan.rearm.interval, RENDER_INTERVAL);
        let ack = td.acknowledge();
        assert_eq!(ack.channel, RENDER_CHANNEL);
    }
}

#[test]
fn timer_protocol_round_trip() {
    let mut td = TimerDriver::new(1, 1000);
    let arm = td.arm(1000);
    assert_eq!(arm.channel, 1);
    assert_eq!(arm.interval, 1000);
    let ack = td.acknowledge();
    assert_eq!(ack.channel, 1);
    let rearm = td.arm(1000);
    assert_eq!(rearm.interval, 1000);
}
