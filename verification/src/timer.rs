//! Model of the render timer: one hardware countdown/compare channel
//! abstracted into arm and acknowledge operations.
//!
//! The driver owns the channel index and the next-fire interval; the
//! hardware writes themselves happen outside the crate, ordered by the
//! request values these operations return. The phase field pins the
//! protocol: a fired event is acknowledged exactly once, before any
//! re-arm of the same cycle.

use vstd::prelude::*;

verus! {

/// Protocol phase of the timer: armed and counting down, or
/// acknowledged and awaiting the next arm.
pub enum TimerPhase {
    Armed,
    Acked,
}

/// Hardware order: clear the fired flag of one compare channel so the
/// interrupt line deasserts.
#[derive(Clone, Copy, Debug, PartialEq, Eq, Structural)]
pub struct AckRequest {
    /// Compare channel whose event flag to clear.
    pub channel: u32,
}

/// Hardware order: schedule a compare event `interval` ticks after the
/// moment the order is carried out.
#[derive(Clone, Copy, Debug, PartialEq, Eq, Structural)]
pub struct ArmRequest {
    /// Compare channel to schedule on.
    pub channel: u32,
    /// Ticks until the event fires.
    pub interval: u32,
}

/// The timer driver's state: channel index, next-fire interval, and
/// protocol phase. Mutated only by `arm` and `acknowledge`.
pub struct TimerDriver {
    channel: u32,
    interval: u32,
    phase: TimerPhase,
}

impl TimerDriver {
    /// The compare channel this driver owns.
    pub closed spec fn channel(self) -> u32 {
        self.channel
    }

    /// The interval the next fire was (or will be) scheduled with.
    pub closed spec fn interval(self) -> u32 {
        self.interval
    }

    /// Where the driver stands in the fire/acknowledge/re-arm protocol.
    pub closed spec fn phase(self) -> TimerPhase {
        self.phase
    }

    /// Whether the driver is armed, i.e. a fire can be pending. An
    /// unverified caller tests this before acknowledging.
    pub fn is_armed(&self) -> (b: bool)
        ensures
            b == (self.phase() is Armed),
    {
        match self.phase {
            TimerPhase::Armed => true,
            TimerPhase::Acked => false,
        }
    }

    /// A freshly initialized driver: configured for `channel`, no event
    /// pending, ready to be armed with `interval` ticks.
    pub fn new(channel: u32, interval: u32) -> (td: Self)
        ensures
            td.channel() == channel,
            td.interval() == interval,
            td.phase() is Acked,
    {
        TimerDriver { channel, interval, phase: TimerPhase::Acked }
    }

    /// Schedules the next fire: records the interval and hands back the
    /// hardware order. Each call resets the target time relative to the
    /// call moment, so repeated arming is harmless.
    pub fn arm(&mut self, interval: u32) -> (req: ArmRequest)
        ensures
            final(self).phase() is Armed,
            final(self).channel() == old(self).channel(),
            final(self).interval() == interval,
            req.channel == old(self).channel(),
            req.interval == interval,
    {
        self.interval = interval;
        self.phase = TimerPhase::Armed;
        ArmRequest { channel: self.channel, interval }
    }

    /// Acknowledges an observed fire: legal exactly once per fire —
    /// only while the channel is armed — and leaves the driver awaiting
    /// its re-arm, so the acknowledge always precedes the next arm.
    pub fn acknowledge(&mut self) -> (req: AckRequest)
        requires
            old(self).phase() is Armed,
        ensures
            final(self).phase() is Acked,
            final(self).channel() == old(self).channel(),
            final(self).interval() == old(self).interval(),
            req.channel == old(self).channel(),
    {
        self.phase = TimerPhase::Acked;
        AckRequest { channel: self.channel }
    }
}

} // verus!
