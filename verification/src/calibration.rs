//! Calibration: the output is held at the upper bound, then at the lower
//! bound, each for the same time, so that the ESC learns its throttle range.
//!
//! A run hands out one step at a time. The caller performs each step on the
//! hardware before asking for the next.

use crate::step::{ChannelDuty, ChannelStep, Step};
use vstd::prelude::*;

verus! {

/// The steps that calibrate a single output: `high` is written and held for
/// `wait_ms`, then `low` is written and held for `wait_ms`.
pub open spec fn plan(high: u16, low: u16, wait_ms: u32) -> Seq<Step> {
    seq![Step::Write(high), Step::Wait(wait_ms), Step::Write(low), Step::Wait(wait_ms)]
}

/// One write of `duty` to each of `channels`, in their order.
pub open spec fn channel_writes<C>(channels: Seq<C>, duty: u16) -> Seq<ChannelStep<C>> {
    Seq::new(
        channels.len(),
        |i: int| ChannelStep::Write(ChannelDuty { channel: channels[i], duty }),
    )
}

/// The steps that calibrate `channels` together: `high` is written to each and
/// held for `wait_ms`, then `low` is written to each and held for `wait_ms`.
pub open spec fn channel_plan<C>(high: u16, low: u16, wait_ms: u32, channels: Seq<C>) -> Seq<
    ChannelStep<C>,
> {
    channel_writes(channels, high) + seq![ChannelStep::Wait(wait_ms)] + channel_writes(
        channels,
        low,
    ) + seq![ChannelStep::Wait(wait_ms)]
}

/// A calibration run on a single output.
pub struct Calibration {
    high: u16,
    low: u16,
    wait_ms: u32,
    taken: u8,
}

/// A run is seen as the steps it has not yet handed out, next one first.
impl View for Calibration {
    type V = Seq<Step>;

    closed spec fn view(&self) -> Seq<Step> {
        plan(self.high, self.low, self.wait_ms).skip(self.taken as int)
    }
}

impl Calibration {
    #[verifier::type_invariant]
    spec fn taken_in_plan(&self) -> bool {
        self.taken <= 4
    }

    /// A run that has handed out nothing yet.
    pub(crate) fn start(high: u16, low: u16, wait_ms: u32) -> (run: Self)
        ensures
            run@ == plan(high, low, wait_ms),
    {
        Calibration { high, low, wait_ms, taken: 0 }
    }

    /// Hands out the next step, or `None` once the run is over.
    pub fn next_step(&mut self) -> (step: Option<Step>)
        ensures
            old(self)@.len() == 0 ==> step is None && final(self)@ == old(self)@,
            old(self)@.len() > 0 ==> step == Some(old(self)@.first()) && final(self)@ == old(
                self,
            )@.drop_first(),
    {
        proof {
            use_type_invariant(&*self);
        }
        let step = if self.taken == 0 {
            Step::Write(self.high)
        } else if self.taken == 1 {
            Step::Wait(self.wait_ms)
        } else if self.taken == 2 {
            Step::Write(self.low)
        } else if self.taken == 3 {
            Step::Wait(self.wait_ms)
        } else {
            return None;
        };
        self.taken = self.taken + 1;
        Some(step)
    }
}

/// Where a run on several channels stands.
enum Phase {
    /// Writing the upper duty, channel by channel; the first wait follows.
    High,
    /// Writing the lower duty, channel by channel; the second wait follows.
    Low,
    /// Both waits have been handed out.
    Done,
}

/// A calibration run on the channels of a multi-channel output.
pub struct ChannelCalibration<'a, C> {
    channels: &'a [C],
    high: u16,
    low: u16,
    wait_ms: u32,
    phase: Phase,
    next: usize,
}

impl<'a, C> ChannelCalibration<'a, C> {
    #[verifier::type_invariant]
    spec fn next_in_channels(&self) -> bool {
        self.next <= self.channels@.len()
    }

    /// How many steps of the plan have been handed out.
    spec fn taken(&self) -> int {
        let listed = self.channels@.len() as int;
        match self.phase {
            Phase::High => self.next as int,
            Phase::Low => listed + 1 + self.next,
            Phase::Done => listed + 1 + listed + 1,
        }
    }
}

/// A run is seen as the steps it has not yet handed out, next one first.
impl<'a, C> View for ChannelCalibration<'a, C> {
    type V = Seq<ChannelStep<C>>;

    closed spec fn view(&self) -> Seq<ChannelStep<C>> {
        channel_plan(self.high, self.low, self.wait_ms, self.channels@).skip(self.taken())
    }
}

impl<'a, C: Copy> ChannelCalibration<'a, C> {
    /// A run over `channels` that has handed out nothing yet.
    pub(crate) fn start(high: u16, low: u16, wait_ms: u32, channels: &'a [C]) -> (run: Self)
        ensures
            run@ == channel_plan(high, low, wait_ms, channels@),
    {
        ChannelCalibration { channels, high, low, wait_ms, phase: Phase::High, next: 0 }
    }

    /// Hands out the next step, or `None` once the run is over.
    pub fn next_step(&mut self) -> (step: Option<ChannelStep<C>>)
        ensures
            old(self)@.len() == 0 ==> step is None && final(self)@ == old(self)@,
            old(self)@.len() > 0 ==> step == Some(old(self)@.first()) && final(self)@ == old(
                self,
            )@.drop_first(),
    {
        proof {
            use_type_invariant(&*self);
        }
        let duty = match self.phase {
            Phase::High => self.high,
            Phase::Low => self.low,
            Phase::Done => {
                return None;
            },
        };
        if self.next < self.channels.len() {
            let channel = self.channels[self.next];
            self.next = self.next + 1;
            Some(ChannelStep::Write(ChannelDuty { channel, duty }))
        } else {
            match self.phase {
                Phase::High => {
                    self.phase = Phase::Low;
                    self.next = 0;
                },
                _ => {
                    self.phase = Phase::Done;
                },
            }
            Some(ChannelStep::Wait(self.wait_ms))
        }
    }
}

} // verus!
