//! The controller: duty bounds, presets, and the writes they stand for.

use crate::calibration::{channel_plan, plan, Calibration, ChannelCalibration};
use crate::duty::{clamp, clamped};
use crate::step::ChannelDuty;
use vstd::prelude::*;

verus! {

/// Controller of one ESC behind the PWM output `pwm`.
///
/// The controller owns the output but never drives it. Each operation returns
/// the write that the owner of the hardware is to perform, already clamped
/// into the range from `min_duty` to `max_duty`. The bounds are shared by all
/// channels of a multi-channel output.
///
/// The fields are free to set. Keeping `min_duty <= max_duty` is up to the
/// caller: under inverted bounds every write carries `min_duty`.
pub struct Esc<P> {
    /// The PWM output, enabled and running before the controller is built.
    pub pwm: P,
    /// Duty for "motor active, idle throttle".
    pub arm_duty: u16,
    /// Duty for "commanded to a safe state".
    pub disarm_duty: u16,
    /// Lowest duty that may reach the output.
    pub min_duty: u16,
    /// Highest duty that may reach the output.
    pub max_duty: u16,
}

/// The controller under its longer name.
pub type RcEsc<P> = Esc<P>;

impl<P> Esc<P> {
    /// The bounds describe a range: the lower does not exceed the upper.
    pub open spec fn bounds_ordered(&self) -> bool {
        self.min_duty <= self.max_duty
    }

    /// The duty that reaches the output when `duty` is asked for.
    pub open spec fn commanded(&self, duty: u16) -> u16 {
        clamped(duty, self.min_duty, self.max_duty)
    }

    /// Builds a controller around `pwm` with all four duties at zero.
    pub fn new(pwm: P) -> (esc: Self)
        ensures
            esc.pwm == pwm,
            esc.arm_duty == 0,
            esc.disarm_duty == 0,
            esc.min_duty == 0,
            esc.max_duty == 0,
            esc.bounds_ordered(),
    {
        Esc { pwm, arm_duty: 0, disarm_duty: 0, min_duty: 0, max_duty: 0 }
    }

    /// The write that sets a single output to `duty`.
    pub fn set_duty(&self, duty: u16) -> (written: u16)
        ensures
            written == self.commanded(duty),
            self.bounds_ordered() ==> self.min_duty <= written <= self.max_duty,
            self.min_duty <= duty <= self.max_duty ==> written == duty,
    {
        clamp(duty, self.min_duty, self.max_duty)
    }

    /// The write that sets `channel` to `duty`.
    pub fn set_channel_duty<C>(&self, channel: C, duty: u16) -> (write: ChannelDuty<C>)
        ensures
            write.channel == channel,
            write.duty == self.commanded(duty),
            self.bounds_ordered() ==> self.min_duty <= write.duty <= self.max_duty,
            self.min_duty <= duty <= self.max_duty ==> write.duty == duty,
    {
        ChannelDuty { channel, duty: clamp(duty, self.min_duty, self.max_duty) }
    }

    /// The write that arms the ESC.
    pub fn arm(&self) -> (written: u16)
        ensures
            written == self.commanded(self.arm_duty),
            self.bounds_ordered() ==> self.min_duty <= written <= self.max_duty,
    {
        self.set_duty(self.arm_duty)
    }

    /// The write that arms the ESC on `channel`.
    pub fn arm_channel<C>(&self, channel: C) -> (write: ChannelDuty<C>)
        ensures
            write.channel == channel,
            write.duty == self.commanded(self.arm_duty),
            self.bounds_ordered() ==> self.min_duty <= write.duty <= self.max_duty,
    {
        self.set_channel_duty(channel, self.arm_duty)
    }

    /// The write that disarms the ESC.
    ///
    /// While `disarm_duty` is still zero this is the lower bound.
    pub fn disarm(&self) -> (written: u16)
        ensures
            written == self.commanded(self.disarm_duty),
            self.bounds_ordered() ==> self.min_duty <= written <= self.max_duty,
    {
        self.set_duty(self.disarm_duty)
    }

    /// The write that disarms the ESC on `channel`.
    pub fn disarm_channel<C>(&self, channel: C) -> (write: ChannelDuty<C>)
        ensures
            write.channel == channel,
            write.duty == self.commanded(self.disarm_duty),
            self.bounds_ordered() ==> self.min_duty <= write.duty <= self.max_duty,
    {
        self.set_channel_duty(channel, self.disarm_duty)
    }

    /// The write that drives a single output to the upper bound.
    pub fn set_max_duty(&self) -> (written: u16)
        ensures
            written == self.commanded(self.max_duty),
            self.bounds_ordered() ==> written == self.max_duty,
    {
        self.set_duty(self.max_duty)
    }

    /// The write that drives `channel` to the upper bound.
    pub fn set_channel_max_duty<C>(&self, channel: C) -> (write: ChannelDuty<C>)
        ensures
            write.channel == channel,
            write.duty == self.commanded(self.max_duty),
            self.bounds_ordered() ==> write.duty == self.max_duty,
    {
        self.set_channel_duty(channel, self.max_duty)
    }

    /// The write that drives a single output to the lower bound.
    pub fn set_min_duty(&self) -> (written: u16)
        ensures
            written == self.commanded(self.min_duty),
            written == self.min_duty,
    {
        self.set_duty(self.min_duty)
    }

    /// The write that drives `channel` to the lower bound.
    pub fn set_channel_min_duty<C>(&self, channel: C) -> (write: ChannelDuty<C>)
        ensures
            write.channel == channel,
            write.duty == self.commanded(self.min_duty),
            write.duty == self.min_duty,
    {
        self.set_channel_duty(channel, self.min_duty)
    }

    /// Starts a calibration of a single output: the upper bound is written
    /// and held for `calibration_ms`, then the lower bound is written and held
    /// for `calibration_ms`.
    ///
    /// The run keeps the bounds as they stand now.
    pub fn calibrate(&self, calibration_ms: u32) -> (run: Calibration)
        ensures
            run@ == plan(
                self.commanded(self.max_duty),
                self.commanded(self.min_duty),
                calibration_ms,
            ),
            self.bounds_ordered() ==> run@ == plan(
                self.max_duty,
                self.min_duty,
                calibration_ms,
            ),
    {
        Calibration::start(self.set_max_duty(), self.set_min_duty(), calibration_ms)
    }

    /// Starts a calibration of `channels` together: the upper bound is written
    /// to each of them and held for `calibration_ms`, then the lower bound is
    /// written to each and held for `calibration_ms`.
    ///
    /// With no channels the run is the two waits alone. The run keeps the
    /// bounds as they stand now.
    pub fn calibrate_channels<'a, C: Copy>(&self, calibration_ms: u32, channels: &'a [C]) -> (run:
        ChannelCalibration<'a, C>)
        ensures
            run@ == channel_plan(
                self.commanded(self.max_duty),
                self.commanded(self.min_duty),
                calibration_ms,
                channels@,
            ),
            self.bounds_ordered() ==> run@ == channel_plan(
                self.max_duty,
                self.min_duty,
                calibration_ms,
                channels@,
            ),
    {
        ChannelCalibration::start(
            self.set_max_duty(),
            self.set_min_duty(),
            calibration_ms,
            channels,
        )
    }
}

} // verus!
