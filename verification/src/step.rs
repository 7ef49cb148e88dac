//! What the controller asks of whoever holds the hardware.

use vstd::prelude::*;

verus! {

/// A duty addressed to one channel of a multi-channel output.
#[derive(Debug, PartialEq, Eq)]
pub struct ChannelDuty<C> {
    /// The channel to write to.
    pub channel: C,
    /// The duty to write there.
    pub duty: u16,
}

impl<C: Copy> Copy for ChannelDuty<C> {

}

impl<C: Copy> Clone for ChannelDuty<C> {
    fn clone(&self) -> (copy: Self)
        ensures
            copy == *self,
    {
        *self
    }
}

/// One step of a calibration run on a single output.
#[derive(Clone, Copy, Debug, PartialEq, Eq)]
pub enum Step {
    /// Write this duty to the output.
    Write(u16),
    /// Block for this many milliseconds.
    Wait(u32),
}

/// One step of a calibration run on a multi-channel output.
#[derive(Debug, PartialEq, Eq)]
pub enum ChannelStep<C> {
    /// Write the duty to the channel it is addressed to.
    Write(ChannelDuty<C>),
    /// Block for this many milliseconds.
    Wait(u32),
}

impl<C: Copy> Copy for ChannelStep<C> {

}

impl<C: Copy> Clone for ChannelStep<C> {
    fn clone(&self) -> (copy: Self)
        ensures
            copy == *self,
    {
        *self
    }
}

} // verus!
