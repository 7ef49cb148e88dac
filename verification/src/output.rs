//! What an output shows as steps are carried out on it, and what follows for
//! the controller's writes and calibration plans.
//!
//! The output is taken to show the duty last written to it. A single output
//! is one duty; a multi-channel output is a map from channel to duty.

use crate::calibration::{channel_plan, channel_writes, plan};
use crate::esc::Esc;
use crate::step::{ChannelDuty, ChannelStep, Step};
use vstd::prelude::*;

verus! {

impl Step {
    /// The duty on the output once the step is carried out, given the duty
    /// `shown` before it.
    pub open spec fn shown_after(self, shown: u16) -> u16 {
        match self {
            Step::Write(duty) => duty,
            Step::Wait(_) => shown,
        }
    }
}

impl<C> ChannelStep<C> {
    /// The duties on the channels once the step is carried out, given the
    /// duties `shown` before it.
    pub open spec fn shown_after(self, shown: Map<C, u16>) -> Map<C, u16> {
        match self {
            ChannelStep::Write(write) => shown.insert(write.channel, write.duty),
            ChannelStep::Wait(_) => shown,
        }
    }
}

/// The duty on the output once `steps` are carried out in order.
pub open spec fn shown_after_all(steps: Seq<Step>, shown: u16) -> u16
    decreases steps.len(),
{
    if steps.len() == 0 {
        shown
    } else {
        steps.last().shown_after(shown_after_all(steps.drop_last(), shown))
    }
}

/// The duties on the channels once `steps` are carried out in order.
pub open spec fn channels_shown_after_all<C>(steps: Seq<ChannelStep<C>>, shown: Map<C, u16>) -> Map<
    C,
    u16,
>
    decreases steps.len(),
{
    if steps.len() == 0 {
        shown
    } else {
        steps.last().shown_after(channels_shown_after_all(steps.drop_last(), shown))
    }
}

/// Whatever is asked for, the duty that the controller commands lies within
/// its bounds, provided they are ordered.
pub proof fn commanded_duty_within_bounds<P>(esc: Esc<P>, duty: u16)
    requires
        esc.bounds_ordered(),
    ensures
        esc.min_duty <= esc.commanded(duty) <= esc.max_duty,
        esc.min_duty <= duty <= esc.max_duty ==> esc.commanded(duty) == duty,
        esc.commanded(esc.max_duty) == esc.max_duty,
        esc.commanded(esc.min_duty) == esc.min_duty,
{
}

/// A controller whose disarm duty was never set disarms to its lower bound.
pub proof fn unset_disarm_duty_commands_lower_bound<P>(esc: Esc<P>)
    requires
        esc.disarm_duty == 0,
    ensures
        esc.commanded(esc.disarm_duty) == esc.min_duty,
{
}

/// Once a write of the controller is carried out, a single output shows the
/// commanded duty, whatever it showed before.
pub proof fn write_shows_commanded_duty<P>(esc: Esc<P>, duty: u16, shown: u16)
    ensures
        Step::Write(esc.commanded(duty)).shown_after(shown) == esc.commanded(duty),
{
}

/// Once a write of the controller to one channel is carried out, that channel
/// shows the commanded duty, and every other channel shows what it showed
/// before.
pub proof fn channel_write_shows_commanded_duty<P, C>(
    esc: Esc<P>,
    channel: C,
    duty: u16,
    shown: Map<C, u16>,
)
    ensures
        ({
            let write = ChannelStep::Write(ChannelDuty { channel, duty: esc.commanded(duty) });
            let after = write.shown_after(shown);
            &&& after.contains_key(channel)
            &&& after[channel] == esc.commanded(duty)
            &&& forall|other: C|
                other != channel ==> after.contains_key(other) == #[trigger] shown.contains_key(
                    other,
                ) && (shown.contains_key(other) ==> after[other] == shown[other])
        }),
{
}

/// Driving a single output to the upper bound twice in a row leaves it showing
/// what one such write leaves.
pub proof fn max_duty_twice_shows_as_once<P>(esc: Esc<P>, shown: u16)
    ensures
        ({
            let write = Step::Write(esc.commanded(esc.max_duty));
            write.shown_after(write.shown_after(shown)) == write.shown_after(shown)
        }),
{
}

/// Driving a channel to the upper bound twice in a row leaves the channels
/// showing what one such write leaves.
pub proof fn channel_max_duty_twice_shows_as_once<P, C>(esc: Esc<P>, channel: C, shown: Map<C, u16>)
    ensures
        ({
            let write = ChannelStep::Write(
                ChannelDuty { channel, duty: esc.commanded(esc.max_duty) },
            );
            write.shown_after(write.shown_after(shown)) == write.shown_after(shown)
        }),
{
}

/// During the first wait of a calibration the output shows `high`, and during
/// the second it shows `low`; the two waits are equally long.
pub proof fn plan_holds_high_then_low(high: u16, low: u16, wait_ms: u32, shown: u16)
    ensures
        ({
            let steps = plan(high, low, wait_ms);
            &&& steps.len() == 4
            &&& steps[1] == Step::Wait(wait_ms)
            &&& steps[3] == Step::Wait(wait_ms)
            &&& shown_after_all(steps.take(1), shown) == high
            &&& shown_after_all(steps.take(3), shown) == low
            &&& shown_after_all(steps, shown) == low
        }),
{
    reveal_with_fuel(shown_after_all, 5);
}

/// Carrying out `first` and then `second` is carrying out the two in a row.
proof fn channels_shown_after_both<C>(
    first: Seq<ChannelStep<C>>,
    second: Seq<ChannelStep<C>>,
    shown: Map<C, u16>,
)
    ensures
        channels_shown_after_all(first + second, shown) == channels_shown_after_all(
            second,
            channels_shown_after_all(first, shown),
        ),
    decreases second.len(),
{
    if second.len() > 0 {
        assert((first + second).drop_last() =~= first + second.drop_last());
        channels_shown_after_both(first, second.drop_last(), shown);
    }
}

/// Writing `duty` to each of `channels` leaves each of them showing `duty`
/// and every other channel as it was.
proof fn channels_shown_after_writes<C>(channels: Seq<C>, duty: u16, shown: Map<C, u16>)
    ensures
        ({
            let after = channels_shown_after_all(channel_writes(channels, duty), shown);
            &&& forall|c: C| #[trigger]
                channels.contains(c) ==> after.contains_key(c) && after[c] == duty
            &&& forall|c: C|
                !#[trigger] channels.contains(c) ==> after.contains_key(c) == shown.contains_key(c)
                    && (shown.contains_key(c) ==> after[c] == shown[c])
        }),
    decreases channels.len(),
{
    let writes = channel_writes(channels, duty);
    if channels.len() > 0 {
        let earlier = channels.drop_last();
        assert(writes.drop_last() =~= channel_writes(earlier, duty));
        channels_shown_after_writes(earlier, duty, shown);
        let after = channels_shown_after_all(writes, shown);
        assert forall|c: C| #[trigger] channels.contains(c) implies after.contains_key(c)
            && after[c] == duty by {
            let i = choose|i: int| 0 <= i < channels.len() && channels[i] == c;
            if i < channels.len() - 1 {
                assert(earlier[i] == c);
                assert(earlier.contains(c));
            }
        }
        assert forall|c: C| !#[trigger] channels.contains(c) implies after.contains_key(c)
            == shown.contains_key(c) && (shown.contains_key(c) ==> after[c] == shown[c]) by {
            if earlier.contains(c) {
                let i = choose|i: int| 0 <= i < earlier.len() && earlier[i] == c;
                assert(channels[i] == c);
            }
        }
    }
}

/// When the first wait of a calibration of `channels` begins, each of them
/// shows `high`; when the second begins, each shows `low`. A channel that is
/// not among them shows throughout what it showed before. The two waits are
/// equally long, one after each round of writes.
pub proof fn channel_plan_holds_high_then_low<C>(
    high: u16,
    low: u16,
    wait_ms: u32,
    channels: Seq<C>,
    shown: Map<C, u16>,
)
    ensures
        ({
            let steps = channel_plan(high, low, wait_ms, channels);
            let listed = channels.len() as int;
            let at_first_wait = channels_shown_after_all(steps.take(listed), shown);
            let at_second_wait = channels_shown_after_all(steps.take(2 * listed + 1), shown);
            &&& steps.len() == 2 * listed + 2
            &&& steps[listed] == ChannelStep::<C>::Wait(wait_ms)
            &&& steps[2 * listed + 1] == ChannelStep::<C>::Wait(wait_ms)
            &&& forall|i: int|
                0 <= i < listed ==> #[trigger] steps[i] == ChannelStep::Write(
                    ChannelDuty { channel: channels[i], duty: high },
                )
            &&& forall|i: int|
                0 <= i < listed ==> #[trigger] steps[listed + 1 + i] == ChannelStep::Write(
                    ChannelDuty { channel: channels[i], duty: low },
                )
            &&& forall|c: C| #[trigger]
                channels.contains(c) ==> at_first_wait.contains_key(c) && at_first_wait[c] == high
                    && at_second_wait.contains_key(c) && at_second_wait[c] == low
            &&& forall|c: C|
                !#[trigger] channels.contains(c) ==> at_first_wait.contains_key(c)
                    == shown.contains_key(c) && at_second_wait.contains_key(c)
                    == shown.contains_key(c) && (shown.contains_key(c) ==> at_first_wait[c]
                    == shown[c] && at_second_wait[c] == shown[c])
        }),
{
    let steps = channel_plan(high, low, wait_ms, channels);
    let listed = channels.len() as int;
    let highs = channel_writes(channels, high);
    let lows = channel_writes(channels, low);
    let wait = seq![ChannelStep::<C>::Wait(wait_ms)];
    let at_first_wait = channels_shown_after_all(highs, shown);
    assert(steps.take(listed) =~= highs);
    assert(steps.take(2 * listed + 1) =~= (highs + wait) + lows);
    channels_shown_after_writes(channels, high, shown);
    channels_shown_after_both(highs, wait, shown);
    assert(channels_shown_after_all(highs + wait, shown) == at_first_wait) by {
        reveal_with_fuel(channels_shown_after_all, 2);
    }
    channels_shown_after_both(highs + wait, lows, shown);
    channels_shown_after_writes(channels, low, at_first_wait);
}

} // verus!
