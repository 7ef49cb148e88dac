//! Clamping of a duty into the configured range.

use vstd::math::{max, min};
use vstd::prelude::*;

verus! {

/// The duty that stands for `value` under the bounds `min_duty` and `max_duty`:
/// `value` capped at `max_duty`, the outcome then raised to `min_duty`.
///
/// The bounds are meant to be ordered. Where they are not, the result is
/// `min_duty` whatever `value` is.
pub open spec fn clamped(value: u16, min_duty: u16, max_duty: u16) -> u16 {
    max(min(value as int, max_duty as int), min_duty as int) as u16
}

/// Clamps `value` into the range from `min_duty` to `max_duty`.
pub fn clamp(value: u16, min_duty: u16, max_duty: u16) -> (duty: u16)
    ensures
        duty == clamped(value, min_duty, max_duty),
        min_duty <= max_duty ==> min_duty <= duty <= max_duty,
        min_duty <= value <= max_duty ==> duty == value,
        min_duty <= max_duty && value < min_duty ==> duty == min_duty,
        min_duty <= max_duty && value > max_duty ==> duty == max_duty,
{
    let capped = if value < max_duty {
        value
    } else {
        max_duty
    };
    if capped > min_duty {
        capped
    } else {
        min_duty
    }
}

/// Under ordered bounds a clamped duty lies within them; it is the value itself
/// where that already lies within, the lower bound for a value beneath it and
/// the upper bound for a value above it.
pub proof fn clamped_within_bounds(value: u16, min_duty: u16, max_duty: u16)
    requires
        min_duty <= max_duty,
    ensures
        min_duty <= clamped(value, min_duty, max_duty) <= max_duty,
        min_duty <= value <= max_duty ==> clamped(value, min_duty, max_duty) == value,
        value < min_duty ==> clamped(value, min_duty, max_duty) == min_duty,
        value > max_duty ==> clamped(value, min_duty, max_duty) == max_duty,
{
}

/// Clamping twice under the same bounds changes nothing more.
pub proof fn clamped_is_idempotent(value: u16, min_duty: u16, max_duty: u16)
    ensures
        clamped(clamped(value, min_duty, max_duty), min_duty, max_duty) == clamped(
            value,
            min_duty,
            max_duty,
        ),
{
}

/// Under inverted bounds every value is clamped to the lower bound.
pub proof fn clamped_under_inverted_bounds(value: u16, min_duty: u16, max_duty: u16)
    requires
        min_duty > max_duty,
    ensures
        clamped(value, min_duty, max_duty) == min_duty,
{
}

} // verus!
