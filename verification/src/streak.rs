//! The daily-streak rule: a pure function from the last recorded activity
//! day and the streak counter so far to the next streak value.
//!
//! Days are counted as whole day numbers since a fixed epoch, so "yesterday"
//! is exactly `today - 1`.

use vstd::prelude::*;

verus! {

/// What the streak becomes when activity is recorded on `today`.
///
/// - no prior activity: the streak starts at 1;
/// - same day again: unchanged;
/// - the day right after the last activity: one more (capped at the
///   machine limit);
/// - any longer gap, or a last-activity day in the future (clock skew):
///   reset to 1.
pub open spec fn spec_next_streak(last_activity: Option<u32>, current: u32, today: u32) -> u32 {
    match last_activity {
        None => 1u32,
        Some(last) => {
            if today == last {
                current
            } else if today == last + 1 {
                if current == u32::MAX {
                    u32::MAX
                } else {
                    (current + 1) as u32
                }
            } else {
                1u32
            }
        },
    }
}

/// Computes the streak that results from activity on `today`, given the
/// previous activity day (if any) and the streak counter so far.
pub fn next_streak(last_activity: Option<u32>, current: u32, today: u32) -> (r: u32)
    ensures
        r == spec_next_streak(last_activity, current, today),
{
    match last_activity {
        None => 1,
        Some(last) => {
            if today == last {
                current
            } else if last < u32::MAX && today == last + 1 {
                current.saturating_add(1)
            } else {
                1
            }
        },
    }
}

/// The streak never jumps: a single update moves the counter to 1, keeps
/// it, or raises it by exactly one.
pub proof fn lemma_streak_step_bounded(last_activity: Option<u32>, current: u32, today: u32)
    ensures
        spec_next_streak(last_activity, current, today) == 1
            || spec_next_streak(last_activity, current, today) == current
            || spec_next_streak(last_activity, current, today) == current + 1,
{
}

/// Recording activity twice on the same day leaves the streak where the
/// first update put it.
pub proof fn lemma_streak_same_day_idempotent(
    last_activity: Option<u32>,
    current: u32,
    today: u32,
)
    ensures
        spec_next_streak(
            Some(today),
            spec_next_streak(last_activity, current, today),
            today,
        ) == spec_next_streak(last_activity, current, today),
{
}

} // verus!
