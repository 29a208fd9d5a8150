//! The fixed catalogue of lock terms and their flat payouts.
use vstd::prelude::*;

verus! {

/// A lock of seven days.
pub const PLAN1: u64 = 7;

/// A lock of fourteen days.
pub const PLAN2: u64 = 14;

/// A lock of thirty days.
pub const PLAN3: u64 = 30;

/// Seconds in one day.
pub const SECONDS_PER_DAY: u64 = 86400;

/// The terms that may be chosen, in days.
pub open spec fn valid_plan(plan: u64) -> bool {
    plan == PLAN1 || plan == PLAN2 || plan == PLAN3
}

/// Length of a term in seconds.
pub open spec fn term_of(plan: u64) -> int {
    plan * SECONDS_PER_DAY
}

/// Flat payout of a term; nothing for a term outside the catalogue.
pub open spec fn reward_of(plan: u64) -> int {
    if plan == PLAN1 {
        14
    } else if plan == PLAN2 {
        28
    } else if plan == PLAN3 {
        60
    } else {
        0
    }
}

/// Whether `plan` is one of the catalogue's terms.
pub fn is_valid_plan(plan: u64) -> (r: bool)
    ensures
        r == valid_plan(plan),
{
    plan == PLAN1 || plan == PLAN2 || plan == PLAN3
}

/// Length of a catalogue term in seconds.
pub fn term_seconds(plan: u64) -> (r: u64)
    requires
        valid_plan(plan),
    ensures
        r == term_of(plan),
{
    plan * SECONDS_PER_DAY
}

/// Flat payout of a term: 14, 28 and 60 units for 7, 14 and 30 days, and
/// 0 for any other value.
pub fn reward_for(plan: u64) -> (r: i128)
    ensures
        r == reward_of(plan),
{
    if plan == PLAN1 {
        14
    } else if plan == PLAN2 {
        28
    } else if plan == PLAN3 {
        60
    } else {
        0
    }
}

/// The moment at which a lock of `plan` taken at `now` expires.
pub fn end_time(now: u64, plan: u64) -> (r: u64)
    requires
        valid_plan(plan),
        now + term_of(plan) <= u64::MAX,
    ensures
        r == now + term_of(plan),
{
    now + term_seconds(plan)
}

} // verus!
