//! The human-readable elapsed-time converter. Whole seconds are bracketed
//! into seconds, minutes, hours or days; the displayed amount is the quotient
//! rounded half up. A timestamp in the future counts as zero seconds elapsed
//! rather than failing.

use vstd::prelude::*;

use crate::digits::{spec_dec, u64_to_dec};
use vstd::string::StringExecFns;

verus! {

/// The bracket an elapsed duration is displayed in.
#[derive(Clone, Copy, Debug, PartialEq, Eq, Structural)]
pub enum TimeUnit {
    Seconds,
    Minutes,
    Hours,
    Days,
}

/// A human-scaled elapsed duration: a rounded amount and its unit.
#[derive(Clone, Copy, Debug, PartialEq, Eq, Structural)]
pub struct ElapsedDisplay {
    /// The rounded number of units.
    pub amount: u64,
    /// The displayed unit.
    pub unit: TimeUnit,
}

/// The bracket of an elapsed duration: below a minute, seconds; below an
/// hour, minutes; below a day, hours; otherwise days.
pub open spec fn spec_elapsed_unit(secs: u64) -> TimeUnit {
    if secs < 60 {
        TimeUnit::Seconds
    } else if secs < 3600 {
        TimeUnit::Minutes
    } else if secs < 86400 {
        TimeUnit::Hours
    } else {
        TimeUnit::Days
    }
}

/// The displayed amount: the quotient of the duration by its bracket's
/// length in seconds, rounded half up; seconds are shown exactly.
pub open spec fn spec_elapsed_amount(secs: u64) -> int {
    match spec_elapsed_unit(secs) {
        TimeUnit::Seconds => secs as int,
        TimeUnit::Minutes => (secs + 30) / 60,
        TimeUnit::Hours => (secs + 1800) / 3600,
        TimeUnit::Days => (secs + 43200) / 86400,
    }
}

/// A rounded quotient of a sixty-four-bit second count fits back into
/// sixty-four bits for every bracket length from a minute up.
proof fn lemma_rounded_fits(x: int, d: int)
    requires
        0 <= x <= u64::MAX + 43200,
        60 <= d,
    ensures
        0 <= x / d <= u64::MAX,
{
    vstd::arithmetic::div_mod::lemma_div_pos_is_pos(x, d);
    vstd::arithmetic::div_mod::lemma_div_is_ordered_by_denominator(x, 60, d);
    vstd::arithmetic::div_mod::lemma_div_is_ordered(x, u64::MAX + 43200, 60);
    assert((u64::MAX + 43200) / 60 <= u64::MAX);
}

/// Brackets a whole-second duration for display.
pub fn humanize_elapsed(secs: u64) -> (r: ElapsedDisplay)
    ensures
        r.unit == spec_elapsed_unit(secs),
        r.amount == spec_elapsed_amount(secs),
{
    if secs < 60 {
        ElapsedDisplay { amount: secs, unit: TimeUnit::Seconds }
    } else if secs < 3600 {
        let a = ((secs as u128 + 30) / 60) as u64;
        proof {
            lemma_rounded_fits(secs + 30, 60);
        }
        ElapsedDisplay { amount: a, unit: TimeUnit::Minutes }
    } else if secs < 86400 {
        let a = ((secs as u128 + 1800) / 3600) as u64;
        proof {
            lemma_rounded_fits(secs + 1800, 3600);
        }
        ElapsedDisplay { amount: a, unit: TimeUnit::Hours }
    } else {
        let a = ((secs as u128 + 43200) / 86400) as u64;
        proof {
            lemma_rounded_fits(secs + 43200, 86400);
        }
        ElapsedDisplay { amount: a, unit: TimeUnit::Days }
    }
}

/// Whole seconds between two moments given as seconds since a common epoch;
/// a past moment that lies ahead of now counts as zero.
pub fn elapsed_seconds(past: u64, now: u64) -> (r: u64)
    ensures
        r == if past <= now {
            now - past
        } else {
            0int
        },
{
    if past <= now {
        now - past
    } else {
        0
    }
}

/// The wording of a bracket's suffix.
pub open spec fn spec_unit_suffix(u: TimeUnit) -> Seq<char> {
    match u {
        TimeUnit::Seconds => " sec(s) ago"@,
        TimeUnit::Minutes => " min(s) ago"@,
        TimeUnit::Hours => " hr(s) ago"@,
        TimeUnit::Days => " day(s) ago"@,
    }
}

/// The display form of an elapsed duration: the amount and the bracket's
/// suffix.
pub open spec fn spec_render_elapsed(e: ElapsedDisplay) -> Seq<char> {
    spec_dec(e.amount as nat) + spec_unit_suffix(e.unit)
}

/// Renders an elapsed duration for display.
pub fn render_elapsed(e: &ElapsedDisplay) -> (s: String)
    ensures
        s@ == spec_render_elapsed(*e),
{
    let mut s = u64_to_dec(e.amount);
    match e.unit {
        TimeUnit::Seconds => s.append(" sec(s) ago"),
        TimeUnit::Minutes => s.append(" min(s) ago"),
        TimeUnit::Hours => s.append(" hr(s) ago"),
        TimeUnit::Days => s.append(" day(s) ago"),
    }
    s
}

/// The order of the brackets, shortest first.
pub open spec fn unit_rank(u: TimeUnit) -> int {
    match u {
        TimeUnit::Seconds => 0,
        TimeUnit::Minutes => 1,
        TimeUnit::Hours => 2,
        TimeUnit::Days => 3,
    }
}

/// Bracketing is monotonic: a duration no longer than another is never
/// displayed in a larger unit.
pub proof fn lemma_elapsed_unit_monotonic(s1: u64, s2: u64)
    requires
        s1 <= s2,
    ensures
        unit_rank(spec_elapsed_unit(s1)) <= unit_rank(spec_elapsed_unit(s2)),
{
}

} // verus!
