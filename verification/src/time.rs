//! Readings of the two clocks and the spans between them.
use vstd::prelude::*;

verus! {

/// Nanoseconds in a second.
pub const NANOS_PER_SEC: i128 = 1_000_000_000;

/// One reading of both clocks.
#[derive(Clone, Copy, Debug)]
pub struct Now {
    /// Nanoseconds on a clock that never runs backwards.
    pub instant: u64,
    /// Nanoseconds since the Unix epoch (UTC).
    pub utc: i64,
}

/// Nanoseconds from `earlier` to `later`, zero where they stand the other way round.
pub open spec fn nanos_since(later: u64, earlier: u64) -> int {
    if later >= earlier {
        later - earlier
    } else {
        0
    }
}

/// Whole milliseconds from `earlier` to `later`, zero where they stand the other way round.
pub open spec fn millis_between(later: u64, earlier: u64) -> int {
    nanos_since(later, earlier) / 1_000_000
}

/// Whole seconds in a signed span of nanoseconds; a broken second is dropped.
pub open spec fn whole_secs(nanos: int) -> int {
    if nanos >= 0 {
        nanos / 1_000_000_000
    } else {
        -((-nanos) / 1_000_000_000)
    }
}

/// Nanoseconds from `earlier` to `later`, zero where they stand the other way round.
pub fn elapsed_nanos(later: u64, earlier: u64) -> (r: u64)
    ensures
        r == nanos_since(later, earlier),
{
    if later >= earlier {
        later - earlier
    } else {
        0
    }
}

/// Whole milliseconds from `earlier` to `later`, zero where they stand the other way round.
pub fn elapsed_millis(later: u64, earlier: u64) -> (r: u64)
    ensures
        r == millis_between(later, earlier),
{
    elapsed_nanos(later, earlier) / 1_000_000
}

/// Whole seconds from `start` to `end`, negative where `end` is the earlier one.
pub fn seconds_between(end: i64, start: i64) -> (r: i64)
    ensures
        r == whole_secs(end - start),
{
    let span: i128 = end as i128 - start as i128;
    if span >= 0 {
        (span / NANOS_PER_SEC) as i64
    } else {
        -(((-span) / NANOS_PER_SEC) as i64)
    }
}

} // verus!
