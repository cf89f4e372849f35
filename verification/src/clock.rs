//! The wall clock, read in milliseconds since the Unix epoch.
use vstd::prelude::*;

verus! {

/// The largest distance from the Unix epoch, in milliseconds, that a reading
/// of the clock is given as (about 317000 years); a reading further away is
/// given as this distance.
pub const CLOCK_LIMIT_MS: i64 = 10_000_000_000_000_000;

/// The signed distance from the Unix epoch, in whole milliseconds, of a
/// reading `secs` seconds and `nanos` nanoseconds after the epoch (`after`)
/// or before it.
pub open spec fn reading_millis(after: bool, secs: u64, nanos: u32) -> int {
    let m = secs * 1000 + nanos / 1_000_000;
    if after {
        m
    } else {
        -m
    }
}

/// `x` brought within `CLOCK_LIMIT_MS` of zero.
pub open spec fn within_clock_limit(x: int) -> int {
    if x > CLOCK_LIMIT_MS {
        CLOCK_LIMIT_MS as int
    } else if x < -CLOCK_LIMIT_MS {
        -CLOCK_LIMIT_MS
    } else {
        x
    }
}

/// Reads the system clock: whether it reads after the Unix epoch, and how far
/// from it, in whole seconds and the nanoseconds beyond them.
///
/// Calls `SystemTime::elapsed` on `UNIX_EPOCH`, which gives the distance as
/// an error where the clock reads before the epoch, and does not panic. What
/// it returns depends on the clock: only that the nanoseconds stay below one
/// second is stated, as `Duration::subsec_nanos` documents.
#[verifier::external_body]
fn read_system_clock() -> (res: (bool, u64, u32))
    ensures
        res.2 < 1_000_000_000,
{
    match std::time::UNIX_EPOCH.elapsed() {
        Ok(d) => (true, d.as_secs(), d.subsec_nanos()),
        Err(e) => (false, e.duration().as_secs(), e.duration().subsec_nanos()),
    }
}

/// The milliseconds of a clock reading (see `reading_millis`), within
/// `CLOCK_LIMIT_MS` of the epoch.
pub fn clock_millis(after: bool, secs: u64, nanos: u32) -> (res: i64)
    requires
        nanos < 1_000_000_000,
    ensures
        res == within_clock_limit(reading_millis(after, secs, nanos)),
{
    let m: u128 = (secs as u128) * 1000 + (nanos / 1_000_000) as u128;
    let limit: u128 = CLOCK_LIMIT_MS as u128;
    let d: i64 = if m > limit {
        CLOCK_LIMIT_MS
    } else {
        m as i64
    };
    if after {
        d
    } else {
        -d
    }
}

/// The current time, in milliseconds since the Unix epoch (negative before
/// it), read from the system clock (see `clock_millis`). What it returns
/// depends on the clock; only its range is stated.
pub fn now_millis() -> (res: i64)
    ensures
        -CLOCK_LIMIT_MS <= res <= CLOCK_LIMIT_MS,
{
    let (after, secs, nanos) = read_system_clock();
    clock_millis(after, secs, nanos)
}

} // verus!
