//! Elapsed-time computation for jobs.
//!
//! Timestamps arrive as RFC 3339 text.  Parsing them, and reading the clock,
//! is the work of outside code; everything computed from the readings is
//! verified here.  A malformed timestamp never fails hard: it degrades the
//! affected threshold check to "no elapsed value".  Elapsed time is a count
//! of seconds a job has run, so a start timestamp that lies after `now`
//! (clock skew between the CI server and this machine) counts as zero
//! seconds, never as a negative or wrapped value.

use vstd::prelude::*;

verus! {

/// Lower bound on any epoch value the library works with (see
/// [`parse_rfc3339_epoch`] and [`now_epoch`]).
pub const MIN_EPOCH_SECONDS: i64 = -9_000_000_000_000;

/// Upper bound on any epoch value the library works with (see
/// [`parse_rfc3339_epoch`] and [`now_epoch`]).
pub const MAX_EPOCH_SECONDS: i64 = 9_000_000_000_000;

/// The epoch seconds denoted by a piece of RFC 3339 text, or nothing when the
/// text is not a well-formed date-time.  What this function returns on a
/// given sequence is defined by the parser alone; the library only relies on
/// it being a function of the characters.
pub uninterp spec fn rfc3339_epoch(s: Seq<char>) -> Option<i64>;

/// Relies on `chrono::DateTime::parse_from_rfc3339` and
/// `DateTime::timestamp`: parsing neither consults the clock nor any
/// environment, so the result is a function of the characters alone; and
/// every chrono date-time lies within years ±262142, so its epoch value fits
/// well within ±9·10^12 seconds.
#[verifier::external_body]
pub fn parse_rfc3339_epoch(s: &str) -> (r: Option<i64>)
    ensures
        r == rfc3339_epoch(s@),
        r is Some ==> MIN_EPOCH_SECONDS <= r->0 <= MAX_EPOCH_SECONDS,
{
    match chrono::DateTime::parse_from_rfc3339(s) {
        Ok(dt) => Some(dt.timestamp()),
        Err(_) => None,
    }
}

/// Relies on `std::time::SystemTime::now`, with `duration_since` and
/// `Duration::as_secs` converting its reading to whole seconds since the
/// Unix epoch — or to nothing when the clock stands before the epoch, so the
/// call returns on every clock state instead of failing.  Nothing is assumed
/// of the value; two calls may return anything.
#[verifier::external_body]
fn system_clock_epoch() -> (r: Option<u64>) {
    match std::time::SystemTime::now().duration_since(std::time::UNIX_EPOCH) {
        Ok(d) => Some(d.as_secs()),
        Err(_) => None,
    }
}

/// A clock reading reduced to a bounded epoch value: a clock before the
/// epoch counts as the epoch itself, and a reading beyond the covered range
/// is held at the bound.
pub open spec fn clamp_epoch_spec(reading: Option<u64>) -> i64 {
    match reading {
        None => 0,
        Some(s) => if s > MAX_EPOCH_SECONDS as u64 {
            MAX_EPOCH_SECONDS
        } else {
            s as i64
        },
    }
}

/// Reads the clock and clamps the reading into the covered epoch range, as
/// [`clamp_epoch_spec`] defines.  Total on every clock state.
pub fn now_epoch() -> (r: i64)
    ensures
        MIN_EPOCH_SECONDS <= r <= MAX_EPOCH_SECONDS,
        exists|reading: Option<u64>| r == clamp_epoch_spec(reading),
{
    let reading = system_clock_epoch();
    let r: i64 = match reading {
        None => 0,
        Some(s) => if s > MAX_EPOCH_SECONDS as u64 {
            MAX_EPOCH_SECONDS
        } else {
            s as i64
        },
    };
    proof {
        assert(r == clamp_epoch_spec(reading));
    }
    r
}

/// The seconds from `start` to `now`: their difference, held at zero when
/// `start` lies after `now`.
pub open spec fn elapsed_diff_u64(now: int, start: int) -> u64
    recommends
        MIN_EPOCH_SECONDS <= now <= MAX_EPOCH_SECONDS,
        MIN_EPOCH_SECONDS <= start <= MAX_EPOCH_SECONDS,
{
    if now >= start {
        (now - start) as u64
    } else {
        0
    }
}

/// The elapsed active seconds of a job at instant `now`: measured from the
/// start timestamp when that parses, else from the creation timestamp when
/// that parses, else undefined.
pub open spec fn elapsed_seconds_spec(
    now: i64,
    started_at: Option<Seq<char>>,
    created_at: Seq<char>,
) -> Option<u64> {
    let start = match started_at {
        Some(s) => rfc3339_epoch(s),
        None => None,
    };
    match start {
        Some(t) => Some(elapsed_diff_u64(now as int, t as int)),
        None => match rfc3339_epoch(created_at) {
            Some(t) => Some(elapsed_diff_u64(now as int, t as int)),
            None => None,
        },
    }
}

/// The difference `now - start`, held at zero when negative.
fn diff_clamped(now: i64, start: i64) -> (r: u64)
    requires
        MIN_EPOCH_SECONDS <= now <= MAX_EPOCH_SECONDS,
        MIN_EPOCH_SECONDS <= start <= MAX_EPOCH_SECONDS,
    ensures
        r == elapsed_diff_u64(now as int, start as int),
{
    if now >= start {
        (now - start) as u64
    } else {
        0
    }
}

/// Computes the elapsed active seconds of a job at instant `now`, exactly as
/// [`elapsed_seconds_spec`] defines them.
pub fn elapsed_seconds_at(now: i64, started_at: &Option<String>, created_at: &String) -> (r: Option<
    u64,
>)
    requires
        MIN_EPOCH_SECONDS <= now <= MAX_EPOCH_SECONDS,
    ensures
        r == elapsed_seconds_spec(now, started_at.deep_view(), created_at@),
{
    let start: Option<i64> = match started_at {
        Some(s) => parse_rfc3339_epoch(s.as_str()),
        None => None,
    };
    let base: Option<i64> = match start {
        Some(t) => Some(t),
        None => parse_rfc3339_epoch(created_at.as_str()),
    };
    match base {
        Some(t) => Some(diff_clamped(now, t)),
        None => None,
    }
}

} // verus!
