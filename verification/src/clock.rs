//! Wall-clock and monotonic time as plain values.

use vstd::prelude::*;

verus! {

/// A UTC instant as whole seconds since the Unix epoch plus nanoseconds
/// within that second (above 999,999,999 only during a leap second).
#[derive(Debug, Clone, Copy, PartialEq, Eq)]
pub struct UtcTimestamp {
    pub secs: i64,
    pub nanos: u32,
}

/// Nanoseconds since the epoch that `t` stands for.
pub open spec fn epoch_nanos(t: UtcTimestamp) -> int {
    t.secs * 1_000_000_000 + t.nanos
}

/// Whole milliseconds from `start` to `end`, or 0 when `end` is not after
/// `start`; capped at `u64::MAX`, which no two instants in chrono's
/// representable range come near.
pub open spec fn millis_between(start: UtcTimestamp, end: UtcTimestamp) -> int {
    let d = epoch_nanos(end) - epoch_nanos(start);
    if d <= 0 {
        0
    } else if d / 1_000_000 > u64::MAX {
        u64::MAX as int
    } else {
        d / 1_000_000
    }
}

/// Durations are whole milliseconds, rounded down: no time passes when the
/// end is not after the start; otherwise the result `ms` (short of the
/// `u64::MAX` cap) satisfies `ms` million nanoseconds <= elapsed < `ms + 1`
/// million; one second later at the same sub-second offset is 1000 ms; and a
/// later end never gives a shorter duration.
pub proof fn law_millis_between(start: UtcTimestamp, end: UtcTimestamp, later: UtcTimestamp)
    ensures
        0 <= millis_between(start, end) <= u64::MAX,
        epoch_nanos(end) <= epoch_nanos(start) ==> millis_between(start, end) == 0,
        millis_between(start, end) < u64::MAX && epoch_nanos(end) > epoch_nanos(start) ==> {
            &&& millis_between(start, end) * 1_000_000 <= epoch_nanos(end) - epoch_nanos(start)
            &&& epoch_nanos(end) - epoch_nanos(start) < (millis_between(start, end) + 1) * 1_000_000
        },
        end.secs == start.secs + 1 && end.nanos == start.nanos ==> millis_between(start, end) == 1000,
        epoch_nanos(end) <= epoch_nanos(later) ==> millis_between(start, end) <= millis_between(start, later),
{
    let d = epoch_nanos(end) - epoch_nanos(start);
    let d2 = epoch_nanos(later) - epoch_nanos(start);
    if d > 0 {
        assert(d / 1_000_000 * 1_000_000 <= d < (d / 1_000_000 + 1) * 1_000_000) by (nonlinear_arith)
            requires
                d > 0,
        ;
    }
    if d <= d2 {
        assert(d / 1_000_000 <= d2 / 1_000_000) by (nonlinear_arith)
            requires
                d <= d2,
        ;
    }
}

#[verifier::external_type_specification]
#[verifier::external_body]
pub struct ExInstant(std::time::Instant);

#[verifier::external_type_specification]
#[verifier::external_body]
pub struct ExSystemTime(std::time::SystemTime);

/// Time elapsed since `started` (`Instant::elapsed`). Nothing is stated of
/// the value: it depends on the monotonic clock.
#[verifier::external_body]
fn elapsed_since(started: &std::time::Instant) -> std::time::Duration {
    started.elapsed()
}

/// Whole milliseconds of `d` (`Duration::as_millis`). Nothing is stated of
/// the value: a duration's contents are not visible here.
#[verifier::external_body]
fn whole_millis(d: &std::time::Duration) -> u128 {
    d.as_millis()
}

/// Whole milliseconds elapsed since `started`, truncated to `u64`.
pub(crate) fn millis_since(started: &std::time::Instant) -> u64 {
    let d = elapsed_since(started);
    whole_millis(&d) as u64
}

/// The current system time (`SystemTime::now`). Nothing is stated of it.
#[verifier::external_body]
fn system_now() -> std::time::SystemTime {
    std::time::SystemTime::now()
}

/// Time from the Unix epoch to `t` (`SystemTime::duration_since(UNIX_EPOCH)`),
/// or `None` when `t` is earlier. Nothing is stated of the duration.
#[verifier::external_body]
fn since_unix_epoch(t: &std::time::SystemTime) -> Option<std::time::Duration> {
    t.duration_since(std::time::UNIX_EPOCH).ok()
}

/// Nanoseconds within the last whole second of `d` (`Duration::subsec_nanos`):
/// below one billion, as its documentation states.
#[verifier::external_body]
fn subsec_nanos(d: &std::time::Duration) -> (n: u32)
    ensures
        n < 1_000_000_000,
{
    d.subsec_nanos()
}

/// Whole seconds of `d` (`Duration::as_secs`). Nothing is stated of the
/// value: a duration's contents are not visible here.
#[verifier::external_body]
fn whole_secs(d: &std::time::Duration) -> u64 {
    d.as_secs()
}

/// The current UTC time, read from the system clock as time since the Unix
/// epoch (what `chrono::Utc::now` reads). A clock before the epoch reads as
/// the epoch itself, and seconds past `i64::MAX` are capped there. Nothing
/// more is stated of the value: it is whatever the clock reads.
pub(crate) fn utc_now() -> (t: UtcTimestamp)
    ensures
        t.secs >= 0,
        t.nanos < 1_000_000_000,
{
    let now = system_now();
    match since_unix_epoch(&now) {
        Some(d) => {
            let s = whole_secs(&d);
            let secs: i64 = if s <= i64::MAX as u64 { s as i64 } else { i64::MAX };
            UtcTimestamp { secs, nanos: subsec_nanos(&d) }
        },
        None => UtcTimestamp { secs: 0, nanos: 0 },
    }
}

/// Sub-second nanoseconds of the system clock since the Unix epoch, or `None`
/// when the clock reads before the epoch.
pub(crate) fn clock_subsec_nanos() -> (n: Option<u32>)
    ensures
        n matches Some(v) ==> v < 1_000_000_000,
{
    let now = system_now();
    match since_unix_epoch(&now) {
        Some(d) => Some(subsec_nanos(&d)),
        None => None,
    }
}

/// Whole milliseconds from `start` to `end` (0 when `end` is not later), the
/// way a `chrono` duration's `num_milliseconds().max(0)` counts them.
pub fn millis_between_exec(start: UtcTimestamp, end: UtcTimestamp) -> (ms: u64)
    ensures
        ms == millis_between(start, end),
{
    let s = start.secs as i128 * 1_000_000_000i128 + start.nanos as i128;
    let e = end.secs as i128 * 1_000_000_000i128 + end.nanos as i128;
    let d = e - s;
    if d <= 0 {
        0
    } else {
        let ms = d / 1_000_000i128;
        if ms > u64::MAX as i128 {
            u64::MAX
        } else {
            ms as u64
        }
    }
}

} // verus!
