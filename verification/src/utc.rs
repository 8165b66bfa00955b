//! Points in UTC time and the calls into `chrono` (and the protobuf
//! timestamp conversion of `pbjson_types`) that read and compare them.
use vstd::prelude::*;

verus! {

/// A point in UTC time: whole seconds since the Unix epoch and the
/// nanoseconds into the second (1 000 000 000 or more during a leap second).
#[derive(Debug, Clone, Copy, PartialEq, Eq)]
pub struct UtcTime {
    pub secs: i64,
    pub nanos: u32,
}

/// The day of the time, counted from the first day of the common era, fits
/// an `i32`: a date-time of `chrono` never lies outside these days.
pub open spec fn day_in_range(secs: i64) -> bool {
    i32::MIN <= secs / 86_400 + 719_163 <= i32::MAX
}

/// `a` is later than `b`.
pub open spec fn utc_after(a: UtcTime, b: UtcTime) -> bool {
    a.secs > b.secs || (a.secs == b.secs && a.nanos > b.nanos)
}

/// Whether a protobuf timestamp with these fields converts into a `chrono`
/// UTC date-time: it names the outcome of the date and time range checks of
/// `chrono`.
pub uninterp spec fn timestamp_converts(seconds: i64, nanos: i32) -> bool;

/// Calls the conversion of a `pbjson_types::Timestamp` into a
/// `chrono::DateTime<Utc>` and reads the result back as seconds and
/// nanoseconds. It fails on negative nanoseconds, and otherwise on a date or
/// time out of `chrono`'s range; a result has the fields it was given, with
/// fewer than 2 000 000 000 nanoseconds and its day in range.
#[verifier::external_body]
pub(crate) fn utc_from_timestamp(seconds: i64, nanos: i32) -> (r: Result<UtcTime, String>)
    ensures
        r is Ok <==> timestamp_converts(seconds, nanos),
        r matches Ok(t) ==> t.secs == seconds && t.nanos == nanos && nanos < 2_000_000_000
            && day_in_range(seconds),
        r matches Err(m) ==> m@ == (if nanos < 0 {
            "out of range integral type conversion attempted"@
        } else {
            "invalid or out-of-range datetime"@
        }),
{
    let ts = pbjson_types::Timestamp { seconds, nanos };
    match chrono::DateTime::<chrono::Utc>::try_from(ts) {
        Ok(dt) => Ok(UtcTime { secs: dt.timestamp(), nanos: dt.timestamp_subsec_nanos() }),
        Err(e) => Err(e.to_string()),
    }
}

/// Calls `chrono::Utc::now` and reads the result as seconds and nanoseconds:
/// the time of the clock, which is some valid date-time.
#[verifier::external_body]
pub(crate) fn utc_now() -> (t: UtcTime)
    ensures
        t.nanos < 2_000_000_000,
        day_in_range(t.secs),
        timestamp_converts(t.secs, t.nanos as i32),
{
    let dt = chrono::Utc::now();
    UtcTime { secs: dt.timestamp(), nanos: dt.timestamp_subsec_nanos() }
}

/// What `chrono` gives as the nanoseconds from one date-time to another.
pub uninterp spec fn utc_duration_nanos(
    from_secs: i64,
    from_nanos: u32,
    to_secs: i64,
    to_nanos: u32,
) -> int;

/// The nanoseconds from `from` to `to` counted as plain numbers.
pub open spec fn plain_nanos_between(from: UtcTime, to: UtcTime) -> int {
    (to.secs - from.secs) * 1_000_000_000 + (to.nanos - from.nanos)
}

/// Calls `chrono`'s subtraction of two UTC date-times (`to - from`) and
/// reads the difference back as whole seconds (rounded toward zero) and
/// the nanoseconds left, which have the sign of the difference. Outside
/// leap seconds the difference is the plain one; a leap second in either
/// time may add or take one second.
#[verifier::external_body]
pub(crate) fn utc_difference(from: UtcTime, to: UtcTime) -> (r: (i64, i32))
    requires
        from.nanos < 2_000_000_000,
        to.nanos < 2_000_000_000,
        timestamp_converts(from.secs, from.nanos as i32),
        timestamp_converts(to.secs, to.nanos as i32),
    ensures
        r.0 * 1_000_000_000 + r.1 == utc_duration_nanos(from.secs, from.nanos, to.secs, to.nanos),
        -1_000_000_000 < r.1 < 1_000_000_000,
        from.nanos < 1_000_000_000 && to.nanos < 1_000_000_000 ==> r.0 * 1_000_000_000 + r.1
            == plain_nanos_between(from, to),
        r.0 * 1_000_000_000 + r.1 == plain_nanos_between(from, to) || r.0 * 1_000_000_000 + r.1
            == plain_nanos_between(from, to) + 1_000_000_000 || r.0 * 1_000_000_000 + r.1
            == plain_nanos_between(from, to) - 1_000_000_000,
{
    let a = chrono::DateTime::<chrono::Utc>::from_timestamp(from.secs, from.nanos).unwrap();
    let b = chrono::DateTime::<chrono::Utc>::from_timestamp(to.secs, to.nanos).unwrap();
    let d = b - a;
    (d.num_seconds(), d.subsec_nanos())
}

/// The seconds and nanoseconds of a `std::time::Duration` made from these
/// parts: whole seconds of the nanoseconds carried over.
pub open spec fn duration_parts(secs: u64, nanos: u32) -> (u64, u32) {
    ((secs + nanos / 1_000_000_000) as u64, nanos % 1_000_000_000)
}

/// A duration of `secs` seconds and `nanos < 10^9` nanoseconds fits a
/// `chrono::TimeDelta`, whose largest value is `i64::MAX` milliseconds.
pub open spec fn fits_time_delta(secs: u64, nanos: u32) -> bool {
    secs < 9_223_372_036_854_775 || (secs == 9_223_372_036_854_775 && nanos <= 807_000_000)
}

/// Calls `chrono::TimeDelta::from_std` on the `std::time::Duration` of
/// `secs` seconds and `nanos` nanoseconds and tells whether it succeeds:
/// exactly when the duration is at most `TimeDelta::MAX`.
#[verifier::external_body]
pub(crate) fn std_duration_fits_time_delta(secs: u64, nanos: u32) -> (b: bool)
    requires
        nanos < 1_000_000_000,
    ensures
        b == fits_time_delta(secs, nanos),
{
    chrono::TimeDelta::from_std(std::time::Duration::new(secs, nanos)).is_ok()
}

} // verus!
