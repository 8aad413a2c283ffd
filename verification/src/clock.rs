//! The wall clock, for the ignore-sweep timing, stream cancellation and
//! cache ages.

use vstd::prelude::*;

verus! {

/// Whether `t` (nanoseconds since the Unix epoch) lies in the range a
/// `jiff::Timestamp` can hold: from second -377705023201 to the last
/// nanosecond of second 253402207200.
pub open spec fn is_timestamp_ns(t: i128) -> bool {
    -377705023201000000000int <= t <= 253402207200999999999int
}

/// Reads the system clock as a timestamp, in nanoseconds since the Unix
/// epoch: `jiff::Timestamp::try_from(std::time::SystemTime::now())`, then
/// `Timestamp::as_nanosecond`. The conversion fails, and the result is
/// `None`, when the system clock reads a time outside the range a
/// `Timestamp` holds. Of a value read only that range is promised: it is
/// whatever the clock reads.
#[verifier::external_body]
fn read_clock_ns() -> (r: Option<i128>)
    ensures
        r matches Some(t) ==> is_timestamp_ns(t),
{
    match jiff::Timestamp::try_from(std::time::SystemTime::now()) {
        Ok(t) => Some(t.as_nanosecond()),
        Err(_) => None,
    }
}

/// The whole milliseconds in `ns` nanoseconds, truncated toward zero.
pub open spec fn spec_millis_of(ns: int) -> int {
    if ns >= 0 {
        ns / 1_000_000
    } else {
        -((-ns) / 1_000_000)
    }
}

/// The current time in nanoseconds since the Unix epoch, when the system
/// clock reads a time a timestamp can hold.
pub(crate) fn now_nanos() -> (r: Option<i128>)
    ensures
        r matches Some(t) ==> is_timestamp_ns(t),
{
    read_clock_ns()
}

/// The current time in whole milliseconds since the Unix epoch, when the
/// system clock reads a time a timestamp can hold.
pub(crate) fn now_millis() -> (r: Option<i64>)
    ensures
        r matches Some(t) ==> exists|ns: i128| is_timestamp_ns(ns) && t == #[trigger] spec_millis_of(ns as int),
{
    match read_clock_ns() {
        Some(ns) => {
            let ms: i128 = if ns >= 0 {
                ns / 1_000_000
            } else {
                -((-ns) / 1_000_000)
            };
            assert(ms == spec_millis_of(ns as int));
            Some(ms as i64)
        },
        None => None,
    }
}

} // verus!
