//! The wall clock. The pipeline itself never reads the clock: callers
//! take a snapshot here and pass its plain values in, so every decision
//! is verified for whatever the time happens to be.

use vstd::prelude::*;

verus! {

/// A snapshot of the wall clock as the pipeline consumes it:
/// milliseconds since the Unix epoch, and the UTC calendar year.
#[derive(Clone, Copy, Debug, PartialEq, Eq, Structural)]
pub struct ClockStamp {
    pub now_millis: i64,
    pub year: i32,
}

/// Relies on chrono's `Utc::now` and `DateTime::timestamp_millis`: the
/// current time in milliseconds since the Unix epoch. `Utc::now` aborts
/// rather than report a pre-epoch time, so the result is non-negative.
#[verifier::external_body]
fn utc_now_millis() -> (r: i64)
    ensures
        r >= 0,
{
    chrono::Utc::now().timestamp_millis()
}

/// Relies on chrono's `Utc::now` and `Datelike::year`: the current UTC
/// calendar year. `Utc::now` aborts rather than report a pre-epoch time,
/// so the year is at least 1970.
#[verifier::external_body]
fn utc_now_year() -> (r: i32)
    ensures
        r >= 1970,
{
    chrono::Datelike::year(&chrono::Utc::now())
}

/// Takes the clock snapshot that order creation and status transitions
/// are stamped with.
pub fn current_clock() -> (c: ClockStamp)
    ensures
        c.now_millis >= 0,
        c.year >= 1970,
{
    ClockStamp { now_millis: utc_now_millis(), year: utc_now_year() }
}

} // verus!
