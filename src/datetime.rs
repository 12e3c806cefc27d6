use vstd::prelude::*;

verus! {

/// Milliseconds since the Unix epoch of the first instant that a UTC date-time
/// can hold: January 1 of the year -262143, 00:00:00.000.
pub const MIN_DATETIME_MILLIS: i64 = -8334601228800000;

/// Milliseconds since the Unix epoch of the last instant that a UTC date-time
/// can hold: December 31 of the year 262142, 23:59:59.999.
pub const MAX_DATETIME_MILLIS: i64 = 8210266876799999;

/// Whether a count of milliseconds since the Unix epoch names a UTC date-time.
pub open spec fn is_datetime_millis(ms: int) -> bool {
    MIN_DATETIME_MILLIS <= ms <= MAX_DATETIME_MILLIS
}

/// Relies on `chrono::DateTime::<Utc>::from_timestamp_millis`: it returns
/// `Some` exactly for the millisecond counts from the first instant of
/// `NaiveDate::MIN` to the last instant of `NaiveDate::MAX`.
#[verifier::external_body]
pub(crate) fn datetime_exists(ms: i64) -> (r: bool)
    ensures
        r == is_datetime_millis(ms as int),
{
    chrono::DateTime::<chrono::Utc>::from_timestamp_millis(ms).is_some()
}

} // verus!
