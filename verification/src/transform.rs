//! The numeric transforms: parsing one string under one template.
//!
//! Parsing itself is chrono's; its outcome on a given pair of strings is
//! named by the two uninterpreted functions below, and everything the
//! library proves is stated over those names.

use vstd::prelude::*;

use crate::patterns::LogicalType;

verus! {

/// The day count (days since the epoch day, 1970-01-01) that parsing `val`
/// under the date template `fmt` yields, or `None` when `val` does not
/// match `fmt`. The outcome is a function of the two strings alone.
pub uninterp spec fn date_days_of(val: Seq<char>, fmt: Seq<char>) -> Option<i32>;

/// The microsecond timestamp (non-leap microseconds since the epoch,
/// zone-naive) that parsing `val` under the datetime template `fmt` yields,
/// or `None` when `val` does not match `fmt`.
pub uninterp spec fn datetime_micros_of(val: Seq<char>, fmt: Seq<char>) -> Option<i64>;

/// Relies on chrono's `NaiveDate::parse_from_str`, which parses `val`
/// against the strftime template `fmt` (no trailing input allowed) from the
/// two strings alone, and on `NaiveDate::signed_duration_since` of
/// `NaiveDate::default()` (the epoch day), whose `num_days` is the parsed
/// day's day count.
#[verifier::external_body]
pub(crate) fn transform_date(val: &str, fmt: &str) -> (r: Option<i32>)
    ensures
        r == date_days_of(val@, fmt@),
{
    chrono::NaiveDate::parse_from_str(val, fmt)
        .ok()
        .map(|d| d.signed_duration_since(chrono::NaiveDate::default()).num_days() as i32)
}

/// Relies on chrono's `NaiveDateTime::parse_from_str`, which parses `val`
/// against the strftime template `fmt` (no trailing input allowed) from the
/// two strings alone, and on `DateTime::timestamp_micros`, the non-leap
/// microseconds since the epoch of the parsed instant.
#[verifier::external_body]
pub(crate) fn transform_datetime(val: &str, fmt: &str) -> (r: Option<i64>)
    ensures
        r == datetime_micros_of(val@, fmt@),
{
    chrono::NaiveDateTime::parse_from_str(val, fmt)
        .ok()
        .map(|dt| dt.and_utc().timestamp_micros())
}

/// The closed set of native output kinds a converter can produce: day
/// counts (`i32`) for date families and microsecond timestamps (`i64`) for
/// datetime families. The transform and the logical type are tied to the
/// output kind once, here, rather than dispatched through function
/// pointers.
pub trait TemporalNative: Sized + Copy {
    /// What transforming `val` under the template `fmt` yields for this
    /// output kind.
    spec fn spec_transform(val: Seq<char>, fmt: Seq<char>) -> Option<Self>;

    /// The logical type this output kind carries.
    spec fn spec_logical_type() -> LogicalType;

    /// Transform one value under one template.
    fn transform(val: &str, fmt: &str) -> (r: Option<Self>)
        ensures
            r == Self::spec_transform(val@, fmt@),
    ;

    /// The logical type this output kind carries, as a value.
    fn logical_type() -> (r: LogicalType)
        ensures
            r == Self::spec_logical_type(),
    ;
}

impl TemporalNative for i32 {
    open spec fn spec_transform(val: Seq<char>, fmt: Seq<char>) -> Option<i32> {
        date_days_of(val, fmt)
    }

    open spec fn spec_logical_type() -> LogicalType {
        LogicalType::Date
    }

    fn transform(val: &str, fmt: &str) -> (r: Option<i32>) {
        transform_date(val, fmt)
    }

    fn logical_type() -> (r: LogicalType) {
        LogicalType::Date
    }
}

impl TemporalNative for i64 {
    open spec fn spec_transform(val: Seq<char>, fmt: Seq<char>) -> Option<i64> {
        datetime_micros_of(val, fmt)
    }

    open spec fn spec_logical_type() -> LogicalType {
        LogicalType::DatetimeMicroseconds
    }

    fn transform(val: &str, fmt: &str) -> (r: Option<i64>) {
        transform_datetime(val, fmt)
    }

    fn logical_type() -> (r: LogicalType) {
        LogicalType::DatetimeMicroseconds
    }
}

} // verus!
