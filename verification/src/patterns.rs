//! The pattern catalog: four fixed, ordered families of format templates.

use vstd::prelude::*;

verus! {

/// A pattern family: the component order (day-month-year or year-month-day)
/// together with the output kind (plain date or datetime).
#[derive(Clone, Copy, PartialEq, Eq, Structural, Debug)]
pub enum Pattern {
    DateDMY,
    DateYMD,
    DatetimeDMY,
    DatetimeYMD,
}

impl Pattern {
    /// Date families produce day counts; datetime families produce
    /// microsecond timestamps.
    pub open spec fn is_date(self) -> bool {
        self == Pattern::DateDMY || self == Pattern::DateYMD
    }
}

/// The logical temporal type stamped onto a converted column.
#[derive(Clone, Copy, PartialEq, Eq, Structural, Debug)]
pub enum LogicalType {
    /// 32-bit day count since the epoch day.
    Date,
    /// 64-bit microsecond count since the epoch, zone-naive.
    DatetimeMicroseconds,
}

/// The logical type that columns of a family convert to.
pub open spec fn family_logical_type(f: Pattern) -> LogicalType {
    if f.is_date() {
        LogicalType::Date
    } else {
        LogicalType::DatetimeMicroseconds
    }
}

/// The views of a run of templates, in order.
pub open spec fn views_of(ps: Seq<&str>) -> Seq<Seq<char>> {
    ps.map_values(|p: &str| p@)
}

/// Each family's catalog of concrete templates. The order is a priority
/// list: callers try entries in sequence order and stop at the first match.
pub open spec fn spec_catalog(f: Pattern) -> Seq<Seq<char>> {
    match f {
        Pattern::DateDMY => seq!["%d/%m/%Y"@, "%d-%m-%Y"@],
        Pattern::DateYMD => seq!["%Y-%m-%d"@, "%Y/%m/%d"@],
        Pattern::DatetimeDMY => seq!["%d/%m/%Y %H:%M:%S"@, "%d-%m-%Y %H:%M:%S"@],
        Pattern::DatetimeYMD => seq!["%Y-%m-%d %H:%M:%S"@, "%Y/%m/%d %H:%M:%S"@],
    }
}

/// The catalog of a family as executable data, in the same order as
/// `spec_catalog`.
pub fn catalog(f: Pattern) -> (r: Vec<&'static str>)
    ensures
        views_of(r@) == spec_catalog(f),
        r@.len() == spec_catalog(f).len(),
{
    let mut r: Vec<&'static str> = Vec::new();
    match f {
        Pattern::DateDMY => {
            r.push("%d/%m/%Y");
            r.push("%d-%m-%Y");
        },
        Pattern::DateYMD => {
            r.push("%Y-%m-%d");
            r.push("%Y/%m/%d");
        },
        Pattern::DatetimeDMY => {
            r.push("%d/%m/%Y %H:%M:%S");
            r.push("%d-%m-%Y %H:%M:%S");
        },
        Pattern::DatetimeYMD => {
            r.push("%Y-%m-%d %H:%M:%S");
            r.push("%Y/%m/%d %H:%M:%S");
        },
    }
    proof {
        assert(views_of(r@) =~= spec_catalog(f));
    }
    r
}

} // verus!
