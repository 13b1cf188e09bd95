//! Format detection and the adaptive column converter.

use core::marker::PhantomData;
use vstd::prelude::*;

use crate::patterns::{catalog, family_logical_type, spec_catalog, views_of, LogicalType, Pattern};
use crate::transform::{
    transform_date, transform_datetime, date_days_of, datetime_micros_of, TemporalNative,
};

verus! {

/// Errors a converter can raise. Per-value non-matches are not errors:
/// they become missing output slots.
#[derive(Clone, Copy, PartialEq, Eq, Structural, Debug)]
pub enum InferError {
    /// The requested family has no catalog/transform for the requested
    /// output kind: a configuration defect, never silently defaulted.
    UnsupportedPattern,
}

/// What transforming `val` under the `i`-th template of `f`'s catalog
/// yields for output kind `T`.
pub open spec fn try_at<T: TemporalNative>(f: Pattern, val: Seq<char>, i: int) -> Option<T> {
    T::spec_transform(val, spec_catalog(f)[i])
}

/// The first index at or after `i` in `f`'s catalog whose template
/// transforms `val` successfully for output kind `T`.
pub open spec fn first_hit_from<T: TemporalNative>(f: Pattern, val: Seq<char>, i: int) -> Option<
    int,
>
    decreases spec_catalog(f).len() - i,
{
    if i < 0 || i >= spec_catalog(f).len() {
        None
    } else if try_at::<T>(f, val, i) is Some {
        Some(i)
    } else {
        first_hit_from::<T>(f, val, i + 1)
    }
}

/// What one adaptive parse returns: the cached template's result when the
/// fast path hits, otherwise the first catalog template that succeeds.
pub open spec fn spec_parse<T: TemporalNative>(f: Pattern, latest: int, val: Seq<char>) -> Option<
    T,
> {
    if try_at::<T>(f, val, latest) is Some {
        try_at::<T>(f, val, latest)
    } else {
        match first_hit_from::<T>(f, val, 0) {
            Some(i) => try_at::<T>(f, val, i),
            None => None,
        }
    }
}

/// The cached template index after one adaptive parse: it moves only when
/// the fast path missed and a full scan succeeded.
pub open spec fn spec_latest_after<T: TemporalNative>(
    f: Pattern,
    latest: int,
    val: Seq<char>,
) -> int {
    if try_at::<T>(f, val, latest) is Some {
        latest
    } else {
        match first_hit_from::<T>(f, val, 0) {
            Some(i) => i,
            None => latest,
        }
    }
}

/// One column slot's output: missing input stays missing, present input is
/// parsed adaptively.
pub open spec fn step_value<T: TemporalNative>(
    f: Pattern,
    latest: int,
    x: Option<Seq<char>>,
) -> Option<T> {
    match x {
        Some(v) => spec_parse::<T>(f, latest, v),
        None => None,
    }
}

/// The cached template index after one column slot: missing input leaves
/// it unchanged.
pub open spec fn step_latest<T: TemporalNative>(
    f: Pattern,
    latest: int,
    x: Option<Seq<char>>,
) -> int {
    match x {
        Some(v) => spec_latest_after::<T>(f, latest, v),
        None => latest,
    }
}

/// The cached template index after converting a whole column in order,
/// starting from `latest`.
pub open spec fn spec_latest_seq<T: TemporalNative>(
    f: Pattern,
    latest: int,
    vals: Seq<Option<Seq<char>>>,
) -> int
    decreases vals.len(),
{
    if vals.len() == 0 {
        latest
    } else {
        step_latest::<T>(f, spec_latest_seq::<T>(f, latest, vals.drop_last()), vals.last())
    }
}

/// The outputs of converting a whole column in order, starting from cached
/// template index `latest`: one slot per input slot, state threading
/// through in input order.
pub open spec fn spec_convert<T: TemporalNative>(
    f: Pattern,
    latest: int,
    vals: Seq<Option<Seq<char>>>,
) -> Seq<Option<T>>
    decreases vals.len(),
{
    if vals.len() == 0 {
        Seq::empty()
    } else {
        spec_convert::<T>(f, latest, vals.drop_last()).push(
            step_value::<T>(f, spec_latest_seq::<T>(f, latest, vals.drop_last()), vals.last()),
        )
    }
}

/// The view of a column of optional strings.
pub open spec fn col_view(ca: Seq<Option<String>>) -> Seq<Option<Seq<char>>> {
    ca.map_values(
        |o: Option<String>|
            match o {
                Some(s) => Some(s@),
                None => None,
            },
    )
}

/// A converted column: the raw numeric slots plus the logical type the
/// caller stamps onto them.
pub struct TemporalSeries<T> {
    /// One slot per input slot, missing where the input was missing or
    /// matched no template of the family.
    pub values: Vec<Option<T>>,
    /// The family's logical type.
    pub logical_type: LogicalType,
}

/// The adaptive converter: a fixed family and its catalog, plus the index
/// of the most recently successful template.
#[derive(Debug)]
pub struct DatetimeInfer<T: TemporalNative> {
    family: Pattern,
    patterns: Vec<&'static str>,
    latest: usize,
    logical_type: LogicalType,
    marker: PhantomData<T>,
}

impl<T: TemporalNative> DatetimeInfer<T> {
    /// The family this converter was built from.
    pub closed spec fn family(self) -> Pattern {
        self.family
    }

    /// The catalog index of the most recently successful template.
    pub closed spec fn latest(self) -> int {
        self.latest as int
    }

    /// Well-formedness: the held catalog is the family's, the cached index
    /// is a member of it, and the output kind agrees with the family.
    pub closed spec fn wf(self) -> bool {
        &&& views_of(self.patterns@) == spec_catalog(self.family)
        &&& self.patterns@.len() == spec_catalog(self.family).len()
        &&& 0 <= self.latest < spec_catalog(self.family).len()
        &&& self.logical_type == family_logical_type(self.family)
        &&& T::spec_logical_type() == family_logical_type(self.family)
    }

    /// The most recently successful template.
    pub fn latest_pattern(&self) -> (r: &'static str)
        requires
            self.wf(),
        ensures
            r@ == spec_catalog(self.family())[self.latest()],
    {
        self.patterns[self.latest]
    }

    /// Parse one value adaptively: try the most recently successful
    /// template first; on failure scan the family's whole catalog in order
    /// and remember the first template that succeeds; if none does, return
    /// `None` and leave the cache unchanged.
    pub fn parse(&mut self, val: &str) -> (r: Option<T>)
        requires
            old(self).wf(),
        ensures
            final(self).wf(),
            final(self).family() == old(self).family(),
            r == spec_parse::<T>(old(self).family(), old(self).latest(), val@),
            final(self).latest() == spec_latest_after::<T>(
                old(self).family(),
                old(self).latest(),
                val@,
            ),
    {
        let ghost f = self.family;
        let fmt = self.patterns[self.latest];
        proof {
            assert(fmt@ == spec_catalog(f)[self.latest()]);
        }
        match T::transform(val, fmt) {
            Some(parsed) => Some(parsed),
            None => {
                let n = self.patterns.len();
                let mut i: usize = 0;
                while i < n
                    invariant
                        self == old(self),
                        old(self).wf(),
                        f == old(self).family(),
                        n == self.patterns@.len(),
                        0 <= i <= n,
                        first_hit_from::<T>(f, val@, 0) == first_hit_from::<T>(f, val@, i as int),
                        try_at::<T>(f, val@, old(self).latest()) is None,
                    decreases n - i,
                {
                    let fmt_i = self.patterns[i];
                    proof {
                        assert(fmt_i@ == spec_catalog(f)[i as int]);
                    }
                    if let Some(parsed) = T::transform(val, fmt_i) {
                        proof {
                            assert(first_hit_from::<T>(f, val@, i as int) == Some(i as int));
                        }
                        self.latest = i;
                        return Some(parsed);
                    }
                    proof {
                        assert(first_hit_from::<T>(f, val@, i as int) == first_hit_from::<T>(
                            f,
                            val@,
                            i + 1,
                        ));
                    }
                    i += 1;
                }
                proof {
                    assert(first_hit_from::<T>(f, val@, n as int) is None);
                }
                None
            },
        }
    }

    /// Convert a whole column: one output slot per input slot, in order,
    /// with the cache threading through the column from first to last
    /// value. Missing inputs and values matching no template of the family
    /// become missing outputs. The output kind ties the numeric width to
    /// the logical type at construction, so stamping the logical type onto
    /// the raw slots cannot fail.
    pub fn coerce_utf8(&mut self, ca: &Vec<Option<String>>) -> (r: TemporalSeries<T>)
        requires
            old(self).wf(),
        ensures
            final(self).wf(),
            final(self).family() == old(self).family(),
            final(self).latest() == spec_latest_seq::<T>(
                old(self).family(),
                old(self).latest(),
                col_view(ca@),
            ),
            r.values@ == spec_convert::<T>(old(self).family(), old(self).latest(), col_view(ca@)),
            r.values@.len() == ca@.len(),
            r.logical_type == family_logical_type(old(self).family()),
    {
        let ghost f = old(self).family();
        let ghost l0 = old(self).latest();
        let ghost view = col_view(ca@);
        let mut values: Vec<Option<T>> = Vec::new();
        let n = ca.len();
        let mut i: usize = 0;
        while i < n
            invariant
                old(self).wf(),
                self.wf(),
                self.family() == f,
                f == old(self).family(),
                l0 == old(self).latest(),
                n == ca@.len(),
                0 <= i <= n,
                view == col_view(ca@),
                view.len() == n,
                values@.len() == i,
                values@ == spec_convert::<T>(f, l0, view.take(i as int)),
                self.latest() == spec_latest_seq::<T>(f, l0, view.take(i as int)),
            decreases n - i,
        {
            let out = match &ca[i] {
                Some(s) => self.parse(s.as_str()),
                None => None,
            };
            values.push(out);
            proof {
                assert(view[i as int] == col_view(ca@)[i as int]);
                assert(view.take(i + 1).drop_last() =~= view.take(i as int));
                assert(view.take(i + 1).last() == view[i as int]);
            }
            i += 1;
        }
        proof {
            assert(view.take(n as int) =~= view);
        }
        TemporalSeries { values, logical_type: self.logical_type }
    }
}

impl DatetimeInfer<i32> {
    /// Build a date converter from a family. Only the two date families
    /// have a day-count catalog and transform; requesting a datetime
    /// family is a configuration defect and fails loudly.
    pub fn try_from(value: Pattern) -> (r: Result<DatetimeInfer<i32>, InferError>)
        ensures
            value.is_date() <==> r is Ok,
            r matches Ok(inf) ==> inf.wf() && inf.family() == value && inf.latest() == 0,
            r matches Err(e) ==> e == InferError::UnsupportedPattern,
    {
        match value {
            Pattern::DateDMY | Pattern::DateYMD => Ok(
                DatetimeInfer {
                    family: value,
                    patterns: catalog(value),
                    latest: 0,
                    logical_type: LogicalType::Date,
                    marker: PhantomData,
                },
            ),
            _ => Err(InferError::UnsupportedPattern),
        }
    }
}

impl DatetimeInfer<i64> {
    /// Build a datetime converter from a family. Only the two datetime
    /// families have a microsecond-timestamp catalog and transform;
    /// requesting a date family is a configuration defect and fails
    /// loudly.
    pub fn try_from(value: Pattern) -> (r: Result<DatetimeInfer<i64>, InferError>)
        ensures
            !value.is_date() <==> r is Ok,
            r matches Ok(inf) ==> inf.wf() && inf.family() == value && inf.latest() == 0,
            r matches Err(e) ==> e == InferError::UnsupportedPattern,
    {
        match value {
            Pattern::DatetimeDMY | Pattern::DatetimeYMD => Ok(
                DatetimeInfer {
                    family: value,
                    patterns: catalog(value),
                    latest: 0,
                    logical_type: LogicalType::DatetimeMicroseconds,
                    marker: PhantomData,
                },
            ),
            _ => Err(InferError::UnsupportedPattern),
        }
    }
}

/// Whether `val` parses under the template `fmt` by `f`'s transform: the
/// day-count transform for date families, the microsecond one for
/// datetime families.
pub open spec fn family_parses(f: Pattern, val: Seq<char>, fmt: Seq<char>) -> bool {
    if f.is_date() {
        date_days_of(val, fmt) is Some
    } else {
        datetime_micros_of(val, fmt) is Some
    }
}

/// Whether any template of `f`'s catalog parses `val`.
pub open spec fn family_matches(f: Pattern, val: Seq<char>) -> bool {
    exists|i: int|
        0 <= i < spec_catalog(f).len() && family_parses(f, val, spec_catalog(f)[i])
}

/// The first index at or after `i` in `f`'s catalog whose template parses
/// `val` by `f`'s transform.
pub open spec fn first_family_hit(f: Pattern, val: Seq<char>, i: int) -> Option<int>
    decreases spec_catalog(f).len() - i,
{
    if i < 0 || i >= spec_catalog(f).len() {
        None
    } else if family_parses(f, val, spec_catalog(f)[i]) {
        Some(i)
    } else {
        first_family_hit(f, val, i + 1)
    }
}

/// What detection returns: the first family, in the fixed scan order
/// DateDMY, DateYMD, DatetimeDMY, DatetimeYMD, with a matching template.
pub open spec fn spec_compile_single(val: Seq<char>) -> Option<Pattern> {
    if family_matches(Pattern::DateDMY, val) {
        Some(Pattern::DateDMY)
    } else if family_matches(Pattern::DateYMD, val) {
        Some(Pattern::DateYMD)
    } else if family_matches(Pattern::DatetimeDMY, val) {
        Some(Pattern::DatetimeDMY)
    } else if family_matches(Pattern::DatetimeYMD, val) {
        Some(Pattern::DatetimeYMD)
    } else {
        None
    }
}

/// Whether any template of `f`'s catalog, tried in order, parses `val`.
fn family_any_match(f: Pattern, val: &str) -> (b: bool)
    ensures
        b == family_matches(f, val@),
{
    let pats = catalog(f);
    let n = pats.len();
    let mut i: usize = 0;
    while i < n
        invariant
            views_of(pats@) == spec_catalog(f),
            pats@.len() == spec_catalog(f).len(),
            n == pats@.len(),
            0 <= i <= n,
            forall|j: int| 0 <= j < i ==> !family_parses(f, val@, spec_catalog(f)[j]),
        decreases n - i,
    {
        let fmt = pats[i];
        proof {
            assert(fmt@ == spec_catalog(f)[i as int]);
        }
        let hit = match f {
            Pattern::DateDMY | Pattern::DateYMD => transform_date(val, fmt).is_some(),
            Pattern::DatetimeDMY | Pattern::DatetimeYMD => transform_datetime(val, fmt).is_some(),
        };
        if hit {
            return true;
        }
        i += 1;
    }
    false
}

/// Detect the pattern family of one sample string: try the families in the
/// fixed order DateDMY, DateYMD, DatetimeDMY, DatetimeYMD, each family's
/// catalog in its own order, and return the first family with a matching
/// template, or `None` when none matches.
pub fn compile_single(val: &str) -> (r: Option<Pattern>)
    ensures
        r == spec_compile_single(val@),
{
    if family_any_match(Pattern::DateDMY, val) {
        Some(Pattern::DateDMY)
    } else if family_any_match(Pattern::DateYMD, val) {
        Some(Pattern::DateYMD)
    } else if family_any_match(Pattern::DatetimeDMY, val) {
        Some(Pattern::DatetimeDMY)
    } else if family_any_match(Pattern::DatetimeYMD, val) {
        Some(Pattern::DatetimeYMD)
    } else {
        None
    }
}

} // verus!
