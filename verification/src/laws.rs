//! The library's laws: properties of the detector and the adaptive
//! converter, proved once over the spec-level model.

use vstd::prelude::*;

use crate::infer::{
    family_matches, family_parses, first_family_hit, first_hit_from, spec_compile_single,
    spec_convert, spec_latest_seq, spec_parse, step_value, try_at,
};
use crate::patterns::{spec_catalog, Pattern};
use crate::transform::TemporalNative;

verus! {

/// Every family's catalog holds exactly two templates.
pub proof fn lemma_catalog_len(f: Pattern)
    ensures
        spec_catalog(f).len() == 2,
{
    match f {
        Pattern::DateDMY => assert(spec_catalog(Pattern::DateDMY).len() == 2),
        Pattern::DateYMD => assert(spec_catalog(Pattern::DateYMD).len() == 2),
        Pattern::DatetimeDMY => assert(spec_catalog(Pattern::DatetimeDMY).len() == 2),
        Pattern::DatetimeYMD => assert(spec_catalog(Pattern::DatetimeYMD).len() == 2),
    }
}

/// What `first_hit_from` finds: the least catalog index at or after `k`
/// whose template transforms `val`, and `None` exactly when no index at or
/// after `k` does.
pub proof fn lemma_first_hit_from_props<T: TemporalNative>(f: Pattern, val: Seq<char>, k: int)
    requires
        0 <= k <= spec_catalog(f).len(),
    ensures
        match first_hit_from::<T>(f, val, k) {
            Some(i) => k <= i < spec_catalog(f).len() && try_at::<T>(f, val, i) is Some && (forall|
                j: int,
            |
                k <= j < i ==> try_at::<T>(f, val, j) is None),
            None => forall|j: int|
                k <= j < spec_catalog(f).len() ==> try_at::<T>(f, val, j) is None,
        },
    decreases spec_catalog(f).len() - k,
{
    if k < spec_catalog(f).len() && try_at::<T>(f, val, k) is None {
        lemma_first_hit_from_props::<T>(f, val, k + 1);
    }
}

/// What `first_family_hit` finds: the least catalog index at or after `k`
/// whose template parses `val`, and `None` exactly when no index at or
/// after `k` does.
pub proof fn lemma_first_family_hit_props(f: Pattern, val: Seq<char>, k: int)
    requires
        0 <= k <= spec_catalog(f).len(),
    ensures
        match first_family_hit(f, val, k) {
            Some(i) => k <= i < spec_catalog(f).len() && family_parses(f, val, spec_catalog(f)[i])
                && (forall|j: int| k <= j < i ==> !family_parses(f, val, spec_catalog(f)[j])),
            None => forall|j: int|
                k <= j < spec_catalog(f).len() ==> !family_parses(f, val, spec_catalog(f)[j]),
        },
    decreases spec_catalog(f).len() - k,
{
    if k < spec_catalog(f).len() && !family_parses(f, val, spec_catalog(f)[k]) {
        lemma_first_family_hit_props(f, val, k + 1);
    }
}

/// Law: when detection classifies a sample under family `f`, a direct
/// in-order scan of `f`'s own catalog finds a first matching template:
/// one that parses the sample while no earlier catalog entry does.
pub proof fn lemma_detect_finds_first_pattern(val: Seq<char>, f: Pattern)
    requires
        spec_compile_single(val) == Some(f),
    ensures
        first_family_hit(f, val, 0) matches Some(i) && 0 <= i < spec_catalog(f).len()
            && family_parses(f, val, spec_catalog(f)[i]) && (forall|j: int|
            0 <= j < i ==> !family_parses(f, val, spec_catalog(f)[j])),
{
    assert(family_matches(f, val));
    lemma_catalog_len(f);
    lemma_first_family_hit_props(f, val, 0);
    if first_family_hit(f, val, 0) is None {
        let i = choose|i: int|
            0 <= i < spec_catalog(f).len() && family_parses(f, val, spec_catalog(f)[i]);
        assert(!family_parses(f, val, spec_catalog(f)[i]));
    }
}

/// Law: a detected family converts its own sample. Seeding a fresh
/// converter of the right output kind with the family that detection
/// returned, its first parse of the very sample succeeds.
pub proof fn lemma_detect_seeds_successful_parse(val: Seq<char>, f: Pattern)
    requires
        spec_compile_single(val) == Some(f),
    ensures
        f.is_date() ==> spec_parse::<i32>(f, 0, val) is Some,
        !f.is_date() ==> spec_parse::<i64>(f, 0, val) is Some,
{
    assert(family_matches(f, val));
    lemma_catalog_len(f);
    let i = choose|i: int|
        0 <= i < spec_catalog(f).len() && family_parses(f, val, spec_catalog(f)[i]);
    if f.is_date() {
        assert(try_at::<i32>(f, val, i) is Some);
        lemma_first_hit_from_props::<i32>(f, val, 0);
    } else {
        assert(try_at::<i64>(f, val, i) is Some);
        lemma_first_hit_from_props::<i64>(f, val, 0);
    }
}

/// Law: detector priority of output kind. A sample matching any date
/// family is classified as a date family, never as a datetime one, no
/// matter which datetime templates also match.
pub proof fn lemma_date_before_datetime(val: Seq<char>)
    requires
        family_matches(Pattern::DateDMY, val) || family_matches(Pattern::DateYMD, val),
    ensures
        spec_compile_single(val) == Some(Pattern::DateDMY) || spec_compile_single(val) == Some(
            Pattern::DateYMD,
        ),
{
}

/// Law: detector priority of family order. A sample matching both
/// component orders is classified under the family scanned first: DMY
/// before YMD, for dates and for datetimes alike.
pub proof fn lemma_dmy_before_ymd(val: Seq<char>)
    ensures
        family_matches(Pattern::DateDMY, val) ==> spec_compile_single(val) == Some(
            Pattern::DateDMY,
        ),
        !family_matches(Pattern::DateDMY, val) && !family_matches(Pattern::DateYMD, val)
            && family_matches(Pattern::DatetimeDMY, val) ==> spec_compile_single(val) == Some(
            Pattern::DatetimeDMY,
        ),
{
}

/// The cached template index stays inside the catalog over any column.
pub proof fn lemma_latest_seq_in_range<T: TemporalNative>(
    f: Pattern,
    l: int,
    vals: Seq<Option<Seq<char>>>,
)
    requires
        0 <= l < spec_catalog(f).len(),
    ensures
        0 <= spec_latest_seq::<T>(f, l, vals) < spec_catalog(f).len(),
    decreases vals.len(),
{
    if vals.len() > 0 {
        lemma_latest_seq_in_range::<T>(f, l, vals.drop_last());
        match vals.last() {
            Some(v) => {
                lemma_first_hit_from_props::<T>(f, v, 0);
            },
            None => {},
        }
    }
}

proof fn lemma_cache_take<T: TemporalNative>(
    f: Pattern,
    vals: Seq<Option<Seq<char>>>,
    n: int,
    p: int,
    q: int,
    k: int,
)
    requires
        0 <= p < spec_catalog(f).len(),
        0 <= n <= vals.len(),
        0 <= k <= vals.len(),
        forall|i: int|
            0 <= i < n ==> (#[trigger] vals[i] matches Some(v) && try_at::<T>(f, v, p) is Some),
        forall|i: int|
            n <= i < vals.len() ==> (#[trigger] vals[i] matches Some(v) && try_at::<T>(
                f,
                v,
                p,
            ) is None && first_hit_from::<T>(f, v, 0) == Some(q)),
    ensures
        k <= n ==> spec_latest_seq::<T>(f, p, vals.take(k)) == p,
        k > n ==> spec_latest_seq::<T>(f, p, vals.take(k)) == q,
    decreases k,
{
    if k == 0 {
        assert(vals.take(0) =~= Seq::<Option<Seq<char>>>::empty());
    } else {
        lemma_cache_take::<T>(f, vals, n, p, q, k - 1);
        assert(vals.take(k).drop_last() =~= vals.take(k - 1));
        assert(vals.take(k).last() == vals[k - 1]);
        if k - 1 >= n {
            let v = vals[k - 1]->Some_0;
            lemma_first_hit_from_props::<T>(f, v, 0);
        }
    }
}

/// Law: adaptive caching. Over a column whose first `n` values all parse
/// under the cached template `p`, and whose remaining values all fail
/// under `p` while their first matching catalog template is `q`, the
/// cache moves exactly once: it is still `p` after each of the first `n`
/// values and is `q` from the first drifted value on (so every later
/// value is answered by the fast path at `q`).
pub proof fn lemma_adaptive_cache<T: TemporalNative>(
    f: Pattern,
    vals: Seq<Option<Seq<char>>>,
    n: int,
    p: int,
    q: int,
)
    requires
        0 <= p < spec_catalog(f).len(),
        0 <= n <= vals.len(),
        forall|i: int|
            0 <= i < n ==> (#[trigger] vals[i] matches Some(v) && try_at::<T>(f, v, p) is Some),
        forall|i: int|
            n <= i < vals.len() ==> (#[trigger] vals[i] matches Some(v) && try_at::<T>(
                f,
                v,
                p,
            ) is None && first_hit_from::<T>(f, v, 0) == Some(q)),
    ensures
        forall|k: int| 0 <= k <= n ==> spec_latest_seq::<T>(f, p, vals.take(k)) == p,
        forall|k: int|
            n < k <= vals.len() ==> spec_latest_seq::<T>(f, p, vals.take(k)) == q,
{
    assert forall|k: int| 0 <= k <= n implies spec_latest_seq::<T>(f, p, vals.take(k)) == p by {
        lemma_cache_take::<T>(f, vals, n, p, q, k);
    }
    assert forall|k: int| n < k <= vals.len() implies spec_latest_seq::<T>(f, p, vals.take(k))
        == q by {
        lemma_cache_take::<T>(f, vals, n, p, q, k);
    }
}

/// Law: order and cardinality. Converting a column yields exactly one
/// output slot per input slot, in order; a slot is present exactly when
/// its input was present and some template of the family transforms it,
/// and in particular every missing input yields a missing output.
pub proof fn lemma_convert_shape<T: TemporalNative>(
    f: Pattern,
    l: int,
    vals: Seq<Option<Seq<char>>>,
)
    requires
        0 <= l < spec_catalog(f).len(),
    ensures
        spec_convert::<T>(f, l, vals).len() == vals.len(),
        forall|i: int|
            0 <= i < vals.len() ==> (#[trigger] spec_convert::<T>(f, l, vals)[i] is Some <==> (
            vals[i] matches Some(v) && first_hit_from::<T>(f, v, 0) is Some)),
    decreases vals.len(),
{
    if vals.len() > 0 {
        lemma_convert_shape::<T>(f, l, vals.drop_last());
        lemma_latest_seq_in_range::<T>(f, l, vals.drop_last());
        let lp = spec_latest_seq::<T>(f, l, vals.drop_last());
        let conv = spec_convert::<T>(f, l, vals);
        assert forall|i: int| 0 <= i < vals.len() implies (#[trigger] conv[i] is Some <==> (
        vals[i] matches Some(v) && first_hit_from::<T>(f, v, 0) is Some)) by {
            if i < vals.len() - 1 {
                assert(conv[i] == spec_convert::<T>(f, l, vals.drop_last())[i]);
                assert(vals[i] == vals.drop_last()[i]);
            } else {
                assert(conv[i] == step_value::<T>(f, lp, vals.last()));
                match vals.last() {
                    Some(v) => {
                        lemma_first_hit_from_props::<T>(f, v, 0);
                    },
                    None => {},
                }
            }
        }
    }
}

/// All templates of `f`'s catalog that transform a given value agree on
/// the result: no value is read two ways by two templates of one family.
pub open spec fn family_deterministic<T: TemporalNative>(f: Pattern) -> bool {
    forall|val: Seq<char>, i: int, j: int|
        0 <= i < spec_catalog(f).len() && 0 <= j < spec_catalog(f).len() && #[trigger] try_at::<T>(
            f,
            val,
            i,
        ) is Some && #[trigger] try_at::<T>(f, val, j) is Some ==> try_at::<T>(f, val, i)
            == try_at::<T>(f, val, j)
}

/// Under a deterministic family, what one adaptive parse returns does not
/// depend on which catalog member is cached.
pub proof fn lemma_parse_seed_independent<T: TemporalNative>(
    f: Pattern,
    l1: int,
    l2: int,
    v: Seq<char>,
)
    requires
        family_deterministic::<T>(f),
        0 <= l1 < spec_catalog(f).len(),
        0 <= l2 < spec_catalog(f).len(),
    ensures
        spec_parse::<T>(f, l1, v) == spec_parse::<T>(f, l2, v),
{
    lemma_first_hit_from_props::<T>(f, v, 0);
}

proof fn lemma_convert_seed_independent<T: TemporalNative>(
    f: Pattern,
    l1: int,
    l2: int,
    vals: Seq<Option<Seq<char>>>,
)
    requires
        family_deterministic::<T>(f),
        0 <= l1 < spec_catalog(f).len(),
        0 <= l2 < spec_catalog(f).len(),
    ensures
        spec_convert::<T>(f, l1, vals) == spec_convert::<T>(f, l2, vals),
    decreases vals.len(),
{
    if vals.len() > 0 {
        lemma_convert_seed_independent::<T>(f, l1, l2, vals.drop_last());
        lemma_latest_seq_in_range::<T>(f, l1, vals.drop_last());
        lemma_latest_seq_in_range::<T>(f, l2, vals.drop_last());
        match vals.last() {
            Some(v) => {
                lemma_parse_seed_independent::<T>(
                    f,
                    spec_latest_seq::<T>(f, l1, vals.drop_last()),
                    spec_latest_seq::<T>(f, l2, vals.drop_last()),
                    v,
                );
            },
            None => {},
        }
        assert(spec_convert::<T>(f, l1, vals) =~= spec_convert::<T>(f, l2, vals));
    } else {
        assert(spec_convert::<T>(f, l1, vals) =~= spec_convert::<T>(f, l2, vals));
    }
}

/// Law: idempotence across chunks. Splitting a column in two and
/// converting each chunk with its own fresh converter seeded from the
/// same family yields, slot for slot, what one converter over the whole
/// column yields. It needs the family to be deterministic: were two
/// templates of one family to read the same value differently, the slot
/// at which the cache happens to sit could change a result.
pub proof fn lemma_chunked_conversion<T: TemporalNative>(
    f: Pattern,
    a: Seq<Option<Seq<char>>>,
    b: Seq<Option<Seq<char>>>,
)
    requires
        family_deterministic::<T>(f),
    ensures
        spec_convert::<T>(f, 0, a + b) == spec_convert::<T>(f, 0, a) + spec_convert::<T>(f, 0, b),
    decreases b.len(),
{
    lemma_catalog_len(f);
    if b.len() == 0 {
        assert(a + b =~= a);
        assert(spec_convert::<T>(f, 0, a) + spec_convert::<T>(f, 0, b) =~= spec_convert::<T>(
            f,
            0,
            a,
        ));
    } else {
        lemma_chunked_conversion::<T>(f, a, b.drop_last());
        assert((a + b).drop_last() =~= a + b.drop_last());
        assert((a + b).last() == b.last());
        lemma_latest_seq_in_range::<T>(f, 0, a + b.drop_last());
        lemma_latest_seq_in_range::<T>(f, 0, b.drop_last());
        match b.last() {
            Some(v) => {
                lemma_parse_seed_independent::<T>(
                    f,
                    spec_latest_seq::<T>(f, 0, a + b.drop_last()),
                    spec_latest_seq::<T>(f, 0, b.drop_last()),
                    v,
                );
            },
            None => {},
        }
        assert(spec_convert::<T>(f, 0, a + b) =~= spec_convert::<T>(f, 0, a) + spec_convert::<T>(
            f,
            0,
            b,
        ));
    }
}

} // verus!
