//! Directional, prefix-bounded iteration: its direction type, its
//! mathematical meaning, and the correctness properties every conforming
//! scan satisfies.
//!
//! The iteration algorithm over a column is:
//! 1. no prefix, no start: scan the whole column, ascending (`Forward`,
//!    from the lexicographically smallest key) or descending (`Reverse`,
//!    from the largest);
//! 2. a prefix alone: position the cursor at the prefix, iterate in the
//!    requested direction, and yield only keys that begin with the prefix;
//! 3. a start alone: position the cursor exactly at the start key and
//!    iterate in the requested direction with no further bound;
//! 4. both: if the start does not begin with the prefix the result is
//!    empty (no error); otherwise position at the start and stop at the
//!    first key that no longer begins with the prefix.

use vstd::prelude::*;
use vstd::seq_lib::*;

use crate::bytes::has_prefix;
use crate::bytes::lex_le;
use crate::bytes::lex_lt;
use crate::bytes::lemma_lex_lt_transitive;
use crate::bytes::lemma_lex_trichotomy;
use crate::kv::key_in_entries;
use crate::kv::seq_map;
use crate::kv::unique_keys;

verus! {

/// Traversal order of a scan over a column's keyspace.
#[derive(Copy, Clone, Debug, PartialEq, Eq, Structural)]
pub enum IterDirection {
    /// Ascending key order.
    Forward,
    /// Descending key order.
    Reverse,
}

/// View of an optional borrowed key.
pub open spec fn opt_key_view(o: Option<&Vec<u8>>) -> Option<Seq<u8>> {
    match o {
        Some(k) => Some(k@),
        None => None,
    }
}

/// Entries sorted strictly ascending by key.
pub open spec fn entries_sorted(es: Seq<(Seq<u8>, Seq<u8>)>) -> bool {
    forall|i: int, j: int|
        0 <= i < j < es.len() ==> lex_lt((#[trigger] es[i]).0, (#[trigger] es[j]).0)
}

/// The cursor position a scan starts from: the explicit start key when one
/// is given, otherwise the prefix itself.
pub open spec fn effective_start(
    prefix: Option<Seq<u8>>,
    start: Option<Seq<u8>>,
) -> Option<Seq<u8>> {
    match start {
        Some(s) => Some(s),
        None => prefix,
    }
}

/// Whether a key is yielded by a scan: on the start side of the cursor
/// position for the requested direction, and inside the prefix when one is
/// given.
pub open spec fn in_scan_range(
    k: Seq<u8>,
    prefix: Option<Seq<u8>>,
    start: Option<Seq<u8>>,
    direction: IterDirection,
) -> bool {
    &&& match prefix {
        Some(p) => has_prefix(k, p),
        None => true,
    }
    &&& match effective_start(prefix, start) {
        Some(s) => match direction {
            IterDirection::Forward => lex_le(s, k),
            IterDirection::Reverse => lex_le(k, s),
        },
        None => true,
    }
}

/// A prefix paired with a start key that does not begin with it: the scan
/// is empty by definition.
pub open spec fn prefix_start_mismatch(
    prefix: Option<Seq<u8>>,
    start: Option<Seq<u8>>,
) -> bool {
    match (prefix, start) {
        (Some(p), Some(s)) => !has_prefix(s, p),
        _ => false,
    }
}

/// What a scan over sorted entries yields: the in-range entries, in entry
/// order for `Forward` and reversed for `Reverse`.
pub open spec fn scan_view(
    es: Seq<(Seq<u8>, Seq<u8>)>,
    prefix: Option<Seq<u8>>,
    start: Option<Seq<u8>>,
    direction: IterDirection,
) -> Seq<(Seq<u8>, Seq<u8>)> {
    if prefix_start_mismatch(prefix, start) {
        Seq::empty()
    } else {
        let f = es.filter(
            |e: (Seq<u8>, Seq<u8>)| in_scan_range(e.0, prefix, start, direction),
        );
        match direction {
            IterDirection::Forward => f,
            IterDirection::Reverse => f.reverse(),
        }
    }
}

/// The contract of a conforming scan, stated against the column's map
/// view alone: on a prefix/start mismatch the result is empty; otherwise
/// every yielded pair is an in-range entry of the column, every in-range
/// key of the column is yielded, and the yielded keys are strictly
/// ordered in the requested direction.
pub open spec fn scan_result_matches(
    m: Map<Seq<u8>, Seq<u8>>,
    r: Seq<(Seq<u8>, Seq<u8>)>,
    prefix: Option<Seq<u8>>,
    start: Option<Seq<u8>>,
    direction: IterDirection,
) -> bool {
    if prefix_start_mismatch(prefix, start) {
        r.len() == 0
    } else {
        &&& forall|i: int|
            0 <= i < r.len() ==> {
                &&& m.contains_key((#[trigger] r[i]).0)
                &&& m[r[i].0] == r[i].1
                &&& in_scan_range(r[i].0, prefix, start, direction)
            }
        &&& forall|k: Seq<u8>|
            m.contains_key(k) && #[trigger] in_scan_range(k, prefix, start, direction)
                ==> key_in_entries(r, k)
        &&& match direction {
            IterDirection::Forward => entries_sorted(r),
            IterDirection::Reverse => entries_sorted(r.reverse()),
        }
    }
}

/// Strictly sorted entry sequences carrying the same keys, with each
/// key's value drawn from the same map, are the same sequence.
proof fn lemma_sorted_entries_with_same_keys_equal(
    m: Map<Seq<u8>, Seq<u8>>,
    r1: Seq<(Seq<u8>, Seq<u8>)>,
    r2: Seq<(Seq<u8>, Seq<u8>)>,
)
    requires
        entries_sorted(r1),
        entries_sorted(r2),
        forall|k: Seq<u8>| key_in_entries(r1, k) <==> key_in_entries(r2, k),
        forall|i: int|
            0 <= i < r1.len() ==> m.contains_key((#[trigger] r1[i]).0) && m[r1[i].0]
                == r1[i].1,
        forall|i: int|
            0 <= i < r2.len() ==> m.contains_key((#[trigger] r2[i]).0) && m[r2[i].0]
                == r2[i].1,
    ensures
        r1 == r2,
    decreases r1.len(),
{
    if r1.len() == 0 {
        if r2.len() > 0 {
            assert(key_in_entries(r2, r2[0].0));
        }
        assert(r1 =~= r2);
    } else if r2.len() == 0 {
        assert(key_in_entries(r1, r1[0].0));
        assert(r1 =~= r2);
    } else {
        let a = r1[0].0;
        let b = r2[0].0;
        assert(key_in_entries(r1, a));
        assert(key_in_entries(r2, b));
        let ja = choose|j: int| 0 <= j < r2.len() && (#[trigger] r2[j]).0 == a;
        let ib = choose|i: int| 0 <= i < r1.len() && (#[trigger] r1[i]).0 == b;
        if ja > 0 {
            assert(lex_lt(r2[0].0, r2[ja].0));
        }
        if ib > 0 {
            assert(lex_lt(r1[0].0, r1[ib].0));
        }
        lemma_lex_trichotomy(a, b);
        if a != b {
            if lex_lt(a, b) {
                assert(ja > 0) by {
                    if ja == 0 {
                        assert(b == a);
                    }
                }
                lemma_lex_lt_transitive(a, b, r2[ja].0);
                assert(lex_lt(a, a));
                lemma_lex_trichotomy(a, a);
            } else {
                assert(ib > 0) by {
                    if ib == 0 {
                        assert(a == b);
                    }
                }
                lemma_lex_lt_transitive(b, a, r1[ib].0);
                assert(lex_lt(b, b));
                lemma_lex_trichotomy(b, b);
            }
        }
        assert(a == b);
        assert(r1[0].1 == m[a] && r2[0].1 == m[a]);
        assert(r1[0] == r2[0]);

        let t1 = r1.drop_first();
        let t2 = r2.drop_first();
        assert(entries_sorted(t1)) by {
            assert(forall|i: int| 0 <= i < t1.len() ==> #[trigger] t1[i] == r1[i + 1]);
        }
        assert(entries_sorted(t2)) by {
            assert(forall|i: int| 0 <= i < t2.len() ==> #[trigger] t2[i] == r2[i + 1]);
        }
        assert forall|k: Seq<u8>| key_in_entries(t1, k) implies key_in_entries(t2, k) by {
            let i = choose|i: int| 0 <= i < t1.len() && (#[trigger] t1[i]).0 == k;
            assert(r1[i + 1].0 == k);
            assert(key_in_entries(r1, k));
            assert(lex_lt(a, k));
            let j = choose|j: int| 0 <= j < r2.len() && (#[trigger] r2[j]).0 == k;
            assert(j > 0) by {
                if j == 0 {
                    lemma_lex_trichotomy(a, k);
                }
            }
            assert(t2[j - 1].0 == k);
        }
        assert forall|k: Seq<u8>| key_in_entries(t2, k) implies key_in_entries(t1, k) by {
            let i = choose|i: int| 0 <= i < t2.len() && (#[trigger] t2[i]).0 == k;
            assert(r2[i + 1].0 == k);
            assert(key_in_entries(r2, k));
            assert(lex_lt(b, k));
            let j = choose|j: int| 0 <= j < r1.len() && (#[trigger] r1[j]).0 == k;
            assert(j > 0) by {
                if j == 0 {
                    lemma_lex_trichotomy(b, k);
                }
            }
            assert(t1[j - 1].0 == k);
        }
        assert(forall|i: int| 0 <= i < t1.len() ==> #[trigger] t1[i] == r1[i + 1]);
        assert(forall|i: int| 0 <= i < t2.len() ==> #[trigger] t2[i] == r2[i + 1]);
        lemma_sorted_entries_with_same_keys_equal(m, t1, t2);
        assert(r1 =~= r2) by {
            assert(forall|i: int| 1 <= i < r1.len() ==> #[trigger] r1[i] == t1[i - 1]);
            assert(forall|i: int| 1 <= i < r2.len() ==> #[trigger] r2[i] == t2[i - 1]);
        }
    }
}

/// The scan contract pins the result: any two sequences satisfying
/// [`scan_result_matches`] for the same column and request are equal. A
/// conforming scan has exactly one possible answer.
pub proof fn lemma_scan_result_unique(
    m: Map<Seq<u8>, Seq<u8>>,
    r1: Seq<(Seq<u8>, Seq<u8>)>,
    r2: Seq<(Seq<u8>, Seq<u8>)>,
    prefix: Option<Seq<u8>>,
    start: Option<Seq<u8>>,
    direction: IterDirection,
)
    requires
        scan_result_matches(m, r1, prefix, start, direction),
        scan_result_matches(m, r2, prefix, start, direction),
    ensures
        r1 == r2,
{
    if prefix_start_mismatch(prefix, start) {
        assert(r1 =~= r2);
    } else {
        match direction {
            IterDirection::Forward => {
                lemma_sorted_entries_with_same_keys_equal(m, r1, r2);
            }
            IterDirection::Reverse => {
                let v1 = r1.reverse();
                let v2 = r2.reverse();
                assert forall|k: Seq<u8>| key_in_entries(v1, k) implies key_in_entries(
                    v2,
                    k,
                ) by {
                    let i = choose|i: int| 0 <= i < v1.len() && (#[trigger] v1[i]).0 == k;
                    assert(r1[v1.len() - 1 - i].0 == k);
                    assert(key_in_entries(r1, k));
                    assert(m.contains_key(k) && in_scan_range(k, prefix, start, direction));
                    let j = choose|j: int| 0 <= j < r2.len() && (#[trigger] r2[j]).0 == k;
                    assert(v2[v2.len() - 1 - j] == r2[j]);
                }
                assert forall|k: Seq<u8>| key_in_entries(v2, k) implies key_in_entries(
                    v1,
                    k,
                ) by {
                    let i = choose|i: int| 0 <= i < v2.len() && (#[trigger] v2[i]).0 == k;
                    assert(r2[v2.len() - 1 - i].0 == k);
                    assert(key_in_entries(r2, k));
                    assert(m.contains_key(k) && in_scan_range(k, prefix, start, direction));
                    let j = choose|j: int| 0 <= j < r1.len() && (#[trigger] r1[j]).0 == k;
                    assert(v1[v1.len() - 1 - j] == r1[j]);
                }
                assert forall|i: int| 0 <= i < v1.len() implies m.contains_key(
                    (#[trigger] v1[i]).0,
                ) && m[v1[i].0] == v1[i].1 by {
                    assert(v1[i] == r1[v1.len() - 1 - i]);
                }
                assert forall|i: int| 0 <= i < v2.len() implies m.contains_key(
                    (#[trigger] v2[i]).0,
                ) && m[v2[i].0] == v2[i].1 by {
                    assert(v2[i] == r2[v2.len() - 1 - i]);
                }
                lemma_sorted_entries_with_same_keys_equal(m, v1, v2);
                assert(r1 =~= r2) by {
                    assert(r1.len() == v1.len() && r2.len() == v2.len());
                    assert(forall|i: int|
                        0 <= i < r1.len() ==> #[trigger] r1[i] == v1[r1.len() - 1 - i]);
                    assert(forall|i: int|
                        0 <= i < r2.len() ==> #[trigger] r2[i] == v2[r2.len() - 1 - i]);
                }
            }
        }
    }
}

/// Sorted entries have unique keys.
pub proof fn lemma_sorted_unique_keys(es: Seq<(Seq<u8>, Seq<u8>)>)
    requires
        entries_sorted(es),
    ensures
        unique_keys(es),
{
    assert forall|i: int, j: int| 0 <= i < j < es.len() implies
        (#[trigger] es[i]).0 != (#[trigger] es[j]).0 by {
        lemma_lex_trichotomy(es[i].0, es[j].0);
    }
}

/// Filtering preserves strict sortedness.
pub proof fn lemma_filter_preserves_sorted(
    es: Seq<(Seq<u8>, Seq<u8>)>,
    pred: spec_fn((Seq<u8>, Seq<u8>)) -> bool,
)
    requires
        entries_sorted(es),
    ensures
        entries_sorted(es.filter(pred)),
    decreases es.len(),
{
    reveal(Seq::filter);
    if es.len() > 0 {
        let rest = es.drop_last();
        assert(entries_sorted(rest));
        lemma_filter_preserves_sorted(rest, pred);
        let f = rest.filter(pred);
        if pred(es.last()) {
            let out = f.push(es.last());
            assert forall|i: int, j: int| 0 <= i < j < out.len() implies
                lex_lt((#[trigger] out[i]).0, (#[trigger] out[j]).0) by {
                if j < out.len() - 1 {
                    assert(lex_lt(f[i].0, f[j].0));
                } else {
                    rest.lemma_filter_contains_rev(pred, out[i]);
                    let w = choose|w: int| 0 <= w < rest.len() && rest[w] == out[i];
                    assert(lex_lt(es[w].0, es.last().0));
                }
            }
        }
    }
}

/// A scan over sorted entries meets [`scan_result_matches`] against the
/// map those entries denote.
pub proof fn lemma_scan_view_properties(
    es: Seq<(Seq<u8>, Seq<u8>)>,
    prefix: Option<Seq<u8>>,
    start: Option<Seq<u8>>,
    direction: IterDirection,
)
    requires
        entries_sorted(es),
    ensures
        scan_result_matches(
            seq_map(es),
            scan_view(es, prefix, start, direction),
            prefix,
            start,
            direction,
        ),
{
    lemma_sorted_unique_keys(es);
    crate::kv::lemma_seq_map_characterization(es);
    let m = seq_map(es);
    let pred = |e: (Seq<u8>, Seq<u8>)| in_scan_range(e.0, prefix, start, direction);
    if !prefix_start_mismatch(prefix, start) {
        let f = es.filter(pred);
        lemma_filter_preserves_sorted(es, pred);
        let r = scan_view(es, prefix, start, direction);

        assert forall|i: int| 0 <= i < f.len() implies {
            &&& m.contains_key((#[trigger] f[i]).0)
            &&& m[f[i].0] == f[i].1
            &&& in_scan_range(f[i].0, prefix, start, direction)
        } by {
            es.lemma_filter_pred(pred, i);
            es.lemma_filter_contains_rev(pred, f[i]);
            let w = choose|w: int| 0 <= w < es.len() && es[w] == f[i];
            assert(m.contains_key(es[w].0) && m[es[w].0] == es[w].1);
        }
        assert forall|k: Seq<u8>|
            m.contains_key(k) && #[trigger] in_scan_range(k, prefix, start, direction)
                implies key_in_entries(f, k) by {
            let i = choose|i: int| 0 <= i < es.len() && (#[trigger] es[i]).0 == k;
            assert(m[k] == es[i].1);
            assert(pred(es[i]));
            es.lemma_filter_contains(pred, i);
            let j = choose|j: int| 0 <= j < f.len() && f[j] == es[i];
            assert(f[j].0 == k);
        }
        match direction {
            IterDirection::Forward => {
                assert(r == f);
            }
            IterDirection::Reverse => {
                assert(r == f.reverse());
                assert(r.len() == f.len());
                assert forall|i: int| 0 <= i < r.len() implies {
                    &&& m.contains_key((#[trigger] r[i]).0)
                    &&& m[r[i].0] == r[i].1
                    &&& in_scan_range(r[i].0, prefix, start, direction)
                } by {
                    assert(r[i] == f[f.len() - 1 - i]);
                }
                assert forall|k: Seq<u8>|
                    m.contains_key(k) && #[trigger] in_scan_range(k, prefix, start, direction)
                        implies key_in_entries(r, k) by {
                    let i = choose|i: int| 0 <= i < f.len() && (#[trigger] f[i]).0 == k;
                    assert(r[f.len() - 1 - i] == f[i]);
                }
                assert(r.reverse() =~= f);
            }
        }
    }
}

} // verus!
