//! The in-memory backing store: the reference implementation of the
//! storage interface, verified against the whole-store map model.
//!
//! Each column holds its entries in a vector sorted strictly ascending by
//! key, so directional, prefix-bounded iteration is a filtered walk of the
//! entries. The store is the concrete backend used by the transactional
//! view and by tests; an on-disk engine satisfies the same interface
//! behind the planning logic of [`crate::backend`].

use vstd::prelude::*;
use vstd::seq_lib::*;

use crate::bytes::clone_bytes;
use crate::bytes::key_has_prefix;
use crate::bytes::key_le;
use crate::bytes::key_lt;
use crate::bytes::lemma_lex_lt_transitive;
use crate::bytes::lemma_lex_trichotomy;
use crate::bytes::lex_le;
use crate::bytes::lex_lt;
use crate::bytes::has_prefix;
use crate::column::Column;
use crate::column::COLUMN_COUNT;
use crate::errors::DatabaseError;
use crate::errors::DatabaseResult;
use crate::iterate::entries_sorted;
use crate::iterate::effective_start;
use crate::iterate::in_scan_range;
use crate::iterate::lemma_scan_view_properties;
use crate::iterate::opt_key_view;
use crate::iterate::prefix_start_mismatch;
use crate::iterate::scan_result_matches;
use crate::iterate::scan_view;
use crate::iterate::IterDirection;
use crate::kv::column_lookup;
use crate::kv::entry_in;
use crate::kv::key_in_entries;
use crate::kv::lemma_seq_map_characterization;
use crate::kv::lemma_seq_map_eq_insert;
use crate::kv::lemma_seq_map_eq_remove;
use crate::kv::opt_value_view;
use crate::kv::seq_map;
use crate::kv::unique_keys;
use crate::iterate::lemma_sorted_unique_keys;

verus! {

/// View of a vector of owned key-value pairs as a sequence of byte-string
/// pairs.
pub open spec fn entries_view(s: Seq<(Vec<u8>, Vec<u8>)>) -> Seq<(Seq<u8>, Seq<u8>)> {
    s.map_values(|e: (Vec<u8>, Vec<u8>)| (e.0@, e.1@))
}

/// One column of the in-memory store: entries sorted strictly ascending
/// by key.
pub struct ColumnStore {
    entries: Vec<(Vec<u8>, Vec<u8>)>,
}

impl ColumnStore {
    /// The column's entries as byte-string pairs, in storage order.
    pub closed spec fn entries_seq(self) -> Seq<(Seq<u8>, Seq<u8>)> {
        entries_view(self.entries@)
    }

    /// Well-formedness: the entries are sorted strictly ascending by key.
    pub closed spec fn inv(self) -> bool {
        entries_sorted(self.entries_seq())
    }

    /// The key-value map the column denotes.
    pub closed spec fn as_map(self) -> Map<Seq<u8>, Seq<u8>> {
        seq_map(self.entries_seq())
    }

    /// The entries of a well-formed column are its map, sorted by key.
    pub proof fn lemma_entries_match_map(self)
        requires
            self.inv(),
        ensures
            entries_sorted(self.entries_seq()),
            unique_keys(self.entries_seq()),
            self.as_map() == seq_map(self.entries_seq()),
            forall|k: Seq<u8>| #[trigger] self.as_map().contains_key(k)
                <==> key_in_entries(self.entries_seq(), k),
            forall|i: int|
                0 <= i < self.entries_seq().len() ==> self.as_map().contains_key(
                    (#[trigger] self.entries_seq()[i]).0,
                ) && self.as_map()[self.entries_seq()[i].0] == self.entries_seq()[i].1,
    {
        lemma_sorted_unique_keys(self.entries_seq());
        lemma_seq_map_characterization(self.entries_seq());
    }

    /// An empty column.
    pub fn new() -> (r: ColumnStore)
        ensures
            r.inv(),
            r.as_map() == Map::<Seq<u8>, Seq<u8>>::empty(),
            r.entries_seq().len() == 0,
    {
        let r = ColumnStore { entries: Vec::new() };
        proof {
            assert(r.entries_seq() =~= Seq::<(Seq<u8>, Seq<u8>)>::empty());
        }
        r
    }

    /// Index of the entry carrying `key`, if any.
    fn find(&self, key: &Vec<u8>) -> (r: Option<usize>)
        ensures
            match r {
                Some(i) => i < self.entries_seq().len()
                    && (self.entries_seq()[i as int]).0 == key@,
                None => !key_in_entries(self.entries_seq(), key@),
            },
    {
        let ghost es = self.entries_seq();
        let mut i: usize = 0;
        while i < self.entries.len()
            invariant
                i <= self.entries@.len(),
                es == self.entries_seq(),
                es.len() == self.entries@.len(),
                forall|j: int| 0 <= j < i ==> (#[trigger] es[j]).0 != key@,
            decreases self.entries@.len() - i,
        {
            let e = &self.entries[i];
            if crate::bytes::key_eq(&e.0, key) {
                return Some(i);
            }
            i = i + 1;
        }
        None
    }

    /// The stored value for `key`, borrowed.
    fn get_ref(&self, key: &Vec<u8>) -> (r: Option<&Vec<u8>>)
        requires
            self.inv(),
        ensures
            match r {
                Some(v) => column_lookup(self.as_map(), key@) == Some(v@),
                None => column_lookup(self.as_map(), key@) is None,
            },
    {
        proof {
            self.lemma_entries_match_map();
        }
        match self.find(key) {
            Some(i) => Some(&self.entries[i].1),
            None => None,
        }
    }

    /// The stored value for `key`, copied out.
    pub fn get(&self, key: &Vec<u8>) -> (r: Option<Vec<u8>>)
        requires
            self.inv(),
        ensures
            opt_value_view(r) == column_lookup(self.as_map(), key@),
    {
        match self.get_ref(key) {
            Some(v) => Some(clone_bytes(v)),
            None => None,
        }
    }

    /// The length of the stored value for `key`, without copying it.
    pub fn size_of(&self, key: &Vec<u8>) -> (r: Option<usize>)
        requires
            self.inv(),
        ensures
            match r {
                Some(n) => column_lookup(self.as_map(), key@) matches Some(v)
                    && n == v.len(),
                None => column_lookup(self.as_map(), key@) is None,
            },
    {
        match self.get_ref(key) {
            Some(v) => Some(v.len()),
            None => None,
        }
    }

    /// First index whose key is above `key`, in a column not holding `key`.
    fn insert_position(&self, key: &Vec<u8>) -> (j: usize)
        requires
            self.inv(),
            !key_in_entries(self.entries_seq(), key@),
        ensures
            j <= self.entries_seq().len(),
            forall|m: int| 0 <= m < j ==> lex_lt((#[trigger] self.entries_seq()[m]).0, key@),
            forall|m: int|
                j <= m < self.entries_seq().len() ==> lex_lt(
                    key@,
                    (#[trigger] self.entries_seq()[m]).0,
                ),
    {
        let ghost es = self.entries_seq();
        let mut j: usize = 0;
        loop
            invariant
                j <= self.entries@.len(),
                es == self.entries_seq(),
                es.len() == self.entries@.len(),
                self.inv(),
                !key_in_entries(es, key@),
                forall|m: int| 0 <= m < j ==> lex_lt((#[trigger] es[m]).0, key@),
            decreases self.entries@.len() - j,
        {
            if j == self.entries.len() {
                return j;
            }
            let e = &self.entries[j];
            if key_lt(key, &e.0) {
                proof {
                    assert forall|m: int| j <= m < es.len() implies lex_lt(
                        key@,
                        (#[trigger] es[m]).0,
                    ) by {
                        if m > j {
                            lemma_lex_lt_transitive(key@, es[j as int].0, es[m].0);
                        }
                    }
                }
                return j;
            }
            proof {
                lemma_lex_trichotomy(key@, es[j as int].0);
                assert(es[j as int].0 != key@);
            }
            j = j + 1;
        }
    }

    /// Insert or overwrite `key -> value`; the previous value comes back.
    pub fn put(&mut self, key: &Vec<u8>, value: Vec<u8>) -> (r: Option<Vec<u8>>)
        requires
            old(self).inv(),
        ensures
            final(self).inv(),
            final(self).as_map() == old(self).as_map().insert(key@, value@),
            opt_value_view(r) == column_lookup(old(self).as_map(), key@),
    {
        proof {
            self.lemma_entries_match_map();
        }
        let ghost es = self.entries_seq();
        match self.find(key) {
            Some(i) => {
                let prev = clone_bytes(&self.entries[i].1);
                let kc = clone_bytes(key);
                self.entries[i] = (kc, value);
                proof {
                    let es2 = self.entries_seq();
                    assert(es2 =~= es.update(i as int, (key@, value@)));
                    assert(forall|m: int|
                        0 <= m < es2.len() ==> (#[trigger] es2[m]).0 == es[m].0);
                    assert(entries_sorted(es2));
                    lemma_sorted_unique_keys(es2);
                    assert(key_in_entries(es2, key@)) by {
                        assert(es2[i as int].0 == key@);
                    }
                    assert forall|m: int|
                        0 <= m < es2.len() && (#[trigger] es2[m]).0 != key@ implies entry_in(
                        es,
                        es2[m],
                    ) by {
                        assert(es[m] == es2[m]);
                    }
                    assert forall|m: int|
                        0 <= m < es.len() && (#[trigger] es[m]).0 != key@ implies entry_in(
                        es2,
                        es[m],
                    ) by {
                        assert(m != i);
                        assert(es2[m] == es[m]);
                    }
                    lemma_seq_map_eq_insert(es, es2, key@, value@);
                }
                Some(prev)
            }
            None => {
                let j = self.insert_position(key);
                let kc = clone_bytes(key);
                self.entries.insert(j, (kc, value));
                proof {
                    let es2 = self.entries_seq();
                    assert(es2 =~= es.insert(j as int, (key@, value@)));
                    assert forall|m: int, n: int| 0 <= m < n < es2.len() implies lex_lt(
                        (#[trigger] es2[m]).0,
                        (#[trigger] es2[n]).0,
                    ) by {
                        if m < j && n < j {
                            assert(es2[m] == es[m] && es2[n] == es[n]);
                        } else if m < j && n == j {
                            assert(es2[m] == es[m]);
                        } else if m < j && n > j {
                            assert(es2[m] == es[m] && es2[n] == es[n - 1]);
                            lemma_lex_lt_transitive(es[m].0, key@, es[n - 1].0);
                        } else if m == j && n > j {
                            assert(es2[n] == es[n - 1]);
                        } else {
                            assert(es2[m] == es[m - 1] && es2[n] == es[n - 1]);
                        }
                    }
                    assert(entries_sorted(es2));
                    lemma_sorted_unique_keys(es2);
                    assert(key_in_entries(es2, key@)) by {
                        assert(es2[j as int].0 == key@);
                    }
                    assert forall|m: int|
                        0 <= m < es2.len() && (#[trigger] es2[m]).0 != key@ implies entry_in(
                        es,
                        es2[m],
                    ) by {
                        if m < j {
                            assert(es[m] == es2[m]);
                        } else {
                            assert(m > j);
                            assert(es[m - 1] == es2[m]);
                        }
                    }
                    assert forall|m: int|
                        0 <= m < es.len() && (#[trigger] es[m]).0 != key@ implies entry_in(
                        es2,
                        es[m],
                    ) by {
                        if m < j {
                            assert(es2[m] == es[m]);
                        } else {
                            assert(es2[m + 1] == es[m]);
                        }
                    }
                    lemma_seq_map_eq_insert(es, es2, key@, value@);
                }
                None
            }
        }
    }

    /// Remove `key`; the removed value comes back. Removing an absent key
    /// returns `None` and leaves the column unchanged.
    pub fn delete(&mut self, key: &Vec<u8>) -> (r: Option<Vec<u8>>)
        requires
            old(self).inv(),
        ensures
            final(self).inv(),
            final(self).as_map() == old(self).as_map().remove(key@),
            opt_value_view(r) == column_lookup(old(self).as_map(), key@),
    {
        proof {
            self.lemma_entries_match_map();
        }
        let ghost es = self.entries_seq();
        match self.find(key) {
            Some(i) => {
                let e = self.entries.remove(i);
                proof {
                    let es2 = self.entries_seq();
                    assert(es2 =~= es.remove(i as int));
                    assert forall|m: int, n: int| 0 <= m < n < es2.len() implies lex_lt(
                        (#[trigger] es2[m]).0,
                        (#[trigger] es2[n]).0,
                    ) by {
                        if m < i && n < i {
                            assert(es2[m] == es[m] && es2[n] == es[n]);
                        } else if m < i {
                            assert(es2[m] == es[m] && es2[n] == es[n + 1]);
                        } else {
                            assert(es2[m] == es[m + 1] && es2[n] == es[n + 1]);
                        }
                    }
                    assert(entries_sorted(es2));
                    lemma_sorted_unique_keys(es2);
                    lemma_sorted_unique_keys(es);
                    assert(!key_in_entries(es2, key@)) by {
                        if key_in_entries(es2, key@) {
                            let m = choose|m: int|
                                0 <= m < es2.len() && (#[trigger] es2[m]).0 == key@;
                            if m < i {
                                assert(es[m].0 == key@);
                            } else {
                                assert(es[m + 1].0 == key@);
                            }
                        }
                    }
                    assert forall|m: int| 0 <= m < es2.len() implies entry_in(
                        es,
                        #[trigger] es2[m],
                    ) by {
                        if m < i {
                            assert(es[m] == es2[m]);
                        } else {
                            assert(es[m + 1] == es2[m]);
                        }
                    }
                    assert forall|m: int|
                        0 <= m < es.len() && (#[trigger] es[m]).0 != key@ implies entry_in(
                        es2,
                        es[m],
                    ) by {
                        if m < i {
                            assert(es2[m] == es[m]);
                        } else {
                            assert(m != i);
                            assert(es2[m - 1] == es[m]);
                        }
                    }
                    lemma_seq_map_eq_remove(es, es2, key@);
                }
                Some(e.1)
            }
            None => {
                proof {
                    assert(self.as_map().remove(key@) =~= self.as_map());
                }
                None
            }
        }
    }

    /// Directional, prefix-bounded scan of the column, per the iteration
    /// algorithm of [`crate::iterate`].
    #[verifier::loop_isolation(false)]
    pub fn scan(
        &self,
        prefix: Option<&Vec<u8>>,
        start: Option<&Vec<u8>>,
        direction: IterDirection,
    ) -> (r: Vec<(Vec<u8>, Vec<u8>)>)
        requires
            self.inv(),
        ensures
            entries_view(r@) == scan_view(
                self.entries_seq(),
                opt_key_view(prefix),
                opt_key_view(start),
                direction,
            ),
    {
        let ghost es = self.entries_seq();
        let ghost pv = opt_key_view(prefix);
        let ghost sv = opt_key_view(start);
        let ghost pred = |e: (Seq<u8>, Seq<u8>)| in_scan_range(e.0, pv, sv, direction);

        if let (Some(p), Some(s)) = (prefix, start) {
            if !key_has_prefix(s, p) {
                let r: Vec<(Vec<u8>, Vec<u8>)> = Vec::new();
                proof {
                    assert(entries_view(r@) =~= Seq::<(Seq<u8>, Seq<u8>)>::empty());
                }
                return r;
            }
        }
        proof {
            assert(!prefix_start_mismatch(pv, sv));
        }

        let eff: Option<&Vec<u8>> = match start {
            Some(s) => Some(s),
            None => prefix,
        };
        proof {
            assert(opt_key_view(eff) == effective_start(pv, sv));
        }

        let mut out: Vec<(Vec<u8>, Vec<u8>)> = Vec::new();
        let mut i: usize = 0;
        proof {
            assert(entries_view(out@) =~= es.take(0).filter(pred));
            assert(es.take(0) =~= Seq::<(Seq<u8>, Seq<u8>)>::empty());
            reveal(Seq::filter);
        }
        while i < self.entries.len()
            invariant
                i <= self.entries@.len(),
                es == self.entries_seq(),
                es.len() == self.entries@.len(),
                pred == (|e: (Seq<u8>, Seq<u8>)| in_scan_range(e.0, pv, sv, direction)),
                entries_view(out@) == es.take(i as int).filter(pred),
            decreases self.entries@.len() - i,
        {
            let e = &self.entries[i];
            let keep = scan_range_contains(&e.0, prefix, eff, direction);
            proof {
                assert(keep == pred(es[i as int]));
                assert(es.take(i + 1).drop_last() =~= es.take(i as int));
                assert(es.take(i + 1).last() == es[i as int]);
                assert(es.take(i + 1) =~= es.take(i as int).push(es[i as int]));
                es.take(i as int).lemma_filter_push(es[i as int], pred);
            }
            if keep {
                let kc = clone_bytes(&e.0);
                let vc = clone_bytes(&e.1);
                let ghost old_out = out@;
                out.push((kc, vc));
                proof {
                    assert(entries_view(out@) =~= entries_view(old_out).push(
                        (es[i as int].0, es[i as int].1),
                    ));
                    assert(es[i as int] == (es[i as int].0, es[i as int].1));
                }
            }
            i = i + 1;
        }
        proof {
            assert(es.take(es.len() as int) =~= es);
        }

        match direction {
            IterDirection::Forward => out,
            IterDirection::Reverse => {
                let ghost f = entries_view(out@);
                let mut rev: Vec<(Vec<u8>, Vec<u8>)> = Vec::new();
                let ghost orig = out@;
                while out.len() > 0
                    invariant
                        out@ == orig.take(out@.len() as int),
                        out@.len() + rev@.len() == orig.len(),
                        forall|m: int|
                            0 <= m < rev@.len() ==> #[trigger] rev@[m] == orig[orig.len() - 1
                                - m],
                    decreases out@.len(),
                {
                    let ghost k = out@.len() as int;
                    match out.pop() {
                        Some(e) => {
                            proof {
                                assert(orig.take(k).drop_last() =~= orig.take(k - 1));
                                assert(orig.take(k).last() == orig[k - 1]);
                            }
                            rev.push(e);
                        }
                        None => {
                            proof {
                                assert(false);
                            }
                        }
                    }
                }
                proof {
                    assert(rev@.len() == orig.len());
                    assert forall|m: int| 0 <= m < rev@.len() implies entries_view(rev@)[m]
                        == f.reverse()[m] by {
                        assert(rev@[m] == orig[orig.len() - 1 - m]);
                        assert(entries_view(rev@)[m] == f[f.len() - 1 - m]);
                    }
                    assert(entries_view(rev@) =~= f.reverse());
                }
                rev
            }
        }
    }

}

/// Whether an entry key lies in the requested scan range, decided in
/// executable code.
fn scan_range_contains(
    k: &Vec<u8>,
    prefix: Option<&Vec<u8>>,
    eff_start: Option<&Vec<u8>>,
    direction: IterDirection,
) -> (r: bool)
        ensures
            r == {
                &&& match opt_key_view(prefix) {
                    Some(p) => has_prefix(k@, p),
                    None => true,
                }
                &&& match opt_key_view(eff_start) {
                    Some(s) => match direction {
                        IterDirection::Forward => lex_le(s, k@),
                        IterDirection::Reverse => lex_le(k@, s),
                    },
                    None => true,
                }
            },
    {
        let prefix_ok = match prefix {
            Some(p) => key_has_prefix(k, p),
            None => true,
        };
        let start_ok = match eff_start {
            Some(s) => match direction {
                IterDirection::Forward => key_le(s, k),
                IterDirection::Reverse => key_le(k, s),
            },
            None => true,
        };
        prefix_ok && start_ok
}

/// View of a column sequence as the per-column map model.
pub open spec fn cols_view(cols: Seq<ColumnStore>) -> Seq<Map<Seq<u8>, Seq<u8>>> {
    cols.map_values(|c: ColumnStore| c.as_map())
}

/// The in-memory backing store: one [`ColumnStore`] per declared column.
pub struct MemoryStore {
    columns: Vec<ColumnStore>,
}

impl MemoryStore {
    /// The whole-store model: one key-value map per column, in identifier
    /// order.
    pub closed spec fn store_view(self) -> Seq<Map<Seq<u8>, Seq<u8>>> {
        cols_view(self.columns@)
    }

    /// The map model of one column.
    pub open spec fn column_view(self, column: Column) -> Map<Seq<u8>, Seq<u8>> {
        self.store_view()[column.id_spec()]
    }

    /// Well-formedness: one well-formed column per declared column.
    pub closed spec fn inv(self) -> bool {
        &&& self.columns@.len() == COLUMN_COUNT as int
        &&& forall|i: int| 0 <= i < self.columns@.len() ==> (#[trigger] self.columns@[i]).inv()
    }

    /// The store has one model map per declared column.
    pub proof fn lemma_view_len(self)
        requires
            self.inv(),
        ensures
            self.store_view().len() == COLUMN_COUNT as int,
    {
    }

    /// An empty store: every column holds nothing.
    pub fn new() -> (r: MemoryStore)
        ensures
            r.inv(),
            r.store_view() == crate::kv::empty_store_model(),
    {
        let mut columns: Vec<ColumnStore> = Vec::new();
        let mut n: usize = 0;
        while n < COLUMN_COUNT
            invariant
                n == columns@.len(),
                n <= COLUMN_COUNT,
                forall|i: int|
                    0 <= i < n ==> (#[trigger] columns@[i]).inv() && columns@[i].as_map()
                        == Map::<Seq<u8>, Seq<u8>>::empty(),
            decreases COLUMN_COUNT - n,
        {
            columns.push(ColumnStore::new());
            n = n + 1;
        }
        let r = MemoryStore { columns };
        proof {
            assert(r.store_view() =~= crate::kv::empty_store_model());
        }
        r
    }

    /// The stored value for `key` in `column`, or `None`.
    pub fn get(&self, key: &Vec<u8>, column: Column) -> (r: DatabaseResult<Option<Vec<u8>>>)
        requires
            self.inv(),
        ensures
            r matches Ok(v) && opt_value_view(v) == column_lookup(
                self.column_view(column),
                key@,
            ),
    {
        let idx = column.id() as usize;
        let c = &self.columns[idx];
        Ok(c.get(key))
    }

    /// Insert or overwrite `key -> value` in `column`; the previous value,
    /// if any, comes back. The internal read and write steps are not one
    /// atomic unit under concurrent sharing of one store.
    pub fn put(
        &mut self,
        key: &Vec<u8>,
        column: Column,
        value: Vec<u8>,
    ) -> (r: DatabaseResult<Option<Vec<u8>>>)
        requires
            old(self).inv(),
        ensures
            final(self).inv(),
            final(self).store_view() == old(self).store_view().update(
                column.id_spec(),
                old(self).column_view(column).insert(key@, value@),
            ),
            r matches Ok(prev) && opt_value_view(prev) == column_lookup(
                old(self).column_view(column),
                key@,
            ),
    {
        let idx = column.id() as usize;
        let c = &mut self.columns[idx];
        let prev = c.put(key, value);
        proof {
            assert(self.store_view() =~= old(self).store_view().update(
                column.id_spec(),
                old(self).column_view(column).insert(key@, value@),
            ));
        }
        Ok(prev)
    }

    /// Remove `key` from `column`; the removed value, if any, comes back.
    /// Removing an absent key returns `None` and changes nothing.
    pub fn delete(&mut self, key: &Vec<u8>, column: Column) -> (r: DatabaseResult<
        Option<Vec<u8>>,
    >)
        requires
            old(self).inv(),
        ensures
            final(self).inv(),
            final(self).store_view() == old(self).store_view().update(
                column.id_spec(),
                old(self).column_view(column).remove(key@),
            ),
            r matches Ok(prev) && opt_value_view(prev) == column_lookup(
                old(self).column_view(column),
                key@,
            ),
    {
        let idx = column.id() as usize;
        let c = &mut self.columns[idx];
        let prev = c.delete(key);
        proof {
            assert(self.store_view() =~= old(self).store_view().update(
                column.id_spec(),
                old(self).column_view(column).remove(key@),
            ));
        }
        Ok(prev)
    }

    /// Whether `key` is present in `column`, without copying the value.
    pub fn key_exists(&self, key: &Vec<u8>, column: Column) -> (r: DatabaseResult<bool>)
        requires
            self.inv(),
        ensures
            r matches Ok(b) && b == self.column_view(column).contains_key(key@),
    {
        let idx = column.id() as usize;
        let c = &self.columns[idx];
        match c.size_of(key) {
            Some(_) => Ok(true),
            None => Ok(false),
        }
    }

    /// The byte length of the stored value for `key` in `column`, without
    /// copying the value.
    pub fn size_of_value(&self, key: &Vec<u8>, column: Column) -> (r: DatabaseResult<
        Option<usize>,
    >)
        requires
            self.inv(),
        ensures
            r matches Ok(s) && match s {
                Some(n) => column_lookup(self.column_view(column), key@) matches Some(v)
                    && n == v.len(),
                None => column_lookup(self.column_view(column), key@) is None,
            },
    {
        let idx = column.id() as usize;
        let c = &self.columns[idx];
        Ok(c.size_of(key))
    }

    /// Copy the stored value for `key` into the caller's buffer. Fails
    /// when the buffer is smaller than the stored value; the caller then
    /// falls back to [`MemoryStore::read_alloc`]. On success the value
    /// fills the front of the buffer and the rest keeps its old bytes.
    #[verifier::loop_isolation(false)]
    pub fn read(
        &self,
        key: &Vec<u8>,
        column: Column,
        buf: &mut Vec<u8>,
    ) -> (r: DatabaseResult<Option<usize>>)
        requires
            self.inv(),
        ensures
            match r {
                Ok(opt) => match opt {
                    Some(n) => {
                        &&& column_lookup(self.column_view(column), key@) matches Some(v)
                            && n == v.len() && v.len() <= old(buf)@.len() && final(buf)@ == v
                            + old(buf)@.skip(v.len() as int)
                    }
                    None => column_lookup(self.column_view(column), key@) is None
                        && final(buf)@ == old(buf)@,
                },
                Err(_) => {
                    &&& column_lookup(self.column_view(column), key@) matches Some(v)
                        && v.len() > old(buf)@.len()
                    &&& final(buf)@ == old(buf)@
                },
            },
    {
        let idx = column.id() as usize;
        let c = &self.columns[idx];
        match c.get_ref(key) {
            None => Ok(None),
            Some(v) => {
                let n = v.len();
                if buf.len() < n {
                    return Err(DatabaseError::other("buffer too small for stored value"));
                }
                let mut i: usize = 0;
                while i < n
                    invariant
                        n == v@.len(),
                        n <= buf@.len(),
                        i <= n,
                        buf@.len() == old(buf)@.len(),
                        forall|j: int| 0 <= j < i ==> buf@[j] == v@[j],
                        forall|j: int| i <= j < buf@.len() ==> buf@[j] == old(buf)@[j],
                    decreases n - i,
                {
                    buf[i] = v[i];
                    i = i + 1;
                }
                proof {
                    assert(buf@ =~= v@ + old(buf)@.skip(n as int));
                }
                Ok(Some(n))
            }
        }
    }

    /// Write the caller's buffer as the value of `key` in `column`,
    /// returning the number of bytes written.
    pub fn write(&mut self, key: &Vec<u8>, column: Column, buf: Vec<u8>) -> (r: DatabaseResult<
        usize,
    >)
        requires
            old(self).inv(),
        ensures
            final(self).inv(),
            final(self).store_view() == old(self).store_view().update(
                column.id_spec(),
                old(self).column_view(column).insert(key@, buf@),
            ),
            r matches Ok(n) && n == buf@.len(),
    {
        let n = buf.len();
        let idx = column.id() as usize;
        let c = &mut self.columns[idx];
        let _prev = c.put(key, buf);
        proof {
            assert(self.store_view() =~= old(self).store_view().update(
                column.id_spec(),
                old(self).column_view(column).insert(key@, buf@),
            ));
        }
        Ok(n)
    }

    /// The stored value for `key`, copied into a fresh allocation;
    /// equivalent to [`MemoryStore::get`].
    pub fn read_alloc(&self, key: &Vec<u8>, column: Column) -> (r: DatabaseResult<
        Option<Vec<u8>>,
    >)
        requires
            self.inv(),
        ensures
            r matches Ok(v) && opt_value_view(v) == column_lookup(
                self.column_view(column),
                key@,
            ),
    {
        let idx = column.id() as usize;
        let c = &self.columns[idx];
        Ok(c.get(key))
    }

    /// Write `buf` as the value of `key`, returning the bytes written and
    /// the previous value. The internal read and write steps are not one
    /// atomic unit under concurrent sharing of one store.
    pub fn replace(
        &mut self,
        key: &Vec<u8>,
        column: Column,
        buf: Vec<u8>,
    ) -> (r: DatabaseResult<(usize, Option<Vec<u8>>)>)
        requires
            old(self).inv(),
        ensures
            final(self).inv(),
            final(self).store_view() == old(self).store_view().update(
                column.id_spec(),
                old(self).column_view(column).insert(key@, buf@),
            ),
            r matches Ok(p) && p.0 == buf@.len() && opt_value_view(p.1) == column_lookup(
                old(self).column_view(column),
                key@,
            ),
    {
        let n = buf.len();
        let idx = column.id() as usize;
        let c = &mut self.columns[idx];
        let prev = c.put(key, buf);
        proof {
            assert(self.store_view() =~= old(self).store_view().update(
                column.id_spec(),
                old(self).column_view(column).insert(key@, buf@),
            ));
        }
        Ok((n, prev))
    }

    /// Read then delete `key`, returning the removed value. The internal
    /// read and delete steps are not one atomic unit under concurrent
    /// sharing of one store.
    pub fn take(&mut self, key: &Vec<u8>, column: Column) -> (r: DatabaseResult<
        Option<Vec<u8>>,
    >)
        requires
            old(self).inv(),
        ensures
            final(self).inv(),
            final(self).store_view() == old(self).store_view().update(
                column.id_spec(),
                old(self).column_view(column).remove(key@),
            ),
            r matches Ok(prev) && opt_value_view(prev) == column_lookup(
                old(self).column_view(column),
                key@,
            ),
    {
        self.delete(key, column)
    }

    /// Directional, prefix-bounded iteration over `column`, materialized
    /// in one vector: every in-range entry of the column, in the requested
    /// order, per [`scan_result_matches`].
    pub fn iter_all(
        &self,
        column: Column,
        prefix: Option<&Vec<u8>>,
        start: Option<&Vec<u8>>,
        direction: IterDirection,
    ) -> (r: DatabaseResult<Vec<(Vec<u8>, Vec<u8>)>>)
        requires
            self.inv(),
        ensures
            r matches Ok(items) && scan_result_matches(
                self.column_view(column),
                entries_view(items@),
                opt_key_view(prefix),
                opt_key_view(start),
                direction,
            ),
    {
        let idx = column.id() as usize;
        let c = &self.columns[idx];
        let items = c.scan(prefix, start, direction);
        proof {
            lemma_scan_view_properties(
                c.entries_seq(),
                opt_key_view(prefix),
                opt_key_view(start),
                direction,
            );
        }
        Ok(items)
    }

    /// Apply a whole batch of write operations, first to last, as one
    /// atomic unit with respect to this store: the store moves from its
    /// old view to `apply_ops(old, entries)` with no intermediate state
    /// observable through this handle.
    #[verifier::loop_isolation(false)]
    pub fn batch_write(&mut self, entries: &Vec<crate::kv::WriteOperation>) -> (r:
        DatabaseResult<()>)
        requires
            old(self).inv(),
        ensures
            final(self).inv(),
            final(self).store_view() == crate::kv::apply_ops(old(self).store_view(), entries@),
            r is Ok,
    {
        let mut i: usize = 0;
        while i < entries.len()
            invariant
                i <= entries@.len(),
                self.inv(),
                self.store_view() == crate::kv::apply_ops(
                    old(self).store_view(),
                    entries@.take(i as int),
                ),
            decreases entries@.len() - i,
        {
            let ghost pre = self.store_view();
            match &entries[i] {
                crate::kv::WriteOperation::Insert(k, c, v) => {
                    let value = clone_bytes(v);
                    let _ = self.put(k, *c, value);
                }
                crate::kv::WriteOperation::Remove(k, c) => {
                    let _ = self.delete(k, *c);
                }
            }
            proof {
                assert(self.store_view() == crate::kv::apply_op(pre, entries@[i as int]));
                crate::kv::lemma_apply_ops_take_step(
                    old(self).store_view(),
                    entries@,
                    i as int,
                );
            }
            i = i + 1;
        }
        proof {
            assert(entries@.take(entries@.len() as int) =~= entries@);
        }
        Ok(())
    }
}

impl crate::kv::KeyValueStore for MemoryStore {
    open spec fn store_model(&self) -> Seq<Map<Seq<u8>, Seq<u8>>> {
        self.store_view()
    }

    open spec fn wf(&self) -> bool {
        self.inv()
    }

    fn get(&self, key: &Vec<u8>, column: Column) -> (r: DatabaseResult<Option<Vec<u8>>>) {
        MemoryStore::get(self, key, column)
    }

    fn put(&mut self, key: &Vec<u8>, column: Column, value: Vec<u8>) -> (r: DatabaseResult<
        Option<Vec<u8>>,
    >) {
        MemoryStore::put(self, key, column, value)
    }

    fn write(&mut self, key: &Vec<u8>, column: Column, buf: Vec<u8>) -> (r: DatabaseResult<
        usize,
    >) {
        MemoryStore::write(self, key, column, buf)
    }

    fn replace(&mut self, key: &Vec<u8>, column: Column, buf: Vec<u8>) -> (r: DatabaseResult<
        (usize, Option<Vec<u8>>),
    >) {
        MemoryStore::replace(self, key, column, buf)
    }

    fn take(&mut self, key: &Vec<u8>, column: Column) -> (r: DatabaseResult<Option<Vec<u8>>>) {
        MemoryStore::take(self, key, column)
    }

    fn delete(&mut self, key: &Vec<u8>, column: Column) -> (r: DatabaseResult<
        Option<Vec<u8>>,
    >) {
        MemoryStore::delete(self, key, column)
    }

    fn key_exists(&self, key: &Vec<u8>, column: Column) -> (r: DatabaseResult<bool>) {
        MemoryStore::key_exists(self, key, column)
    }

    fn size_of_value(&self, key: &Vec<u8>, column: Column) -> (r: DatabaseResult<
        Option<usize>,
    >) {
        MemoryStore::size_of_value(self, key, column)
    }

    fn read(&self, key: &Vec<u8>, column: Column, buf: &mut Vec<u8>) -> (r: DatabaseResult<
        Option<usize>,
    >) {
        MemoryStore::read(self, key, column, buf)
    }

    fn read_alloc(&self, key: &Vec<u8>, column: Column) -> (r: DatabaseResult<
        Option<Vec<u8>>,
    >) {
        MemoryStore::read_alloc(self, key, column)
    }

    fn iter_all(
        &self,
        column: Column,
        prefix: Option<&Vec<u8>>,
        start: Option<&Vec<u8>>,
        direction: IterDirection,
    ) -> (r: DatabaseResult<Vec<(Vec<u8>, Vec<u8>)>>) {
        MemoryStore::iter_all(self, column, prefix, start, direction)
    }
}

impl crate::kv::BatchOperations for MemoryStore {
    /// Native atomic batch of the in-memory store: the whole batch applies
    /// as one unit and no failure is possible, strengthening the
    /// per-entry fallback.
    fn batch_write(&mut self, entries: &Vec<crate::kv::WriteOperation>) -> (r: DatabaseResult<
        (),
    >) {
        MemoryStore::batch_write(self, entries)
    }
}

} // verus!
