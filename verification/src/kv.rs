//! The abstract model of the store and the unit of batch application.
//!
//! A store is modelled as one partial map from keys to values per column,
//! indexed by the column's stable identifier. [`WriteOperation`] is the unit
//! of batch application; [`apply_ops`] says what applying a whole batch
//! means, and is the yardstick for batch atomicity: a batch-atomic backend
//! moves the store from its old view to `apply_ops(old, batch)` in one step.

use vstd::prelude::*;

use crate::column::Column;
use crate::column::COLUMN_COUNT;
use crate::errors::DatabaseResult;
use crate::iterate::scan_result_matches;
use crate::iterate::opt_key_view;
use crate::iterate::IterDirection;

verus! {

/// A single insertion or removal, the unit of batch application.
#[derive(Debug)]
pub enum WriteOperation {
    /// Insert (or overwrite) `key -> value` in the column.
    Insert(Vec<u8>, Column, Vec<u8>),
    /// Remove `key` from the column, if present.
    Remove(Vec<u8>, Column),
}

/// The value associated with `k`, if any.
pub open spec fn column_lookup(m: Map<Seq<u8>, Seq<u8>>, k: Seq<u8>) -> Option<Seq<u8>> {
    if m.contains_key(k) {
        Some(m[k])
    } else {
        None
    }
}

/// View of an optional owned value.
pub open spec fn opt_value_view(o: Option<Vec<u8>>) -> Option<Seq<u8>> {
    match o {
        Some(v) => Some(v@),
        None => None,
    }
}

/// The whole-store view: one key-value map per column, in identifier order.
pub open spec fn empty_store_model() -> Seq<Map<Seq<u8>, Seq<u8>>> {
    Seq::new(COLUMN_COUNT as nat, |i: int| Map::empty())
}

/// The store view after one write operation.
pub open spec fn apply_op(
    v: Seq<Map<Seq<u8>, Seq<u8>>>,
    op: WriteOperation,
) -> Seq<Map<Seq<u8>, Seq<u8>>> {
    match op {
        WriteOperation::Insert(key, column, value) => v.update(
            column.id_spec(),
            v[column.id_spec()].insert(key@, value@),
        ),
        WriteOperation::Remove(key, column) => v.update(
            column.id_spec(),
            v[column.id_spec()].remove(key@),
        ),
    }
}

/// The store view after a whole batch, applied first to last.
pub open spec fn apply_ops(
    v: Seq<Map<Seq<u8>, Seq<u8>>>,
    ops: Seq<WriteOperation>,
) -> Seq<Map<Seq<u8>, Seq<u8>>>
    decreases ops.len(),
{
    if ops.len() == 0 {
        v
    } else {
        apply_op(apply_ops(v, ops.drop_last()), ops.last())
    }
}

/// Unfolding step of [`apply_ops`] along a growing prefix of the batch.
pub proof fn lemma_apply_ops_take_step(
    v: Seq<Map<Seq<u8>, Seq<u8>>>,
    ops: Seq<WriteOperation>,
    i: int,
)
    requires
        0 <= i < ops.len(),
    ensures
        apply_ops(v, ops.take(i + 1)) == apply_op(apply_ops(v, ops.take(i)), ops[i]),
{
    assert(ops.take(i + 1).drop_last() =~= ops.take(i));
    assert(ops.take(i + 1).last() == ops[i]);
}

/// Applying a batch never changes the number of columns.
pub proof fn lemma_apply_ops_len(v: Seq<Map<Seq<u8>, Seq<u8>>>, ops: Seq<WriteOperation>)
    requires
        v.len() == COLUMN_COUNT as int,
    ensures
        apply_ops(v, ops).len() == COLUMN_COUNT as int,
    decreases ops.len(),
{
    if ops.len() > 0 {
        lemma_apply_ops_len(v, ops.drop_last());
    }
}

/// The map a sorted entry sequence denotes: later entries win, though with
/// unique keys there is nothing to win over.
pub open spec fn seq_map(es: Seq<(Seq<u8>, Seq<u8>)>) -> Map<Seq<u8>, Seq<u8>>
    decreases es.len(),
{
    if es.len() == 0 {
        Map::empty()
    } else {
        seq_map(es.drop_last()).insert(es.last().0, es.last().1)
    }
}

/// Some entry of `es` carries the key `k`.
pub open spec fn key_in_entries(es: Seq<(Seq<u8>, Seq<u8>)>, k: Seq<u8>) -> bool {
    exists|i: int| 0 <= i < es.len() && (#[trigger] es[i]).0 == k
}

/// No two entries of `es` carry the same key.
pub open spec fn unique_keys(es: Seq<(Seq<u8>, Seq<u8>)>) -> bool {
    forall|i: int, j: int|
        0 <= i < j < es.len() ==> (#[trigger] es[i]).0 != (#[trigger] es[j]).0
}

/// Characterization of [`seq_map`] for entry sequences with unique keys:
/// its domain is exactly the keys of the entries, and each entry's key maps
/// to that entry's value.
pub proof fn lemma_seq_map_characterization(es: Seq<(Seq<u8>, Seq<u8>)>)
    requires
        unique_keys(es),
    ensures
        forall|k: Seq<u8>| #[trigger] seq_map(es).contains_key(k) <==> key_in_entries(es, k),
        forall|i: int|
            0 <= i < es.len() ==> seq_map(es).contains_key((#[trigger] es[i]).0)
                && seq_map(es)[es[i].0] == es[i].1,
    decreases es.len(),
{
    if es.len() > 0 {
        assert(unique_keys(es.drop_last()));
        lemma_seq_map_characterization(es.drop_last());
        assert forall|k: Seq<u8>| #[trigger] seq_map(es).contains_key(k) implies
            key_in_entries(es, k) by {
            if k == es.last().0 {
                assert(es[es.len() - 1].0 == k);
            } else {
                assert(seq_map(es.drop_last()).contains_key(k));
                let i = choose|i: int|
                    0 <= i < es.drop_last().len() && (#[trigger] es.drop_last()[i]).0 == k;
                assert(es[i].0 == k);
            }
        }
        assert forall|k: Seq<u8>| key_in_entries(es, k) implies
            seq_map(es).contains_key(k) by {
            let i = choose|i: int| 0 <= i < es.len() && (#[trigger] es[i]).0 == k;
            if i < es.len() - 1 {
                assert(es.drop_last()[i].0 == k);
                assert(key_in_entries(es.drop_last(), k));
            }
        }
        assert forall|i: int| 0 <= i < es.len() implies
            seq_map(es).contains_key((#[trigger] es[i]).0)
                && seq_map(es)[es[i].0] == es[i].1 by {
            if i < es.len() - 1 {
                assert(es.drop_last()[i] == es[i]);
                assert(es[i].0 != es.last().0);
            }
        }
    }
}

/// The storage interface: single-key CRUD, sized probes and directional
/// range iteration, keyed by explicit column, against the whole-store map
/// model. It is the narrow port every subsystem holds; alternate backends
/// (in-memory, embedded-engine) satisfy it.
///
/// A backend may fail any operation with a backend error, but what it
/// returns must be truthful against its model, and a failed write must
/// leave the store unchanged.
pub trait KeyValueStore {
    /// The whole-store model: one key-value map per column.
    spec fn store_model(&self) -> Seq<Map<Seq<u8>, Seq<u8>>>;

    /// The backend's well-formedness.
    spec fn wf(&self) -> bool;

    /// The stored value for `key` in `column`, or `None`.
    fn get(&self, key: &Vec<u8>, column: Column) -> (r: DatabaseResult<Option<Vec<u8>>>)
        requires
            self.wf(),
        ensures
            r matches Ok(v) ==> opt_value_view(v) == column_lookup(
                self.store_model()[column.id_spec()],
                key@,
            ),
    ;

    /// Insert or overwrite `key -> value`, returning the previous value.
    /// The internal read and write steps are not one atomic unit under
    /// concurrent sharing of one store.
    fn put(&mut self, key: &Vec<u8>, column: Column, value: Vec<u8>) -> (r: DatabaseResult<
        Option<Vec<u8>>,
    >)
        requires
            old(self).wf(),
        ensures
            final(self).wf(),
            r is Ok ==> final(self).store_model() == old(self).store_model().update(
                column.id_spec(),
                old(self).store_model()[column.id_spec()].insert(key@, value@),
            ),
            r matches Ok(prev) ==> opt_value_view(prev) == column_lookup(
                old(self).store_model()[column.id_spec()],
                key@,
            ),
            r is Err ==> final(self).store_model() == old(self).store_model(),
    ;

    /// Write `buf` as the value of `key`, returning the bytes written.
    fn write(&mut self, key: &Vec<u8>, column: Column, buf: Vec<u8>) -> (r: DatabaseResult<
        usize,
    >)
        requires
            old(self).wf(),
        ensures
            final(self).wf(),
            r is Ok ==> final(self).store_model() == old(self).store_model().update(
                column.id_spec(),
                old(self).store_model()[column.id_spec()].insert(key@, buf@),
            ),
            r matches Ok(n) ==> n == buf@.len(),
            r is Err ==> final(self).store_model() == old(self).store_model(),
    ;

    /// Write `buf`, returning the bytes written and the previous value.
    fn replace(&mut self, key: &Vec<u8>, column: Column, buf: Vec<u8>) -> (r: DatabaseResult<
        (usize, Option<Vec<u8>>),
    >)
        requires
            old(self).wf(),
        ensures
            final(self).wf(),
            r is Ok ==> final(self).store_model() == old(self).store_model().update(
                column.id_spec(),
                old(self).store_model()[column.id_spec()].insert(key@, buf@),
            ),
            r matches Ok(p) ==> p.0 == buf@.len() && opt_value_view(p.1) == column_lookup(
                old(self).store_model()[column.id_spec()],
                key@,
            ),
            r is Err ==> final(self).store_model() == old(self).store_model(),
    ;

    /// Read then delete `key`, returning the removed value.
    fn take(&mut self, key: &Vec<u8>, column: Column) -> (r: DatabaseResult<Option<Vec<u8>>>)
        requires
            old(self).wf(),
        ensures
            final(self).wf(),
            r is Ok ==> final(self).store_model() == old(self).store_model().update(
                column.id_spec(),
                old(self).store_model()[column.id_spec()].remove(key@),
            ),
            r matches Ok(prev) ==> opt_value_view(prev) == column_lookup(
                old(self).store_model()[column.id_spec()],
                key@,
            ),
            r is Err ==> final(self).store_model() == old(self).store_model(),
    ;

    /// Remove `key`, returning the removed value; removing an absent key
    /// returns `None` and changes nothing.
    fn delete(&mut self, key: &Vec<u8>, column: Column) -> (r: DatabaseResult<
        Option<Vec<u8>>,
    >)
        requires
            old(self).wf(),
        ensures
            final(self).wf(),
            r is Ok ==> final(self).store_model() == old(self).store_model().update(
                column.id_spec(),
                old(self).store_model()[column.id_spec()].remove(key@),
            ),
            r matches Ok(prev) ==> opt_value_view(prev) == column_lookup(
                old(self).store_model()[column.id_spec()],
                key@,
            ),
            r is Err ==> final(self).store_model() == old(self).store_model(),
    ;

    /// Whether `key` is present, without copying the value.
    fn key_exists(&self, key: &Vec<u8>, column: Column) -> (r: DatabaseResult<bool>)
        requires
            self.wf(),
        ensures
            r matches Ok(b) ==> b == self.store_model()[column.id_spec()].contains_key(key@),
    ;

    /// The byte length of the stored value, without copying it.
    fn size_of_value(&self, key: &Vec<u8>, column: Column) -> (r: DatabaseResult<
        Option<usize>,
    >)
        requires
            self.wf(),
        ensures
            r matches Ok(s) ==> match s {
                Some(n) => column_lookup(self.store_model()[column.id_spec()], key@)
                    matches Some(v) && n == v.len(),
                None => column_lookup(self.store_model()[column.id_spec()], key@) is None,
            },
    ;

    /// Copy the stored value into the caller's buffer; fails when the
    /// buffer is smaller than the stored value, and the caller then falls
    /// back to the allocating read.
    fn read(&self, key: &Vec<u8>, column: Column, buf: &mut Vec<u8>) -> (r: DatabaseResult<
        Option<usize>,
    >)
        requires
            self.wf(),
        ensures
            r matches Ok(opt) ==> match opt {
                Some(n) => {
                    &&& column_lookup(self.store_model()[column.id_spec()], key@)
                        matches Some(v) && n == v.len() && v.len() <= old(buf)@.len()
                        && final(buf)@ == v + old(buf)@.skip(v.len() as int)
                }
                None => column_lookup(self.store_model()[column.id_spec()], key@) is None
                    && final(buf)@ == old(buf)@,
            },
    ;

    /// The stored value, copied into a fresh allocation; equivalent to
    /// `get`.
    fn read_alloc(&self, key: &Vec<u8>, column: Column) -> (r: DatabaseResult<
        Option<Vec<u8>>,
    >)
        requires
            self.wf(),
        ensures
            r matches Ok(v) ==> opt_value_view(v) == column_lookup(
                self.store_model()[column.id_spec()],
                key@,
            ),
    ;

    /// Directional, prefix-bounded iteration over `column`, materialized
    /// in one vector.
    fn iter_all(
        &self,
        column: Column,
        prefix: Option<&Vec<u8>>,
        start: Option<&Vec<u8>>,
        direction: IterDirection,
    ) -> (r: DatabaseResult<Vec<(Vec<u8>, Vec<u8>)>>)
        requires
            self.wf(),
        ensures
            r matches Ok(items) ==> scan_result_matches(
                self.store_model()[column.id_spec()],
                crate::memory::entries_view(items@),
                opt_key_view(prefix),
                opt_key_view(start),
                direction,
            ),
    ;
}

/// Batch application on top of the storage interface. The default body is
/// the fallback for backends without native atomic batches: it applies
/// entries one at a time, stopping at and surfacing the first failure, so
/// a reader sharing the store may observe a proper prefix of the batch.
/// It is not a substitute for the all-or-nothing guarantee transactional
/// callers need; a backend with native batches overrides it.
pub trait BatchOperations: KeyValueStore {
    /// Apply every entry, first to last.
    fn batch_write(&mut self, entries: &Vec<WriteOperation>) -> (r: DatabaseResult<()>)
        requires
            old(self).wf(),
        ensures
            final(self).wf(),
            r is Ok ==> final(self).store_model() == apply_ops(
                old(self).store_model(),
                entries@,
            ),
            r is Err ==> exists|i: int|
                0 <= i < entries@.len() && final(self).store_model() == apply_ops(
                    old(self).store_model(),
                    entries@.take(i),
                ),
    {
        let mut i: usize = 0;
        while i < entries.len()
            invariant
                i <= entries@.len(),
                self.wf(),
                self.store_model() == apply_ops(old(self).store_model(), entries@.take(i as int)),
            decreases entries@.len() - i,
        {
            let ghost pre = self.store_model();
            match &entries[i] {
                WriteOperation::Insert(k, c, v) => {
                    let value = crate::bytes::clone_bytes(v);
                    match self.put(k, *c, value) {
                        Ok(_) => {}
                        Err(e) => {
                            proof {
                                assert(self.store_model() == apply_ops(
                                    old(self).store_model(),
                                    entries@.take(i as int),
                                ));
                            }
                            return Err(e);
                        }
                    }
                }
                WriteOperation::Remove(k, c) => {
                    match self.delete(k, *c) {
                        Ok(_) => {}
                        Err(e) => {
                            proof {
                                assert(self.store_model() == apply_ops(
                                    old(self).store_model(),
                                    entries@.take(i as int),
                                ));
                            }
                            return Err(e);
                        }
                    }
                }
            }
            proof {
                assert(self.store_model() == apply_op(pre, entries@[i as int]));
                lemma_apply_ops_take_step(old(self).store_model(), entries@, i as int);
            }
            i = i + 1;
        }
        proof {
            assert(entries@.take(entries@.len() as int) =~= entries@);
        }
        Ok(())
    }
}

/// Some entry of `es` equals `e`.
pub open spec fn entry_in(es: Seq<(Seq<u8>, Seq<u8>)>, e: (Seq<u8>, Seq<u8>)) -> bool {
    exists|i: int| 0 <= i < es.len() && #[trigger] es[i] == e
}

/// If `es2` holds exactly the entries of `es` except that key `k` now maps
/// to `v`, then the denoted map is `seq_map(es).insert(k, v)`.
pub proof fn lemma_seq_map_eq_insert(
    es: Seq<(Seq<u8>, Seq<u8>)>,
    es2: Seq<(Seq<u8>, Seq<u8>)>,
    k: Seq<u8>,
    v: Seq<u8>,
)
    requires
        unique_keys(es),
        unique_keys(es2),
        key_in_entries(es2, k),
        forall|i: int| 0 <= i < es2.len() && (#[trigger] es2[i]).0 == k ==> es2[i].1 == v,
        forall|i: int|
            0 <= i < es2.len() && (#[trigger] es2[i]).0 != k ==> entry_in(es, es2[i]),
        forall|i: int|
            0 <= i < es.len() && (#[trigger] es[i]).0 != k ==> entry_in(es2, es[i]),
    ensures
        seq_map(es2) == seq_map(es).insert(k, v),
{
    lemma_seq_map_characterization(es);
    lemma_seq_map_characterization(es2);
    let m = seq_map(es).insert(k, v);
    let m2 = seq_map(es2);
    assert forall|key: Seq<u8>| m2.contains_key(key) implies m.contains_key(key) by {
        if key != k {
            let i = choose|i: int| 0 <= i < es2.len() && (#[trigger] es2[i]).0 == key;
            assert(entry_in(es, es2[i]));
            let j = choose|j: int| 0 <= j < es.len() && #[trigger] es[j] == es2[i];
            assert(es[j].0 == key);
        }
    }
    assert forall|key: Seq<u8>| m.contains_key(key) implies m2.contains_key(key) by {
        if key != k {
            let i = choose|i: int| 0 <= i < es.len() && (#[trigger] es[i]).0 == key;
            assert(entry_in(es2, es[i]));
            let j = choose|j: int| 0 <= j < es2.len() && #[trigger] es2[j] == es[i];
            assert(es2[j].0 == key);
        }
    }
    assert forall|key: Seq<u8>| m2.contains_key(key) && m.contains_key(key) implies
        m2[key] == m[key] by {
        let i = choose|i: int| 0 <= i < es2.len() && (#[trigger] es2[i]).0 == key;
        assert(m2[key] == es2[i].1);
        if key != k {
            assert(entry_in(es, es2[i]));
            let j = choose|j: int| 0 <= j < es.len() && #[trigger] es[j] == es2[i];
            assert(seq_map(es)[key] == es[j].1);
        }
    }
    assert(m2 =~= m);
}

/// If `es2` holds exactly the entries of `es` except that key `k` is gone,
/// then the denoted map is `seq_map(es).remove(k)`.
pub proof fn lemma_seq_map_eq_remove(
    es: Seq<(Seq<u8>, Seq<u8>)>,
    es2: Seq<(Seq<u8>, Seq<u8>)>,
    k: Seq<u8>,
)
    requires
        unique_keys(es),
        unique_keys(es2),
        !key_in_entries(es2, k),
        forall|i: int| 0 <= i < es2.len() ==> entry_in(es, #[trigger] es2[i]),
        forall|i: int|
            0 <= i < es.len() && (#[trigger] es[i]).0 != k ==> entry_in(es2, es[i]),
    ensures
        seq_map(es2) == seq_map(es).remove(k),
{
    lemma_seq_map_characterization(es);
    lemma_seq_map_characterization(es2);
    let m = seq_map(es).remove(k);
    let m2 = seq_map(es2);
    assert forall|key: Seq<u8>| m2.contains_key(key) implies m.contains_key(key) by {
        let i = choose|i: int| 0 <= i < es2.len() && (#[trigger] es2[i]).0 == key;
        assert(entry_in(es, es2[i]));
        let j = choose|j: int| 0 <= j < es.len() && #[trigger] es[j] == es2[i];
        assert(es[j].0 == key);
    }
    assert forall|key: Seq<u8>| m.contains_key(key) implies m2.contains_key(key) by {
        let i = choose|i: int| 0 <= i < es.len() && (#[trigger] es[i]).0 == key;
        assert(entry_in(es2, es[i]));
        let j = choose|j: int| 0 <= j < es2.len() && #[trigger] es2[j] == es[i];
        assert(es2[j].0 == key);
    }
    assert forall|key: Seq<u8>| m2.contains_key(key) && m.contains_key(key) implies
        m2[key] == m[key] by {
        let i = choose|i: int| 0 <= i < es2.len() && (#[trigger] es2[i]).0 == key;
        assert(m2[key] == es2[i].1);
        assert(entry_in(es, es2[i]));
        let j = choose|j: int| 0 <= j < es.len() && #[trigger] es[j] == es2[i];
        assert(seq_map(es)[key] == es[j].1);
    }
    assert(m2 =~= m);
}

} // verus!
