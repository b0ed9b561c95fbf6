//! Whole-store laws, proved against the map model that every backend
//! contract speaks of.
//!
//! Each law here holds for every reachable store: the operations'
//! contracts express their effects over the model, and these lemmas close
//! the loop from those effects back to what a later reader observes.

use vstd::prelude::*;

use crate::column::Column;
use crate::column::COLUMN_COUNT;
use crate::kv::apply_op;
use crate::kv::apply_ops;
use crate::kv::column_lookup;
use crate::kv::WriteOperation;
use crate::transaction::lemma_apply_op_lookup;

verus! {

/// Round-trip: writing `value` under `key` and reading `key` back returns
/// `Some(value)`, for every store, column, key and value — zero-length
/// keys and values included.
pub proof fn lemma_put_get_round_trip(
    v: Seq<Map<Seq<u8>, Seq<u8>>>,
    column: Column,
    key: Seq<u8>,
    value: Seq<u8>,
)
    requires
        v.len() == COLUMN_COUNT as int,
    ensures
        column_lookup(
            v.update(column.id_spec(), v[column.id_spec()].insert(key, value))[
                column.id_spec()
            ],
            key,
        ) == Some(value),
{
}

/// Existence consistency: a key is reported present exactly when a read
/// returns a value, in every reachable state.
pub proof fn lemma_exists_get_consistency(m: Map<Seq<u8>, Seq<u8>>, k: Seq<u8>)
    ensures
        m.contains_key(k) <==> column_lookup(m, k) is Some,
{
}

/// Idempotent delete: removing an absent key returns nothing and leaves
/// the column exactly as it was.
pub proof fn lemma_idempotent_delete(m: Map<Seq<u8>, Seq<u8>>, k: Seq<u8>)
    requires
        !m.contains_key(k),
    ensures
        m.remove(k) == m,
        column_lookup(m, k) is None,
{
    assert(m.remove(k) =~= m);
}

/// What a whole batch leaves under one key: the last operation of the
/// batch targeting it decides, and a batch targeting it nowhere leaves
/// the base value.
pub open spec fn batch_effect(
    ops: Seq<WriteOperation>,
    c: Column,
    k: Seq<u8>,
    base: Option<Seq<u8>>,
) -> Option<Seq<u8>>
    decreases ops.len(),
{
    if ops.len() == 0 {
        base
    } else {
        match ops.last() {
            WriteOperation::Insert(ko, co, vo) => if co == c && ko@ == k {
                Some(vo@)
            } else {
                batch_effect(ops.drop_last(), c, k, base)
            },
            WriteOperation::Remove(ko, co) => if co == c && ko@ == k {
                None
            } else {
                batch_effect(ops.drop_last(), c, k, base)
            },
        }
    }
}

/// Batch atomicity, read back: after a batch applies as one unit — a
/// store-level `batch_write` or a transactional commit — a reader of any
/// key observes the effect of the whole batch, never of a partial subset:
/// the last operation targeting the key decides it, and a key the batch
/// never targets is untouched.
pub proof fn lemma_batch_effect(
    v: Seq<Map<Seq<u8>, Seq<u8>>>,
    ops: Seq<WriteOperation>,
    c: Column,
    k: Seq<u8>,
)
    requires
        v.len() == COLUMN_COUNT as int,
    ensures
        column_lookup(apply_ops(v, ops)[c.id_spec()], k) == batch_effect(
            ops,
            c,
            k,
            column_lookup(v[c.id_spec()], k),
        ),
    decreases ops.len(),
{
    if ops.len() > 0 {
        lemma_batch_effect(v, ops.drop_last(), c, k);
        crate::kv::lemma_apply_ops_len(v, ops.drop_last());
        lemma_apply_op_lookup(apply_ops(v, ops.drop_last()), ops.last(), c, k);
    }
}

} // verus!
