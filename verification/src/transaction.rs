//! The nested transactional view: a staging layer over a base store.
//!
//! A view owns a stack of pending-write buffers, one per nesting level.
//! Reads through the view see the pending writes overlaid on the base
//! store (read-your-writes); nothing outside the view sees them. On
//! commit, all pending writes are applied to the base store as one batch;
//! on abort they are discarded with no observable effect. The view's state
//! machine is `Open -> {Committed | Aborted}`, terminal on either exit:
//! staging, reading and the nested operations all require an open view.

use vstd::prelude::*;
use vstd::seq_lib::*;

use crate::bytes::clone_bytes;
use crate::column::Column;
use crate::column::COLUMN_COUNT;
use crate::kv::apply_op;
use crate::kv::apply_ops;
use crate::kv::column_lookup;
use crate::kv::opt_value_view;
use crate::kv::WriteOperation;
use crate::memory::MemoryStore;

verus! {

/// Failure of a transactional unit of work.
#[derive(Copy, Clone, Debug, PartialEq, Eq, Structural)]
pub enum TransactionError {
    /// The unit of speculative work was discarded; the base store is
    /// untouched. Distinguishable from a backend fault so callers can
    /// retry the work rather than treat it as a storage failure.
    Aborted,
}

/// Result type of transactional work.
pub type TransactionResult<T> = Result<T, TransactionError>;

/// Lifecycle of a transactional view.
#[derive(Copy, Clone, Debug, PartialEq, Eq, Structural)]
pub enum ViewState {
    /// Accepting reads and staged writes.
    Open,
    /// Pending writes were applied to the base store.
    Committed,
    /// Pending writes were discarded.
    Aborted,
}

/// All pending writes of a stack of buffers, outermost first.
pub open spec fn stack_ops(ls: Seq<Seq<WriteOperation>>) -> Seq<WriteOperation>
    decreases ls.len(),
{
    if ls.len() == 0 {
        Seq::empty()
    } else {
        stack_ops(ls.drop_last()) + ls.last()
    }
}

/// Pushing an empty buffer changes nothing of the pending writes.
pub proof fn lemma_stack_ops_push_empty(ls: Seq<Seq<WriteOperation>>)
    ensures
        stack_ops(ls.push(Seq::empty())) == stack_ops(ls),
{
    assert(ls.push(Seq::<WriteOperation>::empty()).drop_last() =~= ls);
    assert(stack_ops(ls.push(Seq::empty())) =~= stack_ops(ls));
}

/// Unfolding step of [`stack_ops`] along a growing prefix of the stack.
pub proof fn lemma_stack_ops_take_step(ls: Seq<Seq<WriteOperation>>, i: int)
    requires
        0 <= i < ls.len(),
    ensures
        stack_ops(ls.take(i + 1)) == stack_ops(ls.take(i)) + ls[i],
{
    assert(ls.take(i + 1).drop_last() =~= ls.take(i));
    assert(ls.take(i + 1).last() == ls[i]);
}

/// Appending an operation to the top buffer appends it to the pending
/// writes.
pub proof fn lemma_stack_ops_push_op(ls: Seq<Seq<WriteOperation>>, op: WriteOperation)
    requires
        ls.len() >= 1,
    ensures
        stack_ops(ls.update(ls.len() - 1, ls.last().push(op))) == stack_ops(ls).push(op),
{
    let ls2 = ls.update(ls.len() - 1, ls.last().push(op));
    assert(ls2.drop_last() =~= ls.drop_last());
    assert(ls2.last() == ls.last().push(op));
    assert(stack_ops(ls.drop_last()) + ls.last().push(op) =~= (stack_ops(ls.drop_last())
        + ls.last()).push(op));
}

/// Merging the top buffer into its parent changes nothing of the pending
/// writes.
pub proof fn lemma_stack_ops_merge_top(ls: Seq<Seq<WriteOperation>>)
    requires
        ls.len() >= 2,
    ensures
        stack_ops(
            ls.drop_last().update(ls.len() - 2, ls[ls.len() - 2] + ls.last()),
        ) == stack_ops(ls),
{
    let k = ls.len() - 2;
    let dl = ls.drop_last();
    let ls2 = dl.update(k, ls[k] + ls.last());
    assert(ls2.drop_last() =~= dl.drop_last());
    assert(ls2.last() == ls[k] + ls.last());
    assert(stack_ops(ls2) == stack_ops(dl.drop_last()) + (ls[k] + ls.last()));
    assert(dl.last() == ls[k]);
    assert(stack_ops(dl) == stack_ops(dl.drop_last()) + dl.last());
    assert(stack_ops(ls) == stack_ops(dl) + ls.last());
    assert(stack_ops(ls) == (stack_ops(dl.drop_last()) + ls[k]) + ls.last());
    assert(stack_ops(dl.drop_last()) + (ls[k] + ls.last()) =~= (stack_ops(dl.drop_last())
        + ls[k]) + ls.last());
}

/// The pending writes are the first buffer followed by the rest.
pub proof fn lemma_stack_ops_head(ls: Seq<Seq<WriteOperation>>)
    requires
        ls.len() >= 1,
    ensures
        stack_ops(ls) == ls[0] + stack_ops(ls.drop_first()),
    decreases ls.len(),
{
    if ls.len() == 1 {
        assert(ls.drop_last() =~= Seq::<Seq<WriteOperation>>::empty());
        assert(ls.drop_first() =~= Seq::<Seq<WriteOperation>>::empty());
        assert(ls[0] + stack_ops(ls.drop_first()) =~= ls[0]);
        assert(stack_ops(ls) =~= ls[0]);
    } else {
        let dl = ls.drop_last();
        lemma_stack_ops_head(dl);
        assert(ls.drop_first().drop_last() =~= dl.drop_first());
        assert(stack_ops(ls.drop_first()) == stack_ops(dl.drop_first()) + ls.last());
        assert((dl[0] + stack_ops(dl.drop_first())) + ls.last() =~= ls[0] + (stack_ops(
            dl.drop_first(),
        ) + ls.last()));
    }
}

/// Appending one operation to a batch applies it last.
pub proof fn lemma_apply_ops_push(
    v: Seq<Map<Seq<u8>, Seq<u8>>>,
    s: Seq<WriteOperation>,
    op: WriteOperation,
)
    ensures
        apply_ops(v, s.push(op)) == apply_op(apply_ops(v, s), op),
{
    assert(s.push(op).drop_last() =~= s);
    assert(s.push(op).last() == op);
}

/// Distinct columns have distinct identifiers.
pub proof fn lemma_column_id_injective(a: Column, b: Column)
    ensures
        (a.id_spec() == b.id_spec()) <==> (a == b),
{
}

/// What one write operation does to one column's lookup: it settles the
/// key it targets and leaves every other lookup alone.
pub proof fn lemma_apply_op_lookup(
    v: Seq<Map<Seq<u8>, Seq<u8>>>,
    op: WriteOperation,
    c: Column,
    k: Seq<u8>,
)
    requires
        v.len() == COLUMN_COUNT as int,
    ensures
        column_lookup(apply_op(v, op)[c.id_spec()], k) == match op {
            WriteOperation::Insert(ko, co, vo) => if co == c && ko@ == k {
                Some(vo@)
            } else {
                column_lookup(v[c.id_spec()], k)
            },
            WriteOperation::Remove(ko, co) => if co == c && ko@ == k {
                None
            } else {
                column_lookup(v[c.id_spec()], k)
            },
        },
{
    match op {
        WriteOperation::Insert(ko, co, vo) => {
            lemma_column_id_injective(co, c);
        }
        WriteOperation::Remove(ko, co) => {
            lemma_column_id_injective(co, c);
        }
    }
}

/// A nested, copy-on-write staging layer over a base [`MemoryStore`].
pub struct MemoryTransactionView {
    layers: Vec<Vec<WriteOperation>>,
    state: ViewState,
}

impl MemoryTransactionView {
    /// The stack of pending-write buffers, outermost first.
    pub closed spec fn layers_view(self) -> Seq<Seq<WriteOperation>> {
        self.layers@.map_values(|l: Vec<WriteOperation>| l@)
    }

    /// The view's lifecycle state.
    pub closed spec fn state_spec(self) -> ViewState {
        self.state
    }

    /// The view accepts reads and staged writes.
    pub open spec fn is_open(self) -> bool {
        self.state_spec() is Open
    }

    /// Nesting depth: number of stacked buffers.
    pub open spec fn depth_spec(self) -> int {
        self.layers_view().len() as int
    }

    /// Well-formedness: an open view has at least one buffer.
    pub open spec fn inv(self) -> bool {
        self.is_open() ==> self.depth_spec() >= 1
    }

    /// All pending writes, outermost buffer first.
    pub open spec fn pending(self) -> Seq<WriteOperation> {
        stack_ops(self.layers_view())
    }

    /// The store model a reader inside the view observes over `base`.
    pub open spec fn effective_view(
        self,
        base: Seq<Map<Seq<u8>, Seq<u8>>>,
    ) -> Seq<Map<Seq<u8>, Seq<u8>>> {
        apply_ops(base, self.pending())
    }

    /// A fresh open view with nothing pending.
    pub fn new() -> (r: MemoryTransactionView)
        ensures
            r.inv(),
            r.is_open(),
            r.depth_spec() == 1,
            r.pending() == Seq::<WriteOperation>::empty(),
    {
        let mut layers: Vec<Vec<WriteOperation>> = Vec::new();
        layers.push(Vec::new());
        let r = MemoryTransactionView { layers, state: ViewState::Open };
        proof {
            assert(r.layers_view() =~~= seq![Seq::<WriteOperation>::empty()]);
            assert(r.layers_view().len() == 1);
            assert(r.layers_view().drop_last() =~= Seq::<Seq<WriteOperation>>::empty());
            assert(stack_ops(r.layers_view()) == stack_ops(r.layers_view().drop_last())
                + r.layers_view().last());
            assert(stack_ops(r.layers_view().drop_last()) == Seq::<WriteOperation>::empty());
            assert(r.layers_view().last() == Seq::<WriteOperation>::empty());
            assert(r.pending() =~= Seq::<WriteOperation>::empty());
        }
        r
    }

    /// Current nesting depth.
    pub fn depth(&self) -> (r: usize)
        ensures
            r as int == self.depth_spec(),
    {
        self.layers.len()
    }

    /// Stack one more staging level; reads still see every pending write.
    pub fn begin_nested(&mut self)
        requires
            old(self).inv(),
            old(self).is_open(),
        ensures
            final(self).inv(),
            final(self).is_open(),
            final(self).depth_spec() == old(self).depth_spec() + 1,
            final(self).pending() == old(self).pending(),
    {
        self.layers.push(Vec::new());
        proof {
            assert(self.layers_view() =~= old(self).layers_view().push(
                Seq::<WriteOperation>::empty(),
            ));
            lemma_stack_ops_push_empty(old(self).layers_view());
        }
    }

    /// Merge the innermost staging level into its parent: its writes stay
    /// pending, one level further out.
    pub fn commit_nested(&mut self)
        requires
            old(self).inv(),
            old(self).is_open(),
            old(self).depth_spec() >= 2,
        ensures
            final(self).inv(),
            final(self).is_open(),
            final(self).depth_spec() == old(self).depth_spec() - 1,
            final(self).pending() == old(self).pending(),
    {
        let ghost ls = self.layers_view();
        let mut top = match self.layers.pop() {
            Some(t) => t,
            None => {
                proof {
                    assert(false);
                }
                Vec::new()
            }
        };
        let parent_idx = self.layers.len() - 1;
        let parent = &mut self.layers[parent_idx];
        parent.append(&mut top);
        proof {
            assert(self.layers_view() =~= ls.drop_last().update(
                ls.len() - 2,
                ls[ls.len() - 2] + ls.last(),
            ));
            lemma_stack_ops_merge_top(ls);
        }
    }

    /// Discard the innermost staging level: its writes, and only its
    /// writes, are dropped.
    pub fn abort_nested(&mut self)
        requires
            old(self).inv(),
            old(self).is_open(),
            old(self).depth_spec() >= 2,
        ensures
            final(self).inv(),
            final(self).is_open(),
            final(self).depth_spec() == old(self).depth_spec() - 1,
            final(self).layers_view() == old(self).layers_view().drop_last(),
            final(self).pending() == stack_ops(old(self).layers_view().drop_last()),
    {
        let _ = self.layers.pop();
        proof {
            assert(self.layers_view() =~= old(self).layers_view().drop_last());
        }
    }

    /// A read through the view: the latest pending write for the key
    /// settles it; otherwise the base store answers.
    #[verifier::loop_isolation(false)]
    pub fn get(&self, base: &MemoryStore, key: &Vec<u8>, column: Column) -> (r:
        crate::errors::DatabaseResult<Option<Vec<u8>>>)
        requires
            self.inv(),
            self.is_open(),
            base.inv(),
        ensures
            r matches Ok(v) && opt_value_view(v) == column_lookup(
                self.effective_view(base.store_view())[column.id_spec()],
                key@,
            ),
    {
        let ghost vbase = base.store_view();
        let ghost cid = column.id_spec();
        let ghost ls = self.layers_view();
        let mut found: bool = false;
        let mut val: Option<&Vec<u8>> = None;
        proof {
            base.lemma_view_len();
            assert(ls.take(0) =~= Seq::<Seq<WriteOperation>>::empty());
            assert(stack_ops(ls.take(0)) + Seq::<WriteOperation>::empty() =~= stack_ops(
                ls.take(0),
            ));
        }
        let mut li: usize = 0;
        while li < self.layers.len()
            invariant
                li <= ls.len(),
                column_lookup(apply_ops(vbase, stack_ops(ls.take(li as int)))[cid], key@)
                    == if found {
                    match val {
                        Some(v) => Some(v@),
                        None => None,
                    }
                } else {
                    column_lookup(vbase[cid], key@)
                },
            decreases ls.len() - li,
        {
            let l = &self.layers[li];
            let mut oi: usize = 0;
            proof {
                assert(stack_ops(ls.take(li as int)) + l@.take(0) =~= stack_ops(
                    ls.take(li as int),
                ));
            }
            while oi < l.len()
                invariant
                    oi <= l@.len(),
                    li < ls.len(),
                    l@ == ls[li as int],
                    column_lookup(
                        apply_ops(
                            vbase,
                            stack_ops(ls.take(li as int)) + l@.take(oi as int),
                        )[cid],
                        key@,
                    ) == if found {
                        match val {
                            Some(v) => Some(v@),
                            None => None,
                        }
                    } else {
                        column_lookup(vbase[cid], key@)
                    },
                decreases l@.len() - oi,
            {
                let ghost processed = stack_ops(ls.take(li as int)) + l@.take(oi as int);
                let op = &l[oi];
                proof {
                    crate::kv::lemma_apply_ops_len(vbase, processed);
                    lemma_apply_ops_push(vbase, processed, l@[oi as int]);
                    lemma_apply_op_lookup(apply_ops(vbase, processed), l@[oi as int], column, key@);
                    assert(stack_ops(ls.take(li as int)) + l@.take(oi as int + 1)
                        =~= processed.push(l@[oi as int]));
                }
                match op {
                    WriteOperation::Insert(k2, c2, v2) => {
                        if *c2 == column && crate::bytes::key_eq(k2, key) {
                            found = true;
                            val = Some(v2);
                        }
                    }
                    WriteOperation::Remove(k2, c2) => {
                        if *c2 == column && crate::bytes::key_eq(k2, key) {
                            found = true;
                            val = None;
                        }
                    }
                }
                oi = oi + 1;
            }
            proof {
                lemma_stack_ops_take_step(ls, li as int);
                assert(l@.take(l@.len() as int) =~= l@);
            }
            li = li + 1;
        }
        proof {
            assert(ls.take(ls.len() as int) =~= ls);
        }
        if found {
            match val {
                Some(v) => Ok(Some(clone_bytes(v))),
                None => Ok(None),
            }
        } else {
            base.get(key, column)
        }
    }

    /// Whether the key is present as seen through the view.
    pub fn key_exists(&self, base: &MemoryStore, key: &Vec<u8>, column: Column) -> (r:
        crate::errors::DatabaseResult<bool>)
        requires
            self.inv(),
            self.is_open(),
            base.inv(),
        ensures
            r matches Ok(b) && b == self.effective_view(base.store_view())[
                column.id_spec()
            ].contains_key(key@),
    {
        match self.get(base, key, column) {
            Ok(v) => Ok(v.is_some()),
            Err(e) => Err(e),
        }
    }

    /// Stage an insertion; the value the view saw for the key before the
    /// write comes back (read-your-writes). Nothing outside the view can
    /// see the write until commit.
    pub fn put(
        &mut self,
        base: &MemoryStore,
        key: &Vec<u8>,
        column: Column,
        value: Vec<u8>,
    ) -> (r: crate::errors::DatabaseResult<Option<Vec<u8>>>)
        requires
            old(self).inv(),
            old(self).is_open(),
            base.inv(),
        ensures
            final(self).inv(),
            final(self).is_open(),
            final(self).depth_spec() == old(self).depth_spec(),
            final(self).effective_view(base.store_view()) == old(self).effective_view(
                base.store_view(),
            ).update(
                column.id_spec(),
                old(self).effective_view(base.store_view())[column.id_spec()].insert(
                    key@,
                    value@,
                ),
            ),
            r matches Ok(prev) && opt_value_view(prev) == column_lookup(
                old(self).effective_view(base.store_view())[column.id_spec()],
                key@,
            ),
    {
        let prev = match self.get(base, key, column) {
            Ok(p) => p,
            Err(_) => {
                proof {
                    assert(false);
                }
                None
            }
        };
        let kc = clone_bytes(key);
        let op = WriteOperation::Insert(kc, column, value);
        let ghost opg = op;
        let ghost ls = self.layers_view();
        let top = self.layers.len() - 1;
        let l = &mut self.layers[top];
        l.push(op);
        proof {
            assert(self.layers_view() =~= ls.update(ls.len() - 1, ls.last().push(opg)));
            lemma_stack_ops_push_op(ls, opg);
            lemma_apply_ops_push(base.store_view(), stack_ops(ls), opg);
        }
        Ok(prev)
    }

    /// Stage a removal; the value the view saw for the key before the
    /// write comes back. Nothing outside the view can see the removal
    /// until commit.
    pub fn delete(&mut self, base: &MemoryStore, key: &Vec<u8>, column: Column) -> (r:
        crate::errors::DatabaseResult<Option<Vec<u8>>>)
        requires
            old(self).inv(),
            old(self).is_open(),
            base.inv(),
        ensures
            final(self).inv(),
            final(self).is_open(),
            final(self).depth_spec() == old(self).depth_spec(),
            final(self).effective_view(base.store_view()) == old(self).effective_view(
                base.store_view(),
            ).update(
                column.id_spec(),
                old(self).effective_view(base.store_view())[column.id_spec()].remove(key@),
            ),
            r matches Ok(prev) && opt_value_view(prev) == column_lookup(
                old(self).effective_view(base.store_view())[column.id_spec()],
                key@,
            ),
    {
        let prev = match self.get(base, key, column) {
            Ok(p) => p,
            Err(_) => {
                proof {
                    assert(false);
                }
                None
            }
        };
        let kc = clone_bytes(key);
        let op = WriteOperation::Remove(kc, column);
        let ghost opg = op;
        let ghost ls = self.layers_view();
        let top = self.layers.len() - 1;
        let l = &mut self.layers[top];
        l.push(op);
        proof {
            assert(self.layers_view() =~= ls.update(ls.len() - 1, ls.last().push(opg)));
            lemma_stack_ops_push_op(ls, opg);
            lemma_apply_ops_push(base.store_view(), stack_ops(ls), opg);
        }
        Ok(prev)
    }

    /// Stage a write of `buf` as the value of `key`, returning the bytes
    /// written.
    pub fn write(
        &mut self,
        base: &MemoryStore,
        key: &Vec<u8>,
        column: Column,
        buf: Vec<u8>,
    ) -> (r: crate::errors::DatabaseResult<usize>)
        requires
            old(self).inv(),
            old(self).is_open(),
            base.inv(),
        ensures
            final(self).inv(),
            final(self).is_open(),
            final(self).effective_view(base.store_view()) == old(self).effective_view(
                base.store_view(),
            ).update(
                column.id_spec(),
                old(self).effective_view(base.store_view())[column.id_spec()].insert(
                    key@,
                    buf@,
                ),
            ),
            r matches Ok(n) && n == buf@.len(),
    {
        let n = buf.len();
        match self.put(base, key, column, buf) {
            Ok(_) => Ok(n),
            Err(e) => {
                proof {
                    assert(false);
                }
                Err(e)
            }
        }
    }

    /// Stage a write of `buf`, returning the bytes written and the value
    /// the view saw before.
    pub fn replace(
        &mut self,
        base: &MemoryStore,
        key: &Vec<u8>,
        column: Column,
        buf: Vec<u8>,
    ) -> (r: crate::errors::DatabaseResult<(usize, Option<Vec<u8>>)>)
        requires
            old(self).inv(),
            old(self).is_open(),
            base.inv(),
        ensures
            final(self).inv(),
            final(self).is_open(),
            final(self).effective_view(base.store_view()) == old(self).effective_view(
                base.store_view(),
            ).update(
                column.id_spec(),
                old(self).effective_view(base.store_view())[column.id_spec()].insert(
                    key@,
                    buf@,
                ),
            ),
            r matches Ok(p) && p.0 == buf@.len() && opt_value_view(p.1) == column_lookup(
                old(self).effective_view(base.store_view())[column.id_spec()],
                key@,
            ),
    {
        let n = buf.len();
        match self.put(base, key, column, buf) {
            Ok(prev) => Ok((n, prev)),
            Err(e) => {
                proof {
                    assert(false);
                }
                Err(e)
            }
        }
    }

    /// Stage a removal, returning the value the view saw for the key.
    pub fn take(&mut self, base: &MemoryStore, key: &Vec<u8>, column: Column) -> (r:
        crate::errors::DatabaseResult<Option<Vec<u8>>>)
        requires
            old(self).inv(),
            old(self).is_open(),
            base.inv(),
        ensures
            final(self).inv(),
            final(self).is_open(),
            final(self).effective_view(base.store_view()) == old(self).effective_view(
                base.store_view(),
            ).update(
                column.id_spec(),
                old(self).effective_view(base.store_view())[column.id_spec()].remove(key@),
            ),
            r matches Ok(prev) && opt_value_view(prev) == column_lookup(
                old(self).effective_view(base.store_view())[column.id_spec()],
                key@,
            ),
    {
        self.delete(base, key, column)
    }

    /// The value the view sees for `key`, copied into a fresh allocation;
    /// equivalent to a read through the view.
    pub fn read_alloc(&self, base: &MemoryStore, key: &Vec<u8>, column: Column) -> (r:
        crate::errors::DatabaseResult<Option<Vec<u8>>>)
        requires
            self.inv(),
            self.is_open(),
            base.inv(),
        ensures
            r matches Ok(v) && opt_value_view(v) == column_lookup(
                self.effective_view(base.store_view())[column.id_spec()],
                key@,
            ),
    {
        self.get(base, key, column)
    }

    /// The byte length of the value the view sees for `key`.
    pub fn size_of_value(&self, base: &MemoryStore, key: &Vec<u8>, column: Column) -> (r:
        crate::errors::DatabaseResult<Option<usize>>)
        requires
            self.inv(),
            self.is_open(),
            base.inv(),
        ensures
            r matches Ok(s) && match s {
                Some(n) => column_lookup(
                    self.effective_view(base.store_view())[column.id_spec()],
                    key@,
                ) matches Some(v) && n == v.len(),
                None => column_lookup(
                    self.effective_view(base.store_view())[column.id_spec()],
                    key@,
                ) is None,
            },
    {
        match self.get(base, key, column) {
            Ok(Some(v)) => Ok(Some(v.len())),
            Ok(None) => Ok(None),
            Err(e) => {
                proof {
                    assert(false);
                }
                Err(e)
            }
        }
    }

    /// Copy the value the view sees for `key` into the caller's buffer,
    /// under the same buffer contract as the base store's read.
    #[verifier::loop_isolation(false)]
    pub fn read(
        &self,
        base: &MemoryStore,
        key: &Vec<u8>,
        column: Column,
        buf: &mut Vec<u8>,
    ) -> (r: crate::errors::DatabaseResult<Option<usize>>)
        requires
            self.inv(),
            self.is_open(),
            base.inv(),
        ensures
            match r {
                Ok(opt) => match opt {
                    Some(n) => {
                        &&& column_lookup(
                            self.effective_view(base.store_view())[column.id_spec()],
                            key@,
                        ) matches Some(v) && n == v.len() && v.len() <= old(buf)@.len()
                            && final(buf)@ == v + old(buf)@.skip(v.len() as int)
                    }
                    None => column_lookup(
                        self.effective_view(base.store_view())[column.id_spec()],
                        key@,
                    ) is None && final(buf)@ == old(buf)@,
                },
                Err(_) => {
                    &&& column_lookup(
                        self.effective_view(base.store_view())[column.id_spec()],
                        key@,
                    ) matches Some(v) && v.len() > old(buf)@.len()
                    &&& final(buf)@ == old(buf)@
                },
            },
    {
        let value = match self.get(base, key, column) {
            Ok(v) => v,
            Err(e) => {
                proof {
                    assert(false);
                }
                return Err(e);
            }
        };
        match value {
            None => Ok(None),
            Some(v) => {
                let n = v.len();
                if buf.len() < n {
                    return Err(crate::errors::DatabaseError::other(
                        "buffer too small for stored value",
                    ));
                }
                let mut i: usize = 0;
                while i < n
                    invariant
                        n == v@.len(),
                        n <= buf@.len(),
                        i <= n,
                        buf@.len() == old(buf)@.len(),
                        forall|j: int| 0 <= j < i ==> buf@[j] == v@[j],
                        forall|j: int| i <= j < buf@.len() ==> buf@[j] == old(buf)@[j],
                    decreases n - i,
                {
                    buf[i] = v[i];
                    i = i + 1;
                }
                proof {
                    assert(buf@ =~= v@ + old(buf)@.skip(n as int));
                }
                Ok(Some(n))
            }
        }
    }

    /// Apply every pending write to the base store as one batch and close
    /// the view for good. A reader of the base store sees either none or
    /// all of the view's writes, never a partial subset.
    #[verifier::loop_isolation(false)]
    pub fn commit(&mut self, base: &mut MemoryStore) -> (r: TransactionResult<()>)
        requires
            old(self).inv(),
            old(self).is_open(),
            old(base).inv(),
        ensures
            final(base).inv(),
            final(base).store_view() == apply_ops(
                old(base).store_view(),
                old(self).pending(),
            ),
            final(self).state_spec() is Committed,
            r is Ok,
    {
        let ghost ls = old(self).layers_view();
        let mut batch: Vec<WriteOperation> = Vec::new();
        proof {
            assert(batch@ + stack_ops(ls) =~= stack_ops(ls));
        }
        while self.layers.len() > 0
            invariant
                batch@ + stack_ops(self.layers_view()) == stack_ops(ls),
                self.state == old(self).state,
            decreases self.layers@.len(),
        {
            let ghost remaining = self.layers_view();
            let ghost batch_pre = batch@;
            let mut l = self.layers.remove(0);
            batch.append(&mut l);
            proof {
                assert(self.layers_view() =~= remaining.drop_first());
                lemma_stack_ops_head(remaining);
                assert(batch@ == batch_pre + remaining[0]);
                assert((batch_pre + remaining[0]) + stack_ops(remaining.drop_first())
                    =~= batch_pre + (remaining[0] + stack_ops(remaining.drop_first())));
            }
        }
        proof {
            assert(self.layers_view() =~= Seq::<Seq<WriteOperation>>::empty());
            assert(batch@ + Seq::<WriteOperation>::empty() =~= batch@);
            assert(batch@ == stack_ops(ls));
        }
        let _ = base.batch_write(&batch);
        self.state = ViewState::Committed;
        Ok(())
    }

    /// Discard every pending write and close the view for good. The base
    /// store never sees any of them.
    pub fn abort(&mut self)
        requires
            old(self).inv(),
            old(self).is_open(),
        ensures
            final(self).state_spec() is Aborted,
    {
        self.layers = Vec::new();
        self.state = ViewState::Aborted;
    }
}

/// Running a staged unit of speculative work to its end against a base
/// store: on success the view's pending writes apply as one batch; on
/// failure they are discarded with no observable effect and the failure is
/// surfaced, distinguishable from a backend fault.
pub trait Transaction {
    /// The store model the transaction applies to.
    spec fn tx_model(&self) -> Seq<Map<Seq<u8>, Seq<u8>>>;

    /// The store's well-formedness.
    spec fn tx_wf(&self) -> bool;

    /// Conclude the unit of work `outcome` describes: commit `view` when
    /// it succeeded, abort when it failed; the outcome itself passes
    /// through.
    fn transaction<R>(&mut self, view: MemoryTransactionView, outcome: TransactionResult<R>)
        -> (r: TransactionResult<R>)
        requires
            old(self).tx_wf(),
            view.inv(),
            view.is_open(),
        ensures
            final(self).tx_wf(),
            outcome is Ok ==> final(self).tx_model() == apply_ops(
                old(self).tx_model(),
                view.pending(),
            ),
            outcome is Err ==> final(self).tx_model() == old(self).tx_model(),
            r == outcome,
    ;
}

impl Transaction for MemoryStore {
    open spec fn tx_model(&self) -> Seq<Map<Seq<u8>, Seq<u8>>> {
        self.store_view()
    }

    open spec fn tx_wf(&self) -> bool {
        self.inv()
    }

    fn transaction<R>(&mut self, view: MemoryTransactionView, outcome: TransactionResult<R>)
        -> (r: TransactionResult<R>) {
        let mut v = view;
        match outcome {
            Ok(value) => {
                let _ = v.commit(self);
                Ok(value)
            }
            Err(e) => {
                v.abort();
                Err(e)
            }
        }
    }
}

/// A backend fit to host transactional views: the storage interface plus
/// batch application plus transactional conclusion.
pub trait TransactableStorage: crate::kv::BatchOperations + Transaction {

}

impl TransactableStorage for MemoryStore {

}

} // verus!
