//! A registry together with the allocator of its handles.
use crate::handle::HandleAllocator;
use crate::registry::{Registry, RegistryError};
use vstd::prelude::*;

verus! {

/// What a table is to its callers: the last handle issued and the handles
/// that are live.
pub struct TableState {
    pub issued: nat,
    pub live: Set<usize>,
}

/// An operation on a table, as far as handles are concerned.
pub enum TableOp {
    /// Store a new entry under a fresh handle.
    Create,
    /// Borrow the entry under a handle.
    Lookup(usize),
    /// Take the entry under a handle out of the table.
    Remove(usize),
}

/// Every live handle has been issued, and none is zero.
pub open spec fn table_inv(s: TableState) -> bool {
    forall|h: usize| #[trigger] s.live.contains(h) ==> 1 <= h <= s.issued
}

/// The table after `op`.
pub open spec fn table_step(s: TableState, op: TableOp) -> TableState {
    match op {
        TableOp::Create => TableState {
            issued: s.issued + 1,
            live: s.live.insert((s.issued + 1) as usize),
        },
        TableOp::Lookup(_) => s,
        TableOp::Remove(h) => TableState { issued: s.issued, live: s.live.remove(h) },
    }
}

/// The handle that `op` answers with: the fresh one for a creation, the given
/// one where it is live, none where it is unknown.
pub open spec fn table_answer(s: TableState, op: TableOp) -> Option<usize> {
    match op {
        TableOp::Create => Some((s.issued + 1) as usize),
        TableOp::Lookup(h) => if s.live.contains(h) {
            Some(h)
        } else {
            None
        },
        TableOp::Remove(h) => if s.live.contains(h) {
            Some(h)
        } else {
            None
        },
    }
}

/// The table after `ops`, one after the other.
pub open spec fn table_run(s: TableState, ops: Seq<TableOp>) -> TableState
    decreases ops.len(),
{
    if ops.len() == 0 {
        s
    } else {
        table_step(table_run(s, ops.drop_last()), ops.last())
    }
}

proof fn lemma_run_unfold(s: TableState, ops: Seq<TableOp>, i: int)
    requires
        0 <= i < ops.len(),
    ensures
        table_run(s, ops.take(i + 1)) == table_step(table_run(s, ops.take(i)), ops[i]),
{
    assert(ops.take(i + 1).drop_last() =~= ops.take(i));
}

proof fn lemma_run_issued(s: TableState, ops: Seq<TableOp>, i: int, j: int)
    requires
        0 <= i <= j <= ops.len(),
    ensures
        table_run(s, ops.take(i)).issued <= table_run(s, ops.take(j)).issued,
        table_run(s, ops.take(j)).issued <= table_run(s, ops.take(i)).issued + (j - i),
    decreases j - i,
{
    if i < j {
        lemma_run_issued(s, ops, i, j - 1);
        lemma_run_unfold(s, ops, j - 1);
    }
}

/// The invariant holds after every operation of every sequence, as long as
/// the machine's integers last.
pub proof fn lemma_run_keeps_inv(s: TableState, ops: Seq<TableOp>, i: int)
    requires
        table_inv(s),
        s.issued + ops.len() <= usize::MAX,
        0 <= i <= ops.len(),
    ensures
        table_inv(table_run(s, ops.take(i))),
    decreases i,
{
    if i > 0 {
        lemma_run_keeps_inv(s, ops, i - 1);
        lemma_run_unfold(s, ops, i - 1);
        lemma_run_issued(s, ops, 0, i - 1);
        assert(ops.take(0) =~= Seq::<TableOp>::empty());
    } else {
        assert(ops.take(0) =~= Seq::<TableOp>::empty());
    }
}

/// In every sequence of creations, lookups and removals, a creation answers
/// with a handle that is not zero, that is not live at that moment, and that
/// is larger than every handle issued up to then: it was never issued to
/// another entry. In particular two creations never answer alike.
pub proof fn lemma_created_handle_is_fresh(s: TableState, ops: Seq<TableOp>, i: int, j: int)
    requires
        table_inv(s),
        s.issued + ops.len() <= usize::MAX,
        0 <= i <= j < ops.len(),
        ops[j] is Create,
    ensures
        ({
            let earlier = table_run(s, ops.take(i));
            let before = table_run(s, ops.take(j));
            let handle = table_answer(before, ops[j])->0;
            &&& handle != 0
            &&& handle > earlier.issued
            &&& !before.live.contains(handle)
            &&& forall|h: usize| earlier.live.contains(h) ==> h < handle
            &&& i < j && ops[i] is Create ==> table_answer(earlier, ops[i])->0 < handle
        }),
{
    lemma_run_issued(s, ops, 0, i);
    lemma_run_issued(s, ops, i, j);
    lemma_run_issued(s, ops, 0, j);
    assert(ops.take(0) =~= Seq::<TableOp>::empty());
    lemma_run_keeps_inv(s, ops, i);
    lemma_run_keeps_inv(s, ops, j);
    if i < j {
        lemma_run_unfold(s, ops, i);
        lemma_run_issued(s, ops, i + 1, j);
    }
}

/// In every sequence of creations, lookups and removals, a handle whose entry
/// was removed is dead from then on: no later operation finds an entry under
/// it, so a second removal fails.
pub proof fn lemma_removed_handle_stays_dead(
    s: TableState,
    ops: Seq<TableOp>,
    i: int,
    j: int,
    handle: usize,
)
    requires
        table_inv(s),
        s.issued + ops.len() <= usize::MAX,
        0 <= i < j <= ops.len(),
        ops[i] == TableOp::Remove(handle),
        table_run(s, ops.take(i)).live.contains(handle),
    ensures
        !table_run(s, ops.take(j)).live.contains(handle),
        j < ops.len() && (ops[j] == TableOp::Remove(handle) || ops[j] == TableOp::Lookup(handle))
            ==> table_answer(table_run(s, ops.take(j)), ops[j]) is None,
    decreases j - i,
{
    lemma_run_keeps_inv(s, ops, i);
    lemma_run_unfold(s, ops, j - 1);
    lemma_run_issued(s, ops, i, j - 1);
    lemma_run_issued(s, ops, 0, j - 1);
    assert(ops.take(0) =~= Seq::<TableOp>::empty());
    if j - 1 > i {
        lemma_removed_handle_stays_dead(s, ops, i, j - 1, handle);
    }
}

/// A table whose handles come from its own allocator, so that a handle, once
/// issued, never names another entry.
pub struct HandleTable<T> {
    counter: HandleAllocator,
    entries: Registry<T>,
}

impl<T> HandleTable<T> {
    #[verifier::type_invariant]
    spec fn inv(self) -> bool {
        forall|h: usize| #[trigger]
            self.entries@.contains_key(h) ==> 1 <= h <= self.counter.issued()
    }

    /// The last handle that was issued; zero before the first.
    pub closed spec fn issued(&self) -> nat {
        self.counter.issued()
    }

    /// The live entries.
    pub closed spec fn live(&self) -> Map<usize, T> {
        self.entries@
    }

    /// The table as the laws of this module see it.
    pub open spec fn state(&self) -> TableState {
        TableState { issued: self.issued(), live: self.live().dom() }
    }

    /// The empty table; no handle has been issued.
    pub fn new() -> (table: HandleTable<T>)
        ensures
            table.issued() == 0,
            table.live() == Map::<usize, T>::empty(),
            table_inv(table.state()),
    {
        HandleTable { counter: HandleAllocator::new(), entries: Registry::new() }
    }

    /// Whether another entry can be created.
    pub fn has_room(&self) -> (b: bool)
        ensures
            b == (self.issued() < usize::MAX),
    {
        self.counter.has_next()
    }

    /// Stores `value` under a fresh handle and returns the handle.
    pub fn create(&mut self, value: T) -> (handle: usize)
        requires
            old(self).issued() < usize::MAX,
        ensures
            handle == old(self).issued() + 1,
            !old(self).live().contains_key(handle),
            final(self).issued() == handle,
            final(self).live() == old(self).live().insert(handle, value),
            table_inv(old(self).state()),
            table_inv(final(self).state()),
            final(self).state() == table_step(old(self).state(), TableOp::Create),
            Some(handle) == table_answer(old(self).state(), TableOp::Create),
    {
        proof {
            use_type_invariant(&*self);
        }
        let mut held = Registry::new();
        std::mem::swap(&mut held, &mut self.entries);
        let handle = self.counter.next();
        let _ = held.insert(handle, value);
        self.entries = held;
        assert(self.live().dom() =~= old(self).live().dom().insert(handle));
        handle
    }

    /// Borrows the entry under `handle`.
    pub fn lookup(&self, handle: usize) -> (res: Result<&T, RegistryError>)
        ensures
            match res {
                Ok(value) => self.live().contains_key(handle) && *value == self.live()[handle],
                Err(e) => !self.live().contains_key(handle) && e == RegistryError::UnknownHandle,
            },
            table_inv(self.state()),
            res is Ok <==> table_answer(self.state(), TableOp::Lookup(handle)) is Some,
    {
        proof {
            use_type_invariant(self);
        }
        self.entries.lookup(handle)
    }

    /// Takes the entry under `handle` out of the table. The handle is dead
    /// from then on.
    pub fn remove(&mut self, handle: usize) -> (res: Result<T, RegistryError>)
        ensures
            final(self).issued() == old(self).issued(),
            match res {
                Ok(value) => old(self).live().contains_key(handle) && value == old(self).live()[handle]
                    && final(self).live() == old(self).live().remove(handle),
                Err(e) => !old(self).live().contains_key(handle) && e
                    == RegistryError::UnknownHandle && final(self).live() == old(self).live(),
            },
            table_inv(old(self).state()),
            table_inv(final(self).state()),
            final(self).state() == table_step(old(self).state(), TableOp::Remove(handle)),
            res is Ok <==> table_answer(old(self).state(), TableOp::Remove(handle)) is Some,
    {
        proof {
            use_type_invariant(&*self);
        }
        let mut held = Registry::new();
        std::mem::swap(&mut held, &mut self.entries);
        let res = held.remove(handle);
        self.entries = held;
        assert(self.live().dom() =~= old(self).live().dom().remove(handle));
        res
    }
}

} // verus!
