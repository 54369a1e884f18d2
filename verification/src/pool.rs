//! The lease ledger of one pool: which connection slots are out on lease, and
//! what a request for a lease is told.
//!
//! The ledger decides; it does not wait. A request that cannot be served yet
//! is told how long it may still wait, and asks again with the time it has
//! waited so far.

use vstd::prelude::*;
use crate::config::PoolConfig;
use crate::errors::AcquireError;
use crate::pool_model::{lemma_first_free_unique, Decision, PoolModel};

verus! {

/// The exclusive, temporary right to use one connection slot. A lease is
/// made only by the ledger, cannot be copied, and ends when it is handed back.
#[derive(Debug, PartialEq, Eq)]
#[must_use]
pub struct Lease {
    slot: usize,
}

impl View for Lease {
    type V = int;

    closed spec fn view(&self) -> int {
        self.slot as int
    }
}

impl Lease {
    /// The number of the slot that this lease is on.
    pub fn slot(&self) -> (slot: usize)
        ensures
            slot == self@,
    {
        self.slot
    }
}

/// What a request for a lease is told.
#[derive(Debug, PartialEq, Eq)]
pub enum Acquire {
    /// The lease is the requester's.
    Granted(Lease),
    /// Every slot is out: wait, at most this long, and ask again.
    Pending { remaining_ms: u64 },
    /// The request has failed and is not retried.
    Failed(AcquireError),
}

impl View for Acquire {
    type V = Decision;

    open spec fn view(&self) -> Decision {
        match *self {
            Acquire::Granted(lease) => Decision::Granted(lease@),
            Acquire::Pending { remaining_ms } => Decision::Pending(remaining_ms as nat),
            Acquire::Failed(e) => Decision::Failed(e),
        }
    }
}

/// The slot numbers that a row of flags marks as out.
spec fn occupied(slots: Seq<bool>) -> Set<int> {
    Set::new(|i: int| 0 <= i < slots.len() && slots[i])
}

/// The slots marked as out among the first `n`.
spec fn occupied_below(slots: Seq<bool>, n: int) -> Set<int> {
    Set::new(|i: int| 0 <= i < n && i < slots.len() && slots[i])
}

/// The lease ledger of one pool: one flag per connection slot, set while
/// the slot is out on lease.
#[derive(Debug)]
pub struct Pool {
    slots: Vec<bool>,
    wait_allowance_ms: u64,
}

impl View for Pool {
    type V = PoolModel;

    closed spec fn view(&self) -> PoolModel {
        PoolModel {
            capacity: self.slots@.len(),
            wait_allowance_ms: self.wait_allowance_ms as nat,
            leased: occupied(self.slots@),
        }
    }
}

impl Pool {
    /// The ledger of a pool built from `config`, with every slot in.
    pub fn new(config: &PoolConfig) -> (pool: Pool)
        ensures
            pool@ == PoolModel::idle(config@),
            pool@.wf(),
    {
        let capacity: usize = config.capacity() as usize;
        let mut slots: Vec<bool> = Vec::new();
        while slots.len() < capacity
            invariant
                slots@.len() <= capacity,
                forall|i: int| 0 <= i < slots@.len() ==> !slots@[i],
            decreases capacity - slots@.len(),
        {
            slots.push(false);
        }
        assert(occupied(slots@) =~= Set::<int>::empty());
        Pool { slots, wait_allowance_ms: config.wait_allowance_ms() }
    }

    /// How many connections the pool may hold at once.
    pub fn capacity(&self) -> (capacity: usize)
        ensures
            capacity == self@.capacity,
    {
        self.slots.len()
    }

    /// How long a request may wait for a lease, in milliseconds.
    pub fn wait_allowance_ms(&self) -> (allowance: u64)
        ensures
            allowance == self@.wait_allowance_ms,
    {
        self.wait_allowance_ms
    }

    /// How many slots are out on lease.
    pub fn in_use(&self) -> (count: usize)
        ensures
            count == self@.in_use(),
            count <= self@.capacity <= usize::MAX,
    {
        let mut count: usize = 0;
        let mut i: usize = 0;
        assert(occupied_below(self.slots@, 0) =~= Set::<int>::empty());
        while i < self.slots.len()
            invariant
                i <= self.slots@.len(),
                count <= i,
                occupied_below(self.slots@, i as int).finite(),
                count == occupied_below(self.slots@, i as int).len(),
            decreases self.slots@.len() - i,
        {
            if self.slots[i] {
                assert(occupied_below(self.slots@, i + 1) =~= occupied_below(
                    self.slots@,
                    i as int,
                ).insert(i as int));
                count = count + 1;
            } else {
                assert(occupied_below(self.slots@, i + 1) =~= occupied_below(
                    self.slots@,
                    i as int,
                ));
            }
            i = i + 1;
        }
        assert(occupied_below(self.slots@, i as int) =~= occupied(self.slots@));
        count
    }

    /// How many slots are in.
    pub fn available(&self) -> (count: usize)
        ensures
            count == self@.available(),
            count + self@.in_use() == self@.capacity,
    {
        let used: usize = self.in_use();
        self.slots.len() - used
    }

    /// Answers one request for a lease that has waited `waited_ms` so far.
    pub fn poll(&mut self, waited_ms: u64) -> (got: Acquire)
        ensures
            (final(self)@, got@) == old(self)@.poll(waited_ms as nat),
    {
        let mut i: usize = 0;
        while i < self.slots.len()
            invariant
                i <= self.slots@.len(),
                *self == *old(self),
                forall|lower: int| 0 <= lower < i ==> self.slots@[lower],
            decreases self.slots@.len() - i,
        {
            if !self.slots[i] {
                proof {
                    assert(old(self)@.is_first_free(i as int));
                    lemma_first_free_unique(old(self)@, i as int);
                }
                self.slots.set(i, true);
                assert(occupied(self.slots@) =~= occupied(old(self).slots@).insert(i as int));
                return Acquire::Granted(Lease { slot: i });
            }
            i = i + 1;
        }
        assert(!old(self)@.has_free()) by {
            assert forall|slot: int| !old(self)@.is_free(slot) by {
                if 0 <= slot < self.slots@.len() {
                    assert(self.slots@[slot]);
                }
            }
        }
        if waited_ms < self.wait_allowance_ms {
            Acquire::Pending { remaining_ms: self.wait_allowance_ms - waited_ms }
        } else {
            Acquire::Failed(AcquireError::PoolExhaustedError)
        }
    }

    /// Takes a lease back: its slot is in again. A lease on a slot that is
    /// not out changes nothing.
    pub fn release(&mut self, lease: Lease)
        ensures
            final(self)@ == old(self)@.release(lease@),
    {
        if lease.slot < self.slots.len() {
            self.slots.set(lease.slot, false);
        }
        assert(occupied(self.slots@) =~= occupied(old(self).slots@).remove(lease@));
    }
}

} // verus!
