//! The lease ledger as mathematics, and what holds of it whatever the
//! requests: a slot is never out to two holders, requests are served while
//! slots are in, and a slot handed back is there for the next request.

use vstd::prelude::*;
use vstd::set_lib::{lemma_int_range, lemma_len_subset, set_int_range};
use crate::config::PoolConfigView;
use crate::errors::AcquireError;

verus! {

/// What a request for a lease is told, with the lease by its slot number.
pub enum Decision {
    /// The slot with this number is now the requester's alone.
    Granted(int),
    /// Every slot is out; the requester may wait this many milliseconds more.
    Pending(nat),
    /// The request has failed.
    Failed(AcquireError),
}

/// The ledger as mathematics: a capacity, a wait allowance, and the set of
/// slot numbers that are out on lease.
pub struct PoolModel {
    pub capacity: nat,
    pub wait_allowance_ms: nat,
    pub leased: Set<int>,
}

impl PoolModel {
    /// A positive capacity, and only slots below it are ever out.
    pub open spec fn wf(self) -> bool {
        &&& self.capacity > 0
        &&& self.leased.subset_of(set_int_range(0, self.capacity as int))
    }

    /// The ledger of a pool that was just built: nothing is out.
    pub open spec fn idle(config: PoolConfigView) -> PoolModel {
        PoolModel {
            capacity: config.capacity,
            wait_allowance_ms: config.wait_allowance_ms,
            leased: Set::empty(),
        }
    }

    /// How many slots are out.
    pub open spec fn in_use(self) -> nat {
        self.leased.len()
    }

    /// How many slots are in.
    pub open spec fn available(self) -> nat {
        (self.capacity - self.leased.len()) as nat
    }

    /// Slot `slot` exists and is in.
    pub open spec fn is_free(self, slot: int) -> bool {
        0 <= slot < self.capacity && !self.leased.contains(slot)
    }

    /// Some slot is in.
    pub open spec fn has_free(self) -> bool {
        exists|slot: int| self.is_free(slot)
    }

    /// Slot `slot` is in and every slot below it is out.
    pub open spec fn is_first_free(self, slot: int) -> bool {
        self.is_free(slot) && forall|lower: int| 0 <= lower < slot ==> !self.is_free(lower)
    }

    /// The lowest slot that is in, where there is one.
    pub open spec fn first_free(self) -> int {
        choose|slot: int| self.is_first_free(slot)
    }

    /// The ledger with `slot` marked out.
    pub open spec fn lease(self, slot: int) -> PoolModel {
        PoolModel { leased: self.leased.insert(slot), ..self }
    }

    /// The ledger with `slot` marked in. A slot that was not out changes
    /// nothing.
    pub open spec fn release(self, slot: int) -> PoolModel {
        PoolModel { leased: self.leased.remove(slot), ..self }
    }

    /// What a request that has waited `waited_ms` so far is told, and the
    /// ledger after it: the lowest free slot if any slot is free, however long
    /// the request has waited; else the rest of the allowance to wait; else,
    /// with the allowance used up, `PoolExhaustedError`.
    pub open spec fn poll(self, waited_ms: nat) -> (PoolModel, Decision) {
        if self.has_free() {
            (self.lease(self.first_free()), Decision::Granted(self.first_free()))
        } else if waited_ms < self.wait_allowance_ms {
            (self, Decision::Pending((self.wait_allowance_ms - waited_ms) as nat))
        } else {
            (self, Decision::Failed(AcquireError::PoolExhaustedError))
        }
    }
}

/// The lowest free slot is the only slot that is free with none free below.
pub proof fn lemma_first_free_unique(pool: PoolModel, slot: int)
    requires
        pool.is_first_free(slot),
    ensures
        pool.has_free(),
        pool.first_free() == slot,
{
    let chosen = pool.first_free();
    assert(pool.is_first_free(chosen));
    if chosen < slot {
        assert(!pool.is_free(chosen));
    } else if slot < chosen {
        assert(!pool.is_free(slot));
    }
}

/// Where some slot is free, a lowest free slot exists.
pub proof fn lemma_first_free_exists(pool: PoolModel)
    requires
        pool.has_free(),
    ensures
        pool.is_first_free(pool.first_free()),
{
    let some = choose|slot: int| pool.is_free(slot);
    lemma_least_free_below(pool, some);
}

proof fn lemma_least_free_below(pool: PoolModel, bound: int)
    requires
        pool.is_free(bound),
    ensures
        exists|slot: int| pool.is_first_free(slot),
    decreases bound,
{
    if exists|lower: int| 0 <= lower < bound && pool.is_free(lower) {
        let lower = choose|lower: int| 0 <= lower < bound && pool.is_free(lower);
        lemma_least_free_below(pool, lower);
    } else {
        assert(pool.is_first_free(bound));
    }
}

impl PoolModel {
    /// What a batch of requests is told when each is answered in turn and no
    /// lease is handed back meanwhile; `waited_ms[i]` is how long request `i`
    /// has waited.
    pub open spec fn poll_each(self, waited_ms: Seq<nat>) -> (PoolModel, Seq<Decision>)
        decreases waited_ms.len(),
    {
        if waited_ms.len() == 0 {
            (self, Seq::empty())
        } else {
            let (before, told) = self.poll_each(waited_ms.drop_last());
            let (after, last) = before.poll(waited_ms.last());
            (after, told.push(last))
        }
    }

    /// What a request is told while every slot is out.
    pub open spec fn turned_away(self, waited_ms: nat) -> Decision {
        if waited_ms < self.wait_allowance_ms {
            Decision::Pending((self.wait_allowance_ms - waited_ms) as nat)
        } else {
            Decision::Failed(AcquireError::PoolExhaustedError)
        }
    }
}

/// A slot is free exactly while fewer slots are out than the pool holds.
pub proof fn lemma_free_while_below_capacity(pool: PoolModel)
    requires
        pool.wf(),
    ensures
        pool.leased.finite(),
        pool.in_use() <= pool.capacity,
        pool.in_use() + pool.available() == pool.capacity,
        pool.has_free() <==> pool.in_use() < pool.capacity,
{
    let all = set_int_range(0, pool.capacity as int);
    lemma_int_range(0, pool.capacity as int);
    lemma_len_subset(pool.leased, all);
    if pool.has_free() {
        let slot = choose|slot: int| pool.is_free(slot);
        assert(pool.leased.subset_of(all.remove(slot)));
        lemma_len_subset(pool.leased, all.remove(slot));
    } else {
        assert(all.subset_of(pool.leased)) by {
            assert forall|slot: int| all.contains(slot) implies pool.leased.contains(slot) by {
                assert(!pool.is_free(slot));
            }
        }
        assert(pool.leased =~= all);
    }
}

/// Mutual exclusion: a lease is granted only on a slot of the pool that
/// nobody holds, and from then on that slot, and no other, is marked out in
/// addition.
pub proof fn lemma_grant_is_exclusive(pool: PoolModel, waited_ms: nat)
    requires
        pool.wf(),
    ensures
        pool.poll(waited_ms).0.wf(),
        pool.poll(waited_ms).1 is Granted <==> pool.has_free(),
        pool.poll(waited_ms).1 matches Decision::Granted(slot) ==> {
            &&& pool.is_first_free(slot)
            &&& !pool.leased.contains(slot)
            &&& pool.poll(waited_ms).0 == pool.lease(slot)
            &&& pool.poll(waited_ms).0.in_use() == pool.in_use() + 1
        },
        !pool.has_free() ==> {
            &&& pool.poll(waited_ms).0 == pool
            &&& pool.poll(waited_ms).1 == pool.turned_away(waited_ms)
        },
{
    lemma_free_while_below_capacity(pool);
    if pool.has_free() {
        lemma_first_free_exists(pool);
    }
}

/// A request is never told that the pool is unavailable by the ledger, and
/// is told that the pool is exhausted only when every slot is out and the
/// request has used up its wait allowance.
pub proof fn lemma_exhausted_only_after_allowance(pool: PoolModel, waited_ms: nat)
    ensures
        pool.poll(waited_ms).1 != Decision::Failed(AcquireError::PoolUnavailableError),
        pool.poll(waited_ms).1 == Decision::Failed(AcquireError::PoolExhaustedError) <==> (
        !pool.has_free() && waited_ms >= pool.wait_allowance_ms),
        pool.poll(waited_ms).1 is Pending <==> (!pool.has_free() && waited_ms
            < pool.wait_allowance_ms),
{
}

/// Handing a lease back keeps the ledger well formed and frees its slot.
pub proof fn lemma_release_frees(pool: PoolModel, slot: int)
    requires
        pool.wf(),
    ensures
        pool.release(slot).wf(),
        0 <= slot < pool.capacity ==> pool.release(slot).is_free(slot),
        pool.leased.contains(slot) ==> pool.release(slot).in_use() + 1 == pool.in_use(),
        !pool.leased.contains(slot) ==> pool.release(slot) == pool,
{
    lemma_free_while_below_capacity(pool);
    if !pool.leased.contains(slot) {
        assert(pool.leased.remove(slot) =~= pool.leased);
    }
}

/// No lease is lost: once a granted lease is handed back, whatever was done
/// under it, the ledger is as it was before the grant, and the next request
/// is granted a lease at once, however long it has waited.
pub proof fn lemma_lease_returns(pool: PoolModel, waited_ms: nat, next_waited_ms: nat)
    requires
        pool.wf(),
        pool.poll(waited_ms).1 is Granted,
    ensures
        pool.poll(waited_ms).0.release(pool.poll(waited_ms).1->Granted_0) == pool,
        pool.poll(waited_ms).0.release(pool.poll(waited_ms).1->Granted_0).poll(
            next_waited_ms,
        ).1 is Granted,
{
    lemma_grant_is_exclusive(pool, waited_ms);
    let slot = pool.poll(waited_ms).1->Granted_0;
    assert(pool.leased.insert(slot).remove(slot) =~= pool.leased);
}

/// A slot that is handed back while every slot is out serves the next
/// request: that request is granted exactly the slot that came back.
pub proof fn lemma_release_serves_next(pool: PoolModel, slot: int, waited_ms: nat)
    requires
        pool.wf(),
        !pool.has_free(),
        0 <= slot < pool.capacity,
    ensures
        pool.release(slot).poll(waited_ms).1 == Decision::Granted(slot),
{
    let after = pool.release(slot);
    assert(after.is_first_free(slot)) by {
        assert forall|lower: int| 0 <= lower < slot implies !after.is_free(lower) by {
            assert(!pool.is_free(lower));
        }
    }
    lemma_first_free_unique(after, slot);
}

/// What a batch of simultaneous requests is told. With `available` slots in
/// at the start, exactly the first `available` requests are granted leases,
/// on slots that nobody held and no two on the same slot; every later
/// request is turned away, to wait or, with its allowance used up, with
/// `PoolExhaustedError`. In particular a batch no larger than the number of
/// free slots is granted in full.
pub proof fn lemma_batch(pool: PoolModel, waited_ms: Seq<nat>)
    requires
        pool.wf(),
    ensures
        ({
            let (after, told) = pool.poll_each(waited_ms);
            &&& after.wf()
            &&& after.capacity == pool.capacity
            &&& after.wait_allowance_ms == pool.wait_allowance_ms
            &&& told.len() == waited_ms.len()
            &&& pool.leased.subset_of(after.leased)
            &&& after.in_use() == pool.in_use() + vstd::math::min(
                pool.available() as int,
                waited_ms.len() as int,
            )
            &&& forall|i: int|
                0 <= i < told.len() ==> (#[trigger] told[i] is Granted <==> i < pool.available())
            &&& forall|i: int|
                0 <= i < told.len() && i >= pool.available() ==> #[trigger] told[i]
                    == pool.turned_away(waited_ms[i])
            &&& forall|i: int|
                0 <= i < told.len() && #[trigger] told[i] is Granted ==> {
                    &&& 0 <= told[i]->Granted_0 < pool.capacity
                    &&& !pool.leased.contains(told[i]->Granted_0)
                    &&& after.leased.contains(told[i]->Granted_0)
                }
            &&& forall|i: int, j: int|
                0 <= i < j < told.len() && #[trigger] told[i] is Granted
                    && #[trigger] told[j] is Granted ==> told[i]->Granted_0
                    != told[j]->Granted_0
        }),
    decreases waited_ms.len(),
{
    lemma_free_while_below_capacity(pool);
    if waited_ms.len() == 0 {
    } else {
        let earlier = waited_ms.drop_last();
        lemma_batch(pool, earlier);
        let (before, told_before) = pool.poll_each(earlier);
        let (after, last) = before.poll(waited_ms.last());
        let told = told_before.push(last);
        lemma_grant_is_exclusive(before, waited_ms.last());
        lemma_free_while_below_capacity(before);
        lemma_free_while_below_capacity(after);
        assert forall|i: int| 0 <= i < told.len() implies (#[trigger] told[i] is Granted <==> i
            < pool.available()) by {
            if i < told_before.len() {
                assert(told[i] == told_before[i]);
            }
        }
        assert forall|i: int|
            0 <= i < told.len() && i >= pool.available() implies #[trigger] told[i]
            == pool.turned_away(waited_ms[i]) by {
            if i < told_before.len() {
                assert(told[i] == told_before[i]);
                assert(earlier[i] == waited_ms[i]);
            }
        }
        assert forall|i: int| 0 <= i < told.len() && #[trigger] told[i] is Granted implies {
            &&& 0 <= told[i]->Granted_0 < pool.capacity
            &&& !pool.leased.contains(told[i]->Granted_0)
            &&& after.leased.contains(told[i]->Granted_0)
        } by {
            if i < told_before.len() {
                assert(told[i] == told_before[i]);
            }
        }
        assert forall|i: int, j: int|
            0 <= i < j < told.len() && #[trigger] told[i] is Granted
                && #[trigger] told[j] is Granted implies told[i]->Granted_0
            != told[j]->Granted_0 by {
            assert(told[i] == told_before[i]);
            if j < told_before.len() {
                assert(told[j] == told_before[j]);
            } else {
                assert(before.leased.contains(told_before[i]->Granted_0));
            }
        }
    }
}

/// One thing that happens to a ledger.
pub enum LedgerEvent {
    /// A request for a lease that has waited this long is answered.
    Request(nat),
    /// The lease on this slot is handed back.
    Return(int),
}

impl PoolModel {
    /// The ledger after one event.
    pub open spec fn step(self, event: LedgerEvent) -> PoolModel {
        match event {
            LedgerEvent::Request(waited_ms) => self.poll(waited_ms).0,
            LedgerEvent::Return(slot) => self.release(slot),
        }
    }

    /// The ledger after a run of events, in their order.
    pub open spec fn after(self, events: Seq<LedgerEvent>) -> PoolModel
        decreases events.len(),
    {
        if events.len() == 0 {
            self
        } else {
            self.after(events.drop_last()).step(events.last())
        }
    }
}

/// Whatever is asked of a ledger, in whatever order, it stays in good order:
/// its capacity and its wait allowance never change, only slots of the pool
/// are ever out, and never more of them than the pool holds.
pub proof fn lemma_always_within_capacity(pool: PoolModel, events: Seq<LedgerEvent>)
    requires
        pool.wf(),
    ensures
        pool.after(events).wf(),
        pool.after(events).capacity == pool.capacity,
        pool.after(events).wait_allowance_ms == pool.wait_allowance_ms,
        pool.after(events).in_use() <= pool.capacity,
        pool.after(events).in_use() + pool.after(events).available() == pool.capacity,
    decreases events.len(),
{
    if events.len() > 0 {
        lemma_always_within_capacity(pool, events.drop_last());
        let before = pool.after(events.drop_last());
        match events.last() {
            LedgerEvent::Request(waited_ms) => {
                lemma_grant_is_exclusive(before, waited_ms);
            },
            LedgerEvent::Return(slot) => {
                lemma_release_frees(before, slot);
            },
        }
    }
    lemma_free_while_below_capacity(pool.after(events));
}

/// A batch of simultaneous requests that is no larger than the number of
/// free slots is granted in full, each request at once and however long it
/// has waited: none is told to wait and none fails. On an idle pool that is
/// every batch up to the pool's capacity.
pub proof fn lemma_batch_within_capacity(pool: PoolModel, waited_ms: Seq<nat>)
    requires
        pool.wf(),
        waited_ms.len() <= pool.available(),
    ensures
        forall|i: int|
            0 <= i < waited_ms.len() ==> #[trigger] pool.poll_each(waited_ms).1[i] is Granted,
        pool.poll_each(waited_ms).1.len() == waited_ms.len(),
        pool.poll_each(waited_ms).0.in_use() == pool.in_use() + waited_ms.len(),
        pool.leased.len() == 0 ==> pool.available() == pool.capacity,
{
    lemma_batch(pool, waited_ms);
}

} // verus!
