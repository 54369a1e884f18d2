//! The pool manager: the one object through which a process brings its pool
//! up, once, and through which every lease is asked for and handed back.

use vstd::prelude::*;
use crate::config::{
    capacity_fits, detected_parallelism, outcome_view, planned, PoolConfig, PoolConfigView,
};
use crate::errors::{AcquireError, InitError};
use crate::pool::{Acquire, Lease, Pool};
use crate::pool_model::{
    lemma_grant_is_exclusive, lemma_lease_returns, lemma_release_frees, Decision, PoolModel,
};

verus! {

/// Where a manager stands, as mathematics.
pub enum ManagerModel {
    /// Nothing was attempted yet.
    Uninitialized,
    /// The pool is up, with this ledger.
    Ready(PoolModel),
    /// Bringing the pool up failed for good.
    Failed(InitError),
}

impl ManagerModel {
    /// A ledger, where there is one, is well formed.
    pub open spec fn wf(self) -> bool {
        self matches ManagerModel::Ready(pool) ==> pool.wf()
    }

    /// Bringing the pool up. Only a manager that has attempted nothing yet
    /// does anything: it fails where the plan holds no configuration, with
    /// the plan's failure, and otherwise stands or falls with `constructed`,
    /// whether the pool could be built from the planned configuration. A
    /// manager that is up stays as it is and reports success; one that has
    /// failed stays failed and reports the same failure.
    pub open spec fn init(self, plan: Result<PoolConfigView, InitError>, constructed: bool) -> (
        ManagerModel,
        Result<(), InitError>,
    ) {
        match self {
            ManagerModel::Ready(_) => (self, Ok(())),
            ManagerModel::Failed(e) => (self, Err(e)),
            ManagerModel::Uninitialized => match plan {
                Err(e) => (ManagerModel::Failed(e), Err(e)),
                Ok(config) => if constructed {
                    (ManagerModel::Ready(PoolModel::idle(config)), Ok(()))
                } else {
                    (
                        ManagerModel::Failed(InitError::PoolConstructionError),
                        Err(InitError::PoolConstructionError),
                    )
                },
            },
        }
    }

    /// The configuration that bringing the pool up would try to build from,
    /// where it gets that far.
    pub open spec fn would_construct(self, plan: Result<PoolConfigView, InitError>) -> Option<
        PoolConfigView,
    > {
        match (self, plan) {
            (ManagerModel::Uninitialized, Ok(config)) => Some(config),
            _ => None,
        }
    }

    /// One request for a lease: answered by the ledger where the pool is up,
    /// and with `PoolUnavailableError` where it is not.
    pub open spec fn connect(self, waited_ms: nat) -> (ManagerModel, Decision) {
        match self {
            ManagerModel::Ready(pool) => (
                ManagerModel::Ready(pool.poll(waited_ms).0),
                pool.poll(waited_ms).1,
            ),
            _ => (self, Decision::Failed(AcquireError::PoolUnavailableError)),
        }
    }

    /// A lease handed back.
    pub open spec fn release(self, slot: int) -> ManagerModel {
        match self {
            ManagerModel::Ready(pool) => ManagerModel::Ready(pool.release(slot)),
            _ => self,
        }
    }
}

/// The pool is built from the plan: a manager that attempts for the first
/// time with a store address, on a host whose parallelism gives a capacity,
/// and whose pool could be built, is up with an idle pool of exactly four
/// leases per execution unit.
pub proof fn lemma_init_sizes_pool(store_address: Seq<char>, parallelism: nat)
    requires
        capacity_fits(parallelism),
    ensures
        ({
            let plan = planned(Some(store_address), parallelism);
            let (after, done) = ManagerModel::Uninitialized.init(plan, true);
            &&& done is Ok
            &&& after matches ManagerModel::Ready(pool) && pool.capacity == parallelism * 4
                && pool.in_use() == 0 && pool.available() == parallelism * 4 && pool.wf()
        }),
{
}

/// The pool is brought up once: after any attempt, every further attempt,
/// with whatever arguments, leaves the manager exactly as it is and reports
/// what the first attempt reported. In particular a pool that is up is the
/// pool that every later caller sees.
pub proof fn lemma_init_once(
    before: ManagerModel,
    plan: Result<PoolConfigView, InitError>,
    constructed: bool,
    later_plan: Result<PoolConfigView, InitError>,
    later_constructed: bool,
)
    ensures
        ({
            let (after, done) = before.init(plan, constructed);
            let (later, done_again) = after.init(later_plan, later_constructed);
            &&& !(after is Uninitialized)
            &&& later == after
            &&& done_again == done
            &&& after.would_construct(later_plan).is_none()
        }),
{
}

/// What an attempt reports is where the manager stands afterwards: success
/// exactly where the pool is up, and a failure exactly where the manager has
/// failed with it.
pub proof fn lemma_init_reports_the_state(
    before: ManagerModel,
    plan: Result<PoolConfigView, InitError>,
    constructed: bool,
)
    ensures
        ({
            let (after, done) = before.init(plan, constructed);
            &&& done is Ok <==> after is Ready
            &&& forall|e: InitError|
                done == Err::<(), InitError>(e) <==> after == ManagerModel::Failed(e)
        }),
{
}

/// Without a store address nothing is served: the first attempt fails with
/// `ConfigError`, whatever the host and whether or not a pool could have been
/// built, and every request for a lease from then on is refused with
/// `PoolUnavailableError`.
pub proof fn lemma_missing_address_serves_nothing(
    parallelism: nat,
    constructed: bool,
    waited_ms: nat,
)
    ensures
        ({
            let plan = planned(None, parallelism);
            let (after, done) = ManagerModel::Uninitialized.init(plan, constructed);
            &&& done == Err::<(), InitError>(InitError::ConfigError)
            &&& after == ManagerModel::Failed(InitError::ConfigError)
            &&& after.connect(waited_ms) == (
                after,
                Decision::Failed(AcquireError::PoolUnavailableError),
            )
        }),
{
}

/// Every failure to bring the pool up is one of the two startup failures,
/// each with its own cause: `ConfigError` exactly where the store address is
/// missing, `PoolConstructionError` exactly where an address was there and
/// either no capacity could be planned or the pool could not be built.
pub proof fn lemma_init_failures(
    store_address: Option<Seq<char>>,
    parallelism: nat,
    constructed: bool,
)
    ensures
        ({
            let plan = planned(store_address, parallelism);
            let done = ManagerModel::Uninitialized.init(plan, constructed).1;
            &&& done == Err::<(), InitError>(InitError::ConfigError) <==> store_address.is_none()
            &&& done == Err::<(), InitError>(InitError::PoolConstructionError) <==> (
            store_address.is_some() && !(capacity_fits(parallelism) && constructed))
            &&& done is Ok <==> (store_address.is_some() && capacity_fits(parallelism)
                && constructed)
        }),
{
}

/// A manager in good order stays in good order, and a pool that is up keeps
/// its capacity and its wait allowance, whatever is asked of it.
pub proof fn lemma_manager_keeps_order(
    before: ManagerModel,
    plan: Result<PoolConfigView, InitError>,
    constructed: bool,
    waited_ms: nat,
    slot: int,
)
    requires
        before.wf(),
        plan matches Ok(config) ==> config.capacity > 0,
    ensures
        before.init(plan, constructed).0.wf(),
        before.connect(waited_ms).0.wf(),
        before.release(slot).wf(),
        before matches ManagerModel::Ready(pool) ==> {
            &&& before.connect(waited_ms).0 matches ManagerModel::Ready(after)
                && after.capacity == pool.capacity && after.wait_allowance_ms
                == pool.wait_allowance_ms
            &&& before.release(slot) matches ManagerModel::Ready(after) && after.capacity
                == pool.capacity && after.wait_allowance_ms == pool.wait_allowance_ms
        },
{
    if let ManagerModel::Ready(pool) = before {
        lemma_grant_is_exclusive(pool, waited_ms);
        lemma_release_frees(pool, slot);
    }
}

/// No lease is lost through the manager either: a granted lease that is
/// handed back, whatever the work under it came to, leaves the manager as it
/// was before the grant, and the next request is granted at once.
pub proof fn lemma_connect_then_release(before: ManagerModel, waited_ms: nat, next_waited_ms: nat)
    requires
        before.wf(),
        before.connect(waited_ms).1 is Granted,
    ensures
        before.connect(waited_ms).0.release(before.connect(waited_ms).1->Granted_0) == before,
        before.connect(waited_ms).0.release(before.connect(waited_ms).1->Granted_0).connect(
            next_waited_ms,
        ).1 is Granted,
{
    let pool = before->Ready_0;
    lemma_lease_returns(pool, waited_ms, next_waited_ms);
}

#[derive(Debug)]
enum Lifecycle {
    Uninitialized,
    Ready(Pool),
    Failed(InitError),
}

/// The pool manager. It is made once at startup and handed to whoever needs
/// the pool.
#[derive(Debug)]
pub struct PoolManager {
    state: Lifecycle,
}

impl View for PoolManager {
    type V = ManagerModel;

    closed spec fn view(&self) -> ManagerModel {
        match self.state {
            Lifecycle::Uninitialized => ManagerModel::Uninitialized,
            Lifecycle::Ready(pool) => ManagerModel::Ready(pool@),
            Lifecycle::Failed(e) => ManagerModel::Failed(e),
        }
    }
}

impl PoolManager {
    /// A manager that has attempted nothing yet.
    pub fn new() -> (manager: PoolManager)
        ensures
            manager@ == ManagerModel::Uninitialized,
    {
        PoolManager { state: Lifecycle::Uninitialized }
    }

    /// Whether the pool is up.
    pub fn is_ready(&self) -> (ready: bool)
        ensures
            ready == (self@ is Ready),
    {
        match &self.state {
            Lifecycle::Ready(_) => true,
            _ => false,
        }
    }

    /// The failure that bringing the pool up ended in, if it did.
    pub fn failure(&self) -> (failure: Option<InitError>)
        ensures
            failure == (match self@ {
                ManagerModel::Failed(e) => Some(e),
                _ => None,
            }),
    {
        match &self.state {
            Lifecycle::Failed(e) => Some(*e),
            _ => None,
        }
    }

    /// The pool's capacity, once it is up.
    pub fn capacity(&self) -> (capacity: Option<usize>)
        ensures
            capacity == (match self@ {
                ManagerModel::Ready(pool) => Some(pool.capacity as usize),
                _ => None,
            }),
            self@ matches ManagerModel::Ready(pool) ==> pool.capacity <= usize::MAX,
    {
        match &self.state {
            Lifecycle::Ready(pool) => Some(pool.capacity()),
            _ => None,
        }
    }

    /// How many leases are out, once the pool is up.
    pub fn in_use(&self) -> (count: Option<usize>)
        ensures
            count == (match self@ {
                ManagerModel::Ready(pool) => Some(pool.in_use() as usize),
                _ => None,
            }),
            self@ matches ManagerModel::Ready(pool) ==> pool.in_use() <= pool.capacity
                <= usize::MAX,
    {
        match &self.state {
            Lifecycle::Ready(pool) => Some(pool.in_use()),
            _ => None,
        }
    }
}

/// What bringing the pool up comes to, for a manager that stood at `before`:
/// where it gets as far as building the pool, `construct` was consulted on
/// the planned configuration and its answer decided; where it does not, the
/// outcome is the same whatever `construct` would have said.
pub open spec fn brought_up<F: FnOnce(&PoolConfig) -> bool>(
    before: ManagerModel,
    plan: Result<PoolConfigView, InitError>,
    construct: F,
    after: ManagerModel,
    done: Result<(), InitError>,
) -> bool {
    match before.would_construct(plan) {
        Some(planned_config) => exists|config: PoolConfig, constructed: bool|
            {
                &&& config@ == planned_config
                &&& #[trigger] construct.ensures((&config,), constructed)
                &&& (after, done) == before.init(plan, constructed)
            },
        None => {
            &&& (after, done) == before.init(plan, true)
            &&& (after, done) == before.init(plan, false)
        },
    }
}

/// Brings the pool up from a plan: a configuration, or the reason why there
/// is none.
///
/// `construct` builds the real pool from the configuration it is handed and
/// says whether that worked. It is consulted at most once, and only by a
/// manager that has attempted nothing yet and whose plan holds a
/// configuration.
pub fn init_planned<F>(
    manager: &mut PoolManager,
    plan: Result<PoolConfig, InitError>,
    construct: F,
) -> (done: Result<(), InitError>) where F: FnOnce(&PoolConfig) -> bool
    requires
        forall|config: &PoolConfig| construct.requires((config,)),
    ensures
        brought_up(old(manager)@, outcome_view(plan), construct, final(manager)@, done),
        old(manager)@.wf() ==> final(manager)@.wf(),
{
    match &manager.state {
        Lifecycle::Ready(_) => {
            return Ok(());
        },
        Lifecycle::Failed(e) => {
            return Err(*e);
        },
        Lifecycle::Uninitialized => {},
    }
    match plan {
        Err(e) => {
            manager.state = Lifecycle::Failed(e);
            Err(e)
        },
        Ok(config) => {
            let constructed: bool = construct(&config);
            if constructed {
                let pool = Pool::new(&config);
                manager.state = Lifecycle::Ready(pool);
                Ok(())
            } else {
                manager.state = Lifecycle::Failed(InitError::PoolConstructionError);
                Err(InitError::PoolConstructionError)
            }
        },
    }
}

/// Brings the pool up for a host with `parallelism` execution units.
///
/// `store_address` is the store address found in the environment, if one was
/// found. The plan is a `ConfigError` without an address, and else a pool of
/// four leases per execution unit; `construct` is as for `init_planned`.
pub fn init_with<F>(
    manager: &mut PoolManager,
    store_address: Option<String>,
    parallelism: usize,
    construct: F,
) -> (done: Result<(), InitError>) where F: FnOnce(&PoolConfig) -> bool
    requires
        forall|config: &PoolConfig| construct.requires((config,)),
    ensures
        brought_up(
            old(manager)@,
            planned(store_address.deep_view(), parallelism as nat),
            construct,
            final(manager)@,
            done,
        ),
        old(manager)@.wf() ==> final(manager)@.wf(),
{
    let plan = PoolConfig::for_host(store_address, parallelism);
    init_planned(manager, plan, construct)
}

/// Brings the pool up for this host: as `init_with`, with the parallelism
/// that the host reports, which is at least one.
pub fn init<F>(manager: &mut PoolManager, store_address: Option<String>, construct: F) -> (done:
    Result<(), InitError>) where F: FnOnce(&PoolConfig) -> bool
    requires
        forall|config: &PoolConfig| construct.requires((config,)),
    ensures
        exists|parallelism: nat|
            1 <= parallelism <= usize::MAX && #[trigger] brought_up(
                old(manager)@,
                planned(store_address.deep_view(), parallelism),
                construct,
                final(manager)@,
                done,
            ),
        old(manager)@.wf() ==> final(manager)@.wf(),
{
    let parallelism: usize = detected_parallelism();
    let done = init_with(manager, store_address, parallelism, construct);
    assert(brought_up(
        old(manager)@,
        planned(store_address.deep_view(), parallelism as nat),
        construct,
        final(manager)@,
        done,
    ));
    done
}

/// Answers one request for a lease that has waited `waited_ms` so far.
///
/// `Granted` hands out the lowest free slot. `Pending` asks the requester to
/// wait, at most the time given, and to call again with the whole time it has
/// waited. `Failed` ends the request: with `PoolExhaustedError` when the wait
/// allowance is used up, with `PoolUnavailableError` when the pool is not up.
pub fn connect(manager: &mut PoolManager, waited_ms: u64) -> (got: Acquire)
    ensures
        (final(manager)@, got@) == old(manager)@.connect(waited_ms as nat),
{
    match &mut manager.state {
        Lifecycle::Ready(pool) => pool.poll(waited_ms),
        _ => Acquire::Failed(AcquireError::PoolUnavailableError),
    }
}

/// Hands a lease back. Its slot is free for the next request from now on.
pub fn release(manager: &mut PoolManager, lease: Lease)
    ensures
        final(manager)@ == old(manager)@.release(lease@),
{
    match &mut manager.state {
        Lifecycle::Ready(pool) => {
            pool.release(lease);
        },
        _ => {},
    }
}

/// Settles a granted lease once it is known whether a live connection stands
/// behind it. Where one does, the lease is the requester's to use. Where none
/// does, the pool could not be reached: the lease goes back at once and the
/// request fails with `PoolUnavailableError`.
pub fn confirm(manager: &mut PoolManager, lease: Lease, reached: bool) -> (settled: Result<
    Lease,
    AcquireError,
>)
    ensures
        reached ==> settled == Ok::<Lease, AcquireError>(lease) && final(manager)@ == old(
            manager,
        )@,
        !reached ==> settled == Err::<Lease, AcquireError>(AcquireError::PoolUnavailableError)
            && final(manager)@ == old(manager)@.release(lease@),
{
    if reached {
        Ok(lease)
    } else {
        release(manager, lease);
        Err(AcquireError::PoolUnavailableError)
    }
}

/// Ends the use of a lease: whatever the work done under it came to, the
/// lease goes back, and the work's outcome is passed on untouched.
pub fn conclude<T, E>(manager: &mut PoolManager, lease: Lease, outcome: Result<T, E>) -> (passed:
    Result<T, E>)
    ensures
        passed == outcome,
        final(manager)@ == old(manager)@.release(lease@),
{
    release(manager, lease);
    outcome
}

} // verus!
