//! Pool configuration: the store address and the capacity derived from the
//! host's parallelism.

use vstd::prelude::*;
use crate::errors::InitError;

verus! {

/// Name of the environment variable that holds the store address.
pub const STORE_ADDRESS_VARIABLE: &'static str = "DATABASE_URL";

/// Connections the pool holds per unit of hardware parallelism.
pub const LEASES_PER_CPU: u32 = 4;

/// How long, in milliseconds, a lease request waits before it is given up,
/// unless the configuration says otherwise.
pub const DEFAULT_WAIT_ALLOWANCE_MS: u64 = 30_000;

/// The capacity that a host with `parallelism` execution units calls for.
pub open spec fn planned_capacity(parallelism: nat) -> nat {
    parallelism * (LEASES_PER_CPU as nat)
}

/// Whether that capacity is positive and representable.
pub open spec fn capacity_fits(parallelism: nat) -> bool {
    0 < planned_capacity(parallelism) <= u32::MAX
}

/// Computes the capacity for `parallelism` execution units, if there is one.
pub fn capacity_for(parallelism: usize) -> (capacity: Option<u32>)
    ensures
        capacity_fits(parallelism as nat) ==> capacity == Some(
            planned_capacity(parallelism as nat) as u32,
        ),
        !capacity_fits(parallelism as nat) ==> capacity.is_none(),
{
    if parallelism == 0 || parallelism > (u32::MAX / LEASES_PER_CPU) as usize {
        None
    } else {
        let units: u32 = parallelism as u32;
        Some(units * LEASES_PER_CPU)
    }
}

/// What a configuration holds, as plain mathematical values.
pub struct PoolConfigView {
    pub store_address: Seq<char>,
    pub capacity: nat,
    pub wait_allowance_ms: nat,
}

/// The configuration a pool is built from. Its capacity is never zero, and
/// once made it is only read.
#[derive(Debug)]
pub struct PoolConfig {
    store_address: String,
    capacity: u32,
    wait_allowance_ms: u64,
}

impl View for PoolConfig {
    type V = PoolConfigView;

    closed spec fn view(&self) -> PoolConfigView {
        PoolConfigView {
            store_address: self.store_address@,
            capacity: self.capacity as nat,
            wait_allowance_ms: self.wait_allowance_ms as nat,
        }
    }
}

/// The configuration, or the failure, that a store address and a capacity
/// that was asked for by number give.
pub open spec fn configured(store_address: Seq<char>, capacity: nat) -> Result<
    PoolConfigView,
    InitError,
> {
    if capacity == 0 {
        Err(InitError::PoolConstructionError)
    } else {
        Ok(
            PoolConfigView {
                store_address,
                capacity,
                wait_allowance_ms: DEFAULT_WAIT_ALLOWANCE_MS as nat,
            },
        )
    }
}

/// The configuration, or the failure, that the environment's store address
/// (if it has one) and the host's parallelism give: a missing address is a
/// `ConfigError` whatever the parallelism; a capacity that is zero or does not
/// fit is a `PoolConstructionError`; otherwise the capacity is four leases per
/// execution unit.
pub open spec fn planned(store_address: Option<Seq<char>>, parallelism: nat) -> Result<
    PoolConfigView,
    InitError,
> {
    match store_address {
        None => Err(InitError::ConfigError),
        Some(address) => if capacity_fits(parallelism) {
            configured(address, planned_capacity(parallelism))
        } else {
            Err(InitError::PoolConstructionError)
        },
    }
}

/// A result of making a configuration, with the configuration by its view.
pub open spec fn outcome_view(made: Result<PoolConfig, InitError>) -> Result<
    PoolConfigView,
    InitError,
> {
    match made {
        Ok(config) => Ok(config@),
        Err(e) => Err(e),
    }
}

impl PoolConfig {
    #[verifier::type_invariant]
    spec fn holds_some_capacity(&self) -> bool {
        self.capacity > 0
    }

    /// A configuration with a capacity given by number rather than derived
    /// from the host, and the default wait allowance.
    pub fn new(store_address: String, capacity: u32) -> (made: Result<PoolConfig, InitError>)
        ensures
            outcome_view(made) == configured(store_address@, capacity as nat),
    {
        if capacity == 0 {
            Err(InitError::PoolConstructionError)
        } else {
            Ok(PoolConfig { store_address, capacity, wait_allowance_ms: DEFAULT_WAIT_ALLOWANCE_MS })
        }
    }

    /// The configuration for a host with `parallelism` execution units and
    /// the store address found in the environment, if any was found.
    pub fn for_host(store_address: Option<String>, parallelism: usize) -> (made: Result<
        PoolConfig,
        InitError,
    >)
        ensures
            outcome_view(made) == planned(store_address.deep_view(), parallelism as nat),
    {
        match store_address {
            None => Err(InitError::ConfigError),
            Some(address) => match capacity_for(parallelism) {
                None => Err(InitError::PoolConstructionError),
                Some(capacity) => PoolConfig::new(address, capacity),
            },
        }
    }

    /// The configuration for this host: as `for_host`, with the parallelism
    /// that the host reports, which is at least one.
    pub fn detect(store_address: Option<String>) -> (made: Result<PoolConfig, InitError>)
        ensures
            exists|parallelism: nat|
                1 <= parallelism <= usize::MAX && outcome_view(made) == #[trigger] planned(
                    store_address.deep_view(),
                    parallelism,
                ),
    {
        let parallelism: usize = detected_parallelism();
        let made = PoolConfig::for_host(store_address, parallelism);
        assert(outcome_view(made) == planned(store_address.deep_view(), parallelism as nat));
        made
    }

    /// The same configuration with another wait allowance.
    pub fn with_wait_allowance(self, wait_allowance_ms: u64) -> (changed: PoolConfig)
        ensures
            changed@ == (PoolConfigView { wait_allowance_ms: wait_allowance_ms as nat, ..self@ }),
    {
        proof {
            use_type_invariant(&self);
        }
        PoolConfig {
            store_address: self.store_address,
            capacity: self.capacity,
            wait_allowance_ms,
        }
    }

    /// Where the store is.
    pub fn store_address(&self) -> (address: &str)
        ensures
            address@ == self@.store_address,
    {
        self.store_address.as_str()
    }

    /// How many connections the pool may hold at once; never zero.
    pub fn capacity(&self) -> (capacity: u32)
        ensures
            capacity == self@.capacity,
            capacity > 0,
    {
        proof {
            use_type_invariant(self);
        }
        self.capacity
    }

    /// How long a lease request may wait, in milliseconds.
    pub fn wait_allowance_ms(&self) -> (allowance: u64)
        ensures
            allowance == self@.wait_allowance_ms,
    {
        self.wait_allowance_ms
    }
}

/// Asks `num_cpus::get` for the number of logical CPUs available to this
/// process. The answer depends on the machine, so nothing is claimed of it but
/// what the function documents: it is at least one.
#[verifier::external_body]
pub(crate) fn detected_parallelism() -> (units: usize)
    ensures
        units >= 1,
{
    num_cpus::get()
}

} // verus!
