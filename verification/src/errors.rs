//! The failure taxonomy. Every failure keeps its own label from the place it
//! arises to the caller; nothing here is retried or recovered.

use vstd::prelude::*;

verus! {

/// Why bringing the pool up failed. Both are fatal at startup.
#[derive(Debug, Clone, Copy, PartialEq, Eq, Structural)]
pub enum InitError {
    /// The required store address is missing from the environment or unusable.
    ConfigError,
    /// The store was unreachable or rejected the configuration.
    PoolConstructionError,
}

/// Why one attempt to lease a connection failed. Neither is retried here.
#[derive(Debug, Clone, Copy, PartialEq, Eq, Structural)]
pub enum AcquireError {
    /// No lease became free within the wait allowance.
    PoolExhaustedError,
    /// The pool itself could not be reached.
    PoolUnavailableError,
}

/// Why a submitted piece of blocking work produced no value.
///
/// `OffloadError` carries the work's own failure, untouched; `ExecutorError`
/// says the work never ran to completion because the worker context failed.
#[derive(Debug, PartialEq, Eq)]
pub enum SubmitError<E> {
    /// The work ran and failed with this error of its own.
    OffloadError(E),
    /// The worker context could not run the work to completion.
    ExecutorError,
}

/// Why a piece of work that runs on a leased connection failed: it got no
/// lease, or it got one and failed in its own domain.
#[derive(Debug, PartialEq, Eq)]
pub enum WorkError<D> {
    /// No lease was had; the work did not touch the store.
    Pool(AcquireError),
    /// The work's own failure, untouched.
    Domain(D),
}

impl<D> From<AcquireError> for WorkError<D> {
    fn from(e: AcquireError) -> (made: WorkError<D>) {
        WorkError::Pool(e)
    }
}

impl<D> vstd::std_specs::convert::FromSpecImpl<AcquireError> for WorkError<D> {
    open spec fn obeys_from_spec() -> bool {
        true
    }

    open spec fn from_spec(e: AcquireError) -> WorkError<D> {
        WorkError::Pool(e)
    }
}

impl InitError {
    /// The message a startup failure is reported with.
    pub fn message(&self) -> (text: &'static str)
        ensures
            *self == InitError::ConfigError ==> text@ == "DATABASE_URL must be set"@,
            *self == InitError::PoolConstructionError ==> text@
                == "Failed to create DB connection pool."@,
    {
        match self {
            InitError::ConfigError => "DATABASE_URL must be set",
            InitError::PoolConstructionError => "Failed to create DB connection pool.",
        }
    }
}

impl AcquireError {
    /// The message a failed lease attempt is reported with.
    pub fn message(&self) -> (text: &'static str)
        ensures
            text@ == "couldn't get db connection from pool."@,
    {
        "couldn't get db connection from pool."
    }
}

} // verus!
