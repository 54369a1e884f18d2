//! The store's side of a configuration: the connection manager that the
//! pool's connections are opened through.

use vstd::prelude::*;
use diesel::pg::PgConnection;
use diesel::r2d2::ConnectionManager;
use crate::config::PoolConfig;

verus! {

/// `diesel::pg::PgConnection`, one connection to the store. Nothing of its
/// inside is known here.
#[verifier::external_type_specification]
#[verifier::external_body]
pub struct ExPgConnection(PgConnection);

/// `diesel::r2d2::ConnectionManager`, which opens connections of kind `T` to
/// the address it was made with. Nothing of its inside is known here but
/// what `managed_address` names.
#[verifier::external_type_specification]
#[verifier::external_body]
#[verifier::reject_recursive_types(T)]
pub struct ExConnectionManager<T>(ConnectionManager<T>);

/// The address that a connection manager was made with, and that it opens
/// its connections to.
pub uninterp spec fn managed_address(manager: ConnectionManager<PgConnection>) -> Seq<char>;

/// Makes a connection manager with `ConnectionManager::new`, which opens
/// nothing yet: it keeps the address it is given, unchanged, for the
/// connections it will be asked to open.
#[verifier::external_body]
fn manager_for(address: &str) -> (manager: ConnectionManager<PgConnection>)
    ensures
        managed_address(manager) == address@,
{
    ConnectionManager::new(address)
}

impl PoolConfig {
    /// The connection manager for the configured store address. No
    /// connection is opened by making it.
    pub fn connection_manager(&self) -> (manager: ConnectionManager<PgConnection>)
        ensures
            managed_address(manager) == self@.store_address,
    {
        manager_for(self.store_address())
    }
}

} // verus!
