use std::cell::Cell;

use pool_offload::config::PoolConfig;
use pool_offload::connection::{
    conclude, confirm, connect, init, init_planned, init_with, release, PoolManager,
};
use pool_offload::errors::{AcquireError, InitError, SubmitError, WorkError};
use pool_offload::offload::submit;
use pool_offload::pool::{Acquire, Lease};

fn lease_of(got: Acquire) -> Lease {
    match got {
        Acquire::Granted(lease) => lease,
        other => panic!("no lease: {:?}", other),
    }
}

fn ready(parallelism: usize) -> PoolManager {
    let mut manager = PoolManager::new();
    let done = init_with(&mut manager, Some(String::from("db")), parallelism, |_| true);
    assert_eq!(done, Ok(()));
    manager
}

#[test]
fn new_manager_has_no_pool() {
    let manager = PoolManager::new();
    assert!(!manager.is_ready());
    assert_eq!(manager.failure(), None);
    assert_eq!(manager.capacity(), None);
    assert_eq!(manager.in_use(), None);
}

#[test]
fn init_builds_a_pool_of_four_leases_per_execution_unit() {
    let mut manager = PoolManager::new();
    let seen = Cell::new(None);
    let done = init_with(&mut manager, Some(String::from("postgres://db/app")), 2, |config| {
        seen.set(Some((config.store_address().to_string(), config.capacity())));
        true
    });
    assert_eq!(done, Ok(()));
    assert_eq!(seen.take(), Some((String::from("postgres://db/app"), 8)));
    assert!(manager.is_ready());
    assert_eq!(manager.capacity(), Some(8));
    assert_eq!(manager.in_use(), Some(0));
    assert_eq!(manager.failure(), None);
}

#[test]
fn init_twice_keeps_the_first_pool() {
    let mut manager = ready(1);
    let first = lease_of(connect(&mut manager, 0));
    let calls = Cell::new(0);
    let again = init_with(&mut manager, Some(String::from("elsewhere")), 5, |_| {
        calls.set(calls.get() + 1);
        true
    });
    assert_eq!(again, Ok(()));
    assert_eq!(calls.get(), 0);
    assert_eq!(manager.capacity(), Some(4));
    assert_eq!(manager.in_use(), Some(1));
    let without_address = init_with(&mut manager, None, 5, |_| false);
    assert_eq!(without_address, Ok(()));
    assert_eq!(manager.capacity(), Some(4));
    assert_eq!(first.slot(), 0);
    assert_eq!(lease_of(connect(&mut manager, 0)).slot(), 1);
}

#[test]
fn init_without_address_fails_and_serves_nothing() {
    let mut manager = PoolManager::new();
    let calls = Cell::new(0);
    let done = init_with(&mut manager, None, 2, |_| {
        calls.set(calls.get() + 1);
        true
    });
    assert_eq!(done, Err(InitError::ConfigError));
    assert_eq!(calls.get(), 0);
    assert!(!manager.is_ready());
    assert_eq!(manager.failure(), Some(InitError::ConfigError));
    assert_eq!(connect(&mut manager, 0), Acquire::Failed(AcquireError::PoolUnavailableError));
    assert_eq!(
        connect(&mut manager, 30_000),
        Acquire::Failed(AcquireError::PoolUnavailableError)
    );
}

#[test]
fn init_failure_is_final() {
    let mut manager = PoolManager::new();
    assert_eq!(init_with(&mut manager, None, 2, |_| true), Err(InitError::ConfigError));
    let later = init_with(&mut manager, Some(String::from("db")), 2, |_| true);
    assert_eq!(later, Err(InitError::ConfigError));
    assert_eq!(manager.failure(), Some(InitError::ConfigError));
    assert!(!manager.is_ready());
}

#[test]
fn init_fails_when_the_pool_cannot_be_built() {
    let mut manager = PoolManager::new();
    let done = init_with(&mut manager, Some(String::from("db")), 2, |_| false);
    assert_eq!(done, Err(InitError::PoolConstructionError));
    assert_eq!(manager.failure(), Some(InitError::PoolConstructionError));
    assert_eq!(manager.capacity(), None);
    assert_eq!(connect(&mut manager, 0), Acquire::Failed(AcquireError::PoolUnavailableError));
}

#[test]
fn init_fails_without_building_when_no_capacity_can_be_planned() {
    let mut manager = PoolManager::new();
    let calls = Cell::new(0);
    let done = init_with(&mut manager, Some(String::from("db")), 0, |_| {
        calls.set(calls.get() + 1);
        true
    });
    assert_eq!(done, Err(InitError::PoolConstructionError));
    assert_eq!(calls.get(), 0);
}

#[test]
fn init_from_a_plan_with_its_own_capacity_and_allowance() {
    let mut manager = PoolManager::new();
    let plan = PoolConfig::new(String::from("db"), 2).map(|c| c.with_wait_allowance(10));
    assert_eq!(init_planned(&mut manager, plan, |_| true), Ok(()));
    assert_eq!(manager.capacity(), Some(2));
    let _a = lease_of(connect(&mut manager, 0));
    let _b = lease_of(connect(&mut manager, 0));
    assert_eq!(connect(&mut manager, 4), Acquire::Pending { remaining_ms: 6 });
    assert_eq!(connect(&mut manager, 10), Acquire::Failed(AcquireError::PoolExhaustedError));
}

#[test]
fn init_from_a_failed_plan_fails_with_the_plan() {
    let mut manager = PoolManager::new();
    let plan = PoolConfig::new(String::from("db"), 0);
    assert_eq!(init_planned(&mut manager, plan, |_| true), Err(InitError::PoolConstructionError));
    assert_eq!(manager.failure(), Some(InitError::PoolConstructionError));
}

#[test]
fn init_on_this_host_is_sized_by_its_parallelism() {
    let mut manager = PoolManager::new();
    let seen = Cell::new(0);
    let done = init(&mut manager, Some(String::from("db")), |config| {
        seen.set(config.capacity());
        true
    });
    assert_eq!(done, Ok(()));
    assert_eq!(seen.get() as usize, num_cpus::get() * 4);
    assert_eq!(manager.capacity(), Some(num_cpus::get() * 4));
    assert!(manager.capacity().unwrap() >= 4);
}

#[test]
fn init_on_this_host_without_address_is_a_config_error() {
    let mut manager = PoolManager::new();
    assert_eq!(init(&mut manager, None, |_| true), Err(InitError::ConfigError));
}

#[test]
fn connect_before_init_is_unavailable() {
    let mut manager = PoolManager::new();
    assert_eq!(connect(&mut manager, 0), Acquire::Failed(AcquireError::PoolUnavailableError));
    assert!(!manager.is_ready());
    assert_eq!(manager.failure(), None);
}

#[test]
fn connect_and_release_through_the_manager() {
    let mut manager = ready(1);
    let a = lease_of(connect(&mut manager, 0));
    let b = lease_of(connect(&mut manager, 0));
    assert_eq!((a.slot(), b.slot()), (0, 1));
    assert_eq!(manager.in_use(), Some(2));
    release(&mut manager, a);
    assert_eq!(manager.in_use(), Some(1));
    assert_eq!(lease_of(connect(&mut manager, 0)).slot(), 0);
    release(&mut manager, b);
    assert_eq!(manager.in_use(), Some(1));
}

#[test]
fn release_without_a_pool_changes_nothing() {
    let mut up = ready(1);
    let lease = lease_of(connect(&mut up, 0));
    let mut down = PoolManager::new();
    release(&mut down, lease);
    assert!(!down.is_ready());
    assert_eq!(down.in_use(), None);
}

#[test]
fn failed_work_still_hands_its_lease_back() {
    let mut manager = ready(1);
    for _ in 0..3 {
        let _ = lease_of(connect(&mut manager, 0));
    }
    let lease = lease_of(connect(&mut manager, 0));
    assert_eq!(lease.slot(), 3);
    assert_eq!(connect(&mut manager, 0), Acquire::Pending { remaining_ms: 30_000 });
    let outcome: Result<u32, String> = Err(String::from("constraint violated"));
    let passed = conclude(&mut manager, lease, outcome);
    assert_eq!(passed, Err(String::from("constraint violated")));
    assert_eq!(manager.in_use(), Some(3));
    assert_eq!(lease_of(connect(&mut manager, 0)).slot(), 3);
}

#[test]
fn successful_work_hands_its_lease_back_and_keeps_its_value() {
    let mut manager = ready(1);
    let lease = lease_of(connect(&mut manager, 0));
    let outcome: Result<u32, String> = Ok(17);
    assert_eq!(conclude(&mut manager, lease, outcome), Ok(17));
    assert_eq!(manager.in_use(), Some(0));
}

#[test]
fn confirmed_lease_stays_out() {
    let mut manager = ready(1);
    let lease = lease_of(connect(&mut manager, 0));
    let settled = confirm(&mut manager, lease, true).unwrap();
    assert_eq!(settled.slot(), 0);
    assert_eq!(manager.in_use(), Some(1));
}

#[test]
fn unreachable_pool_takes_the_lease_back() {
    let mut manager = ready(1);
    let lease = lease_of(connect(&mut manager, 0));
    assert_eq!(manager.in_use(), Some(1));
    let settled = confirm(&mut manager, lease, false);
    assert_eq!(settled, Err(AcquireError::PoolUnavailableError));
    assert_eq!(manager.in_use(), Some(0));
}

#[test]
fn four_tasks_hold_every_lease_and_a_fifth_waits() {
    let mut manager = ready(1);
    assert_eq!(manager.capacity(), Some(4));
    let mut held = Vec::new();
    for _ in 0..4 {
        held.push(lease_of(connect(&mut manager, 0)));
    }
    assert_eq!(manager.in_use(), Some(4));
    assert_eq!(connect(&mut manager, 0), Acquire::Pending { remaining_ms: 30_000 });

    let mut resolved = Vec::new();
    let mut fifth = None;
    for (i, lease) in held.into_iter().enumerate() {
        let outcome: Result<usize, SubmitError<String>> = submit(
            || conclude(&mut manager, lease, Ok(i)),
            |work| Some(work()),
        );
        resolved.push(outcome);
        if fifth.is_none() {
            assert_eq!(manager.in_use(), Some(3));
            fifth = Some(lease_of(connect(&mut manager, 50)));
            assert_eq!(manager.in_use(), Some(4));
        }
    }
    assert_eq!(resolved, vec![Ok(0), Ok(1), Ok(2), Ok(3)]);
    let fifth = fifth.unwrap();
    assert_eq!(fifth.slot(), 0);
    let last: Result<usize, SubmitError<String>> =
        submit(|| conclude(&mut manager, fifth, Ok(4)), |work| Some(work()));
    assert_eq!(last, Ok(4));
    assert_eq!(manager.in_use(), Some(0));
}

#[test]
fn work_that_fails_under_a_lease_is_an_offload_error_and_frees_the_lease() {
    let mut manager = ready(1);
    let lease = lease_of(connect(&mut manager, 0));
    let outcome: Result<u32, SubmitError<String>> = submit(
        || conclude(&mut manager, lease, Err(String::from("row is gone"))),
        |work| Some(work()),
    );
    assert_eq!(outcome, Err(SubmitError::OffloadError(String::from("row is gone"))));
    assert_eq!(manager.in_use(), Some(0));
    assert_eq!(lease_of(connect(&mut manager, 0)).slot(), 0);
}

#[test]
fn pool_failure_inside_the_work_is_surfaced_as_the_work_failed() {
    let mut manager = PoolManager::new();
    let outcome: Result<u32, SubmitError<WorkError<String>>> = submit(
        || match connect(&mut manager, 0) {
            Acquire::Failed(e) => Err(WorkError::from(e)),
            _ => Ok(1),
        },
        |work| Some(work()),
    );
    assert_eq!(
        outcome,
        Err(SubmitError::OffloadError(WorkError::Pool(AcquireError::PoolUnavailableError)))
    );
}
