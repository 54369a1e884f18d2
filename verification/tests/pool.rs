use pool_offload::config::PoolConfig;
use pool_offload::errors::AcquireError;
use pool_offload::pool::{Acquire, Lease, Pool};

fn pool_of(capacity: u32, wait_allowance_ms: u64) -> Pool {
    let config = PoolConfig::new(String::from("db"), capacity)
        .unwrap()
        .with_wait_allowance(wait_allowance_ms);
    Pool::new(&config)
}

fn granted(got: Acquire) -> Lease {
    match got {
        Acquire::Granted(lease) => lease,
        other => panic!("no lease: {:?}", other),
    }
}

#[test]
fn new_pool_is_idle() {
    let pool = pool_of(4, 100);
    assert_eq!(pool.capacity(), 4);
    assert_eq!(pool.wait_allowance_ms(), 100);
    assert_eq!(pool.in_use(), 0);
    assert_eq!(pool.available(), 4);
}

#[test]
fn leases_are_granted_lowest_slot_first() {
    let mut pool = pool_of(3, 100);
    assert_eq!(granted(pool.poll(0)).slot(), 0);
    assert_eq!(granted(pool.poll(0)).slot(), 1);
    assert_eq!(granted(pool.poll(0)).slot(), 2);
    assert_eq!(pool.in_use(), 3);
    assert_eq!(pool.available(), 0);
}

#[test]
fn full_pool_asks_to_wait_the_rest_of_the_allowance() {
    let mut pool = pool_of(1, 100);
    let _held = granted(pool.poll(0));
    assert_eq!(pool.poll(0), Acquire::Pending { remaining_ms: 100 });
    assert_eq!(pool.poll(1), Acquire::Pending { remaining_ms: 99 });
    assert_eq!(pool.poll(99), Acquire::Pending { remaining_ms: 1 });
    assert_eq!(pool.in_use(), 1);
}

#[test]
fn full_pool_is_exhausted_once_the_allowance_is_used_up() {
    let mut pool = pool_of(1, 100);
    let _held = granted(pool.poll(0));
    assert_eq!(pool.poll(100), Acquire::Failed(AcquireError::PoolExhaustedError));
    assert_eq!(pool.poll(101), Acquire::Failed(AcquireError::PoolExhaustedError));
    assert_eq!(pool.poll(u64::MAX), Acquire::Failed(AcquireError::PoolExhaustedError));
    assert_eq!(pool.in_use(), 1);
}

#[test]
fn no_allowance_means_no_waiting() {
    let mut pool = pool_of(1, 0);
    let _held = granted(pool.poll(0));
    assert_eq!(pool.poll(0), Acquire::Failed(AcquireError::PoolExhaustedError));
}

#[test]
fn free_slot_is_granted_however_long_the_request_waited() {
    let mut pool = pool_of(2, 100);
    assert_eq!(granted(pool.poll(100)).slot(), 0);
    assert_eq!(granted(pool.poll(u64::MAX)).slot(), 1);
}

#[test]
fn released_slot_goes_to_the_next_request() {
    let mut pool = pool_of(3, 100);
    let first = granted(pool.poll(0));
    let second = granted(pool.poll(0));
    let _third = granted(pool.poll(0));
    assert_eq!(second.slot(), 1);
    pool.release(second);
    assert_eq!(pool.in_use(), 2);
    assert_eq!(pool.available(), 1);
    assert_eq!(granted(pool.poll(50)).slot(), 1);
    pool.release(first);
    assert_eq!(granted(pool.poll(50)).slot(), 0);
    assert_eq!(pool.poll(50), Acquire::Pending { remaining_ms: 50 });
}

#[test]
fn lowest_of_several_released_slots_is_granted_first() {
    let mut pool = pool_of(4, 100);
    let a = granted(pool.poll(0));
    let b = granted(pool.poll(0));
    let c = granted(pool.poll(0));
    let _d = granted(pool.poll(0));
    pool.release(c);
    pool.release(a);
    assert_eq!(granted(pool.poll(0)).slot(), 0);
    assert_eq!(granted(pool.poll(0)).slot(), 2);
    assert_eq!(b.slot(), 1);
}

#[test]
fn lease_of_a_slot_that_is_not_out_changes_nothing() {
    let mut large = pool_of(3, 100);
    let mut small = pool_of(1, 100);
    let _zero = granted(large.poll(0));
    let _one = granted(large.poll(0));
    let two = granted(large.poll(0));
    small.release(two);
    assert_eq!(small.in_use(), 0);
    assert_eq!(small.available(), 1);
    let held = granted(small.poll(0));
    let mut other = pool_of(2, 100);
    let zero_of_other = granted(other.poll(0));
    small.release(held);
    small.release(zero_of_other);
    assert_eq!(small.in_use(), 0);
    assert_eq!(granted(small.poll(0)).slot(), 0);
}

#[test]
fn requests_within_capacity_are_all_granted() {
    let mut pool = pool_of(8, 0);
    let mut slots = Vec::new();
    for _ in 0..8 {
        slots.push(granted(pool.poll(0)).slot());
    }
    assert_eq!(slots, vec![0, 1, 2, 3, 4, 5, 6, 7]);
    assert_eq!(pool.available(), 0);
}

#[test]
fn requests_beyond_capacity_wait_or_fail_and_no_slot_is_granted_twice() {
    let mut pool = pool_of(4, 100);
    let waited: [u64; 7] = [0, 0, 0, 0, 0, 40, 100];
    let mut slots = Vec::new();
    let mut turned_away = Vec::new();
    for w in waited {
        match pool.poll(w) {
            Acquire::Granted(lease) => slots.push(lease.slot()),
            other => turned_away.push(other),
        }
    }
    assert_eq!(slots, vec![0, 1, 2, 3]);
    assert_eq!(
        turned_away,
        vec![
            Acquire::Pending { remaining_ms: 100 },
            Acquire::Pending { remaining_ms: 60 },
            Acquire::Failed(AcquireError::PoolExhaustedError),
        ]
    );
    assert_eq!(pool.in_use(), 4);
}

#[test]
fn five_requests_on_a_pool_of_four() {
    let config = PoolConfig::for_host(Some(String::from("db")), 1).unwrap();
    assert_eq!(config.capacity(), 4);
    let mut pool = Pool::new(&config);
    let mut held = Vec::new();
    for _ in 0..4 {
        held.push(granted(pool.poll(0)));
    }
    assert_eq!(pool.poll(0), Acquire::Pending { remaining_ms: 30_000 });
    let mut values = Vec::new();
    for (i, lease) in held.into_iter().enumerate() {
        assert_eq!(lease.slot(), i);
        values.push(i);
        pool.release(lease);
        if i == 0 {
            let fifth = granted(pool.poll(20));
            assert_eq!(fifth.slot(), 0);
            pool.release(fifth);
        }
    }
    assert_eq!(values, vec![0, 1, 2, 3]);
    assert_eq!(pool.in_use(), 0);
}
