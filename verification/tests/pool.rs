use clickhouse::Client;
use clickhouse_pool::ClientWrapper;
use clickhouse_pool::ConnectionPool;
use clickhouse_pool::Error;
use clickhouse_pool::MAX_PERMITS;
use std::sync::Arc;
use std::time::Duration;
use tokio::runtime::Builder;
use tokio::runtime::Runtime;
use tokio::sync::AcquireError;
use tokio::sync::OwnedSemaphorePermit;
use tokio::sync::Semaphore;

const URL: &str = "http://localhost:8123";

fn runtime() -> Runtime {
    Builder::new_current_thread().enable_time().build().expect("Failed to build runtime")
}

/// Waits at the pool's semaphore for at most a tenth of a second.
fn wait_for_permit(
    rt: &Runtime,
    pool: &ConnectionPool,
) -> Option<Result<OwnedSemaphorePermit, AcquireError>> {
    let _entered = rt.enter();
    let waiting = Arc::clone(pool.semaphore()).acquire_owned();
    rt.block_on(tokio::time::timeout(Duration::from_millis(100), waiting)).ok()
}

fn lease(rt: &Runtime, pool: &mut ConnectionPool) -> ClientWrapper {
    let admission = wait_for_permit(rt, pool).expect("Failed to get a permit");
    pool.acquire(admission).expect("Failed to acquire client")
}

fn client_of(database: &str) -> Client {
    Client::default().with_url(URL).with_database(database)
}

#[test]
fn max_permits_is_the_limit_of_the_semaphore() {
    assert_eq!(MAX_PERMITS, Semaphore::MAX_PERMITS);
    assert_eq!(MAX_PERMITS, usize::MAX >> 3);
}

#[test]
fn spawn_fills_the_store() {
    let pool = ConnectionPool::spawn(URL, 3).expect("Failed to spawn pool");
    assert_eq!(pool.capacity(), 3);
    assert_eq!(pool.idle_count(), 3);
    assert_eq!(pool.outstanding(), 0);
    assert_eq!(pool.semaphore().available_permits(), 3);
    assert!(!pool.semaphore().is_closed());
}

#[test]
fn spawn_takes_owned_and_borrowed_addresses() {
    let address = String::from(URL);
    let owned = ConnectionPool::spawn(&address, 1).expect("Failed to spawn pool");
    let borrowed = ConnectionPool::spawn(URL, 1).expect("Failed to spawn pool");
    assert_eq!(owned.idle_count(), 1);
    assert_eq!(borrowed.idle_count(), 1);
}

#[test]
fn spawn_points_every_client_at_the_address() {
    let rt = runtime();
    let mut pool = ConnectionPool::spawn("http://localhost:8123?database=metrics", 2)
        .expect("Failed to spawn pool");
    let first = lease(&rt, &mut pool);
    let second = lease(&rt, &mut pool);
    assert_eq!(first.client().database(), Some("metrics"));
    assert_eq!(second.client().database(), Some("metrics"));
}

#[test]
fn from_clients_keeps_the_clients_in_order() {
    let rt = runtime();
    let clients = vec![client_of("a"), client_of("b"), client_of("c")];
    let mut pool = ConnectionPool::from_clients(clients);
    assert_eq!(pool.capacity(), 3);
    assert_eq!(pool.idle_count(), 3);
    assert_eq!(pool.semaphore().available_permits(), 3);
    let first = lease(&rt, &mut pool);
    let second = lease(&rt, &mut pool);
    let third = lease(&rt, &mut pool);
    assert_eq!(first.client().database(), Some("c"));
    assert_eq!(second.client().database(), Some("b"));
    assert_eq!(third.client().database(), Some("a"));
}

#[test]
fn acquire_and_release_move_one_client() {
    let rt = runtime();
    let mut pool = ConnectionPool::spawn(URL, 2).expect("Failed to spawn pool");
    let mut first = lease(&rt, &mut pool);
    assert!(first.is_active());
    assert_eq!(pool.capacity(), 2);
    assert_eq!(pool.idle_count(), 1);
    assert_eq!(pool.outstanding(), 1);
    assert_eq!(pool.semaphore().available_permits(), 1);
    let permit = pool.take_back(&mut first);
    assert!(permit.is_some());
    assert!(!first.is_active());
    assert_eq!(pool.capacity(), 2);
    assert_eq!(pool.idle_count(), 2);
    assert_eq!(pool.outstanding(), 0);
    drop(permit);
    assert_eq!(pool.semaphore().available_permits(), 2);
}

#[test]
fn client_is_back_before_the_permit_is_free() {
    let rt = runtime();
    let mut pool = ConnectionPool::spawn(URL, 1).expect("Failed to spawn pool");
    let mut only = lease(&rt, &mut pool);
    assert_eq!(pool.idle_count(), 0);
    assert_eq!(pool.semaphore().available_permits(), 0);
    let permit = pool.take_back(&mut only).expect("Failed to take the client back");
    assert_eq!(pool.idle_count(), 1);
    assert_eq!(pool.semaphore().available_permits(), 0);
    assert!(wait_for_permit(&rt, &pool).is_none());
    assert!(Arc::ptr_eq(permit.semaphore(), pool.semaphore()));
    assert_eq!(permit.num_permits(), 1);
    drop(permit);
    assert_eq!(pool.semaphore().available_permits(), 1);
    assert!(wait_for_permit(&rt, &pool).is_some());
}

#[test]
fn spawned_clients_are_handles_of_their_own() {
    let rt = runtime();
    let mut pool = ConnectionPool::spawn(URL, 2).expect("Failed to spawn pool");
    let mut first = lease(&rt, &mut pool);
    let second = lease(&rt, &mut pool);
    let marked = first.client().clone().with_database("marked");
    *first.client_mut() = marked;
    assert_eq!(first.client().database(), Some("marked"));
    assert_eq!(second.client().database(), None);
}

#[test]
fn closed_semaphore_gives_acquire_error() {
    let rt = runtime();
    let mut pool = ConnectionPool::spawn(URL, 1).expect("Failed to spawn pool");
    pool.semaphore().close();
    let admission = wait_for_permit(&rt, &pool).expect("A closed semaphore answers at once");
    assert!(admission.is_err());
    let outcome = pool.acquire(admission);
    assert!(matches!(outcome, Err((Error::AcquireError, None))));
    assert_eq!(pool.idle_count(), 1);
    assert_eq!(pool.outstanding(), 0);
}

#[test]
fn permit_without_a_client_gives_unknown_and_comes_back() {
    let mut pool = ConnectionPool::spawn(URL, 0).expect("Failed to spawn pool");
    let elsewhere = Arc::new(Semaphore::new(1));
    let permit = Arc::clone(&elsewhere).try_acquire_owned().expect("Failed to get a permit");
    assert_eq!(elsewhere.available_permits(), 0);
    let (error, unused) = pool.acquire(Ok(permit)).expect_err("The store is empty");
    assert!(matches!(error, Error::Unknown));
    let unused = unused.expect("The permit comes back with the error");
    assert!(Arc::ptr_eq(unused.semaphore(), &elsewhere));
    assert_eq!(elsewhere.available_permits(), 0);
    drop(unused);
    assert_eq!(elsewhere.available_permits(), 1);
    assert_eq!(pool.idle_count(), 0);
    assert_eq!(pool.outstanding(), 0);
}

#[test]
fn with_its_own_permits_the_store_is_never_found_empty() {
    let rt = runtime();
    let mut pool = ConnectionPool::spawn(URL, 3).expect("Failed to spawn pool");
    let mut leases = Vec::new();
    while let Some(admission) = wait_for_permit(&rt, &pool) {
        let outcome = pool.acquire(admission);
        assert!(!matches!(outcome, Err((Error::Unknown, _))));
        leases.push(outcome.expect("Failed to acquire client"));
    }
    assert_eq!(leases.len(), 3);
    assert_eq!(pool.idle_count(), 0);
}

#[test]
fn third_acquire_waits_until_a_lease_is_released() {
    let rt = runtime();
    let mut pool = ConnectionPool::spawn(URL, 2).expect("Failed to spawn pool");
    let mut first = lease(&rt, &mut pool);
    let mut second = lease(&rt, &mut pool);
    assert_eq!(pool.outstanding(), 2);
    assert!(wait_for_permit(&rt, &pool).is_none());
    assert!(pool.take_back(&mut first).is_some());
    let mut third = lease(&rt, &mut pool);
    assert!(third.is_active());
    assert_eq!(pool.outstanding(), 2);
    assert!(wait_for_permit(&rt, &pool).is_none());
    assert!(pool.take_back(&mut second).is_some());
    assert!(pool.take_back(&mut third).is_some());
    assert_eq!(pool.idle_count(), 2);
    assert_eq!(pool.outstanding(), 0);
    assert_eq!(pool.semaphore().available_permits(), 2);
}

#[test]
fn second_release_changes_nothing() {
    let rt = runtime();
    let mut pool = ConnectionPool::spawn(URL, 2).expect("Failed to spawn pool");
    let mut first = lease(&rt, &mut pool);
    let second = lease(&rt, &mut pool);
    assert!(pool.take_back(&mut first).is_some());
    assert_eq!(pool.idle_count(), 1);
    assert_eq!(pool.semaphore().available_permits(), 1);
    assert!(pool.take_back(&mut first).is_none());
    assert!(!first.is_active());
    assert_eq!(pool.idle_count(), 1);
    assert_eq!(pool.outstanding(), 1);
    assert_eq!(pool.semaphore().available_permits(), 1);
    assert!(second.is_active());
}

#[test]
fn released_client_is_lent_again() {
    let rt = runtime();
    let mut pool = ConnectionPool::spawn(URL, 1).expect("Failed to spawn pool");
    let mut first = lease(&rt, &mut pool);
    assert_eq!(first.client().database(), None);
    let marked = first.client().clone().with_database("marked");
    *first.client_mut() = marked;
    assert!(pool.take_back(&mut first).is_some());
    let second = lease(&rt, &mut pool);
    assert_eq!(second.client().database(), Some("marked"));
}

#[test]
fn client_mut_changes_the_leased_client() {
    let rt = runtime();
    let mut pool = ConnectionPool::from_clients(vec![client_of("a")]);
    let mut only = lease(&rt, &mut pool);
    assert_eq!(only.client().database(), Some("a"));
    let renamed = only.client_mut().clone().with_database("b");
    *only.client_mut() = renamed;
    assert!(only.is_active());
    assert_eq!(only.client().database(), Some("b"));
}

#[test]
fn pool_without_clients_admits_nobody() {
    let rt = runtime();
    let pool = ConnectionPool::spawn(URL, 0).expect("Failed to spawn pool");
    assert_eq!(pool.capacity(), 0);
    assert_eq!(pool.idle_count(), 0);
    assert_eq!(pool.outstanding(), 0);
    assert_eq!(pool.semaphore().available_permits(), 0);
    assert!(wait_for_permit(&rt, &pool).is_none());
}

#[test]
fn full_pool_takes_no_client() {
    let rt = runtime();
    let mut lender = ConnectionPool::from_clients(vec![client_of("lent")]);
    let mut full = ConnectionPool::from_clients(vec![client_of("kept")]);
    let mut stray = lease(&rt, &mut lender);
    assert!(full.take_back(&mut stray).is_none());
    assert!(stray.is_active());
    assert_eq!(stray.client().database(), Some("lent"));
    assert_eq!(full.idle_count(), 1);
    assert_eq!(lender.semaphore().available_permits(), 0);
    assert!(lender.take_back(&mut stray).is_some());
    assert_eq!(lender.idle_count(), 1);
    assert_eq!(lender.semaphore().available_permits(), 1);
}
