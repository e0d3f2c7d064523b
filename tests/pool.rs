use pgsql_studio::pool::{PoolManager, SessionPlan};

/// Runs one request for a session the way a caller holding the pool does:
/// probe, settle, and establish when told to. Returns the session handed out.
fn request_session(pool: &mut PoolManager<u32>, id: &str, alive: bool, next: &mut u32, opened: &mut u32) -> u32 {
    let id = id.to_string();
    let probe = pool.session(&id).is_some() && alive;
    match pool.settle_probe(&id, probe) {
        SessionPlan::Reuse => *pool.session(&id).unwrap(),
        SessionPlan::Establish => {
            *next += 1;
            *opened += 1;
            pool.install(id.clone(), *next);
            *next
        }
    }
}

#[test]
fn two_requests_share_one_session() {
    let mut pool: PoolManager<u32> = PoolManager::new();
    let mut next = 0;
    let mut opened = 0;
    let first = request_session(&mut pool, "x", true, &mut next, &mut opened);
    let second = request_session(&mut pool, "x", true, &mut next, &mut opened);
    assert_eq!(first, second);
    assert_eq!(opened, 1);
}

#[test]
fn dead_session_is_replaced_not_duplicated() {
    let mut pool: PoolManager<u32> = PoolManager::new();
    pool.install("x".to_string(), 10);
    assert!(matches!(pool.settle_probe(&"x".to_string(), false), SessionPlan::Establish));
    assert!(pool.session(&"x".to_string()).is_none());
    pool.install("x".to_string(), 11);
    pool.install("x".to_string(), 12);
    assert_eq!(pool.session(&"x".to_string()), Some(&12));
    pool.remove_connection(&"x".to_string());
    assert!(pool.session(&"x".to_string()).is_none());
}

#[test]
fn live_session_is_reused_unchanged() {
    let mut pool: PoolManager<u32> = PoolManager::new();
    pool.install("x".to_string(), 3);
    pool.install("y".to_string(), 4);
    assert!(matches!(pool.settle_probe(&"x".to_string(), true), SessionPlan::Reuse));
    assert_eq!(pool.session(&"x".to_string()), Some(&3));
    assert_eq!(pool.session(&"y".to_string()), Some(&4));
}

#[test]
fn missing_session_is_established_even_if_probe_claims_alive() {
    let mut pool: PoolManager<u32> = PoolManager::new();
    assert!(matches!(pool.settle_probe(&"x".to_string(), true), SessionPlan::Establish));
}

#[test]
fn removing_is_idempotent() {
    let mut pool: PoolManager<u32> = PoolManager::new();
    pool.remove_connection(&"x".to_string());
    pool.install("x".to_string(), 1);
    pool.remove_connection(&"x".to_string());
    pool.remove_connection(&"x".to_string());
    assert!(pool.session(&"x".to_string()).is_none());
}
