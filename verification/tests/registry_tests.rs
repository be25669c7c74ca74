use token_swap::errors::CustomError;
use token_swap::registry::{PoolKey, PoolRegistry};
use token_swap::swap::{swap, SwapOutcome};

const ADMIN: u64 = 900;

fn key(salt: u64) -> PoolKey {
    PoolKey { asset_a_id: 1, asset_b_id: 2, salt }
}

fn registry_with_one_pool() -> PoolRegistry {
    let mut registry = PoolRegistry::new();
    registry
        .create_pool(key(0), 30, 250, 1, 2, 3, 4, 5, 6, ADMIN)
        .expect("pool creation");
    registry
}

#[test]
fn create_and_look_up_a_pool() {
    let registry = registry_with_one_pool();
    assert_eq!(registry.len(), 1);
    let pool = registry.lookup(key(0)).expect("stored pool");
    assert_eq!(pool.fee_rate, 30);
    assert_eq!(pool.admin, ADMIN);
}

#[test]
fn pools_coexist_under_distinct_salts() {
    let mut registry = registry_with_one_pool();
    registry
        .create_pool(key(7), 100, 251, 1, 2, 13, 14, 15, 16, ADMIN)
        .expect("second pool");
    assert_eq!(registry.len(), 2);
    assert_eq!(registry.lookup(key(0)).unwrap().fee_rate, 30);
    assert_eq!(registry.lookup(key(7)).unwrap().fee_rate, 100);
}

#[test]
fn duplicate_key_is_rejected() {
    let mut registry = registry_with_one_pool();
    assert_eq!(
        registry.create_pool(key(0), 100, 251, 1, 2, 13, 14, 15, 16, ADMIN),
        Err(CustomError::InvalidSwapPool)
    );
    assert_eq!(registry.len(), 1);
}

#[test]
fn fee_cap_applies_through_the_registry() {
    let mut registry = PoolRegistry::new();
    assert_eq!(
        registry.create_pool(key(0), 1001, 250, 1, 2, 3, 4, 5, 6, ADMIN),
        Err(CustomError::FeeTooHigh)
    );
    assert_eq!(registry.len(), 0);
}

#[test]
fn unknown_key_reads_nothing_and_commits_nothing() {
    let mut registry = registry_with_one_pool();
    assert!(registry.lookup(key(9)).is_none());
    let pool = registry.lookup(key(0)).unwrap();
    assert_eq!(
        registry.update_pool(key(9), pool),
        Err(CustomError::InvalidSwapPool)
    );
}

#[test]
fn scoped_exclusive_access_commits_an_operation() {
    let mut registry = registry_with_one_pool();
    // acquire a copy, compute on it, commit it back
    let mut pool = registry.lookup(key(0)).expect("stored pool");
    let outcome = swap(&mut pool, 10000, 10000, 1, 1000, 0).expect("swap");
    assert_eq!(outcome, SwapOutcome { a_to_b: true, amount_out: 908, fee: 2 });
    registry.update_pool(key(0), pool).expect("commit");
    assert_eq!(registry.lookup(key(0)).unwrap().total_fees_b, 2);
}

#[test]
fn aborted_operation_leaves_the_store_untouched() {
    let mut registry = registry_with_one_pool();
    let mut pool = registry.lookup(key(0)).expect("stored pool");
    // the slippage guard aborts the swap; nothing is committed back
    assert_eq!(
        swap(&mut pool, 10000, 10000, 1, 1000, 909),
        Err(CustomError::SlippageExceeded)
    );
    assert_eq!(registry.lookup(key(0)).unwrap().total_fees_b, 0);
}
