use faucet::nonce::{new_nonce, NonceAllocator};

#[test]
fn new_nonce_is_one_past_the_larger() {
    assert_eq!(new_nonce(3, 7), 8);
    assert_eq!(new_nonce(7, 3), 8);
    assert_eq!(new_nonce(5, 5), 6);
    assert_eq!(new_nonce(0, 0), 1);
}

#[test]
fn allocate_returns_pairwise_distinct_values() {
    let mut allocator = NonceAllocator::new(0);
    let mut seen: Vec<u64> = Vec::new();
    for _ in 0..100 {
        seen.push(allocator.allocate());
    }
    for i in 0..seen.len() {
        for j in 0..seen.len() {
            if i != j {
                assert_ne!(seen[i], seen[j]);
            }
        }
    }
}

#[test]
fn allocate_increments_by_one() {
    let mut allocator = NonceAllocator::new(41);
    assert_eq!(allocator.allocate(), 42);
    assert_eq!(allocator.allocate(), 43);
}

#[test]
fn reconcile_advances_past_ledger_expected() {
    let mut allocator = NonceAllocator::new(5);
    assert_eq!(allocator.reconcile(6, 9), 10);
    // the counter really moved: the next allocation is one past it
    assert_eq!(allocator.allocate(), 11);
}

#[test]
fn reconcile_keeps_counter_when_already_ahead() {
    let mut allocator = NonceAllocator::new(20);
    // the ledger expects less than we already tried: still move forward
    assert_eq!(allocator.reconcile(15, 7), 21);
}

#[test]
fn reconcile_uses_expected_not_attempted() {
    let mut allocator = NonceAllocator::new(5);
    // a wild `attempted` value must not change the math
    assert_eq!(allocator.reconcile(999, 4), 6);
}

#[test]
fn reconcile_results_stay_monotonic() {
    let mut allocator = NonceAllocator::new(0);
    let mut last = 0u64;
    for expected in [5u64, 3, 9, 9, 2, 30] {
        let got = allocator.reconcile(last, expected);
        assert!(got >= expected + 1);
        assert!(got > last);
        last = got;
    }
}

#[test]
fn seed_scenario_allocates_past_reconciled_nonce() {
    // seed nonce = 5; a request allocates 6; the ledger expects 9;
    // reconciliation returns 10; an unrelated allocation must return 11
    let mut allocator = NonceAllocator::new(5);
    assert_eq!(allocator.allocate(), 6);
    assert_eq!(allocator.reconcile(6, 9), 10);
    assert_eq!(allocator.allocate(), 11);
}
