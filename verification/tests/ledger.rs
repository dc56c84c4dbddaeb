use sai_token::{SaiError, SuperAIToken, INITIAL_SUPPLY, MAX_SUPPLY};

const ADMIN: u64 = 1;
const FOUNDER: u64 = 2;
const YIELD_TOKEN: u64 = 3;
const CHAINLINK: u64 = 4;
const BAND: u64 = 5;
const BUYER: u64 = 9;

fn setup() -> SuperAIToken {
    let mut t = SuperAIToken::new();
    t.initialize(ADMIN, FOUNDER, YIELD_TOKEN, CHAINLINK, BAND)
        .unwrap();
    t
}

#[test]
fn test_initialization() {
    let t = setup();
    assert_eq!(t.balance(FOUNDER), INITIAL_SUPPLY);
    assert_eq!(t.total_supply(), INITIAL_SUPPLY);
    assert_eq!(t.max_supply(), MAX_SUPPLY);
}

#[test]
#[should_panic(expected = "AlreadyInitialized")]
fn test_double_initialization() {
    let mut t = setup();
    t.initialize(ADMIN, FOUNDER, YIELD_TOKEN, CHAINLINK, BAND)
        .unwrap();
}

#[test]
fn test_request_buy_with_reentrancy_guard() {
    let mut t = setup();
    let swap_id = t
        .request_buy(BUYER, BUYER, 1_000_0000000, YIELD_TOKEN, 0)
        .unwrap();
    assert_eq!(t.pending_swaps_count(), 1);
    assert_eq!(swap_id, 1);
}

#[test]
fn test_fulfill_swap_with_cei_pattern() {
    let mut t = setup();
    let swap_id = t
        .request_buy(BUYER, BUYER, 1_000_0000000, YIELD_TOKEN, 0)
        .unwrap();
    t.fulfill_swap(ADMIN, swap_id, 1_000_0000000).unwrap();
    assert_eq!(t.pending_swaps_count(), 0);
    assert_eq!(t.balance(BUYER), 1_000_0000000);
    assert_eq!(t.agent_pool_balance(), 200_0000000);
}

#[test]
fn test_transfer() {
    let mut t = setup();
    let recipient: u64 = 7;
    let transfer_amount: i128 = 1_000_0000000;
    t.transfer(FOUNDER, FOUNDER, recipient, transfer_amount)
        .unwrap();
    assert_eq!(t.balance(recipient), transfer_amount);
    assert_eq!(t.balance(FOUNDER), INITIAL_SUPPLY - transfer_amount);
}

#[test]
#[should_panic(expected = "InsufficientBalance")]
fn test_transfer_insufficient_balance() {
    let mut t = setup();
    let recipient: u64 = 7;
    t.transfer(FOUNDER, FOUNDER, recipient, INITIAL_SUPPLY + 1)
        .unwrap();
}

#[test]
#[should_panic(expected = "ExceedsMaxSupply")]
fn test_max_supply_protection() {
    let mut t = setup();
    t.request_buy(BUYER, BUYER, MAX_SUPPLY, YIELD_TOKEN, 0)
        .unwrap();
}

#[test]
fn test_pause_unpause() {
    let mut t = setup();
    t.pause(ADMIN).unwrap();
    // Operations fail while paused.
    assert_eq!(
        t.transfer(FOUNDER, FOUNDER, 7, 1),
        Err(SaiError::ContractPaused)
    );
    assert_eq!(
        t.request_buy(BUYER, BUYER, 1, YIELD_TOKEN, 0),
        Err(SaiError::ContractPaused)
    );
    t.unpause(ADMIN).unwrap();
    // Operations succeed again after unpausing.
    assert!(t.transfer(FOUNDER, FOUNDER, 7, 1).is_ok());
    assert!(t.request_buy(BUYER, BUYER, 1, YIELD_TOKEN, 0).is_ok());
}

#[test]
fn test_overflow_protection() {
    let mut t = setup();
    let large_amount = i128::MAX / 2;
    let result = t.request_buy(BUYER, BUYER, large_amount, YIELD_TOKEN, 0);
    assert_eq!(result, Err(SaiError::ExceedsMaxSupply));
}

#[test]
fn test_multiple_swaps() {
    let mut t = setup();
    let buyer1: u64 = 11;
    let buyer2: u64 = 12;
    let swap1 = t
        .request_buy(buyer1, buyer1, 500_0000000, YIELD_TOKEN, 0)
        .unwrap();
    let swap2 = t
        .request_buy(buyer2, buyer2, 300_0000000, YIELD_TOKEN, 0)
        .unwrap();
    assert_eq!(t.pending_swaps_count(), 2);
    t.fulfill_swap(ADMIN, swap1, 500_0000000).unwrap();
    assert_eq!(t.pending_swaps_count(), 1);
    t.fulfill_swap(ADMIN, swap2, 300_0000000).unwrap();
    assert_eq!(t.pending_swaps_count(), 0);
    assert_eq!(t.balance(buyer1), 500_0000000);
    assert_eq!(t.balance(buyer2), 300_0000000);
}

#[test]
fn test_agent_pool_accumulation() {
    let mut t = setup();
    let amount1: i128 = 1_000_0000000;
    let amount2: i128 = 2_000_0000000;
    let swap1 = t
        .request_buy(BUYER, BUYER, amount1, YIELD_TOKEN, 0)
        .unwrap();
    t.fulfill_swap(ADMIN, swap1, amount1).unwrap();
    let swap2 = t
        .request_buy(BUYER, BUYER, amount2, YIELD_TOKEN, 0)
        .unwrap();
    t.fulfill_swap(ADMIN, swap2, amount2).unwrap();
    let expected_pool = (amount1 + amount2) * 20 / 100;
    assert_eq!(t.agent_pool_balance(), expected_pool);
}

#[test]
fn initialize_reports_already_initialized_without_panicking() {
    let mut t = setup();
    assert_eq!(
        t.initialize(ADMIN, FOUNDER, YIELD_TOKEN, CHAINLINK, BAND),
        Err(SaiError::AlreadyInitialized)
    );
    // The failed call changed nothing.
    assert_eq!(t.balance(FOUNDER), INITIAL_SUPPLY);
    assert_eq!(t.total_supply(), INITIAL_SUPPLY);
}

#[test]
fn balances_always_add_up_to_total_supply() {
    let mut t = setup();
    let a: u64 = 21;
    let b: u64 = 22;
    t.transfer(FOUNDER, FOUNDER, a, 123_4567890).unwrap();
    t.transfer(FOUNDER, FOUNDER, b, 7).unwrap();
    t.transfer(a, a, b, 67890).unwrap();
    assert_eq!(
        t.balance(FOUNDER) + t.balance(a) + t.balance(b),
        t.total_supply()
    );
    let swap = t.request_buy(BUYER, BUYER, 1000, YIELD_TOKEN, 0).unwrap();
    t.fulfill_swap(ADMIN, swap, 1000).unwrap();
    assert_eq!(
        t.balance(FOUNDER) + t.balance(a) + t.balance(b) + t.balance(BUYER),
        t.total_supply()
    );
}

#[test]
fn transfer_to_self_changes_nothing() {
    let mut t = setup();
    t.transfer(FOUNDER, FOUNDER, FOUNDER, 1_0000000).unwrap();
    assert_eq!(t.balance(FOUNDER), INITIAL_SUPPLY);
    assert_eq!(t.total_supply(), INITIAL_SUPPLY);
}

#[test]
fn fulfillment_recheck_keeps_supply_under_cap() {
    let mut t = setup();
    let headroom = MAX_SUPPLY - INITIAL_SUPPLY;
    // Both requests pass the headroom check against the same supply; the
    // cap is validated, not reserved.
    let swap1 = t
        .request_buy(BUYER, BUYER, headroom, YIELD_TOKEN, 0)
        .unwrap();
    let swap2 = t
        .request_buy(BUYER, BUYER, headroom, YIELD_TOKEN, 0)
        .unwrap();
    t.fulfill_swap(ADMIN, swap1, headroom).unwrap();
    assert_eq!(t.total_supply(), MAX_SUPPLY);
    // Fulfillment re-checks the cap, so the supply never exceeds it.
    assert_eq!(
        t.fulfill_swap(ADMIN, swap2, headroom),
        Err(SaiError::ExceedsMaxSupply)
    );
    assert_eq!(t.total_supply(), MAX_SUPPLY);
    assert_eq!(t.pending_swaps_count(), 1);
}

#[test]
fn settlement_mirrors_request_exactly() {
    let mut t = setup();
    let amount: i128 = 333;
    let pool_before = t.agent_pool_balance();
    let supply_before = t.total_supply();
    let swap = t
        .request_buy(BUYER, BUYER, amount, YIELD_TOKEN, 42)
        .unwrap();
    let pending_after_request = t.pending_swaps_count();
    t.fulfill_swap(ADMIN, swap, amount).unwrap();
    assert_eq!(t.balance(BUYER), amount);
    assert_eq!(t.agent_pool_balance(), pool_before + amount * 20 / 100);
    assert_eq!(t.pending_swaps_count(), pending_after_request - 1);
    assert_eq!(t.total_supply(), supply_before + amount);
}

#[test]
fn guard_is_released_on_every_exit_path() {
    let mut t = setup();
    // A request that fails after the guard was taken...
    assert_eq!(
        t.request_buy(BUYER, BUYER, MAX_SUPPLY, YIELD_TOKEN, 0),
        Err(SaiError::ExceedsMaxSupply)
    );
    // ...and a fulfillment that fails after the guard was taken...
    assert_eq!(
        t.fulfill_swap(ADMIN, 77, 1),
        Err(SaiError::SwapNotFound)
    );
    // ...both leave the guard clear, so guarded operations still run.
    assert!(t.request_buy(BUYER, BUYER, 1000, YIELD_TOKEN, 0).is_ok());
    assert!(t.fulfill_swap(ADMIN, 1, 1000).is_ok());
}

#[test]
fn error_inputs_are_rejected() {
    let mut t = setup();
    assert_eq!(
        t.transfer(FOUNDER, FOUNDER, 7, 0),
        Err(SaiError::InvalidAmount)
    );
    assert_eq!(
        t.request_buy(BUYER, BUYER, -5, YIELD_TOKEN, 0),
        Err(SaiError::InvalidAmount)
    );
    assert_eq!(
        t.transfer(BUYER, FOUNDER, 7, 1),
        Err(SaiError::Unauthorized)
    );
    assert_eq!(
        t.request_buy(FOUNDER, BUYER, 1, YIELD_TOKEN, 0),
        Err(SaiError::Unauthorized)
    );
    assert_eq!(t.fulfill_swap(BUYER, 1, 1), Err(SaiError::Unauthorized));
    assert_eq!(t.pause(BUYER), Err(SaiError::Unauthorized));
    assert_eq!(t.unpause(BUYER), Err(SaiError::Unauthorized));
    assert_eq!(t.fulfill_swap(ADMIN, 99, 1), Err(SaiError::SwapNotFound));
    assert_eq!(
        t.request_buy(BUYER, BUYER, i128::MAX, YIELD_TOKEN, 0),
        Err(SaiError::ArithmeticOverflow)
    );
}

#[test]
fn operations_before_initialization_are_refused() {
    let mut t = SuperAIToken::new();
    assert_eq!(t.fulfill_swap(ADMIN, 1, 1), Err(SaiError::Unauthorized));
    assert_eq!(t.pause(ADMIN), Err(SaiError::Unauthorized));
    assert_eq!(t.unpause(ADMIN), Err(SaiError::Unauthorized));
    assert_eq!(
        t.transfer(FOUNDER, FOUNDER, 7, 1),
        Err(SaiError::InsufficientBalance)
    );
    assert_eq!(t.total_supply(), 0);
}

#[test]
fn genesis_scenario_settles_exactly() {
    // Initialize with a supply of one hundred million units; a buyer
    // requests a thousand units; fulfillment with identifier one credits
    // the buyer, allocates a fifth to the pool and grows the supply.
    let mut t = SuperAIToken::new();
    t.initialize(ADMIN, FOUNDER, YIELD_TOKEN, CHAINLINK, BAND)
        .unwrap();
    assert_eq!(t.total_supply(), 100_000_000_0000000);
    let swap_id = t
        .request_buy(BUYER, BUYER, 1_000_0000000, YIELD_TOKEN, 0)
        .unwrap();
    assert_eq!(swap_id, 1);
    assert_eq!(t.pending_swaps_count(), 1);
    t.fulfill_swap(ADMIN, 1, 1_000_0000000).unwrap();
    assert_eq!(t.balance(BUYER), 1_000_0000000);
    assert_eq!(t.agent_pool_balance(), 200_0000000);
    assert_eq!(t.pending_swaps_count(), 0);
    assert_eq!(t.total_supply(), 100_001_000_0000000);
}

#[test]
fn token_metadata_is_fixed() {
    let t = SuperAIToken::new();
    assert_eq!(t.decimals(), 7);
    assert_eq!(t.name(), "Super AI");
    assert_eq!(t.symbol(), "sAI");
}
