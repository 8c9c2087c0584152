use fair_launch::identifiers::Timestamp;
use fair_launch::pool::{PoolError, PoolInfo};
use fair_launch::swap::{GraduationOutcome, SwapError, SwapState};
use fair_launch::types::{Message, SwapOperation};
use fair_launch::uint256::U256;
use fair_launch::views::PoolInfoGQL;

fn n(v: u64) -> U256 {
    U256::from(v)
}

fn started() -> (SwapState, Timestamp) {
    let mut state = SwapState::new();
    let created_at = Timestamp::from(1234567890);
    state.initialize(created_at);
    (state, created_at)
}

#[test]
fn test_state_initialization() {
    let mut state = SwapState::new();

    let created_at = Timestamp::from(1234567890);
    state.initialize(created_at);

    assert_eq!(state.total_pools, 0);
    assert_eq!(state.total_tvl, U256::zero());
}

#[test]
fn test_graduation_pool_creation() {
    let mut state = SwapState::new();
    let created_at = Timestamp::from(1234567890);
    state.initialize(created_at);

    let token_id = "test-token-graduation".to_string();
    let total_supply = n(1_000_000_000);
    let total_raised = n(69_000);

    let pool = state.create_pool(token_id.clone(), total_supply, total_raised, created_at).unwrap();

    assert_eq!(pool.token_id, token_id);
    assert_eq!(pool.token_liquidity, total_supply);
    assert_eq!(pool.base_liquidity, total_raised);
    assert!(pool.is_locked);
    assert_eq!(pool.lock_expires_at, None);

    let retrieved = state.get_pool_by_token(&token_id).unwrap();
    assert_eq!(retrieved.pool_id, pool.pool_id);

    assert_eq!(state.total_pools, 1);
    assert_eq!(state.total_tvl, pool.tvl);
}

#[test]
fn test_idempotent_graduation() {
    let mut state = SwapState::new();
    let created_at = Timestamp::from(1234567890);
    state.initialize(created_at);

    let token_id = "test-token-idempotent".to_string();
    let total_supply = n(1_000_000);
    let total_raised = n(10_000);

    let pool1 = state.create_pool(token_id.clone(), total_supply, total_raised, created_at).unwrap();

    let result = state.create_pool(token_id.clone(), total_supply, total_raised, created_at);

    assert!(result.is_err());
    assert_eq!(result, Err(PoolError::AlreadyExists));

    assert_eq!(state.total_pools, 1);

    let pool2 = state.get_pool_by_token(&token_id).unwrap();
    assert_eq!(pool1.pool_id, pool2.pool_id);
    assert_eq!(pool1.token_liquidity, pool2.token_liquidity);
}

#[test]
fn test_multiple_graduations() {
    let mut state = SwapState::new();
    let created_at = Timestamp::from(1234567890);
    state.initialize(created_at);

    for i in 0..3u64 {
        let token_id = format!("token-{}", i);
        let total_supply = n(1_000_000 * (i + 1));
        let total_raised = n(10_000 * (i + 1));

        state.create_pool(token_id.clone(), total_supply, total_raised, created_at).unwrap();
    }

    assert_eq!(state.total_pools, 3);

    for i in 0..3 {
        let token_id = format!("token-{}", i);
        let pool = state.get_pool_by_token(&token_id).unwrap();
        assert_eq!(pool.token_id, token_id);
        assert!(pool.is_locked);
    }
}

#[test]
fn test_invalid_graduation_zero_supply() {
    let mut state = SwapState::new();
    let created_at = Timestamp::from(1234567890);
    state.initialize(created_at);

    let token_id = "invalid-token".to_string();
    let result = state.create_pool(token_id, U256::zero(), n(1000), created_at);

    assert!(result.is_err());
    assert_eq!(result, Err(PoolError::ZeroSupply));
    assert_eq!(state.total_pools, 0);
}

#[test]
fn test_invalid_graduation_zero_raised() {
    let mut state = SwapState::new();
    let created_at = Timestamp::from(1234567890);
    state.initialize(created_at);

    let token_id = "invalid-token".to_string();
    let result = state.create_pool(token_id, n(1000), U256::zero(), created_at);

    assert!(result.is_err());
    assert_eq!(result, Err(PoolError::ZeroRaised));
    assert_eq!(state.total_pools, 0);
}

#[test]
fn test_pool_creation() {
    let token_id = "test-token-123".to_string();
    let total_supply = n(1_000_000_000);
    let total_raised = n(69_000);
    let created_at = Timestamp::from(1234567890);

    let pool = PoolInfo::new(token_id.clone(), total_supply, total_raised, created_at).unwrap();

    assert_eq!(pool.token_id, token_id);
    assert_eq!(pool.pool_id, format!("pool-{}", token_id));
    assert_eq!(pool.token_liquidity, total_supply);
    assert_eq!(pool.base_liquidity, total_raised);
    assert!(pool.is_locked);
    assert_eq!(pool.lock_expires_at, None);
    assert_eq!(pool.trade_count, 0);
    assert_eq!(pool.tvl, total_raised * n(2));
    assert_eq!(pool.created_at, created_at);
    assert_eq!(pool.initial_ratio, n(69));
}

#[test]
fn state_test_pool_creation_validation() {
    let token_id = "test-token".to_string();
    let created_at = Timestamp::from(0);

    let result = PoolInfo::new(token_id.clone(), U256::zero(), n(1000), created_at);
    assert!(result.is_err());

    let result = PoolInfo::new(token_id.clone(), n(1000), U256::zero(), created_at);
    assert!(result.is_err());
}

#[test]
fn test_swap_state_initialization() {
    let mut state = SwapState::new();

    let created_at = Timestamp::from(1234567890);
    state.initialize(created_at);

    assert_eq!(state.total_pools, 0);
    assert_eq!(state.total_tvl, U256::zero());
    assert_eq!(state.created_at, created_at);
}

#[test]
fn test_create_and_get_pool() {
    let mut state = SwapState::new();
    let created_at = Timestamp::from(1234567890);
    state.initialize(created_at);

    let token_id = "test-token-456".to_string();
    let total_supply = n(1_000_000);
    let total_raised = n(10_000);

    let pool = state.create_pool(token_id.clone(), total_supply, total_raised, created_at).unwrap();

    assert_eq!(pool.token_id, token_id);
    assert_eq!(state.total_pools, 1);

    let retrieved = state.get_pool(&pool.pool_id).unwrap();
    assert_eq!(retrieved.token_id, token_id);
    assert_eq!(retrieved, pool);

    let retrieved = state.get_pool_by_token(&token_id).unwrap();
    assert_eq!(retrieved.pool_id, pool.pool_id);

    assert!(state.has_pool(&token_id));
    assert!(!state.has_pool("pool-test-token-456"));
    assert_eq!(state.get_pool("test-token-456"), None);
    assert_eq!(state.get_pool_by_token("other"), None);
}

#[test]
fn test_duplicate_pool_prevention() {
    let mut state = SwapState::new();
    let created_at = Timestamp::from(1234567890);
    state.initialize(created_at);

    let token_id = "test-token-duplicate".to_string();
    let total_supply = n(1_000_000);
    let total_raised = n(10_000);

    state.create_pool(token_id.clone(), total_supply, total_raised, created_at).unwrap();

    let result = state.create_pool(token_id.clone(), total_supply, total_raised, created_at);

    assert!(result.is_err());
}

#[test]
fn test_get_all_pools_pagination() {
    let mut state = SwapState::new();
    let created_at = Timestamp::from(1234567890);
    state.initialize(created_at);

    for i in 0..5 {
        let token_id = format!("token-{}", i);
        state.create_pool(token_id, n(1_000_000), n(10_000), created_at).unwrap();
    }

    let pools = state.get_all_pools(0, 3);
    assert_eq!(pools.len(), 3);
    assert_eq!(pools[0].token_id, "token-0");
    assert_eq!(pools[2].token_id, "token-2");

    let pools = state.get_all_pools(3, 5);
    assert_eq!(pools.len(), 2);
    assert_eq!(pools[1].token_id, "token-4");

    let pools = state.get_all_pools(0, 100);
    assert_eq!(pools.len(), 5);
}

#[test]
fn test_pool_price_calculation() {
    let token_id = "test-token".to_string();
    let total_supply = n(1_000_000_000);
    let total_raised = n(69_000);
    let created_at = Timestamp::from(0);

    let pool = PoolInfo::new(token_id, total_supply, total_raised, created_at).unwrap();

    let price = pool.current_price();
    assert!(price > U256::zero());

    let expected_ratio = (total_raised * n(1_000_000)) / total_supply;
    assert_eq!(price, expected_ratio);
}

#[test]
fn test_end_to_end_graduation_flow() {
    let mut state = SwapState::new();
    let created_at = Timestamp::from(1234567890);
    state.initialize(created_at);

    let token_id = "token-abc-123".to_string();
    let total_supply = n(1_000_000_000);
    let total_raised = n(69_000);

    let pool = state.create_pool(token_id.clone(), total_supply, total_raised, created_at).unwrap();

    assert_eq!(pool.token_id, token_id);
    assert_eq!(pool.token_liquidity, total_supply);
    assert_eq!(pool.base_liquidity, total_raised);
    assert!(pool.is_locked);
    assert_eq!(pool.lock_expires_at, None);

    let retrieved_pool = state.get_pool_by_token(&token_id).unwrap();
    assert_eq!(retrieved_pool.pool_id, pool.pool_id);

    assert_eq!(state.total_pools, 1);
    assert_eq!(state.total_tvl, pool.tvl);

    assert!(state.has_pool(&token_id));
}

#[test]
fn test_multiple_token_graduations() {
    let mut state = SwapState::new();
    let created_at = Timestamp::from(1234567890);
    state.initialize(created_at);

    let mut expected_total_tvl = U256::zero();

    for i in 0..10u64 {
        let token_id = format!("token-{}", i);
        let total_supply = n(1_000_000 * (i + 1));
        let total_raised = n(10_000 * (i + 1));

        let pool = state.create_pool(token_id.clone(), total_supply, total_raised, created_at).unwrap();

        expected_total_tvl = expected_total_tvl + pool.tvl;

        assert_eq!(pool.token_id, token_id);
        assert!(pool.is_locked);
        assert_eq!(pool.lock_expires_at, None);
    }

    assert_eq!(state.total_pools, 10);
    assert_eq!(state.total_tvl, expected_total_tvl);

    for i in 0..10 {
        let token_id = format!("token-{}", i);
        let pool = state.get_pool_by_token(&token_id);
        assert!(pool.is_some());
    }
}

#[test]
fn test_idempotent_graduation_handling() {
    let mut state = SwapState::new();
    let created_at = Timestamp::from(1234567890);
    state.initialize(created_at);

    let token_id = "duplicate-token".to_string();
    let total_supply = n(5_000_000);
    let total_raised = n(25_000);

    let pool1 = state.create_pool(token_id.clone(), total_supply, total_raised, created_at).unwrap();

    let initial_tvl = state.total_tvl;

    let result = state.create_pool(token_id.clone(), total_supply, total_raised, created_at);

    assert!(result.is_err());

    assert_eq!(state.total_pools, 1);
    assert_eq!(state.total_tvl, initial_tvl);

    let pool2 = state.get_pool_by_token(&token_id).unwrap();
    assert_eq!(pool1.pool_id, pool2.pool_id);
    assert_eq!(pool1.token_liquidity, pool2.token_liquidity);
    assert_eq!(pool1.base_liquidity, pool2.base_liquidity);
}

#[test]
fn test_pool_liquidity_ratio_calculation() {
    let mut state = SwapState::new();
    let created_at = Timestamp::from(1234567890);
    state.initialize(created_at);

    let token_id = "ratio-test-token".to_string();
    let total_supply = n(1_000_000_000);
    let total_raised = n(100_000);

    let pool = state.create_pool(token_id.clone(), total_supply, total_raised, created_at).unwrap();

    let expected_ratio = (total_raised * n(1_000_000)) / total_supply;
    assert_eq!(pool.initial_ratio, expected_ratio);

    assert_eq!(pool.current_price(), pool.initial_ratio);

    assert_eq!(pool.tvl, total_raised * n(2));
}

#[test]
fn test_pool_pagination() {
    let mut state = SwapState::new();
    let created_at = Timestamp::from(1234567890);
    state.initialize(created_at);

    for i in 0..25 {
        let token_id = format!("pagination-token-{}", i);
        state.create_pool(token_id, n(1_000_000), n(10_000), created_at).unwrap();
    }

    let page1 = state.get_all_pools(0, 10);
    assert_eq!(page1.len(), 10);

    let page2 = state.get_all_pools(10, 10);
    assert_eq!(page2.len(), 10);

    let page3 = state.get_all_pools(20, 10);
    assert_eq!(page3.len(), 5);

    let page_empty = state.get_all_pools(100, 10);
    assert_eq!(page_empty.len(), 0);

    let mut all_pool_ids = std::collections::HashSet::new();
    for pool in page1.iter().chain(page2.iter()).chain(page3.iter()) {
        assert!(all_pool_ids.insert(pool.pool_id.clone()));
    }
    assert_eq!(all_pool_ids.len(), 25);
}

#[test]
fn test_edge_case_minimum_liquidity() {
    let mut state = SwapState::new();
    let created_at = Timestamp::from(1234567890);
    state.initialize(created_at);

    let token_id = "minimum-liquidity".to_string();
    let total_supply = n(1);
    let total_raised = n(1);

    let pool = state.create_pool(token_id.clone(), total_supply, total_raised, created_at).unwrap();

    assert_eq!(pool.token_liquidity, n(1));
    assert_eq!(pool.base_liquidity, n(1));
    assert_eq!(pool.tvl, n(2));
}

#[test]
fn test_concurrent_pool_queries() {
    let mut state = SwapState::new();
    let created_at = Timestamp::from(1234567890);
    state.initialize(created_at);

    for i in 0..10u64 {
        let token_id = format!("concurrent-token-{}", i);
        state
            .create_pool(token_id, n(1_000_000 * (i + 1)), n(10_000 * (i + 1)), created_at)
            .unwrap();
    }

    let state = std::sync::Arc::new(state);

    let mut results = vec![];
    for i in 0..10 {
        let state_clone = std::sync::Arc::clone(&state);
        let token_id = format!("concurrent-token-{}", i);

        results.push(state_clone.get_pool_by_token(&token_id));
    }

    for result in results {
        assert!(result.is_some());
    }
}

#[test]
fn tests_test_pool_creation_validation() {
    let created_at = Timestamp::from(1234567890);

    let result = PoolInfo::new("test".to_string(), U256::zero(), n(1000), created_at);
    assert!(result.is_err());
    assert!(result.unwrap_err().to_string().contains("supply"));

    let result = PoolInfo::new("test".to_string(), n(1000), U256::zero(), created_at);
    assert!(result.is_err());
    assert!(result.unwrap_err().to_string().contains("raised"));

    let result = PoolInfo::new("test".to_string(), n(1000), n(500), created_at);
    assert!(result.is_ok());
}

#[test]
fn test_tvl_accumulation() {
    let mut state = SwapState::new();
    let created_at = Timestamp::from(1234567890);
    state.initialize(created_at);

    let mut expected_tvl = U256::zero();

    let pools_data = vec![
        (n(1_000_000), n(10_000)),
        (n(2_000_000), n(20_000)),
        (n(3_000_000), n(30_000)),
    ];

    for (i, (supply, raised)) in pools_data.iter().enumerate() {
        let token_id = format!("tvl-token-{}", i);
        let pool = state.create_pool(token_id, *supply, *raised, created_at).unwrap();

        expected_tvl = expected_tvl + pool.tvl;
        assert_eq!(state.total_tvl, expected_tvl);
    }

    let final_tvl = state.total_tvl;
    assert_eq!(final_tvl, expected_tvl);
    assert_eq!(final_tvl, n(2) * (n(10_000) + n(20_000) + n(30_000)));
}

#[test]
fn pool_that_does_not_fit_is_refused() {
    let mut state = SwapState::new();
    let created_at = Timestamp::from(1234567890);
    state.initialize(created_at);
    let quarter = U256::max_value() / n(4);
    assert_eq!(
        state.create_pool("big".to_string(), quarter, quarter, created_at),
        Err(PoolError::AmountConversionError)
    );
    assert_eq!(state.total_pools, 0);
    assert!(!state.has_pool("big"));
    let fits = U256::max_value() / n(1_000_000);
    let pool = state.create_pool("big".to_string(), n(7), fits, created_at).unwrap();
    assert_eq!(pool.initial_ratio, (fits * n(1_000_000)) / n(7));
    // the total of the actor has no room for a second one as large
    assert_eq!(
        state.create_pool("bigger".to_string(), n(7), fits, created_at),
        Ok(PoolInfo::new("bigger".to_string(), n(7), fits, created_at).unwrap())
    );
    let mut full = SwapState::new();
    full.total_tvl = U256::max_value();
    assert_eq!(
        full.create_pool("t".to_string(), n(1), n(1), created_at),
        Err(PoolError::AmountConversionError)
    );
    full.total_tvl = U256::zero();
    full.total_pools = u64::MAX;
    assert_eq!(
        full.create_pool("t".to_string(), n(1), n(1), created_at),
        Err(PoolError::AmountConversionError)
    );
    assert_eq!(PoolError::AlreadyExists.to_string(), "Pool already exists for token");
    assert_eq!(PoolError::AmountConversionError.to_string(), "Amount conversion error");
}

#[test]
fn graduation_message_twice_makes_one_pool() {
    let (mut state, now) = started();
    let ack = Message::PoolCreated {
        token_id: "launch-X".to_string(),
        pool_id: "pool-launch-X".to_string(),
    };
    let first = state.handle_graduation("launch-X".to_string(), n(1_000_000), n(10_000), now);
    assert_eq!(first, GraduationOutcome::Created(ack.clone()));
    assert_eq!(state.total_pools, 1);
    assert_eq!(state.total_tvl, n(20_000));
    let pool = state.get_pool("pool-launch-X").unwrap();

    let second = state.handle_graduation(
        "launch-X".to_string(),
        n(1_000_000),
        n(10_000),
        Timestamp(now.0 + 1),
    );
    assert_eq!(second, GraduationOutcome::Duplicate(ack.clone()));
    assert_eq!(state.total_pools, 1);
    assert_eq!(state.total_tvl, n(20_000));
    assert_eq!(state.get_all_pools(0, 10), vec![pool.clone()]);

    // other totals for the same launch change nothing either
    let third = state.handle_graduation("launch-X".to_string(), n(5), n(5), now);
    assert_eq!(third, GraduationOutcome::Duplicate(ack));
    assert_eq!(state.get_pool_by_token("launch-X"), Some(pool));

    // what cannot be served is dropped
    assert_eq!(
        state.handle_graduation("launch-Y".to_string(), U256::zero(), n(5), now),
        GraduationOutcome::Dropped(PoolError::ZeroSupply)
    );
    assert_eq!(
        state.handle_graduation("launch-Y".to_string(), n(5), U256::zero(), now),
        GraduationOutcome::Dropped(PoolError::ZeroRaised)
    );
    assert_eq!(
        state.handle_graduation("launch-X".to_string(), U256::zero(), U256::zero(), now),
        GraduationOutcome::Dropped(PoolError::ZeroSupply)
    );
    assert_eq!(
        state.handle_graduation("launch-Y".to_string(), n(5), U256::max_value(), now),
        GraduationOutcome::Dropped(PoolError::AmountConversionError)
    );
    assert_eq!(state.total_pools, 1);

    // through the message handler
    let out = state.execute_message(
        Message::GraduateToken {
            token_id: "launch-Z".to_string(),
            total_supply: n(10),
            total_raised: n(20),
        },
        now,
    );
    assert_eq!(
        out,
        Some(GraduationOutcome::Created(Message::PoolCreated {
            token_id: "launch-Z".to_string(),
            pool_id: "pool-launch-Z".to_string(),
        }))
    );
    assert_eq!(state.total_pools, 2);
    assert_eq!(
        state.execute_message(
            Message::PoolCreated { token_id: "a".to_string(), pool_id: "b".to_string() },
            now
        ),
        None
    );
    assert_eq!(state.total_pools, 2);
}

#[test]
fn swap_follows_the_constant_product_rule() {
    let (mut state, now) = started();
    state.create_pool("t".to_string(), n(1_000_000), n(10_000), now).unwrap();
    let id = "pool-t".to_string();

    // 1000 * 10_000 / (1_000_000 + 1000) = 9.99 -> 9
    state.execute_swap(id.clone(), "t".to_string(), n(1_000), n(9)).unwrap();
    let pool = state.get_pool(&id).unwrap();
    assert_eq!(pool.token_liquidity, n(1_001_000));
    assert_eq!(pool.base_liquidity, n(9_991));
    assert_eq!(pool.trade_count, 1);
    assert_eq!(pool.tvl, n(20_000));
    assert!(pool.is_locked);
    assert_eq!(pool.current_price(), n(9_981));

    // 500_000 * 9_991 / 1_501_000 = 3328.1 -> 3328, one short of what is asked
    let before = state.get_pool(&id).unwrap();
    assert_eq!(
        state.execute_swap(id.clone(), "t".to_string(), n(500_000), n(3_329)),
        Err(SwapError::SlippageExceeded { got: n(3_328), min: n(3_329) })
    );
    assert_eq!(state.get_pool(&id).unwrap(), before);
    state.execute_swap(id.clone(), "t".to_string(), n(500_000), n(3_328)).unwrap();
    let pool = state.get_pool(&id).unwrap();
    assert_eq!(pool.token_liquidity, n(1_501_000));
    assert_eq!(pool.base_liquidity, n(6_663));
    assert_eq!(pool.trade_count, 2);

    assert_eq!(
        state.execute_swap(id.clone(), "t".to_string(), U256::zero(), U256::zero()),
        Err(SwapError::InvalidAmount)
    );
    assert_eq!(
        state.execute_swap("pool-x".to_string(), "t".to_string(), n(1), U256::zero()),
        Err(SwapError::PoolNotFound("pool-x".to_string()))
    );
    assert_eq!(
        state.execute_swap(id.clone(), "t".to_string(), U256::max_value(), U256::zero()),
        Err(SwapError::AmountConversionError)
    );
    assert_eq!(state.get_pool(&id).unwrap(), pool);
    assert_eq!(state.total_pools, 1);
    assert_eq!(state.total_tvl, n(20_000));

    // through the operation handler
    assert_eq!(
        state.execute_operation(SwapOperation::Swap {
            pool_id: id.clone(),
            token_in: "t".to_string(),
            amount_in: n(1),
            min_amount_out: U256::zero(),
        }),
        Ok(())
    );
    assert_eq!(state.get_pool(&id).unwrap().trade_count, 3);
}

#[test]
fn liquidity_is_never_added() {
    let (mut state, now) = started();
    state.create_pool("t".to_string(), n(1_000_000), n(10_000), now).unwrap();
    assert_eq!(
        state.add_liquidity("pool-t".to_string(), n(1), n(1)),
        Err(SwapError::PoolLocked)
    );
    assert_eq!(
        state.add_liquidity("pool-t".to_string(), U256::zero(), n(1)),
        Err(SwapError::PoolLocked)
    );
    assert_eq!(
        state.add_liquidity("pool-t".to_string(), n(1), U256::zero()),
        Err(SwapError::PoolLocked)
    );
    assert_eq!(
        state.add_liquidity("pool-u".to_string(), n(1), n(1)),
        Err(SwapError::PoolLocked)
    );
    assert_eq!(
        SwapState::new().add_liquidity(String::new(), U256::zero(), U256::zero()),
        Err(SwapError::PoolLocked)
    );
    assert_eq!(
        state.execute_operation(SwapOperation::AddLiquidity {
            pool_id: "pool-t".to_string(),
            token_amount: n(5),
            base_amount: n(5),
        }),
        Err(SwapError::PoolLocked)
    );
    assert_eq!(
        state.execute_operation(SwapOperation::AddLiquidity {
            pool_id: "pool-u".to_string(),
            token_amount: U256::zero(),
            base_amount: n(5),
        }),
        Err(SwapError::PoolLocked)
    );
    let pool = state.get_pool("pool-t").unwrap();
    assert_eq!(pool.token_liquidity, n(1_000_000));
    assert_eq!(pool.base_liquidity, n(10_000));
    assert_eq!(pool.trade_count, 0);
    assert_eq!(pool.tvl, n(20_000));
    assert_eq!(state.total_pools, 1);
    assert_eq!(state.total_tvl, n(20_000));
}

#[test]
fn pool_as_it_is_shown() {
    let pool = PoolInfo::new("t".to_string(), n(1_000_000), n(10_000), Timestamp(77)).unwrap();
    let shown = PoolInfoGQL::from(&pool);
    assert_eq!(shown.pool_id, "pool-t");
    assert_eq!(shown.token_id, "t");
    assert_eq!(shown.token_liquidity, "1000000");
    assert_eq!(shown.base_liquidity, "10000");
    assert_eq!(shown.initial_ratio, "10000");
    assert_eq!(shown.created_at, "77");
    assert!(shown.is_locked);
    assert_eq!(shown.lock_expires_at, None);
    assert_eq!(shown.trade_count, 0);
    assert_eq!(shown.tvl, "20000");
}

#[test]
fn test_edge_case_maximum_liquidity() {
    let mut state = SwapState::new();
    let created_at = Timestamp::from(1234567890);
    state.initialize(created_at);

    // A quarter of the greatest number: its ratio, scaled by a million,
    // is beyond 256 bits, so the pool is refused and nothing changes.
    let token_id = "maximum-liquidity".to_string();
    let total_supply = U256::max_value() / n(4);
    let total_raised = U256::max_value() / n(4);

    let refused = state.create_pool(token_id.clone(), total_supply, total_raised, created_at);
    assert_eq!(refused, Err(PoolError::AmountConversionError));
    assert_eq!(state.total_pools, 0);
    assert!(!state.has_pool(&token_id));

    // The greatest totals that make a pool.
    let total_supply = U256::max_value() / n(1_000_000);
    let total_raised = U256::max_value() / n(1_000_000);
    let pool = state.create_pool(token_id.clone(), total_supply, total_raised, created_at).unwrap();

    assert_eq!(pool.token_liquidity, total_supply);
    assert_eq!(pool.base_liquidity, total_raised);
    assert!(pool.tvl > U256::zero());
    assert_eq!(pool.tvl, total_raised * n(2));
    assert_eq!(pool.initial_ratio, n(1_000_000));

    let beyond = total_raised + n(1);
    assert_eq!(
        PoolInfo::new("other".to_string(), total_supply, beyond, created_at),
        Err(PoolError::AmountConversionError)
    );
}
