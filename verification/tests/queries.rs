use fair_launch::amount::Amount;
use fair_launch::factory::FactoryState;
use fair_launch::identifiers::{Account, AccountOwner, ChainId, Timestamp};
use fair_launch::listing::{capped_limit, page_limit, page_offset};
use fair_launch::payments::CallContext;
use fair_launch::pool::PoolInfo;
use fair_launch::pool_queries::{rank_pools, LockedLiquiditySummary, SwapStats};
use fair_launch::registry_queries::{holds_query, FactoryStats};
use fair_launch::samples::{create_test_metadata, test_config, test_metadata};
use fair_launch::swap::SwapState;
use fair_launch::token::TokenState;
use fair_launch::token_queries::{price_impact, to_u64, BuySellQuote};
use fair_launch::types::BondingCurveConfig;
use fair_launch::uint256::U256;

fn n(v: u64) -> U256 {
    U256::from(v)
}

fn root(index: u64) -> Account {
    Account::new(ChainId(n(index)), AccountOwner::chain())
}

#[test]
fn test_stats_query() {
    let mut state = SwapState::new();
    let created_at = Timestamp::from(1234567890);
    state.initialize(created_at);

    for i in 0..3 {
        let token_id = format!("token-{}", i);
        state.create_pool(token_id, n(1_000_000), n(10_000), created_at).unwrap();
    }

    let stats = state.stats();
    assert_eq!(stats.total_pools, 3);
    assert!(U256::from_dec_str(&stats.total_tvl).unwrap() > U256::zero());
    assert_eq!(
        stats,
        SwapStats {
            total_pools: 3,
            total_tvl: "60000".to_string(),
            average_pool_tvl: "20000".to_string(),
        }
    );
    assert_eq!(
        SwapState::new().stats(),
        SwapStats { total_pools: 0, total_tvl: "0".to_string(), average_pool_tvl: "0".to_string() }
    );
}

#[test]
fn test_pool_queries() {
    let mut state = SwapState::new();
    let created_at = Timestamp::from(1234567890);
    state.initialize(created_at);

    let token_id = "test-token-query".to_string();
    let pool = state.create_pool(token_id.clone(), n(1_000_000), n(10_000), created_at).unwrap();

    let now = Timestamp(created_at.0 + 7_500_000);
    let result = state.pool(&pool.pool_id, now);
    assert!(result.is_some());
    let details = result.unwrap();
    assert_eq!(details.pool.token_id, token_id);
    assert!(details.is_active);
    assert_eq!(details.age_seconds, 7);

    let result = state.pool_by_token(&token_id, Timestamp(0));
    assert!(result.is_some());
    let details = result.unwrap();
    assert_eq!(details.pool.pool_id, pool.pool_id);
    assert_eq!(details.age_seconds, 0);

    assert!(state.has_graduated(&token_id));
    assert!(!state.has_graduated("non-existent"));
    assert_eq!(state.pool("non-existent", now), None);
    assert_eq!(state.pool_by_token("non-existent", now), None);
}

#[test]
fn test_pool_listing() {
    let mut state = SwapState::new();
    let created_at = Timestamp::from(1234567890);
    state.initialize(created_at);

    for i in 0..5u64 {
        let token_id = format!("token-{}", i);
        state
            .create_pool(token_id, n(1_000_000 * (i + 1)), n(10_000 * (i + 1)), created_at)
            .unwrap();
    }

    let pools = state.pools(Some(0), Some(3));
    assert_eq!(pools.len(), 3);

    let pools = state.pools(Some(3), Some(10));
    assert_eq!(pools.len(), 2);
    assert_eq!(pools[0].token_id, "token-3");

    let pools = state.pools(None, Some(100));
    assert_eq!(pools.len(), 5);

    assert_eq!(state.pools(Some(-4), Some(-4)).len(), 1);
    assert_eq!(state.pools(Some(9), None).len(), 0);

    let recent = state.recent_pools(Some(2));
    assert_eq!(recent.len(), 2);
    assert_eq!(recent[0].token_id, "token-1");
    assert_eq!(recent[1].token_id, "token-0");
}

#[test]
fn test_top_pools_by_tvl() {
    let mut state = SwapState::new();
    let created_at = Timestamp::from(1234567890);
    state.initialize(created_at);

    let tvls: Vec<u64> = vec![100_000, 50_000, 200_000, 75_000, 150_000];
    for (i, &tvl) in tvls.iter().enumerate() {
        let token_id = format!("token-{}", i);
        state.create_pool(token_id, n(1_000_000), n(tvl / 2), created_at).unwrap();
    }

    let top_pools = state.top_pools_by_tvl(Some(3));
    assert_eq!(top_pools.len(), 3);

    assert!(top_pools[0].tvl >= top_pools[1].tvl);
    assert!(top_pools[1].tvl >= top_pools[2].tvl);
    assert_eq!(top_pools[0].tvl, "200000");
    assert_eq!(top_pools[1].tvl, "150000");
    assert_eq!(top_pools[2].tvl, "100000");

    let all = state.top_pools_by_tvl(Some(50));
    let order: Vec<&str> = all.iter().map(|p| p.token_id.as_str()).collect();
    assert_eq!(order, vec!["token-2", "token-4", "token-0", "token-3", "token-1"]);
    assert_eq!(state.top_pools_by_tvl(Some(0)).len(), 1);
}

#[test]
fn ranking_keeps_the_order_of_equals() {
    let make = |id: &str, raised: u64| {
        PoolInfo::new(id.to_string(), n(10), n(raised), Timestamp(0)).unwrap()
    };
    let ranked = rank_pools(vec![
        make("a", 5),
        make("b", 9),
        make("c", 5),
        make("d", 9),
        make("e", 1),
        make("f", 5),
    ]);
    let order: Vec<&str> = ranked.iter().map(|p| p.token_id.as_str()).collect();
    assert_eq!(order, vec!["b", "d", "a", "c", "f", "e"]);
    assert_eq!(rank_pools(vec![]), vec![]);
}

#[test]
fn test_locked_liquidity_summary() {
    let mut state = SwapState::new();
    let created_at = Timestamp::from(1234567890);
    state.initialize(created_at);

    for i in 0..3 {
        let token_id = format!("token-{}", i);
        state.create_pool(token_id, n(1_000_000), n(10_000), created_at).unwrap();
    }

    let summary = state.locked_liquidity_summary();
    assert_eq!(summary.total_locked_pools, 3);
    assert_eq!(summary.permanently_locked_pools, 3);
    assert_eq!(summary.temporarily_locked_pools, 0);
    assert!(U256::from_dec_str(&summary.total_locked_tvl).unwrap() > U256::zero());
    assert_eq!(
        summary,
        LockedLiquiditySummary {
            total_locked_pools: 3,
            total_locked_tvl: "60000".to_string(),
            permanently_locked_pools: 3,
            temporarily_locked_pools: 0,
        }
    );
}

#[test]
fn limits_of_pages() {
    assert_eq!(page_limit(None, 20, 100), 20);
    assert_eq!(page_limit(Some(5), 20, 100), 5);
    assert_eq!(page_limit(Some(0), 20, 100), 1);
    assert_eq!(page_limit(Some(-7), 20, 100), 1);
    assert_eq!(page_limit(Some(101), 20, 100), 100);
    assert_eq!(page_limit(Some(i32::MAX), 10, 50), 50);
    assert_eq!(page_offset(None), 0);
    assert_eq!(page_offset(Some(-1)), 0);
    assert_eq!(page_offset(Some(12)), 12);
    assert_eq!(capped_limit(None, 20, 100), 20);
    assert_eq!(capped_limit(Some(0), 20, 100), 0);
    assert_eq!(capped_limit(Some(500), 20, 100), 100);
}

fn registry() -> FactoryState {
    let mut state = FactoryState::new();
    let names = [("Alpha Coin", "ALP"), ("Beta", "BETA"), ("Gamma alpha", "GAM"), ("Delta", "DLT")];
    for (i, (name, symbol)) in names.iter().enumerate() {
        state
            .register_token(
                format!("token-{}", i),
                root(i as u64 % 2),
                create_test_metadata(name, symbol),
                BondingCurveConfig::default(),
                Timestamp(i as u64),
            )
            .unwrap();
    }
    state.update_token_metrics("token-0", n(10), n(100)).unwrap();
    state.update_token_metrics("token-2", n(20), n(250)).unwrap();
    state.update_token_status("token-1", true, None).unwrap();
    state.update_token_status("token-3", true, Some("pool-token-3".to_string())).unwrap();
    state
}

#[test]
fn registry_listings() {
    let state = registry();
    assert_eq!(state.token_count(), 4);
    let shown = state.token("token-2").unwrap();
    assert_eq!(shown.token_id, "token-2");
    assert_eq!(shown.current_supply, "20");
    assert_eq!(shown.total_raised, "250");
    assert_eq!(shown.metadata.name, "Gamma alpha");
    assert_eq!(state.token("token-9"), None);

    let ids = |shown: Vec<fair_launch::views::TokenLaunchView>| -> Vec<String> {
        shown.into_iter().map(|l| l.token_id).collect()
    };
    assert_eq!(ids(state.tokens(None, None)), ["token-0", "token-1", "token-2", "token-3"]);
    assert_eq!(ids(state.tokens(Some(1), Some(2))), ["token-1", "token-2"]);
    assert_eq!(ids(state.tokens(Some(4), Some(2))), Vec::<String>::new());
    assert_eq!(ids(state.tokens(None, Some(0))), Vec::<String>::new());
    assert_eq!(ids(state.tokens_by_creator(&root(1))), ["token-1", "token-3"]);
    assert_eq!(ids(state.tokens_by_creator(&root(7))), Vec::<String>::new());
    assert_eq!(ids(state.recent_tokens(Some(3))), ["token-3", "token-2", "token-1"]);
    assert_eq!(
        ids(state.recent_tokens(None)),
        ["token-3", "token-2", "token-1", "token-0"]
    );
    assert_eq!(ids(state.graduated_tokens(None, None)), ["token-1", "token-3"]);
    assert_eq!(ids(state.graduated_tokens(None, Some(1))), ["token-1"]);
    assert_eq!(ids(state.graduated_tokens(Some(2), Some(1))), ["token-3"]);
    assert_eq!(ids(state.graduated_tokens(Some(0), Some(0))), Vec::<String>::new());
    assert_eq!(ids(state.search_tokens("ALPHA")), ["token-0", "token-2"]);
    assert_eq!(ids(state.search_tokens("dlt")), ["token-3"]);
    assert_eq!(ids(state.search_tokens("a")).len(), 4);
    assert_eq!(ids(state.search_tokens("zzz")), Vec::<String>::new());

    assert_eq!(
        state.stats(),
        Some(FactoryStats {
            total_tokens: 4,
            graduated_count: 2,
            active_count: 2,
            total_value_locked: "350".to_string(),
        })
    );
    let mut full = registry();
    full.update_token_metrics("token-1", n(1), U256::max_value()).unwrap();
    assert_eq!(full.stats(), None);
    assert_eq!(
        FactoryState::new().stats(),
        Some(FactoryStats {
            total_tokens: 0,
            graduated_count: 0,
            active_count: 0,
            total_value_locked: "0".to_string(),
        })
    );
}

#[test]
fn search_stops_at_twenty() {
    let mut state = FactoryState::new();
    for i in 0..30 {
        state
            .register_token(
                format!("t{}", i),
                root(0),
                create_test_metadata("Same Name", "SYM"),
                BondingCurveConfig::default(),
                Timestamp(0),
            )
            .unwrap();
    }
    let found = state.search_tokens("same");
    assert_eq!(found.len(), 20);
    assert_eq!(found[19].token_id, "t19");
    assert_eq!(state.recent_tokens(Some(1000)).len(), 30);
    assert_eq!(state.recent_tokens(Some(1000))[0].token_id, "t29");
    assert_eq!(state.tokens(None, Some(1000)).len(), 30);
}

fn ledger_with_trades() -> (TokenState, CallContext) {
    let mut state = TokenState::new();
    state
        .initialize("tok".to_string(), root(0), test_metadata(), test_config(), Timestamp(0))
        .unwrap();
    let ctx = CallContext {
        chain_id: ChainId(n(0)),
        signer: Some(AccountOwner::Address32(n(5))),
        signer_owns_chain: true,
        signer_balance: Amount(0),
        application: AccountOwner::Address32(n(6)),
        application_balance: Amount(u128::MAX),
        now: Timestamp(10),
    };
    state.execute_buy(&ctx, n(100_000), U256::max_value()).unwrap();
    state.execute_buy(&ctx, n(100_000), U256::max_value()).unwrap();
    state.execute_sell(&ctx, n(50_000), U256::zero()).unwrap();
    let mut other = ctx;
    other.signer = Some(AccountOwner::Address32(n(9)));
    state.execute_buy(&other, n(250_000), U256::max_value()).unwrap();
    (state, ctx)
}

#[test]
fn ledger_in_figures() {
    let (state, ctx) = ledger_with_trades();
    let info = state.token_info().unwrap();
    assert_eq!(info.token_id, "tok");
    assert_eq!(info.creator, root(0));
    assert_eq!(info.name, "Test Token");
    assert_eq!(info.symbol, "TEST");
    assert_eq!(info.current_supply, "400000");
    // F(400_000) = 21_333_333
    assert_eq!(info.total_raised, "21333333");
    assert_eq!(info.current_price, "160");
    assert_eq!(info.holder_count, 2);
    assert_eq!(info.trade_count, 4);
    assert!(!info.is_graduated);
    // 400_000 of 1_000_000_000 is 0.04%
    assert_eq!(info.progress_bps, 4);
    assert_eq!(TokenState::new().token_info(), None);

    let me = ctx.owner_account();
    assert_eq!(state.balance(&me), "150000");
    assert_eq!(state.balance(&root(3)), "0");
    assert_eq!(state.allowance(&me, &root(3)), "0");
    let position = state.user_position(&me).unwrap();
    assert_eq!(position.balance, "150000");
    assert_eq!(position.trades_count, 3);
    assert_eq!(state.user_position(&root(3)), None);

    assert_eq!(state.recent_trades(None).len(), 4);
    let two = state.recent_trades(Some(2));
    assert_eq!(two.len(), 2);
    assert_eq!(two[0].token_amount, "100000");
    assert_eq!(two[0].currency_amount, "333333");
    assert_eq!(two[0].price, "10");
    assert!(two[1].is_buy);
    let mine = state.user_trades(&me, None);
    assert_eq!(mine.len(), 3);
    assert!(!mine[2].is_buy);
    assert_eq!(state.user_trades(&me, Some(2)).len(), 2);
    assert_eq!(state.user_trades(&root(3), None).len(), 0);
}

#[test]
fn quotes() {
    let (state, _) = ledger_with_trades();
    // from 400_000 to 800_000: F = 170_666_666, price 160 -> 640
    assert_eq!(
        state.buy_quote("400000".to_string()),
        Some(BuySellQuote {
            token_amount: "400000".to_string(),
            currency_amount: "149333333".to_string(),
            price_impact_bps: 30_000,
            new_price: "640".to_string(),
        })
    );
    // from 400_000 to 200_000: F = 2_666_666, price 160 -> 40
    assert_eq!(
        state.sell_quote("200000".to_string()),
        Some(BuySellQuote {
            token_amount: "200000".to_string(),
            currency_amount: "18666667".to_string(),
            price_impact_bps: 7_500,
            new_price: "40".to_string(),
        })
    );
    assert_eq!(state.sell_quote("400001".to_string()), None);
    assert_eq!(state.sell_quote("4x".to_string()), None);
    assert_eq!(state.buy_quote("four".to_string()), None);
    assert_eq!(
        state.buy_quote(
            "115792089237316195423570985008687907853269984665640564039457584007913129639935"
                .to_string()
        ),
        None
    );
    // at zero supply the price is zero and so is the impact
    let mut empty = TokenState::new();
    empty
        .initialize("tok".to_string(), root(0), test_metadata(), test_config(), Timestamp(0))
        .unwrap();
    assert_eq!(
        empty.buy_quote("100000".to_string()),
        Some(BuySellQuote {
            token_amount: "100000".to_string(),
            currency_amount: "333333".to_string(),
            price_impact_bps: 0,
            new_price: "10".to_string(),
        })
    );
    assert_eq!(
        empty.sell_quote("".to_string()),
        Some(BuySellQuote {
            token_amount: "".to_string(),
            currency_amount: "0".to_string(),
            price_impact_bps: 0,
            new_price: "0".to_string(),
        })
    );
    assert_eq!(price_impact(n(160), n(480)), Some(30_000));
    assert_eq!(price_impact(U256::zero(), U256::max_value()), Some(0));
    assert_eq!(price_impact(n(1), U256::max_value()), None);
    assert_eq!(price_impact(n(1), U256::from(u64::MAX)), None);
    assert_eq!(to_u64(U256::from(u64::MAX)), Some(u64::MAX));
    assert_eq!(to_u64(U256::from(u64::MAX) + U256::one()), None);
    assert_eq!(to_u64(U256::max_value()), None);
}

#[test]
fn a_query_is_held_by_name_or_symbol() {
    assert!(holds_query("alpha coin", "alp", "alp"));
    assert!(holds_query("alpha coin", "xyz", "a c"));
    assert!(holds_query("beta", "alpha", "lph"));
    assert!(holds_query("beta", "gamma", ""));
    assert!(!holds_query("beta", "gamma", "alpha"));
    assert!(!holds_query("alph", "lpha", "alpha"));
    assert!(!holds_query("Alpha", "ALPHA", "alpha"));
}
