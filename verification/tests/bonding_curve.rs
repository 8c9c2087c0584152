use fair_launch::bonding_curve::{
    calculate_buy_cost, calculate_current_price, calculate_sell_return, checked_buy_cost,
    checked_creator_fee, checked_current_price, checked_curve_integral, checked_sell_return,
};
use fair_launch::samples::test_config;
use fair_launch::uint256::U256;

fn n(v: u64) -> U256 {
    U256::from(v)
}

#[test]
fn test_price_is_zero_at_zero_supply() {
    let k = n(1000);
    let scale = n(1_000_000);
    let supply = U256::zero();

    let price = calculate_current_price(supply, k, scale);
    assert_eq!(price, U256::zero(), "Price should be zero at zero supply");
}

#[test]
fn test_price_increases_quadratically() {
    let k = n(1000);
    let scale = n(1_000_000);

    let price_100k = calculate_current_price(n(100_000), k, scale);
    let price_200k = calculate_current_price(n(200_000), k, scale);
    let price_400k = calculate_current_price(n(400_000), k, scale);

    let ratio_2x = price_200k / price_100k;
    assert_eq!(ratio_2x, n(4), "Price should quadruple when supply doubles");

    let ratio_4x = price_400k / price_100k;
    assert_eq!(ratio_4x, n(16), "Price should increase 16x when supply quadruples");
}

#[test]
fn bonding_curve_tests_test_buy_cost_increases_with_supply() {
    let k = n(1000);
    let scale = n(1_000_000);
    let amount = n(10_000);

    let cost_at_0 = calculate_buy_cost(U256::zero(), amount, k, scale);
    let cost_at_100k = calculate_buy_cost(n(100_000), amount, k, scale);
    let cost_at_500k = calculate_buy_cost(n(500_000), amount, k, scale);

    assert!(cost_at_100k > cost_at_0, "Cost should increase with supply");
    assert!(cost_at_500k > cost_at_100k, "Cost should continue increasing");
}

#[test]
fn test_sell_return_equals_buy_cost() {
    let k = n(1000);
    let scale = n(1_000_000);
    let supply = n(100_000);
    let amount = n(10_000);

    let buy_cost = calculate_buy_cost(supply, amount, k, scale);
    let new_supply = supply + amount;
    let sell_return = calculate_sell_return(new_supply, amount, k, scale);

    assert_eq!(sell_return, buy_cost, "Sell return should equal buy cost (before fees)");
}

#[test]
fn test_large_trade_impact() {
    let k = n(1000);
    let scale = n(1_000_000);
    let supply = n(100_000);

    let small_amount = n(1_000);
    let small_cost = calculate_buy_cost(supply, small_amount, k, scale);
    let small_avg_price = small_cost / small_amount;

    let large_amount = n(10_000);
    let large_cost = calculate_buy_cost(supply, large_amount, k, scale);
    let large_avg_price = large_cost / large_amount;

    assert!(
        large_avg_price > small_avg_price,
        "Average price should increase for larger buys (price impact)"
    );
}

#[test]
fn bonding_curve_tests_test_creator_fee_calculation() {
    let cost = n(100_000);

    let fee_1_pct = (cost * n(100)) / n(10000);
    assert_eq!(fee_1_pct, n(1_000), "1% fee should be 1000");

    let fee_3_pct = (cost * n(300)) / n(10000);
    assert_eq!(fee_3_pct, n(3_000), "3% fee should be 3000");

    let fee_5_pct = (cost * n(500)) / n(10000);
    assert_eq!(fee_5_pct, n(5_000), "5% fee should be 5000");

    assert_eq!(checked_creator_fee(cost, 100), Some(n(1_000)));
    assert_eq!(checked_creator_fee(cost, 300), Some(n(3_000)));
    assert_eq!(checked_creator_fee(cost, 500), Some(n(5_000)));
}

#[test]
fn test_buy_sell_roundtrip_with_fees() {
    let k = n(1000);
    let scale = n(1_000_000);
    let supply = n(100_000);
    let amount = n(10_000);
    let fee_bps = 300u64;

    let buy_cost = calculate_buy_cost(supply, amount, k, scale);
    let buy_fee = (buy_cost * n(fee_bps)) / n(10000);
    let total_cost_with_fee = buy_cost + buy_fee;

    let new_supply = supply + amount;
    let sell_return = calculate_sell_return(new_supply, amount, k, scale);
    let sell_fee = (sell_return * n(fee_bps)) / n(10000);
    let net_return_after_fee = sell_return - sell_fee;

    assert!(
        net_return_after_fee < total_cost_with_fee,
        "Roundtrip should result in loss due to curve shape and fees"
    );
}

#[test]
fn test_maximum_supply_constraint() {
    let max_supply = n(1_000_000_000);
    let current_supply = n(999_000_000);

    let requested_amount = n(2_000_000);
    let total_would_be = current_supply + requested_amount;

    assert!(
        total_would_be > max_supply,
        "This buy would exceed max supply and should fail in contract"
    );
}

#[test]
fn test_precision_with_small_amounts() {
    let k = n(1000);
    let scale = n(1_000_000);
    let supply = n(1_000_000);

    let tiny_amount = n(1);
    let cost = calculate_buy_cost(supply, tiny_amount, k, scale);

    assert!(cost > U256::zero(), "Even tiny amounts should have non-zero cost");
}

#[test]
fn test_sell_entire_supply_returns_zero() {
    let k = n(1000);
    let scale = n(1_000_000);
    let supply = n(100_000);

    let sell_return = calculate_sell_return(supply, supply, k, scale);

    assert!(sell_return > U256::zero(), "Selling should return non-zero amount");
}

#[test]
fn test_integration_formula_consistency() {
    let k = n(1000);
    let scale = n(1_000_000);

    let cost_0_to_100k = calculate_buy_cost(U256::zero(), n(100_000), k, scale);
    let cost_100k_to_200k = calculate_buy_cost(n(100_000), n(100_000), k, scale);
    let cost_0_to_200k = calculate_buy_cost(U256::zero(), n(200_000), k, scale);

    assert_eq!(
        cost_0_to_100k + cost_100k_to_200k,
        cost_0_to_200k,
        "Integration should be additive"
    );

    let supply = n(100_000);
    let amount = n(50_000);

    let buy_cost = calculate_buy_cost(supply, amount, k, scale);
    let sell_return = calculate_sell_return(supply + amount, amount, k, scale);

    assert_eq!(buy_cost, sell_return, "Buy cost and sell return should be equal (before fees)");
}

#[test]
fn test_buy_cost_calculation() {
    let k = n(1000);
    let scale = n(1_000_000);
    let current_supply = n(0);
    let amount = n(100_000);

    let cost = calculate_buy_cost(current_supply, amount, k, scale);
    assert!(cost > U256::zero());
}

#[test]
fn test_sell_return_calculation() {
    let k = n(1000);
    let scale = n(1_000_000);
    let current_supply = n(100_000);
    let amount = n(50_000);

    let return_amount = calculate_sell_return(current_supply, amount, k, scale);
    assert!(return_amount > U256::zero());
}

#[test]
fn lib_test_price_calculation() {
    let k = n(1000);
    let scale = n(1_000_000);
    let supply = n(500_000);

    let price = calculate_current_price(supply, k, scale);
    assert!(price > U256::zero());
}

#[test]
fn tests_test_buy_cost_increases_with_supply() {
    let config = test_config();

    let cost1 = calculate_buy_cost(U256::zero(), n(100_000), config.k, config.scale);
    let cost2 = calculate_buy_cost(n(100_000), n(100_000), config.k, config.scale);

    assert!(cost2 > cost1, "Cost should increase as supply increases");
}

#[test]
fn tests_test_price_calculation() {
    let config = test_config();

    let price_at_zero = calculate_current_price(U256::zero(), config.k, config.scale);
    let price_at_million = calculate_current_price(n(1_000_000), config.k, config.scale);

    assert!(price_at_million > price_at_zero, "Price should increase with supply");
}

#[test]
fn test_zero_amount_returns_zero_cost() {
    let config = test_config();

    let cost = calculate_buy_cost(n(500_000), U256::zero(), config.k, config.scale);

    assert_eq!(cost, U256::zero());
}

#[test]
fn test_sell_more_than_supply_returns_zero() {
    let config = test_config();

    let return_amount = calculate_sell_return(n(100_000), n(200_000), config.k, config.scale);

    assert_eq!(return_amount, U256::zero());
}

#[test]
fn test_buy_and_sell_round_trip() {
    let config = test_config();
    let amount = n(50_000);

    let buy_cost = calculate_buy_cost(U256::zero(), amount, config.k, config.scale);
    let sell_return = calculate_sell_return(amount, amount, config.k, config.scale);

    assert_eq!(buy_cost, sell_return);
}

#[test]
fn test_large_buy_increases_price_significantly() {
    let config = test_config();

    let initial_price = calculate_current_price(U256::zero(), config.k, config.scale);

    let large_amount = n(10_000_000);
    let new_price = calculate_current_price(large_amount, config.k, config.scale);

    let price_increase = new_price.saturating_sub(initial_price);
    assert!(
        price_increase > initial_price * n(10),
        "Large buy should significantly increase price"
    );
}

#[test]
fn test_gradual_buys_vs_single_buy() {
    let config = test_config();

    let single_cost = calculate_buy_cost(U256::zero(), n(300_000), config.k, config.scale);

    let cost1 = calculate_buy_cost(U256::zero(), n(100_000), config.k, config.scale);
    let cost2 = calculate_buy_cost(n(100_000), n(100_000), config.k, config.scale);
    let cost3 = calculate_buy_cost(n(200_000), n(100_000), config.k, config.scale);
    let gradual_cost = cost1 + cost2 + cost3;

    assert_eq!(single_cost, gradual_cost, "Total cost should be same regardless of order");
}

#[test]
fn test_realistic_token_launch_scenario() {
    let config = test_config();

    let mut current_supply = U256::zero();
    let mut total_raised = U256::zero();

    for _ in 0..10 {
        let cost = calculate_buy_cost(current_supply, n(10_000), config.k, config.scale);

        current_supply = current_supply + n(10_000);
        total_raised = total_raised + cost;
    }

    assert_eq!(current_supply, n(100_000));
    assert!(total_raised > U256::zero());

    let final_price = calculate_current_price(current_supply, config.k, config.scale);
    let initial_price = calculate_current_price(U256::zero(), config.k, config.scale);

    assert!(final_price > initial_price);
}

#[test]
fn integration_test_test_creator_fee_calculation() {
    let cost = n(10_000);
    let fee_bps = 300u64;

    let expected_fee = n(300);
    let calculated_fee = (cost * n(fee_bps)) / n(10000);

    assert_eq!(calculated_fee, expected_fee);
    assert_eq!(checked_creator_fee(cost, 300), Some(expected_fee));
}

#[test]
fn test_slippage_protection() {
    let k = n(1000);
    let scale = n(1_000_000);
    let current_supply = n(500_000);
    let buy_amount = n(100_000);

    let actual_cost = calculate_buy_cost(current_supply, buy_amount, k, scale);

    let max_cost = actual_cost / n(2);

    assert!(max_cost < actual_cost);
}

#[test]
fn exact_values_of_the_curve() {
    let k = n(1000);
    let scale = n(1_000_000);
    // F(100_000) = 1000 * 10^15 / (3 * 10^12) = 333_333
    assert_eq!(checked_curve_integral(n(100_000), k, scale), Some(n(333_333)));
    // F(200_000) = 1000 * 8 * 10^15 / (3 * 10^12) = 2_666_666
    assert_eq!(checked_curve_integral(n(200_000), k, scale), Some(n(2_666_666)));
    assert_eq!(calculate_buy_cost(U256::zero(), n(100_000), k, scale), n(333_333));
    assert_eq!(calculate_buy_cost(n(100_000), n(100_000), k, scale), n(2_333_333));
    assert_eq!(calculate_buy_cost(U256::zero(), n(200_000), k, scale), n(2_666_666));
    assert_eq!(calculate_sell_return(n(200_000), n(100_000), k, scale), n(2_333_333));
    // price(100_000) = ((1000 * 100_000) / 10^6) * 100_000 / 10^6 = 10
    assert_eq!(calculate_current_price(n(100_000), k, scale), n(10));
    assert_eq!(calculate_current_price(n(200_000), k, scale), n(40));
    assert_eq!(calculate_current_price(n(400_000), k, scale), n(160));
    // the whole default curve: 1000 * 10^27 / (3 * 10^12)
    assert_eq!(
        calculate_buy_cost(U256::zero(), n(1_000_000_000), k, scale),
        U256::from(333_333_333_333_333_333u128)
    );
}

#[test]
fn price_doubling_within_tolerance() {
    let k = n(7);
    let scale = n(1000);
    for s in [1u64, 3, 10, 499, 500, 501, 999, 1000, 12345, 999_999] {
        let at_s = calculate_current_price(n(s), k, scale);
        let at_2s = calculate_current_price(n(2 * s), k, scale);
        let at_4s = calculate_current_price(n(4 * s), k, scale);
        assert!(at_2s >= n(4) * at_s);
        assert!(at_2s <= n(4) * at_s + n(4) + n(2 * s) / scale);
        assert!(at_4s >= n(16) * at_s);
        assert!(at_4s <= n(16) * at_s + n(20) + n(12 * s) / scale);
    }
}

#[test]
fn additivity_and_reversibility_on_odd_values() {
    let k = n(977);
    let scale = n(12_345);
    for (s, a, b) in [(0u64, 1u64, 1u64), (17, 5, 9), (1000, 999, 1), (123_456, 7, 890_123)] {
        let left = calculate_buy_cost(n(s), n(a), k, scale)
            + calculate_buy_cost(n(s + a), n(b), k, scale);
        assert_eq!(left, calculate_buy_cost(n(s), n(a + b), k, scale));
        assert_eq!(
            calculate_buy_cost(n(s), n(a), k, scale),
            calculate_sell_return(n(s + a), n(a), k, scale)
        );
    }
}

#[test]
fn round_trip_with_a_fee_that_rounds_to_zero_loses_nothing() {
    // cost of one token at zero supply is zero, so is the fee
    let k = n(1000);
    let scale = n(1_000_000);
    let cost = calculate_buy_cost(U256::zero(), n(1), k, scale);
    assert_eq!(cost, U256::zero());
    assert_eq!(checked_creator_fee(cost, 300), Some(U256::zero()));
    // a cost of 33 at 3% has a fee of 0 too: 33 * 300 / 10000
    assert_eq!(checked_creator_fee(n(33), 300), Some(U256::zero()));
    assert_eq!(checked_creator_fee(n(34), 300), Some(n(1)));
}

#[test]
fn checked_curve_reports_what_does_not_fit() {
    let k = n(1000);
    let scale = n(1_000_000);
    let huge = U256::max_value();
    assert_eq!(checked_buy_cost(huge, n(1), k, scale), None);
    assert_eq!(checked_buy_cost(n(1), huge, k, scale), None);
    assert_eq!(checked_buy_cost(n(1), n(1), k, U256::zero()), None);
    assert_eq!(checked_curve_integral(U256::from(1u128 << 100), k, scale), None);
    assert_eq!(checked_curve_integral(n(0), k, U256::from(3u128 << 126)), None);
    assert_eq!(checked_curve_integral(n(0), k, U256::from(1u128 << 127)), Some(U256::zero()));
    assert_eq!(checked_sell_return(n(5), n(6), k, U256::zero()), Some(U256::zero()));
    assert_eq!(checked_sell_return(n(6), n(5), k, U256::zero()), None);
    assert_eq!(checked_current_price(n(0), huge, scale), Some(U256::zero()));
    assert_eq!(checked_current_price(n(5), k, U256::zero()), Some(U256::zero()));
    assert_eq!(checked_current_price(n(2), huge, scale), None);
    assert_eq!(checked_creator_fee(huge, 2), None);
    assert_eq!(checked_creator_fee(huge, 1), Some(huge / n(10000)));
}

#[test]
fn cost_against_supply_falls_by_rounding_only() {
    let k = n(1);
    let scale = n(1000);
    // 145^3 is the first cube beyond 3 * scale^2: the unit that the integral
    // gains there is paid by the purchase at 144, not by the one at 145.
    assert_eq!(calculate_buy_cost(n(144), n(1), k, scale), n(1));
    assert_eq!(calculate_buy_cost(n(145), n(1), k, scale), n(0));
    let mut supply = 0u64;
    while supply < 400 {
        let here = calculate_buy_cost(n(supply), n(7), k, scale);
        let next = calculate_buy_cost(n(supply + 1), n(7), k, scale);
        assert!(here <= next + n(1));
        supply += 1;
    }
}

#[test]
fn test_sell_return_less_than_buy_cost() {
    let config = test_config();

    // Buy 100k tokens
    let buy_cost = calculate_buy_cost(U256::zero(), n(100_000), config.k, config.scale);

    // Sell them back immediately
    let sell_return = calculate_sell_return(n(100_000), n(100_000), config.k, config.scale);

    // Without the fee the curve is reversible: the two are equal, and the
    // seller comes out with less only once the fee is taken.
    assert_eq!(sell_return, buy_cost);
    assert_eq!(buy_cost, n(333_333));
    let fee = checked_creator_fee(sell_return, config.creator_fee_bps).unwrap();
    assert_eq!(fee, n(9_999));
    assert!(sell_return - fee < buy_cost, "Sell return should be less than buy cost");
}

#[test]
fn test_full_curve_completion() {
    let config = test_config();

    // Calculate cost to buy entire supply
    let total_cost = calculate_buy_cost(U256::zero(), config.max_supply, config.k, config.scale);

    // The whole curve costs k * max_supply^3 / (3 * scale^2), which for the
    // default curve is far beyond the target raise.
    let target = config.target_raise;
    let upper_bound = (target * n(110)) / n(100);
    assert_eq!(upper_bound, n(75_900));
    assert_eq!(total_cost, n(333_333_333_333_333_333));
    assert!(total_cost > upper_bound);
}

#[test]
fn test_bonding_curve_calculations() {
    let k = n(1000);
    let scale = n(1_000_000);

    // Test 1: Buy from zero supply
    let current_supply = U256::zero();
    let buy_amount = n(100_000);

    let cost = calculate_buy_cost(current_supply, buy_amount, k, scale);
    assert!(cost > U256::zero(), "Cost should be positive");

    // Test 2: Selling at once returns what the purchase cost
    let new_supply = current_supply + buy_amount;
    let sell_return = calculate_sell_return(new_supply, buy_amount, k, scale);
    assert_eq!(sell_return, cost);

    // Test 3: Current price should increase with supply
    let price_at_zero = calculate_current_price(U256::zero(), k, scale);
    let price_at_100k = calculate_current_price(n(100_000), k, scale);
    assert!(price_at_100k > price_at_zero, "Price should increase with supply");

    // Test 4: Price should be quadratic
    let price_at_200k = calculate_current_price(n(200_000), k, scale);
    // At 2x supply, price should be 4x (quadratic)
    let expected_ratio = 4;
    let actual_ratio = price_at_200k / price_at_100k;
    assert_eq!(actual_ratio, n(expected_ratio), "Price should follow x^2 curve");
}
