//! The pricing engine: a quadratic bonding curve `price = k * (supply / scale)^2`
//! and the cost of moving along it, in exact integer arithmetic.

use crate::uint256::{lemma_u256_bounded, lemma_u256_injective, u256_max, U256};
use vstd::arithmetic::div_mod::*;
use vstd::prelude::*;

verus! {

broadcast use {lemma_u256_bounded, lemma_u256_injective};

/// Basis points in a whole: a fee of `10000` takes everything.
pub const BPS_DENOMINATOR: u64 = 10000;

/// The area under the price curve from zero to `supply`, rounded down:
/// `k * supply^3 / (3 * scale^2)`.
pub open spec fn curve_integral(supply: nat, k: nat, scale: nat) -> nat {
    (k * supply * supply * supply) / (3 * (scale * scale))
}

/// The price of buying `amount` tokens when `supply` tokens circulate.
pub open spec fn buy_cost(supply: nat, amount: nat, k: nat, scale: nat) -> nat {
    (curve_integral(supply + amount, k, scale) - curve_integral(supply, k, scale)) as nat
}

/// What selling `amount` tokens returns when `supply` tokens circulate;
/// nothing when more is sold than circulates.
pub open spec fn sell_return(supply: nat, amount: nat, k: nat, scale: nat) -> nat {
    if amount > supply {
        0
    } else {
        (curve_integral(supply, k, scale) - curve_integral((supply - amount) as nat, k, scale)) as nat
    }
}

/// The spot price at `supply`: `((k * supply) / scale) * supply / scale`,
/// each division rounding down. Zero at zero supply and for a zero scale.
pub open spec fn spot_price(supply: nat, k: nat, scale: nat) -> nat {
    if supply == 0 || scale == 0 {
        0
    } else {
        (((k * supply) / scale) * supply) / scale
    }
}

/// The creator's share of `amount` at `fee_bps` basis points, rounded down.
pub open spec fn creator_fee(amount: nat, fee_bps: nat) -> nat {
    (amount * fee_bps) / 10000
}

/// Whether the integral at `supply` can be computed in 256 bits: the scale is
/// not zero and neither `3 * scale^2` nor `k * supply^3` overflows.
pub open spec fn integral_fits(supply: nat, k: nat, scale: nat) -> bool {
    &&& scale > 0
    &&& 3 * (scale * scale) <= u256_max()
    &&& k * supply * supply * supply <= u256_max()
}

/// Whether the cost of buying `amount` at `supply` can be computed in 256 bits.
pub open spec fn buy_fits(supply: nat, amount: nat, k: nat, scale: nat) -> bool {
    &&& supply + amount <= u256_max()
    &&& integral_fits(supply + amount, k, scale)
}

/// Whether the return of selling `amount` at `supply` can be computed in 256
/// bits. Selling more than circulates always can: it returns zero.
pub open spec fn sell_fits(supply: nat, amount: nat, k: nat, scale: nat) -> bool {
    amount > supply || integral_fits(supply, k, scale)
}

/// Whether the spot price at `supply` can be computed in 256 bits.
pub open spec fn price_fits(supply: nat, k: nat, scale: nat) -> bool {
    supply == 0 || scale == 0 || (k * supply <= u256_max() && ((k * supply) / scale) * supply
        <= u256_max())
}

proof fn lemma_mul_grows(a: nat, s: nat)
    requires
        s >= 1,
    ensures
        a <= a * s,
{
    assert(a <= a * s) by (nonlinear_arith)
        requires
            s >= 1,
    ;
}

proof fn lemma_mul_ordered(a: nat, b: nat, s: nat, t: nat)
    requires
        a <= b,
        s <= t,
    ensures
        a * s <= b * t,
{
    assert(a * s <= b * t) by (nonlinear_arith)
        requires
            a <= b,
            s <= t,
    ;
}

/// The cubic term grows with the supply.
pub proof fn lemma_cubic_monotone(k: nat, s: nat, n: nat)
    requires
        s <= n,
    ensures
        k * s <= k * n,
        k * s * s <= k * n * n,
        k * s * s * s <= k * n * n * n,
{
    lemma_mul_ordered(k, k, s, n);
    lemma_mul_ordered(k * s, k * n, s, n);
    lemma_mul_ordered(k * s * s, k * n * n, s, n);
}

/// The integral grows with the supply.
pub proof fn lemma_integral_monotone(s: nat, n: nat, k: nat, scale: nat)
    requires
        s <= n,
        scale > 0,
    ensures
        curve_integral(s, k, scale) <= curve_integral(n, k, scale),
{
    lemma_cubic_monotone(k, s, n);
    assert(3 * (scale * scale) > 0) by (nonlinear_arith)
        requires
            scale > 0,
    ;
    lemma_div_is_ordered(
        (k * s * s * s) as int,
        (k * n * n * n) as int,
        (3 * (scale * scale)) as int,
    );
}

/// Where the integral fits at a supply, it fits at every smaller one.
pub proof fn lemma_integral_fits_below(s: nat, n: nat, k: nat, scale: nat)
    requires
        s <= n,
        integral_fits(n, k, scale),
    ensures
        integral_fits(s, k, scale),
{
    lemma_cubic_monotone(k, s, n);
}

/// Where the integral fits at a supply, so does the spot price, and every
/// intermediate product of both.
pub proof fn lemma_price_fits_where_integral_fits(s: nat, k: nat, scale: nat)
    requires
        integral_fits(s, k, scale),
    ensures
        price_fits(s, k, scale),
        k * s <= u256_max(),
        k * s * s <= u256_max(),
        scale * scale <= u256_max(),
{
    if s >= 1 {
        lemma_mul_grows(k * s, s);
        lemma_mul_grows(k * s * s, s);
        lemma_div_is_ordered_by_denominator((k * s) as int, 1, scale as int);
        assert((k * s) / 1 == k * s);
        lemma_mul_ordered((k * s) / scale, k * s, s, s);
    } else {
        assert(k * s == 0) by (nonlinear_arith)
            requires
                s == 0,
        ;
        assert(k * s * s == 0) by (nonlinear_arith)
            requires
                s == 0,
        ;
    }
}

/// The integral at `supply`, or `None` where it cannot be computed in 256 bits.
pub fn checked_curve_integral(supply: U256, k: U256, scale: U256) -> (r: Option<U256>)
    ensures
        r is Some <==> integral_fits(supply@, k@, scale@),
        r matches Some(v) ==> v@ == curve_integral(supply@, k@, scale@),
{
    let ghost s = supply@;
    proof {
        if s >= 1 {
            lemma_mul_grows(k@ * s, s);
            lemma_mul_grows(k@ * s * s, s);
        } else {
            assert(k@ * s == 0 && k@ * s * s == 0 && k@ * s * s * s == 0) by (nonlinear_arith)
                requires
                    s == 0,
            ;
        }
        assert(scale@ * scale@ == 0 <==> scale@ == 0) by (nonlinear_arith);
    }
    let n1 = match k.checked_mul(supply) {
        Some(v) => v,
        None => { return None; },
    };
    let n2 = match n1.checked_mul(supply) {
        Some(v) => v,
        None => { return None; },
    };
    let n3 = match n2.checked_mul(supply) {
        Some(v) => v,
        None => { return None; },
    };
    let square = match scale.checked_mul(scale) {
        Some(v) => v,
        None => { return None; },
    };
    let denominator = match U256::from_u64(3).checked_mul(square) {
        Some(v) => v,
        None => { return None; },
    };
    n3.checked_div(denominator)
}

/// The cost of buying `amount` tokens at `current_supply`, or `None` where it
/// cannot be computed in 256 bits.
pub fn checked_buy_cost(current_supply: U256, amount: U256, k: U256, scale: U256) -> (r: Option<
    U256,
>)
    ensures
        r is Some <==> buy_fits(current_supply@, amount@, k@, scale@),
        r matches Some(v) ==> v@ == buy_cost(current_supply@, amount@, k@, scale@),
{
    let new_supply = match current_supply.checked_add(amount) {
        Some(v) => v,
        None => { return None; },
    };
    let integral_new = match checked_curve_integral(new_supply, k, scale) {
        Some(v) => v,
        None => { return None; },
    };
    proof {
        lemma_integral_fits_below(current_supply@, new_supply@, k@, scale@);
        lemma_integral_monotone(current_supply@, new_supply@, k@, scale@);
    }
    let integral_old = match checked_curve_integral(current_supply, k, scale) {
        Some(v) => v,
        None => { return None; },
    };
    integral_new.checked_sub(integral_old)
}

/// The return of selling `amount` tokens at `current_supply`, or `None` where
/// it cannot be computed in 256 bits.
pub fn checked_sell_return(current_supply: U256, amount: U256, k: U256, scale: U256) -> (r:
    Option<U256>)
    ensures
        r is Some <==> sell_fits(current_supply@, amount@, k@, scale@),
        r matches Some(v) ==> v@ == sell_return(current_supply@, amount@, k@, scale@),
{
    if amount.gt(&current_supply) {
        return Some(U256::zero());
    }
    let new_supply = match current_supply.checked_sub(amount) {
        Some(v) => v,
        None => { return None; },
    };
    let integral_old = match checked_curve_integral(current_supply, k, scale) {
        Some(v) => v,
        None => { return None; },
    };
    proof {
        lemma_integral_fits_below(new_supply@, current_supply@, k@, scale@);
        lemma_integral_monotone(new_supply@, current_supply@, k@, scale@);
    }
    let integral_new = match checked_curve_integral(new_supply, k, scale) {
        Some(v) => v,
        None => { return None; },
    };
    integral_old.checked_sub(integral_new)
}

/// The spot price at `supply`, or `None` where it cannot be computed in 256
/// bits. At zero supply the price is zero.
pub fn checked_current_price(supply: U256, k: U256, scale: U256) -> (r: Option<U256>)
    ensures
        r is Some <==> price_fits(supply@, k@, scale@),
        r matches Some(v) ==> v@ == spot_price(supply@, k@, scale@),
        supply@ == 0 ==> r == Some(U256::from_nat(0)),
{
    if supply.is_zero() || scale.is_zero() {
        let zero = U256::zero();
        proof {
            U256::lemma_from_nat_of_view(zero);
        }
        return Some(zero);
    }
    let product = match k.checked_mul(supply) {
        Some(v) => v,
        None => { return None; },
    };
    let scaled = match product.checked_div(scale) {
        Some(v) => v,
        None => { return None; },
    };
    let second = match scaled.checked_mul(supply) {
        Some(v) => v,
        None => { return None; },
    };
    second.checked_div(scale)
}

/// The creator's share of `amount` at `fee_bps` basis points, or `None` where
/// `amount * fee_bps` exceeds 256 bits.
pub fn checked_creator_fee(amount: U256, fee_bps: u16) -> (r: Option<U256>)
    ensures
        r is Some <==> amount@ * (fee_bps as nat) <= u256_max(),
        r matches Some(v) ==> v@ == creator_fee(amount@, fee_bps as nat),
{
    let product = match amount.checked_mul(U256::from_u64(fee_bps as u64)) {
        Some(v) => v,
        None => { return None; },
    };
    product.checked_div(U256::from_u64(BPS_DENOMINATOR))
}

/// The cost of buying `amount` tokens at `current_supply`: the integral of
/// the price from `current_supply` to `current_supply + amount`.
pub fn calculate_buy_cost(current_supply: U256, amount: U256, k: U256, scale: U256) -> (cost:
    U256)
    requires
        buy_fits(current_supply@, amount@, k@, scale@),
    ensures
        cost@ == buy_cost(current_supply@, amount@, k@, scale@),
{
    match checked_buy_cost(current_supply, amount, k, scale) {
        Some(v) => v,
        None => vstd::pervasive::unreached(),
    }
}

/// The return of selling `amount` tokens at `current_supply`: zero when more
/// is sold than circulates, else the integral of the price from
/// `current_supply - amount` to `current_supply`.
pub fn calculate_sell_return(current_supply: U256, amount: U256, k: U256, scale: U256) -> (value:
    U256)
    requires
        sell_fits(current_supply@, amount@, k@, scale@),
    ensures
        value@ == sell_return(current_supply@, amount@, k@, scale@),
{
    match checked_sell_return(current_supply, amount, k, scale) {
        Some(v) => v,
        None => vstd::pervasive::unreached(),
    }
}

/// The spot price at `supply`. It is zero at zero supply.
pub fn calculate_current_price(supply: U256, k: U256, scale: U256) -> (price: U256)
    requires
        price_fits(supply@, k@, scale@),
    ensures
        price@ == spot_price(supply@, k@, scale@),
        supply@ == 0 ==> price@ == 0,
{
    match checked_current_price(supply, k, scale) {
        Some(v) => v,
        None => vstd::pervasive::unreached(),
    }
}

/// At zero supply the price is zero, whatever the curve.
pub proof fn lemma_price_zero_at_zero_supply(k: nat, scale: nat)
    ensures
        spot_price(0, k, scale) == 0,
{
}

/// The price never falls as the supply grows.
pub proof fn lemma_price_monotone(s: nat, n: nat, k: nat, scale: nat)
    requires
        s <= n,
        scale > 0,
    ensures
        spot_price(s, k, scale) <= spot_price(n, k, scale),
{
    if s > 0 {
        lemma_mul_ordered(k, k, s, n);
        lemma_div_is_ordered((k * s) as int, (k * n) as int, scale as int);
        lemma_mul_ordered((k * s) / scale, (k * n) / scale, s, n);
        lemma_div_is_ordered(
            (((k * s) / scale) * s) as int,
            (((k * n) / scale) * n) as int,
            scale as int,
        );
    }
}

/// Doubling the supply quadruples the price, up to what the two roundings
/// lose: the price at `2 * s` is at least four times the price at `s`, and
/// exceeds it by at most `4 + 2 * s / scale`.
pub proof fn lemma_price_doubling(s: nat, k: nat, scale: nat)
    requires
        scale > 0,
    ensures
        4 * spot_price(s, k, scale) <= spot_price(2 * s, k, scale),
        spot_price(2 * s, k, scale) <= 4 * spot_price(s, k, scale) + 4 + (2 * s) / scale,
{
    if s > 0 {
        let d = scale as int;
        let a = (k * s) as int;
        let q = a / d;
        let r = a % d;
        lemma_fundamental_div_mod(a, d);
        let a2 = (k * (2 * s)) as int;
        assert(a2 == 2 * a) by (nonlinear_arith)
            requires
                a2 == k * (2 * s),
                a == k * s,
        ;
        let e = (2 * r) / d;
        assert(d * q == q * d) by (nonlinear_arith);
        assert((2 * q) * d == 2 * (q * d)) by (nonlinear_arith);
        lemma_hoist_over_denominator(2 * r, 2 * q, scale);
        assert(a2 / d == 2 * q + e);
        lemma_div_is_ordered(2 * r, 2 * d - 1, d);
        lemma_hoist_over_denominator(d - 1, 1, scale);
        lemma_small_mod((d - 1) as nat, scale);
        lemma_basic_div(d - 1, d);
        assert(0 <= e <= 1) by {
            lemma_div_pos_is_pos(2 * r, d);
        }
        let m = q * (s as int);
        assert(m >= 0) by (nonlinear_arith)
            requires
                m == q * (s as int),
                q >= 0,
        ;
        let p = m / d;
        let t = m % d;
        lemma_fundamental_div_mod(m, d);
        let m2 = (2 * q + e) * ((2 * s) as int);
        assert(m2 == 4 * m + 2 * e * (s as int)) by (nonlinear_arith)
            requires
                m2 == (2 * q + e) * ((2 * s) as int),
                m == q * (s as int),
        ;
        let extra = 4 * t + 2 * e * (s as int);
        assert(0 <= 2 * e * (s as int) <= 2 * (s as int)) by (nonlinear_arith)
            requires
                0 <= e <= 1,
        ;
        assert(d * p == p * d) by (nonlinear_arith);
        assert((4 * p) * d == 4 * (p * d)) by (nonlinear_arith);
        lemma_div_pos_is_pos(m, d);
        lemma_hoist_over_denominator(extra, 4 * p, scale);
        assert(m2 / d == 4 * p + extra / d);
        lemma_div_pos_is_pos(extra, d);
        lemma_div_is_ordered(extra, 4 * d + 2 * (s as int), d);
        lemma_hoist_over_denominator(2 * (s as int), 4, scale);
        assert(spot_price(s, k, scale) == p);
        assert(spot_price(2 * s, k, scale) == m2 / d);
    }
}

/// Quadrupling the supply multiplies the price by sixteen, up to what the
/// roundings lose.
pub proof fn lemma_price_quadrupling(s: nat, k: nat, scale: nat)
    requires
        scale > 0,
    ensures
        16 * spot_price(s, k, scale) <= spot_price(4 * s, k, scale),
        spot_price(4 * s, k, scale) <= 16 * spot_price(s, k, scale) + 20 + (12 * s) / scale,
{
    lemma_price_doubling(s, k, scale);
    lemma_price_doubling(2 * s, k, scale);
    assert(2 * (2 * s) == 4 * s);
    let d = scale as int;
    let x = (2 * s) as int;
    lemma_fundamental_div_mod(x, d);
    assert(d * (x / d) == (x / d) * d) by (nonlinear_arith);
    assert((4 * (x / d)) * d == 4 * ((x / d) * d)) by (nonlinear_arith);
    lemma_div_pos_is_pos(x, d);
    lemma_hoist_over_denominator(4 * (x % d), 4 * (x / d), scale);
    lemma_div_pos_is_pos(4 * (x % d), d);
    assert(4 * ((2 * s) / scale) <= (8 * s) / scale);
    lemma_fundamental_div_mod((8 * s) as int, d);
    lemma_fundamental_div_mod((4 * s) as int, d);
    lemma_fundamental_div_mod((12 * s) as int, d);
    let u = ((8 * s) / scale) as int;
    let v = ((4 * s) / scale) as int;
    let w = ((12 * s) / scale) as int;
    assert(d * u == u * d && d * v == v * d && d * w == w * d) by (nonlinear_arith);
    assert((u + v) * d == u * d + v * d) by (nonlinear_arith);
    assert(u + v <= w) by {
        if u + v > w {
            assert((u + v) * d >= (w + 1) * d) by (nonlinear_arith)
                requires
                    u + v >= w + 1,
                    d > 0,
            ;
            assert((w + 1) * d == w * d + d) by (nonlinear_arith);
        }
    }
}

/// Buying in two steps costs what buying at once costs: the cost from
/// `supply` to `supply + a + b` is the cost of `a` at `supply` plus the cost
/// of `b` at `supply + a`.
pub proof fn lemma_buy_cost_additive(supply: nat, a: nat, b: nat, k: nat, scale: nat)
    requires
        scale > 0,
    ensures
        buy_cost(supply, a, k, scale) + buy_cost(supply + a, b, k, scale) == buy_cost(
            supply,
            a + b,
            k,
            scale,
        ),
{
    lemma_integral_monotone(supply, supply + a, k, scale);
    lemma_integral_monotone(supply + a, supply + a + b, k, scale);
}

/// Without a fee the curve is reversible: selling what was just bought
/// returns exactly what it cost.
pub proof fn lemma_sell_reverses_buy(supply: nat, amount: nat, k: nat, scale: nat)
    ensures
        buy_cost(supply, amount, k, scale) == sell_return(supply + amount, amount, k, scale),
{
    assert((supply + amount - amount) as nat == supply);
}

/// The cost never falls as the amount bought grows.
pub proof fn lemma_buy_cost_monotone(supply: nat, a: nat, b: nat, k: nat, scale: nat)
    requires
        a <= b,
        scale > 0,
    ensures
        buy_cost(supply, a, k, scale) <= buy_cost(supply, b, k, scale),
{
    lemma_integral_monotone(supply, supply + a, k, scale);
    lemma_integral_monotone(supply + a, supply + b, k, scale);
}

/// Rounding two numbers down before subtracting them changes the rounded
/// difference by one at most.
proof fn lemma_floor_difference(x: int, y: int, d: int)
    requires
        0 <= y <= x,
        d > 0,
    ensures
        (x - y) / d <= x / d - y / d <= (x - y) / d + 1,
{
    lemma_fundamental_div_mod(x, d);
    lemma_fundamental_div_mod(y, d);
    lemma_fundamental_div_mod(x - y, d);
    let t = x / d - y / d - (x - y) / d;
    let e = (x - y) % d - x % d + y % d;
    assert(d * t == e) by (nonlinear_arith)
        requires
            t == x / d - y / d - (x - y) / d,
            e == (x - y) % d - x % d + y % d,
            x == d * (x / d) + x % d,
            y == d * (y / d) + y % d,
            x - y == d * ((x - y) / d) + (x - y) % d,
    ;
    assert(0 <= t <= 1) by (nonlinear_arith)
        requires
            d * t == e,
            -d < e < 2 * d,
            d > 0,
    ;
}

/// The cubic term of a purchase of `a` grows with the supply at which it is
/// made.
proof fn lemma_cubic_step_monotone(k: nat, s: nat, n: nat, a: nat)
    requires
        s <= n,
    ensures
        k * (s + a) * (s + a) * (s + a) - k * s * s * s <= k * (n + a) * (n + a) * (n + a) - k * n
            * n * n,
{
    let fs = 3 * (s * s) + 3 * (s * a) + a * a;
    let gn = 3 * (n * n) + 3 * (n * a) + a * a;
    lemma_mul_ordered(s, n, s, n);
    lemma_mul_ordered(s, n, a, a);
    assert(fs <= gn);
    lemma_mul_ordered(a, a, fs, gn);
    lemma_mul_ordered(k, k, a * fs, a * gn);
    assert(k * (s + a) * (s + a) * (s + a) - k * s * s * s == k * (a * fs)) by (nonlinear_arith)
        requires
            fs == 3 * (s * s) + 3 * (s * a) + a * a,
    ;
    assert(k * (n + a) * (n + a) * (n + a) - k * n * n * n == k * (a * gn)) by (nonlinear_arith)
        requires
            gn == 3 * (n * n) + 3 * (n * a) + a * a,
    ;
}

/// The cost of a purchase never falls by more than the rounding as the
/// supply at which it is made grows: at a greater supply the same amount
/// costs at least as much, less one unit at most.
pub proof fn lemma_buy_cost_grows_with_supply(s: nat, n: nat, a: nat, k: nat, scale: nat)
    requires
        s <= n,
        scale > 0,
    ensures
        buy_cost(s, a, k, scale) <= buy_cost(n, a, k, scale) + 1,
{
    let d = (3 * (scale * scale)) as int;
    assert(d > 0) by (nonlinear_arith)
        requires
            d == 3 * (scale * scale),
            scale > 0,
    ;
    let s1 = (k * (s + a) * (s + a) * (s + a)) as int;
    let s0 = (k * s * s * s) as int;
    let n1 = (k * (n + a) * (n + a) * (n + a)) as int;
    let n0 = (k * n * n * n) as int;
    lemma_cubic_monotone(k, s, s + a);
    lemma_cubic_monotone(k, n, n + a);
    lemma_cubic_step_monotone(k, s, n, a);
    lemma_floor_difference(s1, s0, d);
    lemma_floor_difference(n1, n0, d);
    lemma_div_is_ordered(s1 - s0, n1 - n0, d);
    lemma_integral_monotone(s, s + a, k, scale);
    lemma_integral_monotone(n, n + a, k, scale);
}

/// A round trip loses money wherever the fee on the cost is at least one
/// unit: what the seller keeps after the fee is less than what the buyer paid
/// with the fee, and less than the cost itself.
pub proof fn lemma_round_trip_loses(supply: nat, amount: nat, k: nat, scale: nat, fee_bps: nat)
    requires
        fee_bps > 0,
        creator_fee(buy_cost(supply, amount, k, scale), fee_bps) >= 1,
    ensures
        ({
            let cost = buy_cost(supply, amount, k, scale);
            let back = sell_return(supply + amount, amount, k, scale);
            &&& back - creator_fee(back, fee_bps) < cost + creator_fee(cost, fee_bps)
            &&& back - creator_fee(back, fee_bps) < cost
        }),
{
    lemma_sell_reverses_buy(supply, amount, k, scale);
}

/// A round trip never gains: what the seller keeps after the fee is at most
/// what the buyer paid with the fee.
pub proof fn lemma_round_trip_never_gains(
    supply: nat,
    amount: nat,
    k: nat,
    scale: nat,
    fee_bps: nat,
)
    ensures
        ({
            let cost = buy_cost(supply, amount, k, scale);
            let back = sell_return(supply + amount, amount, k, scale);
            back - creator_fee(back, fee_bps) <= cost + creator_fee(cost, fee_bps)
        }),
{
    lemma_sell_reverses_buy(supply, amount, k, scale);
}

} // verus!
