//! A locked-liquidity pool: the reserves that a graduated launch brings, and
//! the constant-product rule by which they are traded.

use crate::identifiers::Timestamp;
use crate::text::join;
use crate::uint256::{lemma_u256_bounded, lemma_u256_injective, u256_max, U256};
use vstd::prelude::*;

verus! {

broadcast use {lemma_u256_bounded, lemma_u256_injective};

/// The scale of ratios and prices: one unit of currency per token reads as
/// `PRECISION`.
pub const PRECISION: u64 = 1_000_000;

/// Why no pool was made.
#[derive(Clone, Copy, Debug, PartialEq, Eq, Structural)]
pub enum PoolError {
    /// The launch brings no tokens.
    ZeroSupply,
    /// The launch brings no currency.
    ZeroRaised,
    /// The launch has a pool already.
    AlreadyExists,
    /// A number does not fit in 256 bits.
    AmountConversionError,
}

impl PoolError {
    /// The error in words.
    pub fn to_string(&self) -> (text: String)
        ensures
            text@ == match self {
                PoolError::ZeroSupply => "Token supply must be greater than zero"@,
                PoolError::ZeroRaised => "Total raised must be greater than zero"@,
                PoolError::AlreadyExists => "Pool already exists for token"@,
                PoolError::AmountConversionError => "Amount conversion error"@,
            },
    {
        match self {
            PoolError::ZeroSupply => "Token supply must be greater than zero".to_owned(),
            PoolError::ZeroRaised => "Total raised must be greater than zero".to_owned(),
            PoolError::AlreadyExists => "Pool already exists for token".to_owned(),
            PoolError::AmountConversionError => "Amount conversion error".to_owned(),
        }
    }
}

/// The pool of a graduated launch.
#[derive(Debug, PartialEq, Eq)]
pub struct PoolInfo {
    pub pool_id: String,
    pub token_id: String,
    /// The reserve of tokens.
    pub token_liquidity: U256,
    /// The reserve of currency.
    pub base_liquidity: U256,
    /// Currency per token at creation, scaled by `PRECISION`.
    pub initial_ratio: U256,
    pub created_at: Timestamp,
    /// Whether the liquidity is locked. It always is.
    pub is_locked: bool,
    /// When the lock ends: never.
    pub lock_expires_at: Option<Timestamp>,
    /// The number of swaps executed.
    pub trade_count: u64,
    /// The value locked at creation, in currency: twice what was raised.
    pub tvl: U256,
}

impl Clone for PoolInfo {
    fn clone(&self) -> (r: Self)
        ensures
            r == *self,
    {
        PoolInfo {
            pool_id: self.pool_id.clone(),
            token_id: self.token_id.clone(),
            token_liquidity: self.token_liquidity,
            base_liquidity: self.base_liquidity,
            initial_ratio: self.initial_ratio,
            created_at: self.created_at,
            is_locked: self.is_locked,
            lock_expires_at: self.lock_expires_at,
            trade_count: self.trade_count,
            tvl: self.tvl,
        }
    }
}

/// The identity of the pool of a launch: `pool-` and the identity of the
/// launch.
pub open spec fn pool_id_of(token_id: Seq<char>) -> Seq<char> {
    "pool-"@ + token_id
}

/// Two launches have the same pool identity only if they are the same.
pub proof fn lemma_pool_id_injective(a: Seq<char>, b: Seq<char>)
    requires
        pool_id_of(a) == pool_id_of(b),
    ensures
        a == b,
{
    let prefix = "pool-"@;
    assert(a =~= pool_id_of(a).subrange(prefix.len() as int, pool_id_of(a).len() as int));
    assert(b =~= pool_id_of(b).subrange(prefix.len() as int, pool_id_of(b).len() as int));
}

/// Currency per token, scaled by `PRECISION` and rounded down; zero where
/// there are no tokens.
pub open spec fn scaled_ratio(base: nat, tokens: nat) -> nat {
    if tokens == 0 {
        0
    } else {
        (base * 1_000_000) / tokens
    }
}

/// What a swap of `amount_in` pays out of a reserve of `reserve_out`, against
/// a reserve of `reserve_in` on the paying side: the constant-product rule,
/// rounded down.
pub open spec fn swap_output(amount_in: nat, reserve_in: nat, reserve_out: nat) -> nat {
    (amount_in * reserve_out) / (reserve_in + amount_in)
}

/// A swap never pays out more than the reserve holds.
pub proof fn lemma_swap_output_bounded(amount_in: nat, reserve_in: nat, reserve_out: nat)
    requires
        amount_in > 0,
    ensures
        swap_output(amount_in, reserve_in, reserve_out) <= reserve_out,
{
    let d = (reserve_in + amount_in) as int;
    assert(amount_in * reserve_out <= reserve_out * d) by (nonlinear_arith)
        requires
            d == reserve_in + amount_in,
    ;
    vstd::arithmetic::div_mod::lemma_div_is_ordered(
        (amount_in * reserve_out) as int,
        reserve_out * d,
        d,
    );
    vstd::arithmetic::div_mod::lemma_div_multiples_vanish(reserve_out as int, d);
    assert(reserve_out * d == d * reserve_out) by (nonlinear_arith);
}

/// Why a pool cannot be made of these totals, if it cannot.
pub open spec fn pool_refusal(total_supply: nat, total_raised: nat) -> Option<PoolError> {
    if total_supply == 0 {
        Some(PoolError::ZeroSupply)
    } else if total_raised == 0 {
        Some(PoolError::ZeroRaised)
    } else if total_raised * 1_000_000 > u256_max() {
        Some(PoolError::AmountConversionError)
    } else {
        None
    }
}

impl PoolInfo {
    /// The pool is as pools are made and traded: locked for good, and with a
    /// currency reserve whose scaled price fits in 256 bits.
    pub open spec fn wf(&self) -> bool {
        &&& self.is_locked
        &&& self.lock_expires_at is None
        &&& self.pool_id@ == pool_id_of(self.token_id@)
        &&& self.base_liquidity@ * 1_000_000 <= u256_max()
    }

    /// Whether this is the pool that is made for the launch `token_id` of
    /// these totals at `created_at`: the reserves are the totals, the ratio
    /// is theirs, the value locked is twice what was raised, the pool is
    /// locked for good, and no swap has happened yet.
    pub open spec fn made_of(
        &self,
        token_id: Seq<char>,
        total_supply: nat,
        total_raised: nat,
        created_at: Timestamp,
    ) -> bool {
        &&& self.wf()
        &&& self.pool_id@ == pool_id_of(token_id)
        &&& self.token_id@ == token_id
        &&& self.token_liquidity@ == total_supply
        &&& self.base_liquidity@ == total_raised
        &&& self.initial_ratio@ == scaled_ratio(total_raised, total_supply)
        &&& self.created_at == created_at
        &&& self.is_locked
        &&& self.lock_expires_at is None
        &&& self.trade_count == 0
        &&& self.tvl@ == 2 * total_raised
    }

    /// Whether the pool is as pools are made and traded.
    pub fn check(&self) -> (r: bool)
        ensures
            r == self.wf(),
    {
        if !self.is_locked || self.lock_expires_at.is_some() {
            return false;
        }
        let expected = join("pool-", self.token_id.as_str());
        if self.pool_id != expected {
            return false;
        }
        self.base_liquidity.checked_mul(U256::from_u64(PRECISION)).is_some()
    }

    /// The locked pool of a graduated launch: the reserves are the totals
    /// that the launch brings, the value locked is twice what was raised, and
    /// no swap has happened yet.
    pub fn new(token_id: String, total_supply: U256, total_raised: U256, created_at: Timestamp) -> (r:
        Result<PoolInfo, PoolError>)
        ensures
            r is Err <==> pool_refusal(total_supply@, total_raised@) is Some,
            r matches Err(e) ==> Some(e) == pool_refusal(total_supply@, total_raised@),
            r matches Ok(pool) ==> pool.made_of(
                token_id@,
                total_supply@,
                total_raised@,
                created_at,
            ) && pool.token_id == token_id && pool.token_liquidity == total_supply
                && pool.base_liquidity == total_raised,
    {
        if total_supply.is_zero() {
            return Err(PoolError::ZeroSupply);
        }
        if total_raised.is_zero() {
            return Err(PoolError::ZeroRaised);
        }
        let pool_id = join("pool-", token_id.as_str());
        let scaled = match total_raised.checked_mul(U256::from_u64(PRECISION)) {
            Some(v) => v,
            None => { return Err(PoolError::AmountConversionError); },
        };
        let initial_ratio = match scaled.checked_div(total_supply) {
            Some(v) => v,
            None => { return Err(PoolError::ZeroSupply); },
        };
        let tvl = match total_raised.checked_mul(U256::from_u64(2)) {
            Some(v) => v,
            None => { return Err(PoolError::AmountConversionError); },
        };
        Ok(
            PoolInfo {
                pool_id,
                token_id,
                token_liquidity: total_supply,
                base_liquidity: total_raised,
                initial_ratio,
                created_at,
                is_locked: true,
                lock_expires_at: None,
                trade_count: 0,
                tvl,
            },
        )
    }

    /// The price of a token in currency, scaled by `PRECISION`: the reserve
    /// of currency over the reserve of tokens. Zero where there are no
    /// tokens.
    pub fn current_price(&self) -> (price: U256)
        requires
            self.token_liquidity@ != 0 ==> self.base_liquidity@ * 1_000_000 <= u256_max(),
        ensures
            price@ == scaled_ratio(self.base_liquidity@, self.token_liquidity@),
    {
        if self.token_liquidity.is_zero() {
            return U256::zero();
        }
        let scaled = self.base_liquidity * U256::from_u64(PRECISION);
        proof {
            U256::lemma_from_nat(self.base_liquidity@ * 1_000_000);
        }
        let price = scaled / self.token_liquidity;
        proof {
            U256::lemma_from_nat(scaled@ / self.token_liquidity@);
        }
        price
    }
}

} // verus!
