//! Swaps against a locked pool, and the operations and messages of the pool
//! actor.

use crate::identifiers::Timestamp;
use crate::pool::{lemma_swap_output_bounded, swap_output, PoolInfo};
use crate::swap::{GraduationOutcome, SwapError, SwapState};
use crate::types::{Message, SwapOperation};
use crate::uint256::{lemma_u256_bounded, lemma_u256_injective, u256_max, U256};
use vstd::prelude::*;

verus! {

broadcast use {lemma_u256_bounded, lemma_u256_injective};

/// The pool `pool` after a swap of `amount_in` tokens that paid out
/// `amount_out`: the tokens joined their reserve, the payout left the
/// currency reserve, and one more swap is counted. Nothing else changed.
pub open spec fn swapped(pool: PoolInfo, after: PoolInfo, amount_in: nat, amount_out: nat) -> bool {
    &&& after.token_liquidity@ == pool.token_liquidity@ + amount_in
    &&& after.base_liquidity@ == pool.base_liquidity@ - amount_out
    &&& after.trade_count == pool.trade_count + 1
    &&& after.pool_id == pool.pool_id
    &&& after.token_id == pool.token_id
    &&& after.initial_ratio == pool.initial_ratio
    &&& after.created_at == pool.created_at
    &&& after.is_locked == pool.is_locked
    &&& after.lock_expires_at == pool.lock_expires_at
    &&& after.tvl == pool.tvl
}

impl SwapState {
    /// Why a swap is refused, if it is: a zero amount, no such pool, numbers
    /// beyond 256 bits, a payout below `min_amount_out`, or a swap counter
    /// without room, in this order.
    pub open spec fn swap_refusal(&self, pool_id: String, amount_in: U256, min_amount_out: U256) -> Option<
        SwapError,
    > {
        if amount_in@ == 0 {
            Some(SwapError::InvalidAmount)
        } else if !self.pools@.contains_key(pool_id@) {
            Some(SwapError::PoolNotFound(pool_id))
        } else {
            let pool = self.pools@[pool_id@];
            let out = swap_output(amount_in@, pool.token_liquidity@, pool.base_liquidity@);
            if amount_in@ * pool.base_liquidity@ > u256_max() || pool.token_liquidity@
                + amount_in@ > u256_max() {
                Some(SwapError::AmountConversionError)
            } else if out < min_amount_out@ {
                Some(SwapError::SlippageExceeded { got: U256::from_nat(out), min: min_amount_out })
            } else if pool.trade_count == u64::MAX {
                Some(SwapError::AmountConversionError)
            } else {
                None
            }
        }
    }

    /// Refuses to add liquidity, whatever is offered to whatever pool: every
    /// pool is locked for good.
    pub fn add_liquidity(&self, pool_id: String, token_amount: U256, base_amount: U256) -> (r:
        Result<(), SwapError>)
        ensures
            r == Err::<(), SwapError>(SwapError::PoolLocked),
    {
        Err(SwapError::PoolLocked)
    }

    /// Swaps `amount_in` tokens into the pool for currency by the
    /// constant-product rule: the payout is
    /// `amount_in * currency / (tokens + amount_in)`, rounded down. A payout
    /// below `min_amount_out` is refused, and a refused swap changes nothing.
    /// The swap always goes from tokens to currency: `token_in` is not
    /// consulted.
    pub fn execute_swap(
        &mut self,
        pool_id: String,
        token_in: String,
        amount_in: U256,
        min_amount_out: U256,
    ) -> (r: Result<(), SwapError>)
        requires
            old(self).wf(),
        ensures
            final(self).wf(),
            r is Err <==> old(self).swap_refusal(pool_id, amount_in, min_amount_out) is Some,
            r matches Err(e) ==> Some(e) == old(self).swap_refusal(
                pool_id,
                amount_in,
                min_amount_out,
            ) && *final(self) == *old(self),
            old(self).pools@.contains_key(pool_id@) && swap_output(
                amount_in@,
                old(self).pools@[pool_id@].token_liquidity@,
                old(self).pools@[pool_id@].base_liquidity@,
            ) < min_amount_out@ ==> r is Err && *final(self) == *old(self),
            r is Ok ==> {
                let pool = old(self).pools@[pool_id@];
                let out = swap_output(amount_in@, pool.token_liquidity@, pool.base_liquidity@);
                &&& out >= min_amount_out@
                &&& out <= pool.base_liquidity@
                &&& final(self).pools@.dom() == old(self).pools@.dom()
                &&& swapped(pool, final(self).pools@[pool_id@], amount_in@, out)
                &&& forall|other: Seq<char>|
                    other != pool_id@ && old(self).pools@.contains_key(other)
                        ==> #[trigger] final(self).pools@[other] == old(self).pools@[other]
                &&& final(self).pools.ids() == old(self).pools.ids()
                &&& final(self).token_to_pool == old(self).token_to_pool
                &&& final(self).total_pools == old(self).total_pools
                &&& final(self).total_tvl == old(self).total_tvl
                &&& final(self).created_at == old(self).created_at
            },
    {
        let ghost before = *self;
        if amount_in.is_zero() {
            return Err(SwapError::InvalidAmount);
        }
        let pool = match self.pools.get(&pool_id) {
            Some(p) => p.clone(),
            None => { return Err(SwapError::PoolNotFound(pool_id)); },
        };
        let numerator = match amount_in.checked_mul(pool.base_liquidity) {
            Some(v) => v,
            None => { return Err(SwapError::AmountConversionError); },
        };
        let new_tokens = match pool.token_liquidity.checked_add(amount_in) {
            Some(v) => v,
            None => { return Err(SwapError::AmountConversionError); },
        };
        let amount_out = match numerator.checked_div(new_tokens) {
            Some(v) => v,
            None => { return Err(SwapError::AmountConversionError); },
        };
        proof {
            U256::lemma_from_nat_of_view(amount_out);
            lemma_swap_output_bounded(amount_in@, pool.token_liquidity@, pool.base_liquidity@);
        }
        if amount_out.lt(&min_amount_out) {
            return Err(SwapError::SlippageExceeded { got: amount_out, min: min_amount_out });
        }
        let new_base = pool.base_liquidity.saturating_sub(amount_out);
        let new_count = match pool.trade_count.checked_add(1) {
            Some(v) => v,
            None => { return Err(SwapError::AmountConversionError); },
        };
        let ghost id = pool_id@;
        let updated = PoolInfo {
            pool_id: pool.pool_id,
            token_id: pool.token_id,
            token_liquidity: new_tokens,
            base_liquidity: new_base,
            initial_ratio: pool.initial_ratio,
            created_at: pool.created_at,
            is_locked: pool.is_locked,
            lock_expires_at: pool.lock_expires_at,
            trade_count: new_count,
            tvl: pool.tvl,
        };
        proof {
            assert(new_base@ * 1_000_000 <= pool.base_liquidity@ * 1_000_000);
        }
        self.pools.insert(pool_id, updated);
        proof {
            assert(self.pools@.dom() =~= before.pools@.dom());
            assert forall|other: Seq<char>| #[trigger] self.pools@.contains_key(other) implies self.pools@[other].wf()
                && self.pools@[other].pool_id@ == other && self.token_to_pool@.contains_key(
                self.pools@[other].token_id@,
            ) by {
                assert(before.pools@.contains_key(other));
            }
            assert forall|t: Seq<char>| #[trigger] self.token_to_pool@.contains_key(t) implies self.token_to_pool@[t]@
                == crate::pool::pool_id_of(t) && self.pools@.contains_key(
                crate::pool::pool_id_of(t),
            ) by {
                assert(before.token_to_pool@.contains_key(t));
            }
        }
        Ok(())
    }

    /// Carries out an operation that a user submitted to the pool actor.
    pub fn execute_operation(&mut self, operation: SwapOperation) -> (r: Result<(), SwapError>)
        requires
            old(self).wf(),
        ensures
            final(self).wf(),
            match operation {
                SwapOperation::AddLiquidity { pool_id, token_amount, base_amount } => r == Err::<
                    (),
                    SwapError,
                >(SwapError::PoolLocked) && *final(self) == *old(self),
                SwapOperation::Swap { pool_id, token_in, amount_in, min_amount_out } => {
                    &&& r is Err <==> old(self).swap_refusal(pool_id, amount_in, min_amount_out)
                        is Some
                    &&& r matches Err(e) ==> Some(e) == old(self).swap_refusal(
                        pool_id,
                        amount_in,
                        min_amount_out,
                    ) && *final(self) == *old(self)
                    &&& r is Ok ==> final(self).pools@.dom() == old(self).pools@.dom() && swapped(
                        old(self).pools@[pool_id@],
                        final(self).pools@[pool_id@],
                        amount_in@,
                        swap_output(
                            amount_in@,
                            old(self).pools@[pool_id@].token_liquidity@,
                            old(self).pools@[pool_id@].base_liquidity@,
                        ),
                    )
                },
            },
    {
        match operation {
            SwapOperation::AddLiquidity { pool_id, token_amount, base_amount } => {
                self.add_liquidity(pool_id, token_amount, base_amount)
            },
            SwapOperation::Swap { pool_id, token_in, amount_in, min_amount_out } => {
                self.execute_swap(pool_id, token_in, amount_in, min_amount_out)
            },
        }
    }

    /// Takes a message from another actor. Only the graduation of a launch
    /// concerns the pool actor; every other message is ignored and yields
    /// nothing.
    pub fn execute_message(&mut self, message: Message, now: Timestamp) -> (outcome: Option<
        GraduationOutcome,
    >)
        requires
            old(self).wf(),
        ensures
            final(self).wf(),
            match message {
                Message::GraduateToken { token_id, total_supply, total_raised } => outcome
                    is Some && final(self).graduation_step(
                    *old(self),
                    token_id@,
                    total_supply@,
                    total_raised@,
                    now,
                    outcome->Some_0,
                ),
                _ => outcome is None && *final(self) == *old(self),
            },
    {
        match message {
            Message::GraduateToken { token_id, total_supply, total_raised } => {
                Some(self.handle_graduation(token_id, total_supply, total_raised, now))
            },
            _ => None,
        }
    }
}

} // verus!
