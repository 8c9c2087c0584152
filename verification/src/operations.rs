//! The operations of the ledger: buying, selling, approving, transferring on
//! an allowance and graduating. Each either takes effect as a whole or
//! leaves the ledger as it was.

use crate::bonding_curve::{
    buy_cost, buy_fits, checked_current_price, creator_fee, lemma_integral_fits_below,
    lemma_integral_monotone, lemma_price_fits_where_integral_fits, lemma_sell_reverses_buy,
    sell_return, spot_price,
};
use crate::collections::AllowanceKey;
use crate::identifiers::{Account, Timestamp};
use crate::payments::{CallContext, Transfer};
use crate::token::{Phase, StateFault, TokenError, TokenState, TradeEntry, TradeId};
use crate::trading::{buy_transfers, plan_buy_transfers, plan_sell_transfers, sell_transfers};
use crate::types::{Message, TokenOperation, Trade};
use crate::uint256::{lemma_u256_bounded, lemma_u256_injective, u256_max, U256};
use vstd::prelude::*;

verus! {

broadcast use {lemma_u256_bounded, lemma_u256_injective};

/// What a trade did, and what remains to be done about it outside the ledger.
#[derive(Debug, PartialEq, Eq)]
pub struct TradeOutcome {
    /// The identity of the trade in the history.
    pub trade_id: TradeId,
    /// The cost of the purchase or the return of the sale, before the fee.
    pub currency_amount: U256,
    /// The creator's fee.
    pub fee: U256,
    /// The spot price after the trade.
    pub price: U256,
    /// The payments to carry out, in this order.
    pub transfers: Vec<Transfer>,
    /// The message to send to the pool, where the trade completed the curve.
    pub graduation: Option<Message>,
}

impl TokenState {
    /// Why a purchase is refused, if it is: what stops the quote, then what
    /// stops the payments, then a counter of the ledger without room.
    pub open spec fn buy_refusal(&self, ctx: CallContext, amount: U256, max_cost: U256) -> Option<
        TokenError,
    > {
        match self.buy_terms(amount, max_cost) {
            Err(e) => Some(e),
            Ok(quote) => match buy_transfers(quote, ctx, self.creator->Some_0) {
                Err(e) => Some(e),
                Ok(_) => if self.total_raised@ + quote.cost@ > u256_max() || self.balance_of(
                    ctx.caller(),
                ) + amount@ > u256_max() || self.position_balance(ctx.caller()) + amount@
                    > u256_max() || self.position_invested(ctx.caller()) + quote.cost@
                    > u256_max() || self.position_trades(ctx.caller()) + 1 > u64::MAX {
                    Some(TokenError::AmountConversionError)
                } else {
                    None
                },
            },
        }
    }

    /// Why a sale is refused, if it is.
    pub open spec fn sell_refusal(&self, ctx: CallContext, amount: U256, min_return: U256) -> Option<
        TokenError,
    > {
        match self.sell_terms(ctx.caller(), amount, min_return) {
            Err(e) => Some(e),
            Ok(quote) => match sell_transfers(quote, ctx, self.creator->Some_0) {
                Err(e) => Some(e),
                Ok(_) => if self.position_trades(ctx.caller()) + 1 > u64::MAX {
                    Some(TokenError::AmountConversionError)
                } else {
                    None
                },
            },
        }
    }

    /// Why a transfer on an allowance is refused, if it is: a zero amount, an
    /// allowance below the amount, a balance below the amount, or a
    /// recipient's balance without room, in this order.
    pub open spec fn transfer_refusal(
        &self,
        spender: Account,
        from: Account,
        to: Account,
        amount: U256,
    ) -> Option<TokenError> {
        if amount@ == 0 {
            Some(TokenError::InvalidAmount)
        } else if self.allowance_of(from, spender) < amount@ {
            Some(
                TokenError::InsufficientBalance {
                    have: U256::from_nat(self.allowance_of(from, spender)),
                    need: amount,
                },
            )
        } else if self.balance_of(from) < amount@ {
            Some(
                TokenError::InsufficientBalance {
                    have: U256::from_nat(self.balance_of(from)),
                    need: amount,
                },
            )
        } else if to != from && self.balance_of(to) + amount@ > u256_max() {
            Some(TokenError::AmountConversionError)
        } else {
            None
        }
    }

    /// How the ledger stands after a transfer of `amount` from `from` to `to`
    /// on the allowance of `spender`, where `before` is how it stood.
    pub open spec fn transferred(
        &self,
        before: TokenState,
        spender: Account,
        from: Account,
        to: Account,
        amount: U256,
    ) -> bool {
        &&& self.allowance_of(from, spender) == before.allowance_of(from, spender)
            - amount@
        &&& forall|o: Account, s: Account|
            (o != from || s != spender) ==> #[trigger] self.allowance_of(o, s)
                == before.allowance_of(o, s)
        &&& self.balance_of(from) == if to == from {
            before.balance_of(from) as int
        } else {
            before.balance_of(from) - amount@
        }
        &&& to != from ==> self.balance_of(to) == before.balance_of(to) + amount@
        &&& forall|other: Account|
            other != from && other != to ==> #[trigger] self.balance_of(other)
                == before.balance_of(other)
        &&& self.token_id == before.token_id
        &&& self.creator == before.creator
        &&& self.metadata == before.metadata
        &&& self.curve_config == before.curve_config
        &&& self.current_supply == before.current_supply
        &&& self.total_raised == before.total_raised
        &&& self.is_graduated == before.is_graduated
        &&& self.created_at == before.created_at
        &&& self.dex_pool_id == before.dex_pool_id
        &&& self.positions() == before.positions()
        &&& self.history() == before.history()
    }

    /// How the ledger stands after the caller bought `amount` for at most
    /// `max_cost` with the outcome `out`, where `before` is how it stood.
    pub open spec fn bought(
        &self,
        before: TokenState,
        ctx: CallContext,
        amount: U256,
        max_cost: U256,
        out: TradeOutcome,
    ) -> bool {
        let quote = before.buy_terms(amount, max_cost)->Ok_0;
        let caller = ctx.caller();
        let trade = Trade {
            token_id: before.token_id,
            trader: caller,
            is_buy: true,
            token_amount: amount,
            currency_amount: quote.cost,
            price: out.price,
            timestamp: ctx.now,
        };
        &&& before.phase() == Phase::Active
        &&& quote.cost@ == buy_cost(
            before.current_supply@,
            amount@,
            before.curve_config.k@,
            before.curve_config.scale@,
        )
        &&& quote.cost@ <= max_cost@
        &&& quote.fee@ == creator_fee(
            quote.cost@,
            before.curve_config.creator_fee_bps as nat,
        )
        &&& out.currency_amount == quote.cost
        &&& out.fee == quote.fee
        &&& out.price@ == spot_price(
            self.current_supply@,
            before.curve_config.k@,
            before.curve_config.scale@,
        )
        &&& Ok::<Seq<Transfer>, TokenError>(out.transfers@) == buy_transfers(
            quote,
            ctx,
            before.creator->Some_0,
        )
        &&& out.trade_id == TradeId {
            sequence: before.trade_total() as u64,
            micros: ctx.now.0,
        }
        &&& self.current_supply@ == before.current_supply@ + amount@
        &&& self.current_supply@ <= before.curve_config.max_supply@
        &&& self.total_raised@ == before.total_raised@ + quote.cost@
        &&& self.balance_of(caller) == before.balance_of(caller) + amount@
        &&& forall|other: Account|
            other != caller ==> #[trigger] self.balance_of(other) == before.balance_of(other)
        &&& self.history() == before.history().push(
            TradeEntry { id: out.trade_id, trade },
        )
        &&& self.position_balance(caller) == before.position_balance(caller)
            + amount@
        &&& self.position_invested(caller) == before.position_invested(caller)
            + quote.cost@
        &&& self.position_trades(caller) == before.position_trades(caller) + 1
        &&& self.positions().dom() == before.positions().dom().insert(caller)
        &&& self.positions()[caller].token_id == if before.positions().contains_key(caller) {
            before.positions()[caller].token_id
        } else {
            before.token_id
        }
        &&& forall|other: Account|
            other != caller && before.positions().contains_key(other)
                ==> #[trigger] self.positions()[other] == before.positions()[other]
        &&& self.is_graduated == (self.current_supply@ >= before.curve_config.max_supply@)
        &&& out.graduation == if self.is_graduated {
            Some(
                Message::GraduateToken {
                    token_id: before.token_id,
                    total_supply: self.current_supply,
                    total_raised: self.total_raised,
                },
            )
        } else {
            None::<Message>
        }
        &&& self.token_id == before.token_id
        &&& self.creator == before.creator
        &&& self.metadata == before.metadata
        &&& self.curve_config == before.curve_config
        &&& self.created_at == before.created_at
        &&& self.dex_pool_id == before.dex_pool_id
        &&& self.allowances() == before.allowances()
    }

    /// How the ledger stands after the caller sold `amount` for at least
    /// `min_return` with the outcome `out`, where `before` is how it stood.
    pub open spec fn sold(
        &self,
        before: TokenState,
        ctx: CallContext,
        amount: U256,
        min_return: U256,
        out: TradeOutcome,
    ) -> bool {
        let quote = before.sell_terms(ctx.caller(), amount, min_return)->Ok_0;
        let caller = ctx.caller();
        let trade = Trade {
            token_id: before.token_id,
            trader: caller,
            is_buy: false,
            token_amount: amount,
            currency_amount: quote.return_amount,
            price: out.price,
            timestamp: ctx.now,
        };
        &&& before.phase() == Phase::Active
        &&& quote.return_amount@ == sell_return(
            before.current_supply@,
            amount@,
            before.curve_config.k@,
            before.curve_config.scale@,
        )
        &&& quote.return_amount@ >= min_return@
        &&& quote.fee@ == creator_fee(
            quote.return_amount@,
            before.curve_config.creator_fee_bps as nat,
        )
        &&& out.currency_amount == quote.return_amount
        &&& out.fee == quote.fee
        &&& out.price@ == spot_price(
            self.current_supply@,
            before.curve_config.k@,
            before.curve_config.scale@,
        )
        &&& Ok::<Seq<Transfer>, TokenError>(out.transfers@) == sell_transfers(
            quote,
            ctx,
            before.creator->Some_0,
        )
        &&& out.graduation is None
        &&& out.trade_id == TradeId {
            sequence: before.trade_total() as u64,
            micros: ctx.now.0,
        }
        &&& self.current_supply@ == before.current_supply@ - amount@
        &&& self.total_raised@ == if quote.return_amount@ <= before.total_raised@ {
            before.total_raised@ - quote.return_amount@
        } else {
            0
        }
        &&& self.balance_of(caller) == before.balance_of(caller) - amount@
        &&& forall|other: Account|
            other != caller ==> #[trigger] self.balance_of(other) == before.balance_of(other)
        &&& self.history() == before.history().push(
            TradeEntry { id: out.trade_id, trade },
        )
        &&& self.position_balance(caller) == if amount@ <= before.position_balance(caller) {
            before.position_balance(caller) - amount@
        } else {
            0
        }
        &&& self.position_invested(caller) == before.position_invested(caller)
        &&& self.position_trades(caller) == before.position_trades(caller) + 1
        &&& self.positions().dom() == before.positions().dom().insert(caller)
        &&& self.positions()[caller].token_id == if before.positions().contains_key(caller) {
            before.positions()[caller].token_id
        } else {
            before.token_id
        }
        &&& forall|other: Account|
            other != caller && before.positions().contains_key(other)
                ==> #[trigger] self.positions()[other] == before.positions()[other]
        &&& self.token_id == before.token_id
        &&& self.creator == before.creator
        &&& self.metadata == before.metadata
        &&& self.curve_config == before.curve_config
        &&& self.is_graduated == before.is_graduated
        &&& self.created_at == before.created_at
        &&& self.dex_pool_id == before.dex_pool_id
        &&& self.allowances() == before.allowances()
    }

    /// A round trip on the ledger: who sells what they just bought is quoted
    /// the cost of the purchase as the return and the fee of the purchase as
    /// the fee, and the supply goes back to where it was. So the seller is
    /// left with less than the purchase cost wherever that fee is not zero.
    pub proof fn lemma_round_trip(
        &self,
        before: TokenState,
        ctx: CallContext,
        amount: U256,
        max_cost: U256,
        purchase: TradeOutcome,
        min_return: U256,
    )
        requires
            self.bought(before, ctx, amount, max_cost, purchase),
            self.sell_terms(ctx.caller(), amount, min_return) is Ok,
        ensures
            ({
                let sale = self.sell_terms(ctx.caller(), amount, min_return)->Ok_0;
                &&& sale.return_amount == purchase.currency_amount
                &&& sale.fee == purchase.fee
                &&& sale.new_supply == before.current_supply
                &&& purchase.fee@ >= 1 ==> sale.return_amount@ - sale.fee@
                    < purchase.currency_amount@
                &&& sale.return_amount@ - sale.fee@ <= purchase.currency_amount@
            }),
    {
        lemma_sell_reverses_buy(
            before.current_supply@,
            amount@,
            before.curve_config.k@,
            before.curve_config.scale@,
        );
        assert((self.current_supply@ - amount@) as nat == before.current_supply@);
        U256::lemma_from_nat_of_view(purchase.currency_amount);
        U256::lemma_from_nat_of_view(purchase.fee);
        U256::lemma_from_nat_of_view(before.current_supply);
    }

    /// Whether graduation is due: the ledger is active and the supply has
    /// reached the cap.
    pub open spec fn graduation_due(&self) -> bool {
        self.phase() == Phase::Active && self.current_supply@ >= self.curve_config.max_supply@
    }

    /// Hands the launch over to the pool. An active ledger whose supply has
    /// reached the cap becomes graduated and yields the message for the
    /// pool, with the totals at this moment; any other ledger stays as it is
    /// and yields nothing.
    pub fn execute_graduation(&mut self) -> (message: Option<Message>)
        requires
            old(self).wf(),
        ensures
            final(self).wf(),
            message is Some <==> old(self).graduation_due(),
            message is Some ==> message == Some(
                Message::GraduateToken {
                    token_id: old(self).token_id,
                    total_supply: old(self).current_supply,
                    total_raised: old(self).total_raised,
                },
            ) && final(self).is_graduated && final(self).phase() == Phase::Graduated,
            message is None ==> *final(self) == *old(self),
            old(self).is_graduated ==> final(self).is_graduated,
            final(self).token_id == old(self).token_id,
            final(self).creator == old(self).creator,
            final(self).metadata == old(self).metadata,
            final(self).curve_config == old(self).curve_config,
            final(self).current_supply == old(self).current_supply,
            final(self).total_raised == old(self).total_raised,
            final(self).created_at == old(self).created_at,
            final(self).dex_pool_id == old(self).dex_pool_id,
            final(self).balances == old(self).balances,
            final(self).trades == old(self).trades,
            final(self).user_positions == old(self).user_positions,
            final(self).allowances == old(self).allowances,
    {
        if !self.is_curve_complete() {
            return None;
        }
        match self.current_phase() {
            Phase::Active => {},
            _ => {
                return None;
            },
        }
        self.is_graduated = true;
        Some(
            Message::GraduateToken {
                token_id: self.token_id.clone(),
                total_supply: self.current_supply,
                total_raised: self.total_raised,
            },
        )
    }

    /// Takes note of the pool that the pool actor created for the launch.
    /// The ledger is graduated from now on; the first pool that it hears of
    /// stays its pool, whatever comes later.
    pub fn record_pool(&mut self, pool_id: String)
        requires
            old(self).wf(),
        ensures
            final(self).wf(),
            final(self).is_graduated,
            final(self).dex_pool_id == match old(self).dex_pool_id {
                Some(known) => Some(known),
                None => Some(pool_id),
            },
            final(self).token_id == old(self).token_id,
            final(self).creator == old(self).creator,
            final(self).metadata == old(self).metadata,
            final(self).curve_config == old(self).curve_config,
            final(self).current_supply == old(self).current_supply,
            final(self).total_raised == old(self).total_raised,
            final(self).created_at == old(self).created_at,
            final(self).balances == old(self).balances,
            final(self).trades == old(self).trades,
            final(self).user_positions == old(self).user_positions,
            final(self).allowances == old(self).allowances,
    {
        self.is_graduated = true;
        if self.dex_pool_id.is_none() {
            self.dex_pool_id = Some(pool_id);
        }
    }

    /// Lets `spender` move up to `amount` of the tokens of `owner`, whatever
    /// was allowed before.
    pub fn execute_approve(&mut self, owner: Account, spender: Account, amount: U256)
        requires
            old(self).wf(),
        ensures
            final(self).wf(),
            final(self).allowance_of(owner, spender) == amount@,
            forall|o: Account, s: Account|
                (o != owner || s != spender) ==> #[trigger] final(self).allowance_of(o, s) == old(
                    self,
                ).allowance_of(o, s),
            final(self).allowances() == old(self).allowances().insert(
                AllowanceKey { owner, spender },
                amount,
            ),
            final(self).token_id == old(self).token_id,
            final(self).creator == old(self).creator,
            final(self).metadata == old(self).metadata,
            final(self).curve_config == old(self).curve_config,
            final(self).current_supply == old(self).current_supply,
            final(self).total_raised == old(self).total_raised,
            final(self).is_graduated == old(self).is_graduated,
            final(self).created_at == old(self).created_at,
            final(self).dex_pool_id == old(self).dex_pool_id,
            final(self).balances() == old(self).balances(),
            final(self).holders() == old(self).holders(),
            final(self).circulating() == old(self).circulating(),
            final(self).positions() == old(self).positions(),
            final(self).history() == old(self).history(),
    {
        self.set_allowance(owner, spender, amount);
    }

    /// Moves `amount` tokens from `from` to `to` on the allowance that `from`
    /// gave to `spender`. A transfer beyond the allowance or beyond the
    /// balance is refused and changes nothing.
    pub fn execute_transfer_from(
        &mut self,
        spender: Account,
        from: Account,
        to: Account,
        amount: U256,
    ) -> (r: Result<(), TokenError>)
        requires
            old(self).wf(),
        ensures
            final(self).wf(),
            r is Err <==> old(self).transfer_refusal(spender, from, to, amount) is Some,
            r matches Err(e) ==> Some(e) == old(self).transfer_refusal(spender, from, to, amount)
                && *final(self) == *old(self),
            amount@ > old(self).allowance_of(from, spender) ==> r is Err && *final(self) == *old(
                self,
            ),
            r is Ok ==> final(self).transferred(*old(self), spender, from, to, amount),
            final(self).circulating() == old(self).circulating(),
            old(self).backed() ==> final(self).backed(),
            old(self).funded() ==> final(self).funded(),
    {
        if amount.is_zero() {
            return Err(TokenError::InvalidAmount);
        }
        let allowance = self.get_allowance(&from, &spender);
        proof {
            U256::lemma_from_nat_of_view(allowance);
        }
        if allowance.lt(&amount) {
            return Err(TokenError::InsufficientBalance { have: allowance, need: amount });
        }
        let from_balance = self.get_balance(&from);
        proof {
            U256::lemma_from_nat_of_view(from_balance);
        }
        if from_balance.lt(&amount) {
            return Err(TokenError::InsufficientBalance { have: from_balance, need: amount });
        }
        let debited = from_balance.saturating_sub(amount);
        let to_base = if to == from {
            debited
        } else {
            self.get_balance(&to)
        };
        let credited = match to_base.checked_add(amount) {
            Some(v) => v,
            None => { return Err(TokenError::AmountConversionError); },
        };
        let ghost before = *self;
        self.decrease_allowance(&from, &spender, amount);
        let ghost lowered = *self;
        self.set_balance(from, debited);
        self.set_balance(to, credited);
        proof {
            assert forall|o: Account, s: Account| (o != from || s != spender) implies #[trigger]
                self.allowance_of(o, s) == before.allowance_of(o, s) by {
                assert(lowered.allowance_of(o, s) == before.allowance_of(o, s));
            }
        }
        Ok(())
    }

    /// Buys `amount` tokens for the caller for at most `max_cost`. The cost
    /// is the integral of the price over the purchase; the creator's fee is
    /// taken out of it and the rest goes to the ledger's own funds. A
    /// purchase that takes the supply to the cap graduates the launch. A
    /// refused purchase changes nothing.
    pub fn execute_buy(&mut self, ctx: &CallContext, amount: U256, max_cost: U256) -> (r: Result<
        TradeOutcome,
        TokenError,
    >)
        requires
            old(self).wf(),
        ensures
            final(self).wf(),
            r is Err <==> old(self).buy_refusal(*ctx, amount, max_cost) is Some,
            r matches Err(e) ==> Some(e) == old(self).buy_refusal(*ctx, amount, max_cost)
                && *final(self) == *old(self),
            old(self).current_supply@ + amount@ > old(self).curve_config.max_supply@ ==> r is Err
                && *final(self) == *old(self),
            old(self).current_supply@ + amount@ > old(self).curve_config.max_supply@ && old(
                self,
            ).phase() == Phase::Active && buy_fits(
                old(self).current_supply@,
                amount@,
                old(self).curve_config.k@,
                old(self).curve_config.scale@,
            ) && buy_cost(
                old(self).current_supply@,
                amount@,
                old(self).curve_config.k@,
                old(self).curve_config.scale@,
            ) <= max_cost@ ==> r == Err::<TradeOutcome, TokenError>(
                TokenError::ExceedsMaxSupply {
                    current: old(self).current_supply,
                    adding: amount,
                    max: old(self).curve_config.max_supply,
                },
            ),
            r matches Ok(out) ==> final(self).bought(*old(self), *ctx, amount, max_cost, out),
            r is Ok ==> final(self).circulating() == old(self).circulating() + amount@,
            old(self).backed() ==> final(self).backed(),
            old(self).funded() ==> final(self).funded(),
    {
        let quote = match self.quote_buy(amount, max_cost) {
            Ok(q) => q,
            Err(e) => { return Err(e); },
        };
        let creator = match self.creator {
            Some(c) => c,
            None => { return Err(TokenError::StateError(StateFault::NotInitialized)); },
        };
        let transfers = match plan_buy_transfers(&quote, ctx, creator) {
            Ok(t) => t,
            Err(e) => { return Err(e); },
        };
        let caller = ctx.owner_account();
        let config = self.curve_config;
        proof {
            U256::lemma_from_nat(
                buy_cost(self.current_supply@, amount@, config.k@, config.scale@),
            );
            U256::lemma_from_nat(self.current_supply@ + amount@);
            U256::lemma_from_nat(
                creator_fee(
                    buy_cost(self.current_supply@, amount@, config.k@, config.scale@),
                    config.creator_fee_bps as nat,
                ),
            );
            lemma_price_fits_where_integral_fits(
                self.current_supply@ + amount@,
                config.k@,
                config.scale@,
            );
            lemma_integral_monotone(
                self.current_supply@,
                self.current_supply@ + amount@,
                config.k@,
                config.scale@,
            );
        }
        let new_raised = match self.total_raised.checked_add(quote.cost) {
            Some(v) => v,
            None => { return Err(TokenError::AmountConversionError); },
        };
        let balance = self.get_balance(&caller);
        let new_balance = match balance.checked_add(amount) {
            Some(v) => v,
            None => { return Err(TokenError::AmountConversionError); },
        };
        let price = match checked_current_price(quote.new_supply, config.k, config.scale) {
            Some(v) => v,
            None => { return Err(TokenError::AmountConversionError); },
        };
        let trade = Trade {
            token_id: self.token_id.clone(),
            trader: caller,
            is_buy: true,
            token_amount: amount,
            currency_amount: quote.cost,
            price,
            timestamp: ctx.now,
        };
        let trade_id = match self.record_trade(trade) {
            Ok(id) => id,
            Err(e) => { return Err(e); },
        };
        self.current_supply = quote.new_supply;
        self.total_raised = new_raised;
        self.set_balance(caller, new_balance);
        let graduation = if self.is_curve_complete() {
            self.execute_graduation()
        } else {
            None
        };
        Ok(
            TradeOutcome {
                trade_id,
                currency_amount: quote.cost,
                fee: quote.fee,
                price,
                transfers,
                graduation,
            },
        )
    }

    /// Sells `amount` of the caller's tokens for at least `min_return`. The
    /// return is the integral of the price over the sale; the creator's fee
    /// is taken out of it and the rest goes to the seller, both out of the
    /// ledger's own funds. A refused sale changes nothing.
    pub fn execute_sell(&mut self, ctx: &CallContext, amount: U256, min_return: U256) -> (r:
        Result<TradeOutcome, TokenError>)
        requires
            old(self).wf(),
        ensures
            final(self).wf(),
            r is Err <==> old(self).sell_refusal(*ctx, amount, min_return) is Some,
            r matches Err(e) ==> Some(e) == old(self).sell_refusal(*ctx, amount, min_return)
                && *final(self) == *old(self),
            r matches Ok(out) ==> final(self).sold(*old(self), *ctx, amount, min_return, out),
            r is Ok ==> final(self).circulating() == old(self).circulating() - amount@,
            old(self).backed() ==> final(self).backed(),
            old(self).funded() ==> final(self).funded(),
    {
        let caller = ctx.owner_account();
        let quote = match self.quote_sell(&caller, amount, min_return) {
            Ok(q) => q,
            Err(e) => { return Err(e); },
        };
        let creator = match self.creator {
            Some(c) => c,
            None => { return Err(TokenError::StateError(StateFault::NotInitialized)); },
        };
        let transfers = match plan_sell_transfers(&quote, ctx, creator) {
            Ok(t) => t,
            Err(e) => { return Err(e); },
        };
        let config = self.curve_config;
        proof {
            U256::lemma_from_nat(
                sell_return(self.current_supply@, amount@, config.k@, config.scale@),
            );
            U256::lemma_from_nat((self.current_supply@ - amount@) as nat);
            U256::lemma_from_nat(
                creator_fee(
                    sell_return(self.current_supply@, amount@, config.k@, config.scale@),
                    config.creator_fee_bps as nat,
                ),
            );
            lemma_integral_fits_below(
                (self.current_supply@ - amount@) as nat,
                self.current_supply@,
                config.k@,
                config.scale@,
            );
            lemma_price_fits_where_integral_fits(
                (self.current_supply@ - amount@) as nat,
                config.k@,
                config.scale@,
            );
            lemma_integral_monotone(
                (self.current_supply@ - amount@) as nat,
                self.current_supply@,
                config.k@,
                config.scale@,
            );
        }
        let balance = self.get_balance(&caller);
        let new_balance = balance.saturating_sub(amount);
        let new_raised = self.total_raised.saturating_sub(quote.return_amount);
        let price = match checked_current_price(quote.new_supply, config.k, config.scale) {
            Some(v) => v,
            None => { return Err(TokenError::AmountConversionError); },
        };
        let trade = Trade {
            token_id: self.token_id.clone(),
            trader: caller,
            is_buy: false,
            token_amount: amount,
            currency_amount: quote.return_amount,
            price,
            timestamp: ctx.now,
        };
        let trade_id = match self.record_trade(trade) {
            Ok(id) => id,
            Err(e) => { return Err(e); },
        };
        self.current_supply = quote.new_supply;
        self.total_raised = new_raised;
        self.set_balance(caller, new_balance);
        Ok(
            TradeOutcome {
                trade_id,
                currency_amount: quote.return_amount,
                fee: quote.fee,
                price,
                transfers,
                graduation: None,
            },
        )
    }

    /// Carries out an operation that a user submitted to the ledger on behalf
    /// of the caller that `ctx` names. An initialization gives the ledger
    /// the identity `token_label`. Each operation takes effect as the
    /// function of its own does, and a refused one changes nothing.
    pub fn execute_operation(
        &mut self,
        ctx: &CallContext,
        token_label: String,
        operation: TokenOperation,
    ) -> (r: Result<OperationOutcome, TokenError>)
        requires
            old(self).wf(),
        ensures
            final(self).wf(),
            r is Err ==> *final(self) == *old(self),
            old(self).is_graduated ==> final(self).is_graduated,
            old(self).dex_pool_id is Some ==> final(self).dex_pool_id == old(self).dex_pool_id,
            old(self).creator is Some ==> final(self).creator == old(self).creator
                && final(self).curve_config == old(self).curve_config,
            old(self).backed() && (old(self).creator is Some || old(self).current_supply@ == 0)
                ==> final(self).backed(),
            old(self).funded() && old(self).creator is Some ==> final(self).funded(),
            match operation {
                TokenOperation::Initialize { creator, metadata, curve_config } => {
                    &&& r is Ok <==> old(self).phase() == Phase::Uninitialized
                    &&& r matches Err(e) ==> Some(e) == old(self).initialization_refusal()
                    &&& r matches Ok(out) ==> out is Initialized && final(self).initialized_from(
                        *old(self),
                        token_label,
                        creator,
                        metadata,
                        curve_config,
                        ctx.now,
                    )
                },
                TokenOperation::Buy { amount, max_cost } => {
                    &&& r is Err <==> old(self).buy_refusal(*ctx, amount, max_cost) is Some
                    &&& r matches Err(e) ==> Some(e) == old(self).buy_refusal(
                        *ctx,
                        amount,
                        max_cost,
                    )
                    &&& r matches Ok(out) ==> out matches OperationOutcome::Traded(trade)
                        && final(self).bought(*old(self), *ctx, amount, max_cost, trade)
                },
                TokenOperation::Sell { amount, min_return } => {
                    &&& r is Err <==> old(self).sell_refusal(*ctx, amount, min_return) is Some
                    &&& r matches Err(e) ==> Some(e) == old(self).sell_refusal(
                        *ctx,
                        amount,
                        min_return,
                    )
                    &&& r matches Ok(out) ==> out matches OperationOutcome::Traded(trade)
                        && final(self).sold(*old(self), *ctx, amount, min_return, trade)
                },
                TokenOperation::Graduate => {
                    &&& r matches Ok(OperationOutcome::Graduation(message))
                    &&& message is Some <==> old(self).graduation_due()
                    &&& message is Some ==> message == Some(
                        Message::GraduateToken {
                            token_id: old(self).token_id,
                            total_supply: old(self).current_supply,
                            total_raised: old(self).total_raised,
                        },
                    ) && final(self).phase() == Phase::Graduated
                    &&& message is None ==> *final(self) == *old(self)
                },
                TokenOperation::Approve { spender, amount } => {
                    &&& r matches Ok(OperationOutcome::Approved)
                    &&& final(self).allowances() == old(self).allowances().insert(
                        AllowanceKey { owner: ctx.caller(), spender },
                        amount,
                    )
                    &&& final(self).allowance_of(ctx.caller(), spender) == amount@
                    &&& final(self).balances() == old(self).balances()
                    &&& final(self).current_supply == old(self).current_supply
                    &&& final(self).total_raised == old(self).total_raised
                    &&& final(self).is_graduated == old(self).is_graduated
                },
                TokenOperation::TransferFrom { from, to, amount } => {
                    &&& r is Err <==> old(self).transfer_refusal(ctx.caller(), from, to, amount)
                        is Some
                    &&& r matches Err(e) ==> Some(e) == old(self).transfer_refusal(
                        ctx.caller(),
                        from,
                        to,
                        amount,
                    )
                    &&& r matches Ok(out) ==> out is Transferred && final(self).transferred(
                        *old(self),
                        ctx.caller(),
                        from,
                        to,
                        amount,
                    )
                },
            },
    {
        match operation {
            TokenOperation::Initialize { creator, metadata, curve_config } => {
                match self.initialize(token_label, creator, metadata, curve_config, ctx.now) {
                    Ok(()) => Ok(OperationOutcome::Initialized),
                    Err(e) => Err(e),
                }
            },
            TokenOperation::Buy { amount, max_cost } => {
                match self.execute_buy(ctx, amount, max_cost) {
                    Ok(out) => Ok(OperationOutcome::Traded(out)),
                    Err(e) => Err(e),
                }
            },
            TokenOperation::Sell { amount, min_return } => {
                match self.execute_sell(ctx, amount, min_return) {
                    Ok(out) => Ok(OperationOutcome::Traded(out)),
                    Err(e) => Err(e),
                }
            },
            TokenOperation::Graduate => Ok(OperationOutcome::Graduation(self.execute_graduation())),
            TokenOperation::Approve { spender, amount } => {
                self.execute_approve(ctx.owner_account(), spender, amount);
                Ok(OperationOutcome::Approved)
            },
            TokenOperation::TransferFrom { from, to, amount } => {
                match self.execute_transfer_from(ctx.owner_account(), from, to, amount) {
                    Ok(()) => Ok(OperationOutcome::Transferred),
                    Err(e) => Err(e),
                }
            },
        }
    }

    /// Takes a message from another actor at the time `now`. The creation of
    /// the launch initializes the ledger, and the creation of its pool makes
    /// it graduated and names the pool. Every other message changes nothing.
    pub fn execute_message(&mut self, message: Message, now: Timestamp) -> (r: Result<
        (),
        TokenError,
    >)
        requires
            old(self).wf(),
        ensures
            final(self).wf(),
            r is Err ==> *final(self) == *old(self),
            old(self).is_graduated ==> final(self).is_graduated,
            old(self).dex_pool_id is Some ==> final(self).dex_pool_id == old(self).dex_pool_id,
            old(self).creator is Some ==> final(self).creator == old(self).creator
                && final(self).curve_config == old(self).curve_config,
            old(self).backed() && (old(self).creator is Some || old(self).current_supply@ == 0)
                ==> final(self).backed(),
            old(self).funded() && old(self).creator is Some ==> final(self).funded(),
            match message {
                Message::TokenCreated { token_id, creator, metadata, curve_config } => {
                    &&& r is Ok <==> old(self).phase() == Phase::Uninitialized
                    &&& r matches Err(e) ==> Some(e) == old(self).initialization_refusal()
                    &&& r is Ok ==> final(self).initialized_from(
                        *old(self),
                        token_id,
                        creator,
                        metadata,
                        curve_config,
                        now,
                    )
                },
                Message::PoolCreated { token_id, pool_id } => {
                    &&& r is Ok
                    &&& final(self).is_graduated
                    &&& final(self).dex_pool_id == match old(self).dex_pool_id {
                        Some(known) => Some(known),
                        None => Some(pool_id),
                    }
                    &&& final(self).token_id == old(self).token_id
                    &&& final(self).creator == old(self).creator
                    &&& final(self).curve_config == old(self).curve_config
                    &&& final(self).current_supply == old(self).current_supply
                    &&& final(self).total_raised == old(self).total_raised
                    &&& final(self).balances == old(self).balances
                    &&& final(self).trades == old(self).trades
                    &&& final(self).user_positions == old(self).user_positions
                    &&& final(self).allowances == old(self).allowances
                },
                _ => r is Ok && *final(self) == *old(self),
            },
    {
        match message {
            Message::TokenCreated { token_id, creator, metadata, curve_config } => {
                self.initialize(token_id, creator, metadata, curve_config, now)
            },
            Message::PoolCreated { token_id, pool_id } => {
                self.record_pool(pool_id);
                Ok(())
            },
            _ => Ok(()),
        }
    }
}

/// What an operation of the ledger did.
#[derive(Debug, PartialEq, Eq)]
pub enum OperationOutcome {
    /// The ledger was initialized.
    Initialized,
    /// A purchase or a sale took place.
    Traded(TradeOutcome),
    /// Graduation was asked for; it fired, and the message is to be sent,
    /// where the ledger was active with its supply at the cap.
    Graduation(Option<Message>),
    /// An allowance was set.
    Approved,
    /// Tokens were moved on an allowance.
    Transferred,
}

} // verus!
