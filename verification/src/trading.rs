//! Trading on the curve: what a purchase or a sale costs, who is paid, and
//! how the ledger changes.

use crate::amount::{attos_of_tokens, Amount};
use crate::bonding_curve::{
    buy_cost, buy_fits, checked_buy_cost, checked_creator_fee, checked_sell_return, creator_fee,
    sell_fits, sell_return,
};
use crate::identifiers::Account;
use crate::payments::{
    covered_by_owner, fund_account, funding_transfers, payout_transfers, transfer_from_application,
    transfers_view, u256_to_amount, CallContext, Transfer,
};
use crate::token::{Phase, StateFault, TokenError, TokenState};
use crate::uint256::{lemma_u256_bounded, lemma_u256_injective, u256_max, U256};
use vstd::prelude::*;

verus! {

broadcast use {lemma_u256_bounded, lemma_u256_injective};

/// What a purchase comes to, before anything is paid or recorded.
#[derive(Clone, Copy, Debug, PartialEq, Eq, Structural)]
pub struct BuyQuote {
    /// The cost on the curve.
    pub cost: U256,
    /// The creator's fee, taken out of the cost.
    pub fee: U256,
    /// The supply after the purchase.
    pub new_supply: U256,
    /// The fee in native currency.
    pub native_fee: Amount,
    /// What goes to the ledger's own funds in native currency.
    pub native_to_app: Amount,
}

/// What a sale comes to, before anything is paid or recorded.
#[derive(Clone, Copy, Debug, PartialEq, Eq, Structural)]
pub struct SellQuote {
    /// The return on the curve.
    pub return_amount: U256,
    /// The creator's fee, taken out of the return.
    pub fee: U256,
    /// The supply after the sale.
    pub new_supply: U256,
    /// The fee in native currency.
    pub native_fee: Amount,
    /// What the seller receives in native currency.
    pub native_net: Amount,
}

/// The native amount for `value` tokens, where `value` fits in 128 bits.
pub open spec fn native_of(value: nat) -> Amount {
    Amount(attos_of_tokens(value) as u128)
}

/// What is left of a native balance after `amount` was taken from it as far
/// as it went.
pub open spec fn balance_after(balance: Amount, amount: Amount) -> Amount {
    Amount((balance.0 - covered_by_owner(amount, balance).0) as u128)
}

/// The transfers that pay for a purchase: the fee to the creator, then the
/// rest to the ledger's own funds, each as far as it is not zero. The second
/// payment sees the signer's balance as the first left it.
pub open spec fn buy_transfers(quote: BuyQuote, ctx: CallContext, creator: Account) -> Result<
    Seq<Transfer>,
    TokenError,
> {
    if quote.native_fee.0 == 0 && quote.native_to_app.0 == 0 {
        Ok(Seq::<Transfer>::empty())
    } else if ctx.signer is None {
        Err(TokenError::StateError(StateFault::NoSigner))
    } else {
        let signer = ctx.signer->Some_0;
        let first = if quote.native_fee.0 > 0 {
            funding_transfers(
                creator,
                quote.native_fee,
                signer,
                ctx.signer_balance,
                ctx.signer_owns_chain,
            )
        } else {
            Ok(Seq::<Transfer>::empty())
        };
        let remaining = if quote.native_fee.0 > 0 {
            balance_after(ctx.signer_balance, quote.native_fee)
        } else {
            ctx.signer_balance
        };
        let second = if quote.native_to_app.0 > 0 {
            funding_transfers(
                ctx.treasury(),
                quote.native_to_app,
                signer,
                remaining,
                ctx.signer_owns_chain,
            )
        } else {
            Ok(Seq::<Transfer>::empty())
        };
        match first {
            Err(e) => Err(e),
            Ok(t1) => match second {
                Err(e) => Err(e),
                Ok(t2) => Ok(t1 + t2),
            },
        }
    }
}

/// The transfers that pay out a sale from the ledger's own funds: the fee to
/// the creator, then the rest to the seller. The second payment sees the
/// funds as the first left them.
pub open spec fn sell_transfers(quote: SellQuote, ctx: CallContext, creator: Account) -> Result<
    Seq<Transfer>,
    TokenError,
> {
    let first = payout_transfers(creator, quote.native_fee, ctx.application, ctx.application_balance);
    match first {
        Err(e) => Err(e),
        Ok(t1) => {
            let remaining = Amount((ctx.application_balance.0 - quote.native_fee.0) as u128);
            match payout_transfers(ctx.caller(), quote.native_net, ctx.application, remaining) {
                Err(e) => Err(e),
                Ok(t2) => Ok(t1 + t2),
            }
        },
    }
}

impl TokenState {
    /// What buying `amount` for at most `max_cost` comes to in this state, or
    /// why the purchase is refused: a zero amount, a ledger that is not
    /// active, numbers beyond 256 bits, a cost above `max_cost`, a supply
    /// beyond the cap, or a cost or fee beyond 128 bits, in this order.
    pub open spec fn buy_terms(&self, amount: U256, max_cost: U256) -> Result<BuyQuote, TokenError> {
        let supply = self.current_supply@;
        let k = self.curve_config.k@;
        let scale = self.curve_config.scale@;
        let bps = self.curve_config.creator_fee_bps as nat;
        let cost = buy_cost(supply, amount@, k, scale);
        let fee = creator_fee(cost, bps);
        if amount@ == 0 {
            Err(TokenError::InvalidAmount)
        } else if self.phase() == Phase::Uninitialized {
            Err(TokenError::StateError(StateFault::NotInitialized))
        } else if self.phase() == Phase::Graduated {
            Err(TokenError::StateError(StateFault::Graduated))
        } else if !buy_fits(supply, amount@, k, scale) {
            Err(TokenError::AmountConversionError)
        } else if cost > max_cost@ {
            Err(TokenError::SlippageExceeded { cost: U256::from_nat(cost), max_cost })
        } else if supply + amount@ > self.curve_config.max_supply@ {
            Err(
                TokenError::ExceedsMaxSupply {
                    current: self.current_supply,
                    adding: amount,
                    max: self.curve_config.max_supply,
                },
            )
        } else if cost * bps > u256_max() || cost > u128::MAX || fee > u128::MAX {
            Err(TokenError::AmountConversionError)
        } else {
            Ok(
                BuyQuote {
                    cost: U256::from_nat(cost),
                    fee: U256::from_nat(fee),
                    new_supply: U256::from_nat(supply + amount@),
                    native_fee: native_of(fee),
                    native_to_app: Amount(
                        if native_of(fee).0 <= native_of(cost).0 {
                            (native_of(cost).0 - native_of(fee).0) as u128
                        } else {
                            0u128
                        },
                    ),
                },
            )
        }
    }

    /// What selling `amount` for at least `min_return` comes to for `seller`
    /// in this state, or why the sale is refused: a zero amount, a ledger
    /// that is not active, a balance below the amount, numbers beyond 256
    /// bits, a return below `min_return`, more sold than circulates, or a fee
    /// or net return beyond 128 bits, in this order.
    pub open spec fn sell_terms(&self, seller: Account, amount: U256, min_return: U256) -> Result<
        SellQuote,
        TokenError,
    > {
        let supply = self.current_supply@;
        let k = self.curve_config.k@;
        let scale = self.curve_config.scale@;
        let bps = self.curve_config.creator_fee_bps as nat;
        let back = sell_return(supply, amount@, k, scale);
        let fee = creator_fee(back, bps);
        let net = if fee <= back {
            (back - fee) as nat
        } else {
            0nat
        };
        if amount@ == 0 {
            Err(TokenError::InvalidAmount)
        } else if self.phase() == Phase::Uninitialized {
            Err(TokenError::StateError(StateFault::NotInitialized))
        } else if self.phase() == Phase::Graduated {
            Err(TokenError::StateError(StateFault::Graduated))
        } else if self.balance_of(seller) < amount@ {
            Err(
                TokenError::InsufficientBalance {
                    have: U256::from_nat(self.balance_of(seller)),
                    need: amount,
                },
            )
        } else if !sell_fits(supply, amount@, k, scale) {
            Err(TokenError::AmountConversionError)
        } else if back < min_return@ {
            Err(
                TokenError::SlippageExceededSell {
                    return_amount: U256::from_nat(back),
                    min_return,
                },
            )
        } else if amount@ > supply || back * bps > u256_max() || fee > u128::MAX || net
            > u128::MAX {
            Err(TokenError::AmountConversionError)
        } else {
            Ok(
                SellQuote {
                    return_amount: U256::from_nat(back),
                    fee: U256::from_nat(fee),
                    new_supply: U256::from_nat((supply - amount@) as nat),
                    native_fee: native_of(fee),
                    native_net: native_of(net),
                },
            )
        }
    }

    /// Prices a purchase without changing anything.
    pub fn quote_buy(&self, amount: U256, max_cost: U256) -> (r: Result<BuyQuote, TokenError>)
        ensures
            r == self.buy_terms(amount, max_cost),
    {
        if amount.is_zero() {
            return Err(TokenError::InvalidAmount);
        }
        match self.current_phase() {
            Phase::Uninitialized => {
                return Err(TokenError::StateError(StateFault::NotInitialized));
            },
            Phase::Graduated => {
                return Err(TokenError::StateError(StateFault::Graduated));
            },
            Phase::Active => {},
        }
        let config = self.curve_config;
        let cost = match checked_buy_cost(self.current_supply, amount, config.k, config.scale) {
            Some(v) => v,
            None => { return Err(TokenError::AmountConversionError); },
        };
        proof {
            U256::lemma_from_nat_of_view(cost);
        }
        if cost.gt(&max_cost) {
            return Err(TokenError::SlippageExceeded { cost, max_cost });
        }
        let new_supply = match self.current_supply.checked_add(amount) {
            Some(v) => v,
            None => { return Err(TokenError::AmountConversionError); },
        };
        if new_supply.gt(&config.max_supply) {
            return Err(
                TokenError::ExceedsMaxSupply {
                    current: self.current_supply,
                    adding: amount,
                    max: config.max_supply,
                },
            );
        }
        let fee = match checked_creator_fee(cost, config.creator_fee_bps) {
            Some(v) => v,
            None => { return Err(TokenError::AmountConversionError); },
        };
        let native_cost = match u256_to_amount(cost) {
            Ok(v) => v,
            Err(e) => { return Err(e); },
        };
        let native_fee = match u256_to_amount(fee) {
            Ok(v) => v,
            Err(e) => { return Err(e); },
        };
        let native_to_app = native_cost.saturating_sub(native_fee);
        proof {
            U256::lemma_from_nat_of_view(fee);
            U256::lemma_from_nat_of_view(new_supply);
        }
        Ok(BuyQuote { cost, fee, new_supply, native_fee, native_to_app })
    }

    /// Prices a sale by `seller` without changing anything.
    pub fn quote_sell(&self, seller: &Account, amount: U256, min_return: U256) -> (r: Result<
        SellQuote,
        TokenError,
    >)
        requires
            self.wf(),
        ensures
            r == self.sell_terms(*seller, amount, min_return),
    {
        if amount.is_zero() {
            return Err(TokenError::InvalidAmount);
        }
        match self.current_phase() {
            Phase::Uninitialized => {
                return Err(TokenError::StateError(StateFault::NotInitialized));
            },
            Phase::Graduated => {
                return Err(TokenError::StateError(StateFault::Graduated));
            },
            Phase::Active => {},
        }
        let balance = self.get_balance(seller);
        proof {
            U256::lemma_from_nat_of_view(balance);
        }
        if balance.lt(&amount) {
            return Err(TokenError::InsufficientBalance { have: balance, need: amount });
        }
        let config = self.curve_config;
        let return_amount = match checked_sell_return(
            self.current_supply,
            amount,
            config.k,
            config.scale,
        ) {
            Some(v) => v,
            None => { return Err(TokenError::AmountConversionError); },
        };
        proof {
            U256::lemma_from_nat_of_view(return_amount);
        }
        if return_amount.lt(&min_return) {
            return Err(TokenError::SlippageExceededSell { return_amount, min_return });
        }
        let new_supply = match self.current_supply.checked_sub(amount) {
            Some(v) => v,
            None => { return Err(TokenError::AmountConversionError); },
        };
        let fee = match checked_creator_fee(return_amount, config.creator_fee_bps) {
            Some(v) => v,
            None => { return Err(TokenError::AmountConversionError); },
        };
        let net = return_amount.saturating_sub(fee);
        let native_fee = match u256_to_amount(fee) {
            Ok(v) => v,
            Err(e) => { return Err(e); },
        };
        let native_net = match u256_to_amount(net) {
            Ok(v) => v,
            Err(e) => { return Err(e); },
        };
        proof {
            U256::lemma_from_nat_of_view(fee);
            U256::lemma_from_nat_of_view(new_supply);
        }
        Ok(SellQuote { return_amount, fee, new_supply, native_fee, native_net })
    }
}

/// Plans the payments of a purchase.
pub fn plan_buy_transfers(quote: &BuyQuote, ctx: &CallContext, creator: Account) -> (r: Result<
    Vec<Transfer>,
    TokenError,
>)
    ensures
        transfers_view(r) == buy_transfers(*quote, *ctx, creator),
{
    let mut transfers: Vec<Transfer> = Vec::new();
    if quote.native_fee.is_zero() && quote.native_to_app.is_zero() {
        assert(transfers@ =~= Seq::<Transfer>::empty());
        return Ok(transfers);
    }
    let signer = match ctx.signer {
        Some(s) => s,
        None => { return Err(TokenError::StateError(StateFault::NoSigner)); },
    };
    let mut remaining = ctx.signer_balance;
    if !quote.native_fee.is_zero() {
        let mut first = match fund_account(
            creator,
            quote.native_fee,
            signer,
            remaining,
            ctx.signer_owns_chain,
        ) {
            Ok(v) => v,
            Err(e) => {
                return Err(e);
            },
        };
        remaining = if quote.native_fee.0 <= remaining.0 {
            Amount(remaining.0 - quote.native_fee.0)
        } else {
            Amount(0)
        };
        transfers.append(&mut first);
    }
    let ghost first_part = transfers@;
    if !quote.native_to_app.is_zero() {
        let mut second = match fund_account(
            ctx.application_account(),
            quote.native_to_app,
            signer,
            remaining,
            ctx.signer_owns_chain,
        ) {
            Ok(v) => v,
            Err(e) => {
                return Err(e);
            },
        };
        transfers.append(&mut second);
    }
    proof {
        let expected = buy_transfers(*quote, *ctx, creator);
        assert(expected is Ok);
        assert(transfers@ =~= expected->Ok_0);
    }
    Ok(transfers)
}

/// Plans the payments of a sale.
pub fn plan_sell_transfers(quote: &SellQuote, ctx: &CallContext, creator: Account) -> (r: Result<
    Vec<Transfer>,
    TokenError,
>)
    ensures
        transfers_view(r) == sell_transfers(*quote, *ctx, creator),
{
    let mut transfers = match transfer_from_application(
        creator,
        quote.native_fee,
        ctx.application,
        ctx.application_balance,
    ) {
        Ok(v) => v,
        Err(e) => { return Err(e); },
    };
    let remaining = ctx.application_balance.saturating_sub(quote.native_fee);
    let mut second = match transfer_from_application(
        ctx.owner_account(),
        quote.native_net,
        ctx.application,
        remaining,
    ) {
        Ok(v) => v,
        Err(e) => { return Err(e); },
    };
    transfers.append(&mut second);
    proof {
        let expected = sell_transfers(*quote, *ctx, creator);
        assert(expected is Ok);
        assert(transfers@ =~= expected->Ok_0);
    }
    Ok(transfers)
}

} // verus!
