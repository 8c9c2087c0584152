//! What can be asked of a ledger: the token in figures, what a purchase or a
//! sale would come to, and the balances, positions, allowances and trades on
//! record. Asking changes nothing.

use crate::bonding_curve::{
    buy_cost, buy_fits, checked_buy_cost, checked_current_price, checked_sell_return,
    integral_fits, lemma_integral_fits_below, lemma_price_fits_where_integral_fits, price_fits,
    sell_return, spot_price,
};
use crate::identifiers::Account;
use crate::listing::{first_matches, limit_of, page_limit};
use crate::token::{page_bounds, trades_of, TokenState};
use crate::types::Trade;
use crate::uint256::{
    decimal_digits, lemma_u256_bounded, lemma_u256_injective, parse_decimal, u256_max, U256,
};
use crate::views::{TradeGQL, UserPositionGQL};
use vstd::prelude::*;

verus! {

broadcast use {lemma_u256_bounded, lemma_u256_injective};

/// A token in figures. Numbers of 256 bits are in decimal notation, and the
/// progress towards the supply cap is in basis points.
#[derive(Debug, PartialEq, Eq)]
pub struct TokenInfo {
    pub token_id: String,
    pub creator: Account,
    pub name: String,
    pub symbol: String,
    pub description: String,
    pub current_supply: String,
    pub total_raised: String,
    pub current_price: String,
    pub holder_count: u64,
    pub trade_count: u64,
    pub is_graduated: bool,
    pub progress_bps: u64,
}

/// What a purchase or a sale would come to. Numbers of 256 bits are in
/// decimal notation, and the change of the price is in basis points of the
/// price before.
#[derive(Debug, PartialEq, Eq)]
pub struct BuySellQuote {
    pub token_amount: String,
    pub currency_amount: String,
    pub price_impact_bps: u64,
    pub new_price: String,
}

/// How far the supply has come towards the cap, in basis points; zero where
/// the cap is zero.
pub open spec fn progress_of(supply: nat, max_supply: nat) -> nat {
    if max_supply > 0 {
        (supply * 10000) / max_supply
    } else {
        0
    }
}

/// How far the price moved, in basis points of `from`; zero where `from` is
/// zero or the price did not move away from it in the direction asked.
pub open spec fn impact_of(from: nat, moved_by: nat) -> nat {
    if from > 0 {
        (moved_by * 10000) / from
    } else {
        0
    }
}

/// Whether `shown` shows the trades `trades`, one by one.
pub open spec fn trades_shown(shown: Seq<TradeGQL>, trades: Seq<Trade>) -> bool {
    &&& shown.len() == trades.len()
    &&& forall|i: int| 0 <= i < shown.len() ==> (#[trigger] shown[i]).shows(trades[i])
}

/// The value as a `u64`, if it fits.
pub fn to_u64(value: U256) -> (r: Option<u64>)
    ensures
        r is Some <==> value@ <= u64::MAX,
        r matches Some(v) ==> v == value@,
{
    if !value.fits_u128() {
        return None;
    }
    let low = value.as_u128();
    if low > u64::MAX as u128 {
        None
    } else {
        Some(low as u64)
    }
}

/// The basis points by which a price of `from` moved when it moved by
/// `moved_by`, if they fit in 64 bits.
pub fn price_impact(from: U256, moved_by: U256) -> (r: Option<u64>)
    ensures
        r is Some <==> from@ == 0 || (moved_by@ * 10000 <= u256_max() && impact_of(
            from@,
            moved_by@,
        ) <= u64::MAX),
        r matches Some(v) ==> v == impact_of(from@, moved_by@),
{
    if from.is_zero() {
        return Some(0);
    }
    let scaled = match moved_by.checked_mul(U256::from_u64(10000)) {
        Some(v) => v,
        None => { return None; },
    };
    match scaled.checked_div(from) {
        Some(v) => to_u64(v),
        None => None,
    }
}

/// The trades as they are shown.
pub fn show_trades(trades: &Vec<Trade>) -> (shown: Vec<TradeGQL>)
    ensures
        trades_shown(shown@, trades@),
{
    let mut shown: Vec<TradeGQL> = Vec::new();
    let mut i: usize = 0;
    while i < trades.len()
        invariant
            i <= trades.len(),
            trades_shown(shown@, trades@.subrange(0, i as int)),
        decreases trades.len() - i,
    {
        shown.push(TradeGQL::from(&trades[i]));
        i += 1;
    }
    proof {
        assert(trades@.subrange(0, trades.len() as int) =~= trades@);
    }
    shown
}

impl TokenState {
    /// Whether the token can be put in figures: the ledger is initialized,
    /// and the price and the progress can be computed.
    pub open spec fn can_inform(&self) -> bool {
        &&& self.creator is Some
        &&& price_fits(self.current_supply@, self.curve_config.k@, self.curve_config.scale@)
        &&& self.curve_config.max_supply@ > 0 ==> self.current_supply@ * 10000 <= u256_max()
            && progress_of(self.current_supply@, self.curve_config.max_supply@) <= u64::MAX
    }

    /// Whether a purchase of the amount that `text` denotes can be quoted.
    pub open spec fn can_quote_buy(&self, text: Seq<char>) -> bool {
        let supply = self.current_supply@;
        let k = self.curve_config.k@;
        let scale = self.curve_config.scale@;
        &&& parse_decimal(text) is Some
        &&& buy_fits(supply, parse_decimal(text)->Some_0, k, scale)
        &&& spot_price(supply, k, scale) > 0 ==> {
            let from = spot_price(supply, k, scale);
            let to = spot_price(supply + parse_decimal(text)->Some_0, k, scale);
            let moved = if to >= from {
                (to - from) as nat
            } else {
                0nat
            };
            moved * 10000 <= u256_max() && impact_of(from, moved) <= u64::MAX
        }
    }

    /// Whether a sale of the amount that `text` denotes can be quoted: no
    /// more is sold than circulates.
    pub open spec fn can_quote_sell(&self, text: Seq<char>) -> bool {
        let supply = self.current_supply@;
        let k = self.curve_config.k@;
        let scale = self.curve_config.scale@;
        &&& parse_decimal(text) is Some
        &&& parse_decimal(text)->Some_0 <= supply
        &&& integral_fits(supply, k, scale)
        &&& spot_price(supply, k, scale) > 0 ==> {
            let from = spot_price(supply, k, scale);
            let to = spot_price((supply - parse_decimal(text)->Some_0) as nat, k, scale);
            let moved = if from >= to {
                (from - to) as nat
            } else {
                0nat
            };
            moved * 10000 <= u256_max() && impact_of(from, moved) <= u64::MAX
        }
    }

    /// The token in figures, where it can be put in figures.
    pub fn token_info(&self) -> (r: Option<TokenInfo>)
        requires
            self.wf(),
        ensures
            r is Some <==> self.can_inform(),
            r matches Some(info) ==> {
                &&& info.token_id == self.token_id
                &&& Some(info.creator) == self.creator
                &&& info.name == self.metadata.name
                &&& info.symbol == self.metadata.symbol
                &&& info.description == self.metadata.description
                &&& info.current_supply@ == decimal_digits(self.current_supply@)
                &&& info.total_raised@ == decimal_digits(self.total_raised@)
                &&& info.current_price@ == decimal_digits(
                    spot_price(
                        self.current_supply@,
                        self.curve_config.k@,
                        self.curve_config.scale@,
                    ),
                )
                &&& info.holder_count == self.holder_total()
                &&& info.trade_count == self.trade_total()
                &&& info.is_graduated == self.is_graduated
                &&& info.progress_bps == progress_of(
                    self.current_supply@,
                    self.curve_config.max_supply@,
                )
            },
    {
        let creator = match self.creator {
            Some(c) => c,
            None => { return None; },
        };
        let config = self.curve_config;
        let price = match checked_current_price(self.current_supply, config.k, config.scale) {
            Some(v) => v,
            None => { return None; },
        };
        let progress_bps = if config.max_supply.is_zero() {
            0
        } else {
            let scaled = match self.current_supply.checked_mul(U256::from_u64(10000)) {
                Some(v) => v,
                None => { return None; },
            };
            let progress = match scaled.checked_div(config.max_supply) {
                Some(v) => v,
                None => { return None; },
            };
            match to_u64(progress) {
                Some(v) => v,
                None => { return None; },
            }
        };
        Some(
            TokenInfo {
                token_id: self.token_id.clone(),
                creator,
                name: self.metadata.name.clone(),
                symbol: self.metadata.symbol.clone(),
                description: self.metadata.description.clone(),
                current_supply: self.current_supply.to_string(),
                total_raised: self.total_raised.to_string(),
                current_price: price.to_string(),
                holder_count: self.holder_count(),
                trade_count: self.trade_count(),
                is_graduated: self.is_graduated,
                progress_bps,
            },
        )
    }

    /// What buying the amount that `amount` denotes in decimal notation
    /// would come to: its cost, the price after it, and how far the price
    /// would rise.
    pub fn buy_quote(&self, amount: String) -> (r: Option<BuySellQuote>)
        ensures
            r is Some <==> self.can_quote_buy(amount@),
            r matches Some(quote) ==> {
                let supply = self.current_supply@;
                let k = self.curve_config.k@;
                let scale = self.curve_config.scale@;
                let bought = parse_decimal(amount@)->Some_0;
                let from = spot_price(supply, k, scale);
                let to = spot_price(supply + bought, k, scale);
                &&& quote.token_amount == amount
                &&& quote.currency_amount@ == decimal_digits(buy_cost(supply, bought, k, scale))
                &&& quote.new_price@ == decimal_digits(to)
                &&& quote.price_impact_bps == impact_of(
                    from,
                    if to >= from {
                        (to - from) as nat
                    } else {
                        0nat
                    },
                )
            },
    {
        let amount_u256 = match U256::from_dec_str(amount.as_str()) {
            Some(v) => v,
            None => { return None; },
        };
        let config = self.curve_config;
        let cost = match checked_buy_cost(self.current_supply, amount_u256, config.k, config.scale) {
            Some(v) => v,
            None => { return None; },
        };
        proof {
            lemma_integral_fits_below(
                self.current_supply@,
                self.current_supply@ + amount_u256@,
                config.k@,
                config.scale@,
            );
            lemma_price_fits_where_integral_fits(self.current_supply@, config.k@, config.scale@);
            lemma_price_fits_where_integral_fits(
                self.current_supply@ + amount_u256@,
                config.k@,
                config.scale@,
            );
        }
        let current_price = match checked_current_price(
            self.current_supply,
            config.k,
            config.scale,
        ) {
            Some(v) => v,
            None => { return None; },
        };
        let new_supply = match self.current_supply.checked_add(amount_u256) {
            Some(v) => v,
            None => { return None; },
        };
        let new_price = match checked_current_price(new_supply, config.k, config.scale) {
            Some(v) => v,
            None => { return None; },
        };
        let price_impact_bps = match price_impact(
            current_price,
            new_price.saturating_sub(current_price),
        ) {
            Some(v) => v,
            None => { return None; },
        };
        Some(
            BuySellQuote {
                token_amount: amount,
                currency_amount: cost.to_string(),
                price_impact_bps,
                new_price: new_price.to_string(),
            },
        )
    }

    /// What selling the amount that `amount` denotes in decimal notation
    /// would come to: its return, the price after it, and how far the price
    /// would fall. More than circulates cannot be sold.
    pub fn sell_quote(&self, amount: String) -> (r: Option<BuySellQuote>)
        ensures
            r is Some <==> self.can_quote_sell(amount@),
            r matches Some(quote) ==> {
                let supply = self.current_supply@;
                let k = self.curve_config.k@;
                let scale = self.curve_config.scale@;
                let sold = parse_decimal(amount@)->Some_0;
                let from = spot_price(supply, k, scale);
                let to = spot_price((supply - sold) as nat, k, scale);
                &&& quote.token_amount == amount
                &&& quote.currency_amount@ == decimal_digits(sell_return(supply, sold, k, scale))
                &&& quote.new_price@ == decimal_digits(to)
                &&& quote.price_impact_bps == impact_of(
                    from,
                    if from >= to {
                        (from - to) as nat
                    } else {
                        0nat
                    },
                )
            },
    {
        let amount_u256 = match U256::from_dec_str(amount.as_str()) {
            Some(v) => v,
            None => { return None; },
        };
        if amount_u256.gt(&self.current_supply) {
            return None;
        }
        let config = self.curve_config;
        let return_amount = match checked_sell_return(
            self.current_supply,
            amount_u256,
            config.k,
            config.scale,
        ) {
            Some(v) => v,
            None => { return None; },
        };
        proof {
            lemma_integral_fits_below(
                (self.current_supply@ - amount_u256@) as nat,
                self.current_supply@,
                config.k@,
                config.scale@,
            );
            lemma_price_fits_where_integral_fits(self.current_supply@, config.k@, config.scale@);
            lemma_price_fits_where_integral_fits(
                (self.current_supply@ - amount_u256@) as nat,
                config.k@,
                config.scale@,
            );
        }
        let current_price = match checked_current_price(
            self.current_supply,
            config.k,
            config.scale,
        ) {
            Some(v) => v,
            None => { return None; },
        };
        let new_supply = self.current_supply.saturating_sub(amount_u256);
        let new_price = match checked_current_price(new_supply, config.k, config.scale) {
            Some(v) => v,
            None => { return None; },
        };
        let price_impact_bps = match price_impact(
            current_price,
            current_price.saturating_sub(new_price),
        ) {
            Some(v) => v,
            None => { return None; },
        };
        Some(
            BuySellQuote {
                token_amount: amount,
                currency_amount: return_amount.to_string(),
                price_impact_bps,
                new_price: new_price.to_string(),
            },
        )
    }

    /// The balance of `account` in decimal notation.
    pub fn balance(&self, account: &Account) -> (text: String)
        requires
            self.wf(),
        ensures
            text@ == decimal_digits(self.balance_of(*account)),
    {
        self.get_balance(account).to_string()
    }

    /// What `spender` may still move of the tokens of `owner`, in decimal
    /// notation.
    pub fn allowance(&self, owner: &Account, spender: &Account) -> (text: String)
        requires
            self.wf(),
        ensures
            text@ == decimal_digits(self.allowance_of(*owner, *spender)),
    {
        self.get_allowance(owner, spender).to_string()
    }

    /// The position of `account` as it is shown, if it ever traded.
    pub fn user_position(&self, account: &Account) -> (r: Option<UserPositionGQL>)
        requires
            self.wf(),
        ensures
            r is Some <==> self.positions().contains_key(*account),
            r matches Some(shown) ==> shown.shows(self.positions()[*account]),
    {
        match self.get_position(account) {
            Some(position) => Some(UserPositionGQL::from(&position)),
            None => None,
        }
    }

    /// The first trades of the history as they are shown: 20 where nothing
    /// else is asked for, and never more than 100.
    pub fn recent_trades(&self, limit: Option<i32>) -> (shown: Vec<TradeGQL>)
        requires
            self.wf(),
        ensures
            trades_shown(
                shown@,
                trades_of(self.history()).subrange(
                    0,
                    page_bounds(self.history().len(), 0, limit_of(limit, 20, 100) as nat).1,
                ),
            ),
    {
        let page = self.get_trades(0, page_limit(limit, 20, 100));
        show_trades(&page)
    }

    /// The first trades of `account` among the first thousand of the
    /// history, as they are shown: 20 where nothing else is asked for, and
    /// never more than 100.
    pub fn user_trades(&self, account: &Account, limit: Option<i32>) -> (shown: Vec<TradeGQL>)
        requires
            self.wf(),
        ensures
            trades_shown(
                shown@,
                first_matches(
                    trades_of(self.history()).subrange(
                        0,
                        page_bounds(self.history().len(), 0, 1000).1,
                    ),
                    |trade: Trade| trade.trader == *account,
                    limit_of(limit, 20, 100) as nat,
                ),
            ),
    {
        let cap = page_limit(limit, 20, 100);
        let all = self.get_trades(0, 1000);
        let ghost by_account = |trade: Trade| trade.trader == *account;
        let mut found: Vec<Trade> = Vec::new();
        let mut i: usize = 0;
        proof {
            assert(all@.subrange(0, 0) =~= Seq::<Trade>::empty());
        }
        while i < all.len()
            invariant
                i <= all.len(),
                by_account == |trade: Trade| trade.trader == *account,
                found@ == first_matches(all@.subrange(0, i as int), by_account, cap as nat),
            decreases all.len() - i,
        {
            proof {
                let next = all@.subrange(0, i as int + 1);
                assert(next.drop_last() =~= all@.subrange(0, i as int));
                assert(next.last() == all@[i as int]);
            }
            if all[i].trader == *account && found.len() < cap {
                found.push(all[i].clone());
            }
            i += 1;
        }
        proof {
            assert(all@.subrange(0, all.len() as int) =~= all@);
        }
        show_trades(&found)
    }
}

} // verus!
