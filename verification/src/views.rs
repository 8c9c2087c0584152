//! The records in the form in which they are shown: every 256-bit number in
//! decimal notation.

use crate::identifiers::Account;
use crate::pool::PoolInfo;
use crate::text::u64_to_decimal;
use crate::types::{
    clone_text, BondingCurveConfig, TokenLaunch, TokenMetadata, Trade, UserPosition,
};
use crate::uint256::decimal_digits;
use vstd::prelude::*;

verus! {

/// A curve configuration with its numbers in decimal notation.
#[derive(Debug, PartialEq, Eq)]
pub struct BondingCurveConfigGQL {
    pub k: String,
    pub scale: String,
    pub target_raise: String,
    pub max_supply: String,
    pub creator_fee_bps: u16,
}

/// A launch with its numbers in decimal notation.
#[derive(Debug, PartialEq, Eq)]
pub struct TokenLaunchGQL {
    pub token_id: String,
    pub metadata: TokenMetadata,
    pub curve_config: BondingCurveConfigGQL,
    pub current_supply: String,
    pub total_raised: String,
    pub is_graduated: bool,
    pub dex_pool_id: Option<String>,
}

/// A launch as the registry shows it: with its creator, and with its
/// numbers and the time of its creation, in microseconds, in decimal
/// notation.
#[derive(Debug, PartialEq, Eq)]
pub struct TokenLaunchView {
    pub token_id: String,
    pub creator: Account,
    pub metadata: TokenMetadata,
    pub curve_config: BondingCurveConfigGQL,
    pub current_supply: String,
    pub total_raised: String,
    pub is_graduated: bool,
    pub created_at: String,
    pub dex_pool_id: Option<String>,
}

/// A trade with its numbers in decimal notation.
#[derive(Debug, PartialEq, Eq)]
pub struct TradeGQL {
    pub token_id: String,
    pub is_buy: bool,
    pub token_amount: String,
    pub currency_amount: String,
    pub price: String,
}

/// A position with its numbers in decimal notation.
#[derive(Debug, PartialEq, Eq)]
pub struct UserPositionGQL {
    pub token_id: String,
    pub balance: String,
    pub total_invested: String,
    pub trades_count: u64,
}

/// A pool with its numbers in decimal notation; times are in microseconds.
#[derive(Debug, PartialEq, Eq)]
pub struct PoolInfoGQL {
    pub pool_id: String,
    pub token_id: String,
    pub token_liquidity: String,
    pub base_liquidity: String,
    pub initial_ratio: String,
    pub created_at: String,
    pub is_locked: bool,
    pub lock_expires_at: Option<String>,
    pub trade_count: u64,
    pub tvl: String,
}

impl BondingCurveConfigGQL {
    /// The configuration as it is shown.
    pub fn from(config: &BondingCurveConfig) -> (r: Self)
        ensures
            r.shows(*config),
    {
        BondingCurveConfigGQL {
            k: config.k.to_string(),
            scale: config.scale.to_string(),
            target_raise: config.target_raise.to_string(),
            max_supply: config.max_supply.to_string(),
            creator_fee_bps: config.creator_fee_bps,
        }
    }

    /// Whether this is `config` as it is shown.
    pub open spec fn shows(&self, config: BondingCurveConfig) -> bool {
        &&& self.k@ == decimal_digits(config.k@)
        &&& self.scale@ == decimal_digits(config.scale@)
        &&& self.target_raise@ == decimal_digits(config.target_raise@)
        &&& self.max_supply@ == decimal_digits(config.max_supply@)
        &&& self.creator_fee_bps == config.creator_fee_bps
    }
}

impl TokenLaunchGQL {
    /// Whether this is `launch` as it is shown.
    pub open spec fn shows(&self, launch: TokenLaunch) -> bool {
        &&& self.token_id == launch.token_id
        &&& self.metadata == launch.metadata
        &&& self.curve_config.shows(launch.curve_config)
        &&& self.current_supply@ == decimal_digits(launch.current_supply@)
        &&& self.total_raised@ == decimal_digits(launch.total_raised@)
        &&& self.is_graduated == launch.is_graduated
        &&& self.dex_pool_id == launch.dex_pool_id
    }

    /// The launch as it is shown.
    pub fn from(launch: &TokenLaunch) -> (r: Self)
        ensures
            r.shows(*launch),
    {
        TokenLaunchGQL {
            token_id: launch.token_id.clone(),
            metadata: launch.metadata.clone(),
            curve_config: BondingCurveConfigGQL::from(&launch.curve_config),
            current_supply: launch.current_supply.to_string(),
            total_raised: launch.total_raised.to_string(),
            is_graduated: launch.is_graduated,
            dex_pool_id: clone_text(&launch.dex_pool_id),
        }
    }
}

impl TokenLaunchView {
    /// Whether this is `launch` as the registry shows it.
    pub open spec fn shows(&self, launch: TokenLaunch) -> bool {
        &&& self.token_id == launch.token_id
        &&& self.creator == launch.creator
        &&& self.metadata == launch.metadata
        &&& self.curve_config.shows(launch.curve_config)
        &&& self.current_supply@ == decimal_digits(launch.current_supply@)
        &&& self.total_raised@ == decimal_digits(launch.total_raised@)
        &&& self.is_graduated == launch.is_graduated
        &&& self.created_at@ == decimal_digits(launch.created_at.0 as nat)
        &&& self.dex_pool_id == launch.dex_pool_id
    }

    /// The launch as the registry shows it.
    pub fn from(launch: &TokenLaunch) -> (r: Self)
        ensures
            r.shows(*launch),
    {
        TokenLaunchView {
            token_id: launch.token_id.clone(),
            creator: launch.creator,
            metadata: launch.metadata.clone(),
            curve_config: BondingCurveConfigGQL::from(&launch.curve_config),
            current_supply: launch.current_supply.to_string(),
            total_raised: launch.total_raised.to_string(),
            is_graduated: launch.is_graduated,
            created_at: u64_to_decimal(launch.created_at.micros()),
            dex_pool_id: clone_text(&launch.dex_pool_id),
        }
    }
}

impl TradeGQL {
    /// Whether this is `trade` as it is shown.
    pub open spec fn shows(&self, trade: Trade) -> bool {
        &&& self.token_id == trade.token_id
        &&& self.is_buy == trade.is_buy
        &&& self.token_amount@ == decimal_digits(trade.token_amount@)
        &&& self.currency_amount@ == decimal_digits(trade.currency_amount@)
        &&& self.price@ == decimal_digits(trade.price@)
    }

    /// The trade as it is shown.
    pub fn from(trade: &Trade) -> (r: Self)
        ensures
            r.shows(*trade),
    {
        TradeGQL {
            token_id: trade.token_id.clone(),
            is_buy: trade.is_buy,
            token_amount: trade.token_amount.to_string(),
            currency_amount: trade.currency_amount.to_string(),
            price: trade.price.to_string(),
        }
    }
}

impl UserPositionGQL {
    /// Whether this is `position` as it is shown.
    pub open spec fn shows(&self, position: UserPosition) -> bool {
        &&& self.token_id == position.token_id
        &&& self.balance@ == decimal_digits(position.balance@)
        &&& self.total_invested@ == decimal_digits(position.total_invested@)
        &&& self.trades_count == position.trades_count
    }

    /// The position as it is shown.
    pub fn from(position: &UserPosition) -> (r: Self)
        ensures
            r.shows(*position),
    {
        UserPositionGQL {
            token_id: position.token_id.clone(),
            balance: position.balance.to_string(),
            total_invested: position.total_invested.to_string(),
            trades_count: position.trades_count,
        }
    }
}

impl PoolInfoGQL {
    /// Whether this is `pool` as it is shown.
    pub open spec fn shows(&self, pool: PoolInfo) -> bool {
        &&& self.pool_id == pool.pool_id
        &&& self.token_id == pool.token_id
        &&& self.token_liquidity@ == decimal_digits(pool.token_liquidity@)
        &&& self.base_liquidity@ == decimal_digits(pool.base_liquidity@)
        &&& self.initial_ratio@ == decimal_digits(pool.initial_ratio@)
        &&& self.created_at@ == decimal_digits(pool.created_at.0 as nat)
        &&& self.is_locked == pool.is_locked
        &&& self.lock_expires_at is Some <==> pool.lock_expires_at is Some
        &&& self.lock_expires_at matches Some(text) ==> text@ == decimal_digits(
            pool.lock_expires_at->Some_0.0 as nat,
        )
        &&& self.trade_count == pool.trade_count
        &&& self.tvl@ == decimal_digits(pool.tvl@)
    }

    /// The pool as it is shown.
    pub fn from(pool: &PoolInfo) -> (r: Self)
        ensures
            r.shows(*pool),
    {
        PoolInfoGQL {
            pool_id: pool.pool_id.clone(),
            token_id: pool.token_id.clone(),
            token_liquidity: pool.token_liquidity.to_string(),
            base_liquidity: pool.base_liquidity.to_string(),
            initial_ratio: pool.initial_ratio.to_string(),
            created_at: u64_to_decimal(pool.created_at.micros()),
            is_locked: pool.is_locked,
            lock_expires_at: match pool.lock_expires_at {
                Some(t) => Some(u64_to_decimal(t.micros())),
                None => None,
            },
            trade_count: pool.trade_count,
            tvl: pool.tvl.to_string(),
        }
    }
}

} // verus!
