//! The records that the three actors share: token metadata, the curve
//! configuration, launches, trades, positions, the operations that users
//! submit and the messages that the actors send each other.

use crate::identifiers::{Account, Timestamp};
use crate::uint256::U256;
use vstd::prelude::*;

verus! {

/// A copy of an optional text.
pub fn clone_text(text: &Option<String>) -> (r: Option<String>)
    ensures
        r == *text,
{
    match text {
        Some(s) => Some(s.clone()),
        None => None,
    }
}

/// How a token presents itself.
#[derive(Debug, PartialEq, Eq)]
pub struct TokenMetadata {
    pub name: String,
    pub symbol: String,
    pub description: String,
    pub image_url: Option<String>,
    pub twitter: Option<String>,
    pub telegram: Option<String>,
    pub website: Option<String>,
}

impl Clone for TokenMetadata {
    fn clone(&self) -> (r: Self)
        ensures
            r == *self,
    {
        TokenMetadata {
            name: self.name.clone(),
            symbol: self.symbol.clone(),
            description: self.description.clone(),
            image_url: clone_text(&self.image_url),
            twitter: clone_text(&self.twitter),
            telegram: clone_text(&self.telegram),
            website: clone_text(&self.website),
        }
    }
}

impl Default for TokenMetadata {
    fn default() -> (r: Self)
        ensures
            r.name@.len() == 0,
            r.symbol@.len() == 0,
            r.description@.len() == 0,
            r.image_url is None,
            r.twitter is None,
            r.telegram is None,
            r.website is None,
    {
        TokenMetadata {
            name: String::new(),
            symbol: String::new(),
            description: String::new(),
            image_url: None,
            twitter: None,
            telegram: None,
            website: None,
        }
    }
}

/// The parameters of a bonding curve, fixed when the launch is created.
#[derive(Clone, Copy, Debug, PartialEq, Eq, Structural)]
pub struct BondingCurveConfig {
    /// The constant `k` of `price = k * (supply / scale)^2`.
    pub k: U256,
    /// The scale of the supply.
    pub scale: U256,
    /// The amount of currency that the launch aims to raise.
    pub target_raise: U256,
    /// The supply at which the curve is complete.
    pub max_supply: U256,
    /// The creator's fee in basis points (300 is 3%).
    pub creator_fee_bps: u16,
}

/// The curve that a launch gets where it names none: `k` of 1000, a scale
/// of a million, a target of 69000, a cap of a billion and a fee of 3%.
pub open spec fn default_curve() -> BondingCurveConfig {
    BondingCurveConfig {
        k: U256::from_nat(1000),
        scale: U256::from_nat(1_000_000),
        target_raise: U256::from_nat(69_000),
        max_supply: U256::from_nat(1_000_000_000),
        creator_fee_bps: 300,
    }
}

impl Default for BondingCurveConfig {
    fn default() -> (r: Self)
        ensures
            r == default_curve(),
            r.k@ == 1000,
            r.scale@ == 1_000_000,
            r.target_raise@ == 69_000,
            r.max_supply@ == 1_000_000_000,
            r.creator_fee_bps == 300,
    {
        let r = BondingCurveConfig {
            k: U256::from_u64(1000),
            scale: U256::from_u64(1_000_000),
            target_raise: U256::from_u64(69_000),
            max_supply: U256::from_u64(1_000_000_000),
            creator_fee_bps: 300,
        };
        proof {
            U256::lemma_from_nat_of_view(r.k);
            U256::lemma_from_nat_of_view(r.scale);
            U256::lemma_from_nat_of_view(r.target_raise);
            U256::lemma_from_nat_of_view(r.max_supply);
        }
        r
    }
}

/// A launch as the registry records it.
#[derive(Debug, PartialEq, Eq)]
pub struct TokenLaunch {
    pub token_id: String,
    pub creator: Account,
    pub metadata: TokenMetadata,
    pub curve_config: BondingCurveConfig,
    pub current_supply: U256,
    pub total_raised: U256,
    pub is_graduated: bool,
    pub created_at: Timestamp,
    pub dex_pool_id: Option<String>,
}

impl Clone for TokenLaunch {
    fn clone(&self) -> (r: Self)
        ensures
            r == *self,
    {
        TokenLaunch {
            token_id: self.token_id.clone(),
            creator: self.creator,
            metadata: self.metadata.clone(),
            curve_config: self.curve_config,
            current_supply: self.current_supply,
            total_raised: self.total_raised,
            is_graduated: self.is_graduated,
            created_at: self.created_at,
            dex_pool_id: clone_text(&self.dex_pool_id),
        }
    }
}

/// One executed trade.
#[derive(Debug, PartialEq, Eq)]
pub struct Trade {
    pub token_id: String,
    pub trader: Account,
    pub is_buy: bool,
    pub token_amount: U256,
    pub currency_amount: U256,
    /// The spot price after the trade.
    pub price: U256,
    pub timestamp: Timestamp,
}

impl Clone for Trade {
    fn clone(&self) -> (r: Self)
        ensures
            r == *self,
    {
        Trade {
            token_id: self.token_id.clone(),
            trader: self.trader,
            is_buy: self.is_buy,
            token_amount: self.token_amount,
            currency_amount: self.currency_amount,
            price: self.price,
            timestamp: self.timestamp,
        }
    }
}

/// What one account has done with one token.
#[derive(Debug, PartialEq, Eq)]
pub struct UserPosition {
    pub token_id: String,
    pub balance: U256,
    pub total_invested: U256,
    pub trades_count: u64,
}

impl Clone for UserPosition {
    fn clone(&self) -> (r: Self)
        ensures
            r == *self,
    {
        UserPosition {
            token_id: self.token_id.clone(),
            balance: self.balance,
            total_invested: self.total_invested,
            trades_count: self.trades_count,
        }
    }
}

/// What a user may ask of the registry.
#[derive(Debug, PartialEq, Eq)]
pub enum FactoryOperation {
    /// Create a launch; without a configuration the default curve is used.
    CreateToken { metadata: TokenMetadata, curve_config: Option<BondingCurveConfig> },
}

/// What a user may ask of a token's ledger.
#[derive(Debug, PartialEq, Eq)]
pub enum TokenOperation {
    /// Buy `amount` tokens for at most `max_cost`.
    Buy { amount: U256, max_cost: U256 },
    /// Sell `amount` tokens for at least `min_return`.
    Sell { amount: U256, min_return: U256 },
    /// Make the ledger ready for trading.
    Initialize { creator: Account, metadata: TokenMetadata, curve_config: BondingCurveConfig },
    /// Hand the launch over to the pool, where its supply has reached the
    /// cap; nothing happens before that or a second time.
    Graduate,
    /// Let `spender` move up to `amount` of the caller's tokens.
    Approve { spender: Account, amount: U256 },
    /// Move `amount` tokens from `from` to `to` on the caller's allowance.
    TransferFrom { from: Account, to: Account, amount: U256 },
}

/// What a user may ask of the pool actor.
#[derive(Debug, PartialEq, Eq)]
pub enum SwapOperation {
    /// Add liquidity to a pool. Always refused: pools are locked.
    AddLiquidity { pool_id: String, token_amount: U256, base_amount: U256 },
    /// Swap `amount_in` for at least `min_amount_out`.
    Swap { pool_id: String, token_in: String, amount_in: U256, min_amount_out: U256 },
}

/// What the actors tell each other.
#[derive(Debug, PartialEq, Eq)]
pub enum Message {
    /// Registry to ledger: the launch exists.
    TokenCreated {
        token_id: String,
        creator: Account,
        metadata: TokenMetadata,
        curve_config: BondingCurveConfig,
    },
    /// Ledger to whom it concerns: a trade was executed.
    TradeExecuted {
        token_id: String,
        trader: Account,
        is_buy: bool,
        token_amount: U256,
        currency_amount: U256,
        new_price: U256,
    },
    /// Ledger to pool: the launch graduates with these totals.
    GraduateToken { token_id: String, total_supply: U256, total_raised: U256 },
    /// Pool to ledger and registry: the pool of the launch.
    PoolCreated { token_id: String, pool_id: String },
    /// Registry to all: a launch was created.
    NewLaunch { token_id: String, metadata: TokenMetadata, creator: Account },
}

impl Clone for FactoryOperation {
    fn clone(&self) -> (r: Self)
        ensures
            r == *self,
    {
        match self {
            FactoryOperation::CreateToken { metadata, curve_config } => {
                FactoryOperation::CreateToken {
                    metadata: metadata.clone(),
                    curve_config: *curve_config,
                }
            },
        }
    }
}

impl Clone for TokenOperation {
    fn clone(&self) -> (r: Self)
        ensures
            r == *self,
    {
        match self {
            TokenOperation::Buy { amount, max_cost } => TokenOperation::Buy {
                amount: *amount,
                max_cost: *max_cost,
            },
            TokenOperation::Sell { amount, min_return } => TokenOperation::Sell {
                amount: *amount,
                min_return: *min_return,
            },
            TokenOperation::Initialize { creator, metadata, curve_config } => {
                TokenOperation::Initialize {
                    creator: *creator,
                    metadata: metadata.clone(),
                    curve_config: *curve_config,
                }
            },
            TokenOperation::Graduate => TokenOperation::Graduate,
            TokenOperation::Approve { spender, amount } => TokenOperation::Approve {
                spender: *spender,
                amount: *amount,
            },
            TokenOperation::TransferFrom { from, to, amount } => TokenOperation::TransferFrom {
                from: *from,
                to: *to,
                amount: *amount,
            },
        }
    }
}

impl Clone for SwapOperation {
    fn clone(&self) -> (r: Self)
        ensures
            r == *self,
    {
        match self {
            SwapOperation::AddLiquidity { pool_id, token_amount, base_amount } => {
                SwapOperation::AddLiquidity {
                    pool_id: pool_id.clone(),
                    token_amount: *token_amount,
                    base_amount: *base_amount,
                }
            },
            SwapOperation::Swap { pool_id, token_in, amount_in, min_amount_out } => {
                SwapOperation::Swap {
                    pool_id: pool_id.clone(),
                    token_in: token_in.clone(),
                    amount_in: *amount_in,
                    min_amount_out: *min_amount_out,
                }
            },
        }
    }
}

impl Clone for Message {
    fn clone(&self) -> (r: Self)
        ensures
            r == *self,
    {
        match self {
            Message::TokenCreated { token_id, creator, metadata, curve_config } => {
                Message::TokenCreated {
                    token_id: token_id.clone(),
                    creator: *creator,
                    metadata: metadata.clone(),
                    curve_config: *curve_config,
                }
            },
            Message::TradeExecuted {
                token_id,
                trader,
                is_buy,
                token_amount,
                currency_amount,
                new_price,
            } => Message::TradeExecuted {
                token_id: token_id.clone(),
                trader: *trader,
                is_buy: *is_buy,
                token_amount: *token_amount,
                currency_amount: *currency_amount,
                new_price: *new_price,
            },
            Message::GraduateToken { token_id, total_supply, total_raised } => {
                Message::GraduateToken {
                    token_id: token_id.clone(),
                    total_supply: *total_supply,
                    total_raised: *total_raised,
                }
            },
            Message::PoolCreated { token_id, pool_id } => Message::PoolCreated {
                token_id: token_id.clone(),
                pool_id: pool_id.clone(),
            },
            Message::NewLaunch { token_id, metadata, creator } => Message::NewLaunch {
                token_id: token_id.clone(),
                metadata: metadata.clone(),
                creator: *creator,
            },
        }
    }
}

} // verus!
