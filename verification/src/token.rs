//! The ledger of one token: balances, allowances, positions and the trade
//! history, and the operations that move it from `Uninitialized` through
//! `Active` to `Graduated`.

use crate::amount::Amount;
use crate::bonding_curve::curve_integral;
use crate::collections::{AllowanceKey, VecMap};
use crate::identifiers::{Account, Timestamp};
use crate::types::{BondingCurveConfig, TokenMetadata, Trade, UserPosition};
use crate::uint256::{lemma_u256_bounded, lemma_u256_injective, u256_max, U256};
use vstd::prelude::*;

verus! {

broadcast use {lemma_u256_bounded, lemma_u256_injective};

/// What about the state of the ledger made an operation invalid.
#[derive(Clone, Copy, Debug, PartialEq, Eq, Structural)]
pub enum StateFault {
    /// The ledger was initialized before.
    AlreadyInitialized,
    /// The ledger was not initialized yet.
    NotInitialized,
    /// The launch has graduated: trading on the curve is over.
    Graduated,
    /// A payment is due and nobody signed the operation.
    NoSigner,
}

/// Why the ledger refused an operation.
#[derive(Clone, Copy, Debug, PartialEq, Eq, Structural)]
#[allow(inconsistent_fields)]
pub enum TokenError {
    /// The balance or the allowance does not cover the amount.
    InsufficientBalance { have: U256, need: U256 },
    /// The purchase would take the supply beyond the cap.
    ExceedsMaxSupply { current: U256, adding: U256, max: U256 },
    /// The purchase costs more than the buyer accepts.
    SlippageExceeded { cost: U256, max_cost: U256 },
    /// The sale returns less than the seller accepts.
    SlippageExceededSell { return_amount: U256, min_return: U256 },
    /// The amount is zero.
    InvalidAmount,
    /// The payer's native balance does not cover the payment.
    InsufficientNativeBalance { have: Amount, need: Amount },
    /// A number does not fit where it has to go.
    AmountConversionError,
    /// The ledger is not in a state in which the operation is valid.
    StateError(StateFault),
}

/// Where a ledger stands in its life.
#[derive(Clone, Copy, Debug, PartialEq, Eq, Structural)]
pub enum Phase {
    /// Not initialized yet: nothing can be traded.
    Uninitialized,
    /// Trading on the curve.
    Active,
    /// Handed over to the pool: trading on the curve is over for good.
    Graduated,
}

/// The identity of a trade: the time of the trade and its number in the
/// history of the ledger. The number alone tells two trades apart and orders
/// them.
#[derive(Clone, Copy, Debug, PartialEq, Eq, PartialOrd, Ord, Hash, Structural)]
pub struct TradeId {
    pub sequence: u64,
    pub micros: u64,
}

/// A trade in the history, under its identity.
#[derive(Debug, PartialEq, Eq)]
pub struct TradeEntry {
    pub id: TradeId,
    pub trade: Trade,
}

/// The state of one token's ledger.
pub struct TokenState {
    pub token_id: String,
    pub creator: Option<Account>,
    pub metadata: TokenMetadata,
    pub curve_config: BondingCurveConfig,
    pub current_supply: U256,
    pub total_raised: U256,
    pub is_graduated: bool,
    pub created_at: Timestamp,
    pub dex_pool_id: Option<String>,
    pub balances: VecMap<Account, U256>,
    pub trades: Vec<TradeEntry>,
    pub user_positions: VecMap<Account, UserPosition>,
    pub allowances: VecMap<AllowanceKey, U256>,
}

/// The trades of a history, without their identities.
pub open spec fn trades_of(entries: Seq<TradeEntry>) -> Seq<Trade> {
    Seq::new(entries.len(), |i: int| entries[i].trade)
}

/// The part of a history that a page shows: at most `limit` entries from
/// place `offset` on.
pub open spec fn page_bounds(len: nat, offset: nat, limit: nat) -> (int, int) {
    let start = if offset < len {
        offset
    } else {
        len
    };
    let end = if start + limit < len {
        start + limit
    } else {
        len
    };
    (start as int, end as int)
}

/// The sum of `values`.
pub open spec fn sum_of(values: Seq<U256>) -> nat
    decreases values.len(),
{
    if values.len() == 0 {
        0
    } else {
        sum_of(values.drop_last()) + values.last()@
    }
}

/// One value more adds to the sum.
pub proof fn lemma_sum_push(values: Seq<U256>, v: U256)
    ensures
        sum_of(values.push(v)) == sum_of(values) + v@,
{
    assert(values.push(v).drop_last() =~= values);
}

/// A value that is replaced changes the sum by the difference.
pub proof fn lemma_sum_update(values: Seq<U256>, i: int, v: U256)
    requires
        0 <= i < values.len(),
    ensures
        sum_of(values.update(i, v)) == sum_of(values) - values[i]@ + v@,
    decreases values.len(),
{
    if i == values.len() - 1 {
        assert(values.update(i, v).drop_last() =~= values.drop_last());
    } else {
        assert(values.update(i, v).drop_last() =~= values.drop_last().update(i, v));
        lemma_sum_update(values.drop_last(), i, v);
    }
}

/// A value that is taken out leaves the sum.
pub proof fn lemma_sum_remove(values: Seq<U256>, i: int)
    requires
        0 <= i < values.len(),
    ensures
        sum_of(values.remove(i)) == sum_of(values) - values[i]@,
    decreases values.len(),
{
    if i == values.len() - 1 {
        assert(values.remove(i) =~= values.drop_last());
    } else {
        assert(values.remove(i).drop_last() =~= values.drop_last().remove(i));
        lemma_sum_remove(values.drop_last(), i);
    }
}

impl TokenState {
    /// The balances: each holder with a balance that is not zero.
    pub open spec fn balances(&self) -> Map<Account, U256> {
        self.balances@
    }

    /// The holders, in the order in which they came to hold the token.
    pub open spec fn holders(&self) -> Seq<Account> {
        self.balances.ids()
    }

    /// The allowances that were ever set.
    pub open spec fn allowances(&self) -> Map<AllowanceKey, U256> {
        self.allowances@
    }

    /// The positions of the accounts that ever traded.
    pub open spec fn positions(&self) -> Map<Account, UserPosition> {
        self.user_positions@
    }

    /// The history of trades, oldest first.
    pub open spec fn history(&self) -> Seq<TradeEntry> {
        self.trades@
    }

    /// The ledger is well formed: no balance on record is zero, each trade
    /// carries its place in the history as its number, the supply of an
    /// initialized ledger is within the cap, and only a graduated ledger
    /// names a pool.
    pub open spec fn wf(&self) -> bool {
        &&& self.balances.wf()
        &&& self.user_positions.wf()
        &&& self.allowances.wf()
        &&& self.creator is Some ==> self.current_supply@ <= self.curve_config.max_supply@
        &&& self.dex_pool_id is Some ==> self.is_graduated
        &&& forall|a: Account| #[trigger]
            self.balances@.contains_key(a) ==> self.balances@[a]@ != 0
        &&& forall|i: int|
            0 <= i < self.trades@.len() ==> (#[trigger] self.trades@[i]).id.sequence == i
    }

    /// The balance of `account`: zero where none is on record.
    pub open spec fn balance_of(&self, account: Account) -> nat {
        if self.balances().contains_key(account) {
            self.balances()[account]@
        } else {
            0
        }
    }

    /// What `spender` may still move of the tokens of `owner`.
    pub open spec fn allowance_of(&self, owner: Account, spender: Account) -> nat {
        let key = AllowanceKey { owner, spender };
        if self.allowances().contains_key(key) {
            self.allowances()[key]@
        } else {
            0
        }
    }

    /// What the holders hold together: the sum of the balances.
    pub open spec fn circulating(&self) -> nat {
        sum_of(self.balances.vals())
    }

    /// The holders hold the supply among them: the balances add up to it.
    pub open spec fn backed(&self) -> bool {
        self.circulating() == self.current_supply@
    }

    /// What was raised is what the supply cost: the total raised is the
    /// integral of the price from zero to the supply.
    pub open spec fn funded(&self) -> bool {
        self.total_raised@ == curve_integral(
            self.current_supply@,
            self.curve_config.k@,
            self.curve_config.scale@,
        )
    }

    /// The number of accounts that hold the token.
    pub open spec fn holder_total(&self) -> nat {
        self.holders().len()
    }

    /// The number of trades executed so far.
    pub open spec fn trade_total(&self) -> nat {
        self.history().len()
    }

    /// Where the ledger stands in its life.
    pub open spec fn phase(&self) -> Phase {
        if self.is_graduated {
            Phase::Graduated
        } else if self.creator is Some {
            Phase::Active
        } else {
            Phase::Uninitialized
        }
    }

    /// In a well-formed ledger no balance on record is zero, and the holders
    /// are the accounts with a balance.
    pub proof fn lemma_balances_positive(&self, account: Account)
        requires
            self.wf(),
        ensures
            self.balances().contains_key(account) <==> self.balance_of(account) > 0,
            self.balances().contains_key(account) <==> self.holders().contains(account),
            self.holders().no_duplicates(),
    {
    }

    /// In a well-formed ledger the trades are numbered in the order of the
    /// history, so no two of them share an identity.
    pub proof fn lemma_trade_ids_ordered(&self, i: int, j: int)
        requires
            self.wf(),
            0 <= i < j < self.history().len(),
        ensures
            self.history()[i].id.sequence < self.history()[j].id.sequence,
            self.history()[i].id != self.history()[j].id,
    {
    }

    /// A ledger that was not initialized yet, with nothing on record.
    pub fn new() -> (state: TokenState)
        ensures
            state.wf(),
            state.phase() == Phase::Uninitialized,
            state.token_id@.len() == 0,
            state.creator is None,
            state.current_supply@ == 0,
            state.total_raised@ == 0,
            !state.is_graduated,
            state.created_at == Timestamp(0),
            state.dex_pool_id is None,
            state.balances() == Map::<Account, U256>::empty(),
            state.holders() == Seq::<Account>::empty(),
            state.allowances() == Map::<AllowanceKey, U256>::empty(),
            state.positions() == Map::<Account, UserPosition>::empty(),
            state.history() == Seq::<TradeEntry>::empty(),
            state.circulating() == 0,
            state.backed(),
    {
        TokenState {
            token_id: String::new(),
            creator: None,
            metadata: TokenMetadata::default(),
            curve_config: BondingCurveConfig::default(),
            current_supply: U256::zero(),
            total_raised: U256::zero(),
            is_graduated: false,
            created_at: Timestamp(0),
            dex_pool_id: None,
            balances: VecMap::new(),
            trades: Vec::new(),
            user_positions: VecMap::new(),
            allowances: VecMap::new(),
        }
    }

    /// The phase of the ledger.
    pub fn current_phase(&self) -> (phase: Phase)
        ensures
            phase == self.phase(),
    {
        if self.is_graduated {
            Phase::Graduated
        } else if self.creator.is_some() {
            Phase::Active
        } else {
            Phase::Uninitialized
        }
    }

    /// Why the ledger cannot be initialized, if it cannot: it was
    /// initialized before, or it has graduated.
    pub open spec fn initialization_refusal(&self) -> Option<TokenError> {
        if self.creator is Some {
            Some(TokenError::StateError(StateFault::AlreadyInitialized))
        } else if self.is_graduated {
            Some(TokenError::StateError(StateFault::Graduated))
        } else {
            None
        }
    }

    /// How the ledger stands after it was initialized as the launch
    /// `token_id` of `creator`, where `before` is how it stood: it is active,
    /// with nothing sold and nothing raised, and what was on record stays on
    /// record.
    pub open spec fn initialized_from(
        &self,
        before: TokenState,
        token_id: String,
        creator: Account,
        metadata: TokenMetadata,
        curve_config: BondingCurveConfig,
        created_at: Timestamp,
    ) -> bool {
        &&& self.token_id == token_id
        &&& self.creator == Some(creator)
        &&& self.metadata == metadata
        &&& self.curve_config == curve_config
        &&& self.current_supply@ == 0
        &&& self.total_raised@ == 0
        &&& !self.is_graduated
        &&& self.phase() == Phase::Active
        &&& self.created_at == created_at
        &&& self.dex_pool_id is None
        &&& self.balances() == before.balances()
        &&& self.holders() == before.holders()
        &&& self.allowances() == before.allowances()
        &&& self.positions() == before.positions()
        &&& self.history() == before.history()
        &&& self.circulating() == before.circulating()
        &&& curve_config.scale@ > 0 ==> self.funded()
    }

    /// Makes an uninitialized ledger ready for trading. A ledger that was
    /// initialized before, or that has graduated, refuses and stays as it
    /// is.
    pub fn initialize(
        &mut self,
        token_id: String,
        creator: Account,
        metadata: TokenMetadata,
        curve_config: BondingCurveConfig,
        created_at: Timestamp,
    ) -> (r: Result<(), TokenError>)
        requires
            old(self).wf(),
        ensures
            final(self).wf(),
            r is Ok <==> old(self).phase() == Phase::Uninitialized,
            r matches Err(e) ==> Some(e) == old(self).initialization_refusal() && *final(self)
                == *old(self),
            r is Ok ==> final(self).initialized_from(
                *old(self),
                token_id,
                creator,
                metadata,
                curve_config,
                created_at,
            ),
    {
        if self.creator.is_some() {
            return Err(TokenError::StateError(StateFault::AlreadyInitialized));
        }
        if self.is_graduated {
            return Err(TokenError::StateError(StateFault::Graduated));
        }
        self.token_id = token_id;
        self.creator = Some(creator);
        self.metadata = metadata;
        self.curve_config = curve_config;
        self.current_supply = U256::zero();
        self.total_raised = U256::zero();
        self.is_graduated = false;
        self.created_at = created_at;
        self.dex_pool_id = None;
        proof {
            if curve_config.scale@ > 0 {
                assert(curve_config.k@ * 0 * 0 * 0 == 0) by (nonlinear_arith);
                assert(3 * (curve_config.scale@ * curve_config.scale@) > 0) by (nonlinear_arith)
                    requires
                        curve_config.scale@ > 0,
                ;
            }
        }
        Ok(())
    }

    /// The balance of `account`.
    pub fn get_balance(&self, account: &Account) -> (balance: U256)
        requires
            self.wf(),
        ensures
            balance@ == self.balance_of(*account),
    {
        match self.balances.get(account) {
            Some(v) => *v,
            None => U256::zero(),
        }
    }

    /// Sets the balance of `account`. A balance of zero takes the account off
    /// the record; the number of holders follows: one more when a balance
    /// leaves zero, one less when it returns to zero.
    pub fn set_balance(&mut self, account: Account, balance: U256)
        requires
            old(self).wf(),
        ensures
            final(self).wf(),
            final(self).balance_of(account) == balance@,
            forall|other: Account|
                other != account ==> #[trigger] final(self).balance_of(other) == old(
                    self,
                ).balance_of(other),
            final(self).balances() == if balance@ == 0 {
                old(self).balances().remove(account)
            } else {
                old(self).balances().insert(account, balance)
            },
            final(self).circulating() == old(self).circulating() - old(self).balance_of(account)
                + balance@,
            final(self).holder_total() == old(self).holder_total() + (if old(self).balance_of(
                account,
            ) == 0 && balance@ != 0 {
                1int
            } else if old(self).balance_of(account) != 0 && balance@ == 0 {
                -1int
            } else {
                0int
            }),
            final(self).token_id == old(self).token_id,
            final(self).creator == old(self).creator,
            final(self).metadata == old(self).metadata,
            final(self).curve_config == old(self).curve_config,
            final(self).current_supply == old(self).current_supply,
            final(self).total_raised == old(self).total_raised,
            final(self).is_graduated == old(self).is_graduated,
            final(self).created_at == old(self).created_at,
            final(self).dex_pool_id == old(self).dex_pool_id,
            final(self).allowances() == old(self).allowances(),
            final(self).positions() == old(self).positions(),
            final(self).history() == old(self).history(),
    {
        let ghost before = *self;
        if balance.is_zero() {
            let removed = self.balances.remove(&account);
            proof {
                if removed is Some {
                    before.balances.lemma_key_has_place(account);
                    lemma_sum_remove(before.balances.vals(), before.holders().index_of(account));
                }
            }
        } else {
            self.balances.insert(account, balance);
            proof {
                if before.balances().contains_key(account) {
                    before.balances.lemma_key_has_place(account);
                    lemma_sum_update(
                        before.balances.vals(),
                        before.holders().index_of(account),
                        balance,
                    );
                } else {
                    lemma_sum_push(before.balances.vals(), balance);
                }
            }
        }
    }

    /// The number of accounts that hold the token.
    pub fn holder_count(&self) -> (n: u64)
        requires
            self.wf(),
        ensures
            n == self.holder_total(),
    {
        self.balances.len() as u64
    }

    /// The number of trades executed so far.
    pub fn trade_count(&self) -> (n: u64)
        requires
            self.wf(),
        ensures
            n == self.trade_total(),
    {
        self.trades.len() as u64
    }

    /// Whether the supply has reached the cap of the curve.
    pub fn is_curve_complete(&self) -> (r: bool)
        ensures
            r == (self.current_supply@ >= self.curve_config.max_supply@),
    {
        self.current_supply.ge(&self.curve_config.max_supply)
    }

    /// What `spender` may still move of the tokens of `owner`.
    pub fn get_allowance(&self, owner: &Account, spender: &Account) -> (amount: U256)
        requires
            self.wf(),
        ensures
            amount@ == self.allowance_of(*owner, *spender),
    {
        let key = AllowanceKey { owner: *owner, spender: *spender };
        match self.allowances.get(&key) {
            Some(v) => *v,
            None => U256::zero(),
        }
    }

    /// Sets what `spender` may move of the tokens of `owner`, whatever it was
    /// before.
    pub fn set_allowance(&mut self, owner: Account, spender: Account, amount: U256)
        requires
            old(self).wf(),
        ensures
            final(self).wf(),
            final(self).allowances() == old(self).allowances().insert(
                AllowanceKey { owner, spender },
                amount,
            ),
            final(self).allowance_of(owner, spender) == amount@,
            forall|o: Account, s: Account|
                (o != owner || s != spender) ==> #[trigger] final(self).allowance_of(o, s) == old(
                    self,
                ).allowance_of(o, s),
            final(self).token_id == old(self).token_id,
            final(self).creator == old(self).creator,
            final(self).metadata == old(self).metadata,
            final(self).curve_config == old(self).curve_config,
            final(self).current_supply == old(self).current_supply,
            final(self).total_raised == old(self).total_raised,
            final(self).is_graduated == old(self).is_graduated,
            final(self).created_at == old(self).created_at,
            final(self).dex_pool_id == old(self).dex_pool_id,
            final(self).balances() == old(self).balances(),
            final(self).holders() == old(self).holders(),
            final(self).circulating() == old(self).circulating(),
            final(self).positions() == old(self).positions(),
            final(self).history() == old(self).history(),
    {
        self.allowances.insert(AllowanceKey { owner, spender }, amount);
    }

    /// Lowers what `spender` may move of the tokens of `owner` by `amount`,
    /// to zero at least.
    pub fn decrease_allowance(&mut self, owner: &Account, spender: &Account, amount: U256)
        requires
            old(self).wf(),
        ensures
            final(self).wf(),
            final(self).allowance_of(*owner, *spender) == if amount@ <= old(self).allowance_of(
                *owner,
                *spender,
            ) {
                old(self).allowance_of(*owner, *spender) - amount@
            } else {
                0
            },
            forall|o: Account, s: Account|
                (o != *owner || s != *spender) ==> #[trigger] final(self).allowance_of(o, s)
                    == old(self).allowance_of(o, s),
            final(self).token_id == old(self).token_id,
            final(self).creator == old(self).creator,
            final(self).metadata == old(self).metadata,
            final(self).curve_config == old(self).curve_config,
            final(self).current_supply == old(self).current_supply,
            final(self).total_raised == old(self).total_raised,
            final(self).is_graduated == old(self).is_graduated,
            final(self).created_at == old(self).created_at,
            final(self).dex_pool_id == old(self).dex_pool_id,
            final(self).balances() == old(self).balances(),
            final(self).holders() == old(self).holders(),
            final(self).circulating() == old(self).circulating(),
            final(self).positions() == old(self).positions(),
            final(self).history() == old(self).history(),
    {
        let current = self.get_allowance(owner, spender);
        let lowered = current.saturating_sub(amount);
        self.set_allowance(*owner, *spender, lowered);
    }

    /// The net amount of tokens that `account` has bought: zero where it
    /// never traded.
    pub open spec fn position_balance(&self, account: Account) -> nat {
        if self.positions().contains_key(account) {
            self.positions()[account].balance@
        } else {
            0
        }
    }

    /// What `account` has spent on purchases: zero where it never traded.
    pub open spec fn position_invested(&self, account: Account) -> nat {
        if self.positions().contains_key(account) {
            self.positions()[account].total_invested@
        } else {
            0
        }
    }

    /// The number of trades of `account`.
    pub open spec fn position_trades(&self, account: Account) -> nat {
        if self.positions().contains_key(account) {
            self.positions()[account].trades_count as nat
        } else {
            0
        }
    }

    /// Whether `trade` can be recorded: the counters of the trader's position
    /// have room for it.
    pub open spec fn can_record(&self, trade: Trade) -> bool {
        &&& self.position_trades(trade.trader) + 1 <= u64::MAX
        &&& trade.is_buy ==> self.position_balance(trade.trader) + trade.token_amount@
            <= u256_max()
        &&& trade.is_buy ==> self.position_invested(trade.trader) + trade.currency_amount@
            <= u256_max()
    }

    /// The position of `account`, if it ever traded.
    pub fn get_position(&self, account: &Account) -> (r: Option<UserPosition>)
        requires
            self.wf(),
        ensures
            r is Some <==> self.positions().contains_key(*account),
            r matches Some(p) ==> p == self.positions()[*account],
    {
        match self.user_positions.get(account) {
            Some(p) => Some(p.clone()),
            None => None,
        }
    }

    /// Appends `trade` to the history and brings the trader's position up to
    /// date: a purchase adds to its balance and to what it invested, a sale
    /// takes from its balance, to zero at least. The trade gets the next
    /// number of the history as its identity.
    pub fn record_trade(&mut self, trade: Trade) -> (r: Result<TradeId, TokenError>)
        requires
            old(self).wf(),
        ensures
            final(self).wf(),
            r is Ok <==> old(self).can_record(trade),
            r is Err ==> r == Err::<TradeId, TokenError>(TokenError::AmountConversionError)
                && *final(self) == *old(self),
            r matches Ok(id) ==> {
                &&& id == TradeId {
                    sequence: old(self).trade_total() as u64,
                    micros: trade.timestamp.0,
                }
                &&& final(self).history() == old(self).history().push(TradeEntry { id, trade })
                &&& final(self).position_trades(trade.trader) == old(self).position_trades(
                    trade.trader,
                ) + 1
                &&& final(self).position_balance(trade.trader) == if trade.is_buy {
                    old(self).position_balance(trade.trader) + trade.token_amount@
                } else if trade.token_amount@ <= old(self).position_balance(trade.trader) {
                    (old(self).position_balance(trade.trader) - trade.token_amount@) as nat
                } else {
                    0
                }
                &&& final(self).position_invested(trade.trader) == if trade.is_buy {
                    old(self).position_invested(trade.trader) + trade.currency_amount@
                } else {
                    old(self).position_invested(trade.trader)
                }
                &&& final(self).positions().dom() == old(self).positions().dom().insert(
                    trade.trader,
                )
                &&& final(self).positions()[trade.trader].token_id == if old(
                    self,
                ).positions().contains_key(trade.trader) {
                    old(self).positions()[trade.trader].token_id
                } else {
                    old(self).token_id
                }
                &&& forall|other: Account|
                    other != trade.trader && old(self).positions().contains_key(other)
                        ==> #[trigger] final(self).positions()[other] == old(self).positions()[other]
                &&& final(self).token_id == old(self).token_id
                &&& final(self).creator == old(self).creator
                &&& final(self).metadata == old(self).metadata
                &&& final(self).curve_config == old(self).curve_config
                &&& final(self).current_supply == old(self).current_supply
                &&& final(self).total_raised == old(self).total_raised
                &&& final(self).is_graduated == old(self).is_graduated
                &&& final(self).created_at == old(self).created_at
                &&& final(self).dex_pool_id == old(self).dex_pool_id
                &&& final(self).balances() == old(self).balances()
                &&& final(self).holders() == old(self).holders()
                &&& final(self).circulating() == old(self).circulating()
                &&& final(self).allowances() == old(self).allowances()
            },
    {
        let ghost before = *self;
        let trader = trade.trader;
        let prior = match self.user_positions.get(&trader) {
            Some(p) => p.clone(),
            None => UserPosition {
                token_id: self.token_id.clone(),
                balance: U256::zero(),
                total_invested: U256::zero(),
                trades_count: 0,
            },
        };
        let balance = if trade.is_buy {
            match prior.balance.checked_add(trade.token_amount) {
                Some(v) => v,
                None => { return Err(TokenError::AmountConversionError); },
            }
        } else {
            prior.balance.saturating_sub(trade.token_amount)
        };
        let total_invested = if trade.is_buy {
            match prior.total_invested.checked_add(trade.currency_amount) {
                Some(v) => v,
                None => { return Err(TokenError::AmountConversionError); },
            }
        } else {
            prior.total_invested
        };
        let trades_count = match prior.trades_count.checked_add(1) {
            Some(v) => v,
            None => { return Err(TokenError::AmountConversionError); },
        };
        let id = TradeId { sequence: self.trades.len() as u64, micros: trade.timestamp.micros() };
        let position = UserPosition {
            token_id: prior.token_id,
            balance,
            total_invested,
            trades_count,
        };
        self.user_positions.insert(trader, position);
        self.trades.push(TradeEntry { id, trade });
        proof {
            assert(final(self).positions().dom() =~= before.positions().dom().insert(trader));
        }
        Ok(id)
    }

    /// A page of the history: at most `limit` trades from place `offset` on,
    /// oldest first.
    pub fn get_trades(&self, offset: usize, limit: usize) -> (page: Vec<Trade>)
        requires
            self.wf(),
        ensures
            page@ == trades_of(self.history()).subrange(
                page_bounds(self.history().len(), offset as nat, limit as nat).0,
                page_bounds(self.history().len(), offset as nat, limit as nat).1,
            ),
    {
        let len = self.trades.len();
        let start = if offset < len {
            offset
        } else {
            len
        };
        let end = if limit < len - start {
            start + limit
        } else {
            len
        };
        let mut page: Vec<Trade> = Vec::new();
        let mut i = start;
        while i < end
            invariant
                start <= i <= end <= len,
                len == self.trades@.len(),
                page@ == trades_of(self.trades@).subrange(start as int, i as int),
            decreases end - i,
        {
            page.push(self.trades[i].trade.clone());
            proof {
                assert(page@ =~= trades_of(self.trades@).subrange(start as int, i as int + 1));
            }
            i += 1;
        }
        page
    }

    /// Whether the ledger is well formed.
    pub fn check(&self) -> (r: bool)
        ensures
            r == self.wf(),
    {
        if !self.balances.check() || !self.user_positions.check() || !self.allowances.check() {
            return false;
        }
        if self.creator.is_some() && self.current_supply.gt(&self.curve_config.max_supply) {
            return false;
        }
        if self.dex_pool_id.is_some() && !self.is_graduated {
            return false;
        }
        let mut i: usize = 0;
        while i < self.balances.len()
            invariant
                self.balances.wf(),
                i <= self.balances.ids().len(),
                forall|k: int| 0 <= k < i ==> self.balances.vals()[k]@ != 0,
            decreases self.balances.ids().len() - i,
        {
            if self.balances.value_at(i).is_zero() {
                proof {
                    self.balances.lemma_entry(i as int);
                }
                return false;
            }
            i += 1;
        }
        proof {
            assert forall|a: Account| #[trigger] self.balances@.contains_key(a) implies self.balances@[a]@
                != 0 by {
                self.balances.lemma_key_has_place(a);
            }
        }
        let mut j: usize = 0;
        while j < self.trades.len()
            invariant
                j <= self.trades@.len(),
                forall|k: int| 0 <= k < j ==> (#[trigger] self.trades@[k]).id.sequence == k,
            decreases self.trades@.len() - j,
        {
            if self.trades[j].id.sequence != j as u64 {
                return false;
            }
            j += 1;
        }
        true
    }
}

} // verus!
