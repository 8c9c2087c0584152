//! The pool actor: it makes the locked pool of each graduated launch exactly
//! once, acknowledges every delivery of the graduation message, and serves
//! swaps against the pools.

use crate::collections::VecMap;
use crate::identifiers::Timestamp;
use crate::pool::{lemma_pool_id_injective, pool_id_of, pool_refusal, PoolError, PoolInfo};
use crate::token::page_bounds;
use crate::types::Message;
use crate::uint256::{lemma_u256_bounded, lemma_u256_injective, u256_max, U256};
use vstd::prelude::*;

verus! {

broadcast use {lemma_u256_bounded, lemma_u256_injective};

/// Why the pool actor refused an operation.
#[derive(Debug, PartialEq, Eq)]
pub enum SwapError {
    /// No pool has this identity.
    PoolNotFound(String),
    /// The pool is locked: liquidity can be neither added nor removed.
    PoolLocked,
    /// The reserves do not cover the swap.
    InsufficientLiquidity,
    /// The swap pays out less than the trader accepts.
    SlippageExceeded { got: U256, min: U256 },
    /// The amount is zero.
    InvalidAmount,
    /// A number does not fit where it has to go.
    AmountConversionError,
}

/// What became of a graduation message.
#[derive(Debug, PartialEq, Eq)]
pub enum GraduationOutcome {
    /// The pool was made; the acknowledgment is to be sent.
    Created(Message),
    /// The launch had its pool already; the acknowledgment is to be sent
    /// again.
    Duplicate(Message),
    /// The message was dropped, for this reason.
    Dropped(PoolError),
}

/// The state of the pool actor.
pub struct SwapState {
    /// The pools, by their identity.
    pub pools: VecMap<String, PoolInfo>,
    /// The identity of the pool of each graduated launch.
    pub token_to_pool: VecMap<String, String>,
    /// The number of pools made.
    pub total_pools: u64,
    /// The value locked in all pools at their creation.
    pub total_tvl: U256,
    /// When the actor started.
    pub created_at: Timestamp,
}

/// Whether `outcome` carries the acknowledgment for the launch `token_id`:
/// a `PoolCreated` message that names the launch and its pool.
pub open spec fn acknowledges(outcome: GraduationOutcome, token_id: Seq<char>) -> bool {
    match outcome {
        GraduationOutcome::Created(m) | GraduationOutcome::Duplicate(m) => match m {
            Message::PoolCreated { token_id: t, pool_id: p } => t@ == token_id && p@ == pool_id_of(
                token_id,
            ),
            _ => false,
        },
        GraduationOutcome::Dropped(_) => false,
    }
}

impl SwapState {
    /// The state is well formed: every pool is locked and stands under its
    /// own identity, and the launches with a pool are exactly those that the
    /// index names.
    pub open spec fn wf(&self) -> bool {
        &&& self.pools.wf()
        &&& self.token_to_pool.wf()
        &&& forall|id: Seq<char>| #[trigger]
            self.pools@.contains_key(id) ==> self.pools@[id].wf() && self.pools@[id].pool_id@
                == id && self.token_to_pool@.contains_key(self.pools@[id].token_id@)
        &&& forall|t: Seq<char>| #[trigger]
            self.token_to_pool@.contains_key(t) ==> self.token_to_pool@[t]@ == pool_id_of(t)
                && self.pools@.contains_key(pool_id_of(t))
    }

    /// Whether the launch `token_id` has a pool.
    pub open spec fn has_pool_for(&self, token_id: Seq<char>) -> bool {
        self.token_to_pool@.contains_key(token_id)
    }

    /// Why no pool can be made for the launch, if none can: it has one
    /// already, the totals make no pool, or a total of the actor has no room.
    pub open spec fn creation_refusal(&self, token_id: Seq<char>, total_supply: nat, total_raised: nat) -> Option<
        PoolError,
    > {
        if self.has_pool_for(token_id) {
            Some(PoolError::AlreadyExists)
        } else if pool_refusal(total_supply, total_raised) is Some {
            pool_refusal(total_supply, total_raised)
        } else if self.total_pools + 1 > u64::MAX || self.total_tvl@ + 2 * total_raised
            > u256_max() {
            Some(PoolError::AmountConversionError)
        } else {
            None
        }
    }

    /// How the state stands after the pool `pool` was made for the launch
    /// `token_id`.
    pub open spec fn created_from(&self, before: SwapState, token_id: Seq<char>, pool: PoolInfo) -> bool {
        &&& self.pools@ == before.pools@.insert(pool_id_of(token_id), pool)
        &&& self.pools.ids() == before.pools.ids().push(pool_id_of(token_id))
        &&& self.pools.vals() == before.pools.vals().push(pool)
        &&& self.token_to_pool@.dom() == before.token_to_pool@.dom().insert(token_id)
        &&& self.has_pool_for(token_id)
        &&& forall|t: Seq<char>|
            before.token_to_pool@.contains_key(t) ==> #[trigger] self.token_to_pool@[t]
                == before.token_to_pool@[t]
        &&& self.total_pools == before.total_pools + 1
        &&& self.total_tvl@ == before.total_tvl@ + pool.tvl@
        &&& self.created_at == before.created_at
    }

    /// What the delivery of a graduation message at the time `now` does:
    /// `before` becomes `self` and yields `outcome`. Totals of zero are
    /// dropped; a launch that has its pool is acknowledged again and nothing
    /// changes; otherwise the pool is made and acknowledged, or the message
    /// is dropped where no pool can be made.
    pub open spec fn graduation_step(
        &self,
        before: SwapState,
        token_id: Seq<char>,
        total_supply: nat,
        total_raised: nat,
        now: Timestamp,
        outcome: GraduationOutcome,
    ) -> bool {
        if total_supply == 0 {
            outcome == GraduationOutcome::Dropped(PoolError::ZeroSupply) && *self == before
        } else if total_raised == 0 {
            outcome == GraduationOutcome::Dropped(PoolError::ZeroRaised) && *self == before
        } else if before.has_pool_for(token_id) {
            outcome is Duplicate && acknowledges(outcome, token_id) && *self == before
        } else {
            match before.creation_refusal(token_id, total_supply, total_raised) {
                Some(e) => outcome == GraduationOutcome::Dropped(e) && *self == before,
                None => outcome is Created && acknowledges(outcome, token_id)
                    && self.pools@.contains_key(pool_id_of(token_id)) && self.created_from(
                    before,
                    token_id,
                    self.pools@[pool_id_of(token_id)],
                ) && self.pools@[pool_id_of(token_id)].made_of(
                    token_id,
                    total_supply,
                    total_raised,
                    now,
                ),
            }
        }
    }

    /// Delivering the same graduation message twice, at whatever times,
    /// makes one pool: the second delivery changes neither the pools nor the
    /// totals, and where the first was acknowledged, the second is
    /// acknowledged too, with the same pool. A first delivery that made the
    /// pool added exactly that pool.
    pub proof fn lemma_graduation_idempotent(
        start: SwapState,
        once: SwapState,
        twice: SwapState,
        token_id: Seq<char>,
        total_supply: nat,
        total_raised: nat,
        first_time: Timestamp,
        second_time: Timestamp,
        first: GraduationOutcome,
        second: GraduationOutcome,
    )
        requires
            start.wf(),
            once.graduation_step(start, token_id, total_supply, total_raised, first_time, first),
            twice.graduation_step(once, token_id, total_supply, total_raised, second_time, second),
        ensures
            twice == once,
            twice.pools@ == once.pools@,
            twice.total_pools == once.total_pools,
            twice.total_tvl == once.total_tvl,
            first is Dropped ==> second == first && once == start,
            !(first is Dropped) ==> second is Duplicate && acknowledges(first, token_id)
                && acknowledges(second, token_id),
            first is Created ==> once.pools@.dom() == start.pools@.dom().insert(
                pool_id_of(token_id),
            ) && !start.pools@.contains_key(pool_id_of(token_id)) && once.total_pools
                == start.total_pools + 1,
            first is Duplicate ==> once == start,
    {
        if first is Created {
            assert(!start.has_pool_for(token_id));
            if start.pools@.contains_key(pool_id_of(token_id)) {
                let known = start.pools@[pool_id_of(token_id)];
                assert(start.token_to_pool@.contains_key(known.token_id@));
                lemma_pool_id_injective(known.token_id@, token_id);
            }
            assert(once.pools@.dom() =~= start.pools@.dom().insert(pool_id_of(token_id)));
        }
    }

    /// Whether the state is well formed.
    pub fn check(&self) -> (r: bool)
        ensures
            r == self.wf(),
    {
        if !self.pools.check() || !self.token_to_pool.check() {
            return false;
        }
        let mut i: usize = 0;
        while i < self.pools.len()
            invariant
                self.pools.wf(),
                self.token_to_pool.wf(),
                i <= self.pools.ids().len(),
                forall|k: int|
                    0 <= k < i ==> (#[trigger] self.pools.vals()[k]).wf() && self.pools.vals()[k].pool_id@
                        == self.pools.ids()[k] && self.token_to_pool@.contains_key(
                        self.pools.vals()[k].token_id@,
                    ),
            decreases self.pools.ids().len() - i,
        {
            let pool = self.pools.value_at(i);
            let id = self.pools.key_at(i);
            if !pool.check() || pool.pool_id != *id || !self.token_to_pool.contains_key(
                &pool.token_id,
            ) {
                proof {
                    self.pools.lemma_entry(i as int);
                }
                return false;
            }
            i += 1;
        }
        let mut j: usize = 0;
        while j < self.token_to_pool.len()
            invariant
                self.pools.wf(),
                self.token_to_pool.wf(),
                j <= self.token_to_pool.ids().len(),
                forall|k: int|
                    0 <= k < j ==> (#[trigger] self.token_to_pool.vals()[k])@ == pool_id_of(
                        self.token_to_pool.ids()[k],
                    ) && self.pools@.contains_key(pool_id_of(self.token_to_pool.ids()[k])),
            decreases self.token_to_pool.ids().len() - j,
        {
            let token = self.token_to_pool.key_at(j);
            let named = self.token_to_pool.value_at(j);
            let expected = crate::text::join("pool-", token.as_str());
            if *named != expected || !self.pools.contains_key(&expected) {
                proof {
                    self.token_to_pool.lemma_entry(j as int);
                }
                return false;
            }
            j += 1;
        }
        proof {
            assert forall|id: Seq<char>| #[trigger] self.pools@.contains_key(id) implies self.pools@[id].wf()
                && self.pools@[id].pool_id@ == id && self.token_to_pool@.contains_key(
                self.pools@[id].token_id@,
            ) by {
                self.pools.lemma_key_has_place(id);
            }
            assert forall|t: Seq<char>| #[trigger] self.token_to_pool@.contains_key(t) implies self.token_to_pool@[t]@
                == pool_id_of(t) && self.pools@.contains_key(pool_id_of(t)) by {
                self.token_to_pool.lemma_key_has_place(t);
            }
        }
        true
    }

    /// The state of an actor that has made no pool yet.
    pub fn new() -> (state: SwapState)
        ensures
            state.wf(),
            state.pools@ == Map::<Seq<char>, PoolInfo>::empty(),
            state.pools.ids() == Seq::<Seq<char>>::empty(),
            state.token_to_pool@ == Map::<Seq<char>, String>::empty(),
            state.total_pools == 0,
            state.total_tvl@ == 0,
            state.created_at == Timestamp(0),
    {
        SwapState {
            pools: VecMap::new(),
            token_to_pool: VecMap::new(),
            total_pools: 0,
            total_tvl: U256::zero(),
            created_at: Timestamp(0),
        }
    }

    /// Starts the actor: the totals are zero from `created_at` on.
    pub fn initialize(&mut self, created_at: Timestamp)
        ensures
            final(self).total_pools == 0,
            final(self).total_tvl@ == 0,
            final(self).created_at == created_at,
            final(self).pools == old(self).pools,
            final(self).token_to_pool == old(self).token_to_pool,
            old(self).wf() ==> final(self).wf(),
    {
        self.total_pools = 0;
        self.total_tvl = U256::zero();
        self.created_at = created_at;
    }

    /// Whether the launch has graduated, that is, has a pool.
    pub fn has_pool(&self, token_id: &str) -> (r: bool)
        requires
            self.wf(),
        ensures
            r == self.has_pool_for(token_id@),
    {
        self.token_to_pool.contains_key(&token_id.to_owned())
    }

    /// The pool with this identity, if there is one.
    pub fn get_pool(&self, pool_id: &str) -> (r: Option<PoolInfo>)
        requires
            self.wf(),
        ensures
            r is Some <==> self.pools@.contains_key(pool_id@),
            r matches Some(pool) ==> pool == self.pools@[pool_id@] && pool.wf(),
    {
        match self.pools.get(&pool_id.to_owned()) {
            Some(pool) => Some(pool.clone()),
            None => None,
        }
    }

    /// The pool of this launch, if it has one.
    pub fn get_pool_by_token(&self, token_id: &str) -> (r: Option<PoolInfo>)
        requires
            self.wf(),
        ensures
            r is Some <==> self.has_pool_for(token_id@),
            r matches Some(pool) ==> pool == self.pools@[pool_id_of(token_id@)] && pool.wf()
                && pool.token_id@ == token_id@,
    {
        match self.token_to_pool.get(&token_id.to_owned()) {
            Some(pool_id) => {
                let found = self.get_pool(pool_id.as_str());
                proof {
                    if found is Some {
                        lemma_pool_id_injective(found->Some_0.token_id@, token_id@);
                    }
                }
                found
            },
            None => None,
        }
    }

    /// A page of the pools in the order of their creation: at most `limit`
    /// pools from place `offset` on.
    pub fn get_all_pools(&self, offset: usize, limit: usize) -> (page: Vec<PoolInfo>)
        requires
            self.wf(),
        ensures
            page@ == self.pools.vals().subrange(
                page_bounds(self.pools.vals().len(), offset as nat, limit as nat).0,
                page_bounds(self.pools.vals().len(), offset as nat, limit as nat).1,
            ),
    {
        let len = self.pools.len();
        let start = if offset < len {
            offset
        } else {
            len
        };
        let end = if limit < len - start {
            start + limit
        } else {
            len
        };
        let mut page: Vec<PoolInfo> = Vec::new();
        let mut i = start;
        while i < end
            invariant
                self.wf(),
                start <= i <= end <= len,
                len == self.pools.ids().len(),
                len == self.pools.vals().len(),
                page@ == self.pools.vals().subrange(start as int, i as int),
            decreases end - i,
        {
            page.push(self.pools.value_at(i).clone());
            proof {
                assert(page@ =~= self.pools.vals().subrange(start as int, i as int + 1));
            }
            i += 1;
        }
        page
    }

    /// Makes the locked pool of a graduated launch. A launch that has a pool
    /// gets no second one, and a refusal changes nothing.
    pub fn create_pool(
        &mut self,
        token_id: String,
        total_supply: U256,
        total_raised: U256,
        created_at: Timestamp,
    ) -> (r: Result<PoolInfo, PoolError>)
        requires
            old(self).wf(),
        ensures
            final(self).wf(),
            r is Err <==> old(self).creation_refusal(token_id@, total_supply@, total_raised@)
                is Some,
            r matches Err(e) ==> Some(e) == old(self).creation_refusal(
                token_id@,
                total_supply@,
                total_raised@,
            ) && *final(self) == *old(self),
            r matches Ok(pool) ==> {
                &&& pool.made_of(token_id@, total_supply@, total_raised@, created_at)
                &&& pool.token_id == token_id
                &&& pool.token_liquidity == total_supply
                &&& pool.base_liquidity == total_raised
                &&& final(self).created_from(*old(self), token_id@, pool)
            },
    {
        let ghost before = *self;
        let ghost token = token_id@;
        if self.token_to_pool.contains_key(&token_id) {
            return Err(PoolError::AlreadyExists);
        }
        let pool = match PoolInfo::new(token_id.clone(), total_supply, total_raised, created_at) {
            Ok(p) => p,
            Err(e) => { return Err(e); },
        };
        let new_total = match self.total_pools.checked_add(1) {
            Some(v) => v,
            None => { return Err(PoolError::AmountConversionError); },
        };
        let new_tvl = match self.total_tvl.checked_add(pool.tvl) {
            Some(v) => v,
            None => { return Err(PoolError::AmountConversionError); },
        };
        proof {
            if before.pools@.contains_key(pool_id_of(token)) {
                let known = before.pools@[pool_id_of(token)];
                assert(before.token_to_pool@.contains_key(known.token_id@));
                lemma_pool_id_injective(known.token_id@, token);
            }
        }
        let stored = pool.clone();
        self.pools.insert(pool.pool_id.clone(), stored);
        self.token_to_pool.insert(token_id, pool.pool_id.clone());
        self.total_pools = new_total;
        self.total_tvl = new_tvl;
        proof {
            assert(self.token_to_pool@.dom() =~= before.token_to_pool@.dom().insert(token));
            assert forall|id: Seq<char>| #[trigger] self.pools@.contains_key(id) implies self.pools@[id].wf()
                && self.pools@[id].pool_id@ == id && self.token_to_pool@.contains_key(
                self.pools@[id].token_id@,
            ) by {
                if id != pool_id_of(token) {
                    assert(before.pools@.contains_key(id));
                }
            }
            assert forall|t: Seq<char>| #[trigger] self.token_to_pool@.contains_key(t) implies self.token_to_pool@[t]@
                == pool_id_of(t) && self.pools@.contains_key(pool_id_of(t)) by {
                if t != token {
                    assert(before.token_to_pool@.contains_key(t));
                }
            }
        }
        Ok(pool)
    }

    /// Handles the graduation of a launch. The message never fails the
    /// actor: what cannot be served is dropped. Every delivery for a launch
    /// with a pool yields the acknowledgment, and only the first makes the
    /// pool.
    pub fn handle_graduation(
        &mut self,
        token_id: String,
        total_supply: U256,
        total_raised: U256,
        now: Timestamp,
    ) -> (outcome: GraduationOutcome)
        requires
            old(self).wf(),
        ensures
            final(self).wf(),
            final(self).graduation_step(
                *old(self),
                token_id@,
                total_supply@,
                total_raised@,
                now,
                outcome,
            ),
    {
        if total_supply.is_zero() {
            return GraduationOutcome::Dropped(PoolError::ZeroSupply);
        }
        if total_raised.is_zero() {
            return GraduationOutcome::Dropped(PoolError::ZeroRaised);
        }
        if self.has_pool(token_id.as_str()) {
            match self.get_pool_by_token(token_id.as_str()) {
                Some(pool) => {
                    return GraduationOutcome::Duplicate(
                        Message::PoolCreated { token_id, pool_id: pool.pool_id },
                    );
                },
                None => {
                    return GraduationOutcome::Dropped(PoolError::AlreadyExists);
                },
            }
        }
        match self.create_pool(token_id.clone(), total_supply, total_raised, now) {
            Ok(pool) => GraduationOutcome::Created(
                Message::PoolCreated { token_id, pool_id: pool.pool_id },
            ),
            Err(e) => GraduationOutcome::Dropped(e),
        }
    }
}

} // verus!
