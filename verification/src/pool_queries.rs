//! What can be asked of the pool actor: its totals, its pools page by page,
//! one pool with its age, and the pools with the most value locked. Asking
//! changes nothing.

use crate::identifiers::Timestamp;
use crate::listing::{limit_of, offset_of, page_limit, page_offset};
use crate::pool::{pool_id_of, PoolInfo};
use crate::swap::SwapState;
use crate::token::page_bounds;
use crate::uint256::{decimal_digits, lemma_u256_bounded, lemma_u256_injective, U256};
use crate::views::PoolInfoGQL;
use vstd::prelude::*;

verus! {

broadcast use {lemma_u256_bounded, lemma_u256_injective};

/// The totals of the pool actor.
#[derive(Debug, PartialEq, Eq)]
pub struct SwapStats {
    /// The number of pools.
    pub total_pools: u64,
    /// The value locked in all pools, in decimal notation.
    pub total_tvl: String,
    /// The value locked per pool, rounded down, in decimal notation.
    pub average_pool_tvl: String,
}

/// One pool, with what is known of it now.
#[derive(Debug, PartialEq, Eq)]
pub struct PoolDetails {
    pub pool: PoolInfoGQL,
    /// Whether the pool is active. Every pool is.
    pub is_active: bool,
    /// The age of the pool in whole seconds.
    pub age_seconds: u64,
}

/// The locked liquidity in figures.
#[derive(Debug, PartialEq, Eq)]
pub struct LockedLiquiditySummary {
    pub total_locked_pools: u64,
    pub total_locked_tvl: String,
    pub permanently_locked_pools: u64,
    pub temporarily_locked_pools: u64,
}

/// Whether `shown` shows the pools `pools`, one by one.
pub open spec fn pools_shown(shown: Seq<PoolInfoGQL>, pools: Seq<PoolInfo>) -> bool {
    &&& shown.len() == pools.len()
    &&& forall|i: int| 0 <= i < shown.len() ==> (#[trigger] shown[i]).shows(pools[i])
}

/// `sorted` with `pool` put in its place: behind every pool that locks at
/// least as much, before every pool that locks less.
pub open spec fn placed(sorted: Seq<PoolInfo>, pool: PoolInfo) -> Seq<PoolInfo>
    decreases sorted.len(),
{
    if sorted.len() == 0 {
        seq![pool]
    } else if sorted.last().tvl@ >= pool.tvl@ {
        sorted.push(pool)
    } else {
        placed(sorted.drop_last(), pool).push(sorted.last())
    }
}

/// The pools ranked by the value that they lock, the greatest first; pools
/// that lock the same keep their order.
pub open spec fn ranked(pools: Seq<PoolInfo>) -> Seq<PoolInfo>
    decreases pools.len(),
{
    if pools.len() == 0 {
        Seq::empty()
    } else {
        placed(ranked(pools.drop_last()), pools.last())
    }
}

/// Whether each pool locks at least as much as the next.
pub open spec fn descending(pools: Seq<PoolInfo>) -> bool {
    forall|i: int, j: int| 0 <= i <= j < pools.len() ==> pools[i].tvl@ >= pools[j].tvl@
}

/// Where the pools from place `at` on all lock less than `pool` and the pool
/// before, if there is one, locks at least as much, the place of `pool` is
/// `at`.
pub proof fn lemma_placed_at(sorted: Seq<PoolInfo>, pool: PoolInfo, at: int)
    requires
        0 <= at <= sorted.len(),
        forall|i: int| at <= i < sorted.len() ==> sorted[i].tvl@ < pool.tvl@,
        at > 0 ==> sorted[at - 1].tvl@ >= pool.tvl@,
    ensures
        placed(sorted, pool) == sorted.insert(at, pool),
    decreases sorted.len() - at,
{
    if sorted.len() == 0 {
        assert(sorted.insert(at, pool) =~= seq![pool]);
    } else if at == sorted.len() {
        assert(sorted.insert(at, pool) =~= sorted.push(pool));
    } else {
        lemma_placed_at(sorted.drop_last(), pool, at);
        assert(sorted.insert(at, pool) =~= sorted.drop_last().insert(at, pool).push(
            sorted.last(),
        ));
    }
}

/// Putting a pool in its place keeps a ranking in order and adds one pool.
pub proof fn lemma_placed_descending(sorted: Seq<PoolInfo>, pool: PoolInfo)
    requires
        descending(sorted),
    ensures
        descending(placed(sorted, pool)),
        placed(sorted, pool).len() == sorted.len() + 1,
        placed(sorted, pool).to_multiset() == sorted.to_multiset().insert(pool),
    decreases sorted.len(),
{
    broadcast use vstd::seq_lib::group_to_multiset_ensures;

    if sorted.len() == 0 {
        assert(seq![pool] =~= Seq::<PoolInfo>::empty().push(pool));
        assert(sorted =~= Seq::<PoolInfo>::empty());
    } else if sorted.last().tvl@ >= pool.tvl@ {
    } else {
        let rest = sorted.drop_last();
        lemma_placed_descending(rest, pool);
        let before = placed(rest, pool);
        let after = before.push(sorted.last());
        assert(sorted =~= rest.push(sorted.last()));
        assert forall|i: int, j: int| 0 <= i <= j < after.len() implies after[i].tvl@
            >= after[j].tvl@ by {
            if j == after.len() - 1 && i < j {
                // every pool of `before` is `pool` or a pool of `rest`
                assert(before.to_multiset().count(before[i]) > 0);
                if before[i] != pool {
                    assert(rest.to_multiset().count(before[i]) > 0);
                    let k = choose|k: int| 0 <= k < rest.len() && rest[k] == before[i];
                    assert(sorted[k] == before[i]);
                }
            }
        }
    }
}

/// A ranking is in order and holds the pools that were ranked, each as often
/// as it was given.
pub proof fn lemma_ranked(pools: Seq<PoolInfo>)
    ensures
        descending(ranked(pools)),
        ranked(pools).len() == pools.len(),
        ranked(pools).to_multiset() == pools.to_multiset(),
    decreases pools.len(),
{
    broadcast use vstd::seq_lib::group_to_multiset_ensures;

    if pools.len() == 0 {
        assert(pools =~= Seq::<PoolInfo>::empty());
    } else {
        lemma_ranked(pools.drop_last());
        lemma_placed_descending(ranked(pools.drop_last()), pools.last());
        assert(pools =~= pools.drop_last().push(pools.last()));
    }
}

/// The age in whole seconds at `now` of what was created at `created_at`;
/// zero where the clock stands before the creation.
pub open spec fn age_of(now: Timestamp, created_at: Timestamp) -> u64 {
    if now.0 >= created_at.0 {
        ((now.0 - created_at.0) / 1_000_000) as u64
    } else {
        0
    }
}

/// The pools as they are shown.
pub fn show_pools(pools: &Vec<PoolInfo>) -> (shown: Vec<PoolInfoGQL>)
    ensures
        pools_shown(shown@, pools@),
{
    let mut shown: Vec<PoolInfoGQL> = Vec::new();
    let mut i: usize = 0;
    while i < pools.len()
        invariant
            i <= pools.len(),
            pools_shown(shown@, pools@.subrange(0, i as int)),
        decreases pools.len() - i,
    {
        shown.push(PoolInfoGQL::from(&pools[i]));
        i += 1;
    }
    proof {
        assert(pools@.subrange(0, pools.len() as int) =~= pools@);
    }
    shown
}

/// The pools ranked by the value that they lock, the greatest first.
pub fn rank_pools(pools: Vec<PoolInfo>) -> (sorted: Vec<PoolInfo>)
    ensures
        sorted@ == ranked(pools@),
{
    let mut sorted: Vec<PoolInfo> = Vec::new();
    let mut i: usize = 0;
    while i < pools.len()
        invariant
            i <= pools.len(),
            sorted@ == ranked(pools@.subrange(0, i as int)),
        decreases pools.len() - i,
    {
        let pool = pools[i].clone();
        let mut at = sorted.len();
        while at > 0 && sorted[at - 1].tvl.lt(&pool.tvl)
            invariant
                at <= sorted.len(),
                forall|k: int| at <= k < sorted.len() ==> sorted@[k].tvl@ < pool.tvl@,
            decreases at,
        {
            at -= 1;
        }
        proof {
            lemma_placed_at(sorted@, pool, at as int);
            let next = pools@.subrange(0, i as int + 1);
            assert(next.drop_last() =~= pools@.subrange(0, i as int));
            assert(next.last() == pool);
        }
        sorted.insert(at, pool);
        i += 1;
    }
    proof {
        assert(pools@.subrange(0, pools.len() as int) =~= pools@);
    }
    sorted
}

impl SwapState {
    /// The pools that a listing can reach: the first thousand.
    pub open spec fn reachable_pools(&self) -> Seq<PoolInfo> {
        self.pools.vals().subrange(
            0,
            page_bounds(self.pools.vals().len(), 0, 1000).1,
        )
    }

    /// The totals of the actor: the number of pools, the value locked, and
    /// the value locked per pool.
    pub fn stats(&self) -> (r: SwapStats)
        ensures
            r.total_pools == self.total_pools,
            r.total_tvl@ == decimal_digits(self.total_tvl@),
            r.average_pool_tvl@ == decimal_digits(
                if self.total_pools > 0 {
                    self.total_tvl@ / (self.total_pools as nat)
                } else {
                    0
                },
            ),
    {
        let average = if self.total_pools > 0 {
            match self.total_tvl.checked_div(U256::from_u64(self.total_pools)) {
                Some(v) => v,
                None => U256::zero(),
            }
        } else {
            U256::zero()
        };
        SwapStats {
            total_pools: self.total_pools,
            total_tvl: self.total_tvl.to_string(),
            average_pool_tvl: average.to_string(),
        }
    }

    /// A page of the pools as they are shown: 20 pools from the first on
    /// where nothing else is asked for, and never more than 100.
    pub fn pools(&self, offset: Option<i32>, limit: Option<i32>) -> (shown: Vec<PoolInfoGQL>)
        requires
            self.wf(),
        ensures
            pools_shown(
                shown@,
                self.pools.vals().subrange(
                    page_bounds(
                        self.pools.vals().len(),
                        offset_of(offset) as nat,
                        limit_of(limit, 20, 100) as nat,
                    ).0,
                    page_bounds(
                        self.pools.vals().len(),
                        offset_of(offset) as nat,
                        limit_of(limit, 20, 100) as nat,
                    ).1,
                ),
            ),
    {
        let page = self.get_all_pools(page_offset(offset), page_limit(limit, 20, 100));
        show_pools(&page)
    }

    /// The pool with this identity as it is shown, with its age at `now`.
    pub fn pool(&self, pool_id: &str, now: Timestamp) -> (r: Option<PoolDetails>)
        requires
            self.wf(),
        ensures
            r is Some <==> self.pools@.contains_key(pool_id@),
            r matches Some(details) ==> details.pool.shows(self.pools@[pool_id@])
                && details.is_active && details.age_seconds == age_of(
                now,
                self.pools@[pool_id@].created_at,
            ),
    {
        match self.get_pool(pool_id) {
            Some(pool) => Some(
                PoolDetails {
                    pool: PoolInfoGQL::from(&pool),
                    is_active: true,
                    age_seconds: now.seconds_since(pool.created_at),
                },
            ),
            None => None,
        }
    }

    /// The pool of this launch as it is shown, with its age at `now`.
    pub fn pool_by_token(&self, token_id: &str, now: Timestamp) -> (r: Option<PoolDetails>)
        requires
            self.wf(),
        ensures
            r is Some <==> self.has_pool_for(token_id@),
            r matches Some(details) ==> details.pool.shows(self.pools@[pool_id_of(token_id@)])
                && details.is_active && details.age_seconds == age_of(
                now,
                self.pools@[pool_id_of(token_id@)].created_at,
            ),
    {
        match self.get_pool_by_token(token_id) {
            Some(pool) => Some(
                PoolDetails {
                    pool: PoolInfoGQL::from(&pool),
                    is_active: true,
                    age_seconds: now.seconds_since(pool.created_at),
                },
            ),
            None => None,
        }
    }

    /// Whether the launch has graduated, that is, has a pool.
    pub fn has_graduated(&self, token_id: &str) -> (r: bool)
        requires
            self.wf(),
        ensures
            r == self.has_pool_for(token_id@),
    {
        self.has_pool(token_id)
    }

    /// The pools that lock the most value, the greatest first, as they are
    /// shown: 10 where nothing else is asked for, and never more than 50.
    pub fn top_pools_by_tvl(&self, limit: Option<i32>) -> (shown: Vec<PoolInfoGQL>)
        requires
            self.wf(),
        ensures
            pools_shown(
                shown@,
                ranked(self.reachable_pools()).take(
                    if limit_of(limit, 10, 50) < self.reachable_pools().len() {
                        limit_of(limit, 10, 50)
                    } else {
                        self.reachable_pools().len() as int
                    },
                ),
            ),
    {
        let limit = page_limit(limit, 10, 50);
        let all = self.get_all_pools(0, 1000);
        let ghost reach = all@;
        let mut sorted = rank_pools(all);
        proof {
            lemma_ranked(reach);
        }
        if limit < sorted.len() {
            sorted.truncate(limit);
        }
        proof {
            assert(sorted@ =~= ranked(reach).take(
                if limit < reach.len() {
                    limit as int
                } else {
                    reach.len() as int
                },
            ));
        }
        show_pools(&sorted)
    }

    /// The first pools of the listing, the last of them first, as they are
    /// shown: 10 where nothing else is asked for, and never more than 50.
    pub fn recent_pools(&self, limit: Option<i32>) -> (shown: Vec<PoolInfoGQL>)
        requires
            self.wf(),
        ensures
            pools_shown(
                shown@,
                self.pools.vals().subrange(
                    0,
                    page_bounds(self.pools.vals().len(), 0, limit_of(limit, 10, 50) as nat).1,
                ).reverse(),
            ),
    {
        let page = self.get_all_pools(0, page_limit(limit, 10, 50));
        let mut turned: Vec<PoolInfo> = Vec::new();
        let mut i = page.len();
        while i > 0
            invariant
                i <= page.len(),
                turned@.len() == page.len() - i,
                forall|k: int| 0 <= k < turned@.len() ==> turned@[k] == page@[page.len() - 1 - k],
            decreases i,
        {
            i -= 1;
            turned.push(page[i].clone());
        }
        proof {
            assert(turned@ =~= page@.reverse());
        }
        show_pools(&turned)
    }

    /// The locked liquidity in figures: every pool is locked for good.
    pub fn locked_liquidity_summary(&self) -> (r: LockedLiquiditySummary)
        ensures
            r.total_locked_pools == self.total_pools,
            r.total_locked_tvl@ == decimal_digits(self.total_tvl@),
            r.permanently_locked_pools == self.total_pools,
            r.temporarily_locked_pools == 0,
    {
        LockedLiquiditySummary {
            total_locked_pools: self.total_pools,
            total_locked_tvl: self.total_tvl.to_string(),
            permanently_locked_pools: self.total_pools,
            temporarily_locked_pools: 0,
        }
    }
}

} // verus!
