//! What can be asked of the registry: its launches page by page, the newest,
//! the graduated, those that a search finds, and its totals. Asking changes
//! nothing.

use crate::factory::FactoryState;
use crate::identifiers::Account;
use crate::listing::{capped_limit, capped_limit_of, first_matches};
use crate::text::{contains, lowercase_of, occurs_in, to_lowercase};
use crate::token::page_bounds;
use crate::types::TokenLaunch;
use crate::uint256::{decimal_digits, lemma_u256_bounded, lemma_u256_injective, u256_max, U256};
use crate::views::TokenLaunchView;
use vstd::prelude::*;

verus! {

broadcast use {lemma_u256_bounded, lemma_u256_injective};

/// The totals of the registry.
#[derive(Debug, PartialEq, Eq)]
pub struct FactoryStats {
    /// The number of launches.
    pub total_tokens: u64,
    /// The number of launches that have graduated.
    pub graduated_count: u64,
    /// The number of launches that have not.
    pub active_count: u64,
    /// What all launches have raised, in decimal notation.
    pub total_value_locked: String,
}

/// Whether `shown` shows the launches `launches`, one by one.
pub open spec fn launches_shown(shown: Seq<TokenLaunchView>, launches: Seq<TokenLaunch>) -> bool {
    &&& shown.len() == launches.len()
    &&& forall|i: int| 0 <= i < shown.len() ==> (#[trigger] shown[i]).shows(launches[i])
}

/// What the launches have raised together.
pub open spec fn raised_sum(launches: Seq<TokenLaunch>) -> nat
    decreases launches.len(),
{
    if launches.len() == 0 {
        0
    } else {
        raised_sum(launches.drop_last()) + launches.last().total_raised@
    }
}

/// The number of launches that have graduated.
pub open spec fn graduated_among(launches: Seq<TokenLaunch>) -> nat
    decreases launches.len(),
{
    if launches.len() == 0 {
        0
    } else {
        graduated_among(launches.drop_last()) + if launches.last().is_graduated {
            1nat
        } else {
            0nat
        }
    }
}

/// No more launches have graduated than there are, and a part of the
/// launches has raised no more than all.
pub proof fn lemma_totals_grow(launches: Seq<TokenLaunch>, upto: int)
    requires
        0 <= upto <= launches.len(),
    ensures
        graduated_among(launches) <= launches.len(),
        raised_sum(launches.subrange(0, upto)) <= raised_sum(launches),
    decreases launches.len(),
{
    if launches.len() > 0 {
        lemma_totals_grow(launches.drop_last(), if upto < launches.len() {
            upto
        } else {
            upto - 1
        });
        if upto < launches.len() {
            assert(launches.subrange(0, upto) =~= launches.drop_last().subrange(0, upto));
        } else {
            assert(launches.subrange(0, upto) =~= launches);
            assert(launches.drop_last().subrange(0, upto - 1) =~= launches.drop_last());
        }
    } else {
        assert(launches.subrange(0, upto) =~= launches);
    }
}

/// Whether the search for `query` finds the launch: its name or its symbol
/// holds the query, whatever the case of the letters.
pub open spec fn found_by(query: Seq<char>, launch: TokenLaunch) -> bool {
    occurs_in(lowercase_of(query), lowercase_of(launch.metadata.name@)) || occurs_in(
        lowercase_of(query),
        lowercase_of(launch.metadata.symbol@),
    )
}

/// Whether a name or a symbol holds the query, all three in lower case.
pub fn holds_query(name: &str, symbol: &str, query: &str) -> (r: bool)
    ensures
        r == (occurs_in(query@, name@) || occurs_in(query@, symbol@)),
{
    contains(name, query) || contains(symbol, query)
}

/// The launches as they are shown.
pub fn show_launches(launches: &Vec<TokenLaunch>) -> (shown: Vec<TokenLaunchView>)
    ensures
        launches_shown(shown@, launches@),
{
    let mut shown: Vec<TokenLaunchView> = Vec::new();
    let mut i: usize = 0;
    while i < launches.len()
        invariant
            i <= launches.len(),
            launches_shown(shown@, launches@.subrange(0, i as int)),
        decreases launches.len() - i,
    {
        shown.push(TokenLaunchView::from(&launches[i]));
        i += 1;
    }
    proof {
        assert(launches@.subrange(0, launches.len() as int) =~= launches@);
    }
    shown
}

impl FactoryState {
    /// A page of the launches: at most `limit` from place `offset` on.
    pub open spec fn page(&self, offset: nat, limit: nat) -> Seq<TokenLaunch> {
        self.launches().subrange(
            page_bounds(self.launches().len(), offset, limit).0,
            page_bounds(self.launches().len(), offset, limit).1,
        )
    }

    /// The number of launches on record.
    pub fn token_count(&self) -> (n: u64)
        requires
            self.wf(),
        ensures
            n == self.launches().len(),
    {
        self.get_token_count()
    }

    /// The launch with this identity as it is shown, if it is on record.
    pub fn token(&self, token_id: &str) -> (r: Option<TokenLaunchView>)
        requires
            self.wf(),
        ensures
            r is Some <==> self.tokens@.contains_key(token_id@),
            r matches Some(shown) ==> shown.shows(self.tokens@[token_id@]),
    {
        match self.get_token(token_id) {
            Ok(launch) => Some(TokenLaunchView::from(&launch)),
            Err(_) => None,
        }
    }

    /// A page of the launches as they are shown: 20 from the first on where
    /// nothing else is asked for, and never more than 100.
    pub fn tokens(&self, offset: Option<u64>, limit: Option<u64>) -> (shown: Vec<TokenLaunchView>)
        requires
            self.wf(),
        ensures
            launches_shown(
                shown@,
                self.page(
                    match offset {
                        Some(n) => n as nat,
                        None => 0,
                    },
                    capped_limit_of(limit, 20, 100) as nat,
                ),
            ),
    {
        let offset = match offset {
            Some(n) => n,
            None => 0,
        };
        let page = self.get_all_tokens(offset, capped_limit(limit, 20, 100));
        show_launches(&page)
    }

    /// The launches of one creator as they are shown, in the order of their
    /// creation.
    pub fn tokens_by_creator(&self, creator: &Account) -> (shown: Vec<TokenLaunchView>)
        requires
            self.wf(),
        ensures
            launches_shown(
                shown@,
                self.launches().filter(|launch: TokenLaunch| launch.creator == *creator),
            ),
    {
        let found = self.get_tokens_by_creator(creator);
        show_launches(&found)
    }

    /// The newest launches as they are shown, the newest first: 10 where
    /// nothing else is asked for, and never more than 50.
    pub fn recent_tokens(&self, limit: Option<u64>) -> (shown: Vec<TokenLaunchView>)
        requires
            self.wf(),
        ensures
            ({
                let cap = capped_limit_of(limit, 10, 50);
                let total = self.launches().len() as int;
                let start = if total > cap {
                    total - cap
                } else {
                    0
                };
                launches_shown(shown@, self.launches().subrange(start, total).reverse())
            }),
    {
        let total = self.get_token_count();
        let cap = capped_limit(limit, 10, 50);
        let offset = if total > cap {
            total - cap
        } else {
            0
        };
        let page = self.get_all_tokens(offset, cap);
        let mut turned: Vec<TokenLaunch> = Vec::new();
        let mut i = page.len();
        while i > 0
            invariant
                i <= page.len(),
                turned@.len() == page.len() - i,
                forall|k: int| 0 <= k < turned@.len() ==> turned@[k] == page@[page.len() - 1 - k],
            decreases i,
        {
            i -= 1;
            turned.push(page[i].clone());
        }
        proof {
            assert(turned@ =~= page@.reverse());
        }
        show_launches(&turned)
    }

    /// The graduated launches among twice as many as are asked for from
    /// place `offset` on, as they are shown: at most 20 where nothing else
    /// is asked for, and never more than 100.
    pub fn graduated_tokens(&self, offset: Option<u64>, limit: Option<u64>) -> (shown: Vec<
        TokenLaunchView,
    >)
        requires
            self.wf(),
        ensures
            launches_shown(
                shown@,
                first_matches(
                    self.page(
                        match offset {
                            Some(n) => n as nat,
                            None => 0,
                        },
                        (2 * capped_limit_of(limit, 20, 100)) as nat,
                    ),
                    |launch: TokenLaunch| launch.is_graduated,
                    capped_limit_of(limit, 20, 100) as nat,
                ),
            ),
    {
        let offset = match offset {
            Some(n) => n,
            None => 0,
        };
        let cap = capped_limit(limit, 20, 100);
        let page = self.get_all_tokens(offset, cap * 2);
        let ghost graduated = |launch: TokenLaunch| launch.is_graduated;
        let mut found: Vec<TokenLaunch> = Vec::new();
        let mut i: usize = 0;
        proof {
            assert(page@.subrange(0, 0) =~= Seq::<TokenLaunch>::empty());
        }
        while i < page.len()
            invariant
                i <= page.len(),
                graduated == |launch: TokenLaunch| launch.is_graduated,
                found@ == first_matches(page@.subrange(0, i as int), graduated, cap as nat),
            decreases page.len() - i,
        {
            proof {
                let next = page@.subrange(0, i as int + 1);
                assert(next.drop_last() =~= page@.subrange(0, i as int));
                assert(next.last() == page@[i as int]);
            }
            if page[i].is_graduated && (found.len() as u64) < cap {
                found.push(page[i].clone());
            }
            i += 1;
        }
        proof {
            assert(page@.subrange(0, page.len() as int) =~= page@);
        }
        show_launches(&found)
    }

    /// The first 20 launches among the first thousand whose name or symbol
    /// holds `query`, whatever the case of the letters, as they are shown.
    pub fn search_tokens(&self, query: &str) -> (shown: Vec<TokenLaunchView>)
        requires
            self.wf(),
        ensures
            launches_shown(
                shown@,
                first_matches(
                    self.page(0, 1000),
                    |launch: TokenLaunch| found_by(query@, launch),
                    20,
                ),
            ),
    {
        let query_lower = to_lowercase(query);
        let page = self.get_all_tokens(0, 1000);
        let ghost finds = |launch: TokenLaunch| found_by(query@, launch);
        let mut found: Vec<TokenLaunch> = Vec::new();
        let mut i: usize = 0;
        proof {
            assert(page@.subrange(0, 0) =~= Seq::<TokenLaunch>::empty());
        }
        while i < page.len()
            invariant
                i <= page.len(),
                query_lower@ == lowercase_of(query@),
                finds == |launch: TokenLaunch| found_by(query@, launch),
                found@ == first_matches(page@.subrange(0, i as int), finds, 20),
            decreases page.len() - i,
        {
            proof {
                let next = page@.subrange(0, i as int + 1);
                assert(next.drop_last() =~= page@.subrange(0, i as int));
                assert(next.last() == page@[i as int]);
            }
            let name = to_lowercase(page[i].metadata.name.as_str());
            let symbol = to_lowercase(page[i].metadata.symbol.as_str());
            let hit = holds_query(name.as_str(), symbol.as_str(), query_lower.as_str());
            if hit && found.len() < 20 {
                found.push(page[i].clone());
            }
            i += 1;
        }
        proof {
            assert(page@.subrange(0, page.len() as int) =~= page@);
        }
        show_launches(&found)
    }

    /// The totals of the registry, where what all launches have raised fits
    /// in 256 bits.
    pub fn stats(&self) -> (r: Option<FactoryStats>)
        requires
            self.wf(),
        ensures
            r is Some <==> raised_sum(self.launches()) <= u256_max(),
            r matches Some(stats) ==> {
                &&& stats.total_tokens == self.launches().len()
                &&& stats.graduated_count == graduated_among(self.launches())
                &&& stats.active_count == self.launches().len() - graduated_among(
                    self.launches(),
                )
                &&& stats.total_value_locked@ == decimal_digits(raised_sum(self.launches()))
            },
    {
        let len = self.tokens.len();
        let mut total = U256::zero();
        let mut graduated: u64 = 0;
        let mut i: usize = 0;
        proof {
            assert(self.launches().subrange(0, 0) =~= Seq::<TokenLaunch>::empty());
        }
        while i < len
            invariant
                self.wf(),
                i <= len,
                len == self.tokens.ids().len(),
                len == self.launches().len(),
                total@ == raised_sum(self.launches().subrange(0, i as int)),
                graduated == graduated_among(self.launches().subrange(0, i as int)),
                graduated <= i,
            decreases len - i,
        {
            let launch = self.tokens.value_at(i);
            proof {
                let next = self.launches().subrange(0, i as int + 1);
                assert(next.drop_last() =~= self.launches().subrange(0, i as int));
                assert(next.last() == *launch);
                lemma_totals_grow(self.launches(), i as int + 1);
            }
            total = match total.checked_add(launch.total_raised) {
                Some(v) => v,
                None => { return None; },
            };
            if launch.is_graduated {
                graduated += 1;
            }
            i += 1;
        }
        proof {
            assert(self.launches().subrange(0, len as int) =~= self.launches());
        }
        Some(
            FactoryStats {
                total_tokens: len as u64,
                graduated_count: graduated,
                active_count: len as u64 - graduated,
                total_value_locked: total.to_string(),
            },
        )
    }
}

} // verus!
