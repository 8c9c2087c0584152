//! The launch registry: it checks and records new launches and keeps the
//! record of each up to date with what its ledger and the pool report.

use crate::collections::VecMap;
use crate::identifiers::{Account, Timestamp};
use crate::token::page_bounds;
use crate::types::{
    default_curve, BondingCurveConfig, FactoryOperation, Message, TokenLaunch, TokenMetadata,
};
use crate::uint256::{lemma_u256_bounded, lemma_u256_injective, U256};
use crate::validation::{
    curve_fault, metadata_fault, validate_curve_config, validate_metadata, CurveFault,
    MetadataFault,
};
use vstd::prelude::*;

verus! {

broadcast use {lemma_u256_bounded, lemma_u256_injective};

/// Why the registry refused to record or to find a launch.
#[derive(Debug, PartialEq, Eq)]
pub enum FactoryError {
    /// A launch with this identity is on record already.
    TokenAlreadyExists(String),
    /// No launch with this identity is on record.
    TokenNotFound(String),
    /// The metadata is not acceptable.
    InvalidMetadata(MetadataFault),
}

/// Why the registry refused an operation.
#[derive(Debug, PartialEq, Eq)]
pub enum ContractError {
    /// The registry refused the record.
    StateError(FactoryError),
    /// No chain could be made for the launch.
    ChainCreationFailed(String),
    /// The caller is not known.
    Unauthorized,
    /// The configuration of the curve is not acceptable.
    InvalidCurveConfig(CurveFault),
}

/// A launch that was created, and the message that tells its ledger.
#[derive(Debug, PartialEq, Eq)]
pub struct TokenCreation {
    pub token_id: String,
    pub message: Message,
}

/// The state of the registry: the launches, in the order of their creation.
pub struct FactoryState {
    pub tokens: VecMap<String, TokenLaunch>,
}

/// The record of a launch at its creation: nothing sold, nothing raised, not
/// graduated.
pub open spec fn fresh_launch(
    token_id: String,
    creator: Account,
    metadata: TokenMetadata,
    curve_config: BondingCurveConfig,
    created_at: Timestamp,
    launch: TokenLaunch,
) -> bool {
    &&& launch.token_id == token_id
    &&& launch.creator == creator
    &&& launch.metadata == metadata
    &&& launch.curve_config == curve_config
    &&& launch.current_supply@ == 0
    &&& launch.total_raised@ == 0
    &&& !launch.is_graduated
    &&& launch.created_at == created_at
    &&& launch.dex_pool_id is None
}

/// The record `after` is `before` with the news of a graduation: a launch
/// that has graduated stays graduated, and the first pool that is named
/// stays its pool. A launch that has not graduated has no pool.
pub open spec fn status_updated(
    before: TokenLaunch,
    after: TokenLaunch,
    is_graduated: bool,
    dex_pool_id: Option<String>,
) -> bool {
    &&& after.is_graduated == (before.is_graduated || is_graduated)
    &&& after.dex_pool_id == if before.dex_pool_id is Some {
        before.dex_pool_id
    } else if after.is_graduated {
        dex_pool_id
    } else {
        None::<String>
    }
    &&& after.token_id == before.token_id
    &&& after.creator == before.creator
    &&& after.metadata == before.metadata
    &&& after.curve_config == before.curve_config
    &&& after.current_supply == before.current_supply
    &&& after.total_raised == before.total_raised
    &&& after.created_at == before.created_at
}

/// The record `after` is `before` with new totals.
pub open spec fn metrics_updated(
    before: TokenLaunch,
    after: TokenLaunch,
    current_supply: U256,
    total_raised: U256,
) -> bool {
    &&& after.current_supply == current_supply
    &&& after.total_raised == total_raised
    &&& after.token_id == before.token_id
    &&& after.creator == before.creator
    &&& after.metadata == before.metadata
    &&& after.curve_config == before.curve_config
    &&& after.is_graduated == before.is_graduated
    &&& after.created_at == before.created_at
    &&& after.dex_pool_id == before.dex_pool_id
}

impl FactoryState {
    /// The registry is well formed: every launch stands under its own
    /// identity, and only a graduated launch names a pool.
    pub open spec fn wf(&self) -> bool {
        &&& self.tokens.wf()
        &&& forall|id: Seq<char>| #[trigger]
            self.tokens@.contains_key(id) ==> self.tokens@[id].token_id@ == id && (
            self.tokens@[id].dex_pool_id is Some ==> self.tokens@[id].is_graduated)
    }

    /// The launches in the order of their creation.
    pub open spec fn launches(&self) -> Seq<TokenLaunch> {
        self.tokens.vals()
    }

    /// Why a launch cannot be recorded, if it cannot: its metadata is not
    /// acceptable, or its identity is taken.
    pub open spec fn registration_refusal(&self, token_id: String, metadata: TokenMetadata) -> Option<
        FactoryError,
    > {
        match metadata_fault(metadata) {
            Some(fault) => Some(FactoryError::InvalidMetadata(fault)),
            None => if self.tokens@.contains_key(token_id@) {
                Some(FactoryError::TokenAlreadyExists(token_id))
            } else {
                None
            },
        }
    }

    /// What the record of one launch becomes: `self` is `before` with the
    /// launch `token_id` replaced by `after`, every other launch and the
    /// order of all untouched.
    pub open spec fn replaced_in(&self, before: FactoryState, token_id: Seq<char>, after: TokenLaunch) -> bool {
        &&& self.tokens@ == before.tokens@.insert(token_id, after)
        &&& self.tokens.ids() == before.tokens.ids()
        &&& self.tokens.vals() == before.tokens.vals().update(
            before.tokens.ids().index_of(token_id),
            after,
        )
    }

    /// Whether the registry is well formed.
    pub fn check(&self) -> (r: bool)
        ensures
            r == self.wf(),
    {
        if !self.tokens.check() {
            return false;
        }
        let mut i: usize = 0;
        while i < self.tokens.len()
            invariant
                self.tokens.wf(),
                i <= self.tokens.ids().len(),
                forall|k: int|
                    0 <= k < i ==> (#[trigger] self.tokens.vals()[k]).token_id@
                        == self.tokens.ids()[k] && (self.tokens.vals()[k].dex_pool_id is Some
                        ==> self.tokens.vals()[k].is_graduated),
            decreases self.tokens.ids().len() - i,
        {
            let launch = self.tokens.value_at(i);
            let id = self.tokens.key_at(i);
            if launch.token_id != *id || (launch.dex_pool_id.is_some() && !launch.is_graduated) {
                proof {
                    self.tokens.lemma_entry(i as int);
                }
                return false;
            }
            i += 1;
        }
        proof {
            assert forall|id: Seq<char>| #[trigger] self.tokens@.contains_key(id) implies self.tokens@[id].token_id@
                == id && (self.tokens@[id].dex_pool_id is Some
                ==> self.tokens@[id].is_graduated) by {
                self.tokens.lemma_key_has_place(id);
            }
        }
        true
    }

    /// A registry without launches.
    pub fn new() -> (state: FactoryState)
        ensures
            state.wf(),
            state.tokens@ == Map::<Seq<char>, TokenLaunch>::empty(),
            state.launches() == Seq::<TokenLaunch>::empty(),
    {
        FactoryState { tokens: VecMap::new() }
    }

    /// The number of launches on record.
    pub fn get_token_count(&self) -> (n: u64)
        requires
            self.wf(),
        ensures
            n == self.launches().len(),
    {
        self.tokens.len() as u64
    }

    /// Records a new launch. Metadata that is not acceptable and an identity
    /// that is taken are refused, and a refusal changes nothing.
    pub fn register_token(
        &mut self,
        token_id: String,
        creator: Account,
        metadata: TokenMetadata,
        curve_config: BondingCurveConfig,
        created_at: Timestamp,
    ) -> (r: Result<(), FactoryError>)
        requires
            old(self).wf(),
        ensures
            final(self).wf(),
            r is Err <==> old(self).registration_refusal(token_id, metadata) is Some,
            r matches Err(e) ==> Some(e) == old(self).registration_refusal(token_id, metadata)
                && *final(self) == *old(self),
            r is Ok ==> {
                &&& final(self).tokens@.contains_key(token_id@)
                &&& fresh_launch(
                    token_id,
                    creator,
                    metadata,
                    curve_config,
                    created_at,
                    final(self).tokens@[token_id@],
                )
                &&& final(self).tokens@ == old(self).tokens@.insert(
                    token_id@,
                    final(self).tokens@[token_id@],
                )
                &&& final(self).launches() == old(self).launches().push(
                    final(self).tokens@[token_id@],
                )
                &&& final(self).tokens.ids() == old(self).tokens.ids().push(token_id@)
            },
    {
        match validate_metadata(&metadata) {
            Ok(()) => {},
            Err(fault) => {
                return Err(FactoryError::InvalidMetadata(fault));
            },
        }
        if self.tokens.contains_key(&token_id) {
            return Err(FactoryError::TokenAlreadyExists(token_id));
        }
        let launch = TokenLaunch {
            token_id: token_id.clone(),
            creator,
            metadata,
            curve_config,
            current_supply: U256::zero(),
            total_raised: U256::zero(),
            is_graduated: false,
            created_at,
            dex_pool_id: None,
        };
        self.tokens.insert(token_id, launch);
        Ok(())
    }

    /// The record of a launch.
    pub fn get_token(&self, token_id: &str) -> (r: Result<TokenLaunch, FactoryError>)
        requires
            self.wf(),
        ensures
            r is Ok <==> self.tokens@.contains_key(token_id@),
            r matches Ok(launch) ==> launch == self.tokens@[token_id@] && launch.token_id@
                == token_id@,
            r matches Err(e) ==> e matches FactoryError::TokenNotFound(id) && id@ == token_id@,
    {
        let key = token_id.to_owned();
        match self.tokens.get(&key) {
            Some(launch) => Ok(launch.clone()),
            None => Err(FactoryError::TokenNotFound(key)),
        }
    }

    /// A page of the launches in the order of their creation: at most `limit`
    /// launches from place `offset` on.
    pub fn get_all_tokens(&self, offset: u64, limit: u64) -> (page: Vec<TokenLaunch>)
        requires
            self.wf(),
        ensures
            page@ == self.launches().subrange(
                page_bounds(self.launches().len(), offset as nat, limit as nat).0,
                page_bounds(self.launches().len(), offset as nat, limit as nat).1,
            ),
    {
        let len = self.tokens.len();
        let start = if offset < len as u64 {
            offset as usize
        } else {
            len
        };
        let end = if limit < (len - start) as u64 {
            start + limit as usize
        } else {
            len
        };
        let mut page: Vec<TokenLaunch> = Vec::new();
        let mut i = start;
        while i < end
            invariant
                self.wf(),
                start <= i <= end <= len,
                len == self.tokens.ids().len(),
                len == self.tokens.vals().len(),
                page@ == self.tokens.vals().subrange(start as int, i as int),
            decreases end - i,
        {
            page.push(self.tokens.value_at(i).clone());
            proof {
                assert(page@ =~= self.tokens.vals().subrange(start as int, i as int + 1));
            }
            i += 1;
        }
        page
    }

    /// The launches of one creator, in the order of their creation.
    pub fn get_tokens_by_creator(&self, creator: &Account) -> (found: Vec<TokenLaunch>)
        requires
            self.wf(),
        ensures
            found@ == self.launches().filter(|launch: TokenLaunch| launch.creator == *creator),
    {
        let ghost by_creator = |launch: TokenLaunch| launch.creator == *creator;
        let len = self.tokens.len();
        let mut found: Vec<TokenLaunch> = Vec::new();
        let mut i: usize = 0;
        proof {
            reveal(Seq::filter);
            assert(self.tokens.vals().subrange(0, 0) =~= Seq::<TokenLaunch>::empty());
        }
        while i < len
            invariant
                self.wf(),
                i <= len,
                len == self.tokens.ids().len(),
                len == self.tokens.vals().len(),
                by_creator == |launch: TokenLaunch| launch.creator == *creator,
                found@ == self.tokens.vals().subrange(0, i as int).filter(by_creator),
            decreases len - i,
        {
            let launch = self.tokens.value_at(i);
            proof {
                reveal(Seq::filter);
                let next = self.tokens.vals().subrange(0, i as int + 1);
                assert(next.drop_last() =~= self.tokens.vals().subrange(0, i as int));
                assert(next.last() == *launch);
            }
            if launch.creator == *creator {
                found.push(launch.clone());
            }
            i += 1;
        }
        proof {
            assert(self.tokens.vals().subrange(0, len as int) =~= self.tokens.vals());
        }
        found
    }

    /// Brings the record of a launch up to date with the news of its
    /// graduation. A launch that has graduated stays graduated, and a pool
    /// that is on record stays on record.
    pub fn update_token_status(
        &mut self,
        token_id: &str,
        is_graduated: bool,
        dex_pool_id: Option<String>,
    ) -> (r: Result<(), FactoryError>)
        requires
            old(self).wf(),
        ensures
            final(self).wf(),
            r is Ok <==> old(self).tokens@.contains_key(token_id@),
            r matches Err(e) ==> e matches FactoryError::TokenNotFound(id) && id@ == token_id@
                && *final(self) == *old(self),
            r is Ok ==> final(self).replaced_in(
                *old(self),
                token_id@,
                final(self).tokens@[token_id@],
            ) && status_updated(
                old(self).tokens@[token_id@],
                final(self).tokens@[token_id@],
                is_graduated,
                dex_pool_id,
            ),
    {
        let launch = match self.get_token(token_id) {
            Ok(l) => l,
            Err(e) => { return Err(e); },
        };
        let graduated = launch.is_graduated || is_graduated;
        let pool = if launch.dex_pool_id.is_some() {
            launch.dex_pool_id
        } else if graduated {
            dex_pool_id
        } else {
            None
        };
        let updated = TokenLaunch {
            token_id: launch.token_id,
            creator: launch.creator,
            metadata: launch.metadata,
            curve_config: launch.curve_config,
            current_supply: launch.current_supply,
            total_raised: launch.total_raised,
            is_graduated: graduated,
            created_at: launch.created_at,
            dex_pool_id: pool,
        };
        self.tokens.insert(token_id.to_owned(), updated);
        Ok(())
    }

    /// Brings the totals in the record of a launch up to date.
    pub fn update_token_metrics(&mut self, token_id: &str, current_supply: U256, total_raised: U256) -> (r:
        Result<(), FactoryError>)
        requires
            old(self).wf(),
        ensures
            final(self).wf(),
            r is Ok <==> old(self).tokens@.contains_key(token_id@),
            r matches Err(e) ==> e matches FactoryError::TokenNotFound(id) && id@ == token_id@
                && *final(self) == *old(self),
            r is Ok ==> final(self).replaced_in(
                *old(self),
                token_id@,
                final(self).tokens@[token_id@],
            ) && metrics_updated(
                old(self).tokens@[token_id@],
                final(self).tokens@[token_id@],
                current_supply,
                total_raised,
            ),
    {
        let launch = match self.get_token(token_id) {
            Ok(l) => l,
            Err(e) => { return Err(e); },
        };
        let updated = TokenLaunch {
            token_id: launch.token_id,
            creator: launch.creator,
            metadata: launch.metadata,
            curve_config: launch.curve_config,
            current_supply,
            total_raised,
            is_graduated: launch.is_graduated,
            created_at: launch.created_at,
            dex_pool_id: launch.dex_pool_id,
        };
        self.tokens.insert(token_id.to_owned(), updated);
        Ok(())
    }

    /// Why a launch cannot be created, if it cannot: its curve is not
    /// acceptable, or the registry refuses the record.
    pub open spec fn creation_refusal(
        &self,
        token_id: String,
        metadata: TokenMetadata,
        curve_config: BondingCurveConfig,
    ) -> Option<ContractError> {
        match curve_fault(curve_config) {
            Some(fault) => Some(ContractError::InvalidCurveConfig(fault)),
            None => match self.registration_refusal(token_id, metadata) {
                Some(e) => Some(ContractError::StateError(e)),
                None => None,
            },
        }
    }

    /// Creates a launch for `creator` under the identity `token_id`, with the
    /// default curve where none is given. The curve and the metadata are
    /// checked, the launch is recorded, and the message that tells the ledger
    /// of the launch is made.
    pub fn execute_create_token(
        &mut self,
        creator: Account,
        token_id: String,
        metadata: TokenMetadata,
        curve_config: Option<BondingCurveConfig>,
        created_at: Timestamp,
    ) -> (r: Result<TokenCreation, ContractError>)
        requires
            old(self).wf(),
        ensures
            final(self).wf(),
            ({
                let config = match curve_config {
                    Some(c) => c,
                    None => default_curve(),
                };
                &&& r is Err <==> old(self).creation_refusal(token_id, metadata, config) is Some
                &&& r matches Err(e) ==> Some(e) == old(self).creation_refusal(
                    token_id,
                    metadata,
                    config,
                ) && *final(self) == *old(self)
                &&& r matches Ok(creation) ==> {
                    &&& creation.token_id == token_id
                    &&& creation.message == Message::TokenCreated {
                        token_id,
                        creator,
                        metadata,
                        curve_config: config,
                    }
                    &&& final(self).tokens@.contains_key(token_id@)
                    &&& fresh_launch(
                        token_id,
                        creator,
                        metadata,
                        config,
                        created_at,
                        final(self).tokens@[token_id@],
                    )
                    &&& final(self).launches() == old(self).launches().push(
                        final(self).tokens@[token_id@],
                    )
                    &&& final(self).tokens@ == old(self).tokens@.insert(
                        token_id@,
                        final(self).tokens@[token_id@],
                    )
                }
            }),
    {
        let config = match curve_config {
            Some(c) => c,
            None => BondingCurveConfig::default(),
        };
        match validate_curve_config(&config) {
            Ok(()) => {},
            Err(fault) => {
                return Err(ContractError::InvalidCurveConfig(fault));
            },
        }
        match self.register_token(token_id.clone(), creator, metadata.clone(), config, created_at) {
            Ok(()) => {},
            Err(e) => {
                return Err(ContractError::StateError(e));
            },
        }
        Ok(
            TokenCreation {
                token_id: token_id.clone(),
                message: Message::TokenCreated {
                    token_id,
                    creator,
                    metadata,
                    curve_config: config,
                },
            },
        )
    }

    /// Carries out an operation that a user submitted to the registry.
    pub fn execute_operation(
        &mut self,
        creator: Account,
        token_id: String,
        operation: FactoryOperation,
        created_at: Timestamp,
    ) -> (r: Result<TokenCreation, ContractError>)
        requires
            old(self).wf(),
        ensures
            final(self).wf(),
            ({
                let metadata = operation->metadata;
                let config = match operation->curve_config {
                    Some(c) => c,
                    None => default_curve(),
                };
                &&& r is Err <==> old(self).creation_refusal(token_id, metadata, config) is Some
                &&& r matches Err(e) ==> Some(e) == old(self).creation_refusal(
                    token_id,
                    metadata,
                    config,
                ) && *final(self) == *old(self)
                &&& r matches Ok(creation) ==> creation.token_id == token_id && creation.message
                    == Message::TokenCreated { token_id, creator, metadata, curve_config: config }
                    && final(self).tokens@.contains_key(token_id@) && fresh_launch(
                    token_id,
                    creator,
                    metadata,
                    config,
                    created_at,
                    final(self).tokens@[token_id@],
                ) && final(self).launches() == old(self).launches().push(
                    final(self).tokens@[token_id@],
                )
            }),
    {
        match operation {
            FactoryOperation::CreateToken { metadata, curve_config } => self.execute_create_token(
                creator,
                token_id,
                metadata,
                curve_config,
                created_at,
            ),
        }
    }

    /// Takes a message from another actor. The graduation of a launch marks
    /// its record as graduated and brings its totals up to date; the creation
    /// of its pool marks it as graduated and names the pool. News of a launch
    /// that is not on record, and every other message, change nothing.
    pub fn execute_message(&mut self, message: Message)
        requires
            old(self).wf(),
        ensures
            final(self).wf(),
            final(self).tokens.ids() == old(self).tokens.ids(),
            match message {
                Message::GraduateToken { token_id, total_supply, total_raised } => if old(
                    self,
                ).tokens@.contains_key(token_id@) {
                    let before = old(self).tokens@[token_id@];
                    let after = final(self).tokens@[token_id@];
                    &&& final(self).replaced_in(*old(self), token_id@, after)
                    &&& after.is_graduated
                    &&& after.dex_pool_id == before.dex_pool_id
                    &&& after.current_supply == total_supply
                    &&& after.total_raised == total_raised
                    &&& after.token_id == before.token_id
                    &&& after.creator == before.creator
                    &&& after.metadata == before.metadata
                    &&& after.curve_config == before.curve_config
                    &&& after.created_at == before.created_at
                } else {
                    *final(self) == *old(self)
                },
                Message::PoolCreated { token_id, pool_id } => if old(self).tokens@.contains_key(
                    token_id@,
                ) {
                    let before = old(self).tokens@[token_id@];
                    let after = final(self).tokens@[token_id@];
                    &&& final(self).replaced_in(*old(self), token_id@, after)
                    &&& status_updated(before, after, true, Some(pool_id))
                } else {
                    *final(self) == *old(self)
                },
                _ => *final(self) == *old(self),
            },
    {
        match message {
            Message::GraduateToken { token_id, total_supply, total_raised } => {
                let ghost before = *self;
                let marked = self.update_token_status(token_id.as_str(), true, None);
                let ghost middle = *self;
                let counted = self.update_token_metrics(
                    token_id.as_str(),
                    total_supply,
                    total_raised,
                );
                proof {
                    if before.tokens@.contains_key(token_id@) {
                        before.tokens.lemma_key_has_place(token_id@);
                        middle.tokens.lemma_key_has_place(token_id@);
                        assert(self.tokens@ =~= before.tokens@.insert(
                            token_id@,
                            self.tokens@[token_id@],
                        ));
                        assert(self.tokens.vals() =~= before.tokens.vals().update(
                            before.tokens.ids().index_of(token_id@),
                            self.tokens@[token_id@],
                        ));
                    }
                }
            },
            Message::PoolCreated { token_id, pool_id } => {
                let marked = self.update_token_status(token_id.as_str(), true, Some(pool_id));
            },
            _ => {},
        }
    }
}

} // verus!
