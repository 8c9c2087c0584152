//! Who acts and when: chains, account owners, accounts and timestamps, as
//! plain values.

use crate::uint256::U256;
use vstd::prelude::*;

verus! {

/// The identity of a chain: its 256-bit hash.
#[derive(Clone, Copy, Debug, PartialEq, Eq, PartialOrd, Ord, Hash, Structural)]
pub struct ChainId(pub U256);

/// The owner of an account on a chain.
#[derive(Clone, Copy, Debug, PartialEq, Eq, PartialOrd, Ord, Hash, Structural)]
pub enum AccountOwner {
    /// A short address reserved for the protocol; `Reserved(0)` is the chain
    /// itself.
    Reserved(u8),
    /// A 32-byte address.
    Address32(U256),
    /// A 20-byte address: its first 4 bytes, then its last 16.
    Address20(u32, u128),
}

impl AccountOwner {
    /// The address of the chain itself.
    pub fn chain() -> (owner: AccountOwner)
        ensures
            owner == AccountOwner::Reserved(0),
    {
        AccountOwner::Reserved(0)
    }

    /// Whether this is the address of the chain itself.
    pub fn is_chain(&self) -> (r: bool)
        ensures
            r == (*self == AccountOwner::Reserved(0)),
    {
        match self {
            AccountOwner::Reserved(byte) => *byte == 0,
            _ => false,
        }
    }
}

/// An account: an owner on a chain.
#[derive(Clone, Copy, Debug, PartialEq, Eq, PartialOrd, Ord, Hash, Structural)]
pub struct Account {
    pub chain_id: ChainId,
    pub owner: AccountOwner,
}

impl Account {
    /// The account of `owner` on `chain_id`.
    pub fn new(chain_id: ChainId, owner: AccountOwner) -> (account: Account)
        ensures
            account == (Account { chain_id, owner }),
    {
        Account { chain_id, owner }
    }

    /// The account that acts for `signer` on `chain_id`: the signer's own, or
    /// the chain's where nobody signed.
    pub fn of_signer(chain_id: ChainId, signer: Option<AccountOwner>) -> (account: Account)
        ensures
            account.chain_id == chain_id,
            account.owner == match signer {
                Some(owner) => owner,
                None => AccountOwner::Reserved(0),
            },
    {
        match signer {
            Some(owner) => Account { chain_id, owner },
            None => Account { chain_id, owner: AccountOwner::Reserved(0) },
        }
    }
}

/// A point in time: microseconds since the Unix epoch.
#[derive(Clone, Copy, Debug, PartialEq, Eq, PartialOrd, Ord, Hash, Structural)]
pub struct Timestamp(pub u64);

impl Timestamp {
    /// The number of microseconds since the Unix epoch.
    pub fn micros(&self) -> (r: u64)
        ensures
            r == self.0,
    {
        self.0
    }

    /// Whole seconds from `earlier` to `self`; zero where `earlier` is not
    /// earlier.
    pub fn seconds_since(&self, earlier: Timestamp) -> (r: u64)
        ensures
            r == if self.0 >= earlier.0 {
                (self.0 - earlier.0) / 1_000_000
            } else {
                0
            },
    {
        if self.0 >= earlier.0 {
            (self.0 - earlier.0) / 1_000_000
        } else {
            0
        }
    }
}

impl From<u64> for Timestamp {
    fn from(micros: u64) -> (r: Timestamp) {
        Timestamp(micros)
    }
}

impl vstd::std_specs::convert::FromSpecImpl<u64> for Timestamp {
    open spec fn obeys_from_spec() -> bool {
        true
    }

    open spec fn from_spec(micros: u64) -> Timestamp {
        Timestamp(micros)
    }
}

} // verus!
