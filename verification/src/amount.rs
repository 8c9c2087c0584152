//! The native currency: an amount of attotokens in 128 bits.

use crate::uint256::U256;
use vstd::prelude::*;

verus! {

/// Attotokens in one token: 10^18.
pub const ATTOS_PER_TOKEN: u128 = 1_000_000_000_000_000_000;

/// An amount of the native currency, in attotokens.
#[derive(Clone, Copy, Debug, PartialEq, Eq, PartialOrd, Ord, Hash, Structural)]
pub struct Amount(pub u128);

/// The attotokens that stand for `tokens` whole tokens, capped at the
/// greatest amount.
pub open spec fn attos_of_tokens(tokens: nat) -> nat {
    if tokens * 1_000_000_000_000_000_000 > u128::MAX {
        u128::MAX as nat
    } else {
        tokens * 1_000_000_000_000_000_000
    }
}

impl Amount {
    /// No currency at all.
    pub fn zero() -> (r: Amount)
        ensures
            r.0 == 0,
    {
        Amount(0)
    }

    /// That many whole tokens, or the greatest amount where that is too much.
    pub fn from_tokens(tokens: u128) -> (r: Amount)
        ensures
            r.0 == attos_of_tokens(tokens as nat),
    {
        match tokens.checked_mul(ATTOS_PER_TOKEN) {
            Some(attos) => Amount(attos),
            None => Amount(u128::MAX),
        }
    }

    /// That many attotokens.
    pub fn from_attos(attos: u128) -> (r: Amount)
        ensures
            r.0 == attos,
    {
        Amount(attos)
    }

    /// The number of attotokens.
    pub fn to_attos(&self) -> (r: u128)
        ensures
            r == self.0,
    {
        self.0
    }

    /// Whether this is no currency at all.
    pub fn is_zero(&self) -> (r: bool)
        ensures
            r == (self.0 == 0),
    {
        self.0 == 0
    }

    /// The difference, or zero where `other` is the greater.
    pub fn saturating_sub(self, other: Amount) -> (r: Amount)
        ensures
            r.0 == if other.0 <= self.0 {
                self.0 - other.0
            } else {
                0
            },
    {
        if other.0 <= self.0 {
            Amount(self.0 - other.0)
        } else {
            Amount(0)
        }
    }

    /// The sum, or `None` where it exceeds the greatest amount.
    pub fn try_add(self, other: Amount) -> (r: Option<Amount>)
        ensures
            r is Some <==> self.0 + other.0 <= u128::MAX,
            r matches Some(v) ==> v.0 == self.0 + other.0,
    {
        match self.0.checked_add(other.0) {
            Some(v) => Some(Amount(v)),
            None => None,
        }
    }

    /// The difference, or `None` where `other` is the greater.
    pub fn try_sub(self, other: Amount) -> (r: Option<Amount>)
        ensures
            r is Some <==> other.0 <= self.0,
            r matches Some(v) ==> v.0 == self.0 - other.0,
    {
        match self.0.checked_sub(other.0) {
            Some(v) => Some(Amount(v)),
            None => None,
        }
    }

    /// The amount as a 256-bit number of attotokens.
    pub fn to_u256(self) -> (r: U256)
        ensures
            r@ == self.0,
    {
        U256::from_u128(self.0)
    }
}

} // verus!
