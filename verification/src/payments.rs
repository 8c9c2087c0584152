//! Payments in the native currency: from which balances a payment is taken,
//! and the transfers that carry it out.

use crate::amount::{attos_of_tokens, Amount};
use crate::identifiers::{Account, AccountOwner, ChainId, Timestamp};
use crate::token::TokenError;
use crate::uint256::{lemma_u256_bounded, lemma_u256_injective, U256};
use vstd::prelude::*;

verus! {

broadcast use {lemma_u256_bounded, lemma_u256_injective};

/// One transfer of native currency on the chain of the ledger: from the
/// balance of `source` there to `destination`.
#[derive(Clone, Copy, Debug, PartialEq, Eq, Structural)]
pub struct Transfer {
    pub source: AccountOwner,
    pub destination: Account,
    pub amount: Amount,
}

/// What an operation knows of its surroundings when it starts.
#[derive(Clone, Copy, Debug, PartialEq, Eq, Structural)]
pub struct CallContext {
    /// The chain on which the ledger runs.
    pub chain_id: ChainId,
    /// Who signed the operation, if anybody.
    pub signer: Option<AccountOwner>,
    /// Whether the signer is an owner of the chain, and so may spend the
    /// chain's own balance.
    pub signer_owns_chain: bool,
    /// The native balance of the signer on the chain.
    pub signer_balance: Amount,
    /// The owner under which the ledger itself holds funds.
    pub application: AccountOwner,
    /// The native balance of the ledger itself.
    pub application_balance: Amount,
    /// The time of the operation.
    pub now: Timestamp,
}

impl CallContext {
    /// The account on whose behalf the operation runs: the signer's, or the
    /// chain's where nobody signed.
    pub fn owner_account(&self) -> (account: Account)
        ensures
            account == self.caller(),
    {
        Account::of_signer(self.chain_id, self.signer)
    }

    /// The account in which the ledger itself holds funds.
    pub fn application_account(&self) -> (account: Account)
        ensures
            account == self.treasury(),
    {
        Account { chain_id: self.chain_id, owner: self.application }
    }

    /// The account on whose behalf the operation runs.
    pub open spec fn caller(&self) -> Account {
        Account {
            chain_id: self.chain_id,
            owner: match self.signer {
                Some(owner) => owner,
                None => AccountOwner::Reserved(0),
            },
        }
    }

    /// The account in which the ledger itself holds funds.
    pub open spec fn treasury(&self) -> Account {
        Account { chain_id: self.chain_id, owner: self.application }
    }
}

/// The native amount that stands for `value` whole tokens; values beyond 128
/// bits have none.
pub open spec fn native_amount(value: nat) -> Result<Amount, TokenError> {
    if value > u128::MAX {
        Err(TokenError::AmountConversionError)
    } else {
        Ok(Amount(attos_of_tokens(value) as u128))
    }
}

/// The part of a payment of `amount` that the payer's own balance covers.
pub open spec fn covered_by_owner(amount: Amount, owner_balance: Amount) -> Amount {
    if amount.0 <= owner_balance.0 {
        amount
    } else {
        owner_balance
    }
}

/// The transfers that pay `amount` to `to`: first from the signer's own
/// balance, then, for a signer who owns the chain, the rest from the chain's
/// balance. A payment of nothing is invalid, and a signer who neither has the
/// amount nor owns the chain cannot pay.
pub open spec fn funding_transfers(
    to: Account,
    amount: Amount,
    signer: AccountOwner,
    owner_balance: Amount,
    can_from_chain: bool,
) -> Result<Seq<Transfer>, TokenError> {
    let from_owner = covered_by_owner(amount, owner_balance);
    let from_chain = Amount((amount.0 - from_owner.0) as u128);
    if amount.0 == 0 {
        Err(TokenError::InvalidAmount)
    } else if amount.0 > owner_balance.0 && !can_from_chain {
        Err(TokenError::InsufficientNativeBalance { have: owner_balance, need: amount })
    } else {
        Ok(
            (if from_owner.0 > 0 {
                seq![Transfer { source: signer, destination: to, amount: from_owner }]
            } else {
                Seq::<Transfer>::empty()
            }) + (if from_chain.0 > 0 {
                seq![
                    Transfer {
                        source: AccountOwner::Reserved(0),
                        destination: to,
                        amount: from_chain,
                    },
                ]
            } else {
                Seq::<Transfer>::empty()
            }),
        )
    }
}

/// The transfer that pays `amount` to `to` out of the ledger's own funds:
/// none for a payment of nothing, and a refusal where the funds fall short.
pub open spec fn payout_transfers(
    to: Account,
    amount: Amount,
    application: AccountOwner,
    application_balance: Amount,
) -> Result<Seq<Transfer>, TokenError> {
    if amount.0 == 0 {
        Ok(Seq::<Transfer>::empty())
    } else if application_balance.0 < amount.0 {
        Err(TokenError::InsufficientNativeBalance { have: application_balance, need: amount })
    } else {
        Ok(seq![Transfer { source: application, destination: to, amount }])
    }
}

/// The views of the transfers in a list.
pub open spec fn transfers_view(r: Result<Vec<Transfer>, TokenError>) -> Result<
    Seq<Transfer>,
    TokenError,
> {
    match r {
        Ok(v) => Ok(v@),
        Err(e) => Err(e),
    }
}

/// The native amount that stands for `value` whole tokens.
pub fn u256_to_amount(value: U256) -> (r: Result<Amount, TokenError>)
    ensures
        r == native_amount(value@),
{
    if !value.fits_u128() {
        return Err(TokenError::AmountConversionError);
    }
    Ok(Amount::from_tokens(value.as_u128()))
}

/// The number of attotokens in `amount`, as a 256-bit number.
pub fn amount_to_u256(amount: Amount) -> (r: U256)
    ensures
        r@ == amount.0,
{
    U256::from_u128(amount.to_attos())
}

/// Plans the payment of `amount` to `to` by the signer of the operation.
pub fn fund_account(
    to: Account,
    amount: Amount,
    signer: AccountOwner,
    owner_balance: Amount,
    can_from_chain: bool,
) -> (r: Result<Vec<Transfer>, TokenError>)
    ensures
        transfers_view(r) == funding_transfers(to, amount, signer, owner_balance, can_from_chain),
{
    if amount.is_zero() {
        return Err(TokenError::InvalidAmount);
    }
    let from_owner_balance = if amount.0 <= owner_balance.0 {
        amount
    } else {
        owner_balance
    };
    let from_chain_balance = if amount.0 <= owner_balance.0 || !can_from_chain {
        Amount::zero()
    } else {
        amount.saturating_sub(owner_balance)
    };
    match from_owner_balance.try_add(from_chain_balance) {
        Some(total) => {
            if total.0 < amount.0 {
                return Err(TokenError::InsufficientNativeBalance { have: total, need: amount });
            }
        },
        None => {
            return Err(
                TokenError::InsufficientNativeBalance { have: Amount::zero(), need: amount },
            );
        },
    }
    let mut transfers: Vec<Transfer> = Vec::new();
    if !from_owner_balance.is_zero() {
        transfers.push(Transfer { source: signer, destination: to, amount: from_owner_balance });
    }
    if !from_chain_balance.is_zero() {
        transfers.push(
            Transfer {
                source: AccountOwner::Reserved(0),
                destination: to,
                amount: from_chain_balance,
            },
        );
    }
    assert(transfers_view(Ok(transfers)) =~= funding_transfers(
        to,
        amount,
        signer,
        owner_balance,
        can_from_chain,
    )) by {
        let expected = funding_transfers(to, amount, signer, owner_balance, can_from_chain);
        assert(expected is Ok);
        assert(transfers@ =~= expected->Ok_0);
    }
    Ok(transfers)
}

/// Plans the payment of `amount` to `to` out of the ledger's own funds.
pub fn transfer_from_application(
    to: Account,
    amount: Amount,
    application: AccountOwner,
    application_balance: Amount,
) -> (r: Result<Vec<Transfer>, TokenError>)
    ensures
        transfers_view(r) == payout_transfers(to, amount, application, application_balance),
{
    let mut transfers: Vec<Transfer> = Vec::new();
    if amount.is_zero() {
        assert(transfers@ =~= Seq::<Transfer>::empty());
        return Ok(transfers);
    }
    if application_balance.0 < amount.0 {
        return Err(
            TokenError::InsufficientNativeBalance { have: application_balance, need: amount },
        );
    }
    transfers.push(Transfer { source: application, destination: to, amount });
    assert(transfers@ =~= seq![Transfer { source: application, destination: to, amount }]);
    Ok(transfers)
}

} // verus!
