//! Validations of host-observed account facts.
//!
//! The host loads mints, token accounts and stake accounts; the checks
//! here decide, from the plainly read fields, whether those accounts are
//! the ones an operation may act on.  Each check either passes or names
//! the exact mismatch.

use vstd::prelude::*;

use crate::error::StakingError;
use crate::pubkey::Pubkey;

verus! {

/// What a stake account delegates: to which validator, and how much.
#[derive(Clone, Copy, Debug, PartialEq, Eq, Structural)]
pub struct Delegation {
    /// Vote identity of the validator delegated to.
    pub voter_pubkey: Pubkey,
    /// Delegated lamports.
    pub stake: u64,
}

/// A mint must be controlled by the expected authority.
pub fn check_mint_authority(mint_authority: Option<Pubkey>, expected_authority: Pubkey) -> (r:
    Result<(), StakingError>)
    ensures
        r is Ok <==> mint_authority == Some(expected_authority),
        r is Err ==> r == Err::<(), StakingError>(StakingError::InvalidMintAuthority),
{
    match mint_authority {
        Some(authority) => {
            if authority == expected_authority {
                Ok(())
            } else {
                Err(StakingError::InvalidMintAuthority)
            }
        },
        None => Err(StakingError::InvalidMintAuthority),
    }
}

/// A mint handed to initialization must not have issued anything yet.
pub fn check_mint_empty(supply: u64) -> (r: Result<(), StakingError>)
    ensures
        r is Ok <==> supply == 0,
        r is Err ==> r == Err::<(), StakingError>(StakingError::MintHasInitialSupply),
{
    if supply > 0 {
        Err(StakingError::MintHasInitialSupply)
    } else {
        Ok(())
    }
}

/// A mint of the pool must not be freezable by anyone.
pub fn check_freeze_authority(freeze_authority: Option<Pubkey>) -> (r: Result<(), StakingError>)
    ensures
        r is Ok <==> freeze_authority is None,
        r is Err ==> r == Err::<(), StakingError>(StakingError::FreezeAuthoritySet),
{
    match freeze_authority {
        Some(_) => Err(StakingError::FreezeAuthoritySet),
        None => Ok(()),
    }
}

/// A token account must belong to the expected mint.
pub fn check_token_mint(token_mint: Pubkey, expected_mint: Pubkey) -> (r: Result<
    (),
    StakingError,
>)
    ensures
        r is Ok <==> token_mint == expected_mint,
        r is Err ==> r == Err::<(), StakingError>(StakingError::WrongTokenMint),
{
    if token_mint != expected_mint {
        Err(StakingError::WrongTokenMint)
    } else {
        Ok(())
    }
}

/// A token account must belong to the expected owner.
pub fn check_token_owner(token_owner: Pubkey, expected_owner: Pubkey) -> (r: Result<
    (),
    StakingError,
>)
    ensures
        r is Ok <==> token_owner == expected_owner,
        r is Err ==> r == Err::<(), StakingError>(StakingError::WrongTokenOwnerOrDelegate),
{
    if token_owner != expected_owner {
        Err(StakingError::WrongTokenOwnerOrDelegate)
    } else {
        Ok(())
    }
}

/// A stake account an operation acts on must be delegated to the named
/// validator and hold exactly the amount the ledger last recorded;
/// anything else means the record is stale or the account is the wrong
/// one.
pub fn check_stake_amount_and_validator(
    delegation: Option<Delegation>,
    expected_stake_amount: u64,
    validator_vote_pubkey: Pubkey,
) -> (r: Result<(), StakingError>)
    ensures
        r is Ok <==> delegation == Some(
            Delegation { voter_pubkey: validator_vote_pubkey, stake: expected_stake_amount },
        ),
        delegation is None ==> r == Err::<(), StakingError>(StakingError::StakeNotDelegated),
        delegation matches Some(d) && d.voter_pubkey != validator_vote_pubkey ==> r == Err::<
            (),
            StakingError,
        >(StakingError::WrongValidatorAccountOrIndex),
        delegation matches Some(d) && d.voter_pubkey == validator_vote_pubkey && d.stake
            != expected_stake_amount ==> r == Err::<(), StakingError>(
            StakingError::StakeAccountNotUpdatedYet,
        ),
{
    let d = match delegation {
        Some(d) => d,
        None => {
            return Err(StakingError::StakeNotDelegated);
        },
    };
    if d.voter_pubkey != validator_vote_pubkey {
        return Err(StakingError::WrongValidatorAccountOrIndex);
    }
    if d.stake != expected_stake_amount {
        return Err(StakingError::StakeAccountNotUpdatedYet);
    }
    Ok(())
}

} // verus!
