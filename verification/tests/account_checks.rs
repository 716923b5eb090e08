use easy_stake::checks::{
    check_freeze_authority, check_mint_authority, check_mint_empty,
    check_stake_amount_and_validator, check_token_mint, check_token_owner, Delegation,
};
use easy_stake::error::StakingError;
use easy_stake::pubkey::Pubkey;

fn owner(n: u128) -> Pubkey {
    Pubkey { hi: n, lo: 99 - n }
}

#[test]
fn mint_authority_must_match() {
    assert_eq!(check_mint_authority(Some(owner(1)), owner(1)), Ok(()));
    assert_eq!(
        check_mint_authority(Some(owner(2)), owner(1)),
        Err(StakingError::InvalidMintAuthority)
    );
    assert_eq!(
        check_mint_authority(None, owner(1)),
        Err(StakingError::InvalidMintAuthority)
    );
}

#[test]
fn fresh_mints_must_be_empty_and_unfreezable() {
    assert_eq!(check_mint_empty(0), Ok(()));
    assert_eq!(check_mint_empty(1), Err(StakingError::MintHasInitialSupply));
    assert_eq!(check_freeze_authority(None), Ok(()));
    assert_eq!(
        check_freeze_authority(Some(owner(4))),
        Err(StakingError::FreezeAuthoritySet)
    );
}

#[test]
fn token_accounts_must_match_mint_and_owner() {
    assert_eq!(check_token_mint(owner(5), owner(5)), Ok(()));
    assert_eq!(
        check_token_mint(owner(5), owner(6)),
        Err(StakingError::WrongTokenMint)
    );
    assert_eq!(check_token_owner(owner(7), owner(7)), Ok(()));
    assert_eq!(
        check_token_owner(owner(7), owner(8)),
        Err(StakingError::WrongTokenOwnerOrDelegate)
    );
}

#[test]
fn stake_accounts_must_be_delegated_fresh_and_to_the_named_validator() {
    let vote = owner(20);
    let good = Delegation { voter_pubkey: vote, stake: 500 };
    assert_eq!(check_stake_amount_and_validator(Some(good), 500, vote), Ok(()));
    assert_eq!(
        check_stake_amount_and_validator(None, 500, vote),
        Err(StakingError::StakeNotDelegated)
    );
    let elsewhere = Delegation { voter_pubkey: owner(21), stake: 500 };
    assert_eq!(
        check_stake_amount_and_validator(Some(elsewhere), 500, vote),
        Err(StakingError::WrongValidatorAccountOrIndex)
    );
    let stale = Delegation { voter_pubkey: vote, stake: 400 };
    assert_eq!(
        check_stake_amount_and_validator(Some(stale), 500, vote),
        Err(StakingError::StakeAccountNotUpdatedYet)
    );
}
