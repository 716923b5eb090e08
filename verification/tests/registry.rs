use easy_stake::error::StakingError;
use easy_stake::pubkey::Pubkey;
use easy_stake::state::stake_system::{StakeSystem, STAKE_RECORD_LEN};
use easy_stake::state::validator_system::{ValidatorSystem, VALIDATOR_RECORD_LEN};

fn ident(n: u128) -> Pubkey {
    Pubkey { hi: n, lo: 2 * n + 1 }
}

fn registry_with(scores: &[u32]) -> (ValidatorSystem, usize) {
    let mut vs = ValidatorSystem::new(ident(1000), ident(1001), 0).unwrap();
    let region = 8 + 8 * VALIDATOR_RECORD_LEN as usize;
    for (i, score) in scores.iter().enumerate() {
        vs.add(region, ident(i as u128), *score, 250).unwrap();
    }
    (vs, region)
}

#[test]
fn total_score_follows_every_mutation() {
    let (mut vs, region) = registry_with(&[30, 70]);
    assert_eq!(vs.total_validator_score, 100);
    assert_eq!(vs.total_active_balance, 0);

    vs.add(region, ident(2), 25, 250).unwrap();
    assert_eq!(vs.total_validator_score, 125);

    let record = vs.get_checked(2, ident(2)).unwrap();
    vs.remove(2, record).unwrap();
    assert_eq!(vs.total_validator_score, 100);

    // the running total always equals the sum over the live records
    let mut sum: u32 = 0;
    for i in 0..vs.validator_list.count {
        sum += vs.get(i).unwrap().score;
    }
    assert_eq!(vs.total_validator_score, sum);
}

#[test]
fn new_validator_record_starts_clean() {
    let (vs, _) = registry_with(&[40]);
    let rec = vs.get(0).unwrap();
    assert_eq!(rec.validator_account, ident(0));
    assert_eq!(rec.active_balance, 0);
    assert_eq!(rec.score, 40);
    assert_eq!(rec.last_stake_delta_epoch, u64::MAX);
    assert_eq!(rec.duplication_flag_bump_seed, 250);
}

#[test]
fn get_checked_guards_against_stale_indices() {
    let (vs, _) = registry_with(&[30, 70]);
    assert!(vs.get_checked(0, ident(0)).is_ok());
    assert_eq!(
        vs.get_checked(0, ident(1)),
        Err(StakingError::WrongValidatorAccountOrIndex)
    );
    assert_eq!(
        vs.get_checked(5, ident(0)),
        Err(StakingError::ListIndexOutOfBounds)
    );
}

#[test]
fn removal_swaps_and_keeps_identity_lookups_working() {
    let (mut vs, _) = registry_with(&[10, 20, 30]);
    let record = vs.get_checked(0, ident(0)).unwrap();
    vs.remove(0, record).unwrap();
    assert_eq!(vs.validator_list.count, 2);
    // the last record moved into slot 0: look records up by identity
    assert_eq!(vs.get(0).unwrap().validator_account, ident(2));
    assert_eq!(vs.get(1).unwrap().validator_account, ident(1));
    assert_eq!(vs.total_validator_score, 50);
}

#[test]
fn score_weighted_targets_split_the_delta() {
    let (vs, _) = registry_with(&[30, 70]);
    let v0 = vs.get(0).unwrap();
    let v1 = vs.get(1).unwrap();
    assert_eq!(vs.validator_stake_target(&v0, 100), Ok(30));
    assert_eq!(vs.validator_stake_target(&v1, 100), Ok(70));
}

#[test]
fn registry_region_may_not_shrink_below_count() {
    let (vs, _) = registry_with(&[1, 2, 3]);
    assert_eq!(vs.check_realloc_capacity(3), Ok(()));
    assert_eq!(vs.check_realloc_capacity(10), Ok(()));
    assert_eq!(
        vs.check_realloc_capacity(2),
        Err(StakingError::ShrinkingListWithDeletingContents)
    );
}

#[test]
fn validator_list_overflow_reports_and_leaves_state() {
    let mut vs = ValidatorSystem::new(ident(1000), ident(1001), 0).unwrap();
    let region = 8 + VALIDATOR_RECORD_LEN as usize;
    vs.add(region, ident(0), 5, 250).unwrap();
    assert_eq!(
        vs.add(region, ident(1), 6, 250),
        Err(StakingError::ListOverflow)
    );
    assert_eq!(vs.validator_list.count, 1);
    assert_eq!(vs.total_validator_score, 5);
}

#[test]
fn record_width_overflow_is_rejected() {
    assert_eq!(
        ValidatorSystem::new(ident(1000), ident(1001), u32::MAX).err(),
        Some(StakingError::MathOverflow)
    );
    assert_eq!(
        StakeSystem::new(ident(2000), 3_000, 1_000_000, 0, u32::MAX, 251, 252).err(),
        Some(StakingError::MathOverflow)
    );
}

#[test]
fn stake_ledger_records_delegations() {
    let mut ss = StakeSystem::new(ident(2000), 3_000, 1_000_000, 2, 0, 251, 252).unwrap();
    assert_eq!(ss.last_stake_delta_epoch, u64::MAX);
    let region = 8 + 2 * STAKE_RECORD_LEN as usize;
    ss.add(region, ident(50), 777, 9, 0).unwrap();
    let rec = ss.get(0).unwrap();
    assert_eq!(rec.stake_account, ident(50));
    assert_eq!(rec.last_update_delegated_lamports, 777);
    assert_eq!(rec.last_update_epoch, 9);
    assert_eq!(rec.is_emergency_unstaking, 0);
    assert_eq!(
        ss.get_checked(0, ident(51)),
        Err(StakingError::WrongStakeAccountOrIndex)
    );
    assert!(ss.get_checked(0, ident(50)).is_ok());
}
