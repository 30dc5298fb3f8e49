//! The decisions of the library on given values.

use accountability_vault::{
    bump_checkin_ttl, bump_vault_ttl, emit_settlement_summary, ttl_ledgers_until,
    AccountabilityVault, Action, CheckIn, DataKey, Outcome, Vault, VaultError, VaultStatus,
    LEDGERS_PER_SECOND, MIN_TTL_LEDGERS,
};
use soroban_sdk::testutils::{Address as _, EnvTestConfig};
use soroban_sdk::{Address, Env, Symbol};

fn host() -> Env {
    Env::new_with_config(EnvTestConfig { capture_snapshot_at_drop: false })
}

fn vault(env: &Env, verified_count: u32, milestone_count: u32, status: VaultStatus) -> Vault {
    Vault {
        creator: Address::generate(env),
        success_destination: Address::generate(env),
        failure_destination: Address::generate(env),
        token: Address::generate(env),
        amount: 250,
        end_timestamp: 1_000_000,
        verified_count,
        milestone_count,
        status,
    }
}

fn active(env: &Env, verified_count: u32, milestone_count: u32) -> Vault {
    vault(env, verified_count, milestone_count, VaultStatus::Active)
}

fn same_vault(a: &Vault, b: &Vault) -> bool {
    a.creator == b.creator
        && a.success_destination == b.success_destination
        && a.failure_destination == b.failure_destination
        && a.token == b.token
        && a.amount == b.amount
        && a.end_timestamp == b.end_timestamp
        && a.verified_count == b.verified_count
        && a.milestone_count == b.milestone_count
        && a.status == b.status
}

fn extends(action: &Action, wanted: DataKey, ledgers: u32) -> bool {
    match action {
        Action::ExtendTtl { key, threshold, extend_to } => {
            *key == wanted && *threshold == ledgers && *extend_to == ledgers
        }
        _ => false,
    }
}

fn refused<T>(outcome: Outcome<T>) -> VaultError {
    match outcome.reply {
        Ok(_) => panic!("accepted"),
        Err(error) => error,
    }
}

// TTL.

#[test]
fn ttl_counts_ledgers_to_the_deadline() {
    assert_eq!(LEDGERS_PER_SECOND, 5);
    assert_eq!(MIN_TTL_LEDGERS, 17_280);
    assert_eq!(ttl_ledgers_until(0, 1_000_000), 200_000);
    assert_eq!(ttl_ledgers_until(400_000, 1_000_000), 120_000);
    assert_eq!(ttl_ledgers_until(0, 1_000_004), 200_000);
    assert_eq!(ttl_ledgers_until(0, 86_405), 17_281);
}

#[test]
fn ttl_is_at_least_the_minimum() {
    assert_eq!(ttl_ledgers_until(0, 86_404), 17_280);
    assert_eq!(ttl_ledgers_until(0, 1), 17_280);
    assert_eq!(ttl_ledgers_until(1_000_000, 1_000_000), 17_280);
    assert_eq!(ttl_ledgers_until(u64::MAX, 0), 17_280);
}

#[test]
fn ttl_stays_at_its_largest_beyond_its_range() {
    let range: u64 = 21_474_836_480;
    assert_eq!(ttl_ledgers_until(0, range - 6), u32::MAX - 1);
    assert_eq!(ttl_ledgers_until(0, range - 1), u32::MAX);
    assert_eq!(ttl_ledgers_until(0, range), u32::MAX);
    assert_eq!(ttl_ledgers_until(0, range + 100_000), u32::MAX);
    assert_eq!(ttl_ledgers_until(0, u64::MAX), u32::MAX);
}

#[test]
fn ttl_grows_with_the_deadline() {
    let deadlines: [u64; 7] =
        [0, 86_404, 86_405, 1_000_000, 21_474_836_479, 21_474_836_480, u64::MAX];
    for pair in deadlines.windows(2) {
        assert!(ttl_ledgers_until(3, pair[0]) <= ttl_ledgers_until(3, pair[1]));
    }
}

#[test]
fn only_active_vaults_are_kept_alive() {
    let env = host();
    let mut actions = Vec::new();
    bump_vault_ttl(&mut actions, &active(&env, 0, 1), 0);
    bump_checkin_ttl(&mut actions, &active(&env, 0, 1), 4, 999_999);
    assert_eq!(actions.len(), 2);
    assert!(extends(&actions[0], DataKey::Vault, 200_000));
    assert!(extends(&actions[1], DataKey::CheckIn(4), 17_280));
    for status in [VaultStatus::Completed, VaultStatus::Slashed] {
        bump_vault_ttl(&mut actions, &vault(&env, 0, 1, status), 0);
        bump_checkin_ttl(&mut actions, &vault(&env, 0, 1, status), 0, 0);
    }
    assert_eq!(actions.len(), 2);
}

// Entry points.

#[test]
fn initialize_signs_stores_and_extends() {
    let env = host();
    let v = active(&env, 0, 3);
    let opened = AccountabilityVault::initialize(
        400_000,
        v.creator.clone(),
        v.success_destination.clone(),
        v.failure_destination.clone(),
        v.token.clone(),
        v.amount,
        v.end_timestamp,
        v.milestone_count,
    );
    assert_eq!(opened.reply, Ok(()));
    assert_eq!(opened.actions.len(), 3);
    assert!(matches!(&opened.actions[0], Action::RequireAuth(a) if *a == v.creator));
    match &opened.actions[1] {
        Action::StoreVault { key, vault } => {
            assert_eq!(*key, DataKey::Vault);
            assert!(same_vault(vault, &v));
        }
        _ => panic!("no vault stored"),
    }
    assert!(extends(&opened.actions[2], DataKey::Vault, 120_000));
}

#[test]
fn a_check_in_is_recorded_and_counted() {
    let env = host();
    let v = active(&env, 1, 3);
    let verifier = Address::generate(&env);
    let taken =
        AccountabilityVault::check_in(500_000, Some(v.clone()), false, verifier.clone(), 2);
    assert_eq!(taken.reply, Ok(()));
    assert_eq!(taken.actions.len(), 5);
    assert!(matches!(&taken.actions[0], Action::RequireAuth(a) if *a == verifier));
    match &taken.actions[1] {
        Action::StoreCheckIn { key, check_in } => {
            assert_eq!(*key, DataKey::CheckIn(2));
            let wanted = CheckIn { milestone_index: 2, verified: true, verified_at: 500_000 };
            assert_eq!(*check_in, wanted);
        }
        _ => panic!("no check-in stored"),
    }
    match &taken.actions[2] {
        Action::StoreVault { key, vault } => {
            assert_eq!(*key, DataKey::Vault);
            assert!(same_vault(vault, &Vault { verified_count: 2, ..v }));
        }
        _ => panic!("no vault stored"),
    }
    assert!(extends(&taken.actions[3], DataKey::Vault, 100_000));
    assert!(extends(&taken.actions[4], DataKey::CheckIn(2), 100_000));
}

#[test]
fn check_ins_are_refused_in_order() {
    let env = host();
    let by = || Address::generate(&env);
    let error = |v: Option<Vault>, checked_in: bool, index: u32| {
        let outcome = AccountabilityVault::check_in(9, v, checked_in, by(), index);
        assert_eq!(outcome.actions.len(), 1);
        assert!(matches!(outcome.actions[0], Action::RequireAuth(_)));
        refused(outcome)
    };
    assert_eq!(error(None, true, 7), VaultError::NotInitialised);
    let closed = vault(&env, 0, 2, VaultStatus::Completed);
    assert_eq!(error(Some(closed), true, 7), VaultError::NotActive);
    assert_eq!(error(Some(active(&env, 0, 2)), true, 2), VaultError::MilestoneOutOfRange);
    assert_eq!(error(Some(active(&env, 0, 2)), true, 1), VaultError::AlreadyCheckedIn);
    let full = active(&env, u32::MAX, u32::MAX);
    assert_eq!(error(Some(full), false, 1), VaultError::CountOverflow);
}

#[test]
fn a_claim_pays_the_success_destination() {
    let env = host();
    let v = active(&env, 2, 2);
    let claimed = AccountabilityVault::claim(Some(v.clone()));
    assert_eq!(claimed.reply, Ok(()));
    assert_eq!(claimed.actions.len(), 3);
    match &claimed.actions[0] {
        Action::Transfer { token, to, amount } => {
            assert_eq!(*token, v.token);
            assert_eq!(*to, v.success_destination);
            assert_eq!(*amount, 250);
        }
        _ => panic!("no transfer"),
    }
    match &claimed.actions[1] {
        Action::StoreVault { key, vault } => {
            assert_eq!(*key, DataKey::Vault);
            assert!(same_vault(vault, &Vault { status: VaultStatus::Completed, ..v }));
        }
        _ => panic!("no vault stored"),
    }
    match &claimed.actions[2] {
        Action::Publish { topic, data } => {
            assert_eq!(*topic, Symbol::new(&env, "settle"));
            assert_eq!(data.released_amount, 250);
            assert_eq!(data.slashed_amount, 0);
            assert_eq!(data.verified_count, 2);
            assert_eq!(data.final_status, Symbol::new(&env, "completed"));
        }
        _ => panic!("no summary"),
    }
}

#[test]
fn a_slash_pays_the_failure_destination() {
    let env = host();
    let v = active(&env, 1, 2);
    let slashed = AccountabilityVault::slash_on_miss(1_000_000, Some(v.clone()));
    assert_eq!(slashed.reply, Ok(()));
    assert_eq!(slashed.actions.len(), 3);
    match &slashed.actions[0] {
        Action::Transfer { token, to, amount } => {
            assert_eq!(*token, v.token);
            assert_eq!(*to, v.failure_destination);
            assert_eq!(*amount, 250);
        }
        _ => panic!("no transfer"),
    }
    match &slashed.actions[1] {
        Action::StoreVault { key, vault } => {
            assert_eq!(*key, DataKey::Vault);
            assert!(same_vault(vault, &Vault { status: VaultStatus::Slashed, ..v }));
        }
        _ => panic!("no vault stored"),
    }
    match &slashed.actions[2] {
        Action::Publish { topic, data } => {
            assert_eq!(*topic, Symbol::new(&env, "settle"));
            assert_eq!(data.released_amount, 0);
            assert_eq!(data.slashed_amount, 250);
            assert_eq!(data.verified_count, 1);
            assert_eq!(data.final_status, Symbol::new(&env, "slashed"));
        }
        _ => panic!("no summary"),
    }
}

#[test]
fn settlements_are_refused_in_order() {
    let env = host();
    for status in [VaultStatus::Completed, VaultStatus::Slashed] {
        let claim = AccountabilityVault::claim(Some(vault(&env, 0, 1, status)));
        assert!(claim.actions.is_empty());
        assert_eq!(refused(claim), VaultError::NotActive);
        let slash = AccountabilityVault::slash_on_miss(0, Some(vault(&env, 0, 1, status)));
        assert!(slash.actions.is_empty());
        assert_eq!(refused(slash), VaultError::NotActive);
    }
    assert_eq!(refused(AccountabilityVault::claim(None)), VaultError::NotInitialised);
    let claim = AccountabilityVault::claim(Some(active(&env, 1, 2)));
    assert_eq!(refused(claim), VaultError::MilestonesMissing);
    let slash = AccountabilityVault::slash_on_miss(0, None);
    assert_eq!(refused(slash), VaultError::NotInitialised);
    let slash = AccountabilityVault::slash_on_miss(999_999, Some(active(&env, 0, 2)));
    assert_eq!(refused(slash), VaultError::DeadlineNotPassed);
    let slash = AccountabilityVault::slash_on_miss(999_999, Some(active(&env, 2, 2)));
    assert_eq!(refused(slash), VaultError::DeadlineNotPassed);
    for count in [0, 2] {
        let v = active(&env, count, count);
        let slash = AccountabilityVault::slash_on_miss(1_000_000, Some(v));
        assert!(slash.actions.is_empty());
        assert_eq!(refused(slash), VaultError::NothingMissed);
    }
}

#[test]
fn one_settlement_is_open_from_the_deadline_on() {
    let env = host();
    for now in [1_000_000, u64::MAX] {
        for verified_count in [0, 1, 2, 3] {
            let v = active(&env, verified_count, 2);
            let claim = AccountabilityVault::claim(Some(v.clone()));
            let slash = AccountabilityVault::slash_on_miss(now, Some(v));
            assert_eq!(claim.reply.is_ok(), verified_count >= 2);
            assert_eq!(slash.reply.is_ok(), verified_count < 2);
        }
    }
}

#[test]
fn reads_answer_what_is_stored() {
    let env = host();
    let v = active(&env, 1, 2);
    let read = AccountabilityVault::get_vault(500_000, Some(v.clone()));
    assert_eq!(read.actions.len(), 1);
    assert!(extends(&read.actions[0], DataKey::Vault, 100_000));
    assert!(same_vault(&read.reply.unwrap(), &v));

    let c = CheckIn { milestone_index: 1, verified: true, verified_at: 3 };
    let read = AccountabilityVault::get_check_in(500_000, Some(v.clone()), Some(c), 1);
    assert_eq!(read.actions.len(), 2);
    assert!(extends(&read.actions[0], DataKey::Vault, 100_000));
    assert!(extends(&read.actions[1], DataKey::CheckIn(1), 100_000));
    assert_eq!(read.reply.unwrap(), c);

    let missing = AccountabilityVault::get_check_in(0, Some(v), None, 0);
    assert!(missing.actions.is_empty());
    assert_eq!(refused(missing), VaultError::CheckInNotFound);
    let missing = AccountabilityVault::get_check_in(0, None, Some(c), 0);
    assert_eq!(refused(missing), VaultError::NotInitialised);
    let missing = AccountabilityVault::get_vault(0, None);
    assert!(missing.actions.is_empty());
    assert_eq!(refused(missing), VaultError::NotInitialised);
}

#[test]
fn reads_of_a_settled_vault_do_nothing() {
    let env = host();
    let v = vault(&env, 2, 2, VaultStatus::Completed);
    assert!(AccountabilityVault::get_vault(0, Some(v.clone())).actions.is_empty());
    let c = CheckIn { milestone_index: 1, verified: true, verified_at: 3 };
    assert!(AccountabilityVault::get_check_in(0, Some(v), Some(c), 1).actions.is_empty());
}

#[test]
fn summaries_are_published_after_what_came_before() {
    let env = host();
    let mut actions = vec![Action::RequireAuth(Address::generate(&env))];
    emit_settlement_summary(&mut actions, 7, -3, 9, Symbol::new(&env, "other"));
    assert_eq!(actions.len(), 2);
    match &actions[1] {
        Action::Publish { topic, data } => {
            assert_eq!(*topic, Symbol::new(&env, "settle"));
            assert_eq!(data.released_amount, 7);
            assert_eq!(data.slashed_amount, -3);
            assert_eq!(data.verified_count, 9);
            assert_eq!(data.final_status, Symbol::new(&env, "other"));
        }
        _ => panic!("no summary"),
    }
}

#[test]
fn refusals_have_their_texts() {
    assert_eq!(VaultError::NotInitialised.message(), "vault not initialised");
    assert_eq!(VaultError::NotActive.message(), "vault is not active");
    assert_eq!(VaultError::MilestoneOutOfRange.message(), "milestone index out of range");
    assert_eq!(VaultError::AlreadyCheckedIn.message(), "milestone already checked in");
    assert_eq!(VaultError::CountOverflow.message(), "attempt to add with overflow");
    assert_eq!(VaultError::MilestonesMissing.message(), "not all milestones verified");
    assert_eq!(VaultError::DeadlineNotPassed.message(), "vault deadline has not passed");
    assert_eq!(VaultError::NothingMissed.message(), "all milestones verified");
    assert_eq!(VaultError::CheckInNotFound.message(), "check-in not found");
}
