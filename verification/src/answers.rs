//! What each entry point answers and asks of the host, told in the values that
//! it is given.
use soroban_sdk::{Address, Symbol};
use vstd::prelude::*;

use crate::contract::{
    check_in_actions, check_in_reply, claim_actions, claim_reply, get_check_in_actions,
    get_check_in_reply, get_vault_actions, get_vault_reply, initialize_actions, new_vault,
    slash_actions, slash_reply,
};
use crate::sdk::short_symbol;
use crate::settlement::settlement_event;
use crate::ttl::{bump, ttl_until};
use crate::types::{
    Action, CheckIn, DataKey, SettlementSummary, Vault, VaultError, VaultStatus,
};

verus! {

// Opening.

/// The vault that `initialize` stores has the terms of the call, counts no
/// milestone, and is active. The creator signs before it is stored, and it is
/// kept alive until the deadline of the call.
pub proof fn law_initialize_keeps_the_terms(
    creator: Address,
    success_destination: Address,
    failure_destination: Address,
    token: Address,
    amount: i128,
    end_timestamp: u64,
    milestone_count: u32,
    now: u64,
)
    ensures
        ({
            let actions = initialize_actions(
                new_vault(
                    creator,
                    success_destination,
                    failure_destination,
                    token,
                    amount,
                    end_timestamp,
                    milestone_count,
                ),
                now,
            );
            let ttl = ttl_until(now, end_timestamp);
            &&& actions.len() == 3
            &&& actions[0] == Action::RequireAuth(creator)
            &&& actions[1] matches Action::StoreVault { key, vault }
            &&& key == DataKey::Vault
            &&& vault.creator == creator
            &&& vault.success_destination == success_destination
            &&& vault.failure_destination == failure_destination
            &&& vault.token == token
            &&& vault.amount == amount
            &&& vault.end_timestamp == end_timestamp
            &&& vault.milestone_count == milestone_count
            &&& vault.verified_count == 0
            &&& vault.status == VaultStatus::Active
            &&& actions[2] matches Action::ExtendTtl { key, threshold, extend_to }
            &&& key == DataKey::Vault
            &&& threshold == ttl
            &&& extend_to == ttl
        }),
{
}

// Checking in.

/// A check-in is refused for exactly one reason at a time: there is no vault;
/// else it is settled; else it has no such milestone; else the milestone has a
/// check-in; else the count cannot grow. It is taken where there is none.
pub proof fn law_check_in_reasons(vault: Option<Vault>, checked_in: bool, milestone_index: u32)
    ensures
        ({
            let reply = check_in_reply(vault, checked_in, milestone_index);
            match vault {
                None => reply == Err::<(), VaultError>(VaultError::NotInitialised),
                Some(v) => {
                    let active = v.status == VaultStatus::Active;
                    let known = milestone_index < v.milestone_count;
                    &&& !active <==> reply == Err::<(), VaultError>(VaultError::NotActive)
                    &&& active && !known <==> reply == Err::<(), VaultError>(
                        VaultError::MilestoneOutOfRange,
                    )
                    &&& active && known && checked_in <==> reply == Err::<(), VaultError>(
                        VaultError::AlreadyCheckedIn,
                    )
                    &&& active && known && !checked_in && v.verified_count == u32::MAX
                        <==> reply == Err::<(), VaultError>(VaultError::CountOverflow)
                    &&& active && known && !checked_in && v.verified_count < u32::MAX
                        <==> reply == Ok::<(), VaultError>(())
                },
            }
        }),
{
}

/// The verifier signs first. A check-in that is taken is stored under its own
/// milestone as verified now, and the vault is stored with one milestone more
/// and nothing else changed; both are kept alive until the deadline. One that
/// is refused asks for nothing more.
pub proof fn law_check_in_records_one_milestone(
    vault: Option<Vault>,
    checked_in: bool,
    verifier: Address,
    milestone_index: u32,
    now: u64,
)
    ensures
        ({
            let actions = check_in_actions(vault, checked_in, verifier, milestone_index, now);
            &&& actions.len() > 0
            &&& actions[0] == Action::RequireAuth(verifier)
            &&& check_in_reply(vault, checked_in, milestone_index) is Err ==> actions.len() == 1
            &&& check_in_reply(vault, checked_in, milestone_index) is Ok ==> {
                let v = vault->0;
                let ttl = ttl_until(now, v.end_timestamp);
                &&& vault is Some
                &&& actions.len() == 5
                &&& actions[1] matches Action::StoreCheckIn { key, check_in }
                &&& key == DataKey::CheckIn(milestone_index)
                &&& check_in.milestone_index == milestone_index
                &&& check_in.verified
                &&& check_in.verified_at == now
                &&& actions[2] matches Action::StoreVault { key, vault: stored }
                &&& key == DataKey::Vault
                &&& stored.verified_count == v.verified_count + 1
                &&& stored == Vault { verified_count: stored.verified_count, ..v }
                &&& actions[3] matches Action::ExtendTtl { key, threshold, extend_to }
                &&& key == DataKey::Vault
                &&& threshold == ttl
                &&& extend_to == ttl
                &&& actions[4] matches Action::ExtendTtl { key, threshold, extend_to }
                &&& key == DataKey::CheckIn(milestone_index)
                &&& threshold == ttl
                &&& extend_to == ttl
            }
        }),
{
}

// Settling.

/// A claim is refused for exactly one reason at a time: there is no vault; else
/// it is settled; else it counts fewer milestones than it has. It is accepted
/// where there is none.
pub proof fn law_claim_reasons(vault: Option<Vault>)
    ensures
        ({
            let reply = claim_reply(vault);
            match vault {
                None => reply == Err::<(), VaultError>(VaultError::NotInitialised),
                Some(v) => {
                    let active = v.status == VaultStatus::Active;
                    let all = v.verified_count >= v.milestone_count;
                    &&& !active <==> reply == Err::<(), VaultError>(VaultError::NotActive)
                    &&& active && !all <==> reply == Err::<(), VaultError>(
                        VaultError::MilestonesMissing,
                    )
                    &&& active && all <==> reply == Ok::<(), VaultError>(())
                },
            }
        }),
{
}

/// A slash is refused for exactly one reason at a time: there is no vault; else
/// it is settled; else its deadline is still to come; else it counts all of its
/// milestones. It is accepted where there is none.
pub proof fn law_slash_reasons(vault: Option<Vault>, now: u64)
    ensures
        ({
            let reply = slash_reply(vault, now);
            match vault {
                None => reply == Err::<(), VaultError>(VaultError::NotInitialised),
                Some(v) => {
                    let active = v.status == VaultStatus::Active;
                    let due = now >= v.end_timestamp;
                    let all = v.verified_count >= v.milestone_count;
                    &&& !active <==> reply == Err::<(), VaultError>(VaultError::NotActive)
                    &&& active && !due <==> reply == Err::<(), VaultError>(
                        VaultError::DeadlineNotPassed,
                    )
                    &&& active && due && all <==> reply == Err::<(), VaultError>(
                        VaultError::NothingMissed,
                    )
                    &&& active && due && !all <==> reply == Ok::<(), VaultError>(())
                },
            }
        }),
{
}

/// A claim that is accepted moves the whole amount of the vault's token to
/// `success_destination`, then stores the vault as completed with nothing else
/// changed, then tells so: all was released and nothing slashed. One that is
/// refused asks for nothing.
pub proof fn law_claim_releases_the_amount(vault: Option<Vault>)
    ensures
        claim_reply(vault) is Err ==> claim_actions(vault).len() == 0,
        claim_reply(vault) is Ok ==> {
            let actions = claim_actions(vault);
            let v = vault->0;
            &&& vault is Some
            &&& actions.len() == 3
            &&& actions[0] matches Action::Transfer { token, to, amount }
            &&& token == v.token
            &&& to == v.success_destination
            &&& amount == v.amount
            &&& actions[1] matches Action::StoreVault { key, vault: stored }
            &&& key == DataKey::Vault
            &&& stored == Vault { status: VaultStatus::Completed, ..v }
            &&& actions[2] matches Action::Publish { topic, data }
            &&& topic == short_symbol("settle"@)
            &&& data.released_amount == v.amount
            &&& data.slashed_amount == 0
            &&& data.verified_count == v.verified_count
            &&& data.final_status == short_symbol("completed"@)
        },
{
}

/// A slash that is accepted moves the whole amount of the vault's token to
/// `failure_destination`, then stores the vault as slashed with nothing else
/// changed, then tells so: all was slashed and nothing released. One that is
/// refused asks for nothing.
pub proof fn law_slash_sweeps_the_amount(vault: Option<Vault>, now: u64)
    ensures
        slash_reply(vault, now) is Err ==> slash_actions(vault, now).len() == 0,
        slash_reply(vault, now) is Ok ==> {
            let actions = slash_actions(vault, now);
            let v = vault->0;
            &&& vault is Some
            &&& actions.len() == 3
            &&& actions[0] matches Action::Transfer { token, to, amount }
            &&& token == v.token
            &&& to == v.failure_destination
            &&& amount == v.amount
            &&& actions[1] matches Action::StoreVault { key, vault: stored }
            &&& key == DataKey::Vault
            &&& stored == Vault { status: VaultStatus::Slashed, ..v }
            &&& actions[2] matches Action::Publish { topic, data }
            &&& topic == short_symbol("settle"@)
            &&& data.released_amount == 0
            &&& data.slashed_amount == v.amount
            &&& data.verified_count == v.verified_count
            &&& data.final_status == short_symbol("slashed"@)
        },
{
}

/// A settlement summary is published under the topic `settle`, each value in
/// the field of its name.
pub proof fn law_summaries_are_published_as_given(
    released_amount: i128,
    slashed_amount: i128,
    verified_count: u32,
    final_status: Symbol,
)
    ensures
        ({
            let event = settlement_event(
                SettlementSummary {
                    released_amount,
                    slashed_amount,
                    verified_count,
                    final_status,
                },
            );
            &&& event matches Action::Publish { topic, data }
            &&& topic == short_symbol("settle"@)
            &&& data.released_amount == released_amount
            &&& data.slashed_amount == slashed_amount
            &&& data.verified_count == verified_count
            &&& data.final_status == final_status
        }),
{
}

// Reading.

/// `get_vault` answers the vault as it is stored, whatever its status, and
/// fails only where there is none.
pub proof fn law_vault_is_read_as_stored(vault: Vault)
    ensures
        get_vault_reply(Some(vault)) == Ok::<Vault, VaultError>(vault),
        get_vault_reply(None) == Err::<Vault, VaultError>(VaultError::NotInitialised),
{
}

/// `get_check_in` answers the check-in as it is stored, whatever the status of
/// the vault. It fails only where there is no vault, or else no check-in.
pub proof fn law_check_in_is_read_as_stored(
    vault: Vault,
    check_in: CheckIn,
    stored: Option<CheckIn>,
)
    ensures
        get_check_in_reply(Some(vault), Some(check_in)) == Ok::<CheckIn, VaultError>(check_in),
        get_check_in_reply(Some(vault), None) == Err::<CheckIn, VaultError>(
            VaultError::CheckInNotFound,
        ),
        get_check_in_reply(None, stored) == Err::<CheckIn, VaultError>(
            VaultError::NotInitialised,
        ),
{
}

/// A read asks for nothing but to keep alive what an active vault has: the
/// vault, and the check-in that was read.
pub proof fn law_reads_ask_for_life_only(
    vault: Option<Vault>,
    check_in: Option<CheckIn>,
    milestone_index: u32,
    now: u64,
)
    ensures
        ({
            let actions = get_vault_actions(vault, now);
            if vault is Some && vault->0.status == VaultStatus::Active {
                let ttl = ttl_until(now, vault->0.end_timestamp);
                &&& actions.len() == 1
                &&& actions[0] matches Action::ExtendTtl { key, threshold, extend_to }
                &&& key == DataKey::Vault
                &&& threshold == ttl
                &&& extend_to == ttl
            } else {
                actions.len() == 0
            }
        }),
        ({
            let actions = get_check_in_actions(vault, check_in, milestone_index, now);
            if vault is Some && check_in is Some && vault->0.status == VaultStatus::Active {
                let ttl = ttl_until(now, vault->0.end_timestamp);
                &&& actions.len() == 2
                &&& actions[0] matches Action::ExtendTtl { key, threshold, extend_to }
                &&& key == DataKey::Vault
                &&& threshold == ttl
                &&& extend_to == ttl
                &&& actions[1] matches Action::ExtendTtl { key, threshold, extend_to }
                &&& key == DataKey::CheckIn(milestone_index)
                &&& threshold == ttl
                &&& extend_to == ttl
            } else {
                actions.len() == 0
            }
        }),
{
}

// Keeping alive.

/// An active vault asks for exactly one extension of the entry, whichever it
/// is, to the TTL of its deadline. A settled vault asks for none.
pub proof fn law_only_active_vaults_extend(vault: Vault, key: DataKey, now: u64)
    ensures
        vault.status != VaultStatus::Active ==> bump(vault, key, now).len() == 0,
        vault.status == VaultStatus::Active ==> {
            let ttl = ttl_until(now, vault.end_timestamp);
            &&& bump(vault, key, now).len() == 1
            &&& bump(vault, key, now)[0] matches Action::ExtendTtl {
                key: extended,
                threshold,
                extend_to,
            }
            &&& extended == key
            &&& threshold == ttl
            &&& extend_to == ttl
        },
{
}

/// The TTL is the number of whole ledgers, of five seconds each, that end by
/// the deadline. Where that is less than a day of ledgers, or the deadline has
/// come, it is a day of ledgers; and where it is no `u32`, the largest one.
pub proof fn law_ttl_is_the_ledgers_left(now: u64, end_timestamp: u64)
    ensures
        17_280 <= ttl_until(now, end_timestamp) <= 0xffff_ffff,
        end_timestamp <= now ==> ttl_until(now, end_timestamp) == 17_280,
        ttl_until(now, end_timestamp) > 17_280 ==> ttl_until(now, end_timestamp) * 5
            <= end_timestamp - now,
        ttl_until(now, end_timestamp) < 0xffff_ffff ==> (ttl_until(now, end_timestamp) + 1) * 5
            > end_timestamp - now,
{
}

/// The TTL depends only on the time that is left.
pub proof fn law_ttl_depends_on_the_time_left(now: u64, end_timestamp: u64, shift: u64)
    requires
        now + shift <= u64::MAX,
        end_timestamp + shift <= u64::MAX,
    ensures
        ttl_until((now + shift) as u64, (end_timestamp + shift) as u64) == ttl_until(
            now,
            end_timestamp,
        ),
{
}

/// As long as the TTL is above its minimum and in its range, five seconds later
/// it is one ledger less: it reaches to the same ledger.
pub proof fn law_ttl_counts_down(now: u64, end_timestamp: u64)
    requires
        now + 5 <= u64::MAX,
        17_280 < ttl_until(now, end_timestamp) < u32::MAX,
    ensures
        ttl_until((now + 5) as u64, end_timestamp) == ttl_until(now, end_timestamp) - 1,
{
}

// Refusing.

/// A refusal can be told by its text.
pub proof fn law_texts_differ(one: VaultError, other: VaultError)
    requires
        one.text() == other.text(),
    ensures
        one == other,
{
    reveal_strlit("vault not initialised");
    reveal_strlit("vault is not active");
    reveal_strlit("milestone index out of range");
    reveal_strlit("milestone already checked in");
    reveal_strlit("attempt to add with overflow");
    reveal_strlit("not all milestones verified");
    reveal_strlit("vault deadline has not passed");
    reveal_strlit("all milestones verified");
    reveal_strlit("check-in not found");
    assert("vault not initialised"@.len() == 21);
    assert("vault is not active"@.len() == 19);
    assert("milestone index out of range"@.len() == 28);
    assert("milestone already checked in"@.len() == 28);
    assert("attempt to add with overflow"@.len() == 28);
    assert("not all milestones verified"@.len() == 27);
    assert("vault deadline has not passed"@.len() == 29);
    assert("all milestones verified"@.len() == 23);
    assert("check-in not found"@.len() == 18);
    assert("milestone index out of range"@[0] == 'm');
    assert("milestone index out of range"@[10] == 'i');
    assert("milestone already checked in"@[0] == 'm');
    assert("milestone already checked in"@[10] == 'a');
    assert("attempt to add with overflow"@[0] == 'a');
}

} // verus!
