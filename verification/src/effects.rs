//! The effect of each invocation on a ledger, in one piece.
use vstd::prelude::*;

use crate::contract::{new_vault, with_one_more};
use crate::ledger::{
    extend, invoke, perform, perform_all, store, succeeds, Call, Entry, Event, Host, Ledger,
    Payment, Step,
};
use crate::sdk::short_symbol;
use crate::ttl::{bump, ttl_until};
use crate::types::{Action, CheckIn, DataKey, SettlementSummary, Vault, VaultStatus};

verus! {

/// Performing one more action.
proof fn lemma_perform_push(ledger: Ledger, host: Host, actions: Seq<Action>, action: Action)
    ensures
        perform_all(ledger, host, actions.push(action)) == perform(
            perform_all(ledger, host, actions),
            host,
            action,
        ),
{
    assert(actions.push(action).drop_last() =~= actions);
}

/// Extending the life of the entry under `key` on behalf of an active vault.
pub open spec fn kept_alive(ledger: Ledger, host: Host, vault: Vault, key: DataKey) -> Ledger {
    let ttl = ttl_until(host.now, vault.end_timestamp) as u32;
    extend(ledger, host, key, ttl, ttl)
}

/// What a bump does.
proof fn lemma_perform_bump(
    ledger: Ledger,
    host: Host,
    actions: Seq<Action>,
    vault: Vault,
    key: DataKey,
)
    ensures
        vault.status == VaultStatus::Active ==> perform_all(
            ledger,
            host,
            actions + bump(vault, key, host.now),
        ) == kept_alive(perform_all(ledger, host, actions), host, vault, key),
        vault.status != VaultStatus::Active ==> perform_all(
            ledger,
            host,
            actions + bump(vault, key, host.now),
        ) == perform_all(ledger, host, actions),
{
    if vault.status == VaultStatus::Active {
        let action = bump(vault, key, host.now)[0];
        assert(actions + bump(vault, key, host.now) =~= actions.push(action));
        lemma_perform_push(ledger, host, actions, action);
    } else {
        assert(actions + bump(vault, key, host.now) =~= actions);
    }
}

/// The vault that a call opens.
pub open spec fn opened(call: Call) -> Vault
    recommends
        call is Initialize,
{
    match call {
        Call::Initialize {
            creator,
            success_destination,
            failure_destination,
            token,
            amount,
            end_timestamp,
            milestone_count,
        } => new_vault(
            creator,
            success_destination,
            failure_destination,
            token,
            amount,
            end_timestamp,
            milestone_count,
        ),
        _ => arbitrary(),
    }
}

/// The ledger after a vault was opened.
pub(crate) proof fn lemma_initialize_effect(ledger: Ledger, step: Step)
    requires
        step.call is Initialize,
        step.host.serves,
    ensures
        invoke(ledger, step) == ({
            let vault = opened(step.call);
            let signed = Ledger { signatures: ledger.signatures.push(vault.creator), ..ledger };
            let stored = store(signed, step.host, DataKey::Vault, Entry::Vault(vault));
            kept_alive(stored, step.host, vault, DataKey::Vault)
        }),
{
    let vault = opened(step.call);
    let host = step.host;
    let none = Seq::<Action>::empty();
    let a0 = Action::RequireAuth(vault.creator);
    let a1 = Action::StoreVault { key: DataKey::Vault, vault };
    lemma_perform_push(ledger, host, none, a0);
    lemma_perform_push(ledger, host, none.push(a0), a1);
    lemma_perform_bump(ledger, host, none.push(a0).push(a1), vault, DataKey::Vault);
    assert(none.push(a0).push(a1) =~= seq![a0, a1]);
}

/// The ledger after a check-in was taken.
pub(crate) proof fn lemma_check_in_effect(ledger: Ledger, step: Step)
    requires
        step.call is CheckIn,
        succeeds(ledger, step),
    ensures
        ledger.vault() is Some,
        invoke(ledger, step) == ({
            let host = step.host;
            let index = step.call->CheckIn_milestone_index;
            let key = DataKey::CheckIn(index);
            let check_in = CheckIn {
                milestone_index: index,
                verified: true,
                verified_at: host.now,
            };
            let counted = with_one_more(ledger.vault()->0);
            let signed = Ledger {
                signatures: ledger.signatures.push(step.call->CheckIn_verifier),
                ..ledger
            };
            let recorded = store(signed, host, key, Entry::CheckIn(check_in));
            let stored = store(recorded, host, DataKey::Vault, Entry::Vault(counted));
            kept_alive(
                kept_alive(stored, host, counted, DataKey::Vault),
                host,
                counted,
                key,
            )
        }),
{
    let host = step.host;
    let index = step.call->CheckIn_milestone_index;
    let key = DataKey::CheckIn(index);
    let check_in = CheckIn { milestone_index: index, verified: true, verified_at: host.now };
    let counted = with_one_more(ledger.vault()->0);
    let none = Seq::<Action>::empty();
    let a0 = Action::RequireAuth(step.call->CheckIn_verifier);
    let a1 = Action::StoreCheckIn { key, check_in };
    let a2 = Action::StoreVault { key: DataKey::Vault, vault: counted };
    let first = none.push(a0).push(a1).push(a2);
    lemma_perform_push(ledger, host, none, a0);
    lemma_perform_push(ledger, host, none.push(a0), a1);
    lemma_perform_push(ledger, host, none.push(a0).push(a1), a2);
    lemma_perform_bump(ledger, host, first, counted, DataKey::Vault);
    lemma_perform_bump(
        ledger,
        host,
        first + bump(counted, DataKey::Vault, host.now),
        counted,
        key,
    );
    assert(seq![a0] + seq![a1, a2] =~= first);
}

/// The vault that a settling call leaves behind.
pub open spec fn settled(vault: Vault, call: Call) -> Vault {
    Vault {
        status: if call is Claim {
            VaultStatus::Completed
        } else {
            VaultStatus::Slashed
        },
        ..vault
    }
}

/// The payment that a settling call makes.
pub open spec fn settlement_payment(vault: Vault, call: Call) -> Payment {
    Payment {
        token: vault.token,
        to: if call is Claim {
            vault.success_destination
        } else {
            vault.failure_destination
        },
        amount: vault.amount,
    }
}

/// The event that a settling call publishes.
pub open spec fn settlement_notice(vault: Vault, call: Call) -> Event {
    Event {
        topic: short_symbol("settle"@),
        data: if call is Claim {
            SettlementSummary {
                released_amount: vault.amount,
                slashed_amount: 0,
                verified_count: vault.verified_count,
                final_status: short_symbol("completed"@),
            }
        } else {
            SettlementSummary {
                released_amount: 0,
                slashed_amount: vault.amount,
                verified_count: vault.verified_count,
                final_status: short_symbol("slashed"@),
            }
        },
    }
}

/// Whether a call settles the vault.
pub open spec fn settles(call: Call) -> bool {
    call is Claim || call is SlashOnMiss
}

/// The ledger after a settlement.
pub(crate) proof fn lemma_settle_effect(ledger: Ledger, step: Step)
    requires
        settles(step.call),
        succeeds(ledger, step),
    ensures
        ledger.is_active(),
        invoke(ledger, step) == ({
            let vault = ledger.vault()->0;
            let paid = Ledger {
                payments: ledger.payments.push(settlement_payment(vault, step.call)),
                ..ledger
            };
            let stored = store(
                paid,
                step.host,
                DataKey::Vault,
                Entry::Vault(settled(vault, step.call)),
            );
            Ledger { events: stored.events.push(settlement_notice(vault, step.call)), ..stored }
        }),
{
    let host = step.host;
    let actions = step.actions(ledger);
    let none = Seq::<Action>::empty();
    lemma_perform_push(ledger, host, none, actions[0]);
    lemma_perform_push(ledger, host, none.push(actions[0]), actions[1]);
    lemma_perform_push(ledger, host, none.push(actions[0]).push(actions[1]), actions[2]);
    assert(actions =~= none.push(actions[0]).push(actions[1]).push(actions[2]));
}

/// The ledger after the vault was read.
pub(crate) proof fn lemma_get_vault_effect(ledger: Ledger, step: Step)
    requires
        step.call is GetVault,
        succeeds(ledger, step),
    ensures
        ledger.vault() is Some,
        ledger.is_settled() ==> invoke(ledger, step) == ledger,
        ledger.is_active() ==> invoke(ledger, step) == kept_alive(
            ledger,
            step.host,
            ledger.vault()->0,
            DataKey::Vault,
        ),
{
    let none = Seq::<Action>::empty();
    let vault = ledger.vault()->0;
    lemma_perform_bump(ledger, step.host, none, vault, DataKey::Vault);
    assert(none + bump(vault, DataKey::Vault, step.host.now) =~= step.actions(ledger));
}

/// The ledger after a check-in was read.
pub(crate) proof fn lemma_get_check_in_effect(ledger: Ledger, step: Step)
    requires
        step.call is GetCheckIn,
        succeeds(ledger, step),
    ensures
        ledger.vault() is Some,
        ledger.is_settled() ==> invoke(ledger, step) == ledger,
        ledger.is_active() ==> invoke(ledger, step) == kept_alive(
            kept_alive(ledger, step.host, ledger.vault()->0, DataKey::Vault),
            step.host,
            ledger.vault()->0,
            DataKey::CheckIn(step.call->GetCheckIn_milestone_index),
        ),
{
    let none = Seq::<Action>::empty();
    let host = step.host;
    let vault = ledger.vault()->0;
    let key = DataKey::CheckIn(step.call->GetCheckIn_milestone_index);
    let first = none + bump(vault, DataKey::Vault, host.now);
    lemma_perform_bump(ledger, host, none, vault, DataKey::Vault);
    lemma_perform_bump(ledger, host, first, vault, key);
    assert(first + bump(vault, key, host.now) =~= step.actions(ledger));
}

/// The storage after a step.
pub open spec fn next_entries(ledger: Ledger, step: Step) -> Map<DataKey, Entry> {
    let vault = ledger.vault()->0;
    if !succeeds(ledger, step) {
        ledger.entries
    } else {
        match step.call {
            Call::Initialize { .. } => ledger.entries.insert(
                DataKey::Vault,
                Entry::Vault(opened(step.call)),
            ),
            Call::CheckIn { verifier, milestone_index } => ledger.entries.insert(
                DataKey::CheckIn(milestone_index),
                Entry::CheckIn(
                    CheckIn { milestone_index, verified: true, verified_at: step.host.now },
                ),
            ).insert(DataKey::Vault, Entry::Vault(with_one_more(vault))),
            Call::Claim | Call::SlashOnMiss => ledger.entries.insert(
                DataKey::Vault,
                Entry::Vault(settled(vault, step.call)),
            ),
            Call::GetVault | Call::GetCheckIn { .. } => ledger.entries,
        }
    }
}

/// What a step does to the storage, the payments and the events.
pub(crate) proof fn lemma_step(ledger: Ledger, step: Step)
    ensures
        invoke(ledger, step).entries == next_entries(ledger, step),
        succeeds(ledger, step) && settles(step.call) ==> {
            let vault = ledger.vault()->0;
            &&& ledger.is_active()
            &&& invoke(ledger, step).payments == ledger.payments.push(
                settlement_payment(vault, step.call),
            )
            &&& invoke(ledger, step).events == ledger.events.push(
                settlement_notice(vault, step.call),
            )
        },
        !(succeeds(ledger, step) && settles(step.call)) ==> {
            &&& invoke(ledger, step).payments == ledger.payments
            &&& invoke(ledger, step).events == ledger.events
        },
{
    if succeeds(ledger, step) {
        match step.call {
            Call::Initialize { .. } => lemma_initialize_effect(ledger, step),
            Call::CheckIn { .. } => lemma_check_in_effect(ledger, step),
            Call::Claim | Call::SlashOnMiss => lemma_settle_effect(ledger, step),
            Call::GetVault => lemma_get_vault_effect(ledger, step),
            Call::GetCheckIn { .. } => lemma_get_check_in_effect(ledger, step),
        }
    }
}

/// What a step does to the lives of the entries, where each entry has one.
pub(crate) proof fn lemma_life(ledger: Ledger, step: Step)
    requires
        ledger.live_until.dom() == ledger.entries.dom(),
    ensures
        invoke(ledger, step).live_until.dom() == invoke(ledger, step).entries.dom(),
        forall|key: DataKey| #[trigger]
            ledger.entries.contains_key(key) ==> invoke(ledger, step).live_until[key]
                >= ledger.live_until[key],
{
    if succeeds(ledger, step) {
        match step.call {
            Call::Initialize { .. } => lemma_initialize_effect(ledger, step),
            Call::CheckIn { .. } => lemma_check_in_effect(ledger, step),
            Call::Claim | Call::SlashOnMiss => lemma_settle_effect(ledger, step),
            Call::GetVault => lemma_get_vault_effect(ledger, step),
            Call::GetCheckIn { .. } => lemma_get_check_in_effect(ledger, step),
        }
        assert(invoke(ledger, step).live_until.dom() =~= invoke(ledger, step).entries.dom());
    }
}

} // verus!
