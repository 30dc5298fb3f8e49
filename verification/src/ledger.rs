//! What invocations of the contract do to a ledger.
//!
//! This is the meaning of the actions in an outcome, as the laws use it. A
//! ledger is the contract's storage and the record of what it has done. An
//! invocation that is refused, or that the host does not serve, leaves the
//! ledger as it was.
use soroban_sdk::{Address, Symbol};
use vstd::prelude::*;

use crate::contract::{
    check_in_actions, check_in_reply, claim_actions, claim_reply, get_check_in_actions,
    get_check_in_reply, get_vault_actions, get_vault_reply, initialize_actions, new_vault,
    slash_actions, slash_reply,
};
use crate::types::{Action, CheckIn, DataKey, SettlementSummary, Vault, VaultStatus};

verus! {

/// A value in the contract's storage.
pub enum Entry {
    Vault(Vault),
    CheckIn(CheckIn),
}

/// A transfer out of the contract's balance.
pub struct Payment {
    pub token: Address,
    pub to: Address,
    pub amount: i128,
}

/// An event of the contract.
pub struct Event {
    pub topic: Symbol,
    pub data: SettlementSummary,
}

/// The contract's part of a ledger.
#[verifier::ext_equal]
pub struct Ledger {
    /// Persistent storage.
    pub entries: Map<DataKey, Entry>,
    /// The last ledger in which each entry is live.
    pub live_until: Map<DataKey, int>,
    /// The addresses whose authorisation was demanded, oldest first.
    pub signatures: Seq<Address>,
    /// The transfers made, oldest first.
    pub payments: Seq<Payment>,
    /// The events published, oldest first.
    pub events: Seq<Event>,
}

impl Ledger {
    /// The ledger before the first invocation.
    pub open spec fn empty() -> Ledger {
        Ledger {
            entries: Map::empty(),
            live_until: Map::empty(),
            signatures: Seq::empty(),
            payments: Seq::empty(),
            events: Seq::empty(),
        }
    }

    /// The stored vault.
    pub open spec fn vault(self) -> Option<Vault> {
        if self.entries.contains_key(DataKey::Vault) {
            match self.entries[DataKey::Vault] {
                Entry::Vault(vault) => Some(vault),
                Entry::CheckIn(_) => None,
            }
        } else {
            None
        }
    }

    /// The stored check-in of a milestone.
    pub open spec fn check_in(self, index: u32) -> Option<CheckIn> {
        if self.entries.contains_key(DataKey::CheckIn(index)) {
            match self.entries[DataKey::CheckIn(index)] {
                Entry::CheckIn(check_in) => Some(check_in),
                Entry::Vault(_) => None,
            }
        } else {
            None
        }
    }

    /// Whether a milestone has an entry.
    pub open spec fn checked_in(self, index: u32) -> bool {
        self.entries.contains_key(DataKey::CheckIn(index))
    }

    /// Whether there is a vault that is not settled.
    pub open spec fn is_active(self) -> bool {
        self.vault() matches Some(vault) && vault.status == VaultStatus::Active
    }

    /// Whether there is a vault that is settled.
    pub open spec fn is_settled(self) -> bool {
        self.vault() matches Some(vault) && vault.status != VaultStatus::Active
    }
}

/// The host in which an invocation runs.
pub struct Host {
    /// The close time of the current ledger.
    pub now: u64,
    /// The number of the current ledger.
    pub sequence: int,
    /// The last ledger in which an entry that is created now is live.
    pub fresh_until: int,
    /// The last ledger to which the life of an entry can be extended now.
    pub max_until: int,
    /// Whether every action is carried out: each authorisation demanded is
    /// given, the token makes the transfer, and the host stays in its limits.
    /// One of these is that no entry is extended past the last number that a
    /// ledger can have.
    pub serves: bool,
}

/// An invocation of the contract.
pub enum Call {
    Initialize {
        creator: Address,
        success_destination: Address,
        failure_destination: Address,
        token: Address,
        amount: i128,
        end_timestamp: u64,
        milestone_count: u32,
    },
    CheckIn { verifier: Address, milestone_index: u32 },
    Claim,
    SlashOnMiss,
    GetVault,
    GetCheckIn { milestone_index: u32 },
}

/// One invocation in its host.
pub struct Step {
    pub host: Host,
    pub call: Call,
}

impl Step {
    /// Whether the contract accepts the call on `ledger`.
    pub open spec fn accepted(self, ledger: Ledger) -> bool {
        match self.call {
            Call::Initialize { .. } => true,
            Call::CheckIn { verifier, milestone_index } => check_in_reply(
                ledger.vault(),
                ledger.checked_in(milestone_index),
                milestone_index,
            ) is Ok,
            Call::Claim => claim_reply(ledger.vault()) is Ok,
            Call::SlashOnMiss => slash_reply(ledger.vault(), self.host.now) is Ok,
            Call::GetVault => get_vault_reply(ledger.vault()) is Ok,
            Call::GetCheckIn { milestone_index } => get_check_in_reply(
                ledger.vault(),
                ledger.check_in(milestone_index),
            ) is Ok,
        }
    }

    /// The actions with which the contract answers the call on `ledger`.
    pub open spec fn actions(self, ledger: Ledger) -> Seq<Action> {
        match self.call {
            Call::Initialize {
                creator,
                success_destination,
                failure_destination,
                token,
                amount,
                end_timestamp,
                milestone_count,
            } => initialize_actions(
                new_vault(
                    creator,
                    success_destination,
                    failure_destination,
                    token,
                    amount,
                    end_timestamp,
                    milestone_count,
                ),
                self.host.now,
            ),
            Call::CheckIn { verifier, milestone_index } => check_in_actions(
                ledger.vault(),
                ledger.checked_in(milestone_index),
                verifier,
                milestone_index,
                self.host.now,
            ),
            Call::Claim => claim_actions(ledger.vault()),
            Call::SlashOnMiss => slash_actions(ledger.vault(), self.host.now),
            Call::GetVault => get_vault_actions(ledger.vault(), self.host.now),
            Call::GetCheckIn { milestone_index } => get_check_in_actions(
                ledger.vault(),
                ledger.check_in(milestone_index),
                milestone_index,
                self.host.now,
            ),
        }
    }
}

/// `ledger` with `entry` under `key`. An entry that was there before keeps its
/// life.
pub open spec fn store(ledger: Ledger, host: Host, key: DataKey, entry: Entry) -> Ledger {
    Ledger {
        entries: ledger.entries.insert(key, entry),
        live_until: if ledger.entries.contains_key(key) {
            ledger.live_until
        } else {
            ledger.live_until.insert(key, host.fresh_until)
        },
        ..ledger
    }
}

/// The lesser of two ledger numbers.
pub open spec fn earlier(a: int, b: int) -> int {
    if a <= b {
        a
    } else {
        b
    }
}

/// `ledger` with the life of the entry under `key` extended to `extend_to`
/// ledgers from now, or as far as the host allows, if it has at most
/// `threshold` ledgers left.
pub open spec fn extend(
    ledger: Ledger,
    host: Host,
    key: DataKey,
    threshold: u32,
    extend_to: u32,
) -> Ledger {
    let until = earlier(host.sequence + extend_to, host.max_until);
    if ledger.live_until[key] < until && ledger.live_until[key] - host.sequence <= threshold {
        Ledger { live_until: ledger.live_until.insert(key, until), ..ledger }
    } else {
        ledger
    }
}

/// `ledger` after `host` has performed `action`.
pub open spec fn perform(ledger: Ledger, host: Host, action: Action) -> Ledger {
    match action {
        Action::RequireAuth(address) => Ledger {
            signatures: ledger.signatures.push(address),
            ..ledger
        },
        Action::StoreVault { key, vault } => store(ledger, host, key, Entry::Vault(vault)),
        Action::StoreCheckIn { key, check_in } => store(
            ledger,
            host,
            key,
            Entry::CheckIn(check_in),
        ),
        Action::ExtendTtl { key, threshold, extend_to } => extend(
            ledger,
            host,
            key,
            threshold,
            extend_to,
        ),
        Action::Transfer { token, to, amount } => Ledger {
            payments: ledger.payments.push(Payment { token, to, amount }),
            ..ledger
        },
        Action::Publish { topic, data } => Ledger {
            events: ledger.events.push(Event { topic, data }),
            ..ledger
        },
    }
}

/// `ledger` after `host` has performed `actions` in order.
pub open spec fn perform_all(ledger: Ledger, host: Host, actions: Seq<Action>) -> Ledger
    decreases actions.len(),
{
    if actions.len() == 0 {
        ledger
    } else {
        perform(perform_all(ledger, host, actions.drop_last()), host, actions.last())
    }
}

/// Whether an invocation on `ledger` takes effect.
pub open spec fn succeeds(ledger: Ledger, step: Step) -> bool {
    step.host.serves && step.accepted(ledger)
}

/// `ledger` after one invocation.
pub open spec fn invoke(ledger: Ledger, step: Step) -> Ledger {
    if succeeds(ledger, step) {
        perform_all(ledger, step.host, step.actions(ledger))
    } else {
        ledger
    }
}

/// `ledger` after a sequence of invocations.
pub open spec fn run(ledger: Ledger, steps: Seq<Step>) -> Ledger
    decreases steps.len(),
{
    if steps.len() == 0 {
        ledger
    } else {
        invoke(run(ledger, steps.drop_last()), steps.last())
    }
}

/// Whether none of `steps` opens a vault.
pub open spec fn opens_none(steps: Seq<Step>) -> bool {
    forall|i: int| 0 <= i < steps.len() ==> !(#[trigger] steps[i].call is Initialize)
}

} // verus!
