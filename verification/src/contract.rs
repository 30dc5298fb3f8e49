//! The entry points of the contract.
//!
//! Each takes what its invocation reads: the close time of the current ledger
//! as `now`, in seconds since the Unix epoch; the entry under
//! `DataKey::Vault`; and where it needs one, what is stored under a
//! `DataKey::CheckIn`.
use soroban_sdk::Address;
use vstd::prelude::*;

use crate::sdk::{short_symbol, symbol_short};
use crate::settlement::{emit_settlement_summary, settlement_event};
use crate::ttl::{bump, bump_checkin_ttl, bump_vault_ttl};
use crate::types::{
    Action, CheckIn, DataKey, Outcome, SettlementSummary, Vault, VaultError, VaultStatus,
};

verus! {

/// The vault with no milestone verified yet.
pub open spec fn new_vault(
    creator: Address,
    success_destination: Address,
    failure_destination: Address,
    token: Address,
    amount: i128,
    end_timestamp: u64,
    milestone_count: u32,
) -> Vault {
    Vault {
        creator,
        success_destination,
        failure_destination,
        token,
        amount,
        end_timestamp,
        verified_count: 0,
        milestone_count,
        status: VaultStatus::Active,
    }
}

/// Opening `vault`: its creator signs, then it is stored and kept alive.
pub open spec fn initialize_actions(vault: Vault, now: u64) -> Seq<Action> {
    seq![
        Action::RequireAuth(vault.creator),
        Action::StoreVault { key: DataKey::Vault, vault },
    ] + bump(vault, DataKey::Vault, now)
}

/// Whether a check-in is taken, given the stored vault and whether the
/// milestone has a check-in already.
pub open spec fn check_in_reply(
    vault: Option<Vault>,
    checked_in: bool,
    milestone_index: u32,
) -> Result<(), VaultError> {
    match vault {
        None => Err(VaultError::NotInitialised),
        Some(v) => if v.status != VaultStatus::Active {
            Err(VaultError::NotActive)
        } else if milestone_index >= v.milestone_count {
            Err(VaultError::MilestoneOutOfRange)
        } else if checked_in {
            Err(VaultError::AlreadyCheckedIn)
        } else if v.verified_count == u32::MAX {
            Err(VaultError::CountOverflow)
        } else {
            Ok(())
        },
    }
}

/// The vault after one more milestone was verified.
pub open spec fn with_one_more(vault: Vault) -> Vault {
    Vault { verified_count: (vault.verified_count + 1) as u32, ..vault }
}

/// A check-in: the verifier signs, whatever comes of it. Where it is taken,
/// the check-in and the vault with its count are stored, and both kept alive.
pub open spec fn check_in_actions(
    vault: Option<Vault>,
    checked_in: bool,
    verifier: Address,
    milestone_index: u32,
    now: u64,
) -> Seq<Action> {
    let signed = seq![Action::RequireAuth(verifier)];
    if check_in_reply(vault, checked_in, milestone_index) is Ok {
        let key = DataKey::CheckIn(milestone_index);
        let check_in = CheckIn { milestone_index, verified: true, verified_at: now };
        let counted = with_one_more(vault->0);
        signed + seq![
            Action::StoreCheckIn { key, check_in },
            Action::StoreVault { key: DataKey::Vault, vault: counted },
        ] + bump(counted, DataKey::Vault, now) + bump(counted, key, now)
    } else {
        signed
    }
}

/// Whether the vault can be claimed.
pub open spec fn claim_reply(vault: Option<Vault>) -> Result<(), VaultError> {
    match vault {
        None => Err(VaultError::NotInitialised),
        Some(v) => if v.status != VaultStatus::Active {
            Err(VaultError::NotActive)
        } else if v.verified_count < v.milestone_count {
            Err(VaultError::MilestonesMissing)
        } else {
            Ok(())
        },
    }
}

/// Whether the vault can be slashed: its deadline has come without full
/// verification.
pub open spec fn slash_reply(vault: Option<Vault>, now: u64) -> Result<(), VaultError> {
    match vault {
        None => Err(VaultError::NotInitialised),
        Some(v) => if v.status != VaultStatus::Active {
            Err(VaultError::NotActive)
        } else if now < v.end_timestamp {
            Err(VaultError::DeadlineNotPassed)
        } else if v.verified_count >= v.milestone_count {
            Err(VaultError::NothingMissed)
        } else {
            Ok(())
        },
    }
}

/// A settlement: the whole amount is moved to `to`, the vault is stored with
/// its final status, and the event is published. No TTL is extended.
pub open spec fn settle_actions(
    vault: Vault,
    to: Address,
    status: VaultStatus,
    summary: SettlementSummary,
) -> Seq<Action> {
    seq![
        Action::Transfer { token: vault.token, to, amount: vault.amount },
        Action::StoreVault { key: DataKey::Vault, vault: Vault { status, ..vault } },
        settlement_event(summary),
    ]
}

/// What `claim` does: the amount is released to `success_destination`.
pub open spec fn claim_actions(vault: Option<Vault>) -> Seq<Action> {
    if claim_reply(vault) is Ok {
        let v = vault->0;
        settle_actions(
            v,
            v.success_destination,
            VaultStatus::Completed,
            SettlementSummary {
                released_amount: v.amount,
                slashed_amount: 0,
                verified_count: v.verified_count,
                final_status: short_symbol("completed"@),
            },
        )
    } else {
        Seq::empty()
    }
}

/// What `slash_on_miss` does: the amount is swept to `failure_destination`.
pub open spec fn slash_actions(vault: Option<Vault>, now: u64) -> Seq<Action> {
    if slash_reply(vault, now) is Ok {
        let v = vault->0;
        settle_actions(
            v,
            v.failure_destination,
            VaultStatus::Slashed,
            SettlementSummary {
                released_amount: 0,
                slashed_amount: v.amount,
                verified_count: v.verified_count,
                final_status: short_symbol("slashed"@),
            },
        )
    } else {
        Seq::empty()
    }
}

/// What `get_vault` answers.
pub open spec fn get_vault_reply(vault: Option<Vault>) -> Result<Vault, VaultError> {
    match vault {
        None => Err(VaultError::NotInitialised),
        Some(v) => Ok(v),
    }
}

/// Reading the vault keeps it alive while it is active.
pub open spec fn get_vault_actions(vault: Option<Vault>, now: u64) -> Seq<Action> {
    match vault {
        None => Seq::empty(),
        Some(v) => bump(v, DataKey::Vault, now),
    }
}

/// What `get_check_in` answers.
pub open spec fn get_check_in_reply(
    vault: Option<Vault>,
    check_in: Option<CheckIn>,
) -> Result<CheckIn, VaultError> {
    match (vault, check_in) {
        (None, _) => Err(VaultError::NotInitialised),
        (Some(_), None) => Err(VaultError::CheckInNotFound),
        (Some(_), Some(c)) => Ok(c),
    }
}

/// Reading a check-in keeps it and the vault alive while the vault is active.
pub open spec fn get_check_in_actions(
    vault: Option<Vault>,
    check_in: Option<CheckIn>,
    milestone_index: u32,
    now: u64,
) -> Seq<Action> {
    match (vault, check_in) {
        (Some(v), Some(_)) => bump(v, DataKey::Vault, now) + bump(
            v,
            DataKey::CheckIn(milestone_index),
            now,
        ),
        _ => Seq::empty(),
    }
}

/// The accountability vault contract.
pub struct AccountabilityVault;

impl AccountabilityVault {
    /// Initialise a new vault.
    ///
    /// Stores the `Vault` entry and bumps its TTL to survive until
    /// `end_timestamp`. A vault that is stored already is replaced.
    pub fn initialize(
        now: u64,
        creator: Address,
        success_destination: Address,
        failure_destination: Address,
        token: Address,
        amount: i128,
        end_timestamp: u64,
        milestone_count: u32,
    ) -> (outcome: Outcome<()>)
        ensures
            outcome.reply == Ok::<(), VaultError>(()),
            outcome.actions@ == initialize_actions(
                new_vault(
                    creator,
                    success_destination,
                    failure_destination,
                    token,
                    amount,
                    end_timestamp,
                    milestone_count,
                ),
                now,
            ),
    {
        let mut actions: Vec<Action> = Vec::new();
        actions.push(Action::RequireAuth(creator.clone()));
        let vault = Vault {
            creator,
            success_destination,
            failure_destination,
            token,
            amount,
            end_timestamp,
            verified_count: 0,
            milestone_count,
            status: VaultStatus::Active,
        };
        actions.push(Action::StoreVault { key: DataKey::Vault, vault: vault.clone() });
        bump_vault_ttl(&mut actions, &vault, now);
        Outcome { actions, reply: Ok(()) }
    }

    /// Record a milestone check-in, which the verifier signs.
    ///
    /// `checked_in` tells whether storage holds an entry under
    /// `DataKey::CheckIn(milestone_index)`. Bumps the TTL of both the `Vault`
    /// and the new `CheckIn` entry.
    pub fn check_in(
        now: u64,
        vault: Option<Vault>,
        checked_in: bool,
        verifier: Address,
        milestone_index: u32,
    ) -> (outcome: Outcome<()>)
        ensures
            outcome.reply == check_in_reply(vault, checked_in, milestone_index),
            outcome.actions@ == check_in_actions(
                vault,
                checked_in,
                verifier,
                milestone_index,
                now,
            ),
    {
        let mut actions: Vec<Action> = Vec::new();
        actions.push(Action::RequireAuth(verifier));

        let mut vault = match vault {
            Some(v) => v,
            None => return Outcome { actions, reply: Err(VaultError::NotInitialised) },
        };
        if vault.status != VaultStatus::Active {
            return Outcome { actions, reply: Err(VaultError::NotActive) };
        }
        if milestone_index >= vault.milestone_count {
            return Outcome { actions, reply: Err(VaultError::MilestoneOutOfRange) };
        }
        if checked_in {
            return Outcome { actions, reply: Err(VaultError::AlreadyCheckedIn) };
        }
        if vault.verified_count == u32::MAX {
            return Outcome { actions, reply: Err(VaultError::CountOverflow) };
        }

        let key = DataKey::CheckIn(milestone_index);
        let check_in = CheckIn { milestone_index, verified: true, verified_at: now };
        actions.push(Action::StoreCheckIn { key, check_in });
        vault.verified_count += 1;
        actions.push(Action::StoreVault { key: DataKey::Vault, vault: vault.clone() });

        bump_vault_ttl(&mut actions, &vault, now);
        bump_checkin_ttl(&mut actions, &vault, milestone_index, now);
        Outcome { actions, reply: Ok(()) }
    }

    /// Claim the vault: transfer funds to `success_destination`.
    ///
    /// Requires all milestones to be verified. Emits a settlement summary.
    /// A settled vault is not TTL-extended.
    pub fn claim(vault: Option<Vault>) -> (outcome: Outcome<()>)
        ensures
            outcome.reply == claim_reply(vault),
            outcome.actions@ == claim_actions(vault),
    {
        let mut actions: Vec<Action> = Vec::new();
        let mut vault = match vault {
            Some(v) => v,
            None => return Outcome { actions, reply: Err(VaultError::NotInitialised) },
        };
        if vault.status != VaultStatus::Active {
            return Outcome { actions, reply: Err(VaultError::NotActive) };
        }
        if vault.verified_count < vault.milestone_count {
            return Outcome { actions, reply: Err(VaultError::MilestonesMissing) };
        }

        actions.push(
            Action::Transfer {
                token: vault.token.clone(),
                to: vault.success_destination.clone(),
                amount: vault.amount,
            },
        );
        vault.status = VaultStatus::Completed;
        actions.push(Action::StoreVault { key: DataKey::Vault, vault: vault.clone() });

        proof {
            reveal_strlit("completed");
        }
        let status = symbol_short("completed");
        emit_settlement_summary(&mut actions, vault.amount, 0, vault.verified_count, status);
        Outcome { actions, reply: Ok(()) }
    }

    /// Slash on miss: transfer funds to `failure_destination`.
    ///
    /// Can only be called once `end_timestamp` has come without all milestones
    /// verified. Emits a settlement summary. A settled vault is not
    /// TTL-extended.
    pub fn slash_on_miss(now: u64, vault: Option<Vault>) -> (outcome: Outcome<()>)
        ensures
            outcome.reply == slash_reply(vault, now),
            outcome.actions@ == slash_actions(vault, now),
    {
        let mut actions: Vec<Action> = Vec::new();
        let mut vault = match vault {
            Some(v) => v,
            None => return Outcome { actions, reply: Err(VaultError::NotInitialised) },
        };
        if vault.status != VaultStatus::Active {
            return Outcome { actions, reply: Err(VaultError::NotActive) };
        }
        if now < vault.end_timestamp {
            return Outcome { actions, reply: Err(VaultError::DeadlineNotPassed) };
        }
        if vault.verified_count >= vault.milestone_count {
            return Outcome { actions, reply: Err(VaultError::NothingMissed) };
        }

        actions.push(
            Action::Transfer {
                token: vault.token.clone(),
                to: vault.failure_destination.clone(),
                amount: vault.amount,
            },
        );
        vault.status = VaultStatus::Slashed;
        actions.push(Action::StoreVault { key: DataKey::Vault, vault: vault.clone() });

        proof {
            reveal_strlit("slashed");
        }
        let status = symbol_short("slashed");
        emit_settlement_summary(&mut actions, 0, vault.amount, vault.verified_count, status);
        Outcome { actions, reply: Ok(()) }
    }

    /// Read the current vault state (bumps TTL if still active).
    pub fn get_vault(now: u64, vault: Option<Vault>) -> (outcome: Outcome<Vault>)
        ensures
            outcome.reply == get_vault_reply(vault),
            outcome.actions@ == get_vault_actions(vault, now),
    {
        let mut actions: Vec<Action> = Vec::new();
        let vault = match vault {
            Some(v) => v,
            None => return Outcome { actions, reply: Err(VaultError::NotInitialised) },
        };
        bump_vault_ttl(&mut actions, &vault, now);
        Outcome { actions, reply: Ok(vault) }
    }

    /// Read a check-in entry (bumps its TTL and that of the vault if the vault
    /// is still active).
    ///
    /// `check_in` is what storage holds under
    /// `DataKey::CheckIn(milestone_index)`.
    pub fn get_check_in(
        now: u64,
        vault: Option<Vault>,
        check_in: Option<CheckIn>,
        milestone_index: u32,
    ) -> (outcome: Outcome<CheckIn>)
        ensures
            outcome.reply == get_check_in_reply(vault, check_in),
            outcome.actions@ == get_check_in_actions(vault, check_in, milestone_index, now),
    {
        let mut actions: Vec<Action> = Vec::new();
        let vault = match vault {
            Some(v) => v,
            None => return Outcome { actions, reply: Err(VaultError::NotInitialised) },
        };
        let check_in = match check_in {
            Some(c) => c,
            None => return Outcome { actions, reply: Err(VaultError::CheckInNotFound) },
        };
        bump_vault_ttl(&mut actions, &vault, now);
        bump_checkin_ttl(&mut actions, &vault, milestone_index, now);
        Outcome { actions, reply: Ok(check_in) }
    }
}

} // verus!
