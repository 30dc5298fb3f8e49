//! The data of the contract: what it stores, what it asks of the host, and
//! what it answers.
use soroban_sdk::{Address, Symbol};
use vstd::prelude::*;

verus! {

/// The keys of the contract's persistent storage.
#[derive(Clone, Copy, Debug, PartialEq, Eq, Structural)]
pub enum DataKey {
    Vault,
    /// Keyed by milestone index.
    CheckIn(u32),
}

#[derive(Clone, Copy, Debug, PartialEq, Eq, Structural)]
pub enum VaultStatus {
    Active,
    Completed,
    Slashed,
}

#[derive(Debug)]
pub struct Vault {
    pub creator: Address,
    pub success_destination: Address,
    pub failure_destination: Address,
    pub token: Address,
    pub amount: i128,
    /// The deadline, in seconds since the Unix epoch.
    pub end_timestamp: u64,
    pub verified_count: u32,
    pub milestone_count: u32,
    pub status: VaultStatus,
}

impl Clone for Vault {
    fn clone(&self) -> (copy: Self)
        ensures
            copy == *self,
    {
        Vault {
            creator: self.creator.clone(),
            success_destination: self.success_destination.clone(),
            failure_destination: self.failure_destination.clone(),
            token: self.token.clone(),
            amount: self.amount,
            end_timestamp: self.end_timestamp,
            verified_count: self.verified_count,
            milestone_count: self.milestone_count,
            status: self.status,
        }
    }
}

#[derive(Clone, Copy, Debug, PartialEq, Eq, Structural)]
pub struct CheckIn {
    pub milestone_index: u32,
    pub verified: bool,
    pub verified_at: u64,
}

/// Why an invocation is refused.
#[derive(Clone, Copy, Debug, PartialEq, Eq, Structural)]
pub enum VaultError {
    /// No vault is stored.
    NotInitialised,
    /// The vault is settled.
    NotActive,
    /// The vault has no such milestone.
    MilestoneOutOfRange,
    /// The milestone has a check-in.
    AlreadyCheckedIn,
    /// The count of the vault is at the end of its range.
    CountOverflow,
    /// Some milestone is not verified yet.
    MilestonesMissing,
    /// The deadline of the vault is still to come.
    DeadlineNotPassed,
    /// Every milestone is verified: the vault did not miss.
    NothingMissed,
    /// The milestone has no check-in.
    CheckInNotFound,
}

impl VaultError {
    /// The text with which the invocation is aborted.
    pub open spec fn text(self) -> Seq<char> {
        match self {
            VaultError::NotInitialised => "vault not initialised"@,
            VaultError::NotActive => "vault is not active"@,
            VaultError::MilestoneOutOfRange => "milestone index out of range"@,
            VaultError::AlreadyCheckedIn => "milestone already checked in"@,
            VaultError::CountOverflow => "attempt to add with overflow"@,
            VaultError::MilestonesMissing => "not all milestones verified"@,
            VaultError::DeadlineNotPassed => "vault deadline has not passed"@,
            VaultError::NothingMissed => "all milestones verified"@,
            VaultError::CheckInNotFound => "check-in not found"@,
        }
    }

    pub fn message(&self) -> (message: &'static str)
        ensures
            message@ == self.text(),
    {
        match self {
            VaultError::NotInitialised => "vault not initialised",
            VaultError::NotActive => "vault is not active",
            VaultError::MilestoneOutOfRange => "milestone index out of range",
            VaultError::AlreadyCheckedIn => "milestone already checked in",
            VaultError::CountOverflow => "attempt to add with overflow",
            VaultError::MilestonesMissing => "not all milestones verified",
            VaultError::DeadlineNotPassed => "vault deadline has not passed",
            VaultError::NothingMissed => "all milestones verified",
            VaultError::CheckInNotFound => "check-in not found",
        }
    }
}

/// The data of the event that tells how a vault was settled.
#[derive(Debug)]
pub struct SettlementSummary {
    pub released_amount: i128,
    pub slashed_amount: i128,
    pub verified_count: u32,
    pub final_status: Symbol,
}

/// What an invocation asks of the host.
#[derive(Debug)]
pub enum Action {
    /// Abort unless this address has authorised the invocation.
    RequireAuth(Address),
    /// Write the vault to persistent storage.
    StoreVault { key: DataKey, vault: Vault },
    /// Write a check-in to persistent storage.
    StoreCheckIn { key: DataKey, check_in: CheckIn },
    /// Where the entry under `key` has at most `threshold` ledgers to live,
    /// let it live for `extend_to` ledgers from now.
    ExtendTtl { key: DataKey, threshold: u32, extend_to: u32 },
    /// Move `amount` of `token` from the contract to `to`; abort if the token
    /// refuses.
    Transfer { token: Address, to: Address, amount: i128 },
    /// Publish an event under the single topic `topic`.
    Publish { topic: Symbol, data: SettlementSummary },
}

/// The answer to an invocation: the actions to perform, in order, and the
/// reply. Where the reply is an error the invocation is aborted once the
/// actions are performed.
#[derive(Debug)]
pub struct Outcome<T> {
    pub actions: Vec<Action>,
    pub reply: Result<T, VaultError>,
}

} // verus!
