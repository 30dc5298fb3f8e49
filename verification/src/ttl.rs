//! How long the stored entries of an active vault are kept alive.
use vstd::prelude::*;

use crate::types::{Action, DataKey, Vault, VaultStatus};

verus! {

/// Ledgers-per-second approximation on Stellar (5 s/ledger).
pub const LEDGERS_PER_SECOND: u64 = 5;

/// Minimum TTL extension in ledgers (about one day).
pub const MIN_TTL_LEDGERS: u32 = 17_280;

/// The number of whole ledgers between `now` and a later `end_timestamp`.
pub open spec fn ledgers_between(now: u64, end_timestamp: u64) -> int {
    (end_timestamp - now) / (LEDGERS_PER_SECOND as int)
}

/// The TTL for an entry that is to live until `end_timestamp`: the ledgers
/// that are left, but at least `MIN_TTL_LEDGERS`, and at most what a TTL can
/// be.
pub open spec fn ttl_until(now: u64, end_timestamp: u64) -> int {
    if end_timestamp <= now || ledgers_between(now, end_timestamp) < MIN_TTL_LEDGERS {
        MIN_TTL_LEDGERS as int
    } else if ledgers_between(now, end_timestamp) > u32::MAX {
        u32::MAX as int
    } else {
        ledgers_between(now, end_timestamp)
    }
}

/// Compute the number of ledgers from `now` until `end_timestamp`, clamped to
/// at least `MIN_TTL_LEDGERS`. Where that many ledgers are no `u32`, the
/// result is the largest one.
pub fn ttl_ledgers_until(now: u64, end_timestamp: u64) -> (ttl: u32)
    ensures
        ttl == ttl_until(now, end_timestamp),
{
    if end_timestamp <= now {
        return MIN_TTL_LEDGERS;
    }
    let seconds_remaining: u64 = end_timestamp - now;
    let ledgers: u64 = seconds_remaining / LEDGERS_PER_SECOND;
    if ledgers < MIN_TTL_LEDGERS as u64 {
        MIN_TTL_LEDGERS
    } else if ledgers > u32::MAX as u64 {
        u32::MAX
    } else {
        ledgers as u32
    }
}

/// The extension of the entry under `key` that an invocation on `vault` asks
/// for: to its deadline while it is active, none once it is settled.
pub open spec fn bump(vault: Vault, key: DataKey, now: u64) -> Seq<Action> {
    if vault.status == VaultStatus::Active {
        let ttl = ttl_until(now, vault.end_timestamp) as u32;
        seq![Action::ExtendTtl { key, threshold: ttl, extend_to: ttl }]
    } else {
        Seq::empty()
    }
}

/// Bump the TTL for the `Vault` entry if the vault is still active.
pub fn bump_vault_ttl(actions: &mut Vec<Action>, vault: &Vault, now: u64)
    ensures
        final(actions)@ == old(actions)@ + bump(*vault, DataKey::Vault, now),
{
    if vault.status != VaultStatus::Active {
        return;
    }
    let ttl: u32 = ttl_ledgers_until(now, vault.end_timestamp);
    actions.push(Action::ExtendTtl { key: DataKey::Vault, threshold: ttl, extend_to: ttl });
}

/// Bump the TTL for a `CheckIn` entry if the vault is still active.
pub fn bump_checkin_ttl(actions: &mut Vec<Action>, vault: &Vault, index: u32, now: u64)
    ensures
        final(actions)@ == old(actions)@ + bump(*vault, DataKey::CheckIn(index), now),
{
    if vault.status != VaultStatus::Active {
        return;
    }
    let ttl: u32 = ttl_ledgers_until(now, vault.end_timestamp);
    actions.push(
        Action::ExtendTtl { key: DataKey::CheckIn(index), threshold: ttl, extend_to: ttl },
    );
}

} // verus!
