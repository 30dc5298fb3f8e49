//! A time-locked accountability vault for Stellar.
//!
//! A vault holds a token amount until it is settled, once: the amount goes to
//! `success_destination` on `claim`, which needs every milestone verified, or
//! to `failure_destination` on `slash_on_miss`, which needs the deadline to
//! have come without that.
//!
//! The library decides; it performs nothing. Each entry point of
//! [`AccountabilityVault`] is handed what the contract's storage holds and the
//! time of the current ledger, and answers with an [`Outcome`]: the host
//! actions to perform, in order, and the reply to the caller. A host carries
//! out the actions and aborts the invocation when the reply is an error, which
//! takes back everything that the invocation has done.
//!
//! [`answers`] proves what each entry point answers and asks of the host.
//! [`ledger`] says what such invocations do to a ledger, and [`laws`] proves
//! what holds of every sequence of them.
pub mod answers;
pub mod contract;
pub mod effects;
pub mod laws;
pub mod ledger;
pub mod sdk;
pub mod settlement;
pub mod ttl;
pub mod types;

pub use contract::AccountabilityVault;
pub use settlement::emit_settlement_summary;
pub use ttl::{bump_checkin_ttl, bump_vault_ttl, ttl_ledgers_until};
pub use ttl::{LEDGERS_PER_SECOND, MIN_TTL_LEDGERS};
pub use types::{
    Action, CheckIn, DataKey, Outcome, SettlementSummary, Vault, VaultError, VaultStatus,
};
