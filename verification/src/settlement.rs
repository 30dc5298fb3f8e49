//! The event that tells how a vault was settled.
use soroban_sdk::Symbol;
use vstd::prelude::*;

use crate::sdk::{short_symbol, symbol_short};
use crate::types::{Action, SettlementSummary};

verus! {

/// The settlement event: topic `["settle"]`, data `summary`.
pub open spec fn settlement_event(summary: SettlementSummary) -> Action {
    Action::Publish { topic: short_symbol("settle"@), data: summary }
}

/// Emit a settlement-summary event.
///
/// Topic: `["settle"]`.
/// Data: `(released_amount, slashed_amount, verified_count, final_status)`.
pub fn emit_settlement_summary(
    actions: &mut Vec<Action>,
    released_amount: i128,
    slashed_amount: i128,
    verified_count: u32,
    final_status: Symbol,
)
    ensures
        final(actions)@ == old(actions)@.push(
            settlement_event(
                (SettlementSummary {
                    released_amount,
                    slashed_amount,
                    verified_count,
                    final_status,
                }),
            ),
        ),
{
    proof {
        reveal_strlit("settle");
    }
    let topic = symbol_short("settle");
    let data = SettlementSummary { released_amount, slashed_amount, verified_count, final_status };
    actions.push(Action::Publish { topic, data });
}

} // verus!
