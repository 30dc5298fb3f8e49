//! What holds of the vault over all invocations.
use vstd::prelude::*;

use crate::contract::{get_check_in_reply, get_vault_reply, with_one_more};
use crate::effects::{
    lemma_check_in_effect, lemma_get_check_in_effect, lemma_get_vault_effect,
    lemma_initialize_effect, lemma_life, lemma_settle_effect, lemma_step, opened, settled,
    settlement_notice, settlement_payment, settles,
};
use crate::ledger::{earlier, invoke, opens_none, run, succeeds, Call, Ledger, Payment, Step};
use crate::sdk::short_symbol;
use crate::ttl::{ttl_until, LEDGERS_PER_SECOND, MIN_TTL_LEDGERS};
use crate::types::{Action, CheckIn, DataKey, Vault, VaultError, VaultStatus};

verus! {

// Refusal.

/// An invocation that is refused asks the host for nothing but a signature,
/// and leaves the ledger as it was.
pub proof fn law_refused_calls_leave_no_trace(ledger: Ledger, step: Step)
    requires
        !step.accepted(ledger),
    ensures
        forall|i: int|
            0 <= i < step.actions(ledger).len() ==> #[trigger] step.actions(
                ledger,
            )[i] is RequireAuth,
        invoke(ledger, step) == ledger,
{
}

/// Before anything else, `initialize` demands the signature of the creator and
/// `check_in` that of the verifier, also where the call is then refused. No
/// other call demands one.
pub proof fn law_who_signs(ledger: Ledger, step: Step)
    ensures
        step.call is Initialize ==> step.actions(ledger).len() > 0 && step.actions(ledger)[0]
            == Action::RequireAuth(step.call->creator),
        step.call is CheckIn ==> step.actions(ledger).len() > 0 && step.actions(ledger)[0]
            == Action::RequireAuth(step.call->verifier),
        forall|i: int|
            0 <= i < step.actions(ledger).len() && #[trigger] step.actions(
                ledger,
            )[i] is RequireAuth ==> i == 0 && (step.call is Initialize || step.call is CheckIn),
{
}

/// Opening a vault takes the signature of its creator, checking in that of the
/// verifier, and any other call none.
pub proof fn law_signatures_demanded(ledger: Ledger, step: Step)
    ensures
        ({
            let after = invoke(ledger, step);
            if !succeeds(ledger, step) {
                after.signatures == ledger.signatures
            } else if step.call is Initialize {
                after.signatures == ledger.signatures.push(step.call->creator)
            } else if step.call is CheckIn {
                after.signatures == ledger.signatures.push(step.call->verifier)
            } else {
                after.signatures == ledger.signatures
            }
        }),
{
    if succeeds(ledger, step) {
        match step.call {
            Call::Initialize { .. } => lemma_initialize_effect(ledger, step),
            Call::CheckIn { .. } => lemma_check_in_effect(ledger, step),
            Call::Claim | Call::SlashOnMiss => lemma_settle_effect(ledger, step),
            Call::GetVault => lemma_get_vault_effect(ledger, step),
            Call::GetCheckIn { .. } => lemma_get_check_in_effect(ledger, step),
        }
    }
}

// What a read gives back.

/// `initialize` is accepted on every ledger. `get_vault` then answers the
/// vault as it was opened, in place of any that was there, and every check-in
/// is as it was.
pub proof fn law_read_after_initialize(ledger: Ledger, step: Step, index: u32)
    requires
        step.call is Initialize,
        step.host.serves,
    ensures
        succeeds(ledger, step),
        get_vault_reply(invoke(ledger, step).vault()) == Ok::<Vault, VaultError>(
            opened(step.call),
        ),
        invoke(ledger, step).vault() matches Some(vault) && {
            &&& vault.creator == step.call->creator
            &&& vault.success_destination == step.call->success_destination
            &&& vault.failure_destination == step.call->failure_destination
            &&& vault.token == step.call->token
            &&& vault.amount == step.call->amount
            &&& vault.end_timestamp == step.call->end_timestamp
            &&& vault.milestone_count == step.call->milestone_count
            &&& vault.verified_count == 0
            &&& vault.status == VaultStatus::Active
        },
        invoke(ledger, step).check_in(index) == ledger.check_in(index),
{
    lemma_step(ledger, step);
}

/// After a check-in was taken, `get_check_in` answers it, with the time at
/// which it was taken, and every other check-in is as it was. The vault counts
/// one milestone more and is otherwise as it was.
pub proof fn law_read_after_check_in(ledger: Ledger, step: Step, other: u32)
    requires
        step.call is CheckIn,
        succeeds(ledger, step),
    ensures
        ({
            let after = invoke(ledger, step);
            let index = step.call->CheckIn_milestone_index;
            &&& get_check_in_reply(after.vault(), after.check_in(index)) == Ok::<
                CheckIn,
                VaultError,
            >(CheckIn { milestone_index: index, verified: true, verified_at: step.host.now })
            &&& other != index ==> after.check_in(other) == ledger.check_in(other)
            &&& ledger.vault() is Some
            &&& after.vault() == Some(with_one_more(ledger.vault()->0))
            &&& after.vault()->0.verified_count == ledger.vault()->0.verified_count + 1
            &&& after.vault()->0 == Vault {
                verified_count: after.vault()->0.verified_count,
                ..ledger.vault()->0
            }
        }),
{
    lemma_step(ledger, step);
}

/// On every ledger that has a vault, `get_vault` is accepted and answers that
/// vault, settled or not. Where there is none it is refused.
pub proof fn law_get_vault_answers_the_vault(ledger: Ledger, step: Step)
    requires
        step.call is GetVault,
    ensures
        step.accepted(ledger) <==> ledger.vault() is Some,
        ledger.vault() matches Some(vault) ==> get_vault_reply(ledger.vault()) == Ok::<
            Vault,
            VaultError,
        >(vault),
{
}

/// On every ledger that has a vault, settled or not, and a check-in of the
/// milestone, `get_check_in` is accepted and answers that check-in. Where one
/// of them is missing it is refused.
pub proof fn law_get_check_in_answers_the_check_in(ledger: Ledger, step: Step)
    requires
        step.call is GetCheckIn,
    ensures
        ({
            let index = step.call->GetCheckIn_milestone_index;
            &&& step.accepted(ledger) <==> ledger.vault() is Some && ledger.check_in(
                index,
            ) is Some
            &&& ledger.vault() is Some ==> (ledger.check_in(index) matches Some(check_in)
                ==> get_check_in_reply(ledger.vault(), ledger.check_in(index)) == Ok::<
                CheckIn,
                VaultError,
            >(check_in))
        }),
{
}

/// A vault is never lost.
proof fn lemma_vault_stays(ledger: Ledger, steps: Seq<Step>)
    requires
        ledger.vault() is Some,
    ensures
        run(ledger, steps).vault() is Some,
    decreases steps.len(),
{
    if steps.len() > 0 {
        lemma_vault_stays(ledger, steps.drop_last());
        lemma_step(run(ledger, steps.drop_last()), steps.last());
    }
}

/// A check-in that was taken is read back as verified, at the time at which it
/// was taken, after any later sequence of calls: settlements and new vaults
/// too.
pub proof fn law_check_in_is_read_back(ledger: Ledger, step: Step, steps: Seq<Step>)
    requires
        step.call is CheckIn,
        succeeds(ledger, step),
    ensures
        ({
            let after = run(invoke(ledger, step), steps);
            let index = step.call->CheckIn_milestone_index;
            get_check_in_reply(after.vault(), after.check_in(index)) == Ok::<
                CheckIn,
                VaultError,
            >(CheckIn { milestone_index: index, verified: true, verified_at: step.host.now })
        }),
{
    lemma_step(ledger, step);
    law_check_ins_stay(invoke(ledger, step), steps, step.call->CheckIn_milestone_index);
    lemma_vault_stays(invoke(ledger, step), steps);
}

/// After a settlement, and until another vault is opened, `get_vault` answers
/// the vault as completed if it was claimed and as slashed if it was slashed,
/// with nothing else changed.
pub proof fn law_read_after_settlement(ledger: Ledger, step: Step, steps: Seq<Step>)
    requires
        settles(step.call),
        succeeds(ledger, step),
        opens_none(steps),
    ensures
        ({
            let reply = get_vault_reply(run(invoke(ledger, step), steps).vault());
            &&& ledger.vault() matches Some(vault)
            &&& step.call is Claim ==> reply == Ok::<Vault, VaultError>(
                Vault { status: VaultStatus::Completed, ..vault },
            )
            &&& step.call is SlashOnMiss ==> reply == Ok::<Vault, VaultError>(
                Vault { status: VaultStatus::Slashed, ..vault },
            )
        }),
{
    lemma_step(ledger, step);
    law_settled_is_final(invoke(ledger, step), steps, step);
}

/// A read changes nothing that is stored, pays nothing and publishes nothing.
pub proof fn law_reads_only_read(ledger: Ledger, step: Step)
    requires
        step.call is GetVault || step.call is GetCheckIn,
    ensures
        ({
            let after = invoke(ledger, step);
            &&& after.entries == ledger.entries
            &&& after.signatures == ledger.signatures
            &&& after.payments == ledger.payments
            &&& after.events == ledger.events
        }),
{
    if succeeds(ledger, step) {
        if step.call is GetVault {
            lemma_get_vault_effect(ledger, step);
        } else {
            lemma_get_check_in_effect(ledger, step);
        }
    }
}

// Check-ins.

/// A check-in is never changed and never lost, whatever is called afterwards.
pub proof fn law_check_ins_stay(ledger: Ledger, steps: Seq<Step>, index: u32)
    requires
        ledger.checked_in(index),
    ensures
        run(ledger, steps).checked_in(index),
        run(ledger, steps).check_in(index) == ledger.check_in(index),
    decreases steps.len(),
{
    if steps.len() > 0 {
        law_check_ins_stay(ledger, steps.drop_last(), index);
        lemma_step(run(ledger, steps.drop_last()), steps.last());
    }
}

/// A milestone is checked in at most once: after a check-in was taken, no
/// later one for the same milestone is accepted.
pub proof fn law_one_check_in_per_milestone(
    ledger: Ledger,
    first: Step,
    steps: Seq<Step>,
    second: Step,
)
    requires
        first.call is CheckIn,
        second.call is CheckIn,
        first.call->CheckIn_milestone_index == second.call->CheckIn_milestone_index,
        succeeds(ledger, first),
    ensures
        !second.accepted(run(invoke(ledger, first), steps)),
{
    lemma_step(ledger, first);
    law_check_ins_stay(invoke(ledger, first), steps, first.call->CheckIn_milestone_index);
}

// The count.

/// The milestones below `bound` that have a check-in.
pub open spec fn checked_below(ledger: Ledger, bound: u32) -> Set<u32> {
    Set::new(|index: u32| index < bound && ledger.checked_in(index))
}

/// Storage holds values of the kind that its keys ask for, each with its life;
/// every check-in is a verified one of its own milestone; and the vault counts
/// no milestone that has no check-in.
pub open spec fn sound(ledger: Ledger) -> bool {
    &&& ledger.entries.contains_key(DataKey::Vault) ==> ledger.vault() is Some
    &&& ledger.live_until.dom() == ledger.entries.dom()
    &&& forall|index: u32| #[trigger]
        ledger.checked_in(index) ==> {
            &&& ledger.check_in(index) matches Some(check_in)
            &&& check_in.milestone_index == index
            &&& check_in.verified
        }
    &&& ledger.vault() matches Some(vault) ==> vault.verified_count <= checked_below(
        ledger,
        vault.milestone_count,
    ).len()
}

/// A set of numbers below a bound has at most as many members as the bound
/// says, and all of them if it has that many.
proof fn lemma_bounded_set(set: Set<u32>, bound: nat)
    requires
        forall|index: u32| set.contains(index) ==> index < bound,
        bound <= u32::MAX,
    ensures
        set.finite(),
        set.len() <= bound,
        set.len() == bound ==> forall|index: u32| index < bound ==> set.contains(index),
    decreases bound,
{
    if bound == 0 {
        assert(set =~= Set::empty());
    } else {
        let top = (bound - 1) as u32;
        lemma_bounded_set(set.remove(top), (bound - 1) as nat);
        assert(set.remove(top).insert(top) =~= set.insert(top));
        if set.contains(top) {
            assert(set.insert(top) =~= set);
            assert forall|index: u32| set.len() == bound && index < bound implies set.contains(
                index,
            ) by {
                if index != top {
                    assert(set.remove(top).contains(index));
                }
            }
        } else {
            assert(set.remove(top) =~= set);
        }
    }
}

/// Every invocation keeps a ledger sound.
pub proof fn law_sound_step(ledger: Ledger, step: Step)
    requires
        sound(ledger),
    ensures
        sound(invoke(ledger, step)),
{
    let after = invoke(ledger, step);
    lemma_step(ledger, step);
    lemma_life(ledger, step);
    assert forall|index: u32| #[trigger] after.checked_in(index) implies {
        &&& after.check_in(index) matches Some(check_in)
        &&& check_in.milestone_index == index
        &&& check_in.verified
    } by {
        if ledger.checked_in(index) {
            assert(ledger.check_in(index) is Some);
        }
    }
    if after.vault() is Some {
        let bound = after.vault()->0.milestone_count;
        let before = checked_below(ledger, bound);
        if step.call is CheckIn && succeeds(ledger, step) {
            let index = step.call->CheckIn_milestone_index;
            lemma_bounded_set(before, bound as nat);
            assert(checked_below(after, bound) =~= before.insert(index));
        } else {
            assert(checked_below(after, bound) =~= before);
        }
    }
}

/// Whatever was called since the contract was deployed, its ledger is sound.
pub proof fn law_sound_always(steps: Seq<Step>)
    ensures
        sound(run(Ledger::empty(), steps)),
    decreases steps.len(),
{
    if steps.len() > 0 {
        law_sound_always(steps.drop_last());
        law_sound_step(run(Ledger::empty(), steps.drop_last()), steps.last());
    }
}

/// No more milestones are counted than the vault has.
pub proof fn law_count_within_milestones(steps: Seq<Step>)
    ensures
        run(Ledger::empty(), steps).vault() matches Some(vault) ==> vault.verified_count
            <= vault.milestone_count,
{
    let ledger = run(Ledger::empty(), steps);
    law_sound_always(steps);
    if ledger.vault() is Some {
        let bound = ledger.vault()->0.milestone_count;
        lemma_bounded_set(checked_below(ledger, bound), bound as nat);
    }
}

/// A check-in on an active vault is taken if and only if the vault has the
/// milestone and the milestone has no check-in. The count never overflows.
pub proof fn law_check_in_when_open(steps: Seq<Step>, step: Step)
    requires
        step.call is CheckIn,
        run(Ledger::empty(), steps).is_active(),
    ensures
        ({
            let ledger = run(Ledger::empty(), steps);
            let index = step.call->CheckIn_milestone_index;
            step.accepted(ledger) <==> index < ledger.vault()->0.milestone_count
                && !ledger.checked_in(index)
        }),
{
    let ledger = run(Ledger::empty(), steps);
    let index = step.call->CheckIn_milestone_index;
    let bound = ledger.vault()->0.milestone_count;
    let checked = checked_below(ledger, bound);
    law_sound_always(steps);
    lemma_bounded_set(checked, bound as nat);
    assert(checked.contains(index) ==> ledger.checked_in(index));
}

/// The vault is claimed only when every milestone has a verified check-in, and
/// the summary then counts all of them.
pub proof fn law_claim_needs_every_milestone(steps: Seq<Step>, step: Step, index: u32)
    requires
        step.call is Claim,
        succeeds(run(Ledger::empty(), steps), step),
    ensures
        ({
            let ledger = run(Ledger::empty(), steps);
            let after = invoke(ledger, step);
            &&& ledger.vault() matches Some(vault)
            &&& index < vault.milestone_count ==> {
                &&& ledger.check_in(index) matches Some(check_in)
                &&& check_in.verified
            }
            &&& after.events.last().data.verified_count == vault.milestone_count
        }),
{
    let ledger = run(Ledger::empty(), steps);
    law_sound_always(steps);
    let vault = ledger.vault()->0;
    lemma_bounded_set(
        checked_below(ledger, vault.milestone_count),
        vault.milestone_count as nat,
    );
    if index < vault.milestone_count {
        assert(checked_below(ledger, vault.milestone_count).contains(index));
        assert(ledger.checked_in(index));
    }
    lemma_step(ledger, step);
}

/// The vault was opened once: its count is the number of check-ins, all of
/// which are for milestones that it has.
pub open spec fn counted(ledger: Ledger) -> bool {
    &&& sound(ledger)
    &&& match ledger.vault() {
        None => forall|index: u32| !#[trigger] ledger.checked_in(index),
        Some(vault) => {
            &&& forall|index: u32| #[trigger]
                ledger.checked_in(index) ==> index < vault.milestone_count
            &&& vault.verified_count == checked_below(ledger, vault.milestone_count).len()
        },
    }
}

/// The count stays exact under every invocation that does not open a vault in
/// place of another.
pub proof fn law_counted_step(ledger: Ledger, step: Step)
    requires
        counted(ledger),
        step.call is Initialize ==> ledger.vault() is None,
    ensures
        counted(invoke(ledger, step)),
{
    let after = invoke(ledger, step);
    law_sound_step(ledger, step);
    lemma_step(ledger, step);
    if after.vault() is Some {
        let bound = after.vault()->0.milestone_count;
        let before = checked_below(ledger, bound);
        assert forall|index: u32| #[trigger] after.checked_in(index) implies index < bound by {
            assert(ledger.checked_in(index) || index == step.call->CheckIn_milestone_index);
        }
        if step.call is CheckIn && succeeds(ledger, step) {
            let index = step.call->CheckIn_milestone_index;
            lemma_bounded_set(before, bound as nat);
            assert(checked_below(after, bound) =~= before.insert(index));
        } else {
            assert(checked_below(after, bound) =~= before);
            if step.call is Initialize && succeeds(ledger, step) {
                assert(before =~= Set::empty());
            }
        }
    }
}

/// A contract that has just been deployed counts exactly.
pub proof fn law_counted_at_first()
    ensures
        counted(Ledger::empty()),
{
}

/// The count is exact from the first opening of a vault until another is
/// opened, whatever is called.
pub proof fn law_counted_always(opening: Step, steps: Seq<Step>)
    requires
        opening.call is Initialize,
        opens_none(steps),
    ensures
        counted(run(invoke(Ledger::empty(), opening), steps)),
    decreases steps.len(),
{
    if steps.len() == 0 {
        law_counted_at_first();
        law_counted_step(Ledger::empty(), opening);
    } else {
        lemma_opens_none_split(steps);
        law_counted_always(opening, steps.drop_last());
        law_counted_step(
            run(invoke(Ledger::empty(), opening), steps.drop_last()),
            steps.last(),
        );
    }
}

/// Where the count is exact, an active vault can be claimed as soon as every
/// milestone has a check-in, and no earlier.
pub proof fn law_claim_when_all_are_in(ledger: Ledger, step: Step)
    requires
        counted(ledger),
        ledger.is_active(),
        step.call is Claim,
    ensures
        step.accepted(ledger) <==> forall|index: u32|
            index < ledger.vault()->0.milestone_count ==> #[trigger] ledger.checked_in(index),
{
    let vault = ledger.vault()->0;
    let bound = vault.milestone_count;
    let checked = checked_below(ledger, bound);
    lemma_bounded_set(checked, bound as nat);
    if forall|index: u32| index < bound ==> #[trigger] ledger.checked_in(index) {
        lemma_full_set(checked, bound as nat);
    }
    if vault.verified_count >= bound {
        assert forall|index: u32| index < bound implies #[trigger] ledger.checked_in(index) by {
            assert(checked.contains(index));
        }
    }
}

/// A set of all numbers below a bound has as many members as the bound says.
proof fn lemma_full_set(set: Set<u32>, bound: nat)
    requires
        forall|index: u32| set.contains(index) <==> index < bound,
        bound <= u32::MAX,
    ensures
        set.finite(),
        set.len() == bound,
    decreases bound,
{
    if bound == 0 {
        assert(set =~= Set::empty());
    } else {
        let top = (bound - 1) as u32;
        lemma_full_set(set.remove(top), (bound - 1) as nat);
        assert(set.remove(top).insert(top) =~= set);
    }
}

/// Where no step opens a vault, the steps before the last do not, nor does the
/// last.
proof fn lemma_opens_none_split(steps: Seq<Step>)
    requires
        opens_none(steps),
        steps.len() > 0,
    ensures
        opens_none(steps.drop_last()),
        !(steps.last().call is Initialize),
{
    assert forall|i: int| 0 <= i < steps.len() - 1 implies !(
    #[trigger] steps.drop_last()[i].call is Initialize) by {
        assert(steps.drop_last()[i] == steps[i]);
    }
}

// The terms.

/// Whether two vaults have the same parties, token, amount, deadline and
/// milestones.
pub open spec fn same_terms(a: Vault, b: Vault) -> bool {
    a == Vault { verified_count: a.verified_count, status: a.status, ..b }
}

/// The terms of a vault never change and its count never falls, until another
/// vault is opened.
pub proof fn law_terms_are_fixed(ledger: Ledger, steps: Seq<Step>)
    requires
        ledger.vault() is Some,
        opens_none(steps),
    ensures
        run(ledger, steps).vault() matches Some(after) && same_terms(ledger.vault()->0, after)
            && ledger.vault()->0.verified_count <= after.verified_count,
    decreases steps.len(),
{
    if steps.len() > 0 {
        let before = steps.drop_last();
        lemma_opens_none_split(steps);
        law_terms_are_fixed(ledger, before);
        lemma_step(run(ledger, before), steps.last());
    }
}

// Settlement.

/// A settlement pays the whole amount of the vault's token, on `claim` to
/// `success_destination` and on `slash_on_miss` to `failure_destination`,
/// closes the vault, and publishes one summary under the topic `settle`. The
/// summary has the amount as released or as slashed, and zero as the other.
pub proof fn law_settlement(ledger: Ledger, step: Step)
    requires
        settles(step.call),
        succeeds(ledger, step),
    ensures
        ({
            let after = invoke(ledger, step);
            let summary = after.events.last().data;
            &&& ledger.vault() matches Some(vault)
            &&& vault.status == VaultStatus::Active
            &&& after.payments == ledger.payments.push(settlement_payment(vault, step.call))
            &&& after.events == ledger.events.push(settlement_notice(vault, step.call))
            &&& after.vault() == Some(settled(vault, step.call))
            &&& after.is_settled()
            &&& summary.released_amount + summary.slashed_amount == vault.amount
            &&& summary.verified_count == vault.verified_count
            &&& after.live_until == ledger.live_until
            &&& after.payments.last().token == vault.token
            &&& after.payments.last().amount == vault.amount
            &&& after.events.last().topic == short_symbol("settle"@)
            &&& step.call is Claim ==> {
                &&& after.payments.last().to == vault.success_destination
                &&& after.vault() == Some(Vault { status: VaultStatus::Completed, ..vault })
                &&& summary.released_amount == vault.amount
                &&& summary.slashed_amount == 0
                &&& summary.final_status == short_symbol("completed"@)
            }
            &&& step.call is SlashOnMiss ==> {
                &&& after.payments.last().to == vault.failure_destination
                &&& after.vault() == Some(Vault { status: VaultStatus::Slashed, ..vault })
                &&& summary.released_amount == 0
                &&& summary.slashed_amount == vault.amount
                &&& summary.final_status == short_symbol("slashed"@)
            }
        }),
{
    lemma_settle_effect(ledger, step);
}

/// Nothing but a settlement pays or publishes.
pub proof fn law_only_settlements_pay(ledger: Ledger, step: Step)
    requires
        !settles(step.call),
    ensures
        invoke(ledger, step).payments == ledger.payments,
        invoke(ledger, step).events == ledger.events,
{
    lemma_step(ledger, step);
}

/// A settled vault is final: no sequence of calls changes anything, until
/// another vault is opened. In particular no entry is kept alive any longer,
/// and neither `claim` nor `slash_on_miss` nor `check_in` is accepted.
pub proof fn law_settled_is_final(ledger: Ledger, steps: Seq<Step>, step: Step)
    requires
        ledger.is_settled(),
        opens_none(steps),
    ensures
        run(ledger, steps) == ledger,
        settles(step.call) || step.call is CheckIn ==> !step.accepted(ledger),
    decreases steps.len(),
{
    if steps.len() > 0 {
        let before = steps.drop_last();
        lemma_opens_none_split(steps);
        law_settled_is_final(ledger, before, step);
        let last = steps.last();
        if succeeds(ledger, last) {
            if last.call is GetVault {
                lemma_get_vault_effect(ledger, last);
            } else {
                lemma_get_check_in_effect(ledger, last);
            }
        }
    }
}

/// An active vault is settled at most once: as long as no other vault is
/// opened, any sequence of calls makes no payment and publishes no summary
/// while the vault is active, and exactly one of each once it is settled. The
/// payment is the whole amount, to `success_destination` if the vault is
/// completed and to `failure_destination` if it is slashed.
pub proof fn law_settled_at_most_once(ledger: Ledger, steps: Seq<Step>)
    requires
        ledger.is_active(),
        opens_none(steps),
    ensures
        ({
            let after = run(ledger, steps);
            let vault = ledger.vault()->0;
            let call = if after.vault()->0.status == VaultStatus::Completed {
                Call::Claim
            } else {
                Call::SlashOnMiss
            };
            &&& after.vault() is Some
            &&& after.is_active() ==> after.payments == ledger.payments && after.events
                == ledger.events
            &&& after.is_settled() ==> {
                &&& after.payments == ledger.payments.push(settlement_payment(vault, call))
                &&& after.events == ledger.events.push(settlement_notice(after.vault()->0, call))
            }
        }),
    decreases steps.len(),
{
    if steps.len() > 0 {
        let before = steps.drop_last();
        let last = steps.last();
        lemma_opens_none_split(steps);
        law_settled_at_most_once(ledger, before);
        law_terms_are_fixed(ledger, before);
        lemma_step(run(ledger, before), last);
        if run(ledger, before).is_settled() {
            let one = seq![last];
            law_settled_is_final(run(ledger, before), one, last);
            assert(one.drop_last() =~= Seq::empty());
            assert(run(run(ledger, before), Seq::empty()) == run(ledger, before));
            assert(run(run(ledger, before), one) == invoke(run(ledger, before), last));
        }
    }
}

/// What `initialize` was told is what happens. Until another vault is opened,
/// whatever is called, the vault has the terms of that call. Nothing is paid
/// while it is active. Once it is settled, one payment was made: the amount of
/// the call, in the token of the call, to the success destination of the call
/// if the vault is completed and to the failure destination if it is slashed.
pub proof fn law_opening_is_kept_to(ledger: Ledger, opening: Step, steps: Seq<Step>)
    requires
        opening.call is Initialize,
        opening.host.serves,
        opens_none(steps),
    ensures
        ({
            let after = run(invoke(ledger, opening), steps);
            let call = opening.call;
            &&& after.vault() matches Some(vault)
            &&& vault.creator == call->creator
            &&& vault.success_destination == call->success_destination
            &&& vault.failure_destination == call->failure_destination
            &&& vault.token == call->token
            &&& vault.amount == call->amount
            &&& vault.end_timestamp == call->end_timestamp
            &&& vault.milestone_count == call->milestone_count
            &&& vault.status == VaultStatus::Active ==> after.payments == ledger.payments
            &&& vault.status == VaultStatus::Completed ==> after.payments
                == ledger.payments.push(
                Payment {
                    token: call->token,
                    to: call->success_destination,
                    amount: call->amount,
                },
            )
            &&& vault.status == VaultStatus::Slashed ==> after.payments == ledger.payments.push(
                Payment {
                    token: call->token,
                    to: call->failure_destination,
                    amount: call->amount,
                },
            )
        }),
{
    let opened = invoke(ledger, opening);
    lemma_step(ledger, opening);
    law_terms_are_fixed(opened, steps);
    law_settled_at_most_once(opened, steps);
}

/// A vault is not slashed before the deadline that `initialize` was given,
/// whatever was called in between. From that deadline on it is, where it is
/// still active and fewer milestones were counted than `initialize` was given.
pub proof fn law_slash_waits_for_the_given_deadline(
    ledger: Ledger,
    opening: Step,
    steps: Seq<Step>,
    slash: Step,
)
    requires
        opening.call is Initialize,
        opening.host.serves,
        opens_none(steps),
        slash.call is SlashOnMiss,
    ensures
        ({
            let after = run(invoke(ledger, opening), steps);
            slash.accepted(after) <==> {
                &&& slash.host.now >= opening.call->end_timestamp
                &&& after.is_active()
                &&& after.vault()->0.verified_count < opening.call->milestone_count
            }
        }),
{
    law_opening_is_kept_to(ledger, opening, steps);
}

/// An active vault can be slashed if and only if its deadline has come without
/// full verification.
pub proof fn law_slash_needs_a_miss(ledger: Ledger, step: Step)
    requires
        ledger.is_active(),
        step.call is SlashOnMiss,
    ensures
        step.accepted(ledger) <==> {
            &&& step.host.now >= ledger.vault()->0.end_timestamp
            &&& ledger.vault()->0.verified_count < ledger.vault()->0.milestone_count
        },
{
}

/// The funds of an active vault are never stuck, and never open to both sides:
/// from the deadline on, exactly one of `claim` and `slash_on_miss` is
/// accepted.
pub proof fn law_deadline_frees_the_funds(ledger: Ledger, claim: Step, slash: Step)
    requires
        ledger.is_active(),
        claim.call is Claim,
        slash.call is SlashOnMiss,
        slash.host.now >= ledger.vault()->0.end_timestamp,
    ensures
        claim.accepted(ledger) <==> !slash.accepted(ledger),
{
}

/// Where the count is exact, a vault that is slashed has a milestone with no
/// check-in.
pub proof fn law_slash_leaves_a_milestone_open(ledger: Ledger, step: Step)
    requires
        counted(ledger),
        step.call is SlashOnMiss,
        step.accepted(ledger),
    ensures
        exists|index: u32|
            index < ledger.vault()->0.milestone_count && !#[trigger] ledger.checked_in(index),
{
    let bound = ledger.vault()->0.milestone_count;
    if forall|index: u32| index < bound ==> #[trigger] ledger.checked_in(index) {
        lemma_full_set(checked_below(ledger, bound), bound as nat);
    }
}

/// A vault whose milestones are all verified is never slashed: as long as no
/// other vault is opened, it stays active or is completed, whatever is called
/// and whenever.
pub proof fn law_fully_verified_is_never_slashed(ledger: Ledger, steps: Seq<Step>)
    requires
        ledger.is_active(),
        ledger.vault()->0.verified_count >= ledger.vault()->0.milestone_count,
        opens_none(steps),
    ensures
        run(ledger, steps).vault() matches Some(vault) && vault.status != VaultStatus::Slashed,
    decreases steps.len(),
{
    if steps.len() > 0 {
        let before = steps.drop_last();
        lemma_opens_none_split(steps);
        law_fully_verified_is_never_slashed(ledger, before);
        law_terms_are_fixed(ledger, before);
        lemma_step(run(ledger, before), steps.last());
    }
}

/// Until its deadline a vault cannot miss: as long as no other vault is opened
/// and every call comes before `end_timestamp`, an active vault stays active
/// or is completed.
pub proof fn law_no_slash_before_the_deadline(ledger: Ledger, steps: Seq<Step>)
    requires
        ledger.is_active(),
        opens_none(steps),
        forall|i: int|
            0 <= i < steps.len() ==> (#[trigger] steps[i]).host.now
                < ledger.vault()->0.end_timestamp,
    ensures
        run(ledger, steps).vault() matches Some(vault) && vault.status != VaultStatus::Slashed,
    decreases steps.len(),
{
    if steps.len() > 0 {
        let before = steps.drop_last();
        lemma_opens_none_split(steps);
        assert forall|i: int| 0 <= i < before.len() implies (#[trigger] before[i]).host.now
            < ledger.vault()->0.end_timestamp by {
            assert(before[i] == steps[i]);
        }
        law_no_slash_before_the_deadline(ledger, before);
        law_terms_are_fixed(ledger, before);
        lemma_step(run(ledger, before), steps.last());
    }
}

// Time to live.

/// The TTL that an active vault asks for is at least the minimum. It reaches to
/// the ledger of the deadline if any TTL does, and is the longest one if none
/// does.
pub proof fn law_ttl_reaches_the_deadline(now: u64, end_timestamp: u64)
    ensures
        MIN_TTL_LEDGERS <= ttl_until(now, end_timestamp) <= u32::MAX,
        if (u32::MAX + 1) * LEDGERS_PER_SECOND > end_timestamp - now {
            (ttl_until(now, end_timestamp) + 1) * LEDGERS_PER_SECOND > end_timestamp - now
        } else {
            ttl_until(now, end_timestamp) == u32::MAX
        },
{
}

/// A later deadline never gets a shorter TTL.
pub proof fn law_ttl_grows_with_the_deadline(now: u64, sooner: u64, later: u64)
    requires
        sooner <= later,
    ensures
        ttl_until(now, sooner) <= ttl_until(now, later),
{
}

/// After a call that opens, checks in on, or reads an active vault, every entry
/// that was written or read lives at least to the TTL of the vault, or as far
/// as the host allows. The vault is one of them.
pub proof fn law_active_entries_are_kept_alive(ledger: Ledger, step: Step)
    requires
        succeeds(ledger, step),
        !settles(step.call),
        !(step.call is Initialize) ==> ledger.is_active(),
    ensures
        ({
            let after = invoke(ledger, step);
            let host = step.host;
            let vault = after.vault()->0;
            let until = earlier(
                host.sequence + ttl_until(host.now, vault.end_timestamp),
                host.max_until,
            );
            &&& after.vault() is Some
            &&& after.live_until[DataKey::Vault] >= until
            &&& step.call matches Call::CheckIn { milestone_index, .. } ==> after.live_until[
                DataKey::CheckIn(milestone_index)
            ] >= until
            &&& step.call matches Call::GetCheckIn { milestone_index } ==> after.live_until[
                DataKey::CheckIn(milestone_index)
            ] >= until
        }),
{
    lemma_step(ledger, step);
    match step.call {
        Call::Initialize { .. } => lemma_initialize_effect(ledger, step),
        Call::CheckIn { .. } => lemma_check_in_effect(ledger, step),
        Call::GetVault => lemma_get_vault_effect(ledger, step),
        _ => lemma_get_check_in_effect(ledger, step),
    }
}

/// Whether a call on an active vault writes or reads the entry under `key`.
pub open spec fn touches(call: Call, key: DataKey) -> bool {
    match call {
        Call::Initialize { .. } | Call::GetVault => key == DataKey::Vault,
        Call::CheckIn { milestone_index, .. } | Call::GetCheckIn { milestone_index } => key
            == DataKey::Vault || key == DataKey::CheckIn(milestone_index),
        Call::Claim | Call::SlashOnMiss => false,
    }
}

/// A call extends no life but those of the entries that it writes or reads, and
/// those no further than to the TTL of the vault. A settlement, and a read of a
/// settled vault, extend none.
pub proof fn law_no_life_is_longer_than_needed(ledger: Ledger, step: Step, key: DataKey)
    requires
        succeeds(ledger, step),
        ledger.entries.contains_key(key),
        invoke(ledger, step).live_until[key] != ledger.live_until[key],
    ensures
        ({
            let after = invoke(ledger, step);
            let host = step.host;
            let vault = after.vault()->0;
            &&& touches(step.call, key)
            &&& after.is_active()
            &&& after.live_until[key] == earlier(
                host.sequence + ttl_until(host.now, vault.end_timestamp),
                host.max_until,
            )
        }),
{
    lemma_step(ledger, step);
    match step.call {
        Call::Initialize { .. } => lemma_initialize_effect(ledger, step),
        Call::CheckIn { .. } => lemma_check_in_effect(ledger, step),
        Call::Claim | Call::SlashOnMiss => lemma_settle_effect(ledger, step),
        Call::GetVault => lemma_get_vault_effect(ledger, step),
        Call::GetCheckIn { .. } => lemma_get_check_in_effect(ledger, step),
    }
}

/// No call takes an entry away or shortens its life.
pub proof fn law_life_never_shrinks(ledger: Ledger, step: Step, key: DataKey)
    requires
        sound(ledger),
        ledger.entries.contains_key(key),
    ensures
        invoke(ledger, step).entries.contains_key(key),
        invoke(ledger, step).live_until[key] >= ledger.live_until[key],
{
    lemma_step(ledger, step);
    lemma_life(ledger, step);
}

} // verus!
