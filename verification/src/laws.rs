//! What holds of the manager whatever it holds: the laws that the checks and
//! the reservations obey, each stated over the manager's state and proved.

use vstd::prelude::*;
use crate::appraisal::{taken, Appraisal};
use crate::checks::{
    any_not_ready, balance_of, fails_first_at, lemma_all_pass, outcome,
    outcomes_of, verdict_of, value_outcome, Check, CheckOutcome, CheckReason, Verdict,
};
use crate::ident::{Address, QueryId};
use crate::manager::{
    after_release, after_validate, context_for, reserved_of, standard_checks, validated,
    verdict_for, CheckError, State,
};
use crate::receipt::{Receipt, ReceiptWithState, Reserved};
use crate::snapshot::lookup_in;

verus! {

/// The standard checks include every check there is, so each law below that
/// asks for a check holds of a manager that runs the standard checks.
pub proof fn standard_checks_include_every_check(check: Check)
    ensures
        standard_checks().contains(check),
{
    let at: int = match check {
        Check::Value => 0,
        Check::Signature => 1,
        Check::Uniqueness => 2,
        Check::Escrow => 3,
        Check::Timestamp => 4,
    };
    assert(standard_checks()[at] == check);
}

/// A receipt passes exactly when every check that was run let it pass.
pub proof fn passes_iff_every_check_passes(outcomes: Seq<CheckOutcome>)
    ensures
        verdict_of(outcomes) is Pass <==> forall|i: int|
            0 <= i < outcomes.len() ==> (#[trigger] outcomes[i]).result is Ok,
{
    if verdict_of(outcomes) is Pass {
        assert forall|i: int| 0 <= i < outcomes.len() implies (#[trigger] outcomes[i]).result
            is Ok by {
            lemma_all_pass(outcomes, i);
        }
    }
    if forall|i: int| 0 <= i < outcomes.len() ==> (#[trigger] outcomes[i]).result is Ok {
        if exists|i: int| fails_first_at(outcomes, i) {
            let i = choose|i: int| fails_first_at(outcomes, i);
            assert(outcomes[i].result is Ok);
        }
        if any_not_ready(outcomes) {
            let i = choose|i: int|
                0 <= i < outcomes.len() && (#[trigger] outcomes[i]).result == Err::<
                    (),
                    CheckReason,
                >(CheckReason::ServiceNotReady);
            assert(outcomes[i].result is Ok);
        }
    }
}

/// A receipt that one of the manager's checks turns down is not reserved.
pub proof fn failing_check_prevents_reservation(
    s: State,
    receipt: Receipt,
    now_ns: u64,
    check: Check,
)
    requires
        s.checks.contains(check),
        outcome(check, context_for(s, receipt, now_ns), receipt) is Err,
    ensures
        !(verdict_for(s, receipt, now_ns) is Pass),
        forall|result: Result<ReceiptWithState<Reserved>, CheckError>|
            validated(s, receipt, now_ns, result) ==> result is Err,
        after_validate(s, receipt, now_ns).reserved == s.reserved,
        after_validate(s, receipt, now_ns).stored == s.stored,
{
    let outcomes = outcomes_of(s.checks, context_for(s, receipt, now_ns), receipt);
    let i = choose|i: int| 0 <= i < s.checks.len() && s.checks[i] == check;
    assert(outcomes[i].result is Err);
    passes_iff_every_check_passes(outcomes);
}

/// A receipt that every one of the manager's checks lets pass is reserved,
/// and its value is then counted against its payer.
pub proof fn passing_every_check_reserves(s: State, receipt: Receipt, now_ns: u64)
    requires
        forall|i: int|
            0 <= i < s.checks.len() ==> outcome(
                #[trigger] s.checks[i],
                context_for(s, receipt, now_ns),
                receipt,
            ) is Ok,
    ensures
        verdict_for(s, receipt, now_ns) is Pass,
        forall|result: Result<ReceiptWithState<Reserved>, CheckError>|
            validated(s, receipt, now_ns, result) ==> result is Ok,
        after_validate(s, receipt, now_ns).appraisals == s.appraisals.remove(receipt.query_id),
{
    let outcomes = outcomes_of(s.checks, context_for(s, receipt, now_ns), receipt);
    assert forall|i: int| 0 <= i < outcomes.len() implies (#[trigger] outcomes[i]).result
        is Ok by {
        assert(outcome(s.checks[i], context_for(s, receipt, now_ns), receipt) is Ok);
    }
    passes_iff_every_check_passes(outcomes);
}

/// A receipt for whose query no appraisal is held fails the value check with
/// `NoAppraisal`, and a manager that runs the value check does not reserve it.
pub proof fn missing_appraisal_is_rejected(s: State, receipt: Receipt, now_ns: u64)
    requires
        !s.appraisals.contains_key(receipt.query_id),
    ensures
        outcome(Check::Value, context_for(s, receipt, now_ns), receipt) == Err::<(), CheckReason>(
            CheckReason::NoAppraisal,
        ),
        s.checks.contains(Check::Value) ==> !(verdict_for(s, receipt, now_ns) is Pass),
        s.checks.contains(Check::Value) ==> forall|
            result: Result<ReceiptWithState<Reserved>, CheckError>,
        |
            validated(s, receipt, now_ns, result) ==> result is Err,
{
    if s.checks.contains(Check::Value) {
        failing_check_prevents_reservation(s, receipt, now_ns, Check::Value);
    }
}

/// A receipt whose value differs from the appraisal of its query, by however
/// little, fails the value check with `ValueMismatch`, and a manager that
/// runs the value check does not reserve it.
pub proof fn mismatched_value_is_rejected(s: State, receipt: Receipt, now_ns: u64)
    requires
        s.appraisals.contains_key(receipt.query_id),
        s.appraisals[receipt.query_id].value != receipt.value,
    ensures
        outcome(Check::Value, context_for(s, receipt, now_ns), receipt) == Err::<(), CheckReason>(
            CheckReason::ValueMismatch {
                value: receipt.value,
                appraised: s.appraisals[receipt.query_id].value,
            },
        ),
        s.checks.contains(Check::Value) ==> !(verdict_for(s, receipt, now_ns) is Pass),
        s.checks.contains(Check::Value) ==> forall|
            result: Result<ReceiptWithState<Reserved>, CheckError>,
        |
            validated(s, receipt, now_ns, result) ==> result is Err,
{
    if s.checks.contains(Check::Value) {
        failing_check_prevents_reservation(s, receipt, now_ns, Check::Value);
    }
}

/// A receipt whose value equals the appraisal of its query passes the value
/// check, and where every other check of the manager lets it pass too, it is
/// reserved.
pub proof fn matching_value_is_reserved(s: State, receipt: Receipt, now_ns: u64)
    requires
        s.appraisals.contains_key(receipt.query_id),
        s.appraisals[receipt.query_id].value == receipt.value,
        forall|i: int|
            0 <= i < s.checks.len() && s.checks[i] != Check::Value ==> outcome(
                #[trigger] s.checks[i],
                context_for(s, receipt, now_ns),
                receipt,
            ) is Ok,
    ensures
        outcome(Check::Value, context_for(s, receipt, now_ns), receipt) is Ok,
        verdict_for(s, receipt, now_ns) is Pass,
        forall|result: Result<ReceiptWithState<Reserved>, CheckError>|
            validated(s, receipt, now_ns, result) ==> result is Ok,
{
    passing_every_check_reserves(s, receipt, now_ns);
}

/// An appraisal is taken at most once: after a query's appraisal was taken,
/// taking it again finds nothing, and the first taking found the appraisal
/// exactly where one was held.
pub proof fn appraisal_is_taken_once(held: Map<QueryId, Appraisal>, id: QueryId)
    ensures
        taken(held, id) is Some <==> held.contains_key(id),
        taken(held.remove(id), id) is None,
        value_outcome(taken(held.remove(id), id), 0) == Err::<(), CheckReason>(
            CheckReason::NoAppraisal,
        ),
{
}

/// Validating a receipt uses up the appraisal of its query, whether the
/// receipt passes or fails: a second receipt for the same query finds none.
pub proof fn validation_uses_up_the_appraisal(
    s: State,
    first: Receipt,
    second: Receipt,
    now_ns: u64,
    then_ns: u64,
)
    requires
        first.query_id == second.query_id,
        !(verdict_for(s, first, now_ns) is NotReady),
    ensures
        !after_validate(s, first, now_ns).appraisals.contains_key(second.query_id),
        outcome(
            Check::Value,
            context_for(after_validate(s, first, now_ns), second, then_ns),
            second,
        ) == Err::<(), CheckReason>(CheckReason::NoAppraisal),
{
}

/// Of two receipts of one payer that are validated one after the other, and
/// whose values together with what is already reserved exceed the payer's
/// balance, at most one is reserved.
pub proof fn overspending_receipts_are_not_both_reserved(
    s: State,
    first: Receipt,
    second: Receipt,
    now_ns: u64,
    then_ns: u64,
)
    requires
        s.checks.contains(Check::Escrow),
        first.payer == second.payer,
        reserved_of(s.reserved, first.payer) + first.value + second.value > balance_of(
            lookup_in(s.escrow, first.payer),
        ),
    ensures
        !(verdict_for(s, first, now_ns) is Pass && verdict_for(
            after_validate(s, first, now_ns),
            second,
            then_ns,
        ) is Pass),
{
    let s1 = after_validate(s, first, now_ns);
    if verdict_for(s, first, now_ns) is Pass {
        let outcomes = outcomes_of(s.checks, context_for(s, first, now_ns), first);
        let i = choose|i: int| 0 <= i < s.checks.len() && s.checks[i] == Check::Escrow;
        passes_iff_every_check_passes(outcomes);
        assert(outcomes[i].result is Ok);
        assert(s1.checks == s.checks);
        assert(outcome(Check::Escrow, context_for(s1, second, then_ns), second) is Err);
        failing_check_prevents_reservation(s1, second, then_ns, Check::Escrow);
    }
}

/// Of two receipts of one payer that pass every check but the escrow check,
/// the first is reserved exactly if the balance covers it, and the second
/// exactly if the balance covers it beside what the first one took. So where
/// the balance covers each alone but not both, exactly one is reserved, and
/// where it covers neither, none is.
pub proof fn escrow_decides_between_two_receipts(
    s: State,
    first: Receipt,
    second: Receipt,
    now_ns: u64,
    then_ns: u64,
)
    requires
        s.escrow is Some,
        first.payer == second.payer,
        forall|i: int|
            0 <= i < s.checks.len() && s.checks[i] != Check::Escrow ==> outcome(
                #[trigger] s.checks[i],
                context_for(s, first, now_ns),
                first,
            ) is Ok,
        forall|i: int|
            0 <= i < s.checks.len() && s.checks[i] != Check::Escrow ==> outcome(
                #[trigger] s.checks[i],
                context_for(after_validate(s, first, now_ns), second, then_ns),
                second,
            ) is Ok,
        s.checks.contains(Check::Escrow),
    ensures
        ({
            let held = reserved_of(s.reserved, first.payer);
            let balance = balance_of(lookup_in(s.escrow, first.payer));
            let first_fits = held + first.value <= balance;
            let first_passes = verdict_for(s, first, now_ns) is Pass;
            let second_passes = verdict_for(after_validate(s, first, now_ns), second, then_ns)
                is Pass;
            &&& first_passes == first_fits
            &&& first_fits ==> second_passes == (held + first.value + second.value <= balance)
            &&& !first_fits ==> second_passes == (held + second.value <= balance)
        }),
{
    let held = reserved_of(s.reserved, first.payer);
    let balance = balance_of(lookup_in(s.escrow, first.payer));
    let s1 = after_validate(s, first, now_ns);
    if held + first.value <= balance {
        passing_every_check_reserves(s, first, now_ns);
    } else {
        failing_check_prevents_reservation(s, first, now_ns, Check::Escrow);
    }
    assert(s1.checks == s.checks);
    assert(s1.escrow == s.escrow);
    let held1 = reserved_of(s1.reserved, second.payer);
    if held1 + second.value <= balance {
        passing_every_check_reserves(s1, second, then_ns);
    } else {
        failing_check_prevents_reservation(s1, second, then_ns, Check::Escrow);
    }
}

/// A receipt whose payer and nonce are those of a stored receipt is not
/// reserved again. This rests on the stored receipts alone: it holds
/// whatever is reserved, and so also after a new escrow snapshot has done
/// away with the reservations.
pub proof fn stored_receipt_is_not_reserved_again(
    s: State,
    replay: Receipt,
    now_ns: u64,
    escrow: Option<Map<Address, u128>>,
    escrow_generation: u64,
    reserved: Map<Address, u128>,
)
    requires
        s.checks.contains(Check::Uniqueness),
        s.stored.contains_key(replay.spec_key()),
    ensures
        outcome(Check::Uniqueness, context_for(s, replay, now_ns), replay) == Err::<
            (),
            CheckReason,
        >(CheckReason::Replayed),
        !(verdict_for(s, replay, now_ns) is Pass),
        !(verdict_for(State { escrow, escrow_generation, reserved, ..s }, replay, now_ns) is Pass),
{
    failing_check_prevents_reservation(s, replay, now_ns, Check::Uniqueness);
    failing_check_prevents_reservation(
        State { escrow, escrow_generation, reserved, ..s },
        replay,
        now_ns,
        Check::Uniqueness,
    );
}

/// Giving up a reservation undoes it: after a receipt was reserved and its
/// reservation released, as much is reserved against every payer as before,
/// and nothing more is stored.
pub proof fn release_undoes_the_reservation(s: State, receipt: Receipt, now_ns: u64)
    requires
        verdict_for(s, receipt, now_ns) is Pass,
        reserved_of(s.reserved, receipt.payer) + receipt.value <= u128::MAX,
    ensures
        forall|payer: Address|
            reserved_of(
                after_release(
                    after_validate(s, receipt, now_ns),
                    receipt,
                    s.escrow_generation,
                ).reserved,
                payer,
            ) == reserved_of(s.reserved, payer),
        after_release(after_validate(s, receipt, now_ns), receipt, s.escrow_generation).stored
            == s.stored,
{
}

/// A reservation that was made before the latest escrow snapshot is not
/// counted any more, so releasing it changes nothing.
pub proof fn release_after_a_new_snapshot_changes_nothing(
    s: State,
    receipt: Receipt,
    escrow_generation: u64,
)
    requires
        escrow_generation != s.escrow_generation,
    ensures
        after_release(s, receipt, escrow_generation) == s,
{
}

/// Whether `check` reads a table of `s` that has no snapshot yet.
pub open spec fn reads_unready_table(s: State, check: Check) -> bool {
    match check {
        Check::Signature => s.allocations is None || s.signers is None,
        Check::Escrow => s.escrow is None,
        _ => false,
    }
}

/// While a table that one of the manager's checks reads has never had a
/// snapshot, every receipt is answered with `ServiceNotReady`, whatever else
/// is wrong with it, and the manager is left as it was.
pub proof fn unready_table_gives_not_ready(s: State, receipt: Receipt, now_ns: u64, check: Check)
    requires
        s.checks.contains(check),
        reads_unready_table(s, check),
    ensures
        outcome(check, context_for(s, receipt, now_ns), receipt) == Err::<(), CheckReason>(
            CheckReason::ServiceNotReady,
        ),
        verdict_for(s, receipt, now_ns) == Verdict::NotReady,
        after_validate(s, receipt, now_ns) == s,
        forall|result: Result<ReceiptWithState<Reserved>, CheckError>|
            validated(s, receipt, now_ns, result) ==> result matches Err(
                CheckError::ServiceNotReady,
            ),
{
    let outcomes = outcomes_of(s.checks, context_for(s, receipt, now_ns), receipt);
    let i = choose|i: int| 0 <= i < s.checks.len() && s.checks[i] == check;
    assert(outcomes[i].result == Err::<(), CheckReason>(CheckReason::ServiceNotReady));
}

/// Where every table that the manager's checks read has a snapshot, no
/// receipt is answered with `ServiceNotReady`.
pub proof fn ready_tables_give_a_decision(s: State, receipt: Receipt, now_ns: u64)
    requires
        forall|i: int| 0 <= i < s.checks.len() ==> !reads_unready_table(s, #[trigger] s.checks[i]),
    ensures
        !(verdict_for(s, receipt, now_ns) is NotReady),
{
    let outcomes = outcomes_of(s.checks, context_for(s, receipt, now_ns), receipt);
    if any_not_ready(outcomes) {
        let i = choose|i: int|
            0 <= i < outcomes.len() && (#[trigger] outcomes[i]).result == Err::<(), CheckReason>(
                CheckReason::ServiceNotReady,
            );
        assert(!reads_unready_table(s, s.checks[i]));
    }
}

} // verus!
