//! The checks that every receipt is put through.
//!
//! A check reads the context that the manager built for the receipt and the
//! receipt itself, and either lets the receipt pass or gives the reason why
//! not. Checks change nothing, so the order in which they run decides only
//! which reason is reported when several fail.

use vstd::prelude::*;
use crate::appraisal::{taken, Appraisal, AppraisalStore};
use crate::ident::{Address, Key, QueryId};
use crate::receipt::Receipt;
use crate::signature::signer_bytes;
use crate::snapshot::{Allocation, Lookup};

verus! {

/// The checks there are.
#[derive(Clone, Copy, Debug, PartialEq, Eq)]
pub enum Check {
    /// The value claimed is the value appraised for the query.
    Value,
    /// The receipt is signed by the signer of an allocation that is open.
    Signature,
    /// No receipt of the same payer and nonce has been stored.
    Uniqueness,
    /// The payer's escrow covers the value.
    Escrow,
    /// The receipt is neither too old nor dated too far ahead.
    Timestamp,
}

/// Why a check turned a receipt down.
#[derive(Clone, Copy, Debug, PartialEq, Eq)]
pub enum CheckReason {
    /// No appraisal is held for the receipt's query.
    NoAppraisal,
    /// The value claimed differs from the value appraised.
    ValueMismatch { value: u128, appraised: u128 },
    /// The allocation is not open, or no signer is known for it.
    UnknownAllocation,
    /// The receipt was made outside the time in which its allocation is active.
    ExpiredAllocation,
    /// The signature yields no account, or not the allocation's signer.
    InvalidSignature,
    /// A receipt of the same payer and nonce has been stored already.
    Replayed,
    /// The payer's escrow, less what is reserved against it, is below the value.
    InsufficientEscrow,
    /// The receipt is older than the acceptance window allows.
    StaleTimestamp,
    /// The receipt is dated further ahead than the acceptance window allows.
    FutureTimestamp,
    /// A table that the check reads has no snapshot yet.
    ServiceNotReady,
}

/// What a check is given besides the receipt: the time, and what the
/// manager's tables and stores hold for this receipt.
#[derive(Clone, Copy, Debug, PartialEq, Eq)]
pub struct Context {
    /// The time at which the receipt is checked.
    pub now_ns: u64,
    /// How far a receipt's time may lie from `now_ns`, either way.
    pub window_ns: u64,
    /// The value appraised for the receipt's query, if an appraisal is held.
    pub appraisal: Option<u128>,
    /// The receipt's allocation, in the allocation table.
    pub allocation: Lookup<Allocation>,
    /// The signer of the receipt's allocation, in the signer table.
    pub signer: Lookup<Address>,
    /// The payer's balance, in the escrow table.
    pub balance: Lookup<u128>,
    /// What is reserved against the payer since the escrow table's last snapshot.
    pub reserved: u128,
    /// Whether a receipt of the same payer and nonce has been stored.
    pub stored: bool,
}

/// The result of one check on one receipt.
#[derive(Clone, Copy, Debug, PartialEq, Eq)]
pub struct CheckOutcome {
    pub check: Check,
    pub result: Result<(), CheckReason>,
}

/// The value check: the appraisal must be there and equal the value claimed.
pub open spec fn value_outcome(appraisal: Option<u128>, value: u128) -> Result<(), CheckReason> {
    match appraisal {
        None => Err(CheckReason::NoAppraisal),
        Some(appraised) => if value == appraised {
            Ok(())
        } else {
            Err(CheckReason::ValueMismatch { value, appraised })
        },
    }
}

/// The signature check once the signer is recovered: both tables must have a
/// snapshot, the allocation must be open and active at the receipt's time,
/// and the account recovered must be the allocation's signer.
pub open spec fn signature_outcome_with(
    ctx: Context,
    timestamp_ns: u64,
    recovered: Option<Seq<u8>>,
) -> Result<(), CheckReason> {
    if ctx.allocation is NotReady || ctx.signer is NotReady {
        Err(CheckReason::ServiceNotReady)
    } else if ctx.allocation is Missing || ctx.signer is Missing {
        Err(CheckReason::UnknownAllocation)
    } else if timestamp_ns < ctx.allocation->Found_0.active_from_ns || timestamp_ns
        > ctx.allocation->Found_0.active_until_ns {
        Err(CheckReason::ExpiredAllocation)
    } else if recovered != Some(ctx.signer->Found_0.bytes@) {
        Err(CheckReason::InvalidSignature)
    } else {
        Ok(())
    }
}

/// The signature check: the signer is recovered from the receipt's signature
/// over its digest and held against the signer of the receipt's allocation.
pub open spec fn signature_outcome(ctx: Context, receipt: Receipt) -> Result<(), CheckReason> {
    signature_outcome_with(ctx, receipt.timestamp_ns, receipt.spec_signer())
}

/// The uniqueness check: no receipt of this payer and nonce is stored.
pub open spec fn uniqueness_outcome(ctx: Context) -> Result<(), CheckReason> {
    if ctx.stored {
        Err(CheckReason::Replayed)
    } else {
        Ok(())
    }
}

/// The balance that the escrow table gives a payer: none counts as zero.
pub open spec fn balance_of(balance: Lookup<u128>) -> u128 {
    match balance {
        Lookup::Found(amount) => amount,
        _ => 0,
    }
}

/// The escrow check: what is reserved already and the value claimed must
/// together stay within the payer's balance.
pub open spec fn escrow_outcome(ctx: Context, receipt: Receipt) -> Result<(), CheckReason> {
    if ctx.balance is NotReady {
        Err(CheckReason::ServiceNotReady)
    } else if ctx.reserved + receipt.value <= balance_of(ctx.balance) {
        Ok(())
    } else {
        Err(CheckReason::InsufficientEscrow)
    }
}

/// The timestamp check: the receipt's time lies within the window around now.
pub open spec fn timestamp_outcome(ctx: Context, receipt: Receipt) -> Result<(), CheckReason> {
    if receipt.timestamp_ns + ctx.window_ns < ctx.now_ns {
        Err(CheckReason::StaleTimestamp)
    } else if receipt.timestamp_ns > ctx.now_ns + ctx.window_ns {
        Err(CheckReason::FutureTimestamp)
    } else {
        Ok(())
    }
}

/// What `check` says of `receipt` in the context `ctx`.
pub open spec fn outcome(check: Check, ctx: Context, receipt: Receipt) -> Result<(), CheckReason> {
    match check {
        Check::Value => value_outcome(ctx.appraisal, receipt.value),
        Check::Signature => signature_outcome(ctx, receipt),
        Check::Uniqueness => uniqueness_outcome(ctx),
        Check::Escrow => escrow_outcome(ctx, receipt),
        Check::Timestamp => timestamp_outcome(ctx, receipt),
    }
}

/// The outcomes of `checks` on `receipt`, in the order of `checks`.
pub open spec fn outcomes_of(checks: Seq<Check>, ctx: Context, receipt: Receipt) -> Seq<
    CheckOutcome,
> {
    Seq::new(
        checks.len(),
        |i: int| CheckOutcome { check: checks[i], result: outcome(checks[i], ctx, receipt) },
    )
}

/// Whether the outcome at `i` is a failure and every outcome before it a pass.
pub open spec fn fails_first_at(outcomes: Seq<CheckOutcome>, i: int) -> bool {
    &&& 0 <= i < outcomes.len()
    &&& outcomes[i].result is Err
    &&& forall|j: int| 0 <= j < i ==> (#[trigger] outcomes[j]).result is Ok
}

/// The reason of the first failure among `outcomes`, `None` where all passed.
pub open spec fn first_failure(outcomes: Seq<CheckOutcome>) -> Option<CheckReason> {
    if exists|i: int| fails_first_at(outcomes, i) {
        Some(outcomes[choose|i: int| fails_first_at(outcomes, i)].result->Err_0)
    } else {
        None
    }
}

/// Whether some check found a table without a snapshot.
pub open spec fn any_not_ready(outcomes: Seq<CheckOutcome>) -> bool {
    exists|i: int|
        0 <= i < outcomes.len() && (#[trigger] outcomes[i]).result == Err::<(), CheckReason>(
            CheckReason::ServiceNotReady,
        )
}

/// What the outcomes of all checks amount to.
#[derive(Clone, Copy, Debug, PartialEq, Eq)]
pub enum Verdict {
    /// Every check passed.
    Pass,
    /// A check could not be made because a table has no snapshot yet.
    NotReady,
    /// A check turned the receipt down; the reason is that of the first such
    /// check.
    Fail(CheckReason),
}

/// The verdict on `outcomes`: not ready where any check was not, else the
/// first failure, else a pass.
pub open spec fn verdict_of(outcomes: Seq<CheckOutcome>) -> Verdict {
    if any_not_ready(outcomes) {
        Verdict::NotReady
    } else {
        match first_failure(outcomes) {
            Some(reason) => Verdict::Fail(reason),
            None => Verdict::Pass,
        }
    }
}

/// Compares the value that a receipt claims with the appraisal of its query.
pub fn check_value(appraisal: Option<u128>, value: u128) -> (result: Result<(), CheckReason>)
    ensures
        result == value_outcome(appraisal, value),
{
    match appraisal {
        None => Err(CheckReason::NoAppraisal),
        Some(appraised) => if value == appraised {
            Ok(())
        } else {
            Err(CheckReason::ValueMismatch { value, appraised })
        },
    }
}

/// What the value check says on a store in the state `held`, which is `None`
/// while the store has not been set up: the check is then not ready.
pub open spec fn stored_value_outcome(
    held: Option<Map<QueryId, Appraisal>>,
    receipt: Receipt,
) -> Result<(), CheckReason> {
    match held {
        None => Err(CheckReason::ServiceNotReady),
        Some(appraisals) => value_outcome(taken(appraisals, receipt.query_id), receipt.value),
    }
}

/// The value check together with the appraisals that it reads. The store is
/// `None` until it has been set up.
pub struct Value {
    pub query_appraisals: Option<AppraisalStore>,
}

impl Value {
    /// The appraisals that the check holds, `None` while it has no store.
    pub open spec fn held(&self) -> Option<Map<QueryId, Appraisal>> {
        match self.query_appraisals {
            Some(store) => Some(store@),
            None => None,
        }
    }

    /// The value check over the given appraisals.
    pub fn new(query_appraisals: Option<AppraisalStore>) -> (check: Self)
        ensures
            check.query_appraisals == query_appraisals,
    {
        Value { query_appraisals }
    }

    /// Takes the appraisal of the receipt's query out of the store and holds
    /// the receipt's value against it. Whatever the result, the appraisal is
    /// gone afterwards: no appraisal is read twice. While the check has no
    /// store it is not ready, and nothing changes.
    pub fn check(&mut self, receipt: &Receipt) -> (result: Result<(), CheckReason>)
        ensures
            result == stored_value_outcome(old(self).held(), *receipt),
            final(self).held() == (match old(self).held() {
                Some(appraisals) => Some(appraisals.remove(receipt.query_id)),
                None => None,
            }),
            final(self).query_appraisals matches Some(store) ==> old(self).query_appraisals
                matches Some(before) && store.ttl_ns() == before.ttl_ns() && store.clock_ns()
                == before.clock_ns(),
    {
        match &mut self.query_appraisals {
            None => Err(CheckReason::ServiceNotReady),
            Some(store) => {
                let appraisal = store.take(&receipt.query_id);
                check_value(appraisal, receipt.value)
            },
        }
    }
}

/// Decides the signature check for a receipt made at `timestamp_ns` from
/// whose signature `recovered` was recovered.
pub fn signature_verdict(ctx: &Context, timestamp_ns: u64, recovered: Option<Address>) -> (result:
    Result<(), CheckReason>)
    ensures
        result == signature_outcome_with(*ctx, timestamp_ns, signer_bytes(recovered)),
{
    match (ctx.allocation, ctx.signer) {
        (Lookup::NotReady, _) | (_, Lookup::NotReady) => Err(CheckReason::ServiceNotReady),
        (Lookup::Missing, _) | (_, Lookup::Missing) => Err(CheckReason::UnknownAllocation),
        (Lookup::Found(allocation), Lookup::Found(expected)) => {
            if timestamp_ns < allocation.active_from_ns || timestamp_ns
                > allocation.active_until_ns {
                Err(CheckReason::ExpiredAllocation)
            } else {
                match recovered {
                    Some(signer) => {
                        assert(signer.bytes@ == expected.bytes@ ==> signer == expected) by {
                            if signer.bytes@ == expected.bytes@ {
                                assert(signer.bytes =~= expected.bytes);
                            }
                        }
                        if signer.same(&expected) {
                            Ok(())
                        } else {
                            Err(CheckReason::InvalidSignature)
                        }
                    },
                    None => Err(CheckReason::InvalidSignature),
                }
            }
        },
    }
}

/// Recovers the receipt's signer and checks it and the receipt's allocation.
pub fn check_signature(ctx: &Context, receipt: &Receipt) -> (result: Result<(), CheckReason>)
    ensures
        result == signature_outcome(*ctx, *receipt),
{
    signature_verdict(ctx, receipt.timestamp_ns, receipt.signer())
}

/// Checks that the receipt is not a replay of a stored one.
pub fn check_uniqueness(ctx: &Context) -> (result: Result<(), CheckReason>)
    ensures
        result == uniqueness_outcome(*ctx),
{
    if ctx.stored {
        Err(CheckReason::Replayed)
    } else {
        Ok(())
    }
}

/// Checks that the payer's escrow covers the receipt.
pub fn check_escrow(ctx: &Context, receipt: &Receipt) -> (result: Result<(), CheckReason>)
    ensures
        result == escrow_outcome(*ctx, *receipt),
{
    let balance: u128 = match ctx.balance {
        Lookup::NotReady => {
            return Err(CheckReason::ServiceNotReady);
        },
        Lookup::Missing => 0,
        Lookup::Found(amount) => amount,
    };
    if ctx.reserved <= balance && receipt.value <= balance - ctx.reserved {
        Ok(())
    } else {
        Err(CheckReason::InsufficientEscrow)
    }
}

/// Checks that the receipt's time lies within the acceptance window.
pub fn check_timestamp(ctx: &Context, receipt: &Receipt) -> (result: Result<(), CheckReason>)
    ensures
        result == timestamp_outcome(*ctx, *receipt),
{
    let made: u64 = receipt.timestamp_ns;
    if ctx.now_ns > made && ctx.now_ns - made > ctx.window_ns {
        Err(CheckReason::StaleTimestamp)
    } else if made > ctx.now_ns && made - ctx.now_ns > ctx.window_ns {
        Err(CheckReason::FutureTimestamp)
    } else {
        Ok(())
    }
}

impl Check {
    /// Runs this check on `receipt` in the context `ctx`.
    pub fn check(&self, ctx: &Context, receipt: &Receipt) -> (result: Result<(), CheckReason>)
        ensures
            result == outcome(*self, *ctx, *receipt),
    {
        match self {
            Check::Value => check_value(ctx.appraisal, receipt.value),
            Check::Signature => check_signature(ctx, receipt),
            Check::Uniqueness => check_uniqueness(ctx),
            Check::Escrow => check_escrow(ctx, receipt),
            Check::Timestamp => check_timestamp(ctx, receipt),
        }
    }
}

/// Runs every check of `checks` on `receipt`, whatever the earlier ones said.
pub fn run_checks(checks: &Vec<Check>, ctx: &Context, receipt: &Receipt) -> (outcomes: Vec<
    CheckOutcome,
>)
    ensures
        outcomes@ == outcomes_of(checks@, *ctx, *receipt),
{
    let mut outcomes: Vec<CheckOutcome> = Vec::new();
    let mut i: usize = 0;
    while i < checks.len()
        invariant
            i <= checks.len(),
            outcomes@.len() == i,
            forall|j: int|
                0 <= j < i ==> outcomes@[j] == outcomes_of(checks@, *ctx, *receipt)[j],
        decreases checks.len() - i,
    {
        let check = checks[i];
        let result = check.check(ctx, receipt);
        outcomes.push(CheckOutcome { check, result });
        i = i + 1;
    }
    assert(outcomes@ =~= outcomes_of(checks@, *ctx, *receipt));
    outcomes
}

/// Sums the outcomes up.
pub fn verdict(outcomes: &Vec<CheckOutcome>) -> (verdict: Verdict)
    ensures
        verdict == verdict_of(outcomes@),
{
    let mut first: Option<CheckReason> = None;
    let mut not_ready = false;
    let mut i: usize = 0;
    while i < outcomes.len()
        invariant
            i <= outcomes.len(),
            not_ready == any_not_ready(outcomes@.take(i as int)),
            first == first_failure(outcomes@.take(i as int)),
        decreases outcomes.len() - i,
    {
        let ghost done = outcomes@.take(i as int);
        let ghost next = outcomes@.take(i + 1);
        match outcomes[i].result {
            Ok(_) => {},
            Err(reason) => {
                if let CheckReason::ServiceNotReady = reason {
                    not_ready = true;
                }
                if first.is_none() {
                    first = Some(reason);
                }
            },
        }
        proof {
            lemma_any_not_ready_step(outcomes@, i as int);
            lemma_first_failure_step(outcomes@, i as int);
        }
        i = i + 1;
    }
    assert(outcomes@.take(outcomes.len() as int) =~= outcomes@);
    if not_ready {
        Verdict::NotReady
    } else {
        match first {
            Some(reason) => Verdict::Fail(reason),
            None => Verdict::Pass,
        }
    }
}

proof fn lemma_any_not_ready_step(outcomes: Seq<CheckOutcome>, i: int)
    requires
        0 <= i < outcomes.len(),
    ensures
        any_not_ready(outcomes.take(i + 1)) == (any_not_ready(outcomes.take(i))
            || outcomes[i].result == Err::<(), CheckReason>(CheckReason::ServiceNotReady)),
{
    let done = outcomes.take(i);
    let next = outcomes.take(i + 1);
    let unready = Err::<(), CheckReason>(CheckReason::ServiceNotReady);
    if any_not_ready(done) {
        let j = choose|j: int| 0 <= j < done.len() && (#[trigger] done[j]).result == unready;
        assert(next[j].result == unready);
    }
    if outcomes[i].result == unready {
        assert(next[i].result == unready);
    }
    if any_not_ready(next) {
        let j = choose|j: int| 0 <= j < next.len() && (#[trigger] next[j]).result == unready;
        if j < i {
            assert(done[j].result == unready);
        }
    }
}

/// Where the outcomes fail first at `i`, the first failure is the reason
/// given there.
pub proof fn lemma_first_failure_at(outcomes: Seq<CheckOutcome>, i: int)
    requires
        fails_first_at(outcomes, i),
    ensures
        first_failure(outcomes) == Some(outcomes[i].result->Err_0),
{
    let c = choose|c: int| fails_first_at(outcomes, c);
    if c < i {
        assert(outcomes[c].result is Ok);
    }
    if i < c {
        assert(outcomes[i].result is Ok);
    }
}

proof fn lemma_first_failure_step(outcomes: Seq<CheckOutcome>, i: int)
    requires
        0 <= i < outcomes.len(),
    ensures
        first_failure(outcomes.take(i + 1)) == (match first_failure(outcomes.take(i)) {
            Some(reason) => Some(reason),
            None => match outcomes[i].result {
                Ok(_) => None,
                Err(reason) => Some(reason),
            },
        }),
{
    let done = outcomes.take(i);
    let next = outcomes.take(i + 1);
    if exists|c: int| fails_first_at(done, c) {
        let c = choose|c: int| fails_first_at(done, c);
        assert forall|j: int| 0 <= j < c implies (#[trigger] next[j]).result is Ok by {
            assert(done[j].result is Ok);
        }
        assert(fails_first_at(next, c));
        lemma_first_failure_at(next, c);
    } else {
        assert forall|j: int| 0 <= j < i implies (#[trigger] done[j]).result is Ok by {
            lemma_all_pass(done, j);
        }
        if outcomes[i].result is Err {
            assert forall|j: int| 0 <= j < i implies (#[trigger] next[j]).result is Ok by {
                assert(done[j].result is Ok);
            }
            assert(fails_first_at(next, i));
            lemma_first_failure_at(next, i);
        } else {
            if exists|c: int| fails_first_at(next, c) {
                let c = choose|c: int| fails_first_at(next, c);
                if c < i {
                    assert(done[c].result is Ok);
                }
            }
        }
    }
}

/// Where no outcome fails first, every outcome is a pass.
pub proof fn lemma_all_pass(outcomes: Seq<CheckOutcome>, j: int)
    requires
        first_failure(outcomes) is None,
        0 <= j < outcomes.len(),
    ensures
        outcomes[j].result is Ok,
    decreases j,
{
    if outcomes[j].result is Err {
        assert forall|k: int| 0 <= k < j implies (#[trigger] outcomes[k]).result is Ok by {
            lemma_all_pass(outcomes, k);
        }
        assert(fails_first_at(outcomes, j));
    }
}


} // verus!
