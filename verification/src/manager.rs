//! The manager: it owns the tables and stores, runs the checks on each
//! receipt, and keeps account of what is reserved against each payer.
//!
//! A receipt is checked by [`Manager::validate_receipt`]. One that passes is
//! handed back as reserved; the caller writes it to durable storage and
//! reports how that went to [`Manager::confirm`], or gives the reservation up
//! with [`Manager::release`].

use vstd::prelude::*;
use crate::appraisal::{
    after_put, later, put_result, taken, unexpired, Appraisal, AppraisalError, AppraisalStore,
};
use crate::checks::{outcomes_of, run_checks, verdict, verdict_of, Check, Context, Verdict};
use crate::ident::{Address, QueryId, ReceiptKey};
use crate::receipt::{Checking, Failed, Receipt, ReceiptWithState, Reserved};
use crate::snapshot::{
    contents, lookup, lookup_in, next_generation, Allocation, Allocations, EscrowAccounts,
    ReferenceTable, RefreshError, Signers,
};
use crate::table::Table;

verus! {

/// Why durable storage did not take a receipt.
#[derive(Clone, Copy, Debug, PartialEq, Eq)]
pub enum StorageError {
    /// The storage could not be reached; the write may be tried again.
    Unavailable,
}

/// Why a receipt was not reserved, or why a reserved one is not stored yet.
#[derive(Debug)]
pub enum CheckError {
    /// A check turned the receipt down. This is final for the receipt.
    Failed(ReceiptWithState<Failed>),
    /// A table that a check reads has no snapshot yet. Nothing was decided
    /// about the receipt; it may be sent again shortly.
    ServiceNotReady,
    /// Durable storage failed. The receipt stays valid and reserved; only the
    /// write is to be tried again.
    Storage(StorageError),
}

impl CheckError {
    /// Whether the same receipt may meet with success when it is brought
    /// again: not after a check turned it down, but after a table was not
    /// ready or storage failed.
    pub fn is_retryable(&self) -> (retryable: bool)
        ensures
            retryable == !(self is Failed),
    {
        match self {
            CheckError::Failed(_) => false,
            CheckError::ServiceNotReady => true,
            CheckError::Storage(_) => true,
        }
    }
}

/// A reserved receipt that durable storage did not take, with the error to
/// report. The receipt is handed back so that the write can be tried again.
#[derive(Debug)]
pub struct Unstored {
    pub error: CheckError,
    pub receipt: ReceiptWithState<Reserved>,
}

/// What a manager holds.
pub struct State {
    /// The checks that are run, in their order.
    pub checks: Seq<Check>,
    /// The acceptance window of the timestamp check.
    pub window_ns: u64,
    /// The appraisals that wait for their receipts.
    pub appraisals: Map<QueryId, Appraisal>,
    /// How long an appraisal waits, and the appraisal store's clock.
    pub appraisal_ttl_ns: u64,
    pub appraisal_clock_ns: u64,
    /// The latest snapshot of each table, `None` before the first.
    pub allocations: Option<Map<Address, Allocation>>,
    pub signers: Option<Map<Address, Address>>,
    pub escrow: Option<Map<Address, u128>>,
    /// How many escrow snapshots have been published.
    pub escrow_generation: u64,
    /// What is reserved against each payer since the latest escrow snapshot.
    pub reserved: Map<Address, u128>,
    /// The receipts that are stored durably, by payer and nonce.
    pub stored: Map<ReceiptKey, Receipt>,
}

/// What is reserved against `payer`.
pub open spec fn reserved_of(reserved: Map<Address, u128>, payer: Address) -> u128 {
    if reserved.contains_key(payer) {
        reserved[payer]
    } else {
        0
    }
}

/// The sum of what is reserved and a further value, held at the greatest
/// amount that can be kept.
pub open spec fn reserve_sum(reserved: u128, value: u128) -> u128 {
    if reserved + value > u128::MAX {
        u128::MAX
    } else {
        (reserved + value) as u128
    }
}

/// What is left of a reservation when a value is given up.
pub open spec fn release_rest(reserved: u128, value: u128) -> u128 {
    if reserved < value {
        0
    } else {
        (reserved - value) as u128
    }
}

/// The context in which `receipt` is checked at `now_ns`.
pub open spec fn context_for(s: State, receipt: Receipt, now_ns: u64) -> Context {
    Context {
        now_ns,
        window_ns: s.window_ns,
        appraisal: taken(s.appraisals, receipt.query_id),
        allocation: lookup_in(s.allocations, receipt.allocation),
        signer: lookup_in(s.signers, receipt.allocation),
        balance: lookup_in(s.escrow, receipt.payer),
        reserved: reserved_of(s.reserved, receipt.payer),
        stored: s.stored.contains_key(receipt.spec_key()),
    }
}

/// What the manager holds after the appraisal of a query was brought: the
/// appraisal is kept unless the query already had one.
pub open spec fn after_appraisal(s: State, query_id: QueryId, value: u128) -> State {
    State {
        appraisals: after_put(s.appraisals, query_id, value, s.appraisal_clock_ns),
        ..s
    }
}

/// The verdict of the checks of `s` on `receipt` in the context `ctx`.
pub open spec fn verdict_in(s: State, ctx: Context, receipt: Receipt) -> Verdict {
    verdict_of(outcomes_of(s.checks, ctx, receipt))
}

/// What the manager holds after `receipt` was processed in the context
/// `ctx`. Where a table was not ready nothing changes. Otherwise the
/// appraisal of the receipt's query is used up, and where the receipt passed,
/// its value is added to what is reserved against its payer.
pub open spec fn after_process(s: State, ctx: Context, receipt: Receipt) -> State {
    match verdict_in(s, ctx, receipt) {
        Verdict::NotReady => s,
        Verdict::Fail(_) => State { appraisals: s.appraisals.remove(receipt.query_id), ..s },
        Verdict::Pass => State {
            appraisals: s.appraisals.remove(receipt.query_id),
            reserved: s.reserved.insert(
                receipt.payer,
                reserve_sum(reserved_of(s.reserved, receipt.payer), receipt.value),
            ),
            ..s
        },
    }
}

/// Whether `result` is what processing `receipt` in the context `ctx`
/// returns: the receipt as reserved where every check passed,
/// `ServiceNotReady` where a check found a table without a snapshot, and else
/// the receipt as failed for the reason of the first check that turned it
/// down. Either way the receipt carries the outcome of every check.
pub open spec fn processed(
    s: State,
    ctx: Context,
    receipt: Receipt,
    result: Result<ReceiptWithState<Reserved>, CheckError>,
) -> bool {
    let outcomes = outcomes_of(s.checks, ctx, receipt);
    match verdict_in(s, ctx, receipt) {
        Verdict::Pass => {
            &&& result matches Ok(reserved)
            &&& reserved.spec_receipt() == receipt
            &&& reserved.spec_outcomes() == outcomes
            &&& reserved.spec_state() == (Reserved { escrow_generation: s.escrow_generation })
        },
        Verdict::NotReady => result matches Err(CheckError::ServiceNotReady),
        Verdict::Fail(reason) => {
            &&& result matches Err(CheckError::Failed(failed))
            &&& failed.spec_receipt() == receipt
            &&& failed.spec_outcomes() == outcomes
            &&& failed.spec_state() == (Failed { reason })
        },
    }
}

/// The verdict on `receipt` at `now_ns`, in the context that the manager
/// builds for it.
pub open spec fn verdict_for(s: State, receipt: Receipt, now_ns: u64) -> Verdict {
    verdict_in(s, context_for(s, receipt, now_ns), receipt)
}

/// What the manager holds after `receipt` was validated at `now_ns`.
pub open spec fn after_validate(s: State, receipt: Receipt, now_ns: u64) -> State {
    after_process(s, context_for(s, receipt, now_ns), receipt)
}

/// Whether `result` is what validating `receipt` at `now_ns` returns.
pub open spec fn validated(
    s: State,
    receipt: Receipt,
    now_ns: u64,
    result: Result<ReceiptWithState<Reserved>, CheckError>,
) -> bool {
    processed(s, context_for(s, receipt, now_ns), receipt, result)
}

/// What the manager holds after the reservation of `receipt`, made when
/// `escrow_generation` snapshots were published, was given up. A reservation
/// made against an earlier snapshot is no longer counted, so nothing changes.
pub open spec fn after_release(s: State, receipt: Receipt, escrow_generation: u64) -> State {
    if escrow_generation == s.escrow_generation && s.reserved.contains_key(receipt.payer) {
        State {
            reserved: s.reserved.insert(
                receipt.payer,
                release_rest(s.reserved[receipt.payer], receipt.value),
            ),
            ..s
        }
    } else {
        s
    }
}

/// The checks that a manager runs unless it is told otherwise, in their order.
pub open spec fn standard_checks() -> Seq<Check> {
    seq![Check::Value, Check::Signature, Check::Uniqueness, Check::Escrow, Check::Timestamp]
}

/// Validates receipts and keeps account of reservations.
pub struct Manager {
    checks: Vec<Check>,
    window_ns: u64,
    appraisals: AppraisalStore,
    allocations: ReferenceTable<Allocations>,
    signers: ReferenceTable<Signers>,
    escrow: ReferenceTable<EscrowAccounts>,
    reserved: Table<Address, u128>,
    stored: Table<ReceiptKey, Receipt>,
}

impl View for Manager {
    type V = State;

    closed spec fn view(&self) -> State {
        State {
            checks: self.checks@,
            window_ns: self.window_ns,
            appraisals: self.appraisals@,
            appraisal_ttl_ns: self.appraisals.ttl_ns(),
            appraisal_clock_ns: self.appraisals.clock_ns(),
            allocations: contents(self.allocations),
            signers: contents(self.signers),
            escrow: contents(self.escrow),
            escrow_generation: self.escrow.published(),
            reserved: self.reserved@,
            stored: self.stored@,
        }
    }
}

impl Manager {
    /// The five checks in their standard order.
    pub fn all_checks() -> (checks: Vec<Check>)
        ensures
            checks@ == standard_checks(),
    {
        let mut checks: Vec<Check> = Vec::new();
        checks.push(Check::Value);
        checks.push(Check::Signature);
        checks.push(Check::Uniqueness);
        checks.push(Check::Escrow);
        checks.push(Check::Timestamp);
        assert(checks@ =~= standard_checks());
        checks
    }

    /// A manager that runs `checks` in the order given. It starts with no
    /// appraisal, no snapshot of any table, no reservation and no stored
    /// receipt.
    pub fn new(checks: Vec<Check>, window_ns: u64, appraisal_ttl_ns: u64) -> (manager: Self)
        ensures
            manager@ == (State {
                checks: checks@,
                window_ns,
                appraisals: Map::empty(),
                appraisal_ttl_ns,
                appraisal_clock_ns: 0,
                allocations: None,
                signers: None,
                escrow: None,
                escrow_generation: 0,
                reserved: Map::empty(),
                stored: Map::empty(),
            }),
    {
        Manager {
            checks,
            window_ns,
            appraisals: AppraisalStore::new(appraisal_ttl_ns),
            allocations: ReferenceTable::new(),
            signers: ReferenceTable::new(),
            escrow: ReferenceTable::new(),
            reserved: Table::new(),
            stored: Table::new(),
        }
    }

    /// Stores the fee appraised for a query before the query is answered. A
    /// query is appraised once: a second appraisal is refused and the first
    /// one stays.
    pub fn appraise_and_store(&mut self, query_id: QueryId, value: u128) -> (done: Result<
        (),
        AppraisalError,
    >)
        ensures
            done == put_result(old(self)@.appraisals, query_id),
            final(self)@ == after_appraisal(old(self)@, query_id, value),
    {
        self.appraisals.put(query_id, value)
    }

    /// Moves the appraisal store's clock on to `now_ns`, unless it is already
    /// later, and drops the appraisals for which no receipt came in time.
    pub fn expire_appraisals(&mut self, now_ns: u64)
        ensures
            final(self)@ == (State {
                appraisals: unexpired(old(self)@.appraisals, old(self)@.appraisal_ttl_ns, now_ns),
                appraisal_clock_ns: later(old(self)@.appraisal_clock_ns, now_ns),
                ..old(self)@
            }),
    {
        self.appraisals.expire(now_ns);
    }

    /// Takes the outcome of a refresh of the allocations: a new snapshot
    /// replaces the old one, a failure leaves the old one in place.
    pub fn refresh_allocations(&mut self, polled: Result<Allocations, RefreshError>)
        ensures
            polled matches Ok(snapshot) ==> final(self)@ == (State {
                allocations: Some(snapshot@),
                ..old(self)@
            }),
            polled is Err ==> final(self)@ == old(self)@,
    {
        self.allocations.refresh(polled);
    }

    /// Takes the outcome of a refresh of the signers: a new snapshot replaces
    /// the old one, a failure leaves the old one in place.
    pub fn refresh_signers(&mut self, polled: Result<Signers, RefreshError>)
        ensures
            polled matches Ok(snapshot) ==> final(self)@ == (State {
                signers: Some(snapshot@),
                ..old(self)@
            }),
            polled is Err ==> final(self)@ == old(self)@,
    {
        self.signers.refresh(polled);
    }

    /// Takes the outcome of a refresh of the escrow balances. A new snapshot
    /// replaces the old one, and since it accounts for all that was spent
    /// before, the reservations start again from nothing. A failure leaves
    /// snapshot and reservations as they were.
    pub fn refresh_escrow(&mut self, polled: Result<EscrowAccounts, RefreshError>)
        ensures
            polled matches Ok(snapshot) ==> final(self)@ == (State {
                escrow: Some(snapshot@),
                escrow_generation: next_generation(old(self)@.escrow_generation),
                reserved: Map::empty(),
                ..old(self)@
            }),
            polled is Err ==> final(self)@ == old(self)@,
    {
        if self.escrow.refresh(polled) {
            self.reserved.clear();
        }
    }

    /// What is reserved against `payer` since the latest escrow snapshot.
    pub fn reserved_for(&self, payer: &Address) -> (amount: u128)
        ensures
            amount == reserved_of(self@.reserved, *payer),
    {
        match self.reserved.get(payer) {
            Some(amount) => *amount,
            None => 0,
        }
    }

    /// Whether a receipt of this payer and nonce is stored.
    pub fn is_stored(&self, payer: &Address, nonce: u64) -> (found: bool)
        ensures
            found == self@.stored.contains_key(ReceiptKey { payer: *payer, nonce }),
    {
        self.stored.contains_key(&ReceiptKey { payer: *payer, nonce })
    }

    /// Builds the context in which `receipt` is checked at `now_ns`, from what
    /// the tables and stores hold at this moment.
    pub fn context(&self, receipt: &Receipt, now_ns: u64) -> (ctx: Context)
        ensures
            ctx == context_for(self@, *receipt, now_ns),
    {
        Context {
            now_ns,
            window_ns: self.window_ns,
            appraisal: self.appraisals.get(&receipt.query_id),
            allocation: lookup(&self.allocations, &receipt.allocation),
            signer: lookup(&self.signers, &receipt.allocation),
            balance: lookup(&self.escrow, &receipt.payer),
            reserved: self.reserved_for(&receipt.payer),
            stored: self.stored.contains_key(&receipt.key()),
        }
    }

    /// Runs the checks on a receipt in the context given and, where it passes
    /// every check, reserves its value against its payer's escrow.
    ///
    /// All checks are run. Where one of them finds a table without a snapshot,
    /// the answer is `ServiceNotReady` and nothing has changed. Otherwise the
    /// appraisal of the receipt's query is used up; the receipt then fails
    /// with the reason of the first check that turned it down, or is
    /// reserved.
    pub fn process(&mut self, ctx: &Context, receipt: Receipt) -> (result: Result<
        ReceiptWithState<Reserved>,
        CheckError,
    >)
        ensures
            processed(old(self)@, *ctx, receipt, result),
            final(self)@ == after_process(old(self)@, *ctx, receipt),
    {
        let received = ReceiptWithState::<Checking>::new(receipt);
        let outcomes = run_checks(&self.checks, ctx, &receipt);
        match verdict(&outcomes) {
            Verdict::NotReady => Err(CheckError::ServiceNotReady),
            Verdict::Fail(reason) => {
                self.appraisals.take(&receipt.query_id);
                Err(CheckError::Failed(received.fail(outcomes, reason)))
            },
            Verdict::Pass => {
                self.appraisals.take(&receipt.query_id);
                let held = self.reserved_for(&receipt.payer);
                self.reserved.insert(receipt.payer, held.saturating_add(receipt.value));
                Ok(received.reserve(outcomes, self.escrow.generation()))
            },
        }
    }

    /// Checks a receipt at `now_ns` against what the manager holds at this
    /// moment: builds the receipt's context and processes the receipt in it.
    pub fn validate_receipt(&mut self, receipt: Receipt, now_ns: u64) -> (result: Result<
        ReceiptWithState<Reserved>,
        CheckError,
    >)
        ensures
            validated(old(self)@, receipt, now_ns, result),
            final(self)@ == after_validate(old(self)@, receipt, now_ns),
    {
        let ctx = self.context(&receipt, now_ns);
        self.process(&ctx, receipt)
    }

    /// Takes the outcome of writing a reserved receipt to durable storage.
    /// After a successful write the receipt is recorded as stored, so that a
    /// replay of it is recognised. After a failure nothing changes: the
    /// receipt is handed back, still reserved, for the write to be tried
    /// again.
    pub fn confirm(
        &mut self,
        reserved: ReceiptWithState<Reserved>,
        written: Result<(), StorageError>,
    ) -> (done: Result<(), Unstored>)
        ensures
            written is Ok ==> done is Ok && final(self)@ == (State {
                stored: old(self)@.stored.insert(
                    reserved.spec_receipt().spec_key(),
                    reserved.spec_receipt(),
                ),
                ..old(self)@
            }),
            written matches Err(e) ==> final(self)@ == old(self)@ && ({
                &&& done matches Err(unstored)
                &&& unstored.receipt == reserved
                &&& unstored.error matches CheckError::Storage(cause)
                &&& cause == e
            }),
    {
        match written {
            Ok(_) => {
                let receipt = *reserved.receipt();
                self.stored.insert(receipt.key(), receipt);
                Ok(())
            },
            Err(e) => Err(Unstored { error: CheckError::Storage(e), receipt: reserved }),
        }
    }

    /// Gives up the reservation of a receipt that will not be stored, for
    /// instance because its request was abandoned.
    pub fn release(&mut self, reserved: ReceiptWithState<Reserved>)
        ensures
            final(self)@ == after_release(
                old(self)@,
                reserved.spec_receipt(),
                reserved.spec_state().escrow_generation,
            ),
    {
        let receipt = *reserved.receipt();
        if reserved.state().escrow_generation == self.escrow.generation() {
            let held: Option<u128> = match self.reserved.get(&receipt.payer) {
                Some(amount) => Some(*amount),
                None => None,
            };
            match held {
                Some(amount) => {
                    self.reserved.insert(receipt.payer, amount.saturating_sub(receipt.value));
                },
                None => {},
            }
        }
    }
}

} // verus!
