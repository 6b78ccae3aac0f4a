//! Receipts and the phases that a receipt passes through.

use vstd::prelude::*;
use crate::ident::{Address, QueryId, ReceiptKey};
use crate::checks::{CheckOutcome, CheckReason};
use crate::signature::{recover_signer, recovered_signer, signer_bytes};

verus! {

/// A payer's signed claim that it owes a fee for one query. It is never
/// changed here, only carried from phase to phase.
#[derive(Clone, Copy, Debug, PartialEq, Eq)]
pub struct Receipt {
    /// The account whose escrow pays.
    pub payer: Address,
    /// The allocation that is paid.
    pub allocation: Address,
    /// Unique per payer.
    pub nonce: u64,
    /// The fee that is claimed.
    pub value: u128,
    /// When the receipt was made.
    pub timestamp_ns: u64,
    /// The query that the receipt pays for.
    pub query_id: QueryId,
    /// The hash of the receipt in the signing domain: what the payer's
    /// signer signed.
    pub digest: [u8; 32],
    /// The signature over `digest`: `r`, `s` and the recovery value.
    pub signature: [u8; 65],
}

impl Receipt {
    /// The key under which the receipt is stored: its payer and nonce.
    pub open spec fn spec_key(&self) -> ReceiptKey {
        ReceiptKey { payer: self.payer, nonce: self.nonce }
    }

    /// The account whose signature the receipt carries, `None` where the
    /// signature is none of any account over the receipt's digest.
    pub open spec fn spec_signer(&self) -> Option<Seq<u8>> {
        recovered_signer(self.signature@, self.digest@)
    }

    /// Recovers the account whose signature the receipt carries.
    pub fn signer(&self) -> (signer: Option<Address>)
        ensures
            signer_bytes(signer) == self.spec_signer(),
    {
        recover_signer(&self.signature, &self.digest)
    }

    /// The key under which the receipt is stored: its payer and nonce.
    #[verifier::when_used_as_spec(spec_key)]
    pub fn key(&self) -> (key: ReceiptKey)
        ensures
            key == self.spec_key(),
    {
        ReceiptKey { payer: self.payer, nonce: self.nonce }
    }
}

/// The phase of a receipt that has been received and is being checked.
#[derive(Clone, Copy, Debug, PartialEq, Eq)]
pub struct Checking;

/// The phase of a receipt that a check turned down. It is final.
#[derive(Clone, Copy, Debug, PartialEq, Eq)]
pub struct Failed {
    /// The reason given by the first check that turned the receipt down.
    pub reason: CheckReason,
}

/// The phase of a receipt that passed every check and whose value is
/// reserved against its payer's escrow.
#[derive(Clone, Copy, Debug, PartialEq, Eq)]
pub struct Reserved {
    /// How many escrow snapshots had been published when the value was
    /// reserved.
    pub escrow_generation: u64,
}

/// A receipt in the phase `S`, with the outcome of each check that was run on
/// it. A receipt starts in `Checking` and leaves it once, for `Failed` or for
/// `Reserved`; each step consumes the receipt, so none is taken twice.
#[derive(Debug)]
pub struct ReceiptWithState<S> {
    receipt: Receipt,
    outcomes: Vec<CheckOutcome>,
    state: S,
}

impl<S> ReceiptWithState<S> {
    /// The receipt.
    pub closed spec fn spec_receipt(&self) -> Receipt {
        self.receipt
    }

    /// The outcomes of the checks that were run, in the order of the checks.
    pub closed spec fn spec_outcomes(&self) -> Seq<CheckOutcome> {
        self.outcomes@
    }

    /// The phase.
    pub closed spec fn spec_state(&self) -> S {
        self.state
    }

    /// The receipt.
    pub fn receipt(&self) -> (receipt: &Receipt)
        ensures
            *receipt == self.spec_receipt(),
    {
        &self.receipt
    }

    /// The outcomes of the checks that were run, in the order of the checks.
    pub fn outcomes(&self) -> (outcomes: &Vec<CheckOutcome>)
        ensures
            outcomes@ == self.spec_outcomes(),
    {
        &self.outcomes
    }

    /// The phase.
    pub fn state(&self) -> (state: &S)
        ensures
            *state == self.spec_state(),
    {
        &self.state
    }
}

impl ReceiptWithState<Checking> {
    /// A receipt as it is received: nothing has been checked yet.
    pub fn new(receipt: Receipt) -> (received: Self)
        ensures
            received.spec_receipt() == receipt,
            received.spec_outcomes() == Seq::<CheckOutcome>::empty(),
    {
        ReceiptWithState { receipt, outcomes: Vec::new(), state: Checking }
    }

    /// Turns the receipt down for `reason`, after the checks gave `outcomes`.
    pub(crate) fn fail(self, outcomes: Vec<CheckOutcome>, reason: CheckReason) -> (failed:
        ReceiptWithState<Failed>)
        ensures
            failed.spec_receipt() == self.spec_receipt(),
            failed.spec_outcomes() == outcomes@,
            failed.spec_state() == (Failed { reason }),
    {
        ReceiptWithState { receipt: self.receipt, outcomes, state: Failed { reason } }
    }

    /// Accepts the receipt, after the checks gave `outcomes`.
    pub(crate) fn reserve(self, outcomes: Vec<CheckOutcome>, escrow_generation: u64) -> (reserved:
        ReceiptWithState<Reserved>)
        ensures
            reserved.spec_receipt() == self.spec_receipt(),
            reserved.spec_outcomes() == outcomes@,
            reserved.spec_state() == (Reserved { escrow_generation }),
    {
        ReceiptWithState { receipt: self.receipt, outcomes, state: Reserved { escrow_generation } }
    }
}

} // verus!
