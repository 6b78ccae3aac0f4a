//! The service as the transport layer sees it: what it holds, and the calls
//! by which a query is appraised and its receipt validated.

use vstd::prelude::*;
use crate::appraisal::{put_result, AppraisalError};
use crate::checks::Verdict;
use crate::error::IndexerServiceError;
use crate::ident::{Address, QueryId};
use crate::manager::{
    after_appraisal, after_validate, standard_checks, validated, verdict_for, Manager, State,
};
use crate::receipt::{Receipt, ReceiptWithState, Reserved};

verus! {

/// A response that knows whether an attestation is to be made for it.
pub trait IsAttestable {
    fn is_attestable(&self) -> bool;
}

/// Whether `result` is the service's answer to `receipt` at `now_ns`: the
/// reserved receipt where every check passed, `ServiceNotReady` where a table
/// has no snapshot yet, and else the reason of the first check that failed.
pub open spec fn answered<E>(
    s: State,
    receipt: Receipt,
    now_ns: u64,
    result: Result<ReceiptWithState<Reserved>, IndexerServiceError<E>>,
) -> bool {
    match verdict_for(s, receipt, now_ns) {
        Verdict::Pass => {
            &&& result matches Ok(reserved)
            &&& validated(s, receipt, now_ns, Ok(reserved))
        },
        Verdict::NotReady => result matches Err(IndexerServiceError::ServiceNotReady),
        Verdict::Fail(reason) => {
            &&& result matches Err(IndexerServiceError::ReceiptError(why))
            &&& why == reason
        },
    }
}

/// How often the dispute manager is looked up, in seconds.
pub const DISPUTE_MANAGER_REFRESH_SECS: u64 = 3600;

/// How many connections to the database the service opens at most.
pub const DATABASE_MAX_CONNECTIONS: u32 = 50;

/// How long the service waits for a connection to the database, in seconds.
pub const DATABASE_ACQUIRE_TIMEOUT_SECS: u64 = 30;

/// The domain in which receipts are signed.
pub struct SigningDomain {
    pub name: String,
    pub version: String,
    pub verifying_contract: Address,
}

/// The route for a manifest under `url_prefix`.
pub open spec fn route_of(url_prefix: Seq<char>) -> Seq<char> {
    if url_prefix.len() == 0 || url_prefix.last() == '/' {
        url_prefix + "manifests/:id"@
    } else {
        url_prefix + "/"@ + "manifests/:id"@
    }
}

/// What the service holds while it runs.
pub struct IndexerServiceState {
    pub tap_manager: Manager,
}

/// The entry points of the service.
pub struct IndexerService {}

impl IndexerService {
    /// The state with which the service starts: a manager that runs all five
    /// checks and has neither appraisals nor snapshots yet.
    pub fn start(window_ns: u64, appraisal_ttl_ns: u64) -> (state: IndexerServiceState)
        ensures
            state.tap_manager@ == (State {
                checks: standard_checks(),
                window_ns,
                appraisals: Map::empty(),
                appraisal_ttl_ns,
                appraisal_clock_ns: 0,
                allocations: None,
                signers: None,
                escrow: None,
                escrow_generation: 0,
                reserved: Map::empty(),
                stored: Map::empty(),
            }),
    {
        IndexerServiceState {
            tap_manager: Manager::new(Manager::all_checks(), window_ns, appraisal_ttl_ns),
        }
    }

    /// The signing domain of the receipts that this indexer takes.
    pub fn signing_domain(indexer_address: Address) -> (domain: SigningDomain)
        ensures
            domain.name@ == "TapManager"@,
            domain.version@ == "1"@,
            domain.verifying_contract == indexer_address,
    {
        SigningDomain {
            name: String::from_str("TapManager"),
            version: String::from_str("1"),
            verifying_contract: indexer_address,
        }
    }

    /// The route under which queries for a manifest are served: the prefix
    /// and `manifests/:id`, with one `/` between them unless the prefix is
    /// empty or ends in one.
    pub fn manifest_route(url_prefix: &str) -> (route: String)
        ensures
            route@ == route_of(url_prefix@),
    {
        let mut route = String::from_str(url_prefix);
        let len = url_prefix.unicode_len();
        if len > 0 && url_prefix.get_char(len - 1) != '/' {
            route.append("/");
        }
        route.append("manifests/:id");
        route
    }

    /// Stores the fee appraised for a query that is about to be answered.
    pub fn appraise_and_store(
        state: &mut IndexerServiceState,
        query_id: QueryId,
        value: u128,
    ) -> (done: Result<(), AppraisalError>)
        ensures
            done == put_result(old(state).tap_manager@.appraisals, query_id),
            final(state).tap_manager@ == after_appraisal(
                old(state).tap_manager@,
                query_id,
                value,
            ),
    {
        state.tap_manager.appraise_and_store(query_id, value)
    }

    /// Validates the receipt that came with a request and answers with the
    /// reserved receipt or with the error to send back.
    pub fn validate_receipt<E>(
        state: &mut IndexerServiceState,
        receipt: Receipt,
        now_ns: u64,
    ) -> (result: Result<ReceiptWithState<Reserved>, IndexerServiceError<E>>)
        ensures
            final(state).tap_manager@ == after_validate(old(state).tap_manager@, receipt, now_ns),
            answered(old(state).tap_manager@, receipt, now_ns, result),
    {
        match state.tap_manager.validate_receipt(receipt, now_ns) {
            Ok(reserved) => Ok(reserved),
            Err(err) => Err(IndexerServiceError::rejection(err)),
        }
    }
}

} // verus!
