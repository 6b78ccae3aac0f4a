//! What the service answers when it does not serve a request, the status that
//! goes with each answer, and its wording.

use vstd::prelude::*;
use crate::checks::CheckReason;
use crate::ident::Address;
use crate::manager::CheckError;
use crate::text::{address_text, checksum_text, decimal, decimal_text};

verus! {

/// The status classes that an error is answered with.
pub const UNAUTHORIZED: u16 = 401;

pub const PAYMENT_REQUIRED: u16 = 402;

pub const BAD_REQUEST: u16 = 400;

pub const INTERNAL_SERVER_ERROR: u16 = 500;

pub const SERVICE_UNAVAILABLE: u16 = 503;

/// An error that can say in words what went wrong.
pub trait Describe {
    /// The words.
    spec fn text(&self) -> Seq<char>;

    /// Writes the words.
    fn describe(&self) -> (words: String)
        ensures
            words@ == self.text(),
    ;
}

impl Describe for String {
    open spec fn text(&self) -> Seq<char> {
        self@
    }

    fn describe(&self) -> (words: String) {
        self.clone()
    }
}

/// The wording of the reason for which a check turned a receipt down.
pub open spec fn reason_text(reason: CheckReason) -> Seq<char> {
    match reason {
        CheckReason::NoAppraisal => "No appraised value found for query"@,
        CheckReason::ValueMismatch { value, appraised } =>
            "Value different from appraised_value. value: "@ + decimal_text(value as nat)
            + ", appraised_value: "@ + decimal_text(appraised as nat),
        CheckReason::UnknownAllocation => "Receipt allocation is not open or has no signer"@,
        CheckReason::ExpiredAllocation => "Receipt was made while its allocation was not active"@,
        CheckReason::InvalidSignature =>
            "Receipt is not signed by the signer of its allocation"@,
        CheckReason::Replayed => "Receipt with this payer and nonce is already stored"@,
        CheckReason::InsufficientEscrow => "Receipt value exceeds the escrow balance available"@,
        CheckReason::StaleTimestamp => "Receipt timestamp is too old"@,
        CheckReason::FutureTimestamp => "Receipt timestamp is too far in the future"@,
        CheckReason::ServiceNotReady => "Service is not ready yet, try again in a moment"@,
    }
}

impl Describe for CheckReason {
    open spec fn text(&self) -> Seq<char> {
        reason_text(*self)
    }

    fn describe(&self) -> (words: String) {
        match self {
            CheckReason::NoAppraisal => String::from_str("No appraised value found for query"),
            CheckReason::ValueMismatch { value, appraised } => {
                let mut words = String::from_str("Value different from appraised_value. value: ");
                words.append(decimal(*value).as_str());
                words.append(", appraised_value: ");
                words.append(decimal(*appraised).as_str());
                words
            },
            CheckReason::UnknownAllocation => String::from_str(
                "Receipt allocation is not open or has no signer",
            ),
            CheckReason::ExpiredAllocation => String::from_str(
                "Receipt was made while its allocation was not active",
            ),
            CheckReason::InvalidSignature => String::from_str(
                "Receipt is not signed by the signer of its allocation",
            ),
            CheckReason::Replayed => String::from_str(
                "Receipt with this payer and nonce is already stored",
            ),
            CheckReason::InsufficientEscrow => String::from_str(
                "Receipt value exceeds the escrow balance available",
            ),
            CheckReason::StaleTimestamp => String::from_str("Receipt timestamp is too old"),
            CheckReason::FutureTimestamp => String::from_str(
                "Receipt timestamp is too far in the future",
            ),
            CheckReason::ServiceNotReady => String::from_str(
                "Service is not ready yet, try again in a moment",
            ),
        }
    }
}

/// Why a request was not served. `E` is the error of whatever processes the
/// request once it is paid for; it is carried as it is.
#[derive(Debug)]
pub enum IndexerServiceError<E> {
    NoReceipt,
    ReceiptError(CheckReason),
    ServiceNotReady,
    NoSignerForAllocation(Address),
    NoSignerForManifest(String),
    InvalidRequest(String),
    ProcessingError(E),
    Unauthorized,
    InvalidFreeQueryAuthToken(String),
    FailedToSignAttestation,
    FailedToProvideAttestation,
    FailedToProvideResponse,
}

/// The status that an error is answered with.
pub open spec fn status_of<E>(err: IndexerServiceError<E>) -> u16 {
    match err {
        IndexerServiceError::ServiceNotReady => SERVICE_UNAVAILABLE,
        IndexerServiceError::NoReceipt => PAYMENT_REQUIRED,
        IndexerServiceError::Unauthorized => UNAUTHORIZED,
        IndexerServiceError::NoSignerForAllocation(_) => INTERNAL_SERVER_ERROR,
        IndexerServiceError::NoSignerForManifest(_) => INTERNAL_SERVER_ERROR,
        IndexerServiceError::FailedToSignAttestation => INTERNAL_SERVER_ERROR,
        IndexerServiceError::FailedToProvideAttestation => INTERNAL_SERVER_ERROR,
        IndexerServiceError::FailedToProvideResponse => INTERNAL_SERVER_ERROR,
        IndexerServiceError::ReceiptError(_) => BAD_REQUEST,
        IndexerServiceError::InvalidRequest(_) => BAD_REQUEST,
        IndexerServiceError::InvalidFreeQueryAuthToken(_) => BAD_REQUEST,
        IndexerServiceError::ProcessingError(_) => BAD_REQUEST,
    }
}

/// The wording of an error.
pub open spec fn message_of<E: Describe>(err: IndexerServiceError<E>) -> Seq<char> {
    match err {
        IndexerServiceError::NoReceipt => "No receipt provided with the request"@,
        IndexerServiceError::ReceiptError(reason) => "Issues with provided receipt: "@
            + reason_text(reason),
        IndexerServiceError::ServiceNotReady => "Service is not ready yet, try again in a moment"@,
        IndexerServiceError::NoSignerForAllocation(allocation) =>
            "No attestation signer found for allocation `"@ + checksum_text(allocation.bytes@)
            + "`"@,
        IndexerServiceError::NoSignerForManifest(manifest) =>
            "No attestation signer found for manifest `"@ + manifest@ + "`"@,
        IndexerServiceError::InvalidRequest(cause) => "Invalid request body: "@ + cause@,
        IndexerServiceError::ProcessingError(cause) => "Error while processing the request: "@
            + cause.text(),
        IndexerServiceError::Unauthorized => "No receipt or free query auth token provided"@,
        IndexerServiceError::InvalidFreeQueryAuthToken(cause) =>
            "Invalid free query auth token: "@ + cause@,
        IndexerServiceError::FailedToSignAttestation => "Failed to sign attestation"@,
        IndexerServiceError::FailedToProvideAttestation => "Failed to provide attestation"@,
        IndexerServiceError::FailedToProvideResponse => "Failed to provide response"@,
    }
}

/// The error with which the service answers a receipt that was not reserved.
/// A receipt that a check turned down is the payer's error. An unready table
/// and a failure of storage are the service's: both ask the caller to come
/// again.
pub open spec fn rejection_of<E>(err: CheckError) -> IndexerServiceError<E> {
    match err {
        CheckError::Failed(failed) => IndexerServiceError::ReceiptError(failed.spec_state().reason),
        CheckError::ServiceNotReady => IndexerServiceError::ServiceNotReady,
        CheckError::Storage(_) => IndexerServiceError::ServiceNotReady,
    }
}

impl<E> IndexerServiceError<E> {
    /// The status that the error is answered with.
    pub fn status_code(&self) -> (status: u16)
        ensures
            status == status_of(*self),
    {
        match self {
            IndexerServiceError::ServiceNotReady => SERVICE_UNAVAILABLE,
            IndexerServiceError::NoReceipt => PAYMENT_REQUIRED,
            IndexerServiceError::Unauthorized => UNAUTHORIZED,
            IndexerServiceError::NoSignerForAllocation(_) => INTERNAL_SERVER_ERROR,
            IndexerServiceError::NoSignerForManifest(_) => INTERNAL_SERVER_ERROR,
            IndexerServiceError::FailedToSignAttestation => INTERNAL_SERVER_ERROR,
            IndexerServiceError::FailedToProvideAttestation => INTERNAL_SERVER_ERROR,
            IndexerServiceError::FailedToProvideResponse => INTERNAL_SERVER_ERROR,
            IndexerServiceError::ReceiptError(_) => BAD_REQUEST,
            IndexerServiceError::InvalidRequest(_) => BAD_REQUEST,
            IndexerServiceError::InvalidFreeQueryAuthToken(_) => BAD_REQUEST,
            IndexerServiceError::ProcessingError(_) => BAD_REQUEST,
        }
    }

    /// The error with which the service answers a receipt that was not
    /// reserved.
    pub fn rejection(err: CheckError) -> (answer: Self)
        ensures
            answer == rejection_of::<E>(err),
    {
        match err {
            CheckError::Failed(failed) => IndexerServiceError::ReceiptError(failed.state().reason),
            CheckError::ServiceNotReady => IndexerServiceError::ServiceNotReady,
            CheckError::Storage(_) => IndexerServiceError::ServiceNotReady,
        }
    }
}

impl<E: Describe> IndexerServiceError<E> {
    /// The wording of the error.
    pub fn message(&self) -> (words: String)
        ensures
            words@ == message_of(*self),
    {
        match self {
            IndexerServiceError::NoReceipt => String::from_str(
                "No receipt provided with the request",
            ),
            IndexerServiceError::ReceiptError(reason) => {
                let mut words = String::from_str("Issues with provided receipt: ");
                words.append(reason.describe().as_str());
                words
            },
            IndexerServiceError::ServiceNotReady => String::from_str(
                "Service is not ready yet, try again in a moment",
            ),
            IndexerServiceError::NoSignerForAllocation(allocation) => {
                let mut words = String::from_str(
                    "No attestation signer found for allocation `",
                );
                words.append(address_text(allocation).as_str());
                words.append("`");
                words
            },
            IndexerServiceError::NoSignerForManifest(manifest) => {
                let mut words = String::from_str(
                    "No attestation signer found for manifest `",
                );
                words.append(manifest.as_str());
                words.append("`");
                words
            },
            IndexerServiceError::InvalidRequest(cause) => {
                let mut words = String::from_str("Invalid request body: ");
                words.append(cause.as_str());
                words
            },
            IndexerServiceError::ProcessingError(cause) => {
                let mut words = String::from_str("Error while processing the request: ");
                words.append(cause.describe().as_str());
                words
            },
            IndexerServiceError::Unauthorized => String::from_str(
                "No receipt or free query auth token provided",
            ),
            IndexerServiceError::InvalidFreeQueryAuthToken(cause) => {
                let mut words = String::from_str("Invalid free query auth token: ");
                words.append(cause.as_str());
                words
            },
            IndexerServiceError::FailedToSignAttestation => String::from_str(
                "Failed to sign attestation",
            ),
            IndexerServiceError::FailedToProvideAttestation => String::from_str(
                "Failed to provide attestation",
            ),
            IndexerServiceError::FailedToProvideResponse => String::from_str(
                "Failed to provide response",
            ),
        }
    }
}

} // verus!
