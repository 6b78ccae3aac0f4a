use indexer_receipts::checks::CheckReason;
use indexer_receipts::error::{
    Describe, IndexerServiceError, BAD_REQUEST, INTERNAL_SERVER_ERROR, PAYMENT_REQUIRED,
    SERVICE_UNAVAILABLE, UNAUTHORIZED,
};
use indexer_receipts::ident::Address;
use indexer_receipts::manager::{CheckError, StorageError};
use indexer_receipts::text::decimal;

type ServiceError = IndexerServiceError<String>;

#[test]
fn every_error_has_its_status() {
    assert_eq!(ServiceError::ServiceNotReady.status_code(), 503);
    assert_eq!(ServiceError::NoReceipt.status_code(), 402);
    assert_eq!(ServiceError::Unauthorized.status_code(), 401);
    assert_eq!(ServiceError::NoSignerForAllocation(Address::new([0; 20])).status_code(), 500);
    assert_eq!(ServiceError::NoSignerForManifest(String::from("Qm")).status_code(), 500);
    assert_eq!(ServiceError::FailedToSignAttestation.status_code(), 500);
    assert_eq!(ServiceError::FailedToProvideAttestation.status_code(), 500);
    assert_eq!(ServiceError::FailedToProvideResponse.status_code(), 500);
    assert_eq!(ServiceError::ReceiptError(CheckReason::Replayed).status_code(), 400);
    assert_eq!(ServiceError::InvalidRequest(String::from("x")).status_code(), 400);
    assert_eq!(ServiceError::InvalidFreeQueryAuthToken(String::from("x")).status_code(), 400);
    assert_eq!(ServiceError::ProcessingError(String::from("x")).status_code(), 400);
    assert_eq!(
        (UNAUTHORIZED, PAYMENT_REQUIRED, BAD_REQUEST, INTERNAL_SERVER_ERROR, SERVICE_UNAVAILABLE),
        (401, 402, 400, 500, 503)
    );
}

#[test]
fn errors_without_a_cause_have_fixed_words() {
    assert_eq!(ServiceError::NoReceipt.message(), "No receipt provided with the request");
    assert_eq!(
        ServiceError::ServiceNotReady.message(),
        "Service is not ready yet, try again in a moment"
    );
    assert_eq!(
        ServiceError::Unauthorized.message(),
        "No receipt or free query auth token provided"
    );
    assert_eq!(ServiceError::FailedToSignAttestation.message(), "Failed to sign attestation");
    assert_eq!(
        ServiceError::FailedToProvideAttestation.message(),
        "Failed to provide attestation"
    );
    assert_eq!(ServiceError::FailedToProvideResponse.message(), "Failed to provide response");
}

#[test]
fn errors_with_a_cause_name_it() {
    assert_eq!(
        ServiceError::InvalidRequest(String::from("expected value at line 1")).message(),
        "Invalid request body: expected value at line 1"
    );
    assert_eq!(
        ServiceError::ProcessingError(String::from("query timed out")).message(),
        "Error while processing the request: query timed out"
    );
    assert_eq!(
        ServiceError::InvalidFreeQueryAuthToken(String::from("Bearer abc")).message(),
        "Invalid free query auth token: Bearer abc"
    );
    assert_eq!(
        ServiceError::NoSignerForManifest(String::from(
            "QmWmyoMoctfbAaiEs2G46gpeUmhqFRDW6KWo64y5r581Vz"
        ))
        .message(),
        "No attestation signer found for manifest `QmWmyoMoctfbAaiEs2G46gpeUmhqFRDW6KWo64y5r581Vz`"
    );
    assert_eq!(
        ServiceError::ReceiptError(CheckReason::NoAppraisal).message(),
        "Issues with provided receipt: No appraised value found for query"
    );
    assert_eq!(
        ServiceError::ReceiptError(CheckReason::ValueMismatch { value: 101, appraised: 100 })
            .message(),
        "Issues with provided receipt: Value different from appraised_value. value: 101, \
         appraised_value: 100"
    );
}

#[test]
fn allocation_is_written_with_its_checksum() {
    let bytes: [u8; 20] = [
        0xd8, 0xda, 0x6b, 0xf2, 0x69, 0x64, 0xaf, 0x9d, 0x7e, 0xed, 0x9e, 0x03, 0xe5, 0x34, 0x15,
        0xd3, 0x7a, 0xa9, 0x60, 0x45,
    ];
    assert_eq!(
        ServiceError::NoSignerForAllocation(Address::new(bytes)).message(),
        "No attestation signer found for allocation `0xd8dA6BF26964aF9D7eEd9e03E53415D37aA96045`"
    );
    assert_eq!(
        ServiceError::NoSignerForAllocation(Address::new([0; 20])).message(),
        "No attestation signer found for allocation `0x0000000000000000000000000000000000000000`"
    );
}

#[test]
fn every_reason_has_its_words() {
    assert_eq!(CheckReason::NoAppraisal.describe(), "No appraised value found for query");
    assert_eq!(
        CheckReason::ValueMismatch { value: 0, appraised: u128::MAX }.describe(),
        "Value different from appraised_value. value: 0, appraised_value: \
         340282366920938463463374607431768211455"
    );
    assert_eq!(
        CheckReason::UnknownAllocation.describe(),
        "Receipt allocation is not open or has no signer"
    );
    assert_eq!(
        CheckReason::ExpiredAllocation.describe(),
        "Receipt was made while its allocation was not active"
    );
    assert_eq!(
        CheckReason::InvalidSignature.describe(),
        "Receipt is not signed by the signer of its allocation"
    );
    assert_eq!(
        CheckReason::Replayed.describe(),
        "Receipt with this payer and nonce is already stored"
    );
    assert_eq!(
        CheckReason::InsufficientEscrow.describe(),
        "Receipt value exceeds the escrow balance available"
    );
    assert_eq!(CheckReason::StaleTimestamp.describe(), "Receipt timestamp is too old");
    assert_eq!(
        CheckReason::FutureTimestamp.describe(),
        "Receipt timestamp is too far in the future"
    );
    assert_eq!(
        CheckReason::ServiceNotReady.describe(),
        "Service is not ready yet, try again in a moment"
    );
    assert_eq!(String::from("as it is").describe(), "as it is");
}

#[test]
fn numbers_are_written_in_decimal() {
    assert_eq!(decimal(0), "0");
    assert_eq!(decimal(9), "9");
    assert_eq!(decimal(10), "10");
    assert_eq!(decimal(1_234_567_890), "1234567890");
    assert_eq!(decimal(100_000), "100000");
    assert_eq!(decimal(u128::MAX), "340282366920938463463374607431768211455");
}

#[test]
fn unready_tables_and_storage_failures_ask_to_come_again() {
    let unready: ServiceError = IndexerServiceError::rejection(CheckError::ServiceNotReady);
    assert!(matches!(unready, IndexerServiceError::ServiceNotReady));
    assert_eq!(unready.status_code(), 503);
    let storage: ServiceError =
        IndexerServiceError::rejection(CheckError::Storage(StorageError::Unavailable));
    assert!(matches!(storage, IndexerServiceError::ServiceNotReady));
    assert_eq!(storage.status_code(), 503);
}
