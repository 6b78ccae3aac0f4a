use indexer_receipts::checks::{
    check_escrow, check_signature, check_timestamp, check_uniqueness, check_value, run_checks,
    signature_verdict, verdict, Check, CheckOutcome, CheckReason, Context, Verdict,
};
use indexer_receipts::ident::{Address, QueryId};
use indexer_receipts::receipt::Receipt;
use indexer_receipts::snapshot::{Allocation, Lookup};

fn party(tag: u8) -> Address {
    Address::new([tag; 20])
}

fn unhex<const N: usize>(text: &str) -> [u8; N] {
    let digits: Vec<u8> = text.bytes().map(|c| (c as char).to_digit(16).unwrap() as u8).collect();
    assert_eq!(digits.len(), 2 * N);
    let mut bytes = [0u8; N];
    for i in 0..N {
        bytes[i] = digits[2 * i] * 16 + digits[2 * i + 1];
    }
    bytes
}

const DIGEST: &str = "5eb4f5a33c621f32a8622d5f943b6b102994dfe4e5aebbefe69bb1b2aa0fc93e";

const SIGNATURE: &str = "48b55bfa915ac795c431978d8a6a992b628d557da5ff759b307d495a36649353\
                         efffd310ac743f371de3b9f7f9cb56c0b28ad43601b4ab949f53faa07bd2c8041b";

const SIGNER: &str = "0f65fe9276bc9a24ae7083ae28e2660ef72df99e";

fn signer() -> Address {
    Address::new(unhex(SIGNER))
}

fn good_receipt() -> Receipt {
    Receipt {
        payer: party(1),
        allocation: party(2),
        nonce: 1,
        value: 100,
        timestamp_ns: 1_000,
        query_id: QueryId::new([9; 32]),
        digest: unhex(DIGEST),
        signature: unhex(SIGNATURE),
    }
}

fn good_context() -> Context {
    Context {
        now_ns: 1_000,
        window_ns: 50,
        appraisal: Some(100),
        allocation: Lookup::Found(Allocation {
            recipient: party(4),
            active_from_ns: 900,
            active_until_ns: 1_100,
        }),
        signer: Lookup::Found(signer()),
        balance: Lookup::Found(500),
        reserved: 0,
        stored: false,
    }
}

#[test]
fn value_is_compared_exactly() {
    assert_eq!(check_value(Some(100), 100), Ok(()));
    assert_eq!(check_value(None, 100), Err(CheckReason::NoAppraisal));
    assert_eq!(
        check_value(Some(100), 101),
        Err(CheckReason::ValueMismatch { value: 101, appraised: 100 })
    );
    assert_eq!(
        check_value(Some(u128::MAX), u128::MAX - 1),
        Err(CheckReason::ValueMismatch { value: u128::MAX - 1, appraised: u128::MAX })
    );
    assert_eq!(check_value(Some(0), 0), Ok(()));
}

#[test]
fn signature_check_reads_both_tables() {
    let receipt = good_receipt();
    assert_eq!(check_signature(&good_context(), &receipt), Ok(()));
    let mut ctx = good_context();
    ctx.allocation = Lookup::NotReady;
    assert_eq!(check_signature(&ctx, &receipt), Err(CheckReason::ServiceNotReady));
    let mut ctx = good_context();
    ctx.signer = Lookup::NotReady;
    ctx.allocation = Lookup::Missing;
    assert_eq!(check_signature(&ctx, &receipt), Err(CheckReason::ServiceNotReady));
    let mut ctx = good_context();
    ctx.allocation = Lookup::Missing;
    assert_eq!(check_signature(&ctx, &receipt), Err(CheckReason::UnknownAllocation));
    let mut ctx = good_context();
    ctx.signer = Lookup::Missing;
    assert_eq!(check_signature(&ctx, &receipt), Err(CheckReason::UnknownAllocation));
}

#[test]
fn signature_check_wants_an_active_allocation() {
    let ctx = good_context();
    let mut receipt = good_receipt();
    receipt.timestamp_ns = 900;
    assert_eq!(check_signature(&ctx, &receipt), Ok(()));
    receipt.timestamp_ns = 899;
    assert_eq!(check_signature(&ctx, &receipt), Err(CheckReason::ExpiredAllocation));
    receipt.timestamp_ns = 1_100;
    assert_eq!(check_signature(&ctx, &receipt), Ok(()));
    receipt.timestamp_ns = 1_101;
    assert_eq!(check_signature(&ctx, &receipt), Err(CheckReason::ExpiredAllocation));
}

#[test]
fn signer_is_recovered_from_signature_and_digest() {
    let mut receipt = good_receipt();
    assert_eq!(receipt.signer(), Some(signer()));
    receipt.nonce = 99;
    receipt.value = 1;
    assert_eq!(receipt.signer(), Some(signer()));
    receipt.digest[0] ^= 1;
    assert_ne!(receipt.signer(), Some(signer()));
    let mut receipt = good_receipt();
    receipt.signature[64] = 5;
    assert_eq!(receipt.signer(), None);
    receipt.signature[64] = 28;
    assert_ne!(receipt.signer(), Some(signer()));
    receipt.signature = [0; 65];
    assert_eq!(receipt.signer(), None);
    receipt.signature = [0xff; 65];
    assert_eq!(receipt.signer(), None);
}

#[test]
fn signature_check_wants_the_allocations_signer() {
    let ctx = good_context();
    let mut receipt = good_receipt();
    assert_eq!(check_signature(&ctx, &receipt), Ok(()));
    receipt.signature[64] = 5;
    assert_eq!(check_signature(&ctx, &receipt), Err(CheckReason::InvalidSignature));
    let mut receipt = good_receipt();
    receipt.digest[31] ^= 0x80;
    assert_eq!(check_signature(&ctx, &receipt), Err(CheckReason::InvalidSignature));
    let mut receipt = good_receipt();
    receipt.signature[3] ^= 0x10;
    assert_eq!(check_signature(&ctx, &receipt), Err(CheckReason::InvalidSignature));
    let mut other = good_context();
    other.signer = Lookup::Found(party(1));
    assert_eq!(check_signature(&other, &good_receipt()), Err(CheckReason::InvalidSignature));
    let mut late = good_receipt();
    late.timestamp_ns = 5;
    late.signature = [0; 65];
    assert_eq!(check_signature(&ctx, &late), Err(CheckReason::ExpiredAllocation));
}

#[test]
fn signature_verdict_holds_the_recovered_signer_against_the_table() {
    let ctx = good_context();
    assert_eq!(signature_verdict(&ctx, 1_000, Some(signer())), Ok(()));
    assert_eq!(signature_verdict(&ctx, 1_000, None), Err(CheckReason::InvalidSignature));
    assert_eq!(
        signature_verdict(&ctx, 1_000, Some(party(1))),
        Err(CheckReason::InvalidSignature)
    );
    assert_eq!(signature_verdict(&ctx, 899, Some(signer())), Err(CheckReason::ExpiredAllocation));
    assert_eq!(
        signature_verdict(&ctx, 1_101, Some(signer())),
        Err(CheckReason::ExpiredAllocation)
    );
    let mut unknown = good_context();
    unknown.signer = Lookup::Missing;
    assert_eq!(
        signature_verdict(&unknown, 1_000, Some(signer())),
        Err(CheckReason::UnknownAllocation)
    );
    unknown.allocation = Lookup::NotReady;
    assert_eq!(
        signature_verdict(&unknown, 1_000, Some(signer())),
        Err(CheckReason::ServiceNotReady)
    );
}

#[test]
fn stored_receipt_is_a_replay() {
    let mut ctx = good_context();
    assert_eq!(check_uniqueness(&ctx), Ok(()));
    ctx.stored = true;
    assert_eq!(check_uniqueness(&ctx), Err(CheckReason::Replayed));
}

#[test]
fn escrow_must_cover_reserved_and_value() {
    let mut receipt = good_receipt();
    let mut ctx = good_context();
    ctx.reserved = 400;
    assert_eq!(check_escrow(&ctx, &receipt), Ok(()));
    receipt.value = 101;
    assert_eq!(check_escrow(&ctx, &receipt), Err(CheckReason::InsufficientEscrow));
    ctx.reserved = 501;
    receipt.value = 0;
    assert_eq!(check_escrow(&ctx, &receipt), Err(CheckReason::InsufficientEscrow));
    ctx.reserved = u128::MAX;
    receipt.value = u128::MAX;
    ctx.balance = Lookup::Found(u128::MAX);
    assert_eq!(check_escrow(&ctx, &receipt), Err(CheckReason::InsufficientEscrow));
    receipt.value = 0;
    assert_eq!(check_escrow(&ctx, &receipt), Ok(()));
}

#[test]
fn escrow_of_an_unknown_payer_is_empty() {
    let mut receipt = good_receipt();
    let mut ctx = good_context();
    ctx.balance = Lookup::Missing;
    assert_eq!(check_escrow(&ctx, &receipt), Err(CheckReason::InsufficientEscrow));
    receipt.value = 0;
    assert_eq!(check_escrow(&ctx, &receipt), Ok(()));
    ctx.balance = Lookup::NotReady;
    assert_eq!(check_escrow(&ctx, &receipt), Err(CheckReason::ServiceNotReady));
}

#[test]
fn timestamp_must_lie_within_the_window() {
    let ctx = good_context();
    let mut receipt = good_receipt();
    receipt.timestamp_ns = 950;
    assert_eq!(check_timestamp(&ctx, &receipt), Ok(()));
    receipt.timestamp_ns = 949;
    assert_eq!(check_timestamp(&ctx, &receipt), Err(CheckReason::StaleTimestamp));
    receipt.timestamp_ns = 1_050;
    assert_eq!(check_timestamp(&ctx, &receipt), Ok(()));
    receipt.timestamp_ns = 1_051;
    assert_eq!(check_timestamp(&ctx, &receipt), Err(CheckReason::FutureTimestamp));
}

#[test]
fn timestamp_check_does_not_overflow() {
    let mut ctx = good_context();
    let mut receipt = good_receipt();
    ctx.now_ns = u64::MAX;
    ctx.window_ns = u64::MAX;
    receipt.timestamp_ns = 0;
    assert_eq!(check_timestamp(&ctx, &receipt), Ok(()));
    ctx.window_ns = u64::MAX - 1;
    assert_eq!(check_timestamp(&ctx, &receipt), Err(CheckReason::StaleTimestamp));
    ctx.now_ns = 0;
    receipt.timestamp_ns = u64::MAX;
    assert_eq!(check_timestamp(&ctx, &receipt), Err(CheckReason::FutureTimestamp));
    ctx.window_ns = 0;
    receipt.timestamp_ns = 0;
    assert_eq!(check_timestamp(&ctx, &receipt), Ok(()));
}

#[test]
fn each_check_runs_its_own_rule() {
    let receipt = good_receipt();
    let mut ctx = good_context();
    ctx.appraisal = None;
    ctx.stored = true;
    ctx.reserved = 450;
    ctx.now_ns = 2_000;
    ctx.signer = Lookup::Found(party(8));
    assert_eq!(Check::Value.check(&ctx, &receipt), Err(CheckReason::NoAppraisal));
    assert_eq!(Check::Signature.check(&ctx, &receipt), Err(CheckReason::InvalidSignature));
    assert_eq!(Check::Uniqueness.check(&ctx, &receipt), Err(CheckReason::Replayed));
    assert_eq!(Check::Escrow.check(&ctx, &receipt), Err(CheckReason::InsufficientEscrow));
    assert_eq!(Check::Timestamp.check(&ctx, &receipt), Err(CheckReason::StaleTimestamp));
    let ctx = good_context();
    let all =
        [Check::Value, Check::Signature, Check::Uniqueness, Check::Escrow, Check::Timestamp];
    for check in all {
        assert_eq!(check.check(&ctx, &receipt), Ok(()));
    }
}

#[test]
fn all_checks_run_whatever_the_earlier_ones_said() {
    let receipt = good_receipt();
    let mut ctx = good_context();
    ctx.appraisal = Some(99);
    ctx.stored = true;
    let checks = vec![Check::Timestamp, Check::Value, Check::Escrow, Check::Uniqueness];
    let outcomes = run_checks(&checks, &ctx, &receipt);
    assert_eq!(
        outcomes,
        vec![
            CheckOutcome { check: Check::Timestamp, result: Ok(()) },
            CheckOutcome {
                check: Check::Value,
                result: Err(CheckReason::ValueMismatch { value: 100, appraised: 99 }),
            },
            CheckOutcome { check: Check::Escrow, result: Ok(()) },
            CheckOutcome { check: Check::Uniqueness, result: Err(CheckReason::Replayed) },
        ]
    );
    assert_eq!(
        verdict(&outcomes),
        Verdict::Fail(CheckReason::ValueMismatch { value: 100, appraised: 99 })
    );
    assert!(run_checks(&Vec::new(), &ctx, &receipt).is_empty());
}

#[test]
fn verdict_is_the_first_failure_unless_a_table_is_not_ready() {
    assert_eq!(verdict(&Vec::new()), Verdict::Pass);
    let pass = CheckOutcome { check: Check::Value, result: Ok(()) };
    let replay = CheckOutcome { check: Check::Uniqueness, result: Err(CheckReason::Replayed) };
    let poor = CheckOutcome { check: Check::Escrow, result: Err(CheckReason::InsufficientEscrow) };
    let unready = CheckOutcome { check: Check::Escrow, result: Err(CheckReason::ServiceNotReady) };
    assert_eq!(verdict(&vec![pass, pass]), Verdict::Pass);
    assert_eq!(verdict(&vec![pass, replay, poor]), Verdict::Fail(CheckReason::Replayed));
    assert_eq!(verdict(&vec![poor, replay]), Verdict::Fail(CheckReason::InsufficientEscrow));
    assert_eq!(verdict(&vec![replay, pass, unready]), Verdict::NotReady);
    assert_eq!(verdict(&vec![unready]), Verdict::NotReady);
}
