use hashlock_escrow::error::EscrowError;
use hashlock_escrow::processor::{
    claim_with_hash, open_with_commitment, process_instruction, EscrowAccounts, DEPOSIT_LAMPORTS,
};
use hashlock_escrow::record::{Escrow, RECORD_LEN};

const A: [u8; 32] = [0x11; 32];
const B: [u8; 32] = [0x22; 32];

fn fresh(caller_lamports: u64) -> EscrowAccounts {
    EscrowAccounts { caller_lamports, escrow_lamports: 0, escrow_data: vec![0u8; RECORD_LEN] }
}

fn instruction(op: u8, secret: &[u8]) -> Vec<u8> {
    let mut v = vec![op];
    v.extend_from_slice(secret);
    v
}

fn digest(secret: &[u8]) -> [u8; 32] {
    solana_program::hash::hash(secret).to_bytes()
}

fn record(accounts: &EscrowAccounts) -> Escrow {
    Escrow::unpack_from_slice(&accounts.escrow_data).unwrap()
}

fn opened(secret: &[u8]) -> EscrowAccounts {
    let mut acc = fresh(5_000_000);
    process_instruction(A, &mut acc, &instruction(0, secret)).unwrap();
    acc
}

#[test]
fn open_on_fresh_account_locks_deposit() {
    let mut acc = fresh(5_000_000);
    assert_eq!(process_instruction(A, &mut acc, &instruction(0, b"s3cret")), Ok(()));
    assert_eq!(acc.escrow_lamports, DEPOSIT_LAMPORTS);
    assert_eq!(acc.caller_lamports, 4_000_000);
    let r = record(&acc);
    assert!(r.is_initialized);
    assert_eq!(r.depositor_pubkey, A);
    assert_eq!(r.secret_hash, digest(b"s3cret"));
    assert_ne!(r.secret_hash[..], b"s3cret"[..]);
}

#[test]
fn open_stores_sha256_of_payload() {
    // SHA-256 of the empty string
    let mut acc = fresh(DEPOSIT_LAMPORTS);
    process_instruction(A, &mut acc, &[0]).unwrap();
    let expected: [u8; 32] = [
        0xe3, 0xb0, 0xc4, 0x42, 0x98, 0xfc, 0x1c, 0x14, 0x9a, 0xfb, 0xf4, 0xc8, 0x99, 0x6f, 0xb9,
        0x24, 0x27, 0xae, 0x41, 0xe4, 0x64, 0x9b, 0x93, 0x4c, 0xa4, 0x95, 0x99, 0x1b, 0x78, 0x52,
        0xb8, 0x55,
    ];
    assert_eq!(record(&acc).secret_hash, expected);
    assert_eq!(acc.caller_lamports, 0);
}

#[test]
fn open_with_commitment_stores_given_commitment() {
    let mut acc = fresh(2_000_000);
    assert_eq!(open_with_commitment(B, &mut acc, [5u8; 32]), Ok(()));
    let r = record(&acc);
    assert_eq!(r, Escrow { is_initialized: true, depositor_pubkey: B, secret_hash: [5u8; 32] });
    assert_eq!(acc.caller_lamports, 1_000_000);
    assert_eq!(acc.escrow_lamports, 1_000_000);
}

#[test]
fn open_with_nonzero_balance_is_already_initialized() {
    let mut acc = fresh(5_000_000);
    acc.escrow_lamports = 1;
    let before = acc.clone();
    assert_eq!(process_instruction(A, &mut acc, &instruction(0, b"x")), Err(EscrowError::AlreadyInitialized));
    assert_eq!(acc, before);
}

#[test]
fn open_on_initialized_record_is_already_initialized() {
    let mut acc = fresh(5_000_000);
    acc.escrow_data[0] = 1;
    let before = acc.clone();
    assert_eq!(process_instruction(B, &mut acc, &instruction(0, b"x")), Err(EscrowError::AlreadyInitialized));
    assert_eq!(acc, before);
}

#[test]
fn open_twice_is_already_initialized() {
    let mut acc = opened(b"one");
    let before = acc.clone();
    assert_eq!(process_instruction(A, &mut acc, &instruction(0, b"two")), Err(EscrowError::AlreadyInitialized));
    assert_eq!(acc, before);
}

#[test]
fn open_without_funds_fails_and_changes_nothing() {
    let mut acc = fresh(DEPOSIT_LAMPORTS - 1);
    let before = acc.clone();
    assert_eq!(process_instruction(A, &mut acc, &instruction(0, b"x")), Err(EscrowError::InsufficientFunds));
    assert_eq!(acc, before);
}

#[test]
fn open_on_short_storage_is_malformed() {
    let mut acc = fresh(5_000_000);
    acc.escrow_data = vec![0u8; 10];
    assert_eq!(process_instruction(A, &mut acc, &instruction(0, b"x")), Err(EscrowError::MalformedRecord));
    assert_eq!(acc.caller_lamports, 5_000_000);
}

#[test]
fn claim_with_right_secret_releases_deposit() {
    let mut acc = opened(b"open sesame");
    assert_eq!(process_instruction(A, &mut acc, &instruction(1, b"open sesame")), Ok(()));
    assert_eq!(acc.caller_lamports, 5_000_000);
    assert_eq!(acc.escrow_lamports, 0);
    assert_eq!(record(&acc), Escrow::default());
    assert_eq!(acc.escrow_data, vec![0u8; RECORD_LEN]);
}

#[test]
fn claim_returns_whole_escrow_balance() {
    let mut acc = opened(b"k");
    acc.escrow_lamports = 3_500_000;
    process_instruction(A, &mut acc, &instruction(1, b"k")).unwrap();
    assert_eq!(acc.caller_lamports, 4_000_000 + 3_500_000);
    assert_eq!(acc.escrow_lamports, 0);
}

#[test]
fn claim_with_wrong_secret_is_secret_mismatch() {
    let mut acc = opened(b"right");
    let before = acc.clone();
    assert_eq!(process_instruction(A, &mut acc, &instruction(1, b"wrong")), Err(EscrowError::SecretMismatch));
    assert_eq!(acc, before);
}

#[test]
fn claim_by_other_identity_is_not_authorized() {
    let mut acc = opened(b"right");
    let before = acc.clone();
    assert_eq!(process_instruction(B, &mut acc, &instruction(1, b"right")), Err(EscrowError::NotAuthorized));
    assert_eq!(acc, before);
}

#[test]
fn claim_on_uninitialized_record_is_not_authorized() {
    let mut acc = fresh(5_000_000);
    assert_eq!(process_instruction([0u8; 32], &mut acc, &instruction(1, b"")), Err(EscrowError::NotAuthorized));
    assert_eq!(acc, fresh(5_000_000));
}

#[test]
fn claim_on_short_storage_is_malformed() {
    let mut acc = fresh(5);
    acc.escrow_data = vec![1u8; 64];
    assert_eq!(process_instruction(A, &mut acc, &instruction(1, b"x")), Err(EscrowError::MalformedRecord));
}

#[test]
fn claim_that_would_overflow_fails() {
    let mut acc = opened(b"k");
    acc.caller_lamports = u64::MAX;
    let before = acc.clone();
    assert_eq!(process_instruction(A, &mut acc, &instruction(1, b"k")), Err(EscrowError::ArithmeticOverflow));
    assert_eq!(acc, before);
}

#[test]
fn claim_with_hash_compares_given_hash() {
    let mut acc = fresh(1_000_000);
    open_with_commitment(A, &mut acc, [9u8; 32]).unwrap();
    assert_eq!(claim_with_hash(A, &mut acc, [8u8; 32]), Err(EscrowError::SecretMismatch));
    assert_eq!(claim_with_hash(A, &mut acc, [9u8; 32]), Ok(()));
    assert_eq!(acc.caller_lamports, 1_000_000);
    assert_eq!(acc.escrow_lamports, 0);
}

#[test]
fn unknown_opcode_is_unrecognized() {
    let mut acc = fresh(5_000_000);
    assert_eq!(process_instruction(A, &mut acc, &instruction(2, b"x")), Err(EscrowError::UnrecognizedOperation));
    assert_eq!(process_instruction(A, &mut acc, &[255]), Err(EscrowError::UnrecognizedOperation));
    assert_eq!(acc, fresh(5_000_000));
}

#[test]
fn empty_instruction_is_unrecognized() {
    let mut acc = fresh(5_000_000);
    assert_eq!(process_instruction(A, &mut acc, &[]), Err(EscrowError::UnrecognizedOperation));
}

#[test]
fn swordfish_scenario() {
    let mut acc = fresh(10_000_000);
    assert_eq!(process_instruction(A, &mut acc, &instruction(0, b"swordfish")), Ok(()));
    assert_eq!(acc.escrow_lamports, DEPOSIT_LAMPORTS);
    let r = record(&acc);
    assert_eq!(r.depositor_pubkey, A);
    assert_eq!(r.secret_hash, digest(b"swordfish"));

    let after_open = acc.clone();
    assert_eq!(process_instruction(A, &mut acc, &instruction(1, b"wrong")), Err(EscrowError::SecretMismatch));
    assert_eq!(acc, after_open);

    assert_eq!(process_instruction(A, &mut acc, &instruction(1, b"swordfish")), Ok(()));
    assert_eq!(acc.caller_lamports, 10_000_000);
    assert_eq!(acc.escrow_lamports, 0);
    assert!(!record(&acc).is_initialized);

    let after_claim = acc.clone();
    assert!(process_instruction(A, &mut acc, &instruction(1, b"wrong")).is_err());
    assert_eq!(acc, after_claim);
    assert!(!record(&acc).is_initialized);
}
