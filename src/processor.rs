use crate::digest::{hash_bytes, sha256_of};
use crate::error::EscrowError;
use crate::record::{cleared, decode, write_record, Escrow, EscrowModel};
use vstd::prelude::*;

verus! {

/// The fixed amount, in lamports, that Open moves from the caller to the escrow.
pub const DEPOSIT_LAMPORTS: u64 = 1_000_000;

/// Opcode of Open: deposit and lock under the payload's hash.
pub const OP_OPEN: u8 = 0;

/// Opcode of Claim: reveal the secret and release the deposit.
pub const OP_CLAIM: u8 = 1;

/// What an escrow operation reads and changes: the caller's balance, the
/// escrow account's balance, and the escrow account's stored bytes.
#[derive(Debug, Clone, PartialEq, Eq)]
pub struct EscrowAccounts {
    pub caller_lamports: u64,
    pub escrow_lamports: u64,
    pub escrow_data: Vec<u8>,
}

/// The mathematical content of `EscrowAccounts`.
pub struct LedgerView {
    pub caller_lamports: u64,
    pub escrow_lamports: u64,
    pub escrow_data: Seq<u8>,
}

impl View for EscrowAccounts {
    type V = LedgerView;

    open spec fn view(&self) -> LedgerView {
        LedgerView {
            caller_lamports: self.caller_lamports,
            escrow_lamports: self.escrow_lamports,
            escrow_data: self.escrow_data@,
        }
    }
}

/// Open with a given commitment: the result and the state afterwards. On any
/// failure the state is the one before.
pub open spec fn open_step(caller: Seq<u8>, s: LedgerView, commitment: Seq<u8>) -> (Result<(), EscrowError>, LedgerView) {
    if s.escrow_lamports != 0 {
        (Err(EscrowError::AlreadyInitialized), s)
    } else {
        match decode(s.escrow_data) {
            None => (Err(EscrowError::MalformedRecord), s),
            Some(r) => if r.initialized {
                (Err(EscrowError::AlreadyInitialized), s)
            } else if s.caller_lamports < DEPOSIT_LAMPORTS {
                (Err(EscrowError::InsufficientFunds), s)
            } else {
                (
                    Ok(()),
                    LedgerView {
                        caller_lamports: (s.caller_lamports - DEPOSIT_LAMPORTS) as u64,
                        escrow_lamports: DEPOSIT_LAMPORTS,
                        escrow_data: write_record(
                            s.escrow_data,
                            EscrowModel { initialized: true, depositor: caller, commitment },
                        ),
                    },
                )
            },
        }
    }
}

/// Claim with a given hash of the payload: the result and the state
/// afterwards. On any failure the state is the one before.
pub open spec fn claim_step(caller: Seq<u8>, s: LedgerView, provided: Seq<u8>) -> (Result<(), EscrowError>, LedgerView) {
    match decode(s.escrow_data) {
        None => (Err(EscrowError::MalformedRecord), s),
        Some(r) => if !r.initialized || r.depositor != caller {
            (Err(EscrowError::NotAuthorized), s)
        } else if provided != r.commitment {
            (Err(EscrowError::SecretMismatch), s)
        } else if s.caller_lamports + s.escrow_lamports > u64::MAX {
            (Err(EscrowError::ArithmeticOverflow), s)
        } else {
            (
                Ok(()),
                LedgerView {
                    caller_lamports: (s.caller_lamports + s.escrow_lamports) as u64,
                    escrow_lamports: 0,
                    escrow_data: write_record(s.escrow_data, cleared()),
                },
            )
        },
    }
}

/// The bytes of an instruction after its opcode.
pub open spec fn payload(input: Seq<u8>) -> Seq<u8> {
    input.subrange(1, input.len() as int)
}

/// One instruction: the result and the state afterwards.
pub open spec fn step(caller: Seq<u8>, s: LedgerView, input: Seq<u8>) -> (Result<(), EscrowError>, LedgerView) {
    if input.len() == 0 {
        (Err(EscrowError::UnrecognizedOperation), s)
    } else if input[0] == OP_OPEN {
        open_step(caller, s, sha256_of(payload(input)))
    } else if input[0] == OP_CLAIM {
        claim_step(caller, s, sha256_of(payload(input)))
    } else {
        (Err(EscrowError::UnrecognizedOperation), s)
    }
}

/// Opens the escrow for `caller` under `commitment`: checks that the escrow
/// holds nothing, moves the deposit from the caller, and writes the record.
pub fn open_with_commitment(caller: [u8; 32], accounts: &mut EscrowAccounts, commitment: [u8; 32]) -> (r: Result<(), EscrowError>)
    ensures
        (r, final(accounts)@) == open_step(caller@, old(accounts)@, commitment@),
{
    if accounts.escrow_lamports > 0 {
        return Err(EscrowError::AlreadyInitialized);
    }
    let current = Escrow::unpack_from_slice(accounts.escrow_data.as_slice())?;
    if current.is_initialized() {
        return Err(EscrowError::AlreadyInitialized);
    }
    if accounts.caller_lamports < DEPOSIT_LAMPORTS {
        return Err(EscrowError::InsufficientFunds);
    }
    let record = Escrow { is_initialized: true, depositor_pubkey: caller, secret_hash: commitment };
    record.pack_into_slice(&mut accounts.escrow_data);
    accounts.caller_lamports = accounts.caller_lamports - DEPOSIT_LAMPORTS;
    accounts.escrow_lamports = DEPOSIT_LAMPORTS;
    Ok(())
}

/// Claims the escrow for `caller`, given the hash of the presented secret:
/// checks the depositor and the commitment, returns the whole escrow balance
/// to the caller, and clears the record.
pub fn claim_with_hash(caller: [u8; 32], accounts: &mut EscrowAccounts, provided_hash: [u8; 32]) -> (r: Result<(), EscrowError>)
    ensures
        (r, final(accounts)@) == claim_step(caller@, old(accounts)@, provided_hash@),
{
    let current = Escrow::unpack_from_slice(accounts.escrow_data.as_slice())?;
    if !current.is_initialized() || !same_key(&current.depositor_pubkey, &caller) {
        return Err(EscrowError::NotAuthorized);
    }
    if !same_key(&provided_hash, &current.secret_hash) {
        return Err(EscrowError::SecretMismatch);
    }
    if accounts.caller_lamports > u64::MAX - accounts.escrow_lamports {
        return Err(EscrowError::ArithmeticOverflow);
    }
    let reset = Escrow::default();
    reset.pack_into_slice(&mut accounts.escrow_data);
    accounts.caller_lamports = accounts.caller_lamports + accounts.escrow_lamports;
    accounts.escrow_lamports = 0;
    Ok(())
}

/// Runs one instruction: byte 0 selects Open or Claim, the remaining bytes are
/// the secret, whose SHA-256 digest is stored or compared.
pub fn process_instruction(caller: [u8; 32], accounts: &mut EscrowAccounts, input: &[u8]) -> (r: Result<(), EscrowError>)
    ensures
        (r, final(accounts)@) == step(caller@, old(accounts)@, input@),
{
    if input.len() == 0 {
        return Err(EscrowError::UnrecognizedOperation);
    }
    let opcode = input[0];
    if opcode != OP_OPEN && opcode != OP_CLAIM {
        return Err(EscrowError::UnrecognizedOperation);
    }
    let secret = slice_from(input, 1);
    let digest = hash_bytes(secret.as_slice());
    if opcode == OP_OPEN {
        open_with_commitment(caller, accounts, digest)
    } else {
        claim_with_hash(caller, accounts, digest)
    }
}

/// Whether two 32-byte keys are equal.
fn same_key(a: &[u8; 32], b: &[u8; 32]) -> (r: bool)
    ensures
        r == (a@ == b@),
{
    let mut i: usize = 0;
    while i < 32
        invariant
            i <= 32,
            forall|j: int| 0 <= j < i ==> a@[j] == b@[j],
        decreases 32 - i,
    {
        if a[i] != b[i] {
            return false;
        }
        i = i + 1;
    }
    assert(a@ =~= b@);
    true
}

/// The bytes of `s` from index `start` on.
fn slice_from(s: &[u8], start: usize) -> (r: Vec<u8>)
    requires
        start <= s@.len(),
    ensures
        r@ == s@.subrange(start as int, s@.len() as int),
{
    let mut r: Vec<u8> = Vec::new();
    let mut i: usize = start;
    while i < s.len()
        invariant
            start <= i <= s@.len(),
            r@ == s@.subrange(start as int, i as int),
        decreases s@.len() - i,
    {
        r.push(s[i]);
        i = i + 1;
        assert(r@ =~= s@.subrange(start as int, i as int));
    }
    r
}

} // verus!
