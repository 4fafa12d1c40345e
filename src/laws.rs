use crate::digest::sha256_of;
use crate::error::EscrowError;
use crate::processor::{step, LedgerView, DEPOSIT_LAMPORTS, OP_CLAIM, OP_OPEN};
use crate::record::{cleared, decode, lemma_decode_write, EscrowModel, KEY_LEN, RECORD_LEN};
use vstd::prelude::*;

verus! {

proof fn lemma_payload(op: u8, secret: Seq<u8>)
    ensures
        (seq![op] + secret).len() > 0,
        (seq![op] + secret)[0] == op,
        (seq![op] + secret).subrange(1, (seq![op] + secret).len() as int) == secret,
{
    assert((seq![op] + secret).subrange(1, (seq![op] + secret).len() as int) =~= secret);
}

/// Open by `caller` with secret `secret` on an escrow that holds no value and
/// no active record succeeds when the caller can pay: the escrow then holds
/// exactly the deposit, the caller paid it, and the stored record is active,
/// names the caller, and commits to the secret's 32-byte digest.
pub proof fn law_open_fresh(caller: Seq<u8>, s: LedgerView, secret: Seq<u8>)
    requires
        caller.len() == KEY_LEN,
        sha256_of(secret).len() == KEY_LEN,
        s.escrow_lamports == 0,
        s.escrow_data.len() >= RECORD_LEN,
        !decode(s.escrow_data)->Some_0.initialized,
        s.caller_lamports >= DEPOSIT_LAMPORTS,
    ensures
        ({
            let (r, t) = step(caller, s, seq![OP_OPEN] + secret);
            &&& r is Ok
            &&& t.escrow_lamports == DEPOSIT_LAMPORTS
            &&& t.caller_lamports == s.caller_lamports - DEPOSIT_LAMPORTS
            &&& decode(t.escrow_data) == Some(
                EscrowModel { initialized: true, depositor: caller, commitment: sha256_of(secret) },
            )
        }),
{
    lemma_payload(OP_OPEN, secret);
    let m = EscrowModel { initialized: true, depositor: caller, commitment: sha256_of(secret) };
    lemma_decode_write(s.escrow_data, m);
}

/// Open on an escrow that holds value, or whose stored record is active,
/// fails with `AlreadyInitialized` and changes nothing.
pub proof fn law_open_rejects_used(caller: Seq<u8>, s: LedgerView, secret: Seq<u8>)
    requires
        s.escrow_lamports != 0 || (decode(s.escrow_data) is Some && decode(s.escrow_data)->Some_0.initialized),
    ensures
        step(caller, s, seq![OP_OPEN] + secret) == (Err::<(), EscrowError>(EscrowError::AlreadyInitialized), s),
{
    lemma_payload(OP_OPEN, secret);
}

/// Claim by the depositor of an active record with the secret whose digest it
/// holds hands the whole escrow balance to the caller, leaves the escrow
/// empty, and clears the record (as long as the caller's balance can hold it).
pub proof fn law_claim_releases(caller: Seq<u8>, s: LedgerView, secret: Seq<u8>)
    requires
        decode(s.escrow_data) is Some,
        decode(s.escrow_data)->Some_0.initialized,
        decode(s.escrow_data)->Some_0.depositor == caller,
        decode(s.escrow_data)->Some_0.commitment == sha256_of(secret),
        s.caller_lamports + s.escrow_lamports <= u64::MAX,
    ensures
        ({
            let (r, t) = step(caller, s, seq![OP_CLAIM] + secret);
            &&& r is Ok
            &&& t.caller_lamports == s.caller_lamports + s.escrow_lamports
            &&& t.escrow_lamports == 0
            &&& decode(t.escrow_data) == Some(cleared())
            &&& t.escrow_data.len() == s.escrow_data.len()
        }),
{
    lemma_payload(OP_CLAIM, secret);
    lemma_decode_write(s.escrow_data, cleared());
}

/// Claim by the depositor of an active record with a payload whose digest is
/// not the stored commitment fails with `SecretMismatch` and changes nothing.
pub proof fn law_claim_wrong_secret(caller: Seq<u8>, s: LedgerView, secret: Seq<u8>)
    requires
        decode(s.escrow_data) is Some,
        decode(s.escrow_data)->Some_0.initialized,
        decode(s.escrow_data)->Some_0.depositor == caller,
        decode(s.escrow_data)->Some_0.commitment != sha256_of(secret),
    ensures
        step(caller, s, seq![OP_CLAIM] + secret) == (Err::<(), EscrowError>(EscrowError::SecretMismatch), s),
{
    lemma_payload(OP_CLAIM, secret);
}

/// Claim by anyone other than the stored depositor fails with
/// `NotAuthorized` and changes nothing, whatever secret is presented.
pub proof fn law_claim_wrong_caller(caller: Seq<u8>, s: LedgerView, secret: Seq<u8>)
    requires
        decode(s.escrow_data) is Some,
        decode(s.escrow_data)->Some_0.depositor != caller,
    ensures
        step(caller, s, seq![OP_CLAIM] + secret) == (Err::<(), EscrowError>(EscrowError::NotAuthorized), s),
{
    lemma_payload(OP_CLAIM, secret);
}

/// Claim on a record that is not active fails with `NotAuthorized` and
/// changes nothing, whoever calls and whatever secret is presented.
pub proof fn law_claim_needs_active_record(caller: Seq<u8>, s: LedgerView, secret: Seq<u8>)
    requires
        decode(s.escrow_data) is Some,
        !decode(s.escrow_data)->Some_0.initialized,
    ensures
        step(caller, s, seq![OP_CLAIM] + secret) == (Err::<(), EscrowError>(EscrowError::NotAuthorized), s),
{
    lemma_payload(OP_CLAIM, secret);
}

} // verus!
