use crate::error::EscrowError;
use vstd::prelude::*;

verus! {

/// Length in bytes of an encoded record: flag, depositor, commitment.
pub const RECORD_LEN: usize = 65;

/// Length in bytes of an identity and of a digest.
pub const KEY_LEN: usize = 32;

/// The persistent state of one escrow.
#[derive(Debug, Clone, Copy, PartialEq, Eq)]
pub struct Escrow {
    pub is_initialized: bool,
    pub depositor_pubkey: [u8; 32],
    pub secret_hash: [u8; 32],
}

/// The mathematical content of a record.
pub struct EscrowModel {
    pub initialized: bool,
    pub depositor: Seq<u8>,
    pub commitment: Seq<u8>,
}

impl View for Escrow {
    type V = EscrowModel;

    open spec fn view(&self) -> EscrowModel {
        EscrowModel {
            initialized: self.is_initialized,
            depositor: self.depositor_pubkey@,
            commitment: self.secret_hash@,
        }
    }
}

/// A record whose identity and digest have their fixed width.
pub open spec fn well_sized(r: EscrowModel) -> bool {
    r.depositor.len() == KEY_LEN && r.commitment.len() == KEY_LEN
}

/// The cleared record: not initialized, both keys all zero.
pub open spec fn cleared() -> EscrowModel {
    EscrowModel {
        initialized: false,
        depositor: Seq::new(32, |i: int| 0u8),
        commitment: Seq::new(32, |i: int| 0u8),
    }
}

/// The on-wire form: `[flag:1][depositor:32][commitment:32]`, flag 1 or 0.
pub open spec fn encode(r: EscrowModel) -> Seq<u8> {
    seq![if r.initialized { 1u8 } else { 0u8 }] + r.depositor + r.commitment
}

/// Reads a record from the first 65 bytes; any nonzero flag byte means initialized.
pub open spec fn decode(b: Seq<u8>) -> Option<EscrowModel> {
    if b.len() < RECORD_LEN {
        None
    } else {
        Some(
            EscrowModel {
                initialized: b[0] != 0,
                depositor: b.subrange(1, 33),
                commitment: b.subrange(33, 65),
            },
        )
    }
}

/// `bytes` with its first 65 bytes replaced by the encoding of `r`.
pub open spec fn write_record(bytes: Seq<u8>, r: EscrowModel) -> Seq<u8> {
    encode(r) + bytes.subrange(RECORD_LEN as int, bytes.len() as int)
}

/// Decoding an encoded record gives the record back.
pub proof fn lemma_decode_encode(r: EscrowModel)
    requires
        well_sized(r),
    ensures
        encode(r).len() == RECORD_LEN,
        decode(encode(r)) == Some(r),
{
    let b = encode(r);
    assert(b.subrange(1, 33) =~= r.depositor);
    assert(b.subrange(33, 65) =~= r.commitment);
}

/// A record written over at least 65 bytes reads back as itself, and the
/// length of the storage is kept.
pub proof fn lemma_decode_write(bytes: Seq<u8>, r: EscrowModel)
    requires
        well_sized(r),
        bytes.len() >= RECORD_LEN,
    ensures
        write_record(bytes, r).len() == bytes.len(),
        decode(write_record(bytes, r)) == Some(r),
{
    let w = write_record(bytes, r);
    assert(w.subrange(1, 33) =~= r.depositor);
    assert(w.subrange(33, 65) =~= r.commitment);
}

/// Every record of fixed width survives encoding and decoding unchanged.
pub proof fn lemma_round_trip(r: Escrow)
    ensures
        decode(encode(r@)) == Some(r@),
{
    lemma_decode_encode(r@);
}

impl Default for Escrow {
    fn default() -> (r: Escrow)
        ensures
            r@ == cleared(),
    {
        let r = Escrow { is_initialized: false, depositor_pubkey: [0u8; 32], secret_hash: [0u8; 32] };
        assert(r.depositor_pubkey@ =~= cleared().depositor);
        assert(r.secret_hash@ =~= cleared().commitment);
        r
    }
}

impl Escrow {
    /// Whether the record holds an active escrow.
    pub fn is_initialized(&self) -> (r: bool)
        ensures
            r == self.is_initialized,
    {
        self.is_initialized
    }

    /// Writes the record over the first 65 bytes of `dst`, keeping the rest.
    pub fn pack_into_slice(&self, dst: &mut Vec<u8>)
        requires
            old(dst).len() >= RECORD_LEN,
        ensures
            final(dst)@ == write_record(old(dst)@, self@),
    {
        dst.set(0, if self.is_initialized { 1u8 } else { 0u8 });
        let mut i: usize = 0;
        while i < KEY_LEN
            invariant
                i <= KEY_LEN,
                dst.len() == old(dst).len(),
                old(dst).len() >= RECORD_LEN,
                dst@[0] == (if self.is_initialized { 1u8 } else { 0u8 }),
                forall|j: int| 0 <= j < i ==> dst@[1 + j] == self.depositor_pubkey@[j],
                forall|j: int| 0 <= j < i ==> dst@[33 + j] == self.secret_hash@[j],
                forall|j: int| RECORD_LEN <= j < dst.len() ==> dst@[j] == old(dst)@[j],
            decreases KEY_LEN - i,
        {
            dst.set(1 + i, self.depositor_pubkey[i]);
            dst.set(33 + i, self.secret_hash[i]);
            i = i + 1;
        }
        assert(dst@ =~= write_record(old(dst)@, self@));
    }

    /// Reads a record from the first 65 bytes of `src`; any nonzero flag byte
    /// reads as initialized, and fewer than 65 bytes are `MalformedRecord`.
    pub fn unpack_from_slice(src: &[u8]) -> (r: Result<Escrow, EscrowError>)
        ensures
            match decode(src@) {
                None => r == Err::<Escrow, EscrowError>(EscrowError::MalformedRecord),
                Some(m) => r is Ok && r->Ok_0@ == m,
            },
    {
        if src.len() < RECORD_LEN {
            return Err(EscrowError::MalformedRecord);
        }
        let mut depositor_pubkey = [0u8; 32];
        let mut secret_hash = [0u8; 32];
        let mut i: usize = 0;
        while i < KEY_LEN
            invariant
                i <= KEY_LEN,
                src.len() >= RECORD_LEN,
                forall|j: int| 0 <= j < i ==> depositor_pubkey@[j] == src@[1 + j],
                forall|j: int| 0 <= j < i ==> secret_hash@[j] == src@[33 + j],
            decreases KEY_LEN - i,
        {
            depositor_pubkey[i] = src[1 + i];
            secret_hash[i] = src[33 + i];
            i = i + 1;
        }
        let r = Escrow { is_initialized: src[0] != 0, depositor_pubkey, secret_hash };
        assert(r.depositor_pubkey@ =~= src@.subrange(1, 33));
        assert(r.secret_hash@ =~= src@.subrange(33, 65));
        Ok(r)
    }
}

} // verus!
