use vstd::prelude::*;

verus! {

/// Every way an escrow operation can fail.
#[derive(Debug, Clone, Copy, PartialEq, Eq, Structural)]
pub enum EscrowError {
    /// Open on an account that already holds value or an active record.
    AlreadyInitialized,
    /// Claim by anyone but the depositor of an active record.
    NotAuthorized,
    /// Claim whose payload does not hash to the stored commitment.
    SecretMismatch,
    /// An instruction whose opcode is neither Open nor Claim.
    UnrecognizedOperation,
    /// Stored bytes shorter than a record.
    MalformedRecord,
    /// The caller cannot pay the deposit.
    InsufficientFunds,
    /// A balance would leave the range of a `u64`.
    ArithmeticOverflow,
}

} // verus!
