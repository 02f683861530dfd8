//! The error kinds a handler or the dispatcher can return.
use vstd::prelude::*;

verus! {

/// Why an invocation was rejected.  Every error aborts the invocation; the
/// host rolls back all writes to accounts this program owns.
#[derive(Clone, Copy, Debug, PartialEq, Eq, Structural)]
pub enum ProgramError {
    /// The designated authority did not sign the transaction.
    MissingRequiredSignature,
    /// The opcode is unknown, or the payload ends before a required argument.
    InvalidInstructionData,
    /// The item record fails to decode, or its lifecycle state forbids the action.
    InvalidAccountData,
    /// A balance is too small for the requested movement.
    InsufficientFunds,
    /// Fewer accounts were supplied than the instruction needs.
    NotEnoughAccountKeys,
    /// The account to be created already holds lamports or data.
    AccountAlreadyInUse,
    /// A lamport balance would exceed the largest representable value.
    ArithmeticOverflow,
}

} // verus!
