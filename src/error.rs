use vstd::prelude::*;

verus! {

/// Why an invocation failed; every failure aborts the whole transaction.
#[derive(Clone, Copy, Debug, PartialEq, Eq, Structural)]
pub enum HookError {
    /// A supplied address is not the one derived from its seeds.
    AddressMismatch,
    /// The account to create already exists.
    AccountInUse,
    /// The payer cannot fund the new account.
    InsufficientFunds,
    /// The signing proof for a mint is invalid.
    AuthorizationFailed,
    /// The instruction data is not a recognized instruction.
    InvalidInstructionData,
    /// A supplied account does not belong where it was given.
    InvalidAccount,
    /// A counter would exceed its range.
    Overflow,
}

} // verus!
