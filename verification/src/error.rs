//! The error taxonomy of the vesting contract. Every failed validation or
//! transition aborts the instruction with exactly one of these codes.

use vstd::prelude::*;

verus! {

/// Terminal error codes returned by the contract.
#[derive(Clone, Copy, Debug, PartialEq, Eq, Structural)]
pub enum VestingError {
    /// Malformed or unknown wire tag, or a truncated instruction payload.
    InvalidInstruction,
    /// Address, signature, ownership or state mismatch: wrong derived
    /// address, missing signer, wrong destination, premature or
    /// already-resolved unlock, double initialization.
    InvalidArgument,
    /// Corrupt account contents: wrong record length, an unparsable token
    /// account, or a forbidden delegate or close authority on the escrow.
    InvalidAccountData,
    /// The funding account holds less than the requested lock amount.
    InsufficientFunds,
    /// An unsupported lock duration, or arithmetic overflow while computing
    /// the release time.
    InvalidInstructionData,
}

} // verus!
