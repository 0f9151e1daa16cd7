//! Errors.
use vstd::prelude::*;

verus! {

/// Custom program errors.
#[derive(Clone, Copy, Debug, PartialEq, Eq, Structural)]
pub enum BoostError {
    Dummy,
}

impl BoostError {
    /// The error code of the variant.
    pub fn code(&self) -> (r: u32)
        ensures
            r == 0,
    {
        match self {
            BoostError::Dummy => 0,
        }
    }
}

/// The standard program errors the instructions raise.
#[derive(Clone, Copy, Debug, PartialEq, Eq, Structural)]
pub enum ProgramError {
    /// Fewer accounts than the instruction reads.
    NotEnoughAccountKeys,
    /// An account's data does not satisfy a check.
    InvalidAccountData,
    /// Instruction data cannot be parsed.
    InvalidInstructionData,
    /// A required signature is missing.
    MissingRequiredSignature,
    /// An account is not owned by the expected program.
    InvalidAccountOwner,
    /// An account holds no data.
    UninitializedAccount,
    /// An account is not at the expected address.
    InvalidSeeds,
    /// The instruction was sent to another program.
    IncorrectProgramId,
    /// An arithmetic operation overflowed.
    ArithmeticOverflow,
    /// An account expected to be empty already holds data.
    AccountAlreadyInitialized,
}

} // verus!
