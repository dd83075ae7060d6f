//! Errors: the program's own error codes, and the reasons for which the
//! processor refuses an instruction.

use vstd::prelude::*;

verus! {

/// Custom error codes of the escrow program.
#[derive(Clone, Copy, Debug, PartialEq, Eq, Structural)]
pub enum EscrowError {
    InvalidState,
    Unauthorized,
    AmountMismatch,
}

impl EscrowError {
    /// The number under which the runtime reports this error: its position
    /// among the variants.
    pub open spec fn spec_code(self) -> u32 {
        match self {
            EscrowError::InvalidState => 0,
            EscrowError::Unauthorized => 1,
            EscrowError::AmountMismatch => 2,
        }
    }

    /// The number under which the runtime reports this error.
    pub fn code(&self) -> (c: u32)
        ensures
            c == self.spec_code(),
    {
        match self {
            EscrowError::InvalidState => 0,
            EscrowError::Unauthorized => 1,
            EscrowError::AmountMismatch => 2,
        }
    }
}

/// Why an instruction was refused; each variant is the runtime's program
/// error of the same name, but `NoViableProgramAddress`, which stands for
/// the abort that follows when no bump seed yields a program address.
#[derive(Clone, Copy, Debug, PartialEq, Eq, Structural)]
pub enum ProcessError {
    Custom(u32),
    InvalidArgument,
    InvalidInstructionData,
    InvalidAccountData,
    MissingRequiredSignature,
    NotEnoughAccountKeys,
    InvalidSeeds,
    IllegalOwner,
    ArithmeticOverflow,
    NoViableProgramAddress,
}

impl From<EscrowError> for ProcessError {
    fn from(e: EscrowError) -> (r: ProcessError) {
        ProcessError::Custom(e.code())
    }
}

impl vstd::std_specs::convert::FromSpecImpl<EscrowError> for ProcessError {
    open spec fn obeys_from_spec() -> bool {
        true
    }

    open spec fn from_spec(e: EscrowError) -> ProcessError {
        ProcessError::Custom(e.spec_code())
    }
}

/// Distinct escrow errors are reported under distinct custom codes.
pub proof fn lemma_escrow_error_codes_distinct(a: EscrowError, b: EscrowError)
    ensures
        a.spec_code() == b.spec_code() <==> a == b,
{
}

} // verus!
