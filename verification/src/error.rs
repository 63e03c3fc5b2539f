//! Error codes of the pool.

use vstd::prelude::*;

verus! {

/// Errors that the pool reports under a code of its own.
#[derive(Clone, Copy, Debug, PartialEq, Eq, Structural)]
pub enum IWRError {
    /// Incorrect authority provided on update or delete.
    IncorrectAuthority,
    /// A settlement-asset balance is too small for the operation.
    NotEnoughLamports,
    /// An issued-asset balance is too small for the operation.
    NotEnoughTokens,
    /// A checked calculation left the representable range.
    Overflow,
}

impl IWRError {
    /// The numeric code of each error, counted from zero in declaration order.
    pub open spec fn spec_code(self) -> u32 {
        match self {
            IWRError::IncorrectAuthority => 0,
            IWRError::NotEnoughLamports => 1,
            IWRError::NotEnoughTokens => 2,
            IWRError::Overflow => 3,
        }
    }

    /// The error that a numeric code stands for, if any.
    pub open spec fn spec_from_code(code: u32) -> Option<IWRError> {
        if code == 0 {
            Some(IWRError::IncorrectAuthority)
        } else if code == 1 {
            Some(IWRError::NotEnoughLamports)
        } else if code == 2 {
            Some(IWRError::NotEnoughTokens)
        } else if code == 3 {
            Some(IWRError::Overflow)
        } else {
            None
        }
    }

    /// The code under which the host ledger reports this error.
    pub fn code(&self) -> (code: u32)
        ensures
            code == self.spec_code(),
    {
        match self {
            IWRError::IncorrectAuthority => 0,
            IWRError::NotEnoughLamports => 1,
            IWRError::NotEnoughTokens => 2,
            IWRError::Overflow => 3,
        }
    }

    /// Reads an error back from its code.
    pub fn from_code(code: u32) -> (error: Option<IWRError>)
        ensures
            error == Self::spec_from_code(code),
    {
        if code == 0 {
            Some(IWRError::IncorrectAuthority)
        } else if code == 1 {
            Some(IWRError::NotEnoughLamports)
        } else if code == 2 {
            Some(IWRError::NotEnoughTokens)
        } else if code == 3 {
            Some(IWRError::Overflow)
        } else {
            None
        }
    }

    /// The name under which errors of this kind are logged.
    pub fn type_of() -> (name: &'static str)
        ensures
            name@ == "IWR Error"@,
    {
        "IWR Error"
    }

    /// The human-readable text of the error.
    pub fn message(&self) -> (text: &'static str)
        ensures
            text@ == match *self {
                IWRError::IncorrectAuthority => "incorrect authority"@,
                IWRError::NotEnoughLamports => "not enough lamports"@,
                IWRError::NotEnoughTokens => "not enough tokens"@,
                IWRError::Overflow => "Calculation overflow"@,
            },
    {
        match self {
            IWRError::IncorrectAuthority => "incorrect authority",
            IWRError::NotEnoughLamports => "not enough lamports",
            IWRError::NotEnoughTokens => "not enough tokens",
            IWRError::Overflow => "Calculation overflow",
        }
    }

    /// Every error is read back from its own code.
    pub proof fn lemma_code_round_trip(error: IWRError)
        ensures
            Self::spec_from_code(error.spec_code()) == Some(error),
    {
    }
}

/// Why the processor refused an instruction. Nothing has been changed when
/// one of these is returned.
#[derive(Clone, Copy, Debug, PartialEq, Eq, Structural)]
pub enum ProcessError {
    /// The payload is not one of the three instructions.
    MalformedInstruction,
    /// Fewer accounts were supplied than the instruction reads.
    NotEnoughAccountKeys,
    /// A supplied address is not the one derived from the authority.
    AddressMismatch,
    /// The account of the pool record does not hold a record.
    MalformedRecord,
    /// An error of the pool itself, reported under its code.
    Pool(IWRError),
}

} // verus!
