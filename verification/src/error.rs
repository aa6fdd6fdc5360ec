//! The closed set of failures a memo request can end in.

use vstd::prelude::*;

verus! {

/// Every failure that is reported to the caller. Several kinds are reserved
/// for checks that no entry operation performs yet; they are kept so that the
/// set stays stable when such checks arrive.
#[derive(Clone, Copy, Debug, PartialEq, Eq, Structural)]
pub enum MemoProgramError {
    /// Reported when the payload is not valid UTF-8. The name is historical:
    /// no length limit is enforced.
    MemoTooLarge,
    MissingSigner,
    FirstAccountNotSigner,
    InvalidSystemProgram,
    InvalidDerivedAddress,
    HashingFailed,
    SerializationFailed,
    InvalidInputData,
}

impl MemoProgramError {
    /// The text that goes with each kind.
    pub open spec fn spec_message(self) -> Seq<char> {
        match self {
            MemoProgramError::MemoTooLarge => "Memo exceeds maximum allowed size"@,
            MemoProgramError::MissingSigner => "At least one signer is required"@,
            MemoProgramError::FirstAccountNotSigner => "The first account must be a signer"@,
            MemoProgramError::InvalidSystemProgram => "Invalid system program account"@,
            MemoProgramError::InvalidDerivedAddress => "Derived address does not match PDA"@,
            MemoProgramError::HashingFailed => "Failed to hash input data"@,
            MemoProgramError::SerializationFailed => "Failed to serialize account data"@,
            MemoProgramError::InvalidInputData => "Invalid input data"@,
        }
    }

    /// The text that goes with the kind, for logs and for the host.
    pub fn message(&self) -> (text: &'static str)
        ensures
            text@ == self.spec_message(),
    {
        match self {
            MemoProgramError::MemoTooLarge => "Memo exceeds maximum allowed size",
            MemoProgramError::MissingSigner => "At least one signer is required",
            MemoProgramError::FirstAccountNotSigner => "The first account must be a signer",
            MemoProgramError::InvalidSystemProgram => "Invalid system program account",
            MemoProgramError::InvalidDerivedAddress => "Derived address does not match PDA",
            MemoProgramError::HashingFailed => "Failed to hash input data",
            MemoProgramError::SerializationFailed => "Failed to serialize account data",
            MemoProgramError::InvalidInputData => "Invalid input data",
        }
    }
}

/// Why a request was turned down, before the cause is folded into the kinds
/// that callers see.
#[derive(Clone, Copy, Debug, PartialEq, Eq, Structural)]
pub enum Rejection {
    /// The signing policy of the path was not met.
    MissingSigner,
    /// The payload is not well-formed UTF-8.
    InvalidEncoding,
    /// The hash primitive refused the payload.
    HashRejected,
    /// The payload has no canonical stored form.
    SerializationRejected,
}

impl Rejection {
    /// The kind under which a cause is reported. An encoding failure is
    /// reported as `MemoTooLarge`, the kind callers have always seen for it.
    pub open spec fn reported(self) -> MemoProgramError {
        match self {
            Rejection::MissingSigner => MemoProgramError::MissingSigner,
            Rejection::InvalidEncoding => MemoProgramError::MemoTooLarge,
            Rejection::HashRejected => MemoProgramError::HashingFailed,
            Rejection::SerializationRejected => MemoProgramError::SerializationFailed,
        }
    }

    /// Folds a cause into the kind reported for it.
    pub fn report(self) -> (kind: MemoProgramError)
        ensures
            kind == self.reported(),
    {
        match self {
            Rejection::MissingSigner => MemoProgramError::MissingSigner,
            Rejection::InvalidEncoding => MemoProgramError::MemoTooLarge,
            Rejection::HashRejected => MemoProgramError::HashingFailed,
            Rejection::SerializationRejected => MemoProgramError::SerializationFailed,
        }
    }
}

} // verus!
