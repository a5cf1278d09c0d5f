//! The named errors with which an operation is refused.

use vstd::prelude::*;

verus! {

/// Why an operation was refused. The first check that fails decides the
/// error; nothing has been written when one is returned.
#[derive(Clone, Copy, Debug, PartialEq, Eq, Structural)]
pub enum AccessError {
    /// The account list is shorter than the operation's fixed layout.
    NotEnoughAccountKeys,
    /// An account is not controlled by the program that must control it.
    WrongOwner,
    /// The owner of the stake account did not sign.
    StakePoolOwnerMustSign,
    /// The account that pays for a new pool did not sign.
    FeePayerMustSign,
    /// The account in the system program's position is another one.
    WrongSystemProgram,
    /// The account in the rent sysvar's position is another one.
    WrongRent,
    /// The pool account's address is not the one derived from the parameters.
    AccountNotDeterministic,
    /// The signer is not the owner that the stake account records.
    WrongStakePoolOwner,
    /// The stake account still holds stake.
    AccountNotEmpty,
    /// The account's bytes do not decode to the expected kind of record.
    DeserializationError,
    /// The vault is not a custody account held for the pool.
    InvalidVault,
}

/// The three classes of failure that a caller can tell apart.
#[derive(Clone, Copy, Debug, PartialEq, Eq, Structural)]
pub enum ErrorKind {
    /// The accounts or parameters supplied are not the ones the operation needs.
    BadInput,
    /// A required authorization is missing.
    Unauthorized,
    /// The persisted state does not allow the operation.
    InvalidState,
}

impl AccessError {
    /// The class of an error.
    pub open spec fn spec_kind(self) -> ErrorKind {
        match self {
            AccessError::NotEnoughAccountKeys => ErrorKind::BadInput,
            AccessError::WrongOwner => ErrorKind::BadInput,
            AccessError::WrongSystemProgram => ErrorKind::BadInput,
            AccessError::WrongRent => ErrorKind::BadInput,
            AccessError::AccountNotDeterministic => ErrorKind::BadInput,
            AccessError::InvalidVault => ErrorKind::BadInput,
            AccessError::StakePoolOwnerMustSign => ErrorKind::Unauthorized,
            AccessError::FeePayerMustSign => ErrorKind::Unauthorized,
            AccessError::WrongStakePoolOwner => ErrorKind::Unauthorized,
            AccessError::AccountNotEmpty => ErrorKind::InvalidState,
            AccessError::DeserializationError => ErrorKind::InvalidState,
        }
    }

    /// The class of this error.
    pub fn kind(&self) -> (r: ErrorKind)
        ensures
            r == self.spec_kind(),
    {
        match self {
            AccessError::NotEnoughAccountKeys
            | AccessError::WrongOwner
            | AccessError::WrongSystemProgram
            | AccessError::WrongRent
            | AccessError::AccountNotDeterministic
            | AccessError::InvalidVault => ErrorKind::BadInput,
            AccessError::StakePoolOwnerMustSign
            | AccessError::FeePayerMustSign
            | AccessError::WrongStakePoolOwner => ErrorKind::Unauthorized,
            AccessError::AccountNotEmpty | AccessError::DeserializationError => ErrorKind::InvalidState,
        }
    }
}

} // verus!
