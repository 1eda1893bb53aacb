//! Error kinds of the record program.
use vstd::prelude::*;

verus! {

/// Errors that the record program may return.
#[derive(Debug, Clone, Copy, PartialEq, Eq, Structural)]
pub enum InsuranceContractError {
    /// Malformed or unrecognised instruction encoding.
    InvalidInstruction,
    /// Close attempted on a record that was never initialized.
    NotInitialized,
    /// Initialize attempted on a record that is already initialized.
    AlreadyInitialized,
    /// Close attempted twice, or Initialize attempted after close.
    AlreadyClosed,
    /// The authority's signature is absent.
    MissingAuthorization,
    /// The record's storage is not owned by this program.
    IncorrectOwner,
    /// The funding held by the record is below the retention minimum.
    InsufficientFunding,
    /// The record buffer is shorter than the record layout.
    DecodingError,
}

impl InsuranceContractError {
    /// The stable numeric code of each error kind.
    pub open spec fn spec_code(self) -> u32 {
        match self {
            InsuranceContractError::InvalidInstruction => 0,
            InsuranceContractError::NotInitialized => 1,
            InsuranceContractError::AlreadyInitialized => 2,
            InsuranceContractError::AlreadyClosed => 3,
            InsuranceContractError::MissingAuthorization => 4,
            InsuranceContractError::IncorrectOwner => 5,
            InsuranceContractError::InsufficientFunding => 6,
            InsuranceContractError::DecodingError => 7,
        }
    }

    /// The stable numeric code of this error, for a host's generic error channel.
    pub fn code(&self) -> (r: u32)
        ensures
            r == self.spec_code(),
    {
        match self {
            InsuranceContractError::InvalidInstruction => 0,
            InsuranceContractError::NotInitialized => 1,
            InsuranceContractError::AlreadyInitialized => 2,
            InsuranceContractError::AlreadyClosed => 3,
            InsuranceContractError::MissingAuthorization => 4,
            InsuranceContractError::IncorrectOwner => 5,
            InsuranceContractError::InsufficientFunding => 6,
            InsuranceContractError::DecodingError => 7,
        }
    }

    /// The error kind with the given numeric code, if any.
    pub fn from_code(code: u32) -> (r: Option<InsuranceContractError>)
        ensures
            r.is_some() <==> code < 8,
            r matches Some(e) ==> e.spec_code() == code,
    {
        if code == 0 {
            Some(InsuranceContractError::InvalidInstruction)
        } else if code == 1 {
            Some(InsuranceContractError::NotInitialized)
        } else if code == 2 {
            Some(InsuranceContractError::AlreadyInitialized)
        } else if code == 3 {
            Some(InsuranceContractError::AlreadyClosed)
        } else if code == 4 {
            Some(InsuranceContractError::MissingAuthorization)
        } else if code == 5 {
            Some(InsuranceContractError::IncorrectOwner)
        } else if code == 6 {
            Some(InsuranceContractError::InsufficientFunding)
        } else if code == 7 {
            Some(InsuranceContractError::DecodingError)
        } else {
            None
        }
    }
}

} // verus!
