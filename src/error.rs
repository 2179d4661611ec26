//! Every way an input record can be invalid, and the reporting category of
//! each.

use vstd::prelude::*;
use crate::number::Binary64;

verus! {

/// A validation or domain failure.
#[derive(Clone, Copy, Debug, PartialEq)]
pub enum DomainError {
    /// The id is empty or only whitespace.
    InvalidId,
    /// The diameter (km) is not a finite value above zero.
    InvalidDiameter(Binary64),
    /// The velocity (km/s) is not a finite value of at least zero.
    InvalidVelocity(Binary64),
    /// The close-approach distance is absent, not finite, or negative.
    MissingCloseApproachData,
    /// A named field is invalid or missing.
    InvalidField(&'static str),
    /// A named field holds a value that makes no physical sense.
    NonPhysicalValue { field: &'static str, value: Binary64 },
}

/// How a failure is reported to the caller.
#[derive(Clone, Copy, Debug, PartialEq, Eq, Structural)]
pub enum ErrorCategory {
    /// Malformed or out-of-range data: a client-input failure.
    InvalidInput,
    /// Well-formed but physically meaningless or incomplete data: an
    /// unprocessable entity.
    InvalidDomainData,
}

/// The category of each failure kind.
pub open spec fn category_of(e: DomainError) -> ErrorCategory {
    match e {
        DomainError::InvalidId => ErrorCategory::InvalidInput,
        DomainError::InvalidDiameter(_) => ErrorCategory::InvalidInput,
        DomainError::InvalidVelocity(_) => ErrorCategory::InvalidInput,
        DomainError::InvalidField(_) => ErrorCategory::InvalidInput,
        DomainError::MissingCloseApproachData => ErrorCategory::InvalidDomainData,
        DomainError::NonPhysicalValue { .. } => ErrorCategory::InvalidDomainData,
    }
}

/// Status code with which a category is answered.
pub open spec fn status_of(c: ErrorCategory) -> int {
    match c {
        ErrorCategory::InvalidInput => 400,
        ErrorCategory::InvalidDomainData => 422,
    }
}

impl DomainError {
    /// The reporting category of this failure.
    pub fn category(&self) -> (r: ErrorCategory)
        ensures
            r == category_of(*self),
    {
        match self {
            DomainError::InvalidId
            | DomainError::InvalidDiameter(_)
            | DomainError::InvalidVelocity(_)
            | DomainError::InvalidField(_) => ErrorCategory::InvalidInput,
            DomainError::MissingCloseApproachData
            | DomainError::NonPhysicalValue { .. } => ErrorCategory::InvalidDomainData,
        }
    }
}

impl ErrorCategory {
    /// The `error` label of a failure report.
    pub fn label(&self) -> (r: &'static str)
        ensures
            *self == ErrorCategory::InvalidInput ==> r@ == "invalid_input"@,
            *self == ErrorCategory::InvalidDomainData ==> r@ == "invalid_domain_data"@,
    {
        match self {
            ErrorCategory::InvalidInput => "invalid_input",
            ErrorCategory::InvalidDomainData => "invalid_domain_data",
        }
    }

    /// The status code of a failure report: bad request or unprocessable
    /// entity.
    pub fn status_code(&self) -> (r: u16)
        ensures
            r as int == status_of(*self),
    {
        match self {
            ErrorCategory::InvalidInput => 400,
            ErrorCategory::InvalidDomainData => 422,
        }
    }
}

} // verus!
