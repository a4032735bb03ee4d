//! The service-level error taxonomy. Business-rule failures (a duplicate
//! email, bad credentials) and infrastructure faults (the hashing primitive
//! failing) are distinguished so that a transport layer can map the former to
//! a rejection envelope and the latter to a server fault.

use vstd::prelude::*;
use vstd::string::StringExecFns;

verus! {

/// Why a service call was refused.
#[derive(Clone, Copy, Debug, PartialEq, Eq, Structural)]
pub enum ServiceError {
    /// An account with the given email already exists.
    Conflict,
    /// Bad credentials, or an unknown bearer credential.
    Unauthorized,
    /// No account matches the given email or identifier.
    NotFound,
    /// A field of the request is malformed or out of range.
    InvalidArgument,
    /// An infrastructure fault (the hashing primitive failed).
    Internal,
}

impl ServiceError {
    /// A human-readable message for the response envelope.
    pub fn message(&self) -> (r: String)
        ensures
            *self == ServiceError::Conflict ==> r@ == "User already exists"@,
            *self == ServiceError::Unauthorized ==> r@ == "Invalid credentials"@,
            *self == ServiceError::NotFound ==> r@ == "Not found"@,
            *self == ServiceError::InvalidArgument ==> r@ == "Invalid argument"@,
            *self == ServiceError::Internal ==> r@ == "Internal server error"@,
    {
        match self {
            ServiceError::Conflict => String::from_str("User already exists"),
            ServiceError::Unauthorized => String::from_str("Invalid credentials"),
            ServiceError::NotFound => String::from_str("Not found"),
            ServiceError::InvalidArgument => String::from_str("Invalid argument"),
            ServiceError::Internal => String::from_str("Internal server error"),
        }
    }

    /// Whether the failure is a business rejection that the transport reports
    /// inside a success envelope, rather than an infrastructure fault.
    pub fn is_rejection(&self) -> (r: bool)
        ensures
            r == (*self != ServiceError::Internal),
    {
        match self {
            ServiceError::Internal => false,
            _ => true,
        }
    }
}

} // verus!
