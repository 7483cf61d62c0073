//! What can go wrong, and how a caller is meant to treat it.

use vstd::prelude::*;
use vstd::pervasive::unreached;
use crate::status::{status_from_number, status_number};

verus! {

/// The two classes of failure a transport layer tells apart.
#[derive(Clone, Copy, Debug, PartialEq, Eq, Structural)]
pub enum ErrorClass {
    /// The credential is not acceptable; the caller is at fault.
    Unauthorized,
    /// Anything else; treated as a fault of the service.
    Internal,
}

/// Why no token was issued.
#[derive(Clone, Copy, Debug, PartialEq, Eq, Structural)]
pub enum IssueError {
    /// The validity window cannot be written down: the expiry does not fit in
    /// 64 bits, or the not-before time would fall before the epoch.
    WindowOutOfRange,
    /// The signing library failed.
    Signing,
}

/// Why a presented token was refused.
#[derive(Clone, Copy, Debug, PartialEq, Eq, Structural)]
pub enum VerifyError {
    /// The token's expiry has been reached.
    Expired,
    /// The token's not-before time has not been reached.
    NotYetValid,
    /// The signature does not match, or was made under another algorithm.
    BadSignature,
    /// The token is not three well-formed segments, or its payload does not
    /// carry the four claims.
    Malformed,
    /// Any other failure.
    Internal,
}

/// The class of each verification failure. Only an expired token counts as a
/// bad credential; every other failure is reported as internal.
pub open spec fn verify_error_class(error: VerifyError) -> ErrorClass {
    match error {
        VerifyError::Expired => ErrorClass::Unauthorized,
        _ => ErrorClass::Internal,
    }
}

/// The HTTP status number that stands for a class.
pub open spec fn class_status_number(class: ErrorClass) -> u16 {
    match class {
        ErrorClass::Unauthorized => 401,
        ErrorClass::Internal => 500,
    }
}

impl IssueError {
    /// The class of this failure: always internal.
    pub fn class(&self) -> (class: ErrorClass)
        ensures
            class == ErrorClass::Internal,
    {
        ErrorClass::Internal
    }
}

impl VerifyError {
    /// The class of this failure.
    pub fn class(&self) -> (class: ErrorClass)
        ensures
            class == verify_error_class(*self),
    {
        match self {
            VerifyError::Expired => ErrorClass::Unauthorized,
            _ => ErrorClass::Internal,
        }
    }
}

impl ErrorClass {
    /// The HTTP status number that stands for this class: 401 for
    /// unauthorized, 500 for internal.
    pub fn status_number(&self) -> (number: u16)
        ensures
            number == class_status_number(*self),
    {
        match self {
            ErrorClass::Unauthorized => 401,
            ErrorClass::Internal => 500,
        }
    }

    /// The HTTP status code that stands for this class.
    pub fn status_code(&self) -> (code: hyper::StatusCode)
        ensures
            status_number(code) == class_status_number(*self),
    {
        match status_from_number(self.status_number()) {
            Some(code) => code,
            None => unreached(),
        }
    }
}

} // verus!
