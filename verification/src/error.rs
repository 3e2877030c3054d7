//! Errors of the certificate authority and their classification.

use openssl::error::ErrorStack;
use vstd::prelude::*;

verus! {

/// How the operating system classified a failed filesystem operation.
#[derive(Clone, Copy, Debug, PartialEq, Eq, Structural)]
pub enum IoKind {
    NotFound,
    PermissionDenied,
    AlreadyExists,
    StorageFull,
    Other,
}

/// A failed filesystem operation, as reported by whoever performed it: how
/// the operating system classified it, its error code where there is one,
/// and its message.
#[derive(Debug)]
pub struct IoFailure {
    pub kind: IoKind,
    pub os_code: Option<i32>,
    pub message: String,
}

/// Why an operation of the certificate authority failed.
#[derive(Debug)]
pub enum CAError {
    /// Key generation, certificate or request construction, signing,
    /// serialization or parsing failed inside OpenSSL.
    OpenSslError(ErrorStack),
    /// A file could not be read or written.
    IOError(IoFailure),
}

impl CAError {
    /// The failure is a file that does not exist: the one failure a first
    /// start recovers from.
    pub open spec fn is_not_found(self) -> bool {
        self matches CAError::IOError(f) && f.kind == IoKind::NotFound
    }

    /// The failure arose inside OpenSSL.
    pub open spec fn is_crypto(self) -> bool {
        self is OpenSslError
    }

    /// Whether the failure is a file that does not exist.
    pub fn not_found(&self) -> (b: bool)
        ensures
            b == self.is_not_found(),
    {
        match self {
            CAError::OpenSslError(_) => false,
            CAError::IOError(f) => f.kind == IoKind::NotFound,
        }
    }
}

impl From<ErrorStack> for CAError {
    fn from(es: ErrorStack) -> (e: CAError) {
        CAError::OpenSslError(es)
    }
}

impl vstd::std_specs::convert::FromSpecImpl<ErrorStack> for CAError {
    open spec fn obeys_from_spec() -> bool {
        true
    }

    open spec fn from_spec(es: ErrorStack) -> CAError {
        CAError::OpenSslError(es)
    }
}

impl From<IoFailure> for CAError {
    fn from(f: IoFailure) -> (e: CAError) {
        CAError::IOError(f)
    }
}

impl vstd::std_specs::convert::FromSpecImpl<IoFailure> for CAError {
    open spec fn obeys_from_spec() -> bool {
        true
    }

    open spec fn from_spec(f: IoFailure) -> CAError {
        CAError::IOError(f)
    }
}

} // verus!
