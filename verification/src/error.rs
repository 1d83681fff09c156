//! Errors and path validation statuses reported by the environment and its handlers.

use vstd::prelude::*;

verus! {

/// Outcome of certification path validation or of a revocation status check.
#[derive(Clone, Copy, Debug, PartialEq, Eq, Structural)]
pub enum PathValidationStatus {
    Valid,
    NoPathsFound,
    InvalidNotAfterDate,
    InvalidNotBeforeDate,
    CertificateRevoked,
    CertificateRevokedEndEntity,
    CertificateRevokedIntermediateCa,
    CertificateOnHold,
    RevocationStatusNotDetermined,
    RevocationStatusNotAvailable,
    SignatureVerificationFailure,
    MissingTrustAnchor,
}

/// Errors reported by the environment and by the handlers registered with it.
#[derive(Clone, Copy, Debug, PartialEq, Eq, Structural)]
pub enum Error {
    /// No handler gave an authoritative answer.
    Unrecognized,
    /// The requested item was not found.
    NotFound,
    /// A length was out of range.
    LengthError,
    /// Data could not be parsed.
    ParseError,
    /// A certification path failed validation with the given status.
    PathValidation(PathValidationStatus),
    /// Any other failure.
    Misc,
}

/// Result type used throughout the environment.
pub type Result<T> = core::result::Result<T, Error>;

} // verus!
