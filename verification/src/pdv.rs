//! The certificate, trust anchor and path values that the environment hands
//! to its handlers. The environment itself never looks inside them.

use vstd::prelude::*;

use crate::error::PathValidationStatus;

verus! {

/// A certificate, held in its DER encoding.
pub struct PDVCertificate {
    pub encoded_cert: Vec<u8>,
}

/// A trust anchor, held in the DER encoding of its `TrustAnchorChoice`.
pub struct PDVTrustAnchorChoice {
    pub encoded_ta: Vec<u8>,
}

/// A candidate certification path: target, intermediate CA certificates
/// (ordered from the target towards the trust anchor) and trust anchor.
pub struct CertificationPath {
    pub target: PDVCertificate,
    pub intermediates: Vec<PDVCertificate>,
    pub trust_anchor: PDVTrustAnchorChoice,
}

/// Settings that govern certification path processing.
pub struct CertificationPathSettings {
    /// Time at which validity is judged, in seconds since the Unix epoch;
    /// 0 disables validity period checks.
    pub time_of_interest: u64,
}

/// What path processing found.
pub struct CertificationPathResults {
    pub validation_status: Option<PathValidationStatus>,
}

} // verus!
