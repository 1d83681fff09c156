//! The services that can be registered with a `PkiEnvironment`. Each is a
//! trait for users of the environment to implement. Each method's answer is
//! described by a spec predicate that the implementation defines; the
//! environment's contracts are stated over those predicates. A predicate
//! that an implementation leaves as it is holds of every answer: such an
//! implementation promises nothing. Handlers that
//! need other services of the environment reach it through [`PkiServices`],
//! whose contracts are those of the environment's own services.

use vstd::prelude::*;

use crate::error::{PathValidationStatus, Result};
use crate::handle::Handle;
use crate::oid::Oid;
use crate::pdv::{
    CertificationPath, CertificationPathResults, CertificationPathSettings, PDVCertificate,
    PDVTrustAnchorChoice,
};
use spki::{AlgorithmIdentifierOwned, SubjectPublicKeyInfoOwned};
use x509_cert::crl::CertificateList;

verus! {

/// The services of an environment, as its handlers see it. Each method
/// answers as the environment's method of the same name does when the
/// environment itself is handed on to the handlers; the predicate beside
/// each method, which the environment defines, says which answers it may
/// give. Where a service hands a services object on to its handlers, the
/// predicate says that the handlers answered for some services object, not
/// which one: a spec function cannot name the environment as a trait object.
pub trait PkiServices {
    /// Holds when path validation may answer `answer` for `cps`, turning
    /// `cp`, `cpr` into `cp_after`, `cpr_after`.
    spec fn validation_outcome(
        &self,
        cps: CertificationPathSettings,
        cp: CertificationPath,
        cpr: CertificationPathResults,
        cp_after: CertificationPath,
        cpr_after: CertificationPathResults,
        answer: Result<()>,
    ) -> bool;

    /// Holds when hashing may answer `answer` for `buffer` under `hash_alg`.
    spec fn hash_outcome(&self, hash_alg: AlgorithmIdentifierOwned, buffer: Seq<u8>, answer: Result<Vec<u8>>) -> bool;

    /// Holds when digest signature verification may answer `answer`.
    spec fn digest_verdict_outcome(
        &self,
        hash: Seq<u8>,
        signature: Seq<u8>,
        signature_alg: AlgorithmIdentifierOwned,
        spki: SubjectPublicKeyInfoOwned,
        answer: Result<()>,
    ) -> bool;

    /// Holds when message signature verification may answer `answer`.
    spec fn message_verdict_outcome(
        &self,
        message: Seq<u8>,
        signature: Seq<u8>,
        signature_alg: AlgorithmIdentifierOwned,
        spki: SubjectPublicKeyInfoOwned,
        answer: Result<()>,
    ) -> bool;

    /// Holds when the trust anchor lookup by `skid` may answer `answer`.
    spec fn anchor_by_skid_outcome(&self, skid: Seq<u8>, answer: Result<&PDVTrustAnchorChoice>) -> bool;

    /// Holds when the request for all trust anchors may answer `answer`.
    spec fn all_anchors_outcome(&self, answer: Result<Vec<&PDVTrustAnchorChoice>>) -> bool;

    /// Holds when the trust anchor lookup by `hex_skid` may answer `answer`.
    spec fn anchor_by_hex_skid_outcome(&self, hex_skid: Seq<char>, answer: Result<&PDVTrustAnchorChoice>) -> bool;

    /// Holds when the trust anchor lookup for `target` may answer `answer`.
    spec fn anchor_for_target_outcome(&self, target: PDVCertificate, answer: Result<&PDVTrustAnchorChoice>) -> bool;

    /// Holds when the check that `target` is a trust anchor may answer `answer`.
    spec fn cert_recognition_outcome(&self, target: PDVCertificate, answer: Result<()>) -> bool;

    /// Holds when the check that `target` is a trust anchor may answer `answer`.
    spec fn anchor_recognition_outcome(&self, target: PDVTrustAnchorChoice, answer: Result<()>) -> bool;

    /// Holds when the CRL request for `cert` may answer `answer`.
    spec fn crls_outcome(&self, cert: PDVCertificate, answer: Result<Vec<Vec<u8>>>) -> bool;

    /// Holds when offering a CRL may answer `answer`.
    spec fn crl_taken_outcome(&self, crl_buf: Seq<u8>, crl: CertificateList, uri: Seq<char>, answer: Result<()>) -> bool;

    /// Holds when the status request for `cert` may answer `answer`.
    spec fn status_outcome(&self, cert: PDVCertificate, time_of_interest: u64, answer: PathValidationStatus) -> bool;

    /// Holds once every revocation status cache has been handed `status`.
    spec fn status_recorded_everywhere(&self, cert: PDVCertificate, next_update: u64, status: PathValidationStatus) -> bool;

    /// Holds when path building for `target` may answer `answer`, turning
    /// `paths` into `paths_after`.
    spec fn building_outcome(
        &self,
        target: PDVCertificate,
        paths: Seq<CertificationPath>,
        paths_after: Seq<CertificationPath>,
        threshold: usize,
        time_of_interest: u64,
        answer: Result<()>,
    ) -> bool;

    /// Holds when naming `oid` may answer `answer`.
    spec fn naming_outcome(&self, oid: Oid, answer: Seq<char>) -> bool;

    /// Holds when the last-modified request for `uri` may answer `answer`.
    spec fn last_modified_outcome(&self, uri: Seq<char>, answer: Option<String>) -> bool;

    /// Holds once every remote resource checker has been handed
    /// `last_modified` for `uri`.
    spec fn last_modified_recorded_everywhere(&self, uri: Seq<char>, last_modified: Seq<char>) -> bool;

    /// Holds when the blocklist check of `uri` may answer `answer`.
    spec fn blocklist_outcome(&self, uri: Seq<char>, answer: bool) -> bool;

    /// Holds once every remote resource checker has been handed `uri` for its
    /// blocklist.
    spec fn blocklist_recorded_everywhere(&self, uri: Seq<char>) -> bool;

    fn validate_path(
        &self,
        cps: &CertificationPathSettings,
        cp: &mut CertificationPath,
        cpr: &mut CertificationPathResults,
    ) -> (r: Result<()>)
        ensures
            self.validation_outcome(*cps, *old(cp), *old(cpr), *final(cp), *final(cpr), r),
    ;

    fn calculate_hash(&self, hash_alg: &AlgorithmIdentifierOwned, buffer_to_hash: &[u8]) -> (r: Result<Vec<u8>>)
        ensures
            self.hash_outcome(*hash_alg, buffer_to_hash@, r),
    ;

    fn verify_signature_digest(
        &self,
        hash_to_verify: &[u8],
        signature: &[u8],
        signature_alg: &AlgorithmIdentifierOwned,
        spki: &SubjectPublicKeyInfoOwned,
    ) -> (r: Result<()>)
        ensures
            self.digest_verdict_outcome(hash_to_verify@, signature@, *signature_alg, *spki, r),
    ;

    fn verify_signature_message(
        &self,
        message_to_verify: &[u8],
        signature: &[u8],
        signature_alg: &AlgorithmIdentifierOwned,
        spki: &SubjectPublicKeyInfoOwned,
    ) -> (r: Result<()>)
        ensures
            self.message_verdict_outcome(message_to_verify@, signature@, *signature_alg, *spki, r),
    ;

    fn get_trust_anchor(&self, skid: &[u8]) -> (r: Result<&PDVTrustAnchorChoice>)
        ensures
            self.anchor_by_skid_outcome(skid@, r),
    ;

    fn get_trust_anchors(&self) -> (r: Result<Vec<&PDVTrustAnchorChoice>>)
        ensures
            self.all_anchors_outcome(r),
    ;

    fn get_trust_anchor_by_hex_skid(&self, hex_skid: &str) -> (r: Result<&PDVTrustAnchorChoice>)
        ensures
            self.anchor_by_hex_skid_outcome(hex_skid@, r),
    ;

    fn get_trust_anchor_for_target(&self, target: &PDVCertificate) -> (r: Result<&PDVTrustAnchorChoice>)
        ensures
            self.anchor_for_target_outcome(*target, r),
    ;

    fn is_cert_a_trust_anchor(&self, target: &PDVCertificate) -> (r: Result<()>)
        ensures
            self.cert_recognition_outcome(*target, r),
    ;

    fn is_trust_anchor(&self, target: &PDVTrustAnchorChoice) -> (r: Result<()>)
        ensures
            self.anchor_recognition_outcome(*target, r),
    ;

    fn get_crls(&self, cert: &PDVCertificate) -> (r: Result<Vec<Vec<u8>>>)
        ensures
            self.crls_outcome(*cert, r),
    ;

    fn add_crl(&self, crl_buf: &[u8], crl: &CertificateList, uri: &str) -> (r: Result<()>)
        ensures
            self.crl_taken_outcome(crl_buf@, *crl, uri@, r),
    ;

    fn get_status(&self, cert: &PDVCertificate, time_of_interest: u64) -> (r: PathValidationStatus)
        ensures
            self.status_outcome(*cert, time_of_interest, r),
    ;

    fn add_status(&self, cert: &PDVCertificate, next_update: u64, status: PathValidationStatus)
        ensures
            self.status_recorded_everywhere(*cert, next_update, status),
    ;

    fn get_paths_for_target(
        &self,
        target: &PDVCertificate,
        paths: &mut Vec<CertificationPath>,
        threshold: usize,
        time_of_interest: u64,
    ) -> (r: Result<()>)
        ensures
            self.building_outcome(*target, old(paths)@, final(paths)@, threshold, time_of_interest, r),
    ;

    fn oid_lookup(&self, oid: &Oid) -> (r: String)
        ensures
            self.naming_outcome(*oid, r@),
    ;

    fn get_last_modified(&self, uri: &str) -> (r: Option<String>)
        ensures
            self.last_modified_outcome(uri@, r),
    ;

    fn set_last_modified(&self, uri: &str, last_modified: &str)
        ensures
            self.last_modified_recorded_everywhere(uri@, last_modified@),
    ;

    fn check_blocklist(&self, uri: &str) -> (r: bool)
        ensures
            self.blocklist_outcome(uri@, r),
    ;

    fn add_to_blocklist(&self, uri: &str)
        ensures
            self.blocklist_recorded_everywhere(uri@),
    ;
}

/// Validates a certification path.
pub trait ValidatePath {
    /// Holds when this validator, handed the services object `pe`, may answer
    /// `answer` to `cps` and the path and results `cp`, `cpr`, leaving them
    /// as `cp_after`, `cpr_after`.
    open spec fn validation(
        &self,
        pe: Handle<'_, dyn PkiServices>,
        cps: CertificationPathSettings,
        cp: CertificationPath,
        cpr: CertificationPathResults,
        cp_after: CertificationPath,
        cpr_after: CertificationPathResults,
        answer: Result<()>,
    ) -> bool {
        true
    }

    fn validate_path(
        &self,
        pe: Handle<'_, dyn PkiServices>,
        cps: &CertificationPathSettings,
        cp: &mut CertificationPath,
        cpr: &mut CertificationPathResults,
    ) -> (r: Result<()>)
        ensures
            self.validation(pe, *cps, *old(cp), *old(cpr), *final(cp), *final(cpr), r),
    ;
}

/// Computes a message digest.
pub trait CalculateHash {
    /// Holds when this handler, handed the services object `pe`, may answer
    /// `answer` for the digest of `buffer` under `hash_alg`.
    open spec fn hashing(
        &self,
        pe: Handle<'_, dyn PkiServices>,
        hash_alg: AlgorithmIdentifierOwned,
        buffer: Seq<u8>,
        answer: Result<Vec<u8>>,
    ) -> bool {
        true
    }

    fn calculate_hash(
        &self,
        pe: Handle<'_, dyn PkiServices>,
        hash_alg: &AlgorithmIdentifierOwned,
        buffer_to_hash: &[u8],
    ) -> (r: Result<Vec<u8>>)
        ensures
            self.hashing(pe, *hash_alg, buffer_to_hash@, r),
    ;
}

/// Verifies a signature over a digest.
pub trait VerifySignatureDigest {
    /// Holds when this verifier, handed the services object `pe`, may answer
    /// `answer` for `signature` over `hash` under `signature_alg` and `spki`.
    open spec fn digest_verdict(
        &self,
        pe: Handle<'_, dyn PkiServices>,
        hash: Seq<u8>,
        signature: Seq<u8>,
        signature_alg: AlgorithmIdentifierOwned,
        spki: SubjectPublicKeyInfoOwned,
        answer: Result<()>,
    ) -> bool {
        true
    }

    fn verify_signature_digest(
        &self,
        pe: Handle<'_, dyn PkiServices>,
        hash_to_verify: &[u8],
        signature: &[u8],
        signature_alg: &AlgorithmIdentifierOwned,
        spki: &SubjectPublicKeyInfoOwned,
    ) -> (r: Result<()>)
        ensures
            self.digest_verdict(pe, hash_to_verify@, signature@, *signature_alg, *spki, r),
    ;
}

/// Verifies a signature over a message.
pub trait VerifySignatureMessage {
    /// Holds when this verifier, handed the services object `pe`, may answer
    /// `answer` for `signature` over `message` under `signature_alg` and
    /// `spki`.
    open spec fn message_verdict(
        &self,
        pe: Handle<'_, dyn PkiServices>,
        message: Seq<u8>,
        signature: Seq<u8>,
        signature_alg: AlgorithmIdentifierOwned,
        spki: SubjectPublicKeyInfoOwned,
        answer: Result<()>,
    ) -> bool {
        true
    }

    fn verify_signature_message(
        &self,
        pe: Handle<'_, dyn PkiServices>,
        message_to_verify: &[u8],
        signature: &[u8],
        signature_alg: &AlgorithmIdentifierOwned,
        spki: &SubjectPublicKeyInfoOwned,
    ) -> (r: Result<()>)
        ensures
            self.message_verdict(pe, message_to_verify@, signature@, *signature_alg, *spki, r),
    ;
}

/// Gives a friendly name for an OID.
pub trait OidLookup {
    /// Holds when this lookup may answer `answer` for `oid`.
    open spec fn naming(&self, oid: Oid, answer: Result<String>) -> bool {
        true
    }

    fn oid_lookup(&self, oid: &Oid) -> (r: Result<String>)
        ensures
            self.naming(*oid, r),
    ;
}

/// Gives access to trust anchors.
pub trait TrustAnchorSource {
    /// Holds when this source may answer `answer` for the subject key
    /// identifier `skid`.
    open spec fn anchor_by_skid(&self, skid: Seq<u8>, answer: Result<&PDVTrustAnchorChoice>) -> bool {
        true
    }

    /// Holds when this source may answer `answer` when asked for all its
    /// trust anchors.
    open spec fn all_anchors(&self, answer: Result<Vec<&PDVTrustAnchorChoice>>) -> bool {
        true
    }

    /// Holds when this source may answer `answer` for the hexadecimal subject
    /// key identifier `hex_skid`.
    open spec fn anchor_by_hex_skid(&self, hex_skid: Seq<char>, answer: Result<&PDVTrustAnchorChoice>) -> bool {
        true
    }

    /// Holds when this source may answer `answer` for a trust anchor of `target`.
    open spec fn anchor_for_target(&self, target: PDVCertificate, answer: Result<&PDVTrustAnchorChoice>) -> bool {
        true
    }

    /// Holds when this source may answer `answer` to whether `target` is a
    /// trust anchor.
    open spec fn recognizes_cert(&self, target: PDVCertificate, answer: Result<()>) -> bool {
        true
    }

    /// Holds when this source may answer `answer` to whether `target` is one
    /// of its trust anchors.
    open spec fn recognizes_anchor(&self, target: PDVTrustAnchorChoice, answer: Result<()>) -> bool {
        true
    }

    fn get_trust_anchor_by_skid(&self, skid: &[u8]) -> (r: Result<&PDVTrustAnchorChoice>)
        ensures
            self.anchor_by_skid(skid@, r),
    ;

    fn get_trust_anchors(&self) -> (r: Result<Vec<&PDVTrustAnchorChoice>>)
        ensures
            self.all_anchors(r),
    ;

    fn get_trust_anchor_by_hex_skid(&self, hex_skid: &str) -> (r: Result<&PDVTrustAnchorChoice>)
        ensures
            self.anchor_by_hex_skid(hex_skid@, r),
    ;

    fn get_trust_anchor_for_target(&self, target: &PDVCertificate) -> (r: Result<&PDVTrustAnchorChoice>)
        ensures
            self.anchor_for_target(*target, r),
    ;

    fn is_cert_a_trust_anchor(&self, target: &PDVCertificate) -> (r: Result<()>)
        ensures
            self.recognizes_cert(*target, r),
    ;

    fn is_trust_anchor(&self, target: &PDVTrustAnchorChoice) -> (r: Result<()>)
        ensures
            self.recognizes_anchor(*target, r),
    ;
}

/// Gives access to intermediate CA certificates.
pub trait CertificateSource {
    /// Holds when this source may answer `answer` for the subject key
    /// identifier `skid`.
    open spec fn certificates_for_skid(&self, skid: Seq<u8>, answer: Result<Vec<&PDVCertificate>>) -> bool {
        true
    }

    fn get_certificates_for_skid(&self, skid: &[u8]) -> (r: Result<Vec<&PDVCertificate>>)
        ensures
            self.certificates_for_skid(skid@, r),
    ;
}

/// Gives access to CRLs.
pub trait CrlSource {
    /// Holds when this source may answer `answer` for the CRLs of `cert`.
    open spec fn crls_for(&self, cert: PDVCertificate, answer: Result<Vec<Vec<u8>>>) -> bool {
        true
    }

    /// Holds when this source may answer `answer` when offered the CRL
    /// `crl_buf` (decoded as `crl`) fetched from `uri`.
    open spec fn crl_taken(&self, crl_buf: Seq<u8>, crl: CertificateList, uri: Seq<char>, answer: Result<()>) -> bool {
        true
    }

    fn get_crls(&self, cert: &PDVCertificate) -> (r: Result<Vec<Vec<u8>>>)
        ensures
            self.crls_for(*cert, r),
    ;

    fn add_crl(&self, crl_buf: &[u8], crl: &CertificateList, uri: &str) -> (r: Result<()>)
        ensures
            self.crl_taken(crl_buf@, *crl, uri@, r),
    ;
}

/// Caches revocation status determinations.
pub trait RevocationStatusCache {
    /// Holds when this cache may answer `answer` for the status of `cert` at
    /// `time_of_interest`.
    open spec fn status_of(&self, cert: PDVCertificate, time_of_interest: u64, answer: PathValidationStatus) -> bool {
        true
    }

    /// Holds once this cache has been handed `status` for `cert`, good until
    /// `next_update`.
    open spec fn status_recorded(&self, cert: PDVCertificate, next_update: u64, status: PathValidationStatus) -> bool {
        true
    }

    fn get_status(&self, cert: &PDVCertificate, time_of_interest: u64) -> (r: PathValidationStatus)
        ensures
            self.status_of(*cert, time_of_interest, r),
    ;

    fn add_status(&self, cert: &PDVCertificate, next_update: u64, status: PathValidationStatus)
        ensures
            self.status_recorded(*cert, next_update, status),
    ;
}

/// Builds certification paths.
pub trait CertificationPathBuilder {
    /// Holds when this builder, handed the services object `pe`, may answer
    /// `answer` when asked for paths to `target`, turning the list of paths
    /// `paths` into `paths_after`.
    open spec fn building(
        &self,
        pe: Handle<'_, dyn PkiServices>,
        target: PDVCertificate,
        paths: Seq<CertificationPath>,
        paths_after: Seq<CertificationPath>,
        threshold: usize,
        time_of_interest: u64,
        answer: Result<()>,
    ) -> bool {
        true
    }

    fn get_paths_for_target(
        &self,
        pe: Handle<'_, dyn PkiServices>,
        target: &PDVCertificate,
        paths: &mut Vec<CertificationPath>,
        threshold: usize,
        time_of_interest: u64,
    ) -> (r: Result<()>)
        ensures
            self.building(pe, *target, old(paths)@, final(paths)@, threshold, time_of_interest, r),
    ;
}

/// Keeps last-modified values and a blocklist of remote resources.
pub trait CheckRemoteResource {
    /// Holds when this checker may answer `answer` for the last-modified
    /// value of `uri`.
    open spec fn last_modified_of(&self, uri: Seq<char>, answer: Option<String>) -> bool {
        true
    }

    /// Holds once this checker has been handed `last_modified` for `uri`.
    open spec fn last_modified_recorded(&self, uri: Seq<char>, last_modified: Seq<char>) -> bool {
        true
    }

    /// Holds when this checker may answer `answer` to whether `uri` is on
    /// its blocklist.
    open spec fn blocklisted(&self, uri: Seq<char>, answer: bool) -> bool {
        true
    }

    /// Holds once this checker has been handed `uri` for its blocklist.
    open spec fn blocklist_recorded(&self, uri: Seq<char>) -> bool {
        true
    }

    fn get_last_modified(&self, uri: &str) -> (r: Option<String>)
        ensures
            self.last_modified_of(uri@, r),
    ;

    fn set_last_modified(&self, uri: &str, last_modified: &str)
        ensures
            self.last_modified_recorded(uri@, last_modified@),
    ;

    fn check_blocklist(&self, uri: &str) -> (r: bool)
        ensures
            self.blocklisted(uri@, r),
    ;

    fn add_to_blocklist(&self, uri: &str)
        ensures
            self.blocklist_recorded(uri@),
    ;
}

} // verus!
