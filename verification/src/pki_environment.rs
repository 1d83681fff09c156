//! [`PkiEnvironment`]: a switchboard of handlers that supply hashing,
//! signature verification, path validation and building, and access to
//! trust anchors, certificates, CRLs, cached revocation status and remote
//! resource bookkeeping. Each service consults its handlers in the order in
//! which they were added, until one gives an authoritative answer or all
//! have been asked.

use vstd::prelude::*;

use crate::dispatch::{
    any_success, first_determined, first_some, first_success, first_success_or_last_failure,
    gathers, is_determined, is_present, is_success, is_true, select_any_success, select_any_true,
    select_first_determined, select_first_some, select_first_success,
    select_first_success_or_last_failure, gather_successful_items, stops_at_first,
};
use crate::error::{Error, PathValidationStatus, Result};
use crate::handle::Handle;
use crate::oid_names::OidLookupHandler;
use crate::oid::{dotted, to_dotted_string, Oid};
use crate::pdv::{
    CertificationPath, CertificationPathResults, CertificationPathSettings, PDVCertificate,
    PDVTrustAnchorChoice,
};
use crate::pki_environment_traits::{
    CalculateHash, CertificateSource, CertificationPathBuilder, CheckRemoteResource, CrlSource,
    OidLookup, PkiServices, RevocationStatusCache, TrustAnchorSource, ValidatePath,
    VerifySignatureDigest, VerifySignatureMessage,
};
use spki::{AlgorithmIdentifierOwned, SubjectPublicKeyInfoOwned};
use x509_cert::crl::CertificateList;

verus! {

/// Switchboard of handlers. Each service is a list of handlers consulted in
/// the order in which they were added.
pub struct PkiEnvironment<'a> {
    validate_path_callbacks: Vec<Handle<'a, dyn ValidatePath>>,
    calculate_hash_callbacks: Vec<Handle<'a, dyn CalculateHash>>,
    verify_signature_digest_callbacks: Vec<Handle<'a, dyn VerifySignatureDigest>>,
    verify_signature_message_callbacks: Vec<Handle<'a, dyn VerifySignatureMessage>>,
    trust_anchor_sources: Vec<Handle<'a, dyn TrustAnchorSource>>,
    certificate_sources: Vec<Handle<'a, dyn CertificateSource>>,
    crl_sources: Vec<Handle<'a, dyn CrlSource>>,
    revocation_cache: Vec<Handle<'a, dyn RevocationStatusCache>>,
    path_builders: Vec<Handle<'a, dyn CertificationPathBuilder>>,
    oid_lookups: Vec<OidLookupHandler>,
    check_remote: Vec<Handle<'a, dyn CheckRemoteResource>>,
}

/// The handler lists of a [`PkiEnvironment`], each in the order in which its
/// handlers were added.
pub struct PkiEnvironmentView<'a> {
    pub validate_path_callbacks: Seq<Handle<'a, dyn ValidatePath>>,
    pub calculate_hash_callbacks: Seq<Handle<'a, dyn CalculateHash>>,
    pub verify_signature_digest_callbacks: Seq<Handle<'a, dyn VerifySignatureDigest>>,
    pub verify_signature_message_callbacks: Seq<Handle<'a, dyn VerifySignatureMessage>>,
    pub trust_anchor_sources: Seq<Handle<'a, dyn TrustAnchorSource>>,
    pub certificate_sources: Seq<Handle<'a, dyn CertificateSource>>,
    pub crl_sources: Seq<Handle<'a, dyn CrlSource>>,
    pub revocation_cache: Seq<Handle<'a, dyn RevocationStatusCache>>,
    pub path_builders: Seq<Handle<'a, dyn CertificationPathBuilder>>,
    pub oid_lookups: Seq<OidLookupHandler>,
    pub check_remote: Seq<Handle<'a, dyn CheckRemoteResource>>,
}

impl<'a> PkiEnvironmentView<'a> {
    /// The view in which every handler list is empty.
    pub open spec fn empty() -> Self {
        PkiEnvironmentView {
            validate_path_callbacks: Seq::empty(),
            calculate_hash_callbacks: Seq::empty(),
            verify_signature_digest_callbacks: Seq::empty(),
            verify_signature_message_callbacks: Seq::empty(),
            trust_anchor_sources: Seq::empty(),
            certificate_sources: Seq::empty(),
            crl_sources: Seq::empty(),
            revocation_cache: Seq::empty(),
            path_builders: Seq::empty(),
            oid_lookups: Seq::empty(),
            check_remote: Seq::empty(),
        }
    }
}

impl<'a> View for PkiEnvironment<'a> {
    type V = PkiEnvironmentView<'a>;

    closed spec fn view(&self) -> PkiEnvironmentView<'a> {
        PkiEnvironmentView {
            validate_path_callbacks: self.validate_path_callbacks@,
            calculate_hash_callbacks: self.calculate_hash_callbacks@,
            verify_signature_digest_callbacks: self.verify_signature_digest_callbacks@,
            verify_signature_message_callbacks: self.verify_signature_message_callbacks@,
            trust_anchor_sources: self.trust_anchor_sources@,
            certificate_sources: self.certificate_sources@,
            crl_sources: self.crl_sources@,
            revocation_cache: self.revocation_cache@,
            path_builders: self.path_builders@,
            oid_lookups: self.oid_lookups@,
            check_remote: self.check_remote@,
        }
    }
}

impl<'a> Default for PkiEnvironment<'a> {
    /// An environment whose only handler is the database OID lookup.
    fn default() -> (pe: PkiEnvironment<'a>)
        ensures
            pe@ == (PkiEnvironmentView {
                oid_lookups: seq![OidLookupHandler::Database],
                ..PkiEnvironmentView::empty()
            }),
    {
        let mut pe = PkiEnvironment::new();
        pe.oid_lookups.push(OidLookupHandler::Database);
        assert(pe.oid_lookups@ =~= seq![OidLookupHandler::Database]);
        pe
    }
}

impl<'a> PkiEnvironment<'a> {
    /// Returns an environment in which every handler list is empty.
    pub fn new() -> (pe: PkiEnvironment<'a>)
        ensures
            pe@ == PkiEnvironmentView::<'a>::empty(),
    {
        PkiEnvironment {
            validate_path_callbacks: Vec::new(),
            calculate_hash_callbacks: Vec::new(),
            verify_signature_digest_callbacks: Vec::new(),
            verify_signature_message_callbacks: Vec::new(),
            trust_anchor_sources: Vec::new(),
            certificate_sources: Vec::new(),
            crl_sources: Vec::new(),
            revocation_cache: Vec::new(),
            path_builders: Vec::new(),
            oid_lookups: Vec::new(),
            check_remote: Vec::new(),
        }
    }

    /// Removes every handler of every service.
    pub fn clear_all_callbacks(&mut self)
        ensures
            final(self)@ == PkiEnvironmentView::<'a>::empty(),
    {
        self.clear_crl_sources();
        self.clear_path_builders();
        self.clear_oid_lookups();
        self.clear_revocation_cache();
        self.clear_certificate_sources();
        self.clear_calculate_hash_callbacks();
        self.clear_trust_anchor_sources();
        self.clear_validate_path_callbacks();
        self.clear_verify_signature_digest_callbacks();
        self.clear_verify_signature_message_callbacks();
        self.clear_check_remote_callbacks();
    }

    /// Adds a path validation handler after those already present.
    pub fn add_validate_path_callback(&mut self, c: Handle<'a, dyn ValidatePath>)
        ensures
            final(self)@.validate_path_callbacks == old(self)@.validate_path_callbacks.push(c),
            final(self)@.calculate_hash_callbacks == old(self)@.calculate_hash_callbacks,
            final(self)@.verify_signature_digest_callbacks == old(self)@.verify_signature_digest_callbacks,
            final(self)@.verify_signature_message_callbacks == old(self)@.verify_signature_message_callbacks,
            final(self)@.trust_anchor_sources == old(self)@.trust_anchor_sources,
            final(self)@.certificate_sources == old(self)@.certificate_sources,
            final(self)@.crl_sources == old(self)@.crl_sources,
            final(self)@.revocation_cache == old(self)@.revocation_cache,
            final(self)@.path_builders == old(self)@.path_builders,
            final(self)@.oid_lookups == old(self)@.oid_lookups,
            final(self)@.check_remote == old(self)@.check_remote,
    {
        self.validate_path_callbacks.push(c);
    }

    /// Removes all path validation handlers.
    pub fn clear_validate_path_callbacks(&mut self)
        ensures
            final(self)@.validate_path_callbacks == Seq::<Handle<'a, dyn ValidatePath>>::empty(),
            final(self)@.calculate_hash_callbacks == old(self)@.calculate_hash_callbacks,
            final(self)@.verify_signature_digest_callbacks == old(self)@.verify_signature_digest_callbacks,
            final(self)@.verify_signature_message_callbacks == old(self)@.verify_signature_message_callbacks,
            final(self)@.trust_anchor_sources == old(self)@.trust_anchor_sources,
            final(self)@.certificate_sources == old(self)@.certificate_sources,
            final(self)@.crl_sources == old(self)@.crl_sources,
            final(self)@.revocation_cache == old(self)@.revocation_cache,
            final(self)@.path_builders == old(self)@.path_builders,
            final(self)@.oid_lookups == old(self)@.oid_lookups,
            final(self)@.check_remote == old(self)@.check_remote,
    {
        self.validate_path_callbacks.clear();
    }

    /// Adds a hashing handler after those already present.
    pub fn add_calculate_hash_callback(&mut self, c: Handle<'a, dyn CalculateHash>)
        ensures
            final(self)@.calculate_hash_callbacks == old(self)@.calculate_hash_callbacks.push(c),
            final(self)@.validate_path_callbacks == old(self)@.validate_path_callbacks,
            final(self)@.verify_signature_digest_callbacks == old(self)@.verify_signature_digest_callbacks,
            final(self)@.verify_signature_message_callbacks == old(self)@.verify_signature_message_callbacks,
            final(self)@.trust_anchor_sources == old(self)@.trust_anchor_sources,
            final(self)@.certificate_sources == old(self)@.certificate_sources,
            final(self)@.crl_sources == old(self)@.crl_sources,
            final(self)@.revocation_cache == old(self)@.revocation_cache,
            final(self)@.path_builders == old(self)@.path_builders,
            final(self)@.oid_lookups == old(self)@.oid_lookups,
            final(self)@.check_remote == old(self)@.check_remote,
    {
        self.calculate_hash_callbacks.push(c);
    }

    /// Removes all hashing handlers.
    pub fn clear_calculate_hash_callbacks(&mut self)
        ensures
            final(self)@.calculate_hash_callbacks == Seq::<Handle<'a, dyn CalculateHash>>::empty(),
            final(self)@.validate_path_callbacks == old(self)@.validate_path_callbacks,
            final(self)@.verify_signature_digest_callbacks == old(self)@.verify_signature_digest_callbacks,
            final(self)@.verify_signature_message_callbacks == old(self)@.verify_signature_message_callbacks,
            final(self)@.trust_anchor_sources == old(self)@.trust_anchor_sources,
            final(self)@.certificate_sources == old(self)@.certificate_sources,
            final(self)@.crl_sources == old(self)@.crl_sources,
            final(self)@.revocation_cache == old(self)@.revocation_cache,
            final(self)@.path_builders == old(self)@.path_builders,
            final(self)@.oid_lookups == old(self)@.oid_lookups,
            final(self)@.check_remote == old(self)@.check_remote,
    {
        self.calculate_hash_callbacks.clear();
    }

    /// Adds a digest signature verification handler after those already present.
    pub fn add_verify_signature_digest_callback(&mut self, c: Handle<'a, dyn VerifySignatureDigest>)
        ensures
            final(self)@.verify_signature_digest_callbacks == old(self)@.verify_signature_digest_callbacks.push(c),
            final(self)@.validate_path_callbacks == old(self)@.validate_path_callbacks,
            final(self)@.calculate_hash_callbacks == old(self)@.calculate_hash_callbacks,
            final(self)@.verify_signature_message_callbacks == old(self)@.verify_signature_message_callbacks,
            final(self)@.trust_anchor_sources == old(self)@.trust_anchor_sources,
            final(self)@.certificate_sources == old(self)@.certificate_sources,
            final(self)@.crl_sources == old(self)@.crl_sources,
            final(self)@.revocation_cache == old(self)@.revocation_cache,
            final(self)@.path_builders == old(self)@.path_builders,
            final(self)@.oid_lookups == old(self)@.oid_lookups,
            final(self)@.check_remote == old(self)@.check_remote,
    {
        self.verify_signature_digest_callbacks.push(c);
    }

    /// Removes all digest signature verification handlers.
    pub fn clear_verify_signature_digest_callbacks(&mut self)
        ensures
            final(self)@.verify_signature_digest_callbacks == Seq::<Handle<'a, dyn VerifySignatureDigest>>::empty(),
            final(self)@.validate_path_callbacks == old(self)@.validate_path_callbacks,
            final(self)@.calculate_hash_callbacks == old(self)@.calculate_hash_callbacks,
            final(self)@.verify_signature_message_callbacks == old(self)@.verify_signature_message_callbacks,
            final(self)@.trust_anchor_sources == old(self)@.trust_anchor_sources,
            final(self)@.certificate_sources == old(self)@.certificate_sources,
            final(self)@.crl_sources == old(self)@.crl_sources,
            final(self)@.revocation_cache == old(self)@.revocation_cache,
            final(self)@.path_builders == old(self)@.path_builders,
            final(self)@.oid_lookups == old(self)@.oid_lookups,
            final(self)@.check_remote == old(self)@.check_remote,
    {
        self.verify_signature_digest_callbacks.clear();
    }

    /// Adds a message signature verification handler after those already present.
    pub fn add_verify_signature_message_callback(&mut self, c: Handle<'a, dyn VerifySignatureMessage>)
        ensures
            final(self)@.verify_signature_message_callbacks == old(self)@.verify_signature_message_callbacks.push(c),
            final(self)@.validate_path_callbacks == old(self)@.validate_path_callbacks,
            final(self)@.calculate_hash_callbacks == old(self)@.calculate_hash_callbacks,
            final(self)@.verify_signature_digest_callbacks == old(self)@.verify_signature_digest_callbacks,
            final(self)@.trust_anchor_sources == old(self)@.trust_anchor_sources,
            final(self)@.certificate_sources == old(self)@.certificate_sources,
            final(self)@.crl_sources == old(self)@.crl_sources,
            final(self)@.revocation_cache == old(self)@.revocation_cache,
            final(self)@.path_builders == old(self)@.path_builders,
            final(self)@.oid_lookups == old(self)@.oid_lookups,
            final(self)@.check_remote == old(self)@.check_remote,
    {
        self.verify_signature_message_callbacks.push(c);
    }

    /// Removes all message signature verification handlers.
    pub fn clear_verify_signature_message_callbacks(&mut self)
        ensures
            final(self)@.verify_signature_message_callbacks == Seq::<Handle<'a, dyn VerifySignatureMessage>>::empty(),
            final(self)@.validate_path_callbacks == old(self)@.validate_path_callbacks,
            final(self)@.calculate_hash_callbacks == old(self)@.calculate_hash_callbacks,
            final(self)@.verify_signature_digest_callbacks == old(self)@.verify_signature_digest_callbacks,
            final(self)@.trust_anchor_sources == old(self)@.trust_anchor_sources,
            final(self)@.certificate_sources == old(self)@.certificate_sources,
            final(self)@.crl_sources == old(self)@.crl_sources,
            final(self)@.revocation_cache == old(self)@.revocation_cache,
            final(self)@.path_builders == old(self)@.path_builders,
            final(self)@.oid_lookups == old(self)@.oid_lookups,
            final(self)@.check_remote == old(self)@.check_remote,
    {
        self.verify_signature_message_callbacks.clear();
    }

    /// Adds a trust anchor source after those already present.
    pub fn add_trust_anchor_source(&mut self, c: Handle<'a, dyn TrustAnchorSource>)
        ensures
            final(self)@.trust_anchor_sources == old(self)@.trust_anchor_sources.push(c),
            final(self)@.validate_path_callbacks == old(self)@.validate_path_callbacks,
            final(self)@.calculate_hash_callbacks == old(self)@.calculate_hash_callbacks,
            final(self)@.verify_signature_digest_callbacks == old(self)@.verify_signature_digest_callbacks,
            final(self)@.verify_signature_message_callbacks == old(self)@.verify_signature_message_callbacks,
            final(self)@.certificate_sources == old(self)@.certificate_sources,
            final(self)@.crl_sources == old(self)@.crl_sources,
            final(self)@.revocation_cache == old(self)@.revocation_cache,
            final(self)@.path_builders == old(self)@.path_builders,
            final(self)@.oid_lookups == old(self)@.oid_lookups,
            final(self)@.check_remote == old(self)@.check_remote,
    {
        self.trust_anchor_sources.push(c);
    }

    /// Removes all trust anchor sources.
    pub fn clear_trust_anchor_sources(&mut self)
        ensures
            final(self)@.trust_anchor_sources == Seq::<Handle<'a, dyn TrustAnchorSource>>::empty(),
            final(self)@.validate_path_callbacks == old(self)@.validate_path_callbacks,
            final(self)@.calculate_hash_callbacks == old(self)@.calculate_hash_callbacks,
            final(self)@.verify_signature_digest_callbacks == old(self)@.verify_signature_digest_callbacks,
            final(self)@.verify_signature_message_callbacks == old(self)@.verify_signature_message_callbacks,
            final(self)@.certificate_sources == old(self)@.certificate_sources,
            final(self)@.crl_sources == old(self)@.crl_sources,
            final(self)@.revocation_cache == old(self)@.revocation_cache,
            final(self)@.path_builders == old(self)@.path_builders,
            final(self)@.oid_lookups == old(self)@.oid_lookups,
            final(self)@.check_remote == old(self)@.check_remote,
    {
        self.trust_anchor_sources.clear();
    }

    /// Adds a certificate source after those already present.
    pub fn add_certificate_source(&mut self, c: Handle<'a, dyn CertificateSource>)
        ensures
            final(self)@.certificate_sources == old(self)@.certificate_sources.push(c),
            final(self)@.validate_path_callbacks == old(self)@.validate_path_callbacks,
            final(self)@.calculate_hash_callbacks == old(self)@.calculate_hash_callbacks,
            final(self)@.verify_signature_digest_callbacks == old(self)@.verify_signature_digest_callbacks,
            final(self)@.verify_signature_message_callbacks == old(self)@.verify_signature_message_callbacks,
            final(self)@.trust_anchor_sources == old(self)@.trust_anchor_sources,
            final(self)@.crl_sources == old(self)@.crl_sources,
            final(self)@.revocation_cache == old(self)@.revocation_cache,
            final(self)@.path_builders == old(self)@.path_builders,
            final(self)@.oid_lookups == old(self)@.oid_lookups,
            final(self)@.check_remote == old(self)@.check_remote,
    {
        self.certificate_sources.push(c);
    }

    /// Removes all certificate sources.
    pub fn clear_certificate_sources(&mut self)
        ensures
            final(self)@.certificate_sources == Seq::<Handle<'a, dyn CertificateSource>>::empty(),
            final(self)@.validate_path_callbacks == old(self)@.validate_path_callbacks,
            final(self)@.calculate_hash_callbacks == old(self)@.calculate_hash_callbacks,
            final(self)@.verify_signature_digest_callbacks == old(self)@.verify_signature_digest_callbacks,
            final(self)@.verify_signature_message_callbacks == old(self)@.verify_signature_message_callbacks,
            final(self)@.trust_anchor_sources == old(self)@.trust_anchor_sources,
            final(self)@.crl_sources == old(self)@.crl_sources,
            final(self)@.revocation_cache == old(self)@.revocation_cache,
            final(self)@.path_builders == old(self)@.path_builders,
            final(self)@.oid_lookups == old(self)@.oid_lookups,
            final(self)@.check_remote == old(self)@.check_remote,
    {
        self.certificate_sources.clear();
    }

    /// Adds a CRL source after those already present.
    pub fn add_crl_source(&mut self, c: Handle<'a, dyn CrlSource>)
        ensures
            final(self)@.crl_sources == old(self)@.crl_sources.push(c),
            final(self)@.validate_path_callbacks == old(self)@.validate_path_callbacks,
            final(self)@.calculate_hash_callbacks == old(self)@.calculate_hash_callbacks,
            final(self)@.verify_signature_digest_callbacks == old(self)@.verify_signature_digest_callbacks,
            final(self)@.verify_signature_message_callbacks == old(self)@.verify_signature_message_callbacks,
            final(self)@.trust_anchor_sources == old(self)@.trust_anchor_sources,
            final(self)@.certificate_sources == old(self)@.certificate_sources,
            final(self)@.revocation_cache == old(self)@.revocation_cache,
            final(self)@.path_builders == old(self)@.path_builders,
            final(self)@.oid_lookups == old(self)@.oid_lookups,
            final(self)@.check_remote == old(self)@.check_remote,
    {
        self.crl_sources.push(c);
    }

    /// Removes all CRL sources.
    pub fn clear_crl_sources(&mut self)
        ensures
            final(self)@.crl_sources == Seq::<Handle<'a, dyn CrlSource>>::empty(),
            final(self)@.validate_path_callbacks == old(self)@.validate_path_callbacks,
            final(self)@.calculate_hash_callbacks == old(self)@.calculate_hash_callbacks,
            final(self)@.verify_signature_digest_callbacks == old(self)@.verify_signature_digest_callbacks,
            final(self)@.verify_signature_message_callbacks == old(self)@.verify_signature_message_callbacks,
            final(self)@.trust_anchor_sources == old(self)@.trust_anchor_sources,
            final(self)@.certificate_sources == old(self)@.certificate_sources,
            final(self)@.revocation_cache == old(self)@.revocation_cache,
            final(self)@.path_builders == old(self)@.path_builders,
            final(self)@.oid_lookups == old(self)@.oid_lookups,
            final(self)@.check_remote == old(self)@.check_remote,
    {
        self.crl_sources.clear();
    }

    /// Adds a revocation status cache after those already present.
    pub fn add_revocation_cache(&mut self, c: Handle<'a, dyn RevocationStatusCache>)
        ensures
            final(self)@.revocation_cache == old(self)@.revocation_cache.push(c),
            final(self)@.validate_path_callbacks == old(self)@.validate_path_callbacks,
            final(self)@.calculate_hash_callbacks == old(self)@.calculate_hash_callbacks,
            final(self)@.verify_signature_digest_callbacks == old(self)@.verify_signature_digest_callbacks,
            final(self)@.verify_signature_message_callbacks == old(self)@.verify_signature_message_callbacks,
            final(self)@.trust_anchor_sources == old(self)@.trust_anchor_sources,
            final(self)@.certificate_sources == old(self)@.certificate_sources,
            final(self)@.crl_sources == old(self)@.crl_sources,
            final(self)@.path_builders == old(self)@.path_builders,
            final(self)@.oid_lookups == old(self)@.oid_lookups,
            final(self)@.check_remote == old(self)@.check_remote,
    {
        self.revocation_cache.push(c);
    }

    /// Removes all revocation status caches.
    pub fn clear_revocation_cache(&mut self)
        ensures
            final(self)@.revocation_cache == Seq::<Handle<'a, dyn RevocationStatusCache>>::empty(),
            final(self)@.validate_path_callbacks == old(self)@.validate_path_callbacks,
            final(self)@.calculate_hash_callbacks == old(self)@.calculate_hash_callbacks,
            final(self)@.verify_signature_digest_callbacks == old(self)@.verify_signature_digest_callbacks,
            final(self)@.verify_signature_message_callbacks == old(self)@.verify_signature_message_callbacks,
            final(self)@.trust_anchor_sources == old(self)@.trust_anchor_sources,
            final(self)@.certificate_sources == old(self)@.certificate_sources,
            final(self)@.crl_sources == old(self)@.crl_sources,
            final(self)@.path_builders == old(self)@.path_builders,
            final(self)@.oid_lookups == old(self)@.oid_lookups,
            final(self)@.check_remote == old(self)@.check_remote,
    {
        self.revocation_cache.clear();
    }

    /// Adds a path builder after those already present.
    pub fn add_path_builder(&mut self, c: Handle<'a, dyn CertificationPathBuilder>)
        ensures
            final(self)@.path_builders == old(self)@.path_builders.push(c),
            final(self)@.validate_path_callbacks == old(self)@.validate_path_callbacks,
            final(self)@.calculate_hash_callbacks == old(self)@.calculate_hash_callbacks,
            final(self)@.verify_signature_digest_callbacks == old(self)@.verify_signature_digest_callbacks,
            final(self)@.verify_signature_message_callbacks == old(self)@.verify_signature_message_callbacks,
            final(self)@.trust_anchor_sources == old(self)@.trust_anchor_sources,
            final(self)@.certificate_sources == old(self)@.certificate_sources,
            final(self)@.crl_sources == old(self)@.crl_sources,
            final(self)@.revocation_cache == old(self)@.revocation_cache,
            final(self)@.oid_lookups == old(self)@.oid_lookups,
            final(self)@.check_remote == old(self)@.check_remote,
    {
        self.path_builders.push(c);
    }

    /// Removes all path builders.
    pub fn clear_path_builders(&mut self)
        ensures
            final(self)@.path_builders == Seq::<Handle<'a, dyn CertificationPathBuilder>>::empty(),
            final(self)@.validate_path_callbacks == old(self)@.validate_path_callbacks,
            final(self)@.calculate_hash_callbacks == old(self)@.calculate_hash_callbacks,
            final(self)@.verify_signature_digest_callbacks == old(self)@.verify_signature_digest_callbacks,
            final(self)@.verify_signature_message_callbacks == old(self)@.verify_signature_message_callbacks,
            final(self)@.trust_anchor_sources == old(self)@.trust_anchor_sources,
            final(self)@.certificate_sources == old(self)@.certificate_sources,
            final(self)@.crl_sources == old(self)@.crl_sources,
            final(self)@.revocation_cache == old(self)@.revocation_cache,
            final(self)@.oid_lookups == old(self)@.oid_lookups,
            final(self)@.check_remote == old(self)@.check_remote,
    {
        self.path_builders.clear();
    }

    /// Adds a OID lookup after those already present.
    pub fn add_oid_lookup(&mut self, c: OidLookupHandler)
        ensures
            final(self)@.oid_lookups == old(self)@.oid_lookups.push(c),
            final(self)@.validate_path_callbacks == old(self)@.validate_path_callbacks,
            final(self)@.calculate_hash_callbacks == old(self)@.calculate_hash_callbacks,
            final(self)@.verify_signature_digest_callbacks == old(self)@.verify_signature_digest_callbacks,
            final(self)@.verify_signature_message_callbacks == old(self)@.verify_signature_message_callbacks,
            final(self)@.trust_anchor_sources == old(self)@.trust_anchor_sources,
            final(self)@.certificate_sources == old(self)@.certificate_sources,
            final(self)@.crl_sources == old(self)@.crl_sources,
            final(self)@.revocation_cache == old(self)@.revocation_cache,
            final(self)@.path_builders == old(self)@.path_builders,
            final(self)@.check_remote == old(self)@.check_remote,
    {
        self.oid_lookups.push(c);
    }

    /// Removes all OID lookups.
    pub fn clear_oid_lookups(&mut self)
        ensures
            final(self)@.oid_lookups == Seq::<OidLookupHandler>::empty(),
            final(self)@.validate_path_callbacks == old(self)@.validate_path_callbacks,
            final(self)@.calculate_hash_callbacks == old(self)@.calculate_hash_callbacks,
            final(self)@.verify_signature_digest_callbacks == old(self)@.verify_signature_digest_callbacks,
            final(self)@.verify_signature_message_callbacks == old(self)@.verify_signature_message_callbacks,
            final(self)@.trust_anchor_sources == old(self)@.trust_anchor_sources,
            final(self)@.certificate_sources == old(self)@.certificate_sources,
            final(self)@.crl_sources == old(self)@.crl_sources,
            final(self)@.revocation_cache == old(self)@.revocation_cache,
            final(self)@.path_builders == old(self)@.path_builders,
            final(self)@.check_remote == old(self)@.check_remote,
    {
        self.oid_lookups.clear();
    }

    /// Adds a remote resource checker after those already present.
    pub fn add_check_remote(&mut self, c: Handle<'a, dyn CheckRemoteResource>)
        ensures
            final(self)@.check_remote == old(self)@.check_remote.push(c),
            final(self)@.validate_path_callbacks == old(self)@.validate_path_callbacks,
            final(self)@.calculate_hash_callbacks == old(self)@.calculate_hash_callbacks,
            final(self)@.verify_signature_digest_callbacks == old(self)@.verify_signature_digest_callbacks,
            final(self)@.verify_signature_message_callbacks == old(self)@.verify_signature_message_callbacks,
            final(self)@.trust_anchor_sources == old(self)@.trust_anchor_sources,
            final(self)@.certificate_sources == old(self)@.certificate_sources,
            final(self)@.crl_sources == old(self)@.crl_sources,
            final(self)@.revocation_cache == old(self)@.revocation_cache,
            final(self)@.path_builders == old(self)@.path_builders,
            final(self)@.oid_lookups == old(self)@.oid_lookups,
    {
        self.check_remote.push(c);
    }

    /// Removes all remote resource checkers.
    pub fn clear_check_remote_callbacks(&mut self)
        ensures
            final(self)@.check_remote == Seq::<Handle<'a, dyn CheckRemoteResource>>::empty(),
            final(self)@.validate_path_callbacks == old(self)@.validate_path_callbacks,
            final(self)@.calculate_hash_callbacks == old(self)@.calculate_hash_callbacks,
            final(self)@.verify_signature_digest_callbacks == old(self)@.verify_signature_digest_callbacks,
            final(self)@.verify_signature_message_callbacks == old(self)@.verify_signature_message_callbacks,
            final(self)@.trust_anchor_sources == old(self)@.trust_anchor_sources,
            final(self)@.certificate_sources == old(self)@.certificate_sources,
            final(self)@.crl_sources == old(self)@.crl_sources,
            final(self)@.revocation_cache == old(self)@.revocation_cache,
            final(self)@.path_builders == old(self)@.path_builders,
            final(self)@.oid_lookups == old(self)@.oid_lookups,
    {
        self.check_remote.clear();
    }

    /// The validators at positions `0 .. answers.len()` were asked in turn,
    /// each handed `pe`: the one at position `j` answered `answers[j]`, turning `paths[j]` and
    /// `results[j]` into `paths[j + 1]` and `results[j + 1]`.
    pub open spec fn validation_run(
        &self,
        pe: Handle<'_, dyn PkiServices>,
        cps: CertificationPathSettings,
        answers: Seq<Result<()>>,
        paths: Seq<CertificationPath>,
        results: Seq<CertificationPathResults>,
    ) -> bool {
        &&& paths.len() == answers.len() + 1
        &&& results.len() == answers.len() + 1
        &&& forall|j: int|
            0 <= j < answers.len() ==> #[trigger] self@.validate_path_callbacks[j].0.validation(
                pe,
                cps,
                paths[j],
                results[j],
                paths[j + 1],
                results[j + 1],
                answers[j],
            )
    }

    /// Asks the path validation handlers in turn, each with `pe`, `cps` and
    /// the path and results as the previous one left them, until one accepts the
    /// path. When every handler rejects it, reports the last handler's error;
    /// with no handlers, `Unrecognized`, and `cp` and `cpr` are untouched.
    pub fn validate_path(
        &self,
        pe: Handle<'_, dyn PkiServices>,
        cps: &CertificationPathSettings,
        cp: &mut CertificationPath,
        cpr: &mut CertificationPathResults,
    ) -> (r: Result<()>)
        ensures
            exists|answers: Seq<Result<()>>, paths: Seq<CertificationPath>, results: Seq<CertificationPathResults>|
                #![trigger self.validation_run(pe, *cps, answers, paths, results)]
                stops_at_first(answers, self@.validate_path_callbacks.len(), is_success())
                && self.validation_run(pe, *cps, answers, paths, results)
                && paths[0] == *old(cp) && results[0] == *old(cpr)
                && paths.last() == *final(cp) && results.last() == *final(cpr)
                && r == first_success_or_last_failure(answers, Error::Unrecognized),
            self@.validate_path_callbacks.len() == 0 ==> r == Err::<(), Error>(Error::Unrecognized)
                && *final(cp) == *old(cp) && *final(cpr) == *old(cpr),
    {
        let n: usize = self.validate_path_callbacks.len();
        let mut answers: Vec<Result<()>> = Vec::new();
        let ghost mut paths: Seq<CertificationPath> = seq![*cp];
        let ghost mut results: Seq<CertificationPathResults> = seq![*cpr];
        let mut done = false;
        let mut i: usize = 0;
        while i < n && !done
            invariant
                n == self@.validate_path_callbacks.len(),
                i <= n,
                answers@.len() == i,
                self.validation_run(pe, *cps, answers@, paths, results),
                paths[0] == *old(cp),
                results[0] == *old(cpr),
                paths.last() == *cp,
                results.last() == *cpr,
                forall|j: int| 0 <= j < i - 1 ==> !is_success()(#[trigger] answers@[j]),
                done == (i > 0 && is_success()(answers@.last())),
            decreases n - i,
        {
            let answer = self.validate_path_callbacks[i].0.validate_path(pe, cps, cp, cpr);
            done = answer.is_ok();
            let ghost before = answers@;
            let ghost paths_before = paths;
            let ghost results_before = results;
            answers.push(answer);
            proof {
                paths = paths.push(*cp);
                results = results.push(*cpr);
                assert forall|j: int| 0 <= j < answers@.len() implies #[trigger] self@.validate_path_callbacks[j].0.validation(
                    pe,
                    *cps,
                    paths[j],
                    results[j],
                    paths[j + 1],
                    results[j + 1],
                    answers@[j],
                ) by {
                    if j < i {
                        assert(answers@[j] == before[j]);
                        assert(paths[j] == paths_before[j]);
                        assert(paths[j + 1] == paths_before[j + 1]);
                        assert(results[j] == results_before[j]);
                        assert(results[j + 1] == results_before[j + 1]);
                    }
                }
            }
            i = i + 1;
        }
        assert(stops_at_first(answers@, n as nat, is_success()));
        select_first_success_or_last_failure(answers, Error::Unrecognized)
    }

    /// `answers[j]` is an answer that the handler at position `j` of the
    /// hashing handler list may give,
    /// handed `pe`.
    pub open spec fn hash_answers(&self, pe: Handle<'_, dyn PkiServices>, hash_alg: AlgorithmIdentifierOwned, buffer: Seq<u8>, answers: Seq<Result<Vec<u8>>>) -> bool {
        forall|j: int| 0 <= j < answers.len() ==> #[trigger] self@.calculate_hash_callbacks[j].0.hashing(pe, hash_alg, buffer, answers[j])
    }

    /// Asks the hashing handlers in turn, each with these arguments, until
    /// one succeeds; fails with `Unrecognized` when none does.
    pub fn calculate_hash(
        &self,
        pe: Handle<'_, dyn PkiServices>,
        hash_alg: &AlgorithmIdentifierOwned,
        buffer_to_hash: &[u8],
    ) -> (r: Result<Vec<u8>>)
        ensures
            exists|answers: Seq<Result<Vec<u8>>>|
                #![trigger self.hash_answers(pe, *hash_alg, buffer_to_hash@, answers)]
                stops_at_first(answers, self@.calculate_hash_callbacks.len(), is_success())
                && self.hash_answers(pe, *hash_alg, buffer_to_hash@, answers)
                && r == first_success(answers, Error::Unrecognized),
            self@.calculate_hash_callbacks.len() == 0 ==> r == Err::<Vec<u8>, Error>(Error::Unrecognized),
    {
        let n: usize = self.calculate_hash_callbacks.len();
        let mut answers: Vec<Result<Vec<u8>>> = Vec::new();
        let mut done = false;
        let mut i: usize = 0;
        while i < n && !done
            invariant
                n == self@.calculate_hash_callbacks.len(),
                i <= n,
                answers@.len() == i,
                self.hash_answers(pe, *hash_alg, buffer_to_hash@, answers@),
                forall|j: int| 0 <= j < i - 1 ==> !is_success()(#[trigger] answers@[j]),
                done == (i > 0 && is_success()(answers@.last())),
            decreases n - i,
        {
            let answer = self.calculate_hash_callbacks[i].0.calculate_hash(pe, hash_alg, buffer_to_hash);
            done = answer.is_ok();
            let ghost before = answers@;
            answers.push(answer);
            proof {
                assert forall|j: int| 0 <= j < answers@.len() implies #[trigger] self@.calculate_hash_callbacks[j].0.hashing(pe, *hash_alg, buffer_to_hash@, answers@[j]) by {
                    if j < i {
                        assert(answers@[j] == before[j]);
                    }
                }
            }
            i = i + 1;
        }
        assert(stops_at_first(answers@, n as nat, is_success()));
        select_first_success(answers, Error::Unrecognized)
    }

    /// `answers[j]` is an answer that the handler at position `j` of the
    /// digest signature verification handler list may give,
    /// handed `pe`.
    pub open spec fn digest_verdicts(&self, pe: Handle<'_, dyn PkiServices>, signed: Seq<u8>, signature: Seq<u8>, signature_alg: AlgorithmIdentifierOwned, spki: SubjectPublicKeyInfoOwned, answers: Seq<Result<()>>) -> bool {
        forall|j: int| 0 <= j < answers.len() ==> #[trigger] self@.verify_signature_digest_callbacks[j].0.digest_verdict(pe, signed, signature, signature_alg, spki, answers[j])
    }

    /// Asks the digest signature verification handlers in turn, each with
    /// these arguments, until one accepts the signature; fails with
    /// `Unrecognized` when none does.
    pub fn verify_signature_digest(
        &self,
        pe: Handle<'_, dyn PkiServices>,
        hash_to_verify: &[u8],
        signature: &[u8],
        signature_alg: &AlgorithmIdentifierOwned,
        spki: &SubjectPublicKeyInfoOwned,
    ) -> (r: Result<()>)
        ensures
            exists|answers: Seq<Result<()>>|
                #![trigger self.digest_verdicts(pe, hash_to_verify@, signature@, *signature_alg, *spki, answers)]
                stops_at_first(answers, self@.verify_signature_digest_callbacks.len(), is_success())
                && self.digest_verdicts(pe, hash_to_verify@, signature@, *signature_alg, *spki, answers)
                && r == first_success(answers, Error::Unrecognized),
            self@.verify_signature_digest_callbacks.len() == 0 ==> r == Err::<(), Error>(Error::Unrecognized),
    {
        let n: usize = self.verify_signature_digest_callbacks.len();
        let mut answers: Vec<Result<()>> = Vec::new();
        let mut done = false;
        let mut i: usize = 0;
        while i < n && !done
            invariant
                n == self@.verify_signature_digest_callbacks.len(),
                i <= n,
                answers@.len() == i,
                self.digest_verdicts(pe, hash_to_verify@, signature@, *signature_alg, *spki, answers@),
                forall|j: int| 0 <= j < i - 1 ==> !is_success()(#[trigger] answers@[j]),
                done == (i > 0 && is_success()(answers@.last())),
            decreases n - i,
        {
            let answer = self.verify_signature_digest_callbacks[i].0.verify_signature_digest(pe, hash_to_verify, signature, signature_alg, spki);
            done = answer.is_ok();
            let ghost before = answers@;
            answers.push(answer);
            proof {
                assert forall|j: int| 0 <= j < answers@.len() implies #[trigger] self@.verify_signature_digest_callbacks[j].0.digest_verdict(pe, hash_to_verify@, signature@, *signature_alg, *spki, answers@[j]) by {
                    if j < i {
                        assert(answers@[j] == before[j]);
                    }
                }
            }
            i = i + 1;
        }
        assert(stops_at_first(answers@, n as nat, is_success()));
        select_first_success(answers, Error::Unrecognized)
    }

    /// `answers[j]` is an answer that the handler at position `j` of the
    /// message signature verification handler list may give,
    /// handed `pe`.
    pub open spec fn message_verdicts(&self, pe: Handle<'_, dyn PkiServices>, signed: Seq<u8>, signature: Seq<u8>, signature_alg: AlgorithmIdentifierOwned, spki: SubjectPublicKeyInfoOwned, answers: Seq<Result<()>>) -> bool {
        forall|j: int| 0 <= j < answers.len() ==> #[trigger] self@.verify_signature_message_callbacks[j].0.message_verdict(pe, signed, signature, signature_alg, spki, answers[j])
    }

    /// Asks the message signature verification handlers in turn, each with
    /// these arguments, until one accepts the signature; fails with
    /// `Unrecognized` when none does.
    pub fn verify_signature_message(
        &self,
        pe: Handle<'_, dyn PkiServices>,
        message_to_verify: &[u8],
        signature: &[u8],
        signature_alg: &AlgorithmIdentifierOwned,
        spki: &SubjectPublicKeyInfoOwned,
    ) -> (r: Result<()>)
        ensures
            exists|answers: Seq<Result<()>>|
                #![trigger self.message_verdicts(pe, message_to_verify@, signature@, *signature_alg, *spki, answers)]
                stops_at_first(answers, self@.verify_signature_message_callbacks.len(), is_success())
                && self.message_verdicts(pe, message_to_verify@, signature@, *signature_alg, *spki, answers)
                && r == first_success(answers, Error::Unrecognized),
            self@.verify_signature_message_callbacks.len() == 0 ==> r == Err::<(), Error>(Error::Unrecognized),
    {
        let n: usize = self.verify_signature_message_callbacks.len();
        let mut answers: Vec<Result<()>> = Vec::new();
        let mut done = false;
        let mut i: usize = 0;
        while i < n && !done
            invariant
                n == self@.verify_signature_message_callbacks.len(),
                i <= n,
                answers@.len() == i,
                self.message_verdicts(pe, message_to_verify@, signature@, *signature_alg, *spki, answers@),
                forall|j: int| 0 <= j < i - 1 ==> !is_success()(#[trigger] answers@[j]),
                done == (i > 0 && is_success()(answers@.last())),
            decreases n - i,
        {
            let answer = self.verify_signature_message_callbacks[i].0.verify_signature_message(pe, message_to_verify, signature, signature_alg, spki);
            done = answer.is_ok();
            let ghost before = answers@;
            answers.push(answer);
            proof {
                assert forall|j: int| 0 <= j < answers@.len() implies #[trigger] self@.verify_signature_message_callbacks[j].0.message_verdict(pe, message_to_verify@, signature@, *signature_alg, *spki, answers@[j]) by {
                    if j < i {
                        assert(answers@[j] == before[j]);
                    }
                }
            }
            i = i + 1;
        }
        assert(stops_at_first(answers@, n as nat, is_success()));
        select_first_success(answers, Error::Unrecognized)
    }

    /// `answers[j]` is an answer that the handler at position `j` of the
    /// trust anchor source list may give.
    pub open spec fn anchor_by_skid_answers(&self, skid: Seq<u8>, answers: Seq<Result<&PDVTrustAnchorChoice>>) -> bool {
        forall|j: int| 0 <= j < answers.len() ==> #[trigger] self@.trust_anchor_sources[j].0.anchor_by_skid(skid, answers[j])
    }

    /// Asks the trust anchor sources in turn for the trust anchor with the
    /// subject key identifier `skid` until one has it; fails with
    /// `Unrecognized` when none does.
    pub fn get_trust_anchor(
        &self,
        skid: &[u8],
    ) -> (r: Result<&PDVTrustAnchorChoice>)
        ensures
            exists|answers: Seq<Result<&PDVTrustAnchorChoice>>|
                #![trigger self.anchor_by_skid_answers(skid@, answers)]
                stops_at_first(answers, self@.trust_anchor_sources.len(), is_success())
                && self.anchor_by_skid_answers(skid@, answers)
                && r == first_success(answers, Error::Unrecognized),
            self@.trust_anchor_sources.len() == 0 ==> r == Err::<&PDVTrustAnchorChoice, Error>(Error::Unrecognized),
    {
        let n: usize = self.trust_anchor_sources.len();
        let mut answers: Vec<Result<&PDVTrustAnchorChoice>> = Vec::new();
        let mut done = false;
        let mut i: usize = 0;
        while i < n && !done
            invariant
                n == self@.trust_anchor_sources.len(),
                i <= n,
                answers@.len() == i,
                self.anchor_by_skid_answers(skid@, answers@),
                forall|j: int| 0 <= j < i - 1 ==> !is_success()(#[trigger] answers@[j]),
                done == (i > 0 && is_success()(answers@.last())),
            decreases n - i,
        {
            let answer = self.trust_anchor_sources[i].0.get_trust_anchor_by_skid(skid);
            done = answer.is_ok();
            let ghost before = answers@;
            answers.push(answer);
            proof {
                assert forall|j: int| 0 <= j < answers@.len() implies #[trigger] self@.trust_anchor_sources[j].0.anchor_by_skid(skid@, answers@[j]) by {
                    if j < i {
                        assert(answers@[j] == before[j]);
                    }
                }
            }
            i = i + 1;
        }
        assert(stops_at_first(answers@, n as nat, is_success()));
        select_first_success(answers, Error::Unrecognized)
    }

    /// `answers[j]` is an answer that the handler at position `j` of the
    /// trust anchor source list may give.
    pub open spec fn all_anchors_answers(&self, answers: Seq<Result<Vec<&PDVTrustAnchorChoice>>>) -> bool {
        forall|j: int| 0 <= j < answers.len() ==> #[trigger] self@.trust_anchor_sources[j].0.all_anchors(answers[j])
    }

    /// Asks the trust anchor sources in turn for their trust anchors until
    /// one answers; fails with `Unrecognized` when none does.
    pub fn get_trust_anchors(
        &self,
    ) -> (r: Result<Vec<&PDVTrustAnchorChoice>>)
        ensures
            exists|answers: Seq<Result<Vec<&PDVTrustAnchorChoice>>>|
                #![trigger self.all_anchors_answers(answers)]
                stops_at_first(answers, self@.trust_anchor_sources.len(), is_success())
                && self.all_anchors_answers(answers)
                && r == first_success(answers, Error::Unrecognized),
            self@.trust_anchor_sources.len() == 0 ==> r == Err::<Vec<&PDVTrustAnchorChoice>, Error>(Error::Unrecognized),
    {
        let n: usize = self.trust_anchor_sources.len();
        let mut answers: Vec<Result<Vec<&PDVTrustAnchorChoice>>> = Vec::new();
        let mut done = false;
        let mut i: usize = 0;
        while i < n && !done
            invariant
                n == self@.trust_anchor_sources.len(),
                i <= n,
                answers@.len() == i,
                self.all_anchors_answers(answers@),
                forall|j: int| 0 <= j < i - 1 ==> !is_success()(#[trigger] answers@[j]),
                done == (i > 0 && is_success()(answers@.last())),
            decreases n - i,
        {
            let answer = self.trust_anchor_sources[i].0.get_trust_anchors();
            done = answer.is_ok();
            let ghost before = answers@;
            answers.push(answer);
            proof {
                assert forall|j: int| 0 <= j < answers@.len() implies #[trigger] self@.trust_anchor_sources[j].0.all_anchors(answers@[j]) by {
                    if j < i {
                        assert(answers@[j] == before[j]);
                    }
                }
            }
            i = i + 1;
        }
        assert(stops_at_first(answers@, n as nat, is_success()));
        select_first_success(answers, Error::Unrecognized)
    }

    /// `answers[j]` is an answer that the handler at position `j` of the
    /// trust anchor source list may give.
    pub open spec fn anchor_by_hex_skid_answers(&self, hex_skid: Seq<char>, answers: Seq<Result<&PDVTrustAnchorChoice>>) -> bool {
        forall|j: int| 0 <= j < answers.len() ==> #[trigger] self@.trust_anchor_sources[j].0.anchor_by_hex_skid(hex_skid, answers[j])
    }

    /// Asks the trust anchor sources in turn for the trust anchor with the
    /// hexadecimal subject key identifier `hex_skid` until one has it; fails
    /// with `Unrecognized` when none does.
    pub fn get_trust_anchor_by_hex_skid(
        &self,
        hex_skid: &str,
    ) -> (r: Result<&PDVTrustAnchorChoice>)
        ensures
            exists|answers: Seq<Result<&PDVTrustAnchorChoice>>|
                #![trigger self.anchor_by_hex_skid_answers(hex_skid@, answers)]
                stops_at_first(answers, self@.trust_anchor_sources.len(), is_success())
                && self.anchor_by_hex_skid_answers(hex_skid@, answers)
                && r == first_success(answers, Error::Unrecognized),
            self@.trust_anchor_sources.len() == 0 ==> r == Err::<&PDVTrustAnchorChoice, Error>(Error::Unrecognized),
    {
        let n: usize = self.trust_anchor_sources.len();
        let mut answers: Vec<Result<&PDVTrustAnchorChoice>> = Vec::new();
        let mut done = false;
        let mut i: usize = 0;
        while i < n && !done
            invariant
                n == self@.trust_anchor_sources.len(),
                i <= n,
                answers@.len() == i,
                self.anchor_by_hex_skid_answers(hex_skid@, answers@),
                forall|j: int| 0 <= j < i - 1 ==> !is_success()(#[trigger] answers@[j]),
                done == (i > 0 && is_success()(answers@.last())),
            decreases n - i,
        {
            let answer = self.trust_anchor_sources[i].0.get_trust_anchor_by_hex_skid(hex_skid);
            done = answer.is_ok();
            let ghost before = answers@;
            answers.push(answer);
            proof {
                assert forall|j: int| 0 <= j < answers@.len() implies #[trigger] self@.trust_anchor_sources[j].0.anchor_by_hex_skid(hex_skid@, answers@[j]) by {
                    if j < i {
                        assert(answers@[j] == before[j]);
                    }
                }
            }
            i = i + 1;
        }
        assert(stops_at_first(answers@, n as nat, is_success()));
        select_first_success(answers, Error::Unrecognized)
    }

    /// `answers[j]` is an answer that the handler at position `j` of the
    /// trust anchor source list may give.
    pub open spec fn anchor_for_target_answers(&self, target: PDVCertificate, answers: Seq<Result<&PDVTrustAnchorChoice>>) -> bool {
        forall|j: int| 0 <= j < answers.len() ==> #[trigger] self@.trust_anchor_sources[j].0.anchor_for_target(target, answers[j])
    }

    /// Asks the trust anchor sources in turn for a trust anchor that may
    /// verify `target` until one has one; fails with `Unrecognized` when none
    /// does.
    pub fn get_trust_anchor_for_target(
        &self,
        target: &PDVCertificate,
    ) -> (r: Result<&PDVTrustAnchorChoice>)
        ensures
            exists|answers: Seq<Result<&PDVTrustAnchorChoice>>|
                #![trigger self.anchor_for_target_answers(*target, answers)]
                stops_at_first(answers, self@.trust_anchor_sources.len(), is_success())
                && self.anchor_for_target_answers(*target, answers)
                && r == first_success(answers, Error::Unrecognized),
            self@.trust_anchor_sources.len() == 0 ==> r == Err::<&PDVTrustAnchorChoice, Error>(Error::Unrecognized),
    {
        let n: usize = self.trust_anchor_sources.len();
        let mut answers: Vec<Result<&PDVTrustAnchorChoice>> = Vec::new();
        let mut done = false;
        let mut i: usize = 0;
        while i < n && !done
            invariant
                n == self@.trust_anchor_sources.len(),
                i <= n,
                answers@.len() == i,
                self.anchor_for_target_answers(*target, answers@),
                forall|j: int| 0 <= j < i - 1 ==> !is_success()(#[trigger] answers@[j]),
                done == (i > 0 && is_success()(answers@.last())),
            decreases n - i,
        {
            let answer = self.trust_anchor_sources[i].0.get_trust_anchor_for_target(target);
            done = answer.is_ok();
            let ghost before = answers@;
            answers.push(answer);
            proof {
                assert forall|j: int| 0 <= j < answers@.len() implies #[trigger] self@.trust_anchor_sources[j].0.anchor_for_target(*target, answers@[j]) by {
                    if j < i {
                        assert(answers@[j] == before[j]);
                    }
                }
            }
            i = i + 1;
        }
        assert(stops_at_first(answers@, n as nat, is_success()));
        select_first_success(answers, Error::Unrecognized)
    }

    /// `answers[j]` is an answer that the handler at position `j` of the
    /// trust anchor source list may give.
    pub open spec fn cert_recognition_answers(&self, target: PDVCertificate, answers: Seq<Result<()>>) -> bool {
        forall|j: int| 0 <= j < answers.len() ==> #[trigger] self@.trust_anchor_sources[j].0.recognizes_cert(target, answers[j])
    }

    /// Succeeds as soon as a trust anchor source recognizes `target` as a
    /// trust anchor; fails with `NotFound` when none does.
    pub fn is_cert_a_trust_anchor(
        &self,
        target: &PDVCertificate,
    ) -> (r: Result<()>)
        ensures
            exists|answers: Seq<Result<()>>|
                #![trigger self.cert_recognition_answers(*target, answers)]
                stops_at_first(answers, self@.trust_anchor_sources.len(), is_success())
                && self.cert_recognition_answers(*target, answers)
                && r == first_success(answers, Error::NotFound),
            self@.trust_anchor_sources.len() == 0 ==> r == Err::<(), Error>(Error::NotFound),
    {
        let n: usize = self.trust_anchor_sources.len();
        let mut answers: Vec<Result<()>> = Vec::new();
        let mut done = false;
        let mut i: usize = 0;
        while i < n && !done
            invariant
                n == self@.trust_anchor_sources.len(),
                i <= n,
                answers@.len() == i,
                self.cert_recognition_answers(*target, answers@),
                forall|j: int| 0 <= j < i - 1 ==> !is_success()(#[trigger] answers@[j]),
                done == (i > 0 && is_success()(answers@.last())),
            decreases n - i,
        {
            let answer = self.trust_anchor_sources[i].0.is_cert_a_trust_anchor(target);
            done = answer.is_ok();
            let ghost before = answers@;
            answers.push(answer);
            proof {
                assert forall|j: int| 0 <= j < answers@.len() implies #[trigger] self@.trust_anchor_sources[j].0.recognizes_cert(*target, answers@[j]) by {
                    if j < i {
                        assert(answers@[j] == before[j]);
                    }
                }
            }
            i = i + 1;
        }
        assert(stops_at_first(answers@, n as nat, is_success()));
        select_first_success(answers, Error::NotFound)
    }

    /// `answers[j]` is an answer that the handler at position `j` of the
    /// trust anchor source list may give.
    pub open spec fn anchor_recognition_answers(&self, target: PDVTrustAnchorChoice, answers: Seq<Result<()>>) -> bool {
        forall|j: int| 0 <= j < answers.len() ==> #[trigger] self@.trust_anchor_sources[j].0.recognizes_anchor(target, answers[j])
    }

    /// Succeeds as soon as a trust anchor source recognizes `target` as one
    /// of its trust anchors; fails with `NotFound` when none does.
    pub fn is_trust_anchor(
        &self,
        target: &PDVTrustAnchorChoice,
    ) -> (r: Result<()>)
        ensures
            exists|answers: Seq<Result<()>>|
                #![trigger self.anchor_recognition_answers(*target, answers)]
                stops_at_first(answers, self@.trust_anchor_sources.len(), is_success())
                && self.anchor_recognition_answers(*target, answers)
                && r == first_success(answers, Error::NotFound),
            self@.trust_anchor_sources.len() == 0 ==> r == Err::<(), Error>(Error::NotFound),
    {
        let n: usize = self.trust_anchor_sources.len();
        let mut answers: Vec<Result<()>> = Vec::new();
        let mut done = false;
        let mut i: usize = 0;
        while i < n && !done
            invariant
                n == self@.trust_anchor_sources.len(),
                i <= n,
                answers@.len() == i,
                self.anchor_recognition_answers(*target, answers@),
                forall|j: int| 0 <= j < i - 1 ==> !is_success()(#[trigger] answers@[j]),
                done == (i > 0 && is_success()(answers@.last())),
            decreases n - i,
        {
            let answer = self.trust_anchor_sources[i].0.is_trust_anchor(target);
            done = answer.is_ok();
            let ghost before = answers@;
            answers.push(answer);
            proof {
                assert forall|j: int| 0 <= j < answers@.len() implies #[trigger] self@.trust_anchor_sources[j].0.recognizes_anchor(*target, answers@[j]) by {
                    if j < i {
                        assert(answers@[j] == before[j]);
                    }
                }
            }
            i = i + 1;
        }
        assert(stops_at_first(answers@, n as nat, is_success()));
        select_first_success(answers, Error::NotFound)
    }

    /// `answers[j]` is an answer that the handler at position `j` of the
    /// CRL source list may give.
    pub open spec fn crl_answers(&self, cert: PDVCertificate, answers: Seq<Result<Vec<Vec<u8>>>>) -> bool {
        forall|j: int| 0 <= j < answers.len() ==> #[trigger] self@.crl_sources[j].0.crls_for(cert, answers[j])
    }

    /// Asks every CRL source for CRLs that cover `cert` and returns all that
    /// were found, source by source; fails with `NotFound` when there are none.
    pub fn get_crls(
        &self,
        cert: &PDVCertificate,
    ) -> (r: Result<Vec<Vec<u8>>>)
        ensures
            exists|answers: Seq<Result<Vec<Vec<u8>>>>|
                #![trigger self.crl_answers(*cert, answers)]
                answers.len() == self@.crl_sources.len()
                && self.crl_answers(*cert, answers)
                && gathers(r, answers),
            self@.crl_sources.len() == 0 ==> r == Err::<Vec<Vec<u8>>, Error>(Error::NotFound),
    {
        let n: usize = self.crl_sources.len();
        let mut answers: Vec<Result<Vec<Vec<u8>>>> = Vec::new();
        let mut i: usize = 0;
        while i < n
            invariant
                n == self@.crl_sources.len(),
                i <= n,
                answers@.len() == i,
                self.crl_answers(*cert, answers@),
            decreases n - i,
        {
            let answer = self.crl_sources[i].0.get_crls(cert);
            let ghost before = answers@;
            answers.push(answer);
            proof {
                assert forall|j: int| 0 <= j < answers@.len() implies #[trigger] self@.crl_sources[j].0.crls_for(*cert, answers@[j]) by {
                    if j < i {
                        assert(answers@[j] == before[j]);
                    }
                }
            }
            i = i + 1;
        }
        gather_successful_items(answers)
    }

    /// `answers[j]` is an answer that the handler at position `j` of the
    /// CRL source list may give.
    pub open spec fn crl_taken_answers(&self, crl_buf: Seq<u8>, crl: CertificateList, uri: Seq<char>, answers: Seq<Result<()>>) -> bool {
        forall|j: int| 0 <= j < answers.len() ==> #[trigger] self@.crl_sources[j].0.crl_taken(crl_buf, crl, uri, answers[j])
    }

    /// Offers a CRL to every CRL source; succeeds when at least one source
    /// took it, and fails with `NotFound` otherwise.
    pub fn add_crl(
        &self,
        crl_buf: &[u8],
        crl: &CertificateList,
        uri: &str,
    ) -> (r: Result<()>)
        ensures
            exists|answers: Seq<Result<()>>|
                #![trigger self.crl_taken_answers(crl_buf@, *crl, uri@, answers)]
                answers.len() == self@.crl_sources.len()
                && self.crl_taken_answers(crl_buf@, *crl, uri@, answers)
                && r == any_success(answers),
            self@.crl_sources.len() == 0 ==> r == Err::<(), Error>(Error::NotFound),
    {
        let n: usize = self.crl_sources.len();
        let mut answers: Vec<Result<()>> = Vec::new();
        let mut i: usize = 0;
        while i < n
            invariant
                n == self@.crl_sources.len(),
                i <= n,
                answers@.len() == i,
                self.crl_taken_answers(crl_buf@, *crl, uri@, answers@),
            decreases n - i,
        {
            let answer = self.crl_sources[i].0.add_crl(crl_buf, crl, uri);
            let ghost before = answers@;
            answers.push(answer);
            proof {
                assert forall|j: int| 0 <= j < answers@.len() implies #[trigger] self@.crl_sources[j].0.crl_taken(crl_buf@, *crl, uri@, answers@[j]) by {
                    if j < i {
                        assert(answers@[j] == before[j]);
                    }
                }
            }
            i = i + 1;
        }
        select_any_success(&answers)
    }

    /// `answers[j]` is an answer that the handler at position `j` of the
    /// revocation status cache list may give.
    pub open spec fn status_answers(&self, cert: PDVCertificate, time_of_interest: u64, answers: Seq<PathValidationStatus>) -> bool {
        forall|j: int| 0 <= j < answers.len() ==> #[trigger] self@.revocation_cache[j].0.status_of(cert, time_of_interest, answers[j])
    }

    /// Asks the revocation status caches in turn for the status of `cert`
    /// until one has determined it; otherwise `RevocationStatusNotDetermined`.
    pub fn get_status(
        &self,
        cert: &PDVCertificate,
        time_of_interest: u64,
    ) -> (r: PathValidationStatus)
        ensures
            exists|answers: Seq<PathValidationStatus>|
                #![trigger self.status_answers(*cert, time_of_interest, answers)]
                stops_at_first(answers, self@.revocation_cache.len(), is_determined())
                && self.status_answers(*cert, time_of_interest, answers)
                && r == first_determined(answers),
            self@.revocation_cache.len() == 0 ==> r == PathValidationStatus::RevocationStatusNotDetermined,
    {
        let n: usize = self.revocation_cache.len();
        let mut answers: Vec<PathValidationStatus> = Vec::new();
        let mut done = false;
        let mut i: usize = 0;
        while i < n && !done
            invariant
                n == self@.revocation_cache.len(),
                i <= n,
                answers@.len() == i,
                self.status_answers(*cert, time_of_interest, answers@),
                forall|j: int| 0 <= j < i - 1 ==> !is_determined()(#[trigger] answers@[j]),
                done == (i > 0 && is_determined()(answers@.last())),
            decreases n - i,
        {
            let answer = self.revocation_cache[i].0.get_status(cert, time_of_interest);
            done = answer != PathValidationStatus::RevocationStatusNotDetermined;
            let ghost before = answers@;
            answers.push(answer);
            proof {
                assert forall|j: int| 0 <= j < answers@.len() implies #[trigger] self@.revocation_cache[j].0.status_of(*cert, time_of_interest, answers@[j]) by {
                    if j < i {
                        assert(answers@[j] == before[j]);
                    }
                }
            }
            i = i + 1;
        }
        assert(stops_at_first(answers@, n as nat, is_determined()));
        select_first_determined(&answers)
    }

    /// Hands a revocation status determination to every revocation status
    /// cache, in order.
    pub fn add_status(&self, cert: &PDVCertificate, next_update: u64, status: PathValidationStatus)
        ensures
            forall|j: int|
                0 <= j < self@.revocation_cache.len() ==> #[trigger] self@.revocation_cache[j].0.status_recorded(*cert, next_update, status),
    {
        let n: usize = self.revocation_cache.len();
        let mut i: usize = 0;
        while i < n
            invariant
                n == self@.revocation_cache.len(),
                i <= n,
                forall|j: int| 0 <= j < i ==> #[trigger] self@.revocation_cache[j].0.status_recorded(*cert, next_update, status),
            decreases n - i,
        {
            self.revocation_cache[i].0.add_status(cert, next_update, status);
            i = i + 1;
        }
    }

    /// The path builders at positions `0 .. answers.len()` were asked in
    /// turn, each handed `pe`: the one at position `j` answered `answers[j]`, turning the list
    /// of paths `lists[j]` into `lists[j + 1]`.
    pub open spec fn building_run(
        &self,
        pe: Handle<'_, dyn PkiServices>,
        target: PDVCertificate,
        threshold: usize,
        time_of_interest: u64,
        answers: Seq<Result<()>>,
        lists: Seq<Seq<CertificationPath>>,
    ) -> bool {
        &&& lists.len() == answers.len() + 1
        &&& forall|j: int|
            0 <= j < answers.len() ==> #[trigger] self@.path_builders[j].0.building(
                pe,
                target,
                lists[j],
                lists[j + 1],
                threshold,
                time_of_interest,
                answers[j],
            )
    }

    /// Asks the path builders in turn, each with `pe`, these arguments and
    /// `paths` as the previous one left it, until one succeeds; fails with
    /// `Unrecognized` when none does, and with no builders `paths` is
    /// untouched.
    pub fn get_paths_for_target(
        &self,
        pe: Handle<'_, dyn PkiServices>,
        target: &PDVCertificate,
        paths: &mut Vec<CertificationPath>,
        threshold: usize,
        time_of_interest: u64,
    ) -> (r: Result<()>)
        ensures
            exists|answers: Seq<Result<()>>, lists: Seq<Seq<CertificationPath>>|
                #![trigger self.building_run(pe, *target, threshold, time_of_interest, answers, lists)]
                stops_at_first(answers, self@.path_builders.len(), is_success())
                && self.building_run(pe, *target, threshold, time_of_interest, answers, lists)
                && lists[0] == old(paths)@ && lists.last() == final(paths)@
                && r == first_success(answers, Error::Unrecognized),
            self@.path_builders.len() == 0 ==> r == Err::<(), Error>(Error::Unrecognized)
                && final(paths)@ == old(paths)@,
    {
        let n: usize = self.path_builders.len();
        let mut answers: Vec<Result<()>> = Vec::new();
        let ghost mut lists: Seq<Seq<CertificationPath>> = seq![paths@];
        let mut done = false;
        let mut i: usize = 0;
        while i < n && !done
            invariant
                n == self@.path_builders.len(),
                i <= n,
                answers@.len() == i,
                self.building_run(pe, *target, threshold, time_of_interest, answers@, lists),
                lists[0] == old(paths)@,
                lists.last() == paths@,
                forall|j: int| 0 <= j < i - 1 ==> !is_success()(#[trigger] answers@[j]),
                done == (i > 0 && is_success()(answers@.last())),
            decreases n - i,
        {
            let answer = self.path_builders[i].0.get_paths_for_target(pe, target, paths, threshold, time_of_interest);
            done = answer.is_ok();
            let ghost before = answers@;
            let ghost lists_before = lists;
            answers.push(answer);
            proof {
                lists = lists.push(paths@);
                assert forall|j: int| 0 <= j < answers@.len() implies #[trigger] self@.path_builders[j].0.building(
                    pe,
                    *target,
                    lists[j],
                    lists[j + 1],
                    threshold,
                    time_of_interest,
                    answers@[j],
                ) by {
                    if j < i {
                        assert(answers@[j] == before[j]);
                        assert(lists[j] == lists_before[j]);
                        assert(lists[j + 1] == lists_before[j + 1]);
                    }
                }
            }
            i = i + 1;
        }
        assert(stops_at_first(answers@, n as nat, is_success()));
        select_first_success(answers, Error::Unrecognized)
    }

    /// `answers[j]` is an answer that the handler at position `j` of the
    /// OID lookup list may give.
    pub open spec fn name_answers(&self, oid: Oid, answers: Seq<Result<String>>) -> bool {
        forall|j: int| 0 <= j < answers.len() ==> #[trigger] self@.oid_lookups[j].naming(oid, answers[j])
    }

    /// Asks the OID lookups in turn for a friendly name for `oid` until one
    /// has one; otherwise gives `oid` in dot notation.
    pub fn oid_lookup(
        &self,
        oid: &Oid,
    ) -> (r: String)
        ensures
            exists|answers: Seq<Result<String>>|
                #![trigger self.name_answers(*oid, answers)]
                stops_at_first(answers, self@.oid_lookups.len(), is_success())
                && self.name_answers(*oid, answers)
                && r@ == match first_success(answers, Error::Unrecognized) {
                    Ok(name) => name@,
                    Err(_) => dotted(oid@),
                },
            self@.oid_lookups.len() == 0 ==> r@ == dotted(oid@),
    {
        let n: usize = self.oid_lookups.len();
        let mut answers: Vec<Result<String>> = Vec::new();
        let mut done = false;
        let mut i: usize = 0;
        while i < n && !done
            invariant
                n == self@.oid_lookups.len(),
                i <= n,
                answers@.len() == i,
                self.name_answers(*oid, answers@),
                forall|j: int| 0 <= j < i - 1 ==> !is_success()(#[trigger] answers@[j]),
                done == (i > 0 && is_success()(answers@.last())),
            decreases n - i,
        {
            let answer = self.oid_lookups[i].oid_lookup(oid);
            done = answer.is_ok();
            let ghost before = answers@;
            answers.push(answer);
            proof {
                assert forall|j: int| 0 <= j < answers@.len() implies #[trigger] self@.oid_lookups[j].naming(*oid, answers@[j]) by {
                    if j < i {
                        assert(answers@[j] == before[j]);
                    }
                }
            }
            i = i + 1;
        }
        assert(stops_at_first(answers@, n as nat, is_success()));
        match select_first_success(answers, Error::Unrecognized) {
            Ok(name) => name,
            Err(_) => to_dotted_string(oid),
        }
    }

    /// `answers[j]` is an answer that the handler at position `j` of the
    /// remote resource checker list may give.
    pub open spec fn last_modified_answers(&self, uri: Seq<char>, answers: Seq<Option<String>>) -> bool {
        forall|j: int| 0 <= j < answers.len() ==> #[trigger] self@.check_remote[j].0.last_modified_of(uri, answers[j])
    }

    /// Asks the remote resource checkers in turn for the last-modified value
    /// stored for `uri` until one has it; otherwise `None`.
    pub fn get_last_modified(
        &self,
        uri: &str,
    ) -> (r: Option<String>)
        ensures
            exists|answers: Seq<Option<String>>|
                #![trigger self.last_modified_answers(uri@, answers)]
                stops_at_first(answers, self@.check_remote.len(), is_present())
                && self.last_modified_answers(uri@, answers)
                && r == first_some(answers),
            self@.check_remote.len() == 0 ==> r is None,
    {
        let n: usize = self.check_remote.len();
        let mut answers: Vec<Option<String>> = Vec::new();
        let mut done = false;
        let mut i: usize = 0;
        while i < n && !done
            invariant
                n == self@.check_remote.len(),
                i <= n,
                answers@.len() == i,
                self.last_modified_answers(uri@, answers@),
                forall|j: int| 0 <= j < i - 1 ==> !is_present()(#[trigger] answers@[j]),
                done == (i > 0 && is_present()(answers@.last())),
            decreases n - i,
        {
            let answer = self.check_remote[i].0.get_last_modified(uri);
            done = answer.is_some();
            let ghost before = answers@;
            answers.push(answer);
            proof {
                assert forall|j: int| 0 <= j < answers@.len() implies #[trigger] self@.check_remote[j].0.last_modified_of(uri@, answers@[j]) by {
                    if j < i {
                        assert(answers@[j] == before[j]);
                    }
                }
            }
            i = i + 1;
        }
        assert(stops_at_first(answers@, n as nat, is_present()));
        select_first_some(answers)
    }

    /// Hands a last-modified value for `uri` to every remote resource
    /// checker, in order.
    pub fn set_last_modified(&self, uri: &str, last_modified: &str)
        ensures
            forall|j: int|
                0 <= j < self@.check_remote.len() ==> #[trigger] self@.check_remote[j].0.last_modified_recorded(uri@, last_modified@),
    {
        let n: usize = self.check_remote.len();
        let mut i: usize = 0;
        while i < n
            invariant
                n == self@.check_remote.len(),
                i <= n,
                forall|j: int| 0 <= j < i ==> #[trigger] self@.check_remote[j].0.last_modified_recorded(uri@, last_modified@),
            decreases n - i,
        {
            self.check_remote[i].0.set_last_modified(uri, last_modified);
            i = i + 1;
        }
    }

    /// `answers[j]` is an answer that the handler at position `j` of the
    /// remote resource checker list may give.
    pub open spec fn blocklist_answers(&self, uri: Seq<char>, answers: Seq<bool>) -> bool {
        forall|j: int| 0 <= j < answers.len() ==> #[trigger] self@.check_remote[j].0.blocklisted(uri, answers[j])
    }

    /// Asks the remote resource checkers in turn whether `uri` is on a
    /// blocklist, stopping at the first that says so.
    pub fn check_blocklist(
        &self,
        uri: &str,
    ) -> (r: bool)
        ensures
            exists|answers: Seq<bool>|
                #![trigger self.blocklist_answers(uri@, answers)]
                stops_at_first(answers, self@.check_remote.len(), is_true())
                && self.blocklist_answers(uri@, answers)
                && r == answers.contains(true),
            self@.check_remote.len() == 0 ==> !r,
    {
        let n: usize = self.check_remote.len();
        let mut answers: Vec<bool> = Vec::new();
        let mut done = false;
        let mut i: usize = 0;
        while i < n && !done
            invariant
                n == self@.check_remote.len(),
                i <= n,
                answers@.len() == i,
                self.blocklist_answers(uri@, answers@),
                forall|j: int| 0 <= j < i - 1 ==> !is_true()(#[trigger] answers@[j]),
                done == (i > 0 && is_true()(answers@.last())),
            decreases n - i,
        {
            let answer = self.check_remote[i].0.check_blocklist(uri);
            done = answer;
            let ghost before = answers@;
            answers.push(answer);
            proof {
                assert forall|j: int| 0 <= j < answers@.len() implies #[trigger] self@.check_remote[j].0.blocklisted(uri@, answers@[j]) by {
                    if j < i {
                        assert(answers@[j] == before[j]);
                    }
                }
            }
            i = i + 1;
        }
        assert(stops_at_first(answers@, n as nat, is_true()));
        select_any_true(&answers)
    }

    /// Hands `uri` to every remote resource checker for its blocklist, in
    /// order.
    pub fn add_to_blocklist(&self, uri: &str)
        ensures
            forall|j: int|
                0 <= j < self@.check_remote.len() ==> #[trigger] self@.check_remote[j].0.blocklist_recorded(uri@),
    {
        let n: usize = self.check_remote.len();
        let mut i: usize = 0;
        while i < n
            invariant
                n == self@.check_remote.len(),
                i <= n,
                forall|j: int| 0 <= j < i ==> #[trigger] self@.check_remote[j].0.blocklist_recorded(uri@),
            decreases n - i,
        {
            self.check_remote[i].0.add_to_blocklist(uri);
            i = i + 1;
        }
    }

}

/// The environment as the services object handed on to its own handlers.
fn as_services<'s, 'a>(pe: &'s PkiEnvironment<'a>) -> Handle<'s, dyn PkiServices + 's> {
    Handle(pe)
}

impl<'a> PkiServices for PkiEnvironment<'a> {
    open spec fn validation_outcome(
        &self,
        cps: CertificationPathSettings,
        cp: CertificationPath,
        cpr: CertificationPathResults,
        cp_after: CertificationPath,
        cpr_after: CertificationPathResults,
        answer: Result<()>,
    ) -> bool {
        &&& exists|
            pe: Handle<'a, dyn PkiServices>,
            answers: Seq<Result<()>>,
            paths: Seq<CertificationPath>,
            results: Seq<CertificationPathResults>,
        |
            #![trigger self.validation_run(pe, cps, answers, paths, results)]
            stops_at_first(answers, self@.validate_path_callbacks.len(), is_success())
            && self.validation_run(pe, cps, answers, paths, results)
            && paths[0] == cp && results[0] == cpr
            && paths.last() == cp_after && results.last() == cpr_after
            && answer == first_success_or_last_failure(answers, Error::Unrecognized)
        &&& self@.validate_path_callbacks.len() == 0 ==> answer == Err::<(), Error>(Error::Unrecognized)
            && cp_after == cp && cpr_after == cpr
    }

    open spec fn hash_outcome(&self, hash_alg: AlgorithmIdentifierOwned, buffer: Seq<u8>, answer: Result<Vec<u8>>) -> bool {
        &&& exists|pe: Handle<'a, dyn PkiServices>, answers: Seq<Result<Vec<u8>>>|
            #![trigger self.hash_answers(pe, hash_alg, buffer, answers)]
            stops_at_first(answers, self@.calculate_hash_callbacks.len(), is_success())
            && self.hash_answers(pe, hash_alg, buffer, answers)
            && answer == first_success(answers, Error::Unrecognized)
        &&& self@.calculate_hash_callbacks.len() == 0 ==> answer == Err::<Vec<u8>, Error>(Error::Unrecognized)
    }

    open spec fn digest_verdict_outcome(&self, hash: Seq<u8>, signature: Seq<u8>, signature_alg: AlgorithmIdentifierOwned, spki: SubjectPublicKeyInfoOwned, answer: Result<()>) -> bool {
        &&& exists|pe: Handle<'a, dyn PkiServices>, answers: Seq<Result<()>>|
            #![trigger self.digest_verdicts(pe, hash, signature, signature_alg, spki, answers)]
            stops_at_first(answers, self@.verify_signature_digest_callbacks.len(), is_success())
            && self.digest_verdicts(pe, hash, signature, signature_alg, spki, answers)
            && answer == first_success(answers, Error::Unrecognized)
        &&& self@.verify_signature_digest_callbacks.len() == 0 ==> answer == Err::<(), Error>(Error::Unrecognized)
    }

    open spec fn message_verdict_outcome(&self, message: Seq<u8>, signature: Seq<u8>, signature_alg: AlgorithmIdentifierOwned, spki: SubjectPublicKeyInfoOwned, answer: Result<()>) -> bool {
        &&& exists|pe: Handle<'a, dyn PkiServices>, answers: Seq<Result<()>>|
            #![trigger self.message_verdicts(pe, message, signature, signature_alg, spki, answers)]
            stops_at_first(answers, self@.verify_signature_message_callbacks.len(), is_success())
            && self.message_verdicts(pe, message, signature, signature_alg, spki, answers)
            && answer == first_success(answers, Error::Unrecognized)
        &&& self@.verify_signature_message_callbacks.len() == 0 ==> answer == Err::<(), Error>(Error::Unrecognized)
    }

    open spec fn anchor_by_skid_outcome(&self, skid: Seq<u8>, answer: Result<&PDVTrustAnchorChoice>) -> bool {
        &&& exists|answers: Seq<Result<&PDVTrustAnchorChoice>>|
            #![trigger self.anchor_by_skid_answers(skid, answers)]
            stops_at_first(answers, self@.trust_anchor_sources.len(), is_success())
            && self.anchor_by_skid_answers(skid, answers)
            && answer == first_success(answers, Error::Unrecognized)
        &&& self@.trust_anchor_sources.len() == 0 ==> answer == Err::<&PDVTrustAnchorChoice, Error>(Error::Unrecognized)
    }

    open spec fn all_anchors_outcome(&self, answer: Result<Vec<&PDVTrustAnchorChoice>>) -> bool {
        &&& exists|answers: Seq<Result<Vec<&PDVTrustAnchorChoice>>>|
            #![trigger self.all_anchors_answers(answers)]
            stops_at_first(answers, self@.trust_anchor_sources.len(), is_success())
            && self.all_anchors_answers(answers)
            && answer == first_success(answers, Error::Unrecognized)
        &&& self@.trust_anchor_sources.len() == 0 ==> answer == Err::<Vec<&PDVTrustAnchorChoice>, Error>(Error::Unrecognized)
    }

    open spec fn anchor_by_hex_skid_outcome(&self, hex_skid: Seq<char>, answer: Result<&PDVTrustAnchorChoice>) -> bool {
        &&& exists|answers: Seq<Result<&PDVTrustAnchorChoice>>|
            #![trigger self.anchor_by_hex_skid_answers(hex_skid, answers)]
            stops_at_first(answers, self@.trust_anchor_sources.len(), is_success())
            && self.anchor_by_hex_skid_answers(hex_skid, answers)
            && answer == first_success(answers, Error::Unrecognized)
        &&& self@.trust_anchor_sources.len() == 0 ==> answer == Err::<&PDVTrustAnchorChoice, Error>(Error::Unrecognized)
    }

    open spec fn anchor_for_target_outcome(&self, target: PDVCertificate, answer: Result<&PDVTrustAnchorChoice>) -> bool {
        &&& exists|answers: Seq<Result<&PDVTrustAnchorChoice>>|
            #![trigger self.anchor_for_target_answers(target, answers)]
            stops_at_first(answers, self@.trust_anchor_sources.len(), is_success())
            && self.anchor_for_target_answers(target, answers)
            && answer == first_success(answers, Error::Unrecognized)
        &&& self@.trust_anchor_sources.len() == 0 ==> answer == Err::<&PDVTrustAnchorChoice, Error>(Error::Unrecognized)
    }

    open spec fn cert_recognition_outcome(&self, target: PDVCertificate, answer: Result<()>) -> bool {
        &&& exists|answers: Seq<Result<()>>|
            #![trigger self.cert_recognition_answers(target, answers)]
            stops_at_first(answers, self@.trust_anchor_sources.len(), is_success())
            && self.cert_recognition_answers(target, answers)
            && answer == first_success(answers, Error::NotFound)
        &&& self@.trust_anchor_sources.len() == 0 ==> answer == Err::<(), Error>(Error::NotFound)
    }

    open spec fn anchor_recognition_outcome(&self, target: PDVTrustAnchorChoice, answer: Result<()>) -> bool {
        &&& exists|answers: Seq<Result<()>>|
            #![trigger self.anchor_recognition_answers(target, answers)]
            stops_at_first(answers, self@.trust_anchor_sources.len(), is_success())
            && self.anchor_recognition_answers(target, answers)
            && answer == first_success(answers, Error::NotFound)
        &&& self@.trust_anchor_sources.len() == 0 ==> answer == Err::<(), Error>(Error::NotFound)
    }

    open spec fn crls_outcome(&self, cert: PDVCertificate, answer: Result<Vec<Vec<u8>>>) -> bool {
        &&& exists|answers: Seq<Result<Vec<Vec<u8>>>>|
            #![trigger self.crl_answers(cert, answers)]
            answers.len() == self@.crl_sources.len() && self.crl_answers(cert, answers) && gathers(answer, answers)
        &&& self@.crl_sources.len() == 0 ==> answer == Err::<Vec<Vec<u8>>, Error>(Error::NotFound)
    }

    open spec fn crl_taken_outcome(&self, crl_buf: Seq<u8>, crl: CertificateList, uri: Seq<char>, answer: Result<()>) -> bool {
        &&& exists|answers: Seq<Result<()>>|
            #![trigger self.crl_taken_answers(crl_buf, crl, uri, answers)]
            answers.len() == self@.crl_sources.len() && self.crl_taken_answers(crl_buf, crl, uri, answers)
            && answer == any_success(answers)
        &&& self@.crl_sources.len() == 0 ==> answer == Err::<(), Error>(Error::NotFound)
    }

    open spec fn status_outcome(&self, cert: PDVCertificate, time_of_interest: u64, answer: PathValidationStatus) -> bool {
        &&& exists|answers: Seq<PathValidationStatus>|
            #![trigger self.status_answers(cert, time_of_interest, answers)]
            stops_at_first(answers, self@.revocation_cache.len(), is_determined())
            && self.status_answers(cert, time_of_interest, answers)
            && answer == first_determined(answers)
        &&& self@.revocation_cache.len() == 0 ==> answer == PathValidationStatus::RevocationStatusNotDetermined
    }

    open spec fn status_recorded_everywhere(&self, cert: PDVCertificate, next_update: u64, status: PathValidationStatus) -> bool {
        forall|j: int|
            0 <= j < self@.revocation_cache.len() ==> #[trigger] self@.revocation_cache[j].0.status_recorded(cert, next_update, status)
    }

    open spec fn building_outcome(
        &self,
        target: PDVCertificate,
        paths: Seq<CertificationPath>,
        paths_after: Seq<CertificationPath>,
        threshold: usize,
        time_of_interest: u64,
        answer: Result<()>,
    ) -> bool {
        &&& exists|
            pe: Handle<'a, dyn PkiServices>,
            answers: Seq<Result<()>>,
            lists: Seq<Seq<CertificationPath>>,
        |
            #![trigger self.building_run(pe, target, threshold, time_of_interest, answers, lists)]
            stops_at_first(answers, self@.path_builders.len(), is_success())
            && self.building_run(pe, target, threshold, time_of_interest, answers, lists)
            && lists[0] == paths && lists.last() == paths_after
            && answer == first_success(answers, Error::Unrecognized)
        &&& self@.path_builders.len() == 0 ==> answer == Err::<(), Error>(Error::Unrecognized) && paths_after == paths
    }

    open spec fn naming_outcome(&self, oid: Oid, answer: Seq<char>) -> bool {
        &&& exists|answers: Seq<Result<String>>|
            #![trigger self.name_answers(oid, answers)]
            stops_at_first(answers, self@.oid_lookups.len(), is_success())
            && self.name_answers(oid, answers)
            && answer == match first_success(answers, Error::Unrecognized) {
                Ok(name) => name@,
                Err(_) => dotted(oid@),
            }
        &&& self@.oid_lookups.len() == 0 ==> answer == dotted(oid@)
    }

    open spec fn last_modified_outcome(&self, uri: Seq<char>, answer: Option<String>) -> bool {
        &&& exists|answers: Seq<Option<String>>|
            #![trigger self.last_modified_answers(uri, answers)]
            stops_at_first(answers, self@.check_remote.len(), is_present())
            && self.last_modified_answers(uri, answers)
            && answer == first_some(answers)
        &&& self@.check_remote.len() == 0 ==> answer is None
    }

    open spec fn last_modified_recorded_everywhere(&self, uri: Seq<char>, last_modified: Seq<char>) -> bool {
        forall|j: int|
            0 <= j < self@.check_remote.len() ==> #[trigger] self@.check_remote[j].0.last_modified_recorded(uri, last_modified)
    }

    open spec fn blocklist_outcome(&self, uri: Seq<char>, answer: bool) -> bool {
        &&& exists|answers: Seq<bool>|
            #![trigger self.blocklist_answers(uri, answers)]
            stops_at_first(answers, self@.check_remote.len(), is_true())
            && self.blocklist_answers(uri, answers)
            && answer == answers.contains(true)
        &&& self@.check_remote.len() == 0 ==> !answer
    }

    open spec fn blocklist_recorded_everywhere(&self, uri: Seq<char>) -> bool {
        forall|j: int| 0 <= j < self@.check_remote.len() ==> #[trigger] self@.check_remote[j].0.blocklist_recorded(uri)
    }

    fn validate_path(
        &self,
        cps: &CertificationPathSettings,
        cp: &mut CertificationPath,
        cpr: &mut CertificationPathResults,
    ) -> Result<()> {
        PkiEnvironment::validate_path(self, as_services(self), cps, cp, cpr)
    }

    fn calculate_hash(&self, hash_alg: &AlgorithmIdentifierOwned, buffer_to_hash: &[u8]) -> Result<Vec<u8>> {
        PkiEnvironment::calculate_hash(self, as_services(self), hash_alg, buffer_to_hash)
    }

    fn verify_signature_digest(
        &self,
        hash_to_verify: &[u8],
        signature: &[u8],
        signature_alg: &AlgorithmIdentifierOwned,
        spki: &SubjectPublicKeyInfoOwned,
    ) -> Result<()> {
        PkiEnvironment::verify_signature_digest(self, as_services(self), hash_to_verify, signature, signature_alg, spki)
    }

    fn verify_signature_message(
        &self,
        message_to_verify: &[u8],
        signature: &[u8],
        signature_alg: &AlgorithmIdentifierOwned,
        spki: &SubjectPublicKeyInfoOwned,
    ) -> Result<()> {
        PkiEnvironment::verify_signature_message(self, as_services(self), message_to_verify, signature, signature_alg, spki)
    }

    fn get_trust_anchor(&self, skid: &[u8]) -> Result<&PDVTrustAnchorChoice> {
        PkiEnvironment::get_trust_anchor(self, skid)
    }

    fn get_trust_anchors(&self) -> Result<Vec<&PDVTrustAnchorChoice>> {
        PkiEnvironment::get_trust_anchors(self)
    }

    fn get_trust_anchor_by_hex_skid(&self, hex_skid: &str) -> Result<&PDVTrustAnchorChoice> {
        PkiEnvironment::get_trust_anchor_by_hex_skid(self, hex_skid)
    }

    fn get_trust_anchor_for_target(&self, target: &PDVCertificate) -> Result<&PDVTrustAnchorChoice> {
        PkiEnvironment::get_trust_anchor_for_target(self, target)
    }

    fn is_cert_a_trust_anchor(&self, target: &PDVCertificate) -> Result<()> {
        PkiEnvironment::is_cert_a_trust_anchor(self, target)
    }

    fn is_trust_anchor(&self, target: &PDVTrustAnchorChoice) -> Result<()> {
        PkiEnvironment::is_trust_anchor(self, target)
    }

    fn get_crls(&self, cert: &PDVCertificate) -> Result<Vec<Vec<u8>>> {
        PkiEnvironment::get_crls(self, cert)
    }

    fn add_crl(&self, crl_buf: &[u8], crl: &CertificateList, uri: &str) -> Result<()> {
        PkiEnvironment::add_crl(self, crl_buf, crl, uri)
    }

    fn get_status(&self, cert: &PDVCertificate, time_of_interest: u64) -> PathValidationStatus {
        PkiEnvironment::get_status(self, cert, time_of_interest)
    }

    fn add_status(&self, cert: &PDVCertificate, next_update: u64, status: PathValidationStatus) {
        PkiEnvironment::add_status(self, cert, next_update, status)
    }

    fn get_paths_for_target(
        &self,
        target: &PDVCertificate,
        paths: &mut Vec<CertificationPath>,
        threshold: usize,
        time_of_interest: u64,
    ) -> Result<()> {
        PkiEnvironment::get_paths_for_target(self, as_services(self), target, paths, threshold, time_of_interest)
    }

    fn oid_lookup(&self, oid: &Oid) -> String {
        PkiEnvironment::oid_lookup(self, oid)
    }

    fn get_last_modified(&self, uri: &str) -> Option<String> {
        PkiEnvironment::get_last_modified(self, uri)
    }

    fn set_last_modified(&self, uri: &str, last_modified: &str) {
        PkiEnvironment::set_last_modified(self, uri, last_modified)
    }

    fn check_blocklist(&self, uri: &str) -> bool {
        PkiEnvironment::check_blocklist(self, uri)
    }

    fn add_to_blocklist(&self, uri: &str) {
        PkiEnvironment::add_to_blocklist(self, uri)
    }
}

/// The OID lookups that `populate_5280_pki_environment` leaves: the
/// database lookup when there were none, and otherwise those there were.
pub open spec fn oid_lookups_after_populate(lookups: Seq<OidLookupHandler>) -> Seq<OidLookupHandler> {
    if lookups.len() == 0 {
        seq![OidLookupHandler::Database]
    } else {
        lookups
    }
}

/// Registers the standard handlers for RFC 5280 path processing: a path
/// validator, a hashing handler and the two signature verifiers, each after
/// the handlers of its kind. Adds the database OID lookup as well when the
/// environment has no OID lookup, and otherwise leaves the OID lookups as
/// they are. The other lists are untouched.
pub fn populate_5280_pki_environment<'a>(
    pe: &mut PkiEnvironment<'a>,
    validate_path: Handle<'a, dyn ValidatePath>,
    calculate_hash: Handle<'a, dyn CalculateHash>,
    verify_signature_digest: Handle<'a, dyn VerifySignatureDigest>,
    verify_signature_message: Handle<'a, dyn VerifySignatureMessage>,
)
    ensures
        final(pe)@.validate_path_callbacks == old(pe)@.validate_path_callbacks.push(validate_path),
        final(pe)@.calculate_hash_callbacks == old(pe)@.calculate_hash_callbacks.push(calculate_hash),
        final(pe)@.verify_signature_digest_callbacks == old(pe)@.verify_signature_digest_callbacks.push(
            verify_signature_digest,
        ),
        final(pe)@.verify_signature_message_callbacks == old(pe)@.verify_signature_message_callbacks.push(
            verify_signature_message,
        ),
        final(pe)@.oid_lookups == oid_lookups_after_populate(old(pe)@.oid_lookups),
        old(pe)@.oid_lookups.len() > 0 ==> final(pe)@.oid_lookups == old(pe)@.oid_lookups,
        old(pe)@.oid_lookups.len() == 0 ==> final(pe)@.oid_lookups == seq![OidLookupHandler::Database],
        final(pe)@.trust_anchor_sources == old(pe)@.trust_anchor_sources,
        final(pe)@.certificate_sources == old(pe)@.certificate_sources,
        final(pe)@.crl_sources == old(pe)@.crl_sources,
        final(pe)@.revocation_cache == old(pe)@.revocation_cache,
        final(pe)@.path_builders == old(pe)@.path_builders,
        final(pe)@.check_remote == old(pe)@.check_remote,
{
    pe.validate_path_callbacks.push(validate_path);
    pe.calculate_hash_callbacks.push(calculate_hash);
    pe.verify_signature_digest_callbacks.push(verify_signature_digest);
    pe.verify_signature_message_callbacks.push(verify_signature_message);
    if pe.oid_lookups.len() == 0 {
        pe.oid_lookups.push(OidLookupHandler::Database);
        assert(pe@.oid_lookups =~= seq![OidLookupHandler::Database]);
    }
}

/// After populating, an environment has an OID lookup, and populating it
/// again never adds a second one. OID lookups that were already there are
/// kept, all of them and in their order, with nothing added; only an
/// environment without any gains the database lookup, as its only one.
pub proof fn lemma_populate_registers_one_oid_lookup(lookups: Seq<OidLookupHandler>)
    ensures
        oid_lookups_after_populate(lookups).len() > 0,
        oid_lookups_after_populate(oid_lookups_after_populate(lookups)) == oid_lookups_after_populate(lookups),
        lookups.len() > 0 ==> oid_lookups_after_populate(lookups) == lookups,
        lookups.len() == 0 ==> oid_lookups_after_populate(lookups) == seq![OidLookupHandler::Database],
{
    assert(seq![OidLookupHandler::Database].len() == 1);
}

} // verus!
