use std::cell::{Cell, RefCell};
use std::rc::Rc;
use std::time::Duration;

use certval::{
    populate_5280_pki_environment, CalculateHash, CertificationPath, CertificationPathBuilder,
    CertificationPathResults, CertificationPathSettings, CheckRemoteResource, CrlSource, Error,
    OidLookup, OidLookupHandler, PDVCertificate, PDVTrustAnchorChoice, PathValidationStatus,
    Handle, PkiEnvironment, PkiServices, Result, RevocationStatusCache, TrustAnchorSource, ValidatePath,
    VerifySignatureDigest, VerifySignatureMessage,
};
use certval::oid::{to_dotted_string, Oid};
use der::asn1::{BitString, ObjectIdentifier, UtcTime};
use spki::{AlgorithmIdentifierOwned, SubjectPublicKeyInfoOwned};
use x509_cert::certificate::Version;
use x509_cert::crl::{CertificateList, TbsCertList};
use x509_cert::name::Name;
use x509_cert::time::Time;

// ---------------------------------------------------------------- helpers

fn sha256_alg() -> AlgorithmIdentifierOwned {
    AlgorithmIdentifierOwned {
        oid: ObjectIdentifier::new_unwrap("2.16.840.1.101.3.4.2.1"),
        parameters: None,
    }
}

fn rsa_spki() -> SubjectPublicKeyInfoOwned {
    SubjectPublicKeyInfoOwned {
        algorithm: AlgorithmIdentifierOwned {
            oid: ObjectIdentifier::new_unwrap("1.2.840.113549.1.1.1"),
            parameters: None,
        },
        subject_public_key: BitString::from_bytes(&[1, 2, 3]).unwrap(),
    }
}

fn sample_crl() -> CertificateList {
    let time = Time::UtcTime(UtcTime::from_unix_duration(Duration::from_secs(0)).unwrap());
    CertificateList {
        tbs_cert_list: TbsCertList {
            version: Version::V2,
            signature: sha256_alg(),
            issuer: Name::default(),
            this_update: time,
            next_update: None,
            revoked_certificates: None,
            crl_extensions: None,
        },
        signature_algorithm: sha256_alg(),
        signature: BitString::from_bytes(&[0]).unwrap(),
    }
}

fn cn() -> Oid {
    Oid::new(vec![2, 5, 4, 3]).unwrap()
}

fn unknown_oid() -> Oid {
    Oid::new(vec![1, 2, 3, 4, 5]).unwrap()
}

fn cert(byte: u8) -> PDVCertificate {
    PDVCertificate { encoded_cert: vec![byte] }
}

fn path() -> CertificationPath {
    CertificationPath {
        target: cert(1),
        intermediates: vec![],
        trust_anchor: PDVTrustAnchorChoice { encoded_ta: vec![9] },
    }
}

struct Hasher {
    answer: Result<Vec<u8>>,
    calls: Rc<Cell<usize>>,
}

impl Hasher {
    fn new(answer: Result<Vec<u8>>) -> Self {
        Hasher { answer, calls: Rc::new(Cell::new(0)) }
    }
}

impl CalculateHash for Hasher {
    fn calculate_hash(&self, _pe: Handle<'_, dyn PkiServices>, _alg: &AlgorithmIdentifierOwned, _buf: &[u8]) -> Result<Vec<u8>> {
        self.calls.set(self.calls.get() + 1);
        self.answer.clone()
    }
}

struct Validator {
    answer: Result<()>,
    calls: Rc<Cell<usize>>,
}

impl ValidatePath for Validator {
    fn validate_path(
        &self,
        _pe: Handle<'_, dyn PkiServices>,
        _cps: &CertificationPathSettings,
        _cp: &mut CertificationPath,
        _cpr: &mut CertificationPathResults,
    ) -> Result<()> {
        self.calls.set(self.calls.get() + 1);
        self.answer
    }
}

fn validator(answer: Result<()>) -> (&'static dyn ValidatePath, Rc<Cell<usize>>) {
    let calls = Rc::new(Cell::new(0));
    (Box::leak(Box::new(Validator { answer, calls: calls.clone() })), calls)
}

/// A validator that needs the hashing service of the environment it runs in.
struct HashingValidator;

impl ValidatePath for HashingValidator {
    fn validate_path(
        &self,
        pe: Handle<'_, dyn PkiServices>,
        _cps: &CertificationPathSettings,
        _cp: &mut CertificationPath,
        cpr: &mut CertificationPathResults,
    ) -> Result<()> {
        let digest = pe.0.calculate_hash(&sha256_alg(), b"tbs")?;
        if digest == vec![0xAB] {
            cpr.validation_status = Some(PathValidationStatus::Valid);
            Ok(())
        } else {
            Err(Error::PathValidation(PathValidationStatus::SignatureVerificationFailure))
        }
    }
}

struct FixedHash(Result<Vec<u8>>);

impl CalculateHash for FixedHash {
    fn calculate_hash(&self, _pe: Handle<'_, dyn PkiServices>, _alg: &AlgorithmIdentifierOwned, _buf: &[u8]) -> Result<Vec<u8>> {
        self.0.clone()
    }
}

struct Verifier(Result<()>);

impl VerifySignatureDigest for Verifier {
    fn verify_signature_digest(
        &self,
        _pe: Handle<'_, dyn PkiServices>,
        _hash: &[u8],
        _sig: &[u8],
        _alg: &AlgorithmIdentifierOwned,
        _spki: &SubjectPublicKeyInfoOwned,
    ) -> Result<()> {
        self.0
    }
}

impl VerifySignatureMessage for Verifier {
    fn verify_signature_message(
        &self,
        _pe: Handle<'_, dyn PkiServices>,
        _msg: &[u8],
        _sig: &[u8],
        _alg: &AlgorithmIdentifierOwned,
        _spki: &SubjectPublicKeyInfoOwned,
    ) -> Result<()> {
        self.0
    }
}

struct NamedLookup(Result<String>);

impl OidLookup for NamedLookup {
    fn oid_lookup(&self, _oid: &Oid) -> Result<String> {
        self.0.clone()
    }
}

struct TaStore {
    anchors: Vec<PDVTrustAnchorChoice>,
    skid: Vec<u8>,
}

impl TrustAnchorSource for TaStore {
    fn get_trust_anchor_by_skid(&self, skid: &[u8]) -> Result<&PDVTrustAnchorChoice> {
        if skid == self.skid.as_slice() && !self.anchors.is_empty() {
            Ok(&self.anchors[0])
        } else {
            Err(Error::NotFound)
        }
    }

    fn get_trust_anchors(&self) -> Result<Vec<&PDVTrustAnchorChoice>> {
        if self.anchors.is_empty() {
            Err(Error::NotFound)
        } else {
            Ok(self.anchors.iter().collect())
        }
    }

    fn get_trust_anchor_by_hex_skid(&self, hex_skid: &str) -> Result<&PDVTrustAnchorChoice> {
        let hex: String = self.skid.iter().map(|b| format!("{:02X}", b)).collect();
        if hex == hex_skid && !self.anchors.is_empty() {
            Ok(&self.anchors[0])
        } else {
            Err(Error::NotFound)
        }
    }

    fn get_trust_anchor_for_target(&self, target: &PDVCertificate) -> Result<&PDVTrustAnchorChoice> {
        if target.encoded_cert == self.skid && !self.anchors.is_empty() {
            Ok(&self.anchors[0])
        } else {
            Err(Error::NotFound)
        }
    }

    fn is_cert_a_trust_anchor(&self, target: &PDVCertificate) -> Result<()> {
        if self.anchors.iter().any(|a| a.encoded_ta == target.encoded_cert) {
            Ok(())
        } else {
            Err(Error::NotFound)
        }
    }

    fn is_trust_anchor(&self, target: &PDVTrustAnchorChoice) -> Result<()> {
        if self.anchors.iter().any(|a| a.encoded_ta == target.encoded_ta) {
            Ok(())
        } else {
            Err(Error::NotFound)
        }
    }
}

struct CrlStore {
    crls: Result<Vec<Vec<u8>>>,
    accept: bool,
    offered: Cell<usize>,
}

impl CrlSource for CrlStore {
    fn get_crls(&self, _cert: &PDVCertificate) -> Result<Vec<Vec<u8>>> {
        self.crls.clone()
    }

    fn add_crl(&self, _crl_buf: &[u8], _crl: &CertificateList, _uri: &str) -> Result<()> {
        self.offered.set(self.offered.get() + 1);
        if self.accept {
            Ok(())
        } else {
            Err(Error::Misc)
        }
    }
}

fn crl_store(crls: Result<Vec<Vec<u8>>>, accept: bool) -> CrlStore {
    CrlStore { crls, accept, offered: Cell::new(0) }
}

struct StatusCache {
    status: PathValidationStatus,
    asked: Cell<usize>,
    stored: RefCell<Vec<(u64, PathValidationStatus)>>,
}

impl RevocationStatusCache for StatusCache {
    fn get_status(&self, _cert: &PDVCertificate, _time_of_interest: u64) -> PathValidationStatus {
        self.asked.set(self.asked.get() + 1);
        self.status
    }

    fn add_status(&self, _cert: &PDVCertificate, next_update: u64, status: PathValidationStatus) {
        self.stored.borrow_mut().push((next_update, status));
    }
}

fn status_cache(status: PathValidationStatus) -> StatusCache {
    StatusCache { status, asked: Cell::new(0), stored: RefCell::new(vec![]) }
}

struct Remote {
    last_modified: Option<String>,
    blocked: bool,
    asked: Cell<usize>,
    saved: RefCell<Vec<String>>,
    blocklisted: RefCell<Vec<String>>,
}

impl CheckRemoteResource for Remote {
    fn get_last_modified(&self, _uri: &str) -> Option<String> {
        self.asked.set(self.asked.get() + 1);
        self.last_modified.clone()
    }

    fn set_last_modified(&self, uri: &str, last_modified: &str) {
        self.saved.borrow_mut().push(format!("{uri}={last_modified}"));
    }

    fn check_blocklist(&self, _uri: &str) -> bool {
        self.asked.set(self.asked.get() + 1);
        self.blocked
    }

    fn add_to_blocklist(&self, uri: &str) {
        self.blocklisted.borrow_mut().push(uri.to_string());
    }
}

fn remote(last_modified: Option<&str>, blocked: bool) -> Remote {
    Remote {
        last_modified: last_modified.map(|s| s.to_string()),
        blocked,
        asked: Cell::new(0),
        saved: RefCell::new(vec![]),
        blocklisted: RefCell::new(vec![]),
    }
}

struct Builder {
    answer: Result<()>,
    adds: usize,
}

impl CertificationPathBuilder for Builder {
    fn get_paths_for_target(
        &self,
        _pe: Handle<'_, dyn PkiServices>,
        _target: &PDVCertificate,
        paths: &mut Vec<CertificationPath>,
        _threshold: usize,
        _time_of_interest: u64,
    ) -> Result<()> {
        for _ in 0..self.adds {
            paths.push(path());
        }
        self.answer
    }
}

fn run_validate(pe: &PkiEnvironment) -> (Result<()>, CertificationPathResults) {
    let cps = CertificationPathSettings { time_of_interest: 0 };
    let mut cp = path();
    let mut cpr = CertificationPathResults { validation_status: None };
    let r = pe.validate_path(Handle(pe), &cps, &mut cp, &mut cpr);
    (r, cpr)
}

// ---------------------------------------------------------------- empty environment

#[test]
fn new_environment_gives_every_fallback() {
    let pe = PkiEnvironment::new();
    assert_eq!(run_validate(&pe).0, Err(Error::Unrecognized));
    assert_eq!(pe.calculate_hash(Handle(&pe), &sha256_alg(), b"abc"), Err(Error::Unrecognized));
    assert_eq!(
        pe.verify_signature_digest(Handle(&pe), b"h", b"s", &sha256_alg(), &rsa_spki()),
        Err(Error::Unrecognized)
    );
    assert_eq!(
        pe.verify_signature_message(Handle(&pe), b"m", b"s", &sha256_alg(), &rsa_spki()),
        Err(Error::Unrecognized)
    );
    assert_eq!(pe.get_trust_anchor(&[1]).err(), Some(Error::Unrecognized));
    assert_eq!(pe.get_trust_anchors().err(), Some(Error::Unrecognized));
    assert_eq!(pe.get_trust_anchor_by_hex_skid("01").err(), Some(Error::Unrecognized));
    assert_eq!(pe.get_trust_anchor_for_target(&cert(1)).err(), Some(Error::Unrecognized));
    assert_eq!(pe.is_cert_a_trust_anchor(&cert(1)), Err(Error::NotFound));
    assert_eq!(pe.is_trust_anchor(&PDVTrustAnchorChoice { encoded_ta: vec![1] }), Err(Error::NotFound));
    assert_eq!(pe.get_crls(&cert(1)), Err(Error::NotFound));
    assert_eq!(pe.add_crl(b"crl", &sample_crl(), "http://x/crl"), Err(Error::NotFound));
    assert_eq!(pe.get_status(&cert(1), 5), PathValidationStatus::RevocationStatusNotDetermined);
    let mut paths = vec![];
    assert_eq!(pe.get_paths_for_target(Handle(&pe), &cert(1), &mut paths, 0, 0), Err(Error::Unrecognized));
    assert_eq!(pe.get_last_modified("http://x"), None);
    assert!(!pe.check_blocklist("http://x"));
    pe.add_status(&cert(1), 7, PathValidationStatus::Valid);
    pe.set_last_modified("http://x", "yesterday");
    pe.add_to_blocklist("http://x");
}

#[test]
fn new_environment_renders_oids_in_dot_notation() {
    let pe = PkiEnvironment::new();
    assert_eq!(pe.oid_lookup(&cn()), "2.5.4.3");
    assert_eq!(pe.oid_lookup(&unknown_oid()), "1.2.3.4.5");
}

#[test]
fn default_environment_names_oids_from_the_database() {
    let pe = PkiEnvironment::default();
    assert_eq!(pe.oid_lookup(&cn()), "cn");
    // unknown to the database: dot notation
    assert_eq!(pe.oid_lookup(&unknown_oid()), "1.2.3.4.5");
    // and nothing else is registered
    assert_eq!(pe.calculate_hash(Handle(&pe), &sha256_alg(), b"abc"), Err(Error::Unrecognized));
}

#[test]
fn database_lookup_handler_answers_unrecognized_for_unknown_oids() {
    let h = OidLookupHandler::Database;
    assert_eq!(h.oid_lookup(&cn()), Ok("cn".to_string()));
    assert_eq!(h.oid_lookup(&unknown_oid()), Err(Error::Unrecognized));
}

// ---------------------------------------------------------------- first success

#[test]
fn calculate_hash_stops_at_first_success() {
    let a = Hasher::new(Err(Error::Misc));
    let b = Hasher::new(Ok(vec![1, 2]));
    let c = Hasher::new(Ok(vec![3]));
    let (ca, cb, cc) = (a.calls.clone(), b.calls.clone(), c.calls.clone());
    let mut pe = PkiEnvironment::new();
    pe.add_calculate_hash_callback(Handle(Box::leak(Box::new(a))));
    pe.add_calculate_hash_callback(Handle(Box::leak(Box::new(b))));
    pe.add_calculate_hash_callback(Handle(Box::leak(Box::new(c))));
    assert_eq!(pe.calculate_hash(Handle(&pe), &sha256_alg(), b"abc"), Ok(vec![1, 2]));
    assert_eq!((ca.get(), cb.get(), cc.get()), (1, 1, 0));
}

#[test]
fn calculate_hash_unrecognized_when_all_fail() {
    let mut pe = PkiEnvironment::new();
    pe.add_calculate_hash_callback(Handle(Box::leak(Box::new(Hasher::new(Err(Error::Misc))))));
    pe.add_calculate_hash_callback(Handle(Box::leak(Box::new(Hasher::new(Err(Error::ParseError))))));
    assert_eq!(pe.calculate_hash(Handle(&pe), &sha256_alg(), b"abc"), Err(Error::Unrecognized));
}

#[test]
fn clear_calculate_hash_callbacks_restores_fallback() {
    let mut pe = PkiEnvironment::new();
    pe.add_calculate_hash_callback(Handle(Box::leak(Box::new(Hasher::new(Ok(vec![1]))))));
    assert_eq!(pe.calculate_hash(Handle(&pe), &sha256_alg(), b"abc"), Ok(vec![1]));
    pe.clear_calculate_hash_callbacks();
    assert_eq!(pe.calculate_hash(Handle(&pe), &sha256_alg(), b"abc"), Err(Error::Unrecognized));
}

#[test]
fn validate_path_reports_last_failure() {
    let mut pe = PkiEnvironment::new();
    let (v1, c1) = validator(Err(Error::PathValidation(PathValidationStatus::InvalidNotAfterDate)));
    let (v2, c2) = validator(Err(Error::PathValidation(PathValidationStatus::CertificateRevoked)));
    pe.add_validate_path_callback(Handle(v1));
    pe.add_validate_path_callback(Handle(v2));
    assert_eq!(
        run_validate(&pe).0,
        Err(Error::PathValidation(PathValidationStatus::CertificateRevoked))
    );
    assert_eq!((c1.get(), c2.get()), (1, 1));
}

#[test]
fn validate_path_first_success_wins() {
    let mut pe = PkiEnvironment::new();
    let (v1, c1) = validator(Err(Error::Misc));
    let (v2, c2) = validator(Ok(()));
    let (v3, c3) = validator(Err(Error::ParseError));
    pe.add_validate_path_callback(Handle(v1));
    pe.add_validate_path_callback(Handle(v2));
    pe.add_validate_path_callback(Handle(v3));
    assert_eq!(run_validate(&pe).0, Ok(()));
    assert_eq!((c1.get(), c2.get(), c3.get()), (1, 1, 0));
    pe.clear_validate_path_callbacks();
    assert_eq!(run_validate(&pe).0, Err(Error::Unrecognized));
}

#[test]
fn validators_get_the_services_object_of_the_caller() {
    let mut validators = PkiEnvironment::new();
    validators.add_validate_path_callback(Handle(Box::leak(Box::new(HashingValidator))));
    let mut services = PkiEnvironment::new();
    services.add_calculate_hash_callback(Handle(Box::leak(Box::new(FixedHash(Ok(vec![0xAB]))))));
    let cps = CertificationPathSettings { time_of_interest: 0 };
    let mut cp = path();
    let mut cpr = CertificationPathResults { validation_status: None };
    // the hashing handler is found through `services`, not through `validators`
    assert_eq!(validators.validate_path(Handle(&services), &cps, &mut cp, &mut cpr), Ok(()));
    let mut cpr = CertificationPathResults { validation_status: None };
    assert_eq!(
        validators.validate_path(Handle(&validators), &cps, &mut cp, &mut cpr),
        Err(Error::Unrecognized)
    );
}

#[test]
fn validators_reach_the_services_of_the_environment() {
    let mut pe = PkiEnvironment::new();
    pe.add_validate_path_callback(Handle(Box::leak(Box::new(HashingValidator))));
    // no hashing handler: the validator's own error surfaces
    assert_eq!(run_validate(&pe).0, Err(Error::Unrecognized));
    pe.add_calculate_hash_callback(Handle(Box::leak(Box::new(FixedHash(Ok(vec![0xAB]))))));
    let (r, cpr) = run_validate(&pe);
    assert_eq!(r, Ok(()));
    assert_eq!(cpr.validation_status, Some(PathValidationStatus::Valid));
}

#[test]
fn signature_verification_first_success() {
    let mut pe = PkiEnvironment::new();
    pe.add_verify_signature_digest_callback(Handle(Box::leak(Box::new(Verifier(Err(Error::Misc))))));
    pe.add_verify_signature_message_callback(Handle(Box::leak(Box::new(Verifier(Err(Error::Misc))))));
    assert_eq!(
        pe.verify_signature_digest(Handle(&pe), b"h", b"s", &sha256_alg(), &rsa_spki()),
        Err(Error::Unrecognized)
    );
    assert_eq!(
        pe.verify_signature_message(Handle(&pe), b"m", b"s", &sha256_alg(), &rsa_spki()),
        Err(Error::Unrecognized)
    );
    pe.add_verify_signature_digest_callback(Handle(Box::leak(Box::new(Verifier(Ok(()))))));
    pe.add_verify_signature_message_callback(Handle(Box::leak(Box::new(Verifier(Ok(()))))));
    assert_eq!(pe.verify_signature_digest(Handle(&pe), b"h", b"s", &sha256_alg(), &rsa_spki()), Ok(()));
    assert_eq!(pe.verify_signature_message(Handle(&pe), b"m", b"s", &sha256_alg(), &rsa_spki()), Ok(()));
    pe.clear_verify_signature_digest_callbacks();
    pe.clear_verify_signature_message_callbacks();
    assert_eq!(
        pe.verify_signature_digest(Handle(&pe), b"h", b"s", &sha256_alg(), &rsa_spki()),
        Err(Error::Unrecognized)
    );
    assert_eq!(
        pe.verify_signature_message(Handle(&pe), b"m", b"s", &sha256_alg(), &rsa_spki()),
        Err(Error::Unrecognized)
    );
}

// ---------------------------------------------------------------- trust anchors

#[test]
fn trust_anchor_lookups_consult_sources_in_order() {
    let empty = TaStore { anchors: vec![], skid: vec![1] };
    let first = TaStore { anchors: vec![PDVTrustAnchorChoice { encoded_ta: vec![10] }], skid: vec![0xAB] };
    let second = TaStore {
        anchors: vec![PDVTrustAnchorChoice { encoded_ta: vec![20] }, PDVTrustAnchorChoice { encoded_ta: vec![21] }],
        skid: vec![0xAB],
    };
    let mut pe = PkiEnvironment::new();
    pe.add_trust_anchor_source(Handle(&empty));
    pe.add_trust_anchor_source(Handle(&first));
    pe.add_trust_anchor_source(Handle(&second));
    assert_eq!(pe.get_trust_anchor(&[0xAB]).unwrap().encoded_ta, vec![10]);
    assert_eq!(pe.get_trust_anchor(&[0xCD]).err(), Some(Error::Unrecognized));
    assert_eq!(pe.get_trust_anchor_by_hex_skid("AB").unwrap().encoded_ta, vec![10]);
    assert_eq!(pe.get_trust_anchor_by_hex_skid("CD").err(), Some(Error::Unrecognized));
    assert_eq!(pe.get_trust_anchor_for_target(&cert(0xAB)).unwrap().encoded_ta, vec![10]);
    let all = pe.get_trust_anchors().unwrap();
    assert_eq!(all.len(), 1);
    assert_eq!(all[0].encoded_ta, vec![10]);
    assert_eq!(pe.is_cert_a_trust_anchor(&cert(21)), Ok(()));
    assert_eq!(pe.is_cert_a_trust_anchor(&cert(30)), Err(Error::NotFound));
    assert_eq!(pe.is_trust_anchor(&PDVTrustAnchorChoice { encoded_ta: vec![10] }), Ok(()));
    assert_eq!(pe.is_trust_anchor(&PDVTrustAnchorChoice { encoded_ta: vec![30] }), Err(Error::NotFound));
    pe.clear_trust_anchor_sources();
    assert_eq!(pe.get_trust_anchor(&[0xAB]).err(), Some(Error::Unrecognized));
    assert_eq!(pe.is_trust_anchor(&PDVTrustAnchorChoice { encoded_ta: vec![10] }), Err(Error::NotFound));
}

// ---------------------------------------------------------------- CRLs

#[test]
fn get_crls_gathers_from_every_source_in_order() {
    let a = crl_store(Ok(vec![vec![1], vec![2]]), false);
    let b = crl_store(Err(Error::NotFound), false);
    let c = crl_store(Ok(vec![]), false);
    let d = crl_store(Ok(vec![vec![3]]), false);
    let mut pe = PkiEnvironment::new();
    pe.add_crl_source(Handle(&a));
    pe.add_crl_source(Handle(&b));
    pe.add_crl_source(Handle(&c));
    pe.add_crl_source(Handle(&d));
    assert_eq!(pe.get_crls(&cert(1)), Ok(vec![vec![1], vec![2], vec![3]]));
}

#[test]
fn get_crls_not_found_when_sources_have_none() {
    let b = crl_store(Err(Error::Misc), false);
    let c = crl_store(Ok(vec![]), false);
    let mut pe = PkiEnvironment::new();
    pe.add_crl_source(Handle(&b));
    pe.add_crl_source(Handle(&c));
    assert_eq!(pe.get_crls(&cert(1)), Err(Error::NotFound));
}

#[test]
fn add_crl_offers_to_every_source() {
    let a = crl_store(Ok(vec![]), false);
    let b = crl_store(Ok(vec![]), true);
    let c = crl_store(Ok(vec![]), false);
    let mut pe = PkiEnvironment::new();
    pe.add_crl_source(Handle(&a));
    pe.add_crl_source(Handle(&c));
    assert_eq!(pe.add_crl(b"crl", &sample_crl(), "http://x/crl"), Err(Error::NotFound));
    pe.add_crl_source(Handle(&b));
    assert_eq!(pe.add_crl(b"crl", &sample_crl(), "http://x/crl"), Ok(()));
    assert_eq!((a.offered.get(), b.offered.get(), c.offered.get()), (2, 1, 2));
    pe.clear_crl_sources();
    assert_eq!(pe.add_crl(b"crl", &sample_crl(), "http://x/crl"), Err(Error::NotFound));
}

// ---------------------------------------------------------------- revocation cache

#[test]
fn get_status_returns_first_determined_status() {
    let unknown = status_cache(PathValidationStatus::RevocationStatusNotDetermined);
    let revoked = status_cache(PathValidationStatus::CertificateRevoked);
    let valid = status_cache(PathValidationStatus::Valid);
    let mut pe = PkiEnvironment::new();
    pe.add_revocation_cache(Handle(&unknown));
    assert_eq!(pe.get_status(&cert(1), 10), PathValidationStatus::RevocationStatusNotDetermined);
    pe.add_revocation_cache(Handle(&revoked));
    pe.add_revocation_cache(Handle(&valid));
    assert_eq!(pe.get_status(&cert(1), 10), PathValidationStatus::CertificateRevoked);
    assert_eq!((unknown.asked.get(), revoked.asked.get(), valid.asked.get()), (2, 1, 0));
    pe.clear_revocation_cache();
    assert_eq!(pe.get_status(&cert(1), 10), PathValidationStatus::RevocationStatusNotDetermined);
}

#[test]
fn add_status_reaches_every_cache() {
    let a = status_cache(PathValidationStatus::Valid);
    let b = status_cache(PathValidationStatus::Valid);
    let mut pe = PkiEnvironment::new();
    pe.add_revocation_cache(Handle(&a));
    pe.add_revocation_cache(Handle(&b));
    pe.add_status(&cert(1), 99, PathValidationStatus::CertificateOnHold);
    assert_eq!(*a.stored.borrow(), vec![(99, PathValidationStatus::CertificateOnHold)]);
    assert_eq!(*b.stored.borrow(), vec![(99, PathValidationStatus::CertificateOnHold)]);
}

// ---------------------------------------------------------------- path builders

#[test]
fn get_paths_for_target_stops_at_first_success() {
    let failing = Builder { answer: Err(Error::Misc), adds: 1 };
    let ok = Builder { answer: Ok(()), adds: 2 };
    let later = Builder { answer: Ok(()), adds: 5 };
    let mut pe = PkiEnvironment::new();
    pe.add_path_builder(Handle(&failing));
    pe.add_path_builder(Handle(&ok));
    pe.add_path_builder(Handle(&later));
    let mut paths = vec![];
    assert_eq!(pe.get_paths_for_target(Handle(&pe), &cert(1), &mut paths, 0, 0), Ok(()));
    assert_eq!(paths.len(), 3);
    pe.clear_path_builders();
    assert_eq!(pe.get_paths_for_target(Handle(&pe), &cert(1), &mut paths, 0, 0), Err(Error::Unrecognized));
}

// ---------------------------------------------------------------- OID lookups

#[test]
fn oid_lookup_first_success_then_dot_notation() {
    let mut pe = PkiEnvironment::new();
    pe.add_oid_lookup(OidLookupHandler::Custom(Box::new(NamedLookup(Err(Error::Misc)))));
    let oid = unknown_oid();
    assert_eq!(pe.oid_lookup(&oid), "1.2.3.4.5");
    pe.add_oid_lookup(OidLookupHandler::Custom(Box::new(NamedLookup(Ok("mine".to_string())))));
    pe.add_oid_lookup(OidLookupHandler::Custom(Box::new(NamedLookup(Ok("later".to_string())))));
    assert_eq!(pe.oid_lookup(&oid), "mine");
    pe.clear_oid_lookups();
    assert_eq!(pe.oid_lookup(&oid), "1.2.3.4.5");
}

// ---------------------------------------------------------------- remote resources

#[test]
fn last_modified_and_blocklist() {
    let a = remote(None, false);
    let b = remote(Some("Tue"), true);
    let c = remote(Some("Wed"), true);
    let mut pe = PkiEnvironment::new();
    pe.add_check_remote(Handle(&a));
    assert_eq!(pe.get_last_modified("u"), None);
    assert!(!pe.check_blocklist("u"));
    pe.add_check_remote(Handle(&b));
    pe.add_check_remote(Handle(&c));
    assert_eq!(pe.get_last_modified("u"), Some("Tue".to_string()));
    assert!(pe.check_blocklist("u"));
    // c was never asked
    assert_eq!(c.asked.get(), 0);
    pe.set_last_modified("u", "Thu");
    pe.add_to_blocklist("v");
    for r in [&a, &b, &c] {
        assert_eq!(*r.saved.borrow(), vec!["u=Thu".to_string()]);
        assert_eq!(*r.blocklisted.borrow(), vec!["v".to_string()]);
    }
    pe.clear_check_remote_callbacks();
    assert_eq!(pe.get_last_modified("u"), None);
    assert!(!pe.check_blocklist("u"));
}

// ---------------------------------------------------------------- clearing and populating

#[test]
fn clear_all_callbacks_empties_every_service() {
    let ta = TaStore { anchors: vec![PDVTrustAnchorChoice { encoded_ta: vec![10] }], skid: vec![1] };
    let crl = crl_store(Ok(vec![vec![1]]), true);
    let cache = status_cache(PathValidationStatus::Valid);
    let rem = remote(Some("x"), true);
    let builder = Builder { answer: Ok(()), adds: 0 };
    let mut pe = PkiEnvironment::default();
    pe.add_calculate_hash_callback(Handle(Box::leak(Box::new(FixedHash(Ok(vec![1]))))));
    pe.add_trust_anchor_source(Handle(&ta));
    pe.add_crl_source(Handle(&crl));
    pe.add_revocation_cache(Handle(&cache));
    pe.add_check_remote(Handle(&rem));
    pe.add_path_builder(Handle(&builder));
    pe.add_validate_path_callback(Handle(validator(Ok(())).0));
    pe.add_verify_signature_digest_callback(Handle(Box::leak(Box::new(Verifier(Ok(()))))));
    pe.add_verify_signature_message_callback(Handle(Box::leak(Box::new(Verifier(Ok(()))))));
    pe.clear_all_callbacks();
    assert_eq!(pe.calculate_hash(Handle(&pe), &sha256_alg(), b"a"), Err(Error::Unrecognized));
    assert_eq!(run_validate(&pe).0, Err(Error::Unrecognized));
    assert_eq!(pe.is_trust_anchor(&PDVTrustAnchorChoice { encoded_ta: vec![10] }), Err(Error::NotFound));
    assert_eq!(pe.get_crls(&cert(1)), Err(Error::NotFound));
    assert_eq!(pe.get_status(&cert(1), 0), PathValidationStatus::RevocationStatusNotDetermined);
    assert!(!pe.check_blocklist("u"));
    let mut paths = vec![];
    assert_eq!(pe.get_paths_for_target(Handle(&pe), &cert(1), &mut paths, 0, 0), Err(Error::Unrecognized));
    assert_eq!(
        pe.verify_signature_digest(Handle(&pe), b"h", b"s", &sha256_alg(), &rsa_spki()),
        Err(Error::Unrecognized)
    );
    assert_eq!(
        pe.verify_signature_message(Handle(&pe), b"m", b"s", &sha256_alg(), &rsa_spki()),
        Err(Error::Unrecognized)
    );
    // the database lookup is gone too
    assert_eq!(pe.oid_lookup(&cn()), "2.5.4.3");
}

#[test]
fn populate_adds_standard_handlers_and_database_lookup() {
    let mut pe = PkiEnvironment::new();
    populate_5280_pki_environment(
        &mut pe,
        Handle(validator(Ok(())).0),
        Handle(Box::leak(Box::new(FixedHash(Ok(vec![7]))))),
        Handle(Box::leak(Box::new(Verifier(Ok(()))))),
        Handle(Box::leak(Box::new(Verifier(Ok(()))))),
    );
    assert_eq!(run_validate(&pe).0, Ok(()));
    assert_eq!(pe.calculate_hash(Handle(&pe), &sha256_alg(), b"a"), Ok(vec![7]));
    assert_eq!(pe.verify_signature_digest(Handle(&pe), b"h", b"s", &sha256_alg(), &rsa_spki()), Ok(()));
    assert_eq!(pe.verify_signature_message(Handle(&pe), b"m", b"s", &sha256_alg(), &rsa_spki()), Ok(()));
    assert_eq!(pe.oid_lookup(&cn()), "cn");
}

#[test]
fn populate_keeps_existing_oid_lookups() {
    let mut pe = PkiEnvironment::new();
    pe.add_oid_lookup(OidLookupHandler::Custom(Box::new(NamedLookup(Err(Error::Misc)))));
    populate_5280_pki_environment(
        &mut pe,
        Handle(validator(Ok(())).0),
        Handle(Box::leak(Box::new(FixedHash(Ok(vec![7]))))),
        Handle(Box::leak(Box::new(Verifier(Ok(()))))),
        Handle(Box::leak(Box::new(Verifier(Ok(()))))),
    );
    // no database lookup was added: the failing custom lookup leaves dot notation
    assert_eq!(pe.oid_lookup(&cn()), "2.5.4.3");
}

#[test]
fn populate_on_default_environment_keeps_one_database_lookup() {
    let mut pe = PkiEnvironment::default();
    populate_5280_pki_environment(
        &mut pe,
        Handle(validator(Err(Error::Misc)).0),
        Handle(Box::leak(Box::new(FixedHash(Err(Error::Misc))))),
        Handle(Box::leak(Box::new(Verifier(Ok(()))))),
        Handle(Box::leak(Box::new(Verifier(Ok(()))))),
    );
    assert_eq!(pe.oid_lookup(&cn()), "cn");
    assert_eq!(run_validate(&pe).0, Err(Error::Misc));
    assert_eq!(pe.calculate_hash(Handle(&pe), &sha256_alg(), b"a"), Err(Error::Unrecognized));
}

// ---------------------------------------------------------------- OID dot notation

#[test]
fn dot_notation_matches_const_oid_rendering() {
    let oid = Oid::new(vec![1, 2, 840, 113549, 1, 1, 11]).unwrap();
    assert_eq!(to_dotted_string(&oid), "1.2.840.113549.1.1.11");
    assert_eq!(to_dotted_string(&oid), ObjectIdentifier::new_unwrap("1.2.840.113549.1.1.11").to_string());
    assert_eq!(to_dotted_string(&cn()), "2.5.4.3");
}

#[test]
fn dot_notation_edge_cases() {
    assert_eq!(to_dotted_string(&Oid::new(vec![0, 0, 0]).unwrap()), "0.0.0");
    assert_eq!(to_dotted_string(&Oid::new(vec![2, 39, 4294967295]).unwrap()), "2.39.4294967295");
    assert_eq!(
        to_dotted_string(&Oid::new(vec![1, 2, 4294967295, 4294967295, 4294967295]).unwrap()),
        "1.2.4294967295.4294967295.4294967295"
    );
}

#[test]
fn oid_new_refuses_what_const_oid_refuses() {
    let max = u32::MAX;
    let big = 0x0FFF_FFFFu32;
    let cases: Vec<Vec<u32>> = vec![
        vec![],
        vec![0],
        vec![1, 2],
        vec![3, 1, 1],
        vec![1, 40, 1],
        vec![0, 39, 1],
        vec![2, 39, 0],
        vec![max, max, max, max, max, max, max],
        vec![1, 2, max, max, max, max, max, max, max],
        vec![1, 2, max, max, max, max, max, max, max, 200],
        vec![1, 2, max, max, max, max, max, max, max, 20000],
        vec![1, 2, max, max, max, max, max, max, max, 1],
        vec![1, 2, max, max, max, max, max, max, max, 1, 1],
        vec![1, 2, big, big, big, big, big, big, big, big, big],
        vec![1, 2, big, big, big, big, big, big, big, big, big, 1],
        vec![1, 2, big, big, big, big, big, big, big, big, big, 200],
    ];
    for arcs in cases {
        let ours = Oid::new(arcs.clone());
        let theirs = ObjectIdentifier::from_arcs(arcs.iter().copied());
        assert_eq!(ours.is_some(), theirs.is_ok(), "arcs {:?}", arcs);
        if let Some(oid) = ours {
            assert_eq!(oid.arcs(), arcs.as_slice());
            if arcs.iter().all(|&a| a <= big) {
                assert_eq!(to_dotted_string(&oid), theirs.unwrap().to_string());
            }
        }
    }
}
