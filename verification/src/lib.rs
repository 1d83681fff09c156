//! A switchboard of certification path processing services: hashing,
//! signature verification, path validation and building, and access to
//! trust anchors, certificates, CRLs, cached revocation status and remote
//! resource bookkeeping. Each service is a list of handlers consulted in
//! the order in which they were registered.

pub mod dispatch;
pub mod error;
pub mod handle;
pub mod oid;
pub mod outside;
pub mod pdv;
pub mod pki_environment;
pub mod pki_environment_traits;
pub mod oid_names;

pub use error::{Error, PathValidationStatus, Result};
pub use handle::Handle;
pub use oid::Oid;
pub use oid_names::OidLookupHandler;
pub use pdv::{
    CertificationPath, CertificationPathResults, CertificationPathSettings, PDVCertificate,
    PDVTrustAnchorChoice,
};
pub use pki_environment::{populate_5280_pki_environment, PkiEnvironment};
pub use pki_environment_traits::{
    CalculateHash, CertificateSource, CertificationPathBuilder, CheckRemoteResource, CrlSource,
    OidLookup, PkiServices, RevocationStatusCache, TrustAnchorSource, ValidatePath,
    VerifySignatureDigest, VerifySignatureMessage,
};
