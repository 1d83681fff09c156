//! Types of the ASN.1 and X.509 crates that pass through the environment
//! to its handlers, and the calls made into those crates.

use vstd::prelude::*;

verus! {

#[verifier::external_type_specification]
#[verifier::external_body]
pub struct ExAny(der::asn1::Any);

#[verifier::external_type_specification]
#[verifier::external_body]
pub struct ExBitString(der::asn1::BitString);

#[verifier::external_type_specification]
#[verifier::external_body]
#[verifier::reject_recursive_types(Params)]
pub struct ExAlgorithmIdentifier<Params>(spki::AlgorithmIdentifier<Params>);

#[verifier::external_type_specification]
#[verifier::external_body]
#[verifier::reject_recursive_types(Params)]
#[verifier::reject_recursive_types(Key)]
pub struct ExSubjectPublicKeyInfo<Params, Key>(spki::SubjectPublicKeyInfo<Params, Key>);

#[verifier::external_type_specification]
#[verifier::external_body]
pub struct ExCertificateList(x509_cert::crl::CertificateList);

/// The name that the OID database of `const-oid` gives the OID with these
/// arcs: what `Database::by_oid` on `const_oid::db::DB` finds, or `None`
/// when the database has no name for it or the arcs form no OID that
/// `ObjectIdentifier::from_arcs` accepts.
pub uninterp spec fn database_name(arcs: Seq<u32>) -> Option<Seq<char>>;

/// Builds the OID from its arcs (`ObjectIdentifier::from_arcs`) and looks it
/// up in the name database of `const-oid` (`Database::by_oid` on
/// `const_oid::db::DB`); the name found is copied into a `String`.
#[verifier::external_body]
pub(crate) fn oid_database_name(arcs: &[u32]) -> (name: Option<String>)
    ensures
        name is Some <==> database_name(arcs@) is Some,
        name matches Some(text) ==> database_name(arcs@) == Some(text@),
{
    match der::oid::ObjectIdentifier::from_arcs(arcs.iter().copied()) {
        Ok(oid) => der::oid::db::DB.by_oid(&oid).map(|text| text.to_string()),
        Err(_) => None,
    }
}

} // verus!
