//! OID lookup handlers, among them the lookup that a default environment
//! starts with.

use vstd::prelude::*;

use crate::error::{Error, Result};
use crate::oid::Oid;
use crate::outside::{database_name, oid_database_name};
use crate::pki_environment_traits::OidLookup;

verus! {

/// An OID lookup registered with an environment.
pub enum OidLookupHandler {
    /// Looks OIDs up in the name database of `const-oid`.
    Database,
    /// A lookup supplied by the user.
    Custom(Box<dyn OidLookup>),
}

/// What the database lookup answers for the OID with these arcs: the
/// database's name for it, or `Unrecognized` when it has none.
pub open spec fn database_answer(arcs: Seq<u32>, answer: Result<String>) -> bool {
    match database_name(arcs) {
        Some(name) => answer matches Ok(text) && text@ == name,
        None => answer == Err::<String, Error>(Error::Unrecognized),
    }
}

impl OidLookup for OidLookupHandler {
    open spec fn naming(&self, oid: Oid, answer: Result<String>) -> bool {
        match self {
            OidLookupHandler::Database => database_answer(oid@, answer),
            OidLookupHandler::Custom(lookup) => lookup.naming(oid, answer),
        }
    }

    /// `Database`: the database's name for `oid`, or `Unrecognized` when it
    /// has none. `Custom`: whatever the user's lookup answers.
    fn oid_lookup(&self, oid: &Oid) -> (r: Result<String>) {
        match self {
            OidLookupHandler::Database => match oid_database_name(oid.arcs()) {
                Some(name) => Ok(name),
                None => Err(Error::Unrecognized),
            },
            OidLookupHandler::Custom(lookup) => lookup.oid_lookup(oid),
        }
    }
}

} // verus!
