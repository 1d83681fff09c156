# certval environment

A verified switchboard for certification path processing. A
`PkiEnvironment` holds, for each service (path validation, hashing,
signature verification, path building, trust anchors, certificates, CRLs,
revocation status caching, OID naming, remote resource bookkeeping), a list
of handlers that users implement. Each service asks its handlers in the
order in which they were added and stops at the first authoritative answer,
or asks them all where every handler must be told.

Layout of `src/`:

- `pki_environment.rs`: the environment, its view, registration, and the
  dispatching services, with contracts stated over the view.
- `dispatch.rs`: the verdict functions that turn the collected answers into
  a service's answer, their spec functions, and the laws they obey.
- `pki_environment_traits.rs`: the handler traits, each method described by
  a spec predicate that implementations define, and `PkiServices`, the face
  of the environment that handlers see.
- `handle.rs`: `Handle`, the shared reference in which handlers are
  registered and the services object is handed on to them.
- `oid.rs`: OIDs held as their arcs, always a valid OID, and their dot
  notation, verified.
- `oid_names.rs`: OID lookup handlers, including the database lookup.
- `pdv.rs`, `error.rs`: the values passed to handlers, errors and statuses.
- `outside.rs`: the types of `der`, `spki` and `x509-cert` that pass through,
  and the call into the OID name database of `const-oid`.
