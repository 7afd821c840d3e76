use vstd::prelude::*;

verus! {

/// A JSON value of serde_json, carried through as an opaque payload.
#[verifier::external_type_specification]
#[verifier::external_body]
pub struct ExJsonValue(serde_json::Value);

/// An error of serde_json, carried in the library's own errors.
#[verifier::external_type_specification]
#[verifier::external_body]
pub struct ExJsonError(serde_json::Error);

/// A semantic version of the semver crate, carried through as an opaque value.
#[verifier::external_type_specification]
#[verifier::external_body]
pub struct ExSemVersion(semver::Version);

/// A web-socket transport error of tungstenite, carried in the library's own errors.
#[verifier::external_type_specification]
#[verifier::external_body]
pub struct ExWsError(tokio_tungstenite::tungstenite::Error);

} // verus!
