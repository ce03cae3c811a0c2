use vstd::prelude::*;

verus! {

/// The error type of `anyhow`, carried unchanged through the library.
#[verifier::external_type_specification]
#[verifier::external_body]
pub struct ExAnyhowError(anyhow::Error);

/// The error type of `serde_json`, carried unchanged through the library.
#[verifier::external_type_specification]
#[verifier::external_body]
pub struct ExJsonError(serde_json::Error);

/// A JSON value of `serde_json`, carried unchanged through the library.
#[verifier::external_type_specification]
#[verifier::external_body]
pub struct ExJsonValue(serde_json::Value);

/// The error `uuid` reports for a text that is no identifier.
#[verifier::external_type_specification]
#[verifier::external_body]
pub struct ExUuidError(uuid::Error);

} // verus!
