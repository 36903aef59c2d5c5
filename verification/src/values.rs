//! Outside values that the provider carries through unchanged: JSON payloads
//! handed over by the session backend and the caller, and filesystem paths.
use vstd::prelude::*;

verus! {

/// A JSON document (`serde_json::Value`). The provider never looks inside one;
/// it only moves it from a request or an event to where it belongs.
#[verifier::external_type_specification]
#[verifier::external_body]
pub struct ExJsonValue(serde_json::Value);

/// A filesystem path (`std::path::PathBuf`), carried from a run request to the
/// session request it becomes.
#[verifier::external_type_specification]
#[verifier::external_body]
pub struct ExPathBuf(std::path::PathBuf);

/// Copies a JSON document with `serde_json::Value`'s `Clone`, which serde_json
/// derives, so the copy is the same document as the original: that is the
/// whole claim.
#[verifier::external_body]
pub(crate) fn copy_json(value: &serde_json::Value) -> (copy: serde_json::Value)
    ensures
        copy == *value,
{
    value.clone()
}

} // verus!
