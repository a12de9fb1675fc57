//! JSON convenience encoding, performed by the serde_json collaborator.

use vstd::prelude::*;

verus! {

#[verifier::external_type_specification]
#[verifier::external_body]
pub struct ExJsonValue(serde_json::Value);

#[verifier::external_type_specification]
#[verifier::external_body]
pub struct ExJsonError(serde_json::Error);

/// The JSON text encoding of a value, as serde_json writes it: a function
/// of the value alone.
pub uninterp spec fn json_bytes_of(v: serde_json::Value) -> Seq<u8>;

/// Relies on serde_json::to_vec: encodes the value as JSON text bytes.
/// Encoding a `serde_json::Value` always succeeds: its serializer itself
/// never errors (object keys are strings, and a non-finite number cannot
/// enter a `Value`), so every error path is a writer failure, and the
/// vector writer never fails.
#[verifier::external_body]
pub(crate) fn encode_json(v: &serde_json::Value) -> (r: Result<Vec<u8>, serde_json::Error>)
    ensures
        r is Ok,
        r matches Ok(data) ==> data@ == json_bytes_of(*v),
{
    serde_json::to_vec(v)
}

} // verus!
