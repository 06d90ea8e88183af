use vstd::prelude::*;
use crate::error::StepError;

verus! {

/// serde_json's JSON value. Records arrive from the platform as such values
/// and leave verbatim in the output files; this library never looks inside
/// one, it only accumulates them and hands them to the serializer.
#[verifier::external_type_specification]
#[verifier::external_body]
pub struct ExValue(serde_json::Value);

/// serde_json's error type, as its serializer reports failure.
#[verifier::external_type_specification]
#[verifier::external_body]
pub struct ExJsonError(serde_json::Error);

/// Relies on serde_json::Value's derived Clone, which rebuilds an equal value.
pub assume_specification[ <serde_json::Value as Clone>::clone ](
    v: &serde_json::Value,
) -> (r: serde_json::Value)
    ensures
        r == *v,
;

/// The pretty-printed JSON array that serde_json renders these values as.
/// It depends on the values alone.
pub uninterp spec fn pretty_json_of(vals: Seq<serde_json::Value>) -> Seq<char>;

/// Relies on serde_json::to_string_pretty: renders the values as one
/// pretty-printed JSON array, a function of the values alone. On a vector
/// of JSON values the call cannot fail: the serializer writes into a byte
/// vector, every object key is already a string, and a non-finite number
/// cannot occur in a JSON value.
#[verifier::external_body]
fn to_pretty_json(vals: &Vec<serde_json::Value>) -> (r: Result<String, serde_json::Error>)
    ensures
        r is Ok,
        r matches Ok(s) ==> s@ == pretty_json_of(vals@),
{
    serde_json::to_string_pretty(vals)
}

/// Renders accumulated records as the pretty-printed JSON array an output
/// file holds. Serializing JSON values always succeeds, so a run never
/// fails at this step; the error arm only maps the serializer's error type
/// to this library's own.
pub fn serialize_records(vals: &Vec<serde_json::Value>) -> (r: Result<String, StepError>)
    ensures
        r is Ok,
        r matches Ok(s) ==> s@ == pretty_json_of(vals@),
{
    match to_pretty_json(vals) {
        Ok(s) => Ok(s),
        Err(_) => Err(StepError::SerializationFailure),
    }
}

} // verus!
