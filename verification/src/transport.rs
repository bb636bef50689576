use vstd::prelude::*;
use vstd::string::*;

verus! {

#[verifier::external_type_specification]
#[verifier::external_body]
pub struct ExJsonValue(json::JsonValue);

#[verifier::external_type_specification]
#[verifier::external_body]
pub struct ExJsonParseError(json::Error);

/// Whether `json::parse` accepts `source` as a JSON document.
pub uninterp spec fn json_parses(source: Seq<char>) -> bool;

/// The value that `json::parse` gives for `source`, where it accepts it.
pub uninterp spec fn json_value(source: Seq<char>) -> json::JsonValue;

/// Parses `source` with `json::parse`. Trusted: `Ok` exactly where `json_parses` holds, and
/// then the value that `json_value` names; what the value holds is left to the `json` crate.
#[verifier::external_body]
fn parse_json(source: &str) -> (res: Result<json::JsonValue, json::Error>)
    ensures
        res is Ok <==> json_parses(source@),
        res matches Ok(v) ==> v == json_value(source@),
{
    json::parse(source)
}

/// Why a message was not published.
#[derive(Debug)]
pub enum TransportError {
    /// The message is not a JSON document.
    InvalidMessage(json::Error),
    /// The publish service refused it.
    PublishFailed,
}

impl TransportError {
    /// The text the command line shows for this error.
    pub fn message(&self) -> (m: String)
        ensures
            self matches TransportError::InvalidMessage(e) ==> to_string_from_display_ensures::<json::Error>(e, m),
            self is PublishFailed ==> m@ == "some publish error"@,
    {
        match self {
            TransportError::InvalidMessage(e) => e.to_string(),
            TransportError::PublishFailed => String::from_str("some publish error"),
        }
    }
}

/// The JSON value that publishing the message `val` sends; a message must be a JSON document.
pub fn publication_payload(val: &str) -> (res: Result<json::JsonValue, TransportError>)
    ensures
        res is Ok <==> json_parses(val@),
        res matches Ok(v) ==> v == json_value(val@),
        res is Err ==> res matches Err(TransportError::InvalidMessage(_)),
{
    match parse_json(val) {
        Ok(v) => Ok(v),
        Err(e) => Err(TransportError::InvalidMessage(e)),
    }
}

} // verus!
