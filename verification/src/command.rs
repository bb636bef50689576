use vstd::prelude::*;

use crate::uri::{
    is_last_segment, token_rule, extract_mock_payment_id, extract_token_from_uri, mock_payment_id_ok, token_outcome, url_parse,
    UriError,
};

verus! {

/// What the mock provider needs to act on a payment: its own id for the payment and the
/// token that authorises the action.
#[derive(Debug)]
pub struct MockActionTarget {
    pub mock_payment_id: String,
    pub token: String,
}

/// Which part of the redirect URI could not be read.
#[derive(Debug)]
pub enum TargetError {
    /// The mock payment id (the URI is not a URL).
    MockPaymentId(UriError),
    /// The token; the mock payment id was read.
    Token { mock_payment_id: String, error: UriError },
}

/// Reads the mock payment id and then the token out of the redirect URI that starting an
/// authorisation flow gave.
pub fn mock_action_target(uri: &str) -> (res: Result<MockActionTarget, TargetError>)
    ensures
        res is Ok <==> token_outcome(uri@) is Ok,
        res matches Err(TargetError::MockPaymentId(_)) <==> url_parse(uri@) is Err,
        res matches Ok(t) ==> mock_payment_id_ok(uri@, Ok(t.mock_payment_id)) && token_outcome(uri@)
            == Ok::<Seq<char>, UriError>(t.token@),
        res matches Err(TargetError::MockPaymentId(e)) ==> mock_payment_id_ok(uri@, Err(e)),
        res matches Ok(t) ==> token_rule(uri@, Ok(t.token)),
        res matches Ok(t) ==> (url_parse(uri@) matches Ok((path, _)) && is_last_segment(path, t.mock_payment_id@)),
        res matches Err(TargetError::Token { mock_payment_id, error }) ==> mock_payment_id_ok(
            uri@,
            Ok(mock_payment_id),
        ) && token_outcome(uri@) == Err::<Seq<char>, UriError>(error),
{
    let mock_payment_id = match extract_mock_payment_id(uri) {
        Ok(id) => id,
        Err(e) => return Err(TargetError::MockPaymentId(e)),
    };
    match extract_token_from_uri(uri) {
        Ok(token) => Ok(MockActionTarget { mock_payment_id, token }),
        Err(error) => Err(TargetError::Token { mock_payment_id, error }),
    }
}

} // verus!
