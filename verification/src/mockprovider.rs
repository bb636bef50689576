use vstd::prelude::*;
use vstd::string::*;

use crate::status::{is_success, is_success_status};
use crate::text::{decimal, decimal_string};

verus! {

#[verifier::external_type_specification]
#[verifier::external_body]
pub struct ExJsonError(serde_json::Error);

/// The JSON text that `serde_json::to_string` writes for the string `s`.
pub uninterp spec fn json_string(s: Seq<char>) -> Seq<char>;

/// A character that serde_json writes into a JSON string as it is: neither a quote, nor a
/// backslash, nor an ASCII control character.
pub open spec fn is_plain_json_char(c: char) -> bool {
    c != '"' && c != '\\' && c as int >= 0x20
}

/// Serialises `s` as a JSON string with `serde_json::to_string`. Trusted: the result is the
/// text that `json_string` names, and it is `Ok` (serde_json serialises a `str` with
/// `serialize_str` into a `Vec<u8>`, a writer that cannot fail); a string of plain characters
/// comes out between double quotes, unchanged (its escape table escapes only quotes,
/// backslashes and bytes below 0x20). How other strings are escaped is left to serde_json.
#[verifier::external_body]
fn json_quote(s: &str) -> (res: Result<String, serde_json::Error>)
    ensures
        res is Ok,
        res matches Ok(j) ==> j@ == json_string(s@),
        res matches Ok(j) ==> ((forall|i: int| 0 <= i < s@.len() ==> is_plain_json_char(#[trigger] s@[i]))
            ==> j@ == seq!['"'] + s@ + seq!['"']),
{
    serde_json::to_string(s)
}

/// What the commands ask the mock provider to do with a payment.
#[derive(Debug, PartialEq, Eq, Structural, Clone, Copy)]
pub enum MockAction {
    /// Authorise and execute the payment.
    Execute,
    /// Reject the authorisation, which fails the payment.
    RejectAuthorisation,
}

impl MockAction {
    pub open spec fn spec_name(self) -> Seq<char> {
        match self {
            MockAction::Execute => "Execute"@,
            MockAction::RejectAuthorisation => "RejectAuthorisation"@,
        }
    }

    /// The action's name as the mock provider knows it.
    pub fn name(&self) -> (s: &'static str)
        ensures
            s@ == self.spec_name(),
    {
        match self {
            MockAction::Execute => "Execute",
            MockAction::RejectAuthorisation => "RejectAuthorisation",
        }
    }
}

/// The host of the mock provider.
pub open spec fn mock_host() -> Seq<char> {
    "pay-mock-connect.truelayer-sandbox.com"@
}

/// Where an action on the mock payment `payment_id` is posted.
pub open spec fn mock_action_endpoint(payment_id: Seq<char>) -> Seq<char> {
    "https://pay-mock-connect.truelayer-sandbox.com/api/single-immediate-payments/"@ + payment_id
        + "/action"@
}

/// The JSON body that asks for `action`, without a redirect.
pub open spec fn mock_action_body(action: MockAction) -> Seq<char> {
    "{\"action\":"@ + json_string(action.spec_name()) + ",\"redirect\":false}"@
}

/// Different mock payments are posted to different endpoints.
pub proof fn lemma_mock_endpoint_injective(a: Seq<char>, b: Seq<char>)
    requires
        mock_action_endpoint(a) == mock_action_endpoint(b),
    ensures
        a == b,
{
    let p = "https://pay-mock-connect.truelayer-sandbox.com/api/single-immediate-payments/"@;
    let s = "/action"@;
    let ea = p + a + s;
    let eb = p + b + s;
    assert(ea == mock_action_endpoint(a));
    assert(eb == mock_action_endpoint(b));
    assert(ea.len() == p.len() + a.len() + s.len());
    assert(eb.len() == p.len() + b.len() + s.len());
    assert(a.len() == b.len());
    assert forall|i: int| 0 <= i < a.len() implies a[i] == b[i] by {
        assert(ea[p.len() + i] == a[i]);
        assert(eb[p.len() + i] == b[i]);
    }
    assert(a =~= b);
}

/// An HTTP request to the mock provider, as plain values.
#[derive(Debug)]
pub struct MockActionRequest {
    pub url: String,
    pub bearer_token: String,
    pub headers: Vec<(String, String)>,
    pub body: String,
}

/// The headers that every request to the mock provider carries.
pub open spec fn mock_headers_ok(h: Seq<(String, String)>) -> bool {
    &&& h.len() == 3
    &&& h[0].0@ == "content-type"@ && h[0].1@ == "application/json"@
    &&& h[1].0@ == "authority"@ && h[1].1@ == mock_host()
    &&& h[2].0@ == "scheme"@ && h[2].1@ == "https"@
}

fn header(name: &str, value: &str) -> (h: (String, String))
    ensures
        h.0@ == name@,
        h.1@ == value@,
{
    (String::from_str(name), String::from_str(value))
}

/// `r` asks the mock provider to apply `action` to the payment `payment_id`, authorised by
/// `token`.
pub open spec fn is_mock_action_request(
    r: MockActionRequest,
    payment_id: Seq<char>,
    token: Seq<char>,
    action: MockAction,
) -> bool {
    &&& r.url@ == mock_action_endpoint(payment_id)
    &&& r.bearer_token@ == token
    &&& mock_headers_ok(r.headers@)
    &&& r.body@ == mock_action_body(action)
}

/// Executing a payment and failing it send the same request but for the action in the body:
/// same endpoint, token and headers.
pub proof fn lemma_actions_differ_only_in_body(
    execute: MockActionRequest,
    reject: MockActionRequest,
    payment_id: Seq<char>,
    token: Seq<char>,
)
    requires
        is_mock_action_request(execute, payment_id, token, MockAction::Execute),
        is_mock_action_request(reject, payment_id, token, MockAction::RejectAuthorisation),
    ensures
        execute.url@ == reject.url@,
        execute.bearer_token@ == reject.bearer_token@,
        execute.headers@.len() == reject.headers@.len(),
        forall|i: int| 0 <= i < execute.headers@.len() ==> execute.headers@[i].0@ == reject.headers@[i].0@
            && execute.headers@[i].1@ == reject.headers@[i].1@,
{
}

/// The request that asks the mock provider to apply `action` to the payment `payment_id`,
/// authorised by `token`.
pub fn mock_action_request(payment_id: &str, token: &str, action: MockAction) -> (r: MockActionRequest)
    ensures
        is_mock_action_request(r, payment_id@, token@, action),
        r.body@ == "{\"action\":\""@ + action.spec_name() + "\",\"redirect\":false}"@,
{
    let mut url = String::from_str(
        "https://pay-mock-connect.truelayer-sandbox.com/api/single-immediate-payments/",
    );
    url.append(payment_id);
    url.append("/action");
    let name = action.name();
    proof {
        reveal_strlit("Execute");
        reveal_strlit("RejectAuthorisation");
        assert(forall|i: int| 0 <= i < name@.len() ==> is_plain_json_char(#[trigger] name@[i]));
    }
    let quoted = match json_quote(name) {
        Ok(j) => j,
        Err(_) => String::new(),
    };
    let mut body = String::from_str("{\"action\":");
    body.append(quoted.as_str());
    body.append(",\"redirect\":false}");
    proof {
        reveal_strlit("{\"action\":");
        reveal_strlit(",\"redirect\":false}");
        reveal_strlit("{\"action\":\"");
        reveal_strlit("\",\"redirect\":false}");
        assert(body@ =~= "{\"action\":\""@ + action.spec_name() + "\",\"redirect\":false}"@);
    }
    let mut headers: Vec<(String, String)> = Vec::new();
    headers.push(header("content-type", "application/json"));
    headers.push(header("authority", "pay-mock-connect.truelayer-sandbox.com"));
    headers.push(header("scheme", "https"));
    MockActionRequest { url, bearer_token: String::from_str(token), headers, body }
}

/// Why the mock provider did not take an action.
#[derive(Debug, PartialEq, Eq, Structural)]
pub enum MockProviderError {
    /// It answered with a status outside 2xx.
    StatusNotSuccess { status: u16 },
}

impl MockProviderError {
    /// The text the command line shows for this error.
    pub fn message(&self) -> (m: String)
        ensures
            self matches MockProviderError::StatusNotSuccess { status } ==> m@
                == "Execute payment: status was "@ + decimal(status as nat),
    {
        match self {
            MockProviderError::StatusNotSuccess { status } => {
                let mut m = String::from_str("Execute payment: status was ");
                let code = decimal_string(*status as u64);
                m.append(code.as_str());
                m
            },
        }
    }
}

/// Accepts the mock provider's answer when its status is 2xx.
pub fn check_mock_action_status(status: u16) -> (res: Result<(), MockProviderError>)
    ensures
        res is Ok <==> is_success(status),
        res is Err ==> res == Err::<(), MockProviderError>(MockProviderError::StatusNotSuccess { status }),
{
    if is_success_status(status) {
        Ok(())
    } else {
        Err(MockProviderError::StatusNotSuccess { status })
    }
}

} // verus!
