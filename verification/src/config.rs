use vstd::prelude::*;
use vstd::string::*;

verus! {

/// The TrueLayer environment that a client talks to; the commands use only the sandbox.
#[derive(Debug, PartialEq, Eq, Structural, Clone, Copy)]
pub enum Environment {
    Sandbox,
}

/// The key that signs payment requests, with the id the console gave it.
#[derive(Debug)]
pub struct SigningKey {
    pub kid: String,
    pub private_key: Vec<u8>,
}

/// What a TrueLayer API client is built from: client credentials for a scope, an
/// environment, and, for clients that create payments, a signing key.
#[derive(Debug)]
pub struct ClientConfig {
    pub client_id: String,
    pub client_secret: String,
    pub scope: String,
    pub signing_key: Option<SigningKey>,
    pub environment: Environment,
}

/// `c` holds the credentials `client_id` / `client_secret` for the `payments` scope in the
/// sandbox, and the signing key `key` (its id and bytes) when there is one.
pub open spec fn is_sandbox_config(
    c: ClientConfig,
    client_id: Seq<char>,
    client_secret: Seq<char>,
    key: Option<(Seq<char>, Seq<u8>)>,
) -> bool {
    &&& c.client_id@ == client_id
    &&& c.client_secret@ == client_secret
    &&& c.scope@ == "payments"@
    &&& c.environment == Environment::Sandbox
    &&& match key {
        Some((kid, bytes)) => c.signing_key matches Some(k) && k.kid@ == kid && k.private_key@ == bytes,
        None => c.signing_key is None,
    }
}

/// The configuration of a client that signs requests with `private_key`, known to the
/// console as `kid`.
pub fn new(client_id: String, client_secret: String, kid: String, private_key: Vec<u8>) -> (c: ClientConfig)
    ensures
        is_sandbox_config(c, client_id@, client_secret@, Some((kid@, private_key@))),
{
    ClientConfig {
        client_id,
        client_secret,
        scope: String::from_str("payments"),
        signing_key: Some(SigningKey { kid, private_key }),
        environment: Environment::Sandbox,
    }
}

/// The configuration of a client that only authenticates (it cannot sign payment requests).
pub fn new_auth_client(client_id: String, client_secret: String) -> (c: ClientConfig)
    ensures
        is_sandbox_config(c, client_id@, client_secret@, None),
{
    ClientConfig {
        client_id,
        client_secret,
        scope: String::from_str("payments"),
        signing_key: None,
        environment: Environment::Sandbox,
    }
}

/// A signing client and an authenticating client made from the same credentials differ
/// only in the signing key: same client id, secret, scope and environment.
pub proof fn lemma_configs_differ_only_in_key(
    signing: ClientConfig,
    auth: ClientConfig,
    client_id: Seq<char>,
    client_secret: Seq<char>,
    key: (Seq<char>, Seq<u8>),
)
    requires
        is_sandbox_config(signing, client_id, client_secret, Some(key)),
        is_sandbox_config(auth, client_id, client_secret, None),
    ensures
        signing.client_id@ == auth.client_id@,
        signing.client_secret@ == auth.client_secret@,
        signing.scope@ == auth.scope@,
        signing.environment == auth.environment,
        signing.signing_key is Some,
        auth.signing_key is None,
{
}

} // verus!
