use std::collections::HashMap;

use truelayer_cli::config::{new, new_auth_client, Environment};
use truelayer_cli::transport::{publication_payload, TransportError};
use truelayer_cli::webhook::{
    DeliveryOutcome, PollAction, PollOutcome, PullResponse, RouterError, Webhook, WebhookMessage,
    WebhookRouterClient, POLL_INTERVAL_SECS, PULL_MAX_RETRIES,
};

fn webhook(body: &str) -> Webhook {
    let mut headers = HashMap::new();
    headers.insert("tl-signature".to_string(), "sig".to_string());
    Webhook { headers, body: body.to_string() }
}

fn message() -> WebhookMessage {
    WebhookMessage {
        typ: "payment_executed".to_string(),
        event_id: "ev-1".to_string(),
        payment_id: "pay-1".to_string(),
    }
}

#[test]
fn router_client_keeps_token_and_addr() {
    let c = WebhookRouterClient::init("tok".to_string(), "http://localhost:8080".to_string());
    assert_eq!(c.token(), "tok");
    assert_eq!(c.addr(), "http://localhost:8080");
    let r = c.runner();
    let pull = r.pull_request();
    assert_eq!(pull.url, "https://webhook-router.truelayer-sandbox.com/pull");
    assert_eq!(pull.bearer_token, "tok");
}

#[test]
fn start_never_succeeds() {
    let e = WebhookRouterClient::start_outcome(Ok(())).unwrap_err();
    assert!(matches!(e, RouterError::PrematureExit));
    assert_eq!(e.message(), "Fetching Prematurely exited");
    let e = WebhookRouterClient::start_outcome(Err(RouterError::UnreadablePull { error: "bad json".to_string() }))
        .unwrap_err();
    assert_eq!(e.message(), "bad json");
}

#[test]
fn forwarding_keeps_body_and_headers() {
    let r = WebhookRouterClient::init("tok".to_string(), "http://localhost:8080".to_string()).runner();
    let wh = webhook("{\"type\":\"payment_executed\"}");
    let f = r.forward_request(&wh);
    assert_eq!(f.url, "http://localhost:8080");
    assert_eq!(f.bearer_token, "tok");
    assert_eq!(f.body, wh.body);
    assert_eq!(f.headers, wh.headers);
}

#[test]
fn poll_actions() {
    let r = WebhookRouterClient::init("tok".to_string(), "http://localhost:8080".to_string()).runner();
    match r.poll_action(PollOutcome::Pulled(PullResponse { webhooks: vec![webhook("a"), webhook("b")] })) {
        PollAction::Forward(whs) => {
            assert_eq!(whs.len(), 2);
            assert_eq!(whs[1].body, "b");
        },
        _ => panic!("expected forwarding"),
    }
    match r.poll_action(PollOutcome::UnexpectedStatus { status: "401 Unauthorized".to_string() }) {
        PollAction::Report(line) => assert_eq!(line, "Unexpected status code: 401 Unauthorized"),
        _ => panic!("expected a report"),
    }
    match r.poll_action(PollOutcome::RequestFailed { error: "timeout".to_string() }) {
        PollAction::Report(line) => assert_eq!(
            line,
            "HTTP request to the server  http://localhost:8080  has failed. If it continues, restart the CLI program, error:  timeout"
        ),
        _ => panic!("expected a report"),
    }
    match r.poll_action(PollOutcome::UnreadableBody { error: "expected value".to_string() }) {
        PollAction::Stop(e) => assert_eq!(e.message(), "expected value"),
        _ => panic!("expected a stop"),
    }
}

#[test]
fn delivery_lines() {
    let r = WebhookRouterClient::init("tok".to_string(), "http://localhost:8080".to_string()).runner();
    let m = message();
    assert_eq!(
        r.delivery_report(&m, &DeliveryOutcome::Delivered),
        "Type:  payment_executed, Event id: ev-1, Payment id: pay-1, => http://localhost:8080, SUCCESS"
    );
    assert_eq!(
        r.delivery_report(&m, &DeliveryOutcome::Rejected { status: "500 Internal Server Error".to_string() }),
        "Type:  payment_executed, Event id: ev-1, Payment id: pay-1, => http://localhost:8080, FAILURE, status: 500 Internal Server Error"
    );
    assert_eq!(
        r.delivery_report(&m, &DeliveryOutcome::Failed { error: "connection refused".to_string() }),
        "Type:  payment_executed, Event id: ev-1, Payment id: pay-1, => http://localhost:8080, FAILURE, error: connection refused"
    );
}

#[test]
fn polling_constants() {
    assert_eq!(POLL_INTERVAL_SECS, 5);
    assert_eq!(PULL_MAX_RETRIES, 3);
}

#[test]
fn client_configs() {
    let signing = new("id".to_string(), "secret".to_string(), "kid".to_string(), b"pem".to_vec());
    let auth = new_auth_client("id".to_string(), "secret".to_string());
    assert_eq!(signing.client_id, "id");
    assert_eq!(signing.client_secret, "secret");
    assert_eq!(signing.scope, "payments");
    assert!(signing.environment == Environment::Sandbox);
    let key = signing.signing_key.as_ref().unwrap();
    assert_eq!(key.kid, "kid");
    assert_eq!(key.private_key, b"pem".to_vec());
    assert_eq!(auth.client_id, signing.client_id);
    assert_eq!(auth.client_secret, signing.client_secret);
    assert_eq!(auth.scope, signing.scope);
    assert!(auth.environment == signing.environment);
    assert!(auth.signing_key.is_none());
}

#[test]
fn publication_payloads() {
    let v = publication_payload("{\"a\":[1,2]}").ok().unwrap();
    assert_eq!(v["a"][1], 2);
    assert_eq!(v, json::parse("{\"a\":[1,2]}").unwrap());
    match publication_payload("{not json") {
        Err(e @ TransportError::InvalidMessage(_)) => assert!(!e.message().is_empty()),
        _ => panic!("expected an invalid message"),
    }
    assert_eq!(TransportError::PublishFailed.message(), "some publish error");
}
