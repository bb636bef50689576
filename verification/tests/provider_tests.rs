use truelayer_cli::mockprovider::{check_mock_action_status, mock_action_request, MockAction, MockProviderError};
use truelayer_cli::payment::{
    create_external_account_payment_request, get_gbp_merchant_account_id, provider_selection_provider_id,
    start_authorization_flow_outcome, start_authorization_flow_request, submit_provider_selection_outcome,
    AuthorizationFlow, AuthorizationFlowResponse, Currency, FlowActions, FlowError, FlowStatus,
    MerchantAccount, MerchantAccountError, NextAction,
};
use truelayer_cli::status::is_success_status;

fn account(id: &str, currency: Currency) -> MerchantAccount {
    MerchantAccount { id: id.to_string(), currency }
}

#[test]
fn execute_request() {
    let r = mock_action_request("pay-1", "tok", MockAction::Execute);
    assert_eq!(r.url, "https://pay-mock-connect.truelayer-sandbox.com/api/single-immediate-payments/pay-1/action");
    assert_eq!(r.bearer_token, "tok");
    assert_eq!(r.body, r#"{"action":"Execute","redirect":false}"#);
    assert_eq!(
        r.headers,
        vec![
            ("content-type".to_string(), "application/json".to_string()),
            ("authority".to_string(), "pay-mock-connect.truelayer-sandbox.com".to_string()),
            ("scheme".to_string(), "https".to_string()),
        ]
    );
}

#[test]
fn reject_request_differs_only_in_body() {
    let e = mock_action_request("pay-1", "tok", MockAction::Execute);
    let r = mock_action_request("pay-1", "tok", MockAction::RejectAuthorisation);
    assert_eq!(r.body, r#"{"action":"RejectAuthorisation","redirect":false}"#);
    assert_eq!(e.url, r.url);
    assert_eq!(e.bearer_token, r.bearer_token);
    assert_eq!(e.headers, r.headers);
    assert_ne!(e.body, r.body);
}

#[test]
fn endpoints_differ_by_payment() {
    let a = mock_action_request("a", "t", MockAction::Execute);
    let b = mock_action_request("b", "t", MockAction::Execute);
    assert_ne!(a.url, b.url);
}

#[test]
fn action_names() {
    assert_eq!(MockAction::Execute.name(), "Execute");
    assert_eq!(MockAction::RejectAuthorisation.name(), "RejectAuthorisation");
}

#[test]
fn mock_status_check() {
    assert!(check_mock_action_status(200).is_ok());
    assert!(check_mock_action_status(204).is_ok());
    assert!(check_mock_action_status(299).is_ok());
    let e = check_mock_action_status(404).unwrap_err();
    assert!(e == MockProviderError::StatusNotSuccess { status: 404 });
    assert_eq!(e.message(), "Execute payment: status was 404");
    assert!(check_mock_action_status(199).is_err());
    assert!(check_mock_action_status(300).is_err());
    assert_eq!(check_mock_action_status(500).unwrap_err().message(), "Execute payment: status was 500");
}

#[test]
fn success_statuses() {
    assert!(!is_success_status(0));
    assert!(!is_success_status(199));
    assert!(is_success_status(200));
    assert!(is_success_status(299));
    assert!(!is_success_status(300));
    assert!(!is_success_status(u16::MAX));
}

#[test]
fn last_gbp_account_wins() {
    let accounts = vec![
        account("e1", Currency::Eur),
        account("g1", Currency::Gbp),
        account("e2", Currency::Eur),
        account("g2", Currency::Gbp),
        account("e3", Currency::Eur),
    ];
    assert_eq!(get_gbp_merchant_account_id(&accounts).ok().unwrap(), "g2");
}

#[test]
fn no_gbp_account() {
    let e = get_gbp_merchant_account_id(&vec![]).unwrap_err();
    assert!(e == MerchantAccountError::NoGbpMerchantAccount);
    assert_eq!(e.message(), "No GBP merchant account found");
    assert!(get_gbp_merchant_account_id(&vec![account("e", Currency::Eur)]).is_err());
}

#[test]
fn sandbox_payment_request() {
    let r = create_external_account_payment_request();
    assert_eq!(r.amount_in_minor, 15);
    assert!(r.currency == Currency::Gbp);
    assert_eq!(r.provider.provider_id, "mock-payments-gb-redirect");
    assert_eq!(r.provider.scheme_id, "faster_payments_service");
    assert_eq!(r.beneficiary.account_holder_name, "John doe");
    assert_eq!(r.beneficiary.account_identifier.sort_code, "000000");
    assert_eq!(r.beneficiary.account_identifier.account_number, "12345678");
    assert_eq!(r.beneficiary.reference, "(LegacyReturn)");
    assert_eq!(r.user.name.as_deref(), Some("john doe"));
    assert_eq!(r.user.email.as_deref(), Some("a@a.com"));
    assert!(r.user.phone.is_none());
}

#[test]
fn flow_request_and_provider() {
    let r = start_authorization_flow_request();
    assert!(r.provider_selection_supported);
    assert_eq!(r.return_uri, "http://localhost:3000/callback");
    assert!(r.direct_return_uri.is_none());
    assert!(!r.form_supported);
    assert_eq!(provider_selection_provider_id(), "mock-payments-gb-redirect");
}

fn authorizing(flow: Option<AuthorizationFlow>) -> AuthorizationFlowResponse {
    AuthorizationFlowResponse { status: FlowStatus::Authorizing, authorization_flow: flow }
}

#[test]
fn redirect_uri_from_flow() {
    let r = authorizing(Some(AuthorizationFlow {
        actions: Some(FlowActions { next: NextAction::Redirect { uri: "https://mock/x".to_string() } }),
    }));
    assert_eq!(start_authorization_flow_outcome(r).ok().unwrap(), "https://mock/x");
}

#[test]
fn flow_errors() {
    let e = start_authorization_flow_outcome(authorizing(None)).unwrap_err();
    assert_eq!(e.message(), "Authorization flow object not found");
    let e = start_authorization_flow_outcome(authorizing(Some(AuthorizationFlow { actions: None }))).unwrap_err();
    assert_eq!(e.message(), "Actions in authorization flow not found");
    let e = start_authorization_flow_outcome(authorizing(Some(AuthorizationFlow {
        actions: Some(FlowActions { next: NextAction::Other }),
    })))
    .unwrap_err();
    assert_eq!(e.message(), "Next action is not redirect, there is a problem with the flow");
    let failed = AuthorizationFlowResponse {
        status: FlowStatus::Failed { failure_stage: "authorizing".to_string(), failure_reason: "expired".to_string() },
        authorization_flow: None,
    };
    let e = start_authorization_flow_outcome(failed).unwrap_err();
    assert!(matches!(&e, FlowError::Failed { failure_stage, .. } if failure_stage == "authorizing"));
    assert_eq!(e.message(), "Authorization flow was not started successfully. Reason: expired");
}

#[test]
fn provider_selection_outcomes() {
    assert!(submit_provider_selection_outcome(FlowStatus::Authorizing).is_ok());
    let e = submit_provider_selection_outcome(FlowStatus::Failed {
        failure_stage: "s".to_string(),
        failure_reason: "blocked".to_string(),
    })
    .unwrap_err();
    assert_eq!(e.message(), "Authorization flow was not started successfully. Reason: blocked");
}
