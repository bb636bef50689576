use vstd::prelude::*;
use vstd::string::*;

verus! {

/// The currencies of payments and merchant accounts.
#[derive(Debug, PartialEq, Eq, Structural, Clone, Copy)]
pub enum Currency {
    Gbp,
    Eur,
}

/// A merchant account, as the payments API lists it.
#[derive(Debug)]
pub struct MerchantAccount {
    pub id: String,
    pub currency: Currency,
}

/// Why no merchant account could be picked.
#[derive(Debug, PartialEq, Eq, Structural)]
pub enum MerchantAccountError {
    NoGbpMerchantAccount,
}

impl MerchantAccountError {
    /// The text the command line shows for this error.
    pub fn message(&self) -> (m: String)
        ensures
            m@ == "No GBP merchant account found"@,
    {
        String::from_str("No GBP merchant account found")
    }
}

/// `i` is the last account of `accounts` that holds pounds sterling.
pub open spec fn is_last_gbp(accounts: Seq<MerchantAccount>, i: int) -> bool {
    &&& 0 <= i < accounts.len()
    &&& accounts[i].currency == Currency::Gbp
    &&& forall|j: int| i < j < accounts.len() ==> accounts[j].currency != Currency::Gbp
}

/// The id of the last sterling merchant account of the list.
pub fn get_gbp_merchant_account_id(accounts: &Vec<MerchantAccount>) -> (res: Result<String, MerchantAccountError>)
    ensures
        res is Err <==> forall|i: int| 0 <= i < accounts@.len() ==> accounts@[i].currency != Currency::Gbp,
        res is Err ==> res == Err::<String, MerchantAccountError>(MerchantAccountError::NoGbpMerchantAccount),
        res matches Ok(id) ==> exists|i: int| is_last_gbp(accounts@, i) && id@ == accounts@[i].id@,
{
    let mut found: Option<usize> = None;
    let mut i: usize = 0;
    while i < accounts.len()
        invariant
            i <= accounts@.len(),
            found matches Some(k) ==> {
                &&& k < i
                &&& accounts@[k as int].currency == Currency::Gbp
                &&& forall|j: int| k < j < i ==> accounts@[j].currency != Currency::Gbp
            },
            found is None ==> forall|j: int| 0 <= j < i ==> accounts@[j].currency != Currency::Gbp,
        decreases accounts@.len() - i,
    {
        if accounts[i].currency == Currency::Gbp {
            found = Some(i);
        }
        i = i + 1;
    }
    match found {
        Some(k) => {
            assert(is_last_gbp(accounts@, k as int));
            Ok(accounts[k].id.clone())
        },
        None => Err(MerchantAccountError::NoGbpMerchantAccount),
    }
}

/// The provider that the mock payments pick.
pub open spec fn gb_mock_provider_id() -> Seq<char> {
    "mock-payments-gb-redirect"@
}

/// A sort code and account number.
#[derive(Debug)]
pub struct SortCodeAccountNumber {
    pub sort_code: String,
    pub account_number: String,
}

/// An external account that receives a payment.
#[derive(Debug)]
pub struct ExternalAccount {
    pub account_holder_name: String,
    pub account_identifier: SortCodeAccountNumber,
    pub reference: String,
}

/// A provider chosen up front, with the scheme to pay by.
#[derive(Debug)]
pub struct PreselectedProvider {
    pub provider_id: String,
    pub scheme_id: String,
}

/// A payer that the API does not know yet.
#[derive(Debug)]
pub struct NewUser {
    pub name: Option<String>,
    pub email: Option<String>,
    pub phone: Option<String>,
}

/// A request to create a bank-transfer payment to an external account.
#[derive(Debug)]
pub struct ExternalAccountPaymentRequest {
    pub amount_in_minor: u64,
    pub currency: Currency,
    pub provider: PreselectedProvider,
    pub beneficiary: ExternalAccount,
    pub user: NewUser,
}

pub open spec fn opt_is(o: Option<String>, s: Seq<char>) -> bool {
    o matches Some(v) && v@ == s
}

/// The sandbox payment that the commands create: 15 pence to a fixed external account.
pub open spec fn is_sandbox_payment_request(r: ExternalAccountPaymentRequest) -> bool {
    &&& r.amount_in_minor == 15
    &&& r.currency == Currency::Gbp
    &&& r.provider.provider_id@ == gb_mock_provider_id()
    &&& r.provider.scheme_id@ == "faster_payments_service"@
    &&& r.beneficiary.account_holder_name@ == "John doe"@
    &&& r.beneficiary.account_identifier.sort_code@ == "000000"@
    &&& r.beneficiary.account_identifier.account_number@ == "12345678"@
    &&& r.beneficiary.reference@ == "(LegacyReturn)"@
    &&& opt_is(r.user.name, "john doe"@)
    &&& opt_is(r.user.email, "a@a.com"@)
    &&& r.user.phone is None
}

/// The request that creates the sandbox payment to an external account.
pub fn create_external_account_payment_request() -> (r: ExternalAccountPaymentRequest)
    ensures
        is_sandbox_payment_request(r),
{
    ExternalAccountPaymentRequest {
        amount_in_minor: 15,
        currency: Currency::Gbp,
        provider: PreselectedProvider {
            provider_id: String::from_str("mock-payments-gb-redirect"),
            scheme_id: String::from_str("faster_payments_service"),
        },
        beneficiary: ExternalAccount {
            account_holder_name: String::from_str("John doe"),
            account_identifier: SortCodeAccountNumber {
                sort_code: String::from_str("000000"),
                account_number: String::from_str("12345678"),
            },
            reference: String::from_str("(LegacyReturn)"),
        },
        user: NewUser {
            name: Some(String::from_str("john doe")),
            email: Some(String::from_str("a@a.com")),
            phone: None,
        },
    }
}

/// A request to start a payment's authorisation flow.
#[derive(Debug)]
pub struct StartAuthorizationFlowRequest {
    pub provider_selection_supported: bool,
    pub return_uri: String,
    pub direct_return_uri: Option<String>,
    pub form_supported: bool,
}

/// The flow the commands start: provider selection and a redirect back to a local callback.
pub fn start_authorization_flow_request() -> (r: StartAuthorizationFlowRequest)
    ensures
        r.provider_selection_supported,
        r.return_uri@ == "http://localhost:3000/callback"@,
        r.direct_return_uri is None,
        !r.form_supported,
{
    StartAuthorizationFlowRequest {
        provider_selection_supported: true,
        return_uri: String::from_str("http://localhost:3000/callback"),
        direct_return_uri: None,
        form_supported: false,
    }
}

/// The provider that a provider selection submits.
pub fn provider_selection_provider_id() -> (id: String)
    ensures
        id@ == gb_mock_provider_id(),
{
    String::from_str("mock-payments-gb-redirect")
}

/// Where an authorisation flow stands.
#[derive(Debug)]
pub enum FlowStatus {
    Authorizing,
    Failed { failure_stage: String, failure_reason: String },
}

/// What the payer is asked to do next.
#[derive(Debug)]
pub enum NextAction {
    /// Go to `uri`.
    Redirect { uri: String },
    /// Anything but a redirect: pick a provider, fill a form, wait.
    Other,
}

#[derive(Debug)]
pub struct FlowActions {
    pub next: NextAction,
}

#[derive(Debug)]
pub struct AuthorizationFlow {
    pub actions: Option<FlowActions>,
}

/// The answer to a request that starts or advances an authorisation flow.
#[derive(Debug)]
pub struct AuthorizationFlowResponse {
    pub status: FlowStatus,
    pub authorization_flow: Option<AuthorizationFlow>,
}

/// Why an authorisation flow did not give what the commands need.
#[derive(Debug)]
pub enum FlowError {
    Failed { failure_stage: String, failure_reason: String },
    AuthorizationFlowMissing,
    ActionsMissing,
    NextActionNotRedirect,
}

impl FlowError {
    /// The text the command line shows for this error.
    pub fn message(&self) -> (m: String)
        ensures
            self matches FlowError::Failed { failure_reason, .. } ==> m@
                == "Authorization flow was not started successfully. Reason: "@ + failure_reason@,
            self is AuthorizationFlowMissing ==> m@ == "Authorization flow object not found"@,
            self is ActionsMissing ==> m@ == "Actions in authorization flow not found"@,
            self is NextActionNotRedirect ==> m@
                == "Next action is not redirect, there is a problem with the flow"@,
    {
        match self {
            FlowError::Failed { failure_reason, .. } => {
                let mut m = String::from_str("Authorization flow was not started successfully. Reason: ");
                m.append(failure_reason.as_str());
                m
            },
            FlowError::AuthorizationFlowMissing => String::from_str("Authorization flow object not found"),
            FlowError::ActionsMissing => String::from_str("Actions in authorization flow not found"),
            FlowError::NextActionNotRedirect => String::from_str(
                "Next action is not redirect, there is a problem with the flow",
            ),
        }
    }
}

/// What starting a flow gives for `response`: the redirect URI, or why there is none.
pub open spec fn redirect_outcome(response: AuthorizationFlowResponse) -> Result<String, FlowError> {
    match response.status {
        FlowStatus::Failed { failure_stage, failure_reason } => Err(FlowError::Failed { failure_stage, failure_reason }),
        FlowStatus::Authorizing => match response.authorization_flow {
            None => Err(FlowError::AuthorizationFlowMissing),
            Some(flow) => match flow.actions {
                None => Err(FlowError::ActionsMissing),
                Some(actions) => match actions.next {
                    NextAction::Redirect { uri } => Ok(uri),
                    NextAction::Other => Err(FlowError::NextActionNotRedirect),
                },
            },
        },
    }
}

/// The flow is authorising and its next action is a redirect to `uri`.
pub open spec fn redirects_to(response: AuthorizationFlowResponse, uri: String) -> bool {
    &&& response.status is Authorizing
    &&& response.authorization_flow matches Some(flow)
    &&& flow.actions matches Some(actions)
    &&& actions.next == NextAction::Redirect { uri }
}

/// An authorising flow whose next action is a redirect gives that redirect's URI, whatever
/// it holds; and a flow that gives a URI is one that redirects to it.
pub proof fn lemma_redirect_is_followed(response: AuthorizationFlowResponse, uri: String)
    ensures
        redirects_to(response, uri) ==> redirect_outcome(response) == Ok::<String, FlowError>(uri),
        redirect_outcome(response) == Ok::<String, FlowError>(uri) ==> redirects_to(response, uri),
{
}

/// A failed flow gives its failure, and an authorising flow without a redirect never
/// gives a URI.
pub proof fn lemma_no_redirect_no_uri(response: AuthorizationFlowResponse)
    ensures
        response.status matches FlowStatus::Failed { failure_stage, failure_reason } ==> redirect_outcome(response)
            == Err::<String, FlowError>(FlowError::Failed { failure_stage, failure_reason }),
        (forall|uri: String| !redirects_to(response, uri)) ==> redirect_outcome(response) is Err,
{
    if response.status is Authorizing {
        if let Some(flow) = response.authorization_flow {
            if let Some(actions) = flow.actions {
                if let NextAction::Redirect { uri } = actions.next {
                    assert(redirects_to(response, uri));
                }
            }
        }
    }
}

/// The redirect URI that a started authorisation flow asks the payer to follow.
pub fn start_authorization_flow_outcome(response: AuthorizationFlowResponse) -> (res: Result<String, FlowError>)
    ensures
        res == redirect_outcome(response),
        forall|uri: String| redirects_to(response, uri) ==> res == Ok::<String, FlowError>(uri),
        response.status matches FlowStatus::Failed { failure_stage, failure_reason } ==> res == Err::<
            String,
            FlowError,
        >(FlowError::Failed { failure_stage, failure_reason }),
        res matches Ok(uri) ==> redirects_to(response, uri),
{
    match response.status {
        FlowStatus::Failed { failure_stage, failure_reason } => Err(FlowError::Failed { failure_stage, failure_reason }),
        FlowStatus::Authorizing => match response.authorization_flow {
            None => Err(FlowError::AuthorizationFlowMissing),
            Some(flow) => match flow.actions {
                None => Err(FlowError::ActionsMissing),
                Some(actions) => match actions.next {
                    NextAction::Redirect { uri } => Ok(uri),
                    NextAction::Other => Err(FlowError::NextActionNotRedirect),
                },
            },
        },
    }
}

/// Accepts a provider selection when the flow goes on authorising.
pub fn submit_provider_selection_outcome(status: FlowStatus) -> (res: Result<(), FlowError>)
    ensures
        status is Authorizing ==> res is Ok,
        status matches FlowStatus::Failed { failure_stage, failure_reason } ==> res == Err::<(), FlowError>(
            FlowError::Failed { failure_stage, failure_reason },
        ),
{
    match status {
        FlowStatus::Authorizing => Ok(()),
        FlowStatus::Failed { failure_stage, failure_reason } => Err(FlowError::Failed { failure_stage, failure_reason }),
    }
}

} // verus!
