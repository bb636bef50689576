use std::collections::HashMap;
use vstd::prelude::*;
use vstd::string::*;

verus! {

/// Seconds between two pulls from the webhook router.
pub const POLL_INTERVAL_SECS: u64 = 5;

/// Retries of a failed pull, with exponential backoff, before the pull counts as failed.
pub const PULL_MAX_RETRIES: u32 = 3;

/// Where webhooks are pulled from.
pub open spec fn webhook_router_uri() -> Seq<char> {
    "https://webhook-router.truelayer-sandbox.com/pull"@
}

/// A webhook as the router keeps it: the headers and body that TrueLayer sent.
#[derive(Debug, Clone)]
pub struct Webhook {
    pub headers: HashMap<String, String>,
    pub body: String,
}

/// What a pull from the router answers: the webhooks waiting since the last pull.
#[derive(Debug)]
pub struct PullResponse {
    pub webhooks: Vec<Webhook>,
}

/// The fields of a webhook's body that the forwarding log shows.
#[derive(Debug)]
pub struct WebhookMessage {
    pub typ: String,
    pub event_id: String,
    pub payment_id: String,
}

/// Why forwarding webhooks stopped.
#[derive(Debug)]
pub enum RouterError {
    /// Pulling ended without an error, which it never should.
    PrematureExit,
    /// A pull answered with a body that is not a pull response.
    UnreadablePull { error: String },
}

impl RouterError {
    /// The text the command line shows for this error.
    pub fn message(&self) -> (m: String)
        ensures
            self is PrematureExit ==> m@ == "Fetching Prematurely exited"@,
            self matches RouterError::UnreadablePull { error } ==> m@ == error@,
    {
        match self {
            RouterError::PrematureExit => String::from_str("Fetching Prematurely exited"),
            RouterError::UnreadablePull { error } => error.clone(),
        }
    }
}

/// Forwards the webhooks that the router holds for this client's account to a local address.
#[derive(Debug)]
pub struct WebhookRouterClient {
    token: String,
    addr: String,
}

impl WebhookRouterClient {
    /// The access token that authorises pulls.
    pub closed spec fn spec_token(&self) -> Seq<char> {
        self.token@
    }

    /// Where the webhooks are forwarded to.
    pub closed spec fn spec_addr(&self) -> Seq<char> {
        self.addr@
    }

    /// A client that pulls with `token` and forwards to `addr`.
    pub fn init(token: String, addr: String) -> (c: WebhookRouterClient)
        ensures
            c.spec_token() == token@,
            c.spec_addr() == addr@,
    {
        WebhookRouterClient { token, addr }
    }

    pub fn token(&self) -> (t: &str)
        ensures
            t@ == self.spec_token(),
    {
        self.token.as_str()
    }

    pub fn addr(&self) -> (a: &str)
        ensures
            a@ == self.spec_addr(),
    {
        self.addr.as_str()
    }

    /// The runner that does the pulling and forwarding, with this client's token and address.
    pub fn runner(&self) -> (r: Runner)
        ensures
            r.spec_token() == self.spec_token(),
            r.spec_addr() == self.spec_addr(),
    {
        Runner { token: self.token.clone(), addr: self.addr.clone() }
    }

    /// What forwarding ends with, once the runner's pull loop has returned `fetch`: always
    /// an error, since the loop is meant to run for as long as the program does.
    pub fn start_outcome(fetch: Result<(), RouterError>) -> (res: Result<(), RouterError>)
        ensures
            res is Err,
            fetch is Ok ==> res matches Err(RouterError::PrematureExit),
            fetch is Err ==> res == fetch,
    {
        match fetch {
            Ok(()) => Err(RouterError::PrematureExit),
            Err(e) => Err(e),
        }
    }
}

/// An HTTP request, as plain values: where it goes, the bearer token, the extra headers and
/// the body.
#[derive(Debug)]
pub struct ForwardRequest {
    pub url: String,
    pub bearer_token: String,
    pub headers: HashMap<String, String>,
    pub body: String,
}

/// A pull request to the router.
#[derive(Debug)]
pub struct PullRequest {
    pub url: String,
    pub bearer_token: String,
}

/// How one pull went.
#[derive(Debug)]
pub enum PollOutcome {
    /// The router answered 2xx with these webhooks.
    Pulled(PullResponse),
    /// The router answered 2xx with a body that is not a pull response.
    UnreadableBody { error: String },
    /// The router answered with this status, outside 2xx.
    UnexpectedStatus { status: String },
    /// The request did not get an answer.
    RequestFailed { error: String },
}

/// What the pull loop does after a pull.
#[derive(Debug)]
pub enum PollAction {
    /// Forward these webhooks, then wait and pull again.
    Forward(Vec<Webhook>),
    /// Show this line, then wait and pull again.
    Report(String),
    /// Stop pulling with this error.
    Stop(RouterError),
}

/// How forwarding one webhook went.
#[derive(Debug)]
pub enum DeliveryOutcome {
    /// The local address answered 2xx.
    Delivered,
    /// The local address answered with this status, outside 2xx.
    Rejected { status: String },
    /// The request did not get an answer.
    Failed { error: String },
}

/// The verdict at the end of a delivery line.
pub open spec fn delivery_verdict(outcome: DeliveryOutcome) -> Seq<char> {
    match outcome {
        DeliveryOutcome::Delivered => "SUCCESS"@,
        DeliveryOutcome::Rejected { status } => "FAILURE, status: "@ + status@,
        DeliveryOutcome::Failed { error } => "FAILURE, error: "@ + error@,
    }
}

/// The log line for a webhook forwarded to `addr`.
pub open spec fn delivery_line(addr: Seq<char>, message: WebhookMessage, outcome: DeliveryOutcome) -> Seq<char> {
    "Type:  "@ + message.typ@ + ", Event id: "@ + message.event_id@ + ", Payment id: "@
        + message.payment_id@ + ", => "@ + addr + ", "@ + delivery_verdict(outcome)
}

/// What the pull loop does after a pull that went as `outcome`.
pub open spec fn poll_decision(addr: Seq<char>, outcome: PollOutcome, action: PollAction) -> bool {
    match outcome {
        PollOutcome::Pulled(response) => action == PollAction::Forward(response.webhooks),
        PollOutcome::UnreadableBody { error } => action == PollAction::Stop(RouterError::UnreadablePull { error }),
        PollOutcome::UnexpectedStatus { status } => action matches PollAction::Report(line)
            && line@ == "Unexpected status code: "@ + status@,
        PollOutcome::RequestFailed { error } => action matches PollAction::Report(line) && line@
            == "HTTP request to the server  "@ + addr
            + "  has failed. If it continues, restart the CLI program, error:  "@ + error@,
    }
}

/// Pulls webhooks from the router and forwards them to a local address.
#[derive(Debug)]
pub struct Runner {
    token: String,
    addr: String,
}

impl Runner {
    pub closed spec fn spec_token(&self) -> Seq<char> {
        self.token@
    }

    pub closed spec fn spec_addr(&self) -> Seq<char> {
        self.addr@
    }

    /// The request that pulls the waiting webhooks.
    pub fn pull_request(&self) -> (r: PullRequest)
        ensures
            r.url@ == webhook_router_uri(),
            r.bearer_token@ == self.spec_token(),
    {
        PullRequest {
            url: String::from_str("https://webhook-router.truelayer-sandbox.com/pull"),
            bearer_token: self.token.clone(),
        }
    }

    /// The request that forwards `webhook` to the local address: its body and headers as
    /// they came, with the router token as bearer.
    pub fn forward_request(&self, webhook: &Webhook) -> (r: ForwardRequest)
        ensures
            r.url@ == self.spec_addr(),
            r.bearer_token@ == self.spec_token(),
            r.headers@ == webhook.headers@,
            r.body@ == webhook.body@,
    {
        ForwardRequest {
            url: self.addr.clone(),
            bearer_token: self.token.clone(),
            headers: webhook.headers.clone(),
            body: webhook.body.clone(),
        }
    }

    /// What to do after a pull: forward what came, report a failed pull and go on, or stop
    /// when the router's answer cannot be read. Pulling stops on nothing else.
    pub fn poll_action(&self, outcome: PollOutcome) -> (action: PollAction)
        ensures
            poll_decision(self.spec_addr(), outcome, action),
            action is Stop <==> outcome is UnreadableBody,
            outcome matches PollOutcome::Pulled(r) ==> action matches PollAction::Forward(w) && w@ == r.webhooks@,
            outcome matches PollOutcome::UnexpectedStatus { status } ==> action matches PollAction::Report(line)
                && line@ == "Unexpected status code: "@ + status@,
    {
        match outcome {
            PollOutcome::Pulled(response) => PollAction::Forward(response.webhooks),
            PollOutcome::UnreadableBody { error } => PollAction::Stop(RouterError::UnreadablePull { error }),
            PollOutcome::UnexpectedStatus { status } => {
                let mut line = String::from_str("Unexpected status code: ");
                line.append(status.as_str());
                PollAction::Report(line)
            },
            PollOutcome::RequestFailed { error } => {
                let mut line = String::from_str("HTTP request to the server  ");
                line.append(self.addr.as_str());
                line.append("  has failed. If it continues, restart the CLI program, error:  ");
                line.append(error.as_str());
                PollAction::Report(line)
            },
        }
    }

    /// The log line for `message` forwarded to the local address.
    pub fn delivery_report(&self, message: &WebhookMessage, outcome: &DeliveryOutcome) -> (line: String)
        ensures
            line@ == delivery_line(self.spec_addr(), *message, *outcome),
            outcome is Delivered ==> line@ == "Type:  "@ + message.typ@ + ", Event id: "@ + message.event_id@
                + ", Payment id: "@ + message.payment_id@ + ", => "@ + self.spec_addr() + ", "@ + "SUCCESS"@,
            outcome matches DeliveryOutcome::Rejected { status } ==> line@ == "Type:  "@ + message.typ@
                + ", Event id: "@ + message.event_id@ + ", Payment id: "@ + message.payment_id@ + ", => "@
                + self.spec_addr() + ", "@ + "FAILURE, status: "@ + status@,
            outcome matches DeliveryOutcome::Failed { error } ==> line@ == "Type:  "@ + message.typ@
                + ", Event id: "@ + message.event_id@ + ", Payment id: "@ + message.payment_id@ + ", => "@
                + self.spec_addr() + ", "@ + "FAILURE, error: "@ + error@,
    {
        let mut line = String::from_str("Type:  ");
        line.append(message.typ.as_str());
        line.append(", Event id: ");
        line.append(message.event_id.as_str());
        line.append(", Payment id: ");
        line.append(message.payment_id.as_str());
        line.append(", => ");
        line.append(self.addr.as_str());
        line.append(", ");
        match outcome {
            DeliveryOutcome::Delivered => line.append("SUCCESS"),
            DeliveryOutcome::Rejected { status } => {
                line.append("FAILURE, status: ");
                line.append(status.as_str());
            },
            DeliveryOutcome::Failed { error } => {
                line.append("FAILURE, error: ");
                line.append(error.as_str());
            },
        }
        line
    }
}

} // verus!
