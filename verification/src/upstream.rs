//! The client side of the provisioning API: what is asked of it, and how its
//! answers are read. Sending is left to the caller.

use crate::envelope::{ApiResponse, ConnectionResponse, SubscriptionEnvelope};
use crate::ident::{uuid_text, Id128};
use crate::request::{source_label, TrialSource};
use vstd::prelude::*;
use vstd::string::*;

verus! {

/// The length of a trial, in days.
pub const DEFAULT_DAYS: i64 = 1;

/// The environment label that is used where a request names none.
pub const DEFAULT_ENV: &'static str = "dev";

/// What the process was configured with. Each value is read once per call by
/// the caller and may be missing.
#[derive(Debug)]
pub struct Settings {
    /// The base address of the provisioning API.
    pub host: Option<String>,
    /// The bearer token for the provisioning API.
    pub api_token: Option<String>,
    /// The account at the mail relay.
    pub mail_user: Option<String>,
    /// The password of that account.
    pub mail_password: Option<String>,
}

/// Why a call to the provisioning API gave no result.
#[derive(Debug)]
pub enum UpstreamError {
    /// The base address of the API is not configured.
    MissingHost,
    /// The bearer token is not configured.
    MissingToken,
    /// The request could not be sent, or its answer not be received.
    Transport,
    /// The answer had no body.
    EmptyBody { status: u16 },
    /// The answer had a status outside 200 to 299.
    Status { status: u16, body: String },
    /// The body is not the envelope that was expected.
    Malformed,
}

/// An error with its text as a sequence of characters.
pub enum UpstreamErrorView {
    MissingHost,
    MissingToken,
    Transport,
    EmptyBody { status: u16 },
    Status { status: u16, body: Seq<char> },
    Malformed,
}

impl View for UpstreamError {
    type V = UpstreamErrorView;

    open spec fn view(&self) -> UpstreamErrorView {
        match *self {
            UpstreamError::MissingHost => UpstreamErrorView::MissingHost,
            UpstreamError::MissingToken => UpstreamErrorView::MissingToken,
            UpstreamError::Transport => UpstreamErrorView::Transport,
            UpstreamError::EmptyBody { status } => UpstreamErrorView::EmptyBody { status },
            UpstreamError::Status { status, body } => UpstreamErrorView::Status {
                status,
                body: body@,
            },
            UpstreamError::Malformed => UpstreamErrorView::Malformed,
        }
    }
}

/// Whether `result` is the failure of the given kind.
pub open spec fn failed_with<T>(result: Result<T, UpstreamError>, kind: UpstreamErrorView) -> bool {
    match result {
        Ok(_) => false,
        Err(e) => e@ == kind,
    }
}

/// One header of a request.
#[derive(Debug)]
pub struct Header {
    pub name: String,
    pub value: String,
}

impl DeepView for Header {
    type V = (Seq<char>, Seq<char>);

    open spec fn deep_view(&self) -> (Seq<char>, Seq<char>) {
        (self.name@, self.value@)
    }
}

/// The headers that every request to the API carries, for the bearer token
/// `token`.
pub open spec fn auth_header_list(token: Seq<char>) -> Seq<(Seq<char>, Seq<char>)> {
    seq![
        ("Authorization"@, "Bearer "@ + token),
        ("Accept"@, "application/json"@),
        ("Content-Type"@, "application/json"@),
    ]
}

/// The headers that every request to the API carries.
pub fn auth_headers(token: &str) -> (headers: Vec<Header>)
    ensures
        headers.deep_view() == auth_header_list(token@),
{
    let mut bearer = "Bearer ".to_string();
    bearer.append(token);
    let mut headers: Vec<Header> = Vec::new();
    headers.push(Header { name: "Authorization".to_string(), value: bearer });
    headers.push(Header { name: "Accept".to_string(), value: "application/json".to_string() });
    headers.push(
        Header { name: "Content-Type".to_string(), value: "application/json".to_string() },
    );
    assert(headers.deep_view() =~= auth_header_list(token@));
    headers
}

/// The body of the request that creates a subscription.
#[derive(Debug)]
pub struct SubscriptionBody {
    pub env: String,
    pub days: i64,
    pub referred_by: String,
}

/// The body of the request that creates a connection. The token is part of
/// the body only where there is one.
#[derive(Debug)]
pub struct ConnectionBody {
    pub env: String,
    pub proto: String,
    pub subscription_id: Id128,
    pub token: Option<Id128>,
}

/// A request to the provisioning API: a `POST` of `body`, as JSON, to `url`.
#[derive(Debug)]
pub struct ApiCall<B> {
    pub url: String,
    pub headers: Vec<Header>,
    pub body: B,
}

/// The address of an endpoint: the base address followed by the path.
pub fn endpoint(host: &str, path: &str) -> (url: String)
    ensures
        url@ == host@ + path@,
{
    let mut url = host.to_string();
    url.append(path);
    url
}

/// The request that creates a subscription of `days` days in the environment
/// `env`, on account of `referred_by`. It fails where the base address or the
/// token is not configured, the address being looked at first.
pub fn create_subscription(
    settings: &Settings,
    env: &str,
    days: i64,
    referred_by: &TrialSource,
) -> (call: Result<ApiCall<SubscriptionBody>, UpstreamError>)
    ensures
        match (settings.host, settings.api_token) {
            (None, _) => failed_with(call, UpstreamErrorView::MissingHost),
            (Some(_), None) => failed_with(call, UpstreamErrorView::MissingToken),
            (Some(host), Some(token)) => match call {
                Ok(c) => {
                    &&& c.url@ == host@ + "/subscription"@
                    &&& c.headers.deep_view() == auth_header_list(token@)
                    &&& c.body.env@ == env@
                    &&& c.body.days == days
                    &&& c.body.referred_by@ == source_label(*referred_by)
                },
                Err(_) => false,
            },
        },
{
    let host = match &settings.host {
        Some(host) => host,
        None => {
            return Err(UpstreamError::MissingHost);
        },
    };
    let token = match &settings.api_token {
        Some(token) => token,
        None => {
            return Err(UpstreamError::MissingToken);
        },
    };
    Ok(
        ApiCall {
            url: endpoint(host.as_str(), "/subscription"),
            headers: auth_headers(token.as_str()),
            body: SubscriptionBody {
                env: env.to_string(),
                days,
                referred_by: referred_by.label(),
            },
        },
    )
}

/// The request that creates a connection of the transport `proto` for the
/// subscription `sub_id` in the environment `env`. It fails where the base
/// address or the token is not configured, the address being looked at first.
pub fn create_connection(
    settings: &Settings,
    env: &str,
    proto: &str,
    sub_id: &Id128,
    token: &Option<Id128>,
) -> (call: Result<ApiCall<ConnectionBody>, UpstreamError>)
    ensures
        match (settings.host, settings.api_token) {
            (None, _) => failed_with(call, UpstreamErrorView::MissingHost),
            (Some(_), None) => failed_with(call, UpstreamErrorView::MissingToken),
            (Some(host), Some(bearer)) => match call {
                Ok(c) => {
                    &&& c.url@ == host@ + "/connection"@
                    &&& c.headers.deep_view() == auth_header_list(bearer@)
                    &&& c.body.env@ == env@
                    &&& c.body.proto@ == proto@
                    &&& c.body.subscription_id == *sub_id
                    &&& c.body.token == *token
                },
                Err(_) => false,
            },
        },
{
    let host = match &settings.host {
        Some(host) => host,
        None => {
            return Err(UpstreamError::MissingHost);
        },
    };
    let bearer = match &settings.api_token {
        Some(bearer) => bearer,
        None => {
            return Err(UpstreamError::MissingToken);
        },
    };
    Ok(
        ApiCall {
            url: endpoint(host.as_str(), "/connection"),
            headers: auth_headers(bearer.as_str()),
            body: ConnectionBody {
                env: env.to_string(),
                proto: proto.to_string(),
                subscription_id: *sub_id,
                token: *token,
            },
        },
    )
}

/// What came of sending a request.
#[derive(Debug)]
pub enum Reply<T> {
    /// The request could not be sent, or the body of the answer not be read.
    Failed,
    /// An answer was received. `parsed` is the envelope decoded from `body`,
    /// or `None` where `body` does not decode.
    Received { status: u16, body: String, parsed: Option<ApiResponse<T>> },
}

/// Whether `status` is one of 200 to 299.
pub open spec fn is_success(status: u16) -> bool {
    200 <= status < 300
}

/// Reads the identifier of the new subscription from the answer to
/// `create_subscription`. A failed transport, a status outside 200 to 299
/// and a body that does not decode are told apart, in this order.
pub fn read_subscription(reply: Reply<SubscriptionEnvelope>) -> (id: Result<Id128, UpstreamError>)
    ensures
        match reply {
            Reply::Failed => failed_with(id, UpstreamErrorView::Transport),
            Reply::Received { status, body, parsed } => if !is_success(status) {
                failed_with(id, UpstreamErrorView::Status { status, body: body@ })
            } else {
                match parsed {
                    Some(envelope) => id == Ok::<Id128, UpstreamError>(envelope.response.id),
                    None => failed_with(id, UpstreamErrorView::Malformed),
                }
            },
        },
{
    match reply {
        Reply::Failed => Err(UpstreamError::Transport),
        Reply::Received { status, body, parsed } => {
            if status < 200 || status >= 300 {
                Err(UpstreamError::Status { status, body })
            } else {
                match parsed {
                    Some(envelope) => Ok(envelope.response.id),
                    None => Err(UpstreamError::Malformed),
                }
            }
        },
    }
}

/// Reads the identifier of the new connection, as text, from the answer to
/// `create_connection`. A failed transport, an empty body, a status outside
/// 200 to 299 and a body that does not decode are told apart, in this order.
pub fn read_connection(reply: Reply<ConnectionResponse>) -> (id: Result<String, UpstreamError>)
    ensures
        match reply {
            Reply::Failed => failed_with(id, UpstreamErrorView::Transport),
            Reply::Received { status, body, parsed } => if body@.len() == 0 {
                failed_with(id, UpstreamErrorView::EmptyBody { status })
            } else if !is_success(status) {
                failed_with(id, UpstreamErrorView::Status { status, body: body@ })
            } else {
                match parsed {
                    Some(envelope) => match id {
                        Ok(text) => text@ == uuid_text(envelope.response.id.bits),
                        Err(_) => false,
                    },
                    None => failed_with(id, UpstreamErrorView::Malformed),
                }
            },
        },
{
    match reply {
        Reply::Failed => Err(UpstreamError::Transport),
        Reply::Received { status, body, parsed } => {
            if body.as_str().is_empty() {
                Err(UpstreamError::EmptyBody { status })
            } else if status < 200 || status >= 300 {
                Err(UpstreamError::Status { status, body })
            } else {
                match parsed {
                    Some(envelope) => Ok(envelope.response.id.to_text()),
                    None => Err(UpstreamError::Malformed),
                }
            }
        },
    }
}

} // verus!
