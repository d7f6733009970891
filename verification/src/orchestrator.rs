//! The activation of a trial, step by step: admission, the subscription, the
//! connections, and what follows a grant. Each step takes what came of the
//! work that the step before asked for and says what is to be done next; the
//! caller does the work.

use crate::ident::{uuid_text, uuid_version, Id128};
use crate::index::{after_admission, Admission, TrialIndex};
use crate::journal::{journal_line, line_record, save_trial};
use crate::request::{
    error_response, ok_response, text_of, TrialRequest, TrialRequestView, TrialResponse,
    TrialResponseView, TrialSource,
};
use crate::text::{comma_free, fields, lemma_sanitized, sanitized, single_line};
use crate::timestamp::Timestamp;
use crate::upstream::{UpstreamError, DEFAULT_DAYS, DEFAULT_ENV};
use vstd::prelude::*;

verus! {

/// The message for a request that is not valid.
pub const MSG_INVALID: &'static str = "Trial request is not valid";

/// The message for an address that was granted a trial before.
pub const MSG_DUPLICATE: &'static str = "Trial already requested";

/// The message for a subscription that could not be created.
pub const MSG_SUBSCRIPTION_FAILED: &'static str = "Failed to create subscription";

/// The message for an activated trial of which a notice is mailed.
pub const MSG_ACTIVATED_MAILED: &'static str = "Trial activated. Check your email.";

/// The message for an activated trial without an address.
pub const MSG_ACTIVATED: &'static str = "Trial activated.";

/// A transport for which every trial gets a connection.
#[derive(Clone, Copy, Debug, PartialEq, Eq, Structural)]
pub enum Protocol {
    VlessTcpReality,
    VlessGrpcReality,
    VlessXhttpReality,
    Hysteria2,
}

/// The name of a transport, as the provisioning API knows it.
pub open spec fn protocol_name(proto: Protocol) -> Seq<char> {
    match proto {
        Protocol::VlessTcpReality => "VlessTcpReality"@,
        Protocol::VlessGrpcReality => "VlessGrpcReality"@,
        Protocol::VlessXhttpReality => "VlessXhttpReality"@,
        Protocol::Hysteria2 => "Hysteria2"@,
    }
}

/// The transports of a trial, in their order.
pub open spec fn protocols() -> Seq<Protocol> {
    seq![
        Protocol::VlessTcpReality,
        Protocol::VlessGrpcReality,
        Protocol::VlessXhttpReality,
        Protocol::Hysteria2,
    ]
}

impl Protocol {
    /// The name of this transport.
    pub fn name(&self) -> (text: String)
        ensures
            text@ == protocol_name(*self),
    {
        match self {
            Protocol::VlessTcpReality => "VlessTcpReality".to_string(),
            Protocol::VlessGrpcReality => "VlessGrpcReality".to_string(),
            Protocol::VlessXhttpReality => "VlessXhttpReality".to_string(),
            Protocol::Hysteria2 => "Hysteria2".to_string(),
        }
    }

    /// Whether a connection of this transport carries a token: only
    /// Hysteria2 does.
    pub fn needs_token(&self) -> (needed: bool)
        ensures
            needed == (*self == Protocol::Hysteria2),
    {
        match self {
            Protocol::Hysteria2 => true,
            _ => false,
        }
    }
}

/// The transports of a trial, in their order.
pub fn protocol_set() -> (set: Vec<Protocol>)
    ensures
        set@ == protocols(),
{
    let mut set: Vec<Protocol> = Vec::new();
    set.push(Protocol::VlessTcpReality);
    set.push(Protocol::VlessGrpcReality);
    set.push(Protocol::VlessXhttpReality);
    set.push(Protocol::Hysteria2);
    assert(set@ =~= protocols());
    set
}

/// What is asked of the provisioning API first: one subscription.
#[derive(Debug)]
pub struct SubscriptionOrder {
    pub env: String,
    pub days: i64,
    pub referred_by: TrialSource,
}

/// A subscription order with its text as a sequence of characters.
pub struct SubscriptionOrderView {
    pub env: Seq<char>,
    pub days: i64,
    pub referred_by: TrialSource,
}

impl View for SubscriptionOrder {
    type V = SubscriptionOrderView;

    open spec fn view(&self) -> SubscriptionOrderView {
        SubscriptionOrderView { env: self.env@, days: self.days, referred_by: self.referred_by }
    }
}

/// An admitted request that waits for its subscription.
#[derive(Debug)]
pub struct Pending {
    pub email: Option<String>,
    pub telegram: Option<String>,
    /// When the request was admitted.
    pub at: Timestamp,
}

/// A waiting request with its texts as sequences of characters.
pub struct PendingView {
    pub email: Option<Seq<char>>,
    pub telegram: Option<Seq<char>>,
    pub at: Timestamp,
}

impl View for Pending {
    type V = PendingView;

    open spec fn view(&self) -> PendingView {
        PendingView { email: text_of(self.email), telegram: text_of(self.telegram), at: self.at }
    }
}

/// How the handling of a request begins.
#[derive(Debug)]
pub enum Opening {
    /// The request is answered at once, with a failure.
    Refused(TrialResponse),
    /// The request was admitted: `order` is to be sent, and what comes of it
    /// handed to `on_subscription` together with `state`.
    Admitted { state: Pending, order: SubscriptionOrder },
}

/// An opening with its texts as sequences of characters.
pub enum OpeningView {
    Refused(TrialResponseView),
    Admitted { state: PendingView, order: SubscriptionOrderView },
}

impl View for Opening {
    type V = OpeningView;

    open spec fn view(&self) -> OpeningView {
        match *self {
            Opening::Refused(response) => OpeningView::Refused(response@),
            Opening::Admitted { state, order } => OpeningView::Admitted {
                state: state@,
                order: order@,
            },
        }
    }
}

/// Whether `request` is admitted by an index that holds `known`: it is
/// valid, and its address, if it has one, is not known. A request without an
/// address passes the index by.
pub open spec fn admitted(request: TrialRequestView, known: Map<Seq<char>, Timestamp>) -> bool {
    request.is_valid() && match request.email {
        Some(email) => !known.contains_key(email),
        None => true,
    }
}

/// How the handling of `request` begins at the time `now`, with an index
/// that holds `known`.
pub open spec fn opening(
    request: TrialRequestView,
    known: Map<Seq<char>, Timestamp>,
    now: Timestamp,
) -> OpeningView {
    if !request.is_valid() {
        OpeningView::Refused(error_response(MSG_INVALID@))
    } else if !admitted(request, known) {
        OpeningView::Refused(error_response(MSG_DUPLICATE@))
    } else {
        OpeningView::Admitted {
            state: PendingView { email: request.email, telegram: request.telegram, at: now },
            order: SubscriptionOrderView {
                env: match request.env {
                    Some(env) => env,
                    None => DEFAULT_ENV@,
                },
                days: DEFAULT_DAYS,
                referred_by: match request.source {
                    Some(source) => source,
                    None => TrialSource::Site,
                },
            },
        }
    }
}

/// What the index holds after the handling of `request` began: the address
/// of a valid request is entered unless it is known; nothing else changes.
pub open spec fn index_after(
    request: TrialRequestView,
    known: Map<Seq<char>, Timestamp>,
    now: Timestamp,
) -> Map<Seq<char>, Timestamp> {
    match request.email {
        Some(email) => if request.is_valid() {
            after_admission(known, email, now)
        } else {
            known
        },
        None => known,
    }
}

/// Begins the handling of a request: validates it, and with an address
/// tests and sets the index in one step. The address stays in the index
/// whatever becomes of the subscription.
pub fn handle_trial(req: TrialRequest, store: &mut TrialIndex, now: Timestamp) -> (begun: Opening)
    requires
        old(store).wf(),
    ensures
        final(store).wf(),
        begun@ == opening(req@, old(store)@, now),
        final(store)@ == index_after(req@, old(store)@, now),
{
    if !req.validate() {
        return Opening::Refused(TrialResponse::error(MSG_INVALID));
    }
    match &req.email {
        Some(email) => {
            match store.try_admit(email.as_str(), now) {
                Admission::AlreadyPresent => {
                    return Opening::Refused(TrialResponse::error(MSG_DUPLICATE));
                },
                Admission::Admitted => {},
            }
        },
        None => {},
    }
    let referred_by = match req.source {
        Some(source) => source,
        None => TrialSource::Site,
    };
    let env = match req.env {
        Some(env) => env,
        None => DEFAULT_ENV.to_string(),
    };
    Opening::Admitted {
        state: Pending { email: req.email, telegram: req.telegram, at: now },
        order: SubscriptionOrder { env, days: DEFAULT_DAYS, referred_by },
    }
}

/// Two requests with the same address, handled one after the other in
/// either order of arrival: the later one is refused as a duplicate, whatever
/// became of the earlier one. So at most one of them is granted a trial.
pub proof fn lemma_one_trial_per_address(
    earlier: TrialRequestView,
    later: TrialRequestView,
    known: Map<Seq<char>, Timestamp>,
    t1: Timestamp,
    t2: Timestamp,
)
    requires
        earlier.is_valid(),
        later.is_valid(),
        earlier.email is Some,
        later.email == earlier.email,
    ensures
        opening(later, index_after(earlier, known, t1), t2) == OpeningView::Refused(
            error_response(MSG_DUPLICATE@),
        ),
        index_after(later, index_after(earlier, known, t1), t2) == index_after(earlier, known, t1),
{
}

/// What is asked of the provisioning API for one transport: a connection
/// for the subscription `sub_id`.
#[derive(Debug)]
pub struct ConnectionOrder {
    pub env: String,
    pub proto: Protocol,
    pub sub_id: Id128,
    /// The token of the connection, for the transport that needs one.
    pub token: Option<Id128>,
}

/// A connection order with its text as a sequence of characters.
pub struct ConnectionOrderView {
    pub env: Seq<char>,
    pub proto: Protocol,
    pub sub_id: Id128,
    pub token: Option<Id128>,
}

impl DeepView for ConnectionOrder {
    type V = ConnectionOrderView;

    open spec fn deep_view(&self) -> ConnectionOrderView {
        ConnectionOrderView {
            env: self.env@,
            proto: self.proto,
            sub_id: self.sub_id,
            token: self.token,
        }
    }
}

/// The connection order for the transport `proto`: in the default
/// environment, whatever environment the request named, and with the token
/// where the transport needs one.
pub open spec fn connection_order(proto: Protocol, sub_id: Id128, token: Id128)
    -> ConnectionOrderView {
    ConnectionOrderView {
        env: DEFAULT_ENV@,
        proto,
        sub_id,
        token: if proto == Protocol::Hysteria2 {
            Some(token)
        } else {
            None
        },
    }
}

/// The connection orders of a trial: one for each transport, in their order.
pub open spec fn connection_orders(sub_id: Id128, token: Id128) -> Seq<ConnectionOrderView> {
    Seq::new(protocols().len(), |i: int| connection_order(protocols()[i], sub_id, token))
}

/// A trial has as many connection orders as there are transports, and
/// exactly one of them carries a token: the one for Hysteria2.
pub proof fn lemma_fan_out(sub_id: Id128, token: Id128)
    ensures
        connection_orders(sub_id, token).len() == protocols().len() == 4,
        forall|i: int|
            0 <= i < 4 ==> (#[trigger] connection_orders(sub_id, token)[i]).proto == protocols()[i],
        forall|i: int|
            0 <= i < 4 ==> ((#[trigger] connection_orders(sub_id, token)[i]).token is Some <==> i
                == 3),
        connection_orders(sub_id, token)[3].proto == Protocol::Hysteria2,
        connection_orders(sub_id, token)[3].token == Some(token),
{
}

/// A request whose subscription exists and that waits for its connections.
#[derive(Debug)]
pub struct Granted {
    pub email: Option<String>,
    pub telegram: Option<String>,
    /// When the request was admitted.
    pub at: Timestamp,
    pub sub_id: Id128,
}

/// A granted request with its texts as sequences of characters.
pub struct GrantedView {
    pub email: Option<Seq<char>>,
    pub telegram: Option<Seq<char>>,
    pub at: Timestamp,
    pub sub_id: Id128,
}

impl View for Granted {
    type V = GrantedView;

    open spec fn view(&self) -> GrantedView {
        GrantedView {
            email: text_of(self.email),
            telegram: text_of(self.telegram),
            at: self.at,
            sub_id: self.sub_id,
        }
    }
}

/// What follows the attempt to create the subscription.
#[derive(Debug)]
pub enum Provisioned {
    /// No subscription: the request is answered with a failure.
    Failed(TrialResponse),
    /// The subscription exists: `orders` are to be sent, all at once, and
    /// what comes of them handed to `on_connections` together with `state`.
    Connect { state: Granted, orders: Vec<ConnectionOrder> },
}

/// What follows the subscription, with texts as sequences of characters.
pub enum ProvisionedView {
    Failed(TrialResponseView),
    Connect { state: GrantedView, orders: Seq<ConnectionOrderView> },
}

impl View for Provisioned {
    type V = ProvisionedView;

    open spec fn view(&self) -> ProvisionedView {
        match *self {
            Provisioned::Failed(response) => ProvisionedView::Failed(response@),
            Provisioned::Connect { state, orders } => ProvisionedView::Connect {
                state: state@,
                orders: orders.deep_view(),
            },
        }
    }
}

/// What follows the subscription of the request `state`: a failure where
/// none was created, else the connection orders, of which the one that
/// needs a token gets `token`.
pub open spec fn provisioned(state: PendingView, sub_id: Option<Id128>, token: Id128)
    -> ProvisionedView {
    match sub_id {
        None => ProvisionedView::Failed(error_response(MSG_SUBSCRIPTION_FAILED@)),
        Some(id) => ProvisionedView::Connect {
            state: GrantedView {
                email: state.email,
                telegram: state.telegram,
                at: state.at,
                sub_id: id,
            },
            orders: connection_orders(id, token),
        },
    }
}

/// The subscription orders that an opening asks for: one where the request
/// was admitted, none where it was refused.
pub open spec fn subscription_orders(begun: OpeningView) -> Seq<SubscriptionOrderView> {
    match begun {
        OpeningView::Admitted { state, order } => seq![order],
        OpeningView::Refused(_) => Seq::empty(),
    }
}

/// The connection orders that the step after the subscription asks for:
/// none where no subscription was created.
pub open spec fn connection_orders_of(next: ProvisionedView) -> Seq<ConnectionOrderView> {
    match next {
        ProvisionedView::Connect { state, orders } => orders,
        ProvisionedView::Failed(_) => Seq::empty(),
    }
}

/// What is asked of the provisioning API in the course of one request. An
/// admitted request asks for exactly one subscription; once that exists, for
/// exactly one connection for each transport, of which only the one for
/// Hysteria2 carries a token. A refused request asks for nothing, and a
/// failed subscription for no connection.
pub proof fn lemma_requests_of_an_activation(
    request: TrialRequestView,
    known: Map<Seq<char>, Timestamp>,
    now: Timestamp,
    sub_id: Id128,
    token: Id128,
)
    ensures
        !admitted(request, known) ==> subscription_orders(opening(request, known, now)).len() == 0,
        admitted(request, known) ==> subscription_orders(opening(request, known, now)).len() == 1,
        match opening(request, known, now) {
            OpeningView::Refused(_) => !admitted(request, known),
            OpeningView::Admitted { state, order } => {
                let asked = connection_orders_of(provisioned(state, Some(sub_id), token));
                &&& asked.len() == protocols().len()
                &&& forall|i: int|
                    0 <= i < asked.len() ==> (#[trigger] asked[i]).proto == protocols()[i]
                        && asked[i].sub_id == sub_id && (asked[i].token is Some <==> asked[i].proto
                        == Protocol::Hysteria2)
                &&& forall|i: int, j: int|
                    0 <= i < asked.len() && 0 <= j < asked.len() && (#[trigger] asked[i]).token
                        is Some && (#[trigger] asked[j]).token is Some ==> i == j
                &&& connection_orders_of(provisioned(state, None, token)).len() == 0
            },
        },
{
    lemma_fan_out(sub_id, token);
}

/// The identifier that an outcome holds, if it is a success.
pub open spec fn created(outcome: Result<Id128, UpstreamError>) -> Option<Id128> {
    match outcome {
        Ok(id) => Some(id),
        Err(_) => None,
    }
}

/// The connection orders of the subscription `sub_id`, with `token` for the
/// transport that needs one.
pub fn plan_connections(sub_id: Id128, token: Id128) -> (orders: Vec<ConnectionOrder>)
    ensures
        orders.deep_view() == connection_orders(sub_id, token),
{
    let set = protocol_set();
    let mut orders: Vec<ConnectionOrder> = Vec::new();
    for i in 0..set.len()
        invariant
            set@ == protocols(),
            orders.len() == i,
            forall|j: int|
                0 <= j < i ==> (#[trigger] orders[j]).deep_view() == connection_order(
                    protocols()[j],
                    sub_id,
                    token,
                ),
    {
        let proto = set[i];
        let carried = if proto.needs_token() {
            Some(token)
        } else {
            None
        };
        orders.push(
            ConnectionOrder { env: DEFAULT_ENV.to_string(), proto, sub_id, token: carried },
        );
    }
    assert(orders.deep_view() =~= connection_orders(sub_id, token));
    orders
}

/// The step after the subscription, given the token for the transport that
/// needs one. A failure ends the handling; the address of the request stays
/// in the index all the same.
pub fn on_subscription_with(
    state: Pending,
    outcome: Result<Id128, UpstreamError>,
    token: Id128,
) -> (next: Provisioned)
    ensures
        next@ == provisioned(state@, created(outcome), token),
{
    match outcome {
        Err(_) => Provisioned::Failed(TrialResponse::error(MSG_SUBSCRIPTION_FAILED)),
        Ok(sub_id) => Provisioned::Connect {
            state: Granted { email: state.email, telegram: state.telegram, at: state.at, sub_id },
            orders: plan_connections(sub_id, token),
        },
    }
}

/// The step after the subscription. Where the subscription exists, a fresh
/// random token is drawn for the transport that needs one.
pub fn on_subscription(state: Pending, outcome: Result<Id128, UpstreamError>) -> (next:
    Provisioned)
    ensures
        created(outcome) is None ==> next@ == ProvisionedView::Failed(
            error_response(MSG_SUBSCRIPTION_FAILED@),
        ),
        created(outcome) is Some ==> exists|token: Id128|
            uuid_version(token.bits) == 4 && next@ == #[trigger] provisioned(
                state@,
                created(outcome),
                token,
            ),
{
    match outcome {
        Err(_) => Provisioned::Failed(TrialResponse::error(MSG_SUBSCRIPTION_FAILED)),
        Ok(sub_id) => {
            let fresh = Id128::random();
            let next = on_subscription_with(state, Ok(sub_id), fresh);
            assert(next@ == provisioned(state@, created(outcome), fresh));
            next
        },
    }
}

/// The notice that is to be mailed after a grant.
#[derive(Debug)]
pub struct Notice {
    pub to: String,
    pub sub_id: Id128,
}

/// A notice with its address as a sequence of characters.
pub struct NoticeView {
    pub to: Seq<char>,
    pub sub_id: Id128,
}

impl View for Notice {
    type V = NoticeView;

    open spec fn view(&self) -> NoticeView {
        NoticeView { to: self.to@, sub_id: self.sub_id }
    }
}

/// How the handling of a granted request ends. What `journal` holds is to be
/// appended to the journal first, then `notice` mailed, then `response`
/// returned; a failure of the first two is no failure of the request.
#[derive(Debug)]
pub struct Conclusion {
    /// The text to append to the journal, if any.
    pub journal: Option<String>,
    /// The notice to mail, if any.
    pub notice: Option<Notice>,
    pub response: TrialResponse,
    /// How many of the connections could not be created.
    pub failed_connections: usize,
}

/// A conclusion with its texts as sequences of characters.
pub struct ConclusionView {
    pub journal: Option<Seq<char>>,
    pub notice: Option<NoticeView>,
    pub response: TrialResponseView,
    pub failed_connections: nat,
}

impl View for Conclusion {
    type V = ConclusionView;

    open spec fn view(&self) -> ConclusionView {
        ConclusionView {
            journal: text_of(self.journal),
            notice: match self.notice {
                Some(notice) => Some(notice@),
                None => None,
            },
            response: self.response@,
            failed_connections: self.failed_connections as nat,
        }
    }
}

/// The telegram handle of a request as the journal holds it: with a space in
/// place of every comma and line feed, and empty where there is none.
pub open spec fn handle_text(telegram: Option<Seq<char>>) -> Seq<char> {
    match telegram {
        Some(handle) => sanitized(handle),
        None => Seq::<char>::empty(),
    }
}

/// The journal line of a granted request that has the address `email`. The
/// environment of the line is the default one.
pub open spec fn grant_line(state: GrantedView, email: Seq<char>) -> Seq<char> {
    journal_line(state.at, email, handle_text(state.telegram), state.sub_id, DEFAULT_ENV@)
}

/// How the handling of the granted request `state` ends, `failed` of its
/// connections having failed. With an address, a line goes to the journal
/// and a notice to the address; without, neither. The trial counts as
/// activated either way, however many connections failed.
pub open spec fn conclusion(state: GrantedView, failed: nat) -> ConclusionView {
    match state.email {
        Some(email) => ConclusionView {
            journal: Some(grant_line(state, email) + seq!['\n']),
            notice: Some(NoticeView { to: email, sub_id: state.sub_id }),
            response: ok_response(MSG_ACTIVATED_MAILED@, uuid_text(state.sub_id.bits)),
            failed_connections: failed,
        },
        None => ConclusionView {
            journal: None,
            notice: None,
            response: ok_response(MSG_ACTIVATED@, uuid_text(state.sub_id.bits)),
            failed_connections: failed,
        },
    }
}

/// How many of the outcomes are failures.
pub open spec fn failures<T>(outcomes: Seq<Result<T, UpstreamError>>) -> nat
    decreases outcomes.len(),
{
    if outcomes.len() == 0 {
        0
    } else {
        failures(outcomes.drop_last()) + if outcomes.last() is Err {
            1nat
        } else {
            0nat
        }
    }
}

/// Counts the failures among the outcomes of the connection orders.
pub fn count_failures(outcomes: &Vec<Result<String, UpstreamError>>) -> (count: usize)
    ensures
        count == failures(outcomes@),
        count <= outcomes.len(),
{
    let mut count: usize = 0;
    for i in 0..outcomes.len()
        invariant
            count == failures(outcomes@.take(i as int)),
            count <= i,
    {
        proof {
            assert(outcomes@.take(i + 1).drop_last() =~= outcomes@.take(i as int));
        }
        if outcomes[i].is_err() {
            count = count + 1;
        }
    }
    proof {
        assert(outcomes@.take(outcomes.len() as int) =~= outcomes@);
    }
    count
}

/// The last step: what came of the connection orders is counted and
/// otherwise ignored. Whatever the telegram handle holds, the line for the
/// journal of an address without a comma has exactly five fields, the address
/// as its second and the returned identifier as its fourth, and reads back as
/// the address with the time of admission; for an address without a line
/// feed it is one line. The time of admission is written only for a request
/// with an address, and must be an instant then.
pub fn on_connections(state: Granted, outcomes: &Vec<Result<String, UpstreamError>>) -> (end:
    Conclusion)
    requires
        state.email is Some ==> state.at.wf(),
    ensures
        end@ == conclusion(state@, failures(outcomes@)),
        state@.telegram matches Some(handle) ==> (comma_free(handle) && single_line(handle)
            ==> handle_text(state@.telegram) == handle),
        state@.email matches Some(email) ==> (comma_free(email) ==> {
            let parts = fields(grant_line(state@, email));
            &&& parts.len() == 5
            &&& parts[1] == email
            &&& parts[2] == handle_text(state@.telegram)
            &&& Some(parts[3]) == end@.response.sub_id
            &&& parts[4] == DEFAULT_ENV@
            &&& line_record(grant_line(state@, email)) == Some((email, state@.at))
        }),
        state@.email matches Some(email) ==> (single_line(email) ==> single_line(
            grant_line(state@, email),
        )),
{
    let failed = count_failures(outcomes);
    let id = state.sub_id.to_text();
    proof {
        reveal_strlit("dev");
        assert(single_line(DEFAULT_ENV@));
        assert(comma_free(DEFAULT_ENV@));
        if let Some(handle) = state@.telegram {
            lemma_sanitized(handle);
        }
    }
    match state.email {
        Some(email) => {
            let text = match &state.telegram {
                Some(handle) => save_trial(
                    email.as_str(),
                    Some(handle.as_str()),
                    &state.sub_id,
                    DEFAULT_ENV,
                    &state.at,
                ),
                None => save_trial(email.as_str(), None, &state.sub_id, DEFAULT_ENV, &state.at),
            };
            Conclusion {
                journal: Some(text),
                notice: Some(Notice { to: email, sub_id: state.sub_id }),
                response: TrialResponse::ok(MSG_ACTIVATED_MAILED, id),
                failed_connections: failed,
            }
        },
        None => Conclusion {
            journal: None,
            notice: None,
            response: TrialResponse::ok(MSG_ACTIVATED, id),
            failed_connections: failed,
        },
    }
}

} // verus!
