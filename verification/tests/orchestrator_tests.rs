use trial_service::ident::Id128;
use trial_service::index::TrialIndex;
use trial_service::journal::load_trials;
use trial_service::orchestrator::{
    count_failures, handle_trial, on_connections, on_subscription, on_subscription_with,
    plan_connections, protocol_set, Conclusion, Granted, Opening, Pending, Protocol, Provisioned,
    MSG_ACTIVATED, MSG_ACTIVATED_MAILED, MSG_DUPLICATE, MSG_INVALID, MSG_SUBSCRIPTION_FAILED,
};
use trial_service::request::{TrialRequest, TrialResponse, TrialSource};
use trial_service::timestamp::Timestamp;
use trial_service::upstream::UpstreamError;

const ONES: u128 = 0x11111111_1111_1111_1111_111111111111;
const ONES_TEXT: &str = "11111111-1111-1111-1111-111111111111";

fn at(secs: i64) -> Timestamp {
    Timestamp::new(secs, 0).unwrap()
}

fn by_email(email: &str) -> TrialRequest {
    TrialRequest { email: Some(email.to_string()), telegram: None, source: None, env: None }
}

fn by_source(source: TrialSource) -> TrialRequest {
    TrialRequest { email: None, telegram: None, source: Some(source), env: None }
}

fn admitted(begun: Opening) -> (Pending, trial_service::orchestrator::SubscriptionOrder) {
    match begun {
        Opening::Admitted { state, order } => (state, order),
        Opening::Refused(response) => panic!("refused: {:?}", response),
    }
}

fn refused(begun: Opening) -> TrialResponse {
    match begun {
        Opening::Refused(response) => response,
        Opening::Admitted { .. } => panic!("admitted"),
    }
}

fn connecting(next: Provisioned) -> (Granted, Vec<trial_service::orchestrator::ConnectionOrder>) {
    match next {
        Provisioned::Connect { state, orders } => (state, orders),
        Provisioned::Failed(response) => panic!("failed: {:?}", response),
    }
}

fn all_ok() -> Vec<Result<String, UpstreamError>> {
    vec![Ok("c1".to_string()), Ok("c2".to_string()), Ok("c3".to_string()), Ok("c4".to_string())]
}

fn run_to_end(
    req: TrialRequest,
    store: &mut TrialIndex,
    now: Timestamp,
    outcomes: &Vec<Result<String, UpstreamError>>,
) -> Conclusion {
    let (state, _) = admitted(handle_trial(req, store, now));
    let (state, _) = connecting(on_subscription(state, Ok(Id128::new(ONES))));
    on_connections(state, outcomes)
}

#[test]
fn messages() {
    assert_eq!(MSG_INVALID, "Trial request is not valid");
    assert_eq!(MSG_DUPLICATE, "Trial already requested");
    assert_eq!(MSG_SUBSCRIPTION_FAILED, "Failed to create subscription");
    assert_eq!(MSG_ACTIVATED_MAILED, "Trial activated. Check your email.");
    assert_eq!(MSG_ACTIVATED, "Trial activated.");
}

#[test]
fn the_transports_in_their_order() {
    assert_eq!(
        protocol_set(),
        vec![
            Protocol::VlessTcpReality,
            Protocol::VlessGrpcReality,
            Protocol::VlessXhttpReality,
            Protocol::Hysteria2,
        ]
    );
    let names: Vec<String> = protocol_set().iter().map(|p| p.name()).collect();
    assert_eq!(names, vec!["VlessTcpReality", "VlessGrpcReality", "VlessXhttpReality", "Hysteria2"]);
}

#[test]
fn only_hysteria2_needs_a_token() {
    assert!(!Protocol::VlessTcpReality.needs_token());
    assert!(!Protocol::VlessGrpcReality.needs_token());
    assert!(!Protocol::VlessXhttpReality.needs_token());
    assert!(Protocol::Hysteria2.needs_token());
}

#[test]
fn happy_email_path() {
    let mut store = TrialIndex::new();
    let now = at(1_700_000_000);
    let (state, order) = admitted(handle_trial(by_email("a@b.com"), &mut store, now));
    assert_eq!(order.env, "dev");
    assert_eq!(order.days, 1);
    assert_eq!(order.referred_by, TrialSource::Site);
    assert_eq!(store.get("a@b.com"), Some(now));

    let (state, orders) = connecting(on_subscription(state, Ok(Id128::new(ONES))));
    assert_eq!(orders.len(), 4);

    let end = on_connections(state, &all_ok());
    assert_eq!(end.response.status, "ok");
    assert_eq!(end.response.message, "Trial activated. Check your email.");
    assert_eq!(end.response.sub_id, Some(ONES_TEXT.to_string()));
    assert_eq!(
        end.journal,
        Some(format!("2023-11-14T22:13:20+00:00,a@b.com,,{},dev\n", ONES_TEXT))
    );
    let notice = end.notice.unwrap();
    assert_eq!(notice.to, "a@b.com");
    assert_eq!(notice.sub_id, Id128::new(ONES));
    assert_eq!(end.failed_connections, 0);
}

#[test]
fn duplicate_email() {
    let mut store = TrialIndex::new();
    let first = run_to_end(by_email("a@b.com"), &mut store, at(10), &all_ok());
    assert!(first.journal.is_some());
    let second = refused(handle_trial(by_email("a@b.com"), &mut store, at(20)));
    assert_eq!(second.status, "error");
    assert_eq!(second.message, "Trial already requested");
    assert_eq!(second.sub_id, None);
    assert_eq!(store.get("a@b.com"), Some(at(10)));
}

#[test]
fn invalid_request_with_both() {
    let mut store = TrialIndex::new();
    let req = TrialRequest {
        email: Some("a@b.com".to_string()),
        telegram: None,
        source: Some(TrialSource::Site),
        env: None,
    };
    let response = refused(handle_trial(req, &mut store, at(10)));
    assert_eq!(response.status, "error");
    assert_eq!(response.message, "Trial request is not valid");
    assert_eq!(response.sub_id, None);
    assert!(!store.contains("a@b.com"));
}

#[test]
fn invalid_request_with_neither() {
    let mut store = TrialIndex::new();
    let req = TrialRequest { email: None, telegram: Some("tg".to_string()), source: None, env: None };
    let response = refused(handle_trial(req, &mut store, at(10)));
    assert_eq!(response.status, "error");
    assert_eq!(response.message, "Trial request is not valid");
    assert_eq!(response.sub_id, None);
}

#[test]
fn an_invalid_request_is_told_before_a_duplicate() {
    let mut store = TrialIndex::new();
    run_to_end(by_email("a@b.com"), &mut store, at(10), &all_ok());
    let req = TrialRequest {
        email: Some("a@b.com".to_string()),
        telegram: None,
        source: Some(TrialSource::Mobile),
        env: None,
    };
    assert_eq!(refused(handle_trial(req, &mut store, at(20))).message, "Trial request is not valid");
}

#[test]
fn source_only_path() {
    let mut store = TrialIndex::new();
    let (state, order) = admitted(handle_trial(by_source(TrialSource::Mobile), &mut store, at(10)));
    assert_eq!(order.referred_by, TrialSource::Mobile);
    assert_eq!(order.referred_by.label(), "trial-mobile");
    assert_eq!(order.env, "dev");
    let (state, _) = connecting(on_subscription(state, Ok(Id128::new(ONES))));
    let end = on_connections(state, &all_ok());
    assert_eq!(end.response.status, "ok");
    assert_eq!(end.response.message, "Trial activated.");
    assert_eq!(end.response.sub_id, Some(ONES_TEXT.to_string()));
    assert!(end.journal.is_none());
    assert!(end.notice.is_none());
}

#[test]
fn source_only_requests_are_never_duplicates() {
    let mut store = TrialIndex::new();
    for n in 0..3 {
        let begun = handle_trial(by_source(TrialSource::Site), &mut store, at(n));
        assert!(matches!(begun, Opening::Admitted { .. }));
    }
}

#[test]
fn the_requested_environment_goes_to_the_subscription_only() {
    let mut store = TrialIndex::new();
    let req = TrialRequest {
        email: Some("a@b.com".to_string()),
        telegram: Some("@tg".to_string()),
        source: None,
        env: Some("prod".to_string()),
    };
    let (state, order) = admitted(handle_trial(req, &mut store, at(1_700_000_000)));
    assert_eq!(order.env, "prod");
    let (state, orders) = connecting(on_subscription(state, Ok(Id128::new(ONES))));
    for order in orders.iter() {
        assert_eq!(order.env, "dev");
    }
    let end = on_connections(state, &all_ok());
    assert_eq!(
        end.journal,
        Some(format!("2023-11-14T22:13:20+00:00,a@b.com,@tg,{},dev\n", ONES_TEXT))
    );
}

#[test]
fn subscription_upstream_failure() {
    let mut store = TrialIndex::new();
    let (state, _) = admitted(handle_trial(by_email("c@d.com"), &mut store, at(10)));
    let failure = UpstreamError::Status { status: 500, body: "boom".to_string() };
    match on_subscription(state, Err(failure)) {
        Provisioned::Failed(response) => {
            assert_eq!(response.status, "error");
            assert_eq!(response.message, "Failed to create subscription");
            assert_eq!(response.sub_id, None);
        }
        Provisioned::Connect { .. } => panic!("connected"),
    }
    assert_eq!(store.get("c@d.com"), Some(at(10)));
    let retry = refused(handle_trial(by_email("c@d.com"), &mut store, at(20)));
    assert_eq!(retry.message, "Trial already requested");
}

#[test]
fn every_kind_of_subscription_failure_ends_the_request() {
    let failures = vec![
        UpstreamError::MissingHost,
        UpstreamError::MissingToken,
        UpstreamError::Transport,
        UpstreamError::EmptyBody { status: 200 },
        UpstreamError::Status { status: 404, body: String::new() },
        UpstreamError::Malformed,
    ];
    for failure in failures {
        let state = Pending { email: None, telegram: None, at: at(1) };
        let next = on_subscription_with(state, Err(failure), Id128::new(9));
        assert!(matches!(next, Provisioned::Failed(_)));
    }
}

#[test]
fn partial_connection_failure() {
    let mut store = TrialIndex::new();
    let outcomes = vec![
        Ok("c1".to_string()),
        Err(UpstreamError::Status { status: 500, body: "boom".to_string() }),
        Ok("c3".to_string()),
        Ok("c4".to_string()),
    ];
    let end = run_to_end(by_email("e@f.com"), &mut store, at(1_700_000_000), &outcomes);
    assert_eq!(end.response.status, "ok");
    assert_eq!(end.response.sub_id, Some(ONES_TEXT.to_string()));
    assert!(end.journal.is_some());
    assert_eq!(end.notice.unwrap().to, "e@f.com");
    assert_eq!(end.failed_connections, 1);
}

#[test]
fn the_trial_stands_even_if_every_connection_fails() {
    let mut store = TrialIndex::new();
    let outcomes = vec![
        Err(UpstreamError::Transport),
        Err(UpstreamError::EmptyBody { status: 200 }),
        Err(UpstreamError::Malformed),
        Err(UpstreamError::MissingHost),
    ];
    let end = run_to_end(by_email("e@f.com"), &mut store, at(10), &outcomes);
    assert_eq!(end.response.status, "ok");
    assert_eq!(end.response.message, "Trial activated. Check your email.");
    assert!(end.journal.is_some());
    assert!(end.notice.is_some());
    assert_eq!(end.failed_connections, 4);
}

#[test]
fn failures_are_counted() {
    assert_eq!(count_failures(&Vec::new()), 0);
    assert_eq!(count_failures(&all_ok()), 0);
    let mixed = vec![
        Err(UpstreamError::Transport),
        Ok("c".to_string()),
        Err(UpstreamError::Malformed),
    ];
    assert_eq!(count_failures(&mixed), 2);
}

#[test]
fn one_connection_order_for_each_transport() {
    let orders = plan_connections(Id128::new(5), Id128::new(9));
    assert_eq!(orders.len(), protocol_set().len());
    for (order, proto) in orders.iter().zip(protocol_set()) {
        assert_eq!(order.proto, proto);
        assert_eq!(order.sub_id, Id128::new(5));
        assert_eq!(order.env, "dev");
    }
}

#[test]
fn only_the_hysteria2_order_carries_the_token() {
    let orders = plan_connections(Id128::new(5), Id128::new(9));
    let with_token: Vec<&trial_service::orchestrator::ConnectionOrder> =
        orders.iter().filter(|o| o.token.is_some()).collect();
    assert_eq!(with_token.len(), 1);
    assert_eq!(with_token[0].proto, Protocol::Hysteria2);
    assert_eq!(with_token[0].token, Some(Id128::new(9)));
    assert_eq!(orders[0].token, None);
    assert_eq!(orders[1].token, None);
    assert_eq!(orders[2].token, None);
}

#[test]
fn the_given_token_is_the_one_that_is_used() {
    let state = Pending { email: None, telegram: None, at: at(1) };
    let (granted, orders) = connecting(on_subscription_with(state, Ok(Id128::new(5)), Id128::new(77)));
    assert_eq!(granted.sub_id, Id128::new(5));
    assert_eq!(orders[3].token, Some(Id128::new(77)));
}

#[test]
fn a_fresh_token_is_drawn_for_each_trial() {
    let first = connecting(on_subscription(
        Pending { email: None, telegram: None, at: at(1) },
        Ok(Id128::new(5)),
    ))
    .1;
    let second = connecting(on_subscription(
        Pending { email: None, telegram: None, at: at(1) },
        Ok(Id128::new(5)),
    ))
    .1;
    let t1 = first[3].token.unwrap();
    let t2 = second[3].token.unwrap();
    assert_ne!(t1, t2);
    assert_eq!((t1.bits >> 76) & 0xf, 4);
    assert_eq!((t2.bits >> 76) & 0xf, 4);
    assert_eq!(first[0].token, None);
}

#[test]
fn the_state_carries_the_request_through() {
    let mut store = TrialIndex::new();
    let req = TrialRequest {
        email: Some("a@b.com".to_string()),
        telegram: Some("@tg".to_string()),
        source: None,
        env: None,
    };
    let (state, _) = admitted(handle_trial(req, &mut store, at(42)));
    assert_eq!(state.email, Some("a@b.com".to_string()));
    assert_eq!(state.telegram, Some("@tg".to_string()));
    assert_eq!(state.at, at(42));
    let (granted, _) = connecting(on_subscription(state, Ok(Id128::new(ONES))));
    assert_eq!(granted.email, Some("a@b.com".to_string()));
    assert_eq!(granted.telegram, Some("@tg".to_string()));
    assert_eq!(granted.at, at(42));
    assert_eq!(granted.sub_id, Id128::new(ONES));
}

#[test]
fn two_requests_for_one_address_give_one_trial() {
    let mut store = TrialIndex::new();
    let first = handle_trial(by_email("a@b.com"), &mut store, at(1));
    let second = handle_trial(by_email("a@b.com"), &mut store, at(2));
    let granted = [&first, &second].iter().filter(|o| matches!(o, Opening::Admitted { .. })).count();
    assert_eq!(granted, 1);
    assert_eq!(refused(second).message, "Trial already requested");
}

#[test]
fn the_journal_of_granted_trials_rebuilds_the_index() {
    let mut store = TrialIndex::new();
    let mut journal: Vec<String> = Vec::new();
    let emails = ["a@b.com", "c@d.com", "a@b.com", "e@f.com"];
    for (n, email) in emails.iter().enumerate() {
        let now = at(1_700_000_000 + n as i64);
        if let Opening::Admitted { state, .. } = handle_trial(by_email(email), &mut store, now) {
            let (state, _) = connecting(on_subscription(state, Ok(Id128::new(n as u128))));
            let end = on_connections(state, &all_ok());
            journal.push(end.journal.unwrap().strip_suffix('\n').unwrap().to_string());
        }
    }
    assert_eq!(journal.len(), 3);
    let rebuilt = load_trials(&journal);
    for email in ["a@b.com", "c@d.com", "e@f.com"] {
        assert_eq!(rebuilt.get(email), store.get(email));
        assert!(rebuilt.contains(email));
    }
    assert!(!rebuilt.contains("g@h.com"));
}

#[test]
fn a_handle_with_a_comma_does_not_move_the_identifier() {
    let mut store = TrialIndex::new();
    let req = TrialRequest {
        email: Some("a@b.com".to_string()),
        telegram: Some("a,b".to_string()),
        source: None,
        env: None,
    };
    let (state, _) = admitted(handle_trial(req, &mut store, at(1_700_000_000)));
    let (state, _) = connecting(on_subscription(state, Ok(Id128::new(ONES))));
    let end = on_connections(state, &all_ok());
    assert_eq!(end.response.status, "ok");
    assert_eq!(end.response.sub_id, Some(ONES_TEXT.to_string()));
    let text = end.journal.unwrap();
    assert_eq!(text, format!("2023-11-14T22:13:20+00:00,a@b.com,a b,{},dev\n", ONES_TEXT));
    let line = text.strip_suffix('\n').unwrap();
    let parts: Vec<&str> = line.split(',').collect();
    assert_eq!(parts.len(), 5);
    assert_eq!(parts[1], "a@b.com");
    assert_eq!(Some(parts[3].to_string()), end.response.sub_id);
}

#[test]
fn a_handle_with_a_line_feed_stays_on_one_line() {
    let mut store = TrialIndex::new();
    let req = TrialRequest {
        email: Some("a@b.com".to_string()),
        telegram: Some("a\nb,c\n".to_string()),
        source: None,
        env: None,
    };
    let (state, _) = admitted(handle_trial(req, &mut store, at(1_700_000_000)));
    let (state, _) = connecting(on_subscription(state, Ok(Id128::new(ONES))));
    let text = on_connections(state, &all_ok()).journal.unwrap();
    assert_eq!(text, format!("2023-11-14T22:13:20+00:00,a@b.com,a b c ,{},dev\n", ONES_TEXT));
    assert_eq!(text.matches('\n').count(), 1);
    let rebuilt = load_trials(&vec![text.strip_suffix('\n').unwrap().to_string()]);
    assert_eq!(rebuilt.get("a@b.com"), Some(at(1_700_000_000)));
}

#[test]
fn a_request_without_an_address_needs_no_instant() {
    let state = Granted {
        email: None,
        telegram: None,
        at: Timestamp { secs: i64::MAX, nanos: u32::MAX },
        sub_id: Id128::new(ONES),
    };
    let end = on_connections(state, &all_ok());
    assert_eq!(end.response.status, "ok");
    assert_eq!(end.response.message, "Trial activated.");
    assert!(end.journal.is_none());
    assert!(end.notice.is_none());
}

#[test]
fn a_carriage_return_in_the_handle_goes_to_the_journal_as_it_is() {
    let state = Granted {
        email: Some("a@b.com".to_string()),
        telegram: Some("a\rb".to_string()),
        at: at(1_700_000_000),
        sub_id: Id128::new(ONES),
    };
    let text = on_connections(state, &all_ok()).journal.unwrap();
    assert_eq!(text, format!("2023-11-14T22:13:20+00:00,a@b.com,a\rb,{},dev\n", ONES_TEXT));
}
