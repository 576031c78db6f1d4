use mcsmp_rs::session::{
    AfterEnd, Ending, Frame, FrameAction, ReconnectAction, ReconnectEvent,
};
use mcsmp_rs::{
    Capabilities, CompatibilityMode, ConnectionState, Duration, Error, Event, JsonNumber,
    JsonValue, Reconnector, ReconnectPolicy, Session,
};

fn text(s: &str) -> JsonValue {
    JsonValue::String(s.to_owned())
}

fn object(members: Vec<(&str, JsonValue)>) -> JsonValue {
    JsonValue::Object(members.into_iter().map(|(k, v)| (k.to_owned(), v)).collect())
}

fn response(id: u64, result: &str) -> String {
    format!("{{\"jsonrpc\":\"2.0\",\"id\":{id},\"result\":{result}}}")
}

fn notification(method: &str) -> String {
    format!("{{\"jsonrpc\":\"2.0\",\"method\":\"{method}\"}}")
}

fn connected(policy: ReconnectPolicy) -> (Session, u64) {
    let mut session = Session::new(CompatibilityMode::Compatible, policy);
    let generation = session.start_session().unwrap();
    (session, generation)
}

fn failed_ids(ending: &Ending) -> Vec<u64> {
    match ending {
        Ending::Ended { failed, .. } => {
            let mut ids: Vec<u64> = failed.iter().map(|id| id.get()).collect();
            ids.sort();
            ids
        }
        Ending::Ignored => panic!("the end must count"),
    }
}

#[test]
fn calls_get_fresh_identifiers_and_request_documents() {
    let (mut session, _) = connected(ReconnectPolicy::Never);
    let (first, doc) = session.begin_call("minecraft:server/status", None).unwrap();
    let (second, _) = session.begin_call("minecraft:server/status", None).unwrap();
    assert_eq!(first.get(), 1);
    assert_eq!(second.get(), 2);
    assert_eq!(session.pending_len(), 2);
    assert_eq!(
        doc,
        object(vec![
            ("jsonrpc", text("2.0")),
            ("id", JsonValue::Number(JsonNumber::PosInt(1))),
            ("method", text("minecraft:server/status")),
        ])
    );
    match session.begin_call("", None) {
        Err(Error::Configuration(m)) => assert_eq!(m, "JSON-RPC method must not be empty"),
        other => panic!("unexpected {other:?}"),
    }
    assert_eq!(session.pending_len(), 2);
}

#[test]
fn a_new_session_has_no_queue_until_started() {
    let mut session = Session::new(CompatibilityMode::Compatible, ReconnectPolicy::Never);
    assert!(matches!(session.begin_call("x", None), Err(Error::Closed)));
    assert_eq!(session.pending_len(), 0);
}

#[test]
fn responses_reach_their_call_once() {
    let (mut session, generation) = connected(ReconnectPolicy::Never);
    let (id, _) = session.begin_call("minecraft:server/stop", None).unwrap();
    match session.on_frame(generation, Frame::Text(response(id.get(), "true"))) {
        FrameAction::Deliver { id: got, result } => {
            assert_eq!(got, id);
            assert_eq!(result.unwrap(), JsonValue::Bool(true));
        }
        other => panic!("unexpected {other:?}"),
    }
    assert_eq!(session.pending_len(), 0);
    assert!(matches!(
        session.on_frame(generation, Frame::Text(response(id.get(), "true"))),
        FrameAction::Continue
    ));
}

#[test]
fn a_timed_out_call_ignores_its_late_response() {
    let (mut session, generation) = connected(ReconnectPolicy::Never);
    let (id, _) = session.begin_call("minecraft:server/save", None).unwrap();
    match session.call_timed_out(id, "minecraft:server/save") {
        Error::Timeout { id: t, method } => {
            assert_eq!(t, id);
            assert_eq!(method, "minecraft:server/save");
        }
        other => panic!("unexpected {other:?}"),
    }
    assert!(matches!(
        session.on_frame(generation, Frame::Text(response(id.get(), "null"))),
        FrameAction::Continue
    ));
    assert_eq!(session.state(), ConnectionState::Connected);
}

#[test]
fn reconnect_fails_in_flight_calls_and_never_replays_them() {
    let policy = ReconnectPolicy::fixed(Duration::from_millis(5), Some(3));
    let (mut session, generation) = connected(policy);
    let (a, _) = session.begin_call("minecraft:bans/add", None).unwrap();
    let (b, _) = session.begin_call("minecraft:players/kick", None).unwrap();
    let ending = session.on_frame(generation, Frame::End);
    let ending = match ending {
        FrameAction::Stop(e) => e,
        other => panic!("unexpected {other:?}"),
    };
    assert_eq!(failed_ids(&ending), vec![a.get(), b.get()]);
    match &ending {
        Ending::Ended { error, then, .. } => {
            assert_eq!(*error, Error::Closed);
            assert_eq!(*then, AfterEnd::Reconnect);
        }
        Ending::Ignored => unreachable!(),
    }
    assert_eq!(session.state(), ConnectionState::Reconnecting);
    assert_eq!(session.pending_len(), 0);
    assert!(matches!(session.begin_call("x", None), Err(Error::Reconnecting)));

    let mut supervisor = Reconnector::new();
    assert_eq!(
        supervisor.step(&mut session, ReconnectEvent::Begin),
        ReconnectAction::Wait(Duration::from_millis(5))
    );
    assert_eq!(supervisor.step(&mut session, ReconnectEvent::Waited), ReconnectAction::Open);
    let next = supervisor.step(&mut session, ReconnectEvent::Opened);
    assert_eq!(next, ReconnectAction::Discover(generation + 1));
    assert_eq!(session.state(), ConnectionState::Connected);
    assert!(session.capabilities().is_none());
    assert_eq!(session.pending_len(), 0);
    assert_eq!(
        supervisor.step(&mut session, ReconnectEvent::Discovered(true)),
        ReconnectAction::Stop
    );
    let (c, _) = session.begin_call("minecraft:bans", None).unwrap();
    assert_eq!(c.get(), 3);
}

#[test]
fn an_old_session_cannot_end_the_new_one() {
    let policy = ReconnectPolicy::fixed(Duration::from_millis(5), None);
    let (mut session, first) = connected(policy);
    let second = session.start_session().unwrap();
    assert_ne!(first, second);
    let (_, _) = session.begin_call("x", None).unwrap();
    assert!(matches!(
        session.session_ended(first, Error::Transport("gone".into()), true),
        Ending::Ignored
    ));
    assert_eq!(session.state(), ConnectionState::Connected);
    assert_eq!(session.pending_len(), 1);
}

#[test]
fn failures_without_reconnect_close_or_fail_the_client() {
    let (mut session, generation) = connected(ReconnectPolicy::Never);
    let ending = session.on_frame(generation, Frame::Binary);
    match ending {
        FrameAction::Stop(Ending::Ended { error, then, .. }) => {
            assert_eq!(
                error,
                Error::Protocol("binary WebSocket frames are not valid MCSMP JSON-RPC text".into())
            );
            assert_eq!(then, AfterEnd::CloseEvents);
        }
        other => panic!("unexpected {other:?}"),
    }
    assert_eq!(session.state(), ConnectionState::Failed);

    let (mut closed, g) = connected(ReconnectPolicy::Never);
    assert!(matches!(closed.on_frame(g, Frame::Close), FrameAction::Stop(_)));
    assert_eq!(closed.state(), ConnectionState::Closed);
}

#[test]
fn shutdown_fails_calls_and_is_final() {
    let (mut session, generation) = connected(ReconnectPolicy::fixed(Duration::from_secs(1), None));
    let (id, _) = session.begin_call("x", None).unwrap();
    let plan = session.begin_shutdown();
    assert!(!plan.preserve_failed);
    assert_eq!(plan.failed, vec![id]);
    assert_eq!(session.state(), ConnectionState::Closing);
    assert!(matches!(session.begin_call("x", None), Err(Error::Closed)));
    assert!(matches!(
        session.session_ended(generation, Error::Closed, true),
        Ending::Ignored
    ));
    assert!(session.start_session().is_none());
    let mut supervisor = Reconnector::new();
    assert_eq!(supervisor.step(&mut session, ReconnectEvent::Begin), ReconnectAction::Stop);
    session.finish_shutdown(&plan);
    assert_eq!(session.state(), ConnectionState::Closed);
}

#[test]
fn shutdown_keeps_a_failed_state() {
    let (mut session, generation) = connected(ReconnectPolicy::Never);
    let _ = session.on_frame(generation, Frame::Broken("reset".into()));
    assert_eq!(session.state(), ConnectionState::Failed);
    let plan = session.begin_shutdown();
    assert!(plan.preserve_failed);
    session.finish_shutdown(&plan);
    assert_eq!(session.state(), ConnectionState::Failed);
}

#[test]
fn reconnect_gives_up_after_the_attempt_limit() {
    let policy = ReconnectPolicy::fixed(Duration::from_millis(1), Some(2));
    let (mut session, generation) = connected(policy);
    let _ = session.session_ended(generation, Error::Transport("x".into()), true);
    let mut supervisor = Reconnector::new();
    assert!(matches!(supervisor.step(&mut session, ReconnectEvent::Begin), ReconnectAction::Wait(_)));
    assert!(matches!(supervisor.step(&mut session, ReconnectEvent::OpenFailed), ReconnectAction::Wait(_)));
    assert_eq!(supervisor.current_attempt(), 2);
    assert_eq!(supervisor.step(&mut session, ReconnectEvent::OpenFailed), ReconnectAction::GiveUp);
    assert_eq!(session.state(), ConnectionState::Failed);
}

#[test]
fn pings_are_answered_only_by_the_current_session() {
    let (mut session, generation) = connected(ReconnectPolicy::Never);
    assert!(matches!(session.on_frame(generation, Frame::Ping), FrameAction::QueuePong));
    assert!(matches!(session.on_frame(generation, Frame::Pong), FrameAction::Continue));
    match session.pong_not_queued(generation) {
        Ending::Ended { error, .. } => {
            assert_eq!(error, Error::Transport("unable to queue WebSocket pong".into()))
        }
        Ending::Ignored => panic!("the end must count"),
    }
}

#[test]
fn notifications_are_normalized_and_typed() {
    let (mut session, generation) = connected(ReconnectPolicy::Never);
    match session.on_frame(generation, Frame::Text(notification("notification:server/started"))) {
        FrameAction::Publish { raw, event } => {
            assert_eq!(raw.method, "minecraft:notification/server/started");
            assert_eq!(event, Event::ServerStarted);
        }
        other => panic!("unexpected {other:?}"),
    }
    let mut strict = Session::new(CompatibilityMode::Strict, ReconnectPolicy::Never);
    let g = strict.start_session().unwrap();
    match strict.on_frame(g, Frame::Text(notification("notification:server/started"))) {
        FrameAction::Stop(Ending::Ended { error, .. }) => assert_eq!(
            error,
            Error::Protocol(
                "legacy notification prefix is not permitted in strict mode: `notification:server/started`"
                    .into()
            )
        ),
        other => panic!("unexpected {other:?}"),
    }
    assert_eq!(strict.state(), ConnectionState::Failed);
}

#[test]
fn strict_mode_checks_calls_against_discovery() {
    let mut session = Session::new(CompatibilityMode::Strict, ReconnectPolicy::Never);
    assert_eq!(session.ensure_method_allowed("minecraft:bans"), Err(Error::DiscoveryRequired));
    assert!(session.ensure_raw_call_allowed("rpc.discover").is_ok());
    let schema = JsonValue::Object(vec![(
        "methods".to_owned(),
        JsonValue::Array(vec![text("minecraft:bans")]),
    )]);
    session.replace_capabilities(Capabilities::from_schema(schema));
    assert!(session.ensure_method_allowed("minecraft:bans").is_ok());
    assert_eq!(
        session.ensure_method_allowed("minecraft:operators"),
        Err(Error::UnsupportedMethod { method: "minecraft:operators".into() })
    );
    let permissive = Session::new(CompatibilityMode::Permissive, ReconnectPolicy::Never);
    assert!(permissive.ensure_method_allowed("anything").is_ok());
}

#[test]
fn garbled_text_ends_the_session_with_a_protocol_error() {
    let (mut session, generation) = connected(ReconnectPolicy::Never);
    match session.on_frame(generation, Frame::Text("{".into())) {
        FrameAction::Stop(Ending::Ended { error, then, .. }) => {
            match error {
                Error::Protocol(m) => assert!(m.starts_with("invalid JSON received from peer: EOF")),
                other => panic!("unexpected {other:?}"),
            }
            assert_eq!(then, AfterEnd::CloseEvents);
        }
        other => panic!("unexpected {other:?}"),
    }
}

#[test]
fn a_failed_client_stays_failed() {
    let (mut session, generation) = connected(ReconnectPolicy::fixed(Duration::from_millis(5), None));
    match session.on_frame(generation, Frame::Binary) {
        FrameAction::Stop(Ending::Ended { then, .. }) => assert_eq!(then, AfterEnd::CloseEvents),
        other => panic!("unexpected {other:?}"),
    }
    assert_eq!(session.state(), ConnectionState::Failed);
    match session.writer_failed(generation, "broken pipe".into()) {
        Ending::Ended { then, .. } => assert_eq!(then, AfterEnd::Nothing),
        Ending::Ignored => {}
    }
    assert_eq!(session.state(), ConnectionState::Failed);
    match session.on_frame(generation, Frame::Close) {
        FrameAction::Stop(Ending::Ended { then, .. }) => assert_eq!(then, AfterEnd::Nothing),
        FrameAction::Stop(Ending::Ignored) => {}
        other => panic!("unexpected {other:?}"),
    }
    assert_eq!(session.state(), ConnectionState::Failed);
}

#[test]
fn a_second_shutdown_changes_nothing() {
    let (mut session, _) = connected(ReconnectPolicy::Never);
    let plan = session.begin_shutdown();
    session.finish_shutdown(&plan);
    assert_eq!(session.state(), ConnectionState::Closed);
    let again = session.begin_shutdown();
    assert!(again.failed.is_empty());
    session.finish_shutdown(&again);
    assert_eq!(session.state(), ConnectionState::Closed);
}
