use mcsmp_rs::auth::Secret;
use mcsmp_rs::config::connection_error;
use mcsmp_rs::pending::PendingRequests;
use mcsmp_rs::{Feature, ModelError, RemoteError, RequestId};
use mcsmp_rs::{
    Auth, Difficulty, Duration, Error, GameMode, IpAddress, ProtocolVersion, ReconnectPolicy,
};

#[test]
fn mod_parses_semver_with_suffix() {
    assert_eq!(
        "3.1.0-snapshot.1".parse::<ProtocolVersion>().unwrap(),
        ProtocolVersion::V3_1_0()
    );
    assert!("3.1".parse::<ProtocolVersion>().is_err());
}

#[test]
fn discovery_parses_semver_with_suffix() {
    assert_eq!(
        "3.1.0-snapshot.1".parse::<ProtocolVersion>().unwrap(),
        ProtocolVersion::V3_1_0()
    );
    assert!("3.1".parse::<ProtocolVersion>().is_err());
}

#[test]
fn reconnect_validates_and_caps_backoff() {
    let policy = ReconnectPolicy::exponential(
        Duration::from_millis(10),
        Duration::from_millis(40),
        Some(3),
    );
    assert!(policy.validate().is_ok());
    assert_eq!(policy.delay_for_attempt(1), Some(Duration::from_millis(10)));
    assert_eq!(policy.delay_for_attempt(2), Some(Duration::from_millis(20)));
    assert_eq!(policy.delay_for_attempt(3), Some(Duration::from_millis(40)));
    assert_eq!(policy.delay_for_attempt(4), None);
}

#[test]
fn version_parsing_accepts_whitespace_and_build_suffix() {
    assert_eq!(
        ProtocolVersion::parse("  2.4.0+build.7 "),
        Some(ProtocolVersion::new(2, 4, 0))
    );
    assert_eq!(ProtocolVersion::parse("1.0.0"), Some(ProtocolVersion::V1_0_0()));
    assert_eq!(ProtocolVersion::parse("1..0"), None);
    assert_eq!(ProtocolVersion::parse("1.0.0.0"), None);
    assert_eq!(ProtocolVersion::parse("a.b.c"), None);
    assert_eq!(ProtocolVersion::parse("18446744073709551616.0.0"), None);
}

#[test]
fn version_text_reads_back() {
    let v = ProtocolVersion::new(3, 10, 125);
    assert_eq!(v.to_text(), "3.10.125");
    assert_eq!(ProtocolVersion::parse(&v.to_text()), Some(v));
}

#[test]
fn version_ordering_is_component_wise() {
    let a = ProtocolVersion::new(2, 0, 0);
    let b = ProtocolVersion::new(1, 9, 9);
    assert!(a.is_at_least(b));
    assert!(!b.is_at_least(a));
    assert!(a.is_at_least(a));
    assert!(ProtocolVersion::new(1, 2, 3).is_at_least(ProtocolVersion::new(1, 2, 2)));
}

#[test]
fn fixed_policy_repeats_its_delay_until_the_limit() {
    let policy = ReconnectPolicy::fixed(Duration::from_secs(2), Some(2));
    assert!(policy.validate().is_ok());
    assert!(policy.is_enabled());
    assert_eq!(policy.delay_for_attempt(1), Some(Duration::from_secs(2)));
    assert_eq!(policy.delay_for_attempt(2), Some(Duration::from_secs(2)));
    assert_eq!(policy.delay_for_attempt(3), None);
}

#[test]
fn unlimited_backoff_saturates_at_the_maximum() {
    let policy = ReconnectPolicy::exponential(Duration::from_secs(1), Duration::from_secs(30), None);
    assert_eq!(policy.delay_for_attempt(5), Some(Duration::from_secs(16)));
    assert_eq!(policy.delay_for_attempt(6), Some(Duration::from_secs(30)));
    assert_eq!(policy.delay_for_attempt(usize::MAX), Some(Duration::from_secs(30)));
}

#[test]
fn never_policy_offers_no_delay() {
    let policy = ReconnectPolicy::Never;
    assert!(!policy.is_enabled());
    assert!(policy.validate().is_ok());
    assert_eq!(policy.delay_for_attempt(1), None);
}

#[test]
fn policy_validation_reports_each_rule() {
    assert_eq!(
        ReconnectPolicy::fixed(Duration::zero(), Some(1)).validate(),
        Err("reconnect delay must be greater than zero".to_owned())
    );
    assert_eq!(
        ReconnectPolicy::fixed(Duration::from_secs(1), Some(0)).validate(),
        Err("reconnect max_attempts must be greater than zero when set".to_owned())
    );
    assert_eq!(
        ReconnectPolicy::exponential(Duration::zero(), Duration::from_secs(1), None).validate(),
        Err("reconnect initial_delay must be greater than zero".to_owned())
    );
    assert_eq!(
        ReconnectPolicy::exponential(Duration::from_secs(1), Duration::zero(), None).validate(),
        Err("reconnect max_delay must be greater than zero".to_owned())
    );
    assert_eq!(
        ReconnectPolicy::exponential(Duration::from_secs(2), Duration::from_secs(1), None)
            .validate(),
        Err("reconnect initial_delay must not exceed max_delay".to_owned())
    );
    assert_eq!(
        ReconnectPolicy::exponential(Duration::from_secs(1), Duration::from_secs(2), Some(0))
            .validate(),
        Err("reconnect max_attempts must be greater than zero when set".to_owned())
    );
}

#[test]
fn durations_keep_whole_and_fractional_seconds() {
    let d = Duration::new(3, 250_000_000);
    assert_eq!(d.as_secs(), 3);
    assert_eq!(d.subsec_nanos(), 250_000_000);
    assert_eq!(d.as_nanos(), 3_250_000_000);
    assert_eq!(Duration::from_millis(1500), Duration::new(1, 500_000_000));
    assert!(Duration::zero().is_zero());
}

#[test]
fn secrets_reject_empty_text_and_line_breaks() {
    match Secret::new("") {
        Err(Error::Configuration(m)) => assert_eq!(m, "management secret must not be empty"),
        _ => panic!("an empty secret must be refused"),
    }
    match Auth::bearer("abc\ndef") {
        Err(Error::Configuration(m)) => assert_eq!(
            m,
            "management secret must not contain carriage returns or line feeds"
        ),
        _ => panic!("a secret with a line feed must be refused"),
    }
    let secret = Secret::new("hunter2").unwrap();
    assert_eq!(secret.expose(), "hunter2");
    assert_eq!(secret.redacted(), "Secret([REDACTED])");
    assert!(matches!(Auth::none(), Auth::Unauthenticated));
}

#[test]
fn ipv4_addresses_parse_and_print_in_dotted_form() {
    let a = IpAddress::parse("203.0.113.8").unwrap();
    assert_eq!(a, IpAddress::V4([203, 0, 113, 8]));
    assert_eq!(a.to_text(), "203.0.113.8");
    assert_eq!("0.0.0.0".parse::<IpAddress>(), Ok(IpAddress::V4([0, 0, 0, 0])));
    assert!(IpAddress::parse("256.1.1.1").is_none());
    assert!(IpAddress::parse("01.1.1.1").is_none());
    assert!(IpAddress::parse("1.1.1").is_none());
    assert!(IpAddress::parse("1.1.1.1.").is_none());
    assert!(IpAddress::parse("").is_none());
}

#[test]
fn ipv6_addresses_parse_all_written_forms() {
    assert_eq!(IpAddress::parse("::"), Some(IpAddress::V6([0; 8])));
    assert_eq!(IpAddress::parse("::1"), Some(IpAddress::V6([0, 0, 0, 0, 0, 0, 0, 1])));
    assert_eq!(
        IpAddress::parse("2001:DB8::8:800:200C:417A"),
        Some(IpAddress::V6([0x2001, 0xdb8, 0, 0, 0x8, 0x800, 0x200c, 0x417a]))
    );
    assert_eq!(
        IpAddress::parse("1:2:3:4:5:6:7:8"),
        Some(IpAddress::V6([1, 2, 3, 4, 5, 6, 7, 8]))
    );
    assert_eq!(
        IpAddress::parse("::ffff:192.0.2.1"),
        Some(IpAddress::V6([0, 0, 0, 0, 0, 0xffff, 0xc000, 0x0201]))
    );
    assert_eq!(
        IpAddress::parse("1:2:3:4:5:6:1.2.3.4"),
        Some(IpAddress::V6([1, 2, 3, 4, 5, 6, 0x0102, 0x0304]))
    );
    assert!(IpAddress::parse("1::2::3").is_none());
    assert!(IpAddress::parse(":::").is_none());
    assert!(IpAddress::parse("1:2:3:4:5:6:7:8:9").is_none());
    assert_eq!(
        IpAddress::parse("1:2:3:4:5:6:7::"),
        Some(IpAddress::V6([1, 2, 3, 4, 5, 6, 7, 0]))
    );
    assert!(IpAddress::parse("12345::").is_none());
    assert!(IpAddress::parse("1.2.3.4::").is_none());
    assert!(IpAddress::parse("1:2:3:4:5:6:7:1.2.3.4").is_none());
}

#[test]
fn ipv6_addresses_print_in_canonical_form() {
    assert_eq!(IpAddress::V6([0; 8]).to_text(), "::");
    assert_eq!(IpAddress::V6([0, 0, 0, 0, 0, 0, 0, 1]).to_text(), "::1");
    assert_eq!(
        IpAddress::V6([0x2001, 0xdb8, 0, 0, 0x8, 0x800, 0x200c, 0x417a]).to_text(),
        "2001:db8::8:800:200c:417a"
    );
    assert_eq!(IpAddress::V6([1, 0, 0, 2, 0, 0, 0, 3]).to_text(), "1:0:0:2::3");
    assert_eq!(IpAddress::V6([1, 0, 0, 2, 0, 0, 3, 4]).to_text(), "1::2:0:0:3:4");
    assert_eq!(IpAddress::V6([1, 0, 2, 3, 4, 5, 6, 7]).to_text(), "1:0:2:3:4:5:6:7");
    assert_eq!(
        IpAddress::V6([0, 0, 0, 0, 0, 0xffff, 0xc000, 0x0201]).to_text(),
        "::ffff:192.0.2.1"
    );
    let text = IpAddress::V6([0xfe80, 0, 0, 0, 0x1ff, 0xfe23, 0x4567, 0x890a]).to_text();
    assert_eq!(text, "fe80::1ff:fe23:4567:890a");
    assert_eq!(
        IpAddress::parse(&text),
        Some(IpAddress::V6([0xfe80, 0, 0, 0, 0x1ff, 0xfe23, 0x4567, 0x890a]))
    );
}

#[test]
fn settings_use_lowercase_wire_names() {
    assert_eq!(Difficulty::Peaceful.name(), "peaceful");
    assert_eq!(Difficulty::from_name("hard"), Some(Difficulty::Hard));
    assert_eq!(Difficulty::from_name("Hard"), None);
    assert_eq!(GameMode::Spectator.name(), "spectator");
    assert_eq!(GameMode::from_name("adventure"), Some(GameMode::Adventure));
    assert_eq!(GameMode::from_name("hardcore"), None);
}

#[test]
fn errors_describe_themselves() {
    assert_eq!(
        Error::Configuration("x".into()).message(),
        "invalid client configuration: x"
    );
    assert_eq!(Error::Closed.message(), "websocket connection is closed");
    assert_eq!(
        Error::Timeout { id: RequestId::new(12), method: "m".into() }.message(),
        "JSON-RPC request 12 for method `m` timed out"
    );
    assert_eq!(
        Error::AuthenticationRejected { status: 401 }.message(),
        "management endpoint rejected authentication with HTTP 401"
    );
    assert_eq!(
        Error::UnsupportedFeature(Feature::TypedGameruleValue).message(),
        "server does not support MCSMP feature TypedGameruleValue"
    );
    assert_eq!(
        Error::Remote(RemoteError { code: -32601, message: "not found".into(), data: None }).message(),
        "JSON-RPC error -32601: not found"
    );
    assert_eq!(ModelError::BlankField { field: "reason" }.message(), "reason must not be blank");
    assert_eq!(
        ModelError::InvalidOperatorPermissionLevel { value: -1 }.message(),
        "operator permission level must be between 0 and 4, got -1"
    );
    assert_eq!(
        ModelError::GameRuleTypeMismatch { expected: "integer", actual: "boolean" }.message(),
        "gamerule value type mismatch: expected integer, got boolean"
    );
}

#[test]
fn connection_failures_distinguish_rejected_credentials() {
    assert_eq!(
        connection_error(Some(401), "HTTP error: 401".into()),
        Error::AuthenticationRejected { status: 401 }
    );
    assert_eq!(
        connection_error(Some(403), "HTTP error: 403".into()),
        Error::Transport("HTTP error: 403".into())
    );
    assert_eq!(connection_error(None, "refused".into()), Error::Transport("refused".into()));
}

#[test]
fn request_identifiers_are_unique_and_never_zero() {
    let mut pending = PendingRequests::new();
    let a = pending.register();
    let b = pending.register();
    assert_eq!((a.get(), b.get()), (1, 2));
    assert!(pending.contains(1) && pending.contains(2));
    assert!(pending.remove(1));
    assert!(!pending.remove(1));
    assert_eq!(pending.len(), 1);
    let rest = pending.take_all();
    assert_eq!(rest, vec![b]);
    assert_eq!(pending.len(), 0);
    assert_eq!(pending.register().get(), 3);
}

#[test]
fn every_address_reads_back_from_its_text() {
    let samples = [
        IpAddress::V4([127, 0, 0, 1]),
        IpAddress::V4([255, 255, 255, 255]),
        IpAddress::V6([0, 0, 0, 0, 0, 0, 0, 0]),
        IpAddress::V6([0, 0, 0, 0, 0, 0xffff, 0x7f00, 1]),
        IpAddress::V6([0, 0, 0, 0, 0, 0, 0xc000, 0x0201]),
        IpAddress::V6([1, 0, 1, 0, 1, 0, 1, 0]),
        IpAddress::V6([0xffff; 8]),
        IpAddress::V6([0, 0, 1, 0, 0, 0, 1, 0]),
    ];
    for a in samples {
        assert_eq!(IpAddress::parse(&a.to_text()), Some(a));
    }
    assert_eq!(IpAddress::V6([0, 0, 1, 0, 0, 0, 1, 0]).to_text(), "0:0:1::1:0");
    assert_eq!(IpAddress::V6([0, 0, 0, 0, 0, 0, 0xc000, 0x0201]).to_text(), "::c000:201");
}

#[test]
fn validates_and_caps_backoff() {
    let policy = ReconnectPolicy::exponential(
        Duration::from_millis(10),
        Duration::from_millis(40),
        Some(3),
    );
    assert!(policy.validate().is_ok());
    assert_eq!(policy.delay_for_attempt(1), Some(Duration::from_millis(10)));
    assert_eq!(policy.delay_for_attempt(2), Some(Duration::from_millis(20)));
    assert_eq!(policy.delay_for_attempt(3), Some(Duration::from_millis(40)));
    assert_eq!(policy.delay_for_attempt(4), None);
}
