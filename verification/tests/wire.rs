use mcsmp_rs::api::{decode_bool, decode_players, Operation, ServerSetting};
use mcsmp_rs::events::{decode_event, normalize_notification};
use mcsmp_rs::jsonrpc::{build_request, parse_inbound, Inbound};
use mcsmp_rs::{
    Auth, Capabilities, ClientBuilder, CompatibilityMode, Difficulty, Duration, Endpoint, Error,
    Event, Feature, GameRuleKind, GameRuleValue, IncomingIpBan, IpAddress, IpBan, JsonNumber,
    JsonValue, Message, ModelError, Operator, PlayerRef, ProtocolVersion, RawNotification,
    ReconnectPolicy, RequestId, ServerState, SystemMessage, TypedGameRule, UntypedGameRule,
    UserBan, Uuid,
};
use serde_json::Value;

fn from_serde(v: &Value) -> JsonValue {
    match v {
        Value::Null => JsonValue::Null,
        Value::Bool(b) => JsonValue::Bool(*b),
        Value::Number(n) => {
            if let Some(u) = n.as_u64() {
                JsonValue::Number(JsonNumber::PosInt(u))
            } else if let Some(i) = n.as_i64() {
                JsonValue::Number(JsonNumber::NegInt(i))
            } else {
                JsonValue::Number(JsonNumber::Float(n.as_f64().unwrap().to_bits()))
            }
        }
        Value::String(s) => JsonValue::String(s.clone()),
        Value::Array(items) => JsonValue::Array(items.iter().map(from_serde).collect()),
        Value::Object(map) => JsonValue::Object(
            map.iter()
                .map(|(k, v)| (k.clone(), from_serde(v)))
                .collect(),
        ),
    }
}

fn to_serde(v: &JsonValue) -> Value {
    match v {
        JsonValue::Null => Value::Null,
        JsonValue::Bool(b) => Value::Bool(*b),
        JsonValue::Number(JsonNumber::PosInt(u)) => Value::from(*u),
        JsonValue::Number(JsonNumber::NegInt(i)) => Value::from(*i),
        JsonValue::Number(JsonNumber::Float(bits)) => Value::from(f64::from_bits(*bits)),
        JsonValue::String(s) => Value::String(s.clone()),
        JsonValue::Array(items) => Value::Array(items.iter().map(to_serde).collect()),
        JsonValue::Object(members) => {
            let mut map = serde_json::Map::new();
            for (k, v) in members {
                map.insert(k.clone(), to_serde(v));
            }
            Value::Object(map)
        }
    }
}

fn json(text: &str) -> JsonValue {
    from_serde(&serde_json::from_str::<Value>(text).unwrap())
}

fn value(text: &str) -> Value {
    serde_json::from_str::<Value>(text).unwrap()
}


#[test]
fn validates_native_value_against_kind() {
    assert!(TypedGameRule::new("doDaylightCycle", GameRuleKind::Boolean, true.into()).is_ok());
    assert!(TypedGameRule::new("randomTickSpeed", GameRuleKind::Integer, true.into()).is_err());
}

#[test]
fn preserves_legacy_strings_and_parses_integers_explicitly() {
    let value = GameRuleValue::from_json(&json(r#""12""#)).unwrap();
    assert_eq!(value, GameRuleValue::LegacyString("12".into()));
    assert_eq!(value.parse_integer(), Some(12));
    assert_eq!(
        GameRuleValue::from_json(&json(r#""true""#))
            .unwrap()
            .parse_integer(),
        None
    );
}

#[test]
fn gamerule_models_serializes_update_with_scalar_not_enum_wrapper() {
    let boolean = UntypedGameRule::boolean("doDaylightCycle", false).unwrap();
    let integer = UntypedGameRule::integer("randomTickSpeed", 8).unwrap();
    let legacy = UntypedGameRule::legacy_string("legacyCounter", "12").unwrap();

    assert_eq!(
        to_serde(&boolean.to_json()),
        value(r#"{"key":"doDaylightCycle","value":false}"#)
    );
    assert_eq!(
        to_serde(&integer.to_json()),
        value(r#"{"key":"randomTickSpeed","value":8}"#)
    );
    assert_eq!(
        to_serde(&legacy.to_json()),
        value(r#"{"key":"legacyCounter","value":"12"}"#)
    );
}

#[test]
fn gamerule_models_rejects_mismatched_native_typed_value() {
    let malformed = json(r#"{"key":"randomTickSpeed","type":"integer","value":true}"#);
    assert!(TypedGameRule::from_json(&malformed).is_none());

    assert!(TypedGameRule::new(
        "doDaylightCycle",
        GameRuleKind::Boolean,
        GameRuleValue::Boolean(true),
    )
    .is_ok());
}

#[test]
fn gamerules_serializes_update_with_scalar_not_enum_wrapper() {
    let boolean = UntypedGameRule::boolean("doDaylightCycle", false).unwrap();
    let integer = UntypedGameRule::integer("randomTickSpeed", 8).unwrap();
    let legacy = UntypedGameRule::legacy_string("legacyCounter", "12").unwrap();

    assert_eq!(
        to_serde(&boolean.to_json()),
        value(r#"{"key":"doDaylightCycle","value":false}"#)
    );
    assert_eq!(
        to_serde(&integer.to_json()),
        value(r#"{"key":"randomTickSpeed","value":8}"#)
    );
    assert_eq!(
        to_serde(&legacy.to_json()),
        value(r#"{"key":"legacyCounter","value":"12"}"#)
    );
}

#[test]
fn gamerules_rejects_mismatched_native_typed_value() {
    let malformed = json(r#"{"key":"randomTickSpeed","type":"integer","value":true}"#);
    assert!(TypedGameRule::from_json(&malformed).is_none());

    assert!(TypedGameRule::new(
        "doDaylightCycle",
        GameRuleKind::Boolean,
        GameRuleValue::Boolean(true),
    )
    .is_ok());
}

#[test]
fn typed_gamerule_mismatch_names_both_kinds() {
    match TypedGameRule::new("randomTickSpeed", GameRuleKind::Integer, GameRuleValue::Boolean(true)) {
        Err(ModelError::GameRuleTypeMismatch { expected, actual }) => {
            assert_eq!(expected, "integer");
            assert_eq!(actual, "boolean");
        }
        _ => panic!("mismatch expected"),
    }
    assert!(TypedGameRule::new("legacy", GameRuleKind::Integer, GameRuleValue::legacy_string("12")).is_ok());
    assert_eq!(
        TypedGameRule::new(" ", GameRuleKind::Integer, GameRuleValue::Integer(1)).unwrap_err(),
        ModelError::BlankField { field: "key" }
    );
}

#[test]
fn typed_gamerule_json_reads_back() {
    let rule = TypedGameRule::new("randomTickSpeed", GameRuleKind::Integer, GameRuleValue::Integer(-3)).unwrap();
    let j = rule.to_json();
    assert_eq!(
        to_serde(&j),
        value(r#"{"key":"randomTickSpeed","type":"integer","value":-3}"#)
    );
    assert_eq!(TypedGameRule::from_json(&j), Some(rule));
}

#[test]
fn mod_accepts_array_and_map_discovery_shapes() {
    let capabilities = Capabilities::from_schema(json(
        r#"{
            "protocolVersion": "3.1.0",
            "methods": [{"name": "rpc.discover"}, {"name": "minecraft:server/status"}],
            "notifications": {
                "minecraft:notification/server/activity": {"params": {}},
                "minecraft:notification/world/upgrade_started": {}
            }
        }"#,
    ));
    assert!(capabilities.supports_method("rpc.discover"));
    assert!(capabilities.supports_notification("minecraft:notification/server/activity"));
    assert!(capabilities.supports_feature(Feature::TypedGameruleValue));
    assert!(capabilities.supports_feature(Feature::WorldUpgradeNotifications));
}

#[test]
fn discovery_accepts_array_and_map_discovery_shapes() {
    let capabilities = Capabilities::from_schema(json(
        r#"{
            "protocolVersion": "3.1.0",
            "methods": [{"name": "rpc.discover"}, {"name": "minecraft:server/status"}],
            "notifications": {
                "minecraft:notification/server/activity": {"params": {}},
                "minecraft:notification/world/upgrade_started": {}
            }
        }"#,
    ));

    assert!(capabilities.supports_method("rpc.discover"));
    assert!(capabilities.supports_notification("minecraft:notification/server/activity"));
    assert!(capabilities.supports_feature(Feature::TypedGameruleValue));
    assert!(capabilities.supports_feature(Feature::WorldUpgradeNotifications));
    assert_eq!(capabilities.protocol_version, Some(ProtocolVersion::V3_1_0()));
}

#[test]
fn discovery_without_version_implies_no_versioned_feature() {
    let capabilities = Capabilities::from_schema(json(r#"{"methods": ["x"]}"#));
    assert_eq!(capabilities.protocol_version, None);
    assert!(!capabilities.supports_feature(Feature::TypedGameruleValue));
    assert!(!capabilities.supports_method("rpc.discover"));
    match capabilities.require_feature(Feature::Authentication) {
        Err(Error::UnsupportedFeature(Feature::Authentication)) => {}
        other => panic!("unexpected {other:?}"),
    }
}

#[test]
fn event_normalizes_legacy_prefix_unless_strict() {
    let raw = RawNotification {
        method: "notification:players/joined".into(),
        params: Some(json(r#"{"player": {"name": "Alex"}}"#)),
    };
    let normalized = normalize_notification(raw.clone(), CompatibilityMode::Compatible).unwrap();
    assert_eq!(normalized.method, "minecraft:notification/players/joined");
    assert!(normalize_notification(raw, CompatibilityMode::Strict).is_err());
}

#[test]
fn normalize_normalizes_legacy_prefix_unless_strict() {
    let raw = RawNotification {
        method: "notification:players/joined".into(),
        params: Some(json(r#"{"player": {"name": "Alex"}}"#)),
    };
    let normalized = normalize_notification(raw.clone(), CompatibilityMode::Compatible).unwrap();
    assert_eq!(normalized.method, "minecraft:notification/players/joined");
    assert!(normalize_notification(raw, CompatibilityMode::Strict).is_err());
}

#[test]
fn strict_refusal_names_the_legacy_method() {
    let raw = RawNotification { method: "notification:server/saved".into(), params: None };
    assert_eq!(
        normalize_notification(raw, CompatibilityMode::Strict).unwrap_err(),
        "legacy notification prefix is not permitted in strict mode: `notification:server/saved`"
    );
    let other = RawNotification { method: "example:custom".into(), params: None };
    assert_eq!(
        normalize_notification(other.clone(), CompatibilityMode::Strict).unwrap(),
        other
    );
}

#[test]
fn event_malformed_known_payload_falls_back_to_unknown() {
    let event = decode_event(
        RawNotification {
            method: "minecraft:notification/players/joined".into(),
            params: Some(json(r#"{"player": 5}"#)),
        },
        None,
    );
    assert!(matches!(event, Event::Unknown(_)));
}

#[test]
fn decode_malformed_known_payload_falls_back_to_unknown() {
    let event = decode_event(
        RawNotification {
            method: "minecraft:notification/players/joined".into(),
            params: Some(json(r#"{"player": 5}"#)),
        },
        None,
    );
    assert!(matches!(event, Event::Unknown(_)));
}

#[test]
fn event_world_upgrade_requires_advertised_capability() {
    let raw = RawNotification {
        method: "minecraft:notification/world/upgrade_started".into(),
        params: None,
    };
    assert!(matches!(decode_event(raw.clone(), None), Event::Unknown(_)));
    let capabilities = Capabilities::from_schema(json(
        r#"{ "protocolVersion": "3.1.0", "notifications": ["minecraft:notification/world/upgrade_started"] }"#,
    ));
    assert!(matches!(
        decode_event(raw, Some(&capabilities)),
        Event::WorldUpgradeStarted
    ));
}

#[test]
fn decode_world_upgrade_requires_advertised_capability() {
    let raw = RawNotification {
        method: "minecraft:notification/world/upgrade_started".into(),
        params: None,
    };
    assert!(matches!(decode_event(raw.clone(), None), Event::Unknown(_)));
    let capabilities = Capabilities::from_schema(json(
        r#"{ "protocolVersion": "3.1.0", "notifications": ["minecraft:notification/world/upgrade_started"] }"#,
    ));
    assert!(matches!(
        decode_event(raw, Some(&capabilities)),
        Event::WorldUpgradeStarted
    ));
}

#[test]
fn typed_events_decode_their_payloads() {
    let joined = decode_event(
        RawNotification {
            method: "minecraft:notification/players/joined".into(),
            params: Some(json(r#"{"player": {"name": "Alex"}}"#)),
        },
        None,
    );
    match joined {
        Event::PlayerJoined { player } => assert_eq!(player.name(), Some("Alex")),
        other => panic!("unexpected {other:?}"),
    }
    let removed = decode_event(
        RawNotification {
            method: "minecraft:notification/ip_bans/removed".into(),
            params: Some(json(r#"{"player": "203.0.113.8"}"#)),
        },
        None,
    );
    match removed {
        Event::IpBanRemoved { ip } => assert_eq!(ip, "203.0.113.8"),
        other => panic!("unexpected {other:?}"),
    }
    let op = decode_event(
        RawNotification {
            method: "minecraft:notification/operators/added".into(),
            params: Some(json(r#"{"operator": {"player": {"name": "Steve"}, "permissionLevel": 4}}"#)),
        },
        None,
    );
    match op {
        Event::OperatorAdded { operator } => assert_eq!(operator.permission_level, Some(4)),
        other => panic!("unexpected {other:?}"),
    }
    assert!(matches!(
        decode_event(RawNotification { method: "minecraft:notification/server/saved".into(), params: None }, None),
        Event::ServerSaved
    ));
    let unknown = RawNotification { method: "example:thing".into(), params: Some(json("[1, 2]")) };
    assert_eq!(decode_event(unknown.clone(), None), Event::Unknown(unknown));
}

#[test]
fn world_upgrade_progress_must_be_a_unit_fraction() {
    let capabilities = Capabilities::from_schema(json(r#"{"protocolVersion": "3.1.0"}"#));
    assert!(capabilities.supports_feature(Feature::WorldUpgradeNotifications));
    let progress = |text: &str| {
        decode_event(
            RawNotification {
                method: "minecraft:notification/world/upgrade_progress".into(),
                params: Some(json(text)),
            },
            Some(&capabilities),
        )
    };
    match progress(r#"{"progress": 0.5}"#) {
        Event::WorldUpgradeProgress { progress_bits } => assert_eq!(f64::from_bits(progress_bits), 0.5),
        other => panic!("unexpected {other:?}"),
    }
    match progress(r#"{"progress": 1}"#) {
        Event::WorldUpgradeProgress { progress_bits } => assert_eq!(f64::from_bits(progress_bits), 1.0),
        other => panic!("unexpected {other:?}"),
    }
    assert!(matches!(progress(r#"{"progress": 1.5}"#), Event::Unknown(_)));
    assert!(matches!(progress(r#"{"progress": -0.25}"#), Event::Unknown(_)));
    assert!(matches!(progress(r#"{"progress": 2}"#), Event::Unknown(_)));
}

#[test]
fn serializes_request_without_params() {
    let doc = build_request(RequestId::new(7), "minecraft:server/status", None)
        .expect("request should serialize");
    assert_eq!(
        to_serde(&doc),
        value(r#"{"jsonrpc":"2.0", "id":7, "method":"minecraft:server/status"}"#)
    );
}

#[test]
fn request_documents_carry_params_and_refuse_empty_methods() {
    let doc = build_request(RequestId::new(3), "minecraft:server/save", Some(json(r#"{"flush": true}"#))).unwrap();
    assert_eq!(
        to_serde(&doc),
        value(r#"{"jsonrpc":"2.0", "id":3, "method":"minecraft:server/save", "params":{"flush":true}}"#)
    );
    match build_request(RequestId::new(3), "", None) {
        Err(Error::Configuration(m)) => assert_eq!(m, "JSON-RPC method must not be empty"),
        other => panic!("unexpected {other:?}"),
    }
}

#[test]
fn parses_remote_error_response() {
    let inbound = parse_inbound(
        r#"{"jsonrpc":"2.0","id":9,"error":{"code":-32601,"message":"not found","data":{"method":"x"}}}"#,
    )
    .expect("response should parse");

    match inbound {
        Inbound::Response { id, result: Err(Error::Remote(error)) } => {
            assert_eq!(id.get(), 9);
            assert_eq!(error.code, -32601);
            assert_eq!(error.message, "not found");
        }
        _ => panic!("unexpected inbound message"),
    }
}

#[test]
fn rejects_response_with_result_and_error() {
    let error = parse_inbound(
        r#"{"jsonrpc":"2.0","id":1,"result":{},"error":{"code":1,"message":"bad"}}"#,
    )
    .expect_err("ambiguous response must be rejected");
    assert!(matches!(error, Error::Protocol(_)));
}

#[test]
fn arbitrary_inbound_text_never_panics() {
    let seeds: &[&str] = &[
        "",
        "null",
        "[]",
        "{",
        r#"{"jsonrpc":"2.0"}"#,
        r#"{"jsonrpc":"2.0","id":0,"result":null}"#,
        r#"{"jsonrpc":"2.0","method":5}"#,
        r#"{"jsonrpc":"1.0","id":1,"result":{}}"#,
    ];
    for seed in seeds {
        let _ = parse_inbound(seed);
    }
    let mut state = 0x9e37_79b9_u32;
    for length in 0..=256 {
        let mut bytes = Vec::with_capacity(length);
        for _ in 0..length {
            state = state.wrapping_mul(1_664_525).wrapping_add(1_013_904_223);
            bytes.push((state >> 24) as u8);
        }
        let text = String::from_utf8_lossy(&bytes);
        let _ = parse_inbound(&text);
    }
}

#[test]
fn inbound_protocol_violations_have_exact_messages() {
    let message = |text: &str| match parse_inbound(text) {
        Err(Error::Protocol(m)) => m,
        other => panic!("unexpected {other:?}"),
    };
    assert_eq!(message("[]"), "inbound JSON-RPC message must be an object");
    assert_eq!(message(r#"{"id":1}"#), "missing string `jsonrpc` member");
    assert_eq!(
        message(r#"{"jsonrpc":"1.0","id":1,"result":{}}"#),
        "unsupported JSON-RPC version `1.0`; expected `2.0`"
    );
    assert_eq!(
        message(r#"{"jsonrpc":"2.0","id":0,"result":null}"#),
        "response `id` must be a non-zero unsigned integer"
    );
    assert_eq!(
        message(r#"{"jsonrpc":"2.0","id":1}"#),
        "JSON-RPC response contains neither `result` nor `error`"
    );
    assert_eq!(
        message(r#"{"jsonrpc":"2.0","method":5}"#),
        "notification `method` must be a non-empty string"
    );
    assert_eq!(
        message(r#"{"jsonrpc":"2.0","method":"x","params":3}"#),
        "JSON-RPC notification `params` must be an object, array, or null"
    );
    assert_eq!(
        message(r#"{"jsonrpc":"2.0","method":"x","id":2}"#),
        "server requests are unsupported; expected a response or notification"
    );
    assert_eq!(
        message(r#"{"jsonrpc":"2.0"}"#),
        "inbound JSON-RPC object contains neither `id` nor `method`"
    );
    assert_eq!(
        message(r#"{"jsonrpc":"2.0","id":4,"error":{"code":"x","message":"m"}}"#),
        "JSON-RPC error `code` must be an integer"
    );
    assert!(message("{").starts_with("invalid JSON received from peer: "));
}

#[test]
fn notifications_keep_their_params() {
    match parse_inbound(r#"{"jsonrpc":"2.0","method":"minecraft:notification/server/saved","params":null}"#) {
        Ok(Inbound::Notification { method, params }) => {
            assert_eq!(method, "minecraft:notification/server/saved");
            assert_eq!(params, Some(JsonValue::Null));
        }
        other => panic!("unexpected {other:?}"),
    }
}

#[test]
fn constructors_emit_mcsmp_wire_shapes() {
    let id = Uuid::parse_str("123e4567-e89b-12d3-a456-426614174000").unwrap();
    let player = PlayerRef::both(id, "Alex").unwrap();
    let ban = IncomingIpBan::ip("203.0.113.8".parse().unwrap())
        .with_reason("Abuse")
        .unwrap();
    let message = SystemMessage::action_bar(Message::literal("Maintenance")).to(vec![player.clone()]);

    assert_eq!(
        to_serde(&player.to_json()),
        value(r#"{"id": "123e4567-e89b-12d3-a456-426614174000", "name": "Alex"}"#)
    );
    assert_eq!(
        to_serde(&ban.to_json()),
        value(r#"{"ip": "203.0.113.8", "reason": "Abuse"}"#)
    );
    assert_eq!(
        to_serde(&message.to_json()),
        value(
            r#"{
            "message": {"literal": "Maintenance"},
            "overlay": true,
            "receivingPlayers": [{"id": "123e4567-e89b-12d3-a456-426614174000", "name": "Alex"}]
        }"#
        )
    );
}

#[test]
fn rejects_invalid_required_selectors() {
    assert!(PlayerRef::new(None, None).is_err());
    assert!(PlayerRef::by_name("  ").is_err());
    assert!(IncomingIpBan::new(None, None).is_err());
    assert!(PlayerRef::from_json(&json("{}")).is_none());
    assert!(!matches!(IncomingIpBan::from_json(&json("{}")), Some(Ok(_))));
}

#[test]
fn translatable_messages_win_over_literal_text() {
    let message = Message::from_json(&json(
        r#"{"translatable": "chat.type.announcement", "translatableParams": ["Server", "Restarting"], "literal": "x"}"#,
    ))
    .unwrap();
    assert_eq!(message.translation_key(), Some("chat.type.announcement"));
    assert_eq!(message.literal_text(), None);
    assert_eq!(
        to_serde(&message.to_json()),
        value(r#"{"translatable": "chat.type.announcement", "translatableParams": ["Server", "Restarting"]}"#)
    );
}

#[test]
fn bans_and_operators_read_protocol_field_names() {
    let user = UserBan::from_json(&json(
        r#"{"player": {"name": "Alex"}, "reason": "Repeated griefing", "expires": null}"#,
    ))
    .unwrap();
    assert_eq!(user.player.name(), Some("Alex"));
    assert_eq!(user.reason.as_deref(), Some("Repeated griefing"));
    assert_eq!(user.expires, None);

    let ip = IpBan::from_json(&json(r#"{"ip": "203.0.113.8", "source": "console"}"#)).unwrap();
    assert_eq!(ip.ip, IpAddress::V4([203, 0, 113, 8]));
    assert_eq!(ip.source.as_deref(), Some("console"));
    assert!(IpBan::from_json(&json(r#"{"ip": "not an address"}"#)).is_none());

    let operator_json = r#"{"player": {"name": "Alex"}, "permissionLevel": 4, "bypassesPlayerLimit": true}"#;
    let operator = Operator::from_json(&json(operator_json)).unwrap();
    assert_eq!(operator.permission_level, Some(4));
    assert_eq!(operator.bypasses_player_limit, Some(true));
    assert_eq!(to_serde(&operator.to_json()), value(operator_json));
    assert!(Operator::with_permission_level(PlayerRef::by_name("Alex").unwrap(), 5).is_err());
}

#[test]
fn incoming_ip_bans_validate_like_their_builders() {
    match IncomingIpBan::from_json(&json(r#"{"ip": "10.0.0.1", "reason": " "}"#)) {
        Some(Err(e)) => assert_eq!(e, ModelError::BlankField { field: "reason" }),
        _ => panic!("a blank reason must be refused"),
    }
    match IncomingIpBan::from_json(&json(r#"{"reason": "x"}"#)) {
        Some(Err(e)) => assert_eq!(e, ModelError::MissingIpBanTarget),
        _ => panic!("a target is required"),
    }
    match IncomingIpBan::from_json(&json(r#"{"player": {"name": "Alex"}, "expires": "2030-01-01T00:00:00Z"}"#)) {
        Some(Ok(b)) => {
            assert!(b.address().is_none());
            assert_eq!(b.expires(), Some("2030-01-01T00:00:00Z"));
        }
        _ => panic!("a valid request must be read"),
    }
    assert!(IncomingIpBan::from_json(&json(r#"{"ip": 5}"#)).is_none());
}

#[test]
fn server_status_reads_players_and_version() {
    let state = ServerState::from_json(&json(
        r#"{"started": true, "players": [{"name": "Alex"}], "version": {"name": "26.2", "protocol": 774}}"#,
    ))
    .unwrap();
    assert!(state.started);
    assert_eq!(state.online_player_count(), 1);
    assert_eq!(state.players[0].name(), Some("Alex"));
    assert_eq!(state.version.name, "26.2");
    assert!(ServerState::from_json(&json(r#"{"started": true, "players": [{}], "version": {"name": "x", "protocol": 1}}"#)).is_none());
}

#[test]
fn bearer_handshake_contains_authorization_and_origin() {
    let builder = ClientBuilder::new(Endpoint::parse("wss://localhost:25585").unwrap())
        .auth(Auth::bearer("secret").unwrap())
        .origin("mcsmp-rs-test");
    let headers = builder.handshake_headers().unwrap();
    assert!(headers.contains(&("authorization".to_owned(), "Bearer secret".to_owned())));
    assert!(headers.contains(&("origin".to_owned(), "mcsmp-rs-test".to_owned())));
}

#[test]
fn subprotocol_handshake_contains_browser_compatible_credentials() {
    let builder = ClientBuilder::new(Endpoint::parse("ws://localhost:25585").unwrap())
        .auth(Auth::websocket_subprotocol("secret").unwrap());
    let headers = builder.handshake_headers().unwrap();
    assert!(headers.contains(&(
        "sec-websocket-protocol".to_owned(),
        "minecraft-v1,secret".to_owned()
    )));
}

#[test]
fn builder_rejects_invalid_reconnect_policy() {
    let builder = ClientBuilder::new(Endpoint::parse("ws://localhost:25585").unwrap())
        .auth(Auth::none())
        .reconnect_policy(ReconnectPolicy::fixed(Duration::zero(), Some(1)));
    assert!(matches!(builder.validate(), Err(Error::Configuration(_))));
}

#[test]
fn builder_checks_its_settings_in_order() {
    let http = ClientBuilder::new(Endpoint::parse("http://localhost").unwrap()).auth(Auth::none());
    match http.validate() {
        Err(Error::Configuration(m)) => {
            assert_eq!(m, "MCSMP endpoint scheme must be ws or wss, got `http`")
        }
        other => panic!("unexpected {other:?}"),
    }
    let no_auth = ClientBuilder::new(Endpoint::parse("ws://localhost").unwrap());
    assert!(matches!(no_auth.validate(), Err(Error::AuthenticationNotConfigured)));
    let zero = ClientBuilder::new(Endpoint::parse("ws://localhost").unwrap())
        .auth(Auth::none())
        .request_timeout(Duration::zero());
    match zero.validate() {
        Err(Error::Configuration(m)) => assert_eq!(m, "request timeout must be greater than zero"),
        other => panic!("unexpected {other:?}"),
    }
    let capacity = ClientBuilder::new(Endpoint::parse("ws://localhost").unwrap())
        .auth(Auth::none())
        .channel_capacity(0);
    match capacity.validate() {
        Err(Error::Configuration(m)) => assert_eq!(m, "channel capacity must be greater than zero"),
        other => panic!("unexpected {other:?}"),
    }
    let good = ClientBuilder::new(Endpoint::parse("wss://example.org:25585").unwrap())
        .auth(Auth::bearer("s").unwrap())
        .compatibility_mode(CompatibilityMode::Strict);
    let config = good.into_config().unwrap();
    assert_eq!(config.channel_capacity, 128);
    assert_eq!(config.request_timeout, Duration::from_secs(10));
    assert_eq!(config.compatibility_mode, CompatibilityMode::Strict);
    assert_eq!(config.websocket.endpoint.host_str(), Some("example.org"));
}

#[test]
fn resource_operations_use_official_methods() {
    assert_eq!(Operation::AllowlistAdd.method(), "minecraft:allowlist/add");
    assert_eq!(Operation::IpBansRemove.parameter(), Some("ip"));
    assert_eq!(Operation::PlayersKick.result_field(), "kicked");
    assert_eq!(Operation::ServerStop.parameter(), None);
    let params = Operation::ServerSave.params(JsonValue::Bool(true)).unwrap();
    assert_eq!(to_serde(&params), value(r#"{"flush": true}"#));
    assert!(Operation::BansList.params(JsonValue::Null).is_none());
    assert_eq!(ServerSetting::Motd.get_method(), "minecraft:serversettings/motd");
    assert_eq!(
        ServerSetting::EnforceAllowlist.set_method(),
        "minecraft:serversettings/enforce_allowlist/set"
    );
    assert_eq!(
        to_serde(&ServerSetting::HideOnlinePlayers.set_params(JsonValue::Bool(false))),
        value(r#"{"hide": false}"#)
    );
    assert_eq!(ServerSetting::AcceptTransfers.result_field(), "accepted");
    assert_eq!(Difficulty::Hard.to_json(), JsonValue::String("hard".into()));
}

#[test]
fn results_are_read_from_their_member() {
    assert_eq!(decode_bool(&json(r#"{"enabled": true}"#), "enabled").unwrap(), true);
    match decode_bool(&json(r#"{"other": true}"#), "enabled") {
        Err(Error::Deserialization(m)) => assert_eq!(m, "MCSMP result is missing `enabled`"),
        other => panic!("unexpected {other:?}"),
    }
    match decode_bool(&json(r#"{"enabled": 1}"#), "enabled") {
        Err(Error::Deserialization(m)) => {
            assert_eq!(m, "MCSMP result field `enabled` has an unexpected shape")
        }
        other => panic!("unexpected {other:?}"),
    }
    let players = decode_players(&json(r#"{"allowlist": [{"name": "A"}, {"id": "123e4567-e89b-12d3-a456-426614174000"}]}"#), "allowlist").unwrap();
    assert_eq!(players.len(), 2);
    assert!(players[1].has_id());
    assert!(decode_players(&json(r#"{"allowlist": [{}]}"#), "allowlist").is_err());
}

// Sample documents for the decoding scenarios below.

#[test]
fn gamerule_models_decodes_current_and_legacy_gamerule_scalars() {
    let document = json(
        r#"[
            {"key": "doDaylightCycle", "type": "boolean", "value": true},
            {"key": "randomTickSpeed", "type": "integer", "value": 3},
            {"key": "legacyCounter", "type": "integer", "value": "12"}
        ]"#,
    );
    let rules: Vec<TypedGameRule> = match &document {
        JsonValue::Array(items) => items.iter().map(|i| TypedGameRule::from_json(i).unwrap()).collect(),
        _ => panic!("fixture must decode"),
    };
    assert_eq!(rules[0].value.as_boolean(), Some(true));
    assert_eq!(rules[1].value.as_integer(), Some(3));
    assert_eq!(rules[2].value.as_legacy_string(), Some("12"));
    assert_eq!(rules[2].value.parse_integer(), Some(12));
    assert_eq!(
        GameRuleValue::legacy_string("true").parse_integer(),
        None,
        "legacy boolean-looking strings must not become booleans"
    );
}

#[test]
fn gamerules_decodes_current_and_legacy_gamerule_scalars() {
    let result = json(
        r#"{"gamerules": [
            {"key": "doDaylightCycle", "type": "boolean", "value": true},
            {"key": "randomTickSpeed", "type": "integer", "value": 3},
            {"key": "legacyCounter", "type": "integer", "value": "12"}
        ]}"#,
    );
    let rules = mcsmp_rs::api::decode_gamerules(&result, "gamerules").expect("fixture must decode");
    assert_eq!(rules[0].value.as_boolean(), Some(true));
    assert_eq!(rules[1].value.as_integer(), Some(3));
    assert_eq!(rules[2].value.as_legacy_string(), Some("12"));
    assert_eq!(rules[2].value.parse_integer(), Some(12));
    assert_eq!(GameRuleValue::legacy_string("true").parse_integer(), None);
}

#[test]
fn deserializes_server_status_fixture() {
    let state = ServerState::from_json(&json(
        r#"{"started": true, "players": [{"id": "123e4567-e89b-12d3-a456-426614174000", "name": "Alex"}],
            "version": {"name": "26.2", "protocol": 775}}"#,
    ))
    .expect("fixture must decode");
    assert!(state.started);
    assert_eq!(state.online_player_count(), 1);
    assert_eq!(state.players[0].name(), Some("Alex"));
    assert_eq!(state.version.name, "26.2");
}

#[test]
fn translatable_message_precedes_literal_fallback() {
    let message = Message::from_json(&json(
        r#"{"translatable": "chat.type.announcement", "translatableParams": ["Server", "Restarting"],
            "literal": "[Server] Restarting"}"#,
    ))
    .expect("fixture must decode");
    assert_eq!(message.translation_key(), Some("chat.type.announcement"));
    assert_eq!(message.literal_text(), None);
    assert_eq!(
        to_serde(&message.to_json()),
        value(r#"{"translatable": "chat.type.announcement", "translatableParams": ["Server", "Restarting"]}"#)
    );
}

#[test]
fn parses_jsonrpc_fixtures() {
    let success = parse_inbound(r#"{"jsonrpc":"2.0","id":1,"result":{"status":{"started":true}}}"#);
    assert!(matches!(success, Ok(Inbound::Response { result: Ok(_), .. })));

    let remote_error = parse_inbound(
        r#"{"jsonrpc":"2.0","id":2,"error":{"code":-32602,"message":"Invalid params"}}"#,
    );
    assert!(matches!(
        remote_error,
        Ok(Inbound::Response { result: Err(Error::Remote(_)), .. })
    ));

    let malformed = parse_inbound(r#"{"jsonrpc":"2.0","id":3,"result":null,"error":{"code":1,"message":"x"}}"#);
    assert!(matches!(malformed, Err(Error::Protocol(_))));
}

#[test]
fn models_read_back_from_their_json() {
    let id = Uuid::parse_str("123e4567-e89b-12d3-a456-426614174000").unwrap();
    let player = PlayerRef::both(id, "Alex").unwrap();
    assert_eq!(PlayerRef::from_json(&player.to_json()), Some(player.clone()));

    let ban = UserBan::with_reason(player.clone(), "Griefing")
        .unwrap()
        .with_source("console")
        .unwrap()
        .expiring_at("2030-01-01T00:00:00Z")
        .unwrap();
    assert_eq!(UserBan::from_json(&ban.to_json()), Some(ban));

    let ip_ban = IpBan::with_reason(IpAddress::V6([0x2001, 0xdb8, 0, 0, 0, 0, 0, 1]), "Abuse").unwrap();
    assert_eq!(to_serde(&ip_ban.to_json()), value(r#"{"ip": "2001:db8::1", "reason": "Abuse"}"#));
    assert_eq!(IpBan::from_json(&ip_ban.to_json()), Some(ip_ban));

    let operator = Operator::with_options(player, 3, false).unwrap();
    assert_eq!(Operator::from_json(&operator.to_json()), Some(operator));

    let message = Message::translatable("chat.type.text", vec!["A".into(), "hi".into()]).unwrap();
    assert_eq!(Message::from_json(&message.to_json()), Some(message));
    let literal = Message::literal("hello");
    assert_eq!(Message::from_json(&literal.to_json()), Some(literal));

    for d in [Difficulty::Peaceful, Difficulty::Easy, Difficulty::Normal, Difficulty::Hard] {
        assert_eq!(Difficulty::from_json(&d.to_json()), Some(d));
    }
    let value = GameRuleValue::Integer(i32::MIN);
    assert_eq!(GameRuleValue::from_json(&value.to_json()), Some(value));
}

#[test]
fn newer_versions_keep_the_features_of_older_ones() {
    let older = Capabilities::from_schema(json(r#"{"protocolVersion": "2.0.0"}"#));
    let newer = Capabilities::from_schema(json(r#"{"protocolVersion": "3.1.0"}"#));
    for f in [
        Feature::Authentication,
        Feature::TlsByDefault,
        Feature::OriginAllowlist,
        Feature::TypedGameruleValue,
        Feature::PreStartDiscovery,
        Feature::WorldUpgradeNotifications,
    ] {
        if older.supports_feature(f) {
            assert!(newer.supports_feature(f));
        }
    }
    assert!(!older.supports_feature(Feature::PreStartDiscovery));
    assert!(newer.supports_feature(Feature::PreStartDiscovery));
}

#[test]
fn discovery_normalizes_legacy_notification_names() {
    let c = Capabilities::from_schema(json(r#"{"notifications": ["notification:players/joined"]}"#));
    assert!(c.supports_notification("minecraft:notification/players/joined"));
    assert!(!c.supports_notification("notification:players/joined"));
    let m = Capabilities::from_schema(json(
        r#"{"notifications": {"notification:server/activity": {"params": {}}}}"#,
    ));
    assert_eq!(m.notifications, vec!["minecraft:notification/server/activity".to_owned()]);
    assert_eq!(m.notification_schemas[0].0, "minecraft:notification/server/activity");
    assert!(m.supports_feature(Feature::MinecraftNotificationPrefix));
}

#[test]
fn discovery_keeps_legacy_method_names_as_listed() {
    let c = Capabilities::from_schema(json(r#"{"methods": ["notification:players/joined"]}"#));
    assert!(c.supports_method("notification:players/joined"));
}

#[test]
fn discovery_names_are_sorted_and_held_once() {
    let c = Capabilities::from_schema(json(
        r#"{"methods": ["b", {"name": "a", "n": 1}, "b", {"name": "a", "n": 2}, "B"]}"#,
    ));
    assert_eq!(c.methods, vec!["B".to_owned(), "a".to_owned(), "b".to_owned()]);
    assert_eq!(c.method_schemas.len(), 1);
    assert_eq!(c.method_schemas[0].0, "a");
    assert_eq!(c.method_schemas[0].1, json(r#"{"name": "a", "n": 2}"#));
}

#[test]
fn uuid_text_forms() {
    let v: u128 = 0x123e4567e89b12d3a456426614174000;
    assert_eq!(Uuid::parse_str("123e4567e89b12d3a456426614174000"), Some(Uuid(v)));
    assert_eq!(Uuid::parse_str("123E4567-E89B-12D3-A456-426614174000"), Some(Uuid(v)));
    assert_eq!(Uuid::parse_str("{123e4567-e89b-12d3-a456-426614174000}"), Some(Uuid(v)));
    assert_eq!(Uuid::parse_str("URN:uuid:123e4567-e89b-12d3-a456-426614174000"), Some(Uuid(v)));
    assert_eq!(Uuid::parse_str("123e4567-e89b-12d3-a456-42661417400é"), None);
    assert_eq!(Uuid::parse_str("123e4567-e89b-12d3-a456_426614174000"), None);
    assert_eq!(Uuid(v).to_hyphenated(), "123e4567-e89b-12d3-a456-426614174000");
}

#[test]
fn inbound_text_that_is_not_json_is_a_protocol_error() {
    match parse_inbound("{") {
        Err(Error::Protocol(m)) => assert!(m.starts_with("invalid JSON received from peer: ")),
        other => panic!("unexpected {other:?}"),
    }
    assert!(matches!(
        parse_inbound(r#"{"jsonrpc":"2.0","method":"minecraft:notification/server/started"}"#),
        Ok(Inbound::Notification { .. })
    ));
}

#[test]
fn literal_messages_give_back_their_text() {
    assert_eq!(Message::literal("hello").literal_text(), Some("hello"));
    assert_eq!(Message::literal("  ").literal_text(), Some("  "));
    let m = Message::translatable("multiplayer.disconnect", vec![]).unwrap();
    assert_eq!(m.literal_text(), None);
}
