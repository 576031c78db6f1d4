//! Failures reported by the client and by its model constructors.

use vstd::prelude::*;

use crate::discovery::Feature;
use crate::json::{JsonData, JsonValue};
use crate::text::{decimal, i64_to_decimal, push_str, signed_decimal, u64_to_decimal};

verus! {

/// Client-generated identifier of a JSON-RPC request. Identifiers are never
/// zero.
#[derive(Clone, Copy, Debug, PartialEq, Eq, Hash, PartialOrd, Ord, Structural)]
pub struct RequestId(u64);

impl RequestId {
    /// Wraps a raw identifier.
    pub fn new(id: u64) -> (r: RequestId)
        ensures
            r.id() == id,
    {
        RequestId(id)
    }

    /// The raw identifier.
    pub closed spec fn id(self) -> u64 {
        self.0
    }

    /// Returns the raw identifier.
    pub fn get(&self) -> (r: u64)
        ensures
            r == self.id(),
    {
        self.0
    }
}

/// JSON-RPC error object returned by the remote MCSMP peer.
#[derive(Clone, Debug, PartialEq)]
pub struct RemoteError {
    /// Numeric JSON-RPC error code supplied by the server.
    pub code: i64,
    /// Human-readable message supplied by the server.
    pub message: String,
    /// Optional implementation-specific JSON error data.
    pub data: Option<JsonValue>,
}

/// The content of a remote error object.
pub struct RemoteData {
    pub code: i64,
    pub message: Seq<char>,
    pub data: Option<JsonData>,
}

impl View for RemoteError {
    type V = RemoteData;

    open spec fn view(&self) -> RemoteData {
        RemoteData {
            code: self.code,
            message: self.message@,
            data: match self.data {
                Some(d) => Some(d@),
                None => None,
            },
        }
    }
}

/// Failures that can occur while configuring or using an MCSMP client.
#[derive(Clone, Debug, PartialEq)]
#[non_exhaustive]
pub enum Error {
    /// A builder argument, secret, timeout, or reconnect policy was invalid.
    Configuration(String),
    /// Authentication was never selected on the client builder.
    AuthenticationNotConfigured,
    /// The HTTP/WebSocket handshake was rejected as an authentication failure.
    AuthenticationRejected {
        /// HTTP status code returned during the failed WebSocket upgrade.
        status: u16,
    },
    /// A TCP, TLS, WebSocket, or handshake operation failed locally.
    Transport(String),
    /// The client or peer closed the WebSocket before an operation completed.
    Closed,
    /// The client is reconnecting after an unexpected transport interruption.
    Reconnecting,
    /// A JSON-RPC call did not receive a response before its deadline.
    Timeout {
        /// Identifier assigned to the timed-out request.
        id: RequestId,
        /// Full JSON-RPC method name that did not receive a response in time.
        method: String,
    },
    /// The peer sent a message outside the supported JSON-RPC 2.0 subset.
    Protocol(String),
    /// Request parameters could not be converted to JSON before sending.
    Serialization(String),
    /// A result or notification payload could not be decoded.
    Deserialization(String),
    /// Strict compatibility mode requires a successful discovery first.
    DiscoveryRequired,
    /// Strict-mode discovery did not advertise a requested method.
    UnsupportedMethod {
        /// Full JSON-RPC method name rejected by the strict-mode preflight check.
        method: String,
    },
    /// Discovery did not imply a requested optional protocol feature.
    UnsupportedFeature(Feature),
    /// The server returned a JSON-RPC error object.
    Remote(RemoteError),
}

/// `e` is a protocol violation described by `message`.
pub open spec fn is_protocol_with(e: Error, message: Seq<char>) -> bool {
    e matches Error::Protocol(m) && m@ == message
}

/// `e` is a configuration error described by `message`.
pub open spec fn is_configuration_with(e: Error, message: Seq<char>) -> bool {
    e matches Error::Configuration(m) && m@ == message
}

/// Local validation failure while constructing an MCSMP request or model.
#[derive(Clone, Copy, Debug, PartialEq, Eq)]
#[non_exhaustive]
pub enum ModelError {
    /// A player selector omitted both UUID and non-blank name.
    MissingPlayerIdentity,
    /// A required text property was empty or whitespace-only.
    BlankField {
        /// Protocol field name whose supplied text was blank.
        field: &'static str,
    },
    /// An operator permission level was outside the supported `0..=4` range.
    InvalidOperatorPermissionLevel {
        /// Permission level rejected by the local model validator.
        value: i32,
    },
    /// An IP-ban input omitted both a direct address and a player selector.
    MissingIpBanTarget,
    /// A native gamerule scalar did not match the declared gamerule kind.
    GameRuleTypeMismatch {
        /// Scalar kind required by the gamerule declaration.
        expected: &'static str,
        /// Scalar kind actually supplied by the gamerule value.
        actual: &'static str,
    },
}

/// `e` reports the blank field named `field`.
pub open spec fn is_blank_field(e: ModelError, field: Seq<char>) -> bool {
    e matches ModelError::BlankField { field: f } && f@ == field
}

/// The `Debug` name of a feature.
pub open spec fn feature_name(f: Feature) -> Seq<char> {
    match f {
        Feature::Authentication => "Authentication"@,
        Feature::TlsByDefault => "TlsByDefault"@,
        Feature::MinecraftNotificationPrefix => "MinecraftNotificationPrefix"@,
        Feature::ServerActivityNotification => "ServerActivityNotification"@,
        Feature::OriginAllowlist => "OriginAllowlist"@,
        Feature::TypedGameruleValue => "TypedGameruleValue"@,
        Feature::PreStartDiscovery => "PreStartDiscovery"@,
        Feature::WorldUpgradeNotifications => "WorldUpgradeNotifications"@,
    }
}

fn feature_text(f: Feature) -> (r: &'static str)
    ensures
        r@ == feature_name(f),
{
    match f {
        Feature::Authentication => "Authentication",
        Feature::TlsByDefault => "TlsByDefault",
        Feature::MinecraftNotificationPrefix => "MinecraftNotificationPrefix",
        Feature::ServerActivityNotification => "ServerActivityNotification",
        Feature::OriginAllowlist => "OriginAllowlist",
        Feature::TypedGameruleValue => "TypedGameruleValue",
        Feature::PreStartDiscovery => "PreStartDiscovery",
        Feature::WorldUpgradeNotifications => "WorldUpgradeNotifications",
    }
}

/// The description of a remote error: `JSON-RPC error <code>: <message>`.
pub open spec fn remote_message(r: RemoteData) -> Seq<char> {
    "JSON-RPC error "@ + signed_decimal(r.code as int) + ": "@ + r.message
}

/// The human-readable description of an error.
pub open spec fn error_message(e: Error) -> Seq<char> {
    match e {
        Error::Configuration(m) => "invalid client configuration: "@ + m@,
        Error::AuthenticationNotConfigured => "authentication must be configured; use Auth::none() only for an intentionally unauthenticated endpoint"@,
        Error::AuthenticationRejected { status } => "management endpoint rejected authentication with HTTP "@
            + decimal(status as nat),
        Error::Transport(m) => "websocket transport error: "@ + m@,
        Error::Closed => "websocket connection is closed"@,
        Error::Reconnecting => "websocket client is reconnecting; requests are not queued or replayed"@,
        Error::Timeout { id, method } => "JSON-RPC request "@ + decimal(id.id() as nat)
            + " for method `"@ + method@ + "` timed out"@,
        Error::Protocol(m) => "JSON-RPC protocol error: "@ + m@,
        Error::Serialization(m) => "JSON serialization failed: "@ + m@,
        Error::Deserialization(m) => "JSON deserialization failed: "@ + m@,
        Error::DiscoveryRequired => "strict compatibility mode requires calling Client::discover() first"@,
        Error::UnsupportedMethod { method } => "server does not advertise JSON-RPC method `"@
            + method@ + "`"@,
        Error::UnsupportedFeature(f) => "server does not support MCSMP feature "@ + feature_name(f),
        Error::Remote(r) => remote_message(r@),
    }
}

impl RemoteError {
    /// A description of the remote error.
    pub fn message_text(&self) -> (r: String)
        ensures
            r@ == remote_message(self@),
    {
        let mut r = String::new();
        push_str(&mut r, "JSON-RPC error ");
        push_str(&mut r, i64_to_decimal(self.code).as_str());
        push_str(&mut r, ": ");
        push_str(&mut r, self.message.as_str());
        r
    }
}

fn prefixed(prefix: &str, text: &str) -> (r: String)
    ensures
        r@ == prefix@ + text@,
{
    let mut r = String::new();
    push_str(&mut r, prefix);
    push_str(&mut r, text);
    r
}

impl Error {
    /// A human-readable description of the error.
    pub fn message(&self) -> (r: String)
        ensures
            r@ == error_message(*self),
    {
        match self {
            Error::Configuration(m) => prefixed("invalid client configuration: ", m.as_str()),
            Error::AuthenticationNotConfigured => "authentication must be configured; use Auth::none() only for an intentionally unauthenticated endpoint".to_owned(),
            Error::AuthenticationRejected { status } => prefixed(
                "management endpoint rejected authentication with HTTP ",
                u64_to_decimal(*status as u64).as_str(),
            ),
            Error::Transport(m) => prefixed("websocket transport error: ", m.as_str()),
            Error::Closed => "websocket connection is closed".to_owned(),
            Error::Reconnecting => "websocket client is reconnecting; requests are not queued or replayed".to_owned(),
            Error::Timeout { id, method } => {
                let mut r = prefixed("JSON-RPC request ", u64_to_decimal(id.get()).as_str());
                push_str(&mut r, " for method `");
                push_str(&mut r, method.as_str());
                push_str(&mut r, "` timed out");
                r
            },
            Error::Protocol(m) => prefixed("JSON-RPC protocol error: ", m.as_str()),
            Error::Serialization(m) => prefixed("JSON serialization failed: ", m.as_str()),
            Error::Deserialization(m) => prefixed("JSON deserialization failed: ", m.as_str()),
            Error::DiscoveryRequired => "strict compatibility mode requires calling Client::discover() first".to_owned(),
            Error::UnsupportedMethod { method } => {
                let mut r = prefixed("server does not advertise JSON-RPC method `", method.as_str());
                push_str(&mut r, "`");
                r
            },
            Error::UnsupportedFeature(f) => prefixed(
                "server does not support MCSMP feature ",
                feature_text(*f),
            ),
            Error::Remote(r) => r.message_text(),
        }
    }
}

/// The human-readable description of a model validation failure.
pub open spec fn model_error_message(e: ModelError) -> Seq<char> {
    match e {
        ModelError::MissingPlayerIdentity => "a player reference requires an id, a non-blank name, or both"@,
        ModelError::BlankField { field } => field@ + " must not be blank"@,
        ModelError::InvalidOperatorPermissionLevel { value } => "operator permission level must be between 0 and 4, got "@
            + signed_decimal(value as int),
        ModelError::MissingIpBanTarget => "an incoming IP ban requires an ip address, a player selector, or both"@,
        ModelError::GameRuleTypeMismatch { expected, actual } => "gamerule value type mismatch: expected "@
            + expected@ + ", got "@ + actual@,
    }
}

impl ModelError {
    /// A human-readable description of the failure.
    pub fn message(&self) -> (r: String)
        ensures
            r@ == model_error_message(*self),
    {
        match self {
            ModelError::MissingPlayerIdentity => "a player reference requires an id, a non-blank name, or both".to_owned(),
            ModelError::BlankField { field } => {
                let mut r = String::new();
                push_str(&mut r, field);
                push_str(&mut r, " must not be blank");
                r
            },
            ModelError::InvalidOperatorPermissionLevel { value } => prefixed(
                "operator permission level must be between 0 and 4, got ",
                i64_to_decimal(*value as i64).as_str(),
            ),
            ModelError::MissingIpBanTarget => "an incoming IP ban requires an ip address, a player selector, or both".to_owned(),
            ModelError::GameRuleTypeMismatch { expected, actual } => {
                let mut r = prefixed("gamerule value type mismatch: expected ", expected);
                push_str(&mut r, ", got ");
                push_str(&mut r, actual);
                r
            },
        }
    }
}

} // verus!
