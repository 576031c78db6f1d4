//! Verified core of an MCSMP (Minecraft Server Management Protocol) client:
//! protocol versions and discovery, the JSON-RPC message layer, request and
//! response models, notification decoding, client configuration, and the
//! decisions of a connection session and its reconnect supervisor.

pub mod text;
pub mod time;
pub mod reconnect;
pub mod json;
pub mod error;
pub mod version;
pub mod collections;
pub mod discovery;
pub mod auth;
pub mod ip;
pub mod model;
pub mod events;
pub mod jsonrpc;
pub mod config;
pub mod pending;
pub mod session;
pub mod api;

pub use api::{Operation, ServerSetting};
pub use auth::{Auth, Secret};
pub use config::{ClientBuilder, ClientConfig, ConnectionState, Endpoint, WebSocketConfig};
pub use discovery::{Capabilities, CompatibilityMode, Feature, FeatureSet};
pub use error::{Error, ModelError, RemoteError, RequestId};
pub use events::{Event, EventStreamError, RawNotification};
pub use ip::IpAddress;
pub use json::{JsonNumber, JsonValue};
pub use model::ban::{IncomingIpBan, IpBan, UserBan};
pub use model::gamerule::{GameRuleKind, GameRuleValue, TypedGameRule, UntypedGameRule};
pub use model::message::{KickPlayer, Message, SystemMessage};
pub use model::player::{PlayerRef, Uuid};
pub use model::server::{MinecraftVersion, Operator, ServerState};
pub use model::settings::{Difficulty, GameMode};
pub use reconnect::ReconnectPolicy;
pub use session::{Reconnector, Session};
pub use time::Duration;
pub use version::{ProtocolVersion, ProtocolVersionParseError};
