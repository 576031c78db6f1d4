//! Server notifications: name normalization and typed decoding.

use vstd::prelude::*;

use crate::discovery::{Capabilities, CompatibilityMode, Feature};
use crate::json::{as_str_spec, get_spec, JsonData, JsonNumber, JsonValue};
use crate::model::ban::{
    ip_ban_from_json, user_ban_from_json, IpBan, IpBanData, UserBan, UserBanData,
};
use crate::model::gamerule::{typed_rule_from_json, TypedGameRule, TypedGameRuleData};
use crate::model::player::{player_from_json, player_json, selector_ok, PlayerData, PlayerRef};
use crate::model::server::{
    operator_from_json, state_from_json, Operator, OperatorData, ServerState, ServerStateData,
};
use crate::text::{chars_of, push_str, starts_with, str_eq, string_from_chars};

verus! {

/// An untyped JSON-RPC notification emitted by an MCSMP server.
#[derive(Debug, PartialEq)]
pub struct RawNotification {
    /// Fully-qualified JSON-RPC notification method.
    pub method: String,
    /// Optional JSON-RPC notification parameters.
    pub params: Option<JsonValue>,
}

/// The content of a notification.
pub struct RawData {
    pub method: Seq<char>,
    pub params: Option<JsonData>,
}

impl View for RawNotification {
    type V = RawData;

    open spec fn view(&self) -> RawData {
        RawData {
            method: self.method@,
            params: match self.params {
                Some(p) => Some(p@),
                None => None,
            },
        }
    }
}

impl Clone for RawNotification {
    fn clone(&self) -> (r: RawNotification)
        ensures
            r@ == self@,
    {
        let params = match &self.params {
            Some(p) => Some(p.clone()),
            None => None,
        };
        RawNotification { method: self.method.clone(), params }
    }
}

/// The current notification namespace.
pub open spec fn current_prefix() -> Seq<char> {
    "minecraft:notification/"@
}

/// The historical notification namespace.
pub open spec fn legacy_prefix() -> Seq<char> {
    "notification:"@
}

pub open spec fn has_prefix(s: Seq<char>, p: Seq<char>) -> bool {
    p.len() <= s.len() && s.subrange(0, p.len() as int) == p
}

/// The message of the strict-mode refusal of a historical name.
pub open spec fn legacy_refusal(method: Seq<char>) -> Seq<char> {
    "legacy notification prefix is not permitted in strict mode: `"@ + method + "`"@
}

/// Name normalization: current names and unknown names are kept; a
/// historical `notification:` name is moved into the current namespace,
/// except in strict mode, which refuses it.
pub open spec fn normalize_spec(raw: RawData, mode: CompatibilityMode) -> Result<RawData, Seq<char>> {
    if has_prefix(raw.method, current_prefix()) {
        Ok(raw)
    } else if !has_prefix(raw.method, legacy_prefix()) {
        Ok(raw)
    } else if mode == CompatibilityMode::Strict {
        Err(legacy_refusal(raw.method))
    } else {
        Ok(
            RawData {
                method: current_prefix() + raw.method.subrange(
                    legacy_prefix().len() as int,
                    raw.method.len() as int,
                ),
                params: raw.params,
            },
        )
    }
}

/// Normalizes a notification name for the given compatibility mode.
pub fn normalize_notification(raw: RawNotification, compatibility_mode: CompatibilityMode) -> (r:
    Result<RawNotification, String>)
    ensures
        match r {
            Ok(n) => normalize_spec(raw@, compatibility_mode) == Ok::<RawData, Seq<char>>(n@),
            Err(m) => normalize_spec(raw@, compatibility_mode) == Err::<RawData, Seq<char>>(m@),
        },
{
    let chars = chars_of(raw.method.as_str());
    if starts_with(chars.as_slice(), "minecraft:notification/") {
        return Ok(raw);
    }
    if !starts_with(chars.as_slice(), "notification:") {
        return Ok(raw);
    }
    if compatibility_mode == CompatibilityMode::Strict {
        let mut message = String::new();
        push_str(&mut message, "legacy notification prefix is not permitted in strict mode: `");
        push_str(&mut message, raw.method.as_str());
        push_str(&mut message, "`");
        return Err(message);
    }
    proof {
        reveal_strlit("notification:");
    }
    let suffix = vstd::slice::slice_subrange(chars.as_slice(), 13, chars.len());
    let mut method = String::new();
    push_str(&mut method, "minecraft:notification/");
    push_str(&mut method, string_from_chars(suffix).as_str());
    Ok(RawNotification { method, params: raw.params })
}

/// A strongly typed server notification. World-upgrade progress is
/// carried by the bits of its IEEE-754 double value.
#[derive(Clone, Debug, PartialEq)]
#[non_exhaustive]
pub enum Event {
    /// The dedicated server completed startup.
    ServerStarted,
    /// The dedicated server began shutting down.
    ServerStopping,
    /// World saving began.
    ServerSaving,
    /// World saving completed.
    ServerSaved,
    /// A server-status heartbeat was emitted.
    ServerStatus {
        /// Current server state reported by the heartbeat.
        status: ServerState,
    },
    /// A management connection was initialized.
    ServerActivity,
    /// A player connected to the server.
    PlayerJoined {
        /// The player that joined.
        player: PlayerRef,
    },
    /// A player disconnected from the server.
    PlayerLeft {
        /// The player that left.
        player: PlayerRef,
    },
    /// A player became an operator.
    OperatorAdded {
        /// The operator entry that was added.
        operator: Operator,
    },
    /// A player was removed from the operator list.
    OperatorRemoved {
        /// The operator entry that was removed.
        operator: Operator,
    },
    /// A player was added to the allowlist.
    AllowlistAdded {
        /// The player that was added.
        player: PlayerRef,
    },
    /// A player was removed from the allowlist.
    AllowlistRemoved {
        /// The player that was removed.
        player: PlayerRef,
    },
    /// An IP address was banned.
    IpBanAdded {
        /// The ban entry that was added.
        ban: IpBan,
    },
    /// An IP address was removed from the ban list.
    IpBanRemoved {
        /// The IP address that was unbanned.
        ip: String,
    },
    /// A player was added to the user-ban list.
    UserBanAdded {
        /// The user ban that was added.
        ban: UserBan,
    },
    /// A player was removed from the user-ban list.
    UserBanRemoved {
        /// The player that was unbanned.
        player: PlayerRef,
    },
    /// A gamerule changed.
    GameRuleUpdated {
        /// The gamerule after the update.
        gamerule: TypedGameRule,
    },
    /// World upgrade processing started.
    WorldUpgradeStarted,
    /// World upgrade progress changed.
    WorldUpgradeProgress {
        /// Completed fraction in `0.0..=1.0`, as the bits of an IEEE-754
        /// double.
        progress_bits: u64,
    },
    /// World upgrade processing completed.
    WorldUpgradeFinished,
    /// World upgrade processing failed.
    WorldUpgradeFailed {
        /// Server-supplied failure reason.
        reason: String,
    },
    /// An extension, future, malformed, or capability-gated notification.
    Unknown(RawNotification),
}

/// The content of an event.
pub enum EventData {
    ServerStarted,
    ServerStopping,
    ServerSaving,
    ServerSaved,
    ServerStatus(ServerStateData),
    ServerActivity,
    PlayerJoined(PlayerData),
    PlayerLeft(PlayerData),
    OperatorAdded(OperatorData),
    OperatorRemoved(OperatorData),
    AllowlistAdded(PlayerData),
    AllowlistRemoved(PlayerData),
    IpBanAdded(IpBanData),
    IpBanRemoved(Seq<char>),
    UserBanAdded(UserBanData),
    UserBanRemoved(PlayerData),
    GameRuleUpdated(TypedGameRuleData),
    WorldUpgradeStarted,
    WorldUpgradeProgress(u64),
    WorldUpgradeFinished,
    WorldUpgradeFailed(Seq<char>),
    Unknown(RawData),
}

impl View for Event {
    type V = EventData;

    open spec fn view(&self) -> EventData {
        match self {
            Event::ServerStarted => EventData::ServerStarted,
            Event::ServerStopping => EventData::ServerStopping,
            Event::ServerSaving => EventData::ServerSaving,
            Event::ServerSaved => EventData::ServerSaved,
            Event::ServerStatus { status } => EventData::ServerStatus(status@),
            Event::ServerActivity => EventData::ServerActivity,
            Event::PlayerJoined { player } => EventData::PlayerJoined(player@),
            Event::PlayerLeft { player } => EventData::PlayerLeft(player@),
            Event::OperatorAdded { operator } => EventData::OperatorAdded(operator@),
            Event::OperatorRemoved { operator } => EventData::OperatorRemoved(operator@),
            Event::AllowlistAdded { player } => EventData::AllowlistAdded(player@),
            Event::AllowlistRemoved { player } => EventData::AllowlistRemoved(player@),
            Event::IpBanAdded { ban } => EventData::IpBanAdded(ban@),
            Event::IpBanRemoved { ip } => EventData::IpBanRemoved(ip@),
            Event::UserBanAdded { ban } => EventData::UserBanAdded(ban@),
            Event::UserBanRemoved { player } => EventData::UserBanRemoved(player@),
            Event::GameRuleUpdated { gamerule } => EventData::GameRuleUpdated(gamerule@),
            Event::WorldUpgradeStarted => EventData::WorldUpgradeStarted,
            Event::WorldUpgradeProgress { progress_bits } => EventData::WorldUpgradeProgress(
                *progress_bits,
            ),
            Event::WorldUpgradeFinished => EventData::WorldUpgradeFinished,
            Event::WorldUpgradeFailed { reason } => EventData::WorldUpgradeFailed(reason@),
            Event::Unknown(raw) => EventData::Unknown(raw@),
        }
    }
}

/// A named parameter: the member `name` of object parameters.
pub open spec fn member_of(params: Option<JsonData>, name: Seq<char>) -> Option<JsonData> {
    match params {
        Some(p) => if p is Object {
            get_spec(p, name)
        } else {
            None
        },
        None => None,
    }
}

pub open spec fn or_else<T>(a: Option<T>, b: Option<T>) -> Option<T> {
    match a {
        Some(x) => Some(x),
        None => b,
    }
}

pub open spec fn pick_player(params: Option<JsonData>, name: Seq<char>) -> Option<PlayerData> {
    match member_of(params, name) {
        Some(v) => player_from_json(v),
        None => None,
    }
}

pub open spec fn pick_status(params: Option<JsonData>, name: Seq<char>) -> Option<ServerStateData> {
    match member_of(params, name) {
        Some(v) => state_from_json(v),
        None => None,
    }
}

pub open spec fn pick_operator(params: Option<JsonData>, name: Seq<char>) -> Option<OperatorData> {
    match member_of(params, name) {
        Some(v) => operator_from_json(v),
        None => None,
    }
}

pub open spec fn pick_ip_ban(params: Option<JsonData>, name: Seq<char>) -> Option<IpBanData> {
    match member_of(params, name) {
        Some(v) => ip_ban_from_json(v),
        None => None,
    }
}

pub open spec fn pick_user_ban(params: Option<JsonData>, name: Seq<char>) -> Option<UserBanData> {
    match member_of(params, name) {
        Some(v) => user_ban_from_json(v),
        None => None,
    }
}

pub open spec fn pick_text(params: Option<JsonData>, name: Seq<char>) -> Option<Seq<char>> {
    match member_of(params, name) {
        Some(v) => as_str_spec(v),
        None => None,
    }
}

pub open spec fn pick_gamerule(params: Option<JsonData>, name: Seq<char>) -> Option<TypedGameRuleData> {
    match member_of(params, name) {
        Some(v) => typed_rule_from_json(v),
        None => None,
    }
}

/// The bits of 1.0 as an IEEE-754 double.
pub open spec fn one_bits() -> u64 {
    0x3FF0_0000_0000_0000
}

/// A JSON number read as a double in `0.0..=1.0`, as its bits: the
/// integers 0 and 1, and the doubles from -0.0 and 0.0 up to 1.0.
pub open spec fn unit_fraction(n: JsonNumber) -> Option<u64> {
    match n {
        JsonNumber::PosInt(u) => if u == 0 {
            Some(0)
        } else if u == 1 {
            Some(one_bits())
        } else {
            None
        },
        JsonNumber::NegInt(_) => None,
        JsonNumber::Float(b) => if b <= one_bits() || b == 0x8000_0000_0000_0000 {
            Some(b)
        } else {
            None
        },
    }
}

pub open spec fn pick_progress(params: Option<JsonData>, name: Seq<char>) -> Option<u64> {
    match member_of(params, name) {
        Some(JsonData::Number(n)) => unit_fraction(n),
        _ => None,
    }
}

/// Whether world-upgrade notifications are decoded: discovery implied the
/// feature or advertised the start notification.
pub open spec fn world_upgrade_supported(capabilities: Option<&Capabilities>) -> bool {
    match capabilities {
        Some(c) => c.features.has(Feature::WorldUpgradeNotifications)
            || c.notification_set().contains("minecraft:notification/world/upgrade_started"@),
        None => false,
    }
}

/// The same test on an owned capability snapshot.
pub open spec fn world_supported_by(capabilities: Option<Capabilities>) -> bool {
    match capabilities {
        Some(c) => c.features.has(Feature::WorldUpgradeNotifications)
            || c.notification_set().contains("minecraft:notification/world/upgrade_started"@),
        None => false,
    }
}

pub open spec fn wrap<T, U>(v: Option<T>, f: spec_fn(T) -> U) -> Option<U> {
    match v {
        Some(x) => Some(f(x)),
        None => None,
    }
}

/// The typed event for a known method whose parameters decode, else
/// `None`. Each typed payload is taken from the first of its parameter
/// names whose value decodes.
pub open spec fn decode_spec(m: Seq<char>, p: Option<JsonData>, world: bool) -> Option<EventData> {
    if m == "minecraft:notification/server/started"@ {
        Some(EventData::ServerStarted)
    } else if m == "minecraft:notification/server/stopping"@ {
        Some(EventData::ServerStopping)
    } else if m == "minecraft:notification/server/saving"@ {
        Some(EventData::ServerSaving)
    } else if m == "minecraft:notification/server/saved"@ {
        Some(EventData::ServerSaved)
    } else if m == "minecraft:notification/server/status"@ {
        wrap(pick_status(p, "status"@), |s| EventData::ServerStatus(s))
    } else if m == "minecraft:notification/server/activity"@ {
        Some(EventData::ServerActivity)
    } else if m == "minecraft:notification/players/joined"@ {
        wrap(pick_player(p, "player"@), |x| EventData::PlayerJoined(x))
    } else if m == "minecraft:notification/players/left"@ {
        wrap(pick_player(p, "player"@), |x| EventData::PlayerLeft(x))
    } else if m == "minecraft:notification/operators/added"@ {
        wrap(
            or_else(pick_operator(p, "player"@), pick_operator(p, "operator"@)),
            |o| EventData::OperatorAdded(o),
        )
    } else if m == "minecraft:notification/operators/removed"@ {
        wrap(
            or_else(pick_operator(p, "player"@), pick_operator(p, "operator"@)),
            |o| EventData::OperatorRemoved(o),
        )
    } else if m == "minecraft:notification/allowlist/added"@ {
        wrap(pick_player(p, "player"@), |x| EventData::AllowlistAdded(x))
    } else if m == "minecraft:notification/allowlist/removed"@ {
        wrap(pick_player(p, "player"@), |x| EventData::AllowlistRemoved(x))
    } else if m == "minecraft:notification/ip_bans/added"@ {
        wrap(
            or_else(pick_ip_ban(p, "ban"@), pick_ip_ban(p, "player"@)),
            |b| EventData::IpBanAdded(b),
        )
    } else if m == "minecraft:notification/ip_bans/removed"@ {
        wrap(
            or_else(pick_text(p, "ip"@), pick_text(p, "player"@)),
            |t| EventData::IpBanRemoved(t),
        )
    } else if m == "minecraft:notification/bans/added"@ {
        wrap(
            or_else(pick_user_ban(p, "ban"@), pick_user_ban(p, "player"@)),
            |b| EventData::UserBanAdded(b),
        )
    } else if m == "minecraft:notification/bans/removed"@ {
        wrap(pick_player(p, "player"@), |x| EventData::UserBanRemoved(x))
    } else if m == "minecraft:notification/gamerules/updated"@ {
        wrap(pick_gamerule(p, "gamerule"@), |g| EventData::GameRuleUpdated(g))
    } else if m == "minecraft:notification/world/upgrade_started"@ && world {
        Some(EventData::WorldUpgradeStarted)
    } else if m == "minecraft:notification/world/upgrade_progress"@ && world {
        wrap(pick_progress(p, "progress"@), |b| EventData::WorldUpgradeProgress(b))
    } else if m == "minecraft:notification/world/upgrade_finished"@ && world {
        Some(EventData::WorldUpgradeFinished)
    } else if m == "minecraft:notification/world/upgrade_failed"@ && world {
        wrap(pick_text(p, "reason"@), |t| EventData::WorldUpgradeFailed(t))
    } else {
        None
    }
}

/// The event a notification decodes to: its typed form, or `Unknown`
/// with the notification unchanged.
pub open spec fn event_of(raw: RawData, world: bool) -> EventData {
    match decode_spec(raw.method, raw.params, world) {
        Some(e) => e,
        None => EventData::Unknown(raw),
    }
}

fn member<'a>(raw: &'a RawNotification, name: &str) -> (r: Option<&'a JsonValue>)
    ensures
        match r {
            Some(v) => member_of(raw@.params, name@) == Some(v@),
            None => member_of(raw@.params, name@) is None,
        },
{
    match &raw.params {
        Some(p) => if p.is_object() {
            p.get(name)
        } else {
            None
        },
        None => None,
    }
}

fn player_param(raw: &RawNotification, name: &str) -> (r: Option<PlayerRef>)
    ensures
        match r {
            Some(x) => pick_player(raw@.params, name@) == Some(x@),
            None => pick_player(raw@.params, name@) is None,
        },
{
    match member(raw, name) {
        Some(v) => PlayerRef::from_json(v),
        None => None,
    }
}

fn status_param(raw: &RawNotification, name: &str) -> (r: Option<ServerState>)
    ensures
        match r {
            Some(x) => pick_status(raw@.params, name@) == Some(x@),
            None => pick_status(raw@.params, name@) is None,
        },
{
    match member(raw, name) {
        Some(v) => ServerState::from_json(v),
        None => None,
    }
}

fn operator_param(raw: &RawNotification) -> (r: Option<Operator>)
    ensures
        match r {
            Some(x) => or_else(pick_operator(raw@.params, "player"@), pick_operator(raw@.params, "operator"@)) == Some(x@),
            None => or_else(pick_operator(raw@.params, "player"@), pick_operator(raw@.params, "operator"@)) is None,
        },
{
    let first = match member(raw, "player") {
        Some(v) => Operator::from_json(v),
        None => None,
    };
    match first {
        Some(o) => Some(o),
        None => match member(raw, "operator") {
            Some(v) => Operator::from_json(v),
            None => None,
        },
    }
}

fn ip_ban_param(raw: &RawNotification) -> (r: Option<IpBan>)
    ensures
        match r {
            Some(x) => or_else(pick_ip_ban(raw@.params, "ban"@), pick_ip_ban(raw@.params, "player"@)) == Some(x@),
            None => or_else(pick_ip_ban(raw@.params, "ban"@), pick_ip_ban(raw@.params, "player"@)) is None,
        },
{
    let first = match member(raw, "ban") {
        Some(v) => IpBan::from_json(v),
        None => None,
    };
    match first {
        Some(b) => Some(b),
        None => match member(raw, "player") {
            Some(v) => IpBan::from_json(v),
            None => None,
        },
    }
}

fn user_ban_param(raw: &RawNotification) -> (r: Option<UserBan>)
    ensures
        match r {
            Some(x) => or_else(pick_user_ban(raw@.params, "ban"@), pick_user_ban(raw@.params, "player"@)) == Some(x@),
            None => or_else(pick_user_ban(raw@.params, "ban"@), pick_user_ban(raw@.params, "player"@)) is None,
        },
{
    let first = match member(raw, "ban") {
        Some(v) => UserBan::from_json(v),
        None => None,
    };
    match first {
        Some(b) => Some(b),
        None => match member(raw, "player") {
            Some(v) => UserBan::from_json(v),
            None => None,
        },
    }
}

fn text_param(raw: &RawNotification, name: &str) -> (r: Option<String>)
    ensures
        match r {
            Some(x) => pick_text(raw@.params, name@) == Some(x@),
            None => pick_text(raw@.params, name@) is None,
        },
{
    match member(raw, name) {
        Some(v) => match v.as_str() {
            Some(t) => Some(t.to_owned()),
            None => None,
        },
        None => None,
    }
}

fn gamerule_param(raw: &RawNotification, name: &str) -> (r: Option<TypedGameRule>)
    ensures
        match r {
            Some(x) => pick_gamerule(raw@.params, name@) == Some(x@),
            None => pick_gamerule(raw@.params, name@) is None,
        },
{
    match member(raw, name) {
        Some(v) => TypedGameRule::from_json(v),
        None => None,
    }
}

fn progress_param(raw: &RawNotification, name: &str) -> (r: Option<u64>)
    ensures
        r == pick_progress(raw@.params, name@),
{
    match member(raw, name) {
        Some(JsonValue::Number(n)) => match n {
            JsonNumber::PosInt(u) => if *u == 0 {
                Some(0)
            } else if *u == 1 {
                Some(0x3FF0_0000_0000_0000)
            } else {
                None
            },
            JsonNumber::NegInt(_) => None,
            JsonNumber::Float(b) => if *b <= 0x3FF0_0000_0000_0000 || *b == 0x8000_0000_0000_0000 {
                Some(*b)
            } else {
                None
            },
        },
        _ => None,
    }
}

fn decode_known(raw: &RawNotification, world: bool) -> (r: Option<Event>)
    ensures
        match r {
            Some(e) => decode_spec(raw@.method, raw@.params, world) == Some(e@),
            None => decode_spec(raw@.method, raw@.params, world) is None,
        },
{
    let m = raw.method.as_str();
    if str_eq(m, "minecraft:notification/server/started") {
        Some(Event::ServerStarted)
    } else if str_eq(m, "minecraft:notification/server/stopping") {
        Some(Event::ServerStopping)
    } else if str_eq(m, "minecraft:notification/server/saving") {
        Some(Event::ServerSaving)
    } else if str_eq(m, "minecraft:notification/server/saved") {
        Some(Event::ServerSaved)
    } else if str_eq(m, "minecraft:notification/server/status") {
        match status_param(raw, "status") {
            Some(status) => Some(Event::ServerStatus { status }),
            None => None,
        }
    } else if str_eq(m, "minecraft:notification/server/activity") {
        Some(Event::ServerActivity)
    } else if str_eq(m, "minecraft:notification/players/joined") {
        match player_param(raw, "player") {
            Some(player) => Some(Event::PlayerJoined { player }),
            None => None,
        }
    } else if str_eq(m, "minecraft:notification/players/left") {
        match player_param(raw, "player") {
            Some(player) => Some(Event::PlayerLeft { player }),
            None => None,
        }
    } else if str_eq(m, "minecraft:notification/operators/added") {
        match operator_param(raw) {
            Some(operator) => Some(Event::OperatorAdded { operator }),
            None => None,
        }
    } else if str_eq(m, "minecraft:notification/operators/removed") {
        match operator_param(raw) {
            Some(operator) => Some(Event::OperatorRemoved { operator }),
            None => None,
        }
    } else if str_eq(m, "minecraft:notification/allowlist/added") {
        match player_param(raw, "player") {
            Some(player) => Some(Event::AllowlistAdded { player }),
            None => None,
        }
    } else if str_eq(m, "minecraft:notification/allowlist/removed") {
        match player_param(raw, "player") {
            Some(player) => Some(Event::AllowlistRemoved { player }),
            None => None,
        }
    } else if str_eq(m, "minecraft:notification/ip_bans/added") {
        match ip_ban_param(raw) {
            Some(ban) => Some(Event::IpBanAdded { ban }),
            None => None,
        }
    } else if str_eq(m, "minecraft:notification/ip_bans/removed") {
        let first = text_param(raw, "ip");
        let ip = match first {
            Some(t) => Some(t),
            None => text_param(raw, "player"),
        };
        match ip {
            Some(ip) => Some(Event::IpBanRemoved { ip }),
            None => None,
        }
    } else if str_eq(m, "minecraft:notification/bans/added") {
        match user_ban_param(raw) {
            Some(ban) => Some(Event::UserBanAdded { ban }),
            None => None,
        }
    } else if str_eq(m, "minecraft:notification/bans/removed") {
        match player_param(raw, "player") {
            Some(player) => Some(Event::UserBanRemoved { player }),
            None => None,
        }
    } else if str_eq(m, "minecraft:notification/gamerules/updated") {
        match gamerule_param(raw, "gamerule") {
            Some(gamerule) => Some(Event::GameRuleUpdated { gamerule }),
            None => None,
        }
    } else if str_eq(m, "minecraft:notification/world/upgrade_started") && world {
        Some(Event::WorldUpgradeStarted)
    } else if str_eq(m, "minecraft:notification/world/upgrade_progress") && world {
        match progress_param(raw, "progress") {
            Some(progress_bits) => Some(Event::WorldUpgradeProgress { progress_bits }),
            None => None,
        }
    } else if str_eq(m, "minecraft:notification/world/upgrade_finished") && world {
        Some(Event::WorldUpgradeFinished)
    } else if str_eq(m, "minecraft:notification/world/upgrade_failed") && world {
        match text_param(raw, "reason") {
            Some(reason) => Some(Event::WorldUpgradeFailed { reason }),
            None => None,
        }
    } else {
        None
    }
}

/// Decodes a normalized notification into a typed event. Unknown methods,
/// payloads that do not decode, and world-upgrade notifications that
/// discovery did not imply become `Event::Unknown` with the notification
/// unchanged.
pub fn decode_event(raw: RawNotification, capabilities: Option<&Capabilities>) -> (r: Event)
    ensures
        r@ == event_of(raw@, world_upgrade_supported(capabilities)),
{
    let world = match capabilities {
        Some(c) => c.supports_feature(Feature::WorldUpgradeNotifications) || c.supports_notification(
            "minecraft:notification/world/upgrade_started",
        ),
        None => false,
    };
    match decode_known(&raw, world) {
        Some(e) => e,
        None => Event::Unknown(raw),
    }
}

/// A recoverable error emitted while consuming an event stream.
#[derive(Clone, Copy, Debug, PartialEq, Eq, Structural)]
#[non_exhaustive]
pub enum EventStreamError {
    /// The subscriber did not consume events quickly enough for the bounded
    /// broadcast buffer.
    Lagged {
        /// Number of events discarded for this subscriber.
        dropped: u64,
    },
    /// The client closed its event broadcaster.
    Closed,
}

impl EventStreamError {
    /// A human-readable description of the error.
    pub fn message(&self) -> (r: String)
        ensures
            r@ == match self {
                EventStreamError::Lagged { dropped } => "event subscriber lagged behind and missed "@
                    + crate::text::decimal(*dropped as nat) + " events"@,
                EventStreamError::Closed => "event stream is closed"@,
            },
    {
        match self {
            EventStreamError::Lagged { dropped } => {
                let mut r = String::new();
                push_str(&mut r, "event subscriber lagged behind and missed ");
                push_str(&mut r, crate::text::u64_to_decimal(*dropped).as_str());
                push_str(&mut r, " events");
                r
            },
            EventStreamError::Closed => "event stream is closed".to_owned(),
        }
    }
}

/// The notification names this client decodes.
pub open spec fn known_method(m: Seq<char>) -> bool {
    ||| m == "minecraft:notification/server/started"@
        || m == "minecraft:notification/server/stopping"@
        || m == "minecraft:notification/server/saving"@
        || m == "minecraft:notification/server/saved"@
        || m == "minecraft:notification/server/status"@
        || m == "minecraft:notification/server/activity"@
        || m == "minecraft:notification/players/joined"@
        || m == "minecraft:notification/players/left"@
        || m == "minecraft:notification/operators/added"@
        || m == "minecraft:notification/operators/removed"@
        || m == "minecraft:notification/allowlist/added"@
        || m == "minecraft:notification/allowlist/removed"@
        || m == "minecraft:notification/ip_bans/added"@
        || m == "minecraft:notification/ip_bans/removed"@
        || m == "minecraft:notification/bans/added"@
        || m == "minecraft:notification/bans/removed"@
        || m == "minecraft:notification/gamerules/updated"@
        || m == "minecraft:notification/world/upgrade_started"@
        || m == "minecraft:notification/world/upgrade_progress"@
        || m == "minecraft:notification/world/upgrade_finished"@
        || m == "minecraft:notification/world/upgrade_failed"@
}

/// Names already in the current namespace are left as they are.
pub proof fn lemma_current_names_unchanged(raw: RawData, mode: CompatibilityMode)
    requires
        has_prefix(raw.method, current_prefix()),
    ensures
        normalize_spec(raw, mode) == Ok::<RawData, Seq<char>>(raw),
{
}

/// Normalizing twice changes nothing more than normalizing once.
pub proof fn lemma_normalize_idempotent(raw: RawData, mode: CompatibilityMode, n: RawData)
    requires
        normalize_spec(raw, mode) == Ok::<RawData, Seq<char>>(n),
    ensures
        normalize_spec(n, mode) == Ok::<RawData, Seq<char>>(n),
{
    if n.method != raw.method {
        let suffix = raw.method.subrange(legacy_prefix().len() as int, raw.method.len() as int);
        assert(n.method == current_prefix() + suffix);
        assert(n.method.subrange(0, current_prefix().len() as int) =~= current_prefix());
    }
}

/// Compatible and permissive mode normalize alike; strict mode refuses a
/// historical name, with the name in the message.
pub proof fn lemma_only_strict_refuses_legacy_names(raw: RawData)
    ensures
        normalize_spec(raw, CompatibilityMode::Compatible) == normalize_spec(
            raw,
            CompatibilityMode::Permissive,
        ),
        normalize_spec(raw, CompatibilityMode::Compatible) is Ok,
        has_prefix(raw.method, legacy_prefix()) && !has_prefix(raw.method, current_prefix())
            ==> normalize_spec(raw, CompatibilityMode::Strict) == Err::<RawData, Seq<char>>(
            legacy_refusal(raw.method),
        ),
        !has_prefix(raw.method, legacy_prefix()) ==> normalize_spec(raw, CompatibilityMode::Strict)
            == Ok::<RawData, Seq<char>>(raw),
{
}

/// A notification whose name this client does not know is delivered as
/// `Unknown`, unchanged.
pub proof fn lemma_unknown_methods_pass_through(raw: RawData, world: bool)
    requires
        !known_method(raw.method),
    ensures
        event_of(raw, world) == EventData::Unknown(raw),
{
}

/// World-upgrade notifications are typed only when discovery implied
/// them; otherwise they are delivered as `Unknown`.
pub proof fn lemma_world_upgrade_needs_capability(raw: RawData)
    requires
        raw.method == "minecraft:notification/world/upgrade_started"@,
    ensures
        event_of(raw, false) == EventData::Unknown(raw),
        event_of(raw, true) == EventData::WorldUpgradeStarted,
{
    reveal_strlit("minecraft:notification/server/started");
    reveal_strlit("minecraft:notification/server/stopping");
    reveal_strlit("minecraft:notification/server/saving");
    reveal_strlit("minecraft:notification/server/saved");
    reveal_strlit("minecraft:notification/server/status");
    reveal_strlit("minecraft:notification/server/activity");
    reveal_strlit("minecraft:notification/players/joined");
    reveal_strlit("minecraft:notification/players/left");
    reveal_strlit("minecraft:notification/operators/added");
    reveal_strlit("minecraft:notification/operators/removed");
    reveal_strlit("minecraft:notification/allowlist/added");
    reveal_strlit("minecraft:notification/allowlist/removed");
    reveal_strlit("minecraft:notification/ip_bans/added");
    reveal_strlit("minecraft:notification/ip_bans/removed");
    reveal_strlit("minecraft:notification/bans/added");
    reveal_strlit("minecraft:notification/bans/removed");
    reveal_strlit("minecraft:notification/gamerules/updated");
    reveal_strlit("minecraft:notification/world/upgrade_started");
    reveal_strlit("minecraft:notification/world/upgrade_progress");
    reveal_strlit("minecraft:notification/world/upgrade_finished");
    reveal_strlit("minecraft:notification/world/upgrade_failed");
    assert(raw.method[23] != "minecraft:notification/server/started"@[23]);
    assert(raw.method[23] != "minecraft:notification/server/stopping"@[23]);
    assert(raw.method[23] != "minecraft:notification/server/saving"@[23]);
    assert(raw.method[23] != "minecraft:notification/server/saved"@[23]);
    assert(raw.method[23] != "minecraft:notification/server/status"@[23]);
    assert(raw.method[23] != "minecraft:notification/server/activity"@[23]);
    assert(raw.method[23] != "minecraft:notification/players/joined"@[23]);
    assert(raw.method[23] != "minecraft:notification/players/left"@[23]);
    assert(raw.method[23] != "minecraft:notification/operators/added"@[23]);
    assert(raw.method[23] != "minecraft:notification/operators/removed"@[23]);
    assert(raw.method[23] != "minecraft:notification/allowlist/added"@[23]);
    assert(raw.method[23] != "minecraft:notification/allowlist/removed"@[23]);
    assert(raw.method[23] != "minecraft:notification/ip_bans/added"@[23]);
    assert(raw.method[23] != "minecraft:notification/ip_bans/removed"@[23]);
    assert(raw.method[23] != "minecraft:notification/bans/added"@[23]);
    assert(raw.method[23] != "minecraft:notification/bans/removed"@[23]);
    assert(raw.method[23] != "minecraft:notification/gamerules/updated"@[23]);
}

/// The notification method that an event stands for; `None` for `Unknown`.
pub open spec fn method_of_event(e: EventData) -> Option<Seq<char>> {
    match e {
        EventData::ServerStarted => Some("minecraft:notification/server/started"@),
        EventData::ServerStopping => Some("minecraft:notification/server/stopping"@),
        EventData::ServerSaving => Some("minecraft:notification/server/saving"@),
        EventData::ServerSaved => Some("minecraft:notification/server/saved"@),
        EventData::ServerStatus(_) => Some("minecraft:notification/server/status"@),
        EventData::ServerActivity => Some("minecraft:notification/server/activity"@),
        EventData::PlayerJoined(_) => Some("minecraft:notification/players/joined"@),
        EventData::PlayerLeft(_) => Some("minecraft:notification/players/left"@),
        EventData::OperatorAdded(_) => Some("minecraft:notification/operators/added"@),
        EventData::OperatorRemoved(_) => Some("minecraft:notification/operators/removed"@),
        EventData::AllowlistAdded(_) => Some("minecraft:notification/allowlist/added"@),
        EventData::AllowlistRemoved(_) => Some("minecraft:notification/allowlist/removed"@),
        EventData::IpBanAdded(_) => Some("minecraft:notification/ip_bans/added"@),
        EventData::IpBanRemoved(_) => Some("minecraft:notification/ip_bans/removed"@),
        EventData::UserBanAdded(_) => Some("minecraft:notification/bans/added"@),
        EventData::UserBanRemoved(_) => Some("minecraft:notification/bans/removed"@),
        EventData::GameRuleUpdated(_) => Some("minecraft:notification/gamerules/updated"@),
        EventData::WorldUpgradeStarted => Some("minecraft:notification/world/upgrade_started"@),
        EventData::WorldUpgradeProgress(_) => Some("minecraft:notification/world/upgrade_progress"@),
        EventData::WorldUpgradeFinished => Some("minecraft:notification/world/upgrade_finished"@),
        EventData::WorldUpgradeFailed(_) => Some("minecraft:notification/world/upgrade_failed"@),
        EventData::Unknown(_) => None,
    }
}

/// A typed event is the event of the notification's own method: whenever a
/// notification decodes to a typed event, that event's kind names exactly
/// the notification's method. So two different methods never decode to the
/// same kind of event, and `Unknown` carries the notification unchanged.
pub proof fn lemma_event_kind_names_its_method(raw: RawData, world: bool)
    ensures
        match event_of(raw, world) {
            EventData::Unknown(r) => r == raw,
            e => method_of_event(e) == Some(raw.method),
        },
{
}

/// The parameters `{"player": p}` of a player notification.
pub open spec fn player_params(p: PlayerData) -> Option<JsonData> {
    Some(JsonData::Object(seq![("player"@, player_json(p))]))
}

/// A player notification with a valid player selector decodes to the event
/// of its own kind, carrying that player: joined to `PlayerJoined`, left to
/// `PlayerLeft`, and likewise for the allowlist and ban removal.
pub proof fn lemma_player_events_carry_their_player(p: PlayerData, world: bool)
    requires
        selector_ok(p.id, p.name),
    ensures
        event_of(RawData { method: "minecraft:notification/players/joined"@, params: player_params(p) }, world)
            == EventData::PlayerJoined(p),
        event_of(RawData { method: "minecraft:notification/players/left"@, params: player_params(p) }, world)
            == EventData::PlayerLeft(p),
        event_of(RawData { method: "minecraft:notification/allowlist/added"@, params: player_params(p) }, world)
            == EventData::AllowlistAdded(p),
        event_of(RawData { method: "minecraft:notification/allowlist/removed"@, params: player_params(p) }, world)
            == EventData::AllowlistRemoved(p),
        event_of(RawData { method: "minecraft:notification/bans/removed"@, params: player_params(p) }, world)
            == EventData::UserBanRemoved(p),
{
    reveal_strlit("minecraft:notification/server/started");
    reveal_strlit("minecraft:notification/server/stopping");
    reveal_strlit("minecraft:notification/server/saving");
    reveal_strlit("minecraft:notification/server/saved");
    reveal_strlit("minecraft:notification/server/status");
    reveal_strlit("minecraft:notification/server/activity");
    reveal_strlit("minecraft:notification/players/joined");
    reveal_strlit("minecraft:notification/players/left");
    reveal_strlit("minecraft:notification/operators/added");
    reveal_strlit("minecraft:notification/operators/removed");
    reveal_strlit("minecraft:notification/allowlist/added");
    reveal_strlit("minecraft:notification/allowlist/removed");
    reveal_strlit("minecraft:notification/ip_bans/added");
    reveal_strlit("minecraft:notification/ip_bans/removed");
    reveal_strlit("minecraft:notification/bans/added");
    reveal_strlit("minecraft:notification/bans/removed");
    reveal_strlit("minecraft:notification/gamerules/updated");
    reveal_strlit("minecraft:notification/world/upgrade_started");
    reveal_strlit("minecraft:notification/world/upgrade_progress");
    reveal_strlit("minecraft:notification/world/upgrade_finished");
    reveal_strlit("minecraft:notification/world/upgrade_failed");
    assert("minecraft:notification/players/joined"@[23] != "minecraft:notification/server/started"@[23]);
    assert("minecraft:notification/players/joined"@ != "minecraft:notification/server/started"@);
    assert("minecraft:notification/players/joined"@.len() != "minecraft:notification/server/stopping"@.len());
    assert("minecraft:notification/players/joined"@ != "minecraft:notification/server/stopping"@);
    assert("minecraft:notification/players/joined"@.len() != "minecraft:notification/server/saving"@.len());
    assert("minecraft:notification/players/joined"@ != "minecraft:notification/server/saving"@);
    assert("minecraft:notification/players/joined"@.len() != "minecraft:notification/server/saved"@.len());
    assert("minecraft:notification/players/joined"@ != "minecraft:notification/server/saved"@);
    assert("minecraft:notification/players/joined"@.len() != "minecraft:notification/server/status"@.len());
    assert("minecraft:notification/players/joined"@ != "minecraft:notification/server/status"@);
    assert("minecraft:notification/players/joined"@.len() != "minecraft:notification/server/activity"@.len());
    assert("minecraft:notification/players/joined"@ != "minecraft:notification/server/activity"@);
    assert("minecraft:notification/players/left"@.len() != "minecraft:notification/server/started"@.len());
    assert("minecraft:notification/players/left"@ != "minecraft:notification/server/started"@);
    assert("minecraft:notification/players/left"@.len() != "minecraft:notification/server/stopping"@.len());
    assert("minecraft:notification/players/left"@ != "minecraft:notification/server/stopping"@);
    assert("minecraft:notification/players/left"@.len() != "minecraft:notification/server/saving"@.len());
    assert("minecraft:notification/players/left"@ != "minecraft:notification/server/saving"@);
    assert("minecraft:notification/players/left"@[23] != "minecraft:notification/server/saved"@[23]);
    assert("minecraft:notification/players/left"@ != "minecraft:notification/server/saved"@);
    assert("minecraft:notification/players/left"@.len() != "minecraft:notification/server/status"@.len());
    assert("minecraft:notification/players/left"@ != "minecraft:notification/server/status"@);
    assert("minecraft:notification/players/left"@.len() != "minecraft:notification/server/activity"@.len());
    assert("minecraft:notification/players/left"@ != "minecraft:notification/server/activity"@);
    assert("minecraft:notification/players/left"@.len() != "minecraft:notification/players/joined"@.len());
    assert("minecraft:notification/players/left"@ != "minecraft:notification/players/joined"@);
    assert("minecraft:notification/allowlist/added"@.len() != "minecraft:notification/server/started"@.len());
    assert("minecraft:notification/allowlist/added"@ != "minecraft:notification/server/started"@);
    assert("minecraft:notification/allowlist/added"@[23] != "minecraft:notification/server/stopping"@[23]);
    assert("minecraft:notification/allowlist/added"@ != "minecraft:notification/server/stopping"@);
    assert("minecraft:notification/allowlist/added"@.len() != "minecraft:notification/server/saving"@.len());
    assert("minecraft:notification/allowlist/added"@ != "minecraft:notification/server/saving"@);
    assert("minecraft:notification/allowlist/added"@.len() != "minecraft:notification/server/saved"@.len());
    assert("minecraft:notification/allowlist/added"@ != "minecraft:notification/server/saved"@);
    assert("minecraft:notification/allowlist/added"@.len() != "minecraft:notification/server/status"@.len());
    assert("minecraft:notification/allowlist/added"@ != "minecraft:notification/server/status"@);
    assert("minecraft:notification/allowlist/added"@[23] != "minecraft:notification/server/activity"@[23]);
    assert("minecraft:notification/allowlist/added"@ != "minecraft:notification/server/activity"@);
    assert("minecraft:notification/allowlist/added"@.len() != "minecraft:notification/players/joined"@.len());
    assert("minecraft:notification/allowlist/added"@ != "minecraft:notification/players/joined"@);
    assert("minecraft:notification/allowlist/added"@.len() != "minecraft:notification/players/left"@.len());
    assert("minecraft:notification/allowlist/added"@ != "minecraft:notification/players/left"@);
    assert("minecraft:notification/allowlist/added"@[23] != "minecraft:notification/operators/added"@[23]);
    assert("minecraft:notification/allowlist/added"@ != "minecraft:notification/operators/added"@);
    assert("minecraft:notification/allowlist/added"@.len() != "minecraft:notification/operators/removed"@.len());
    assert("minecraft:notification/allowlist/added"@ != "minecraft:notification/operators/removed"@);
    assert("minecraft:notification/allowlist/removed"@.len() != "minecraft:notification/server/started"@.len());
    assert("minecraft:notification/allowlist/removed"@ != "minecraft:notification/server/started"@);
    assert("minecraft:notification/allowlist/removed"@.len() != "minecraft:notification/server/stopping"@.len());
    assert("minecraft:notification/allowlist/removed"@ != "minecraft:notification/server/stopping"@);
    assert("minecraft:notification/allowlist/removed"@.len() != "minecraft:notification/server/saving"@.len());
    assert("minecraft:notification/allowlist/removed"@ != "minecraft:notification/server/saving"@);
    assert("minecraft:notification/allowlist/removed"@.len() != "minecraft:notification/server/saved"@.len());
    assert("minecraft:notification/allowlist/removed"@ != "minecraft:notification/server/saved"@);
    assert("minecraft:notification/allowlist/removed"@.len() != "minecraft:notification/server/status"@.len());
    assert("minecraft:notification/allowlist/removed"@ != "minecraft:notification/server/status"@);
    assert("minecraft:notification/allowlist/removed"@.len() != "minecraft:notification/server/activity"@.len());
    assert("minecraft:notification/allowlist/removed"@ != "minecraft:notification/server/activity"@);
    assert("minecraft:notification/allowlist/removed"@.len() != "minecraft:notification/players/joined"@.len());
    assert("minecraft:notification/allowlist/removed"@ != "minecraft:notification/players/joined"@);
    assert("minecraft:notification/allowlist/removed"@.len() != "minecraft:notification/players/left"@.len());
    assert("minecraft:notification/allowlist/removed"@ != "minecraft:notification/players/left"@);
    assert("minecraft:notification/allowlist/removed"@.len() != "minecraft:notification/operators/added"@.len());
    assert("minecraft:notification/allowlist/removed"@ != "minecraft:notification/operators/added"@);
    assert("minecraft:notification/allowlist/removed"@[23] != "minecraft:notification/operators/removed"@[23]);
    assert("minecraft:notification/allowlist/removed"@ != "minecraft:notification/operators/removed"@);
    assert("minecraft:notification/allowlist/removed"@.len() != "minecraft:notification/allowlist/added"@.len());
    assert("minecraft:notification/allowlist/removed"@ != "minecraft:notification/allowlist/added"@);
    assert("minecraft:notification/bans/removed"@.len() != "minecraft:notification/server/started"@.len());
    assert("minecraft:notification/bans/removed"@ != "minecraft:notification/server/started"@);
    assert("minecraft:notification/bans/removed"@.len() != "minecraft:notification/server/stopping"@.len());
    assert("minecraft:notification/bans/removed"@ != "minecraft:notification/server/stopping"@);
    assert("minecraft:notification/bans/removed"@.len() != "minecraft:notification/server/saving"@.len());
    assert("minecraft:notification/bans/removed"@ != "minecraft:notification/server/saving"@);
    assert("minecraft:notification/bans/removed"@[23] != "minecraft:notification/server/saved"@[23]);
    assert("minecraft:notification/bans/removed"@ != "minecraft:notification/server/saved"@);
    assert("minecraft:notification/bans/removed"@.len() != "minecraft:notification/server/status"@.len());
    assert("minecraft:notification/bans/removed"@ != "minecraft:notification/server/status"@);
    assert("minecraft:notification/bans/removed"@.len() != "minecraft:notification/server/activity"@.len());
    assert("minecraft:notification/bans/removed"@ != "minecraft:notification/server/activity"@);
    assert("minecraft:notification/bans/removed"@.len() != "minecraft:notification/players/joined"@.len());
    assert("minecraft:notification/bans/removed"@ != "minecraft:notification/players/joined"@);
    assert("minecraft:notification/bans/removed"@[23] != "minecraft:notification/players/left"@[23]);
    assert("minecraft:notification/bans/removed"@ != "minecraft:notification/players/left"@);
    assert("minecraft:notification/bans/removed"@.len() != "minecraft:notification/operators/added"@.len());
    assert("minecraft:notification/bans/removed"@ != "minecraft:notification/operators/added"@);
    assert("minecraft:notification/bans/removed"@.len() != "minecraft:notification/operators/removed"@.len());
    assert("minecraft:notification/bans/removed"@ != "minecraft:notification/operators/removed"@);
    assert("minecraft:notification/bans/removed"@.len() != "minecraft:notification/allowlist/added"@.len());
    assert("minecraft:notification/bans/removed"@ != "minecraft:notification/allowlist/added"@);
    assert("minecraft:notification/bans/removed"@.len() != "minecraft:notification/allowlist/removed"@.len());
    assert("minecraft:notification/bans/removed"@ != "minecraft:notification/allowlist/removed"@);
    assert("minecraft:notification/bans/removed"@.len() != "minecraft:notification/ip_bans/added"@.len());
    assert("minecraft:notification/bans/removed"@ != "minecraft:notification/ip_bans/added"@);
    assert("minecraft:notification/bans/removed"@.len() != "minecraft:notification/ip_bans/removed"@.len());
    assert("minecraft:notification/bans/removed"@ != "minecraft:notification/ip_bans/removed"@);
    assert("minecraft:notification/bans/removed"@.len() != "minecraft:notification/bans/added"@.len());
    assert("minecraft:notification/bans/removed"@ != "minecraft:notification/bans/added"@);
    reveal_strlit("player");
    crate::model::player::lemma_player_round_trip(p);
    let e = seq![("player"@, player_json(p))];
    crate::json::lemma_member_at(e, "player"@, 0);
    assert(pick_player(player_params(p), "player"@) == Some(p));
}

/// Normalization only renames: when it succeeds, the parameters are those
/// given, and the method is either the one given or, for a historical
/// `notification:` name, the same suffix under `minecraft:notification/`.
pub proof fn lemma_normalize_only_renames(raw: RawData, mode: CompatibilityMode)
    ensures
        normalize_spec(raw, mode) matches Ok(n) ==> n.params == raw.params && (n.method == raw.method
            || n.method == "minecraft:notification/"@ + raw.method.subrange(13, raw.method.len() as int)),
        raw.method.len() >= 13 && raw.method.subrange(0, 13) == "notification:"@ ==> (
        normalize_spec(raw, mode) matches Ok(n) ==> n.method == "minecraft:notification/"@
            + raw.method.subrange(13, raw.method.len() as int)),
{
    reveal_strlit("notification:");
    reveal_strlit("minecraft:notification/");
    if raw.method.len() >= 13 && raw.method.subrange(0, 13) == "notification:"@ {
        if raw.method.len() >= 23 {
            assert(raw.method.subrange(0, 23)[0] == 'n');
        }
        assert(!has_prefix(raw.method, current_prefix()));
    }
}

} // verus!
