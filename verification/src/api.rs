//! The wire contract of the typed MCSMP resource APIs: which method each
//! operation calls, how its parameters are wrapped, and how its result is
//! read.

use vstd::prelude::*;

use crate::error::Error;
use crate::json::{
    as_bool_spec, as_i32_spec, as_str_spec, get_spec, lemma_array_view, lemma_object_members,
    members_view, push_member, JsonData, JsonValue,
};
use crate::model::ban::{ip_ban_from_json, user_ban_from_json, IpBan, IpBanData, UserBan, UserBanData};
use crate::model::gamerule::{typed_rule_from_json, TypedGameRule, TypedGameRuleData};
use crate::model::server::{
    operator_from_json, players_from_json, read_players, state_from_json, Operator, OperatorData,
    ServerState,
};
use crate::model::message::players_view;
use crate::model::player::PlayerRef;
use crate::model::settings::{difficulty_from_name, game_mode_from_name, Difficulty, GameMode};
use crate::text::push_str;

verus! {

/// An operation of a typed resource API.
#[derive(Clone, Copy, Debug, PartialEq, Eq, Structural)]
pub enum Operation {
    AllowlistList,
    AllowlistSet,
    AllowlistAdd,
    AllowlistRemove,
    AllowlistClear,
    BansList,
    BansSet,
    BansAdd,
    BansRemove,
    BansClear,
    IpBansList,
    IpBansSet,
    IpBansAdd,
    IpBansRemove,
    IpBansClear,
    OperatorsList,
    OperatorsSet,
    OperatorsAdd,
    OperatorsRemove,
    OperatorsClear,
    PlayersList,
    PlayersKick,
    ServerStatus,
    ServerSave,
    ServerStop,
    ServerSystemMessage,
    GamerulesList,
    GamerulesUpdate,
}

/// The JSON-RPC method, the name of the single parameter (if any) and the
/// result member of an operation.
pub open spec fn contract(op: Operation) -> (Seq<char>, Option<Seq<char>>, Seq<char>) {
    match op {
        Operation::AllowlistList => ("minecraft:allowlist"@, None, "allowlist"@),
        Operation::AllowlistSet => ("minecraft:allowlist/set"@, Some("players"@), "allowlist"@),
        Operation::AllowlistAdd => ("minecraft:allowlist/add"@, Some("add"@), "allowlist"@),
        Operation::AllowlistRemove => ("minecraft:allowlist/remove"@, Some("remove"@), "allowlist"@),
        Operation::AllowlistClear => ("minecraft:allowlist/clear"@, None, "allowlist"@),
        Operation::BansList => ("minecraft:bans"@, None, "banlist"@),
        Operation::BansSet => ("minecraft:bans/set"@, Some("bans"@), "banlist"@),
        Operation::BansAdd => ("minecraft:bans/add"@, Some("add"@), "banlist"@),
        Operation::BansRemove => ("minecraft:bans/remove"@, Some("remove"@), "banlist"@),
        Operation::BansClear => ("minecraft:bans/clear"@, None, "banlist"@),
        Operation::IpBansList => ("minecraft:ip_bans"@, None, "banlist"@),
        Operation::IpBansSet => ("minecraft:ip_bans/set"@, Some("banlist"@), "banlist"@),
        Operation::IpBansAdd => ("minecraft:ip_bans/add"@, Some("add"@), "banlist"@),
        Operation::IpBansRemove => ("minecraft:ip_bans/remove"@, Some("ip"@), "banlist"@),
        Operation::IpBansClear => ("minecraft:ip_bans/clear"@, None, "banlist"@),
        Operation::OperatorsList => ("minecraft:operators"@, None, "operators"@),
        Operation::OperatorsSet => ("minecraft:operators/set"@, Some("operators"@), "operators"@),
        Operation::OperatorsAdd => ("minecraft:operators/add"@, Some("add"@), "operators"@),
        Operation::OperatorsRemove => ("minecraft:operators/remove"@, Some("remove"@), "operators"@),
        Operation::OperatorsClear => ("minecraft:operators/clear"@, None, "operators"@),
        Operation::PlayersList => ("minecraft:players"@, None, "players"@),
        Operation::PlayersKick => ("minecraft:players/kick"@, Some("kick"@), "kicked"@),
        Operation::ServerStatus => ("minecraft:server/status"@, None, "status"@),
        Operation::ServerSave => ("minecraft:server/save"@, Some("flush"@), "saving"@),
        Operation::ServerStop => ("minecraft:server/stop"@, None, "stopping"@),
        Operation::ServerSystemMessage => (
            "minecraft:server/system_message"@,
            Some("message"@),
            "sent"@,
        ),
        Operation::GamerulesList => ("minecraft:gamerules"@, None, "gamerules"@),
        Operation::GamerulesUpdate => ("minecraft:gamerules/update"@, Some("gamerule"@), "gamerule"@),
    }
}

impl Operation {
    /// The JSON-RPC method of the operation.
    pub fn method(&self) -> (r: &'static str)
        ensures
            r@ == contract(*self).0,
    {
        match self {
            Operation::AllowlistList => "minecraft:allowlist",
            Operation::AllowlistSet => "minecraft:allowlist/set",
            Operation::AllowlistAdd => "minecraft:allowlist/add",
            Operation::AllowlistRemove => "minecraft:allowlist/remove",
            Operation::AllowlistClear => "minecraft:allowlist/clear",
            Operation::BansList => "minecraft:bans",
            Operation::BansSet => "minecraft:bans/set",
            Operation::BansAdd => "minecraft:bans/add",
            Operation::BansRemove => "minecraft:bans/remove",
            Operation::BansClear => "minecraft:bans/clear",
            Operation::IpBansList => "minecraft:ip_bans",
            Operation::IpBansSet => "minecraft:ip_bans/set",
            Operation::IpBansAdd => "minecraft:ip_bans/add",
            Operation::IpBansRemove => "minecraft:ip_bans/remove",
            Operation::IpBansClear => "minecraft:ip_bans/clear",
            Operation::OperatorsList => "minecraft:operators",
            Operation::OperatorsSet => "minecraft:operators/set",
            Operation::OperatorsAdd => "minecraft:operators/add",
            Operation::OperatorsRemove => "minecraft:operators/remove",
            Operation::OperatorsClear => "minecraft:operators/clear",
            Operation::PlayersList => "minecraft:players",
            Operation::PlayersKick => "minecraft:players/kick",
            Operation::ServerStatus => "minecraft:server/status",
            Operation::ServerSave => "minecraft:server/save",
            Operation::ServerStop => "minecraft:server/stop",
            Operation::ServerSystemMessage => "minecraft:server/system_message",
            Operation::GamerulesList => "minecraft:gamerules",
            Operation::GamerulesUpdate => "minecraft:gamerules/update",
        }
    }

    /// The name of the operation's single parameter, if it takes one.
    pub fn parameter(&self) -> (r: Option<&'static str>)
        ensures
            match r {
                Some(k) => contract(*self).1 == Some(k@),
                None => contract(*self).1 is None,
            },
    {
        match self {
            Operation::AllowlistSet => Some("players"),
            Operation::AllowlistAdd => Some("add"),
            Operation::AllowlistRemove => Some("remove"),
            Operation::BansSet => Some("bans"),
            Operation::BansAdd => Some("add"),
            Operation::BansRemove => Some("remove"),
            Operation::IpBansSet => Some("banlist"),
            Operation::IpBansAdd => Some("add"),
            Operation::IpBansRemove => Some("ip"),
            Operation::OperatorsSet => Some("operators"),
            Operation::OperatorsAdd => Some("add"),
            Operation::OperatorsRemove => Some("remove"),
            Operation::PlayersKick => Some("kick"),
            Operation::ServerSave => Some("flush"),
            Operation::ServerSystemMessage => Some("message"),
            Operation::GamerulesUpdate => Some("gamerule"),
            _ => None,
        }
    }

    /// The result member that carries the operation's answer.
    pub fn result_field(&self) -> (r: &'static str)
        ensures
            r@ == contract(*self).2,
    {
        match self {
            Operation::AllowlistList | Operation::AllowlistSet | Operation::AllowlistAdd
            | Operation::AllowlistRemove | Operation::AllowlistClear => "allowlist",
            Operation::BansList | Operation::BansSet | Operation::BansAdd | Operation::BansRemove
            | Operation::BansClear => "banlist",
            Operation::IpBansList | Operation::IpBansSet | Operation::IpBansAdd
            | Operation::IpBansRemove | Operation::IpBansClear => "banlist",
            Operation::OperatorsList | Operation::OperatorsSet | Operation::OperatorsAdd
            | Operation::OperatorsRemove | Operation::OperatorsClear => "operators",
            Operation::PlayersList => "players",
            Operation::PlayersKick => "kicked",
            Operation::ServerStatus => "status",
            Operation::ServerSave => "saving",
            Operation::ServerStop => "stopping",
            Operation::ServerSystemMessage => "sent",
            Operation::GamerulesList => "gamerules",
            Operation::GamerulesUpdate => "gamerule",
        }
    }

    /// The parameters sent with the operation: `{parameter: value}` for an
    /// operation that takes one, none otherwise.
    pub fn params(&self, value: JsonValue) -> (r: Option<JsonValue>)
        ensures
            match contract(*self).1 {
                Some(k) => r matches Some(p) && p@ == JsonData::Object(seq![(k, value@)]),
                None => r is None,
            },
    {
        match self.parameter() {
            Some(k) => Some(single_member(k, value)),
            None => None,
        }
    }
}

/// An object with one member.
pub fn single_member(key: &str, value: JsonValue) -> (r: JsonValue)
    ensures
        r@ == JsonData::Object(seq![(key@, value@)]),
{
    let ghost v = value@;
    let mut members: Vec<(String, JsonValue)> = Vec::new();
    push_member(&mut members, key, value);
    let r = JsonValue::Object(members);
    proof {
        lemma_object_members(r);
        assert(members_view(r->Object_0@) =~= seq![(key@, v)]);
    }
    r
}

/// A JSON array of the given items.
pub fn array_of(items: Vec<JsonValue>) -> (r: JsonValue)
    ensures
        r@ is Array,
        r@->Array_0.len() == items@.len(),
        forall|i: int| 0 <= i < items@.len() ==> #[trigger] r@->Array_0[i] == items@[i]@,
{
    let r = JsonValue::Array(items);
    proof {
        lemma_array_view(r);
    }
    r
}

/// The member `field` of an object result.
pub open spec fn field_of(result: JsonData, field: Seq<char>) -> Option<JsonData> {
    if result is Object {
        get_spec(result, field)
    } else {
        None
    }
}

/// The message of a result that lacks a member.
pub open spec fn missing_message(field: Seq<char>) -> Seq<char> {
    "MCSMP result is missing `"@ + field + "`"@
}

/// The message of a result member of the wrong shape.
pub open spec fn shape_message(field: Seq<char>) -> Seq<char> {
    "MCSMP result field `"@ + field + "` has an unexpected shape"@
}

/// A result member read by `read`: the value, or the deserialization
/// error for a missing member or one of the wrong shape.
pub open spec fn decoded<T>(result: JsonData, field: Seq<char>, read: Option<T>) -> Result<T, Seq<char>> {
    match field_of(result, field) {
        None => Err(missing_message(field)),
        Some(_) => match read {
            Some(t) => Ok(t),
            None => Err(shape_message(field)),
        },
    }
}

pub open spec fn is_deserialization_with(e: Error, message: Seq<char>) -> bool {
    e matches Error::Deserialization(m) && m@ == message
}

fn missing(field: &str) -> (e: Error)
    ensures
        is_deserialization_with(e, missing_message(field@)),
{
    let mut m = String::new();
    push_str(&mut m, "MCSMP result is missing `");
    push_str(&mut m, field);
    push_str(&mut m, "`");
    Error::Deserialization(m)
}

fn wrong_shape(field: &str) -> (e: Error)
    ensures
        is_deserialization_with(e, shape_message(field@)),
{
    let mut m = String::new();
    push_str(&mut m, "MCSMP result field `");
    push_str(&mut m, field);
    push_str(&mut m, "` has an unexpected shape");
    Error::Deserialization(m)
}

/// Returns the member `field` of an object result.
pub fn result_field<'a>(result: &'a JsonValue, field: &str) -> (r: Result<&'a JsonValue, Error>)
    ensures
        match r {
            Ok(v) => field_of(result@, field@) == Some(v@),
            Err(e) => field_of(result@, field@) is None && is_deserialization_with(
                e,
                missing_message(field@),
            ),
        },
{
    if !result.is_object() {
        return Err(missing(field));
    }
    match result.get(field) {
        Some(v) => Ok(v),
        None => Err(missing(field)),
    }
}

pub open spec fn read_bool(v: Option<JsonData>) -> Option<bool> {
    match v {
        Some(j) => as_bool_spec(j),
        None => None,
    }
}

pub open spec fn read_i32(v: Option<JsonData>) -> Option<i32> {
    match v {
        Some(j) => as_i32_spec(j),
        None => None,
    }
}

pub open spec fn read_text(v: Option<JsonData>) -> Option<Seq<char>> {
    match v {
        Some(j) => as_str_spec(j),
        None => None,
    }
}

/// Reads a boolean result member.
pub fn decode_bool(result: &JsonValue, field: &str) -> (r: Result<bool, Error>)
    ensures
        match r {
            Ok(b) => decoded(result@, field@, read_bool(field_of(result@, field@))) == Ok::<
                bool,
                Seq<char>,
            >(b),
            Err(e) => decoded(result@, field@, read_bool(field_of(result@, field@))) matches Err(m)
                && is_deserialization_with(e, m),
        },
{
    match result_field(result, field) {
        Ok(v) => match v.as_bool() {
            Some(b) => Ok(b),
            None => Err(wrong_shape(field)),
        },
        Err(e) => Err(e),
    }
}

/// Reads a 32-bit integer result member.
pub fn decode_i32(result: &JsonValue, field: &str) -> (r: Result<i32, Error>)
    ensures
        match r {
            Ok(n) => decoded(result@, field@, read_i32(field_of(result@, field@))) == Ok::<
                i32,
                Seq<char>,
            >(n),
            Err(e) => decoded(result@, field@, read_i32(field_of(result@, field@))) matches Err(m)
                && is_deserialization_with(e, m),
        },
{
    match result_field(result, field) {
        Ok(v) => match v.as_i32() {
            Some(n) => Ok(n),
            None => Err(wrong_shape(field)),
        },
        Err(e) => Err(e),
    }
}

/// Reads a text result member.
pub fn decode_text(result: &JsonValue, field: &str) -> (r: Result<String, Error>)
    ensures
        match r {
            Ok(t) => decoded(result@, field@, read_text(field_of(result@, field@))) == Ok::<
                Seq<char>,
                Seq<char>,
            >(t@),
            Err(e) => decoded(result@, field@, read_text(field_of(result@, field@))) matches Err(m)
                && is_deserialization_with(e, m),
        },
{
    match result_field(result, field) {
        Ok(v) => match v.as_str() {
            Some(t) => Ok(t.to_owned()),
            None => Err(wrong_shape(field)),
        },
        Err(e) => Err(e),
    }
}

pub open spec fn read_difficulty(v: Option<JsonData>) -> Option<Difficulty> {
    match v {
        Some(JsonData::Str(s)) => difficulty_from_name(s),
        _ => None,
    }
}

pub open spec fn read_game_mode(v: Option<JsonData>) -> Option<GameMode> {
    match v {
        Some(JsonData::Str(s)) => game_mode_from_name(s),
        _ => None,
    }
}

/// Reads a difficulty result member.
pub fn decode_difficulty(result: &JsonValue, field: &str) -> (r: Result<Difficulty, Error>)
    ensures
        match r {
            Ok(d) => decoded(result@, field@, read_difficulty(field_of(result@, field@))) == Ok::<
                Difficulty,
                Seq<char>,
            >(d),
            Err(e) => decoded(result@, field@, read_difficulty(field_of(result@, field@))) matches Err(
                m,
            ) && is_deserialization_with(e, m),
        },
{
    match result_field(result, field) {
        Ok(v) => match Difficulty::from_json(v) {
            Some(d) => Ok(d),
            None => Err(wrong_shape(field)),
        },
        Err(e) => Err(e),
    }
}

/// Reads a game-mode result member.
pub fn decode_game_mode(result: &JsonValue, field: &str) -> (r: Result<GameMode, Error>)
    ensures
        match r {
            Ok(g) => decoded(result@, field@, read_game_mode(field_of(result@, field@))) == Ok::<
                GameMode,
                Seq<char>,
            >(g),
            Err(e) => decoded(result@, field@, read_game_mode(field_of(result@, field@))) matches Err(
                m,
            ) && is_deserialization_with(e, m),
        },
{
    match result_field(result, field) {
        Ok(v) => match GameMode::from_json(v) {
            Some(g) => Ok(g),
            None => Err(wrong_shape(field)),
        },
        Err(e) => Err(e),
    }
}

pub open spec fn read_player_list(v: Option<JsonData>) -> Option<Seq<crate::model::player::PlayerData>> {
    match v {
        Some(j) => read_players(j),
        None => None,
    }
}

/// Reads a result member that is a list of player selectors.
pub fn decode_players(result: &JsonValue, field: &str) -> (r: Result<Vec<PlayerRef>, Error>)
    ensures
        match r {
            Ok(v) => decoded(result@, field@, read_player_list(field_of(result@, field@))) == Ok::<
                Seq<crate::model::player::PlayerData>,
                Seq<char>,
            >(players_view(v@)),
            Err(e) => decoded(result@, field@, read_player_list(field_of(result@, field@))) matches Err(
                m,
            ) && is_deserialization_with(e, m),
        },
{
    match result_field(result, field) {
        Ok(v) => match players_from_json(v) {
            Some(p) => Ok(p),
            None => Err(wrong_shape(field)),
        },
        Err(e) => Err(e),
    }
}

pub open spec fn read_state(v: Option<JsonData>) -> Option<crate::model::server::ServerStateData> {
    match v {
        Some(j) => state_from_json(j),
        None => None,
    }
}

/// Reads a server-status result member.
pub fn decode_status(result: &JsonValue, field: &str) -> (r: Result<ServerState, Error>)
    ensures
        match r {
            Ok(s) => decoded(result@, field@, read_state(field_of(result@, field@))) == Ok::<
                crate::model::server::ServerStateData,
                Seq<char>,
            >(s@),
            Err(e) => decoded(result@, field@, read_state(field_of(result@, field@))) matches Err(m)
                && is_deserialization_with(e, m),
        },
{
    match result_field(result, field) {
        Ok(v) => match ServerState::from_json(v) {
            Some(s) => Ok(s),
            None => Err(wrong_shape(field)),
        },
        Err(e) => Err(e),
    }
}

pub open spec fn read_gamerule(v: Option<JsonData>) -> Option<TypedGameRuleData> {
    match v {
        Some(j) => typed_rule_from_json(j),
        None => None,
    }
}

/// Reads a typed-gamerule result member.
pub fn decode_gamerule(result: &JsonValue, field: &str) -> (r: Result<TypedGameRule, Error>)
    ensures
        match r {
            Ok(g) => decoded(result@, field@, read_gamerule(field_of(result@, field@))) == Ok::<
                TypedGameRuleData,
                Seq<char>,
            >(g@),
            Err(e) => decoded(result@, field@, read_gamerule(field_of(result@, field@))) matches Err(m)
                && is_deserialization_with(e, m),
        },
{
    match result_field(result, field) {
        Ok(v) => match TypedGameRule::from_json(v) {
            Some(g) => Ok(g),
            None => Err(wrong_shape(field)),
        },
        Err(e) => Err(e),
    }
}

/// Every item of a JSON array read as an operator entry.
pub open spec fn read_operators(v: Option<JsonData>) -> Option<Seq<OperatorData>> {
    match v {
        Some(JsonData::Array(items)) => if forall|i: int|
            0 <= i < items.len() ==> operator_from_json(#[trigger] items[i]) is Some {
            Some(Seq::new(items.len(), |i: int| operator_from_json(items[i]).unwrap()))
        } else {
            None
        },
        _ => None,
    }
}

pub open spec fn operators_view(v: Seq<Operator>) -> Seq<OperatorData> {
    v.map_values(|o: Operator| o@)
}

/// Reads a result member that is a list of operator entries.
pub fn decode_operators(result: &JsonValue, field: &str) -> (r: Result<Vec<Operator>, Error>)
    ensures
        match r {
            Ok(v) => decoded(result@, field@, read_operators(field_of(result@, field@))) == Ok::<
                Seq<OperatorData>,
                Seq<char>,
            >(operators_view(v@)),
            Err(e) => decoded(result@, field@, read_operators(field_of(result@, field@))) matches Err(
                m,
            ) && is_deserialization_with(e, m),
        },
{
    let value = match result_field(result, field) {
        Ok(v) => v,
        Err(e) => return Err(e),
    };
    if !value.is_array() {
        return Err(wrong_shape(field));
    }
    let items = match value {
        JsonValue::Array(items) => items,
        _ => return Err(wrong_shape(field)),
    };
    proof {
        lemma_array_view(*value);
    }
    let ghost data = value@->Array_0;
    let mut out: Vec<Operator> = Vec::new();
    let mut i: usize = 0;
    while i < items.len()
        invariant
            i <= items.len(),
            field_of(result@, field@) == Some(value@),
            value@ is Array,
            data == value@->Array_0,
            data.len() == items.len(),
            forall|k: int| 0 <= k < items.len() ==> #[trigger] data[k] == items@[k]@,
            out.len() == i,
            forall|k: int| 0 <= k < i ==> operator_from_json(#[trigger] data[k]) == Some(out@[k]@),
        decreases items.len() - i,
    {
        match Operator::from_json(&items[i]) {
            Some(o) => out.push(o),
            None => {
                assert(operator_from_json(data[i as int]) is None);
                return Err(wrong_shape(field));
            },
        }
        i += 1;
    }
    assert(operators_view(out@) =~= Seq::new(data.len(), |k: int| operator_from_json(data[k]).unwrap()));
    Ok(out)
}

/// Every item of a JSON array read as a user ban.
pub open spec fn read_user_bans(v: Option<JsonData>) -> Option<Seq<UserBanData>> {
    match v {
        Some(JsonData::Array(items)) => if forall|i: int|
            0 <= i < items.len() ==> user_ban_from_json(#[trigger] items[i]) is Some {
            Some(Seq::new(items.len(), |i: int| user_ban_from_json(items[i]).unwrap()))
        } else {
            None
        },
        _ => None,
    }
}

pub open spec fn user_bans_view(v: Seq<UserBan>) -> Seq<UserBanData> {
    v.map_values(|b: UserBan| b@)
}

/// Reads a result member that is a list of user bans.
pub fn decode_user_bans(result: &JsonValue, field: &str) -> (r: Result<Vec<UserBan>, Error>)
    ensures
        match r {
            Ok(v) => decoded(result@, field@, read_user_bans(field_of(result@, field@))) == Ok::<
                Seq<UserBanData>,
                Seq<char>,
            >(user_bans_view(v@)),
            Err(e) => decoded(result@, field@, read_user_bans(field_of(result@, field@))) matches Err(
                m,
            ) && is_deserialization_with(e, m),
        },
{
    let value = match result_field(result, field) {
        Ok(v) => v,
        Err(e) => return Err(e),
    };
    if !value.is_array() {
        return Err(wrong_shape(field));
    }
    let items = match value {
        JsonValue::Array(items) => items,
        _ => return Err(wrong_shape(field)),
    };
    proof {
        lemma_array_view(*value);
    }
    let ghost data = value@->Array_0;
    let mut out: Vec<UserBan> = Vec::new();
    let mut i: usize = 0;
    while i < items.len()
        invariant
            i <= items.len(),
            field_of(result@, field@) == Some(value@),
            value@ is Array,
            data == value@->Array_0,
            data.len() == items.len(),
            forall|k: int| 0 <= k < items.len() ==> #[trigger] data[k] == items@[k]@,
            out.len() == i,
            forall|k: int| 0 <= k < i ==> user_ban_from_json(#[trigger] data[k]) == Some(out@[k]@),
        decreases items.len() - i,
    {
        match UserBan::from_json(&items[i]) {
            Some(b) => out.push(b),
            None => {
                assert(user_ban_from_json(data[i as int]) is None);
                return Err(wrong_shape(field));
            },
        }
        i += 1;
    }
    assert(user_bans_view(out@) =~= Seq::new(data.len(), |k: int| user_ban_from_json(data[k]).unwrap()));
    Ok(out)
}

/// Every item of a JSON array read as an IP ban.
pub open spec fn read_ip_bans(v: Option<JsonData>) -> Option<Seq<IpBanData>> {
    match v {
        Some(JsonData::Array(items)) => if forall|i: int|
            0 <= i < items.len() ==> ip_ban_from_json(#[trigger] items[i]) is Some {
            Some(Seq::new(items.len(), |i: int| ip_ban_from_json(items[i]).unwrap()))
        } else {
            None
        },
        _ => None,
    }
}

pub open spec fn ip_bans_view(v: Seq<IpBan>) -> Seq<IpBanData> {
    v.map_values(|b: IpBan| b@)
}

/// Reads a result member that is a list of IP bans.
pub fn decode_ip_bans(result: &JsonValue, field: &str) -> (r: Result<Vec<IpBan>, Error>)
    ensures
        match r {
            Ok(v) => decoded(result@, field@, read_ip_bans(field_of(result@, field@))) == Ok::<
                Seq<IpBanData>,
                Seq<char>,
            >(ip_bans_view(v@)),
            Err(e) => decoded(result@, field@, read_ip_bans(field_of(result@, field@))) matches Err(
                m,
            ) && is_deserialization_with(e, m),
        },
{
    let value = match result_field(result, field) {
        Ok(v) => v,
        Err(e) => return Err(e),
    };
    if !value.is_array() {
        return Err(wrong_shape(field));
    }
    let items = match value {
        JsonValue::Array(items) => items,
        _ => return Err(wrong_shape(field)),
    };
    proof {
        lemma_array_view(*value);
    }
    let ghost data = value@->Array_0;
    let mut out: Vec<IpBan> = Vec::new();
    let mut i: usize = 0;
    while i < items.len()
        invariant
            i <= items.len(),
            field_of(result@, field@) == Some(value@),
            value@ is Array,
            data == value@->Array_0,
            data.len() == items.len(),
            forall|k: int| 0 <= k < items.len() ==> #[trigger] data[k] == items@[k]@,
            out.len() == i,
            forall|k: int| 0 <= k < i ==> ip_ban_from_json(#[trigger] data[k]) == Some(out@[k]@),
        decreases items.len() - i,
    {
        match IpBan::from_json(&items[i]) {
            Some(b) => out.push(b),
            None => {
                assert(ip_ban_from_json(data[i as int]) is None);
                return Err(wrong_shape(field));
            },
        }
        i += 1;
    }
    assert(ip_bans_view(out@) =~= Seq::new(data.len(), |k: int| ip_ban_from_json(data[k]).unwrap()));
    Ok(out)
}

/// Every item of a JSON array read as a typed gamerule.
pub open spec fn read_gamerules(v: Option<JsonData>) -> Option<Seq<TypedGameRuleData>> {
    match v {
        Some(JsonData::Array(items)) => if forall|i: int|
            0 <= i < items.len() ==> typed_rule_from_json(#[trigger] items[i]) is Some {
            Some(Seq::new(items.len(), |i: int| typed_rule_from_json(items[i]).unwrap()))
        } else {
            None
        },
        _ => None,
    }
}

pub open spec fn gamerules_view(v: Seq<TypedGameRule>) -> Seq<TypedGameRuleData> {
    v.map_values(|g: TypedGameRule| g@)
}

/// Reads a result member that is a list of typed gamerules.
pub fn decode_gamerules(result: &JsonValue, field: &str) -> (r: Result<Vec<TypedGameRule>, Error>)
    ensures
        match r {
            Ok(v) => decoded(result@, field@, read_gamerules(field_of(result@, field@))) == Ok::<
                Seq<TypedGameRuleData>,
                Seq<char>,
            >(gamerules_view(v@)),
            Err(e) => decoded(result@, field@, read_gamerules(field_of(result@, field@))) matches Err(
                m,
            ) && is_deserialization_with(e, m),
        },
{
    let value = match result_field(result, field) {
        Ok(v) => v,
        Err(e) => return Err(e),
    };
    if !value.is_array() {
        return Err(wrong_shape(field));
    }
    let items = match value {
        JsonValue::Array(items) => items,
        _ => return Err(wrong_shape(field)),
    };
    proof {
        lemma_array_view(*value);
    }
    let ghost data = value@->Array_0;
    let mut out: Vec<TypedGameRule> = Vec::new();
    let mut i: usize = 0;
    while i < items.len()
        invariant
            i <= items.len(),
            field_of(result@, field@) == Some(value@),
            value@ is Array,
            data == value@->Array_0,
            data.len() == items.len(),
            forall|k: int| 0 <= k < items.len() ==> #[trigger] data[k] == items@[k]@,
            out.len() == i,
            forall|k: int| 0 <= k < i ==> typed_rule_from_json(#[trigger] data[k]) == Some(out@[k]@),
        decreases items.len() - i,
    {
        match TypedGameRule::from_json(&items[i]) {
            Some(g) => out.push(g),
            None => {
                assert(typed_rule_from_json(data[i as int]) is None);
                return Err(wrong_shape(field));
            },
        }
        i += 1;
    }
    assert(gamerules_view(out@) =~= Seq::new(data.len(), |k: int| typed_rule_from_json(data[k]).unwrap()));
    Ok(out)
}

/// A live server setting of `minecraft:serversettings`.
#[derive(Clone, Copy, Debug, PartialEq, Eq, Structural)]
pub enum ServerSetting {
    Autosave,
    Difficulty,
    EnforceAllowlist,
    UseAllowlist,
    MaxPlayers,
    PauseWhenEmptySeconds,
    PlayerIdleTimeout,
    AllowFlight,
    Motd,
    SpawnProtectionRadius,
    ForceGameMode,
    GameMode,
    ViewDistance,
    SimulationDistance,
    AcceptTransfers,
    StatusHeartbeatInterval,
    OperatorUserPermissionLevel,
    HideOnlinePlayers,
    StatusReplies,
    EntityBroadcastRange,
}

/// The path of a setting, the parameter its setter takes, and the result
/// member that carries its value.
pub open spec fn setting_contract(s: ServerSetting) -> (Seq<char>, Seq<char>, Seq<char>) {
    match s {
        ServerSetting::Autosave => ("autosave"@, "enable"@, "enabled"@),
        ServerSetting::Difficulty => ("difficulty"@, "difficulty"@, "difficulty"@),
        ServerSetting::EnforceAllowlist => ("enforce_allowlist"@, "enforce"@, "enforced"@),
        ServerSetting::UseAllowlist => ("use_allowlist"@, "use"@, "used"@),
        ServerSetting::MaxPlayers => ("max_players"@, "max"@, "max"@),
        ServerSetting::PauseWhenEmptySeconds => ("pause_when_empty_seconds"@, "seconds"@, "seconds"@),
        ServerSetting::PlayerIdleTimeout => ("player_idle_timeout"@, "seconds"@, "seconds"@),
        ServerSetting::AllowFlight => ("allow_flight"@, "allowed"@, "allowed"@),
        ServerSetting::Motd => ("motd"@, "message"@, "message"@),
        ServerSetting::SpawnProtectionRadius => ("spawn_protection_radius"@, "radius"@, "radius"@),
        ServerSetting::ForceGameMode => ("force_game_mode"@, "force"@, "forced"@),
        ServerSetting::GameMode => ("game_mode"@, "mode"@, "mode"@),
        ServerSetting::ViewDistance => ("view_distance"@, "distance"@, "distance"@),
        ServerSetting::SimulationDistance => ("simulation_distance"@, "distance"@, "distance"@),
        ServerSetting::AcceptTransfers => ("accept_transfers"@, "accept"@, "accepted"@),
        ServerSetting::StatusHeartbeatInterval => ("status_heartbeat_interval"@, "seconds"@, "seconds"@),
        ServerSetting::OperatorUserPermissionLevel => (
            "operator_user_permission_level"@,
            "level"@,
            "level"@,
        ),
        ServerSetting::HideOnlinePlayers => ("hide_online_players"@, "hide"@, "hidden"@),
        ServerSetting::StatusReplies => ("status_replies"@, "enable"@, "enabled"@),
        ServerSetting::EntityBroadcastRange => (
            "entity_broadcast_range"@,
            "percentage_points"@,
            "percentage_points"@,
        ),
    }
}

impl ServerSetting {
    fn names(&self) -> (r: (&'static str, &'static str, &'static str))
        ensures
            (r.0@, r.1@, r.2@) == setting_contract(*self),
    {
        match self {
            ServerSetting::Autosave => ("autosave", "enable", "enabled"),
            ServerSetting::Difficulty => ("difficulty", "difficulty", "difficulty"),
            ServerSetting::EnforceAllowlist => ("enforce_allowlist", "enforce", "enforced"),
            ServerSetting::UseAllowlist => ("use_allowlist", "use", "used"),
            ServerSetting::MaxPlayers => ("max_players", "max", "max"),
            ServerSetting::PauseWhenEmptySeconds => ("pause_when_empty_seconds", "seconds", "seconds"),
            ServerSetting::PlayerIdleTimeout => ("player_idle_timeout", "seconds", "seconds"),
            ServerSetting::AllowFlight => ("allow_flight", "allowed", "allowed"),
            ServerSetting::Motd => ("motd", "message", "message"),
            ServerSetting::SpawnProtectionRadius => ("spawn_protection_radius", "radius", "radius"),
            ServerSetting::ForceGameMode => ("force_game_mode", "force", "forced"),
            ServerSetting::GameMode => ("game_mode", "mode", "mode"),
            ServerSetting::ViewDistance => ("view_distance", "distance", "distance"),
            ServerSetting::SimulationDistance => ("simulation_distance", "distance", "distance"),
            ServerSetting::AcceptTransfers => ("accept_transfers", "accept", "accepted"),
            ServerSetting::StatusHeartbeatInterval => ("status_heartbeat_interval", "seconds", "seconds"),
            ServerSetting::OperatorUserPermissionLevel => (
                "operator_user_permission_level",
                "level",
                "level",
            ),
            ServerSetting::HideOnlinePlayers => ("hide_online_players", "hide", "hidden"),
            ServerSetting::StatusReplies => ("status_replies", "enable", "enabled"),
            ServerSetting::EntityBroadcastRange => (
                "entity_broadcast_range",
                "percentage_points",
                "percentage_points",
            ),
        }
    }

    /// The method that reads the setting: `minecraft:serversettings/<path>`.
    pub fn get_method(&self) -> (r: String)
        ensures
            r@ == "minecraft:serversettings/"@ + setting_contract(*self).0,
    {
        let (path, _, _) = self.names();
        let mut m = String::new();
        push_str(&mut m, "minecraft:serversettings/");
        push_str(&mut m, path);
        m
    }

    /// The method that changes the setting:
    /// `minecraft:serversettings/<path>/set`.
    pub fn set_method(&self) -> (r: String)
        ensures
            r@ == "minecraft:serversettings/"@ + setting_contract(*self).0 + "/set"@,
    {
        let (path, _, _) = self.names();
        let mut m = String::new();
        push_str(&mut m, "minecraft:serversettings/");
        push_str(&mut m, path);
        push_str(&mut m, "/set");
        m
    }

    /// The parameters of the setter: `{parameter: value}`.
    pub fn set_params(&self, value: JsonValue) -> (r: JsonValue)
        ensures
            r@ == JsonData::Object(seq![(setting_contract(*self).1, value@)]),
    {
        let (_, parameter, _) = self.names();
        single_member(parameter, value)
    }

    /// The result member that carries the setting's value.
    pub fn result_field(&self) -> (r: &'static str)
        ensures
            r@ == setting_contract(*self).2,
    {
        let (_, _, field) = self.names();
        field
    }
}

/// A few characters of a method name that tell the operations' methods
/// apart: its length, its eleventh character and its last three.
spec fn method_marks(m: Seq<char>) -> (nat, char, char, char, char) {
    (m.len(), m[10], m[m.len() - 1], m[m.len() - 2], m[m.len() - 3])
}

spec fn operation_marked(t: (nat, char, char, char, char)) -> Option<Operation> {
    if t == (19nat, 'a', 't', 's', 'i') {
        Some(Operation::AllowlistList)
    } else if t == (23nat, 'a', 't', 'e', 's') {
        Some(Operation::AllowlistSet)
    } else if t == (23nat, 'a', 'd', 'd', 'a') {
        Some(Operation::AllowlistAdd)
    } else if t == (26nat, 'a', 'e', 'v', 'o') {
        Some(Operation::AllowlistRemove)
    } else if t == (25nat, 'a', 'r', 'a', 'e') {
        Some(Operation::AllowlistClear)
    } else if t == (14nat, 'b', 's', 'n', 'a') {
        Some(Operation::BansList)
    } else if t == (18nat, 'b', 't', 'e', 's') {
        Some(Operation::BansSet)
    } else if t == (18nat, 'b', 'd', 'd', 'a') {
        Some(Operation::BansAdd)
    } else if t == (21nat, 'b', 'e', 'v', 'o') {
        Some(Operation::BansRemove)
    } else if t == (20nat, 'b', 'r', 'a', 'e') {
        Some(Operation::BansClear)
    } else if t == (17nat, 'i', 's', 'n', 'a') {
        Some(Operation::IpBansList)
    } else if t == (21nat, 'i', 't', 'e', 's') {
        Some(Operation::IpBansSet)
    } else if t == (21nat, 'i', 'd', 'd', 'a') {
        Some(Operation::IpBansAdd)
    } else if t == (24nat, 'i', 'e', 'v', 'o') {
        Some(Operation::IpBansRemove)
    } else if t == (23nat, 'i', 'r', 'a', 'e') {
        Some(Operation::IpBansClear)
    } else if t == (19nat, 'o', 's', 'r', 'o') {
        Some(Operation::OperatorsList)
    } else if t == (23nat, 'o', 't', 'e', 's') {
        Some(Operation::OperatorsSet)
    } else if t == (23nat, 'o', 'd', 'd', 'a') {
        Some(Operation::OperatorsAdd)
    } else if t == (26nat, 'o', 'e', 'v', 'o') {
        Some(Operation::OperatorsRemove)
    } else if t == (25nat, 'o', 'r', 'a', 'e') {
        Some(Operation::OperatorsClear)
    } else if t == (17nat, 'p', 's', 'r', 'e') {
        Some(Operation::PlayersList)
    } else if t == (22nat, 'p', 'k', 'c', 'i') {
        Some(Operation::PlayersKick)
    } else if t == (23nat, 's', 's', 'u', 't') {
        Some(Operation::ServerStatus)
    } else if t == (21nat, 's', 'e', 'v', 'a') {
        Some(Operation::ServerSave)
    } else if t == (21nat, 's', 'p', 'o', 't') {
        Some(Operation::ServerStop)
    } else if t == (31nat, 's', 'e', 'g', 'a') {
        Some(Operation::ServerSystemMessage)
    } else if t == (19nat, 'g', 's', 'e', 'l') {
        Some(Operation::GamerulesList)
    } else if t == (26nat, 'g', 'e', 't', 'a') {
        Some(Operation::GamerulesUpdate)
    } else {
        None
    }
}

proof fn lemma_method_identifies_operation(op: Operation)
    ensures
        operation_marked(method_marks(contract(op).0)) == Some(op),
{
    match op {
        Operation::AllowlistList => {
            reveal_strlit("minecraft:allowlist");
        },
        Operation::AllowlistSet => {
            reveal_strlit("minecraft:allowlist/set");
        },
        Operation::AllowlistAdd => {
            reveal_strlit("minecraft:allowlist/add");
        },
        Operation::AllowlistRemove => {
            reveal_strlit("minecraft:allowlist/remove");
        },
        Operation::AllowlistClear => {
            reveal_strlit("minecraft:allowlist/clear");
        },
        Operation::BansList => {
            reveal_strlit("minecraft:bans");
        },
        Operation::BansSet => {
            reveal_strlit("minecraft:bans/set");
        },
        Operation::BansAdd => {
            reveal_strlit("minecraft:bans/add");
        },
        Operation::BansRemove => {
            reveal_strlit("minecraft:bans/remove");
        },
        Operation::BansClear => {
            reveal_strlit("minecraft:bans/clear");
        },
        Operation::IpBansList => {
            reveal_strlit("minecraft:ip_bans");
        },
        Operation::IpBansSet => {
            reveal_strlit("minecraft:ip_bans/set");
        },
        Operation::IpBansAdd => {
            reveal_strlit("minecraft:ip_bans/add");
        },
        Operation::IpBansRemove => {
            reveal_strlit("minecraft:ip_bans/remove");
        },
        Operation::IpBansClear => {
            reveal_strlit("minecraft:ip_bans/clear");
        },
        Operation::OperatorsList => {
            reveal_strlit("minecraft:operators");
        },
        Operation::OperatorsSet => {
            reveal_strlit("minecraft:operators/set");
        },
        Operation::OperatorsAdd => {
            reveal_strlit("minecraft:operators/add");
        },
        Operation::OperatorsRemove => {
            reveal_strlit("minecraft:operators/remove");
        },
        Operation::OperatorsClear => {
            reveal_strlit("minecraft:operators/clear");
        },
        Operation::PlayersList => {
            reveal_strlit("minecraft:players");
        },
        Operation::PlayersKick => {
            reveal_strlit("minecraft:players/kick");
        },
        Operation::ServerStatus => {
            reveal_strlit("minecraft:server/status");
        },
        Operation::ServerSave => {
            reveal_strlit("minecraft:server/save");
        },
        Operation::ServerStop => {
            reveal_strlit("minecraft:server/stop");
        },
        Operation::ServerSystemMessage => {
            reveal_strlit("minecraft:server/system_message");
        },
        Operation::GamerulesList => {
            reveal_strlit("minecraft:gamerules");
        },
        Operation::GamerulesUpdate => {
            reveal_strlit("minecraft:gamerules/update");
        },
    }
}

/// Each operation calls a method of its own: two different operations
/// never share a JSON-RPC method name.
pub proof fn lemma_methods_distinct(a: Operation, b: Operation)
    requires
        a != b,
    ensures
        contract(a).0 != contract(b).0,
{
    lemma_method_identifies_operation(a);
    lemma_method_identifies_operation(b);
}

/// The collection resources name their methods alike: the list operation
/// calls the resource's method, and set, add, remove and clear call it
/// followed by `/set`, `/add`, `/remove` and `/clear`; every method lies in
/// the `minecraft:` namespace.
pub proof fn lemma_collection_methods(op: Operation)
    ensures
        contract(op).0.len() > 10 && contract(op).0.subrange(0, 10) == "minecraft:"@,
        contract(Operation::AllowlistSet).0 == contract(Operation::AllowlistList).0 + "/set"@,
        contract(Operation::AllowlistAdd).0 == contract(Operation::AllowlistList).0 + "/add"@,
        contract(Operation::AllowlistRemove).0 == contract(Operation::AllowlistList).0 + "/remove"@,
        contract(Operation::AllowlistClear).0 == contract(Operation::AllowlistList).0 + "/clear"@,
        contract(Operation::BansSet).0 == contract(Operation::BansList).0 + "/set"@,
        contract(Operation::BansAdd).0 == contract(Operation::BansList).0 + "/add"@,
        contract(Operation::BansRemove).0 == contract(Operation::BansList).0 + "/remove"@,
        contract(Operation::BansClear).0 == contract(Operation::BansList).0 + "/clear"@,
        contract(Operation::IpBansSet).0 == contract(Operation::IpBansList).0 + "/set"@,
        contract(Operation::IpBansAdd).0 == contract(Operation::IpBansList).0 + "/add"@,
        contract(Operation::IpBansRemove).0 == contract(Operation::IpBansList).0 + "/remove"@,
        contract(Operation::IpBansClear).0 == contract(Operation::IpBansList).0 + "/clear"@,
        contract(Operation::OperatorsSet).0 == contract(Operation::OperatorsList).0 + "/set"@,
        contract(Operation::OperatorsAdd).0 == contract(Operation::OperatorsList).0 + "/add"@,
        contract(Operation::OperatorsRemove).0 == contract(Operation::OperatorsList).0 + "/remove"@,
        contract(Operation::OperatorsClear).0 == contract(Operation::OperatorsList).0 + "/clear"@,
        contract(Operation::PlayersKick).0 == contract(Operation::PlayersList).0 + "/kick"@,
        contract(Operation::GamerulesUpdate).0 == contract(Operation::GamerulesList).0 + "/update"@,
{
    reveal_strlit("minecraft:");
    reveal_strlit("/set");
    reveal_strlit("/add");
    reveal_strlit("/remove");
    reveal_strlit("/clear");
    reveal_strlit("/kick");
    reveal_strlit("/update");
    reveal_strlit("minecraft:allowlist");
    reveal_strlit("minecraft:allowlist/set");
    reveal_strlit("minecraft:allowlist/add");
    reveal_strlit("minecraft:allowlist/remove");
    reveal_strlit("minecraft:allowlist/clear");
    reveal_strlit("minecraft:bans");
    reveal_strlit("minecraft:bans/set");
    reveal_strlit("minecraft:bans/add");
    reveal_strlit("minecraft:bans/remove");
    reveal_strlit("minecraft:bans/clear");
    reveal_strlit("minecraft:ip_bans");
    reveal_strlit("minecraft:ip_bans/set");
    reveal_strlit("minecraft:ip_bans/add");
    reveal_strlit("minecraft:ip_bans/remove");
    reveal_strlit("minecraft:ip_bans/clear");
    reveal_strlit("minecraft:operators");
    reveal_strlit("minecraft:operators/set");
    reveal_strlit("minecraft:operators/add");
    reveal_strlit("minecraft:operators/remove");
    reveal_strlit("minecraft:operators/clear");
    reveal_strlit("minecraft:players");
    reveal_strlit("minecraft:players/kick");
    reveal_strlit("minecraft:server/status");
    reveal_strlit("minecraft:server/save");
    reveal_strlit("minecraft:server/stop");
    reveal_strlit("minecraft:server/system_message");
    reveal_strlit("minecraft:gamerules");
    reveal_strlit("minecraft:gamerules/update");
    assert(contract(op).0.subrange(0, 10) =~= "minecraft:"@);
    assert(contract(Operation::AllowlistSet).0 =~= contract(Operation::AllowlistList).0 + "/set"@);
    assert(contract(Operation::AllowlistAdd).0 =~= contract(Operation::AllowlistList).0 + "/add"@);
    assert(contract(Operation::AllowlistRemove).0 =~= contract(Operation::AllowlistList).0 + "/remove"@);
    assert(contract(Operation::AllowlistClear).0 =~= contract(Operation::AllowlistList).0 + "/clear"@);
    assert(contract(Operation::BansSet).0 =~= contract(Operation::BansList).0 + "/set"@);
    assert(contract(Operation::BansAdd).0 =~= contract(Operation::BansList).0 + "/add"@);
    assert(contract(Operation::BansRemove).0 =~= contract(Operation::BansList).0 + "/remove"@);
    assert(contract(Operation::BansClear).0 =~= contract(Operation::BansList).0 + "/clear"@);
    assert(contract(Operation::IpBansSet).0 =~= contract(Operation::IpBansList).0 + "/set"@);
    assert(contract(Operation::IpBansAdd).0 =~= contract(Operation::IpBansList).0 + "/add"@);
    assert(contract(Operation::IpBansRemove).0 =~= contract(Operation::IpBansList).0 + "/remove"@);
    assert(contract(Operation::IpBansClear).0 =~= contract(Operation::IpBansList).0 + "/clear"@);
    assert(contract(Operation::OperatorsSet).0 =~= contract(Operation::OperatorsList).0 + "/set"@);
    assert(contract(Operation::OperatorsAdd).0 =~= contract(Operation::OperatorsList).0 + "/add"@);
    assert(contract(Operation::OperatorsRemove).0 =~= contract(Operation::OperatorsList).0 + "/remove"@);
    assert(contract(Operation::OperatorsClear).0 =~= contract(Operation::OperatorsList).0 + "/clear"@);
    assert(contract(Operation::PlayersKick).0 =~= contract(Operation::PlayersList).0 + "/kick"@);
    assert(contract(Operation::GamerulesUpdate).0 =~= contract(Operation::GamerulesList).0 + "/update"@);
}

} // verus!
