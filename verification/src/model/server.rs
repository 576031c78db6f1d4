//! Server status, game versions and operator entries.

use vstd::prelude::*;

use crate::error::ModelError;
use crate::json::{
    as_bool_spec, as_i32_spec, as_str_spec, get_spec, i32_json, lemma_array_view, lemma_object_view,
    optional_member, required_member, JsonData, JsonValue,
};
use crate::model::message::{players_json, players_view};
use crate::json::{lemma_member_absent, lemma_member_at};
use crate::model::player::{
    ensure_not_blank, lemma_player_round_trip, player_from_json, player_json, selector_ok,
    uuid_from_text, uuid_hyphenated, PlayerData, PlayerRef,
};
use crate::text::{is_blank, owned};

verus! {

/// Minecraft game version reported by `minecraft:server/status`.
#[derive(Clone, Debug, PartialEq, Eq)]
pub struct MinecraftVersion {
    /// Human-readable Minecraft release or snapshot name.
    pub name: String,
    /// Minecraft game network protocol number, distinct from MCSMP versioning.
    pub protocol: i32,
}

pub open spec fn version_json(name: Seq<char>, protocol: i32) -> JsonData {
    JsonData::Object(seq![("name"@, JsonData::Str(name)), ("protocol"@, i32_json(protocol))])
}

/// A game version read from JSON: string `name` and `i32` `protocol`.
pub open spec fn version_from_json(j: JsonData) -> Option<(Seq<char>, i32)> {
    if !(j is Object) {
        None
    } else {
        match (
            required_member(j, "name"@, |v| as_str_spec(v)),
            required_member(j, "protocol"@, |v| as_i32_spec(v)),
        ) {
            (Some(n), Some(p)) => Some((n, p)),
            _ => None,
        }
    }
}

impl MinecraftVersion {
    /// Creates a game-version descriptor with a non-blank display name.
    pub fn new(name: &str, protocol: i32) -> (r: Result<MinecraftVersion, ModelError>)
        ensures
            match r {
                Ok(v) => !is_blank(name@) && v.name@ == name@ && v.protocol == protocol,
                Err(e) => is_blank(name@) && crate::error::is_blank_field(e, "name"@),
            },
    {
        if let Err(e) = ensure_not_blank("name", name) {
            return Err(e);
        }
        Ok(MinecraftVersion { name: owned(name), protocol })
    }

    /// The JSON form: `name` and `protocol`.
    pub fn to_json(&self) -> (r: JsonValue)
        ensures
            r@ == version_json(self.name@, self.protocol),
    {
        let mut members: Vec<(String, JsonValue)> = Vec::new();
        members.push((owned("name"), JsonValue::text(self.name.as_str())));
        members.push((owned("protocol"), JsonValue::from_i32(self.protocol)));
        let r = JsonValue::Object(members);
        proof {
            lemma_object_view(r);
            assert(r@->Object_0 =~= version_json(self.name@, self.protocol)->Object_0);
        }
        r
    }

    /// Reads a game version.
    pub fn from_json(value: &JsonValue) -> (r: Option<MinecraftVersion>)
        ensures
            match r {
                Some(v) => version_from_json(value@) == Some((v.name@, v.protocol)),
                None => version_from_json(value@) is None,
            },
    {
        if !value.is_object() {
            return None;
        }
        let name = match value.get("name") {
            Some(n) => match n.as_str() {
                Some(s) => s,
                None => return None,
            },
            None => return None,
        };
        let protocol = match value.get("protocol") {
            Some(p) => match p.as_i32() {
                Some(n) => n,
                None => return None,
            },
            None => return None,
        };
        Some(MinecraftVersion { name: owned(name), protocol })
    }
}

/// Whether a permission level is in the supported `0..=4` range.
pub open spec fn permission_level_ok(value: i32) -> bool {
    0 <= value <= 4
}

/// Checks an operator permission level against the `0..=4` range.
pub fn validate_permission_level(value: i32) -> (r: Result<(), ModelError>)
    ensures
        match r {
            Ok(()) => permission_level_ok(value),
            Err(e) => !permission_level_ok(value) && e == (
            ModelError::InvalidOperatorPermissionLevel { value }),
        },
{
    if 0 <= value && value <= 4 {
        Ok(())
    } else {
        Err(ModelError::InvalidOperatorPermissionLevel { value })
    }
}

/// Minecraft server operator entry.
#[derive(Clone, Debug, PartialEq, Eq)]
pub struct Operator {
    /// Player selector that identifies the operator account.
    pub player: PlayerRef,
    /// Optional operator command permission level.
    pub permission_level: Option<i32>,
    /// Optional flag granting this operator player-limit bypass permission.
    pub bypasses_player_limit: Option<bool>,
}

/// The content of an operator entry.
pub struct OperatorData {
    pub player: PlayerData,
    pub permission_level: Option<i32>,
    pub bypasses_player_limit: Option<bool>,
}

impl View for Operator {
    type V = OperatorData;

    open spec fn view(&self) -> OperatorData {
        OperatorData {
            player: self.player@,
            permission_level: self.permission_level,
            bypasses_player_limit: self.bypasses_player_limit,
        }
    }
}

/// The JSON form: `player`, then `permissionLevel` and
/// `bypassesPlayerLimit` when present.
pub open spec fn operator_json(o: OperatorData) -> JsonData {
    JsonData::Object(
        seq![("player"@, player_json(o.player))] + match o.permission_level {
            Some(l) => seq![("permissionLevel"@, i32_json(l))],
            None => Seq::empty(),
        } + match o.bypasses_player_limit {
            Some(b) => seq![("bypassesPlayerLimit"@, JsonData::Bool(b))],
            None => Seq::empty(),
        },
    )
}

/// An operator read from JSON: a `player` selector and the optional
/// `permissionLevel` (`i32`) and `bypassesPlayerLimit` (boolean).
pub open spec fn operator_from_json(j: JsonData) -> Option<OperatorData> {
    if !(j is Object) {
        None
    } else {
        match (
            required_member(j, "player"@, |v| player_from_json(v)),
            optional_member(j, "permissionLevel"@, |v| as_i32_spec(v)),
            optional_member(j, "bypassesPlayerLimit"@, |v| as_bool_spec(v)),
        ) {
            (Some(player), Some(permission_level), Some(bypasses_player_limit)) => Some(
                OperatorData { player, permission_level, bypasses_player_limit },
            ),
            _ => None,
        }
    }
}

impl Operator {
    /// Creates an operator entry that leaves optional settings to server
    /// defaults.
    pub fn new(player: PlayerRef) -> (r: Operator)
        ensures
            r@ == (OperatorData {
                player: player@,
                permission_level: None,
                bypasses_player_limit: None,
            }),
    {
        Operator { player, permission_level: None, bypasses_player_limit: None }
    }

    /// Creates an operator entry with a permission level in `0..=4`.
    pub fn with_permission_level(player: PlayerRef, permission_level: i32) -> (r: Result<
        Operator,
        ModelError,
    >)
        ensures
            match r {
                Ok(o) => permission_level_ok(permission_level) && o@ == (OperatorData {
                    player: player@,
                    permission_level: Some(permission_level),
                    bypasses_player_limit: None,
                }),
                Err(e) => !permission_level_ok(permission_level) && e == (
                ModelError::InvalidOperatorPermissionLevel { value: permission_level }),
            },
    {
        if let Err(e) = validate_permission_level(permission_level) {
            return Err(e);
        }
        Ok(
            Operator {
                player,
                permission_level: Some(permission_level),
                bypasses_player_limit: None,
            },
        )
    }

    /// Creates an operator entry with a permission level in `0..=4` and an
    /// explicit player-limit bypass.
    pub fn with_options(player: PlayerRef, permission_level: i32, bypasses_player_limit: bool) -> (r:
        Result<Operator, ModelError>)
        ensures
            match r {
                Ok(o) => permission_level_ok(permission_level) && o@ == (OperatorData {
                    player: player@,
                    permission_level: Some(permission_level),
                    bypasses_player_limit: Some(bypasses_player_limit),
                }),
                Err(e) => !permission_level_ok(permission_level) && e == (
                ModelError::InvalidOperatorPermissionLevel { value: permission_level }),
            },
    {
        if let Err(e) = validate_permission_level(permission_level) {
            return Err(e);
        }
        Ok(
            Operator {
                player,
                permission_level: Some(permission_level),
                bypasses_player_limit: Some(bypasses_player_limit),
            },
        )
    }

    /// The JSON form of the entry.
    pub fn to_json(&self) -> (r: JsonValue)
        ensures
            r@ == operator_json(self@),
    {
        let mut members: Vec<(String, JsonValue)> = Vec::new();
        members.push((owned("player"), self.player.to_json()));
        if let Some(l) = self.permission_level {
            members.push((owned("permissionLevel"), JsonValue::from_i32(l)));
        }
        if let Some(b) = self.bypasses_player_limit {
            members.push((owned("bypassesPlayerLimit"), JsonValue::Bool(b)));
        }
        let r = JsonValue::Object(members);
        proof {
            lemma_object_view(r);
            assert(r@->Object_0 =~= operator_json(self@)->Object_0);
        }
        r
    }

    /// Reads an operator entry.
    pub fn from_json(value: &JsonValue) -> (r: Option<Operator>)
        ensures
            match r {
                Some(o) => operator_from_json(value@) == Some(o@),
                None => operator_from_json(value@) is None,
            },
    {
        if !value.is_object() {
            return None;
        }
        let player = match value.get("player") {
            Some(p) => match PlayerRef::from_json(p) {
                Some(p) => p,
                None => return None,
            },
            None => return None,
        };
        let permission_level = match value.get("permissionLevel") {
            None => None,
            Some(JsonValue::Null) => None,
            Some(v) => match v.as_i32() {
                Some(n) => Some(n),
                None => return None,
            },
        };
        let bypasses_player_limit = match value.get("bypassesPlayerLimit") {
            None => None,
            Some(JsonValue::Null) => None,
            Some(v) => match v.as_bool() {
                Some(b) => Some(b),
                None => return None,
            },
        };
        Some(Operator { player, permission_level, bypasses_player_limit })
    }
}

/// Point-in-time dedicated-server lifecycle and player snapshot.
#[derive(Clone, Debug, PartialEq, Eq)]
pub struct ServerState {
    /// Whether the dedicated server has completed its startup sequence.
    pub started: bool,
    /// Players connected when this snapshot was generated.
    pub players: Vec<PlayerRef>,
    /// Running Minecraft game version, not the MCSMP protocol version.
    pub version: MinecraftVersion,
}

/// The content of a status snapshot.
pub struct ServerStateData {
    pub started: bool,
    pub players: Seq<PlayerData>,
    pub version: (Seq<char>, i32),
}

impl View for ServerState {
    type V = ServerStateData;

    open spec fn view(&self) -> ServerStateData {
        ServerStateData {
            started: self.started,
            players: players_view(self.players@),
            version: (self.version.name@, self.version.protocol),
        }
    }
}

/// Every item of a JSON array of player selectors, or `None` when the value
/// is not such an array.
pub open spec fn read_players(value: JsonData) -> Option<Seq<PlayerData>> {
    match value {
        JsonData::Array(items) => if forall|i: int|
            0 <= i < items.len() ==> player_from_json(#[trigger] items[i]) is Some {
            Some(Seq::new(items.len(), |i: int| player_from_json(items[i]).unwrap()))
        } else {
            None
        },
        _ => None,
    }
}

/// Reads a JSON array of player selectors.
pub fn players_from_json(value: &JsonValue) -> (r: Option<Vec<PlayerRef>>)
    ensures
        match r {
            Some(v) => read_players(value@) == Some(players_view(v@)),
            None => read_players(value@) is None,
        },
{
    match value {
        JsonValue::Array(items) => {
            proof {
                lemma_array_view(*value);
            }
            let ghost data = value@->Array_0;
            let mut out: Vec<PlayerRef> = Vec::new();
            let mut i: usize = 0;
            while i < items.len()
                invariant
                    i <= items.len(),
                    value@ is Array,
                    data == value@->Array_0,
                    data.len() == items.len(),
                    forall|k: int| 0 <= k < items.len() ==> #[trigger] data[k] == items@[k]@,
                    out.len() == i,
                    forall|k: int|
                        0 <= k < i ==> player_from_json(#[trigger] data[k]) == Some(out@[k]@),
                decreases items.len() - i,
            {
                match PlayerRef::from_json(&items[i]) {
                    Some(p) => out.push(p),
                    None => {
                        assert(player_from_json(data[i as int]) is None);
                        assert(!(forall|k: int|
                            0 <= k < data.len() ==> player_from_json(#[trigger] data[k]) is Some));
                        return None;
                    },
                }
                i += 1;
            }
            assert(players_view(out@) =~= Seq::new(
                data.len(),
                |k: int| player_from_json(data[k]).unwrap(),
            ));
            Some(out)
        },
        _ => None,
    }
}

/// The JSON form of a snapshot: `started`, `players` and `version`.
pub open spec fn state_json(s: ServerStateData) -> JsonData {
    JsonData::Object(
        seq![
            ("started"@, JsonData::Bool(s.started)),
            ("players"@, players_json(s.players)),
            ("version"@, version_json(s.version.0, s.version.1)),
        ],
    )
}

/// A snapshot read from JSON: boolean `started`, selector array `players`
/// and a game `version`.
pub open spec fn state_from_json(j: JsonData) -> Option<ServerStateData> {
    if !(j is Object) {
        None
    } else {
        match (
            required_member(j, "started"@, |v| as_bool_spec(v)),
            required_member(j, "players"@, |v| read_players(v)),
            required_member(j, "version"@, |v| version_from_json(v)),
        ) {
            (Some(started), Some(players), Some(version)) => Some(
                ServerStateData { started, players, version },
            ),
            _ => None,
        }
    }
}

impl ServerState {
    /// Returns the number of players in this point-in-time snapshot.
    pub fn online_player_count(&self) -> (r: usize)
        ensures
            r == self.players@.len(),
    {
        self.players.len()
    }

    /// The JSON form of the snapshot.
    pub fn to_json(&self) -> (r: JsonValue)
        ensures
            r@ == state_json(self@),
    {
        let mut members: Vec<(String, JsonValue)> = Vec::new();
        members.push((owned("started"), JsonValue::Bool(self.started)));
        members.push((owned("players"), crate::model::message::players_to_json(&self.players)));
        members.push((owned("version"), self.version.to_json()));
        let r = JsonValue::Object(members);
        proof {
            lemma_object_view(r);
            assert(r@->Object_0 =~= state_json(self@)->Object_0);
        }
        r
    }

    /// Reads a status snapshot.
    pub fn from_json(value: &JsonValue) -> (r: Option<ServerState>)
        ensures
            match r {
                Some(s) => state_from_json(value@) == Some(s@),
                None => state_from_json(value@) is None,
            },
    {
        if !value.is_object() {
            return None;
        }
        let started = match value.get("started") {
            Some(v) => match v.as_bool() {
                Some(b) => b,
                None => return None,
            },
            None => return None,
        };
        let players = match value.get("players") {
            Some(v) => match players_from_json(v) {
                Some(p) => p,
                None => return None,
            },
            None => return None,
        };
        let version = match value.get("version") {
            Some(v) => match MinecraftVersion::from_json(v) {
                Some(m) => m,
                None => return None,
            },
            None => return None,
        };
        Some(ServerState { started, players, version })
    }
}

/// Reading back the JSON form of an operator entry gives the entry.
pub proof fn lemma_operator_round_trip(o: OperatorData)
    requires
        selector_ok(o.player.id, o.player.name),
    ensures
        operator_from_json(operator_json(o)) == Some(o),
{
    reveal_strlit("player");
    reveal_strlit("permissionLevel");
    reveal_strlit("bypassesPlayerLimit");
    assert("player"@.len() != "permissionLevel"@.len());
    assert("player"@.len() != "bypassesPlayerLimit"@.len());
    assert("permissionLevel"@.len() != "bypassesPlayerLimit"@.len());
    lemma_player_round_trip(o.player);
    let entries = operator_json(o)->Object_0;
    lemma_member_at(entries, "player"@, 0);
    if o.permission_level is Some {
        lemma_member_at(entries, "permissionLevel"@, 1);
        if o.bypasses_player_limit is Some {
            lemma_member_at(entries, "bypassesPlayerLimit"@, 2);
        } else {
            lemma_member_absent(entries, "bypassesPlayerLimit"@);
        }
    } else {
        lemma_member_absent(entries, "permissionLevel"@);
        if o.bypasses_player_limit is Some {
            lemma_member_at(entries, "bypassesPlayerLimit"@, 1);
        } else {
            lemma_member_absent(entries, "bypassesPlayerLimit"@);
        }
    }
}

} // verus!
