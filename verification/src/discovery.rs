//! Capability discovery: what an `rpc.discover` schema advertises, and the
//! optional protocol features implied by it.

use vstd::prelude::*;

use crate::collections::{
    any_name_starts_with, contains_name, insert_member, insert_name, members_map, names_of,
    sorted_members, sorted_names,
};
use crate::error::Error;
use crate::json::{as_str_spec, get_spec, lemma_array_view, lemma_object_view, JsonData, JsonValue};
use crate::events::{current_prefix, has_prefix, legacy_prefix};
use crate::text::{chars_of, is_blank, is_blank_str, owned, push_str, starts_with, str_eq, string_from_chars};
use crate::version::{at_least, parse_version_spec, ProtocolVersion};

verus! {

/// Controls how discovery information and historical wire forms are handled.
#[derive(Clone, Copy, Debug, PartialEq, Eq, Structural)]
#[non_exhaustive]
pub enum CompatibilityMode {
    /// Require discovery before ordinary calls and reject unadvertised
    /// methods; historical `notification:*` names are not normalized.
    Strict,
    /// Accept supported historical forms while allowing extension methods.
    /// This is the default.
    Compatible,
    /// Do not preflight outgoing calls using discovery results.
    Permissive,
}

impl Default for CompatibilityMode {
    fn default() -> (r: CompatibilityMode)
        ensures
            r == CompatibilityMode::Compatible,
    {
        CompatibilityMode::Compatible
    }
}

/// Optional behavior inferred from the advertised MCSMP version and schema.
#[derive(Clone, Copy, Debug, PartialEq, Eq, PartialOrd, Ord, Hash, Structural)]
#[non_exhaustive]
pub enum Feature {
    /// The management endpoint requires a client secret.
    Authentication,
    /// TLS is enabled by default for the endpoint.
    TlsByDefault,
    /// Notifications use the `minecraft:notification/` prefix.
    MinecraftNotificationPrefix,
    /// `minecraft:notification/server/activity` is available.
    ServerActivityNotification,
    /// The server supports browser-oriented origin allowlisting.
    OriginAllowlist,
    /// Gamerule values use JSON booleans and integers rather than only strings.
    TypedGameruleValue,
    /// Discovery and server status are available before full server startup.
    PreStartDiscovery,
    /// World-upgrade lifecycle notifications are available.
    WorldUpgradeNotifications,
}

/// A set of features.
#[derive(Clone, Copy, Debug, PartialEq, Eq, Structural)]
pub struct FeatureSet {
    authentication: bool,
    tls_by_default: bool,
    minecraft_notification_prefix: bool,
    server_activity_notification: bool,
    origin_allowlist: bool,
    typed_gamerule_value: bool,
    pre_start_discovery: bool,
    world_upgrade_notifications: bool,
}

impl FeatureSet {
    /// Whether `f` is in the set.
    pub closed spec fn has(self, f: Feature) -> bool {
        match f {
            Feature::Authentication => self.authentication,
            Feature::TlsByDefault => self.tls_by_default,
            Feature::MinecraftNotificationPrefix => self.minecraft_notification_prefix,
            Feature::ServerActivityNotification => self.server_activity_notification,
            Feature::OriginAllowlist => self.origin_allowlist,
            Feature::TypedGameruleValue => self.typed_gamerule_value,
            Feature::PreStartDiscovery => self.pre_start_discovery,
            Feature::WorldUpgradeNotifications => self.world_upgrade_notifications,
        }
    }

    /// The empty set.
    pub fn empty() -> (r: FeatureSet)
        ensures
            forall|f: Feature| !r.has(f),
    {
        FeatureSet {
            authentication: false,
            tls_by_default: false,
            minecraft_notification_prefix: false,
            server_activity_notification: false,
            origin_allowlist: false,
            typed_gamerule_value: false,
            pre_start_discovery: false,
            world_upgrade_notifications: false,
        }
    }

    /// Adds `f` to the set.
    pub fn insert(&mut self, f: Feature)
        ensures
            forall|g: Feature| final(self).has(g) == (old(self).has(g) || g == f),
    {
        match f {
            Feature::Authentication => self.authentication = true,
            Feature::TlsByDefault => self.tls_by_default = true,
            Feature::MinecraftNotificationPrefix => self.minecraft_notification_prefix = true,
            Feature::ServerActivityNotification => self.server_activity_notification = true,
            Feature::OriginAllowlist => self.origin_allowlist = true,
            Feature::TypedGameruleValue => self.typed_gamerule_value = true,
            Feature::PreStartDiscovery => self.pre_start_discovery = true,
            Feature::WorldUpgradeNotifications => self.world_upgrade_notifications = true,
        }
    }

    /// Returns whether `f` is in the set.
    pub fn contains(&self, f: Feature) -> (r: bool)
        ensures
            r == self.has(f),
    {
        match f {
            Feature::Authentication => self.authentication,
            Feature::TlsByDefault => self.tls_by_default,
            Feature::MinecraftNotificationPrefix => self.minecraft_notification_prefix,
            Feature::ServerActivityNotification => self.server_activity_notification,
            Feature::OriginAllowlist => self.origin_allowlist,
            Feature::TypedGameruleValue => self.typed_gamerule_value,
            Feature::PreStartDiscovery => self.pre_start_discovery,
            Feature::WorldUpgradeNotifications => self.world_upgrade_notifications,
        }
    }
}

/// `version` is known and at least `minimum`.
pub open spec fn known_at_least(version: Option<ProtocolVersion>, minimum: ProtocolVersion) -> bool {
    version matches Some(v) && at_least(v, minimum)
}

pub open spec fn v(major: u64, minor: u64) -> ProtocolVersion {
    ProtocolVersion { major, minor, patch: 0 }
}

/// Some name in `names` begins with `prefix`.
pub open spec fn some_name_starts_with(names: Set<Seq<char>>, prefix: Seq<char>) -> bool {
    exists|n: Seq<char>|
        names.contains(n) && prefix.len() <= n.len() && #[trigger] n.take(prefix.len() as int)
            == prefix
}

/// Whether the advertised version, methods and notifications imply `f`.
pub open spec fn implies_feature(
    version: Option<ProtocolVersion>,
    methods: Set<Seq<char>>,
    notifications: Set<Seq<char>>,
    f: Feature,
) -> bool {
    match f {
        Feature::Authentication => known_at_least(version, v(1, 0)),
        Feature::TlsByDefault => known_at_least(version, v(1, 0)),
        Feature::ServerActivityNotification => known_at_least(version, v(1, 1)) || notifications.contains(
            "minecraft:notification/server/activity"@,
        ) || notifications.contains("notification:server/activity"@),
        Feature::OriginAllowlist => known_at_least(version, v(1, 1)),
        Feature::TypedGameruleValue => known_at_least(version, v(2, 0)),
        Feature::PreStartDiscovery => known_at_least(version, v(3, 0)) || (methods.contains(
            "rpc.discover"@,
        ) && methods.contains("minecraft:server/status"@) && known_at_least(version, v(3, 0))),
        Feature::WorldUpgradeNotifications => known_at_least(version, v(3, 1))
            || some_name_starts_with(notifications, "minecraft:notification/world/upgrade_"@),
        Feature::MinecraftNotificationPrefix => some_name_starts_with(
            notifications,
            "minecraft:notification/"@,
        ),
    }
}

/// The version advertised by one member of the schema: a version string, or
/// an object whose `version` (else `name`) member is a version string.
pub open spec fn version_from_member(value: JsonData) -> Option<ProtocolVersion> {
    let direct = match as_str_spec(value) {
        Some(s) => parse_version_spec(s),
        None => None,
    };
    if direct is Some {
        direct
    } else {
        match value {
            JsonData::Object(_) => {
                let inner = if get_spec(value, "version"@) is Some {
                    get_spec(value, "version"@)
                } else {
                    get_spec(value, "name"@)
                };
                match inner {
                    Some(i) => match as_str_spec(i) {
                        Some(t) => parse_version_spec(t),
                        None => None,
                    },
                    None => None,
                }
            },
            _ => None,
        }
    }
}

pub open spec fn version_from_key(schema: JsonData, key: Seq<char>) -> Option<ProtocolVersion> {
    match get_spec(schema, key) {
        Some(value) => version_from_member(value),
        None => None,
    }
}

/// The protocol version advertised by a discovery schema: the first of the
/// members `protocolVersion`, `protocol_version`, `mcsmpVersion`,
/// `mcsmp_version` and `version` that yields one.
pub open spec fn protocol_version_spec(schema: JsonData) -> Option<ProtocolVersion> {
    if !(schema is Object) {
        None
    } else if version_from_key(schema, "protocolVersion"@) is Some {
        version_from_key(schema, "protocolVersion"@)
    } else if version_from_key(schema, "protocol_version"@) is Some {
        version_from_key(schema, "protocol_version"@)
    } else if version_from_key(schema, "mcsmpVersion"@) is Some {
        version_from_key(schema, "mcsmpVersion"@)
    } else if version_from_key(schema, "mcsmp_version"@) is Some {
        version_from_key(schema, "mcsmp_version"@)
    } else {
        version_from_key(schema, "version"@)
    }
}

/// A non-blank text.
pub open spec fn non_blank_text(value: Option<JsonData>) -> Option<Seq<char>> {
    match value {
        Some(v) => match as_str_spec(v) {
            Some(s) => if is_blank(s) {
                None
            } else {
                Some(s)
            },
            None => None,
        },
        None => None,
    }
}

/// The first present member among `a`, `b` (and `c`).
pub open spec fn first_present(value: JsonData, keys: Seq<Seq<char>>) -> Option<JsonData>
    decreases keys.len(),
{
    if keys.len() == 0 {
        None
    } else if get_spec(value, keys[0]) is Some {
        get_spec(value, keys[0])
    } else {
        first_present(value, keys.drop_first())
    }
}

/// The name of an entry of an array-shaped listing.
pub open spec fn array_entry_name(entry: JsonData) -> Option<Seq<char>> {
    match entry {
        JsonData::Str(s) => if is_blank(s) {
            None
        } else {
            Some(s)
        },
        JsonData::Object(_) => non_blank_text(
            first_present(entry, seq!["name"@, "method"@, "id"@]),
        ),
        _ => None,
    }
}

/// Names of an array-shaped listing.
pub open spec fn array_names(key: Seq<char>, items: Seq<JsonData>) -> Set<Seq<char>>
    decreases items.len(),
{
    if items.len() == 0 {
        Set::empty()
    } else {
        let s = array_names(key, items.drop_last());
        match array_entry_name(items.last()) {
            Some(n) => s.insert(listed_name(key, n)),
            None => s,
        }
    }
}

/// Schema fragments of an array-shaped listing: each named object entry.
pub open spec fn array_fragments(key: Seq<char>, items: Seq<JsonData>) -> Map<Seq<char>, JsonData>
    decreases items.len(),
{
    if items.len() == 0 {
        Map::empty()
    } else {
        let m = array_fragments(key, items.drop_last());
        match (items.last(), array_entry_name(items.last())) {
            (JsonData::Object(_), Some(n)) => m.insert(listed_name(key, n), items.last()),
            _ => m,
        }
    }
}

/// Names of a map-shaped listing: every non-blank member name.
pub open spec fn map_names(key: Seq<char>, entries: Seq<(Seq<char>, JsonData)>) -> Set<Seq<char>>
    decreases entries.len(),
{
    if entries.len() == 0 {
        Set::empty()
    } else {
        let s = map_names(key, entries.drop_last());
        if is_blank(entries.last().0) {
            s
        } else {
            s.insert(listed_name(key, entries.last().0))
        }
    }
}

/// Fragments of a map-shaped listing: every member with a non-blank name.
pub open spec fn map_fragments(key: Seq<char>, entries: Seq<(Seq<char>, JsonData)>) -> Map<Seq<char>, JsonData>
    decreases entries.len(),
{
    if entries.len() == 0 {
        Map::empty()
    } else {
        let m = map_fragments(key, entries.drop_last());
        if is_blank(entries.last().0) {
            m
        } else {
            m.insert(listed_name(key, entries.last().0), entries.last().1)
        }
    }
}

/// How a listed name is recorded: a historical `notification:` name in the
/// notification listing is moved into the current
/// `minecraft:notification/` namespace; every other name is kept as it is.
pub open spec fn listed_name(key: Seq<char>, n: Seq<char>) -> Seq<char> {
    if key == "notifications"@ && has_prefix(n, legacy_prefix()) {
        current_prefix() + n.subrange(legacy_prefix().len() as int, n.len() as int)
    } else {
        n
    }
}

/// Records a listed name as `listed_name` says.
fn listed(key: &str, name: String) -> (r: String)
    ensures
        r@ == listed_name(key@, name@),
{
    let chars = chars_of(name.as_str());
    proof {
        reveal_strlit("notification:");
        reveal_strlit("notifications");
    }
    if !str_eq(key, "notifications") || !starts_with(chars.as_slice(), "notification:") {
        assert(chars@.take(13) == chars@.subrange(0, 13));
        return name;
    }
    assert(chars@.take(13) == chars@.subrange(0, 13));
    let suffix = vstd::slice::slice_subrange(chars.as_slice(), 13, chars.len());
    let mut r = String::new();
    push_str(&mut r, "minecraft:notification/");
    push_str(&mut r, string_from_chars(suffix).as_str());
    r
}

/// The single-entry name of an object listing that describes one method.
pub open spec fn single_entry_name(value: JsonData) -> Option<Seq<char>> {
    non_blank_text(first_present(value, seq!["name"@, "method"@]))
}

/// Names advertised under `key` of a discovery schema, each as
/// `listed_name` gives it.
pub open spec fn entry_names(schema: JsonData, key: Seq<char>) -> Set<Seq<char>> {
    match get_spec(schema, key) {
        Some(JsonData::Array(items)) => array_names(key, items),
        Some(JsonData::Object(entries)) => match single_entry_name(
            JsonData::Object(entries),
        ) {
            Some(n) => Set::empty().insert(listed_name(key, n)),
            None => map_names(key, entries),
        },
        _ => Set::empty(),
    }
}

/// Schema fragments advertised under `key` of a discovery schema, keyed
/// by `listed_name`.
pub open spec fn entry_fragments(schema: JsonData, key: Seq<char>) -> Map<Seq<char>, JsonData> {
    match get_spec(schema, key) {
        Some(JsonData::Array(items)) => array_fragments(key, items),
        Some(JsonData::Object(entries)) => match single_entry_name(
            JsonData::Object(entries),
        ) {
            Some(n) => Map::empty().insert(listed_name(key, n), JsonData::Object(entries)),
            None => map_fragments(key, entries),
        },
        _ => Map::empty(),
    }
}

/// A capability snapshot returned by discovery.
#[derive(Clone, Debug, PartialEq)]
pub struct Capabilities {
    /// Advertised MCSMP version when the schema contained a parsable value.
    pub protocol_version: Option<ProtocolVersion>,
    /// Full JSON-RPC method names advertised by the server, sorted, each
    /// once.
    pub methods: Vec<String>,
    /// Full notification method names advertised by the server, sorted,
    /// each once; historical `notification:` names are moved into the
    /// `minecraft:notification/` namespace.
    pub notifications: Vec<String>,
    /// Stable feature flags inferred from version and named capabilities.
    pub features: FeatureSet,
    /// Complete unmodified value returned by `rpc.discover`.
    pub raw_schema: JsonValue,
    /// Per-method schema fragments when the discovery shape exposed them,
    /// sorted by name, one per name.
    pub method_schemas: Vec<(String, JsonValue)>,
    /// Per-notification schema fragments when the discovery shape exposed
    /// them, sorted by the name recorded in `notifications`, one per name.
    pub notification_schemas: Vec<(String, JsonValue)>,
}

impl Capabilities {
    /// The advertised method names.
    pub open spec fn method_set(&self) -> Set<Seq<char>> {
        names_of(self.methods@)
    }

    /// The advertised notification names.
    pub open spec fn notification_set(&self) -> Set<Seq<char>> {
        names_of(self.notifications@)
    }

    /// Returns whether a full JSON-RPC method name was advertised.
    pub fn supports_method(&self, method: &str) -> (r: bool)
        ensures
            r == self.method_set().contains(method@),
    {
        contains_name(&self.methods, method)
    }

    /// Returns whether a full notification method name was advertised.
    pub fn supports_notification(&self, method: &str) -> (r: bool)
        ensures
            r == self.notification_set().contains(method@),
    {
        contains_name(&self.notifications, method)
    }

    /// Returns whether this snapshot implies `feature`.
    pub fn supports_feature(&self, feature: Feature) -> (r: bool)
        ensures
            r == self.features.has(feature),
    {
        self.features.contains(feature)
    }

    /// Returns an error when this snapshot does not imply `feature`.
    pub fn require_feature(&self, feature: Feature) -> (r: Result<(), Error>)
        ensures
            r is Ok <==> self.features.has(feature),
            r matches Err(e) ==> e == Error::UnsupportedFeature(feature),
    {
        if self.supports_feature(feature) {
            Ok(())
        } else {
            Err(Error::UnsupportedFeature(feature))
        }
    }

    /// Creates a capability summary from an arbitrary discovery response.
    /// Both arrays of `{ "name": ... }` records and object maps keyed by
    /// method or notification names are accepted; the whole response is kept.
    pub fn from_schema(raw_schema: JsonValue) -> (r: Capabilities)
        ensures
            r.protocol_version == protocol_version_spec(raw_schema@),
            r.method_set() == entry_names(raw_schema@, "methods"@),
            members_map(r.method_schemas@) == entry_fragments(raw_schema@, "methods"@),
            r.notification_set() == entry_names(raw_schema@, "notifications"@),
            members_map(r.notification_schemas@) == entry_fragments(
                raw_schema@,
                "notifications"@,
            ),
            forall|f: Feature|
                r.features.has(f) == implies_feature(
                    r.protocol_version,
                    r.method_set(),
                    r.notification_set(),
                    f,
                ),
            r.raw_schema@ == raw_schema@,
            sorted_names(r.methods@),
            sorted_names(r.notifications@),
            sorted_members(r.method_schemas@),
            sorted_members(r.notification_schemas@),
    {
        let protocol_version = extract_protocol_version(&raw_schema);
        let (methods, method_schemas) = extract_entries(&raw_schema, "methods");
        let (notifications, notification_schemas) = extract_entries(&raw_schema, "notifications");
        let features = infer_features(protocol_version, &methods, &notifications);
        Capabilities {
            protocol_version,
            methods,
            notifications,
            features,
            raw_schema,
            method_schemas,
            notification_schemas,
        }
    }
}

fn version_from_member_exec(value: &JsonValue) -> (r: Option<ProtocolVersion>)
    ensures
        r == version_from_member(value@),
{
    if let Some(s) = value.as_str() {
        if let Some(version) = ProtocolVersion::parse(s) {
            return Some(version);
        }
    }
    if value.is_object() {
        let inner = match value.get("version") {
            Some(i) => Some(i),
            None => value.get("name"),
        };
        match inner {
            Some(i) => match i.as_str() {
                Some(t) => ProtocolVersion::parse(t),
                None => None,
            },
            None => None,
        }
    } else {
        None
    }
}

fn version_from_key_exec(schema: &JsonValue, key: &str) -> (r: Option<ProtocolVersion>)
    ensures
        r == version_from_key(schema@, key@),
{
    match schema.get(key) {
        Some(value) => version_from_member_exec(value),
        None => None,
    }
}

/// Reads the advertised protocol version from a discovery schema.
pub fn extract_protocol_version(schema: &JsonValue) -> (r: Option<ProtocolVersion>)
    ensures
        r == protocol_version_spec(schema@),
{
    if !schema.is_object() {
        return None;
    }
    let a = version_from_key_exec(schema, "protocolVersion");
    if a.is_some() {
        return a;
    }
    let b = version_from_key_exec(schema, "protocol_version");
    if b.is_some() {
        return b;
    }
    let c = version_from_key_exec(schema, "mcsmpVersion");
    if c.is_some() {
        return c;
    }
    let d = version_from_key_exec(schema, "mcsmp_version");
    if d.is_some() {
        return d;
    }
    version_from_key_exec(schema, "version")
}

fn non_blank_text_exec(value: Option<&JsonValue>) -> (r: Option<String>)
    ensures
        match r {
            Some(s) => non_blank_text(
                match value {
                    Some(v) => Some(v@),
                    None => None,
                },
            ) == Some(s@),
            None => non_blank_text(
                match value {
                    Some(v) => Some(v@),
                    None => None,
                },
            ) is None,
        },
{
    match value {
        Some(v) => match v.as_str() {
            Some(s) => if is_blank_str(s) {
                None
            } else {
                Some(owned(s))
            },
            None => None,
        },
        None => None,
    }
}

fn entry_name_in_object(value: &JsonValue, with_id: bool) -> (r: Option<String>)
    requires
        value@ is Object,
    ensures
        match r {
            Some(s) => non_blank_text(
                first_present(
                    value@,
                    if with_id {
                        seq!["name"@, "method"@, "id"@]
                    } else {
                        seq!["name"@, "method"@]
                    },
                ),
            ) == Some(s@),
            None => non_blank_text(
                first_present(
                    value@,
                    if with_id {
                        seq!["name"@, "method"@, "id"@]
                    } else {
                        seq!["name"@, "method"@]
                    },
                ),
            ) is None,
        },
{
    let ghost keys = if with_id {
        seq!["name"@, "method"@, "id"@]
    } else {
        seq!["name"@, "method"@]
    };
    proof {
        reveal_with_fuel(first_present, 4);
        assert(keys[0] == "name"@);
        assert(keys.drop_first()[0] == "method"@);
        if with_id {
            assert(keys.drop_first().drop_first()[0] == "id"@);
            assert(keys.drop_first().drop_first().drop_first().len() == 0);
        } else {
            assert(keys.drop_first().drop_first().len() == 0);
        }
    }
    let found = match value.get("name") {
        Some(n) => Some(n),
        None => match value.get("method") {
            Some(m) => Some(m),
            None => if with_id {
                value.get("id")
            } else {
                None
            },
        },
    };
    non_blank_text_exec(found)
}

/// Collects the names, and the schema fragments, listed under `key`.
pub fn extract_entries(schema: &JsonValue, key: &str) -> (r: (Vec<String>, Vec<(String, JsonValue)>))
    ensures
        names_of(r.0@) == entry_names(schema@, key@),
        members_map(r.1@) == entry_fragments(schema@, key@),
        sorted_names(r.0@),
        sorted_members(r.1@),
{
    let mut names: Vec<String> = Vec::new();
    let mut fragments: Vec<(String, JsonValue)> = Vec::new();
    let value = match schema.get(key) {
        Some(v) => v,
        None => {
            assert(names_of(names@) =~= Set::<Seq<char>>::empty());
            assert(members_map(fragments@) =~= Map::<Seq<char>, JsonData>::empty());
            return (names, fragments);
        },
    };
    match value {
        JsonValue::Array(entries) => {
            proof {
                lemma_array_view(*value);
            }
            let ghost items = value@->Array_0;
            let mut i: usize = 0;
            assert(items.take(0) =~= Seq::<JsonData>::empty());
            while i < entries.len()
                invariant
                    i <= entries.len(),
                    items.len() == entries.len(),
                    forall|k: int| 0 <= k < entries.len() ==> #[trigger] items[k] == entries@[k]@,
                    names_of(names@) == array_names(key@, items.take(i as int)),
                    members_map(fragments@) == array_fragments(key@, items.take(i as int)),
                    sorted_names(names@),
                    sorted_members(fragments@),
                decreases entries.len() - i,
            {
                let entry = &entries[i];
                assert(items.take(i + 1).drop_last() =~= items.take(i as int));
                assert(items.take(i + 1).last() == entry@);
                match entry {
                    JsonValue::String(name) => {
                        if !is_blank_str(name.as_str()) {
                            insert_name(&mut names, listed(key, name.clone()));
                        }
                    },
                    JsonValue::Object(_) => {
                        proof {
                            reveal_with_fuel(first_present, 4);
                        }
                        let name = entry_name_in_object(entry, true);
                        if let Some(name) = name {
                            let name = listed(key, name);
                            insert_name(&mut names, name.clone());
                            insert_member(&mut fragments, name, entry.deep_clone());
                        }
                    },
                    _ => {},
                }
                i += 1;
            }
            assert(items.take(entries.len() as int) =~= items);
            (names, fragments)
        },
        JsonValue::Object(entries) => {
            proof {
                lemma_object_view(*value);
            }
            let single = entry_name_in_object(value, false);
            if let Some(name) = single {
                let name = listed(key, name);
                insert_name(&mut names, name.clone());
                insert_member(&mut fragments, name, value.deep_clone());
                assert(names_of(names@) =~= Set::<Seq<char>>::empty().insert(name@));
                return (names, fragments);
            }
            let ghost members = value@->Object_0;
            let mut i: usize = 0;
            assert(members.take(0) =~= Seq::<(Seq<char>, JsonData)>::empty());
            while i < entries.len()
                invariant
                    i <= entries.len(),
                    members.len() == entries.len(),
                    forall|k: int|
                        0 <= k < entries.len() ==> #[trigger] members[k] == (
                            entries@[k].0@,
                            entries@[k].1@,
                        ),
                    names_of(names@) == map_names(key@, members.take(i as int)),
                    members_map(fragments@) == map_fragments(key@, members.take(i as int)),
                    sorted_names(names@),
                    sorted_members(fragments@),
                decreases entries.len() - i,
            {
                assert(members.take(i + 1).drop_last() =~= members.take(i as int));
                assert(members.take(i + 1).last() == members[i as int]);
                let name = &entries[i].0;
                if !is_blank_str(name.as_str()) {
                    let listed_as = listed(key, name.clone());
                    insert_name(&mut names, listed_as.clone());
                    insert_member(&mut fragments, listed_as, entries[i].1.deep_clone());
                }
                i += 1;
            }
            assert(members.take(entries.len() as int) =~= members);
            (names, fragments)
        },
        _ => {
            assert(names_of(names@) =~= Set::<Seq<char>>::empty());
            assert(members_map(fragments@) =~= Map::<Seq<char>, JsonData>::empty());
            (names, fragments)
        },
    }
}

/// Infers optional protocol features from an advertised version and the
/// advertised method and notification names.
pub fn infer_features(
    version: Option<ProtocolVersion>,
    methods: &Vec<String>,
    notifications: &Vec<String>,
) -> (r: FeatureSet)
    ensures
        forall|f: Feature|
            r.has(f) == implies_feature(version, names_of(methods@), names_of(notifications@), f),
{
    let mut features = FeatureSet::empty();
    let at_least_1_0 = match version {
        Some(v) => v.is_at_least(ProtocolVersion::new(1, 0, 0)),
        None => false,
    };
    let at_least_1_1 = match version {
        Some(v) => v.is_at_least(ProtocolVersion::new(1, 1, 0)),
        None => false,
    };
    let at_least_2_0 = match version {
        Some(v) => v.is_at_least(ProtocolVersion::new(2, 0, 0)),
        None => false,
    };
    let at_least_3_0 = match version {
        Some(v) => v.is_at_least(ProtocolVersion::new(3, 0, 0)),
        None => false,
    };
    let at_least_3_1 = match version {
        Some(v) => v.is_at_least(ProtocolVersion::new(3, 1, 0)),
        None => false,
    };
    if at_least_1_0 {
        features.insert(Feature::Authentication);
        features.insert(Feature::TlsByDefault);
    }
    if at_least_1_1 {
        features.insert(Feature::ServerActivityNotification);
        features.insert(Feature::OriginAllowlist);
    }
    if at_least_2_0 {
        features.insert(Feature::TypedGameruleValue);
    }
    if at_least_3_0 {
        features.insert(Feature::PreStartDiscovery);
    }
    if at_least_3_1 {
        features.insert(Feature::WorldUpgradeNotifications);
    }
    if any_name_starts_with(notifications, "minecraft:notification/") {
        features.insert(Feature::MinecraftNotificationPrefix);
    }
    if contains_name(notifications, "minecraft:notification/server/activity") || contains_name(
        notifications,
        "notification:server/activity",
    ) {
        features.insert(Feature::ServerActivityNotification);
    }
    if any_name_starts_with(notifications, "minecraft:notification/world/upgrade_") {
        features.insert(Feature::WorldUpgradeNotifications);
    }
    if contains_name(methods, "rpc.discover") && contains_name(methods, "minecraft:server/status")
        && at_least_3_0 {
        features.insert(Feature::PreStartDiscovery);
    }
    features
}

/// A newer protocol version, or more advertised names, never implies
/// fewer features.
pub proof fn lemma_features_monotone(
    older: ProtocolVersion,
    newer: ProtocolVersion,
    methods: Set<Seq<char>>,
    more_methods: Set<Seq<char>>,
    notifications: Set<Seq<char>>,
    more_notifications: Set<Seq<char>>,
    f: Feature,
)
    requires
        at_least(newer, older),
        methods.subset_of(more_methods),
        notifications.subset_of(more_notifications),
        implies_feature(Some(older), methods, notifications, f),
    ensures
        implies_feature(Some(newer), more_methods, more_notifications, f),
{
    let minimums = seq![v(1, 0), v(1, 1), v(2, 0), v(3, 0), v(3, 1)];
    assert forall|i: int| 0 <= i < minimums.len() implies at_least(older, #[trigger] minimums[i]) ==> at_least(newer, minimums[i]) by {
        if at_least(older, minimums[i]) {
            crate::version::lemma_at_least_transitive(newer, older, minimums[i]);
        }
    }
    assert(minimums[0] == v(1, 0));
    assert(minimums[1] == v(1, 1));
    assert(minimums[2] == v(2, 0));
    assert(minimums[3] == v(3, 0));
    assert(minimums[4] == v(3, 1));
    if f == Feature::WorldUpgradeNotifications || f == Feature::MinecraftNotificationPrefix {
        let prefix = if f == Feature::WorldUpgradeNotifications {
            "minecraft:notification/world/upgrade_"@
        } else {
            "minecraft:notification/"@
        };
        if some_name_starts_with(notifications, prefix) {
            let n = choose|n: Seq<char>|
                notifications.contains(n) && prefix.len() <= n.len() && #[trigger] n.take(
                    prefix.len() as int,
                ) == prefix;
            assert(more_notifications.contains(n));
        }
    }
}

/// The protocol version that introduced each versioned feature: 1.0.0
/// for authentication and TLS by default, 1.1.0 for the origin allowlist,
/// 2.0.0 for typed gamerule values, 3.0.0 for pre-start discovery. An
/// advertised version implies such a feature exactly when it is at least
/// that version (by major, then minor number), and a schema without a
/// version implies none of them.
pub proof fn lemma_feature_versions(
    version: ProtocolVersion,
    methods: Set<Seq<char>>,
    notifications: Set<Seq<char>>,
)
    ensures
        implies_feature(Some(version), methods, notifications, Feature::Authentication) == (version.major
            >= 1),
        implies_feature(Some(version), methods, notifications, Feature::TlsByDefault) == (version.major
            >= 1),
        implies_feature(Some(version), methods, notifications, Feature::OriginAllowlist) == (
        version.major >= 2 || (version.major == 1 && version.minor >= 1)),
        implies_feature(Some(version), methods, notifications, Feature::TypedGameruleValue) == (
        version.major >= 2),
        implies_feature(Some(version), methods, notifications, Feature::PreStartDiscovery) == (
        version.major >= 3),
        version.major >= 4 || (version.major == 3 && version.minor >= 1) ==> implies_feature(
            Some(version),
            methods,
            notifications,
            Feature::WorldUpgradeNotifications,
        ),
        version.major >= 2 || (version.major == 1 && version.minor >= 1) ==> implies_feature(
            Some(version),
            methods,
            notifications,
            Feature::ServerActivityNotification,
        ),
        !implies_feature(None, methods, notifications, Feature::Authentication),
        !implies_feature(None, methods, notifications, Feature::TlsByDefault),
        !implies_feature(None, methods, notifications, Feature::OriginAllowlist),
        !implies_feature(None, methods, notifications, Feature::TypedGameruleValue),
        !implies_feature(None, methods, notifications, Feature::PreStartDiscovery),
{
}

} // verus!
