//! User bans, resolved IP bans and IP-ban requests.

use vstd::prelude::*;

use crate::error::ModelError;
use crate::ip::{ip_spec, ip_text, IpAddress, IpData};
use crate::json::{
    as_str_spec, get_spec, lemma_object_members, members_view, opt_text_view, optional_member,
    optional_text, push_member, push_text_member, read_optional_text, required_member,
    text_member, JsonData, JsonValue,
};
use crate::json::{lemma_member_absent, lemma_member_at};
use crate::model::player::{
    ensure_not_blank, lemma_player_round_trip, player_from_json, player_json, selector_ok,
    uuid_from_text, uuid_hyphenated, PlayerData, PlayerRef,
};
use crate::text::is_blank;

verus! {

/// Optional ban metadata: a reason, a source label and an ISO-8601
/// expiry instant.
pub struct BanMeta {
    pub reason: Option<Seq<char>>,
    pub source: Option<Seq<char>>,
    pub expires: Option<Seq<char>>,
}

/// The metadata members of a ban's JSON form, each only when present.
pub open spec fn meta_members(m: BanMeta) -> Seq<(Seq<char>, JsonData)> {
    text_member("reason"@, m.reason) + text_member("source"@, m.source) + text_member(
        "expires"@,
        m.expires,
    )
}

/// The metadata read from JSON; absent and `null` members are absent.
pub open spec fn meta_from_json(j: JsonData) -> Option<BanMeta> {
    match (
        optional_text(j, "reason"@),
        optional_text(j, "source"@),
        optional_text(j, "expires"@),
    ) {
        (Some(reason), Some(source), Some(expires)) => Some(BanMeta { reason, source, expires }),
        _ => None,
    }
}

/// User-ban entry used by the `minecraft:bans` resource. `expires` of
/// `None` means that the ban is permanent.
#[derive(Clone, Debug, PartialEq, Eq)]
pub struct UserBan {
    /// Player selector identifying the banned account.
    pub player: PlayerRef,
    /// Optional non-blank human-readable reason stored with the ban.
    pub reason: Option<String>,
    /// Optional non-blank actor, tool, or source label that created the ban.
    pub source: Option<String>,
    /// Optional ISO-8601 expiration instant; `None` denotes a permanent ban.
    pub expires: Option<String>,
}

/// The content of a user ban.
pub struct UserBanData {
    pub player: PlayerData,
    pub meta: BanMeta,
}

impl View for UserBan {
    type V = UserBanData;

    open spec fn view(&self) -> UserBanData {
        UserBanData {
            player: self.player@,
            meta: BanMeta {
                reason: opt_text_view(self.reason),
                source: opt_text_view(self.source),
                expires: opt_text_view(self.expires),
            },
        }
    }
}

/// The JSON form: `player`, then `reason`, `source` and `expires` when
/// present.
pub open spec fn user_ban_json(b: UserBanData) -> JsonData {
    JsonData::Object(seq![("player"@, player_json(b.player))] + meta_members(b.meta))
}

/// A user ban read from JSON: a required `player` selector and optional
/// text metadata.
pub open spec fn user_ban_from_json(j: JsonData) -> Option<UserBanData> {
    if !(j is Object) {
        None
    } else {
        match (required_member(j, "player"@, |v| player_from_json(v)), meta_from_json(j)) {
            (Some(player), Some(meta)) => Some(UserBanData { player, meta }),
            _ => None,
        }
    }
}

fn push_meta(
    members: &mut Vec<(String, JsonValue)>,
    reason: &Option<String>,
    source: &Option<String>,
    expires: &Option<String>,
)
    ensures
        members_view(final(members)@) == members_view(old(members)@) + meta_members(
            BanMeta {
                reason: opt_text_view(*reason),
                source: opt_text_view(*source),
                expires: opt_text_view(*expires),
            },
        ),
{
    let ghost start = members_view(members@);
    push_text_member(members, "reason", reason);
    push_text_member(members, "source", source);
    push_text_member(members, "expires", expires);
    assert(members_view(members@) =~= start + meta_members(
        BanMeta {
            reason: opt_text_view(*reason),
            source: opt_text_view(*source),
            expires: opt_text_view(*expires),
        },
    ));
}

fn read_meta(value: &JsonValue) -> (r: Option<(Option<String>, Option<String>, Option<String>)>)
    ensures
        match r {
            Some((a, b, c)) => meta_from_json(value@) == Some(
                BanMeta {
                    reason: opt_text_view(a),
                    source: opt_text_view(b),
                    expires: opt_text_view(c),
                },
            ),
            None => meta_from_json(value@) is None,
        },
{
    let reason = match read_optional_text(value, "reason") {
        Some(t) => t,
        None => return None,
    };
    let source = match read_optional_text(value, "source") {
        Some(t) => t,
        None => return None,
    };
    let expires = match read_optional_text(value, "expires") {
        Some(t) => t,
        None => return None,
    };
    Some((reason, source, expires))
}

/// A builder step that sets a non-blank text field.
pub open spec fn set_text_outcome(text: Seq<char>, field: &'static str) -> Result<
    Seq<char>,
    ModelError,
> {
    if is_blank(text) {
        Err(ModelError::BlankField { field })
    } else {
        Ok(text)
    }
}

impl UserBan {
    /// Creates a permanent user ban with no reason or source metadata.
    pub fn permanent(player: PlayerRef) -> (r: UserBan)
        ensures
            r@ == (UserBanData {
                player: player@,
                meta: BanMeta { reason: None, source: None, expires: None },
            }),
    {
        UserBan { player, reason: None, source: None, expires: None }
    }

    /// Creates a permanent user ban with a non-blank reason.
    pub fn with_reason(player: PlayerRef, reason: &str) -> (r: Result<UserBan, ModelError>)
        ensures
            match r {
                Ok(b) => !is_blank(reason@) && b@ == (UserBanData {
                    player: player@,
                    meta: BanMeta { reason: Some(reason@), source: None, expires: None },
                }),
                Err(e) => is_blank(reason@) && e == (ModelError::BlankField { field: "reason" }),
            },
    {
        if let Err(e) = ensure_not_blank("reason", reason) {
            return Err(e);
        }
        Ok(UserBan { player, reason: Some(reason.to_owned()), source: None, expires: None })
    }

    /// Adds a non-blank source label.
    pub fn with_source(self, source: &str) -> (r: Result<UserBan, ModelError>)
        ensures
            match r {
                Ok(b) => !is_blank(source@) && b@ == (UserBanData {
                    meta: BanMeta { source: Some(source@), ..self@.meta },
                    ..self@
                }),
                Err(e) => is_blank(source@) && e == (ModelError::BlankField { field: "source" }),
            },
    {
        if let Err(e) = ensure_not_blank("source", source) {
            return Err(e);
        }
        let mut b = self;
        b.source = Some(source.to_owned());
        Ok(b)
    }

    /// Adds a non-blank expiration instant; its syntax is checked by the
    /// server.
    pub fn expiring_at(self, expires: &str) -> (r: Result<UserBan, ModelError>)
        ensures
            match r {
                Ok(b) => !is_blank(expires@) && b@ == (UserBanData {
                    meta: BanMeta { expires: Some(expires@), ..self@.meta },
                    ..self@
                }),
                Err(e) => is_blank(expires@) && e == (ModelError::BlankField { field: "expires" }),
            },
    {
        if let Err(e) = ensure_not_blank("expires", expires) {
            return Err(e);
        }
        let mut b = self;
        b.expires = Some(expires.to_owned());
        Ok(b)
    }

    /// The JSON form of the ban.
    pub fn to_json(&self) -> (r: JsonValue)
        ensures
            r@ == user_ban_json(self@),
    {
        let mut members: Vec<(String, JsonValue)> = Vec::new();
        push_member(&mut members, "player", self.player.to_json());
        push_meta(&mut members, &self.reason, &self.source, &self.expires);
        let r = JsonValue::Object(members);
        proof {
            lemma_object_members(r);
            assert(members_view(r->Object_0@) =~= seq![("player"@, player_json(self.player@))]
                + meta_members(self@.meta));
        }
        r
    }

    /// Reads a user ban.
    pub fn from_json(value: &JsonValue) -> (r: Option<UserBan>)
        ensures
            match r {
                Some(b) => user_ban_from_json(value@) == Some(b@),
                None => user_ban_from_json(value@) is None,
            },
    {
        if !value.is_object() {
            return None;
        }
        let player = match value.get("player") {
            Some(p) => match PlayerRef::from_json(p) {
                Some(p) => p,
                None => return None,
            },
            None => return None,
        };
        match read_meta(value) {
            Some((reason, source, expires)) => Some(UserBan { player, reason, source, expires }),
            None => None,
        }
    }
}

/// Resolved network-address ban entry used by `minecraft:ip_bans`.
#[derive(Clone, Debug, PartialEq, Eq)]
pub struct IpBan {
    /// Concrete IPv4 or IPv6 address that is banned.
    pub ip: IpAddress,
    /// Optional non-blank human-readable reason stored with the ban.
    pub reason: Option<String>,
    /// Optional non-blank actor, tool, or source label that created the ban.
    pub source: Option<String>,
    /// Optional ISO-8601 expiration instant; `None` denotes a permanent ban.
    pub expires: Option<String>,
}

/// The content of an IP ban.
pub struct IpBanData {
    pub ip: IpData,
    pub meta: BanMeta,
}

impl View for IpBan {
    type V = IpBanData;

    open spec fn view(&self) -> IpBanData {
        IpBanData {
            ip: self.ip@,
            meta: BanMeta {
                reason: opt_text_view(self.reason),
                source: opt_text_view(self.source),
                expires: opt_text_view(self.expires),
            },
        }
    }
}

/// An address written as a JSON string.
pub open spec fn read_ip(v: JsonData) -> Option<IpData> {
    match as_str_spec(v) {
        Some(t) => ip_spec(t),
        None => None,
    }
}

/// The JSON form: `ip` as text, then the metadata that is present.
pub open spec fn ip_ban_json(b: IpBanData) -> JsonData {
    JsonData::Object(seq![("ip"@, JsonData::Str(ip_text(b.ip)))] + meta_members(b.meta))
}

/// An IP ban read from JSON: a required `ip` string and optional text
/// metadata.
pub open spec fn ip_ban_from_json(j: JsonData) -> Option<IpBanData> {
    if !(j is Object) {
        None
    } else {
        match (required_member(j, "ip"@, |v| read_ip(v)), meta_from_json(j)) {
            (Some(ip), Some(meta)) => Some(IpBanData { ip, meta }),
            _ => None,
        }
    }
}

fn ip_from_json(v: &JsonValue) -> (r: Option<IpAddress>)
    ensures
        match r {
            Some(a) => read_ip(v@) == Some(a@),
            None => read_ip(v@) is None,
        },
{
    match v.as_str() {
        Some(t) => IpAddress::parse(t),
        None => None,
    }
}

impl IpBan {
    /// Creates a permanent IP ban with no reason or source metadata.
    pub fn permanent(ip: IpAddress) -> (r: IpBan)
        ensures
            r@ == (IpBanData {
                ip: ip@,
                meta: BanMeta { reason: None, source: None, expires: None },
            }),
    {
        IpBan { ip, reason: None, source: None, expires: None }
    }

    /// Creates a permanent IP ban with a non-blank reason.
    pub fn with_reason(ip: IpAddress, reason: &str) -> (r: Result<IpBan, ModelError>)
        ensures
            match r {
                Ok(b) => !is_blank(reason@) && b@ == (IpBanData {
                    ip: ip@,
                    meta: BanMeta { reason: Some(reason@), source: None, expires: None },
                }),
                Err(e) => is_blank(reason@) && e == (ModelError::BlankField { field: "reason" }),
            },
    {
        if let Err(e) = ensure_not_blank("reason", reason) {
            return Err(e);
        }
        Ok(IpBan { ip, reason: Some(reason.to_owned()), source: None, expires: None })
    }

    /// Adds a non-blank source label.
    pub fn with_source(self, source: &str) -> (r: Result<IpBan, ModelError>)
        ensures
            match r {
                Ok(b) => !is_blank(source@) && b@ == (IpBanData {
                    meta: BanMeta { source: Some(source@), ..self@.meta },
                    ..self@
                }),
                Err(e) => is_blank(source@) && e == (ModelError::BlankField { field: "source" }),
            },
    {
        if let Err(e) = ensure_not_blank("source", source) {
            return Err(e);
        }
        let mut b = self;
        b.source = Some(source.to_owned());
        Ok(b)
    }

    /// Adds a non-blank expiration instant.
    pub fn expiring_at(self, expires: &str) -> (r: Result<IpBan, ModelError>)
        ensures
            match r {
                Ok(b) => !is_blank(expires@) && b@ == (IpBanData {
                    meta: BanMeta { expires: Some(expires@), ..self@.meta },
                    ..self@
                }),
                Err(e) => is_blank(expires@) && e == (ModelError::BlankField { field: "expires" }),
            },
    {
        if let Err(e) = ensure_not_blank("expires", expires) {
            return Err(e);
        }
        let mut b = self;
        b.expires = Some(expires.to_owned());
        Ok(b)
    }

    /// The JSON form of the ban.
    pub fn to_json(&self) -> (r: JsonValue)
        ensures
            r@ == ip_ban_json(self@),
    {
        let mut members: Vec<(String, JsonValue)> = Vec::new();
        push_member(&mut members, "ip", JsonValue::String(self.ip.to_text()));
        push_meta(&mut members, &self.reason, &self.source, &self.expires);
        let r = JsonValue::Object(members);
        proof {
            lemma_object_members(r);
            assert(members_view(r->Object_0@) =~= seq![("ip"@, JsonData::Str(ip_text(self.ip@)))]
                + meta_members(self@.meta));
        }
        r
    }

    /// Reads an IP ban.
    pub fn from_json(value: &JsonValue) -> (r: Option<IpBan>)
        ensures
            match r {
                Some(b) => ip_ban_from_json(value@) == Some(b@),
                None => ip_ban_from_json(value@) is None,
            },
    {
        if !value.is_object() {
            return None;
        }
        let ip = match value.get("ip") {
            Some(v) => match ip_from_json(v) {
                Some(a) => a,
                None => return None,
            },
            None => return None,
        };
        match read_meta(value) {
            Some((reason, source, expires)) => Some(IpBan { ip, reason, source, expires }),
            None => None,
        }
    }
}

/// Input for creating an IP ban by direct address, player selector, or
/// both. At least one target is present; the metadata, when present, is
/// not blank.
#[derive(Debug, PartialEq, Eq)]
pub struct IncomingIpBan {
    ip: Option<IpAddress>,
    player: Option<PlayerRef>,
    reason: Option<String>,
    source: Option<String>,
    expires: Option<String>,
}

impl Clone for IncomingIpBan {
    fn clone(&self) -> (r: IncomingIpBan)
        ensures
            r@ == self@,
    {
        proof {
            use_type_invariant(self);
        }
        let player = match &self.player {
            Some(p) => Some(p.clone()),
            None => None,
        };
        IncomingIpBan {
            ip: self.ip,
            player,
            reason: self.reason.clone(),
            source: self.source.clone(),
            expires: self.expires.clone(),
        }
    }
}

/// The content of an IP-ban request.
pub struct IncomingIpBanData {
    pub ip: Option<IpData>,
    pub player: Option<PlayerData>,
    pub meta: BanMeta,
}

pub open spec fn opt_ip_view(a: Option<IpAddress>) -> Option<IpData> {
    match a {
        Some(x) => Some(x@),
        None => None,
    }
}

pub open spec fn opt_player_view(p: Option<PlayerRef>) -> Option<PlayerData> {
    match p {
        Some(x) => Some(x@),
        None => None,
    }
}

impl View for IncomingIpBan {
    type V = IncomingIpBanData;

    closed spec fn view(&self) -> IncomingIpBanData {
        IncomingIpBanData {
            ip: opt_ip_view(self.ip),
            player: opt_player_view(self.player),
            meta: BanMeta {
                reason: opt_text_view(self.reason),
                source: opt_text_view(self.source),
                expires: opt_text_view(self.expires),
            },
        }
    }
}

/// Present metadata is not blank.
pub open spec fn meta_ok(m: BanMeta) -> bool {
    &&& (m.reason matches Some(t) ==> !is_blank(t))
    &&& (m.source matches Some(t) ==> !is_blank(t))
    &&& (m.expires matches Some(t) ==> !is_blank(t))
}

/// The JSON form: `ip`, `player`, `reason`, `source` and `expires`, each
/// only when present.
pub open spec fn incoming_json(b: IncomingIpBanData) -> JsonData {
    JsonData::Object(
        match b.ip {
            Some(a) => seq![("ip"@, JsonData::Str(ip_text(a)))],
            None => Seq::empty(),
        } + match b.player {
            Some(p) => seq![("player"@, player_json(p))],
            None => Seq::empty(),
        } + meta_members(b.meta),
    )
}

/// A request read from JSON: optional `ip` and `player` of which one must
/// be present, then optional non-blank metadata. The outcome is the
/// request, or the validation error the constructors report first, or
/// `None` for a malformed document.
pub open spec fn incoming_from_json(j: JsonData) -> Option<Result<IncomingIpBanData, ModelError>> {
    if !(j is Object) {
        None
    } else {
        match (
            optional_member(j, "ip"@, |v| read_ip(v)),
            optional_member(j, "player"@, |v| player_from_json(v)),
            meta_from_json(j),
        ) {
            (Some(ip), Some(player), Some(meta)) => Some(
                if ip is None && player is None {
                    Err(ModelError::MissingIpBanTarget)
                } else if meta.reason matches Some(t) && is_blank(t) {
                    Err(ModelError::BlankField { field: "reason" })
                } else if meta.source matches Some(t) && is_blank(t) {
                    Err(ModelError::BlankField { field: "source" })
                } else if meta.expires matches Some(t) && is_blank(t) {
                    Err(ModelError::BlankField { field: "expires" })
                } else {
                    Ok(IncomingIpBanData { ip, player, meta })
                },
            ),
            _ => None,
        }
    }
}

impl IncomingIpBan {
    #[verifier::type_invariant]
    spec fn well_formed(self) -> bool {
        &&& (self.ip is Some || self.player is Some)
        &&& meta_ok(
            BanMeta {
                reason: opt_text_view(self.reason),
                source: opt_text_view(self.source),
                expires: opt_text_view(self.expires),
            },
        )
    }

    /// Every request has a target and no blank metadata.
    pub fn lemma_well_formed(&self)
        ensures
            self@.ip is Some || self@.player is Some,
            meta_ok(self@.meta),
    {
        proof {
            use_type_invariant(self);
        }
    }

    /// Creates a request targeting one concrete IPv4 or IPv6 address.
    pub fn ip(ip: IpAddress) -> (r: IncomingIpBan)
        ensures
            r@ == (IncomingIpBanData {
                ip: Some(ip@),
                player: None,
                meta: BanMeta { reason: None, source: None, expires: None },
            }),
    {
        IncomingIpBan { ip: Some(ip), player: None, reason: None, source: None, expires: None }
    }

    /// Creates a request asking the server to resolve a player's address.
    pub fn player(player: PlayerRef) -> (r: IncomingIpBan)
        ensures
            r@ == (IncomingIpBanData {
                ip: None,
                player: Some(player@),
                meta: BanMeta { reason: None, source: None, expires: None },
            }),
    {
        IncomingIpBan { ip: None, player: Some(player), reason: None, source: None, expires: None }
    }

    /// Creates a request with an optional address and player selector, at
    /// least one of which must be present.
    pub fn new(ip: Option<IpAddress>, player: Option<PlayerRef>) -> (r: Result<
        IncomingIpBan,
        ModelError,
    >)
        ensures
            match r {
                Ok(b) => (ip is Some || player is Some) && b@ == (IncomingIpBanData {
                    ip: opt_ip_view(ip),
                    player: opt_player_view(player),
                    meta: BanMeta { reason: None, source: None, expires: None },
                }),
                Err(e) => ip is None && player is None && e == ModelError::MissingIpBanTarget,
            },
    {
        if ip.is_none() && player.is_none() {
            return Err(ModelError::MissingIpBanTarget);
        }
        Ok(IncomingIpBan { ip, player, reason: None, source: None, expires: None })
    }

    /// Returns the explicitly supplied IP address, when present.
    pub fn address(&self) -> (r: Option<IpAddress>)
        ensures
            opt_ip_view(r) == self@.ip,
    {
        self.ip
    }

    /// Returns the player selector used for server-side address resolution.
    pub fn player_selector(&self) -> (r: Option<&PlayerRef>)
        ensures
            match r {
                Some(p) => self@.player == Some(p@),
                None => self@.player is None,
            },
    {
        match &self.player {
            Some(p) => Some(p),
            None => None,
        }
    }

    /// Returns the optional human-readable ban reason.
    pub fn reason(&self) -> (r: Option<&str>)
        ensures
            match r {
                Some(t) => self@.meta.reason == Some(t@),
                None => self@.meta.reason is None,
            },
    {
        match &self.reason {
            Some(t) => Some(t.as_str()),
            None => None,
        }
    }

    /// Returns the optional actor, tool, or source label.
    pub fn source(&self) -> (r: Option<&str>)
        ensures
            match r {
                Some(t) => self@.meta.source == Some(t@),
                None => self@.meta.source is None,
            },
    {
        match &self.source {
            Some(t) => Some(t.as_str()),
            None => None,
        }
    }

    /// Returns the optional ISO-8601 expiration string.
    pub fn expires(&self) -> (r: Option<&str>)
        ensures
            match r {
                Some(t) => self@.meta.expires == Some(t@),
                None => self@.meta.expires is None,
            },
    {
        match &self.expires {
            Some(t) => Some(t.as_str()),
            None => None,
        }
    }

    /// Adds a non-blank human-readable reason.
    pub fn with_reason(self, reason: &str) -> (r: Result<IncomingIpBan, ModelError>)
        ensures
            match r {
                Ok(b) => !is_blank(reason@) && b@ == (IncomingIpBanData {
                    meta: BanMeta { reason: Some(reason@), ..self@.meta },
                    ..self@
                }),
                Err(e) => is_blank(reason@) && e == (ModelError::BlankField { field: "reason" }),
            },
    {
        if let Err(e) = ensure_not_blank("reason", reason) {
            return Err(e);
        }
        proof {
            use_type_invariant(&self);
        }
        let IncomingIpBan { ip, player, reason: _, source, expires } = self;
        Ok(IncomingIpBan { ip, player, reason: Some(reason.to_owned()), source, expires })
    }

    /// Adds a non-blank actor, tool, or source label.
    pub fn with_source(self, source: &str) -> (r: Result<IncomingIpBan, ModelError>)
        ensures
            match r {
                Ok(b) => !is_blank(source@) && b@ == (IncomingIpBanData {
                    meta: BanMeta { source: Some(source@), ..self@.meta },
                    ..self@
                }),
                Err(e) => is_blank(source@) && e == (ModelError::BlankField { field: "source" }),
            },
    {
        if let Err(e) = ensure_not_blank("source", source) {
            return Err(e);
        }
        proof {
            use_type_invariant(&self);
        }
        let IncomingIpBan { ip, player, reason, source: _, expires } = self;
        Ok(IncomingIpBan { ip, player, reason, source: Some(source.to_owned()), expires })
    }

    /// Adds a non-blank expiration string; its syntax is checked by the
    /// server.
    pub fn expiring_at(self, expires: &str) -> (r: Result<IncomingIpBan, ModelError>)
        ensures
            match r {
                Ok(b) => !is_blank(expires@) && b@ == (IncomingIpBanData {
                    meta: BanMeta { expires: Some(expires@), ..self@.meta },
                    ..self@
                }),
                Err(e) => is_blank(expires@) && e == (ModelError::BlankField { field: "expires" }),
            },
    {
        if let Err(e) = ensure_not_blank("expires", expires) {
            return Err(e);
        }
        proof {
            use_type_invariant(&self);
        }
        let IncomingIpBan { ip, player, reason, source, expires: _ } = self;
        Ok(IncomingIpBan { ip, player, reason, source, expires: Some(expires.to_owned()) })
    }

    /// The JSON form of the request.
    pub fn to_json(&self) -> (r: JsonValue)
        ensures
            r@ == incoming_json(self@),
    {
        let mut members: Vec<(String, JsonValue)> = Vec::new();
        if let Some(a) = &self.ip {
            push_member(&mut members, "ip", JsonValue::String(a.to_text()));
        }
        if let Some(p) = &self.player {
            push_member(&mut members, "player", p.to_json());
        }
        let ghost before = members_view(members@);
        push_meta(&mut members, &self.reason, &self.source, &self.expires);
        let r = JsonValue::Object(members);
        proof {
            lemma_object_members(r);
            assert(members_view(r->Object_0@) =~= incoming_json(self@)->Object_0);
        }
        r
    }

    /// Reads a request, validating it as the constructors do: `None` for a
    /// malformed document, `Some(Err(..))` for a rejected one.
    pub fn from_json(value: &JsonValue) -> (r: Option<Result<IncomingIpBan, ModelError>>)
        ensures
            match r {
                Some(Ok(b)) => incoming_from_json(value@) == Some(Ok::<IncomingIpBanData, ModelError>(b@)),
                Some(Err(e)) => incoming_from_json(value@) == Some(Err::<IncomingIpBanData, ModelError>(e)),
                None => incoming_from_json(value@) is None,
            },
    {
        if !value.is_object() {
            return None;
        }
        let ip = match value.get("ip") {
            None => None,
            Some(JsonValue::Null) => None,
            Some(v) => match ip_from_json(v) {
                Some(a) => Some(a),
                None => return None,
            },
        };
        let player = match value.get("player") {
            None => None,
            Some(JsonValue::Null) => None,
            Some(v) => match PlayerRef::from_json(v) {
                Some(p) => Some(p),
                None => return None,
            },
        };
        let (reason, source, expires) = match read_meta(value) {
            Some(m) => m,
            None => return None,
        };
        let mut b = match IncomingIpBan::new(ip, player) {
            Ok(b) => b,
            Err(e) => return Some(Err(e)),
        };
        if let Some(t) = &reason {
            b = match b.with_reason(t.as_str()) {
                Ok(b) => b,
                Err(e) => return Some(Err(e)),
            };
        }
        if let Some(t) = &source {
            b = match b.with_source(t.as_str()) {
                Ok(b) => b,
                Err(e) => return Some(Err(e)),
            };
        }
        if let Some(t) = &expires {
            b = match b.expiring_at(t.as_str()) {
                Ok(b) => b,
                Err(e) => return Some(Err(e)),
            };
        }
        Some(Ok(b))
    }
}

proof fn lemma_meta_read_back(prefix: Seq<(Seq<char>, JsonData)>, m: BanMeta)
    requires
        forall|j: int|
            0 <= j < prefix.len() ==> (#[trigger] prefix[j]).0 != "reason"@ && prefix[j].0
                != "source"@ && prefix[j].0 != "expires"@,
    ensures
        meta_from_json(JsonData::Object(prefix + meta_members(m))) == Some(m),
{
    reveal_strlit("reason");
    reveal_strlit("source");
    reveal_strlit("expires");
    assert("reason"@[0] != "source"@[0]);
    assert("reason"@.len() != "expires"@.len());
    assert("source"@.len() != "expires"@.len());
    let r = text_member("reason"@, m.reason);
    let s = text_member("source"@, m.source);
    let x = text_member("expires"@, m.expires);
    let e = prefix + meta_members(m);
    assert(e =~= prefix + r + s + x);
    let p = prefix.len() as int;
    let rl = r.len() as int;
    let sl = s.len() as int;
    assert forall|j: int| 0 <= j < e.len() implies (#[trigger] e[j]).0 == "reason"@ ==> j == p && m.reason is Some by {
        if j >= p {
            if j < p + rl {
                assert(e[j] == r[j - p]);
            } else if j < p + rl + sl {
                assert(e[j] == s[j - p - rl]);
            } else {
                assert(e[j] == x[j - p - rl - sl]);
            }
        } else {
            assert(e[j] == prefix[j]);
        }
    }
    assert forall|j: int| 0 <= j < e.len() implies (#[trigger] e[j]).0 == "source"@ ==> j == p + rl && m.source is Some by {
        if j >= p {
            if j < p + rl {
                assert(e[j] == r[j - p]);
            } else if j < p + rl + sl {
                assert(e[j] == s[j - p - rl]);
            } else {
                assert(e[j] == x[j - p - rl - sl]);
            }
        } else {
            assert(e[j] == prefix[j]);
        }
    }
    assert forall|j: int| 0 <= j < e.len() implies (#[trigger] e[j]).0 == "expires"@ ==> j == p + rl + sl && m.expires is Some by {
        if j >= p {
            if j < p + rl {
                assert(e[j] == r[j - p]);
            } else if j < p + rl + sl {
                assert(e[j] == s[j - p - rl]);
            } else {
                assert(e[j] == x[j - p - rl - sl]);
            }
        } else {
            assert(e[j] == prefix[j]);
        }
    }
    if m.reason is Some {
        assert(e[p] == r[0]);
        lemma_member_at(e, "reason"@, p);
    } else {
        lemma_member_absent(e, "reason"@);
    }
    if m.source is Some {
        assert(e[p + rl] == s[0]);
        lemma_member_at(e, "source"@, p + rl);
    } else {
        lemma_member_absent(e, "source"@);
    }
    if m.expires is Some {
        assert(e[p + rl + sl] == x[0]);
        lemma_member_at(e, "expires"@, p + rl + sl);
    } else {
        lemma_member_absent(e, "expires"@);
    }
}

/// Reading back the JSON form of a user ban gives the ban.
pub proof fn lemma_user_ban_round_trip(b: UserBanData)
    requires
        selector_ok(b.player.id, b.player.name),
    ensures
        user_ban_from_json(user_ban_json(b)) == Some(b),
{
    reveal_strlit("player");
    reveal_strlit("reason");
    reveal_strlit("source");
    reveal_strlit("expires");
    assert("player"@[0] != "reason"@[0]);
    assert("player"@[0] != "source"@[0]);
    assert("player"@.len() != "expires"@.len());
    let prefix = seq![("player"@, player_json(b.player))];
    lemma_meta_read_back(prefix, b.meta);
    lemma_player_round_trip(b.player);
    let entries = prefix + meta_members(b.meta);
    assert(entries[0] == prefix[0]);
    lemma_member_at(entries, "player"@, 0);
}

/// Reading back the JSON form of an IP ban gives the ban.
pub proof fn lemma_ip_ban_round_trip(b: IpBanData)
    requires
        match b.ip {
            IpData::V4(o) => o.len() == 4,
            IpData::V6(g) => g.len() == 8,
        },
    ensures
        ip_ban_from_json(ip_ban_json(b)) == Some(b),
{
    reveal_strlit("ip");
    reveal_strlit("reason");
    reveal_strlit("source");
    reveal_strlit("expires");
    assert("ip"@.len() != "reason"@.len());
    assert("ip"@.len() != "source"@.len());
    assert("ip"@.len() != "expires"@.len());
    crate::ip::lemma_ip_round_trip(b.ip);
    let prefix = seq![("ip"@, JsonData::Str(ip_text(b.ip)))];
    lemma_meta_read_back(prefix, b.meta);
    let entries = prefix + meta_members(b.meta);
    assert(entries[0] == prefix[0]);
    lemma_member_at(entries, "ip"@, 0);
}

} // verus!
