//! Gamerules across current (typed) and legacy (string) protocol forms.

use vstd::prelude::*;

use crate::error::ModelError;
use crate::json::{
    as_str_spec, i32_json, lemma_object_view, required_member, JsonData, JsonNumber, JsonValue,
};
use crate::model::player::ensure_not_blank;
use crate::text::{chars_of, is_blank, owned, parse_i32, parse_i32_spec};

verus! {

/// Declared scalar kind of a Minecraft gamerule.
#[derive(Clone, Copy, Debug, PartialEq, Eq, Structural)]
#[non_exhaustive]
pub enum GameRuleKind {
    /// The gamerule holds an integer value.
    Integer,
    /// The gamerule holds a boolean value.
    Boolean,
}

/// A scalar gamerule value compatible with both current and legacy servers.
/// Boolean-looking strings are kept as legacy strings, never coerced.
#[derive(Clone, Debug, PartialEq, Eq)]
#[non_exhaustive]
pub enum GameRuleValue {
    /// A native JSON boolean gamerule value.
    Boolean(bool),
    /// A native JSON signed 32-bit integer gamerule value.
    Integer(i32),
    /// A legacy JSON string gamerule value.
    LegacyString(String),
}

/// The content of a gamerule value.
pub enum GameRuleData {
    Boolean(bool),
    Integer(i32),
    LegacyString(Seq<char>),
}

impl View for GameRuleValue {
    type V = GameRuleData;

    open spec fn view(&self) -> GameRuleData {
        match self {
            GameRuleValue::Boolean(b) => GameRuleData::Boolean(*b),
            GameRuleValue::Integer(n) => GameRuleData::Integer(*n),
            GameRuleValue::LegacyString(s) => GameRuleData::LegacyString(s@),
        }
    }
}

/// The name of a value's scalar kind, as reported in a mismatch.
pub open spec fn scalar_name_spec(v: GameRuleData) -> Seq<char> {
    match v {
        GameRuleData::Boolean(_) => "boolean"@,
        GameRuleData::Integer(_) => "integer"@,
        GameRuleData::LegacyString(_) => "legacy string"@,
    }
}

pub open spec fn kind_name_spec(k: GameRuleKind) -> Seq<char> {
    match k {
        GameRuleKind::Boolean => "boolean"@,
        GameRuleKind::Integer => "integer"@,
    }
}

/// A native value must match the declared kind; legacy strings match any.
pub open spec fn kind_accepts(kind: GameRuleKind, v: GameRuleData) -> bool {
    match (kind, v) {
        (GameRuleKind::Boolean, GameRuleData::Boolean(_)) => true,
        (GameRuleKind::Integer, GameRuleData::Integer(_)) => true,
        (_, GameRuleData::LegacyString(_)) => true,
        _ => false,
    }
}

/// `e` reports that `v` does not match `kind`.
pub open spec fn is_mismatch(e: ModelError, kind: GameRuleKind, v: GameRuleData) -> bool {
    e matches ModelError::GameRuleTypeMismatch { expected, actual } && expected@ == kind_name_spec(
        kind,
    ) && actual@ == scalar_name_spec(v)
}

/// The integer a value denotes: a native integer, or a legacy string that
/// parses as one.
pub open spec fn parse_integer_spec(v: GameRuleData) -> Option<i32> {
    match v {
        GameRuleData::Integer(n) => Some(n),
        GameRuleData::LegacyString(s) => parse_i32_spec(s),
        GameRuleData::Boolean(_) => None,
    }
}

/// The JSON form of a value: the bare scalar.
pub open spec fn value_json(v: GameRuleData) -> JsonData {
    match v {
        GameRuleData::Boolean(b) => JsonData::Bool(b),
        GameRuleData::Integer(n) => i32_json(n),
        GameRuleData::LegacyString(s) => JsonData::Str(s),
    }
}

/// The value read from a JSON scalar: a boolean, an integer in the `i32`
/// range, or a string.
pub open spec fn value_from_json(j: JsonData) -> Option<GameRuleData> {
    match j {
        JsonData::Bool(b) => Some(GameRuleData::Boolean(b)),
        JsonData::Number(JsonNumber::PosInt(n)) => if n <= i32::MAX {
            Some(GameRuleData::Integer(n as i32))
        } else {
            None
        },
        JsonData::Number(JsonNumber::NegInt(n)) => if i32::MIN <= n {
            Some(GameRuleData::Integer(n as i32))
        } else {
            None
        },
        JsonData::Str(s) => Some(GameRuleData::LegacyString(s)),
        _ => None,
    }
}

pub open spec fn kind_json(k: GameRuleKind) -> JsonData {
    JsonData::Str(kind_name_spec(k))
}

pub open spec fn kind_from_json(j: JsonData) -> Option<GameRuleKind> {
    match as_str_spec(j) {
        Some(s) => if s == "integer"@ {
            Some(GameRuleKind::Integer)
        } else if s == "boolean"@ {
            Some(GameRuleKind::Boolean)
        } else {
            None
        },
        None => None,
    }
}

impl GameRuleKind {
    /// The JSON form: `"integer"` or `"boolean"`.
    pub fn to_json(&self) -> (r: JsonValue)
        ensures
            r@ == kind_json(*self),
    {
        match self {
            GameRuleKind::Integer => JsonValue::text("integer"),
            GameRuleKind::Boolean => JsonValue::text("boolean"),
        }
    }

    /// Reads `"integer"` or `"boolean"`.
    pub fn from_json(value: &JsonValue) -> (r: Option<GameRuleKind>)
        ensures
            r == kind_from_json(value@),
    {
        match value.as_str() {
            Some(s) => if crate::text::str_eq(s, "integer") {
                Some(GameRuleKind::Integer)
            } else if crate::text::str_eq(s, "boolean") {
                Some(GameRuleKind::Boolean)
            } else {
                None
            },
            None => None,
        }
    }
}

impl GameRuleValue {
    /// Creates a boolean gamerule value.
    pub fn boolean(value: bool) -> (r: GameRuleValue)
        ensures
            r@ == GameRuleData::Boolean(value),
    {
        GameRuleValue::Boolean(value)
    }

    /// Creates an integer gamerule value.
    pub fn integer(value: i32) -> (r: GameRuleValue)
        ensures
            r@ == GameRuleData::Integer(value),
    {
        GameRuleValue::Integer(value)
    }

    /// Creates a legacy string gamerule value.
    pub fn legacy_string(value: &str) -> (r: GameRuleValue)
        ensures
            r@ == GameRuleData::LegacyString(value@),
    {
        GameRuleValue::LegacyString(owned(value))
    }

    /// Returns the value as a boolean when it is boolean-typed.
    pub fn as_boolean(&self) -> (r: Option<bool>)
        ensures
            r == match self@ {
                GameRuleData::Boolean(b) => Some(b),
                _ => None,
            },
    {
        match self {
            GameRuleValue::Boolean(value) => Some(*value),
            _ => None,
        }
    }

    /// Returns the value as an integer when it is integer-typed.
    pub fn as_integer(&self) -> (r: Option<i32>)
        ensures
            r == match self@ {
                GameRuleData::Integer(n) => Some(n),
                _ => None,
            },
    {
        match self {
            GameRuleValue::Integer(value) => Some(*value),
            _ => None,
        }
    }

    /// Returns the legacy string when this value is one.
    pub fn as_legacy_string(&self) -> (r: Option<&str>)
        ensures
            match r {
                Some(s) => self@ == GameRuleData::LegacyString(s@),
                None => !(self@ is LegacyString),
            },
    {
        match self {
            GameRuleValue::LegacyString(value) => Some(value.as_str()),
            _ => None,
        }
    }

    /// Parses a legacy string as a signed 32-bit integer; native integers
    /// are returned as they are and booleans never parse.
    pub fn parse_integer(&self) -> (r: Option<i32>)
        ensures
            r == parse_integer_spec(self@),
    {
        match self {
            GameRuleValue::Integer(value) => Some(*value),
            GameRuleValue::LegacyString(value) => {
                let cs = chars_of(value.as_str());
                parse_i32(cs.as_slice())
            },
            GameRuleValue::Boolean(_) => None,
        }
    }

    /// The name of this value's scalar kind.
    pub fn scalar_name(&self) -> (r: &'static str)
        ensures
            r@ == scalar_name_spec(self@),
    {
        match self {
            GameRuleValue::Boolean(_) => "boolean",
            GameRuleValue::Integer(_) => "integer",
            GameRuleValue::LegacyString(_) => "legacy string",
        }
    }

    /// The JSON form: the bare scalar, never an enum wrapper.
    pub fn to_json(&self) -> (r: JsonValue)
        ensures
            r@ == value_json(self@),
    {
        match self {
            GameRuleValue::Boolean(b) => JsonValue::Bool(*b),
            GameRuleValue::Integer(n) => JsonValue::from_i32(*n),
            GameRuleValue::LegacyString(s) => JsonValue::text(s.as_str()),
        }
    }

    /// Reads a boolean, an `i32` integer, or a legacy string.
    pub fn from_json(value: &JsonValue) -> (r: Option<GameRuleValue>)
        ensures
            match r {
                Some(v) => value_from_json(value@) == Some(v@),
                None => value_from_json(value@) is None,
            },
    {
        match value {
            JsonValue::Bool(b) => Some(GameRuleValue::Boolean(*b)),
            JsonValue::Number(_) => match value.as_i32() {
                Some(n) => Some(GameRuleValue::Integer(n)),
                None => None,
            },
            JsonValue::String(s) => Some(GameRuleValue::LegacyString(s.clone())),
            _ => None,
        }
    }
}

impl From<bool> for GameRuleValue {
    fn from(value: bool) -> GameRuleValue {
        GameRuleValue::Boolean(value)
    }
}

impl vstd::std_specs::convert::FromSpecImpl<bool> for GameRuleValue {
    open spec fn obeys_from_spec() -> bool {
        true
    }

    open spec fn from_spec(value: bool) -> GameRuleValue {
        GameRuleValue::Boolean(value)
    }
}

impl From<i32> for GameRuleValue {
    fn from(value: i32) -> GameRuleValue {
        GameRuleValue::Integer(value)
    }
}

impl vstd::std_specs::convert::FromSpecImpl<i32> for GameRuleValue {
    open spec fn obeys_from_spec() -> bool {
        true
    }

    open spec fn from_spec(value: i32) -> GameRuleValue {
        GameRuleValue::Integer(value)
    }
}

impl From<String> for GameRuleValue {
    fn from(value: String) -> GameRuleValue {
        GameRuleValue::LegacyString(value)
    }
}

impl vstd::std_specs::convert::FromSpecImpl<String> for GameRuleValue {
    open spec fn obeys_from_spec() -> bool {
        true
    }

    open spec fn from_spec(value: String) -> GameRuleValue {
        GameRuleValue::LegacyString(value)
    }
}

/// Checks a native value against a declared kind.
pub fn validate_kind(kind: GameRuleKind, value: &GameRuleValue) -> (r: Result<(), ModelError>)
    ensures
        match r {
            Ok(()) => kind_accepts(kind, value@),
            Err(e) => !kind_accepts(kind, value@) && is_mismatch(e, kind, value@),
        },
{
    let valid = match (kind, value) {
        (GameRuleKind::Boolean, GameRuleValue::Boolean(_)) => true,
        (GameRuleKind::Integer, GameRuleValue::Integer(_)) => true,
        (_, GameRuleValue::LegacyString(_)) => true,
        _ => false,
    };
    if valid {
        Ok(())
    } else {
        Err(
            ModelError::GameRuleTypeMismatch {
                expected: match kind {
                    GameRuleKind::Boolean => "boolean",
                    GameRuleKind::Integer => "integer",
                },
                actual: value.scalar_name(),
            },
        )
    }
}

/// A gamerule returned by the server together with its declared type.
#[derive(Clone, Debug, PartialEq, Eq)]
pub struct TypedGameRule {
    /// Resource identifier/key of the gamerule.
    pub key: String,
    /// Declared type supplied by the server.
    pub kind: GameRuleKind,
    /// Current scalar value.
    pub value: GameRuleValue,
}

/// The content of a typed gamerule.
pub struct TypedGameRuleData {
    pub key: Seq<char>,
    pub kind: GameRuleKind,
    pub value: GameRuleData,
}

impl View for TypedGameRule {
    type V = TypedGameRuleData;

    open spec fn view(&self) -> TypedGameRuleData {
        TypedGameRuleData { key: self.key@, kind: self.kind, value: self.value@ }
    }
}

/// The outcome of validating a typed gamerule: `None` when acceptable,
/// else the reported error (a blank key is reported first).
pub open spec fn typed_rule_ok(key: Seq<char>, kind: GameRuleKind, value: GameRuleData) -> bool {
    !is_blank(key) && kind_accepts(kind, value)
}

/// The JSON form of a typed gamerule.
pub open spec fn typed_rule_json(r: TypedGameRuleData) -> JsonData {
    JsonData::Object(
        seq![
            ("key"@, JsonData::Str(r.key)),
            ("type"@, kind_json(r.kind)),
            ("value"@, value_json(r.value)),
        ],
    )
}

/// The typed gamerule read from JSON: string `key`, `type` and scalar
/// `value`, which must make an acceptable gamerule.
pub open spec fn typed_rule_from_json(j: JsonData) -> Option<TypedGameRuleData> {
    if !(j is Object) {
        None
    } else {
        match (
            required_member(j, "key"@, |v| as_str_spec(v)),
            required_member(j, "type"@, |v| kind_from_json(v)),
            required_member(j, "value"@, |v| value_from_json(v)),
        ) {
            (Some(key), Some(kind), Some(value)) => if typed_rule_ok(key, kind, value) {
                Some(TypedGameRuleData { key, kind, value })
            } else {
                None
            },
            _ => None,
        }
    }
}

impl TypedGameRule {
    /// Creates a typed gamerule, rejecting a blank key and then a native
    /// value that does not match the declared kind. Legacy strings are
    /// accepted for any kind.
    pub fn new(key: &str, kind: GameRuleKind, value: GameRuleValue) -> (r: Result<
        TypedGameRule,
        ModelError,
    >)
        ensures
            match r {
                Ok(rule) => typed_rule_ok(key@, kind, value@) && rule@ == (TypedGameRuleData {
                    key: key@,
                    kind,
                    value: value@,
                }),
                Err(e) => !typed_rule_ok(key@, kind, value@) && if is_blank(key@) {
                    crate::error::is_blank_field(e, "key"@)
                } else {
                    is_mismatch(e, kind, value@)
                },
            },
    {
        if let Err(e) = ensure_not_blank("key", key) {
            return Err(e);
        }
        if let Err(e) = validate_kind(kind, &value) {
            return Err(e);
        }
        Ok(TypedGameRule { key: owned(key), kind, value })
    }

    /// The JSON form: `key`, `type` and `value`.
    pub fn to_json(&self) -> (r: JsonValue)
        ensures
            r@ == typed_rule_json(self@),
    {
        let mut members: Vec<(String, JsonValue)> = Vec::new();
        members.push((owned("key"), JsonValue::text(self.key.as_str())));
        members.push((owned("type"), self.kind.to_json()));
        members.push((owned("value"), self.value.to_json()));
        let r = JsonValue::Object(members);
        proof {
            lemma_object_view(r);
            assert(r@->Object_0 =~= typed_rule_json(self@)->Object_0);
        }
        r
    }

    /// Reads a typed gamerule, validating it as [`TypedGameRule::new`] does.
    pub fn from_json(value: &JsonValue) -> (r: Option<TypedGameRule>)
        ensures
            match r {
                Some(rule) => typed_rule_from_json(value@) == Some(rule@),
                None => typed_rule_from_json(value@) is None,
            },
    {
        if !value.is_object() {
            return None;
        }
        let key = match value.get("key") {
            Some(k) => match k.as_str() {
                Some(s) => s,
                None => return None,
            },
            None => return None,
        };
        let kind = match value.get("type") {
            Some(k) => match GameRuleKind::from_json(k) {
                Some(kind) => kind,
                None => return None,
            },
            None => return None,
        };
        let scalar = match value.get("value") {
            Some(v) => match GameRuleValue::from_json(v) {
                Some(s) => s,
                None => return None,
            },
            None => return None,
        };
        match TypedGameRule::new(key, kind, scalar) {
            Ok(rule) => Some(rule),
            Err(_) => None,
        }
    }
}

/// A gamerule update request without a declared type.
#[derive(Clone, Debug, PartialEq, Eq)]
pub struct UntypedGameRule {
    /// Resource identifier/key of the gamerule to update.
    pub key: String,
    /// New scalar value for the gamerule.
    pub value: GameRuleValue,
}

/// The JSON form of an update request.
pub open spec fn untyped_rule_json(key: Seq<char>, value: GameRuleData) -> JsonData {
    JsonData::Object(seq![("key"@, JsonData::Str(key)), ("value"@, value_json(value))])
}

impl UntypedGameRule {
    /// Creates a gamerule update request with a non-blank key.
    pub fn new(key: &str, value: GameRuleValue) -> (r: Result<UntypedGameRule, ModelError>)
        ensures
            match r {
                Ok(rule) => !is_blank(key@) && rule.key@ == key@ && rule.value@ == value@,
                Err(e) => is_blank(key@) && crate::error::is_blank_field(e, "key"@),
            },
    {
        if let Err(e) = ensure_not_blank("key", key) {
            return Err(e);
        }
        Ok(UntypedGameRule { key: owned(key), value })
    }

    /// Creates a boolean gamerule update request.
    pub fn boolean(key: &str, value: bool) -> (r: Result<UntypedGameRule, ModelError>)
        ensures
            match r {
                Ok(rule) => !is_blank(key@) && rule.key@ == key@ && rule.value@
                    == GameRuleData::Boolean(value),
                Err(e) => is_blank(key@) && crate::error::is_blank_field(e, "key"@),
            },
    {
        UntypedGameRule::new(key, GameRuleValue::Boolean(value))
    }

    /// Creates an integer gamerule update request.
    pub fn integer(key: &str, value: i32) -> (r: Result<UntypedGameRule, ModelError>)
        ensures
            match r {
                Ok(rule) => !is_blank(key@) && rule.key@ == key@ && rule.value@
                    == GameRuleData::Integer(value),
                Err(e) => is_blank(key@) && crate::error::is_blank_field(e, "key"@),
            },
    {
        UntypedGameRule::new(key, GameRuleValue::Integer(value))
    }

    /// Creates a legacy string gamerule update request.
    pub fn legacy_string(key: &str, value: &str) -> (r: Result<UntypedGameRule, ModelError>)
        ensures
            match r {
                Ok(rule) => !is_blank(key@) && rule.key@ == key@ && rule.value@
                    == GameRuleData::LegacyString(value@),
                Err(e) => is_blank(key@) && crate::error::is_blank_field(e, "key"@),
            },
    {
        UntypedGameRule::new(key, GameRuleValue::LegacyString(owned(value)))
    }

    /// The JSON form: `key` and the bare scalar `value`.
    pub fn to_json(&self) -> (r: JsonValue)
        ensures
            r@ == untyped_rule_json(self.key@, self.value@),
    {
        let mut members: Vec<(String, JsonValue)> = Vec::new();
        members.push((owned("key"), JsonValue::text(self.key.as_str())));
        members.push((owned("value"), self.value.to_json()));
        let r = JsonValue::Object(members);
        proof {
            lemma_object_view(r);
            assert(r@->Object_0 =~= untyped_rule_json(self.key@, self.value@)->Object_0);
        }
        r
    }
}

/// Reading back the JSON form of a value gives the value.
pub proof fn lemma_value_round_trip(v: GameRuleData)
    ensures
        value_from_json(value_json(v)) == Some(v),
{
}

/// Reading back the JSON form of an acceptable typed gamerule gives the
/// gamerule.
pub proof fn lemma_typed_rule_round_trip(r: TypedGameRuleData)
    requires
        typed_rule_ok(r.key, r.kind, r.value),
    ensures
        typed_rule_from_json(typed_rule_json(r)) == Some(r),
{
    reveal_strlit("key");
    reveal_strlit("type");
    reveal_strlit("value");
    reveal_strlit("integer");
    reveal_strlit("boolean");
    assert("integer"@[0] != "boolean"@[0]);
    let entries = typed_rule_json(r)->Object_0;
    assert("key"@.len() != "type"@.len());
    assert("key"@.len() != "value"@.len());
    assert("type"@.len() != "value"@.len());
    crate::json::lemma_member_at(entries, "key"@, 0);
    crate::json::lemma_member_at(entries, "type"@, 1);
    crate::json::lemma_member_at(entries, "value"@, 2);
}

} // verus!
