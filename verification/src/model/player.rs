//! Player identities: UUIDs and player selectors.

use vstd::prelude::*;

use crate::error::{is_blank_field, ModelError};
use crate::json::{as_str_spec, get_spec, optional_member, JsonData, JsonValue};
use crate::text::{is_blank, is_blank_str, owned, push_char};

verus! {

/// The value of a hexadecimal digit of either case.
pub open spec fn hex_digit_value(c: char) -> Option<nat> {
    let x = c as u32;
    if 0x30 <= x <= 0x39 {
        Some((x - 0x30) as nat)
    } else if 0x61 <= x <= 0x66 {
        Some((x - 0x61 + 10) as nat)
    } else if 0x41 <= x <= 0x46 {
        Some((x - 0x41 + 10) as nat)
    } else {
        None
    }
}

/// The number written by hexadecimal digits, most significant first.
pub open spec fn hex_value(s: Seq<char>) -> Option<nat>
    decreases s.len(),
{
    if s.len() == 0 {
        Some(0)
    } else {
        match (hex_value(s.drop_last()), hex_digit_value(s.last())) {
            (Some(a), Some(d)) => Some(a * 16 + d),
            _ => None,
        }
    }
}

/// The 32-digit form `xxxxxxxxxxxxxxxxxxxxxxxxxxxxxxxx`.
pub open spec fn uuid_from_simple(s: Seq<char>) -> Option<u128> {
    if s.len() != 32 {
        None
    } else {
        match hex_value(s) {
            Some(n) => Some(n as u128),
            None => None,
        }
    }
}

/// Position in the hyphenated form of the `i`-th of its 32 digits.
pub open spec fn digit_position(i: int) -> int {
    if i < 8 {
        i
    } else if i < 12 {
        i + 1
    } else if i < 16 {
        i + 2
    } else if i < 20 {
        i + 3
    } else {
        i + 4
    }
}

/// The 36-character form with hyphens at 8, 13, 18 and 23.
pub open spec fn uuid_from_hyphenated(s: Seq<char>) -> Option<u128> {
    if s.len() == 36 && s[8] == '-' && s[13] == '-' && s[18] == '-' && s[23] == '-' {
        uuid_from_simple(Seq::new(32, |i: int| s[digit_position(i)]))
    } else {
        None
    }
}

/// ASCII letters in lower case; every other character as it is.
pub open spec fn ascii_lower(c: char) -> char {
    if 0x41 <= (c as u32) <= 0x5a {
        ((c as u32) + 0x20) as char
    } else {
        c
    }
}

/// The UUID that `uuid::Uuid::parse_str` reads from `text`: 32 hex digits;
/// the hyphenated form; the hyphenated form in braces; or the hyphenated
/// form after a `urn:uuid:` prefix of any case. Lengths are counted in
/// bytes, so text holding a character outside ASCII is refused.
pub open spec fn uuid_from_text(text: Seq<char>) -> Option<u128> {
    if exists|i: int| 0 <= i < text.len() && (text[i] as u32) >= 0x80 {
        None
    } else if text.len() == 32 {
        uuid_from_simple(text)
    } else if text.len() == 36 {
        uuid_from_hyphenated(text)
    } else if text.len() == 38 {
        if text[0] == '{' && text[37] == '}' {
            uuid_from_hyphenated(text.subrange(1, 37))
        } else {
            None
        }
    } else if text.len() == 45 {
        if forall|i: int| 0 <= i < 9 ==> ascii_lower(#[trigger] text[i]) == "urn:uuid:"@[i] {
            uuid_from_hyphenated(text.subrange(9, 45))
        } else {
            None
        }
    } else {
        None
    }
}

/// A 128-bit universally unique identifier of a player account.
#[derive(Clone, Copy, Debug, PartialEq, Eq, Hash, PartialOrd, Ord, Structural)]
pub struct Uuid(pub u128);

/// The `i`-th hexadecimal digit of `v`, most significant first.
pub open spec fn nibble(v: u128, i: int) -> u128 {
    (v >> ((4 * (31 - i)) as u128)) & 0xf
}

pub open spec fn hex_char(d: u128) -> char {
    if d < 10 {
        ((d + 0x30) as u32) as char
    } else {
        ((d - 10 + 0x61) as u32) as char
    }
}

/// Position among the 32 digits of the character at `k` of the hyphenated
/// form, whose hyphens stand at 8, 13, 18 and 23.
pub open spec fn digit_index(k: int) -> int {
    if k < 8 {
        k
    } else if k < 13 {
        k - 1
    } else if k < 18 {
        k - 2
    } else if k < 23 {
        k - 3
    } else {
        k - 4
    }
}

/// The lowercase hyphenated form `xxxxxxxx-xxxx-xxxx-xxxx-xxxxxxxxxxxx`.
pub open spec fn uuid_hyphenated(v: u128) -> Seq<char> {
    Seq::new(
        36,
        |k: int|
            if k == 8 || k == 13 || k == 18 || k == 23 {
                '-'
            } else {
                hex_char(nibble(v, digit_index(k)))
            },
    )
}

impl Uuid {
    /// Parses the hyphenated, simple, braced or URN text form of a UUID
    /// with `uuid::Uuid::parse_str`; see `uuid_from_text`.
    #[verifier::external_body]
    pub fn parse_str(text: &str) -> (r: Option<Uuid>)
        ensures
            match r {
                Some(u) => uuid_from_text(text@) == Some(u.0),
                None => uuid_from_text(text@) is None,
            },
    {
        match uuid::Uuid::parse_str(text) {
            Ok(u) => Some(Uuid(u.as_u128())),
            Err(_) => None,
        }
    }

    /// The lowercase hyphenated text form.
    pub fn to_hyphenated(&self) -> (r: String)
        ensures
            r@ == uuid_hyphenated(self.0),
    {
        let v = self.0;
        let mut r = String::new();
        let mut k: usize = 0;
        while k < 36
            invariant
                k <= 36,
                v == self.0,
                r@ == uuid_hyphenated(v).take(k as int),
            decreases 36 - k,
        {
            let c = if k == 8 || k == 13 || k == 18 || k == 23 {
                '-'
            } else {
                let i: u128 = if k < 8 {
                    k as u128
                } else if k < 13 {
                    (k - 1) as u128
                } else if k < 18 {
                    (k - 2) as u128
                } else if k < 23 {
                    (k - 3) as u128
                } else {
                    (k - 4) as u128
                };
                let shift: u128 = 4 * (31 - i);
                let d = (v >> shift) & 0xf;
                assert(d == nibble(v, digit_index(k as int)));
                assert(d <= 15) by (bit_vector)
                    requires
                        d == (v >> shift) & 0xf,
                ;
                if d < 10 {
                    ((d + 0x30) as u8) as char
                } else {
                    ((d - 10 + 0x61) as u8) as char
                }
            };
            push_char(&mut r, c);
            assert(uuid_hyphenated(v).take(k + 1) =~= uuid_hyphenated(v).take(k as int).push(c));
            k += 1;
        }
        assert(uuid_hyphenated(v).take(36) =~= uuid_hyphenated(v));
        r
    }
}

/// Checks that a required text property is not blank.
pub fn ensure_not_blank(field: &'static str, value: &str) -> (r: Result<(), ModelError>)
    ensures
        match r {
            Ok(()) => !is_blank(value@),
            Err(e) => is_blank(value@) && e == (ModelError::BlankField { field }),
        },
{
    if is_blank_str(value) {
        Err(ModelError::BlankField { field })
    } else {
        Ok(())
    }
}

/// UUID and/or name selector for a Minecraft player. A selector holds at
/// least one identity component, and a name, when present, is not blank.
#[derive(Debug, PartialEq, Eq, Hash)]
pub struct PlayerRef {
    id: Option<Uuid>,
    name: Option<String>,
}

/// The content of a player selector: its UUID and its name.
pub struct PlayerData {
    pub id: Option<Uuid>,
    pub name: Option<Seq<char>>,
}

impl View for PlayerRef {
    type V = PlayerData;

    closed spec fn view(&self) -> PlayerData {
        PlayerData {
            id: self.id,
            name: match self.name {
                Some(n) => Some(n@),
                None => None,
            },
        }
    }
}

/// The selector content is acceptable: some identity, and a non-blank name.
pub open spec fn selector_ok(id: Option<Uuid>, name: Option<Seq<char>>) -> bool {
    (id is Some || name is Some) && (name matches Some(n) ==> !is_blank(n))
}

/// The outcome of validating selector components: `None` when they are
/// acceptable, otherwise the error reported.
pub open spec fn selector_error(id: Option<Uuid>, name: Option<Seq<char>>) -> Option<ModelError> {
    if name matches Some(n) && is_blank(n) {
        Some(ModelError::BlankField { field: "name" })
    } else if id is None && name is None {
        Some(ModelError::MissingPlayerIdentity)
    } else {
        None
    }
}

pub open spec fn opt_view(s: Option<String>) -> Option<Seq<char>> {
    match s {
        Some(t) => Some(t@),
        None => None,
    }
}

impl Clone for PlayerRef {
    fn clone(&self) -> (r: PlayerRef)
        ensures
            r@ == self@,
    {
        proof {
            use_type_invariant(self);
        }
        PlayerRef { id: self.id, name: self.name.clone() }
    }
}

impl PlayerRef {
    #[verifier::type_invariant]
    spec fn well_formed(self) -> bool {
        selector_ok(self.id, opt_view(self.name))
    }

    /// Every selector has an identity and no blank name.
    pub fn lemma_well_formed(&self)
        ensures
            selector_ok(self@.id, self@.name),
    {
        proof {
            use_type_invariant(self);
        }
    }

    /// Creates a selector from optional UUID and name components. A blank
    /// name is reported first, then the absence of both components.
    pub fn new(id: Option<Uuid>, name: Option<String>) -> (r: Result<PlayerRef, ModelError>)
        ensures
            match r {
                Ok(p) => selector_error(id, opt_view(name)) is None && p@.id == id && p@.name
                    == opt_view(name),
                Err(e) => selector_error(id, opt_view(name)) == Some(e),
            },
    {
        if let Some(n) = &name {
            if let Err(e) = ensure_not_blank("name", n.as_str()) {
                return Err(e);
            }
        }
        if id.is_none() && name.is_none() {
            return Err(ModelError::MissingPlayerIdentity);
        }
        Ok(PlayerRef { id, name })
    }

    /// Creates a selector that identifies a player exclusively by UUID.
    pub fn by_id(id: Uuid) -> (r: PlayerRef)
        ensures
            r@.id == Some(id),
            r@.name is None,
    {
        PlayerRef { id: Some(id), name: None }
    }

    /// Creates a selector that identifies a player by non-blank name.
    pub fn by_name(name: &str) -> (r: Result<PlayerRef, ModelError>)
        ensures
            match r {
                Ok(p) => !is_blank(name@) && p@.id is None && p@.name == Some(name@),
                Err(e) => is_blank(name@) && is_blank_field(e, "name"@),
            },
    {
        PlayerRef::new(None, Some(owned(name)))
    }

    /// Creates a selector containing both UUID and non-blank name.
    pub fn both(id: Uuid, name: &str) -> (r: Result<PlayerRef, ModelError>)
        ensures
            match r {
                Ok(p) => !is_blank(name@) && p@.id == Some(id) && p@.name == Some(name@),
                Err(e) => is_blank(name@) && is_blank_field(e, "name"@),
            },
    {
        PlayerRef::new(Some(id), Some(owned(name)))
    }

    /// Returns this selector's UUID, when one was provided or returned.
    pub fn id(&self) -> (r: Option<Uuid>)
        ensures
            r == self@.id,
    {
        self.id
    }

    /// Returns this selector's player name, when one was provided or returned.
    pub fn name(&self) -> (r: Option<&str>)
        ensures
            match r {
                Some(s) => self@.name == Some(s@),
                None => self@.name is None,
            },
    {
        match &self.name {
            Some(n) => Some(n.as_str()),
            None => None,
        }
    }

    /// Returns `true` when this selector contains a UUID component.
    pub fn has_id(&self) -> (r: bool)
        ensures
            r == self@.id is Some,
    {
        self.id.is_some()
    }

    /// Returns `true` when this selector contains a player-name component.
    pub fn has_name(&self) -> (r: bool)
        ensures
            r == self@.name is Some,
    {
        self.name.is_some()
    }

    /// Returns a human-friendly identifier, preferring name over UUID.
    pub fn display_name(&self) -> (r: String)
        ensures
            r@ == match self@.name {
                Some(n) => n,
                None => uuid_hyphenated(self@.id.unwrap().0),
            },
    {
        proof {
            use_type_invariant(self);
        }
        match &self.name {
            Some(n) => n.clone(),
            None => match self.id {
                Some(id) => id.to_hyphenated(),
                None => String::new(),
            },
        }
    }

    /// The JSON form: `id` (hyphenated) and `name`, each only when present.
    pub fn to_json(&self) -> (r: JsonValue)
        ensures
            r@ == player_json(self@),
    {
        let mut members: Vec<(String, JsonValue)> = Vec::new();
        if let Some(id) = self.id {
            members.push((owned("id"), JsonValue::String(id.to_hyphenated())));
        }
        if let Some(n) = &self.name {
            members.push((owned("name"), JsonValue::String(n.clone())));
        }
        let r = JsonValue::Object(members);
        proof {
            crate::json::lemma_object_view(r);
            assert(r@->Object_0 =~= player_json(self@)->Object_0);
        }
        r
    }

    /// Reads a selector from its JSON form: an object whose optional `id` is
    /// a UUID string and whose optional `name` is a string; `null` counts as
    /// absent, and the selector must then be acceptable.
    pub fn from_json(value: &JsonValue) -> (r: Option<PlayerRef>)
        ensures
            match r {
                Some(p) => player_from_json(value@) == Some(p@),
                None => player_from_json(value@) is None,
            },
    {
        if !value.is_object() {
            return None;
        }
        let id = match value.get("id") {
            None => None,
            Some(JsonValue::Null) => None,
            Some(v) => match v.as_str() {
                Some(t) => match Uuid::parse_str(t) {
                    Some(u) => Some(u),
                    None => return None,
                },
                None => return None,
            },
        };
        let name = match value.get("name") {
            None => None,
            Some(JsonValue::Null) => None,
            Some(v) => match v.as_str() {
                Some(t) => Some(owned(t)),
                None => return None,
            },
        };
        match PlayerRef::new(id, name) {
            Ok(p) => Some(p),
            Err(_) => None,
        }
    }
}

/// The JSON form of a selector.
pub open spec fn player_json(p: PlayerData) -> JsonData {
    JsonData::Object(
        (if p.id is Some {
            seq![("id"@, JsonData::Str(uuid_hyphenated(p.id.unwrap().0)))]
        } else {
            Seq::empty()
        }) + (if p.name is Some {
            seq![("name"@, JsonData::Str(p.name.unwrap()))]
        } else {
            Seq::empty()
        }),
    )
}

pub open spec fn read_uuid(v: JsonData) -> Option<Uuid> {
    match as_str_spec(v) {
        Some(t) => match uuid_from_text(t) {
            Some(u) => Some(Uuid(u)),
            None => None,
        },
        None => None,
    }
}

pub open spec fn read_text(v: JsonData) -> Option<Seq<char>> {
    as_str_spec(v)
}

/// The selector read from a JSON value, if it is a valid one.
pub open spec fn player_from_json(value: JsonData) -> Option<PlayerData> {
    if !(value is Object) {
        None
    } else {
        match (
            optional_member(value, "id"@, |v| read_uuid(v)),
            optional_member(value, "name"@, |v| read_text(v)),
        ) {
            (Some(id), Some(name)) => if selector_ok(id, name) {
                Some(PlayerData { id, name })
            } else {
                None
            },
            _ => None,
        }
    }
}

proof fn lemma_nibble_step(v: u128, s: u128)
    by (bit_vector)
    requires
        s <= 120,
    ensures
        (v >> (s + 4)) * 16 + ((v >> s) & 0xf) == v >> s,
        (v >> s) & 0xf <= 15,
{
}

proof fn lemma_top_nibble(v: u128)
    by (bit_vector)
    ensures
        (v >> 124) & 0xf == v >> 124,
        (v >> 124) & 0xf <= 15,
{
}

/// A digit written by `hex_char` reads back as itself.
proof fn lemma_hex_char_value(d: u128)
    requires
        d <= 15,
    ensures
        hex_digit_value(hex_char(d)) == Some(d as nat),
        (hex_char(d) as u32) < 0x80,
        hex_char(d) != '-',
{
}

/// The first `k` digits of `v` read as the top `4 * k` bits of `v`.
proof fn lemma_hex_prefix(v: u128, digits: Seq<char>, k: int)
    requires
        1 <= k <= 32,
        digits.len() == 32,
        forall|i: int| 0 <= i < 32 ==> #[trigger] digits[i] == hex_char(nibble(v, i)),
        forall|i: int| 0 <= i < 32 ==> nibble(v, i) <= 15,
    ensures
        hex_value(digits.take(k)) == Some((v >> ((4 * (32 - k)) as u128)) as nat),
    decreases k,
{
    let j = k - 1;
    assert(digits.take(k).drop_last() =~= digits.take(j));
    assert(digits.take(k).last() == digits[j]);
    lemma_hex_char_value(nibble(v, j));
    if j == 0 {
        lemma_top_nibble(v);
        assert(digits.take(0) =~= Seq::<char>::empty());
        assert(hex_value(digits.take(0)) == Some(0nat));
        assert(nibble(v, 0) == (v >> 124u128) & 0xf);
    } else {
        lemma_hex_prefix(v, digits, j);
        lemma_nibble_step(v, (4 * (31 - j)) as u128);
        assert((4 * (31 - j)) as u128 + 4 == (4 * (32 - j)) as u128);
    }
}

/// The hyphenated form of a UUID reads back as the same UUID.
pub proof fn lemma_uuid_text_round_trip(v: u128)
    ensures
        uuid_from_text(uuid_hyphenated(v)) == Some(v),
{
    let t = uuid_hyphenated(v);
    let digits = Seq::new(32, |i: int| t[digit_position(i)]);
    assert forall|i: int| 0 <= i < 32 implies nibble(v, i) <= 15 by {
        if i == 0 {
            lemma_top_nibble(v);
        } else {
            lemma_nibble_step(v, (4 * (31 - i)) as u128);
        }
    }
    assert forall|i: int| 0 <= i < 32 implies #[trigger] digits[i] == hex_char(nibble(v, i)) by {
        assert(digit_index(digit_position(i)) == i);
    }
    assert forall|k: int| 0 <= k < 36 implies ((#[trigger] t[k]) as u32) < 0x80 by {
        if !(k == 8 || k == 13 || k == 18 || k == 23) {
            lemma_hex_char_value(nibble(v, digit_index(k)));
        }
    }
    assert(!exists|i: int| 0 <= i < t.len() && (t[i] as u32) >= 0x80);
    lemma_hex_prefix(v, digits, 32);
    assert(digits.take(32) =~= digits);
    assert(v >> 0u128 == v) by (bit_vector);
}

/// Reading back the JSON form of a selector gives the selector.
pub proof fn lemma_player_round_trip(p: PlayerData)
    requires
        selector_ok(p.id, p.name),
    ensures
        player_from_json(player_json(p)) == Some(p),
{
    if p.id is Some {
        lemma_uuid_text_round_trip(p.id.unwrap().0);
    }
    reveal_strlit("id");
    reveal_strlit("name");
    assert("id"@.len() != "name"@.len());
    let entries = player_json(p)->Object_0;
    if p.id is Some {
        crate::json::lemma_member_at(entries, "id"@, 0);
        if p.name is Some {
            crate::json::lemma_member_at(entries, "name"@, 1);
        } else {
            crate::json::lemma_member_absent(entries, "name"@);
        }
    } else {
        crate::json::lemma_member_absent(entries, "id"@);
        if p.name is Some {
            crate::json::lemma_member_at(entries, "name"@, 0);
        } else {
            crate::json::lemma_member_absent(entries, "name"@);
        }
    }
}

} // verus!
