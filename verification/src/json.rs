//! An in-memory JSON document, as exchanged with the MCSMP peer.
//!
//! Numbers keep the three shapes a JSON reader produces: non-negative
//! integers, negative integers, and other numbers, which are carried by the
//! bit pattern of their IEEE-754 double value.

use vstd::prelude::*;

use crate::text::str_eq;
use serde_json::Value;

verus! {

/// A JSON number.
#[derive(Clone, Copy, Debug, PartialEq, Eq, Structural)]
pub enum JsonNumber {
    /// A non-negative integer.
    PosInt(u64),
    /// A negative integer.
    NegInt(i64),
    /// Any other number, as the bits of its IEEE-754 double value.
    Float(u64),
}

/// The content of a JSON value.
pub enum JsonData {
    /// `null`.
    Null,
    /// `true` or `false`.
    Bool(bool),
    /// A number.
    Number(JsonNumber),
    /// A string.
    Str(Seq<char>),
    /// An array.
    Array(Seq<JsonData>),
    /// An object, as its members in order.
    Object(Seq<(Seq<char>, JsonData)>),
}

/// A JSON value. Object members are kept in the order the value holds
/// them; a value read from text has them sorted by name.
#[derive(Debug, PartialEq)]
pub enum JsonValue {
    /// `null`.
    Null,
    /// `true` or `false`.
    Bool(bool),
    /// A number.
    Number(JsonNumber),
    /// A string.
    String(String),
    /// An array.
    Array(Vec<JsonValue>),
    /// An object, as its members in order.
    Object(Vec<(String, JsonValue)>),
}

impl View for JsonValue {
    type V = JsonData;

    open spec fn view(&self) -> JsonData
        decreases self,
    {
        match self {
            JsonValue::Null => JsonData::Null,
            JsonValue::Bool(b) => JsonData::Bool(*b),
            JsonValue::Number(n) => JsonData::Number(*n),
            JsonValue::String(s) => JsonData::Str(s@),
            JsonValue::Array(v) => JsonData::Array(
                Seq::new(
                    v@.len(),
                    |i: int|
                        if 0 <= i < v@.len() {
                            v@[i].view()
                        } else {
                            JsonData::Null
                        },
                ),
            ),
            JsonValue::Object(v) => JsonData::Object(
                Seq::new(
                    v@.len(),
                    |i: int|
                        if 0 <= i < v@.len() {
                            (v@[i].0@, v@[i].1.view())
                        } else {
                            (Seq::<char>::empty(), JsonData::Null)
                        },
                ),
            ),
        }
    }
}

/// The value of the first member named `key`, if any.
pub open spec fn member_spec(entries: Seq<(Seq<char>, JsonData)>, key: Seq<char>) -> Option<JsonData>
    decreases entries.len(),
{
    if entries.len() == 0 {
        None
    } else if entries[0].0 == key {
        Some(entries[0].1)
    } else {
        member_spec(entries.drop_first(), key)
    }
}

/// The value of member `key` when `value` is an object that has one.
pub open spec fn get_spec(value: JsonData, key: Seq<char>) -> Option<JsonData> {
    match value {
        JsonData::Object(entries) => member_spec(entries, key),
        _ => None,
    }
}

/// The text of a JSON string.
pub open spec fn as_str_spec(value: JsonData) -> Option<Seq<char>> {
    match value {
        JsonData::Str(s) => Some(s),
        _ => None,
    }
}

/// The value of a JSON number that is a 64-bit unsigned integer.
pub open spec fn as_u64_spec(value: JsonData) -> Option<u64> {
    match value {
        JsonData::Number(JsonNumber::PosInt(n)) => Some(n),
        _ => None,
    }
}

/// The value of a JSON number that is a 64-bit signed integer.
pub open spec fn as_i64_spec(value: JsonData) -> Option<i64> {
    match value {
        JsonData::Number(JsonNumber::PosInt(n)) => if n <= i64::MAX {
            Some(n as i64)
        } else {
            None
        },
        JsonData::Number(JsonNumber::NegInt(n)) => Some(n),
        _ => None,
    }
}

/// The value of a JSON number that fits in `i32`, as a typed integer field
/// is read.
pub open spec fn as_i32_spec(value: JsonData) -> Option<i32> {
    match value {
        JsonData::Number(JsonNumber::PosInt(n)) => if n <= i32::MAX {
            Some(n as i32)
        } else {
            None
        },
        JsonData::Number(JsonNumber::NegInt(n)) => if i32::MIN <= n {
            Some(n as i32)
        } else {
            None
        },
        _ => None,
    }
}

/// The flag of a JSON boolean.
pub open spec fn as_bool_spec(value: JsonData) -> Option<bool> {
    match value {
        JsonData::Bool(b) => Some(b),
        _ => None,
    }
}

/// An optional member read by `read`: absent and `null` give `Some(None)`,
/// a readable value `Some(Some(..))`, anything else `None`.
pub open spec fn optional_member<T>(
    value: JsonData,
    key: Seq<char>,
    read: spec_fn(JsonData) -> Option<T>,
) -> Option<Option<T>> {
    match get_spec(value, key) {
        None => Some(None),
        Some(JsonData::Null) => Some(None),
        Some(v) => match read(v) {
            Some(t) => Some(Some(t)),
            None => None,
        },
    }
}

/// An optional text member: absent or `null` give `Some(None)`, a string
/// `Some(Some(..))`, anything else `None`.
pub open spec fn optional_text(value: JsonData, key: Seq<char>) -> Option<Option<Seq<char>>> {
    optional_member(value, key, |v| as_str_spec(v))
}

/// Present text members written as `key: "text"`, absent ones left out.
pub open spec fn text_member(key: Seq<char>, v: Option<Seq<char>>) -> Seq<(Seq<char>, JsonData)> {
    match v {
        Some(t) => seq![(key, JsonData::Str(t))],
        None => Seq::empty(),
    }
}

/// A required member read by `read`: `None` when absent or unreadable.
pub open spec fn required_member<T>(
    value: JsonData,
    key: Seq<char>,
    read: spec_fn(JsonData) -> Option<T>,
) -> Option<T> {
    match get_spec(value, key) {
        Some(v) => read(v),
        None => None,
    }
}

/// Every item of an array read by `read`, or `None` when the value is not
/// an array or some item is unreadable.
pub open spec fn read_array<T>(value: JsonData, read: spec_fn(JsonData) -> Option<T>) -> Option<
    Seq<T>,
> {
    match value {
        JsonData::Array(items) => if forall|i: int| 0 <= i < items.len() ==> (#[trigger] read(items[i])) is Some {
            Some(Seq::new(items.len(), |i: int| read(items[i]).unwrap()))
        } else {
            None
        },
        _ => None,
    }
}

/// The view of a 32-bit integer as a JSON number.
pub open spec fn i32_json(n: i32) -> JsonData {
    if n >= 0 {
        JsonData::Number(JsonNumber::PosInt(n as u64))
    } else {
        JsonData::Number(JsonNumber::NegInt(n as i64))
    }
}

fn clone_items(v: &Vec<JsonValue>) -> (w: Vec<JsonValue>)
    ensures
        w.len() == v.len(),
        forall|k: int| 0 <= k < v.len() ==> w@[k]@ == v@[k]@,
    decreases v, 0nat,
{
    let mut w: Vec<JsonValue> = Vec::new();
    let mut i: usize = 0;
    while i < v.len()
        invariant
            i <= v.len(),
            w.len() == i,
            forall|k: int| 0 <= k < i ==> w@[k]@ == v@[k]@,
        decreases v.len() - i,
    {
        proof {
            vstd::std_specs::vec::axiom_vec_index_decreases(*v, i as int);
        }
        let c = v[i].deep_clone();
        w.push(c);
        i += 1;
    }
    w
}

fn clone_members(v: &Vec<(String, JsonValue)>) -> (w: Vec<(String, JsonValue)>)
    ensures
        w.len() == v.len(),
        forall|k: int| 0 <= k < v.len() ==> w@[k].0@ == v@[k].0@ && w@[k].1@ == v@[k].1@,
    decreases v, 0nat,
{
    let mut w: Vec<(String, JsonValue)> = Vec::new();
    let mut i: usize = 0;
    while i < v.len()
        invariant
            i <= v.len(),
            w.len() == i,
            forall|k: int| 0 <= k < i ==> w@[k].0@ == v@[k].0@ && w@[k].1@ == v@[k].1@,
        decreases v.len() - i,
    {
        proof {
            vstd::std_specs::vec::axiom_vec_index_decreases(*v, i as int);
            assert(decreases_to!(v[i as int] => v[i as int].1));
        }
        let c = v[i].1.deep_clone();
        w.push((v[i].0.clone(), c));
        i += 1;
    }
    w
}

/// The content of an object lists its members' names and contents in order.
pub proof fn lemma_object_view(v: JsonValue)
    requires
        v is Object,
    ensures
        v@ is Object,
        v@->Object_0.len() == v->Object_0@.len(),
        forall|k: int|
            0 <= k < v->Object_0@.len() ==> #[trigger] v@->Object_0[k] == (
                v->Object_0@[k].0@,
                v->Object_0@[k].1@,
            ),
{
    reveal_with_fuel(<JsonValue as View>::view, 2);
    match v {
        JsonValue::Object(w) => {
            assert(v@ is Object);
            assert(v@->Object_0.len() == w@.len());
            assert forall|k: int| 0 <= k < w@.len() implies #[trigger] v@->Object_0[k] == (
                w@[k].0@,
                w@[k].1@,
            ) by {}
        },
        _ => {},
    }
}

/// The content of an array lists its items' contents in order.
pub proof fn lemma_array_view(v: JsonValue)
    requires
        v is Array,
    ensures
        v@ is Array,
        v@->Array_0.len() == v->Array_0@.len(),
        forall|k: int| 0 <= k < v->Array_0@.len() ==> #[trigger] v@->Array_0[k] == v->Array_0@[k]@,
{
    reveal_with_fuel(<JsonValue as View>::view, 2);
    match v {
        JsonValue::Array(w) => {
            assert(v@ is Array);
            assert(v@->Array_0.len() == w@.len());
            assert forall|k: int| 0 <= k < w@.len() implies #[trigger] v@->Array_0[k] == w@[k]@ by {}
        },
        _ => {},
    }
}

impl Clone for JsonValue {
    fn clone(&self) -> (r: JsonValue)
        ensures
            r@ == self@,
    {
        self.deep_clone()
    }
}

impl JsonValue {
    /// A 32-bit integer as a JSON number.
    pub fn from_i32(n: i32) -> (r: JsonValue)
        ensures
            r@ == i32_json(n),
    {
        if n >= 0 {
            JsonValue::Number(JsonNumber::PosInt(n as u64))
        } else {
            JsonValue::Number(JsonNumber::NegInt(n as i64))
        }
    }

    /// A string as a JSON string.
    pub fn text(s: &str) -> (r: JsonValue)
        ensures
            r@ == JsonData::Str(s@),
    {
        JsonValue::String(crate::text::owned(s))
    }

    /// An independent copy with the same content.
    pub fn deep_clone(&self) -> (r: JsonValue)
        ensures
            r@ == self@,
        decreases self, 1nat,
    {
        match self {
            JsonValue::Null => JsonValue::Null,
            JsonValue::Bool(b) => JsonValue::Bool(*b),
            JsonValue::Number(n) => JsonValue::Number(*n),
            JsonValue::String(s) => JsonValue::String(s.clone()),
            JsonValue::Array(v) => {
                let r = JsonValue::Array(clone_items(v));
                assert(r@ == self@) by {
                    if let JsonData::Array(a) = r@ {
                        if let JsonData::Array(b) = self@ {
                            assert(a =~= b);
                        }
                    }
                }
                r
            },
            JsonValue::Object(v) => {
                let r = JsonValue::Object(clone_members(v));
                assert(r@ == self@) by {
                    if let JsonData::Object(a) = r@ {
                        if let JsonData::Object(b) = self@ {
                            assert(a =~= b);
                        }
                    }
                }
                r
            },
        }
    }

    /// Returns the value of member `key` when this is an object with one.
    pub fn get(&self, key: &str) -> (r: Option<&JsonValue>)
        ensures
            match r {
                Some(v) => get_spec(self@, key@) == Some(v@),
                None => get_spec(self@, key@) is None,
            },
    {
        match self {
            JsonValue::Object(entries) => {
                let ghost data = self@->Object_0;
                proof {
                    lemma_object_view(*self);
                }
                let mut i: usize = 0;
                assert(data.skip(0) =~= data);
                while i < entries.len()
                    invariant
                        i <= entries.len(),
                        data.len() == entries.len(),
                        forall|k: int| 0 <= k < entries.len() ==> #[trigger] data[k] == (entries@[k].0@, entries@[k].1@),
                        member_spec(data, key@) == member_spec(data.skip(i as int), key@),
                        get_spec(self@, key@) == member_spec(data, key@),
                    decreases entries.len() - i,
                {
                    let ghost rest = data.skip(i as int);
                    assert(rest[0] == data[i as int]);
                    assert(rest.drop_first() =~= data.skip(i + 1));
                    if str_eq(entries[i].0.as_str(), key) {
                        return Some(&entries[i].1);
                    }
                    i += 1;
                }
                assert(data.skip(i as int).len() == 0);
                None
            },
            _ => None,
        }
    }

    /// Returns the text when this is a JSON string.
    pub fn as_str(&self) -> (r: Option<&str>)
        ensures
            match r {
                Some(s) => as_str_spec(self@) == Some(s@),
                None => as_str_spec(self@) is None,
            },
    {
        match self {
            JsonValue::String(s) => Some(s.as_str()),
            _ => None,
        }
    }

    /// Returns the number when this is a non-negative integer.
    pub fn as_u64(&self) -> (r: Option<u64>)
        ensures
            r == as_u64_spec(self@),
    {
        match self {
            JsonValue::Number(JsonNumber::PosInt(n)) => Some(*n),
            _ => None,
        }
    }

    /// Returns the number when it is an integer in the `i64` range.
    pub fn as_i64(&self) -> (r: Option<i64>)
        ensures
            r == as_i64_spec(self@),
    {
        match self {
            JsonValue::Number(JsonNumber::PosInt(n)) => if *n <= i64::MAX as u64 {
                Some(*n as i64)
            } else {
                None
            },
            JsonValue::Number(JsonNumber::NegInt(n)) => Some(*n),
            _ => None,
        }
    }

    /// Returns the number when it is an integer in the `i32` range.
    pub fn as_i32(&self) -> (r: Option<i32>)
        ensures
            r == as_i32_spec(self@),
    {
        match self {
            JsonValue::Number(JsonNumber::PosInt(n)) => if *n <= i32::MAX as u64 {
                Some(*n as i32)
            } else {
                None
            },
            JsonValue::Number(JsonNumber::NegInt(n)) => if i32::MIN as i64 <= *n {
                Some(*n as i32)
            } else {
                None
            },
            _ => None,
        }
    }

    /// Returns the flag when this is a JSON boolean.
    pub fn as_bool(&self) -> (r: Option<bool>)
        ensures
            r == as_bool_spec(self@),
    {
        match self {
            JsonValue::Bool(b) => Some(*b),
            _ => None,
        }
    }

    /// Returns whether this is `null`.
    pub fn is_null(&self) -> (r: bool)
        ensures
            r == (self@ is Null),
    {
        match self {
            JsonValue::Null => true,
            _ => false,
        }
    }

    /// Returns whether this is an array.
    pub fn is_array(&self) -> (r: bool)
        ensures
            r == (self@ is Array),
    {
        match self {
            JsonValue::Array(_) => true,
            _ => false,
        }
    }

    /// Returns whether this is an object.
    pub fn is_object(&self) -> (r: bool)
        ensures
            r == (self@ is Object),
    {
        match self {
            JsonValue::Object(_) => true,
            _ => false,
        }
    }
}

/// Reads an optional text member of an object.
pub fn read_optional_text(value: &JsonValue, key: &str) -> (r: Option<Option<String>>)
    ensures
        match r {
            Some(Some(t)) => optional_text(value@, key@) == Some(Some(t@)),
            Some(None) => optional_text(value@, key@) == Some(None::<Seq<char>>),
            None => optional_text(value@, key@) is None,
        },
{
    match value.get(key) {
        None => Some(None),
        Some(JsonValue::Null) => Some(None),
        Some(v) => match v.as_str() {
            Some(t) => Some(Some(t.to_owned())),
            None => None,
        },
    }
}

/// The names and contents of object members, in order.
pub open spec fn members_view(v: Seq<(String, JsonValue)>) -> Seq<(Seq<char>, JsonData)> {
    Seq::new(v.len(), |i: int| (v[i].0@, v[i].1@))
}

/// An object's content is the content of its members.
pub proof fn lemma_object_members(v: JsonValue)
    requires
        v is Object,
    ensures
        v@ == JsonData::Object(members_view(v->Object_0@)),
{
    lemma_object_view(v);
    assert(v@->Object_0 =~= members_view(v->Object_0@));
}

/// Appends a member.
pub fn push_member(members: &mut Vec<(String, JsonValue)>, key: &str, value: JsonValue)
    ensures
        members_view(final(members)@) == members_view(old(members)@).push((key@, value@)),
{
    members.push((key.to_owned(), value));
    assert(members_view(members@) =~= members_view(old(members)@).push((key@, value@)));
}

/// Appends `key: "text"` when the text is present.
pub fn push_text_member(members: &mut Vec<(String, JsonValue)>, key: &str, v: &Option<String>)
    ensures
        members_view(final(members)@) == members_view(old(members)@) + text_member(key@, opt_text_view(*v)),
{
    if let Some(t) = v {
        push_member(members, key, JsonValue::String(t.clone()));
        assert(members_view(members@) =~= members_view(old(members)@) + text_member(key@, opt_text_view(*v)));
    } else {
        assert(members_view(members@) =~= members_view(old(members)@) + text_member(key@, opt_text_view(*v)));
    }
}

pub open spec fn opt_text_view(v: Option<String>) -> Option<Seq<char>> {
    match v {
        Some(t) => Some(t@),
        None => None,
    }
}

/// The first member named `key` is the one found.
pub proof fn lemma_member_at(entries: Seq<(Seq<char>, JsonData)>, key: Seq<char>, i: int)
    requires
        0 <= i < entries.len(),
        entries[i].0 == key,
        forall|j: int| 0 <= j < i ==> (#[trigger] entries[j]).0 != key,
    ensures
        member_spec(entries, key) == Some(entries[i].1),
    decreases i,
{
    if i > 0 {
        let rest = entries.drop_first();
        assert forall|j: int| 0 <= j < i - 1 implies (#[trigger] rest[j]).0 != key by {
            assert(rest[j] == entries[j + 1]);
        }
        assert(entries[0].0 != key);
        lemma_member_at(rest, key, i - 1);
    }
}

/// An object without a member named `key` has none to find.
pub proof fn lemma_member_absent(entries: Seq<(Seq<char>, JsonData)>, key: Seq<char>)
    requires
        forall|j: int| 0 <= j < entries.len() ==> (#[trigger] entries[j]).0 != key,
    ensures
        member_spec(entries, key) is None,
    decreases entries.len(),
{
    if entries.len() > 0 {
        let rest = entries.drop_first();
        assert forall|j: int| 0 <= j < rest.len() implies (#[trigger] rest[j]).0 != key by {
            assert(rest[j] == entries[j + 1]);
        }
        assert(entries[0].0 != key);
        lemma_member_absent(rest, key);
    }
}

/// A JSON document as `serde_json` holds it.
#[verifier::external_type_specification]
#[verifier::external_body]
pub struct ExSerdeJsonValue(Value);

/// What `serde_json::from_str::<serde_json::Value>` makes of `text`: the
/// document it holds, or the text of the syntax error it reports.
pub uninterp spec fn json_of_text(text: Seq<char>) -> Result<JsonData, Seq<char>>;

/// Reads a JSON document from text with `serde_json::from_str`; a syntax
/// error is reported by its message.
#[verifier::external_body]
pub fn parse_json_text(text: &str) -> (r: Result<JsonValue, String>)
    ensures
        json_of_text(text@) == match r {
            Ok(v) => Ok::<JsonData, Seq<char>>(v@),
            Err(m) => Err::<JsonData, Seq<char>>(m@),
        },
{
    match serde_json::from_str::<Value>(text) {
        Ok(v) => Ok(json_from_serde(&v)),
        Err(e) => Err(e.to_string()),
    }
}

/// Converts a `serde_json` document into a `JsonValue`, one node for one:
/// a number by the first of `as_u64`, `as_i64` and the bits of `as_f64`
/// that applies; object members in the map's order.
#[verifier::external_body]
fn json_from_serde(v: &Value) -> JsonValue {
    match v {
        Value::Null => JsonValue::Null,
        Value::Bool(b) => JsonValue::Bool(*b),
        Value::Number(n) => JsonValue::Number(
            n.as_u64().map(JsonNumber::PosInt).or(n.as_i64().map(JsonNumber::NegInt)).unwrap_or(
                JsonNumber::Float(n.as_f64().map_or(0, |x| x.to_bits())),
            ),
        ),
        Value::String(t) => JsonValue::String(t.clone()),
        Value::Array(a) => JsonValue::Array(a.iter().map(json_from_serde).collect()),
        Value::Object(m) => JsonValue::Object(m.iter().map(|(k, x)| (k.clone(), json_from_serde(x))).collect()),
    }
}

} // verus!
