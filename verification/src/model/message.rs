//! Display messages, kick requests and system messages.

use vstd::prelude::*;

use crate::error::ModelError;
use crate::json::{
    as_str_spec, get_spec, lemma_array_view, lemma_object_view, optional_member, optional_text,
    JsonData, JsonValue,
};
use crate::model::player::{ensure_not_blank, player_json, PlayerData, PlayerRef};
use crate::text::{is_blank, owned};

verus! {

/// A display message: literal text, or a translation key with parameters.
/// When a payload holds both forms, the translation form takes precedence.
#[derive(Clone, Debug, PartialEq, Eq)]
#[non_exhaustive]
pub enum Message {
    /// Literal text displayed without translation-key lookup.
    Literal(String),
    /// A translation key and the values substituted into it.
    Translatable {
        /// The non-blank translation key.
        key: String,
        /// Values supplied to the translated message.
        params: Vec<String>,
    },
}

/// The content of a message.
pub enum MessageData {
    Literal(Seq<char>),
    Translatable { key: Seq<char>, params: Seq<Seq<char>> },
}

pub open spec fn texts_view(v: Seq<String>) -> Seq<Seq<char>> {
    Seq::new(v.len(), |i: int| v[i]@)
}

impl View for Message {
    type V = MessageData;

    open spec fn view(&self) -> MessageData {
        match self {
            Message::Literal(t) => MessageData::Literal(t@),
            Message::Translatable { key, params } => MessageData::Translatable {
                key: key@,
                params: texts_view(params@),
            },
        }
    }
}

/// Every item of a JSON array of strings, or `None` when the value is not
/// such an array.
pub open spec fn read_texts(value: JsonData) -> Option<Seq<Seq<char>>> {
    match value {
        JsonData::Array(items) => if forall|i: int| 0 <= i < items.len() ==> (#[trigger] items[i]) is Str {
            Some(Seq::new(items.len(), |i: int| items[i]->Str_0))
        } else {
            None
        },
        _ => None,
    }
}

pub open spec fn texts_json(v: Seq<Seq<char>>) -> JsonData {
    JsonData::Array(Seq::new(v.len(), |i: int| JsonData::Str(v[i])))
}

/// The JSON form: `{"literal": ..}`, or `{"translatable": .., "translatableParams": [..]}`
/// with the parameters omitted when there are none.
pub open spec fn message_json(m: MessageData) -> JsonData {
    match m {
        MessageData::Literal(t) => JsonData::Object(seq![("literal"@, JsonData::Str(t))]),
        MessageData::Translatable { key, params } => if params.len() == 0 {
            JsonData::Object(seq![("translatable"@, JsonData::Str(key))])
        } else {
            JsonData::Object(
                seq![("translatable"@, JsonData::Str(key)), ("translatableParams"@, texts_json(params))],
            )
        },
    }
}

/// The message read from JSON: the optional strings `translatable` and
/// `literal` and the optional string array `translatableParams`; a
/// translation key (which must not be blank) wins over literal text.
pub open spec fn message_from_json(j: JsonData) -> Option<MessageData> {
    if !(j is Object) {
        None
    } else {
        let params = match get_spec(j, "translatableParams"@) {
            None => Some(Seq::<Seq<char>>::empty()),
            Some(v) => read_texts(v),
        };
        match (
            optional_text(j, "translatable"@),
            params,
            optional_text(j, "literal"@),
        ) {
            (Some(Some(key)), Some(p), Some(_)) => if is_blank(key) {
                None
            } else {
                Some(MessageData::Translatable { key, params: p })
            },
            (Some(None), Some(_), Some(Some(text))) => Some(MessageData::Literal(text)),
            _ => None,
        }
    }
}

fn strings_from_json(value: &JsonValue) -> (r: Option<Vec<String>>)
    ensures
        match r {
            Some(v) => read_texts(value@) == Some(texts_view(v@)),
            None => read_texts(value@) is None,
        },
{
    match value {
        JsonValue::Array(items) => {
            proof {
                lemma_array_view(*value);
            }
            let ghost data = value@->Array_0;
            let mut out: Vec<String> = Vec::new();
            let mut i: usize = 0;
            while i < items.len()
                invariant
                    i <= items.len(),
                    data.len() == items.len(),
                    value@ is Array,
                    data == value@->Array_0,
                    forall|k: int| 0 <= k < items.len() ==> #[trigger] data[k] == items@[k]@,
                    out.len() == i,
                    forall|k: int| 0 <= k < i ==> (#[trigger] data[k]) == JsonData::Str(out@[k]@),
                decreases items.len() - i,
            {
                match items[i].as_str() {
                    Some(s) => out.push(owned(s)),
                    None => {
                        assert(!(data[i as int] is Str));
                        assert(value@ == JsonData::Array(data));
                        assert(!(forall|k: int| 0 <= k < data.len() ==> (#[trigger] data[k]) is Str));
                        return None;
                    },
                }
                i += 1;
            }
            assert(texts_view(out@) =~= Seq::new(data.len(), |k: int| data[k]->Str_0));
            Some(out)
        },
        _ => None,
    }
}

impl Message {
    /// Creates a literal message.
    pub fn literal(text: &str) -> (r: Message)
        ensures
            r@ == MessageData::Literal(text@),
    {
        Message::Literal(owned(text))
    }

    /// Creates a translation-key message; the key must not be blank.
    pub fn translatable(key: &str, params: Vec<String>) -> (r: Result<Message, ModelError>)
        ensures
            match r {
                Ok(m) => !is_blank(key@) && m@ == (MessageData::Translatable {
                    key: key@,
                    params: texts_view(params@),
                }),
                Err(e) => is_blank(key@) && crate::error::is_blank_field(e, "translatable"@),
            },
    {
        if let Err(e) = ensure_not_blank("translatable", key) {
            return Err(e);
        }
        Ok(Message::Translatable { key: owned(key), params })
    }

    /// Returns literal text when this is a literal message.
    pub fn literal_text(&self) -> (r: Option<&str>)
        ensures
            match r {
                Some(s) => self@ == MessageData::Literal(s@) && literal_of(self@) == Some(s@),
                None => !(self@ is Literal) && literal_of(self@) is None,
            },
    {
        match self {
            Message::Literal(text) => Some(text.as_str()),
            Message::Translatable { .. } => None,
        }
    }

    /// Returns the translation key when this is a translatable message.
    pub fn translation_key(&self) -> (r: Option<&str>)
        ensures
            match r {
                Some(s) => self@ matches MessageData::Translatable { key, .. } && key == s@,
                None => self@ is Literal,
            },
    {
        match self {
            Message::Literal(_) => None,
            Message::Translatable { key, .. } => Some(key.as_str()),
        }
    }

    /// The JSON form of the message.
    pub fn to_json(&self) -> (r: JsonValue)
        ensures
            r@ == message_json(self@),
    {
        match self {
            Message::Literal(text) => {
                let mut members: Vec<(String, JsonValue)> = Vec::new();
                members.push((owned("literal"), JsonValue::text(text.as_str())));
                let r = JsonValue::Object(members);
                proof {
                    lemma_object_view(r);
                    assert(r@->Object_0 =~= message_json(self@)->Object_0);
                }
                r
            },
            Message::Translatable { key, params } => {
                let mut members: Vec<(String, JsonValue)> = Vec::new();
                members.push((owned("translatable"), JsonValue::text(key.as_str())));
                if params.len() > 0 {
                    let mut items: Vec<JsonValue> = Vec::new();
                    let mut i: usize = 0;
                    while i < params.len()
                        invariant
                            i <= params.len(),
                            items.len() == i,
                            forall|k: int| 0 <= k < i ==> #[trigger] items@[k]@ == JsonData::Str(params@[k]@),
                        decreases params.len() - i,
                    {
                        items.push(JsonValue::text(params[i].as_str()));
                        i += 1;
                    }
                    let list = JsonValue::Array(items);
                    proof {
                        lemma_array_view(list);
                        assert(list@ == texts_json(texts_view(params@))) by {
                            assert(list@->Array_0 =~= texts_json(texts_view(params@))->Array_0);
                        }
                    }
                    members.push((owned("translatableParams"), list));
                }
                let r = JsonValue::Object(members);
                proof {
                    lemma_object_view(r);
                    assert(r@->Object_0 =~= message_json(self@)->Object_0);
                }
                r
            },
        }
    }

    /// Reads a message, giving the translation form precedence.
    pub fn from_json(value: &JsonValue) -> (r: Option<Message>)
        ensures
            match r {
                Some(m) => message_from_json(value@) == Some(m@),
                None => message_from_json(value@) is None,
            },
    {
        if !value.is_object() {
            return None;
        }
        let translatable = match value.get("translatable") {
            None => None,
            Some(JsonValue::Null) => None,
            Some(v) => match v.as_str() {
                Some(s) => Some(s),
                None => return None,
            },
        };
        let params = match value.get("translatableParams") {
            None => Vec::new(),
            Some(v) => match strings_from_json(v) {
                Some(p) => p,
                None => return None,
            },
        };
        proof {
            assert(texts_view(params@) =~= match get_spec(value@, "translatableParams"@) {
                None => Seq::<Seq<char>>::empty(),
                Some(v) => read_texts(v).unwrap(),
            });
        }
        let literal = match value.get("literal") {
            None => None,
            Some(JsonValue::Null) => None,
            Some(v) => match v.as_str() {
                Some(s) => Some(s),
                None => return None,
            },
        };
        match translatable {
            Some(key) => match Message::translatable(key, params) {
                Ok(m) => Some(m),
                Err(_) => None,
            },
            None => match literal {
                Some(text) => Some(Message::literal(text)),
                None => None,
            },
        }
    }
}

/// A request to disconnect a selected player, optionally with a message.
#[derive(Clone, Debug, PartialEq, Eq)]
pub struct KickPlayer {
    /// The player who should be disconnected.
    pub player: PlayerRef,
    /// An optional message shown when the player is disconnected.
    pub message: Option<Message>,
}

/// The JSON form of a kick request: `player`, and `message` when present.
pub open spec fn kick_json(player: PlayerData, message: Option<MessageData>) -> JsonData {
    JsonData::Object(
        seq![("player"@, player_json(player))] + match message {
            Some(m) => seq![("message"@, message_json(m))],
            None => Seq::empty(),
        },
    )
}

impl KickPlayer {
    /// Creates a kick request without a custom message.
    pub fn new(player: PlayerRef) -> (r: KickPlayer)
        ensures
            r.player@ == player@,
            r.message is None,
    {
        KickPlayer { player, message: None }
    }

    /// Creates a kick request with a custom disconnect message.
    pub fn with_message(player: PlayerRef, message: Message) -> (r: KickPlayer)
        ensures
            r.player@ == player@,
            r.message matches Some(m) && m@ == message@,
    {
        KickPlayer { player, message: Some(message) }
    }

    /// The JSON form of the request.
    pub fn to_json(&self) -> (r: JsonValue)
        ensures
            r@ == kick_json(
                self.player@,
                match self.message {
                    Some(m) => Some(m@),
                    None => None,
                },
            ),
    {
        let mut members: Vec<(String, JsonValue)> = Vec::new();
        members.push((owned("player"), self.player.to_json()));
        if let Some(m) = &self.message {
            members.push((owned("message"), m.to_json()));
        }
        let r = JsonValue::Object(members);
        proof {
            lemma_object_view(r);
            assert(r@->Object_0 =~= kick_json(
                self.player@,
                match self.message {
                    Some(m) => Some(m@),
                    None => None,
                },
            )->Object_0);
        }
        r
    }
}

/// A system message sent to all players or a selected group of players.
#[derive(Clone, Debug, PartialEq, Eq)]
pub struct SystemMessage {
    /// The message content to send.
    pub message: Message,
    /// Whether the message is shown as an action-bar overlay.
    pub overlay: bool,
    /// Optional selected recipients; `None` sends to all applicable players.
    pub receiving_players: Option<Vec<PlayerRef>>,
}

pub open spec fn players_view(v: Seq<PlayerRef>) -> Seq<PlayerData> {
    Seq::new(v.len(), |i: int| v[i]@)
}

pub open spec fn players_json(v: Seq<PlayerData>) -> JsonData {
    JsonData::Array(Seq::new(v.len(), |i: int| player_json(v[i])))
}

/// The JSON form of a system message: `message`, `overlay`, and
/// `receivingPlayers` when recipients were selected.
pub open spec fn system_message_json(
    message: MessageData,
    overlay: bool,
    players: Option<Seq<PlayerData>>,
) -> JsonData {
    JsonData::Object(
        seq![("message"@, message_json(message)), ("overlay"@, JsonData::Bool(overlay))]
            + match players {
            Some(p) => seq![("receivingPlayers"@, players_json(p))],
            None => Seq::empty(),
        },
    )
}

/// The JSON array of a list of player selectors.
pub fn players_to_json(players: &Vec<PlayerRef>) -> (r: JsonValue)
    ensures
        r@ == players_json(players_view(players@)),
{
    let mut items: Vec<JsonValue> = Vec::new();
    let mut i: usize = 0;
    while i < players.len()
        invariant
            i <= players.len(),
            items.len() == i,
            forall|k: int| 0 <= k < i ==> #[trigger] items@[k]@ == player_json(players@[k]@),
        decreases players.len() - i,
    {
        items.push(players[i].to_json());
        i += 1;
    }
    let r = JsonValue::Array(items);
    proof {
        lemma_array_view(r);
        assert(r@->Array_0 =~= players_json(players_view(players@))->Array_0);
    }
    r
}

impl SystemMessage {
    /// Creates a normal chat/system message for all players.
    pub fn chat(message: Message) -> (r: SystemMessage)
        ensures
            r.message@ == message@,
            !r.overlay,
            r.receiving_players is None,
    {
        SystemMessage { message, overlay: false, receiving_players: None }
    }

    /// Creates an action-bar overlay message for all players.
    pub fn action_bar(message: Message) -> (r: SystemMessage)
        ensures
            r.message@ == message@,
            r.overlay,
            r.receiving_players is None,
    {
        SystemMessage { message, overlay: true, receiving_players: None }
    }

    /// Targets this message to the provided player selectors.
    pub fn to(self, players: Vec<PlayerRef>) -> (r: SystemMessage)
        ensures
            r.message@ == self.message@,
            r.overlay == self.overlay,
            r.receiving_players matches Some(p) && players_view(p@) == players_view(players@),
    {
        SystemMessage { message: self.message, overlay: self.overlay, receiving_players: Some(players) }
    }

    /// The JSON form of the message.
    pub fn to_json(&self) -> (r: JsonValue)
        ensures
            r@ == system_message_json(
                self.message@,
                self.overlay,
                match self.receiving_players {
                    Some(p) => Some(players_view(p@)),
                    None => None,
                },
            ),
    {
        let mut members: Vec<(String, JsonValue)> = Vec::new();
        members.push((owned("message"), self.message.to_json()));
        members.push((owned("overlay"), JsonValue::Bool(self.overlay)));
        if let Some(p) = &self.receiving_players {
            members.push((owned("receivingPlayers"), players_to_json(p)));
        }
        let r = JsonValue::Object(members);
        proof {
            lemma_object_view(r);
            assert(r@->Object_0 =~= system_message_json(
                self.message@,
                self.overlay,
                match self.receiving_players {
                    Some(p) => Some(players_view(p@)),
                    None => None,
                },
            )->Object_0);
        }
        r
    }
}

/// Reading back the JSON form of a message gives the message; a
/// translation key is never blank.
pub proof fn lemma_message_round_trip(m: MessageData)
    requires
        m matches MessageData::Translatable { key, .. } ==> !is_blank(key),
    ensures
        message_from_json(message_json(m)) == Some(m),
{
    reveal_strlit("literal");
    reveal_strlit("translatable");
    reveal_strlit("translatableParams");
    let entries = message_json(m)->Object_0;
    assert("literal"@.len() != "translatable"@.len());
    assert("literal"@.len() != "translatableParams"@.len());
    assert("translatable"@.len() != "translatableParams"@.len());
    match m {
        MessageData::Literal(t) => {
            crate::json::lemma_member_at(entries, "literal"@, 0);
            crate::json::lemma_member_absent(entries, "translatable"@);
            crate::json::lemma_member_absent(entries, "translatableParams"@);
        },
        MessageData::Translatable { key, params } => {
            crate::json::lemma_member_at(entries, "translatable"@, 0);
            crate::json::lemma_member_absent(entries, "literal"@);
            if params.len() == 0 {
                crate::json::lemma_member_absent(entries, "translatableParams"@);
                assert(params =~= Seq::<Seq<char>>::empty());
            } else {
                crate::json::lemma_member_at(entries, "translatableParams"@, 1);
                assert(read_texts(texts_json(params)) == Some(params)) by {
                    let items = texts_json(params)->Array_0;
                    assert(Seq::new(items.len(), |i: int| items[i]->Str_0) =~= params);
                }
            }
        },
    }
}

/// The literal text of a message: its text when it is literal.
pub open spec fn literal_of(m: MessageData) -> Option<Seq<char>> {
    match m {
        MessageData::Literal(t) => Some(t),
        MessageData::Translatable { .. } => None,
    }
}

/// A literal message gives back its text, whatever the text (blank too);
/// a translatable message has no literal text.
pub proof fn lemma_literal_text(t: Seq<char>, key: Seq<char>, params: Seq<Seq<char>>)
    ensures
        literal_of(MessageData::Literal(t)) == Some(t),
        literal_of(MessageData::Translatable { key, params }) is None,
{
}

} // verus!
