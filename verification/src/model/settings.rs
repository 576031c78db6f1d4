//! Live server-setting enumerations: difficulty and default game mode.

use vstd::prelude::*;

use crate::json::{JsonData, JsonValue};
use crate::text::str_eq;

verus! {

/// Minecraft difficulty setting used by the live server-settings API. Its
/// JSON form is the lowercase variant name.
#[derive(Clone, Copy, Debug, PartialEq, Eq, Structural)]
#[non_exhaustive]
pub enum Difficulty {
    /// Peaceful difficulty, with hostile gameplay threats disabled.
    Peaceful,
    /// Easy difficulty.
    Easy,
    /// Normal difficulty, Minecraft's standard survival balance.
    Normal,
    /// Hard difficulty.
    Hard,
}

/// The lowercase wire name of a difficulty.
pub open spec fn difficulty_name(d: Difficulty) -> Seq<char> {
    match d {
        Difficulty::Peaceful => "peaceful"@,
        Difficulty::Easy => "easy"@,
        Difficulty::Normal => "normal"@,
        Difficulty::Hard => "hard"@,
    }
}

/// The difficulty whose wire name is `s`, if any.
pub open spec fn difficulty_from_name(s: Seq<char>) -> Option<Difficulty> {
    if s == "peaceful"@ {
        Some(Difficulty::Peaceful)
    } else if s == "easy"@ {
        Some(Difficulty::Easy)
    } else if s == "normal"@ {
        Some(Difficulty::Normal)
    } else if s == "hard"@ {
        Some(Difficulty::Hard)
    } else {
        None
    }
}

/// Default Minecraft game mode used by the live server-settings API. Its
/// JSON form is the lowercase variant name.
#[derive(Clone, Copy, Debug, PartialEq, Eq, Structural)]
#[non_exhaustive]
pub enum GameMode {
    /// Survival mode.
    Survival,
    /// Creative mode.
    Creative,
    /// Adventure mode.
    Adventure,
    /// Spectator mode.
    Spectator,
}

/// The lowercase wire name of a game mode.
pub open spec fn game_mode_name(m: GameMode) -> Seq<char> {
    match m {
        GameMode::Survival => "survival"@,
        GameMode::Creative => "creative"@,
        GameMode::Adventure => "adventure"@,
        GameMode::Spectator => "spectator"@,
    }
}

/// The game mode whose wire name is `s`, if any.
pub open spec fn game_mode_from_name(s: Seq<char>) -> Option<GameMode> {
    if s == "survival"@ {
        Some(GameMode::Survival)
    } else if s == "creative"@ {
        Some(GameMode::Creative)
    } else if s == "adventure"@ {
        Some(GameMode::Adventure)
    } else if s == "spectator"@ {
        Some(GameMode::Spectator)
    } else {
        None
    }
}

impl Difficulty {
    /// Returns the lowercase wire name.
    pub fn name(&self) -> (r: &'static str)
        ensures
            r@ == difficulty_name(*self),
    {
        match self {
            Difficulty::Peaceful => "peaceful",
            Difficulty::Easy => "easy",
            Difficulty::Normal => "normal",
            Difficulty::Hard => "hard",
        }
    }

    /// Looks a difficulty up by its exact wire name.
    pub fn from_name(s: &str) -> (r: Option<Difficulty>)
        ensures
            r == difficulty_from_name(s@),
    {
        if str_eq(s, "peaceful") {
            Some(Difficulty::Peaceful)
        } else if str_eq(s, "easy") {
            Some(Difficulty::Easy)
        } else if str_eq(s, "normal") {
            Some(Difficulty::Normal)
        } else if str_eq(s, "hard") {
            Some(Difficulty::Hard)
        } else {
            None
        }
    }

    /// The JSON form: the wire name as a string.
    pub fn to_json(&self) -> (r: JsonValue)
        ensures
            r@ == JsonData::Str(difficulty_name(*self)),
    {
        JsonValue::text(self.name())
    }

    /// Reads a difficulty from a JSON string holding its wire name.
    pub fn from_json(value: &JsonValue) -> (r: Option<Difficulty>)
        ensures
            r == match value@ {
                JsonData::Str(s) => difficulty_from_name(s),
                _ => None,
            },
    {
        match value.as_str() {
            Some(s) => Difficulty::from_name(s),
            None => None,
        }
    }
}

impl GameMode {
    /// Returns the lowercase wire name.
    pub fn name(&self) -> (r: &'static str)
        ensures
            r@ == game_mode_name(*self),
    {
        match self {
            GameMode::Survival => "survival",
            GameMode::Creative => "creative",
            GameMode::Adventure => "adventure",
            GameMode::Spectator => "spectator",
        }
    }

    /// Looks a game mode up by its exact wire name.
    pub fn from_name(s: &str) -> (r: Option<GameMode>)
        ensures
            r == game_mode_from_name(s@),
    {
        if str_eq(s, "survival") {
            Some(GameMode::Survival)
        } else if str_eq(s, "creative") {
            Some(GameMode::Creative)
        } else if str_eq(s, "adventure") {
            Some(GameMode::Adventure)
        } else if str_eq(s, "spectator") {
            Some(GameMode::Spectator)
        } else {
            None
        }
    }

    /// The JSON form: the wire name as a string.
    pub fn to_json(&self) -> (r: JsonValue)
        ensures
            r@ == JsonData::Str(game_mode_name(*self)),
    {
        JsonValue::text(self.name())
    }

    /// Reads a game mode from a JSON string holding its wire name.
    pub fn from_json(value: &JsonValue) -> (r: Option<GameMode>)
        ensures
            r == match value@ {
                JsonData::Str(s) => game_mode_from_name(s),
                _ => None,
            },
    {
        match value.as_str() {
            Some(s) => GameMode::from_name(s),
            None => None,
        }
    }
}

/// Reading back the JSON form of a difficulty gives the same difficulty.
pub proof fn lemma_difficulty_round_trip(d: Difficulty)
    ensures
        difficulty_from_name(difficulty_name(d)) == Some(d),
{
    reveal_strlit("peaceful");
    reveal_strlit("easy");
    reveal_strlit("normal");
    reveal_strlit("hard");
    assert("easy"@[0] != "hard"@[0]);
    assert("easy"@ != "peaceful"@);
    assert("normal"@[0] != "peaceful"@[0]);
    assert("normal"@ != "easy"@);
    assert("hard"@ != "peaceful"@);
    assert("hard"@ != "easy"@);
    assert("hard"@ != "normal"@);
}

/// Reading back the JSON form of a game mode gives the same game mode.
pub proof fn lemma_game_mode_round_trip(m: GameMode)
    ensures
        game_mode_from_name(game_mode_name(m)) == Some(m),
{
    reveal_strlit("survival");
    reveal_strlit("creative");
    reveal_strlit("adventure");
    reveal_strlit("spectator");
    assert("survival"@[0] != "creative"@[0]);
    assert("adventure"@[0] != "spectator"@[0]);
    assert("creative"@ != "survival"@);
    assert("adventure"@ != "survival"@);
    assert("adventure"@ != "creative"@);
    assert("spectator"@[1] != "survival"@[1]);
    assert("spectator"@ != "creative"@);
    assert("spectator"@ != "adventure"@);
}

} // verus!
