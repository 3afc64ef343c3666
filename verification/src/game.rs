//! The parts of a game that parsing its event messages reads.

use vstd::prelude::*;
use crate::enums::EventType;
use crate::innings::Inning;
use crate::parsed_event::{EmojiTeam, UnparsingContext};
use crate::time::Day;

verus! {

/// A value of game data that names nothing known, kept as its text.
#[derive(Debug, Clone, PartialEq, Eq, Hash)]
pub struct NotRecognized(pub String);

/// One event of a game's log.
#[derive(Debug)]
pub struct Event {
    pub inning: Inning,
    pub event: Result<EventType, NotRecognized>,
    pub message: String,
    /// Event index, introduced in season 2.
    pub index: Option<u16>,
}

impl Event {
    /// An event as game data records it: the inning number and side, the name
    /// of the event's type, its message and its index.
    pub fn from_raw(inning: u8, inning_side: u8, event: &str, message: String, index: Option<u16>) -> (r: Event)
        requires
            inning_side <= 2,
        ensures
            r.inning == Inning::spec_from_raw(inning, inning_side),
            match EventType::spec_parse(event@) {
                Some(t) => r.event == Ok::<EventType, NotRecognized>(t),
                None => r.event matches Err(nr) && nr.0@ == event@,
            },
            r.message == message,
            r.index == index,
    {
        let event = match EventType::from_str(event) {
            Ok(t) => Ok(t),
            Err(_) => Err(NotRecognized(event.to_string())),
        };
        Event { inning: Inning::from_raw(inning, inning_side), event, message, index }
    }
}

/// A game: its teams, its date and its log of events.
#[derive(Debug)]
pub struct Game {
    pub away_team_emoji: String,
    pub away_team_name: String,
    pub home_team_emoji: String,
    pub home_team_name: String,
    pub season: u32,
    pub day: Result<Day, NotRecognized>,
    pub event_log: Vec<Event>,
}

impl Game {
    /// The day of the game, when it was recognized.
    pub open spec fn spec_day(&self) -> Option<Day> {
        match self.day {
            Ok(d) => Some(d),
            Err(_) => None,
        }
    }

    /// The context in which this game's messages are written, holding its own text.
    pub open spec fn spec_context(&self) -> UnparsingContext<String> {
        UnparsingContext {
            season: self.season,
            day: self.spec_day(),
            away_emoji_team: EmojiTeam { emoji: self.away_team_emoji, name: self.away_team_name },
            home_emoji_team: EmojiTeam { emoji: self.home_team_emoji, name: self.home_team_name },
        }
    }

    /// The context in which this game's messages are written.
    pub fn unparsing_context(&self) -> (r: UnparsingContext<&str>)
        ensures
            r.season == self.season,
            r.day == self.spec_day(),
            r.away_emoji_team.emoji@ == self.away_team_emoji@,
            r.away_emoji_team.name@ == self.away_team_name@,
            r.home_emoji_team.emoji@ == self.home_team_emoji@,
            r.home_emoji_team.name@ == self.home_team_name@,
    {
        UnparsingContext {
            season: self.season,
            day: match &self.day {
                Ok(d) => Some(*d),
                Err(_) => None,
            },
            away_emoji_team: EmojiTeam { emoji: self.away_team_emoji.as_str(), name: self.away_team_name.as_str() },
            home_emoji_team: EmojiTeam { emoji: self.home_team_emoji.as_str(), name: self.home_team_name.as_str() },
        }
    }
}

/// The batter and on-deck fields of a game: the name of a player, an empty
/// string (no batter during the game) or nothing (before the game).
#[derive(Debug, Clone, PartialEq)]
pub enum MaybePlayer<S> {
    Player(S),
    EmptyString,
    Null,
}

impl<S> MaybePlayer<S> {
    /// The player, if there is one.
    pub fn player(self) -> (r: Option<S>)
        ensures
            r == (match self {
                MaybePlayer::Player(p) => Some(p),
                _ => None,
            }),
    {
        match self {
            MaybePlayer::Player(player) => Some(player),
            MaybePlayer::EmptyString => None,
            MaybePlayer::Null => None,
        }
    }
}

impl MaybePlayer<String> {
    /// The same value, borrowing the player's name.
    pub fn map_as_str(&self) -> (r: MaybePlayer<&str>)
        ensures
            match (*self, r) {
                (MaybePlayer::Player(a), MaybePlayer::Player(b)) => a@ == b@,
                (MaybePlayer::EmptyString, MaybePlayer::EmptyString) => true,
                (MaybePlayer::Null, MaybePlayer::Null) => true,
                _ => false,
            },
    {
        match self {
            MaybePlayer::Player(player) => MaybePlayer::Player(player.as_str()),
            MaybePlayer::EmptyString => MaybePlayer::EmptyString,
            MaybePlayer::Null => MaybePlayer::Null,
        }
    }

    /// The field as the game writes it: the name, an empty string, or nothing.
    pub fn unparse(self) -> (r: Option<String>)
        ensures
            match self {
                MaybePlayer::Player(p) => r == Some(p),
                MaybePlayer::EmptyString => r matches Some(s) && s@.len() == 0,
                MaybePlayer::Null => r is None,
            },
    {
        match self {
            MaybePlayer::Player(player) => Some(player),
            MaybePlayer::EmptyString => Some(String::new()),
            MaybePlayer::Null => None,
        }
    }

    /// The field read from what the game writes: an empty name is no batter.
    pub fn from_option(value: Option<String>) -> (r: MaybePlayer<String>)
        ensures
            match value {
                Some(p) => if p@.len() == 0 { r is EmptyString } else { r == MaybePlayer::Player(p) },
                None => r is Null,
            },
    {
        match value {
            Some(player) => if player.as_str().is_empty() {
                MaybePlayer::EmptyString
            } else {
                MaybePlayer::Player(player)
            },
            None => MaybePlayer::Null,
        }
    }
}

/// A pitcher that has appeared in a game.
#[derive(Debug, Clone, PartialEq)]
pub struct PitcherEntry {
    pub batters_faced: u8,
    pub id: String,
}

} // verus!
