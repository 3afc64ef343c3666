//! The parsed form of game event messages, and how each part is written back
//! as text.

use vstd::prelude::*;
use crate::enums::{Attribute, Base, BaseNameVariant, Distance, EventType, FairBallDestination, FairBallType, FieldingErrorType,
    FoulType, GameOverMessage, HomeAway, ItemName, ItemPrefix, ItemSuffix, MoundVisitType, ParseError, StrikeType, TopBottom};
use crate::game::NotRecognized;
use crate::stats::{BatterStat, NowBattingStats};
use crate::places::Place;
use crate::text::{Text, push_text, push_dec, dec, str_eq};
use crate::time::{Breakpoints, Day};

verus! {

/// What the writing of some messages depends on: the season and day of the game
/// and its two teams.
#[derive(Debug, Clone)]
pub struct UnparsingContext<S> {
    pub season: u32,
    pub day: Option<Day>,
    pub away_emoji_team: EmojiTeam<S>,
    pub home_emoji_team: EmojiTeam<S>,
}

impl<S: Text> UnparsingContext<S> {
    /// A context whose day can be placed in the order of its season.
    pub open spec fn wf(&self) -> bool {
        self.day != Some(Day::SuperstarDay(255))
    }

    /// Whether an event with index `event_index` in this context is before the change `time`.
    pub open spec fn spec_before(&self, event_index: Option<u16>, time: Breakpoints) -> bool {
        time.spec_before(self.season, self.day, event_index)
    }

    /// Whether an event with index `event_index` in this context is before the change `time`.
    pub fn before(&self, event_index: Option<u16>, time: Breakpoints) -> (r: bool)
        requires
            self.wf(),
        ensures
            r == self.spec_before(event_index, time),
    {
        time.before(self.season, self.day, event_index)
    }

    /// Whether an event with index `event_index` in this context is at or after the change `time`.
    pub fn after(&self, event_index: Option<u16>, time: Breakpoints) -> (r: bool)
        requires
            self.wf(),
        ensures
            r == !self.spec_before(event_index, time),
    {
        time.after(self.season, self.day, event_index)
    }
}

/// A team's emoji and name, which is how teams are usually presented in mmolb.
#[derive(Debug, Clone, Copy, PartialEq)]
pub struct EmojiTeam<S> {
    pub emoji: S,
    pub name: S,
}

impl<S: Text> EmojiTeam<S> {
    /// "{emoji} {name}"
    pub open spec fn spec_text(&self) -> Seq<char> {
        self.emoji@ + " "@ + self.name@
    }

    pub fn push_to(&self, out: &mut String)
        ensures
            final(out)@ == old(out)@ + self.spec_text(),
    {
        push_text(out, &self.emoji);
        out.append(" ");
        push_text(out, &self.name);
    }

    pub fn to_string(&self) -> (r: String)
        ensures
            r@ == self.spec_text(),
    {
        let mut s = String::new();
        self.push_to(&mut s);
        s
    }

    /// The same team, borrowing its text.
    pub fn as_ref(&self) -> (r: EmojiTeam<&str>)
        ensures
            r.emoji@ == self.emoji@,
            r.name@ == self.name@,
    {
        EmojiTeam { emoji: self.emoji.as_text(), name: self.name.as_text() }
    }
}

/// A player's team emoji and name.
#[derive(Debug, Clone, Copy, PartialEq)]
pub struct EmojiPlayer<S> {
    pub emoji: S,
    pub name: S,
}

impl<S: Text> EmojiPlayer<S> {
    /// "{emoji} {name}"
    pub open spec fn spec_text(&self) -> Seq<char> {
        self.emoji@ + " "@ + self.name@
    }

    pub fn push_to(&self, out: &mut String)
        ensures
            final(out)@ == old(out)@ + self.spec_text(),
    {
        push_text(out, &self.emoji);
        out.append(" ");
        push_text(out, &self.name);
    }

    pub fn to_string(&self) -> (r: String)
        ensures
            r@ == self.spec_text(),
    {
        let mut s = String::new();
        self.push_to(&mut s);
        s
    }

    /// The same player, borrowing its text.
    pub fn as_ref(&self) -> (r: EmojiPlayer<&str>)
        ensures
            r.emoji@ == self.emoji@,
            r.name@ == self.name@,
    {
        EmojiPlayer { emoji: self.emoji.as_text(), name: self.name.as_text() }
    }
}

/// A player named with their place, e.g. "1B Geo Kerr".
#[derive(Debug, Clone, Copy, PartialEq)]
pub struct PlacedPlayer<S> {
    pub name: S,
    pub place: Place,
}

impl<S: Text> PlacedPlayer<S> {
    /// "{place} {name}"
    pub open spec fn spec_text(&self) -> Seq<char> {
        self.place.spec_name() + " "@ + self.name@
    }

    pub fn push_to(&self, out: &mut String)
        ensures
            final(out)@ == old(out)@ + self.spec_text(),
    {
        let p = self.place.to_string();
        out.append(p.as_str());
        out.append(" ");
        push_text(out, &self.name);
    }

    pub fn to_string(&self) -> (r: String)
        ensures
            r@ == self.spec_text(),
    {
        let mut s = String::new();
        self.push_to(&mut s);
        s
    }

    /// The same player, borrowing its text.
    pub fn as_ref(&self) -> (r: PlacedPlayer<&str>)
        ensures
            r.name@ == self.name@,
            r.place == self.place,
    {
        PlacedPlayer { name: self.name.as_text(), place: self.place }
    }
}

/// A runner put out at a base.
#[derive(Debug, Clone, Copy, PartialEq)]
pub struct RunnerOut<S> {
    pub runner: S,
    pub base: BaseNameVariant,
}

impl<S: Text> RunnerOut<S> {
    /// "{runner} out at {base}."
    pub open spec fn spec_text(&self) -> Seq<char> {
        self.runner@ + " out at "@ + self.base.spec_name() + "."@
    }

    pub fn push_to(&self, out: &mut String)
        ensures
            final(out)@ == old(out)@ + self.spec_text(),
    {
        push_text(out, &self.runner);
        out.append(" out at ");
        out.append(self.base.as_str());
        out.append(".");
    }

    pub fn to_string(&self) -> (r: String)
        ensures
            r@ == self.spec_text(),
    {
        let mut s = String::new();
        self.push_to(&mut s);
        s
    }
}

/// A runner reaching a base.
#[derive(Debug, Clone, Copy, PartialEq)]
pub struct RunnerAdvance<S> {
    pub runner: S,
    pub base: Base,
}

impl<S: Text> RunnerAdvance<S> {
    /// "{runner} to {base} base."
    pub open spec fn spec_text(&self) -> Seq<char> {
        self.runner@ + " to "@ + self.base.spec_name() + " base."@
    }

    pub fn push_to(&self, out: &mut String)
        ensures
            final(out)@ == old(out)@ + self.spec_text(),
    {
        push_text(out, &self.runner);
        out.append(" to ");
        out.append(self.base.as_str());
        out.append(" base.");
    }

    pub fn to_string(&self) -> (r: String)
        ensures
            r@ == self.spec_text(),
    {
        let mut s = String::new();
        self.push_to(&mut s);
        s
    }
}

/// A runner stealing a base, or caught trying to.
#[derive(Debug, Clone, Copy, PartialEq)]
pub struct BaseSteal<S> {
    pub runner: S,
    pub base: Base,
    pub caught: bool,
}

impl<S: Text> BaseSteal<S> {
    pub open spec fn spec_text(&self) -> Seq<char> {
        if self.caught {
            self.runner@ + " is caught stealing "@ + self.base.spec_base_str() + "."@
        } else if self.base == Base::Home {
            "<strong>"@ + self.runner@ + " steals "@ + self.base.spec_base_str() + "!</strong>"@
        } else {
            self.runner@ + " steals "@ + self.base.spec_base_str() + "!"@
        }
    }

    pub fn push_to(&self, out: &mut String)
        ensures
            final(out)@ == old(out)@ + self.spec_text(),
    {
        if self.caught {
            push_text(out, &self.runner);
            out.append(" is caught stealing ");
            out.append(self.base.to_base_str());
            out.append(".");
        } else if matches!(self.base, Base::Home) {
            out.append("<strong>");
            push_text(out, &self.runner);
            out.append(" steals ");
            out.append(self.base.to_base_str());
            out.append("!</strong>");
        } else {
            push_text(out, &self.runner);
            out.append(" steals ");
            out.append(self.base.to_base_str());
            out.append("!");
        }
    }

    pub fn to_string(&self) -> (r: String)
        ensures
            r@ == self.spec_text(),
    {
        let mut s = String::new();
        self.push_to(&mut s);
        s
    }

    /// The runner put out, when the steal was caught.
    pub fn to_runner_out(self) -> (r: Result<RunnerOut<S>, ()>)
        ensures
            self.caught ==> (r matches Ok(o) && o.runner == self.runner
                && o.base == BaseNameVariant::spec_basic_name(self.base)),
            !self.caught ==> r is Err,
    {
        if self.caught {
            Ok(RunnerOut { runner: self.runner, base: BaseNameVariant::basic_name(self.base) })
        } else {
            Err(())
        }
    }

    /// The runner's advance, when the steal succeeded.
    pub fn to_runner_advance(self) -> (r: Result<RunnerAdvance<S>, ()>)
        ensures
            !self.caught ==> (r matches Ok(a) && a.runner == self.runner && a.base == self.base),
            self.caught ==> r is Err,
    {
        if !self.caught {
            Ok(RunnerAdvance { runner: self.runner, base: self.base })
        } else {
            Err(())
        }
    }
}

/// Either an Out or an Error - e.g. for a Fielder's Choice.
#[derive(Debug, Clone, Copy, PartialEq)]
pub enum FieldingAttempt<S> {
    Out { out: RunnerOut<S> },
    Error { fielder: S, error: FieldingErrorType },
}

impl<S: Text> FieldingAttempt<S> {
    pub open spec fn spec_text(&self) -> Seq<char> {
        match self {
            FieldingAttempt::Out { out } => out.runner@ + " out at "@ + out.base.spec_name() + "."@,
            FieldingAttempt::Error { fielder, error } => error.spec_name() + " by "@ + fielder@ + "."@,
        }
    }

    pub fn to_string(&self) -> (r: String)
        ensures
            r@ == self.spec_text(),
    {
        let mut s = String::new();
        match self {
            FieldingAttempt::Out { out } => {
                out.push_to(&mut s);
            },
            FieldingAttempt::Error { fielder, error } => {
                s.append(error.uppercase());
                s.append(" by ");
                push_text(&mut s, fielder);
                s.append(".");
            },
        }
        s
    }
}

/// The pitcher at the start of an inning: the same one, or a new one replacing the last.
#[derive(Debug, Clone, PartialEq)]
pub enum StartOfInningPitcher<S> {
    Same { emoji: S, name: S },
    Different {
        leaving_emoji: Option<S>,
        leaving_pitcher: PlacedPlayer<S>,
        arriving_emoji: Option<S>,
        arriving_pitcher: PlacedPlayer<S>,
    },
}

/// The text of an optional emoji followed by a space, or nothing.
pub open spec fn opt_emoji_text<S: Text>(e: Option<S>) -> Seq<char> {
    match e {
        Some(e) => e@ + " "@,
        None => Seq::empty(),
    }
}

/// Appends an optional emoji followed by a space.
pub fn push_opt_emoji<S: Text>(out: &mut String, e: &Option<S>)
    ensures
        final(out)@ == old(out)@ + opt_emoji_text(*e),
{
    match e {
        Some(e) => {
            push_text(out, e);
            out.append(" ");
        },
        None => {},
    }
}

impl<S: Text> StartOfInningPitcher<S> {
    /// The sentences about the pitcher that end an inning's opening message.
    pub open spec fn spec_text(&self) -> Seq<char> {
        match self {
            StartOfInningPitcher::Same { emoji, name } => " "@ + emoji@ + " "@ + name@ + " pitching."@,
            StartOfInningPitcher::Different { leaving_emoji, leaving_pitcher, arriving_emoji, arriving_pitcher } =>
                " "@ + opt_emoji_text(*leaving_emoji) + leaving_pitcher.spec_text() + " is leaving the game. "@
                    + opt_emoji_text(*arriving_emoji) + arriving_pitcher.spec_text() + " takes the mound."@,
        }
    }

    pub fn push_to(&self, out: &mut String)
        ensures
            final(out)@ == old(out)@ + self.spec_text(),
    {
        match self {
            StartOfInningPitcher::Same { emoji, name } => {
                out.append(" ");
                push_text(out, emoji);
                out.append(" ");
                push_text(out, name);
                out.append(" pitching.");
            },
            StartOfInningPitcher::Different { leaving_emoji, leaving_pitcher, arriving_emoji, arriving_pitcher } => {
                out.append(" ");
                push_opt_emoji(out, leaving_emoji);
                leaving_pitcher.push_to(out);
                out.append(" is leaving the game. ");
                push_opt_emoji(out, arriving_emoji);
                arriving_pitcher.push_to(out);
                out.append(" takes the mound.");
            },
        }
    }
}

/// Messages known to have been written wrongly by the game, kept as they were.
#[derive(Debug, Clone, PartialEq)]
pub enum KnownBug<S> {
    /// "Genevieve Hirose reaches on a fielder's choice out, 1B N. Kitagawa"
    FirstBasemanChoosesAGhost { batter: S, first_baseman: S },
    /// An empty prosperity message in which neither team earned any tokens.
    NoOneProspers,
}

impl<S: Text> KnownBug<S> {
    pub open spec fn spec_text(&self) -> Seq<char> {
        match self {
            KnownBug::FirstBasemanChoosesAGhost { batter, first_baseman } =>
                batter@ + " reaches on a fielder's choice out, 1B "@ + first_baseman@,
            KnownBug::NoOneProspers => Seq::empty(),
        }
    }

    pub fn to_string(&self) -> (r: String)
        ensures
            r@ == self.spec_text(),
    {
        let mut s = String::new();
        match self {
            KnownBug::FirstBasemanChoosesAGhost { batter, first_baseman } => {
                push_text(&mut s, batter);
                s.append(" reaches on a fielder's choice out, 1B ");
                push_text(&mut s, first_baseman);
            },
            KnownBug::NoOneProspers => {},
        }
        s
    }
}

/// The outcome of a player's resistance to the Wither.
#[derive(Debug, Clone, Copy, PartialEq, Eq, Structural)]
pub enum WitherResult {
    Resisted,
    ResistedEffloresced,
    ResistedImmune,
    Corrupted,
}

/// Whether a Wither was contained.
#[derive(Debug, Clone, Copy, PartialEq)]
pub enum ContainResult<S> {
    NoContain,
    SuccessfulContain { contained_player_name: S, replacement_player_name: S },
    FailedContain { target_player_name: S },
}

impl<S: Text> ContainResult<S> {
    pub open spec fn spec_text(&self) -> Seq<char> {
        match self {
            ContainResult::NoContain => Seq::empty(),
            ContainResult::SuccessfulContain { contained_player_name, replacement_player_name } =>
                ", and Contained "@ + contained_player_name@ + ". They were replaced by "@ + replacement_player_name@ + "."@,
            ContainResult::FailedContain { target_player_name } =>
                ", and tried to Contain "@ + target_player_name@ + ", but they wouldn't budge."@,
        }
    }

    pub fn to_string(&self) -> (r: String)
        ensures
            r@ == self.spec_text(),
    {
        let mut s = String::new();
        match self {
            ContainResult::NoContain => {},
            ContainResult::SuccessfulContain { contained_player_name, replacement_player_name } => {
                s.append(", and Contained ");
                push_text(&mut s, contained_player_name);
                s.append(". They were replaced by ");
                push_text(&mut s, replacement_player_name);
                s.append(".");
            },
            ContainResult::FailedContain { target_player_name } => {
                s.append(", and tried to Contain ");
                push_text(&mut s, target_player_name);
                s.append(", but they wouldn't budge.");
            },
        }
        s
    }
}

/// The durability lost at a party.
#[derive(Debug, Clone, Copy, PartialEq)]
pub enum PartyDurabilityLoss<S> {
    Both(u8),
    OneProtected { protected_player_name: S, unprotected_player_name: S, durability_loss: u8 },
}

impl<S: Text> PartyDurabilityLoss<S> {
    pub open spec fn spec_text(&self) -> Seq<char> {
        match self {
            PartyDurabilityLoss::Both(loss) => "Both players lose "@ + dec(*loss as nat) + " Durability."@,
            PartyDurabilityLoss::OneProtected { protected_player_name, unprotected_player_name, durability_loss } =>
                unprotected_player_name@ + " loses "@ + dec(*durability_loss as nat) + " Durability, but "@
                    + protected_player_name@ + "'s Prolific Greater Boon protects them from harm."@,
        }
    }

    pub fn push_to(&self, out: &mut String)
        ensures
            final(out)@ == old(out)@ + self.spec_text(),
    {
        match self {
            PartyDurabilityLoss::Both(loss) => {
                out.append("Both players lose ");
                push_dec(out, *loss as u64);
                out.append(" Durability.");
            },
            PartyDurabilityLoss::OneProtected { protected_player_name, unprotected_player_name, durability_loss } => {
                push_text(out, unprotected_player_name);
                out.append(" loses ");
                push_dec(out, *durability_loss as u64);
                out.append(" Durability, but ");
                push_text(out, protected_player_name);
                out.append("'s Prolific Greater Boon protects them from harm.");
            },
        }
    }

    pub fn to_string(&self) -> (r: String)
        ensures
            r@ == self.spec_text(),
    {
        let mut s = String::new();
        self.push_to(&mut s);
        s
    }
}

/// A player struggling against the Wither.
#[derive(Debug, Clone, PartialEq)]
pub struct WitherStruggle<S> {
    pub team_emoji: S,
    pub target: PlacedPlayer<S>,
    /// Source was not named in season 6.
    pub source_name: Option<S>,
}

impl<S: Text> WitherStruggle<S> {
    pub open spec fn spec_text(&self) -> Seq<char> {
        match self.source_name {
            None => self.team_emoji@ + " "@ + self.target.spec_text() + " struggles against the 🥀 Wither."@,
            Some(source_name) => source_name@ + " is trying to spread the 🥀 Wither to "@ + self.team_emoji@ + " "@
                + self.target.spec_text() + "!"@,
        }
    }

    pub fn push_to(&self, out: &mut String)
        ensures
            final(out)@ == old(out)@ + self.spec_text(),
    {
        match &self.source_name {
            None => {
                push_text(out, &self.team_emoji);
                out.append(" ");
                self.target.push_to(out);
                out.append(" struggles against the 🥀 Wither.");
            },
            Some(source_name) => {
                push_text(out, source_name);
                out.append(" is trying to spread the 🥀 Wither to ");
                push_text(out, &self.team_emoji);
                out.append(" ");
                self.target.push_to(out);
                out.append("!");
            },
        }
    }

    pub fn to_string(&self) -> (r: String)
        ensures
            r@ == self.spec_text(),
    {
        let mut s = String::new();
        self.push_to(&mut s);
        s
    }

    /// The same struggle, borrowing its text.
    pub fn to_ref(&self) -> (r: WitherStruggle<&str>)
        ensures
            r.team_emoji@ == self.team_emoji@,
            r.target.name@ == self.target.name@,
            r.target.place == self.target.place,
            r.source_name is Some <==> self.source_name is Some,
            self.source_name matches Some(n) ==> r.source_name->0@ == n@,
    {
        WitherStruggle {
            team_emoji: self.team_emoji.as_text(),
            target: self.target.as_ref(),
            source_name: match &self.source_name {
                Some(n) => Some(n.as_text()),
                None => None,
            },
        }
    }
}

/// Two players photographing the aurora.
#[derive(Debug, Clone, Copy, PartialEq)]
pub struct SnappedPhotos<S> {
    pub first_team_emoji: S,
    pub first_player: PlacedPlayer<S>,
    pub second_team_emoji: S,
    pub second_player: PlacedPlayer<S>,
}

impl<S: Text> SnappedPhotos<S> {
    pub open spec fn spec_text(&self) -> Seq<char> {
        " The Geomagnetic Storms Intensify! "@ + self.first_team_emoji@ + " "@ + self.first_player.spec_text() + " and "@
            + self.second_team_emoji@ + " "@ + self.second_player.spec_text() + " snapped photos of the aurora."@
    }

    pub fn push_to(&self, out: &mut String)
        ensures
            final(out)@ == old(out)@ + self.spec_text(),
    {
        out.append(" The Geomagnetic Storms Intensify! ");
        push_text(out, &self.first_team_emoji);
        out.append(" ");
        self.first_player.push_to(out);
        out.append(" and ");
        push_text(out, &self.second_team_emoji);
        out.append(" ");
        self.second_player.push_to(out);
        out.append(" snapped photos of the aurora.");
    }

    pub fn unparse(&self) -> (r: String)
        ensures
            r@ == self.spec_text(),
    {
        let mut s = String::new();
        self.push_to(&mut s);
        s
    }
}

/// The cheers that a crowd can raise.
#[derive(Debug, Clone, PartialEq, Eq, Hash)]
pub enum Cheer {
    ATremendousCheerFillsTheAir,
    AThunderousCheerEchoesAcrossTheField,
    ChantsThunderAroundTheStadium,
    EveryoneCheersAtOnce,
    EveryoneIsChantingTheTeamsName,
    TheCheersDrownOutEverythingElse,
    CheersRollThroughTheStadium,
    SupportersPoundOnTheRailings,
    HandsClapAndWhistlesPierceTheAir,
    HomeFansStompTheirFeetInUnison,
    NoOneIsSittingAnymore,
    TheHometownSupportersGiveARoar,
    TheHomeTownSectionIsDeafening,
    TheHomeFaithfulGoBerserk,
    TheFansAreLosingTheirMinds,
    TheStandsExplodeInNoise,
    ItsAWallOfSound,
    TheEntireBallparkIsRocking,
    TheBallparkComesAlive,
    ExcitementPoursFromTheCrowd,
    TheHomeSupportersCantContainThemselves,
    TheCrowdLetsOutACollectiveHowl,
    ARumbleOfExcitementRollsThroughTheStadium,
    BannersWaveWildly,
    TheNoiseLevelSkyrockets,
    TheEnergyInHereIsPalpable,
    TheBallparkEruptsInApplause,
    TheBleachersAreBooming,
    FansSlapTheWallsInRhythm,
    TheHometownFansRoarTheirSupport,
    NoiseRainsDownFromTheSeats,
    FansWaveTheirArmsWildly,
    EnergyPulsesFromTheStands,
    TheStandsShakeWithNoise,
    TheBallparkIsInAnUproar,
    TheStadiumSwellWithCheers,
    TheStadiumErupts,
    FansRoarInSupport,
    AChantGrowsLouderAndLouder,
    FansShoutEncouragement,
    TheStadiumIsBuzzing,
    TheHometownFaithfulAreLovingThis,
    FansWhoopAndHoller,
    TheHomeCrowdIsFiredUp,
    ItsPandemoniumInTheStands,
    TheNoiseIsOverwhelming,
    HomeSupportersWhistleAndCheer,
    TheHomeFansMakeThemselvesHeard,
    TheCrowdRalliesBehindTheTeam,
    TheStandsAreRumbling,
    ItsPurePandemonium,
    ThePlaceIsRocking,
    AWaveOfCheersSweepsTheStadium,
    TheHometownFansRoar,
    TheFansThunderTheirApproval,
    SupportersYellAtFullVolume,
    TheCrowdGoesAbsolutelyBonkers,
    TheCheeringIsRelentless,
    FansPumpTheirFistsInTheAir,
    TheHomeCrowdWontStopCheering,
    TheCrowdEruptsIntoCheers,
    ARoarBuildsFromTheSeats,
    EveryoneInTheStandsIsOnTheirFeet,
    ItsARoarFromTheRafters,
    ChantsRiseFromTheBleachers,
    ACheerRipsThroughThePark,
    EveryonesClappingInRhythm,
    TheCrowdIsPumpedUp,
    TheStadiumSwellsWithCheers,
    YouCanBarelyHearTheAnnouncer,
    TheFansAreFiredUp,
    TheDecibelsRiseToAFrenzy,
    TheEnergyInTheParkSurges,
    FansYellThemselvesHoarse,
    AMightyCheerErupts,
    TheStandsAreElectric,
    FansJumpAndShout,
    TheCheersEchoOffTheWalls,
    YouCanFeelTheStandsVibrating,
    NoiseLevelsSpike,
    EveryoneIsCheeringAtOnce,
    AHugeCheerErupts,
    TheNoiseJustKeepsBuilding,
    TheFaithfulAreShoutingAtTheTopOfTheirLungs,
    TheyCheerLikeTheresNoTomorrow,
    YouCanFeelTheHypeBuilding,
    TheExcitementIsOffTheCharts,
    ExcitementSurgesThroughThePark,
    EveryFanIsMakingNoise,
    TheSupportersFuelTheirTeam,
    TheParkVibratesWithNoise,
    TheStandsAreShaking,
    TheFansBellowEncouragement,
    TheStadiumShakesWithExcitement,
    SupportersWaveTheirBannersHigh,
    TheFaithfulRiseAsOne,
    CheersCascadeFromEverySection,
    TheCrowdBeltsOutTheTeamsChant,
    TheFansScreamForTheirHeroes,
    TheCrowdIsEcstatic,
    TheCrowdIsPumped,
    Unknown(String),
}

impl Cheer {
    /// The text by which this value is written in event messages.
    pub open spec fn spec_name(self) -> Seq<char> {
        match self {
            Cheer::ATremendousCheerFillsTheAir => "A tremendous cheer fills the air"@,
            Cheer::AThunderousCheerEchoesAcrossTheField => "A thunderous cheer echoes across the field"@,
            Cheer::ChantsThunderAroundTheStadium => "Chants thunder around the stadium"@,
            Cheer::EveryoneCheersAtOnce => "Everyone cheers at once"@,
            Cheer::EveryoneIsChantingTheTeamsName => "Everyone is chanting the team's name"@,
            Cheer::TheCheersDrownOutEverythingElse => "The cheers drown out everything else"@,
            Cheer::CheersRollThroughTheStadium => "Cheers roll through the stadium"@,
            Cheer::SupportersPoundOnTheRailings => "Supporters pound on the railings"@,
            Cheer::HandsClapAndWhistlesPierceTheAir => "Hands clap and whistles pierce the air"@,
            Cheer::HomeFansStompTheirFeetInUnison => "Home fans stomp their feet in unison"@,
            Cheer::NoOneIsSittingAnymore => "No one is sitting anymore"@,
            Cheer::TheHometownSupportersGiveARoar => "The hometown supporters give a roar"@,
            Cheer::TheHomeTownSectionIsDeafening => "The hometown section is deafening"@,
            Cheer::TheHomeFaithfulGoBerserk => "The home faithful go berserk"@,
            Cheer::TheFansAreLosingTheirMinds => "Fans are losing their minds"@,
            Cheer::TheStandsExplodeInNoise => "The stands explode in noise"@,
            Cheer::ItsAWallOfSound => "It's a wall of sound"@,
            Cheer::TheEntireBallparkIsRocking => "The entire ballpark is rocking"@,
            Cheer::TheBallparkComesAlive => "The ballpark comes alive"@,
            Cheer::ExcitementPoursFromTheCrowd => "Excitement pours from the crowd"@,
            Cheer::TheHomeSupportersCantContainThemselves => "The home supporters can't contain themselves"@,
            Cheer::TheCrowdLetsOutACollectiveHowl => "The crowd lets out a collective howl"@,
            Cheer::ARumbleOfExcitementRollsThroughTheStadium => "A rumble of excitement rolls through the stadium"@,
            Cheer::BannersWaveWildly => "Banners wave wildly"@,
            Cheer::TheNoiseLevelSkyrockets => "The noise level skyrockets"@,
            Cheer::TheEnergyInHereIsPalpable => "The energy in here is palpable"@,
            Cheer::TheBallparkEruptsInApplause => "The ballpark erupts in applause"@,
            Cheer::TheBleachersAreBooming => "The bleachers are booming"@,
            Cheer::FansSlapTheWallsInRhythm => "Fans slap the walls in rhythm"@,
            Cheer::TheHometownFansRoarTheirSupport => "The hometown fans roar their support"@,
            Cheer::NoiseRainsDownFromTheSeats => "Noise rains down from the seats"@,
            Cheer::FansWaveTheirArmsWildly => "Fans wave their arms wildly"@,
            Cheer::EnergyPulsesFromTheStands => "Energy pulses from the stands"@,
            Cheer::TheStandsShakeWithNoise => "The stands shake with noise"@,
            Cheer::TheBallparkIsInAnUproar => "The ballpark is in an uproar"@,
            Cheer::TheStadiumSwellWithCheers => "The stadium swell with cheers"@,
            Cheer::TheStadiumErupts => "The stadium erupts"@,
            Cheer::FansRoarInSupport => "Fans roar in support"@,
            Cheer::AChantGrowsLouderAndLouder => "A chant grows louder and louder"@,
            Cheer::FansShoutEncouragement => "Fans shout encouragement"@,
            Cheer::TheStadiumIsBuzzing => "The stadium is buzzing"@,
            Cheer::TheHometownFaithfulAreLovingThis => "The hometown faithful are loving this"@,
            Cheer::FansWhoopAndHoller => "Fans whoop and holler"@,
            Cheer::TheHomeCrowdIsFiredUp => "The home crowd is fired up"@,
            Cheer::ItsPandemoniumInTheStands => "It's pandemonium in the stands"@,
            Cheer::TheNoiseIsOverwhelming => "The noise is overwhelming"@,
            Cheer::HomeSupportersWhistleAndCheer => "Home supporters whistle and cheer"@,
            Cheer::TheHomeFansMakeThemselvesHeard => "The home fans make themselves heard"@,
            Cheer::TheCrowdRalliesBehindTheTeam => "The crowd rallies behind the team"@,
            Cheer::TheStandsAreRumbling => "The stands are rumbling"@,
            Cheer::ItsPurePandemonium => "It's pure pandemonium"@,
            Cheer::ThePlaceIsRocking => "The place is rocking"@,
            Cheer::AWaveOfCheersSweepsTheStadium => "A wave of cheers sweeps the stadium"@,
            Cheer::TheHometownFansRoar => "The hometown fans roar"@,
            Cheer::TheFansThunderTheirApproval => "The fans thunder their approval"@,
            Cheer::SupportersYellAtFullVolume => "Supporters yell at full volume"@,
            Cheer::TheCrowdGoesAbsolutelyBonkers => "The crowd goes absolutely bonkers"@,
            Cheer::TheCheeringIsRelentless => "The cheering is relentless"@,
            Cheer::FansPumpTheirFistsInTheAir => "Fans pump their fists in the air"@,
            Cheer::TheHomeCrowdWontStopCheering => "The home crowd won't stop cheering"@,
            Cheer::TheCrowdEruptsIntoCheers => "The crowd erupts into cheers"@,
            Cheer::ARoarBuildsFromTheSeats => "A roar builds from the seats"@,
            Cheer::EveryoneInTheStandsIsOnTheirFeet => "Everyone in the stands is on their feet"@,
            Cheer::ItsARoarFromTheRafters => "It's a roar from the rafters"@,
            Cheer::ChantsRiseFromTheBleachers => "Chants rise from the bleachers"@,
            Cheer::ACheerRipsThroughThePark => "A cheer rips through the park"@,
            Cheer::EveryonesClappingInRhythm => "Everyone's clapping in rhythm"@,
            Cheer::TheCrowdIsPumpedUp => "The crowd is pumped up"@,
            Cheer::TheStadiumSwellsWithCheers => "The stadium swells with cheers"@,
            Cheer::YouCanBarelyHearTheAnnouncer => "You can barely hear the announcer"@,
            Cheer::TheFansAreFiredUp => "The fans are fired up"@,
            Cheer::TheDecibelsRiseToAFrenzy => "The decibels rise to a frenzy"@,
            Cheer::TheEnergyInTheParkSurges => "The energy in the park surges"@,
            Cheer::FansYellThemselvesHoarse => "Fans yell themselves hoarse"@,
            Cheer::AMightyCheerErupts => "A mighty cheer erupts"@,
            Cheer::TheStandsAreElectric => "The stands are electric"@,
            Cheer::FansJumpAndShout => "Fans jump and shout"@,
            Cheer::TheCheersEchoOffTheWalls => "The cheers echo off the walls"@,
            Cheer::YouCanFeelTheStandsVibrating => "You can feel the stands vibrating"@,
            Cheer::NoiseLevelsSpike => "Noise levels spike"@,
            Cheer::EveryoneIsCheeringAtOnce => "Everyone is cheering at once"@,
            Cheer::AHugeCheerErupts => "A huge cheer erupts"@,
            Cheer::TheNoiseJustKeepsBuilding => "The noise just keeps building"@,
            Cheer::TheFaithfulAreShoutingAtTheTopOfTheirLungs => "The faithful are shouting at the top of their lungs"@,
            Cheer::TheyCheerLikeTheresNoTomorrow => "They cheer like there's no tomorrow"@,
            Cheer::YouCanFeelTheHypeBuilding => "You can feel the hype building"@,
            Cheer::TheExcitementIsOffTheCharts => "The excitement is off the charts"@,
            Cheer::ExcitementSurgesThroughThePark => "Excitement surges through the park"@,
            Cheer::EveryFanIsMakingNoise => "Every fan is making noise"@,
            Cheer::TheSupportersFuelTheirTeam => "The supporters fuel their team"@,
            Cheer::TheParkVibratesWithNoise => "The park vibrates with noise"@,
            Cheer::TheStandsAreShaking => "The stands are shaking"@,
            Cheer::TheFansBellowEncouragement => "The fans bellow encouragement"@,
            Cheer::TheStadiumShakesWithExcitement => "The stadium shakes with excitement"@,
            Cheer::SupportersWaveTheirBannersHigh => "Supporters wave their banners high"@,
            Cheer::TheFaithfulRiseAsOne => "The faithful rise as one"@,
            Cheer::CheersCascadeFromEverySection => "Cheers cascade from every section"@,
            Cheer::TheCrowdBeltsOutTheTeamsChant => "The crowd belts out the team's chant"@,
            Cheer::TheFansScreamForTheirHeroes => "The fans scream for their heroes"@,
            Cheer::TheCrowdIsEcstatic => "The crowd is ecstatic"@,
            Cheer::TheCrowdIsPumped => "The crowd is pumped"@,
            Cheer::Unknown(s) => s@,
        }
    }

    /// The text by which this value is written, as an owned string.
    pub fn to_string(&self) -> (r: String)
        ensures
            r@ == self.spec_name(),
    {
        match self {
            Cheer::ATremendousCheerFillsTheAir => String::from_str("A tremendous cheer fills the air"),
            Cheer::AThunderousCheerEchoesAcrossTheField => String::from_str("A thunderous cheer echoes across the field"),
            Cheer::ChantsThunderAroundTheStadium => String::from_str("Chants thunder around the stadium"),
            Cheer::EveryoneCheersAtOnce => String::from_str("Everyone cheers at once"),
            Cheer::EveryoneIsChantingTheTeamsName => String::from_str("Everyone is chanting the team's name"),
            Cheer::TheCheersDrownOutEverythingElse => String::from_str("The cheers drown out everything else"),
            Cheer::CheersRollThroughTheStadium => String::from_str("Cheers roll through the stadium"),
            Cheer::SupportersPoundOnTheRailings => String::from_str("Supporters pound on the railings"),
            Cheer::HandsClapAndWhistlesPierceTheAir => String::from_str("Hands clap and whistles pierce the air"),
            Cheer::HomeFansStompTheirFeetInUnison => String::from_str("Home fans stomp their feet in unison"),
            Cheer::NoOneIsSittingAnymore => String::from_str("No one is sitting anymore"),
            Cheer::TheHometownSupportersGiveARoar => String::from_str("The hometown supporters give a roar"),
            Cheer::TheHomeTownSectionIsDeafening => String::from_str("The hometown section is deafening"),
            Cheer::TheHomeFaithfulGoBerserk => String::from_str("The home faithful go berserk"),
            Cheer::TheFansAreLosingTheirMinds => String::from_str("Fans are losing their minds"),
            Cheer::TheStandsExplodeInNoise => String::from_str("The stands explode in noise"),
            Cheer::ItsAWallOfSound => String::from_str("It's a wall of sound"),
            Cheer::TheEntireBallparkIsRocking => String::from_str("The entire ballpark is rocking"),
            Cheer::TheBallparkComesAlive => String::from_str("The ballpark comes alive"),
            Cheer::ExcitementPoursFromTheCrowd => String::from_str("Excitement pours from the crowd"),
            Cheer::TheHomeSupportersCantContainThemselves => String::from_str("The home supporters can't contain themselves"),
            Cheer::TheCrowdLetsOutACollectiveHowl => String::from_str("The crowd lets out a collective howl"),
            Cheer::ARumbleOfExcitementRollsThroughTheStadium => String::from_str("A rumble of excitement rolls through the stadium"),
            Cheer::BannersWaveWildly => String::from_str("Banners wave wildly"),
            Cheer::TheNoiseLevelSkyrockets => String::from_str("The noise level skyrockets"),
            Cheer::TheEnergyInHereIsPalpable => String::from_str("The energy in here is palpable"),
            Cheer::TheBallparkEruptsInApplause => String::from_str("The ballpark erupts in applause"),
            Cheer::TheBleachersAreBooming => String::from_str("The bleachers are booming"),
            Cheer::FansSlapTheWallsInRhythm => String::from_str("Fans slap the walls in rhythm"),
            Cheer::TheHometownFansRoarTheirSupport => String::from_str("The hometown fans roar their support"),
            Cheer::NoiseRainsDownFromTheSeats => String::from_str("Noise rains down from the seats"),
            Cheer::FansWaveTheirArmsWildly => String::from_str("Fans wave their arms wildly"),
            Cheer::EnergyPulsesFromTheStands => String::from_str("Energy pulses from the stands"),
            Cheer::TheStandsShakeWithNoise => String::from_str("The stands shake with noise"),
            Cheer::TheBallparkIsInAnUproar => String::from_str("The ballpark is in an uproar"),
            Cheer::TheStadiumSwellWithCheers => String::from_str("The stadium swell with cheers"),
            Cheer::TheStadiumErupts => String::from_str("The stadium erupts"),
            Cheer::FansRoarInSupport => String::from_str("Fans roar in support"),
            Cheer::AChantGrowsLouderAndLouder => String::from_str("A chant grows louder and louder"),
            Cheer::FansShoutEncouragement => String::from_str("Fans shout encouragement"),
            Cheer::TheStadiumIsBuzzing => String::from_str("The stadium is buzzing"),
            Cheer::TheHometownFaithfulAreLovingThis => String::from_str("The hometown faithful are loving this"),
            Cheer::FansWhoopAndHoller => String::from_str("Fans whoop and holler"),
            Cheer::TheHomeCrowdIsFiredUp => String::from_str("The home crowd is fired up"),
            Cheer::ItsPandemoniumInTheStands => String::from_str("It's pandemonium in the stands"),
            Cheer::TheNoiseIsOverwhelming => String::from_str("The noise is overwhelming"),
            Cheer::HomeSupportersWhistleAndCheer => String::from_str("Home supporters whistle and cheer"),
            Cheer::TheHomeFansMakeThemselvesHeard => String::from_str("The home fans make themselves heard"),
            Cheer::TheCrowdRalliesBehindTheTeam => String::from_str("The crowd rallies behind the team"),
            Cheer::TheStandsAreRumbling => String::from_str("The stands are rumbling"),
            Cheer::ItsPurePandemonium => String::from_str("It's pure pandemonium"),
            Cheer::ThePlaceIsRocking => String::from_str("The place is rocking"),
            Cheer::AWaveOfCheersSweepsTheStadium => String::from_str("A wave of cheers sweeps the stadium"),
            Cheer::TheHometownFansRoar => String::from_str("The hometown fans roar"),
            Cheer::TheFansThunderTheirApproval => String::from_str("The fans thunder their approval"),
            Cheer::SupportersYellAtFullVolume => String::from_str("Supporters yell at full volume"),
            Cheer::TheCrowdGoesAbsolutelyBonkers => String::from_str("The crowd goes absolutely bonkers"),
            Cheer::TheCheeringIsRelentless => String::from_str("The cheering is relentless"),
            Cheer::FansPumpTheirFistsInTheAir => String::from_str("Fans pump their fists in the air"),
            Cheer::TheHomeCrowdWontStopCheering => String::from_str("The home crowd won't stop cheering"),
            Cheer::TheCrowdEruptsIntoCheers => String::from_str("The crowd erupts into cheers"),
            Cheer::ARoarBuildsFromTheSeats => String::from_str("A roar builds from the seats"),
            Cheer::EveryoneInTheStandsIsOnTheirFeet => String::from_str("Everyone in the stands is on their feet"),
            Cheer::ItsARoarFromTheRafters => String::from_str("It's a roar from the rafters"),
            Cheer::ChantsRiseFromTheBleachers => String::from_str("Chants rise from the bleachers"),
            Cheer::ACheerRipsThroughThePark => String::from_str("A cheer rips through the park"),
            Cheer::EveryonesClappingInRhythm => String::from_str("Everyone's clapping in rhythm"),
            Cheer::TheCrowdIsPumpedUp => String::from_str("The crowd is pumped up"),
            Cheer::TheStadiumSwellsWithCheers => String::from_str("The stadium swells with cheers"),
            Cheer::YouCanBarelyHearTheAnnouncer => String::from_str("You can barely hear the announcer"),
            Cheer::TheFansAreFiredUp => String::from_str("The fans are fired up"),
            Cheer::TheDecibelsRiseToAFrenzy => String::from_str("The decibels rise to a frenzy"),
            Cheer::TheEnergyInTheParkSurges => String::from_str("The energy in the park surges"),
            Cheer::FansYellThemselvesHoarse => String::from_str("Fans yell themselves hoarse"),
            Cheer::AMightyCheerErupts => String::from_str("A mighty cheer erupts"),
            Cheer::TheStandsAreElectric => String::from_str("The stands are electric"),
            Cheer::FansJumpAndShout => String::from_str("Fans jump and shout"),
            Cheer::TheCheersEchoOffTheWalls => String::from_str("The cheers echo off the walls"),
            Cheer::YouCanFeelTheStandsVibrating => String::from_str("You can feel the stands vibrating"),
            Cheer::NoiseLevelsSpike => String::from_str("Noise levels spike"),
            Cheer::EveryoneIsCheeringAtOnce => String::from_str("Everyone is cheering at once"),
            Cheer::AHugeCheerErupts => String::from_str("A huge cheer erupts"),
            Cheer::TheNoiseJustKeepsBuilding => String::from_str("The noise just keeps building"),
            Cheer::TheFaithfulAreShoutingAtTheTopOfTheirLungs => String::from_str("The faithful are shouting at the top of their lungs"),
            Cheer::TheyCheerLikeTheresNoTomorrow => String::from_str("They cheer like there's no tomorrow"),
            Cheer::YouCanFeelTheHypeBuilding => String::from_str("You can feel the hype building"),
            Cheer::TheExcitementIsOffTheCharts => String::from_str("The excitement is off the charts"),
            Cheer::ExcitementSurgesThroughThePark => String::from_str("Excitement surges through the park"),
            Cheer::EveryFanIsMakingNoise => String::from_str("Every fan is making noise"),
            Cheer::TheSupportersFuelTheirTeam => String::from_str("The supporters fuel their team"),
            Cheer::TheParkVibratesWithNoise => String::from_str("The park vibrates with noise"),
            Cheer::TheStandsAreShaking => String::from_str("The stands are shaking"),
            Cheer::TheFansBellowEncouragement => String::from_str("The fans bellow encouragement"),
            Cheer::TheStadiumShakesWithExcitement => String::from_str("The stadium shakes with excitement"),
            Cheer::SupportersWaveTheirBannersHigh => String::from_str("Supporters wave their banners high"),
            Cheer::TheFaithfulRiseAsOne => String::from_str("The faithful rise as one"),
            Cheer::CheersCascadeFromEverySection => String::from_str("Cheers cascade from every section"),
            Cheer::TheCrowdBeltsOutTheTeamsChant => String::from_str("The crowd belts out the team's chant"),
            Cheer::TheFansScreamForTheirHeroes => String::from_str("The fans scream for their heroes"),
            Cheer::TheCrowdIsEcstatic => String::from_str("The crowd is ecstatic"),
            Cheer::TheCrowdIsPumped => String::from_str("The crowd is pumped"),
            Cheer::Unknown(s) => s.clone(),
        }
    }

    /// The known value written as `s`, if any.
    pub open spec fn spec_parse(s: Seq<char>) -> Option<Cheer> {
        if s.len() == 32 {
            if s == "A tremendous cheer fills the air"@ { Some(Cheer::ATremendousCheerFillsTheAir) }
            else if s == "Supporters pound on the railings"@ { Some(Cheer::SupportersPoundOnTheRailings) }
            else if s == "Fans pump their fists in the air"@ { Some(Cheer::FansPumpTheirFistsInTheAir) }
            else if s == "The excitement is off the charts"@ { Some(Cheer::TheExcitementIsOffTheCharts) }
            else if s == "The fans scream for their heroes"@ { Some(Cheer::TheFansScreamForTheirHeroes) }
            else { None }
        }
        else if s.len() == 42 {
            if s == "A thunderous cheer echoes across the field"@ { Some(Cheer::AThunderousCheerEchoesAcrossTheField) }
            else { None }
        }
        else if s.len() == 33 {
            if s == "Chants thunder around the stadium"@ { Some(Cheer::ChantsThunderAroundTheStadium) }
            else if s == "The hometown section is deafening"@ { Some(Cheer::TheHomeTownSectionIsDeafening) }
            else if s == "Home supporters whistle and cheer"@ { Some(Cheer::HomeSupportersWhistleAndCheer) }
            else if s == "The crowd rallies behind the team"@ { Some(Cheer::TheCrowdRalliesBehindTheTeam) }
            else if s == "The crowd goes absolutely bonkers"@ { Some(Cheer::TheCrowdGoesAbsolutelyBonkers) }
            else if s == "You can barely hear the announcer"@ { Some(Cheer::YouCanBarelyHearTheAnnouncer) }
            else if s == "You can feel the stands vibrating"@ { Some(Cheer::YouCanFeelTheStandsVibrating) }
            else if s == "Cheers cascade from every section"@ { Some(Cheer::CheersCascadeFromEverySection) }
            else { None }
        }
        else if s.len() == 23 {
            if s == "Everyone cheers at once"@ { Some(Cheer::EveryoneCheersAtOnce) }
            else if s == "The stands are rumbling"@ { Some(Cheer::TheStandsAreRumbling) }
            else if s == "The stands are electric"@ { Some(Cheer::TheStandsAreElectric) }
            else { None }
        }
        else if s.len() == 36 {
            if s == "Everyone is chanting the team's name"@ { Some(Cheer::EveryoneIsChantingTheTeamsName) }
            else if s == "The cheers drown out everything else"@ { Some(Cheer::TheCheersDrownOutEverythingElse) }
            else if s == "Home fans stomp their feet in unison"@ { Some(Cheer::HomeFansStompTheirFeetInUnison) }
            else if s == "The crowd lets out a collective howl"@ { Some(Cheer::TheCrowdLetsOutACollectiveHowl) }
            else if s == "The hometown fans roar their support"@ { Some(Cheer::TheHometownFansRoarTheirSupport) }
            else if s == "The crowd belts out the team's chant"@ { Some(Cheer::TheCrowdBeltsOutTheTeamsChant) }
            else { None }
        }
        else if s.len() == 31 {
            if s == "Cheers roll through the stadium"@ { Some(Cheer::CheersRollThroughTheStadium) }
            else if s == "Excitement pours from the crowd"@ { Some(Cheer::ExcitementPoursFromTheCrowd) }
            else if s == "The ballpark erupts in applause"@ { Some(Cheer::TheBallparkEruptsInApplause) }
            else if s == "Noise rains down from the seats"@ { Some(Cheer::NoiseRainsDownFromTheSeats) }
            else if s == "A chant grows louder and louder"@ { Some(Cheer::AChantGrowsLouderAndLouder) }
            else if s == "The fans thunder their approval"@ { Some(Cheer::TheFansThunderTheirApproval) }
            else { None }
        }
        else if s.len() == 38 {
            if s == "Hands clap and whistles pierce the air"@ { Some(Cheer::HandsClapAndWhistlesPierceTheAir) }
            else { None }
        }
        else if s.len() == 25 {
            if s == "No one is sitting anymore"@ { Some(Cheer::NoOneIsSittingAnymore) }
            else if s == "The bleachers are booming"@ { Some(Cheer::TheBleachersAreBooming) }
            else if s == "The noise is overwhelming"@ { Some(Cheer::TheNoiseIsOverwhelming) }
            else if s == "Every fan is making noise"@ { Some(Cheer::EveryFanIsMakingNoise) }
            else { None }
        }
        else if s.len() == 35 {
            if s == "The hometown supporters give a roar"@ { Some(Cheer::TheHometownSupportersGiveARoar) }
            else if s == "The home fans make themselves heard"@ { Some(Cheer::TheHomeFansMakeThemselvesHeard) }
            else if s == "A wave of cheers sweeps the stadium"@ { Some(Cheer::AWaveOfCheersSweepsTheStadium) }
            else if s == "They cheer like there's no tomorrow"@ { Some(Cheer::TheyCheerLikeTheresNoTomorrow) }
            else { None }
        }
        else if s.len() == 28 {
            if s == "The home faithful go berserk"@ { Some(Cheer::TheHomeFaithfulGoBerserk) }
            else if s == "The ballpark is in an uproar"@ { Some(Cheer::TheBallparkIsInAnUproar) }
            else if s == "The crowd erupts into cheers"@ { Some(Cheer::TheCrowdEruptsIntoCheers) }
            else if s == "A roar builds from the seats"@ { Some(Cheer::ARoarBuildsFromTheSeats) }
            else if s == "It's a roar from the rafters"@ { Some(Cheer::ItsARoarFromTheRafters) }
            else if s == "Everyone is cheering at once"@ { Some(Cheer::EveryoneIsCheeringAtOnce) }
            else if s == "The park vibrates with noise"@ { Some(Cheer::TheParkVibratesWithNoise) }
            else { None }
        }
        else if s.len() == 27 {
            if s == "Fans are losing their minds"@ { Some(Cheer::TheFansAreLosingTheirMinds) }
            else if s == "The stands explode in noise"@ { Some(Cheer::TheStandsExplodeInNoise) }
            else if s == "Fans wave their arms wildly"@ { Some(Cheer::FansWaveTheirArmsWildly) }
            else if s == "The stands shake with noise"@ { Some(Cheer::TheStandsShakeWithNoise) }
            else if s == "Fans yell themselves hoarse"@ { Some(Cheer::FansYellThemselvesHoarse) }
            else { None }
        }
        else if s.len() == 20 {
            if s == "It's a wall of sound"@ { Some(Cheer::ItsAWallOfSound) }
            else if s == "Fans roar in support"@ { Some(Cheer::FansRoarInSupport) }
            else if s == "The place is rocking"@ { Some(Cheer::ThePlaceIsRocking) }
            else { None }
        }
        else if s.len() == 30 {
            if s == "The entire ballpark is rocking"@ { Some(Cheer::TheEntireBallparkIsRocking) }
            else if s == "The energy in here is palpable"@ { Some(Cheer::TheEnergyInHereIsPalpable) }
            else if s == "It's pandemonium in the stands"@ { Some(Cheer::ItsPandemoniumInTheStands) }
            else if s == "Supporters yell at full volume"@ { Some(Cheer::SupportersYellAtFullVolume) }
            else if s == "Chants rise from the bleachers"@ { Some(Cheer::ChantsRiseFromTheBleachers) }
            else if s == "The stadium swells with cheers"@ { Some(Cheer::TheStadiumSwellsWithCheers) }
            else if s == "You can feel the hype building"@ { Some(Cheer::YouCanFeelTheHypeBuilding) }
            else if s == "The supporters fuel their team"@ { Some(Cheer::TheSupportersFuelTheirTeam) }
            else { None }
        }
        else if s.len() == 24 {
            if s == "The ballpark comes alive"@ { Some(Cheer::TheBallparkComesAlive) }
            else if s == "Fans shout encouragement"@ { Some(Cheer::FansShoutEncouragement) }
            else if s == "The faithful rise as one"@ { Some(Cheer::TheFaithfulRiseAsOne) }
            else { None }
        }
        else if s.len() == 44 {
            if s == "The home supporters can't contain themselves"@ { Some(Cheer::TheHomeSupportersCantContainThemselves) }
            else { None }
        }
        else if s.len() == 48 {
            if s == "A rumble of excitement rolls through the stadium"@ { Some(Cheer::ARumbleOfExcitementRollsThroughTheStadium) }
            else { None }
        }
        else if s.len() == 19 {
            if s == "Banners wave wildly"@ { Some(Cheer::BannersWaveWildly) }
            else if s == "Fans jump and shout"@ { Some(Cheer::FansJumpAndShout) }
            else if s == "A huge cheer erupts"@ { Some(Cheer::AHugeCheerErupts) }
            else if s == "The crowd is pumped"@ { Some(Cheer::TheCrowdIsPumped) }
            else { None }
        }
        else if s.len() == 26 {
            if s == "The noise level skyrockets"@ { Some(Cheer::TheNoiseLevelSkyrockets) }
            else if s == "The home crowd is fired up"@ { Some(Cheer::TheHomeCrowdIsFiredUp) }
            else if s == "The cheering is relentless"@ { Some(Cheer::TheCheeringIsRelentless) }
            else { None }
        }
        else if s.len() == 29 {
            if s == "Fans slap the walls in rhythm"@ { Some(Cheer::FansSlapTheWallsInRhythm) }
            else if s == "Energy pulses from the stands"@ { Some(Cheer::EnergyPulsesFromTheStands) }
            else if s == "The stadium swell with cheers"@ { Some(Cheer::TheStadiumSwellWithCheers) }
            else if s == "A cheer rips through the park"@ { Some(Cheer::ACheerRipsThroughThePark) }
            else if s == "Everyone's clapping in rhythm"@ { Some(Cheer::EveryonesClappingInRhythm) }
            else if s == "The decibels rise to a frenzy"@ { Some(Cheer::TheDecibelsRiseToAFrenzy) }
            else if s == "The energy in the park surges"@ { Some(Cheer::TheEnergyInTheParkSurges) }
            else if s == "The cheers echo off the walls"@ { Some(Cheer::TheCheersEchoOffTheWalls) }
            else if s == "The noise just keeps building"@ { Some(Cheer::TheNoiseJustKeepsBuilding) }
            else if s == "The fans bellow encouragement"@ { Some(Cheer::TheFansBellowEncouragement) }
            else { None }
        }
        else if s.len() == 18 {
            if s == "The stadium erupts"@ { Some(Cheer::TheStadiumErupts) }
            else if s == "Noise levels spike"@ { Some(Cheer::NoiseLevelsSpike) }
            else { None }
        }
        else if s.len() == 22 {
            if s == "The stadium is buzzing"@ { Some(Cheer::TheStadiumIsBuzzing) }
            else if s == "The hometown fans roar"@ { Some(Cheer::TheHometownFansRoar) }
            else if s == "The crowd is pumped up"@ { Some(Cheer::TheCrowdIsPumpedUp) }
            else if s == "The stands are shaking"@ { Some(Cheer::TheStandsAreShaking) }
            else { None }
        }
        else if s.len() == 37 {
            if s == "The hometown faithful are loving this"@ { Some(Cheer::TheHometownFaithfulAreLovingThis) }
            else { None }
        }
        else if s.len() == 21 {
            if s == "Fans whoop and holler"@ { Some(Cheer::FansWhoopAndHoller) }
            else if s == "It's pure pandemonium"@ { Some(Cheer::ItsPurePandemonium) }
            else if s == "The fans are fired up"@ { Some(Cheer::TheFansAreFiredUp) }
            else if s == "A mighty cheer erupts"@ { Some(Cheer::AMightyCheerErupts) }
            else if s == "The crowd is ecstatic"@ { Some(Cheer::TheCrowdIsEcstatic) }
            else { None }
        }
        else if s.len() == 34 {
            if s == "The home crowd won't stop cheering"@ { Some(Cheer::TheHomeCrowdWontStopCheering) }
            else if s == "Excitement surges through the park"@ { Some(Cheer::ExcitementSurgesThroughThePark) }
            else if s == "The stadium shakes with excitement"@ { Some(Cheer::TheStadiumShakesWithExcitement) }
            else if s == "Supporters wave their banners high"@ { Some(Cheer::SupportersWaveTheirBannersHigh) }
            else { None }
        }
        else if s.len() == 39 {
            if s == "Everyone in the stands is on their feet"@ { Some(Cheer::EveryoneInTheStandsIsOnTheirFeet) }
            else { None }
        }
        else if s.len() == 51 {
            if s == "The faithful are shouting at the top of their lungs"@ { Some(Cheer::TheFaithfulAreShoutingAtTheTopOfTheirLungs) }
            else { None }
        }
        else { None }
    }

    /// A known value is read only from its own written form.
    #[verifier::rlimit(60)]
    pub proof fn lemma_parse_exact(s: Seq<char>)
        ensures
            Cheer::spec_parse(s) matches Some(x) ==> x.spec_name() == s,
    {
    }

    /// Reads a value from its written form; text that names no known value is kept as it is.
    pub fn new(s: &str) -> (r: Cheer)
        ensures
            match Cheer::spec_parse(s@) {
                Some(x) => r == x,
                None => r.spec_name() == s@ && r is Unknown,
            },
            r.spec_name() == s@,
    {
        proof {
            Cheer::lemma_parse_exact(s@);
        }
        if str_eq(s, "A tremendous cheer fills the air") {
            proof { reveal_strlit("A tremendous cheer fills the air"); }
            return Cheer::ATremendousCheerFillsTheAir;
        }
        if str_eq(s, "A thunderous cheer echoes across the field") {
            proof { reveal_strlit("A thunderous cheer echoes across the field"); }
            return Cheer::AThunderousCheerEchoesAcrossTheField;
        }
        if str_eq(s, "Chants thunder around the stadium") {
            proof { reveal_strlit("Chants thunder around the stadium"); }
            return Cheer::ChantsThunderAroundTheStadium;
        }
        if str_eq(s, "Everyone cheers at once") {
            proof { reveal_strlit("Everyone cheers at once"); }
            return Cheer::EveryoneCheersAtOnce;
        }
        if str_eq(s, "Everyone is chanting the team's name") {
            proof { reveal_strlit("Everyone is chanting the team's name"); }
            return Cheer::EveryoneIsChantingTheTeamsName;
        }
        if str_eq(s, "The cheers drown out everything else") {
            proof { reveal_strlit("The cheers drown out everything else"); }
            return Cheer::TheCheersDrownOutEverythingElse;
        }
        if str_eq(s, "Cheers roll through the stadium") {
            proof { reveal_strlit("Cheers roll through the stadium"); }
            return Cheer::CheersRollThroughTheStadium;
        }
        if str_eq(s, "Supporters pound on the railings") {
            proof { reveal_strlit("Supporters pound on the railings"); }
            return Cheer::SupportersPoundOnTheRailings;
        }
        if str_eq(s, "Hands clap and whistles pierce the air") {
            proof { reveal_strlit("Hands clap and whistles pierce the air"); }
            return Cheer::HandsClapAndWhistlesPierceTheAir;
        }
        if str_eq(s, "Home fans stomp their feet in unison") {
            proof { reveal_strlit("Home fans stomp their feet in unison"); }
            return Cheer::HomeFansStompTheirFeetInUnison;
        }
        if str_eq(s, "No one is sitting anymore") {
            proof { reveal_strlit("No one is sitting anymore"); }
            return Cheer::NoOneIsSittingAnymore;
        }
        if str_eq(s, "The hometown supporters give a roar") {
            proof { reveal_strlit("The hometown supporters give a roar"); }
            return Cheer::TheHometownSupportersGiveARoar;
        }
        if str_eq(s, "The hometown section is deafening") {
            proof { reveal_strlit("The hometown section is deafening"); }
            return Cheer::TheHomeTownSectionIsDeafening;
        }
        if str_eq(s, "The home faithful go berserk") {
            proof { reveal_strlit("The home faithful go berserk"); }
            return Cheer::TheHomeFaithfulGoBerserk;
        }
        if str_eq(s, "Fans are losing their minds") {
            proof { reveal_strlit("Fans are losing their minds"); }
            return Cheer::TheFansAreLosingTheirMinds;
        }
        if str_eq(s, "The stands explode in noise") {
            proof { reveal_strlit("The stands explode in noise"); }
            return Cheer::TheStandsExplodeInNoise;
        }
        if str_eq(s, "It's a wall of sound") {
            proof { reveal_strlit("It's a wall of sound"); }
            return Cheer::ItsAWallOfSound;
        }
        if str_eq(s, "The entire ballpark is rocking") {
            proof { reveal_strlit("The entire ballpark is rocking"); }
            return Cheer::TheEntireBallparkIsRocking;
        }
        if str_eq(s, "The ballpark comes alive") {
            proof { reveal_strlit("The ballpark comes alive"); }
            return Cheer::TheBallparkComesAlive;
        }
        if str_eq(s, "Excitement pours from the crowd") {
            proof { reveal_strlit("Excitement pours from the crowd"); }
            return Cheer::ExcitementPoursFromTheCrowd;
        }
        if str_eq(s, "The home supporters can't contain themselves") {
            proof { reveal_strlit("The home supporters can't contain themselves"); }
            return Cheer::TheHomeSupportersCantContainThemselves;
        }
        if str_eq(s, "The crowd lets out a collective howl") {
            proof { reveal_strlit("The crowd lets out a collective howl"); }
            return Cheer::TheCrowdLetsOutACollectiveHowl;
        }
        if str_eq(s, "A rumble of excitement rolls through the stadium") {
            proof { reveal_strlit("A rumble of excitement rolls through the stadium"); }
            return Cheer::ARumbleOfExcitementRollsThroughTheStadium;
        }
        if str_eq(s, "Banners wave wildly") {
            proof { reveal_strlit("Banners wave wildly"); }
            return Cheer::BannersWaveWildly;
        }
        if str_eq(s, "The noise level skyrockets") {
            proof { reveal_strlit("The noise level skyrockets"); }
            return Cheer::TheNoiseLevelSkyrockets;
        }
        if str_eq(s, "The energy in here is palpable") {
            proof { reveal_strlit("The energy in here is palpable"); }
            return Cheer::TheEnergyInHereIsPalpable;
        }
        if str_eq(s, "The ballpark erupts in applause") {
            proof { reveal_strlit("The ballpark erupts in applause"); }
            return Cheer::TheBallparkEruptsInApplause;
        }
        if str_eq(s, "The bleachers are booming") {
            proof { reveal_strlit("The bleachers are booming"); }
            return Cheer::TheBleachersAreBooming;
        }
        if str_eq(s, "Fans slap the walls in rhythm") {
            proof { reveal_strlit("Fans slap the walls in rhythm"); }
            return Cheer::FansSlapTheWallsInRhythm;
        }
        if str_eq(s, "The hometown fans roar their support") {
            proof { reveal_strlit("The hometown fans roar their support"); }
            return Cheer::TheHometownFansRoarTheirSupport;
        }
        if str_eq(s, "Noise rains down from the seats") {
            proof { reveal_strlit("Noise rains down from the seats"); }
            return Cheer::NoiseRainsDownFromTheSeats;
        }
        if str_eq(s, "Fans wave their arms wildly") {
            proof { reveal_strlit("Fans wave their arms wildly"); }
            return Cheer::FansWaveTheirArmsWildly;
        }
        if str_eq(s, "Energy pulses from the stands") {
            proof { reveal_strlit("Energy pulses from the stands"); }
            return Cheer::EnergyPulsesFromTheStands;
        }
        if str_eq(s, "The stands shake with noise") {
            proof { reveal_strlit("The stands shake with noise"); }
            return Cheer::TheStandsShakeWithNoise;
        }
        if str_eq(s, "The ballpark is in an uproar") {
            proof { reveal_strlit("The ballpark is in an uproar"); }
            return Cheer::TheBallparkIsInAnUproar;
        }
        if str_eq(s, "The stadium swell with cheers") {
            proof { reveal_strlit("The stadium swell with cheers"); }
            return Cheer::TheStadiumSwellWithCheers;
        }
        if str_eq(s, "The stadium erupts") {
            proof { reveal_strlit("The stadium erupts"); }
            return Cheer::TheStadiumErupts;
        }
        if str_eq(s, "Fans roar in support") {
            proof { reveal_strlit("Fans roar in support"); }
            return Cheer::FansRoarInSupport;
        }
        if str_eq(s, "A chant grows louder and louder") {
            proof { reveal_strlit("A chant grows louder and louder"); }
            return Cheer::AChantGrowsLouderAndLouder;
        }
        if str_eq(s, "Fans shout encouragement") {
            proof { reveal_strlit("Fans shout encouragement"); }
            return Cheer::FansShoutEncouragement;
        }
        if str_eq(s, "The stadium is buzzing") {
            proof { reveal_strlit("The stadium is buzzing"); }
            return Cheer::TheStadiumIsBuzzing;
        }
        if str_eq(s, "The hometown faithful are loving this") {
            proof { reveal_strlit("The hometown faithful are loving this"); }
            return Cheer::TheHometownFaithfulAreLovingThis;
        }
        if str_eq(s, "Fans whoop and holler") {
            proof { reveal_strlit("Fans whoop and holler"); }
            return Cheer::FansWhoopAndHoller;
        }
        if str_eq(s, "The home crowd is fired up") {
            proof { reveal_strlit("The home crowd is fired up"); }
            return Cheer::TheHomeCrowdIsFiredUp;
        }
        if str_eq(s, "It's pandemonium in the stands") {
            proof { reveal_strlit("It's pandemonium in the stands"); }
            return Cheer::ItsPandemoniumInTheStands;
        }
        if str_eq(s, "The noise is overwhelming") {
            proof { reveal_strlit("The noise is overwhelming"); }
            return Cheer::TheNoiseIsOverwhelming;
        }
        if str_eq(s, "Home supporters whistle and cheer") {
            proof { reveal_strlit("Home supporters whistle and cheer"); }
            return Cheer::HomeSupportersWhistleAndCheer;
        }
        if str_eq(s, "The home fans make themselves heard") {
            proof { reveal_strlit("The home fans make themselves heard"); }
            return Cheer::TheHomeFansMakeThemselvesHeard;
        }
        if str_eq(s, "The crowd rallies behind the team") {
            proof { reveal_strlit("The crowd rallies behind the team"); }
            return Cheer::TheCrowdRalliesBehindTheTeam;
        }
        if str_eq(s, "The stands are rumbling") {
            proof { reveal_strlit("The stands are rumbling"); }
            return Cheer::TheStandsAreRumbling;
        }
        if str_eq(s, "It's pure pandemonium") {
            proof { reveal_strlit("It's pure pandemonium"); }
            return Cheer::ItsPurePandemonium;
        }
        if str_eq(s, "The place is rocking") {
            proof { reveal_strlit("The place is rocking"); }
            return Cheer::ThePlaceIsRocking;
        }
        if str_eq(s, "A wave of cheers sweeps the stadium") {
            proof { reveal_strlit("A wave of cheers sweeps the stadium"); }
            return Cheer::AWaveOfCheersSweepsTheStadium;
        }
        if str_eq(s, "The hometown fans roar") {
            proof { reveal_strlit("The hometown fans roar"); }
            return Cheer::TheHometownFansRoar;
        }
        if str_eq(s, "The fans thunder their approval") {
            proof { reveal_strlit("The fans thunder their approval"); }
            return Cheer::TheFansThunderTheirApproval;
        }
        if str_eq(s, "Supporters yell at full volume") {
            proof { reveal_strlit("Supporters yell at full volume"); }
            return Cheer::SupportersYellAtFullVolume;
        }
        if str_eq(s, "The crowd goes absolutely bonkers") {
            proof { reveal_strlit("The crowd goes absolutely bonkers"); }
            return Cheer::TheCrowdGoesAbsolutelyBonkers;
        }
        if str_eq(s, "The cheering is relentless") {
            proof { reveal_strlit("The cheering is relentless"); }
            return Cheer::TheCheeringIsRelentless;
        }
        if str_eq(s, "Fans pump their fists in the air") {
            proof { reveal_strlit("Fans pump their fists in the air"); }
            return Cheer::FansPumpTheirFistsInTheAir;
        }
        if str_eq(s, "The home crowd won't stop cheering") {
            proof { reveal_strlit("The home crowd won't stop cheering"); }
            return Cheer::TheHomeCrowdWontStopCheering;
        }
        if str_eq(s, "The crowd erupts into cheers") {
            proof { reveal_strlit("The crowd erupts into cheers"); }
            return Cheer::TheCrowdEruptsIntoCheers;
        }
        if str_eq(s, "A roar builds from the seats") {
            proof { reveal_strlit("A roar builds from the seats"); }
            return Cheer::ARoarBuildsFromTheSeats;
        }
        if str_eq(s, "Everyone in the stands is on their feet") {
            proof { reveal_strlit("Everyone in the stands is on their feet"); }
            return Cheer::EveryoneInTheStandsIsOnTheirFeet;
        }
        if str_eq(s, "It's a roar from the rafters") {
            proof { reveal_strlit("It's a roar from the rafters"); }
            return Cheer::ItsARoarFromTheRafters;
        }
        if str_eq(s, "Chants rise from the bleachers") {
            proof { reveal_strlit("Chants rise from the bleachers"); }
            return Cheer::ChantsRiseFromTheBleachers;
        }
        if str_eq(s, "A cheer rips through the park") {
            proof { reveal_strlit("A cheer rips through the park"); }
            return Cheer::ACheerRipsThroughThePark;
        }
        if str_eq(s, "Everyone's clapping in rhythm") {
            proof { reveal_strlit("Everyone's clapping in rhythm"); }
            return Cheer::EveryonesClappingInRhythm;
        }
        if str_eq(s, "The crowd is pumped up") {
            proof { reveal_strlit("The crowd is pumped up"); }
            return Cheer::TheCrowdIsPumpedUp;
        }
        if str_eq(s, "The stadium swells with cheers") {
            proof { reveal_strlit("The stadium swells with cheers"); }
            return Cheer::TheStadiumSwellsWithCheers;
        }
        if str_eq(s, "You can barely hear the announcer") {
            proof { reveal_strlit("You can barely hear the announcer"); }
            return Cheer::YouCanBarelyHearTheAnnouncer;
        }
        if str_eq(s, "The fans are fired up") {
            proof { reveal_strlit("The fans are fired up"); }
            return Cheer::TheFansAreFiredUp;
        }
        if str_eq(s, "The decibels rise to a frenzy") {
            proof { reveal_strlit("The decibels rise to a frenzy"); }
            return Cheer::TheDecibelsRiseToAFrenzy;
        }
        if str_eq(s, "The energy in the park surges") {
            proof { reveal_strlit("The energy in the park surges"); }
            return Cheer::TheEnergyInTheParkSurges;
        }
        if str_eq(s, "Fans yell themselves hoarse") {
            proof { reveal_strlit("Fans yell themselves hoarse"); }
            return Cheer::FansYellThemselvesHoarse;
        }
        if str_eq(s, "A mighty cheer erupts") {
            proof { reveal_strlit("A mighty cheer erupts"); }
            return Cheer::AMightyCheerErupts;
        }
        if str_eq(s, "The stands are electric") {
            proof { reveal_strlit("The stands are electric"); }
            return Cheer::TheStandsAreElectric;
        }
        if str_eq(s, "Fans jump and shout") {
            proof { reveal_strlit("Fans jump and shout"); }
            return Cheer::FansJumpAndShout;
        }
        if str_eq(s, "The cheers echo off the walls") {
            proof { reveal_strlit("The cheers echo off the walls"); }
            return Cheer::TheCheersEchoOffTheWalls;
        }
        if str_eq(s, "You can feel the stands vibrating") {
            proof { reveal_strlit("You can feel the stands vibrating"); }
            return Cheer::YouCanFeelTheStandsVibrating;
        }
        if str_eq(s, "Noise levels spike") {
            proof { reveal_strlit("Noise levels spike"); }
            return Cheer::NoiseLevelsSpike;
        }
        if str_eq(s, "Everyone is cheering at once") {
            proof { reveal_strlit("Everyone is cheering at once"); }
            return Cheer::EveryoneIsCheeringAtOnce;
        }
        if str_eq(s, "A huge cheer erupts") {
            proof { reveal_strlit("A huge cheer erupts"); }
            return Cheer::AHugeCheerErupts;
        }
        if str_eq(s, "The noise just keeps building") {
            proof { reveal_strlit("The noise just keeps building"); }
            return Cheer::TheNoiseJustKeepsBuilding;
        }
        if str_eq(s, "The faithful are shouting at the top of their lungs") {
            proof { reveal_strlit("The faithful are shouting at the top of their lungs"); }
            return Cheer::TheFaithfulAreShoutingAtTheTopOfTheirLungs;
        }
        if str_eq(s, "They cheer like there's no tomorrow") {
            proof { reveal_strlit("They cheer like there's no tomorrow"); }
            return Cheer::TheyCheerLikeTheresNoTomorrow;
        }
        if str_eq(s, "You can feel the hype building") {
            proof { reveal_strlit("You can feel the hype building"); }
            return Cheer::YouCanFeelTheHypeBuilding;
        }
        if str_eq(s, "The excitement is off the charts") {
            proof { reveal_strlit("The excitement is off the charts"); }
            return Cheer::TheExcitementIsOffTheCharts;
        }
        if str_eq(s, "Excitement surges through the park") {
            proof { reveal_strlit("Excitement surges through the park"); }
            return Cheer::ExcitementSurgesThroughThePark;
        }
        if str_eq(s, "Every fan is making noise") {
            proof { reveal_strlit("Every fan is making noise"); }
            return Cheer::EveryFanIsMakingNoise;
        }
        if str_eq(s, "The supporters fuel their team") {
            proof { reveal_strlit("The supporters fuel their team"); }
            return Cheer::TheSupportersFuelTheirTeam;
        }
        if str_eq(s, "The park vibrates with noise") {
            proof { reveal_strlit("The park vibrates with noise"); }
            return Cheer::TheParkVibratesWithNoise;
        }
        if str_eq(s, "The stands are shaking") {
            proof { reveal_strlit("The stands are shaking"); }
            return Cheer::TheStandsAreShaking;
        }
        if str_eq(s, "The fans bellow encouragement") {
            proof { reveal_strlit("The fans bellow encouragement"); }
            return Cheer::TheFansBellowEncouragement;
        }
        if str_eq(s, "The stadium shakes with excitement") {
            proof { reveal_strlit("The stadium shakes with excitement"); }
            return Cheer::TheStadiumShakesWithExcitement;
        }
        if str_eq(s, "Supporters wave their banners high") {
            proof { reveal_strlit("Supporters wave their banners high"); }
            return Cheer::SupportersWaveTheirBannersHigh;
        }
        if str_eq(s, "The faithful rise as one") {
            proof { reveal_strlit("The faithful rise as one"); }
            return Cheer::TheFaithfulRiseAsOne;
        }
        if str_eq(s, "Cheers cascade from every section") {
            proof { reveal_strlit("Cheers cascade from every section"); }
            return Cheer::CheersCascadeFromEverySection;
        }
        if str_eq(s, "The crowd belts out the team's chant") {
            proof { reveal_strlit("The crowd belts out the team's chant"); }
            return Cheer::TheCrowdBeltsOutTheTeamsChant;
        }
        if str_eq(s, "The fans scream for their heroes") {
            proof { reveal_strlit("The fans scream for their heroes"); }
            return Cheer::TheFansScreamForTheirHeroes;
        }
        if str_eq(s, "The crowd is ecstatic") {
            proof { reveal_strlit("The crowd is ecstatic"); }
            return Cheer::TheCrowdIsEcstatic;
        }
        if str_eq(s, "The crowd is pumped") {
            proof { reveal_strlit("The crowd is pumped"); }
            return Cheer::TheCrowdIsPumped;
        }
        Cheer::Unknown(String::from_str(s))
    }

    /// Reading the written form of a known value gives that value back.
    pub proof fn lemma_parse_name(self)
        requires
            !(self is Unknown),
        ensures
            Cheer::spec_parse(self.spec_name()) == Some(self),
    {
        match self {
            Cheer::ATremendousCheerFillsTheAir => {
                reveal_strlit("A tremendous cheer fills the air");
            }
            Cheer::AThunderousCheerEchoesAcrossTheField => {
                reveal_strlit("A thunderous cheer echoes across the field");
            }
            Cheer::ChantsThunderAroundTheStadium => {
                reveal_strlit("Chants thunder around the stadium");
            }
            Cheer::EveryoneCheersAtOnce => {
                reveal_strlit("Everyone cheers at once");
            }
            Cheer::EveryoneIsChantingTheTeamsName => {
                reveal_strlit("Everyone is chanting the team's name");
            }
            Cheer::TheCheersDrownOutEverythingElse => {
                reveal_strlit("The cheers drown out everything else");
                reveal_strlit("Everyone is chanting the team's name"); assert("The cheers drown out everything else"@[0] != "Everyone is chanting the team's name"@[0]);
            }
            Cheer::CheersRollThroughTheStadium => {
                reveal_strlit("Cheers roll through the stadium");
            }
            Cheer::SupportersPoundOnTheRailings => {
                reveal_strlit("Supporters pound on the railings");
                reveal_strlit("A tremendous cheer fills the air"); assert("Supporters pound on the railings"@[0] != "A tremendous cheer fills the air"@[0]);
            }
            Cheer::HandsClapAndWhistlesPierceTheAir => {
                reveal_strlit("Hands clap and whistles pierce the air");
            }
            Cheer::HomeFansStompTheirFeetInUnison => {
                reveal_strlit("Home fans stomp their feet in unison");
                reveal_strlit("Everyone is chanting the team's name"); assert("Home fans stomp their feet in unison"@[0] != "Everyone is chanting the team's name"@[0]);
                reveal_strlit("The cheers drown out everything else"); assert("Home fans stomp their feet in unison"@[0] != "The cheers drown out everything else"@[0]);
            }
            Cheer::NoOneIsSittingAnymore => {
                reveal_strlit("No one is sitting anymore");
            }
            Cheer::TheHometownSupportersGiveARoar => {
                reveal_strlit("The hometown supporters give a roar");
            }
            Cheer::TheHomeTownSectionIsDeafening => {
                reveal_strlit("The hometown section is deafening");
                reveal_strlit("Chants thunder around the stadium"); assert("The hometown section is deafening"@[0] != "Chants thunder around the stadium"@[0]);
            }
            Cheer::TheHomeFaithfulGoBerserk => {
                reveal_strlit("The home faithful go berserk");
            }
            Cheer::TheFansAreLosingTheirMinds => {
                reveal_strlit("Fans are losing their minds");
            }
            Cheer::TheStandsExplodeInNoise => {
                reveal_strlit("The stands explode in noise");
                reveal_strlit("Fans are losing their minds"); assert("The stands explode in noise"@[0] != "Fans are losing their minds"@[0]);
            }
            Cheer::ItsAWallOfSound => {
                reveal_strlit("It's a wall of sound");
            }
            Cheer::TheEntireBallparkIsRocking => {
                reveal_strlit("The entire ballpark is rocking");
            }
            Cheer::TheBallparkComesAlive => {
                reveal_strlit("The ballpark comes alive");
            }
            Cheer::ExcitementPoursFromTheCrowd => {
                reveal_strlit("Excitement pours from the crowd");
                reveal_strlit("Cheers roll through the stadium"); assert("Excitement pours from the crowd"@[0] != "Cheers roll through the stadium"@[0]);
            }
            Cheer::TheHomeSupportersCantContainThemselves => {
                reveal_strlit("The home supporters can't contain themselves");
            }
            Cheer::TheCrowdLetsOutACollectiveHowl => {
                reveal_strlit("The crowd lets out a collective howl");
                reveal_strlit("Everyone is chanting the team's name"); assert("The crowd lets out a collective howl"@[0] != "Everyone is chanting the team's name"@[0]);
                reveal_strlit("The cheers drown out everything else"); assert("The crowd lets out a collective howl"@[5] != "The cheers drown out everything else"@[5]);
                reveal_strlit("Home fans stomp their feet in unison"); assert("The crowd lets out a collective howl"@[0] != "Home fans stomp their feet in unison"@[0]);
            }
            Cheer::ARumbleOfExcitementRollsThroughTheStadium => {
                reveal_strlit("A rumble of excitement rolls through the stadium");
            }
            Cheer::BannersWaveWildly => {
                reveal_strlit("Banners wave wildly");
            }
            Cheer::TheNoiseLevelSkyrockets => {
                reveal_strlit("The noise level skyrockets");
            }
            Cheer::TheEnergyInHereIsPalpable => {
                reveal_strlit("The energy in here is palpable");
                reveal_strlit("The entire ballpark is rocking"); assert("The energy in here is palpable"@[6] != "The entire ballpark is rocking"@[6]);
            }
            Cheer::TheBallparkEruptsInApplause => {
                reveal_strlit("The ballpark erupts in applause");
                reveal_strlit("Cheers roll through the stadium"); assert("The ballpark erupts in applause"@[0] != "Cheers roll through the stadium"@[0]);
                reveal_strlit("Excitement pours from the crowd"); assert("The ballpark erupts in applause"@[0] != "Excitement pours from the crowd"@[0]);
            }
            Cheer::TheBleachersAreBooming => {
                reveal_strlit("The bleachers are booming");
                reveal_strlit("No one is sitting anymore"); assert("The bleachers are booming"@[0] != "No one is sitting anymore"@[0]);
            }
            Cheer::FansSlapTheWallsInRhythm => {
                reveal_strlit("Fans slap the walls in rhythm");
            }
            Cheer::TheHometownFansRoarTheirSupport => {
                reveal_strlit("The hometown fans roar their support");
                reveal_strlit("Everyone is chanting the team's name"); assert("The hometown fans roar their support"@[0] != "Everyone is chanting the team's name"@[0]);
                reveal_strlit("The cheers drown out everything else"); assert("The hometown fans roar their support"@[4] != "The cheers drown out everything else"@[4]);
                reveal_strlit("Home fans stomp their feet in unison"); assert("The hometown fans roar their support"@[0] != "Home fans stomp their feet in unison"@[0]);
                reveal_strlit("The crowd lets out a collective howl"); assert("The hometown fans roar their support"@[4] != "The crowd lets out a collective howl"@[4]);
            }
            Cheer::NoiseRainsDownFromTheSeats => {
                reveal_strlit("Noise rains down from the seats");
                reveal_strlit("Cheers roll through the stadium"); assert("Noise rains down from the seats"@[0] != "Cheers roll through the stadium"@[0]);
                reveal_strlit("Excitement pours from the crowd"); assert("Noise rains down from the seats"@[0] != "Excitement pours from the crowd"@[0]);
                reveal_strlit("The ballpark erupts in applause"); assert("Noise rains down from the seats"@[0] != "The ballpark erupts in applause"@[0]);
            }
            Cheer::FansWaveTheirArmsWildly => {
                reveal_strlit("Fans wave their arms wildly");
                reveal_strlit("Fans are losing their minds"); assert("Fans wave their arms wildly"@[5] != "Fans are losing their minds"@[5]);
                reveal_strlit("The stands explode in noise"); assert("Fans wave their arms wildly"@[0] != "The stands explode in noise"@[0]);
            }
            Cheer::EnergyPulsesFromTheStands => {
                reveal_strlit("Energy pulses from the stands");
                reveal_strlit("Fans slap the walls in rhythm"); assert("Energy pulses from the stands"@[0] != "Fans slap the walls in rhythm"@[0]);
            }
            Cheer::TheStandsShakeWithNoise => {
                reveal_strlit("The stands shake with noise");
                reveal_strlit("Fans are losing their minds"); assert("The stands shake with noise"@[0] != "Fans are losing their minds"@[0]);
                reveal_strlit("The stands explode in noise"); assert("The stands shake with noise"@[11] != "The stands explode in noise"@[11]);
                reveal_strlit("Fans wave their arms wildly"); assert("The stands shake with noise"@[0] != "Fans wave their arms wildly"@[0]);
            }
            Cheer::TheBallparkIsInAnUproar => {
                reveal_strlit("The ballpark is in an uproar");
                reveal_strlit("The home faithful go berserk"); assert("The ballpark is in an uproar"@[4] != "The home faithful go berserk"@[4]);
            }
            Cheer::TheStadiumSwellWithCheers => {
                reveal_strlit("The stadium swell with cheers");
                reveal_strlit("Fans slap the walls in rhythm"); assert("The stadium swell with cheers"@[0] != "Fans slap the walls in rhythm"@[0]);
                reveal_strlit("Energy pulses from the stands"); assert("The stadium swell with cheers"@[0] != "Energy pulses from the stands"@[0]);
            }
            Cheer::TheStadiumErupts => {
                reveal_strlit("The stadium erupts");
            }
            Cheer::FansRoarInSupport => {
                reveal_strlit("Fans roar in support");
                reveal_strlit("It's a wall of sound"); assert("Fans roar in support"@[0] != "It's a wall of sound"@[0]);
            }
            Cheer::AChantGrowsLouderAndLouder => {
                reveal_strlit("A chant grows louder and louder");
                reveal_strlit("Cheers roll through the stadium"); assert("A chant grows louder and louder"@[0] != "Cheers roll through the stadium"@[0]);
                reveal_strlit("Excitement pours from the crowd"); assert("A chant grows louder and louder"@[0] != "Excitement pours from the crowd"@[0]);
                reveal_strlit("The ballpark erupts in applause"); assert("A chant grows louder and louder"@[0] != "The ballpark erupts in applause"@[0]);
                reveal_strlit("Noise rains down from the seats"); assert("A chant grows louder and louder"@[0] != "Noise rains down from the seats"@[0]);
            }
            Cheer::FansShoutEncouragement => {
                reveal_strlit("Fans shout encouragement");
                reveal_strlit("The ballpark comes alive"); assert("Fans shout encouragement"@[0] != "The ballpark comes alive"@[0]);
            }
            Cheer::TheStadiumIsBuzzing => {
                reveal_strlit("The stadium is buzzing");
            }
            Cheer::TheHometownFaithfulAreLovingThis => {
                reveal_strlit("The hometown faithful are loving this");
            }
            Cheer::FansWhoopAndHoller => {
                reveal_strlit("Fans whoop and holler");
            }
            Cheer::TheHomeCrowdIsFiredUp => {
                reveal_strlit("The home crowd is fired up");
                reveal_strlit("The noise level skyrockets"); assert("The home crowd is fired up"@[4] != "The noise level skyrockets"@[4]);
            }
            Cheer::ItsPandemoniumInTheStands => {
                reveal_strlit("It's pandemonium in the stands");
                reveal_strlit("The entire ballpark is rocking"); assert("It's pandemonium in the stands"@[0] != "The entire ballpark is rocking"@[0]);
                reveal_strlit("The energy in here is palpable"); assert("It's pandemonium in the stands"@[0] != "The energy in here is palpable"@[0]);
            }
            Cheer::TheNoiseIsOverwhelming => {
                reveal_strlit("The noise is overwhelming");
                reveal_strlit("No one is sitting anymore"); assert("The noise is overwhelming"@[0] != "No one is sitting anymore"@[0]);
                reveal_strlit("The bleachers are booming"); assert("The noise is overwhelming"@[4] != "The bleachers are booming"@[4]);
            }
            Cheer::HomeSupportersWhistleAndCheer => {
                reveal_strlit("Home supporters whistle and cheer");
                reveal_strlit("Chants thunder around the stadium"); assert("Home supporters whistle and cheer"@[0] != "Chants thunder around the stadium"@[0]);
                reveal_strlit("The hometown section is deafening"); assert("Home supporters whistle and cheer"@[0] != "The hometown section is deafening"@[0]);
            }
            Cheer::TheHomeFansMakeThemselvesHeard => {
                reveal_strlit("The home fans make themselves heard");
                reveal_strlit("The hometown supporters give a roar"); assert("The home fans make themselves heard"@[8] != "The hometown supporters give a roar"@[8]);
            }
            Cheer::TheCrowdRalliesBehindTheTeam => {
                reveal_strlit("The crowd rallies behind the team");
                reveal_strlit("Chants thunder around the stadium"); assert("The crowd rallies behind the team"@[0] != "Chants thunder around the stadium"@[0]);
                reveal_strlit("The hometown section is deafening"); assert("The crowd rallies behind the team"@[4] != "The hometown section is deafening"@[4]);
                reveal_strlit("Home supporters whistle and cheer"); assert("The crowd rallies behind the team"@[0] != "Home supporters whistle and cheer"@[0]);
            }
            Cheer::TheStandsAreRumbling => {
                reveal_strlit("The stands are rumbling");
                reveal_strlit("Everyone cheers at once"); assert("The stands are rumbling"@[0] != "Everyone cheers at once"@[0]);
            }
            Cheer::ItsPurePandemonium => {
                reveal_strlit("It's pure pandemonium");
                reveal_strlit("Fans whoop and holler"); assert("It's pure pandemonium"@[0] != "Fans whoop and holler"@[0]);
            }
            Cheer::ThePlaceIsRocking => {
                reveal_strlit("The place is rocking");
                reveal_strlit("It's a wall of sound"); assert("The place is rocking"@[0] != "It's a wall of sound"@[0]);
                reveal_strlit("Fans roar in support"); assert("The place is rocking"@[0] != "Fans roar in support"@[0]);
            }
            Cheer::AWaveOfCheersSweepsTheStadium => {
                reveal_strlit("A wave of cheers sweeps the stadium");
                reveal_strlit("The hometown supporters give a roar"); assert("A wave of cheers sweeps the stadium"@[0] != "The hometown supporters give a roar"@[0]);
                reveal_strlit("The home fans make themselves heard"); assert("A wave of cheers sweeps the stadium"@[0] != "The home fans make themselves heard"@[0]);
            }
            Cheer::TheHometownFansRoar => {
                reveal_strlit("The hometown fans roar");
                reveal_strlit("The stadium is buzzing"); assert("The hometown fans roar"@[4] != "The stadium is buzzing"@[4]);
            }
            Cheer::TheFansThunderTheirApproval => {
                reveal_strlit("The fans thunder their approval");
                reveal_strlit("Cheers roll through the stadium"); assert("The fans thunder their approval"@[0] != "Cheers roll through the stadium"@[0]);
                reveal_strlit("Excitement pours from the crowd"); assert("The fans thunder their approval"@[0] != "Excitement pours from the crowd"@[0]);
                reveal_strlit("The ballpark erupts in applause"); assert("The fans thunder their approval"@[4] != "The ballpark erupts in applause"@[4]);
                reveal_strlit("Noise rains down from the seats"); assert("The fans thunder their approval"@[0] != "Noise rains down from the seats"@[0]);
                reveal_strlit("A chant grows louder and louder"); assert("The fans thunder their approval"@[0] != "A chant grows louder and louder"@[0]);
            }
            Cheer::SupportersYellAtFullVolume => {
                reveal_strlit("Supporters yell at full volume");
                reveal_strlit("The entire ballpark is rocking"); assert("Supporters yell at full volume"@[0] != "The entire ballpark is rocking"@[0]);
                reveal_strlit("The energy in here is palpable"); assert("Supporters yell at full volume"@[0] != "The energy in here is palpable"@[0]);
                reveal_strlit("It's pandemonium in the stands"); assert("Supporters yell at full volume"@[0] != "It's pandemonium in the stands"@[0]);
            }
            Cheer::TheCrowdGoesAbsolutelyBonkers => {
                reveal_strlit("The crowd goes absolutely bonkers");
                reveal_strlit("Chants thunder around the stadium"); assert("The crowd goes absolutely bonkers"@[0] != "Chants thunder around the stadium"@[0]);
                reveal_strlit("The hometown section is deafening"); assert("The crowd goes absolutely bonkers"@[4] != "The hometown section is deafening"@[4]);
                reveal_strlit("Home supporters whistle and cheer"); assert("The crowd goes absolutely bonkers"@[0] != "Home supporters whistle and cheer"@[0]);
                reveal_strlit("The crowd rallies behind the team"); assert("The crowd goes absolutely bonkers"@[10] != "The crowd rallies behind the team"@[10]);
            }
            Cheer::TheCheeringIsRelentless => {
                reveal_strlit("The cheering is relentless");
                reveal_strlit("The noise level skyrockets"); assert("The cheering is relentless"@[4] != "The noise level skyrockets"@[4]);
                reveal_strlit("The home crowd is fired up"); assert("The cheering is relentless"@[4] != "The home crowd is fired up"@[4]);
            }
            Cheer::FansPumpTheirFistsInTheAir => {
                reveal_strlit("Fans pump their fists in the air");
                reveal_strlit("A tremendous cheer fills the air"); assert("Fans pump their fists in the air"@[0] != "A tremendous cheer fills the air"@[0]);
                reveal_strlit("Supporters pound on the railings"); assert("Fans pump their fists in the air"@[0] != "Supporters pound on the railings"@[0]);
            }
            Cheer::TheHomeCrowdWontStopCheering => {
                reveal_strlit("The home crowd won't stop cheering");
            }
            Cheer::TheCrowdEruptsIntoCheers => {
                reveal_strlit("The crowd erupts into cheers");
                reveal_strlit("The home faithful go berserk"); assert("The crowd erupts into cheers"@[4] != "The home faithful go berserk"@[4]);
                reveal_strlit("The ballpark is in an uproar"); assert("The crowd erupts into cheers"@[4] != "The ballpark is in an uproar"@[4]);
            }
            Cheer::ARoarBuildsFromTheSeats => {
                reveal_strlit("A roar builds from the seats");
                reveal_strlit("The home faithful go berserk"); assert("A roar builds from the seats"@[0] != "The home faithful go berserk"@[0]);
                reveal_strlit("The ballpark is in an uproar"); assert("A roar builds from the seats"@[0] != "The ballpark is in an uproar"@[0]);
                reveal_strlit("The crowd erupts into cheers"); assert("A roar builds from the seats"@[0] != "The crowd erupts into cheers"@[0]);
            }
            Cheer::EveryoneInTheStandsIsOnTheirFeet => {
                reveal_strlit("Everyone in the stands is on their feet");
            }
            Cheer::ItsARoarFromTheRafters => {
                reveal_strlit("It's a roar from the rafters");
                reveal_strlit("The home faithful go berserk"); assert("It's a roar from the rafters"@[0] != "The home faithful go berserk"@[0]);
                reveal_strlit("The ballpark is in an uproar"); assert("It's a roar from the rafters"@[0] != "The ballpark is in an uproar"@[0]);
                reveal_strlit("The crowd erupts into cheers"); assert("It's a roar from the rafters"@[0] != "The crowd erupts into cheers"@[0]);
                reveal_strlit("A roar builds from the seats"); assert("It's a roar from the rafters"@[0] != "A roar builds from the seats"@[0]);
            }
            Cheer::ChantsRiseFromTheBleachers => {
                reveal_strlit("Chants rise from the bleachers");
                reveal_strlit("The entire ballpark is rocking"); assert("Chants rise from the bleachers"@[0] != "The entire ballpark is rocking"@[0]);
                reveal_strlit("The energy in here is palpable"); assert("Chants rise from the bleachers"@[0] != "The energy in here is palpable"@[0]);
                reveal_strlit("It's pandemonium in the stands"); assert("Chants rise from the bleachers"@[0] != "It's pandemonium in the stands"@[0]);
                reveal_strlit("Supporters yell at full volume"); assert("Chants rise from the bleachers"@[0] != "Supporters yell at full volume"@[0]);
            }
            Cheer::ACheerRipsThroughThePark => {
                reveal_strlit("A cheer rips through the park");
                reveal_strlit("Fans slap the walls in rhythm"); assert("A cheer rips through the park"@[0] != "Fans slap the walls in rhythm"@[0]);
                reveal_strlit("Energy pulses from the stands"); assert("A cheer rips through the park"@[0] != "Energy pulses from the stands"@[0]);
                reveal_strlit("The stadium swell with cheers"); assert("A cheer rips through the park"@[0] != "The stadium swell with cheers"@[0]);
            }
            Cheer::EveryonesClappingInRhythm => {
                reveal_strlit("Everyone's clapping in rhythm");
                reveal_strlit("Fans slap the walls in rhythm"); assert("Everyone's clapping in rhythm"@[0] != "Fans slap the walls in rhythm"@[0]);
                reveal_strlit("Energy pulses from the stands"); assert("Everyone's clapping in rhythm"@[1] != "Energy pulses from the stands"@[1]);
                reveal_strlit("The stadium swell with cheers"); assert("Everyone's clapping in rhythm"@[0] != "The stadium swell with cheers"@[0]);
                reveal_strlit("A cheer rips through the park"); assert("Everyone's clapping in rhythm"@[0] != "A cheer rips through the park"@[0]);
            }
            Cheer::TheCrowdIsPumpedUp => {
                reveal_strlit("The crowd is pumped up");
                reveal_strlit("The stadium is buzzing"); assert("The crowd is pumped up"@[4] != "The stadium is buzzing"@[4]);
                reveal_strlit("The hometown fans roar"); assert("The crowd is pumped up"@[4] != "The hometown fans roar"@[4]);
            }
            Cheer::TheStadiumSwellsWithCheers => {
                reveal_strlit("The stadium swells with cheers");
                reveal_strlit("The entire ballpark is rocking"); assert("The stadium swells with cheers"@[4] != "The entire ballpark is rocking"@[4]);
                reveal_strlit("The energy in here is palpable"); assert("The stadium swells with cheers"@[4] != "The energy in here is palpable"@[4]);
                reveal_strlit("It's pandemonium in the stands"); assert("The stadium swells with cheers"@[0] != "It's pandemonium in the stands"@[0]);
                reveal_strlit("Supporters yell at full volume"); assert("The stadium swells with cheers"@[0] != "Supporters yell at full volume"@[0]);
                reveal_strlit("Chants rise from the bleachers"); assert("The stadium swells with cheers"@[0] != "Chants rise from the bleachers"@[0]);
            }
            Cheer::YouCanBarelyHearTheAnnouncer => {
                reveal_strlit("You can barely hear the announcer");
                reveal_strlit("Chants thunder around the stadium"); assert("You can barely hear the announcer"@[0] != "Chants thunder around the stadium"@[0]);
                reveal_strlit("The hometown section is deafening"); assert("You can barely hear the announcer"@[0] != "The hometown section is deafening"@[0]);
                reveal_strlit("Home supporters whistle and cheer"); assert("You can barely hear the announcer"@[0] != "Home supporters whistle and cheer"@[0]);
                reveal_strlit("The crowd rallies behind the team"); assert("You can barely hear the announcer"@[0] != "The crowd rallies behind the team"@[0]);
                reveal_strlit("The crowd goes absolutely bonkers"); assert("You can barely hear the announcer"@[0] != "The crowd goes absolutely bonkers"@[0]);
            }
            Cheer::TheFansAreFiredUp => {
                reveal_strlit("The fans are fired up");
                reveal_strlit("Fans whoop and holler"); assert("The fans are fired up"@[0] != "Fans whoop and holler"@[0]);
                reveal_strlit("It's pure pandemonium"); assert("The fans are fired up"@[0] != "It's pure pandemonium"@[0]);
            }
            Cheer::TheDecibelsRiseToAFrenzy => {
                reveal_strlit("The decibels rise to a frenzy");
                reveal_strlit("Fans slap the walls in rhythm"); assert("The decibels rise to a frenzy"@[0] != "Fans slap the walls in rhythm"@[0]);
                reveal_strlit("Energy pulses from the stands"); assert("The decibels rise to a frenzy"@[0] != "Energy pulses from the stands"@[0]);
                reveal_strlit("The stadium swell with cheers"); assert("The decibels rise to a frenzy"@[4] != "The stadium swell with cheers"@[4]);
                reveal_strlit("A cheer rips through the park"); assert("The decibels rise to a frenzy"@[0] != "A cheer rips through the park"@[0]);
                reveal_strlit("Everyone's clapping in rhythm"); assert("The decibels rise to a frenzy"@[0] != "Everyone's clapping in rhythm"@[0]);
            }
            Cheer::TheEnergyInTheParkSurges => {
                reveal_strlit("The energy in the park surges");
                reveal_strlit("Fans slap the walls in rhythm"); assert("The energy in the park surges"@[0] != "Fans slap the walls in rhythm"@[0]);
                reveal_strlit("Energy pulses from the stands"); assert("The energy in the park surges"@[0] != "Energy pulses from the stands"@[0]);
                reveal_strlit("The stadium swell with cheers"); assert("The energy in the park surges"@[4] != "The stadium swell with cheers"@[4]);
                reveal_strlit("A cheer rips through the park"); assert("The energy in the park surges"@[0] != "A cheer rips through the park"@[0]);
                reveal_strlit("Everyone's clapping in rhythm"); assert("The energy in the park surges"@[0] != "Everyone's clapping in rhythm"@[0]);
                reveal_strlit("The decibels rise to a frenzy"); assert("The energy in the park surges"@[4] != "The decibels rise to a frenzy"@[4]);
            }
            Cheer::FansYellThemselvesHoarse => {
                reveal_strlit("Fans yell themselves hoarse");
                reveal_strlit("Fans are losing their minds"); assert("Fans yell themselves hoarse"@[5] != "Fans are losing their minds"@[5]);
                reveal_strlit("The stands explode in noise"); assert("Fans yell themselves hoarse"@[0] != "The stands explode in noise"@[0]);
                reveal_strlit("Fans wave their arms wildly"); assert("Fans yell themselves hoarse"@[5] != "Fans wave their arms wildly"@[5]);
                reveal_strlit("The stands shake with noise"); assert("Fans yell themselves hoarse"@[0] != "The stands shake with noise"@[0]);
            }
            Cheer::AMightyCheerErupts => {
                reveal_strlit("A mighty cheer erupts");
                reveal_strlit("Fans whoop and holler"); assert("A mighty cheer erupts"@[0] != "Fans whoop and holler"@[0]);
                reveal_strlit("It's pure pandemonium"); assert("A mighty cheer erupts"@[0] != "It's pure pandemonium"@[0]);
                reveal_strlit("The fans are fired up"); assert("A mighty cheer erupts"@[0] != "The fans are fired up"@[0]);
            }
            Cheer::TheStandsAreElectric => {
                reveal_strlit("The stands are electric");
                reveal_strlit("Everyone cheers at once"); assert("The stands are electric"@[0] != "Everyone cheers at once"@[0]);
                reveal_strlit("The stands are rumbling"); assert("The stands are electric"@[15] != "The stands are rumbling"@[15]);
            }
            Cheer::FansJumpAndShout => {
                reveal_strlit("Fans jump and shout");
                reveal_strlit("Banners wave wildly"); assert("Fans jump and shout"@[0] != "Banners wave wildly"@[0]);
            }
            Cheer::TheCheersEchoOffTheWalls => {
                reveal_strlit("The cheers echo off the walls");
                reveal_strlit("Fans slap the walls in rhythm"); assert("The cheers echo off the walls"@[0] != "Fans slap the walls in rhythm"@[0]);
                reveal_strlit("Energy pulses from the stands"); assert("The cheers echo off the walls"@[0] != "Energy pulses from the stands"@[0]);
                reveal_strlit("The stadium swell with cheers"); assert("The cheers echo off the walls"@[4] != "The stadium swell with cheers"@[4]);
                reveal_strlit("A cheer rips through the park"); assert("The cheers echo off the walls"@[0] != "A cheer rips through the park"@[0]);
                reveal_strlit("Everyone's clapping in rhythm"); assert("The cheers echo off the walls"@[0] != "Everyone's clapping in rhythm"@[0]);
                reveal_strlit("The decibels rise to a frenzy"); assert("The cheers echo off the walls"@[4] != "The decibels rise to a frenzy"@[4]);
                reveal_strlit("The energy in the park surges"); assert("The cheers echo off the walls"@[4] != "The energy in the park surges"@[4]);
            }
            Cheer::YouCanFeelTheStandsVibrating => {
                reveal_strlit("You can feel the stands vibrating");
                reveal_strlit("Chants thunder around the stadium"); assert("You can feel the stands vibrating"@[0] != "Chants thunder around the stadium"@[0]);
                reveal_strlit("The hometown section is deafening"); assert("You can feel the stands vibrating"@[0] != "The hometown section is deafening"@[0]);
                reveal_strlit("Home supporters whistle and cheer"); assert("You can feel the stands vibrating"@[0] != "Home supporters whistle and cheer"@[0]);
                reveal_strlit("The crowd rallies behind the team"); assert("You can feel the stands vibrating"@[0] != "The crowd rallies behind the team"@[0]);
                reveal_strlit("The crowd goes absolutely bonkers"); assert("You can feel the stands vibrating"@[0] != "The crowd goes absolutely bonkers"@[0]);
                reveal_strlit("You can barely hear the announcer"); assert("You can feel the stands vibrating"@[8] != "You can barely hear the announcer"@[8]);
            }
            Cheer::NoiseLevelsSpike => {
                reveal_strlit("Noise levels spike");
                reveal_strlit("The stadium erupts"); assert("Noise levels spike"@[0] != "The stadium erupts"@[0]);
            }
            Cheer::EveryoneIsCheeringAtOnce => {
                reveal_strlit("Everyone is cheering at once");
                reveal_strlit("The home faithful go berserk"); assert("Everyone is cheering at once"@[0] != "The home faithful go berserk"@[0]);
                reveal_strlit("The ballpark is in an uproar"); assert("Everyone is cheering at once"@[0] != "The ballpark is in an uproar"@[0]);
                reveal_strlit("The crowd erupts into cheers"); assert("Everyone is cheering at once"@[0] != "The crowd erupts into cheers"@[0]);
                reveal_strlit("A roar builds from the seats"); assert("Everyone is cheering at once"@[0] != "A roar builds from the seats"@[0]);
                reveal_strlit("It's a roar from the rafters"); assert("Everyone is cheering at once"@[0] != "It's a roar from the rafters"@[0]);
            }
            Cheer::AHugeCheerErupts => {
                reveal_strlit("A huge cheer erupts");
                reveal_strlit("Banners wave wildly"); assert("A huge cheer erupts"@[0] != "Banners wave wildly"@[0]);
                reveal_strlit("Fans jump and shout"); assert("A huge cheer erupts"@[0] != "Fans jump and shout"@[0]);
            }
            Cheer::TheNoiseJustKeepsBuilding => {
                reveal_strlit("The noise just keeps building");
                reveal_strlit("Fans slap the walls in rhythm"); assert("The noise just keeps building"@[0] != "Fans slap the walls in rhythm"@[0]);
                reveal_strlit("Energy pulses from the stands"); assert("The noise just keeps building"@[0] != "Energy pulses from the stands"@[0]);
                reveal_strlit("The stadium swell with cheers"); assert("The noise just keeps building"@[4] != "The stadium swell with cheers"@[4]);
                reveal_strlit("A cheer rips through the park"); assert("The noise just keeps building"@[0] != "A cheer rips through the park"@[0]);
                reveal_strlit("Everyone's clapping in rhythm"); assert("The noise just keeps building"@[0] != "Everyone's clapping in rhythm"@[0]);
                reveal_strlit("The decibels rise to a frenzy"); assert("The noise just keeps building"@[4] != "The decibels rise to a frenzy"@[4]);
                reveal_strlit("The energy in the park surges"); assert("The noise just keeps building"@[4] != "The energy in the park surges"@[4]);
                reveal_strlit("The cheers echo off the walls"); assert("The noise just keeps building"@[4] != "The cheers echo off the walls"@[4]);
            }
            Cheer::TheFaithfulAreShoutingAtTheTopOfTheirLungs => {
                reveal_strlit("The faithful are shouting at the top of their lungs");
            }
            Cheer::TheyCheerLikeTheresNoTomorrow => {
                reveal_strlit("They cheer like there's no tomorrow");
                reveal_strlit("The hometown supporters give a roar"); assert("They cheer like there's no tomorrow"@[3] != "The hometown supporters give a roar"@[3]);
                reveal_strlit("The home fans make themselves heard"); assert("They cheer like there's no tomorrow"@[3] != "The home fans make themselves heard"@[3]);
                reveal_strlit("A wave of cheers sweeps the stadium"); assert("They cheer like there's no tomorrow"@[0] != "A wave of cheers sweeps the stadium"@[0]);
            }
            Cheer::YouCanFeelTheHypeBuilding => {
                reveal_strlit("You can feel the hype building");
                reveal_strlit("The entire ballpark is rocking"); assert("You can feel the hype building"@[0] != "The entire ballpark is rocking"@[0]);
                reveal_strlit("The energy in here is palpable"); assert("You can feel the hype building"@[0] != "The energy in here is palpable"@[0]);
                reveal_strlit("It's pandemonium in the stands"); assert("You can feel the hype building"@[0] != "It's pandemonium in the stands"@[0]);
                reveal_strlit("Supporters yell at full volume"); assert("You can feel the hype building"@[0] != "Supporters yell at full volume"@[0]);
                reveal_strlit("Chants rise from the bleachers"); assert("You can feel the hype building"@[0] != "Chants rise from the bleachers"@[0]);
                reveal_strlit("The stadium swells with cheers"); assert("You can feel the hype building"@[0] != "The stadium swells with cheers"@[0]);
            }
            Cheer::TheExcitementIsOffTheCharts => {
                reveal_strlit("The excitement is off the charts");
                reveal_strlit("A tremendous cheer fills the air"); assert("The excitement is off the charts"@[0] != "A tremendous cheer fills the air"@[0]);
                reveal_strlit("Supporters pound on the railings"); assert("The excitement is off the charts"@[0] != "Supporters pound on the railings"@[0]);
                reveal_strlit("Fans pump their fists in the air"); assert("The excitement is off the charts"@[0] != "Fans pump their fists in the air"@[0]);
            }
            Cheer::ExcitementSurgesThroughThePark => {
                reveal_strlit("Excitement surges through the park");
                reveal_strlit("The home crowd won't stop cheering"); assert("Excitement surges through the park"@[0] != "The home crowd won't stop cheering"@[0]);
            }
            Cheer::EveryFanIsMakingNoise => {
                reveal_strlit("Every fan is making noise");
                reveal_strlit("No one is sitting anymore"); assert("Every fan is making noise"@[0] != "No one is sitting anymore"@[0]);
                reveal_strlit("The bleachers are booming"); assert("Every fan is making noise"@[0] != "The bleachers are booming"@[0]);
                reveal_strlit("The noise is overwhelming"); assert("Every fan is making noise"@[0] != "The noise is overwhelming"@[0]);
            }
            Cheer::TheSupportersFuelTheirTeam => {
                reveal_strlit("The supporters fuel their team");
                reveal_strlit("The entire ballpark is rocking"); assert("The supporters fuel their team"@[4] != "The entire ballpark is rocking"@[4]);
                reveal_strlit("The energy in here is palpable"); assert("The supporters fuel their team"@[4] != "The energy in here is palpable"@[4]);
                reveal_strlit("It's pandemonium in the stands"); assert("The supporters fuel their team"@[0] != "It's pandemonium in the stands"@[0]);
                reveal_strlit("Supporters yell at full volume"); assert("The supporters fuel their team"@[0] != "Supporters yell at full volume"@[0]);
                reveal_strlit("Chants rise from the bleachers"); assert("The supporters fuel their team"@[0] != "Chants rise from the bleachers"@[0]);
                reveal_strlit("The stadium swells with cheers"); assert("The supporters fuel their team"@[5] != "The stadium swells with cheers"@[5]);
                reveal_strlit("You can feel the hype building"); assert("The supporters fuel their team"@[0] != "You can feel the hype building"@[0]);
            }
            Cheer::TheParkVibratesWithNoise => {
                reveal_strlit("The park vibrates with noise");
                reveal_strlit("The home faithful go berserk"); assert("The park vibrates with noise"@[4] != "The home faithful go berserk"@[4]);
                reveal_strlit("The ballpark is in an uproar"); assert("The park vibrates with noise"@[4] != "The ballpark is in an uproar"@[4]);
                reveal_strlit("The crowd erupts into cheers"); assert("The park vibrates with noise"@[4] != "The crowd erupts into cheers"@[4]);
                reveal_strlit("A roar builds from the seats"); assert("The park vibrates with noise"@[0] != "A roar builds from the seats"@[0]);
                reveal_strlit("It's a roar from the rafters"); assert("The park vibrates with noise"@[0] != "It's a roar from the rafters"@[0]);
                reveal_strlit("Everyone is cheering at once"); assert("The park vibrates with noise"@[0] != "Everyone is cheering at once"@[0]);
            }
            Cheer::TheStandsAreShaking => {
                reveal_strlit("The stands are shaking");
                reveal_strlit("The stadium is buzzing"); assert("The stands are shaking"@[7] != "The stadium is buzzing"@[7]);
                reveal_strlit("The hometown fans roar"); assert("The stands are shaking"@[4] != "The hometown fans roar"@[4]);
                reveal_strlit("The crowd is pumped up"); assert("The stands are shaking"@[4] != "The crowd is pumped up"@[4]);
            }
            Cheer::TheFansBellowEncouragement => {
                reveal_strlit("The fans bellow encouragement");
                reveal_strlit("Fans slap the walls in rhythm"); assert("The fans bellow encouragement"@[0] != "Fans slap the walls in rhythm"@[0]);
                reveal_strlit("Energy pulses from the stands"); assert("The fans bellow encouragement"@[0] != "Energy pulses from the stands"@[0]);
                reveal_strlit("The stadium swell with cheers"); assert("The fans bellow encouragement"@[4] != "The stadium swell with cheers"@[4]);
                reveal_strlit("A cheer rips through the park"); assert("The fans bellow encouragement"@[0] != "A cheer rips through the park"@[0]);
                reveal_strlit("Everyone's clapping in rhythm"); assert("The fans bellow encouragement"@[0] != "Everyone's clapping in rhythm"@[0]);
                reveal_strlit("The decibels rise to a frenzy"); assert("The fans bellow encouragement"@[4] != "The decibels rise to a frenzy"@[4]);
                reveal_strlit("The energy in the park surges"); assert("The fans bellow encouragement"@[4] != "The energy in the park surges"@[4]);
                reveal_strlit("The cheers echo off the walls"); assert("The fans bellow encouragement"@[4] != "The cheers echo off the walls"@[4]);
                reveal_strlit("The noise just keeps building"); assert("The fans bellow encouragement"@[4] != "The noise just keeps building"@[4]);
            }
            Cheer::TheStadiumShakesWithExcitement => {
                reveal_strlit("The stadium shakes with excitement");
                reveal_strlit("The home crowd won't stop cheering"); assert("The stadium shakes with excitement"@[4] != "The home crowd won't stop cheering"@[4]);
                reveal_strlit("Excitement surges through the park"); assert("The stadium shakes with excitement"@[0] != "Excitement surges through the park"@[0]);
            }
            Cheer::SupportersWaveTheirBannersHigh => {
                reveal_strlit("Supporters wave their banners high");
                reveal_strlit("The home crowd won't stop cheering"); assert("Supporters wave their banners high"@[0] != "The home crowd won't stop cheering"@[0]);
                reveal_strlit("Excitement surges through the park"); assert("Supporters wave their banners high"@[0] != "Excitement surges through the park"@[0]);
                reveal_strlit("The stadium shakes with excitement"); assert("Supporters wave their banners high"@[0] != "The stadium shakes with excitement"@[0]);
            }
            Cheer::TheFaithfulRiseAsOne => {
                reveal_strlit("The faithful rise as one");
                reveal_strlit("The ballpark comes alive"); assert("The faithful rise as one"@[4] != "The ballpark comes alive"@[4]);
                reveal_strlit("Fans shout encouragement"); assert("The faithful rise as one"@[0] != "Fans shout encouragement"@[0]);
            }
            Cheer::CheersCascadeFromEverySection => {
                reveal_strlit("Cheers cascade from every section");
                reveal_strlit("Chants thunder around the stadium"); assert("Cheers cascade from every section"@[2] != "Chants thunder around the stadium"@[2]);
                reveal_strlit("The hometown section is deafening"); assert("Cheers cascade from every section"@[0] != "The hometown section is deafening"@[0]);
                reveal_strlit("Home supporters whistle and cheer"); assert("Cheers cascade from every section"@[0] != "Home supporters whistle and cheer"@[0]);
                reveal_strlit("The crowd rallies behind the team"); assert("Cheers cascade from every section"@[0] != "The crowd rallies behind the team"@[0]);
                reveal_strlit("The crowd goes absolutely bonkers"); assert("Cheers cascade from every section"@[0] != "The crowd goes absolutely bonkers"@[0]);
                reveal_strlit("You can barely hear the announcer"); assert("Cheers cascade from every section"@[0] != "You can barely hear the announcer"@[0]);
                reveal_strlit("You can feel the stands vibrating"); assert("Cheers cascade from every section"@[0] != "You can feel the stands vibrating"@[0]);
            }
            Cheer::TheCrowdBeltsOutTheTeamsChant => {
                reveal_strlit("The crowd belts out the team's chant");
                reveal_strlit("Everyone is chanting the team's name"); assert("The crowd belts out the team's chant"@[0] != "Everyone is chanting the team's name"@[0]);
                reveal_strlit("The cheers drown out everything else"); assert("The crowd belts out the team's chant"@[5] != "The cheers drown out everything else"@[5]);
                reveal_strlit("Home fans stomp their feet in unison"); assert("The crowd belts out the team's chant"@[0] != "Home fans stomp their feet in unison"@[0]);
                reveal_strlit("The crowd lets out a collective howl"); assert("The crowd belts out the team's chant"@[10] != "The crowd lets out a collective howl"@[10]);
                reveal_strlit("The hometown fans roar their support"); assert("The crowd belts out the team's chant"@[4] != "The hometown fans roar their support"@[4]);
            }
            Cheer::TheFansScreamForTheirHeroes => {
                reveal_strlit("The fans scream for their heroes");
                reveal_strlit("A tremendous cheer fills the air"); assert("The fans scream for their heroes"@[0] != "A tremendous cheer fills the air"@[0]);
                reveal_strlit("Supporters pound on the railings"); assert("The fans scream for their heroes"@[0] != "Supporters pound on the railings"@[0]);
                reveal_strlit("Fans pump their fists in the air"); assert("The fans scream for their heroes"@[0] != "Fans pump their fists in the air"@[0]);
                reveal_strlit("The excitement is off the charts"); assert("The fans scream for their heroes"@[4] != "The excitement is off the charts"@[4]);
            }
            Cheer::TheCrowdIsEcstatic => {
                reveal_strlit("The crowd is ecstatic");
                reveal_strlit("Fans whoop and holler"); assert("The crowd is ecstatic"@[0] != "Fans whoop and holler"@[0]);
                reveal_strlit("It's pure pandemonium"); assert("The crowd is ecstatic"@[0] != "It's pure pandemonium"@[0]);
                reveal_strlit("The fans are fired up"); assert("The crowd is ecstatic"@[4] != "The fans are fired up"@[4]);
                reveal_strlit("A mighty cheer erupts"); assert("The crowd is ecstatic"@[0] != "A mighty cheer erupts"@[0]);
            }
            Cheer::TheCrowdIsPumped => {
                reveal_strlit("The crowd is pumped");
                reveal_strlit("Banners wave wildly"); assert("The crowd is pumped"@[0] != "Banners wave wildly"@[0]);
                reveal_strlit("Fans jump and shout"); assert("The crowd is pumped"@[0] != "Fans jump and shout"@[0]);
                reveal_strlit("A huge cheer erupts"); assert("The crowd is pumped"@[0] != "A huge cheer erupts"@[0]);
            }
            Cheer::Unknown(_) => {}
        }
    }
    /// The written form of each known value, and what reading it gives.
    #[verifier::spinoff_prover]
    #[verifier::rlimit(50)]
    pub proof fn lemma_name_table()
        ensures
            Cheer::ATremendousCheerFillsTheAir.spec_name() == "A tremendous cheer fills the air"@,
            Cheer::AThunderousCheerEchoesAcrossTheField.spec_name() == "A thunderous cheer echoes across the field"@,
            Cheer::ChantsThunderAroundTheStadium.spec_name() == "Chants thunder around the stadium"@,
            Cheer::EveryoneCheersAtOnce.spec_name() == "Everyone cheers at once"@,
            Cheer::EveryoneIsChantingTheTeamsName.spec_name() == "Everyone is chanting the team's name"@,
            Cheer::TheCheersDrownOutEverythingElse.spec_name() == "The cheers drown out everything else"@,
            Cheer::CheersRollThroughTheStadium.spec_name() == "Cheers roll through the stadium"@,
            Cheer::SupportersPoundOnTheRailings.spec_name() == "Supporters pound on the railings"@,
            Cheer::HandsClapAndWhistlesPierceTheAir.spec_name() == "Hands clap and whistles pierce the air"@,
            Cheer::HomeFansStompTheirFeetInUnison.spec_name() == "Home fans stomp their feet in unison"@,
            Cheer::NoOneIsSittingAnymore.spec_name() == "No one is sitting anymore"@,
            Cheer::TheHometownSupportersGiveARoar.spec_name() == "The hometown supporters give a roar"@,
            Cheer::TheHomeTownSectionIsDeafening.spec_name() == "The hometown section is deafening"@,
            Cheer::TheHomeFaithfulGoBerserk.spec_name() == "The home faithful go berserk"@,
            Cheer::TheFansAreLosingTheirMinds.spec_name() == "Fans are losing their minds"@,
            Cheer::TheStandsExplodeInNoise.spec_name() == "The stands explode in noise"@,
            Cheer::ItsAWallOfSound.spec_name() == "It's a wall of sound"@,
            Cheer::TheEntireBallparkIsRocking.spec_name() == "The entire ballpark is rocking"@,
            Cheer::TheBallparkComesAlive.spec_name() == "The ballpark comes alive"@,
            Cheer::ExcitementPoursFromTheCrowd.spec_name() == "Excitement pours from the crowd"@,
            Cheer::TheHomeSupportersCantContainThemselves.spec_name() == "The home supporters can't contain themselves"@,
            Cheer::TheCrowdLetsOutACollectiveHowl.spec_name() == "The crowd lets out a collective howl"@,
            Cheer::ARumbleOfExcitementRollsThroughTheStadium.spec_name() == "A rumble of excitement rolls through the stadium"@,
            Cheer::BannersWaveWildly.spec_name() == "Banners wave wildly"@,
            Cheer::TheNoiseLevelSkyrockets.spec_name() == "The noise level skyrockets"@,
            Cheer::TheEnergyInHereIsPalpable.spec_name() == "The energy in here is palpable"@,
            Cheer::TheBallparkEruptsInApplause.spec_name() == "The ballpark erupts in applause"@,
            Cheer::TheBleachersAreBooming.spec_name() == "The bleachers are booming"@,
            Cheer::FansSlapTheWallsInRhythm.spec_name() == "Fans slap the walls in rhythm"@,
            Cheer::TheHometownFansRoarTheirSupport.spec_name() == "The hometown fans roar their support"@,
            Cheer::NoiseRainsDownFromTheSeats.spec_name() == "Noise rains down from the seats"@,
            Cheer::FansWaveTheirArmsWildly.spec_name() == "Fans wave their arms wildly"@,
            Cheer::EnergyPulsesFromTheStands.spec_name() == "Energy pulses from the stands"@,
            Cheer::TheStandsShakeWithNoise.spec_name() == "The stands shake with noise"@,
            Cheer::TheBallparkIsInAnUproar.spec_name() == "The ballpark is in an uproar"@,
            Cheer::TheStadiumSwellWithCheers.spec_name() == "The stadium swell with cheers"@,
            Cheer::TheStadiumErupts.spec_name() == "The stadium erupts"@,
            Cheer::FansRoarInSupport.spec_name() == "Fans roar in support"@,
            Cheer::AChantGrowsLouderAndLouder.spec_name() == "A chant grows louder and louder"@,
            Cheer::FansShoutEncouragement.spec_name() == "Fans shout encouragement"@,
            Cheer::TheStadiumIsBuzzing.spec_name() == "The stadium is buzzing"@,
            Cheer::TheHometownFaithfulAreLovingThis.spec_name() == "The hometown faithful are loving this"@,
            Cheer::FansWhoopAndHoller.spec_name() == "Fans whoop and holler"@,
            Cheer::TheHomeCrowdIsFiredUp.spec_name() == "The home crowd is fired up"@,
            Cheer::ItsPandemoniumInTheStands.spec_name() == "It's pandemonium in the stands"@,
            Cheer::TheNoiseIsOverwhelming.spec_name() == "The noise is overwhelming"@,
            Cheer::HomeSupportersWhistleAndCheer.spec_name() == "Home supporters whistle and cheer"@,
            Cheer::TheHomeFansMakeThemselvesHeard.spec_name() == "The home fans make themselves heard"@,
            Cheer::TheCrowdRalliesBehindTheTeam.spec_name() == "The crowd rallies behind the team"@,
            Cheer::TheStandsAreRumbling.spec_name() == "The stands are rumbling"@,
            Cheer::ItsPurePandemonium.spec_name() == "It's pure pandemonium"@,
            Cheer::ThePlaceIsRocking.spec_name() == "The place is rocking"@,
            Cheer::AWaveOfCheersSweepsTheStadium.spec_name() == "A wave of cheers sweeps the stadium"@,
            Cheer::TheHometownFansRoar.spec_name() == "The hometown fans roar"@,
            Cheer::TheFansThunderTheirApproval.spec_name() == "The fans thunder their approval"@,
            Cheer::SupportersYellAtFullVolume.spec_name() == "Supporters yell at full volume"@,
            Cheer::TheCrowdGoesAbsolutelyBonkers.spec_name() == "The crowd goes absolutely bonkers"@,
            Cheer::TheCheeringIsRelentless.spec_name() == "The cheering is relentless"@,
            Cheer::FansPumpTheirFistsInTheAir.spec_name() == "Fans pump their fists in the air"@,
            Cheer::TheHomeCrowdWontStopCheering.spec_name() == "The home crowd won't stop cheering"@,
            Cheer::TheCrowdEruptsIntoCheers.spec_name() == "The crowd erupts into cheers"@,
            Cheer::ARoarBuildsFromTheSeats.spec_name() == "A roar builds from the seats"@,
            Cheer::EveryoneInTheStandsIsOnTheirFeet.spec_name() == "Everyone in the stands is on their feet"@,
            Cheer::ItsARoarFromTheRafters.spec_name() == "It's a roar from the rafters"@,
            Cheer::ChantsRiseFromTheBleachers.spec_name() == "Chants rise from the bleachers"@,
            Cheer::ACheerRipsThroughThePark.spec_name() == "A cheer rips through the park"@,
            Cheer::EveryonesClappingInRhythm.spec_name() == "Everyone's clapping in rhythm"@,
            Cheer::TheCrowdIsPumpedUp.spec_name() == "The crowd is pumped up"@,
            Cheer::TheStadiumSwellsWithCheers.spec_name() == "The stadium swells with cheers"@,
            Cheer::YouCanBarelyHearTheAnnouncer.spec_name() == "You can barely hear the announcer"@,
            Cheer::TheFansAreFiredUp.spec_name() == "The fans are fired up"@,
            Cheer::TheDecibelsRiseToAFrenzy.spec_name() == "The decibels rise to a frenzy"@,
            Cheer::TheEnergyInTheParkSurges.spec_name() == "The energy in the park surges"@,
            Cheer::FansYellThemselvesHoarse.spec_name() == "Fans yell themselves hoarse"@,
            Cheer::AMightyCheerErupts.spec_name() == "A mighty cheer erupts"@,
            Cheer::TheStandsAreElectric.spec_name() == "The stands are electric"@,
            Cheer::FansJumpAndShout.spec_name() == "Fans jump and shout"@,
            Cheer::TheCheersEchoOffTheWalls.spec_name() == "The cheers echo off the walls"@,
            Cheer::YouCanFeelTheStandsVibrating.spec_name() == "You can feel the stands vibrating"@,
            Cheer::NoiseLevelsSpike.spec_name() == "Noise levels spike"@,
            Cheer::EveryoneIsCheeringAtOnce.spec_name() == "Everyone is cheering at once"@,
            Cheer::AHugeCheerErupts.spec_name() == "A huge cheer erupts"@,
            Cheer::TheNoiseJustKeepsBuilding.spec_name() == "The noise just keeps building"@,
            Cheer::TheFaithfulAreShoutingAtTheTopOfTheirLungs.spec_name() == "The faithful are shouting at the top of their lungs"@,
            Cheer::TheyCheerLikeTheresNoTomorrow.spec_name() == "They cheer like there's no tomorrow"@,
            Cheer::YouCanFeelTheHypeBuilding.spec_name() == "You can feel the hype building"@,
            Cheer::TheExcitementIsOffTheCharts.spec_name() == "The excitement is off the charts"@,
            Cheer::ExcitementSurgesThroughThePark.spec_name() == "Excitement surges through the park"@,
            Cheer::EveryFanIsMakingNoise.spec_name() == "Every fan is making noise"@,
            Cheer::TheSupportersFuelTheirTeam.spec_name() == "The supporters fuel their team"@,
            Cheer::TheParkVibratesWithNoise.spec_name() == "The park vibrates with noise"@,
            Cheer::TheStandsAreShaking.spec_name() == "The stands are shaking"@,
            Cheer::TheFansBellowEncouragement.spec_name() == "The fans bellow encouragement"@,
            Cheer::TheStadiumShakesWithExcitement.spec_name() == "The stadium shakes with excitement"@,
            Cheer::SupportersWaveTheirBannersHigh.spec_name() == "Supporters wave their banners high"@,
            Cheer::TheFaithfulRiseAsOne.spec_name() == "The faithful rise as one"@,
            Cheer::CheersCascadeFromEverySection.spec_name() == "Cheers cascade from every section"@,
            Cheer::TheCrowdBeltsOutTheTeamsChant.spec_name() == "The crowd belts out the team's chant"@,
            Cheer::TheFansScreamForTheirHeroes.spec_name() == "The fans scream for their heroes"@,
            Cheer::TheCrowdIsEcstatic.spec_name() == "The crowd is ecstatic"@,
            Cheer::TheCrowdIsPumped.spec_name() == "The crowd is pumped"@,
            Cheer::spec_parse("A tremendous cheer fills the air"@) == Some(Cheer::ATremendousCheerFillsTheAir),
            Cheer::spec_parse("A thunderous cheer echoes across the field"@) == Some(Cheer::AThunderousCheerEchoesAcrossTheField),
            Cheer::spec_parse("Chants thunder around the stadium"@) == Some(Cheer::ChantsThunderAroundTheStadium),
            Cheer::spec_parse("Everyone cheers at once"@) == Some(Cheer::EveryoneCheersAtOnce),
            Cheer::spec_parse("Everyone is chanting the team's name"@) == Some(Cheer::EveryoneIsChantingTheTeamsName),
            Cheer::spec_parse("The cheers drown out everything else"@) == Some(Cheer::TheCheersDrownOutEverythingElse),
            Cheer::spec_parse("Cheers roll through the stadium"@) == Some(Cheer::CheersRollThroughTheStadium),
            Cheer::spec_parse("Supporters pound on the railings"@) == Some(Cheer::SupportersPoundOnTheRailings),
            Cheer::spec_parse("Hands clap and whistles pierce the air"@) == Some(Cheer::HandsClapAndWhistlesPierceTheAir),
            Cheer::spec_parse("Home fans stomp their feet in unison"@) == Some(Cheer::HomeFansStompTheirFeetInUnison),
            Cheer::spec_parse("No one is sitting anymore"@) == Some(Cheer::NoOneIsSittingAnymore),
            Cheer::spec_parse("The hometown supporters give a roar"@) == Some(Cheer::TheHometownSupportersGiveARoar),
            Cheer::spec_parse("The hometown section is deafening"@) == Some(Cheer::TheHomeTownSectionIsDeafening),
            Cheer::spec_parse("The home faithful go berserk"@) == Some(Cheer::TheHomeFaithfulGoBerserk),
            Cheer::spec_parse("Fans are losing their minds"@) == Some(Cheer::TheFansAreLosingTheirMinds),
            Cheer::spec_parse("The stands explode in noise"@) == Some(Cheer::TheStandsExplodeInNoise),
            Cheer::spec_parse("It's a wall of sound"@) == Some(Cheer::ItsAWallOfSound),
            Cheer::spec_parse("The entire ballpark is rocking"@) == Some(Cheer::TheEntireBallparkIsRocking),
            Cheer::spec_parse("The ballpark comes alive"@) == Some(Cheer::TheBallparkComesAlive),
            Cheer::spec_parse("Excitement pours from the crowd"@) == Some(Cheer::ExcitementPoursFromTheCrowd),
            Cheer::spec_parse("The home supporters can't contain themselves"@) == Some(Cheer::TheHomeSupportersCantContainThemselves),
            Cheer::spec_parse("The crowd lets out a collective howl"@) == Some(Cheer::TheCrowdLetsOutACollectiveHowl),
            Cheer::spec_parse("A rumble of excitement rolls through the stadium"@) == Some(Cheer::ARumbleOfExcitementRollsThroughTheStadium),
            Cheer::spec_parse("Banners wave wildly"@) == Some(Cheer::BannersWaveWildly),
            Cheer::spec_parse("The noise level skyrockets"@) == Some(Cheer::TheNoiseLevelSkyrockets),
            Cheer::spec_parse("The energy in here is palpable"@) == Some(Cheer::TheEnergyInHereIsPalpable),
            Cheer::spec_parse("The ballpark erupts in applause"@) == Some(Cheer::TheBallparkEruptsInApplause),
            Cheer::spec_parse("The bleachers are booming"@) == Some(Cheer::TheBleachersAreBooming),
            Cheer::spec_parse("Fans slap the walls in rhythm"@) == Some(Cheer::FansSlapTheWallsInRhythm),
            Cheer::spec_parse("The hometown fans roar their support"@) == Some(Cheer::TheHometownFansRoarTheirSupport),
            Cheer::spec_parse("Noise rains down from the seats"@) == Some(Cheer::NoiseRainsDownFromTheSeats),
            Cheer::spec_parse("Fans wave their arms wildly"@) == Some(Cheer::FansWaveTheirArmsWildly),
            Cheer::spec_parse("Energy pulses from the stands"@) == Some(Cheer::EnergyPulsesFromTheStands),
            Cheer::spec_parse("The stands shake with noise"@) == Some(Cheer::TheStandsShakeWithNoise),
            Cheer::spec_parse("The ballpark is in an uproar"@) == Some(Cheer::TheBallparkIsInAnUproar),
            Cheer::spec_parse("The stadium swell with cheers"@) == Some(Cheer::TheStadiumSwellWithCheers),
            Cheer::spec_parse("The stadium erupts"@) == Some(Cheer::TheStadiumErupts),
            Cheer::spec_parse("Fans roar in support"@) == Some(Cheer::FansRoarInSupport),
            Cheer::spec_parse("A chant grows louder and louder"@) == Some(Cheer::AChantGrowsLouderAndLouder),
            Cheer::spec_parse("Fans shout encouragement"@) == Some(Cheer::FansShoutEncouragement),
            Cheer::spec_parse("The stadium is buzzing"@) == Some(Cheer::TheStadiumIsBuzzing),
            Cheer::spec_parse("The hometown faithful are loving this"@) == Some(Cheer::TheHometownFaithfulAreLovingThis),
            Cheer::spec_parse("Fans whoop and holler"@) == Some(Cheer::FansWhoopAndHoller),
            Cheer::spec_parse("The home crowd is fired up"@) == Some(Cheer::TheHomeCrowdIsFiredUp),
            Cheer::spec_parse("It's pandemonium in the stands"@) == Some(Cheer::ItsPandemoniumInTheStands),
            Cheer::spec_parse("The noise is overwhelming"@) == Some(Cheer::TheNoiseIsOverwhelming),
            Cheer::spec_parse("Home supporters whistle and cheer"@) == Some(Cheer::HomeSupportersWhistleAndCheer),
            Cheer::spec_parse("The home fans make themselves heard"@) == Some(Cheer::TheHomeFansMakeThemselvesHeard),
            Cheer::spec_parse("The crowd rallies behind the team"@) == Some(Cheer::TheCrowdRalliesBehindTheTeam),
            Cheer::spec_parse("The stands are rumbling"@) == Some(Cheer::TheStandsAreRumbling),
            Cheer::spec_parse("It's pure pandemonium"@) == Some(Cheer::ItsPurePandemonium),
            Cheer::spec_parse("The place is rocking"@) == Some(Cheer::ThePlaceIsRocking),
            Cheer::spec_parse("A wave of cheers sweeps the stadium"@) == Some(Cheer::AWaveOfCheersSweepsTheStadium),
            Cheer::spec_parse("The hometown fans roar"@) == Some(Cheer::TheHometownFansRoar),
            Cheer::spec_parse("The fans thunder their approval"@) == Some(Cheer::TheFansThunderTheirApproval),
            Cheer::spec_parse("Supporters yell at full volume"@) == Some(Cheer::SupportersYellAtFullVolume),
            Cheer::spec_parse("The crowd goes absolutely bonkers"@) == Some(Cheer::TheCrowdGoesAbsolutelyBonkers),
            Cheer::spec_parse("The cheering is relentless"@) == Some(Cheer::TheCheeringIsRelentless),
            Cheer::spec_parse("Fans pump their fists in the air"@) == Some(Cheer::FansPumpTheirFistsInTheAir),
            Cheer::spec_parse("The home crowd won't stop cheering"@) == Some(Cheer::TheHomeCrowdWontStopCheering),
            Cheer::spec_parse("The crowd erupts into cheers"@) == Some(Cheer::TheCrowdEruptsIntoCheers),
            Cheer::spec_parse("A roar builds from the seats"@) == Some(Cheer::ARoarBuildsFromTheSeats),
            Cheer::spec_parse("Everyone in the stands is on their feet"@) == Some(Cheer::EveryoneInTheStandsIsOnTheirFeet),
            Cheer::spec_parse("It's a roar from the rafters"@) == Some(Cheer::ItsARoarFromTheRafters),
            Cheer::spec_parse("Chants rise from the bleachers"@) == Some(Cheer::ChantsRiseFromTheBleachers),
            Cheer::spec_parse("A cheer rips through the park"@) == Some(Cheer::ACheerRipsThroughThePark),
            Cheer::spec_parse("Everyone's clapping in rhythm"@) == Some(Cheer::EveryonesClappingInRhythm),
            Cheer::spec_parse("The crowd is pumped up"@) == Some(Cheer::TheCrowdIsPumpedUp),
            Cheer::spec_parse("The stadium swells with cheers"@) == Some(Cheer::TheStadiumSwellsWithCheers),
            Cheer::spec_parse("You can barely hear the announcer"@) == Some(Cheer::YouCanBarelyHearTheAnnouncer),
            Cheer::spec_parse("The fans are fired up"@) == Some(Cheer::TheFansAreFiredUp),
            Cheer::spec_parse("The decibels rise to a frenzy"@) == Some(Cheer::TheDecibelsRiseToAFrenzy),
            Cheer::spec_parse("The energy in the park surges"@) == Some(Cheer::TheEnergyInTheParkSurges),
            Cheer::spec_parse("Fans yell themselves hoarse"@) == Some(Cheer::FansYellThemselvesHoarse),
            Cheer::spec_parse("A mighty cheer erupts"@) == Some(Cheer::AMightyCheerErupts),
            Cheer::spec_parse("The stands are electric"@) == Some(Cheer::TheStandsAreElectric),
            Cheer::spec_parse("Fans jump and shout"@) == Some(Cheer::FansJumpAndShout),
            Cheer::spec_parse("The cheers echo off the walls"@) == Some(Cheer::TheCheersEchoOffTheWalls),
            Cheer::spec_parse("You can feel the stands vibrating"@) == Some(Cheer::YouCanFeelTheStandsVibrating),
            Cheer::spec_parse("Noise levels spike"@) == Some(Cheer::NoiseLevelsSpike),
            Cheer::spec_parse("Everyone is cheering at once"@) == Some(Cheer::EveryoneIsCheeringAtOnce),
            Cheer::spec_parse("A huge cheer erupts"@) == Some(Cheer::AHugeCheerErupts),
            Cheer::spec_parse("The noise just keeps building"@) == Some(Cheer::TheNoiseJustKeepsBuilding),
            Cheer::spec_parse("The faithful are shouting at the top of their lungs"@) == Some(Cheer::TheFaithfulAreShoutingAtTheTopOfTheirLungs),
            Cheer::spec_parse("They cheer like there's no tomorrow"@) == Some(Cheer::TheyCheerLikeTheresNoTomorrow),
            Cheer::spec_parse("You can feel the hype building"@) == Some(Cheer::YouCanFeelTheHypeBuilding),
            Cheer::spec_parse("The excitement is off the charts"@) == Some(Cheer::TheExcitementIsOffTheCharts),
            Cheer::spec_parse("Excitement surges through the park"@) == Some(Cheer::ExcitementSurgesThroughThePark),
            Cheer::spec_parse("Every fan is making noise"@) == Some(Cheer::EveryFanIsMakingNoise),
            Cheer::spec_parse("The supporters fuel their team"@) == Some(Cheer::TheSupportersFuelTheirTeam),
            Cheer::spec_parse("The park vibrates with noise"@) == Some(Cheer::TheParkVibratesWithNoise),
            Cheer::spec_parse("The stands are shaking"@) == Some(Cheer::TheStandsAreShaking),
            Cheer::spec_parse("The fans bellow encouragement"@) == Some(Cheer::TheFansBellowEncouragement),
            Cheer::spec_parse("The stadium shakes with excitement"@) == Some(Cheer::TheStadiumShakesWithExcitement),
            Cheer::spec_parse("Supporters wave their banners high"@) == Some(Cheer::SupportersWaveTheirBannersHigh),
            Cheer::spec_parse("The faithful rise as one"@) == Some(Cheer::TheFaithfulRiseAsOne),
            Cheer::spec_parse("Cheers cascade from every section"@) == Some(Cheer::CheersCascadeFromEverySection),
            Cheer::spec_parse("The crowd belts out the team's chant"@) == Some(Cheer::TheCrowdBeltsOutTheTeamsChant),
            Cheer::spec_parse("The fans scream for their heroes"@) == Some(Cheer::TheFansScreamForTheirHeroes),
            Cheer::spec_parse("The crowd is ecstatic"@) == Some(Cheer::TheCrowdIsEcstatic),
            Cheer::spec_parse("The crowd is pumped"@) == Some(Cheer::TheCrowdIsPumped),
    {
        assert(Cheer::spec_parse("A tremendous cheer fills the air"@) == Some(Cheer::ATremendousCheerFillsTheAir)) by { Cheer::ATremendousCheerFillsTheAir.lemma_parse_name(); }
        assert(Cheer::spec_parse("A thunderous cheer echoes across the field"@) == Some(Cheer::AThunderousCheerEchoesAcrossTheField)) by { Cheer::AThunderousCheerEchoesAcrossTheField.lemma_parse_name(); }
        assert(Cheer::spec_parse("Chants thunder around the stadium"@) == Some(Cheer::ChantsThunderAroundTheStadium)) by { Cheer::ChantsThunderAroundTheStadium.lemma_parse_name(); }
        assert(Cheer::spec_parse("Everyone cheers at once"@) == Some(Cheer::EveryoneCheersAtOnce)) by { Cheer::EveryoneCheersAtOnce.lemma_parse_name(); }
        assert(Cheer::spec_parse("Everyone is chanting the team's name"@) == Some(Cheer::EveryoneIsChantingTheTeamsName)) by { Cheer::EveryoneIsChantingTheTeamsName.lemma_parse_name(); }
        assert(Cheer::spec_parse("The cheers drown out everything else"@) == Some(Cheer::TheCheersDrownOutEverythingElse)) by { Cheer::TheCheersDrownOutEverythingElse.lemma_parse_name(); }
        assert(Cheer::spec_parse("Cheers roll through the stadium"@) == Some(Cheer::CheersRollThroughTheStadium)) by { Cheer::CheersRollThroughTheStadium.lemma_parse_name(); }
        assert(Cheer::spec_parse("Supporters pound on the railings"@) == Some(Cheer::SupportersPoundOnTheRailings)) by { Cheer::SupportersPoundOnTheRailings.lemma_parse_name(); }
        assert(Cheer::spec_parse("Hands clap and whistles pierce the air"@) == Some(Cheer::HandsClapAndWhistlesPierceTheAir)) by { Cheer::HandsClapAndWhistlesPierceTheAir.lemma_parse_name(); }
        assert(Cheer::spec_parse("Home fans stomp their feet in unison"@) == Some(Cheer::HomeFansStompTheirFeetInUnison)) by { Cheer::HomeFansStompTheirFeetInUnison.lemma_parse_name(); }
        assert(Cheer::spec_parse("No one is sitting anymore"@) == Some(Cheer::NoOneIsSittingAnymore)) by { Cheer::NoOneIsSittingAnymore.lemma_parse_name(); }
        assert(Cheer::spec_parse("The hometown supporters give a roar"@) == Some(Cheer::TheHometownSupportersGiveARoar)) by { Cheer::TheHometownSupportersGiveARoar.lemma_parse_name(); }
        assert(Cheer::spec_parse("The hometown section is deafening"@) == Some(Cheer::TheHomeTownSectionIsDeafening)) by { Cheer::TheHomeTownSectionIsDeafening.lemma_parse_name(); }
        assert(Cheer::spec_parse("The home faithful go berserk"@) == Some(Cheer::TheHomeFaithfulGoBerserk)) by { Cheer::TheHomeFaithfulGoBerserk.lemma_parse_name(); }
        assert(Cheer::spec_parse("Fans are losing their minds"@) == Some(Cheer::TheFansAreLosingTheirMinds)) by { Cheer::TheFansAreLosingTheirMinds.lemma_parse_name(); }
        assert(Cheer::spec_parse("The stands explode in noise"@) == Some(Cheer::TheStandsExplodeInNoise)) by { Cheer::TheStandsExplodeInNoise.lemma_parse_name(); }
        assert(Cheer::spec_parse("It's a wall of sound"@) == Some(Cheer::ItsAWallOfSound)) by { Cheer::ItsAWallOfSound.lemma_parse_name(); }
        assert(Cheer::spec_parse("The entire ballpark is rocking"@) == Some(Cheer::TheEntireBallparkIsRocking)) by { Cheer::TheEntireBallparkIsRocking.lemma_parse_name(); }
        assert(Cheer::spec_parse("The ballpark comes alive"@) == Some(Cheer::TheBallparkComesAlive)) by { Cheer::TheBallparkComesAlive.lemma_parse_name(); }
        assert(Cheer::spec_parse("Excitement pours from the crowd"@) == Some(Cheer::ExcitementPoursFromTheCrowd)) by { Cheer::ExcitementPoursFromTheCrowd.lemma_parse_name(); }
        assert(Cheer::spec_parse("The home supporters can't contain themselves"@) == Some(Cheer::TheHomeSupportersCantContainThemselves)) by { Cheer::TheHomeSupportersCantContainThemselves.lemma_parse_name(); }
        assert(Cheer::spec_parse("The crowd lets out a collective howl"@) == Some(Cheer::TheCrowdLetsOutACollectiveHowl)) by { Cheer::TheCrowdLetsOutACollectiveHowl.lemma_parse_name(); }
        assert(Cheer::spec_parse("A rumble of excitement rolls through the stadium"@) == Some(Cheer::ARumbleOfExcitementRollsThroughTheStadium)) by { Cheer::ARumbleOfExcitementRollsThroughTheStadium.lemma_parse_name(); }
        assert(Cheer::spec_parse("Banners wave wildly"@) == Some(Cheer::BannersWaveWildly)) by { Cheer::BannersWaveWildly.lemma_parse_name(); }
        assert(Cheer::spec_parse("The noise level skyrockets"@) == Some(Cheer::TheNoiseLevelSkyrockets)) by { Cheer::TheNoiseLevelSkyrockets.lemma_parse_name(); }
        assert(Cheer::spec_parse("The energy in here is palpable"@) == Some(Cheer::TheEnergyInHereIsPalpable)) by { Cheer::TheEnergyInHereIsPalpable.lemma_parse_name(); }
        assert(Cheer::spec_parse("The ballpark erupts in applause"@) == Some(Cheer::TheBallparkEruptsInApplause)) by { Cheer::TheBallparkEruptsInApplause.lemma_parse_name(); }
        assert(Cheer::spec_parse("The bleachers are booming"@) == Some(Cheer::TheBleachersAreBooming)) by { Cheer::TheBleachersAreBooming.lemma_parse_name(); }
        assert(Cheer::spec_parse("Fans slap the walls in rhythm"@) == Some(Cheer::FansSlapTheWallsInRhythm)) by { Cheer::FansSlapTheWallsInRhythm.lemma_parse_name(); }
        assert(Cheer::spec_parse("The hometown fans roar their support"@) == Some(Cheer::TheHometownFansRoarTheirSupport)) by { Cheer::TheHometownFansRoarTheirSupport.lemma_parse_name(); }
        assert(Cheer::spec_parse("Noise rains down from the seats"@) == Some(Cheer::NoiseRainsDownFromTheSeats)) by { Cheer::NoiseRainsDownFromTheSeats.lemma_parse_name(); }
        assert(Cheer::spec_parse("Fans wave their arms wildly"@) == Some(Cheer::FansWaveTheirArmsWildly)) by { Cheer::FansWaveTheirArmsWildly.lemma_parse_name(); }
        assert(Cheer::spec_parse("Energy pulses from the stands"@) == Some(Cheer::EnergyPulsesFromTheStands)) by { Cheer::EnergyPulsesFromTheStands.lemma_parse_name(); }
        assert(Cheer::spec_parse("The stands shake with noise"@) == Some(Cheer::TheStandsShakeWithNoise)) by { Cheer::TheStandsShakeWithNoise.lemma_parse_name(); }
        assert(Cheer::spec_parse("The ballpark is in an uproar"@) == Some(Cheer::TheBallparkIsInAnUproar)) by { Cheer::TheBallparkIsInAnUproar.lemma_parse_name(); }
        assert(Cheer::spec_parse("The stadium swell with cheers"@) == Some(Cheer::TheStadiumSwellWithCheers)) by { Cheer::TheStadiumSwellWithCheers.lemma_parse_name(); }
        assert(Cheer::spec_parse("The stadium erupts"@) == Some(Cheer::TheStadiumErupts)) by { Cheer::TheStadiumErupts.lemma_parse_name(); }
        assert(Cheer::spec_parse("Fans roar in support"@) == Some(Cheer::FansRoarInSupport)) by { Cheer::FansRoarInSupport.lemma_parse_name(); }
        assert(Cheer::spec_parse("A chant grows louder and louder"@) == Some(Cheer::AChantGrowsLouderAndLouder)) by { Cheer::AChantGrowsLouderAndLouder.lemma_parse_name(); }
        assert(Cheer::spec_parse("Fans shout encouragement"@) == Some(Cheer::FansShoutEncouragement)) by { Cheer::FansShoutEncouragement.lemma_parse_name(); }
        assert(Cheer::spec_parse("The stadium is buzzing"@) == Some(Cheer::TheStadiumIsBuzzing)) by { Cheer::TheStadiumIsBuzzing.lemma_parse_name(); }
        assert(Cheer::spec_parse("The hometown faithful are loving this"@) == Some(Cheer::TheHometownFaithfulAreLovingThis)) by { Cheer::TheHometownFaithfulAreLovingThis.lemma_parse_name(); }
        assert(Cheer::spec_parse("Fans whoop and holler"@) == Some(Cheer::FansWhoopAndHoller)) by { Cheer::FansWhoopAndHoller.lemma_parse_name(); }
        assert(Cheer::spec_parse("The home crowd is fired up"@) == Some(Cheer::TheHomeCrowdIsFiredUp)) by { Cheer::TheHomeCrowdIsFiredUp.lemma_parse_name(); }
        assert(Cheer::spec_parse("It's pandemonium in the stands"@) == Some(Cheer::ItsPandemoniumInTheStands)) by { Cheer::ItsPandemoniumInTheStands.lemma_parse_name(); }
        assert(Cheer::spec_parse("The noise is overwhelming"@) == Some(Cheer::TheNoiseIsOverwhelming)) by { Cheer::TheNoiseIsOverwhelming.lemma_parse_name(); }
        assert(Cheer::spec_parse("Home supporters whistle and cheer"@) == Some(Cheer::HomeSupportersWhistleAndCheer)) by { Cheer::HomeSupportersWhistleAndCheer.lemma_parse_name(); }
        assert(Cheer::spec_parse("The home fans make themselves heard"@) == Some(Cheer::TheHomeFansMakeThemselvesHeard)) by { Cheer::TheHomeFansMakeThemselvesHeard.lemma_parse_name(); }
        assert(Cheer::spec_parse("The crowd rallies behind the team"@) == Some(Cheer::TheCrowdRalliesBehindTheTeam)) by { Cheer::TheCrowdRalliesBehindTheTeam.lemma_parse_name(); }
        assert(Cheer::spec_parse("The stands are rumbling"@) == Some(Cheer::TheStandsAreRumbling)) by { Cheer::TheStandsAreRumbling.lemma_parse_name(); }
        assert(Cheer::spec_parse("It's pure pandemonium"@) == Some(Cheer::ItsPurePandemonium)) by { Cheer::ItsPurePandemonium.lemma_parse_name(); }
        assert(Cheer::spec_parse("The place is rocking"@) == Some(Cheer::ThePlaceIsRocking)) by { Cheer::ThePlaceIsRocking.lemma_parse_name(); }
        assert(Cheer::spec_parse("A wave of cheers sweeps the stadium"@) == Some(Cheer::AWaveOfCheersSweepsTheStadium)) by { Cheer::AWaveOfCheersSweepsTheStadium.lemma_parse_name(); }
        assert(Cheer::spec_parse("The hometown fans roar"@) == Some(Cheer::TheHometownFansRoar)) by { Cheer::TheHometownFansRoar.lemma_parse_name(); }
        assert(Cheer::spec_parse("The fans thunder their approval"@) == Some(Cheer::TheFansThunderTheirApproval)) by { Cheer::TheFansThunderTheirApproval.lemma_parse_name(); }
        assert(Cheer::spec_parse("Supporters yell at full volume"@) == Some(Cheer::SupportersYellAtFullVolume)) by { Cheer::SupportersYellAtFullVolume.lemma_parse_name(); }
        assert(Cheer::spec_parse("The crowd goes absolutely bonkers"@) == Some(Cheer::TheCrowdGoesAbsolutelyBonkers)) by { Cheer::TheCrowdGoesAbsolutelyBonkers.lemma_parse_name(); }
        assert(Cheer::spec_parse("The cheering is relentless"@) == Some(Cheer::TheCheeringIsRelentless)) by { Cheer::TheCheeringIsRelentless.lemma_parse_name(); }
        assert(Cheer::spec_parse("Fans pump their fists in the air"@) == Some(Cheer::FansPumpTheirFistsInTheAir)) by { Cheer::FansPumpTheirFistsInTheAir.lemma_parse_name(); }
        assert(Cheer::spec_parse("The home crowd won't stop cheering"@) == Some(Cheer::TheHomeCrowdWontStopCheering)) by { Cheer::TheHomeCrowdWontStopCheering.lemma_parse_name(); }
        assert(Cheer::spec_parse("The crowd erupts into cheers"@) == Some(Cheer::TheCrowdEruptsIntoCheers)) by { Cheer::TheCrowdEruptsIntoCheers.lemma_parse_name(); }
        assert(Cheer::spec_parse("A roar builds from the seats"@) == Some(Cheer::ARoarBuildsFromTheSeats)) by { Cheer::ARoarBuildsFromTheSeats.lemma_parse_name(); }
        assert(Cheer::spec_parse("Everyone in the stands is on their feet"@) == Some(Cheer::EveryoneInTheStandsIsOnTheirFeet)) by { Cheer::EveryoneInTheStandsIsOnTheirFeet.lemma_parse_name(); }
        assert(Cheer::spec_parse("It's a roar from the rafters"@) == Some(Cheer::ItsARoarFromTheRafters)) by { Cheer::ItsARoarFromTheRafters.lemma_parse_name(); }
        assert(Cheer::spec_parse("Chants rise from the bleachers"@) == Some(Cheer::ChantsRiseFromTheBleachers)) by { Cheer::ChantsRiseFromTheBleachers.lemma_parse_name(); }
        assert(Cheer::spec_parse("A cheer rips through the park"@) == Some(Cheer::ACheerRipsThroughThePark)) by { Cheer::ACheerRipsThroughThePark.lemma_parse_name(); }
        assert(Cheer::spec_parse("Everyone's clapping in rhythm"@) == Some(Cheer::EveryonesClappingInRhythm)) by { Cheer::EveryonesClappingInRhythm.lemma_parse_name(); }
        assert(Cheer::spec_parse("The crowd is pumped up"@) == Some(Cheer::TheCrowdIsPumpedUp)) by { Cheer::TheCrowdIsPumpedUp.lemma_parse_name(); }
        assert(Cheer::spec_parse("The stadium swells with cheers"@) == Some(Cheer::TheStadiumSwellsWithCheers)) by { Cheer::TheStadiumSwellsWithCheers.lemma_parse_name(); }
        assert(Cheer::spec_parse("You can barely hear the announcer"@) == Some(Cheer::YouCanBarelyHearTheAnnouncer)) by { Cheer::YouCanBarelyHearTheAnnouncer.lemma_parse_name(); }
        assert(Cheer::spec_parse("The fans are fired up"@) == Some(Cheer::TheFansAreFiredUp)) by { Cheer::TheFansAreFiredUp.lemma_parse_name(); }
        assert(Cheer::spec_parse("The decibels rise to a frenzy"@) == Some(Cheer::TheDecibelsRiseToAFrenzy)) by { Cheer::TheDecibelsRiseToAFrenzy.lemma_parse_name(); }
        assert(Cheer::spec_parse("The energy in the park surges"@) == Some(Cheer::TheEnergyInTheParkSurges)) by { Cheer::TheEnergyInTheParkSurges.lemma_parse_name(); }
        assert(Cheer::spec_parse("Fans yell themselves hoarse"@) == Some(Cheer::FansYellThemselvesHoarse)) by { Cheer::FansYellThemselvesHoarse.lemma_parse_name(); }
        assert(Cheer::spec_parse("A mighty cheer erupts"@) == Some(Cheer::AMightyCheerErupts)) by { Cheer::AMightyCheerErupts.lemma_parse_name(); }
        assert(Cheer::spec_parse("The stands are electric"@) == Some(Cheer::TheStandsAreElectric)) by { Cheer::TheStandsAreElectric.lemma_parse_name(); }
        assert(Cheer::spec_parse("Fans jump and shout"@) == Some(Cheer::FansJumpAndShout)) by { Cheer::FansJumpAndShout.lemma_parse_name(); }
        assert(Cheer::spec_parse("The cheers echo off the walls"@) == Some(Cheer::TheCheersEchoOffTheWalls)) by { Cheer::TheCheersEchoOffTheWalls.lemma_parse_name(); }
        assert(Cheer::spec_parse("You can feel the stands vibrating"@) == Some(Cheer::YouCanFeelTheStandsVibrating)) by { Cheer::YouCanFeelTheStandsVibrating.lemma_parse_name(); }
        assert(Cheer::spec_parse("Noise levels spike"@) == Some(Cheer::NoiseLevelsSpike)) by { Cheer::NoiseLevelsSpike.lemma_parse_name(); }
        assert(Cheer::spec_parse("Everyone is cheering at once"@) == Some(Cheer::EveryoneIsCheeringAtOnce)) by { Cheer::EveryoneIsCheeringAtOnce.lemma_parse_name(); }
        assert(Cheer::spec_parse("A huge cheer erupts"@) == Some(Cheer::AHugeCheerErupts)) by { Cheer::AHugeCheerErupts.lemma_parse_name(); }
        assert(Cheer::spec_parse("The noise just keeps building"@) == Some(Cheer::TheNoiseJustKeepsBuilding)) by { Cheer::TheNoiseJustKeepsBuilding.lemma_parse_name(); }
        assert(Cheer::spec_parse("The faithful are shouting at the top of their lungs"@) == Some(Cheer::TheFaithfulAreShoutingAtTheTopOfTheirLungs)) by { Cheer::TheFaithfulAreShoutingAtTheTopOfTheirLungs.lemma_parse_name(); }
        assert(Cheer::spec_parse("They cheer like there's no tomorrow"@) == Some(Cheer::TheyCheerLikeTheresNoTomorrow)) by { Cheer::TheyCheerLikeTheresNoTomorrow.lemma_parse_name(); }
        assert(Cheer::spec_parse("You can feel the hype building"@) == Some(Cheer::YouCanFeelTheHypeBuilding)) by { Cheer::YouCanFeelTheHypeBuilding.lemma_parse_name(); }
        assert(Cheer::spec_parse("The excitement is off the charts"@) == Some(Cheer::TheExcitementIsOffTheCharts)) by { Cheer::TheExcitementIsOffTheCharts.lemma_parse_name(); }
        assert(Cheer::spec_parse("Excitement surges through the park"@) == Some(Cheer::ExcitementSurgesThroughThePark)) by { Cheer::ExcitementSurgesThroughThePark.lemma_parse_name(); }
        assert(Cheer::spec_parse("Every fan is making noise"@) == Some(Cheer::EveryFanIsMakingNoise)) by { Cheer::EveryFanIsMakingNoise.lemma_parse_name(); }
        assert(Cheer::spec_parse("The supporters fuel their team"@) == Some(Cheer::TheSupportersFuelTheirTeam)) by { Cheer::TheSupportersFuelTheirTeam.lemma_parse_name(); }
        assert(Cheer::spec_parse("The park vibrates with noise"@) == Some(Cheer::TheParkVibratesWithNoise)) by { Cheer::TheParkVibratesWithNoise.lemma_parse_name(); }
        assert(Cheer::spec_parse("The stands are shaking"@) == Some(Cheer::TheStandsAreShaking)) by { Cheer::TheStandsAreShaking.lemma_parse_name(); }
        assert(Cheer::spec_parse("The fans bellow encouragement"@) == Some(Cheer::TheFansBellowEncouragement)) by { Cheer::TheFansBellowEncouragement.lemma_parse_name(); }
        assert(Cheer::spec_parse("The stadium shakes with excitement"@) == Some(Cheer::TheStadiumShakesWithExcitement)) by { Cheer::TheStadiumShakesWithExcitement.lemma_parse_name(); }
        assert(Cheer::spec_parse("Supporters wave their banners high"@) == Some(Cheer::SupportersWaveTheirBannersHigh)) by { Cheer::SupportersWaveTheirBannersHigh.lemma_parse_name(); }
        assert(Cheer::spec_parse("The faithful rise as one"@) == Some(Cheer::TheFaithfulRiseAsOne)) by { Cheer::TheFaithfulRiseAsOne.lemma_parse_name(); }
        assert(Cheer::spec_parse("Cheers cascade from every section"@) == Some(Cheer::CheersCascadeFromEverySection)) by { Cheer::CheersCascadeFromEverySection.lemma_parse_name(); }
        assert(Cheer::spec_parse("The crowd belts out the team's chant"@) == Some(Cheer::TheCrowdBeltsOutTheTeamsChant)) by { Cheer::TheCrowdBeltsOutTheTeamsChant.lemma_parse_name(); }
        assert(Cheer::spec_parse("The fans scream for their heroes"@) == Some(Cheer::TheFansScreamForTheirHeroes)) by { Cheer::TheFansScreamForTheirHeroes.lemma_parse_name(); }
        assert(Cheer::spec_parse("The crowd is ecstatic"@) == Some(Cheer::TheCrowdIsEcstatic)) by { Cheer::TheCrowdIsEcstatic.lemma_parse_name(); }
        assert(Cheer::spec_parse("The crowd is pumped"@) == Some(Cheer::TheCrowdIsPumped)) by { Cheer::TheCrowdIsPumped.lemma_parse_name(); }
    }
}
/// The reasons for which ROBO-UMP ejects a player.
#[derive(Debug, Clone, PartialEq, Eq, Hash)]
pub enum EjectionReason {
    EatingAHotdog,
    Spitting,
    LookingAtThemTheWrongWay,
    WhisperingSomethingToAnotherPlayer,
    Dancing,
    NotLookingExcitedEnough,
    PickingTheirNose,
    DrinkingBeer,
    TakingAPhoneCall,
    UsingAForeignSubstance,
    EatingNachos,
    ChewingGumTooLoud,
    TextingDuringPlay,
    HatWornAtImproperRotationalValue,
    MismatchedSocks,
    WrinkledShirt,
    ShoeUntied,
    MakingWeirdHandSignals,
    Laughing,
    SomethingTheySaidEarlierInTheLockerRoom,
    TellingABadJoke,
    WinkingAtSomeoneInTheCrowd,
    SayingABadWord,
    Humming,
    Unknown(String),
}

impl EjectionReason {
    /// The text by which this value is written in event messages.
    pub open spec fn spec_name(self) -> Seq<char> {
        match self {
            EjectionReason::EatingAHotdog => "eating a hotdog"@,
            EjectionReason::Spitting => "spitting"@,
            EjectionReason::LookingAtThemTheWrongWay => "looking at them the wrong way"@,
            EjectionReason::WhisperingSomethingToAnotherPlayer => "whispering something to another player"@,
            EjectionReason::Dancing => "dancing"@,
            EjectionReason::NotLookingExcitedEnough => "not looking excited enough"@,
            EjectionReason::PickingTheirNose => "picking their nose"@,
            EjectionReason::DrinkingBeer => "drinking beer"@,
            EjectionReason::TakingAPhoneCall => "taking a phone call"@,
            EjectionReason::UsingAForeignSubstance => "using a foreign substance"@,
            EjectionReason::EatingNachos => "eating nachos"@,
            EjectionReason::ChewingGumTooLoud => "chewing gum too loud"@,
            EjectionReason::TextingDuringPlay => "texting during play"@,
            EjectionReason::HatWornAtImproperRotationalValue => "hat worn at improper rotational value"@,
            EjectionReason::MismatchedSocks => "mismatched socks"@,
            EjectionReason::WrinkledShirt => "wrinkled shirt"@,
            EjectionReason::ShoeUntied => "shoe untied"@,
            EjectionReason::MakingWeirdHandSignals => "making weird hand signals"@,
            EjectionReason::Laughing => "laughing"@,
            EjectionReason::SomethingTheySaidEarlierInTheLockerRoom => "something they said earlier in the locker room"@,
            EjectionReason::TellingABadJoke => "telling a bad joke"@,
            EjectionReason::WinkingAtSomeoneInTheCrowd => "winking at someone in the crowd"@,
            EjectionReason::SayingABadWord => "saying a bad word"@,
            EjectionReason::Humming => "humming"@,
            EjectionReason::Unknown(s) => s@,
        }
    }

    /// The text by which this value is written, as an owned string.
    pub fn to_string(&self) -> (r: String)
        ensures
            r@ == self.spec_name(),
    {
        match self {
            EjectionReason::EatingAHotdog => String::from_str("eating a hotdog"),
            EjectionReason::Spitting => String::from_str("spitting"),
            EjectionReason::LookingAtThemTheWrongWay => String::from_str("looking at them the wrong way"),
            EjectionReason::WhisperingSomethingToAnotherPlayer => String::from_str("whispering something to another player"),
            EjectionReason::Dancing => String::from_str("dancing"),
            EjectionReason::NotLookingExcitedEnough => String::from_str("not looking excited enough"),
            EjectionReason::PickingTheirNose => String::from_str("picking their nose"),
            EjectionReason::DrinkingBeer => String::from_str("drinking beer"),
            EjectionReason::TakingAPhoneCall => String::from_str("taking a phone call"),
            EjectionReason::UsingAForeignSubstance => String::from_str("using a foreign substance"),
            EjectionReason::EatingNachos => String::from_str("eating nachos"),
            EjectionReason::ChewingGumTooLoud => String::from_str("chewing gum too loud"),
            EjectionReason::TextingDuringPlay => String::from_str("texting during play"),
            EjectionReason::HatWornAtImproperRotationalValue => String::from_str("hat worn at improper rotational value"),
            EjectionReason::MismatchedSocks => String::from_str("mismatched socks"),
            EjectionReason::WrinkledShirt => String::from_str("wrinkled shirt"),
            EjectionReason::ShoeUntied => String::from_str("shoe untied"),
            EjectionReason::MakingWeirdHandSignals => String::from_str("making weird hand signals"),
            EjectionReason::Laughing => String::from_str("laughing"),
            EjectionReason::SomethingTheySaidEarlierInTheLockerRoom => String::from_str("something they said earlier in the locker room"),
            EjectionReason::TellingABadJoke => String::from_str("telling a bad joke"),
            EjectionReason::WinkingAtSomeoneInTheCrowd => String::from_str("winking at someone in the crowd"),
            EjectionReason::SayingABadWord => String::from_str("saying a bad word"),
            EjectionReason::Humming => String::from_str("humming"),
            EjectionReason::Unknown(s) => s.clone(),
        }
    }

    /// The known value written as `s`, if any.
    pub open spec fn spec_parse(s: Seq<char>) -> Option<EjectionReason> {
        if s.len() == 15 {
            if s == "eating a hotdog"@ { Some(EjectionReason::EatingAHotdog) }
            else { None }
        }
        else if s.len() == 8 {
            if s == "spitting"@ { Some(EjectionReason::Spitting) }
            else if s == "laughing"@ { Some(EjectionReason::Laughing) }
            else { None }
        }
        else if s.len() == 29 {
            if s == "looking at them the wrong way"@ { Some(EjectionReason::LookingAtThemTheWrongWay) }
            else { None }
        }
        else if s.len() == 38 {
            if s == "whispering something to another player"@ { Some(EjectionReason::WhisperingSomethingToAnotherPlayer) }
            else { None }
        }
        else if s.len() == 7 {
            if s == "dancing"@ { Some(EjectionReason::Dancing) }
            else if s == "humming"@ { Some(EjectionReason::Humming) }
            else { None }
        }
        else if s.len() == 26 {
            if s == "not looking excited enough"@ { Some(EjectionReason::NotLookingExcitedEnough) }
            else { None }
        }
        else if s.len() == 18 {
            if s == "picking their nose"@ { Some(EjectionReason::PickingTheirNose) }
            else if s == "telling a bad joke"@ { Some(EjectionReason::TellingABadJoke) }
            else { None }
        }
        else if s.len() == 13 {
            if s == "drinking beer"@ { Some(EjectionReason::DrinkingBeer) }
            else if s == "eating nachos"@ { Some(EjectionReason::EatingNachos) }
            else { None }
        }
        else if s.len() == 19 {
            if s == "taking a phone call"@ { Some(EjectionReason::TakingAPhoneCall) }
            else if s == "texting during play"@ { Some(EjectionReason::TextingDuringPlay) }
            else { None }
        }
        else if s.len() == 25 {
            if s == "using a foreign substance"@ { Some(EjectionReason::UsingAForeignSubstance) }
            else if s == "making weird hand signals"@ { Some(EjectionReason::MakingWeirdHandSignals) }
            else { None }
        }
        else if s.len() == 20 {
            if s == "chewing gum too loud"@ { Some(EjectionReason::ChewingGumTooLoud) }
            else { None }
        }
        else if s.len() == 37 {
            if s == "hat worn at improper rotational value"@ { Some(EjectionReason::HatWornAtImproperRotationalValue) }
            else { None }
        }
        else if s.len() == 16 {
            if s == "mismatched socks"@ { Some(EjectionReason::MismatchedSocks) }
            else { None }
        }
        else if s.len() == 14 {
            if s == "wrinkled shirt"@ { Some(EjectionReason::WrinkledShirt) }
            else { None }
        }
        else if s.len() == 11 {
            if s == "shoe untied"@ { Some(EjectionReason::ShoeUntied) }
            else { None }
        }
        else if s.len() == 46 {
            if s == "something they said earlier in the locker room"@ { Some(EjectionReason::SomethingTheySaidEarlierInTheLockerRoom) }
            else { None }
        }
        else if s.len() == 31 {
            if s == "winking at someone in the crowd"@ { Some(EjectionReason::WinkingAtSomeoneInTheCrowd) }
            else { None }
        }
        else if s.len() == 17 {
            if s == "saying a bad word"@ { Some(EjectionReason::SayingABadWord) }
            else { None }
        }
        else { None }
    }

    /// Reads a value from its written form; text that names no known value is kept as it is.
    pub fn new(s: &str) -> (r: EjectionReason)
        ensures
            match EjectionReason::spec_parse(s@) {
                Some(x) => r == x,
                None => r.spec_name() == s@ && r is Unknown,
            },
    {
        if str_eq(s, "eating a hotdog") {
            proof { reveal_strlit("eating a hotdog"); }
            return EjectionReason::EatingAHotdog;
        }
        if str_eq(s, "spitting") {
            proof { reveal_strlit("spitting"); }
            return EjectionReason::Spitting;
        }
        if str_eq(s, "looking at them the wrong way") {
            proof { reveal_strlit("looking at them the wrong way"); }
            return EjectionReason::LookingAtThemTheWrongWay;
        }
        if str_eq(s, "whispering something to another player") {
            proof { reveal_strlit("whispering something to another player"); }
            return EjectionReason::WhisperingSomethingToAnotherPlayer;
        }
        if str_eq(s, "dancing") {
            proof { reveal_strlit("dancing"); }
            return EjectionReason::Dancing;
        }
        if str_eq(s, "not looking excited enough") {
            proof { reveal_strlit("not looking excited enough"); }
            return EjectionReason::NotLookingExcitedEnough;
        }
        if str_eq(s, "picking their nose") {
            proof { reveal_strlit("picking their nose"); }
            return EjectionReason::PickingTheirNose;
        }
        if str_eq(s, "drinking beer") {
            proof { reveal_strlit("drinking beer"); }
            return EjectionReason::DrinkingBeer;
        }
        if str_eq(s, "taking a phone call") {
            proof { reveal_strlit("taking a phone call"); }
            return EjectionReason::TakingAPhoneCall;
        }
        if str_eq(s, "using a foreign substance") {
            proof { reveal_strlit("using a foreign substance"); }
            return EjectionReason::UsingAForeignSubstance;
        }
        if str_eq(s, "eating nachos") {
            proof { reveal_strlit("eating nachos"); }
            return EjectionReason::EatingNachos;
        }
        if str_eq(s, "chewing gum too loud") {
            proof { reveal_strlit("chewing gum too loud"); }
            return EjectionReason::ChewingGumTooLoud;
        }
        if str_eq(s, "texting during play") {
            proof { reveal_strlit("texting during play"); }
            return EjectionReason::TextingDuringPlay;
        }
        if str_eq(s, "hat worn at improper rotational value") {
            proof { reveal_strlit("hat worn at improper rotational value"); }
            return EjectionReason::HatWornAtImproperRotationalValue;
        }
        if str_eq(s, "mismatched socks") {
            proof { reveal_strlit("mismatched socks"); }
            return EjectionReason::MismatchedSocks;
        }
        if str_eq(s, "wrinkled shirt") {
            proof { reveal_strlit("wrinkled shirt"); }
            return EjectionReason::WrinkledShirt;
        }
        if str_eq(s, "shoe untied") {
            proof { reveal_strlit("shoe untied"); }
            return EjectionReason::ShoeUntied;
        }
        if str_eq(s, "making weird hand signals") {
            proof { reveal_strlit("making weird hand signals"); }
            return EjectionReason::MakingWeirdHandSignals;
        }
        if str_eq(s, "laughing") {
            proof { reveal_strlit("laughing"); }
            return EjectionReason::Laughing;
        }
        if str_eq(s, "something they said earlier in the locker room") {
            proof { reveal_strlit("something they said earlier in the locker room"); }
            return EjectionReason::SomethingTheySaidEarlierInTheLockerRoom;
        }
        if str_eq(s, "telling a bad joke") {
            proof { reveal_strlit("telling a bad joke"); }
            return EjectionReason::TellingABadJoke;
        }
        if str_eq(s, "winking at someone in the crowd") {
            proof { reveal_strlit("winking at someone in the crowd"); }
            return EjectionReason::WinkingAtSomeoneInTheCrowd;
        }
        if str_eq(s, "saying a bad word") {
            proof { reveal_strlit("saying a bad word"); }
            return EjectionReason::SayingABadWord;
        }
        if str_eq(s, "humming") {
            proof { reveal_strlit("humming"); }
            return EjectionReason::Humming;
        }
        EjectionReason::Unknown(String::from_str(s))
    }

    /// Reading the written form of a known value gives that value back.
    pub proof fn lemma_parse_name(self)
        requires
            !(self is Unknown),
        ensures
            EjectionReason::spec_parse(self.spec_name()) == Some(self),
    {
        match self {
            EjectionReason::EatingAHotdog => {
                reveal_strlit("eating a hotdog");
            }
            EjectionReason::Spitting => {
                reveal_strlit("spitting");
            }
            EjectionReason::LookingAtThemTheWrongWay => {
                reveal_strlit("looking at them the wrong way");
            }
            EjectionReason::WhisperingSomethingToAnotherPlayer => {
                reveal_strlit("whispering something to another player");
            }
            EjectionReason::Dancing => {
                reveal_strlit("dancing");
            }
            EjectionReason::NotLookingExcitedEnough => {
                reveal_strlit("not looking excited enough");
            }
            EjectionReason::PickingTheirNose => {
                reveal_strlit("picking their nose");
            }
            EjectionReason::DrinkingBeer => {
                reveal_strlit("drinking beer");
            }
            EjectionReason::TakingAPhoneCall => {
                reveal_strlit("taking a phone call");
            }
            EjectionReason::UsingAForeignSubstance => {
                reveal_strlit("using a foreign substance");
            }
            EjectionReason::EatingNachos => {
                reveal_strlit("eating nachos");
                reveal_strlit("drinking beer"); assert("eating nachos"@[0] != "drinking beer"@[0]);
            }
            EjectionReason::ChewingGumTooLoud => {
                reveal_strlit("chewing gum too loud");
            }
            EjectionReason::TextingDuringPlay => {
                reveal_strlit("texting during play");
                reveal_strlit("taking a phone call"); assert("texting during play"@[1] != "taking a phone call"@[1]);
            }
            EjectionReason::HatWornAtImproperRotationalValue => {
                reveal_strlit("hat worn at improper rotational value");
            }
            EjectionReason::MismatchedSocks => {
                reveal_strlit("mismatched socks");
            }
            EjectionReason::WrinkledShirt => {
                reveal_strlit("wrinkled shirt");
            }
            EjectionReason::ShoeUntied => {
                reveal_strlit("shoe untied");
            }
            EjectionReason::MakingWeirdHandSignals => {
                reveal_strlit("making weird hand signals");
                reveal_strlit("using a foreign substance"); assert("making weird hand signals"@[0] != "using a foreign substance"@[0]);
            }
            EjectionReason::Laughing => {
                reveal_strlit("laughing");
                reveal_strlit("spitting"); assert("laughing"@[0] != "spitting"@[0]);
            }
            EjectionReason::SomethingTheySaidEarlierInTheLockerRoom => {
                reveal_strlit("something they said earlier in the locker room");
            }
            EjectionReason::TellingABadJoke => {
                reveal_strlit("telling a bad joke");
                reveal_strlit("picking their nose"); assert("telling a bad joke"@[0] != "picking their nose"@[0]);
            }
            EjectionReason::WinkingAtSomeoneInTheCrowd => {
                reveal_strlit("winking at someone in the crowd");
            }
            EjectionReason::SayingABadWord => {
                reveal_strlit("saying a bad word");
            }
            EjectionReason::Humming => {
                reveal_strlit("humming");
                reveal_strlit("dancing"); assert("humming"@[0] != "dancing"@[0]);
            }
            EjectionReason::Unknown(_) => {}
        }
    }
    /// The written form of each known value, and what reading it gives.
    pub proof fn lemma_name_table()
        ensures
            EjectionReason::EatingAHotdog.spec_name() == "eating a hotdog"@,
            EjectionReason::Spitting.spec_name() == "spitting"@,
            EjectionReason::LookingAtThemTheWrongWay.spec_name() == "looking at them the wrong way"@,
            EjectionReason::WhisperingSomethingToAnotherPlayer.spec_name() == "whispering something to another player"@,
            EjectionReason::Dancing.spec_name() == "dancing"@,
            EjectionReason::NotLookingExcitedEnough.spec_name() == "not looking excited enough"@,
            EjectionReason::PickingTheirNose.spec_name() == "picking their nose"@,
            EjectionReason::DrinkingBeer.spec_name() == "drinking beer"@,
            EjectionReason::TakingAPhoneCall.spec_name() == "taking a phone call"@,
            EjectionReason::UsingAForeignSubstance.spec_name() == "using a foreign substance"@,
            EjectionReason::EatingNachos.spec_name() == "eating nachos"@,
            EjectionReason::ChewingGumTooLoud.spec_name() == "chewing gum too loud"@,
            EjectionReason::TextingDuringPlay.spec_name() == "texting during play"@,
            EjectionReason::HatWornAtImproperRotationalValue.spec_name() == "hat worn at improper rotational value"@,
            EjectionReason::MismatchedSocks.spec_name() == "mismatched socks"@,
            EjectionReason::WrinkledShirt.spec_name() == "wrinkled shirt"@,
            EjectionReason::ShoeUntied.spec_name() == "shoe untied"@,
            EjectionReason::MakingWeirdHandSignals.spec_name() == "making weird hand signals"@,
            EjectionReason::Laughing.spec_name() == "laughing"@,
            EjectionReason::SomethingTheySaidEarlierInTheLockerRoom.spec_name() == "something they said earlier in the locker room"@,
            EjectionReason::TellingABadJoke.spec_name() == "telling a bad joke"@,
            EjectionReason::WinkingAtSomeoneInTheCrowd.spec_name() == "winking at someone in the crowd"@,
            EjectionReason::SayingABadWord.spec_name() == "saying a bad word"@,
            EjectionReason::Humming.spec_name() == "humming"@,
            EjectionReason::spec_parse("eating a hotdog"@) == Some(EjectionReason::EatingAHotdog),
            EjectionReason::spec_parse("spitting"@) == Some(EjectionReason::Spitting),
            EjectionReason::spec_parse("looking at them the wrong way"@) == Some(EjectionReason::LookingAtThemTheWrongWay),
            EjectionReason::spec_parse("whispering something to another player"@) == Some(EjectionReason::WhisperingSomethingToAnotherPlayer),
            EjectionReason::spec_parse("dancing"@) == Some(EjectionReason::Dancing),
            EjectionReason::spec_parse("not looking excited enough"@) == Some(EjectionReason::NotLookingExcitedEnough),
            EjectionReason::spec_parse("picking their nose"@) == Some(EjectionReason::PickingTheirNose),
            EjectionReason::spec_parse("drinking beer"@) == Some(EjectionReason::DrinkingBeer),
            EjectionReason::spec_parse("taking a phone call"@) == Some(EjectionReason::TakingAPhoneCall),
            EjectionReason::spec_parse("using a foreign substance"@) == Some(EjectionReason::UsingAForeignSubstance),
            EjectionReason::spec_parse("eating nachos"@) == Some(EjectionReason::EatingNachos),
            EjectionReason::spec_parse("chewing gum too loud"@) == Some(EjectionReason::ChewingGumTooLoud),
            EjectionReason::spec_parse("texting during play"@) == Some(EjectionReason::TextingDuringPlay),
            EjectionReason::spec_parse("hat worn at improper rotational value"@) == Some(EjectionReason::HatWornAtImproperRotationalValue),
            EjectionReason::spec_parse("mismatched socks"@) == Some(EjectionReason::MismatchedSocks),
            EjectionReason::spec_parse("wrinkled shirt"@) == Some(EjectionReason::WrinkledShirt),
            EjectionReason::spec_parse("shoe untied"@) == Some(EjectionReason::ShoeUntied),
            EjectionReason::spec_parse("making weird hand signals"@) == Some(EjectionReason::MakingWeirdHandSignals),
            EjectionReason::spec_parse("laughing"@) == Some(EjectionReason::Laughing),
            EjectionReason::spec_parse("something they said earlier in the locker room"@) == Some(EjectionReason::SomethingTheySaidEarlierInTheLockerRoom),
            EjectionReason::spec_parse("telling a bad joke"@) == Some(EjectionReason::TellingABadJoke),
            EjectionReason::spec_parse("winking at someone in the crowd"@) == Some(EjectionReason::WinkingAtSomeoneInTheCrowd),
            EjectionReason::spec_parse("saying a bad word"@) == Some(EjectionReason::SayingABadWord),
            EjectionReason::spec_parse("humming"@) == Some(EjectionReason::Humming),
    {
        EjectionReason::EatingAHotdog.lemma_parse_name();
        EjectionReason::Spitting.lemma_parse_name();
        EjectionReason::LookingAtThemTheWrongWay.lemma_parse_name();
        EjectionReason::WhisperingSomethingToAnotherPlayer.lemma_parse_name();
        EjectionReason::Dancing.lemma_parse_name();
        EjectionReason::NotLookingExcitedEnough.lemma_parse_name();
        EjectionReason::PickingTheirNose.lemma_parse_name();
        EjectionReason::DrinkingBeer.lemma_parse_name();
        EjectionReason::TakingAPhoneCall.lemma_parse_name();
        EjectionReason::UsingAForeignSubstance.lemma_parse_name();
        EjectionReason::EatingNachos.lemma_parse_name();
        EjectionReason::ChewingGumTooLoud.lemma_parse_name();
        EjectionReason::TextingDuringPlay.lemma_parse_name();
        EjectionReason::HatWornAtImproperRotationalValue.lemma_parse_name();
        EjectionReason::MismatchedSocks.lemma_parse_name();
        EjectionReason::WrinkledShirt.lemma_parse_name();
        EjectionReason::ShoeUntied.lemma_parse_name();
        EjectionReason::MakingWeirdHandSignals.lemma_parse_name();
        EjectionReason::Laughing.lemma_parse_name();
        EjectionReason::SomethingTheySaidEarlierInTheLockerRoom.lemma_parse_name();
        EjectionReason::TellingABadJoke.lemma_parse_name();
        EjectionReason::WinkingAtSomeoneInTheCrowd.lemma_parse_name();
        EjectionReason::SayingABadWord.lemma_parse_name();
        EjectionReason::Humming.lemma_parse_name();
    }
}
/// The kinds of violation for which a player is ejected.
#[derive(Debug, Clone, PartialEq, Eq, Hash)]
pub enum ViolationType {
    Sportsmanship,
    Uniform,
    Communication,
    Unknown(String),
}

impl ViolationType {
    /// The text by which this value is written in event messages.
    pub open spec fn spec_name(self) -> Seq<char> {
        match self {
            ViolationType::Sportsmanship => "Sportsmanship"@,
            ViolationType::Uniform => "Uniform"@,
            ViolationType::Communication => "Communication"@,
            ViolationType::Unknown(s) => s@,
        }
    }

    /// The text by which this value is written, as an owned string.
    pub fn to_string(&self) -> (r: String)
        ensures
            r@ == self.spec_name(),
    {
        match self {
            ViolationType::Sportsmanship => String::from_str("Sportsmanship"),
            ViolationType::Uniform => String::from_str("Uniform"),
            ViolationType::Communication => String::from_str("Communication"),
            ViolationType::Unknown(s) => s.clone(),
        }
    }

    /// The known value written as `s`, if any.
    pub open spec fn spec_parse(s: Seq<char>) -> Option<ViolationType> {
        if s.len() == 13 {
            if s == "Sportsmanship"@ { Some(ViolationType::Sportsmanship) }
            else if s == "Communication"@ { Some(ViolationType::Communication) }
            else { None }
        }
        else if s.len() == 7 {
            if s == "Uniform"@ { Some(ViolationType::Uniform) }
            else { None }
        }
        else { None }
    }

    /// Reads a value from its written form; text that names no known value is kept as it is.
    pub fn new(s: &str) -> (r: ViolationType)
        ensures
            match ViolationType::spec_parse(s@) {
                Some(x) => r == x,
                None => r.spec_name() == s@ && r is Unknown,
            },
    {
        if str_eq(s, "Sportsmanship") {
            proof { reveal_strlit("Sportsmanship"); }
            return ViolationType::Sportsmanship;
        }
        if str_eq(s, "Uniform") {
            proof { reveal_strlit("Uniform"); }
            return ViolationType::Uniform;
        }
        if str_eq(s, "Communication") {
            proof { reveal_strlit("Communication"); }
            return ViolationType::Communication;
        }
        ViolationType::Unknown(String::from_str(s))
    }

    /// Reading the written form of a known value gives that value back.
    pub proof fn lemma_parse_name(self)
        requires
            !(self is Unknown),
        ensures
            ViolationType::spec_parse(self.spec_name()) == Some(self),
    {
        match self {
            ViolationType::Sportsmanship => {
                reveal_strlit("Sportsmanship");
            }
            ViolationType::Uniform => {
                reveal_strlit("Uniform");
            }
            ViolationType::Communication => {
                reveal_strlit("Communication");
                reveal_strlit("Sportsmanship"); assert("Communication"@[0] != "Sportsmanship"@[0]);
            }
            ViolationType::Unknown(_) => {}
        }
    }
    /// The written form of each known value, and what reading it gives.
    pub proof fn lemma_name_table()
        ensures
            ViolationType::Sportsmanship.spec_name() == "Sportsmanship"@,
            ViolationType::Uniform.spec_name() == "Uniform"@,
            ViolationType::Communication.spec_name() == "Communication"@,
            ViolationType::spec_parse("Sportsmanship"@) == Some(ViolationType::Sportsmanship),
            ViolationType::spec_parse("Uniform"@) == Some(ViolationType::Uniform),
            ViolationType::spec_parse("Communication"@) == Some(ViolationType::Communication),
    {
        ViolationType::Sportsmanship.lemma_parse_name();
        ViolationType::Uniform.lemma_parse_name();
        ViolationType::Communication.lemma_parse_name();
    }
}

impl Cheer {
    /// The sentence of a cheer: " {cheer}!", with a 📣 before the cheer once cheers got an emoji.
    pub open spec fn spec_unparse<T: Text>(&self, context: UnparsingContext<T>, event_index: Option<u16>) -> Seq<char> {
        if context.spec_before(event_index, Breakpoints::CheersGetEmoji) {
            " "@ + self.spec_name() + "!"@
        } else {
            " 📣 "@ + self.spec_name() + "!"@
        }
    }

    pub fn push_unparse<T: Text>(&self, out: &mut String, context: &UnparsingContext<T>, event_index: Option<u16>)
        requires
            context.wf(),
        ensures
            final(out)@ == old(out)@ + self.spec_unparse(*context, event_index),
    {
        if context.before(event_index, Breakpoints::CheersGetEmoji) {
            out.append(" ");
        } else {
            out.append(" 📣 ");
        }
        let c = self.to_string();
        out.append(c.as_str());
        out.append("!");
    }

    pub fn unparse<T: Text>(&self, context: &UnparsingContext<T>, event_index: Option<u16>) -> (r: String)
        requires
            context.wf(),
        ensures
            r@ == self.spec_unparse(*context, event_index),
    {
        let mut s = String::new();
        self.push_unparse(&mut s, context, event_index);
        s
    }
}

impl EjectionReason {
    pub fn unparse(&self) -> (r: String)
        ensures
            r@ == self.spec_name(),
    {
        self.to_string()
    }
}

impl ViolationType {
    pub fn unparse(&self) -> (r: String)
        ensures
            r@ == self.spec_name(),
    {
        self.to_string()
    }
}

/// Who takes the place of an ejected player.
#[derive(Debug, Clone, PartialEq)]
pub enum EjectionReplacement<S> {
    BenchPlayer { player_name: S },
    RosterPlayer { player: PlacedPlayer<S> },
}

impl<S: Text> EjectionReplacement<S> {
    /// The replacement, borrowing its text.
    pub fn as_ref(&self) -> (r: EjectionReplacement<&str>)
        ensures
            match (*self, r) {
                (EjectionReplacement::BenchPlayer { player_name: a }, EjectionReplacement::BenchPlayer { player_name: b }) => a@ == b@,
                (EjectionReplacement::RosterPlayer { player: a }, EjectionReplacement::RosterPlayer { player: b }) =>
                    a.name@ == b.name@ && a.place == b.place,
                _ => false,
            },
    {
        match self {
            EjectionReplacement::BenchPlayer { player_name } => EjectionReplacement::BenchPlayer { player_name: player_name.as_text() },
            EjectionReplacement::RosterPlayer { player } => EjectionReplacement::RosterPlayer { player: player.as_ref() },
        }
    }

    /// The name of the replacing player.
    pub fn player_name(&self) -> (r: &S)
        ensures
            *r == (match *self {
                EjectionReplacement::BenchPlayer { player_name } => player_name,
                EjectionReplacement::RosterPlayer { player } => player.name,
            }),
    {
        match self {
            EjectionReplacement::BenchPlayer { player_name } => player_name,
            EjectionReplacement::RosterPlayer { player } => &player.name,
        }
    }
}

/// A player ejected by ROBO-UMP, or an ejection that failed.
#[derive(Debug, Clone, PartialEq)]
pub enum Ejection<S> {
    Ejection {
        team: EmojiTeam<S>,
        ejected_player: PlacedPlayer<S>,
        violation_type: ViolationType,
        reason: EjectionReason,
        replacement: EjectionReplacement<S>,
    },
    FailedEjection { player_names: [S; 2] },
}

impl<S: Text> Ejection<S> {
    pub open spec fn spec_text(&self) -> Seq<char> {
        match self {
            Ejection::Ejection { team, ejected_player, violation_type, reason, replacement } => {
                let head = " 🤖 ROBO-UMP ejected "@ + team.spec_text() + " "@ + ejected_player.spec_text() + " for a "@
                    + violation_type.spec_name() + " Violation ("@ + reason.spec_name() + ")."@;
                match replacement {
                    EjectionReplacement::BenchPlayer { player_name } => head + " Bench Player "@ + player_name@ + " takes their place."@,
                    EjectionReplacement::RosterPlayer { player } => head + " "@ + team.emoji@ + " "@ + player.spec_text() + " takes the mound."@,
                }
            },
            Ejection::FailedEjection { player_names } =>
                " 🤖 ROBO-UMP attempted an ejection, but "@ + player_names[0]@ + ", "@ + player_names[1]@ + " would not budge."@,
        }
    }

    pub fn push_to(&self, out: &mut String)
        ensures
            final(out)@ == old(out)@ + self.spec_text(),
    {
        match self {
            Ejection::Ejection { team, ejected_player, violation_type, reason, replacement } => {
                out.append(" 🤖 ROBO-UMP ejected ");
                team.push_to(out);
                out.append(" ");
                ejected_player.push_to(out);
                out.append(" for a ");
                let v = violation_type.to_string();
                out.append(v.as_str());
                out.append(" Violation (");
                let r = reason.to_string();
                out.append(r.as_str());
                out.append(").");
                match replacement {
                    EjectionReplacement::BenchPlayer { player_name } => {
                        out.append(" Bench Player ");
                        push_text(out, player_name);
                        out.append(" takes their place.");
                    },
                    EjectionReplacement::RosterPlayer { player } => {
                        out.append(" ");
                        push_text(out, &team.emoji);
                        out.append(" ");
                        player.push_to(out);
                        out.append(" takes the mound.");
                    },
                }
            },
            Ejection::FailedEjection { player_names } => {
                out.append(" 🤖 ROBO-UMP attempted an ejection, but ");
                push_text(out, &player_names[0]);
                out.append(", ");
                push_text(out, &player_names[1]);
                out.append(" would not budge.");
            },
        }
    }

    pub fn unparse(&self) -> (r: String)
        ensures
            r@ == self.spec_text(),
    {
        let mut s = String::new();
        self.push_to(&mut s);
        s
    }
}

/// The prefixes of an item's name, each followed by a space.
pub open spec fn prefixes_text(p: Seq<ItemPrefix>) -> Seq<char>
    decreases p.len(),
{
    if p.len() == 0 {
        Seq::empty()
    } else {
        prefixes_text(p.drop_last()) + p.last().spec_name() + " "@
    }
}

/// The suffixes of an item's name, each after a space.
pub open spec fn suffixes_text(p: Seq<ItemSuffix>) -> Seq<char>
    decreases p.len(),
{
    if p.len() == 0 {
        Seq::empty()
    } else {
        suffixes_text(p.drop_last()) + " "@ + p.last().spec_name()
    }
}

/// What an item's name says beyond its kind.
#[derive(Debug, Clone, PartialEq)]
pub enum ItemAffixes<S> {
    NoAffixes,
    PrefixSuffix(Vec<ItemPrefix>, Vec<ItemSuffix>),
    RareName(S),
}

impl<S: Text> ItemAffixes<S> {
    /// The same affixes, borrowing their text.
    pub fn to_ref(&self) -> (r: ItemAffixes<&str>)
        ensures
            match (*self, r) {
                (ItemAffixes::NoAffixes, ItemAffixes::NoAffixes) => true,
                (ItemAffixes::PrefixSuffix(p, s), ItemAffixes::PrefixSuffix(p2, s2)) => p@ == p2@ && s@ == s2@,
                (ItemAffixes::RareName(a), ItemAffixes::RareName(b)) => a@ == b@,
                _ => false,
            },
    {
        match self {
            ItemAffixes::NoAffixes => ItemAffixes::NoAffixes,
            ItemAffixes::PrefixSuffix(prefix, suffix) => {
                let mut p: Vec<ItemPrefix> = Vec::new();
                for i in 0..prefix.len()
                    invariant
                        p@ == prefix@.take(i as int),
                {
                    p.push(prefix[i]);
                }
                let mut s: Vec<ItemSuffix> = Vec::new();
                for i in 0..suffix.len()
                    invariant
                        s@ == suffix@.take(i as int),
                {
                    s.push(suffix[i]);
                }
                assert(prefix@.take(prefix.len() as int) =~= prefix@);
                assert(suffix@.take(suffix.len() as int) =~= suffix@);
                ItemAffixes::PrefixSuffix(p, s)
            },
            ItemAffixes::RareName(s) => ItemAffixes::RareName(s.as_text()),
        }
    }
}

/// An item: its emoji, its kind and its affixes.
#[derive(Debug, Clone, PartialEq)]
pub struct Item<S> {
    pub item_emoji: S,
    pub item: ItemName,
    pub affixes: ItemAffixes<S>,
}

impl<S: Text> Item<S> {
    pub open spec fn spec_text(&self) -> Seq<char> {
        match self.affixes {
            ItemAffixes::NoAffixes => self.item_emoji@ + " "@ + self.item.spec_name(),
            ItemAffixes::PrefixSuffix(prefix, suffix) => self.item_emoji@ + " "@ + prefixes_text(prefix@)
                + self.item.spec_name() + suffixes_text(suffix@),
            ItemAffixes::RareName(rare_name) => self.item_emoji@ + " "@ + rare_name@ + " "@ + self.item.spec_name(),
        }
    }

    pub fn push_to(&self, out: &mut String)
        ensures
            final(out)@ == old(out)@ + self.spec_text(),
    {
        push_text(out, &self.item_emoji);
        out.append(" ");
        match &self.affixes {
            ItemAffixes::NoAffixes => {
                out.append(self.item.as_str());
            },
            ItemAffixes::PrefixSuffix(prefix, suffix) => {
                let ghost start = out@;
                for i in 0..prefix.len()
                    invariant
                        out@ == start + prefixes_text(prefix@.take(i as int)),
                {
                    assert(prefix@.take(i + 1).drop_last() =~= prefix@.take(i as int));
                    out.append(prefix[i].as_str());
                    out.append(" ");
                }
                assert(prefix@.take(prefix.len() as int) =~= prefix@);
                out.append(self.item.as_str());
                let ghost mid = out@;
                for i in 0..suffix.len()
                    invariant
                        out@ == mid + suffixes_text(suffix@.take(i as int)),
                {
                    assert(suffix@.take(i + 1).drop_last() =~= suffix@.take(i as int));
                    out.append(" ");
                    out.append(suffix[i].as_str());
                }
                assert(suffix@.take(suffix.len() as int) =~= suffix@);
            },
            ItemAffixes::RareName(rare_name) => {
                push_text(out, rare_name);
                out.append(" ");
                out.append(self.item.as_str());
            },
        }
    }

    pub fn to_string(&self) -> (r: String)
        ensures
            r@ == self.spec_text(),
    {
        let mut s = String::new();
        self.push_to(&mut s);
        s
    }

    /// The same item, borrowing its text.
    pub fn to_ref(&self) -> (r: Item<&str>)
        ensures
            r.item_emoji@ == self.item_emoji@,
            r.item == self.item,
            match (self.affixes, r.affixes) {
                (ItemAffixes::NoAffixes, ItemAffixes::NoAffixes) => true,
                (ItemAffixes::PrefixSuffix(p, s), ItemAffixes::PrefixSuffix(p2, s2)) => p@ == p2@ && s@ == s2@,
                (ItemAffixes::RareName(a), ItemAffixes::RareName(b)) => a@ == b@,
                _ => false,
            },
            r.spec_text() == self.spec_text(),
    {
        Item { item_emoji: self.item_emoji.as_text(), item: self.item, affixes: self.affixes.to_ref() }
    }
}

/// What happened to an item won as a prize.
#[derive(Debug, Clone, PartialEq)]
pub enum ItemEquip<S> {
    NotEquipped,
    Discarded,
    Equipped { player_name: S, discarded_item: Option<Item<S>> },
}

impl<S: Text> ItemEquip<S> {
    pub fn is_none(&self) -> (r: bool)
        ensures
            r == (*self is NotEquipped),
    {
        matches!(self, ItemEquip::NotEquipped)
    }

    /// The same outcome, borrowing its text.
    pub fn to_ref(&self) -> (r: ItemEquip<&str>)
        ensures
            (r is NotEquipped) == (*self is NotEquipped),
            (r is Discarded) == (*self is Discarded),
            (r is Equipped) == (*self is Equipped),
            match (*self, r) {
                (ItemEquip::Equipped { player_name: a, discarded_item: da }, ItemEquip::Equipped { player_name: b, discarded_item: db }) =>
                    a@ == b@ && match (da, db) {
                        (None, None) => true,
                        (Some(x), Some(y)) => x.item_emoji@ == y.item_emoji@ && x.item == y.item && x.spec_text() == y.spec_text(),
                        _ => false,
                    },
                _ => true,
            },
    {
        match self {
            ItemEquip::NotEquipped => ItemEquip::NotEquipped,
            ItemEquip::Discarded => ItemEquip::Discarded,
            ItemEquip::Equipped { player_name, discarded_item } => ItemEquip::Equipped {
                player_name: player_name.as_text(),
                discarded_item: match discarded_item {
                    Some(i) => Some(i.to_ref()),
                    None => None,
                },
            },
        }
    }
}

/// An item won as a prize, and what happened to it.
#[derive(Debug, Clone, PartialEq)]
pub struct ItemPrize<S> {
    pub item: Item<S>,
    pub equip: ItemEquip<S>,
}

impl<S: Text> ItemPrize<S> {
    /// The same prize, borrowing its text.
    pub fn to_ref(&self) -> (r: ItemPrize<&str>)
        ensures
            r.spec_text() == self.spec_text(),
            (r.equip is NotEquipped) == (self.equip is NotEquipped),
            r.item.item == self.item.item,
            r.item.spec_text() == self.item.spec_text(),
    {
        ItemPrize { item: self.item.to_ref(), equip: self.equip.to_ref() }
    }

    pub open spec fn spec_text(&self) -> Seq<char> {
        match self.equip {
            ItemEquip::NotEquipped => self.item.spec_text(),
            ItemEquip::Discarded => self.item.spec_text() + " is discarded; nobody can use it"@,
            ItemEquip::Equipped { player_name, discarded_item } => player_name@ + " equips "@ + self.item.spec_text()
                + " from the Door Prize"@ + match discarded_item {
                None => Seq::empty(),
                Some(d) => ". They discard their "@ + d.spec_text(),
            },
        }
    }

    pub fn push_to(&self, out: &mut String)
        ensures
            final(out)@ == old(out)@ + self.spec_text(),
    {
        match &self.equip {
            ItemEquip::NotEquipped => {
                self.item.push_to(out);
            },
            ItemEquip::Discarded => {
                self.item.push_to(out);
                out.append(" is discarded; nobody can use it");
            },
            ItemEquip::Equipped { player_name, discarded_item } => {
                push_text(out, player_name);
                out.append(" equips ");
                self.item.push_to(out);
                out.append(" from the Door Prize");
                match discarded_item {
                    None => {},
                    Some(d) => {
                        out.append(". They discard their ");
                        d.push_to(out);
                    },
                }
            },
        }
    }
}

/// Whether any of the items was equipped or discarded.
pub open spec fn has_equip<S>(items: Seq<ItemPrize<S>>) -> bool {
    exists|i: int| 0 <= i < items.len() && !(#[trigger] items[i].equip is NotEquipped)
}

/// The texts of the items, with `sep` between each two.
pub open spec fn item_prizes_text<S: Text>(items: Seq<ItemPrize<S>>, sep: Seq<char>) -> Seq<char>
    decreases items.len(),
{
    if items.len() == 0 {
        Seq::empty()
    } else if items.len() == 1 {
        items[0].spec_text()
    } else {
        item_prizes_text(items.drop_last(), sep) + sep + items.last().spec_text()
    }
}

/// Items whose texts are those of other items, one by one, are written as
/// those are, with the same separator, and are equipped or discarded alike.
pub proof fn lemma_item_prizes_alike<S: Text, T: Text>(a: Seq<ItemPrize<S>>, b: Seq<ItemPrize<T>>, sep: Seq<char>)
    requires
        a.len() == b.len(),
        forall|i: int| 0 <= i < a.len() ==> (#[trigger] a[i]).spec_text() == b[i].spec_text()
            && (a[i].equip is NotEquipped) == (b[i].equip is NotEquipped),
    ensures
        item_prizes_text(a, sep) == item_prizes_text(b, sep),
        has_equip(a) == has_equip(b),
    decreases a.len(),
{
    if a.len() > 1 {
        lemma_item_prizes_alike(a.drop_last(), b.drop_last(), sep);
    }
    if has_equip(a) {
        let i = choose|i: int| 0 <= i < a.len() && !(#[trigger] a[i].equip is NotEquipped);
        assert(!(b[i].equip is NotEquipped));
    }
    if has_equip(b) {
        let i = choose|i: int| 0 <= i < b.len() && !(#[trigger] b[i].equip is NotEquipped);
        assert(!(a[i].equip is NotEquipped));
    }
}

/// A door prize: tokens or items.
#[derive(Debug, Clone, PartialEq)]
pub enum Prize<S> {
    Tokens(u16),
    Items(Vec<ItemPrize<S>>),
}

/// Whether any of the items was equipped or discarded.
pub fn any_equip<S: Text>(items: &Vec<ItemPrize<S>>) -> (r: bool)
    ensures
        r == has_equip(items@),
{
    for i in 0..items.len()
        invariant
            forall|j: int| 0 <= j < i ==> (#[trigger] items@[j]).equip is NotEquipped,
    {
        if !items[i].equip.is_none() {
            return true;
        }
    }
    false
}

impl<S: Text> Prize<S> {
    /// The same prize, borrowing its text.
    pub fn to_ref(&self) -> (r: Prize<&str>)
        ensures
            r.spec_text() == self.spec_text(),
            (r is Items) == (self is Items),
            match (*self, r) {
                (Prize::Items(a), Prize::Items(b)) => has_equip(a@) == has_equip(b@) && a@.len() == b@.len()
                    && forall|k: int| 0 <= k < a@.len() ==> #[trigger] b@[k].item.spec_text() == a@[k].item.spec_text()
                        && (b@[k].equip is NotEquipped) == (a@[k].equip is NotEquipped)
                        && b@[k].spec_text() == a@[k].spec_text(),
                (Prize::Tokens(a), Prize::Tokens(b)) => a == b,
                _ => false,
            },
    {
        match self {
            Prize::Tokens(t) => Prize::Tokens(*t),
            Prize::Items(items) => {
                let mut v: Vec<ItemPrize<&str>> = Vec::new();
                for i in 0..items.len()
                    invariant
                        v@.len() == i,
                        forall|j: int| 0 <= j < i ==> (#[trigger] v@[j]).spec_text() == items@[j].spec_text()
                            && (v@[j].equip is NotEquipped) == (items@[j].equip is NotEquipped)
                            && v@[j].item.spec_text() == items@[j].item.spec_text(),
                {
                    v.push(items[i].to_ref());
                }
                proof {
                    lemma_item_prizes_alike(items@, v@, ". "@);
                    lemma_item_prizes_alike(items@, v@, ", "@);
                }
                Prize::Items(v)
            },
        }
    }

    pub open spec fn spec_text(&self) -> Seq<char> {
        match self {
            Prize::Tokens(tokens) => dec(*tokens as nat) + " 🪙"@,
            Prize::Items(items) => item_prizes_text(items@, if has_equip(items@) { ". "@ } else { ", "@ }),
        }
    }

    pub fn push_to(&self, out: &mut String)
        ensures
            final(out)@ == old(out)@ + self.spec_text(),
    {
        match self {
            Prize::Tokens(tokens) => {
                push_dec(out, *tokens as u64);
                out.append(" 🪙");
            },
            Prize::Items(items) => {
                let eq = any_equip(items);
                let sep = if eq { ". " } else { ", " };
                let ghost start = out@;
                for i in 0..items.len()
                    invariant
                        sep@ == (if has_equip(items@) { ". "@ } else { ", "@ }),
                        out@ == start + item_prizes_text(items@.take(i as int), sep@),
                {
                    assert(items@.take(i + 1).drop_last() =~= items@.take(i as int));
                    if i > 0 {
                        out.append(sep);
                    } else {
                        assert(items@.take(1)[0] == items@[0]);
                    }
                    items[i].push_to(out);
                }
                assert(items@.take(items.len() as int) =~= items@);
            },
        }
    }

    pub fn unparse(&self) -> (r: String)
        ensures
            r@ == self.spec_text(),
    {
        let mut s = String::new();
        self.push_to(&mut s);
        s
    }
}

/// A player's door prize draw: `None` when they don't win.
#[derive(Debug, Clone, PartialEq)]
pub struct DoorPrize<S> {
    pub player: S,
    pub prize: Option<Prize<S>>,
}

impl<S: Text> DoorPrize<S> {
    /// The same draw, borrowing its text.
    pub fn to_ref(&self) -> (r: DoorPrize<&str>)
        ensures
            r.player@ == self.player@,
            (r.prize is Some) == (self.prize is Some),
            r.spec_text() == self.spec_text(),
    {
        DoorPrize {
            player: self.player.as_text(),
            prize: match &self.prize {
                Some(p) => Some(p.to_ref()),
                None => None,
            },
        }
    }

    pub open spec fn spec_text(&self) -> Seq<char> {
        match self.prize {
            Some(prize) => {
                let punct = match prize {
                    Prize::Items(items) => if has_equip(items@) { "!"@ } else { ":"@ },
                    _ => ":"@,
                };
                "🥳 "@ + self.player@ + " won a Door Prize"@ + punct + " "@ + prize.spec_text() + "."@
            },
            None => "🥳 "@ + self.player@ + " didn't win a Door Prize."@,
        }
    }

    pub fn push_to(&self, out: &mut String)
        ensures
            final(out)@ == old(out)@ + self.spec_text(),
    {
        match &self.prize {
            Some(prize) => {
                let punct = match prize {
                    Prize::Items(items) => if any_equip(items) { "!" } else { ":" },
                    _ => ":",
                };
                out.append("🥳 ");
                push_text(out, &self.player);
                out.append(" won a Door Prize");
                out.append(punct);
                out.append(" ");
                prize.push_to(out);
                out.append(".");
            },
            None => {
                out.append("🥳 ");
                push_text(out, &self.player);
                out.append(" didn't win a Door Prize.");
            },
        }
    }

    pub fn unparse(&self) -> (r: String)
        ensures
            r@ == self.spec_text(),
    {
        let mut s = String::new();
        self.push_to(&mut s);
        s
    }
}

/// Each steal, after a space.
pub open spec fn steals_text<S: Text>(steals: Seq<BaseSteal<S>>) -> Seq<char>
    decreases steals.len(),
{
    if steals.len() == 0 {
        Seq::empty()
    } else {
        steals_text(steals.drop_last()) + " "@ + steals.last().spec_text()
    }
}

pub fn push_steals<S: Text>(out: &mut String, steals: &Vec<BaseSteal<S>>)
    ensures
        final(out)@ == old(out)@ + steals_text(steals@),
{
    let ghost start = out@;
    for i in 0..steals.len()
        invariant
            out@ == start + steals_text(steals@.take(i as int)),
    {
        assert(steals@.take(i + 1).drop_last() =~= steals@.take(i as int));
        out.append(" ");
        steals[i].push_to(out);
    }
    assert(steals@.take(steals.len() as int) =~= steals@);
}

/// Each runner scoring, as " <strong>{runner} scores!</strong>".
pub open spec fn scores_text<S: Text>(scores: Seq<S>) -> Seq<char>
    decreases scores.len(),
{
    if scores.len() == 0 {
        Seq::empty()
    } else {
        scores_text(scores.drop_last()) + " <strong>"@ + scores.last()@ + " scores!</strong>"@
    }
}

pub fn push_scores<S: Text>(out: &mut String, scores: &Vec<S>)
    ensures
        final(out)@ == old(out)@ + scores_text(scores@),
{
    let ghost start = out@;
    for i in 0..scores.len()
        invariant
            out@ == start + scores_text(scores@.take(i as int)),
    {
        assert(scores@.take(i + 1).drop_last() =~= scores@.take(i as int));
        out.append(" <strong>");
        push_text(out, &scores[i]);
        out.append(" scores!</strong>");
    }
    assert(scores@.take(scores.len() as int) =~= scores@);
}

/// Each runner advancing, after a space.
pub open spec fn advances_text<S: Text>(advances: Seq<RunnerAdvance<S>>) -> Seq<char>
    decreases advances.len(),
{
    if advances.len() == 0 {
        Seq::empty()
    } else {
        advances_text(advances.drop_last()) + " "@ + advances.last().spec_text()
    }
}

pub fn push_advances<S: Text>(out: &mut String, advances: &Vec<RunnerAdvance<S>>)
    ensures
        final(out)@ == old(out)@ + advances_text(advances@),
{
    let ghost start = out@;
    for i in 0..advances.len()
        invariant
            out@ == start + advances_text(advances@.take(i as int)),
    {
        assert(advances@.take(i + 1).drop_last() =~= advances@.take(i as int));
        out.append(" ");
        advances[i].push_to(out);
    }
    assert(advances@.take(advances.len() as int) =~= advances@);
}

/// Runners scoring, then runners advancing.
pub open spec fn scores_and_advances_text<S: Text>(scores: Seq<S>, advances: Seq<RunnerAdvance<S>>) -> Seq<char> {
    scores_text(scores) + advances_text(advances)
}

/// Each door prize, after a line break.
pub open spec fn door_prizes_text<S: Text>(prizes: Seq<DoorPrize<S>>) -> Seq<char>
    decreases prizes.len(),
{
    if prizes.len() == 0 {
        Seq::empty()
    } else {
        door_prizes_text(prizes.drop_last()) + "<br>"@ + prizes.last().spec_text()
    }
}

pub fn push_door_prizes<S: Text>(out: &mut String, prizes: &Vec<DoorPrize<S>>)
    ensures
        final(out)@ == old(out)@ + door_prizes_text(prizes@),
{
    let ghost start = out@;
    for i in 0..prizes.len()
        invariant
            out@ == start + door_prizes_text(prizes@.take(i as int)),
    {
        assert(prizes@.take(i + 1).drop_last() =~= prizes@.take(i as int));
        out.append("<br>");
        prizes[i].push_to(out);
    }
    assert(prizes@.take(prizes.len() as int) =~= prizes@);
}

/// The fielders, separated by " to ".
pub open spec fn fielder_chain_text<S: Text>(fielders: Seq<PlacedPlayer<S>>) -> Seq<char>
    decreases fielders.len(),
{
    if fielders.len() == 0 {
        Seq::empty()
    } else if fielders.len() == 1 {
        fielders[0].spec_text()
    } else {
        fielder_chain_text(fielders.drop_last()) + " to "@ + fielders.last().spec_text()
    }
}

pub fn push_fielder_chain<S: Text>(out: &mut String, fielders: &Vec<PlacedPlayer<S>>)
    ensures
        final(out)@ == old(out)@ + fielder_chain_text(fielders@),
{
    let ghost start = out@;
    for i in 0..fielders.len()
        invariant
            out@ == start + fielder_chain_text(fielders@.take(i as int)),
    {
        assert(fielders@.take(i + 1).drop_last() =~= fielders@.take(i as int));
        if i > 0 {
            out.append(" to ");
        } else {
            assert(fielders@.take(1)[0] == fielders@[0]);
        }
        fielders[i].push_to(out);
    }
    assert(fielders@.take(fielders.len() as int) =~= fielders@);
}

/// The fielders of a ground out: " to {fielder}" for one, ", {a} to {b}..." for more.
pub open spec fn fielders_text<S: Text>(fielders: Seq<PlacedPlayer<S>>) -> Seq<char> {
    if fielders.len() == 1 {
        " to "@ + fielders[0].spec_text()
    } else {
        ", "@ + fielder_chain_text(fielders)
    }
}

/// The fielders of a play: ", {fielder} unassisted" for one, ", {a} to {b}..." for more.
pub open spec fn fielders_for_play_text<S: Text>(fielders: Seq<PlacedPlayer<S>>) -> Seq<char> {
    if fielders.len() == 1 {
        ", "@ + fielders[0].spec_text() + " unassisted"@
    } else {
        ", "@ + fielder_chain_text(fielders)
    }
}

pub fn push_fielders<S: Text>(out: &mut String, fielders: &Vec<PlacedPlayer<S>>)
    requires
        fielders.len() > 0,
    ensures
        final(out)@ == old(out)@ + fielders_text(fielders@),
{
    if fielders.len() == 1 {
        out.append(" to ");
        fielders[0].push_to(out);
    } else {
        out.append(", ");
        push_fielder_chain(out, fielders);
    }
}

pub fn push_fielders_for_play<S: Text>(out: &mut String, fielders: &Vec<PlacedPlayer<S>>)
    requires
        fielders.len() > 0,
    ensures
        final(out)@ == old(out)@ + fielders_for_play_text(fielders@),
{
    if fielders.len() == 1 {
        out.append(", ");
        fielders[0].push_to(out);
        out.append(" unassisted");
    } else {
        out.append(", ");
        push_fielder_chain(out, fielders);
    }
}

/// The players of a lineup, each numbered from 1 and followed by a line break.
pub open spec fn lineup_text<S: Text>(players: Seq<PlacedPlayer<S>>) -> Seq<char>
    decreases players.len(),
{
    if players.len() == 0 {
        Seq::empty()
    } else {
        lineup_text(players.drop_last()) + dec(players.len()) + ". "@ + players.last().spec_text() + "<br>"@
    }
}

pub fn push_lineup<S: Text>(out: &mut String, players: &Vec<PlacedPlayer<S>>)
    ensures
        final(out)@ == old(out)@ + lineup_text(players@),
{
    let ghost start = out@;
    for i in 0..players.len()
        invariant
            out@ == start + lineup_text(players@.take(i as int)),
    {
        assert(players@.take(i + 1).drop_last() =~= players@.take(i as int));
        push_dec(out, i as u64 + 1);
        out.append(". ");
        players[i].push_to(out);
        out.append("<br>");
    }
    assert(players@.take(players.len() as int) =~= players@);
}

/// The ordinal of an inning as the start of an inning writes it: "1st", "2nd",
/// "3rd", then "{n}th".
pub open spec fn start_ordinal(n: u8) -> Seq<char> {
    if n == 1 {
        "1st"@
    } else if n == 2 {
        "2nd"@
    } else if n == 3 {
        "3rd"@
    } else {
        dec(n as nat) + "th"@
    }
}

/// The ordinal of an inning as the end of an inning writes it.
pub open spec fn end_ordinal(n: u8) -> Seq<char> {
    if n == 11 || n == 12 || n == 13 {
        dec(n as nat) + "th"@
    } else if n % 10 == 1 {
        dec(n as nat) + "st"@
    } else if n % 10 == 2 {
        dec(n as nat) + "nd"@
    } else if n % 10 == 3 {
        dec(n as nat) + "rd"@
    } else {
        dec(n as nat) + "th"@
    }
}

pub fn push_start_ordinal(out: &mut String, n: u8)
    ensures
        final(out)@ == old(out)@ + start_ordinal(n),
{
    if n == 1 {
        out.append("1st");
    } else if n == 2 {
        out.append("2nd");
    } else if n == 3 {
        out.append("3rd");
    } else {
        push_dec(out, n as u64);
        out.append("th");
    }
}

pub fn push_end_ordinal(out: &mut String, n: u8)
    ensures
        final(out)@ == old(out)@ + end_ordinal(n),
{
    push_dec(out, n as u64);
    if n == 11 || n == 12 || n == 13 {
        out.append("th");
    } else if n % 10 == 1 {
        out.append("st");
    } else if n % 10 == 2 {
        out.append("nd");
    } else if n % 10 == 3 {
        out.append("rd");
    } else {
        out.append("th");
    }
}

/// The text of an optional part, or nothing.
pub open spec fn opt_text<S: Text>(photos: Option<SnappedPhotos<S>>) -> Seq<char> {
    match photos {
        Some(p) => p.spec_text(),
        None => Seq::empty(),
    }
}

pub open spec fn opt_ejection_text<S: Text>(e: Option<Ejection<S>>) -> Seq<char> {
    match e {
        Some(e) => e.spec_text(),
        None => Seq::empty(),
    }
}

pub open spec fn opt_wither_text<S: Text>(w: Option<WitherStruggle<S>>) -> Seq<char> {
    match w {
        Some(w) => " "@ + w.spec_text(),
        None => Seq::empty(),
    }
}

pub open spec fn opt_cheer_text<T: Text>(c: Option<Cheer>, context: UnparsingContext<T>, event_index: Option<u16>) -> Seq<char> {
    match c {
        Some(c) => c.spec_unparse(context, event_index),
        None => Seq::empty(),
    }
}

pub fn push_opt_photos<S: Text>(out: &mut String, p: &Option<SnappedPhotos<S>>)
    ensures
        final(out)@ == old(out)@ + opt_text(*p),
{
    if let Some(p) = p {
        p.push_to(out);
    }
}

pub fn push_opt_ejection<S: Text>(out: &mut String, e: &Option<Ejection<S>>)
    ensures
        final(out)@ == old(out)@ + opt_ejection_text(*e),
{
    if let Some(e) = e {
        e.push_to(out);
    }
}

pub fn push_opt_wither<S: Text>(out: &mut String, w: &Option<WitherStruggle<S>>)
    ensures
        final(out)@ == old(out)@ + opt_wither_text(*w),
{
    if let Some(w) = w {
        out.append(" ");
        w.push_to(out);
    }
}

pub fn push_opt_cheer<T: Text>(out: &mut String, c: &Option<Cheer>, context: &UnparsingContext<T>, event_index: Option<u16>)
    requires
        context.wf(),
    ensures
        final(out)@ == old(out)@ + opt_cheer_text(*c, *context, event_index),
{
    if let Some(c) = c {
        c.push_unparse(out, context, event_index);
    }
}

/// " " before the first change of season 2, day 169, and nothing after it.
pub open spec fn old_space_text<T: Text>(context: UnparsingContext<T>, event_index: Option<u16>) -> Seq<char> {
    if context.spec_before(event_index, Breakpoints::S2D169) {
        " "@
    } else {
        Seq::empty()
    }
}

pub fn push_old_space<T: Text>(out: &mut String, context: &UnparsingContext<T>, event_index: Option<u16>)
    requires
        context.wf(),
    ensures
        final(out)@ == old(out)@ + old_space_text(*context, event_index),
{
    if context.before(event_index, Breakpoints::S2D169) {
        out.append(" ");
    }
}

/// A count of balls and strikes: "{balls}-{strikes}."
pub open spec fn count_text(count: (u8, u8)) -> Seq<char> {
    dec(count.0 as nat) + "-"@ + dec(count.1 as nat) + "."@
}

pub fn push_count(out: &mut String, count: (u8, u8))
    ensures
        final(out)@ == old(out)@ + count_text(count),
{
    push_dec(out, count.0 as u64);
    out.append("-");
    push_dec(out, count.1 as u64);
    out.append(".");
}

/// What follows the count of a pitch: steals, photos, an ejection, a cheer,
/// door prizes and the Wither.
pub open spec fn pitch_tail_text<S: Text, T: Text>(
    steals: Seq<BaseSteal<S>>,
    aurora_photos: Option<SnappedPhotos<S>>,
    ejection: Option<Ejection<S>>,
    cheer: Option<Cheer>,
    door_prizes: Seq<DoorPrize<S>>,
    wither: Option<WitherStruggle<S>>,
    context: UnparsingContext<T>,
    event_index: Option<u16>,
) -> Seq<char> {
    steals_text(steals) + opt_text(aurora_photos) + opt_ejection_text(ejection) + opt_cheer_text(cheer, context, event_index)
        + door_prizes_text(door_prizes) + opt_wither_text(wither)
}

pub fn push_pitch_tail<S: Text, T: Text>(
    out: &mut String,
    steals: &Vec<BaseSteal<S>>,
    aurora_photos: &Option<SnappedPhotos<S>>,
    ejection: &Option<Ejection<S>>,
    cheer: &Option<Cheer>,
    door_prizes: &Vec<DoorPrize<S>>,
    wither: &Option<WitherStruggle<S>>,
    context: &UnparsingContext<T>,
    event_index: Option<u16>,
)
    requires
        context.wf(),
    ensures
        final(out)@ == old(out)@ + pitch_tail_text(steals@, *aurora_photos, *ejection, *cheer, door_prizes@, *wither, *context, event_index),
{
    push_steals(out, steals);
    push_opt_photos(out, aurora_photos);
    push_opt_ejection(out, ejection);
    push_opt_cheer(out, cheer, context, event_index);
    push_door_prizes(out, door_prizes);
    push_opt_wither(out, wither);
}

/// What follows a walk: runners scoring and advancing, photos, a cheer, an
/// ejection and the Wither.
pub open spec fn walk_tail_text<S: Text, T: Text>(
    scores: Seq<S>,
    advances: Seq<RunnerAdvance<S>>,
    aurora_photos: Option<SnappedPhotos<S>>,
    cheer: Option<Cheer>,
    ejection: Option<Ejection<S>>,
    wither: Option<WitherStruggle<S>>,
    context: UnparsingContext<T>,
    event_index: Option<u16>,
) -> Seq<char> {
    scores_and_advances_text(scores, advances) + opt_text(aurora_photos) + opt_cheer_text(cheer, context, event_index)
        + opt_ejection_text(ejection) + opt_wither_text(wither)
}

pub fn push_walk_tail<S: Text, T: Text>(
    out: &mut String,
    scores: &Vec<S>,
    advances: &Vec<RunnerAdvance<S>>,
    aurora_photos: &Option<SnappedPhotos<S>>,
    cheer: &Option<Cheer>,
    ejection: &Option<Ejection<S>>,
    wither: &Option<WitherStruggle<S>>,
    context: &UnparsingContext<T>,
    event_index: Option<u16>,
)
    requires
        context.wf(),
    ensures
        final(out)@ == old(out)@ + walk_tail_text(scores@, advances@, *aurora_photos, *cheer, *ejection, *wither, *context, event_index),
{
    push_scores(out, scores);
    push_advances(out, advances);
    push_opt_photos(out, aurora_photos);
    push_opt_cheer(out, cheer, context, event_index);
    push_opt_ejection(out, ejection);
    push_opt_wither(out, wither);
}

/// Why a message could not be parsed.
#[derive(Debug, Clone, PartialEq)]
pub enum GameEventParseError {
    /// The event's type was not recognized.
    EventTypeNotRecognized(NotRecognized),
    /// The message did not have the form of its event's type.
    FailedParsingMessage { event_type: EventType, message: String },
}

/// A game event message, parsed. `S` is the string type used: the parser
/// borrows from the message (`&str`), while owned strings (`String`) can be
/// built by hand.
#[derive(Debug, PartialEq)]
pub enum ParsedEventMessage<S> {
    ParseError { error: GameEventParseError, message: S },
    KnownBug { bug: KnownBug<S> },
    // Season 0
    LiveNow { away_team: EmojiTeam<S>, home_team: EmojiTeam<S>, stadium: Option<S> },
    PitchingMatchup { away_team: EmojiTeam<S>, home_team: EmojiTeam<S>, home_pitcher: S, away_pitcher: S },
    Lineup { side: HomeAway, players: Vec<PlacedPlayer<S>> },
    PlayBall,
    GameOver { message: GameOverMessage },
    Recordkeeping { winning_team: EmojiTeam<S>, losing_team: EmojiTeam<S>, winning_score: u8, losing_score: u8 },
    InningStart {
        number: u8,
        side: TopBottom,
        batting_team: EmojiTeam<S>,
        automatic_runner: Option<S>,
        pitcher_status: Option<StartOfInningPitcher<S>>,
    },
    NowBatting { batter: S, stats: NowBattingStats },
    InningEnd { number: u8, side: TopBottom },
    // Mound visits
    MoundVisit { team: EmojiTeam<S>, mound_visit_type: MoundVisitType },
    PitcherRemains { remaining_pitcher: PlacedPlayer<S> },
    PitcherSwap {
        leaving_pitcher_emoji: Option<S>,
        leaving_pitcher: PlacedPlayer<S>,
        arriving_pitcher_emoji: Option<S>,
        arriving_pitcher_place: Option<Place>,
        arriving_pitcher_name: S,
    },
    // Pitch
    Ball {
        steals: Vec<BaseSteal<S>>,
        count: (u8, u8),
        cheer: Option<Cheer>,
        aurora_photos: Option<SnappedPhotos<S>>,
        ejection: Option<Ejection<S>>,
        door_prizes: Vec<DoorPrize<S>>,
        wither: Option<WitherStruggle<S>>,
    },
    Strike {
        strike: StrikeType,
        steals: Vec<BaseSteal<S>>,
        count: (u8, u8),
        cheer: Option<Cheer>,
        aurora_photos: Option<SnappedPhotos<S>>,
        ejection: Option<Ejection<S>>,
        door_prizes: Vec<DoorPrize<S>>,
        wither: Option<WitherStruggle<S>>,
    },
    Foul {
        foul: FoulType,
        steals: Vec<BaseSteal<S>>,
        count: (u8, u8),
        cheer: Option<Cheer>,
        aurora_photos: Option<SnappedPhotos<S>>,
        door_prizes: Vec<DoorPrize<S>>,
        wither: Option<WitherStruggle<S>>,
    },
    Walk {
        batter: S,
        scores: Vec<S>,
        advances: Vec<RunnerAdvance<S>>,
        cheer: Option<Cheer>,
        aurora_photos: Option<SnappedPhotos<S>>,
        ejection: Option<Ejection<S>>,
        wither: Option<WitherStruggle<S>>,
    },
    FairBall {
        batter: S,
        fair_ball_type: FairBallType,
        destination: FairBallDestination,
        cheer: Option<Cheer>,
        aurora_photos: Option<SnappedPhotos<S>>,
        door_prizes: Vec<DoorPrize<S>>,
    },
    // Field
    BatterToBase {
        batter: S,
        distance: Distance,
        fair_ball_type: FairBallType,
        fielder: PlacedPlayer<S>,
        scores: Vec<S>,
        advances: Vec<RunnerAdvance<S>>,
        ejection: Option<Ejection<S>>,
    },
    HomeRun {
        batter: S,
        fair_ball_type: FairBallType,
        destination: FairBallDestination,
        scores: Vec<S>,
        grand_slam: bool,
        ejection: Option<Ejection<S>>,
    },
    CaughtOut {
        batter: S,
        fair_ball_type: FairBallType,
        caught_by: PlacedPlayer<S>,
        scores: Vec<S>,
        advances: Vec<RunnerAdvance<S>>,
        sacrifice: bool,
        perfect: bool,
        ejection: Option<Ejection<S>>,
    },
    GroundedOut {
        batter: S,
        fielders: Vec<PlacedPlayer<S>>,
        scores: Vec<S>,
        advances: Vec<RunnerAdvance<S>>,
        amazing: bool,
        ejection: Option<Ejection<S>>,
    },
    ForceOut {
        batter: S,
        fielders: Vec<PlacedPlayer<S>>,
        fair_ball_type: FairBallType,
        out: RunnerOut<S>,
        scores: Vec<S>,
        advances: Vec<RunnerAdvance<S>>,
        ejection: Option<Ejection<S>>,
    },
    ReachOnFieldersChoice {
        batter: S,
        fielders: Vec<PlacedPlayer<S>>,
        result: FieldingAttempt<S>,
        scores: Vec<S>,
        advances: Vec<RunnerAdvance<S>>,
        ejection: Option<Ejection<S>>,
    },
    DoublePlayCaught {
        batter: S,
        fair_ball_type: FairBallType,
        fielders: Vec<PlacedPlayer<S>>,
        out_two: RunnerOut<S>,
        scores: Vec<S>,
        advances: Vec<RunnerAdvance<S>>,
        ejection: Option<Ejection<S>>,
    },
    ReachOnFieldingError {
        batter: S,
        fielder: PlacedPlayer<S>,
        error: FieldingErrorType,
        scores: Vec<S>,
        advances: Vec<RunnerAdvance<S>>,
        ejection: Option<Ejection<S>>,
    },
    // Season 1
    FallingStar { player_name: S },
    // Season 2
    Balk { pitcher: S, scores: Vec<S>, advances: Vec<RunnerAdvance<S>> },
    // Season 5
    Party {
        pitcher_name: S,
        pitcher_amount_gained: u8,
        pitcher_attribute: Attribute,
        batter_name: S,
        batter_amount_gained: u8,
        batter_attribute: Attribute,
        durability_loss: PartyDurabilityLoss<S>,
    },
    WeatherReflection { team: EmojiTeam<S> },
}

impl<S: Text> ParsedEventMessage<S> {
    /// A message that can be written: innings are numbered from 1, and plays
    /// name at least one fielder.
    /// Whether the text of this message depends on the day it was written on:
    /// the pitches, whose opening space was dropped at a change of season 2,
    /// and the fair balls, whose cheers gained an emoji in season 3.
    pub open spec fn spec_reads_day(&self) -> bool {
        ||| self is Ball
        ||| self is Strike
        ||| self is Foul
        ||| self is Walk
        ||| self is FairBall
    }

    pub open spec fn wf(&self) -> bool {
        match self {
            ParsedEventMessage::InningStart { number, .. } => *number > 0,
            ParsedEventMessage::InningEnd { number, .. } => *number > 0,
            ParsedEventMessage::GroundedOut { fielders, .. } => fielders.len() > 0,
            ParsedEventMessage::ForceOut { fielders, .. } => fielders.len() > 0,
            ParsedEventMessage::ReachOnFieldersChoice { fielders, .. } => fielders.len() > 0,
            ParsedEventMessage::DoublePlayCaught { fielders, .. } => fielders.len() > 0,
            _ => true,
        }
    }

    /// The message this value was parsed from, as the game writes it at the
    /// time of the event with index `event_index` in `context`.
    pub open spec fn spec_unparse<T: Text>(&self, context: UnparsingContext<T>, event_index: Option<u16>) -> Seq<char> {
        match self {
            ParsedEventMessage::ParseError { .. } => self.spec_parse_error_text(context, event_index),
            ParsedEventMessage::KnownBug { .. } => self.spec_known_bug_text(context, event_index),
            ParsedEventMessage::LiveNow { .. } => self.spec_live_now_text(context, event_index),
            ParsedEventMessage::PitchingMatchup { .. } => self.spec_pitching_matchup_text(context, event_index),
            ParsedEventMessage::Lineup { .. } => self.spec_lineup_text(context, event_index),
            ParsedEventMessage::PlayBall => self.spec_play_ball_text(context, event_index),
            ParsedEventMessage::GameOver { .. } => self.spec_game_over_text(context, event_index),
            ParsedEventMessage::Recordkeeping { .. } => self.spec_recordkeeping_text(context, event_index),
            ParsedEventMessage::InningStart { .. } => self.spec_inning_start_text(context, event_index),
            ParsedEventMessage::NowBatting { .. } => self.spec_now_batting_text(context, event_index),
            ParsedEventMessage::InningEnd { .. } => self.spec_inning_end_text(context, event_index),
            ParsedEventMessage::MoundVisit { .. } => self.spec_mound_visit_text(context, event_index),
            ParsedEventMessage::PitcherRemains { .. } => self.spec_pitcher_remains_text(context, event_index),
            ParsedEventMessage::PitcherSwap { .. } => self.spec_pitcher_swap_text(context, event_index),
            ParsedEventMessage::Ball { .. } => self.spec_ball_text(context, event_index),
            ParsedEventMessage::Strike { .. } => self.spec_strike_text(context, event_index),
            ParsedEventMessage::Foul { .. } => self.spec_foul_text(context, event_index),
            ParsedEventMessage::Walk { .. } => self.spec_walk_text(context, event_index),
            ParsedEventMessage::FairBall { .. } => self.spec_fair_ball_text(context, event_index),
            ParsedEventMessage::BatterToBase { .. } => self.spec_batter_to_base_text(context, event_index),
            ParsedEventMessage::HomeRun { .. } => self.spec_home_run_text(context, event_index),
            ParsedEventMessage::CaughtOut { .. } => self.spec_caught_out_text(context, event_index),
            ParsedEventMessage::GroundedOut { .. } => self.spec_grounded_out_text(context, event_index),
            ParsedEventMessage::ForceOut { .. } => self.spec_force_out_text(context, event_index),
            ParsedEventMessage::ReachOnFieldersChoice { .. } => self.spec_reach_on_fielders_choice_text(context, event_index),
            ParsedEventMessage::DoublePlayCaught { .. } => self.spec_double_play_caught_text(context, event_index),
            ParsedEventMessage::ReachOnFieldingError { .. } => self.spec_reach_on_fielding_error_text(context, event_index),
            ParsedEventMessage::FallingStar { .. } => self.spec_falling_star_text(context, event_index),
            ParsedEventMessage::Balk { .. } => self.spec_balk_text(context, event_index),
            ParsedEventMessage::Party { .. } => self.spec_party_text(context, event_index),
            ParsedEventMessage::WeatherReflection { .. } => self.spec_weather_reflection_text(context, event_index),
        }
    }

    /// The text of a `ParseError` message.
    pub open spec fn spec_parse_error_text<T: Text>(&self, context: UnparsingContext<T>, event_index: Option<u16>) -> Seq<char> {
        match self {
                ParsedEventMessage::ParseError { message, .. } => message@,
            _ => Seq::empty(),
        }
    }

    /// The text of a `KnownBug` message.
    pub open spec fn spec_known_bug_text<T: Text>(&self, context: UnparsingContext<T>, event_index: Option<u16>) -> Seq<char> {
        match self {
                ParsedEventMessage::KnownBug { bug } => bug.spec_text(),
            _ => Seq::empty(),
        }
    }

    /// The text of a `LiveNow` message.
    pub open spec fn spec_live_now_text<T: Text>(&self, context: UnparsingContext<T>, event_index: Option<u16>) -> Seq<char> {
        match self {
                ParsedEventMessage::LiveNow { away_team, home_team, stadium } => match stadium {
                Some(stadium) => away_team.spec_text() + " vs "@ + home_team.spec_text() + " @ "@ + stadium@,
                None => away_team.spec_text() + " @ "@ + home_team.spec_text(),
            },
            _ => Seq::empty(),
        }
    }

    /// The text of a `PitchingMatchup` message.
    pub open spec fn spec_pitching_matchup_text<T: Text>(&self, context: UnparsingContext<T>, event_index: Option<u16>) -> Seq<char> {
        match self {
                ParsedEventMessage::PitchingMatchup { away_team, home_team, home_pitcher, away_pitcher } => away_team.spec_text() + " "@ + away_pitcher@ + " vs. "@ + home_team.spec_text() + " "@ + home_pitcher@,
            _ => Seq::empty(),
        }
    }

    /// The text of a `Lineup` message.
    pub open spec fn spec_lineup_text<T: Text>(&self, context: UnparsingContext<T>, event_index: Option<u16>) -> Seq<char> {
        match self {
                ParsedEventMessage::Lineup { players, .. } => lineup_text(players@),
            _ => Seq::empty(),
        }
    }

    /// The text of a `PlayBall` message.
    pub open spec fn spec_play_ball_text<T: Text>(&self, context: UnparsingContext<T>, event_index: Option<u16>) -> Seq<char> {
        match self {
                ParsedEventMessage::PlayBall => "\"PLAY BALL.\""@,
            _ => Seq::empty(),
        }
    }

    /// The text of a `GameOver` message.
    pub open spec fn spec_game_over_text<T: Text>(&self, context: UnparsingContext<T>, event_index: Option<u16>) -> Seq<char> {
        match self {
                ParsedEventMessage::GameOver { message } => message.spec_name(),
            _ => Seq::empty(),
        }
    }

    /// The text of a `Recordkeeping` message.
    pub open spec fn spec_recordkeeping_text<T: Text>(&self, context: UnparsingContext<T>, event_index: Option<u16>) -> Seq<char> {
        match self {
                ParsedEventMessage::Recordkeeping { winning_team, losing_team, winning_score, losing_score } => winning_team.spec_text() + " defeated "@ + losing_team.spec_text() + ". Final score: "@
                    + dec(*winning_score as nat) + "-"@ + dec(*losing_score as nat),
            _ => Seq::empty(),
        }
    }

    /// The text of a `InningStart` message.
    pub open spec fn spec_inning_start_text<T: Text>(&self, context: UnparsingContext<T>, event_index: Option<u16>) -> Seq<char> {
        match self {
                ParsedEventMessage::InningStart { number, side, batting_team, automatic_runner, pitcher_status } => "Start of the "@ + side.spec_name() + " of the "@ + start_ordinal(*number) + ". "@ + batting_team.spec_text()
                    + " batting."@
                    + match automatic_runner {
                        Some(runner) => " "@ + runner@ + " starts the inning on second base."@,
                        None => Seq::empty(),
                    }
                    + match pitcher_status {
                        Some(p) => p.spec_text(),
                        None => Seq::empty(),
                    },
            _ => Seq::empty(),
        }
    }

    /// The text of a `NowBatting` message.
    pub open spec fn spec_now_batting_text<T: Text>(&self, context: UnparsingContext<T>, event_index: Option<u16>) -> Seq<char> {
        match self {
                ParsedEventMessage::NowBatting { batter, stats } => "Now batting: "@ + batter@ + stats.spec_text(),
            _ => Seq::empty(),
        }
    }

    /// The text of a `InningEnd` message.
    pub open spec fn spec_inning_end_text<T: Text>(&self, context: UnparsingContext<T>, event_index: Option<u16>) -> Seq<char> {
        match self {
                ParsedEventMessage::InningEnd { number, side } => "End of the "@ + side.spec_name() + " of the "@ + end_ordinal(*number) + "."@,
            _ => Seq::empty(),
        }
    }

    /// The text of a `MoundVisit` message.
    pub open spec fn spec_mound_visit_text<T: Text>(&self, context: UnparsingContext<T>, event_index: Option<u16>) -> Seq<char> {
        match self {
                ParsedEventMessage::MoundVisit { team, mound_visit_type } => match mound_visit_type {
                MoundVisitType::MoundVisit => "The "@ + team.spec_text() + " manager is making a mound visit."@,
                MoundVisitType::PitchingChange => "The "@ + team.spec_text() + " manager is making a pitching change."@,
            },
            _ => Seq::empty(),
        }
    }

    /// The text of a `PitcherRemains` message.
    pub open spec fn spec_pitcher_remains_text<T: Text>(&self, context: UnparsingContext<T>, event_index: Option<u16>) -> Seq<char> {
        match self {
                ParsedEventMessage::PitcherRemains { remaining_pitcher } => remaining_pitcher.spec_text() + " remains in the game."@,
            _ => Seq::empty(),
        }
    }

    /// The text of a `PitcherSwap` message.
    pub open spec fn spec_pitcher_swap_text<T: Text>(&self, context: UnparsingContext<T>, event_index: Option<u16>) -> Seq<char> {
        match self {
                ParsedEventMessage::PitcherSwap {
                leaving_pitcher_emoji,
                leaving_pitcher,
                arriving_pitcher_emoji,
                arriving_pitcher_place,
                arriving_pitcher_name,
            } => opt_emoji_text(*leaving_pitcher_emoji) + leaving_pitcher.spec_text() + " is leaving the game. "@
                + opt_emoji_text(*arriving_pitcher_emoji)
                + match arriving_pitcher_place {
                    Some(place) => place.spec_name() + " "@,
                    None => Seq::empty(),
                } + arriving_pitcher_name@ + " takes the mound."@,
            _ => Seq::empty(),
        }
    }

    /// The text of a `Ball` message.
    pub open spec fn spec_ball_text<T: Text>(&self, context: UnparsingContext<T>, event_index: Option<u16>) -> Seq<char> {
        let space = old_space_text(context, event_index);
        match self {
                ParsedEventMessage::Ball { steals, count, cheer, aurora_photos, ejection, door_prizes, wither } => space + "Ball. "@ + count_text(*count)
                    + pitch_tail_text(steals@, *aurora_photos, *ejection, *cheer, door_prizes@, *wither, context, event_index),
            _ => Seq::empty(),
        }
    }

    /// The text of a `Strike` message.
    pub open spec fn spec_strike_text<T: Text>(&self, context: UnparsingContext<T>, event_index: Option<u16>) -> Seq<char> {
        let space = old_space_text(context, event_index);
        match self {
                ParsedEventMessage::Strike { strike, steals, count, cheer, aurora_photos, ejection, door_prizes, wither } => space + "Strike, "@ + strike.spec_name() + ". "@ + count_text(*count)
                    + pitch_tail_text(steals@, *aurora_photos, *ejection, *cheer, door_prizes@, *wither, context, event_index),
            _ => Seq::empty(),
        }
    }

    /// The text of a `Foul` message.
    pub open spec fn spec_foul_text<T: Text>(&self, context: UnparsingContext<T>, event_index: Option<u16>) -> Seq<char> {
        let space = old_space_text(context, event_index);
        match self {
                ParsedEventMessage::Foul { foul, steals, count, cheer, aurora_photos, door_prizes, wither } => space + "Foul "@ + foul.spec_name() + ". "@ + count_text(*count)
                    + pitch_tail_text(steals@, *aurora_photos, None, *cheer, door_prizes@, *wither, context, event_index),
            _ => Seq::empty(),
        }
    }

    /// The text of a `Walk` message.
    pub open spec fn spec_walk_text<T: Text>(&self, context: UnparsingContext<T>, event_index: Option<u16>) -> Seq<char> {
        let space = old_space_text(context, event_index);
        match self {
                ParsedEventMessage::Walk { batter, scores, advances, cheer, aurora_photos, ejection, wither } => space + "Ball 4. "@ + batter@ + " walks."@
                    + walk_tail_text(scores@, advances@, *aurora_photos, *cheer, *ejection, *wither, context, event_index),
            _ => Seq::empty(),
        }
    }

    /// The text of a `FairBall` message.
    pub open spec fn spec_fair_ball_text<T: Text>(&self, context: UnparsingContext<T>, event_index: Option<u16>) -> Seq<char> {
        let space = old_space_text(context, event_index);
        match self {
                ParsedEventMessage::FairBall { batter, fair_ball_type, destination, cheer, aurora_photos, door_prizes } => space + batter@ + " hits a "@ + fair_ball_type.spec_name() + " to "@ + destination.spec_name() + "."@
                    + opt_text(*aurora_photos) + opt_cheer_text(*cheer, context, event_index) + door_prizes_text(door_prizes@),
            _ => Seq::empty(),
        }
    }

    /// The text of a `BatterToBase` message.
    pub open spec fn spec_batter_to_base_text<T: Text>(&self, context: UnparsingContext<T>, event_index: Option<u16>) -> Seq<char> {
        match self {
                ParsedEventMessage::BatterToBase { batter, distance, fair_ball_type, fielder, scores, advances, ejection } => batter@ + " "@ + distance.spec_name() + " on a "@ + fair_ball_type.spec_name() + " to "@ + fielder.spec_text()
                    + "."@ + scores_and_advances_text(scores@, advances@) + opt_ejection_text(*ejection),
            _ => Seq::empty(),
        }
    }

    /// The text of a `HomeRun` message.
    pub open spec fn spec_home_run_text<T: Text>(&self, context: UnparsingContext<T>, event_index: Option<u16>) -> Seq<char> {
        match self {
                ParsedEventMessage::HomeRun { batter, fair_ball_type, destination, scores, grand_slam, ejection } => "<strong>"@ + batter@ + if *grand_slam { " hits a grand slam on a "@ } else { " homers on a "@ }
                    + fair_ball_type.spec_name() + " to "@ + destination.spec_name() + "!</strong>"@ + scores_text(scores@)
                    + opt_ejection_text(*ejection),
            _ => Seq::empty(),
        }
    }

    /// The text of a `CaughtOut` message.
    pub open spec fn spec_caught_out_text<T: Text>(&self, context: UnparsingContext<T>, event_index: Option<u16>) -> Seq<char> {
        match self {
                ParsedEventMessage::CaughtOut { batter, fair_ball_type, caught_by, scores, advances, sacrifice, perfect, ejection } => batter@ + " "@ + fair_ball_type.spec_verb_name() + " out "@
                    + if *sacrifice { "on a sacrifice fly "@ } else { Seq::empty() } + "to "@ + caught_by.spec_text() + "."@
                    + scores_and_advances_text(scores@, advances@)
                    + if *perfect { " <strong>Perfect catch!</strong>"@ } else { Seq::empty() } + opt_ejection_text(*ejection),
            _ => Seq::empty(),
        }
    }

    /// The text of a `GroundedOut` message.
    pub open spec fn spec_grounded_out_text<T: Text>(&self, context: UnparsingContext<T>, event_index: Option<u16>) -> Seq<char> {
        match self {
                ParsedEventMessage::GroundedOut { batter, fielders, scores, advances, amazing, ejection } => batter@ + " grounds out"@ + fielders_text(fielders@) + "."@ + scores_and_advances_text(scores@, advances@)
                    + if !*amazing {
                        Seq::empty()
                    } else if context.season < 5 {
                        " <strong>Perfect catch!</strong>"@
                    } else {
                        " <strong>Amazing throw!</strong>"@
                    } + opt_ejection_text(*ejection),
            _ => Seq::empty(),
        }
    }

    /// The text of a `ForceOut` message.
    pub open spec fn spec_force_out_text<T: Text>(&self, context: UnparsingContext<T>, event_index: Option<u16>) -> Seq<char> {
        match self {
                ParsedEventMessage::ForceOut { batter, fielders, fair_ball_type, out, scores, advances, ejection } => batter@ + " "@ + fair_ball_type.spec_verb_name() + " into a force out"@ + fielders_for_play_text(fielders@) + ". "@
                    + out.spec_text() + scores_and_advances_text(scores@, advances@) + opt_ejection_text(*ejection),
            _ => Seq::empty(),
        }
    }

    /// The text of a `ReachOnFieldersChoice` message.
    pub open spec fn spec_reach_on_fielders_choice_text<T: Text>(&self, context: UnparsingContext<T>, event_index: Option<u16>) -> Seq<char> {
        match self {
                ParsedEventMessage::ReachOnFieldersChoice { batter, fielders, result, scores, advances, ejection } => match result {
                FieldingAttempt::Out { out } =>
                    batter@ + " reaches on a fielder's choice out"@ + fielders_for_play_text(fielders@) + ". "@ + out.spec_text()
                        + scores_and_advances_text(scores@, advances@) + opt_ejection_text(*ejection),
                FieldingAttempt::Error { fielder, error } =>
                    batter@ + " reaches on a fielder's choice, fielded by "@ + fielders@[0].spec_text() + "."@
                        + scores_and_advances_text(scores@, advances@) + " "@ + error.spec_name() + " error by "@ + fielder@ + "."@
                        + opt_ejection_text(*ejection),
            },
            _ => Seq::empty(),
        }
    }

    /// The text of a `DoublePlayCaught` message.
    pub open spec fn spec_double_play_caught_text<T: Text>(&self, context: UnparsingContext<T>, event_index: Option<u16>) -> Seq<char> {
        match self {
                ParsedEventMessage::DoublePlayCaught { batter, fair_ball_type, fielders, out_two, scores, advances, ejection } => batter@ + " "@ + fair_ball_type.spec_verb_name() + " into a double play"@ + fielders_for_play_text(fielders@) + ". "@
                    + out_two.spec_text() + scores_and_advances_text(scores@, advances@) + opt_ejection_text(*ejection),
            _ => Seq::empty(),
        }
    }

    /// The text of a `ReachOnFieldingError` message.
    pub open spec fn spec_reach_on_fielding_error_text<T: Text>(&self, context: UnparsingContext<T>, event_index: Option<u16>) -> Seq<char> {
        match self {
                ParsedEventMessage::ReachOnFieldingError { batter, fielder, error, scores, advances, ejection } => batter@ + " reaches on a "@ + error.spec_lowercase() + " error by "@ + fielder.spec_text() + "."@
                    + scores_and_advances_text(scores@, advances@) + opt_ejection_text(*ejection),
            _ => Seq::empty(),
        }
    }

    /// The text of a `FallingStar` message.
    pub open spec fn spec_falling_star_text<T: Text>(&self, context: UnparsingContext<T>, event_index: Option<u16>) -> Seq<char> {
        match self {
                ParsedEventMessage::FallingStar { player_name } => "<strong>🌠 "@ + player_name@ + " is hit by a Falling Star!</strong>"@,
            _ => Seq::empty(),
        }
    }

    /// The text of a `Balk` message.
    pub open spec fn spec_balk_text<T: Text>(&self, context: UnparsingContext<T>, event_index: Option<u16>) -> Seq<char> {
        match self {
                ParsedEventMessage::Balk { pitcher, scores, advances } => "Balk. "@ + pitcher@ + " dropped the ball."@ + scores_and_advances_text(scores@, advances@),
            _ => Seq::empty(),
        }
    }

    /// The text of a `Party` message.
    pub open spec fn spec_party_text<T: Text>(&self, context: UnparsingContext<T>, event_index: Option<u16>) -> Seq<char> {
        match self {
                ParsedEventMessage::Party {
                pitcher_name,
                pitcher_amount_gained,
                pitcher_attribute,
                batter_name,
                batter_amount_gained,
                batter_attribute,
                durability_loss,
            } => "<strong>🥳 "@ + pitcher_name@ + " and "@ + batter_name@ + " are Partying!</strong> "@ + pitcher_name@
                + " gained +"@ + dec(*pitcher_amount_gained as nat) + " "@ + pitcher_attribute.spec_name() + ". "@
                + batter_name@ + " gained +"@ + dec(*batter_amount_gained as nat) + " "@ + batter_attribute.spec_name() + ". "@
                + durability_loss.spec_text(),
            _ => Seq::empty(),
        }
    }

    /// The text of a `WeatherReflection` message.
    pub open spec fn spec_weather_reflection_text<T: Text>(&self, context: UnparsingContext<T>, event_index: Option<u16>) -> Seq<char> {
        match self {
                ParsedEventMessage::WeatherReflection { team } => "🪞 The reflection shatters. "@ + team.spec_text() + " received a Fragment of Reflection."@,
            _ => Seq::empty(),
        }
    }
}

impl<S: Text> ParsedEventMessage<S> {
    #[verifier::spinoff_prover]
    #[verifier::rlimit(40)]
    fn push_parse_error<T: Text>(&self, out: &mut String, context: &UnparsingContext<T>, event_index: Option<u16>)
        requires
            self.wf(),
            self is ParseError,
        ensures
            final(out)@ == old(out)@ + self.spec_parse_error_text(*context, event_index),
    {
        match self {
            ParsedEventMessage::ParseError { message, .. } => {
                push_text(out, message);
            },
            _ => {},
        }
    }

    #[verifier::spinoff_prover]
    #[verifier::rlimit(40)]
    fn push_known_bug<T: Text>(&self, out: &mut String, context: &UnparsingContext<T>, event_index: Option<u16>)
        requires
            self.wf(),
            self is KnownBug,
        ensures
            final(out)@ == old(out)@ + self.spec_known_bug_text(*context, event_index),
    {
        match self {
            ParsedEventMessage::KnownBug { bug } => {
                let b = bug.to_string();
                out.append(b.as_str());
            },
            _ => {},
        }
    }

    #[verifier::spinoff_prover]
    #[verifier::rlimit(40)]
    fn push_live_now<T: Text>(&self, out: &mut String, context: &UnparsingContext<T>, event_index: Option<u16>)
        requires
            self.wf(),
            self is LiveNow,
        ensures
            final(out)@ == old(out)@ + self.spec_live_now_text(*context, event_index),
    {
        match self {
            ParsedEventMessage::LiveNow { away_team, home_team, stadium } => {
                away_team.push_to(out);
                match stadium {
                    Some(stadium) => {
                        out.append(" vs ");
                        home_team.push_to(out);
                        out.append(" @ ");
                        push_text(out, stadium);
                    },
                    None => {
                        out.append(" @ ");
                        home_team.push_to(out);
                    },
                }
            },
            _ => {},
        }
    }

    #[verifier::spinoff_prover]
    #[verifier::rlimit(40)]
    fn push_pitching_matchup<T: Text>(&self, out: &mut String, context: &UnparsingContext<T>, event_index: Option<u16>)
        requires
            self.wf(),
            self is PitchingMatchup,
        ensures
            final(out)@ == old(out)@ + self.spec_pitching_matchup_text(*context, event_index),
    {
        match self {
            ParsedEventMessage::PitchingMatchup { away_team, home_team, home_pitcher, away_pitcher } => {
                away_team.push_to(out);
                out.append(" ");
                push_text(out, away_pitcher);
                out.append(" vs. ");
                home_team.push_to(out);
                out.append(" ");
                push_text(out, home_pitcher);
            },
            _ => {},
        }
    }

    #[verifier::spinoff_prover]
    #[verifier::rlimit(40)]
    fn push_lineup<T: Text>(&self, out: &mut String, context: &UnparsingContext<T>, event_index: Option<u16>)
        requires
            self.wf(),
            self is Lineup,
        ensures
            final(out)@ == old(out)@ + self.spec_lineup_text(*context, event_index),
    {
        match self {
            ParsedEventMessage::Lineup { players, .. } => {
                push_lineup(out, players);
            },
            _ => {},
        }
    }

    #[verifier::spinoff_prover]
    #[verifier::rlimit(40)]
    fn push_play_ball<T: Text>(&self, out: &mut String, context: &UnparsingContext<T>, event_index: Option<u16>)
        requires
            self.wf(),
            self is PlayBall,
        ensures
            final(out)@ == old(out)@ + self.spec_play_ball_text(*context, event_index),
    {
        match self {
            ParsedEventMessage::PlayBall => {
                out.append("\"PLAY BALL.\"");
            },
            _ => {},
        }
    }

    #[verifier::spinoff_prover]
    #[verifier::rlimit(40)]
    fn push_game_over<T: Text>(&self, out: &mut String, context: &UnparsingContext<T>, event_index: Option<u16>)
        requires
            self.wf(),
            self is GameOver,
        ensures
            final(out)@ == old(out)@ + self.spec_game_over_text(*context, event_index),
    {
        match self {
            ParsedEventMessage::GameOver { message } => {
                out.append(message.as_str());
            },
            _ => {},
        }
    }

    #[verifier::spinoff_prover]
    #[verifier::rlimit(40)]
    fn push_recordkeeping<T: Text>(&self, out: &mut String, context: &UnparsingContext<T>, event_index: Option<u16>)
        requires
            self.wf(),
            self is Recordkeeping,
        ensures
            final(out)@ == old(out)@ + self.spec_recordkeeping_text(*context, event_index),
    {
        match self {
            ParsedEventMessage::Recordkeeping { winning_team, losing_team, winning_score, losing_score } => {
                winning_team.push_to(out);
                out.append(" defeated ");
                losing_team.push_to(out);
                out.append(". Final score: ");
                push_dec(out, *winning_score as u64);
                out.append("-");
                push_dec(out, *losing_score as u64);
            },
            _ => {},
        }
    }

    #[verifier::spinoff_prover]
    #[verifier::rlimit(40)]
    fn push_inning_start<T: Text>(&self, out: &mut String, context: &UnparsingContext<T>, event_index: Option<u16>)
        requires
            self.wf(),
            self is InningStart,
        ensures
            final(out)@ == old(out)@ + self.spec_inning_start_text(*context, event_index),
    {
        match self {
            ParsedEventMessage::InningStart { number, side, batting_team, automatic_runner, pitcher_status } => {
                out.append("Start of the ");
                out.append(side.as_str());
                out.append(" of the ");
                push_start_ordinal(out, *number);
                out.append(". ");
                batting_team.push_to(out);
                out.append(" batting.");
                match automatic_runner {
                    Some(runner) => {
                        out.append(" ");
                        push_text(out, runner);
                        out.append(" starts the inning on second base.");
                    },
                    None => {},
                }
                match pitcher_status {
                    Some(p) => p.push_to(out),
                    None => {},
                }
            },
            _ => {},
        }
    }

    #[verifier::spinoff_prover]
    #[verifier::rlimit(40)]
    fn push_now_batting<T: Text>(&self, out: &mut String, context: &UnparsingContext<T>, event_index: Option<u16>)
        requires
            self.wf(),
            self is NowBatting,
        ensures
            final(out)@ == old(out)@ + self.spec_now_batting_text(*context, event_index),
    {
        match self {
            ParsedEventMessage::NowBatting { batter, stats } => {
                out.append("Now batting: ");
                push_text(out, batter);
                stats.push_to(out);
            },
            _ => {},
        }
    }

    #[verifier::spinoff_prover]
    #[verifier::rlimit(40)]
    fn push_inning_end<T: Text>(&self, out: &mut String, context: &UnparsingContext<T>, event_index: Option<u16>)
        requires
            self.wf(),
            self is InningEnd,
        ensures
            final(out)@ == old(out)@ + self.spec_inning_end_text(*context, event_index),
    {
        match self {
            ParsedEventMessage::InningEnd { number, side } => {
                out.append("End of the ");
                out.append(side.as_str());
                out.append(" of the ");
                push_end_ordinal(out, *number);
                out.append(".");
            },
            _ => {},
        }
    }

    #[verifier::spinoff_prover]
    #[verifier::rlimit(40)]
    fn push_mound_visit<T: Text>(&self, out: &mut String, context: &UnparsingContext<T>, event_index: Option<u16>)
        requires
            self.wf(),
            self is MoundVisit,
        ensures
            final(out)@ == old(out)@ + self.spec_mound_visit_text(*context, event_index),
    {
        match self {
            ParsedEventMessage::MoundVisit { team, mound_visit_type } => {
                out.append("The ");
                team.push_to(out);
                match mound_visit_type {
                    MoundVisitType::MoundVisit => out.append(" manager is making a mound visit."),
                    MoundVisitType::PitchingChange => out.append(" manager is making a pitching change."),
                }
            },
            _ => {},
        }
    }

    #[verifier::spinoff_prover]
    #[verifier::rlimit(40)]
    fn push_pitcher_remains<T: Text>(&self, out: &mut String, context: &UnparsingContext<T>, event_index: Option<u16>)
        requires
            self.wf(),
            self is PitcherRemains,
        ensures
            final(out)@ == old(out)@ + self.spec_pitcher_remains_text(*context, event_index),
    {
        match self {
            ParsedEventMessage::PitcherRemains { remaining_pitcher } => {
                remaining_pitcher.push_to(out);
                out.append(" remains in the game.");
            },
            _ => {},
        }
    }

    #[verifier::spinoff_prover]
    #[verifier::rlimit(40)]
    fn push_pitcher_swap<T: Text>(&self, out: &mut String, context: &UnparsingContext<T>, event_index: Option<u16>)
        requires
            self.wf(),
            self is PitcherSwap,
        ensures
            final(out)@ == old(out)@ + self.spec_pitcher_swap_text(*context, event_index),
    {
        match self {
            ParsedEventMessage::PitcherSwap {
                leaving_pitcher_emoji,
                leaving_pitcher,
                arriving_pitcher_emoji,
                arriving_pitcher_place,
                arriving_pitcher_name,
            } => {
                push_opt_emoji(out, leaving_pitcher_emoji);
                leaving_pitcher.push_to(out);
                out.append(" is leaving the game. ");
                push_opt_emoji(out, arriving_pitcher_emoji);
                match arriving_pitcher_place {
                    Some(place) => {
                        let p = place.to_string();
                        out.append(p.as_str());
                        out.append(" ");
                    },
                    None => {},
                }
                push_text(out, arriving_pitcher_name);
                out.append(" takes the mound.");
            },
            _ => {},
        }
    }

    #[verifier::spinoff_prover]
    #[verifier::rlimit(40)]
    fn push_ball<T: Text>(&self, out: &mut String, context: &UnparsingContext<T>, event_index: Option<u16>)
        requires
            context.wf(),
            self.wf(),
            self is Ball,
        ensures
            final(out)@ == old(out)@ + self.spec_ball_text(*context, event_index),
    {
        match self {
            ParsedEventMessage::Ball { steals, count, cheer, aurora_photos, ejection, door_prizes, wither } => {
                push_old_space(out, context, event_index);
                out.append("Ball. ");
                push_count(out, *count);
                push_pitch_tail(out, steals, aurora_photos, ejection, cheer, door_prizes, wither, context, event_index);
            },
            _ => {},
        }
    }

    #[verifier::spinoff_prover]
    #[verifier::rlimit(40)]
    fn push_strike<T: Text>(&self, out: &mut String, context: &UnparsingContext<T>, event_index: Option<u16>)
        requires
            context.wf(),
            self.wf(),
            self is Strike,
        ensures
            final(out)@ == old(out)@ + self.spec_strike_text(*context, event_index),
    {
        match self {
            ParsedEventMessage::Strike { strike, steals, count, cheer, aurora_photos, ejection, door_prizes, wither } => {
                push_old_space(out, context, event_index);
                out.append("Strike, ");
                out.append(strike.as_str());
                out.append(". ");
                push_count(out, *count);
                push_pitch_tail(out, steals, aurora_photos, ejection, cheer, door_prizes, wither, context, event_index);
            },
            _ => {},
        }
    }

    #[verifier::spinoff_prover]
    #[verifier::rlimit(40)]
    fn push_foul<T: Text>(&self, out: &mut String, context: &UnparsingContext<T>, event_index: Option<u16>)
        requires
            context.wf(),
            self.wf(),
            self is Foul,
        ensures
            final(out)@ == old(out)@ + self.spec_foul_text(*context, event_index),
    {
        match self {
            ParsedEventMessage::Foul { foul, steals, count, cheer, aurora_photos, door_prizes, wither } => {
                push_old_space(out, context, event_index);
                out.append("Foul ");
                out.append(foul.as_str());
                out.append(". ");
                push_count(out, *count);
                push_pitch_tail(out, steals, aurora_photos, &None, cheer, door_prizes, wither, context, event_index);
            },
            _ => {},
        }
    }

    #[verifier::spinoff_prover]
    #[verifier::rlimit(40)]
    fn push_walk<T: Text>(&self, out: &mut String, context: &UnparsingContext<T>, event_index: Option<u16>)
        requires
            context.wf(),
            self.wf(),
            self is Walk,
        ensures
            final(out)@ == old(out)@ + self.spec_walk_text(*context, event_index),
    {
        match self {
            ParsedEventMessage::Walk { batter, scores, advances, cheer, aurora_photos, ejection, wither } => {
                push_old_space(out, context, event_index);
                out.append("Ball 4. ");
                push_text(out, batter);
                out.append(" walks.");
                push_walk_tail(out, scores, advances, aurora_photos, cheer, ejection, wither, context, event_index);
            },
            _ => {},
        }
    }

    #[verifier::spinoff_prover]
    #[verifier::rlimit(40)]
    fn push_fair_ball<T: Text>(&self, out: &mut String, context: &UnparsingContext<T>, event_index: Option<u16>)
        requires
            context.wf(),
            self.wf(),
            self is FairBall,
        ensures
            final(out)@ == old(out)@ + self.spec_fair_ball_text(*context, event_index),
    {
        match self {
            ParsedEventMessage::FairBall { batter, fair_ball_type, destination, cheer, aurora_photos, door_prizes } => {
                push_old_space(out, context, event_index);
                push_text(out, batter);
                out.append(" hits a ");
                out.append(fair_ball_type.as_str());
                out.append(" to ");
                out.append(destination.as_str());
                out.append(".");
                push_opt_photos(out, aurora_photos);
                push_opt_cheer(out, cheer, context, event_index);
                push_door_prizes(out, door_prizes);
            },
            _ => {},
        }
    }

    #[verifier::spinoff_prover]
    #[verifier::rlimit(40)]
    fn push_batter_to_base<T: Text>(&self, out: &mut String, context: &UnparsingContext<T>, event_index: Option<u16>)
        requires
            self.wf(),
            self is BatterToBase,
        ensures
            final(out)@ == old(out)@ + self.spec_batter_to_base_text(*context, event_index),
    {
        match self {
            ParsedEventMessage::BatterToBase { batter, distance, fair_ball_type, fielder, scores, advances, ejection } => {
                push_text(out, batter);
                out.append(" ");
                out.append(distance.as_str());
                out.append(" on a ");
                out.append(fair_ball_type.as_str());
                out.append(" to ");
                fielder.push_to(out);
                out.append(".");
                push_scores(out, scores);
                push_advances(out, advances);
                push_opt_ejection(out, ejection);
            },
            _ => {},
        }
    }

    #[verifier::spinoff_prover]
    #[verifier::rlimit(40)]
    fn push_home_run<T: Text>(&self, out: &mut String, context: &UnparsingContext<T>, event_index: Option<u16>)
        requires
            self.wf(),
            self is HomeRun,
        ensures
            final(out)@ == old(out)@ + self.spec_home_run_text(*context, event_index),
    {
        match self {
            ParsedEventMessage::HomeRun { batter, fair_ball_type, destination, scores, grand_slam, ejection } => {
                out.append("<strong>");
                push_text(out, batter);
                if *grand_slam {
                    out.append(" hits a grand slam on a ");
                } else {
                    out.append(" homers on a ");
                }
                out.append(fair_ball_type.as_str());
                out.append(" to ");
                out.append(destination.as_str());
                out.append("!</strong>");
                push_scores(out, scores);
                push_opt_ejection(out, ejection);
            },
            _ => {},
        }
    }

    #[verifier::spinoff_prover]
    #[verifier::rlimit(40)]
    fn push_caught_out<T: Text>(&self, out: &mut String, context: &UnparsingContext<T>, event_index: Option<u16>)
        requires
            self.wf(),
            self is CaughtOut,
        ensures
            final(out)@ == old(out)@ + self.spec_caught_out_text(*context, event_index),
    {
        match self {
            ParsedEventMessage::CaughtOut { batter, fair_ball_type, caught_by, scores, advances, sacrifice, perfect, ejection } => {
                push_text(out, batter);
                out.append(" ");
                out.append(fair_ball_type.verb_name());
                out.append(" out ");
                if *sacrifice {
                    out.append("on a sacrifice fly ");
                }
                out.append("to ");
                caught_by.push_to(out);
                out.append(".");
                push_scores(out, scores);
                push_advances(out, advances);
                if *perfect {
                    out.append(" <strong>Perfect catch!</strong>");
                }
                push_opt_ejection(out, ejection);
            },
            _ => {},
        }
    }

    #[verifier::spinoff_prover]
    #[verifier::rlimit(40)]
    fn push_grounded_out<T: Text>(&self, out: &mut String, context: &UnparsingContext<T>, event_index: Option<u16>)
        requires
            self.wf(),
            self is GroundedOut,
        ensures
            final(out)@ == old(out)@ + self.spec_grounded_out_text(*context, event_index),
    {
        match self {
            ParsedEventMessage::GroundedOut { batter, fielders, scores, advances, amazing, ejection } => {
                push_text(out, batter);
                out.append(" grounds out");
                push_fielders(out, fielders);
                out.append(".");
                push_scores(out, scores);
                push_advances(out, advances);
                if *amazing {
                    if context.season < 5 {
                        out.append(" <strong>Perfect catch!</strong>");
                    } else {
                        out.append(" <strong>Amazing throw!</strong>");
                    }
                }
                push_opt_ejection(out, ejection);
            },
            _ => {},
        }
    }

    #[verifier::spinoff_prover]
    #[verifier::rlimit(40)]
    fn push_force_out<T: Text>(&self, out: &mut String, context: &UnparsingContext<T>, event_index: Option<u16>)
        requires
            self.wf(),
            self is ForceOut,
        ensures
            final(out)@ == old(out)@ + self.spec_force_out_text(*context, event_index),
    {
        match self {
            ParsedEventMessage::ForceOut { batter, fielders, fair_ball_type, out: runner_out, scores, advances, ejection } => {
                push_text(out, batter);
                out.append(" ");
                out.append(fair_ball_type.verb_name());
                out.append(" into a force out");
                push_fielders_for_play(out, fielders);
                out.append(". ");
                runner_out.push_to(out);
                push_scores(out, scores);
                push_advances(out, advances);
                push_opt_ejection(out, ejection);
            },
            _ => {},
        }
    }

    #[verifier::spinoff_prover]
    #[verifier::rlimit(40)]
    fn push_reach_on_fielders_choice<T: Text>(&self, out: &mut String, context: &UnparsingContext<T>, event_index: Option<u16>)
        requires
            self.wf(),
            self is ReachOnFieldersChoice,
        ensures
            final(out)@ == old(out)@ + self.spec_reach_on_fielders_choice_text(*context, event_index),
    {
        match self {
            ParsedEventMessage::ReachOnFieldersChoice { batter, fielders, result, scores, advances, ejection } => {
                match result {
                    FieldingAttempt::Out { out: runner_out } => {
                        push_text(out, batter);
                        out.append(" reaches on a fielder's choice out");
                        push_fielders_for_play(out, fielders);
                        out.append(". ");
                        runner_out.push_to(out);
                        push_scores(out, scores);
                        push_advances(out, advances);
                        push_opt_ejection(out, ejection);
                    },
                    FieldingAttempt::Error { fielder, error } => {
                        push_text(out, batter);
                        out.append(" reaches on a fielder's choice, fielded by ");
                        fielders[0].push_to(out);
                        out.append(".");
                        push_scores(out, scores);
                        push_advances(out, advances);
                        out.append(" ");
                        out.append(error.uppercase());
                        out.append(" error by ");
                        push_text(out, fielder);
                        out.append(".");
                        push_opt_ejection(out, ejection);
                    },
                }
            },
            _ => {},
        }
    }

    #[verifier::spinoff_prover]
    #[verifier::rlimit(40)]
    fn push_double_play_caught<T: Text>(&self, out: &mut String, context: &UnparsingContext<T>, event_index: Option<u16>)
        requires
            self.wf(),
            self is DoublePlayCaught,
        ensures
            final(out)@ == old(out)@ + self.spec_double_play_caught_text(*context, event_index),
    {
        match self {
            ParsedEventMessage::DoublePlayCaught { batter, fair_ball_type, fielders, out_two, scores, advances, ejection } => {
                push_text(out, batter);
                out.append(" ");
                out.append(fair_ball_type.verb_name());
                out.append(" into a double play");
                push_fielders_for_play(out, fielders);
                out.append(". ");
                out_two.push_to(out);
                push_scores(out, scores);
                push_advances(out, advances);
                push_opt_ejection(out, ejection);
            },
            _ => {},
        }
    }

    #[verifier::spinoff_prover]
    #[verifier::rlimit(40)]
    fn push_reach_on_fielding_error<T: Text>(&self, out: &mut String, context: &UnparsingContext<T>, event_index: Option<u16>)
        requires
            self.wf(),
            self is ReachOnFieldingError,
        ensures
            final(out)@ == old(out)@ + self.spec_reach_on_fielding_error_text(*context, event_index),
    {
        match self {
            ParsedEventMessage::ReachOnFieldingError { batter, fielder, error, scores, advances, ejection } => {
                push_text(out, batter);
                out.append(" reaches on a ");
                out.append(error.lowercase());
                out.append(" error by ");
                fielder.push_to(out);
                out.append(".");
                push_scores(out, scores);
                push_advances(out, advances);
                push_opt_ejection(out, ejection);
            },
            _ => {},
        }
    }

    #[verifier::spinoff_prover]
    #[verifier::rlimit(40)]
    fn push_falling_star<T: Text>(&self, out: &mut String, context: &UnparsingContext<T>, event_index: Option<u16>)
        requires
            self.wf(),
            self is FallingStar,
        ensures
            final(out)@ == old(out)@ + self.spec_falling_star_text(*context, event_index),
    {
        match self {
            ParsedEventMessage::FallingStar { player_name } => {
                out.append("<strong>🌠 ");
                push_text(out, player_name);
                out.append(" is hit by a Falling Star!</strong>");
            },
            _ => {},
        }
    }

    #[verifier::spinoff_prover]
    #[verifier::rlimit(40)]
    fn push_balk<T: Text>(&self, out: &mut String, context: &UnparsingContext<T>, event_index: Option<u16>)
        requires
            self.wf(),
            self is Balk,
        ensures
            final(out)@ == old(out)@ + self.spec_balk_text(*context, event_index),
    {
        match self {
            ParsedEventMessage::Balk { pitcher, scores, advances } => {
                out.append("Balk. ");
                push_text(out, pitcher);
                out.append(" dropped the ball.");
                push_scores(out, scores);
                push_advances(out, advances);
            },
            _ => {},
        }
    }

    #[verifier::spinoff_prover]
    #[verifier::rlimit(40)]
    fn push_party<T: Text>(&self, out: &mut String, context: &UnparsingContext<T>, event_index: Option<u16>)
        requires
            self.wf(),
            self is Party,
        ensures
            final(out)@ == old(out)@ + self.spec_party_text(*context, event_index),
    {
        match self {
            ParsedEventMessage::Party {
                pitcher_name,
                pitcher_amount_gained,
                pitcher_attribute,
                batter_name,
                batter_amount_gained,
                batter_attribute,
                durability_loss,
            } => {
                out.append("<strong>🥳 ");
                push_text(out, pitcher_name);
                out.append(" and ");
                push_text(out, batter_name);
                out.append(" are Partying!</strong> ");
                push_text(out, pitcher_name);
                out.append(" gained +");
                push_dec(out, *pitcher_amount_gained as u64);
                out.append(" ");
                out.append(pitcher_attribute.as_str());
                out.append(". ");
                push_text(out, batter_name);
                out.append(" gained +");
                push_dec(out, *batter_amount_gained as u64);
                out.append(" ");
                out.append(batter_attribute.as_str());
                out.append(". ");
                durability_loss.push_to(out);
            },
            _ => {},
        }
    }

    #[verifier::spinoff_prover]
    #[verifier::rlimit(40)]
    fn push_weather_reflection<T: Text>(&self, out: &mut String, context: &UnparsingContext<T>, event_index: Option<u16>)
        requires
            self.wf(),
            self is WeatherReflection,
        ensures
            final(out)@ == old(out)@ + self.spec_weather_reflection_text(*context, event_index),
    {
        match self {
            ParsedEventMessage::WeatherReflection { team } => {
                out.append("🪞 The reflection shatters. ");
                team.push_to(out);
                out.append(" received a Fragment of Reflection.");
            },
        
            _ => {},
        }
    }

    /// Appends the message this value was parsed from, as written at the time of
    /// the event with index `event_index` in `context`.
    pub fn push_unparse<T: Text>(&self, out: &mut String, context: &UnparsingContext<T>, event_index: Option<u16>)
        requires
            self.spec_reads_day() ==> context.wf(),
            self.wf(),
        ensures
            final(out)@ == old(out)@ + self.spec_unparse(*context, event_index),
    {
        match self {
            ParsedEventMessage::ParseError { .. } => self.push_parse_error(out, context, event_index),
            ParsedEventMessage::KnownBug { .. } => self.push_known_bug(out, context, event_index),
            ParsedEventMessage::LiveNow { .. } => self.push_live_now(out, context, event_index),
            ParsedEventMessage::PitchingMatchup { .. } => self.push_pitching_matchup(out, context, event_index),
            ParsedEventMessage::Lineup { .. } => self.push_lineup(out, context, event_index),
            ParsedEventMessage::PlayBall => self.push_play_ball(out, context, event_index),
            ParsedEventMessage::GameOver { .. } => self.push_game_over(out, context, event_index),
            ParsedEventMessage::Recordkeeping { .. } => self.push_recordkeeping(out, context, event_index),
            ParsedEventMessage::InningStart { .. } => self.push_inning_start(out, context, event_index),
            ParsedEventMessage::NowBatting { .. } => self.push_now_batting(out, context, event_index),
            ParsedEventMessage::InningEnd { .. } => self.push_inning_end(out, context, event_index),
            ParsedEventMessage::MoundVisit { .. } => self.push_mound_visit(out, context, event_index),
            ParsedEventMessage::PitcherRemains { .. } => self.push_pitcher_remains(out, context, event_index),
            ParsedEventMessage::PitcherSwap { .. } => self.push_pitcher_swap(out, context, event_index),
            ParsedEventMessage::Ball { .. } => self.push_ball(out, context, event_index),
            ParsedEventMessage::Strike { .. } => self.push_strike(out, context, event_index),
            ParsedEventMessage::Foul { .. } => self.push_foul(out, context, event_index),
            ParsedEventMessage::Walk { .. } => self.push_walk(out, context, event_index),
            ParsedEventMessage::FairBall { .. } => self.push_fair_ball(out, context, event_index),
            ParsedEventMessage::BatterToBase { .. } => self.push_batter_to_base(out, context, event_index),
            ParsedEventMessage::HomeRun { .. } => self.push_home_run(out, context, event_index),
            ParsedEventMessage::CaughtOut { .. } => self.push_caught_out(out, context, event_index),
            ParsedEventMessage::GroundedOut { .. } => self.push_grounded_out(out, context, event_index),
            ParsedEventMessage::ForceOut { .. } => self.push_force_out(out, context, event_index),
            ParsedEventMessage::ReachOnFieldersChoice { .. } => self.push_reach_on_fielders_choice(out, context, event_index),
            ParsedEventMessage::DoublePlayCaught { .. } => self.push_double_play_caught(out, context, event_index),
            ParsedEventMessage::ReachOnFieldingError { .. } => self.push_reach_on_fielding_error(out, context, event_index),
            ParsedEventMessage::FallingStar { .. } => self.push_falling_star(out, context, event_index),
            ParsedEventMessage::Balk { .. } => self.push_balk(out, context, event_index),
            ParsedEventMessage::Party { .. } => self.push_party(out, context, event_index),
            ParsedEventMessage::WeatherReflection { .. } => self.push_weather_reflection(out, context, event_index),
        }
    }

    /// Recreates the event message this value was parsed from.
    pub fn unparse<T: Text>(&self, context: &UnparsingContext<T>, event_index: Option<u16>) -> (r: String)
        requires
            self.spec_reads_day() ==> context.wf(),
            self.wf(),
        ensures
            r@ == self.spec_unparse(*context, event_index),
    {
        let mut s = String::new();
        self.push_unparse(&mut s, context, event_index);
        s
    }
}

/// A caught ball is written "{batter} {verb} out to {fielder}..." and a
/// sacrifice fly "{batter} {verb} out on a sacrifice fly to {fielder}...": the
/// two messages differ only by the words "on a sacrifice fly " after " out ",
/// so the flag is never lost in writing.
pub proof fn lemma_sacrifice_fly_words<S: Text, T: Text>(
    batter: S,
    fair_ball_type: FairBallType,
    caught_by: PlacedPlayer<S>,
    scores: Vec<S>,
    advances: Vec<RunnerAdvance<S>>,
    perfect: bool,
    ejection: Option<Ejection<S>>,
    context: UnparsingContext<T>,
    event_index: Option<u16>,
)
    ensures
        exists|rest: Seq<char>| {
            &&& (ParsedEventMessage::CaughtOut { batter, fair_ball_type, caught_by, scores, advances, sacrifice: true, perfect, ejection })
                .spec_unparse(context, event_index)
                == batter@ + " "@ + fair_ball_type.spec_verb_name() + " out on a sacrifice fly to "@ + caught_by.spec_text() + rest
            &&& (ParsedEventMessage::CaughtOut { batter, fair_ball_type, caught_by, scores, advances, sacrifice: false, perfect, ejection })
                .spec_unparse(context, event_index)
                == batter@ + " "@ + fair_ball_type.spec_verb_name() + " out to "@ + caught_by.spec_text() + rest
        },
        (ParsedEventMessage::CaughtOut { batter, fair_ball_type, caught_by, scores, advances, sacrifice: true, perfect, ejection })
            .spec_unparse(context, event_index)
            != (ParsedEventMessage::CaughtOut { batter, fair_ball_type, caught_by, scores, advances, sacrifice: false, perfect, ejection })
            .spec_unparse(context, event_index),
{
    reveal_strlit(" ");
    reveal_strlit(" out ");
    reveal_strlit("on a sacrifice fly ");
    reveal_strlit("to ");
    reveal_strlit(" out on a sacrifice fly to ");
    reveal_strlit(" out to ");
    let sac = ParsedEventMessage::CaughtOut { batter, fair_ball_type, caught_by, scores, advances, sacrifice: true, perfect, ejection };
    let plain = ParsedEventMessage::CaughtOut { batter, fair_ball_type, caught_by, scores, advances, sacrifice: false, perfect, ejection };
    let head = batter@ + " "@ + fair_ball_type.spec_verb_name();
    let rest = "."@ + scores_and_advances_text(scores@, advances@)
        + (if perfect { " <strong>Perfect catch!</strong>"@ } else { Seq::empty() }) + opt_ejection_text(ejection);
    assert(sac.spec_unparse(context, event_index) =~= head + " out on a sacrifice fly to "@ + caught_by.spec_text() + rest);
    assert(plain.spec_unparse(context, event_index) =~= head + " out to "@ + caught_by.spec_text() + rest);
    assert(sac.spec_unparse(context, event_index).len() == plain.spec_unparse(context, event_index).len() + 19);
}

/// A home run is written "<strong>{batter} homers on a ..." and a grand slam
/// "<strong>{batter} hits a grand slam on a ...", the rest alike.
pub proof fn lemma_grand_slam_words<S: Text, T: Text>(
    batter: S,
    fair_ball_type: FairBallType,
    destination: FairBallDestination,
    scores: Vec<S>,
    ejection: Option<Ejection<S>>,
    context: UnparsingContext<T>,
    event_index: Option<u16>,
)
    ensures
        exists|rest: Seq<char>| {
            &&& (ParsedEventMessage::HomeRun { batter, fair_ball_type, destination, scores, grand_slam: true, ejection })
                .spec_unparse(context, event_index) == "<strong>"@ + batter@ + " hits a grand slam on a "@ + rest
            &&& (ParsedEventMessage::HomeRun { batter, fair_ball_type, destination, scores, grand_slam: false, ejection })
                .spec_unparse(context, event_index) == "<strong>"@ + batter@ + " homers on a "@ + rest
        },
        (ParsedEventMessage::HomeRun { batter, fair_ball_type, destination, scores, grand_slam: true, ejection })
            .spec_unparse(context, event_index)
            != (ParsedEventMessage::HomeRun { batter, fair_ball_type, destination, scores, grand_slam: false, ejection })
            .spec_unparse(context, event_index),
{
    reveal_strlit(" hits a grand slam on a ");
    reveal_strlit(" homers on a ");
    let slam = ParsedEventMessage::HomeRun { batter, fair_ball_type, destination, scores, grand_slam: true, ejection };
    let plain = ParsedEventMessage::HomeRun { batter, fair_ball_type, destination, scores, grand_slam: false, ejection };
    let rest = fair_ball_type.spec_name() + " to "@ + destination.spec_name() + "!</strong>"@ + scores_text(scores@)
        + opt_ejection_text(ejection);
    assert(slam.spec_unparse(context, event_index) =~= "<strong>"@ + batter@ + " hits a grand slam on a "@ + rest);
    assert(plain.spec_unparse(context, event_index) =~= "<strong>"@ + batter@ + " homers on a "@ + rest);
    assert(slam.spec_unparse(context, event_index).len() != plain.spec_unparse(context, event_index).len());
}

/// A perfect catch of a caught ball adds " <strong>Perfect catch!</strong>"
/// after the runners' moves, before any ejection.
pub proof fn lemma_perfect_catch_words<S: Text, T: Text>(
    batter: S,
    fair_ball_type: FairBallType,
    caught_by: PlacedPlayer<S>,
    scores: Vec<S>,
    advances: Vec<RunnerAdvance<S>>,
    sacrifice: bool,
    ejection: Option<Ejection<S>>,
    context: UnparsingContext<T>,
    event_index: Option<u16>,
)
    ensures
        exists|head: Seq<char>| {
            &&& (ParsedEventMessage::CaughtOut { batter, fair_ball_type, caught_by, scores, advances, sacrifice, perfect: true, ejection })
                .spec_unparse(context, event_index) == head + scores_and_advances_text(scores@, advances@)
                    + " <strong>Perfect catch!</strong>"@ + opt_ejection_text(ejection)
            &&& (ParsedEventMessage::CaughtOut { batter, fair_ball_type, caught_by, scores, advances, sacrifice, perfect: false, ejection })
                .spec_unparse(context, event_index) == head + scores_and_advances_text(scores@, advances@) + opt_ejection_text(ejection)
        },
{
    let yes = ParsedEventMessage::CaughtOut { batter, fair_ball_type, caught_by, scores, advances, sacrifice, perfect: true, ejection };
    let no = ParsedEventMessage::CaughtOut { batter, fair_ball_type, caught_by, scores, advances, sacrifice, perfect: false, ejection };
    let head = batter@ + " "@ + fair_ball_type.spec_verb_name() + " out "@
        + (if sacrifice { "on a sacrifice fly "@ } else { Seq::empty() }) + "to "@ + caught_by.spec_text() + "."@;
    assert(yes.spec_unparse(context, event_index) =~= head + scores_and_advances_text(scores@, advances@)
        + " <strong>Perfect catch!</strong>"@ + opt_ejection_text(ejection));
    assert(no.spec_unparse(context, event_index) =~= head + scores_and_advances_text(scores@, advances@) + opt_ejection_text(ejection));
}

/// A ground out with an amazing play adds " <strong>Perfect catch!</strong>"
/// before season 5 and " <strong>Amazing throw!</strong>" from season 5 on,
/// after the runners' moves and before any ejection.
pub proof fn lemma_amazing_throw_words<S: Text, T: Text>(
    batter: S,
    fielders: Vec<PlacedPlayer<S>>,
    scores: Vec<S>,
    advances: Vec<RunnerAdvance<S>>,
    ejection: Option<Ejection<S>>,
    context: UnparsingContext<T>,
    event_index: Option<u16>,
)
    ensures
        exists|head: Seq<char>| {
            &&& (ParsedEventMessage::GroundedOut { batter, fielders, scores, advances, amazing: true, ejection })
                .spec_unparse(context, event_index) == head + scores_and_advances_text(scores@, advances@)
                    + (if context.season < 5 { " <strong>Perfect catch!</strong>"@ } else { " <strong>Amazing throw!</strong>"@ })
                    + opt_ejection_text(ejection)
            &&& (ParsedEventMessage::GroundedOut { batter, fielders, scores, advances, amazing: false, ejection })
                .spec_unparse(context, event_index) == head + scores_and_advances_text(scores@, advances@) + opt_ejection_text(ejection)
        },
{
    let yes = ParsedEventMessage::GroundedOut { batter, fielders, scores, advances, amazing: true, ejection };
    let no = ParsedEventMessage::GroundedOut { batter, fielders, scores, advances, amazing: false, ejection };
    let head = batter@ + " grounds out"@ + fielders_text(fielders@) + "."@;
    assert(yes.spec_unparse(context, event_index) =~= head + scores_and_advances_text(scores@, advances@)
        + (if context.season < 5 { " <strong>Perfect catch!</strong>"@ } else { " <strong>Amazing throw!</strong>"@ })
        + opt_ejection_text(ejection));
    assert(no.spec_unparse(context, event_index) =~= head + scores_and_advances_text(scores@, advances@) + opt_ejection_text(ejection));
}

/// A batter coming up is written "Now batting: {batter}", then " (1st PA of
/// game)" at the first plate appearance, or the statistics in brackets,
/// separated by ", ", or nothing.
pub proof fn lemma_now_batting_words<S: Text, T: Text>(
    batter: S,
    stats: Vec<BatterStat>,
    context: UnparsingContext<T>,
    event_index: Option<u16>,
)
    ensures
        (ParsedEventMessage::NowBatting { batter, stats: NowBattingStats::FirstPA }).spec_unparse(context, event_index)
            == "Now batting: "@ + batter@ + " (1st PA of game)"@,
        (ParsedEventMessage::NowBatting { batter, stats: NowBattingStats::NoStats }).spec_unparse(context, event_index)
            == "Now batting: "@ + batter@,
        stats@.len() == 1 ==> (ParsedEventMessage::NowBatting { batter, stats: NowBattingStats::Stats(stats) })
            .spec_unparse(context, event_index) == "Now batting: "@ + batter@ + " ("@ + stats@[0].spec_text() + ")"@,
        stats@.len() == 2 ==> (ParsedEventMessage::NowBatting { batter, stats: NowBattingStats::Stats(stats) })
            .spec_unparse(context, event_index)
            == "Now batting: "@ + batter@ + " ("@ + stats@[0].spec_text() + ", "@ + stats@[1].spec_text() + ")"@,
{
    assert("Now batting: "@ + batter@ + Seq::<char>::empty() =~= "Now batting: "@ + batter@);
    if stats@.len() == 1 {
        assert(crate::stats::stats_text(stats@) == stats@[0].spec_text());
    }
    if stats@.len() == 2 {
        assert(stats@.drop_last() =~= seq![stats@[0]]);
        assert(crate::stats::stats_text(stats@.drop_last()) == stats@[0].spec_text());
        assert(crate::stats::stats_text(stats@) == stats@[0].spec_text() + ", "@ + stats@[1].spec_text());
        assert("Now batting: "@ + batter@ + (" ("@ + (stats@[0].spec_text() + ", "@ + stats@[1].spec_text()) + ")"@)
            =~= "Now batting: "@ + batter@ + " ("@ + stats@[0].spec_text() + ", "@ + stats@[1].spec_text() + ")"@);
    }
    if stats@.len() == 1 {
        assert("Now batting: "@ + batter@ + (" ("@ + stats@[0].spec_text() + ")"@)
            =~= "Now batting: "@ + batter@ + " ("@ + stats@[0].spec_text() + ")"@);
    }
}

} // verus!
