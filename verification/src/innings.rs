//! Sides, teams and innings, and how they relate.

use vstd::prelude::*;
use vstd::std_specs::convert::{FromSpecImpl, TryFromSpecImpl};
use crate::enums::{HomeAway, TopBottom};

verus! {

/// The error of reading a side from a number other than 0 or 1.
#[derive(Debug, Clone, Copy, PartialEq, Eq, Structural)]
pub struct NotASide(pub u8);

impl NotASide {
    /// The message describing this error.
    pub open spec fn spec_message(self) -> Seq<char> {
        crate::text::dec(self.0 as nat) + " is not 0 or 1 (2 means gameover, should not reach here)"@
    }

    /// The message describing this error.
    pub fn to_string(&self) -> (r: String)
        ensures
            r@ == self.spec_message(),
    {
        let mut s = String::new();
        crate::text::push_dec(&mut s, self.0 as u64);
        s.append(" is not 0 or 1 (2 means gameover, should not reach here)");
        s
    }
}

impl TopBottom {
    /// The other half of the inning.
    pub fn flip(self) -> (r: TopBottom)
        ensures
            r == (match self {
                TopBottom::Top => TopBottom::Bottom,
                TopBottom::Bottom => TopBottom::Top,
            }),
    {
        match self {
            TopBottom::Top => TopBottom::Bottom,
            TopBottom::Bottom => TopBottom::Top,
        }
    }

    /// The team batting in this half: the away team in the top, the home team in the bottom.
    pub open spec fn spec_homeaway(self) -> HomeAway {
        match self {
            TopBottom::Top => HomeAway::Away,
            TopBottom::Bottom => HomeAway::Home,
        }
    }

    /// Who is currently batting.
    pub fn homeaway(self) -> (r: HomeAway)
        ensures
            r == self.spec_homeaway(),
    {
        match self {
            TopBottom::Top => HomeAway::Away,
            TopBottom::Bottom => HomeAway::Home,
        }
    }

    pub fn is_top(self) -> (r: bool)
        ensures
            r == (self == TopBottom::Top),
    {
        match self {
            TopBottom::Top => true,
            TopBottom::Bottom => false,
        }
    }

    pub fn is_bottom(self) -> (r: bool)
        ensures
            r == (self == TopBottom::Bottom),
    {
        match self {
            TopBottom::Top => false,
            TopBottom::Bottom => true,
        }
    }

    /// The number by which game data records this half: 0 for the top, 1 for the bottom.
    pub open spec fn spec_number(self) -> u8 {
        match self {
            TopBottom::Top => 0,
            TopBottom::Bottom => 1,
        }
    }

    /// The half of the inning that game data records by `value`.
    pub open spec fn spec_from_number(value: u8) -> Result<TopBottom, NotASide> {
        if value == 0 {
            Ok(TopBottom::Top)
        } else if value == 1 {
            Ok(TopBottom::Bottom)
        } else {
            Err(NotASide(value))
        }
    }
}

impl HomeAway {
    /// The other team.
    pub fn flip(self) -> (r: HomeAway)
        ensures
            r == (match self {
                HomeAway::Away => HomeAway::Home,
                HomeAway::Home => HomeAway::Away,
            }),
    {
        match self {
            HomeAway::Away => HomeAway::Home,
            HomeAway::Home => HomeAway::Away,
        }
    }

    /// The half of the inning in which this team bats.
    pub open spec fn spec_topbottom(self) -> TopBottom {
        match self {
            HomeAway::Away => TopBottom::Top,
            HomeAway::Home => TopBottom::Bottom,
        }
    }

    /// Converts to the side in which this team is batting.
    pub fn topbottom(self) -> (r: TopBottom)
        ensures
            r == self.spec_topbottom(),
    {
        match self {
            HomeAway::Away => TopBottom::Top,
            HomeAway::Home => TopBottom::Bottom,
        }
    }

    pub fn is_home(self) -> (r: bool)
        ensures
            r == (self == HomeAway::Home),
    {
        match self {
            HomeAway::Home => true,
            HomeAway::Away => false,
        }
    }

    pub fn is_away(self) -> (r: bool)
        ensures
            r == (self == HomeAway::Away),
    {
        match self {
            HomeAway::Home => false,
            HomeAway::Away => true,
        }
    }
}

impl From<HomeAway> for TopBottom {
    fn from(value: HomeAway) -> (r: TopBottom) {
        value.topbottom()
    }
}

impl FromSpecImpl<HomeAway> for TopBottom {
    open spec fn obeys_from_spec() -> bool {
        true
    }

    open spec fn from_spec(v: HomeAway) -> TopBottom {
        v.spec_topbottom()
    }
}

impl From<TopBottom> for HomeAway {
    fn from(value: TopBottom) -> (r: HomeAway) {
        value.homeaway()
    }
}

impl FromSpecImpl<TopBottom> for HomeAway {
    open spec fn obeys_from_spec() -> bool {
        true
    }

    open spec fn from_spec(v: TopBottom) -> HomeAway {
        v.spec_homeaway()
    }
}

impl From<TopBottom> for u8 {
    fn from(value: TopBottom) -> (r: u8) {
        match value {
            TopBottom::Top => 0,
            TopBottom::Bottom => 1,
        }
    }
}

impl FromSpecImpl<TopBottom> for u8 {
    open spec fn obeys_from_spec() -> bool {
        true
    }

    open spec fn from_spec(v: TopBottom) -> u8 {
        v.spec_number()
    }
}

impl TryFrom<u8> for TopBottom {
    type Error = NotASide;

    fn try_from(value: u8) -> (r: Result<TopBottom, NotASide>) {
        if value == 0 {
            Ok(TopBottom::Top)
        } else if value == 1 {
            Ok(TopBottom::Bottom)
        } else {
            Err(NotASide(value))
        }
    }
}

impl TryFromSpecImpl<u8> for TopBottom {
    open spec fn obeys_try_from_spec() -> bool {
        true
    }

    open spec fn try_from_spec(v: u8) -> Result<TopBottom, NotASide> {
        TopBottom::spec_from_number(v)
    }
}

/// Flipping twice gives back the side one started from, for halves and for teams,
/// and the team batting in a half is the team whose half it is: the away team
/// bats in the top, recorded as 0, and the home team in the bottom, recorded as
/// 1; any other number is no side.
pub proof fn lemma_sides(side: TopBottom, team: HomeAway, value: u8)
    ensures
        side.spec_homeaway().spec_topbottom() == side,
        team.spec_topbottom().spec_homeaway() == team,
        TopBottom::spec_from_number(side.spec_number()) == Ok::<TopBottom, NotASide>(side),
        TopBottom::Top.spec_homeaway() == HomeAway::Away,
        TopBottom::Bottom.spec_homeaway() == HomeAway::Home,
        HomeAway::Away.spec_topbottom() == TopBottom::Top,
        HomeAway::Home.spec_topbottom() == TopBottom::Bottom,
        TopBottom::Top.spec_number() == 0,
        TopBottom::Bottom.spec_number() == 1,
        TopBottom::spec_from_number(0) == Ok::<TopBottom, NotASide>(TopBottom::Top),
        TopBottom::spec_from_number(1) == Ok::<TopBottom, NotASide>(TopBottom::Bottom),
        value > 1 ==> TopBottom::spec_from_number(value) == Err::<TopBottom, NotASide>(NotASide(value)),
{
}

/// Possible states for the current inning: before game/during game/after game.
/// Inning number is 1-indexed: inning 0 is before the game.
#[derive(Debug, Clone, Copy, PartialEq, Eq, Hash, Structural)]
pub enum Inning {
    BeforeGame,
    DuringGame { number: u8, batting_side: TopBottom },
    AfterGame { final_inning_number: u8 },
}

impl Inning {
    /// The inning after this one; see [`Inning::next`].
    pub open spec fn spec_next(self, continue_if_overtime: bool) -> Option<Inning> {
        match self {
            Inning::BeforeGame => Some(Inning::DuringGame { number: 1, batting_side: TopBottom::Top }),
            Inning::DuringGame { number, batting_side } => {
                if number >= 9 && !continue_if_overtime {
                    Some(Inning::AfterGame { final_inning_number: number })
                } else {
                    match batting_side {
                        TopBottom::Top => Some(Inning::DuringGame { number, batting_side: TopBottom::Bottom }),
                        TopBottom::Bottom => Some(Inning::DuringGame { number: (number + 1) as u8, batting_side: TopBottom::Top }),
                    }
                }
            },
            Inning::AfterGame { .. } => None,
        }
    }

    /// The next inning. If `continue_if_overtime`, go to extra innings instead of ending the game at the 9th.
    pub fn next(self, continue_if_overtime: bool) -> (r: Option<Inning>)
        requires
            continue_if_overtime ==> self != (Inning::DuringGame { number: 255, batting_side: TopBottom::Bottom }),
        ensures
            r == self.spec_next(continue_if_overtime),
    {
        match self {
            Inning::BeforeGame => Some(Inning::DuringGame { number: 1, batting_side: TopBottom::Top }),
            Inning::DuringGame { number, batting_side } => {
                if number >= 9 && !continue_if_overtime {
                    Some(Inning::AfterGame { final_inning_number: number })
                } else {
                    match batting_side {
                        TopBottom::Top => Some(Inning::DuringGame { number, batting_side: batting_side.flip() }),
                        TopBottom::Bottom => Some(Inning::DuringGame { number: number + 1, batting_side: batting_side.flip() }),
                    }
                }
            },
            Inning::AfterGame { .. } => None,
        }
    }

    /// The number of the current inning, during a game.
    pub fn number(self) -> (r: Option<u8>)
        ensures
            r == (match self {
                Inning::DuringGame { number, .. } => Some(number),
                _ => None,
            }),
    {
        if let Inning::DuringGame { number, .. } = self {
            Some(number)
        } else {
            None
        }
    }

    /// The team batting, during a game.
    pub open spec fn spec_batting_team(self) -> Option<HomeAway> {
        match self {
            Inning::DuringGame { batting_side, .. } => Some(batting_side.spec_homeaway()),
            _ => None,
        }
    }

    /// The team pitching, during a game.
    pub open spec fn spec_pitching_team(self) -> Option<HomeAway> {
        match self {
            Inning::DuringGame { batting_side, .. } => Some(batting_side.spec_homeaway().flip_spec()),
            _ => None,
        }
    }

    /// The side that is currently batting, during a game.
    pub fn batting_team(self) -> (r: Option<HomeAway>)
        ensures
            r == self.spec_batting_team(),
    {
        if let Inning::DuringGame { batting_side, .. } = self {
            Some(batting_side.homeaway())
        } else {
            None
        }
    }

    /// The side that is currently pitching, during a game.
    pub fn pitching_team(self) -> (r: Option<HomeAway>)
        ensures
            r == self.spec_pitching_team(),
    {
        if let Inning::DuringGame { batting_side, .. } = self {
            Some(batting_side.flip().homeaway())
        } else {
            None
        }
    }
}

impl HomeAway {
    /// The other team.
    pub open spec fn flip_spec(self) -> HomeAway {
        match self {
            HomeAway::Away => HomeAway::Home,
            HomeAway::Home => HomeAway::Away,
        }
    }
}

/// The next inning is never before the game, and never has a lower number: a
/// game that ends records the number of its last inning.
pub proof fn lemma_next_moves_forward(inning: Inning, continue_if_overtime: bool)
    requires
        continue_if_overtime ==> inning != (Inning::DuringGame { number: 255, batting_side: TopBottom::Bottom }),
    ensures
        inning.spec_next(continue_if_overtime) != Some(Inning::BeforeGame),
        inning matches Inning::DuringGame { number: n, .. } ==> match inning.spec_next(continue_if_overtime) {
            Some(Inning::DuringGame { number: m, .. }) => n <= m,
            Some(Inning::AfterGame { final_inning_number: f }) => f == n,
            _ => false,
        },
{
}

/// During a game the pitching team is the team that is not batting, and the
/// next half-inning has the other team batting.
pub proof fn lemma_batting_and_pitching_differ(inning: Inning, continue_if_overtime: bool)
    requires
        inning is DuringGame,
    ensures
        inning.spec_batting_team() is Some,
        inning.spec_pitching_team() == Some(inning.spec_batting_team()->0.flip_spec()),
        inning.spec_pitching_team() != inning.spec_batting_team(),
        (inning.spec_next(continue_if_overtime) matches Some(next) && next is DuringGame
            && next.spec_batting_team() == inning.spec_pitching_team())
            || inning.spec_next(continue_if_overtime) matches Some(Inning::AfterGame { .. }),
{
}

} // verus!

verus! {

impl Inning {
    /// The inning that game data records as an inning number and a side: side 2
    /// is after the game, which inning 0 side 1 is before.
    pub open spec fn spec_from_raw(number: u8, side: u8) -> Inning {
        if number == 0 && side == 1 {
            Inning::BeforeGame
        } else if number == 0 && side == 2 {
            Inning::AfterGame { final_inning_number: 1 }
        } else if side == 2 {
            Inning::AfterGame { final_inning_number: (number - 1) as u8 }
        } else {
            Inning::DuringGame { number, batting_side: if side == 0 { TopBottom::Top } else { TopBottom::Bottom } }
        }
    }

    /// Reads the inning that game data records as an inning number and a side.
    pub fn from_raw(number: u8, side: u8) -> (r: Inning)
        requires
            side <= 2,
        ensures
            r == Inning::spec_from_raw(number, side),
    {
        if number == 0 && side == 1 {
            Inning::BeforeGame
        } else if number == 0 && side == 2 {
            Inning::AfterGame { final_inning_number: 1 }
        } else if side == 2 {
            Inning::AfterGame { final_inning_number: number - 1 }
        } else {
            let batting_side = match TopBottom::try_from(side) {
                Ok(s) => s,
                Err(_) => TopBottom::Bottom,
            };
            Inning::DuringGame { number, batting_side }
        }
    }

    /// The inning number and side by which game data records this inning.
    pub open spec fn spec_to_raw(self) -> (u8, u8) {
        match self {
            Inning::BeforeGame => (0, 1),
            Inning::DuringGame { number, batting_side } => (number, batting_side.spec_number()),
            Inning::AfterGame { final_inning_number } => if final_inning_number == 1 {
                (0, 2)
            } else {
                ((final_inning_number + 1) as u8, 2)
            },
        }
    }

    /// The inning number and side by which game data records this inning.
    pub fn to_raw(self) -> (r: (u8, u8))
        requires
            self != (Inning::AfterGame { final_inning_number: 255 }),
        ensures
            r == self.spec_to_raw(),
    {
        match self {
            Inning::BeforeGame => (0, 1),
            Inning::DuringGame { number, batting_side } => (number, batting_side.into()),
            Inning::AfterGame { final_inning_number } => if final_inning_number == 1 {
                (0, 2)
            } else {
                (final_inning_number + 1, 2)
            },
        }
    }
}

/// Writing down a recorded inning gives back its record, but for inning 2 of
/// side 2, which is read as the end of a one-inning game.
pub proof fn lemma_raw_inning_round_trip(number: u8, side: u8)
    requires
        side <= 2,
        !(number == 2 && side == 2),
    ensures
        Inning::spec_from_raw(number, side).spec_to_raw() == (number, side),
{
}

/// Recording an inning and reading it back gives the inning, but for the bottom
/// of inning 0, which reads as before the game.
pub proof fn lemma_inning_raw_round_trip(inning: Inning)
    requires
        inning != (Inning::AfterGame { final_inning_number: 255 }),
        inning != (Inning::DuringGame { number: 0, batting_side: TopBottom::Bottom }),
    ensures
        Inning::spec_from_raw(inning.spec_to_raw().0, inning.spec_to_raw().1) == inning,
{
}

} // verus!
