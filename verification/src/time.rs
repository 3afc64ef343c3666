//! Points in the history of the game at which message formats changed, and
//! how an event's time compares with them.

use vstd::prelude::*;

verus! {

/// A day of a season, as named in game data.
#[derive(Debug, Clone, Copy, PartialEq, Eq, Hash, Structural)]
pub enum Day {
    SuperstarBreak,
    PostseasonPreview,
    SuperstarGame,
    Holiday,
    Preseason,
    Election,
    Event,
    SpecialEvent,
    Day(u16),
    SuperstarDay(u8),
    PostseasonRound(u8),
}

impl Day {
    /// The text by which this day is written.
    pub open spec fn spec_name(self) -> Seq<char> {
        match self {
            Day::SuperstarBreak => "Superstar Break"@,
            Day::Day(d) => crate::text::dec(d as nat),
            Day::Preseason => "Preseason"@,
            Day::Holiday => "Holiday"@,
            Day::Election => "Election"@,
            Day::SuperstarDay(d) => "Superstar Day "@ + crate::text::dec(d as nat),
            Day::PostseasonPreview => "Postseason Preview"@,
            Day::PostseasonRound(r) => "Postseason Round "@ + crate::text::dec(r as nat),
            Day::SpecialEvent => "Special Event"@,
            Day::Event => "Event"@,
            Day::SuperstarGame => "Superstar Game"@,
        }
    }

    /// The day named by `s` as game data writes it in text: a named day,
    /// "Superstar Day {n}" or "Postseason Round {n}".
    pub open spec fn spec_from_text(s: Seq<char>) -> Option<Day> {
        if s == "Superstar Break"@ {
            Some(Day::SuperstarBreak)
        } else if s == "Postseason Preview"@ {
            Some(Day::PostseasonPreview)
        } else if s == "Superstar Game"@ {
            Some(Day::SuperstarGame)
        } else if s == "Holiday"@ {
            Some(Day::Holiday)
        } else if s == "Preseason"@ {
            Some(Day::Preseason)
        } else if s == "Election"@ {
            Some(Day::Election)
        } else if s == "Event"@ {
            Some(Day::Event)
        } else if s == "Special Event"@ {
            Some(Day::SpecialEvent)
        } else if s.len() >= 14 && s.subrange(0, 14) == "Superstar Day "@ {
            match crate::text::spec_parse_unsigned(s.subrange(14, s.len() as int), 255) {
                Some(n) => Some(Day::SuperstarDay(n as u8)),
                None => None,
            }
        } else if s.len() >= 17 && s.subrange(0, 17) == "Postseason Round "@ {
            match crate::text::spec_parse_unsigned(s.subrange(17, s.len() as int), 255) {
                Some(n) => Some(Day::PostseasonRound(n as u8)),
                None => None,
            }
        } else {
            None
        }
    }

    /// Reads a day that game data writes as text.
    pub fn from_text(s: &str) -> (r: Option<Day>)
        ensures
            r == Day::spec_from_text(s@),
    {
        let v = crate::text::chars_of(s);
        let n = v.len();
        proof {
            reveal_strlit("Superstar Day ");
            reveal_strlit("Postseason Round ");
            assert(v@.subrange(0, n as int) =~= s@);
        }
        if crate::text::str_eq(s, "Superstar Break") {
            Some(Day::SuperstarBreak)
        } else if crate::text::str_eq(s, "Postseason Preview") {
            Some(Day::PostseasonPreview)
        } else if crate::text::str_eq(s, "Superstar Game") {
            Some(Day::SuperstarGame)
        } else if crate::text::str_eq(s, "Holiday") {
            Some(Day::Holiday)
        } else if crate::text::str_eq(s, "Preseason") {
            Some(Day::Preseason)
        } else if crate::text::str_eq(s, "Election") {
            Some(Day::Election)
        } else if crate::text::str_eq(s, "Event") {
            Some(Day::Event)
        } else if crate::text::str_eq(s, "Special Event") {
            Some(Day::SpecialEvent)
        } else if n >= 14 && crate::text::segment_is(&v, 0, 14, "Superstar Day ") {
            assert(v@.subrange(14, n as int) =~= s@.subrange(14, n as int));
            match crate::text::parse_unsigned_at(&v, 14, n, 255) {
                Some(d) => Some(Day::SuperstarDay(d as u8)),
                None => None,
            }
        } else if n >= 17 && crate::text::segment_is(&v, 0, 17, "Postseason Round ") {
            assert(v@.subrange(17, n as int) =~= s@.subrange(17, n as int));
            match crate::text::parse_unsigned_at(&v, 17, n, 255) {
                Some(d) => Some(Day::PostseasonRound(d as u8)),
                None => None,
            }
        } else {
            None
        }
    }

    /// The text by which this day is written.
    pub fn to_string(&self) -> (r: String)
        ensures
            r@ == self.spec_name(),
    {
        match self {
            Day::SuperstarBreak => String::from_str("Superstar Break"),
            Day::Day(d) => {
                let mut s = String::new();
                crate::text::push_dec(&mut s, *d as u64);
                s
            },
            Day::Preseason => String::from_str("Preseason"),
            Day::Holiday => String::from_str("Holiday"),
            Day::Election => String::from_str("Election"),
            Day::SuperstarDay(d) => {
                let mut s = String::from_str("Superstar Day ");
                crate::text::push_dec(&mut s, *d as u64);
                s
            },
            Day::PostseasonPreview => String::from_str("Postseason Preview"),
            Day::PostseasonRound(r) => {
                let mut s = String::from_str("Postseason Round ");
                crate::text::push_dec(&mut s, *r as u64);
                s
            },
            Day::SpecialEvent => String::from_str("Special Event"),
            Day::Event => String::from_str("Event"),
            Day::SuperstarGame => String::from_str("Superstar Game"),
        }
    }
}

/// How the days of a season are named: "Superstar Break", "Postseason
/// Preview", "Superstar Game", "Holiday", "Preseason", "Election", "Event",
/// "Special Event", "Superstar Day {n}", "Postseason Round {n}", and a
/// numbered day by its number; each name but a bare number reads back as its
/// day.
pub proof fn lemma_day_names(n: u8, d: u16)
    ensures
        Day::SuperstarBreak.spec_name() == "Superstar Break"@,
        Day::PostseasonPreview.spec_name() == "Postseason Preview"@,
        Day::SuperstarGame.spec_name() == "Superstar Game"@,
        Day::Holiday.spec_name() == "Holiday"@,
        Day::Preseason.spec_name() == "Preseason"@,
        Day::Election.spec_name() == "Election"@,
        Day::Event.spec_name() == "Event"@,
        Day::SpecialEvent.spec_name() == "Special Event"@,
        Day::Day(d).spec_name() == crate::text::dec(d as nat),
        Day::SuperstarDay(n).spec_name() == "Superstar Day "@ + crate::text::dec(n as nat),
        Day::PostseasonRound(n).spec_name() == "Postseason Round "@ + crate::text::dec(n as nat),
        Day::spec_from_text("Superstar Break"@) == Some(Day::SuperstarBreak),
        Day::spec_from_text("Postseason Preview"@) == Some(Day::PostseasonPreview),
        Day::spec_from_text("Superstar Game"@) == Some(Day::SuperstarGame),
        Day::spec_from_text("Holiday"@) == Some(Day::Holiday),
        Day::spec_from_text("Preseason"@) == Some(Day::Preseason),
        Day::spec_from_text("Election"@) == Some(Day::Election),
        Day::spec_from_text("Event"@) == Some(Day::Event),
        Day::spec_from_text("Special Event"@) == Some(Day::SpecialEvent),
        Day::spec_from_text("Superstar Day "@ + crate::text::dec(n as nat)) == Some(Day::SuperstarDay(n)),
        Day::spec_from_text("Postseason Round "@ + crate::text::dec(n as nat)) == Some(Day::PostseasonRound(n)),
{
    reveal_strlit("Superstar Break");
    reveal_strlit("Postseason Preview");
    reveal_strlit("Superstar Game");
    reveal_strlit("Holiday");
    reveal_strlit("Preseason");
    reveal_strlit("Election");
    reveal_strlit("Event");
    reveal_strlit("Special Event");
    reveal_strlit("Superstar Day ");
    reveal_strlit("Postseason Round ");
    crate::text::lemma_parse_dec(n as nat, 255);
    let sd = "Superstar Day "@ + crate::text::dec(n as nat);
    let pr = "Postseason Round "@ + crate::text::dec(n as nat);
    assert(sd.subrange(0, 14) =~= "Superstar Day "@);
    assert(sd.subrange(14, sd.len() as int) =~= crate::text::dec(n as nat));
    assert(pr.subrange(0, 17) =~= "Postseason Round "@);
    assert(pr.subrange(17, pr.len() as int) =~= crate::text::dec(n as nat));
    assert(pr.subrange(0, 14) != "Superstar Day "@) by { assert(pr[0] != "Superstar Day "@[0]); }
    assert(sd != "Superstar Break"@) by { assert(sd.len() != "Superstar Break"@.len() || sd[0] != "Superstar Break"@[0] || sd[10] != "Superstar Break"@[10]); }
    assert(pr != "Superstar Break"@) by { assert(pr.len() != "Superstar Break"@.len() || pr[0] != "Superstar Break"@[0] || pr[11] != "Superstar Break"@[11]); }
    assert(sd != "Postseason Preview"@) by { assert(sd.len() != "Postseason Preview"@.len() || sd[0] != "Postseason Preview"@[0] || sd[10] != "Postseason Preview"@[10]); }
    assert(pr != "Postseason Preview"@) by { assert(pr.len() != "Postseason Preview"@.len() || pr[0] != "Postseason Preview"@[0] || pr[11] != "Postseason Preview"@[11]); }
    assert(sd != "Superstar Game"@) by { assert(sd.len() != "Superstar Game"@.len() || sd[0] != "Superstar Game"@[0] || sd[10] != "Superstar Game"@[10]); }
    assert(pr != "Superstar Game"@) by { assert(pr.len() != "Superstar Game"@.len() || pr[0] != "Superstar Game"@[0] || pr[11] != "Superstar Game"@[11]); }
    assert(sd != "Holiday"@) by { assert(sd.len() != "Holiday"@.len() || sd[0] != "Holiday"@[0] || sd[10] != "Holiday"@[10]); }
    assert(pr != "Holiday"@) by { assert(pr.len() != "Holiday"@.len() || pr[0] != "Holiday"@[0] || pr[11] != "Holiday"@[11]); }
    assert(sd != "Preseason"@) by { assert(sd.len() != "Preseason"@.len() || sd[0] != "Preseason"@[0] || sd[10] != "Preseason"@[10]); }
    assert(pr != "Preseason"@) by { assert(pr.len() != "Preseason"@.len() || pr[0] != "Preseason"@[0] || pr[11] != "Preseason"@[11]); }
    assert(sd != "Election"@) by { assert(sd.len() != "Election"@.len() || sd[0] != "Election"@[0] || sd[10] != "Election"@[10]); }
    assert(pr != "Election"@) by { assert(pr.len() != "Election"@.len() || pr[0] != "Election"@[0] || pr[11] != "Election"@[11]); }
    assert(sd != "Event"@) by { assert(sd.len() != "Event"@.len() || sd[0] != "Event"@[0] || sd[10] != "Event"@[10]); }
    assert(pr != "Event"@) by { assert(pr.len() != "Event"@.len() || pr[0] != "Event"@[0] || pr[11] != "Event"@[11]); }
    assert(sd != "Special Event"@) by { assert(sd.len() != "Special Event"@.len() || sd[0] != "Special Event"@[0] || sd[10] != "Special Event"@[10]); }
    assert(pr != "Special Event"@) by { assert(pr.len() != "Special Event"@.len() || pr[0] != "Special Event"@[0] || pr[11] != "Special Event"@[11]); }
}

/// A day's place in the order of a season: days compare by `day`, then by `offset`.
#[derive(Debug, Clone, Copy, PartialEq, Eq, PartialOrd, Ord, Structural)]
pub struct DayEquivalent {
    pub day: u16,
    pub offset: u8,
}

impl DayEquivalent {
    /// Whether `self` comes strictly before `other` in a season.
    pub open spec fn spec_lt(self, other: DayEquivalent) -> bool {
        self.day < other.day || (self.day == other.day && self.offset < other.offset)
    }

    /// Whether `self` comes strictly before `other` in a season.
    pub fn lt(&self, other: &DayEquivalent) -> (r: bool)
        ensures
            r == self.spec_lt(*other),
    {
        self.day < other.day || (self.day == other.day && self.offset < other.offset)
    }

    /// Where `day` falls in the order of a season.
    pub open spec fn spec_new(day: Day) -> DayEquivalent {
        match day {
            Day::Day(day) => DayEquivalent { day, offset: 0 },
            Day::SuperstarBreak => DayEquivalent { day: 120, offset: 255 },
            Day::SuperstarDay(offset) => DayEquivalent { day: 120, offset: (offset + 1) as u8 },
            Day::PostseasonRound(round) => DayEquivalent { day: 254, offset: round },
            Day::PostseasonPreview => DayEquivalent { day: 254, offset: 0 },
            Day::Preseason => DayEquivalent { day: 0, offset: 0 },
            Day::Election => DayEquivalent { day: 255, offset: 1 },
            Day::Holiday => DayEquivalent { day: 255, offset: 2 },
            Day::Event => DayEquivalent { day: 255, offset: 2 },
            Day::SpecialEvent => DayEquivalent { day: 255, offset: 2 },
            Day::SuperstarGame => DayEquivalent { day: 120, offset: 1 },
        }
    }

    /// Where `day` falls in the order of a season.
    pub fn new(_season: u32, day: Day) -> (r: DayEquivalent)
        requires
            day != Day::SuperstarDay(255),
        ensures
            r == DayEquivalent::spec_new(day),
    {
        match day {
            Day::Day(day) => DayEquivalent { day, offset: 0 },
            Day::SuperstarBreak => DayEquivalent { day: 120, offset: 255 },
            Day::SuperstarDay(offset) => DayEquivalent { day: 120, offset: offset + 1 },
            Day::PostseasonRound(round) => DayEquivalent { day: 254, offset: round },
            Day::PostseasonPreview => DayEquivalent { day: 254, offset: 0 },
            Day::Preseason => DayEquivalent { day: 0, offset: 0 },
            Day::Election => DayEquivalent { day: 255, offset: 1 },
            Day::Holiday => DayEquivalent { day: 255, offset: 2 },
            Day::Event => DayEquivalent { day: 255, offset: 2 },
            Day::SpecialEvent => DayEquivalent { day: 255, offset: 2 },
            Day::SuperstarGame => DayEquivalent { day: 120, offset: 1 },
        }
    }
}

/// A change that happened in a season, possibly spread over several days:
/// `ascending_days` holds, for each day of the change, the index of the first
/// event after it.
#[derive(Debug, PartialEq, Eq)]
pub struct Time {
    pub season: u32,
    pub ascending_days: Vec<(DayEquivalent, u16)>,
}

/// Whether an event at day `d` and index `idx` of the season of a change comes
/// before that change, whose days are `days`.
pub open spec fn days_before(d: DayEquivalent, idx: u16, days: Seq<(DayEquivalent, u16)>) -> bool
    decreases days.len(),
{
    if days.len() == 0 {
        false
    } else if days[0].0.spec_lt(d) {
        days_before(d, idx, days.drop_first())
    } else if d == days[0].0 {
        idx < days[0].1
    } else {
        true
    }
}

/// Whether an event of `season`, on the day `day` (`None` when not known) and with
/// index `idx`, comes before the change that happened in `change_season` on `days`.
/// Earlier seasons come before and later ones after; an unknown day counts as the
/// end of its season.
pub open spec fn moment_before(
    change_season: u32,
    days: Seq<(DayEquivalent, u16)>,
    season: u32,
    day: Option<DayEquivalent>,
    idx: u16,
) -> bool {
    if season < change_season {
        true
    } else if season > change_season {
        false
    } else {
        match day {
            None => false,
            Some(d) => days_before(d, idx, days),
        }
    }
}

/// Whether the moment `(s1, d1, i1)` is no later than `(s2, d2, i2)`: by season,
/// then by day (an unknown day being the latest), then by event index.
pub open spec fn moment_le(
    s1: u32,
    d1: Option<DayEquivalent>,
    i1: u16,
    s2: u32,
    d2: Option<DayEquivalent>,
    i2: u16,
) -> bool {
    s1 < s2 || (s1 == s2 && match (d1, d2) {
        (_, None) => true,
        (None, Some(_)) => false,
        (Some(a), Some(b)) => a.spec_lt(b) || (a == b && i1 <= i2),
    })
}

/// The changes in message formats whose times are known.
#[derive(Debug, Clone, Copy, PartialEq, Eq, PartialOrd, Ord, Hash, Structural)]
pub enum Breakpoints {
    Season1EnchantmentChange,
    S1AttributeEqualChange,
    S2D152,
    S2D169,
    Season3,
    CheersGetEmoji,
    Season3PreSuperstarBreakUpdate,
    EternalBattle,
    Season4EjectionChange,
}

impl Breakpoints {
    /// The season of this change.
    pub open spec fn spec_season(self) -> u32 {
        match self {
            Breakpoints::Season1EnchantmentChange => 1,
            Breakpoints::S1AttributeEqualChange => 1,
            Breakpoints::S2D152 => 2,
            Breakpoints::S2D169 => 2,
            Breakpoints::Season3 => 3,
            Breakpoints::CheersGetEmoji => 3,
            Breakpoints::Season3PreSuperstarBreakUpdate => 3,
            Breakpoints::EternalBattle => 2,
            Breakpoints::Season4EjectionChange => 4,
        }
    }

    /// The days of this change, each with the index of the first event after it.
    pub open spec fn spec_days(self) -> Seq<(DayEquivalent, u16)> {
        match self {
            Breakpoints::Season1EnchantmentChange => seq![(DayEquivalent { day: 120, offset: 255 }, 0u16)],
            Breakpoints::S1AttributeEqualChange => seq![(DayEquivalent { day: 215, offset: 0 }, 0u16)],
            Breakpoints::S2D152 => seq![(DayEquivalent { day: 152, offset: 0 }, 70u16)],
            Breakpoints::S2D169 => seq![
                (DayEquivalent { day: 168, offset: 0 }, 584u16),
                (DayEquivalent { day: 169, offset: 0 }, 94u16),
            ],
            Breakpoints::Season3 => seq![(DayEquivalent { day: 0, offset: 0 }, 0u16)],
            Breakpoints::CheersGetEmoji => seq![(DayEquivalent { day: 5, offset: 0 }, 330u16)],
            Breakpoints::Season3PreSuperstarBreakUpdate => seq![(DayEquivalent { day: 112, offset: 0 }, 0u16)],
            Breakpoints::EternalBattle => seq![(DayEquivalent { day: 255, offset: 0 }, 0u16)],
            Breakpoints::Season4EjectionChange => seq![(DayEquivalent { day: 66, offset: 0 }, 0u16)],
        }
    }

    /// When this change happened.
    pub fn ascending_transition_time(self) -> (r: Time)
        ensures
            r.season == self.spec_season(),
            r.ascending_days@ == self.spec_days(),
    {
        let (season, days) = match self {
            Breakpoints::Season1EnchantmentChange => (1, vec![(DayEquivalent { day: 120, offset: 255 }, 0u16)]),
            Breakpoints::S1AttributeEqualChange => (1, vec![(DayEquivalent { day: 215, offset: 0 }, 0u16)]),
            Breakpoints::S2D152 => (2, vec![(DayEquivalent { day: 152, offset: 0 }, 70u16)]),
            Breakpoints::S2D169 => (2, vec![
                (DayEquivalent { day: 168, offset: 0 }, 584u16),
                (DayEquivalent { day: 169, offset: 0 }, 94u16),
            ]),
            Breakpoints::Season3 => (3, vec![(DayEquivalent { day: 0, offset: 0 }, 0u16)]),
            Breakpoints::CheersGetEmoji => (3, vec![(DayEquivalent { day: 5, offset: 0 }, 330u16)]),
            Breakpoints::Season3PreSuperstarBreakUpdate => (3, vec![(DayEquivalent { day: 112, offset: 0 }, 0u16)]),
            Breakpoints::EternalBattle => (2, vec![(DayEquivalent { day: 255, offset: 0 }, 0u16)]),
            Breakpoints::Season4EjectionChange => (4, vec![(DayEquivalent { day: 66, offset: 0 }, 0u16)]),
        };
        assert(days@ =~= self.spec_days());
        Time { season, ascending_days: days }
    }

    /// Whether an event of `season`, on day `day` with index `event_index`, comes
    /// before this change; a missing index counts as 0.
    pub open spec fn spec_before(self, season: u32, day: Option<Day>, event_index: Option<u16>) -> bool {
        moment_before(
            self.spec_season(),
            self.spec_days(),
            season,
            match day {
                Some(d) => Some(DayEquivalent::spec_new(d)),
                None => None,
            },
            match event_index {
                Some(i) => i,
                None => 0,
            },
        )
    }

    /// Whether an event of `season`, on day `day` with index `event_index`, comes
    /// before this change.
    pub fn before(&self, season: u32, day: Option<Day>, event_index: Option<u16>) -> (r: bool)
        requires
            day != Some(Day::SuperstarDay(255)),
        ensures
            r == self.spec_before(season, day, event_index),
    {
        let idx = match event_index {
            Some(i) => i,
            None => 0,
        };
        let day_eq = match day {
            Some(d) => Some(DayEquivalent::new(season, d)),
            None => None,
        };
        let transition = self.ascending_transition_time();
        if season < transition.season {
            return true;
        }
        if season > transition.season {
            return false;
        }
        let d = match day_eq {
            None => return false,
            Some(d) => d,
        };
        let days = &transition.ascending_days;
        assert(days@.skip(0) =~= days@);
        assert(self.spec_before(season, day, event_index) == days_before(d, idx, days@));
        let mut k: usize = 0;
        while k < days.len()
            invariant
                k <= days.len(),
                self.spec_before(season, day, event_index) == days_before(d, idx, days@.skip(k as int)),
            decreases days.len() - k,
        {
            let (transition_day, transition_event_index) = days[k];
            assert(days@.skip(k as int)[0] == days@[k as int]);
            assert(days@.skip(k as int).drop_first() =~= days@.skip(k + 1));
            if transition_day.lt(&d) {
                k += 1;
            } else if d == transition_day {
                return idx < transition_event_index;
            } else {
                return true;
            }
        }
        assert(days@.skip(k as int) =~= Seq::<(DayEquivalent, u16)>::empty());
        false
    }

    /// Whether an event comes at or after this change: exactly when it does not come before it.
    pub fn after(&self, season: u32, day: Option<Day>, event_index: Option<u16>) -> (r: bool)
        requires
            day != Some(Day::SuperstarDay(255)),
        ensures
            r == !self.spec_before(season, day, event_index),
    {
        !self.before(season, day, event_index)
    }
}

/// The law of a change made on a single day: an event no later than one that
/// comes before the change comes before it too.
pub proof fn lemma_before_monotone(
    bp: Breakpoints,
    s1: u32,
    d1: Option<DayEquivalent>,
    i1: u16,
    s2: u32,
    d2: Option<DayEquivalent>,
    i2: u16,
)
    requires
        bp.spec_days().len() == 1,
        moment_le(s1, d1, i1, s2, d2, i2),
        moment_before(bp.spec_season(), bp.spec_days(), s2, d2, i2),
    ensures
        moment_before(bp.spec_season(), bp.spec_days(), s1, d1, i1),
{
    let days = bp.spec_days();
    assert(days.drop_first() =~= Seq::<(DayEquivalent, u16)>::empty());
    reveal_with_fuel(days_before, 2);
}

} // verus!

verus! {

/// Moments within a day that tell feed events apart, as timestamps.
#[derive(Debug, Clone, Copy, PartialEq, Eq, Hash, Structural)]
pub enum Timestamp {
    Season3RecomposeChange,
}

/// The number of days from 1970-01-01 to the given date of the proleptic
/// Gregorian calendar, counting years from March so that leap days come last.
pub open spec fn days_from_civil(year: int, month: int, day: int) -> int {
    let y = if month <= 2 { year - 1 } else { year };
    let era = y / 400;
    let yoe = y - era * 400;
    let mp = (month + 9) % 12;
    let doy = (153 * mp + 2) / 5 + day - 1;
    let doe = yoe * 365 + yoe / 4 - yoe / 100 + doy;
    era * 146097 + doe - 719468
}

/// The number of seconds from 1970-01-01 00:00:00 UTC to the given UTC date and
/// time.
pub open spec fn utc_seconds(year: i32, month: u32, day: u32, hour: u32, minute: u32, second: u32) -> int {
    days_from_civil(year as int, month as int, day as int) * 86400 + hour * 3600 + minute * 60 + second
}

/// Whether `year` is a leap year of the Gregorian calendar.
pub open spec fn is_leap_year(year: i32) -> bool {
    (year % 4 == 0 && year % 100 != 0) || year % 400 == 0
}

/// The number of days of `month` in `year`.
pub open spec fn days_in_month(year: i32, month: u32) -> u32 {
    if month == 2 {
        if is_leap_year(year) { 29 } else { 28 }
    } else if month == 4 || month == 6 || month == 9 || month == 11 {
        30
    } else {
        31
    }
}

/// Whether the date and time exist, in years 1 to 9999.
pub open spec fn is_valid_utc(year: i32, month: u32, day: u32, hour: u32, minute: u32, second: u32) -> bool {
    &&& 1 <= year <= 9999
    &&& 1 <= month <= 12
    &&& 1 <= day <= days_in_month(year, month)
    &&& hour < 24 && minute < 60 && second < 60
}

/// The timestamp of a UTC date and time, through chrono's
/// `NaiveDate::from_ymd_opt`, `NaiveDate::and_hms_opt`, `NaiveDateTime::and_utc`
/// and `DateTime::timestamp`. The contract claims that chrono gives a timestamp
/// for every date and time that exists in years 1 to 9999 (its documentation
/// says it gives none only for days and times that do not exist or years out of
/// its range), and that the timestamp is the number of seconds since
/// 1970-01-01 00:00:00 UTC on the proleptic Gregorian calendar that chrono uses.
#[verifier::external_body]
fn utc_timestamp(year: i32, month: u32, day: u32, hour: u32, minute: u32, second: u32) -> (r: Option<i64>)
    ensures
        is_valid_utc(year, month, day, hour, minute, second) ==> r is Some,
        r matches Some(s) ==> s == utc_seconds(year, month, day, hour, minute, second),
{
    let date = chrono::NaiveDate::from_ymd_opt(year, month, day)?;
    let moment = date.and_hms_opt(hour, minute, second)?;
    Some(moment.and_utc().timestamp())
}

impl Timestamp {
    /// The moment, in seconds since 1970-01-01 00:00:00 UTC: the recompose change
    /// of season 3 is 2025-07-14 11:30:00 UTC.
    pub open spec fn spec_seconds(self) -> i64 {
        match self {
            Timestamp::Season3RecomposeChange => utc_seconds(2025, 7, 14, 11, 30, 0) as i64,
        }
    }

    /// The moment, in seconds since 1970-01-01 00:00:00 UTC.
    pub fn timestamp(&self) -> (r: i64)
        ensures
            r == self.spec_seconds(),
    {
        match self {
            Timestamp::Season3RecomposeChange => match utc_timestamp(2025, 7, 14, 11, 30, 0) {
                Some(s) => s,
                None => 0,
            },
        }
    }
}

} // verus!
