//! Parsing game event messages into `ParsedEventMessage`s.
//!
//! Each kind of event has a reader that cuts a message into the parts of the
//! values its messages can hold. A value is only ever returned when writing it
//! back, as the game writes messages at the time of the event, gives exactly the
//! message it was read from; otherwise the message is returned as a parse error.

use vstd::prelude::*;
use crate::enums::{Distance, EventType, FairBallDestination, FairBallType, FieldingErrorType, FoulType, GameOverMessage, HomeAway, MoundVisitType, StrikeType, TopBottom};
use crate::game::{Event, Game, NotRecognized};
use crate::innings::Inning;
use crate::places::Place;
use crate::parsed_event::{
    advances_text, count_text, door_prizes_text, end_ordinal, lineup_text, old_space_text, scores_text, start_ordinal, PlacedPlayer, EmojiTeam, GameEventParseError, KnownBug, ParsedEventMessage, UnparsingContext,
};
use crate::reader::{no_space, Reader};
use crate::stats::{stats_text, BatterStat, NowBattingStats};
use crate::text::{dec, digit_run, lemma_leading_dec, occurs_at, score_text, spec_leading_unsigned, stops_after, str_eq, Text};
use crate::time::{Breakpoints, Day};

verus! {

/// What parsing a game's messages depends on: the game, its teams, its date and
/// the index of the event being parsed.
#[derive(Debug, Clone)]
pub struct ParsingContext<'a> {
    pub game_id: &'a str,
    pub event_log: &'a [Event],
    pub event_index: Option<u16>,
    pub home_emoji_team: EmojiTeam<&'a str>,
    pub away_emoji_team: EmojiTeam<&'a str>,
    pub season: u32,
    pub day: Option<Day>,
}

/// Whether `i` is the first index in `log` of an event with `message`.
pub open spec fn is_first_index_of(log: Seq<Event>, message: Seq<char>, i: int) -> bool {
    &&& 0 <= i < log.len()
    &&& log[i].message@ == message
    &&& forall|j: int| 0 <= j < i ==> log[j].message@ != message
}

proof fn lemma_first_index_unique(log: Seq<Event>, message: Seq<char>, i: int, k: int)
    requires
        is_first_index_of(log, message, i),
        is_first_index_of(log, message, k),
    ensures
        i == k,
{
}

/// The first index in `log` of an event with `message`.
fn first_index(log: &[Event], message: &str) -> (r: Option<usize>)
    ensures
        match r {
            Some(i) => is_first_index_of(log@, message@, i as int),
            None => forall|i: int| 0 <= i < log@.len() ==> log@[i].message@ != message@,
        },
{
    let mut i: usize = 0;
    while i < log.len()
        invariant
            i <= log@.len(),
            forall|j: int| 0 <= j < i ==> log@[j].message@ != message@,
        decreases log.len() - i,
    {
        if str_eq(log[i].message.as_str(), message) {
            return Some(i);
        }
        i += 1;
    }
    None
}

/// The games with events whose messages are known to be wrong.
pub open spec fn spec_override_game(game_id: Seq<char>) -> bool {
    ||| game_id == "6851bb34f419fdc04f9d0ed5"@
    ||| game_id == "685b744530d8d1ac659c30de"@
    ||| game_id == "68611cb61e65f5fb52cb618f"@
    ||| game_id == "68611cb61e65f5fb52cb61d6"@
    ||| game_id == "68799d0621c82ae41451ca4f"@
    ||| game_id == "68782f7d206bc4d2a2003b05"@
    ||| game_id == "6879f14e21c82ae41451e785"@
}

/// The known bug behind the event with `index` of the game `game_id`, if it is one.
pub open spec fn spec_override(game_id: Seq<char>, index: u16) -> Option<KnownBug<&'static str>> {
    if game_id == "6851bb34f419fdc04f9d0ed5"@ && index == 196 {
        Some(KnownBug::FirstBasemanChoosesAGhost { batter: "Genevieve Hirose", first_baseman: "N. Kitagawa" })
    } else if game_id == "685b744530d8d1ac659c30de"@ && index == 265 {
        Some(KnownBug::FirstBasemanChoosesAGhost { batter: "Cameron Villalobos", first_baseman: "R. Marin" })
    } else if game_id == "68611cb61e65f5fb52cb618f"@ && index == 316 {
        Some(KnownBug::FirstBasemanChoosesAGhost { batter: "Liliana Marte", first_baseman: "Razzmatazz Koufax" })
    } else if game_id == "68611cb61e65f5fb52cb61d6"@ && index == 30 {
        Some(KnownBug::FirstBasemanChoosesAGhost { batter: "Zoom Savić", first_baseman: "Ana Carolina Finch" })
    } else if game_id == "68799d0621c82ae41451ca4f"@ && index == 65 {
        Some(KnownBug::FirstBasemanChoosesAGhost { batter: "Stacy de Groot", first_baseman: "Lucky Moroz" })
    } else if game_id == "68782f7d206bc4d2a2003b05"@ && index == 18 {
        Some(KnownBug::FirstBasemanChoosesAGhost { batter: "Finn Bondar", first_baseman: "Walter Fitzgerald" })
    } else if game_id == "6879f14e21c82ae41451e785"@ && index == 202 {
        Some(KnownBug::FirstBasemanChoosesAGhost { batter: "Bert Delić", first_baseman: "Asuka Loveless" })
    } else {
        None
    }
}

fn is_override_game(game_id: &str) -> (r: bool)
    ensures
        r == spec_override_game(game_id@),
{
    str_eq(game_id, "6851bb34f419fdc04f9d0ed5") || str_eq(game_id, "685b744530d8d1ac659c30de")
        || str_eq(game_id, "68611cb61e65f5fb52cb618f") || str_eq(game_id, "68611cb61e65f5fb52cb61d6")
        || str_eq(game_id, "68799d0621c82ae41451ca4f") || str_eq(game_id, "68782f7d206bc4d2a2003b05")
        || str_eq(game_id, "6879f14e21c82ae41451e785")
}

fn known_override(game_id: &str, index: u16) -> (r: Option<KnownBug<&'static str>>)
    ensures
        r == spec_override(game_id@, index),
{
    if str_eq(game_id, "6851bb34f419fdc04f9d0ed5") && index == 196 {
        Some(KnownBug::FirstBasemanChoosesAGhost { batter: "Genevieve Hirose", first_baseman: "N. Kitagawa" })
    } else if str_eq(game_id, "685b744530d8d1ac659c30de") && index == 265 {
        Some(KnownBug::FirstBasemanChoosesAGhost { batter: "Cameron Villalobos", first_baseman: "R. Marin" })
    } else if str_eq(game_id, "68611cb61e65f5fb52cb618f") && index == 316 {
        Some(KnownBug::FirstBasemanChoosesAGhost { batter: "Liliana Marte", first_baseman: "Razzmatazz Koufax" })
    } else if str_eq(game_id, "68611cb61e65f5fb52cb61d6") && index == 30 {
        Some(KnownBug::FirstBasemanChoosesAGhost { batter: "Zoom Savić", first_baseman: "Ana Carolina Finch" })
    } else if str_eq(game_id, "68799d0621c82ae41451ca4f") && index == 65 {
        Some(KnownBug::FirstBasemanChoosesAGhost { batter: "Stacy de Groot", first_baseman: "Lucky Moroz" })
    } else if str_eq(game_id, "68782f7d206bc4d2a2003b05") && index == 18 {
        Some(KnownBug::FirstBasemanChoosesAGhost { batter: "Finn Bondar", first_baseman: "Walter Fitzgerald" })
    } else if str_eq(game_id, "6879f14e21c82ae41451e785") && index == 202 {
        Some(KnownBug::FirstBasemanChoosesAGhost { batter: "Bert Delić", first_baseman: "Asuka Loveless" })
    } else {
        None
    }
}

/// The index under which an event with `message` and `event_index` is looked up
/// among the known bugs of a game with the events `log`.
pub open spec fn override_index(log: Seq<Event>, event_index: Option<u16>, message: Seq<char>) -> Option<u16> {
    match event_index {
        Some(i) => Some(i),
        None => if exists|i: int| is_first_index_of(log, message, i) {
            Some((choose|i: int| is_first_index_of(log, message, i)) as u16)
        } else {
            None
        },
    }
}

/// The known bug that an event with `message` and `event_index` of the game
/// `game_id` with the events `log` is, if it is one.
pub open spec fn override_bug(game_id: Seq<char>, log: Seq<Event>, event_index: Option<u16>, message: Seq<char>) -> Option<KnownBug<&'static str>> {
    if spec_override_game(game_id) {
        match override_index(log, event_index, message) {
            Some(i) => spec_override(game_id, i),
            None => None,
        }
    } else {
        None
    }
}

/// Whether `r` is what parsing `event` gives, as the game writes messages in
/// `context` for the event with index `event_index`: a value that writes back
/// to the message and that events of its type hold, or the message itself with
/// the reason it was not read.
pub open spec fn is_parse_of<S: Text, T: Text>(r: ParsedEventMessage<S>, event: Event, context: UnparsingContext<T>, event_index: Option<u16>) -> bool {
    &&& r.wf()
    &&& r.spec_unparse(context, event_index) == event.message@
    &&& reads_known_forms(r, event, context, event_index)
    &&& match event.event {
        Err(nr) => r matches ParsedEventMessage::ParseError { error: GameEventParseError::EventTypeNotRecognized(e), message }
            && e.0@ == nr.0@ && message@ == event.message@,
        Ok(t) => match r {
            ParsedEventMessage::ParseError { error, message } => message@ == event.message@
                && (error matches GameEventParseError::FailedParsingMessage { event_type, message: m }
                && event_type == t && m@ == event.message@),
            _ => fits(t, r) && context.wf(),
        },
    }
}

/// Writing a message depends on its context only through the season and day.
pub proof fn lemma_unparse_context<S: Text, T1: Text, T2: Text>(
    m: ParsedEventMessage<S>,
    c1: UnparsingContext<T1>,
    c2: UnparsingContext<T2>,
    event_index: Option<u16>,
)
    requires
        c1.season == c2.season,
        c1.day == c2.day,
    ensures
        m.spec_unparse(c1, event_index) == m.spec_unparse(c2, event_index),
        old_space_text(c1, event_index) == old_space_text(c2, event_index),
        c1.wf() == c2.wf(),
{
}

/// Whenever a lineup event is read, the lineup of a home lineup event is the
/// home team's and that of an away lineup event the away team's.
pub proof fn lemma_lineup_side<S: Text, T: Text>(
    r: ParsedEventMessage<S>,
    event: Event,
    context: UnparsingContext<T>,
    event_index: Option<u16>,
)
    requires
        is_parse_of(r, event, context, event_index),
        !(r is ParseError),
    ensures
        event.event == Ok::<EventType, NotRecognized>(EventType::HomeLineup)
            ==> (r matches ParsedEventMessage::Lineup { side, .. } && side == HomeAway::Home),
        event.event == Ok::<EventType, NotRecognized>(EventType::AwayLineup)
            ==> (r matches ParsedEventMessage::Lineup { side, .. } && side == HomeAway::Away),
{
}

/// The message that opens play.
pub open spec fn play_ball_text() -> Seq<char> {
    "\"PLAY BALL.\""@
}

/// The message that ends the half `side` of inning `number`.
pub open spec fn inning_end_text(number: u8, side: TopBottom) -> Seq<char> {
    "End of the "@ + side.spec_name() + " of the "@ + end_ordinal(number) + "."@
}

/// "End of the top of the " or "End of the bottom of the ".
pub open spec fn end_of_half(side: TopBottom) -> Seq<char> {
    match side {
        TopBottom::Top => "End of the top of the "@,
        TopBottom::Bottom => "End of the bottom of the "@,
    }
}

/// The end of a half inning is written "End of the top of the " or "End of the
/// bottom of the ", then the inning's number in decimal with its ordinal
/// suffix, then a full stop: "th" for 11, 12 and 13, else "st", "nd" or "rd"
/// where the last digit is 1, 2 or 3, else "th" (so "2nd", "12th", "22nd").
pub proof fn lemma_inning_end_words<S: Text, T: Text>(number: u8, side: TopBottom, context: UnparsingContext<T>, event_index: Option<u16>)
    requires
        number > 0,
    ensures
        (ParsedEventMessage::<S>::InningEnd { number, side }).spec_unparse(context, event_index) == inning_end_text(number, side),
        number % 10 == 1 && number != 11 ==> inning_end_text(number, side)
            == end_of_half(side) + dec(number as nat) + "st."@,
        number % 10 == 2 && number != 12 ==> inning_end_text(number, side)
            == end_of_half(side) + dec(number as nat) + "nd."@,
        number % 10 == 3 && number != 13 ==> inning_end_text(number, side)
            == end_of_half(side) + dec(number as nat) + "rd."@,
        (number == 11 || number == 12 || number == 13 || number % 10 == 0 || number % 10 > 3) ==> inning_end_text(number, side)
            == end_of_half(side) + dec(number as nat) + "th."@,
{
    reveal_strlit("End of the ");
    reveal_strlit(" of the ");
    reveal_strlit("End of the top of the ");
    reveal_strlit("End of the bottom of the ");
    reveal_strlit("top");
    reveal_strlit("bottom");
    reveal_strlit(".");
    reveal_strlit("st");
    reveal_strlit("nd");
    reveal_strlit("rd");
    reveal_strlit("th");
    reveal_strlit("st.");
    reveal_strlit("nd.");
    reveal_strlit("rd.");
    reveal_strlit("th.");
    let head: Seq<char> = if side == TopBottom::Top { "End of the top of the "@ } else { "End of the bottom of the "@ };
    assert("End of the "@ + side.spec_name() + " of the "@ =~= head);
    let d = dec(number as nat);
    assert(inning_end_text(number, side) =~= head + (end_ordinal(number) + "."@));
    assert(d + "st"@ + "."@ =~= d + "st."@);
    assert(d + "nd"@ + "."@ =~= d + "nd."@);
    assert(d + "rd"@ + "."@ =~= d + "rd."@);
    assert(d + "th"@ + "."@ =~= d + "th."@);
    assert(head + (d + "st"@ + "."@) =~= head + d + "st."@);
    assert(head + (d + "nd"@ + "."@) =~= head + d + "nd."@);
    assert(head + (d + "rd"@ + "."@) =~= head + d + "rd."@);
    assert(head + (d + "th"@ + "."@) =~= head + d + "th."@);
}

/// A message "End of the {side} of the {n}{suffix}." of an inning end event is
/// read as the end of that half of inning `n`, with the suffix of
/// `lemma_inning_end_words`: "End of the top of the 2nd." is the end of the top
/// of the second.
pub proof fn lemma_reads_inning_end<S: Text, T: Text>(
    r: ParsedEventMessage<S>,
    event: Event,
    context: UnparsingContext<T>,
    event_index: Option<u16>,
    number: u8,
    side: TopBottom,
)
    requires
        is_parse_of(r, event, context, event_index),
        event.event == Ok::<EventType, NotRecognized>(EventType::InningEnd),
        context.wf(),
        number > 0,
    ensures
        number % 10 == 1 && number != 11 && event.message@
            == end_of_half(side) + dec(number as nat) + "st."@
            ==> r == (ParsedEventMessage::<S>::InningEnd { number, side }),
        number % 10 == 2 && number != 12 && event.message@
            == end_of_half(side) + dec(number as nat) + "nd."@
            ==> r == (ParsedEventMessage::<S>::InningEnd { number, side }),
        number % 10 == 3 && number != 13 && event.message@
            == end_of_half(side) + dec(number as nat) + "rd."@
            ==> r == (ParsedEventMessage::<S>::InningEnd { number, side }),
        (number == 11 || number == 12 || number == 13 || number % 10 == 0 || number % 10 > 3) && event.message@
            == end_of_half(side) + dec(number as nat) + "th."@
            ==> r == (ParsedEventMessage::<S>::InningEnd { number, side }),
{
    lemma_inning_end_words::<S, T>(number, side, context, event_index);
}

/// A ball with nothing after the count, after the space `space`.
pub open spec fn ball_form(space: Seq<char>, count: (u8, u8)) -> Seq<char> {
    space + "Ball. "@ + count_text(count)
}

/// A strike with nothing after the count, after the space `space`.
pub open spec fn strike_form(space: Seq<char>, kind: StrikeType, count: (u8, u8)) -> Seq<char> {
    space + "Strike, "@ + kind.spec_name() + ". "@ + count_text(count)
}

/// A foul with nothing after the count, after the space `space`.
pub open spec fn foul_form(space: Seq<char>, kind: FoulType, count: (u8, u8)) -> Seq<char> {
    space + "Foul "@ + kind.spec_name() + ". "@ + count_text(count)
}

/// Whether the message after `p0` is a ball, strike or foul with nothing after
/// the count, so that it is no walk.
pub(crate) open spec fn plain_pitch_forms_fail(r: &Reader, ctx: &ParsingContext, p0: usize) -> bool {
    ||| exists|count: (u8, u8)| r.text@ == ball_form(ctx.space(), count) && p0 == ctx.space().len()
    ||| exists|kind: StrikeType, count: (u8, u8)| r.text@ == strike_form(ctx.space(), kind, count) && p0 == ctx.space().len()
    ||| exists|kind: FoulType, count: (u8, u8)| r.text@ == foul_form(ctx.space(), kind, count) && p0 == ctx.space().len()
}

/// Whether `text` is a ball followed by one runner stealing first, second or
/// third base, after the space `space`: the runner's name does not start with
/// `<`, " steals " follows it only where it ends, and the message holds no
/// " is caught stealing ".
pub open spec fn ball_steal_form(text: Seq<char>, space: Seq<char>, count: (u8, u8), runner: Seq<char>, base: crate::enums::Base) -> bool {
    &&& base != crate::enums::Base::Home
    &&& (runner.len() > 0 ==> runner[0] != '<')
    &&& stops_after(runner, " steals "@)
    &&& crate::text::lacks(text, " is caught stealing "@)
    &&& text == ball_form(space, count) + crate::reader::steal_text(runner, base)
}

/// A walk with nothing after it, after the space `space`.
pub open spec fn walk_form(space: Seq<char>, batter: Seq<char>) -> Seq<char> {
    space + "Ball 4. "@ + batter + " walks."@
}

/// A walk followed by runners scoring and then runners advancing, after the
/// space `space`.
pub open spec fn walk_runs_form(space: Seq<char>, batter: Seq<char>, rs: Seq<Seq<char>>, advs: Seq<(Seq<char>, crate::enums::Base)>) -> Seq<char> {
    walk_form(space, batter) + crate::reader::runs_text(rs, advs)
}

/// Whether the names of runners scoring and advancing can be told from the
/// words around them.
pub open spec fn readable_runs(rs: Seq<Seq<char>>, advs: Seq<(Seq<char>, crate::enums::Base)>) -> bool {
    crate::reader::scoring_runners(rs) && crate::reader::advancing_runners(advs)
}

/// Whether `scores` and `advances` are the runners `rs` scoring and `advs` advancing.
pub open spec fn same_runs<S: Text>(scores: Seq<S>, advances: Seq<crate::parsed_event::RunnerAdvance<S>>, rs: Seq<Seq<char>>, advs: Seq<(Seq<char>, crate::enums::Base)>) -> bool {
    &&& scores.len() == rs.len()
    &&& forall|i: int| 0 <= i < rs.len() ==> (#[trigger] scores[i])@ == rs[i]
    &&& advances.len() == advs.len()
    &&& forall|i: int| 0 <= i < advs.len() ==> (#[trigger] advances[i]).runner@ == advs[i].0 && advances[i].base == advs[i].1
}

/// Whether `m` is a walk of `batter` with the runners `rs` scoring and `advs`
/// advancing, and nothing more.
pub open spec fn is_running_walk<S: Text>(m: ParsedEventMessage<S>, batter: Seq<char>, rs: Seq<Seq<char>>, advs: Seq<(Seq<char>, crate::enums::Base)>) -> bool {
    &&& m matches ParsedEventMessage::Walk { batter: b, scores, advances, cheer, aurora_photos, ejection, wither }
    &&& b@ == batter && same_runs(scores@, advances@, rs, advs) && cheer is None
    &&& aurora_photos is None && ejection is None && wither is None
}

/// A walk followed by the cheer `c`, written with its emoji where `emoji`
/// holds, after the space `space`.
pub open spec fn walk_cheer_form(space: Seq<char>, batter: Seq<char>, emoji: bool, c: Seq<char>) -> Seq<char> {
    walk_form(space, batter) + cheer_sentence(emoji, c)
}

/// Whether the cheer `c` can be told from the words around it: it holds no
/// "!", does not start with `<`, and its sentence holds no " to ".
pub open spec fn plain_cheer(emoji: bool, c: Seq<char>) -> bool {
    &&& stops_after(c, "!"@)
    &&& (c.len() > 0 ==> c[0] != '<')
    &&& crate::text::lacks(cheer_sentence(emoji, c), " to "@)
}

/// Whether `m` is a walk of `batter` followed by the cheer `c`, and nothing more.
pub open spec fn is_cheered_walk<S: Text>(m: ParsedEventMessage<S>, batter: Seq<char>, c: Seq<char>) -> bool {
    &&& m matches ParsedEventMessage::Walk { batter: b, scores, advances, cheer: Some(ch), aurora_photos, ejection, wither }
    &&& b@ == batter && scores@.len() == 0 && advances@.len() == 0 && ch.spec_name() == c
    &&& aurora_photos is None && ejection is None && wither is None
}

/// Whether `m` is a walk of `batter` and nothing more.
pub open spec fn is_plain_walk<S: Text>(m: ParsedEventMessage<S>, batter: Seq<char>) -> bool {
    &&& m matches ParsedEventMessage::Walk { batter: b, scores, advances, cheer, aurora_photos, ejection, wither }
    &&& b@ == batter && scores@.len() == 0 && advances@.len() == 0 && cheer is None && aurora_photos is None
    &&& ejection is None && wither is None
}

/// Whether `s` begins with `prefix`.
pub open spec fn begins_with(s: Seq<char>, prefix: Seq<char>) -> bool {
    prefix.len() <= s.len() && s.subrange(0, prefix.len() as int) == prefix
}

/// A text that goes on from `a` begins with `x` as `a` does, where `x` is no longer than `a`.
proof fn lemma_begins_with_start(a: Seq<char>, b: Seq<char>, x: Seq<char>)
    requires
        x.len() <= a.len(),
    ensures
        begins_with(a + b, x) == begins_with(a, x),
{
    assert((a + b).subrange(0, x.len() as int) =~= a.subrange(0, x.len() as int));
}

/// Whether a ball in play by `batter` can be told from the other pitches: the
/// name does not start with a space, and the message, from the name on, does
/// not start as a walk, a ball, a strike or a foul does.
pub open spec fn plain_batter(batter: Seq<char>) -> bool {
    let start = batter + " hits a "@;
    &&& batter.len() > 0 && batter[0] != ' '
    &&& !begins_with(start, "Ball 4. "@)
    &&& !begins_with(start, "Ball. "@)
    &&& !begins_with(start, "Strike, "@)
    &&& !begins_with(start, "Foul "@)
}

/// A ball in play by `batter` with nothing after it, after the space `space`.
pub open spec fn fair_ball_form(space: Seq<char>, batter: Seq<char>, kind: FairBallType, destination: FairBallDestination) -> Seq<char> {
    space + batter + " hits a "@ + kind.spec_name() + " to "@ + destination.spec_name() + "."@
}

/// A ball in play by `batter` followed by the cheer `c`, written with its
/// emoji where `emoji` holds, after the space `space`.
pub open spec fn fair_ball_cheer_form(space: Seq<char>, batter: Seq<char>, kind: FairBallType, destination: FairBallDestination,
    emoji: bool, c: Seq<char>) -> Seq<char> {
    fair_ball_form(space, batter, kind, destination) + cheer_sentence(emoji, c)
}

/// Whether `m` is a ball in play by `batter` followed by the cheer `c`, and nothing more.
pub open spec fn is_cheered_fair_ball<S: Text>(m: ParsedEventMessage<S>, batter: Seq<char>, kind: FairBallType, destination: FairBallDestination, c: Seq<char>) -> bool {
    &&& m matches ParsedEventMessage::FairBall { batter: b, fair_ball_type, destination: d, cheer: Some(ch), aurora_photos, door_prizes }
    &&& b@ == batter && fair_ball_type == kind && d == destination && ch.spec_name() == c && aurora_photos is None
    &&& door_prizes@.len() == 0
}

/// Whether `m` is a ball in play by `batter` and nothing more.
pub open spec fn is_plain_fair_ball<S: Text>(m: ParsedEventMessage<S>, batter: Seq<char>, kind: FairBallType, destination: FairBallDestination) -> bool {
    &&& m matches ParsedEventMessage::FairBall { batter: b, fair_ball_type, destination: d, cheer, aurora_photos, door_prizes }
    &&& b@ == batter && fair_ball_type == kind && d == destination && cheer is None && aurora_photos is None
    &&& door_prizes@.len() == 0
}

/// Whether `m` is a ball with count `count` and nothing more.
pub open spec fn is_plain_ball<S>(m: ParsedEventMessage<S>, count: (u8, u8)) -> bool {
    &&& m matches ParsedEventMessage::Ball { steals, count: c, cheer, aurora_photos, ejection, door_prizes, wither }
    &&& steals@.len() == 0 && c == count && cheer is None && aurora_photos is None && ejection is None
    &&& door_prizes@.len() == 0 && wither is None
}

/// Whether the cheer `c` after a pitch can be told from the words around it:
/// it holds no "!", and its sentence speaks of no steal.
pub open spec fn plain_pitch_cheer(emoji: bool, c: Seq<char>) -> bool {
    &&& stops_after(c, "!"@)
    &&& crate::text::lacks(cheer_sentence(emoji, c), " steals "@)
    &&& crate::text::lacks(cheer_sentence(emoji, c), " is caught stealing "@)
}

/// A strike followed by the cheer `c`, after the space `space`.
pub open spec fn strike_cheer_form(space: Seq<char>, kind: StrikeType, count: (u8, u8), emoji: bool, c: Seq<char>) -> Seq<char> {
    strike_form(space, kind, count) + cheer_sentence(emoji, c)
}

/// Whether `m` is a strike of kind `kind` with count `count` followed by the
/// cheer `c`, and nothing more.
pub open spec fn is_cheered_strike<S>(m: ParsedEventMessage<S>, kind: StrikeType, count: (u8, u8), c: Seq<char>) -> bool {
    &&& m matches ParsedEventMessage::Strike { strike, steals, count: n, cheer: Some(ch), aurora_photos, ejection, door_prizes, wither }
    &&& strike == kind && steals@.len() == 0 && n == count && ch.spec_name() == c && aurora_photos is None && ejection is None
    &&& door_prizes@.len() == 0 && wither is None
}

/// A foul followed by the cheer `c`, after the space `space`.
pub open spec fn foul_cheer_form(space: Seq<char>, kind: FoulType, count: (u8, u8), emoji: bool, c: Seq<char>) -> Seq<char> {
    foul_form(space, kind, count) + cheer_sentence(emoji, c)
}

/// Whether `m` is a foul of kind `kind` with count `count` followed by the
/// cheer `c`, and nothing more.
pub open spec fn is_cheered_foul<S>(m: ParsedEventMessage<S>, kind: FoulType, count: (u8, u8), c: Seq<char>) -> bool {
    &&& m matches ParsedEventMessage::Foul { foul, steals, count: n, cheer: Some(ch), aurora_photos, door_prizes, wither }
    &&& foul == kind && steals@.len() == 0 && n == count && ch.spec_name() == c && aurora_photos is None
    &&& door_prizes@.len() == 0 && wither is None
}

/// A ball followed by the storms intensifying and two players photographing
/// the aurora, those of the team with emoji `e1` named first, after the space
/// `space`.
pub open spec fn ball_aurora_form(space: Seq<char>, count: (u8, u8), e1: Seq<char>, p1: Place, n1: Seq<char>, e2: Seq<char>, p2: Place, n2: Seq<char>) -> Seq<char> {
    ball_form(space, count) + aurora_text(e1, p1, n1, e2, p2, n2)
}

/// Whether the photographs of the aurora can be told from the words around
/// them: the names can, and no steal is spoken of.
pub open spec fn plain_aurora(e1: Seq<char>, p1: Place, n1: Seq<char>, e2: Seq<char>, p2: Place, n2: Seq<char>) -> bool {
    &&& photographers_readable(p1, n1, p2, n2)
    &&& crate::text::lacks(aurora_text(e1, p1, n1, e2, p2, n2), " steals "@)
    &&& crate::text::lacks(aurora_text(e1, p1, n1, e2, p2, n2), " is caught stealing "@)
}

/// Whether `m` is a ball with count `count` followed by the aurora photographed
/// by `p1` `n1` of the team `e1` and `p2` `n2` of the team `e2`, and nothing more.
pub open spec fn is_photographed_ball<S: Text>(m: ParsedEventMessage<S>, count: (u8, u8), e1: Seq<char>, p1: Place, n1: Seq<char>, e2: Seq<char>, p2: Place, n2: Seq<char>) -> bool {
    &&& m matches ParsedEventMessage::Ball { steals, count: c, cheer, aurora_photos: Some(ph), ejection, door_prizes, wither }
    &&& steals@.len() == 0 && c == count && cheer is None && ejection is None && door_prizes@.len() == 0 && wither is None
    &&& ph.first_team_emoji@ == e1 && ph.first_player.place == p1 && ph.first_player.name@ == n1
    &&& ph.second_team_emoji@ == e2 && ph.second_player.place == p2 && ph.second_player.name@ == n2
}

/// A ball followed by the cheer `c`, after the space `space`.
pub open spec fn ball_cheer_form(space: Seq<char>, count: (u8, u8), emoji: bool, c: Seq<char>) -> Seq<char> {
    ball_form(space, count) + cheer_sentence(emoji, c)
}

/// Whether `m` is a ball with count `count` followed by the cheer `c`, and nothing more.
pub open spec fn is_cheered_ball<S>(m: ParsedEventMessage<S>, count: (u8, u8), c: Seq<char>) -> bool {
    &&& m matches ParsedEventMessage::Ball { steals, count: n, cheer: Some(ch), aurora_photos, ejection, door_prizes, wither }
    &&& steals@.len() == 0 && n == count && ch.spec_name() == c && aurora_photos is None && ejection is None
    &&& door_prizes@.len() == 0 && wither is None
}

/// Whether the cheer `c` after a ball can be told from the words around it:
/// as after any pitch, and its sentence does not start as the storms
/// intensifying does.
pub open spec fn plain_ball_cheer(emoji: bool, c: Seq<char>) -> bool {
    &&& plain_pitch_cheer(emoji, c)
    &&& !begins_with(cheer_sentence(emoji, c), " The Geomagnetic Storms Intensify! "@)
}

/// Whether `m` is a strike of kind `kind` with count `count` and nothing more.
pub open spec fn is_plain_strike<S>(m: ParsedEventMessage<S>, kind: StrikeType, count: (u8, u8)) -> bool {
    &&& m matches ParsedEventMessage::Strike { strike, steals, count: c, cheer, aurora_photos, ejection, door_prizes, wither }
    &&& strike == kind && steals@.len() == 0 && c == count && cheer is None && aurora_photos is None && ejection is None
    &&& door_prizes@.len() == 0 && wither is None
}

/// Whether `m` is a foul of kind `kind` with count `count` and nothing more.
pub open spec fn is_plain_foul<S>(m: ParsedEventMessage<S>, kind: FoulType, count: (u8, u8)) -> bool {
    &&& m matches ParsedEventMessage::Foul { foul, steals, count: c, cheer, aurora_photos, door_prizes, wither }
    &&& foul == kind && steals@.len() == 0 && c == count && cheer is None && aurora_photos is None
    &&& door_prizes@.len() == 0 && wither is None
}

/// Whether `name` holds no bracket, as player names do not.
pub open spec fn no_brackets(name: Seq<char>) -> bool {
    forall|i: int| 0 <= i < name.len() ==> name[i] != '(' && name[i] != ')'
}

/// The message of a player hit by a falling star.
pub open spec fn falling_star_text(name: Seq<char>) -> Seq<char> {
    "<strong>🌠 "@ + name + " is hit by a Falling Star!</strong>"@
}

/// What parsing `event` gives for the messages that are read whenever they have
/// their type's form: "PLAY BALL.", the end of a game, the end of an inning, a
/// falling star, a manager's visit to the mound, a batter coming up with no
/// statistics, for the first time or with statistics, a pitcher remaining in
/// the game, the reflection shattering, the game going live, the final score,
/// the pitching matchup, the lineups, the start of an inning with no runner
/// placed and no pitcher or the same pitcher, a home run or a balk with no
/// runner on base, a batter reaching base, grounding out to one fielder or
/// caught out with no runner moving, and walks, balls, strikes, fouls and balls
/// in play with nothing after them, a party; runners scoring and advancing
/// after a walk, a batter reaching base, a ground out or a catch, and runners
/// scoring after a home run; a cheer after a walk, a ball, a strike, a foul or
/// a ball in play, and photos of the aurora after a ball, each read exactly;
/// and a ball with one runner stealing, a pitcher swap, force outs, double
/// plays, fielder's choices and errors, which are read rather than refused. Where a name is followed by a
/// separator, the separator occurs after the name only where the name ends.
pub open spec fn reads_known_forms<S: Text, T: Text>(
    r: ParsedEventMessage<S>,
    event: Event,
    context: UnparsingContext<T>,
    event_index: Option<u16>,
) -> bool {
    &&& forall|count: (u8, u8), runner: Seq<char>, base: crate::enums::Base|
        event.event == Ok::<EventType, NotRecognized>(EventType::Pitch) && context.wf()
        && #[trigger] ball_steal_form(event.message@, old_space_text(context, event_index), count, runner, base)
        ==> !(r is ParseError)
    &&& forall|double: bool, batter: Seq<char>, kind: FairBallType, place: Place, fielder: Seq<char>, runner: Seq<char>, base: crate::enums::BaseNameVariant|
        event.event == Ok::<EventType, NotRecognized>(EventType::Field) && context.wf() && stops_after(batter + " "@ + kind.spec_verb_name(), play_words(double)) && stops_after(runner, " out at "@)
        && (double ==> crate::text::lacks(play_prefix(double, batter, kind, place, fielder), " into a force out"@))
        && crate::text::no_period(batter) && crate::text::no_period(fielder)
        && event.message@ == #[trigger] play_text(double, batter, kind, place, fielder, runner, base)
        ==> !(r is ParseError)
    &&& forall|batter: Seq<char>, place: Place, fielder: Seq<char>, runner: Seq<char>, base: crate::enums::BaseNameVariant|
        event.event == Ok::<EventType, NotRecognized>(EventType::Field) && context.wf() && stops_after(batter, " reaches on a fielder's choice out"@) && stops_after(runner, " out at "@)
        && crate::text::no_period(batter) && crate::text::no_period(fielder)
        && event.message@ == #[trigger] choice_out_text(batter, place, fielder, runner, base)
        ==> !(r is ParseError)
    &&& forall|batter: Seq<char>, place: Place, f1: Seq<char>, kind: FieldingErrorType, f2: Seq<char>|
        event.event == Ok::<EventType, NotRecognized>(EventType::Field) && context.wf() && stops_after(batter, " reaches on a fielder's choice, fielded by "@)
        && crate::text::no_period(batter) && crate::text::no_period(f1)
        && crate::text::lacks(event.message@.subrange(choice_error_prefix(batter, place, f1).len() + 1int, event.message@.len() as int), " to "@)
        && event.message@ == #[trigger] choice_error_text(batter, place, f1, kind, f2)
        ==> !(r is ParseError)
    &&& forall|batter: Seq<char>, kind: FieldingErrorType, place: Place, fielder: Seq<char>|
        event.event == Ok::<EventType, NotRecognized>(EventType::Field) && context.wf() && stops_after(batter, " reaches on a "@) && crate::text::no_period(batter) && crate::text::no_period(fielder)
        && event.message@ == #[trigger] reach_error_text(batter, kind, place, fielder)
        ==> !(r is ParseError)
    &&& forall|pn: Seq<char>, bn: Seq<char>, pa: u8, pt: crate::enums::Attribute, ba: u8, bt: crate::enums::Attribute, loss: u8|
        event.event == Ok::<EventType, NotRecognized>(EventType::Party) && context.wf()
        && stops_after(pn, " and "@) && stops_after(bn, " are Partying!</strong> "@)
        && event.message@ == #[trigger] party_text(pn, bn, pa, pt, ba, bt, loss)
        ==> (r matches ParsedEventMessage::Party { pitcher_name, pitcher_amount_gained, pitcher_attribute, batter_name,
                batter_amount_gained, batter_attribute, durability_loss }
            && pitcher_name@ == pn && batter_name@ == bn && pitcher_amount_gained == pa && pitcher_attribute == pt
            && batter_amount_gained == ba && batter_attribute == bt
            && durability_loss == crate::parsed_event::PartyDurabilityLoss::<S>::Both(loss))
    &&& forall|e: Seq<char>, p1: Place, n1: Seq<char>, p2: Place, n2: Seq<char>|
        event.event == Ok::<EventType, NotRecognized>(EventType::MoundVisit) && context.wf()
        && #[trigger] swap_form(event.message@, pitching_emoji_of(context, event.inning), e, p1, n1, p2, n2)
        ==> !(r is ParseError)
    &&& (event.event == Ok::<EventType, NotRecognized>(EventType::PlayBall) && context.wf()
        && event.message@ == play_ball_text() ==> r is PlayBall)
    &&& forall|g: GameOverMessage| event.event == Ok::<EventType, NotRecognized>(EventType::GameOver) && context.wf()
        && event.message@ == g.spec_name() ==> r == ParsedEventMessage::<S>::GameOver { message: g }
    &&& forall|number: u8, side: TopBottom| event.event == Ok::<EventType, NotRecognized>(EventType::InningEnd) && context.wf()
        && number > 0 && event.message@ == inning_end_text(number, side)
        ==> r == ParsedEventMessage::<S>::InningEnd { number, side }
    &&& forall|name: Seq<char>| event.event == Ok::<EventType, NotRecognized>(EventType::FallingStar) && context.wf()
        && event.message@ == falling_star_text(name)
        ==> (r matches ParsedEventMessage::FallingStar { player_name } && player_name@ == name)
    &&& forall|emoji: Seq<char>, name: Seq<char>, kind: MoundVisitType|
        event.event == Ok::<EventType, NotRecognized>(EventType::MoundVisit) && context.wf() && no_space(emoji)
        && event.message@ == manager_visit_text(emoji, name, kind)
        ==> (r matches ParsedEventMessage::MoundVisit { team, mound_visit_type }
            && team.emoji@ == emoji && team.name@ == name && mound_visit_type == kind)
    &&& forall|name: Seq<char>| event.event == Ok::<EventType, NotRecognized>(EventType::NowBatting) && context.wf()
        && no_brackets(name) && event.message@ == "Now batting: "@ + name
        ==> (r matches ParsedEventMessage::NowBatting { batter, stats } && batter@ == name && stats is NoStats)
    &&& forall|name: Seq<char>| event.event == Ok::<EventType, NotRecognized>(EventType::NowBatting) && context.wf()
        && no_brackets(name) && event.message@ == "Now batting: "@ + name + " (1st PA of game)"@
        ==> (r matches ParsedEventMessage::NowBatting { batter, stats } && batter@ == name && stats is FirstPA)
    &&& forall|emoji: Seq<char>, name: Seq<char>| event.event == Ok::<EventType, NotRecognized>(EventType::Weather)
        && context.wf() && no_space(emoji) && event.message@ == reflection_text(emoji, name)
        ==> (r matches ParsedEventMessage::WeatherReflection { team } && team.emoji@ == emoji && team.name@ == name)
    &&& forall|ae: Seq<char>, an: Seq<char>, he: Seq<char>, hn: Seq<char>, stadium: Seq<char>|
        event.event == Ok::<EventType, NotRecognized>(EventType::LiveNow) && context.wf()
        && live_now_names(context, event_index, ae, an, he, hn)
        && !Breakpoints::Season3.spec_before(context.season, context.day, event_index)
        && event.message@ == live_now_text(ae, an, he, hn, stadium)
        ==> (r matches ParsedEventMessage::LiveNow { away_team, home_team, stadium: Some(st) }
            && away_team.emoji@ == ae && away_team.name@ == an && home_team.emoji@ == he
            && home_team.name@ == hn && st@ == stadium)
    &&& forall|ae: Seq<char>, an: Seq<char>, he: Seq<char>, hn: Seq<char>|
        event.event == Ok::<EventType, NotRecognized>(EventType::LiveNow) && context.wf()
        && live_now_names(context, event_index, ae, an, he, hn)
        && Breakpoints::Season3.spec_before(context.season, context.day, event_index)
        && event.message@ == old_live_now_text(ae, an, he, hn)
        ==> (r matches ParsedEventMessage::LiveNow { away_team, home_team, stadium: None }
            && away_team.emoji@ == ae && away_team.name@ == an && home_team.emoji@ == he
            && home_team.name@ == hn)
    &&& forall|we: Seq<char>, wn: Seq<char>, le: Seq<char>, ln: Seq<char>, ws: u8, ls: u8|
        event.event == Ok::<EventType, NotRecognized>(EventType::Recordkeeping) && context.wf()
        && result_names(we, wn, le, ln) && event.message@ == recordkeeping_text(we, wn, le, ln, ws, ls)
        ==> (r matches ParsedEventMessage::Recordkeeping { winning_team, losing_team, winning_score, losing_score }
            && winning_team.emoji@ == we && winning_team.name@ == wn && losing_team.emoji@ == le
            && losing_team.name@ == ln && winning_score == ws && losing_score == ls)
    &&& forall|ap: Seq<char>, hp: Seq<char>| event.event == Ok::<EventType, NotRecognized>(EventType::PitchingMatchup)
        && context.wf() && stops_after(ap, " vs. "@)
        && event.message@ == matchup_text(context.away_emoji_team.spec_text(), ap, context.home_emoji_team.spec_text(), hp)
        ==> (r matches ParsedEventMessage::PitchingMatchup { away_team, home_team, home_pitcher, away_pitcher }
            && away_team.emoji@ == context.away_emoji_team.emoji@ && away_team.name@ == context.away_emoji_team.name@
            && home_team.emoji@ == context.home_emoji_team.emoji@ && home_team.name@ == context.home_emoji_team.name@
            && away_pitcher@ == ap && home_pitcher@ == hp)
    &&& forall|pitcher: Seq<char>| event.event == Ok::<EventType, NotRecognized>(EventType::Balk) && context.wf()
        && stops_after(pitcher, " dropped the ball."@) && event.message@ == balk_text(pitcher)
        ==> (r matches ParsedEventMessage::Balk { pitcher: p, scores, advances }
            && p@ == pitcher && scores@.len() == 0 && advances@.len() == 0)
    &&& forall|side: TopBottom, number: u8, te: Seq<char>, tn: Seq<char>|
        event.event == Ok::<EventType, NotRecognized>(EventType::InningStart) && context.wf() && number > 0
        && batting_names(te, tn) && event.message@ == inning_head_text(side, number, te, tn)
        ==> (r matches ParsedEventMessage::InningStart { number: nb, side: sd, batting_team, automatic_runner, pitcher_status }
            && nb == number && sd == side && batting_team.emoji@ == te && batting_team.name@ == tn
            && automatic_runner is None && pitcher_status is None)
    &&& forall|side: TopBottom, number: u8, te: Seq<char>, tn: Seq<char>, pe: Seq<char>, pn: Seq<char>|
        event.event == Ok::<EventType, NotRecognized>(EventType::InningStart) && context.wf() && number > 0
        && batting_names(te, tn) && stops_after(pn, " pitching."@) && pitching_emoji_of(context, event.inning) == Some(pe)
        && crate::text::lacks(pe + " "@ + pn + " pitching."@, runner_sentence())
        && event.message@ == same_pitcher_text(side, number, te, tn, pe, pn)
        ==> (r matches ParsedEventMessage::InningStart { number: nb, side: sd, batting_team, automatic_runner,
                pitcher_status: Some(crate::parsed_event::StartOfInningPitcher::Same { emoji, name }) }
            && nb == number && sd == side && batting_team.emoji@ == te && batting_team.name@ == tn
            && automatic_runner is None && emoji@ == pe && name@ == pn)
    &&& forall|batter: Seq<char>| event.event == Ok::<EventType, NotRecognized>(EventType::Pitch) && context.wf()
        && stops_after(batter, " walks."@) && event.message@ == walk_form(old_space_text(context, event_index), batter)
        ==> is_plain_walk(r, batter)
    &&& forall|batter: Seq<char>, rs: Seq<Seq<char>>, advs: Seq<(Seq<char>, crate::enums::Base)>|
        event.event == Ok::<EventType, NotRecognized>(EventType::Pitch) && context.wf()
        && stops_after(batter, " walks."@) && readable_runs(rs, advs)
        && event.message@ == #[trigger] walk_runs_form(old_space_text(context, event_index), batter, rs, advs)
        ==> is_running_walk(r, batter, rs, advs)
    &&& forall|batter: Seq<char>, c: Seq<char>| event.event == Ok::<EventType, NotRecognized>(EventType::Pitch)
        && context.wf() && cheers_allowed_at(context, event_index) && stops_after(batter, " walks."@)
        && plain_cheer(cheer_emoji_at(context, event_index), c)
        && event.message@ == #[trigger] walk_cheer_form(old_space_text(context, event_index), batter, cheer_emoji_at(context, event_index), c)
        ==> is_cheered_walk(r, batter, c)
    &&& forall|name: Seq<char>, stats: Seq<BatterStat>| event.event == Ok::<EventType, NotRecognized>(EventType::NowBatting)
        && context.wf() && no_brackets(name) && stats.len() >= 1 && event.message@ == now_batting_stats_text(name, stats)
        ==> (r matches ParsedEventMessage::NowBatting { batter, stats: NowBattingStats::Stats(v) }
            && batter@ == name && v@ == stats)
    &&& forall|ps: Seq<(Place, Seq<char>)>| event.event == Ok::<EventType, NotRecognized>(EventType::HomeLineup)
        && context.wf() && lineup_readable(ps) && event.message@ == lineup_entries(ps, 0)
        ==> (r matches ParsedEventMessage::Lineup { side, players } && side == HomeAway::Home && same_players(players@, ps))
    &&& forall|ps: Seq<(Place, Seq<char>)>| event.event == Ok::<EventType, NotRecognized>(EventType::AwayLineup)
        && context.wf() && lineup_readable(ps) && event.message@ == lineup_entries(ps, 0)
        ==> (r matches ParsedEventMessage::Lineup { side, players } && side == HomeAway::Away && same_players(players@, ps))
    &&& forall|place: Place, name: Seq<char>| event.event == Ok::<EventType, NotRecognized>(EventType::MoundVisit)
        && context.wf() && remains_form(event.message@, place, name)
        ==> (r matches ParsedEventMessage::PitcherRemains { remaining_pitcher }
            && remaining_pitcher.place == place && remaining_pitcher.name@ == name)
    &&& forall|batter: Seq<char>, kind: FairBallType, destination: FairBallDestination|
        event.event == Ok::<EventType, NotRecognized>(EventType::Field) && context.wf()
        && stops_after(batter, " homers on a "@) && event.message@ == solo_home_run_text(batter, kind, destination)
        ==> (r matches ParsedEventMessage::HomeRun { batter: b, fair_ball_type, destination: d, scores, grand_slam, ejection }
            && b@ == batter && fair_ball_type == kind && d == destination && scores@.len() == 0 && !grand_slam
            && ejection is None)
    &&& forall|batter: Seq<char>, kind: FairBallType, destination: FairBallDestination, rs: Seq<Seq<char>>|
        event.event == Ok::<EventType, NotRecognized>(EventType::Field) && context.wf()
        && stops_after(batter, " homers on a "@) && crate::reader::scoring_runners(rs)
        && event.message@ == #[trigger] home_run_runs_text(batter, kind, destination, rs)
        ==> (r matches ParsedEventMessage::HomeRun { batter: b, fair_ball_type, destination: d, scores, grand_slam, ejection }
            && b@ == batter && fair_ball_type == kind && d == destination && !grand_slam && ejection is None
            && scores@.len() == rs.len() && (forall|i: int| 0 <= i < rs.len() ==> (#[trigger] scores@[i])@ == rs[i]))
    &&& forall|batter: Seq<char>, kind: FairBallType, destination: FairBallDestination|
        event.event == Ok::<EventType, NotRecognized>(EventType::Pitch) && context.wf()
        && stops_after(batter, " hits a "@) && plain_batter(batter)
        && event.message@ == fair_ball_form(old_space_text(context, event_index), batter, kind, destination)
        ==> is_plain_fair_ball(r, batter, kind, destination)
    &&& forall|kind: StrikeType, count: (u8, u8), c: Seq<char>|
        event.event == Ok::<EventType, NotRecognized>(EventType::Pitch) && context.wf()
        && cheers_allowed_at(context, event_index) && plain_pitch_cheer(cheer_emoji_at(context, event_index), c)
        && event.message@ == #[trigger] strike_cheer_form(old_space_text(context, event_index), kind, count, cheer_emoji_at(context, event_index), c)
        ==> is_cheered_strike(r, kind, count, c)
    &&& forall|count: (u8, u8), c: Seq<char>|
        event.event == Ok::<EventType, NotRecognized>(EventType::Pitch) && context.wf()
        && cheers_allowed_at(context, event_index) && plain_ball_cheer(cheer_emoji_at(context, event_index), c)
        && event.message@ == #[trigger] ball_cheer_form(old_space_text(context, event_index), count, cheer_emoji_at(context, event_index), c)
        ==> is_cheered_ball(r, count, c)
    &&& forall|count: (u8, u8), p1: Place, n1: Seq<char>, p2: Place, n2: Seq<char>|
        event.event == Ok::<EventType, NotRecognized>(EventType::Pitch) && context.wf()
        && plain_aurora(context.home_emoji_team.emoji@, p1, n1, context.away_emoji_team.emoji@, p2, n2)
        && event.message@ == #[trigger] ball_aurora_form(old_space_text(context, event_index), count,
            context.home_emoji_team.emoji@, p1, n1, context.away_emoji_team.emoji@, p2, n2)
        ==> is_photographed_ball(r, count, context.home_emoji_team.emoji@, p1, n1, context.away_emoji_team.emoji@, p2, n2)
    &&& forall|kind: FoulType, count: (u8, u8), c: Seq<char>|
        event.event == Ok::<EventType, NotRecognized>(EventType::Pitch) && context.wf()
        && cheers_allowed_at(context, event_index) && plain_pitch_cheer(cheer_emoji_at(context, event_index), c)
        && event.message@ == #[trigger] foul_cheer_form(old_space_text(context, event_index), kind, count, cheer_emoji_at(context, event_index), c)
        ==> is_cheered_foul(r, kind, count, c)
    &&& forall|batter: Seq<char>, kind: FairBallType, destination: FairBallDestination, c: Seq<char>|
        event.event == Ok::<EventType, NotRecognized>(EventType::Pitch) && context.wf()
        && cheers_allowed_at(context, event_index) && stops_after(batter, " hits a "@) && plain_batter(batter) && stops_after(c, "!"@)
        && event.message@ == #[trigger] fair_ball_cheer_form(old_space_text(context, event_index), batter, kind, destination, cheer_emoji_at(context, event_index), c)
        ==> is_cheered_fair_ball(r, batter, kind, destination, c)
    &&& forall|batter: Seq<char>, distance: Distance, kind: FairBallType, place: Place, fielder: Seq<char>|
        event.event == Ok::<EventType, NotRecognized>(EventType::Field) && context.wf()
        && to_base_readable(batter, distance, fielder) && event.message@ == to_base_text(batter, distance, kind, place, fielder)
        ==> (r matches ParsedEventMessage::BatterToBase { batter: b, distance: d, fair_ball_type, fielder: f, scores, advances, ejection }
            && b@ == batter && d == distance && fair_ball_type == kind && f.place == place && f.name@ == fielder
            && scores@.len() == 0 && advances@.len() == 0 && ejection is None)
    &&& forall|batter: Seq<char>, distance: Distance, kind: FairBallType, place: Place, fielder: Seq<char>, rs: Seq<Seq<char>>, advs: Seq<(Seq<char>, crate::enums::Base)>|
        event.event == Ok::<EventType, NotRecognized>(EventType::Field) && context.wf()
        && to_base_readable(batter, distance, fielder) && readable_runs(rs, advs)
        && event.message@ == #[trigger] to_base_runs_text(batter, distance, kind, place, fielder, rs, advs)
        ==> (r matches ParsedEventMessage::BatterToBase { batter: b, distance: d, fair_ball_type, fielder: f, scores, advances, ejection }
            && b@ == batter && d == distance && fair_ball_type == kind && f.place == place && f.name@ == fielder
            && same_runs(scores@, advances@, rs, advs) && ejection is None)
    &&& forall|batter: Seq<char>, place: Place, fielder: Seq<char>, rs: Seq<Seq<char>>, advs: Seq<(Seq<char>, crate::enums::Base)>|
        event.event == Ok::<EventType, NotRecognized>(EventType::Field) && context.wf()
        && ground_out_runs_readable(batter, place, fielder, rs, advs)
        && event.message@ == #[trigger] ground_out_runs_text(batter, place, fielder, rs, advs)
        ==> (r matches ParsedEventMessage::GroundedOut { batter: b, fielders, scores, advances, amazing, ejection }
            && b@ == batter && fielders@.len() == 1 && fielders@[0].place == place && fielders@[0].name@ == fielder
            && same_runs(scores@, advances@, rs, advs) && !amazing && ejection is None)
    &&& forall|batter: Seq<char>, place: Place, fielder: Seq<char>|
        event.event == Ok::<EventType, NotRecognized>(EventType::Field) && context.wf()
        && ground_out_readable(batter, place, fielder) && event.message@ == ground_out_text(batter, place, fielder)
        ==> (r matches ParsedEventMessage::GroundedOut { batter: b, fielders, scores, advances, amazing, ejection }
            && b@ == batter && fielders@.len() == 1 && fielders@[0].place == place && fielders@[0].name@ == fielder
            && scores@.len() == 0 && advances@.len() == 0 && !amazing && ejection is None)
    &&& forall|batter: Seq<char>, kind: FairBallType, place: Place, fielder: Seq<char>, rs: Seq<Seq<char>>, advs: Seq<(Seq<char>, crate::enums::Base)>|
        event.event == Ok::<EventType, NotRecognized>(EventType::Field) && context.wf()
        && caught_out_runs_readable(batter, kind, place, fielder, rs, advs)
        && event.message@ == #[trigger] caught_out_runs_text(batter, kind, place, fielder, rs, advs)
        ==> (r matches ParsedEventMessage::CaughtOut { batter: b, fair_ball_type, caught_by, scores, advances, sacrifice, perfect, ejection }
            && b@ == batter && fair_ball_type == kind && caught_by.place == place && caught_by.name@ == fielder
            && same_runs(scores@, advances@, rs, advs) && !sacrifice && !perfect && ejection is None)
    &&& forall|batter: Seq<char>, kind: FairBallType, place: Place, fielder: Seq<char>|
        event.event == Ok::<EventType, NotRecognized>(EventType::Field) && context.wf()
        && caught_out_readable(batter, kind, place, fielder) && event.message@ == caught_out_text(batter, kind, place, fielder)
        ==> (r matches ParsedEventMessage::CaughtOut { batter: b, fair_ball_type, caught_by, scores, advances, sacrifice, perfect, ejection }
            && b@ == batter && fair_ball_type == kind && caught_by.place == place && caught_by.name@ == fielder
            && scores@.len() == 0 && advances@.len() == 0 && !sacrifice && !perfect && ejection is None)
    &&& forall|count: (u8, u8)| event.event == Ok::<EventType, NotRecognized>(EventType::Pitch) && context.wf()
        && event.message@ == ball_form(old_space_text(context, event_index), count) ==> is_plain_ball(r, count)
    &&& forall|kind: StrikeType, count: (u8, u8)| event.event == Ok::<EventType, NotRecognized>(EventType::Pitch) && context.wf()
        && event.message@ == strike_form(old_space_text(context, event_index), kind, count) ==> is_plain_strike(r, kind, count)
    &&& forall|kind: FoulType, count: (u8, u8)| event.event == Ok::<EventType, NotRecognized>(EventType::Pitch) && context.wf()
        && event.message@ == foul_form(old_space_text(context, event_index), kind, count) ==> is_plain_foul(r, kind, count)
}

/// Whether `m` is a value that messages of events of type `t` hold.
pub open spec fn fits<S>(t: EventType, m: ParsedEventMessage<S>) -> bool {
    match t {
        EventType::PitchingMatchup => m is PitchingMatchup,
        EventType::MoundVisit => m is MoundVisit || m is PitcherSwap || m is PitcherRemains,
        EventType::GameOver => m is GameOver,
        EventType::Field => m is BatterToBase || m is HomeRun || m is CaughtOut || m is GroundedOut || m is ForceOut
            || m is ReachOnFieldersChoice || m is ReachOnFieldingError || m is DoublePlayCaught,
        EventType::HomeLineup => m matches ParsedEventMessage::Lineup { side, .. } && side == HomeAway::Home,
        EventType::AwayLineup => m matches ParsedEventMessage::Lineup { side, .. } && side == HomeAway::Away,
        EventType::Recordkeeping => m is Recordkeeping,
        EventType::LiveNow => m is LiveNow,
        EventType::InningStart => m is InningStart,
        EventType::Pitch => m is Ball || m is Strike || m is Foul || m is Walk || m is FairBall,
        EventType::InningEnd => m is InningEnd,
        EventType::PlayBall => m is PlayBall,
        EventType::NowBatting => m is NowBatting,
        EventType::FallingStar => m is FallingStar,
        EventType::Weather => m is WeatherReflection,
        EventType::Balk => m is Balk,
        EventType::Party => m is Party,
        _ => false,
    }
}

impl<'a> ParsingContext<'a> {
    /// The context of an event with index `event_index` of `game`.
    pub fn new(game_id: &'a str, game: &'a Game, event_index: Option<u16>) -> (r: ParsingContext<'a>)
        ensures
            r.game_id == game_id,
            r.event_log@ == game.event_log@,
            r.event_index == event_index,
            r.season == game.season,
            r.day == game.spec_day(),
            r.home_emoji_team.emoji@ == game.home_team_emoji@,
            r.home_emoji_team.name@ == game.home_team_name@,
            r.away_emoji_team.emoji@ == game.away_team_emoji@,
            r.away_emoji_team.name@ == game.away_team_name@,
    {
        ParsingContext {
            game_id,
            event_log: game.event_log.as_slice(),
            event_index,
            home_emoji_team: EmojiTeam { emoji: game.home_team_emoji.as_str(), name: game.home_team_name.as_str() },
            away_emoji_team: EmojiTeam { emoji: game.away_team_emoji.as_str(), name: game.away_team_name.as_str() },
            season: game.season,
            day: match &game.day {
                Ok(d) => Some(*d),
                Err(_) => None,
            },
        }
    }

    /// A context whose day can be placed in the order of its season.
    pub open spec fn wf(&self) -> bool {
        self.day != Some(Day::SuperstarDay(255))
    }

    fn is_wf(&self) -> (r: bool)
        ensures
            r == self.wf(),
    {
        match self.day {
            Some(Day::SuperstarDay(d)) => d != 255,
            _ => true,
        }
    }

    /// The context in which the messages of this game are written.
    pub open spec fn spec_unparsing(&self) -> UnparsingContext<&'a str> {
        UnparsingContext {
            season: self.season,
            day: self.day,
            away_emoji_team: self.away_emoji_team,
            home_emoji_team: self.home_emoji_team,
        }
    }

    pub fn unparsing_context(&self) -> (r: UnparsingContext<&'a str>)
        ensures
            r == self.spec_unparsing(),
    {
        UnparsingContext {
            season: self.season,
            day: self.day,
            away_emoji_team: self.away_emoji_team,
            home_emoji_team: self.home_emoji_team,
        }
    }

    /// Whether the event is before the change `time`.
    pub fn before(&self, time: Breakpoints) -> (r: bool)
        requires
            self.wf(),
        ensures
            r == time.spec_before(self.season, self.day, self.event_index),
    {
        time.before(self.season, self.day, self.event_index)
    }

    /// Whether the event is at or after the change `time`.
    pub fn after(&self, time: Breakpoints) -> (r: bool)
        requires
            self.wf(),
        ensures
            r == !time.spec_before(self.season, self.day, self.event_index),
    {
        time.after(self.season, self.day, self.event_index)
    }

    /// Whether `m` is a value that writes back to `message` in this context.
    pub open spec fn writes<S: Text>(&self, m: ParsedEventMessage<S>, message: Seq<char>) -> bool {
        &&& self.wf()
        &&& m.wf()
        &&& m.spec_unparse(self.spec_unparsing(), self.event_index) == message
    }

    /// The space that opened pitch messages before season 2, day 169.
    pub open spec fn space(&self) -> Seq<char> {
        old_space_text(self.spec_unparsing(), self.event_index)
    }

    /// Whether `res`, when there is one, writes back to `message` and is a value
    /// that messages of events of type `t` hold.
    pub open spec fn read_as<S: Text>(&self, res: Option<ParsedEventMessage<S>>, message: Seq<char>, t: EventType) -> bool {
        match res {
            Some(m) => self.writes(m, message) && fits(t, m),
            None => true,
        }
    }

    /// The known bug that the event with `message` is, if it is one.
    pub open spec fn spec_override_bug(&self, message: Seq<char>) -> Option<KnownBug<&'static str>> {
        override_bug(self.game_id@, self.event_log@, self.event_index, message)
    }

    /// Whether the event with `message` can be looked up among the known bugs:
    /// in a game with known bugs, an event without an index is found by its
    /// message in the game's log.
    pub open spec fn can_look_up(&self, message: Seq<char>) -> bool {
        spec_override_game(self.game_id@) && self.event_index is None
            ==> exists|i: int| 0 <= i < self.event_log@.len() && self.event_log@[i].message@ == message
    }

    fn override_bug(&self, message: &str) -> (r: Option<KnownBug<&'static str>>)
        requires
            self.can_look_up(message@),
        ensures
            r == self.spec_override_bug(message@),
    {
        if !is_override_game(self.game_id) {
            return None;
        }
        let index = match self.event_index {
            Some(i) => i,
            None => match first_index(self.event_log, message) {
                Some(i) => {
                    proof {
                        assert(is_first_index_of(self.event_log@, message@, i as int));
                        let k = choose|k: int| is_first_index_of(self.event_log@, message@, k);
                        lemma_first_index_unique(self.event_log@, message@, i as int, k);
                    }
                    i as u16
                },
                None => {
                    proof {
                        let w = choose|w: int| 0 <= w < self.event_log@.len() && self.event_log@[w].message@ == message@;
                        assert(self.event_log@[w].message@ == message@);
                    }
                    return None;
                },
            },
        };
        known_override(self.game_id, index)
    }

    /// `m`, when it writes back to `message` in this context.
    fn accept<'b>(&self, m: ParsedEventMessage<&'b str>, message: &str) -> (r: Option<ParsedEventMessage<&'b str>>)
        ensures
            match r {
                Some(x) => x == m && self.writes(x, message@),
                None => !self.writes(m, message@),
            },
    {
        if !self.is_wf() || !writable(&m) {
            return None;
        }
        let u = self.unparsing_context();
        let s = m.unparse(&u, self.event_index);
        if str_eq(s.as_str(), message) {
            Some(m)
        } else {
            None
        }
    }
}

/// Whether `m` can be written.
fn writable<'b>(m: &ParsedEventMessage<&'b str>) -> (r: bool)
    ensures
        r == m.wf(),
{
    match m {
        ParsedEventMessage::InningStart { number, .. } => *number > 0,
        ParsedEventMessage::InningEnd { number, .. } => *number > 0,
        ParsedEventMessage::GroundedOut { fielders, .. } => fielders.len() > 0,
        ParsedEventMessage::ForceOut { fielders, .. } => fielders.len() > 0,
        ParsedEventMessage::ReachOnFieldersChoice { fielders, .. } => fielders.len() > 0,
        ParsedEventMessage::DoublePlayCaught { fielders, .. } => fielders.len() > 0,
        _ => true,
    }
}

/// "\"PLAY BALL.\""
fn play_ball<'a>(r: &Reader<'a>, ctx: &ParsingContext) -> (res: Option<ParsedEventMessage<&'a str>>)
    requires
        r.wf(),
    ensures
        ctx.read_as(res, r.text@, EventType::PlayBall),
        ctx.wf() && r.text@ == play_ball_text() ==> res == Some(ParsedEventMessage::<&'a str>::PlayBall),
{
    ctx.accept(ParsedEventMessage::PlayBall, r.text)
}

/// One of the messages that end a game.
fn game_over<'a>(r: &Reader<'a>, ctx: &ParsingContext) -> (res: Option<ParsedEventMessage<&'a str>>)
    requires
        r.wf(),
    ensures
        ctx.read_as(res, r.text@, EventType::GameOver),
        forall|g: GameOverMessage| ctx.wf() && r.text@ == g.spec_name()
            ==> res == Some(ParsedEventMessage::<&'a str>::GameOver { message: g }),
{
    proof {
        assert forall|g: GameOverMessage| r.text@ == g.spec_name() implies GameOverMessage::spec_parse(r.text@) == Some(g) by {
            g.lemma_parse_name();
        }
    }
    match GameOverMessage::from_str(r.text) {
        Ok(message) => ctx.accept(ParsedEventMessage::GameOver { message }, r.text),
        Err(_) => None,
    }
}

/// "End of the {side} of the {number}{suffix}."
fn inning_end<'a>(r: &Reader<'a>, ctx: &ParsingContext) -> (res: Option<ParsedEventMessage<&'a str>>)
    requires
        r.wf(),
    ensures
        ctx.read_as(res, r.text@, EventType::InningEnd),
        forall|number: u8, side: TopBottom| ctx.wf() && number > 0 && r.text@ == inning_end_text(number, side)
            ==> res == Some(ParsedEventMessage::<&'a str>::InningEnd { number, side }),
{
    let n = r.len();
    proof {
        reveal_strlit("End of the ");
        assert forall|number: u8, side: TopBottom| r.text@ == inning_end_text(number, side) implies
            11 <= n && r.chars@.subrange(0, 11) == "End of the "@ by {
            assert(r.chars@.subrange(0, 11) =~= "End of the "@);
        }
    }
    let p = r.lit(0, n, "End of the ")?;
    proof {
        reveal_strlit("top");
        reveal_strlit("bottom");
        reveal_strlit("End of the ");
        assert forall|number: u8, side: TopBottom| r.text@ == inning_end_text(number, side) implies
            r.chars@.subrange(0, p + side.spec_name().len()) == "End of the "@ + side.spec_name() by {
            assert(r.chars@.subrange(0, p + side.spec_name().len()) =~= "End of the "@ + side.spec_name());
        }
        assert forall|number: u8, side: TopBottom| r.text@ == inning_end_text(number, side) implies
            p + side.spec_name().len() <= n && r.chars@.subrange(p as int, p + side.spec_name().len()) == side.spec_name() by {
            assert(r.chars@.subrange(p as int, p + side.spec_name().len()) =~= side.spec_name());
        }
        assert forall|number: u8| r.text@ == inning_end_text(number, TopBottom::Bottom) implies
            !(p + 3 <= n && r.chars@.subrange(p as int, p + 3) == "top"@) by {
            assert(r.chars@[p as int] == 'b');
            assert(r.chars@.subrange(p as int, p + 3)[0] == 'b');
        }
    }
    if let Some(q) = r.lit(p, n, TopBottom::Top.as_str()) {
        proof {
            assert(r.chars@.subrange(0, q as int) =~= r.chars@.subrange(0, p as int) + r.chars@.subrange(p as int, q as int));
        }
        if let Some(m) = inning_end_number(r, ctx, q, TopBottom::Top) {
            return Some(m);
        }
    }
    let q = r.lit(p, n, TopBottom::Bottom.as_str())?;
    proof {
        assert(r.chars@.subrange(0, q as int) =~= r.chars@.subrange(0, p as int) + r.chars@.subrange(p as int, q as int));
    }
    inning_end_number(r, ctx, q, TopBottom::Bottom)
}

/// " of the {number}{suffix}." after "End of the {side}", which ends at `q`.
fn inning_end_number<'a>(r: &Reader<'a>, ctx: &ParsingContext, q: usize, side: TopBottom) -> (res: Option<ParsedEventMessage<&'a str>>)
    requires
        r.wf(),
        q <= r.size(),
        r.chars@.subrange(0, q as int) == "End of the "@ + side.spec_name(),
    ensures
        ctx.read_as(res, r.text@, EventType::InningEnd),
        forall|number: u8| ctx.wf() && number > 0 && r.text@ == inning_end_text(number, side)
            ==> res == Some(ParsedEventMessage::<&'a str>::InningEnd { number, side }),
{
    let n = r.len();
    proof {
        reveal_strlit(" of the ");
        assert forall|number: u8| r.text@ == inning_end_text(number, side) implies
            q + 8 <= n && r.chars@.subrange(q as int, q + 8) == " of the "@
            && spec_leading_unsigned(r.chars@.subrange(q + 8, n as int), 255) == Some(number as nat) by {
            let head = "End of the "@ + side.spec_name();
            assert(head.len() == q);
            let d = dec(number as nat);
            let sfx: Seq<char> = if number == 11 || number == 12 || number == 13 {
                "th"@
            } else if number % 10 == 1 {
                "st"@
            } else if number % 10 == 2 {
                "nd"@
            } else if number % 10 == 3 {
                "rd"@
            } else {
                "th"@
            };
            reveal_strlit("th");
            reveal_strlit("st");
            reveal_strlit("nd");
            reveal_strlit("rd");
            reveal_strlit(".");
            assert(end_ordinal(number) == d + sfx);
            assert(r.text@ =~= head + " of the "@ + (d + (sfx + "."@)));
            assert(r.chars@.subrange(q as int, q + 8) =~= " of the "@);
            assert(r.chars@.subrange(q + 8, n as int) =~= d + (sfx + "."@));
            lemma_leading_dec(number, sfx + "."@);
        }
    }
    let p = r.lit(q, n, " of the ")?;
    let (number, _) = r.number(p, n)?;
    ctx.accept(ParsedEventMessage::InningEnd { number, side }, r.text)
}

/// "<strong>🌠 {player} is hit by a Falling Star!</strong>"
fn falling_star<'a>(r: &Reader<'a>, ctx: &ParsingContext) -> (res: Option<ParsedEventMessage<&'a str>>)
    requires
        r.wf(),
    ensures
        ctx.read_as(res, r.text@, EventType::FallingStar),
        forall|name: Seq<char>| ctx.wf() && r.text@ == falling_star_text(name)
            ==> (res matches Some(ParsedEventMessage::FallingStar { player_name }) && player_name@ == name),
{
    let n = r.len();
    let prefix = "<strong>🌠 ";
    let suffix = " is hit by a Falling Star!</strong>";
    let lp = prefix.unicode_len();
    let l = suffix.unicode_len();
    proof {
        assert forall|name: Seq<char>| r.text@ == falling_star_text(name) implies
            r.chars@.subrange(0, lp as int) == prefix@ && lp + l <= n
            && r.chars@.subrange(n - l, n as int) == suffix@
            && r.chars@.subrange(lp as int, n - l) == name by {
            assert(r.chars@.subrange(0, lp as int) =~= prefix@);
            assert(r.chars@.subrange(n - l, n as int) =~= suffix@);
            assert(r.chars@.subrange(lp as int, n - l) =~= name);
        }
    }
    let p = r.lit(0, n, prefix)?;
    if n - p < l || !r.is(n - l, n, suffix) {
        return None;
    }
    let player_name = r.slice(p, n - l);
    proof {
        assert(r.text@ =~= prefix@ + player_name@ + suffix@);
    }
    ctx.accept(ParsedEventMessage::FallingStar { player_name }, r.text)
}

/// "Now batting: {batter}", then the batter's statistics in brackets, if any.
fn now_batting<'a>(r: &Reader<'a>, ctx: &ParsingContext) -> (res: Option<ParsedEventMessage<&'a str>>)
    requires
        r.wf(),
    ensures
        ctx.read_as(res, r.text@, EventType::NowBatting),
        forall|name: Seq<char>| ctx.wf() && no_brackets(name) && r.text@ == "Now batting: "@ + name
            ==> (res matches Some(ParsedEventMessage::NowBatting { batter, stats }) && batter@ == name && stats is NoStats),
        forall|name: Seq<char>| ctx.wf() && no_brackets(name) && r.text@ == "Now batting: "@ + name + " (1st PA of game)"@
            ==> (res matches Some(ParsedEventMessage::NowBatting { batter, stats }) && batter@ == name && stats is FirstPA),
        forall|name: Seq<char>, stats: Seq<BatterStat>| ctx.wf() && no_brackets(name) && stats.len() >= 1
            && r.text@ == #[trigger] now_batting_stats_text(name, stats)
            ==> (res matches Some(ParsedEventMessage::NowBatting { batter, stats: NowBattingStats::Stats(v) })
                && batter@ == name && v@ == stats),
{
    let n = r.len();
    let prefix = "Now batting: ";
    let lp = prefix.unicode_len();
    proof {
        reveal_strlit(")");
        reveal_strlit(" (");
        reveal_strlit(" (1st PA of game)");
        reveal_strlit("1st PA of game");
        assert forall|name: Seq<char>| r.text@ == prefix@ + name implies
            lp <= n && r.chars@.subrange(0, lp as int) == prefix@ && r.chars@.subrange(lp as int, n as int) == name by {
            assert(r.chars@.subrange(0, lp as int) =~= prefix@);
            assert(r.chars@.subrange(lp as int, n as int) =~= name);
        }
        assert forall|name: Seq<char>| r.text@ == prefix@ + name + " (1st PA of game)"@ implies
            lp <= n && r.chars@.subrange(0, lp as int) == prefix@ by {
            assert(r.chars@.subrange(0, lp as int) =~= prefix@);
        }
        assert forall|name: Seq<char>| no_brackets(name) && r.text@ == prefix@ + name implies
            !(n > lp && r.chars@.subrange(n - 1, n as int) == ")"@) by {
            if n > lp {
                assert(r.chars@[n - 1] == name[name.len() - 1]);
                assert(r.chars@.subrange(n - 1, n as int)[0] == r.chars@[n - 1]);
            }
        }
        assert forall|name: Seq<char>| no_brackets(name) && r.text@ == prefix@ + name + " (1st PA of game)"@ implies ({
            let q = lp + name.len();
            &&& n > lp && r.chars@.subrange(n - 1, n as int) == ")"@
            &&& q + 2 <= n - 1 && occurs_at(r.chars@, q, " ("@)
            &&& forall|k: int| lp <= k < q ==> !#[trigger] occurs_at(r.chars@, k, " ("@)
            &&& r.chars@.subrange(q + 2, n - 1) == "1st PA of game"@
            &&& r.text@.subrange(lp as int, q) == name
        }) by {
            let q = lp + name.len();
            assert(r.chars@.subrange(n - 1, n as int) =~= ")"@);
            assert(r.chars@.subrange(q, q + 2) =~= " ("@);
            assert(r.chars@.subrange(q + 2, n - 1) =~= "1st PA of game"@);
            assert(r.text@.subrange(lp as int, q) =~= name);
            assert forall|k: int| lp <= k < q implies !#[trigger] occurs_at(r.chars@, k, " ("@) by {
                if k + 1 < q {
                    assert(r.chars@[k + 1] == name[k + 1 - lp]);
                } else {
                    assert(r.chars@[k + 1] == ' ');
                }
                if occurs_at(r.chars@, k, " ("@) {
                    assert(r.chars@.subrange(k, k + 2)[1] == r.chars@[k + 1]);
                }
            }
        }
    }
    proof {
        reveal_strlit("1st PA of game");
        assert forall|name: Seq<char>, stats: Seq<BatterStat>| no_brackets(name) && stats.len() >= 1
            && r.text@ == #[trigger] now_batting_stats_text(name, stats) implies ({
            let q = lp + name.len();
            &&& lp <= n && r.chars@.subrange(0, lp as int) == prefix@
            &&& n > lp && r.chars@.subrange(n - 1, n as int) == ")"@
            &&& q + 2 <= n - 1 && occurs_at(r.chars@, q, " ("@)
            &&& forall|k: int| lp <= k < q ==> !#[trigger] occurs_at(r.chars@, k, " ("@)
            &&& r.chars@.subrange(q + 2, n - 1) == stats_text(stats)
            &&& r.chars@.subrange(q + 2, n - 1) != "1st PA of game"@
            &&& r.text@.subrange(lp as int, q) == name
        }) by {
            let q = lp + name.len();
            let st = stats_text(stats);
            assert(r.chars@.subrange(0, lp as int) =~= prefix@);
            assert(r.chars@.subrange(n - 1, n as int) =~= ")"@);
            assert(r.chars@.subrange(q, q + 2) =~= " ("@);
            assert(r.chars@.subrange(q + 2, n - 1) =~= st);
            assert(r.text@.subrange(lp as int, q) =~= name);
            crate::stats::lemma_stat_text_shape(stats[0]);
            if stats.len() >= 2 {
                crate::stats::lemma_stats_text_first(stats);
            }
            assert(st[1] == stats[0].spec_text()[1]);
            assert("1st PA of game"@[1] == 's');
            assert forall|k: int| lp <= k < q implies !#[trigger] occurs_at(r.chars@, k, " ("@) by {
                if k + 1 < q {
                    assert(r.chars@[k + 1] == name[k + 1 - lp]);
                } else {
                    assert(r.chars@[k + 1] == ' ');
                }
                if occurs_at(r.chars@, k, " ("@) {
                    assert(r.chars@.subrange(k, k + 2)[1] == r.chars@[k + 1]);
                }
            }
        }
    }
    let p = r.lit(0, n, prefix)?;
    if n > p && r.is(n - 1, n, ")") {
        if let Some(q) = r.find(p, n - 1, " (") {
            let batter = r.slice(p, q);
            let s = r.lit(q, n - 1, " (")?;
            let read = if r.is(s, n - 1, "1st PA of game") {
                Some(NowBattingStats::FirstPA)
            } else {
                match batter_stats(r, s, n - 1) {
                    Some(v) => Some(NowBattingStats::Stats(v)),
                    None => None,
                }
            };
            if let Some(stats) = read {
                let m = ParsedEventMessage::NowBatting { batter, stats };
                proof {
                    if stats is Stats {
                        let c = r.chars@;
                        assert(c =~= c.subrange(0, p as int) + c.subrange(p as int, q as int) + c.subrange(q as int, s as int)
                            + c.subrange(s as int, n - 1) + c.subrange(n - 1, n as int));
                        assert(forall|name: Seq<char>, st: Seq<BatterStat>| no_brackets(name) && st.len() >= 1
                            && r.text@ == #[trigger] now_batting_stats_text(name, st)
                            ==> r.text@ =~= prefix@ + batter@ + stats.spec_text());
                    }
                    if stats is FirstPA {
                        let c = r.chars@;
                        assert(c =~= c.subrange(0, p as int) + c.subrange(p as int, q as int) + c.subrange(q as int, s as int)
                            + c.subrange(s as int, n - 1) + c.subrange(n - 1, n as int));
                        assert(" ("@ + "1st PA of game"@ + ")"@ =~= " (1st PA of game)"@);
                        assert(r.text@ =~= prefix@ + batter@ + " (1st PA of game)"@);
                    }
                }
                if let Some(m) = ctx.accept(m, r.text) {
                    return Some(m);
                }
            }
        }
    }
    let batter = r.slice(p, n);
    proof {
        assert(r.text@ =~= prefix@ + batter@);
    }
    ctx.accept(ParsedEventMessage::NowBatting { batter, stats: NowBattingStats::NoStats }, r.text)
}

/// The message of `name` coming up to bat with the statistics `stats`.
pub open spec fn now_batting_stats_text(name: Seq<char>, stats: Seq<BatterStat>) -> Seq<char> {
    "Now batting: "@ + name + " ("@ + stats_text(stats) + ")"@
}

/// Statistics separated by ", ", filling `a..b`.
fn batter_stats(r: &Reader, a: usize, b: usize) -> (res: Option<Vec<BatterStat>>)
    requires
        r.wf(),
        a <= b <= r.size(),
    ensures
        forall|stats: Seq<BatterStat>| stats.len() >= 1 && r.chars@.subrange(a as int, b as int) == #[trigger] stats_text(stats)
            ==> (res matches Some(v) && v@ == stats),
{
    let mut out: Vec<BatterStat> = Vec::new();
    let mut p = a;
    proof {
        assert forall|stats: Seq<BatterStat>| stats.len() >= 1 && r.chars@.subrange(a as int, b as int) == #[trigger] stats_text(stats)
            implies stats.skip(0) == stats && stats.take(0) == Seq::<BatterStat>::empty() by {
            assert(stats.skip(0) =~= stats);
            assert(stats.take(0) =~= Seq::<BatterStat>::empty());
        }
    }
    loop
        invariant
            r.wf(),
            a <= p <= b <= r.size(),
            forall|stats: Seq<BatterStat>| stats.len() >= 1 && r.chars@.subrange(a as int, b as int) == #[trigger] stats_text(stats)
                ==> (out@.len() < stats.len() && out@ == stats.take(out@.len() as int)
                    && r.chars@.subrange(p as int, b as int) == stats_text(stats.skip(out@.len() as int))),
        decreases b - p,
    {
        proof {
            reveal_strlit(", ");
            assert forall|stats: Seq<BatterStat>| stats.len() >= 1 && r.chars@.subrange(a as int, b as int) == #[trigger] stats_text(stats)
                implies ({
                    let t = stats.skip(out@.len() as int);
                    let l = t[0].spec_text().len();
                    &&& t.len() == 1 ==> (forall|k: int| p <= k && k + 2 <= b ==> !#[trigger] occurs_at(r.chars@, k, ", "@))
                        && r.text@.subrange(p as int, b as int) == t[0].spec_text()
                    &&& t.len() >= 2 ==> occurs_at(r.chars@, p + l, ", "@)
                        && (forall|k: int| p <= k < p + l ==> !#[trigger] occurs_at(r.chars@, k, ", "@))
                        && p + l + 2 <= b
                        && r.text@.subrange(p as int, p + l) == t[0].spec_text()
                        && r.chars@.subrange(p + l + 2, b as int) == stats_text(t.drop_first())
                }) by {
                let t = stats.skip(out@.len() as int);
                let w = t[0].spec_text();
                crate::stats::lemma_stat_text_shape(t[0]);
                let c = r.chars@;
                if t.len() == 1 {
                    assert(stats_text(t) == w);
                    assert forall|k: int| p <= k && k + 2 <= b implies !#[trigger] occurs_at(c, k, ", "@) by {
                        if occurs_at(c, k, ", "@) {
                            assert(c.subrange(k, k + 2)[0] == c[k]);
                            assert(c.subrange(p as int, b as int)[k - p] == c[k]);
                        }
                    }
                } else {
                    crate::stats::lemma_stats_text_first(t);
                    let rest = stats_text(t.drop_first());
                    assert(c.subrange(p as int, b as int) == w + ", "@ + rest);
                    assert(c.subrange(p as int, p + w.len() + 2) =~= w + ", "@);
                    assert forall|i: int| 0 <= i < w.len() implies !#[trigger] occurs_at(w + ", "@, i, ", "@) by {
                        if occurs_at(w + ", "@, i, ", "@) {
                            assert((w + ", "@).subrange(i, i + 2)[0] == w[i]);
                        }
                    }
                    crate::text::lemma_stops_after(c, p as int, w, ", "@);
                    assert(r.text@.subrange(p as int, p + w.len()) =~= w);
                    let sub = c.subrange(p as int, b as int);
                    assert(c.subrange(p + w.len() + 2, b as int) =~= sub.subrange(w.len() + 2int, sub.len() as int));
                    assert(sub.subrange(w.len() + 2int, sub.len() as int) =~= rest);
                }
            }
        }
        let q = match r.find(p, b, ", ") {
            Some(q) => q,
            None => b,
        };
        let stat = match BatterStat::from_str(r.slice(p, q)) {
            Ok(stat) => stat,
            Err(_) => {
                proof {
                    assert forall|stats: Seq<BatterStat>| stats.len() >= 1 && r.chars@.subrange(a as int, b as int) == #[trigger] stats_text(stats)
                        implies false by {
                        let t = stats.skip(out@.len() as int);
                        t[0].lemma_parse_text();
                        if t.len() >= 2 {
                            let l = t[0].spec_text().len();
                            assert(occurs_at(r.chars@, p + l, ", "@));
                            if q < p + l {
                                assert(!occurs_at(r.chars@, q as int, ", "@));
                            }
                        }
                    }
                }
                return None;
            },
        };
        let ghost before = out@;
        out.push(stat);
        proof {
            assert forall|stats: Seq<BatterStat>| stats.len() >= 1 && r.chars@.subrange(a as int, b as int) == #[trigger] stats_text(stats)
                implies stat == stats[before.len() as int] && out@ == stats.take(out@.len() as int)
                && (q == b <==> stats.len() == out@.len()) by {
                let t = stats.skip(before.len() as int);
                t[0].lemma_parse_text();
                crate::stats::lemma_stat_text_shape(t[0]);
                if t.len() >= 2 {
                    let l = t[0].spec_text().len();
                    assert(occurs_at(r.chars@, p + l, ", "@));
                    if q < p + l {
                        assert(!occurs_at(r.chars@, q as int, ", "@));
                    }
                    if q > p + l {
                        assert(!occurs_at(r.chars@, p + l, ", "@));
                    }
                }
                assert(t[0] == stats[before.len() as int]);
                assert(out@ =~= stats.take(out@.len() as int));
            }
        }
        if q == b {
            proof {
                assert forall|stats: Seq<BatterStat>| stats.len() >= 1 && r.chars@.subrange(a as int, b as int) == #[trigger] stats_text(stats)
                    implies out@ == stats by {
                    assert(stats.take(out@.len() as int) =~= stats);
                }
            }
            return Some(out);
        }
        let p2 = match r.lit(q, b, ", ") {
            Some(p2) => p2,
            None => return None,
        };
        proof {
            assert forall|stats: Seq<BatterStat>| stats.len() >= 1 && r.chars@.subrange(a as int, b as int) == #[trigger] stats_text(stats)
                implies r.chars@.subrange(p2 as int, b as int) == stats_text(stats.skip(out@.len() as int)) by {
                let t = stats.skip(before.len() as int);
                assert(t.drop_first() =~= stats.skip(out@.len() as int));
            }
        }
        p = p2;
    }
}

/// The message of the team `we` `wn` defeating the team `le` `ln` by `ws` to `ls`.
pub open spec fn recordkeeping_text(we: Seq<char>, wn: Seq<char>, le: Seq<char>, ln: Seq<char>, ws: u8, ls: u8) -> Seq<char> {
    we + " "@ + wn + " defeated "@ + le + " "@ + ln + ". Final score: "@ + score_text(ws, ls)
}

/// Whether the names of the teams in a final score can be told from what
/// follows them: each emoji is a word, " defeated " occurs after the winner
/// only where it ends, and ". Final score: " after the loser.
pub open spec fn result_names(we: Seq<char>, wn: Seq<char>, le: Seq<char>, ln: Seq<char>) -> bool {
    &&& no_space(we)
    &&& no_space(le)
    &&& stops_after(we + " "@ + wn, " defeated "@)
    &&& stops_after(le + " "@ + ln, ". Final score: "@)
}

/// "{winner} defeated {loser}. Final score: {winning score}-{losing score}"
fn recordkeeping<'a>(r: &Reader<'a>, ctx: &ParsingContext) -> (res: Option<ParsedEventMessage<&'a str>>)
    requires
        r.wf(),
    ensures
        ctx.read_as(res, r.text@, EventType::Recordkeeping),
        forall|we: Seq<char>, wn: Seq<char>, le: Seq<char>, ln: Seq<char>, ws: u8, ls: u8|
            ctx.wf() && result_names(we, wn, le, ln) && r.text@ == #[trigger] recordkeeping_text(we, wn, le, ln, ws, ls)
            ==> (res matches Some(ParsedEventMessage::Recordkeeping { winning_team, losing_team, winning_score, losing_score })
                && winning_team.emoji@ == we && winning_team.name@ == wn && losing_team.emoji@ == le
                && losing_team.name@ == ln && winning_score == ws && losing_score == ls),
{
    let n = r.len();
    proof {
        reveal_strlit(" defeated ");
        reveal_strlit(". Final score: ");
        reveal_strlit(" ");
        assert forall|we: Seq<char>, wn: Seq<char>, le: Seq<char>, ln: Seq<char>, ws: u8, ls: u8|
            result_names(we, wn, le, ln) && r.text@ == #[trigger] recordkeeping_text(we, wn, le, ln, ws, ls)
            implies r.team_then_at(0, n as int, we, wn, " defeated "@) by {
            let w = we + " "@ + wn;
            assert(r.text@.subrange(0, w.len() + 10int) =~= w + " defeated "@);
        }
    }
    let (winning_team, p) = r.team_until(0, n, " defeated ")?;
    proof {
        assert forall|we: Seq<char>, wn: Seq<char>, le: Seq<char>, ln: Seq<char>, ws: u8, ls: u8|
            result_names(we, wn, le, ln) && p == (we + " "@ + wn).len() + 10
            && r.text@ == #[trigger] recordkeeping_text(we, wn, le, ln, ws, ls)
            implies r.team_then_at(p as int, n as int, le, ln, ". Final score: "@) by {
            let w = le + " "@ + ln;
            assert(r.text@.subrange(p as int, p + w.len() + 15) =~= w + ". Final score: "@);
        }
    }
    let (losing_team, q) = r.team_until(p, n, ". Final score: ")?;
    proof {
        assert forall|we: Seq<char>, wn: Seq<char>, le: Seq<char>, ln: Seq<char>, ws: u8, ls: u8|
            result_names(we, wn, le, ln) && p == (we + " "@ + wn).len() + 10
            && q == p + (le + " "@ + ln).len() + 15
            && r.text@ == #[trigger] recordkeeping_text(we, wn, le, ln, ws, ls)
            implies r.chars@.subrange(q as int, n as int) == score_text(ws, ls) by {
            assert(r.chars@.subrange(q as int, n as int) =~= score_text(ws, ls));
        }
    }
    let (winning_score, losing_score) = r.score(q, n)?;
    proof {
        assert forall|we: Seq<char>, wn: Seq<char>, le: Seq<char>, ln: Seq<char>, ws: u8, ls: u8|
            ctx.wf() && result_names(we, wn, le, ln) && winning_team.emoji@ == we && winning_team.name@ == wn
            && losing_team.emoji@ == le && losing_team.name@ == ln
            && p == (we + " "@ + wn).len() + 10 && q == p + (le + " "@ + ln).len() + 15
            && r.text@ == #[trigger] recordkeeping_text(we, wn, le, ln, ws, ls)
            implies winning_score == ws && losing_score == ls
            && ctx.writes(ParsedEventMessage::<&'a str>::Recordkeeping { winning_team, losing_team, winning_score, losing_score }, r.text@) by {
            assert(r.chars@.subrange(q as int, n as int) == score_text(ws, ls));
            assert(winning_score == ws && losing_score == ls);
            let m = ParsedEventMessage::<&'a str>::Recordkeeping { winning_team, losing_team, winning_score, losing_score };
            assert(m.wf());
            assert(m.spec_unparse(ctx.spec_unparsing(), ctx.event_index) == m.spec_recordkeeping_text(ctx.spec_unparsing(), ctx.event_index));
            assert(m.spec_recordkeeping_text(ctx.spec_unparsing(), ctx.event_index) =~= r.text@);
        }
    }
    ctx.accept(ParsedEventMessage::Recordkeeping { winning_team, losing_team, winning_score, losing_score }, r.text)
}

/// The message announcing the game of the away team `ae` `an` at the home team
/// `he` `hn` in the stadium `stadium`, as written from season 3.
pub open spec fn live_now_text(ae: Seq<char>, an: Seq<char>, he: Seq<char>, hn: Seq<char>, stadium: Seq<char>) -> Seq<char> {
    ae + " "@ + an + " vs "@ + he + " "@ + hn + " @ "@ + stadium
}

/// The message announcing the game of the away team `ae` `an` at the home team
/// `he` `hn`, as written before season 3.
pub open spec fn old_live_now_text(ae: Seq<char>, an: Seq<char>, he: Seq<char>, hn: Seq<char>) -> Seq<char> {
    ae + " "@ + an + " @ "@ + he + " "@ + hn
}

/// Whether the names of teams announced in a message of the form of `context`
/// and `event_index` can be told from what separates them: " vs " occurs after
/// the away team only where it ends, and so does " @ " after the team before it.
pub open spec fn live_now_names<T: Text>(context: UnparsingContext<T>, event_index: Option<u16>,
    ae: Seq<char>, an: Seq<char>, he: Seq<char>, hn: Seq<char>) -> bool {
    &&& no_space(ae)
    &&& no_space(he)
    &&& if Breakpoints::Season3.spec_before(context.season, context.day, event_index) {
        stops_after(ae + " "@ + an, " @ "@)
    } else {
        stops_after(ae + " "@ + an, " vs "@) && stops_after(he + " "@ + hn, " @ "@)
    }
}

/// "{away} vs {home} @ {stadium}" from season 3, "{away} @ {home}" before.
fn live_now<'a>(r: &Reader<'a>, ctx: &ParsingContext) -> (res: Option<ParsedEventMessage<&'a str>>)
    requires
        r.wf(),
    ensures
        ctx.read_as(res, r.text@, EventType::LiveNow),
        forall|ae: Seq<char>, an: Seq<char>, he: Seq<char>, hn: Seq<char>, stadium: Seq<char>|
            ctx.wf() && live_now_names(ctx.spec_unparsing(), ctx.event_index, ae, an, he, hn)
            && !Breakpoints::Season3.spec_before(ctx.season, ctx.day, ctx.event_index)
            && r.text@ == #[trigger] live_now_text(ae, an, he, hn, stadium)
            ==> (res matches Some(ParsedEventMessage::LiveNow { away_team, home_team, stadium: Some(st) })
                && away_team.emoji@ == ae && away_team.name@ == an && home_team.emoji@ == he
                && home_team.name@ == hn && st@ == stadium),
        forall|ae: Seq<char>, an: Seq<char>, he: Seq<char>, hn: Seq<char>|
            ctx.wf() && live_now_names(ctx.spec_unparsing(), ctx.event_index, ae, an, he, hn)
            && Breakpoints::Season3.spec_before(ctx.season, ctx.day, ctx.event_index)
            && r.text@ == #[trigger] old_live_now_text(ae, an, he, hn)
            ==> (res matches Some(ParsedEventMessage::LiveNow { away_team, home_team, stadium: None })
                && away_team.emoji@ == ae && away_team.name@ == an && home_team.emoji@ == he
                && home_team.name@ == hn),
{
    if !ctx.is_wf() {
        return None;
    }
    let n = r.len();
    proof {
        reveal_strlit(" vs ");
        reveal_strlit(" @ ");
        reveal_strlit(" ");
    }
    if ctx.after(Breakpoints::Season3) {
        proof {
            assert forall|ae: Seq<char>, an: Seq<char>, he: Seq<char>, hn: Seq<char>, stadium: Seq<char>|
                live_now_names(ctx.spec_unparsing(), ctx.event_index, ae, an, he, hn)
                && r.text@ == #[trigger] live_now_text(ae, an, he, hn, stadium)
                implies r.team_then_at(0, n as int, ae, an, " vs "@) by {
                let w = ae + " "@ + an;
                assert(r.text@.subrange(0, w.len() + 4int) =~= w + " vs "@);
            }
        }
        let (away_team, p) = r.team_until(0, n, " vs ")?;
        proof {
            assert forall|ae: Seq<char>, an: Seq<char>, he: Seq<char>, hn: Seq<char>, stadium: Seq<char>|
                live_now_names(ctx.spec_unparsing(), ctx.event_index, ae, an, he, hn)
                && away_team.emoji@ == ae && away_team.name@ == an
                && p == (ae + " "@ + an).len() + 4
                && r.text@ == #[trigger] live_now_text(ae, an, he, hn, stadium)
                implies r.team_then_at(p as int, n as int, he, hn, " @ "@) by {
                let w = he + " "@ + hn;
                assert(r.text@.subrange(p as int, p + w.len() + 3) =~= w + " @ "@);
            }
        }
        let (home_team, q) = r.team_until(p, n, " @ ")?;
        let stadium = r.slice(q, n);
        proof {
            let c = r.text@;
            assert(c =~= c.subrange(0, p as int) + c.subrange(p as int, q as int) + c.subrange(q as int, n as int));
            assert(c =~= away_team.spec_text() + " vs "@ + home_team.spec_text() + " @ "@ + stadium@);
            assert forall|ae: Seq<char>, an: Seq<char>, he: Seq<char>, hn: Seq<char>, st: Seq<char>|
                live_now_names(ctx.spec_unparsing(), ctx.event_index, ae, an, he, hn)
                && away_team.emoji@ == ae && away_team.name@ == an
                && home_team.emoji@ == he && home_team.name@ == hn
                && p == (ae + " "@ + an).len() + 4 && q == p + (he + " "@ + hn).len() + 3
                && r.text@ == #[trigger] live_now_text(ae, an, he, hn, st)
                implies stadium@ == st by {
                assert(stadium@ =~= st);
            }
        }
        ctx.accept(ParsedEventMessage::LiveNow { away_team, home_team, stadium: Some(stadium) }, r.text)
    } else {
        proof {
            assert forall|ae: Seq<char>, an: Seq<char>, he: Seq<char>, hn: Seq<char>|
                live_now_names(ctx.spec_unparsing(), ctx.event_index, ae, an, he, hn)
                && Breakpoints::Season3.spec_before(ctx.season, ctx.day, ctx.event_index)
                && r.text@ == #[trigger] old_live_now_text(ae, an, he, hn)
                implies r.team_then_at(0, n as int, ae, an, " @ "@) by {
                let w = ae + " "@ + an;
                assert(r.text@.subrange(0, w.len() + 3int) =~= w + " @ "@);
            }
        }
        let (away_team, p) = r.team_until(0, n, " @ ")?;
        proof {
            let c = r.text@;
            assert forall|ae: Seq<char>, an: Seq<char>, he: Seq<char>, hn: Seq<char>|
                live_now_names(ctx.spec_unparsing(), ctx.event_index, ae, an, he, hn)
                && p == (ae + " "@ + an).len() + 3
                && r.text@ == #[trigger] old_live_now_text(ae, an, he, hn)
                implies !no_space(c.subrange(p as int, n as int)) by {
                assert(c.subrange(p as int, n as int) =~= he + " "@ + hn);
                assert(c.subrange(p as int, n as int)[he.len() as int] == ' ');
            }
        }
        let home_team = r.emoji_team(p, n)?;
        proof {
            let c = r.text@;
            assert(c =~= c.subrange(0, p as int) + c.subrange(p as int, n as int));
            assert(c =~= away_team.spec_text() + " @ "@ + home_team.spec_text());
            assert forall|ae: Seq<char>, an: Seq<char>, he: Seq<char>, hn: Seq<char>|
                live_now_names(ctx.spec_unparsing(), ctx.event_index, ae, an, he, hn)
                && away_team.emoji@ == ae && away_team.name@ == an
                && p == (ae + " "@ + an).len() + 3
                && r.text@ == #[trigger] old_live_now_text(ae, an, he, hn)
                implies home_team.emoji@ == he && home_team.name@ == hn by {
                assert(c.subrange(p as int, n as int) =~= he + " "@ + hn);
                crate::reader::lemma_first_space_split(home_team.emoji@, home_team.name@, he, hn);
            }
        }
        ctx.accept(ParsedEventMessage::LiveNow { away_team, home_team, stadium: None }, r.text)
    }
}

/// The message of the pitchers `ap` of the team written `away` and `hp` of the
/// team written `home` facing each other.
pub open spec fn matchup_text(away: Seq<char>, ap: Seq<char>, home: Seq<char>, hp: Seq<char>) -> Seq<char> {
    away + " "@ + ap + " vs. "@ + home + " "@ + hp
}

/// "{away team} {away pitcher} vs. {home team} {home pitcher}"
fn pitching_matchup<'a>(r: &Reader<'a>, ctx: &ParsingContext) -> (res: Option<ParsedEventMessage<&'a str>>)
    requires
        r.wf(),
    ensures
        ctx.read_as(res, r.text@, EventType::PitchingMatchup),
        forall|ap: Seq<char>, hp: Seq<char>| ctx.wf() && stops_after(ap, " vs. "@)
            && r.text@ == #[trigger] matchup_text(ctx.away_emoji_team.spec_text(), ap, ctx.home_emoji_team.spec_text(), hp)
            ==> (res matches Some(ParsedEventMessage::PitchingMatchup { away_team, home_team, home_pitcher, away_pitcher })
                && away_team.emoji@ == ctx.away_emoji_team.emoji@ && away_team.name@ == ctx.away_emoji_team.name@
                && home_team.emoji@ == ctx.home_emoji_team.emoji@ && home_team.name@ == ctx.home_emoji_team.name@
                && away_pitcher@ == ap && home_pitcher@ == hp),
{
    let n = r.len();
    let ghost away = ctx.away_emoji_team.spec_text();
    let ghost home = ctx.home_emoji_team.spec_text();
    proof {
        reveal_strlit(" ");
        reveal_strlit(" vs. ");
        assert forall|ap: Seq<char>, hp: Seq<char>| r.text@ == #[trigger] matchup_text(away, ap, home, hp)
            implies away.len() <= n && r.text@.subrange(0, away.len() as int) == away by {
            assert(r.text@.subrange(0, away.len() as int) =~= away);
        }
    }
    let (away_team, p) = r.team(0, n, &ctx.away_emoji_team)?;
    proof {
        assert forall|ap: Seq<char>, hp: Seq<char>| r.text@ == #[trigger] matchup_text(away, ap, home, hp)
            implies p + 1 <= n && r.chars@.subrange(p as int, p + 1) == " "@ by {
            assert(r.chars@.subrange(p as int, p + 1) =~= " "@);
        }
    }
    let p = r.lit(p, n, " ")?;
    proof {
        assert forall|ap: Seq<char>, hp: Seq<char>| stops_after(ap, " vs. "@) && r.text@ == #[trigger] matchup_text(away, ap, home, hp)
            implies occurs_at(r.chars@, p + ap.len(), " vs. "@)
            && (forall|k: int| p <= k < p + ap.len() ==> !#[trigger] occurs_at(r.chars@, k, " vs. "@))
            && p + ap.len() + 5 <= n by {
            assert(r.chars@.subrange(p as int, p + ap.len() + 5) =~= ap + " vs. "@);
            crate::text::lemma_stops_after(r.chars@, p as int, ap, " vs. "@);
        }
    }
    let (away_pitcher, p2) = match r.until(p, n, " vs. ") {
        Some(x) => x,
        None => {
            proof {
                assert forall|ap: Seq<char>, hp: Seq<char>| stops_after(ap, " vs. "@) && r.text@ == #[trigger] matchup_text(away, ap, home, hp)
                    implies false by {
                    assert(occurs_at(r.chars@, p + ap.len(), " vs. "@));
                }
            }
            return None;
        },
    };
    proof {
        assert forall|ap: Seq<char>, hp: Seq<char>| stops_after(ap, " vs. "@) && r.text@ == #[trigger] matchup_text(away, ap, home, hp)
            implies p2 == p + ap.len() + 5 && away_pitcher@ == ap
            && p2 + home.len() <= n && r.text@.subrange(p2 as int, p2 + home.len()) == home by {
            let k = p + ap.len();
            assert(occurs_at(r.chars@, k, " vs. "@));
            if p2 - 5 < k {
                assert(!occurs_at(r.chars@, p2 - 5, " vs. "@));
            }
            if p2 - 5 > k {
                assert(!occurs_at(r.chars@, k, " vs. "@));
            }
            assert(away_pitcher@ =~= ap);
            assert(r.text@.subrange(p2 as int, p2 + home.len()) =~= home);
        }
    }
    let (home_team, p) = r.team(p2, n, &ctx.home_emoji_team)?;
    proof {
        assert forall|ap: Seq<char>, hp: Seq<char>| stops_after(ap, " vs. "@) && r.text@ == #[trigger] matchup_text(away, ap, home, hp)
            implies p + 1 <= n && r.chars@.subrange(p as int, p + 1) == " "@ by {
            assert(r.chars@.subrange(p as int, p + 1) =~= " "@);
        }
    }
    let p = r.lit(p, n, " ")?;
    let home_pitcher = r.slice(p, n);
    proof {
        assert forall|ap: Seq<char>, hp: Seq<char>| stops_after(ap, " vs. "@) && r.text@ == #[trigger] matchup_text(away, ap, home, hp)
            implies home_pitcher@ == hp by {
            assert(home_pitcher@ =~= hp);
        }
    }
    ctx.accept(ParsedEventMessage::PitchingMatchup { away_team, home_team, home_pitcher, away_pitcher }, r.text)
}

/// The entry of the `k`-th player of a lineup (from 0): its number, the
/// player's place and name, and a line break.
pub open spec fn lineup_entry(ps: Seq<(Place, Seq<char>)>, k: int) -> Seq<char> {
    dec((k + 1) as nat) + ". "@ + ps[k].0.spec_name() + " "@ + ps[k].1 + "<br>"@
}

/// The entries of a lineup from the `k`-th on.
pub open spec fn lineup_entries(ps: Seq<(Place, Seq<char>)>, k: int) -> Seq<char>
    decreases ps.len() - k,
{
    if k < 0 || k >= ps.len() {
        Seq::empty()
    } else {
        lineup_entry(ps, k) + lineup_entries(ps, k + 1)
    }
}

/// Whether a lineup of the players `ps` can be read back: it numbers at most
/// 255 players, and "<br>" occurs in each entry only at its end.
pub open spec fn lineup_readable(ps: Seq<(Place, Seq<char>)>) -> bool {
    &&& ps.len() <= 255
    &&& forall|k: int| 0 <= k < ps.len() ==> stops_after(#[trigger] ps[k].0.spec_name() + " "@ + ps[k].1, "<br>"@)
}

/// Whether the players `players` are the places and names `ps`.
pub open spec fn same_players<S: Text>(players: Seq<PlacedPlayer<S>>, ps: Seq<(Place, Seq<char>)>) -> bool {
    &&& players.len() == ps.len()
    &&& forall|k: int| 0 <= k < ps.len() ==> #[trigger] players[k].place == ps[k].0 && players[k].name@ == ps[k].1
}

/// The entries from the `k`-th on end with the last entry.
proof fn lemma_lineup_entries_last(ps: Seq<(Place, Seq<char>)>, k: int)
    requires
        0 <= k < ps.len(),
    ensures
        lineup_entries(ps, k) == lineup_entries(ps.drop_last(), k) + lineup_entry(ps, ps.len() - 1),
    decreases ps.len() - k,
{
    let d = ps.drop_last();
    if k == ps.len() - 1 {
        assert(lineup_entries(ps, k + 1) == Seq::<char>::empty());
        assert(lineup_entries(d, k) == Seq::<char>::empty());
        assert(lineup_entries(ps, k) =~= lineup_entry(ps, k));
    } else {
        lemma_lineup_entries_last(ps, k + 1);
        assert(d[k] == ps[k]);
        assert(lineup_entry(d, k) == lineup_entry(ps, k));
        assert(lineup_entries(ps, k) =~= lineup_entry(ps, k) + lineup_entries(d, k + 1) + lineup_entry(ps, ps.len() - 1));
    }
}

/// A lineup of players written one after another is their entries.
proof fn lemma_lineup_text<S: Text>(players: Seq<PlacedPlayer<S>>, ps: Seq<(Place, Seq<char>)>)
    requires
        same_players(players, ps),
    ensures
        lineup_text(players) == lineup_entries(ps, 0),
    decreases players.len(),
{
    if players.len() > 0 {
        let l = players.len() - 1;
        assert(same_players(players.drop_last(), ps.drop_last()));
        lemma_lineup_text(players.drop_last(), ps.drop_last());
        lemma_lineup_entries_last(ps, 0);
        assert(players.last().place == ps[l].0 && players.last().name@ == ps[l].1);
        assert(lineup_text(players) =~= lineup_entries(ps.drop_last(), 0) + lineup_entry(ps, l));
    }
}

/// What the text of a lineup holds from `p`, where the entries from the `i`-th
/// on start: the number, ". ", the player up to the first "<br>", and the rest.
pub open spec fn lineup_step(c: Seq<char>, p: int, ps: Seq<(Place, Seq<char>)>, i: int) -> bool {
    let n = c.len() as int;
    let w = ps[i].0.spec_name() + " "@ + ps[i].1;
    let d = dec((i + 1) as nat);
    &&& i < ps.len()
    &&& spec_leading_unsigned(c.subrange(p, n), 255) == Some((i + 1) as nat)
    &&& digit_run(c.subrange(p, n)) == d.len()
    &&& c.subrange(p + d.len(), p + d.len() + 2) == ". "@
    &&& p + d.len() + 2 + w.len() + 4 <= n
    &&& occurs_at(c, p + d.len() + 2 + w.len(), "<br>"@)
    &&& forall|k: int| p + d.len() + 2 <= k < p + d.len() + 2 + w.len() ==> !#[trigger] occurs_at(c, k, "<br>"@)
    &&& c.subrange(p + d.len() + 2, p + d.len() + 2 + w.len()) == w
    &&& c.subrange(p + d.len() + 2 + w.len() + 4, n) == lineup_entries(ps, i + 1)
}

/// A lineup's text from where its `i`-th entry starts, before its end.
proof fn lemma_lineup_step(c: Seq<char>, p: int, ps: Seq<(Place, Seq<char>)>, i: int)
    requires
        0 <= p < c.len(),
        0 <= i,
        lineup_readable(ps),
        c.subrange(p, c.len() as int) == lineup_entries(ps, i),
    ensures
        lineup_step(c, p, ps, i),
{
    reveal_strlit(". ");
    reveal_strlit("<br>");
    reveal_strlit(" ");
    let n = c.len() as int;
    let sub = c.subrange(p, n);
    if i >= ps.len() {
        assert(sub.len() == 0);
    }
    let w = ps[i].0.spec_name() + " "@ + ps[i].1;
    let d = dec((i + 1) as nat);
    let rest = lineup_entries(ps, i + 1);
    assert(sub =~= d + (". "@ + w + "<br>"@ + rest));
    assert((". "@ + w + "<br>"@ + rest)[0] == '.');
    crate::text::lemma_leading_dec((i + 1) as u8, ". "@ + w + "<br>"@ + rest);
    let q = p + d.len() + 2;
    assert(c.subrange(p + d.len(), q) =~= sub.subrange(d.len() as int, d.len() + 2int));
    assert(sub.subrange(d.len() as int, d.len() + 2int) =~= ". "@);
    assert(c.subrange(q, q + w.len() + 4) =~= sub.subrange(d.len() + 2int, d.len() + 2int + w.len() + 4));
    assert(sub.subrange(d.len() + 2int, d.len() + 2int + w.len() + 4) =~= w + "<br>"@);
    assert(stops_after(ps[i].0.spec_name() + " "@ + ps[i].1, "<br>"@));
    crate::text::lemma_stops_after(c, q, w, "<br>"@);
    assert(c.subrange(q, q + w.len()) =~= sub.subrange(d.len() + 2int, d.len() + 2int + w.len()));
    assert(sub.subrange(d.len() + 2int, d.len() + 2int + w.len()) =~= w);
    assert(c.subrange(q + w.len() + 4, n) =~= sub.subrange(d.len() + 2int + w.len() + 4, sub.len() as int));
    assert(sub.subrange(d.len() + 2int + w.len() + 4, sub.len() as int) =~= rest);
}

/// "1. {player}<br>2. {player}<br>..."
#[verifier::spinoff_prover]
fn lineup<'a>(r: &Reader<'a>, ctx: &ParsingContext, side: HomeAway, t: EventType) -> (res: Option<ParsedEventMessage<&'a str>>)
    requires
        r.wf(),
        t == (if side == HomeAway::Home { EventType::HomeLineup } else { EventType::AwayLineup }),
    ensures
        ctx.read_as(res, r.text@, t),
        forall|ps: Seq<(Place, Seq<char>)>| ctx.wf() && lineup_readable(ps) && r.text@ == #[trigger] lineup_entries(ps, 0)
            ==> (res matches Some(ParsedEventMessage::Lineup { side: s, players }) && s == side && same_players(players@, ps)),
{
    let n = r.len();
    let mut players: Vec<PlacedPlayer<&'a str>> = Vec::new();
    let mut p: usize = 0;
    proof {
        assert forall|ps: Seq<(Place, Seq<char>)>| lineup_readable(ps) && r.text@ == #[trigger] lineup_entries(ps, 0)
            implies r.text@.subrange(0, n as int) == lineup_entries(ps, 0) by {
            assert(r.text@.subrange(0, n as int) =~= r.text@);
        }
    }
    while p < n
        invariant
            r.wf(),
            p <= n == r.size(),
            forall|ps: Seq<(Place, Seq<char>)>| lineup_readable(ps) && r.text@ == #[trigger] lineup_entries(ps, 0)
                ==> (players@.len() <= ps.len()
                    && (forall|k: int| 0 <= k < players@.len() ==> #[trigger] players@[k].place == ps[k].0 && players@[k].name@ == ps[k].1)
                    && r.text@.subrange(p as int, n as int) == lineup_entries(ps, players@.len() as int)),
        decreases n - p,
    {
        let ghost i = players@.len() as int;
        proof {
            reveal_strlit(". ");
            reveal_strlit("<br>");
            reveal_strlit(" ");
            assert forall|ps: Seq<(Place, Seq<char>)>| lineup_readable(ps) && r.text@ == #[trigger] lineup_entries(ps, 0)
                implies lineup_step(r.chars@, p as int, ps, i) by {
                lemma_lineup_step(r.chars@, p as int, ps, i);
            }
        }
        let (_, q) = r.number(p, n)?;
        let q = r.lit(q, n, ". ")?;
        let e = match r.find(q, n, "<br>") {
            Some(e) => e,
            None => {
                proof {
                    assert forall|ps: Seq<(Place, Seq<char>)>| lineup_readable(ps) && r.text@ == #[trigger] lineup_entries(ps, 0)
                        implies false by {
                        let w = ps[i].0.spec_name() + " "@ + ps[i].1;
                        assert(occurs_at(r.chars@, q + w.len(), "<br>"@));
                    }
                }
                return None;
            },
        };
        proof {
            assert forall|ps: Seq<(Place, Seq<char>)>| lineup_readable(ps) && r.text@ == #[trigger] lineup_entries(ps, 0)
                implies e == q + (ps[i].0.spec_name() + " "@ + ps[i].1).len()
                && r.text@.subrange(q as int, e as int) == ps[i].0.spec_name() + " "@ + ps[i].1 by {
                let w = ps[i].0.spec_name() + " "@ + ps[i].1;
                assert(occurs_at(r.chars@, q + w.len(), "<br>"@));
                if e < q + w.len() {
                    assert(!occurs_at(r.chars@, e as int, "<br>"@));
                }
                if e > q + w.len() {
                    assert(!occurs_at(r.chars@, q + w.len(), "<br>"@));
                }
            }
        }
        let player = r.placed_player(q, e)?;
        let ghost before = players@;
        players.push(player);
        let next = r.lit(e, n, "<br>")?;
        proof {
            assert forall|ps: Seq<(Place, Seq<char>)>| lineup_readable(ps) && r.text@ == #[trigger] lineup_entries(ps, 0)
                implies players@.len() <= ps.len()
                && (forall|k: int| 0 <= k < players@.len() ==> #[trigger] players@[k].place == ps[k].0 && players@[k].name@ == ps[k].1)
                && r.text@.subrange(next as int, n as int) == lineup_entries(ps, players@.len() as int) by {
                assert(players@[i] == player);
                assert forall|k: int| 0 <= k < players@.len() implies #[trigger] players@[k].place == ps[k].0 && players@[k].name@ == ps[k].1 by {
                    if k < i {
                        assert(players@[k] == before[k]);
                    }
                }
            }
        }
        p = next;
    }
    proof {
        assert forall|ps: Seq<(Place, Seq<char>)>| ctx.wf() && lineup_readable(ps) && r.text@ == #[trigger] lineup_entries(ps, 0)
            implies same_players(players@, ps) && ctx.writes(ParsedEventMessage::<&'a str>::Lineup { side, players }, r.text@) by {
            if players@.len() < ps.len() {
                assert(lineup_entries(ps, players@.len() as int).len() > 0);
            }
            lemma_lineup_text(players@, ps);
        }
    }
    ctx.accept(ParsedEventMessage::Lineup { side, players }, r.text)
}

/// The message of the pitcher `pitcher` balking, with no runner on base.
pub open spec fn balk_text(pitcher: Seq<char>) -> Seq<char> {
    "Balk. "@ + pitcher + " dropped the ball."@
}

/// "Balk. {pitcher} dropped the ball.", then the runners scoring and advancing.
fn balk<'a>(r: &Reader<'a>, ctx: &ParsingContext) -> (res: Option<ParsedEventMessage<&'a str>>)
    requires
        r.wf(),
    ensures
        ctx.read_as(res, r.text@, EventType::Balk),
        forall|pitcher: Seq<char>| ctx.wf() && stops_after(pitcher, " dropped the ball."@) && r.text@ == #[trigger] balk_text(pitcher)
            ==> (res matches Some(ParsedEventMessage::Balk { pitcher: p, scores, advances })
                && p@ == pitcher && scores@.len() == 0 && advances@.len() == 0),
{
    let n = r.len();
    proof {
        reveal_strlit("Balk. ");
        reveal_strlit(" dropped the ball.");
        assert forall|pitcher: Seq<char>| r.text@ == #[trigger] balk_text(pitcher)
            implies 6 <= n && r.chars@.subrange(0, 6) == "Balk. "@ by {
            assert(r.chars@.subrange(0, 6) =~= "Balk. "@);
        }
    }
    let p = r.lit(0, n, "Balk. ")?;
    proof {
        assert forall|pitcher: Seq<char>| stops_after(pitcher, " dropped the ball."@) && r.text@ == #[trigger] balk_text(pitcher)
            implies occurs_at(r.chars@, p + pitcher.len(), " dropped the ball."@)
            && (forall|k: int| p <= k < p + pitcher.len() ==> !#[trigger] occurs_at(r.chars@, k, " dropped the ball."@))
            && p + pitcher.len() + 18 == n by {
            assert(r.chars@.subrange(p as int, n as int) =~= pitcher + " dropped the ball."@);
            crate::text::lemma_stops_after(r.chars@, p as int, pitcher, " dropped the ball."@);
        }
    }
    let (pitcher, q) = match r.until(p, n, " dropped the ball.") {
        Some(x) => x,
        None => {
            proof {
                assert forall|pitcher: Seq<char>| stops_after(pitcher, " dropped the ball."@) && r.text@ == #[trigger] balk_text(pitcher)
                    implies false by {
                    assert(occurs_at(r.chars@, p + pitcher.len(), " dropped the ball."@));
                }
            }
            return None;
        },
    };
    proof {
        assert forall|name: Seq<char>| stops_after(name, " dropped the ball."@) && r.text@ == #[trigger] balk_text(name)
            implies q == n && pitcher@ == name by {
            let k = p + name.len();
            assert(occurs_at(r.chars@, k, " dropped the ball."@));
            if q - 18 < k {
                assert(!occurs_at(r.chars@, q - 18, " dropped the ball."@));
            }
            if q - 18 > k {
                assert(!occurs_at(r.chars@, k, " dropped the ball."@));
            }
            assert(pitcher@ =~= name);
        }
    }
    let (scores, advances, _) = r.scores_and_advances(q, n);
    proof {
        assert forall|name: Seq<char>| ctx.wf() && stops_after(name, " dropped the ball."@) && r.text@ == #[trigger] balk_text(name)
            implies ctx.writes(ParsedEventMessage::<&'a str>::Balk { pitcher, scores, advances }, r.text@) by {
            let m = ParsedEventMessage::<&'a str>::Balk { pitcher, scores, advances };
            assert(scores_text(scores@) == Seq::<char>::empty());
            assert(advances_text(advances@) == Seq::<char>::empty());
            assert(m.spec_balk_text(ctx.spec_unparsing(), ctx.event_index) =~= r.text@);
        }
    }
    ctx.accept(ParsedEventMessage::Balk { pitcher, scores, advances }, r.text)
}

/// "🪞 The reflection shatters. {team} received a Fragment of Reflection."
fn weather_reflection<'a>(r: &Reader<'a>, ctx: &ParsingContext) -> (res: Option<ParsedEventMessage<&'a str>>)
    requires
        r.wf(),
    ensures
        ctx.read_as(res, r.text@, EventType::Weather),
        forall|emoji: Seq<char>, name: Seq<char>| ctx.wf() && no_space(emoji) && r.text@ == reflection_text(emoji, name)
            ==> (res matches Some(ParsedEventMessage::WeatherReflection { team }) && team.emoji@ == emoji && team.name@ == name),
{
    let prefix = "🪞 The reflection shatters. ";
    let suffix = " received a Fragment of Reflection.";
    proof {
        assert forall|emoji: Seq<char>, name: Seq<char>| #[trigger] reflection_text(emoji, name)
            == prefix@ + emoji + " "@ + name + suffix@ by {
            assert(reflection_text(emoji, name) =~= prefix@ + emoji + " "@ + name + suffix@);
        }
    }
    let team = r.framed_team(prefix, suffix)?;
    proof {
        assert(team.spec_text() =~= team.emoji@ + " "@ + team.name@);
        assert(r.text@ =~= prefix@ + team.spec_text() + suffix@);
    }
    ctx.accept(ParsedEventMessage::WeatherReflection { team }, r.text)
}

/// The message of the reflection shattering, giving the team `emoji` `name` a fragment.
pub open spec fn reflection_text(emoji: Seq<char>, name: Seq<char>) -> Seq<char> {
    "🪞 The reflection shatters. "@ + emoji + " "@ + name + " received a Fragment of Reflection."@
}

/// The emoji of the team pitching during `event`, if it is during a game.
fn pitching_emoji<'b>(ctx: &ParsingContext<'b>, event: &Event) -> (r: Option<&'b str>)
    ensures
        match r {
            Some(e) => pitching_emoji_of(ctx.spec_unparsing(), event.inning) == Some(e@),
            None => pitching_emoji_of(ctx.spec_unparsing(), event.inning) is None,
        },
{
    match event.inning.pitching_team() {
        Some(HomeAway::Home) => Some(ctx.home_emoji_team.emoji),
        Some(HomeAway::Away) => Some(ctx.away_emoji_team.emoji),
        None => None,
    }
}

/// `emoji` followed by a space at `pos`, if it stands there.
fn opt_emoji<'a>(r: &Reader<'a>, pos: usize, end: usize, emoji: Option<&str>) -> (res: (Option<&'a str>, usize))
    requires
        r.wf(),
        pos <= end <= r.size(),
    ensures
        pos <= res.1 <= end,
        match emoji {
            Some(e) => pos + e@.len() + 1 <= end && r.text@.subrange(pos as int, pos + e@.len() + 1) == e@ + " "@
                ==> (res.0 matches Some(x) && x@ == e@ && res.1 == pos + e@.len() + 1),
            None => true,
        },
{
    proof {
        reveal_strlit(" ");
        if let Some(e) = emoji {
            if pos + e@.len() + 1 <= end && r.text@.subrange(pos as int, pos + e@.len() + 1) == e@ + " "@ {
                let t = r.text@.subrange(pos as int, pos + e@.len() + 1);
                assert(r.chars@.subrange(pos as int, pos + e@.len()) =~= t.subrange(0, e@.len() as int));
                assert(t.subrange(0, e@.len() as int) =~= e@);
                assert(r.chars@.subrange(pos + e@.len(), pos + e@.len() + 1) =~= t.subrange(e@.len() as int, t.len() as int));
                assert(t.subrange(e@.len() as int, t.len() as int) =~= " "@);
            }
        }
    }
    if let Some(e) = emoji {
        if let Some(a) = r.lit(pos, end, e) {
            if let Some(b) = r.lit(a, end, " ") {
                return (Some(r.slice(pos, a)), b);
            }
        }
    }
    (None, pos)
}

/// The messages of a mound visit: the manager's visit, a pitcher leaving for
/// another, or a pitcher remaining in the game.
fn mound_visit<'a>(r: &Reader<'a>, ctx: &ParsingContext, event: &Event) -> (res: Option<ParsedEventMessage<&'a str>>)
    requires
        r.wf(),
    ensures
        ctx.read_as(res, r.text@, EventType::MoundVisit),
        forall|emoji: Seq<char>, name: Seq<char>, kind: MoundVisitType|
            ctx.wf() && no_space(emoji) && r.text@ == manager_visit_text(emoji, name, kind)
            ==> (res matches Some(ParsedEventMessage::MoundVisit { team, mound_visit_type })
                && team.emoji@ == emoji && team.name@ == name && mound_visit_type == kind),
        forall|place: Place, name: Seq<char>| ctx.wf() && #[trigger] remains_form(r.text@, place, name)
            ==> (res matches Some(ParsedEventMessage::PitcherRemains { remaining_pitcher })
                && remaining_pitcher.place == place && remaining_pitcher.name@ == name),
        forall|e: Seq<char>, p1: Place, n1: Seq<char>, p2: Place, n2: Seq<char>|
            ctx.wf() && #[trigger] swap_form(r.text@, pitching_emoji_of(ctx.spec_unparsing(), event.inning), e, p1, n1, p2, n2)
            ==> res is Some,
{
    let n = r.len();
    proof {
        reveal_strlit("The ");
        assert forall|place: Place, name: Seq<char>| #[trigger] remains_form(r.text@, place, name)
            implies !(4 <= n && r.chars@.subrange(0, 4) == "The "@) by {
            place.lemma_name_is_word();
            assert(r.chars@[0] == place.spec_name()[0]);
            if 4 <= n && r.chars@.subrange(0, 4) == "The "@ {
                assert(r.chars@.subrange(0, 4)[0] == r.chars@[0]);
            }
        }
        assert forall|emoji: Seq<char>, name: Seq<char>, kind: MoundVisitType| r.text@ == manager_visit_text(emoji, name, kind)
            implies 4 <= n && r.chars@.subrange(0, 4) == "The "@ by {
            assert(r.chars@.subrange(0, 4) =~= "The "@);
        }
    }
    if let Some(p) = r.lit(0, n, "The ") {
        if let Some(m) = manager_visit(r, ctx, p, MoundVisitType::MoundVisit) {
            return Some(m);
        }
        if let Some(m) = manager_visit(r, ctx, p, MoundVisitType::PitchingChange) {
            return Some(m);
        }
    }
    if let Some(m) = pitcher_swap(r, ctx, event) {
        return Some(m);
    }
    proof {
        reveal_strlit(" remains in the game.");
        assert forall|place: Place, name: Seq<char>| #[trigger] remains_form(r.text@, place, name)
            implies occurs_at(r.chars@, (place.spec_name() + " "@ + name).len() as int, " remains in the game."@)
            && (forall|k: int| 0 <= k < (place.spec_name() + " "@ + name).len() ==> !#[trigger] occurs_at(r.chars@, k, " remains in the game."@)) by {
            let w = place.spec_name() + " "@ + name;
            assert(r.chars@.subrange(0, w.len() + 21int) =~= w + " remains in the game."@);
            crate::text::lemma_stops_after(r.chars@, 0, w, " remains in the game."@);
        }
    }
    let q = match r.find(0, n, " remains in the game.") {
        Some(q) => q,
        None => {
            proof {
                assert forall|place: Place, name: Seq<char>| #[trigger] remains_form(r.text@, place, name) implies false by {
                    assert(occurs_at(r.chars@, (place.spec_name() + " "@ + name).len() as int, " remains in the game."@));
                }
            }
            return None;
        },
    };
    proof {
        assert forall|place: Place, name: Seq<char>| #[trigger] remains_form(r.text@, place, name)
            implies q == (place.spec_name() + " "@ + name).len()
            && r.text@.subrange(0, q as int) == place.spec_name() + " "@ + name by {
            let w = place.spec_name() + " "@ + name;
            assert(occurs_at(r.chars@, w.len() as int, " remains in the game."@));
            if q < w.len() {
                assert(!occurs_at(r.chars@, q as int, " remains in the game."@));
            }
            if q > w.len() {
                assert(!occurs_at(r.chars@, w.len() as int, " remains in the game."@));
            }
            assert(r.text@.subrange(0, q as int) =~= w);
        }
    }
    let remaining_pitcher = r.placed_player(0, q)?;
    proof {
        assert forall|place: Place, name: Seq<char>| ctx.wf() && #[trigger] remains_form(r.text@, place, name)
            implies ctx.writes(ParsedEventMessage::<&'a str>::PitcherRemains { remaining_pitcher }, r.text@) by {
            assert(r.text@ =~= remaining_pitcher.spec_text() + " remains in the game."@);
        }
    }
    ctx.accept(ParsedEventMessage::PitcherRemains { remaining_pitcher }, r.text)
}

/// The message of the pitcher `name` at `place` remaining in the game.
pub open spec fn remains_text(place: Place, name: Seq<char>) -> Seq<char> {
    place.spec_name() + " "@ + name + " remains in the game."@
}

/// Whether `text` tells of the pitcher `name` at `place` remaining in the game,
/// with " remains in the game." occurring only after the name, and without
/// " is leaving the game. " in it.
pub open spec fn remains_form(text: Seq<char>, place: Place, name: Seq<char>) -> bool {
    &&& text == remains_text(place, name)
    &&& stops_after(place.spec_name() + " "@ + name, " remains in the game."@)
    &&& crate::text::lacks(text, " is leaving the game. "@)
}

/// The end of the message of a manager visiting the mound for `kind`.
pub open spec fn manager_visit_suffix(kind: MoundVisitType) -> Seq<char> {
    match kind {
        MoundVisitType::MoundVisit => " manager is making a mound visit."@,
        MoundVisitType::PitchingChange => " manager is making a pitching change."@,
    }
}

/// A mound visit is written "The {team} manager is making a mound visit." and
/// a pitching change "The {team} manager is making a pitching change.", and
/// reading looks for those words after the team.
pub proof fn lemma_mound_visit_words<S: Text, T: Text>(team: EmojiTeam<S>, context: UnparsingContext<T>, event_index: Option<u16>)
    ensures
        (ParsedEventMessage::MoundVisit { team, mound_visit_type: MoundVisitType::MoundVisit }).spec_unparse(context, event_index)
            == "The "@ + team.spec_text() + " manager is making a mound visit."@,
        (ParsedEventMessage::MoundVisit { team, mound_visit_type: MoundVisitType::PitchingChange }).spec_unparse(context, event_index)
            == "The "@ + team.spec_text() + " manager is making a pitching change."@,
        manager_visit_suffix(MoundVisitType::MoundVisit) == " manager is making a mound visit."@,
        manager_visit_suffix(MoundVisitType::PitchingChange) == " manager is making a pitching change."@,
{
}

/// The message of the manager of the team `emoji` `name` visiting the mound for `kind`.
pub open spec fn manager_visit_text(emoji: Seq<char>, name: Seq<char>, kind: MoundVisitType) -> Seq<char> {
    "The "@ + emoji + " "@ + name + manager_visit_suffix(kind)
}

/// "The {team} manager is making a mound visit." or "... a pitching change.", after "The ".
fn manager_visit<'a>(r: &Reader<'a>, ctx: &ParsingContext, p: usize, kind: MoundVisitType) -> (res: Option<ParsedEventMessage<&'a str>>)
    requires
        r.wf(),
        p == 4,
        p <= r.size(),
        r.chars@.subrange(0, p as int) == "The "@,
    ensures
        ctx.read_as(res, r.text@, EventType::MoundVisit),
        forall|emoji: Seq<char>, name: Seq<char>|
            ctx.wf() && no_space(emoji) && r.text@ == manager_visit_text(emoji, name, kind)
            ==> (res matches Some(ParsedEventMessage::MoundVisit { team, mound_visit_type })
                && team.emoji@ == emoji && team.name@ == name && mound_visit_type == kind),
        forall|emoji: Seq<char>, name: Seq<char>, other: MoundVisitType|
            other != kind && r.text@ == manager_visit_text(emoji, name, other) ==> res is None,
{
    let n = r.len();
    let suffix = match kind {
        MoundVisitType::MoundVisit => " manager is making a mound visit.",
        MoundVisitType::PitchingChange => " manager is making a pitching change.",
    };
    let l = suffix.unicode_len();
    proof {
        reveal_strlit(" manager is making a mound visit.");
        reveal_strlit(" manager is making a pitching change.");
        reveal_strlit("The ");
        reveal_strlit(" ");
        assert(suffix@ == manager_visit_suffix(kind));
        assert forall|emoji: Seq<char>, name: Seq<char>| r.text@ == manager_visit_text(emoji, name, kind) implies
            l <= n - p && r.chars@.subrange(n - l, n as int) == suffix@
            && r.text@.subrange(p as int, n - l) == emoji + " "@ + name
            && !no_space(r.text@.subrange(p as int, n - l)) by {
            assert(r.chars@.subrange(n - l, n as int) =~= suffix@);
            assert(r.text@.subrange(p as int, n - l) =~= emoji + " "@ + name);
            assert(r.text@.subrange(p as int, n - l)[emoji.len() as int] == ' ');
        }
        assert forall|emoji: Seq<char>, name: Seq<char>, other: MoundVisitType|
            other != kind && r.text@ == manager_visit_text(emoji, name, other) implies
            !(l <= n - p && r.chars@.subrange(n - l, n as int) == suffix@) by {
            if l <= n - p && r.chars@.subrange(n - l, n as int) == suffix@ {
                let t = manager_visit_suffix(other);
                assert(r.chars@[n - 2] == t[t.len() - 2]);
                assert(r.chars@.subrange(n - l, n as int)[l - 2] == r.chars@[n - 2]);
            }
        }
    }
    if n - p < l || !r.is(n - l, n, suffix) {
        return None;
    }
    let team = r.emoji_team(p, n - l)?;
    proof {
        let c = r.chars@;
        assert(c =~= c.subrange(0, p as int) + c.subrange(p as int, n - l) + c.subrange(n - l, n as int));
        assert(r.text@ =~= "The "@ + (team.emoji@ + " "@ + team.name@) + suffix@);
        assert forall|emoji: Seq<char>, name: Seq<char>| no_space(emoji) && r.text@ == manager_visit_text(emoji, name, kind) implies
            team.emoji@ == emoji && team.name@ == name by {
            crate::reader::lemma_first_space_split(team.emoji@, team.name@, emoji, name);
        }
    }
    ctx.accept(ParsedEventMessage::MoundVisit { team, mound_visit_type: kind }, r.text)
}

/// "{pitcher} is leaving the game. {pitcher} takes the mound.", each pitcher
/// perhaps after their team's emoji.
#[verifier::spinoff_prover]
#[verifier::rlimit(100)]
fn pitcher_swap<'a>(r: &Reader<'a>, ctx: &ParsingContext, event: &Event) -> (res: Option<ParsedEventMessage<&'a str>>)
    requires
        r.wf(),
    ensures
        ctx.read_as(res, r.text@, EventType::MoundVisit),
        crate::text::lacks(r.text@, " is leaving the game. "@) ==> res is None,
        forall|e: Seq<char>, p1: Place, n1: Seq<char>, p2: Place, n2: Seq<char>|
            ctx.wf() && #[trigger] swap_form(r.text@, pitching_emoji_of(ctx.spec_unparsing(), event.inning), e, p1, n1, p2, n2)
            ==> (res matches Some(ParsedEventMessage::PitcherSwap { leaving_pitcher_emoji: Some(le), leaving_pitcher,
                    arriving_pitcher_emoji: Some(ae), arriving_pitcher_place: Some(ap), arriving_pitcher_name })
                && le@ == e && leaving_pitcher.place == p1 && leaving_pitcher.name@ == n1 && ae@ == e && ap == p2
                && arriving_pitcher_name@ == n2),
{
    if !ctx.is_wf() {
        return None;
    }
    let n = r.len();
    let ghost eo = pitching_emoji_of(ctx.spec_unparsing(), event.inning);
    let emoji = pitching_emoji(ctx, event);
    let (leaving_pitcher_emoji, p) = opt_emoji(r, 0, n, emoji);
    proof {
        assert forall|e: Seq<char>, p1: Place, n1: Seq<char>, p2: Place, n2: Seq<char>| #[trigger] swap_form(r.text@, eo, e, p1, n1, p2, n2)
            implies leaving_pitcher_emoji matches Some(x) && x@ == e && p == swap_at(e, p1, n1, p2, n2).0
            && occurs_at(r.chars@, swap_at(e, p1, n1, p2, n2).1, " is leaving the game. "@)
            && swap_at(e, p1, n1, p2, n2).1 + 22 <= n by {
            lemma_swap_parts(r.text@, e, p1, n1, p2, n2);
            reveal_strlit(" is leaving the game. ");
        }
    }
    let q = r.find(p, n, " is leaving the game. ")?;
    proof {
        assert forall|e: Seq<char>, p1: Place, n1: Seq<char>, p2: Place, n2: Seq<char>| #[trigger] swap_form(r.text@, eo, e, p1, n1, p2, n2)
            implies q == swap_at(e, p1, n1, p2, n2).1
            && r.text@.subrange(p as int, q as int) == p1.spec_name() + " "@ + n1 by {
            lemma_swap_parts(r.text@, e, p1, n1, p2, n2);
            let k = swap_at(e, p1, n1, p2, n2).1;
            if q < k {
                assert(!occurs_at(r.chars@, q as int, " is leaving the game. "@));
            }
            if q > k {
                assert(!occurs_at(r.chars@, k, " is leaving the game. "@));
            }
        }
    }
    let leaving_pitcher = r.placed_player(p, q)?;
    let p = r.lit(q, n, " is leaving the game. ")?;
    let (arriving_pitcher_emoji, p) = opt_emoji(r, p, n, emoji);
    proof {
        assert forall|e: Seq<char>, p1: Place, n1: Seq<char>, p2: Place, n2: Seq<char>| #[trigger] swap_form(r.text@, eo, e, p1, n1, p2, n2)
            implies arriving_pitcher_emoji matches Some(x) && x@ == e && p == swap_at(e, p1, n1, p2, n2).2
            && occurs_at(r.chars@, swap_at(e, p1, n1, p2, n2).4, " takes the mound."@)
            && swap_at(e, p1, n1, p2, n2).4 + 17 <= n by {
            lemma_swap_parts(r.text@, e, p1, n1, p2, n2);
            reveal_strlit(" takes the mound.");
        }
    }
    let q = r.find(p, n, " takes the mound.")?;
    proof {
        assert forall|e: Seq<char>, p1: Place, n1: Seq<char>, p2: Place, n2: Seq<char>| #[trigger] swap_form(r.text@, eo, e, p1, n1, p2, n2)
            implies q == swap_at(e, p1, n1, p2, n2).4 by {
            lemma_swap_parts(r.text@, e, p1, n1, p2, n2);
            let k = swap_at(e, p1, n1, p2, n2).4;
            if q < k {
                assert(!occurs_at(r.chars@, q as int, " takes the mound."@));
            }
            if q > k {
                assert(!occurs_at(r.chars@, k, " takes the mound."@));
            }
        }
    }
    let (arriving_pitcher_place, arriving_pitcher_name) = match r.find(p, q, " ") {
        Some(sp) => {
            proof {
                assert forall|e: Seq<char>, p1: Place, n1: Seq<char>, p2: Place, n2: Seq<char>| #[trigger] swap_form(r.text@, eo, e, p1, n1, p2, n2)
                    implies sp == swap_at(e, p1, n1, p2, n2).3 by {
                    lemma_swap_parts(r.text@, e, p1, n1, p2, n2);
                    let k = swap_at(e, p1, n1, p2, n2).3;
                    if sp < k {
                        assert(!occurs_at(r.chars@, sp as int, " "@));
                    }
                    if sp > k {
                        assert(!occurs_at(r.chars@, k, " "@));
                    }
                }
            }
            match crate::places::Place::from_str(r.slice(p, sp)) {
                Ok(place) => {
                    proof {
                        reveal_strlit(" ");
                    }
                    let a = r.lit(sp, q, " ")?;
                    let name = r.slice(a, q);
                    proof {
                        assert forall|e: Seq<char>, p1: Place, n1: Seq<char>, p2: Place, n2: Seq<char>|
                            #[trigger] swap_form(r.text@, eo, e, p1, n1, p2, n2) implies place == p2 && name@ == n2 by {
                            lemma_swap_parts(r.text@, e, p1, n1, p2, n2);
                        }
                    }
                    (Some(place), name)
                },
                Err(_) => {
                    proof {
                        assert forall|e: Seq<char>, p1: Place, n1: Seq<char>, p2: Place, n2: Seq<char>|
                            #[trigger] swap_form(r.text@, eo, e, p1, n1, p2, n2) implies false by {
                            lemma_swap_parts(r.text@, e, p1, n1, p2, n2);
                        }
                    }
                    (None, r.slice(p, q))
                },
            }
        },
        None => {
            proof {
                assert forall|e: Seq<char>, p1: Place, n1: Seq<char>, p2: Place, n2: Seq<char>|
                    #[trigger] swap_form(r.text@, eo, e, p1, n1, p2, n2) implies false by {
                    lemma_swap_parts(r.text@, e, p1, n1, p2, n2);
                }
            }
            (None, r.slice(p, q))
        },
    };
    if arriving_pitcher_place.is_none() && ctx.before(Breakpoints::S2D152) {
        return None;
    }
    let m = ParsedEventMessage::PitcherSwap {
        leaving_pitcher_emoji,
        leaving_pitcher,
        arriving_pitcher_emoji,
        arriving_pitcher_place,
        arriving_pitcher_name,
    };
    proof {
        assert forall|e: Seq<char>, p1: Place, n1: Seq<char>, p2: Place, n2: Seq<char>|
            ctx.wf() && #[trigger] swap_form(r.text@, eo, e, p1, n1, p2, n2)
            implies ctx.writes(m, r.text@) && (m matches ParsedEventMessage::PitcherSwap { leaving_pitcher_emoji: Some(le), leaving_pitcher,
                    arriving_pitcher_emoji: Some(ae), arriving_pitcher_place: Some(ap), arriving_pitcher_name }
                && le@ == e && leaving_pitcher.place == p1 && leaving_pitcher.name@ == n1 && ae@ == e && ap == p2
                && arriving_pitcher_name@ == n2) by {
            lemma_swap_parts(r.text@, e, p1, n1, p2, n2);
            lemma_swap_written(m, ctx.spec_unparsing(), ctx.event_index, e, p1, n1, p2, n2);
        }
    }
    ctx.accept(m, r.text)
}

/// Whether `text` is a pitcher swap whose pitchers both come after the pitching
/// team's emoji `e` and are named with their places.
pub open spec fn swap_form(text: Seq<char>, emoji: Option<Seq<char>>, e: Seq<char>, p1: Place, n1: Seq<char>, p2: Place,
    n2: Seq<char>) -> bool {
    &&& emoji == Some(e)
    &&& stops_after(p1.spec_name() + " "@ + n1, " is leaving the game. "@)
    &&& stops_after(p2.spec_name() + " "@ + n2, " takes the mound."@)
    &&& text == swap_text(e, p1, n1, p2, n2)
}

/// Where the parts of a pitcher swap stand: after the first emoji, at the
/// first " is leaving the game. ", after the second emoji, at the space after
/// the second place, and at " takes the mound.".
pub open spec fn swap_at(e: Seq<char>, p1: Place, n1: Seq<char>, p2: Place, n2: Seq<char>) -> (int, int, int, int, int) {
    let a0 = e.len() + 1int;
    let q1 = a0 + (p1.spec_name() + " "@ + n1).len();
    let b1 = q1 + 22 + e.len() + 1;
    let sp = b1 + p2.spec_name().len();
    let q2 = sp + 1 + n2.len();
    (a0, q1, b1, sp, q2)
}

/// Where each part of a pitcher swap begins and ends.
proof fn lemma_swap_parts(text: Seq<char>, e: Seq<char>, p1: Place, n1: Seq<char>, p2: Place, n2: Seq<char>)
    requires
        stops_after(p1.spec_name() + " "@ + n1, " is leaving the game. "@),
        stops_after(p2.spec_name() + " "@ + n2, " takes the mound."@),
        text == swap_text(e, p1, n1, p2, n2),
    ensures
        ({
            let (a0, q1, b1, sp, q2) = swap_at(e, p1, n1, p2, n2);
            &&& q2 + 17 == text.len()
            &&& text.subrange(0, a0) == e + " "@
            &&& occurs_at(text, q1, " is leaving the game. "@)
            &&& (forall|k: int| a0 <= k < q1 ==> !#[trigger] occurs_at(text, k, " is leaving the game. "@))
            &&& text.subrange(a0, q1) == p1.spec_name() + " "@ + n1
            &&& text.subrange(q1, q1 + 22) == " is leaving the game. "@
            &&& text.subrange(q1 + 22, b1) == e + " "@
            &&& occurs_at(text, q2, " takes the mound."@)
            &&& (forall|k: int| b1 <= k < q2 ==> !#[trigger] occurs_at(text, k, " takes the mound."@))
            &&& occurs_at(text, sp, " "@)
            &&& (forall|k: int| b1 <= k < sp ==> !#[trigger] occurs_at(text, k, " "@))
            &&& text.subrange(b1, sp) == p2.spec_name()
            &&& text.subrange(sp + 1, q2) == n2
            &&& Place::spec_parse(p2.spec_name()) == Some(p2)
        }),
{
    reveal_strlit(" ");
    reveal_strlit(" is leaving the game. ");
    reveal_strlit(" takes the mound.");
    let leave = " is leaving the game. "@;
    let mound = " takes the mound."@;
    let (a0, q1, b1, sp, q2) = swap_at(e, p1, n1, p2, n2);
    let w1 = p1.spec_name() + " "@ + n1;
    let w2 = p2.spec_name() + " "@ + n2;
    let b0 = q1 + 22;
    let n = text.len() as int;
    let t = text;
    assert(t =~= (e + " "@) + (w1 + leave) + (e + " "@) + (w2 + mound));
    assert(t.subrange(0, a0) =~= e + " "@);
    assert(t.subrange(a0, b0) =~= w1 + leave);
    crate::text::lemma_stops_after(text, a0, w1, leave);
    assert(t.subrange(a0, q1) =~= w1);
    assert(t.subrange(q1, b0) =~= leave);
    assert(t.subrange(b0, b1) =~= e + " "@);
    assert(t.subrange(b1, n) =~= w2 + mound);
    crate::text::lemma_stops_after(text, b1, w2, mound);
    p2.lemma_name_is_word();
    crate::reader::lemma_word_stops(p2.spec_name(), " "@);
    assert(t.subrange(b1, sp + 1) =~= p2.spec_name() + " "@);
    crate::text::lemma_stops_after(text, b1, p2.spec_name(), " "@);
    assert(t.subrange(b1, sp) =~= p2.spec_name());
    assert(t.subrange(sp + 1, q2) =~= n2);
    p2.lemma_parse_name();
}

/// A pitcher swap with these emojis, places and names is written as `swap_text`.
proof fn lemma_swap_written<S: Text, T: Text>(m: ParsedEventMessage<S>, c: UnparsingContext<T>, ei: Option<u16>,
    e: Seq<char>, p1: Place, n1: Seq<char>, p2: Place, n2: Seq<char>)
    requires
        m matches ParsedEventMessage::PitcherSwap { leaving_pitcher_emoji: Some(le), leaving_pitcher,
            arriving_pitcher_emoji: Some(ae), arriving_pitcher_place: Some(ap), arriving_pitcher_name }
        && le@ == e && leaving_pitcher.place == p1 && leaving_pitcher.name@ == n1 && ae@ == e && ap == p2
        && arriving_pitcher_name@ == n2,
    ensures
        m.spec_pitcher_swap_text(c, ei) == swap_text(e, p1, n1, p2, n2),
{
    assert(m.spec_pitcher_swap_text(c, ei) =~= swap_text(e, p1, n1, p2, n2));
}

/// "{e} {p1} {n1} is leaving the game. {e} {p2} {n2} takes the mound."
pub open spec fn swap_text(e: Seq<char>, p1: Place, n1: Seq<char>, p2: Place, n2: Seq<char>) -> Seq<char> {
    e + " "@ + p1.spec_name() + " "@ + n1 + " is leaving the game. "@ + e + " "@ + p2.spec_name() + " "@ + n2
        + " takes the mound."@
}

/// The two letters after the number of an inning in its ordinal, as the start
/// of an inning writes it.
pub open spec fn start_suffix(n: u8) -> Seq<char> {
    if n == 1 {
        "st"@
    } else if n == 2 {
        "nd"@
    } else if n == 3 {
        "rd"@
    } else {
        "th"@
    }
}

/// The ordinal of the start of an inning is its number and two letters.
proof fn lemma_start_ordinal(n: u8)
    ensures
        start_ordinal(n) == dec(n as nat) + start_suffix(n),
        start_suffix(n).len() == 2,
        !crate::text::is_digit(start_suffix(n)[0]),
{
    reveal_strlit("1st");
    reveal_strlit("2nd");
    reveal_strlit("3rd");
    reveal_strlit("st");
    reveal_strlit("nd");
    reveal_strlit("rd");
    reveal_strlit("th");
    if n == 1 {
        assert(start_ordinal(n) =~= dec(n as nat) + start_suffix(n));
    } else if n == 2 {
        assert(start_ordinal(n) =~= dec(n as nat) + start_suffix(n));
    } else if n == 3 {
        assert(start_ordinal(n) =~= dec(n as nat) + start_suffix(n));
    }
}

/// The first sentences of the start of the `side` of inning `number`, with the
/// team `te` `tn` batting.
pub open spec fn inning_head_text(side: TopBottom, number: u8, te: Seq<char>, tn: Seq<char>) -> Seq<char> {
    "Start of the "@ + side.spec_name() + " of the "@ + start_ordinal(number) + ". "@ + te + " "@ + tn + " batting."@
}

/// "Start of the top of the " or "Start of the bottom of the ".
pub open spec fn start_of_half(side: TopBottom) -> Seq<char> {
    match side {
        TopBottom::Top => "Start of the top of the "@,
        TopBottom::Bottom => "Start of the bottom of the "@,
    }
}

/// The start of a half inning is written "Start of the top of the " or "Start
/// of the bottom of the ", then "1st", "2nd", "3rd" or, from the fourth inning
/// on, the number in decimal and "th", then ". ", the batting team's emoji and
/// name and " batting.".
pub proof fn lemma_inning_start_words<S: Text, T: Text>(
    number: u8,
    side: TopBottom,
    batting_team: EmojiTeam<S>,
    context: UnparsingContext<T>,
    event_index: Option<u16>,
)
    requires
        number > 0,
    ensures
        (ParsedEventMessage::<S>::InningStart { number, side, batting_team, automatic_runner: None, pitcher_status: None })
            .spec_unparse(context, event_index) == inning_head_text(side, number, batting_team.emoji@, batting_team.name@),
        number == 1 ==> inning_head_text(side, number, batting_team.emoji@, batting_team.name@)
            == start_of_half(side) + "1st. "@ + batting_team.emoji@ + " "@ + batting_team.name@ + " batting."@,
        number == 2 ==> inning_head_text(side, number, batting_team.emoji@, batting_team.name@)
            == start_of_half(side) + "2nd. "@ + batting_team.emoji@ + " "@ + batting_team.name@ + " batting."@,
        number == 3 ==> inning_head_text(side, number, batting_team.emoji@, batting_team.name@)
            == start_of_half(side) + "3rd. "@ + batting_team.emoji@ + " "@ + batting_team.name@ + " batting."@,
        number >= 4 ==> inning_head_text(side, number, batting_team.emoji@, batting_team.name@)
            == start_of_half(side) + dec(number as nat) + "th. "@ + batting_team.emoji@ + " "@ + batting_team.name@ + " batting."@,
{
    reveal_strlit("Start of the ");
    reveal_strlit(" of the ");
    reveal_strlit("Start of the top of the ");
    reveal_strlit("Start of the bottom of the ");
    reveal_strlit("top");
    reveal_strlit("bottom");
    reveal_strlit(". ");
    reveal_strlit("1st");
    reveal_strlit("2nd");
    reveal_strlit("3rd");
    reveal_strlit("th");
    reveal_strlit("1st. ");
    reveal_strlit("2nd. ");
    reveal_strlit("3rd. ");
    reveal_strlit("th. ");
    let head: Seq<char> = start_of_half(side);
    let te = batting_team.emoji@;
    let tn = batting_team.name@;
    let tail = te + " "@ + tn + " batting."@;
    assert("Start of the "@ + side.spec_name() + " of the "@ =~= head);
    assert(inning_head_text(side, number, te, tn) =~= head + (start_ordinal(number) + ". "@) + tail);
    assert("1st"@ + ". "@ =~= "1st. "@);
    assert("2nd"@ + ". "@ =~= "2nd. "@);
    assert("3rd"@ + ". "@ =~= "3rd. "@);
    assert(dec(number as nat) + "th"@ + ". "@ =~= dec(number as nat) + "th. "@);
    assert(head + "1st. "@ + tail =~= head + "1st. "@ + te + " "@ + tn + " batting."@);
    assert(head + "2nd. "@ + tail =~= head + "2nd. "@ + te + " "@ + tn + " batting."@);
    assert(head + "3rd. "@ + tail =~= head + "3rd. "@ + te + " "@ + tn + " batting."@);
    assert(head + (dec(number as nat) + "th. "@) + tail =~= head + dec(number as nat) + "th. "@ + te + " "@ + tn + " batting."@);
}

/// Whether the batting team `te` `tn` can be told from what follows it: its
/// emoji is a word, and " batting." occurs after it only where it ends.
pub open spec fn batting_names(te: Seq<char>, tn: Seq<char>) -> bool {
    no_space(te) && stops_after(te + " "@ + tn, " batting."@)
}

/// Whether `text` starts with the first sentences of the start of the `side`
/// of inning `number`, with the team `te` `tn` batting.
pub open spec fn head_form(text: Seq<char>, side: TopBottom, number: u8, te: Seq<char>, tn: Seq<char>) -> bool {
    let h = inning_head_text(side, number, te, tn);
    &&& number > 0
    &&& batting_names(te, tn)
    &&& h.len() <= text.len()
    &&& text.subrange(0, h.len() as int) == h
}

/// The sentence of a runner placed on second base.
pub open spec fn runner_sentence() -> Seq<char> {
    " starts the inning on second base."@
}

/// The emoji of the team pitching in `inning`, during a game written in `context`.
pub open spec fn pitching_emoji_of<T: Text>(context: UnparsingContext<T>, inning: Inning) -> Option<Seq<char>> {
    match inning.spec_pitching_team() {
        Some(HomeAway::Home) => Some(context.home_emoji_team.emoji@),
        Some(HomeAway::Away) => Some(context.away_emoji_team.emoji@),
        None => None,
    }
}

/// "Start of the {side} of the " at the start of the message, and the
/// position after it.
fn side_at(r: &Reader) -> (res: Option<(TopBottom, usize)>)
    requires
        r.wf(),
    ensures
        res matches Some((_, p)) ==> p <= r.size(),
        forall|side: TopBottom| #[trigger] side_prefix(side).len() <= r.size()
            && r.chars@.subrange(0, side_prefix(side).len() as int) == side_prefix(side)
            ==> res == Some((side, side_prefix(side).len() as usize)),
{
    let n = r.len();
    proof {
        reveal_strlit("Start of the ");
        reveal_strlit(" of the ");
        reveal_strlit("top");
        reveal_strlit("bottom");
        assert forall|side: TopBottom| #[trigger] side_prefix(side).len() <= r.size()
            && r.chars@.subrange(0, side_prefix(side).len() as int) == side_prefix(side)
            implies r.chars@.subrange(0, 13) == "Start of the "@
            && occurs_at(r.chars@, 13int + side.spec_name().len(), " of the "@)
            && (forall|k: int| 13 <= k < 13int + side.spec_name().len() ==> !#[trigger] occurs_at(r.chars@, k, " of the "@)) by {
            let h = side_prefix(side);
            let sn = side.spec_name();
            let c = r.chars@;
            assert(c.subrange(0, 13) =~= h.subrange(0, 13));
            assert(h.subrange(0, 13) =~= "Start of the "@);
            assert(c.subrange(13, 13int + sn.len() + 8) =~= h.subrange(13, 13int + sn.len() + 8));
            assert(h.subrange(13, 13int + sn.len() + 8) =~= sn + " of the "@);
            crate::reader::lemma_word_stops(sn, " of the "@);
            crate::text::lemma_stops_after(c, 13, sn, " of the "@);
        }
    }
    let p = r.lit(0, n, "Start of the ")?;
    let (side_text, q) = match r.until(p, n, " of the ") {
        Some(x) => x,
        None => {
            proof {
                assert forall|side: TopBottom| #[trigger] side_prefix(side).len() <= r.size()
                    && r.chars@.subrange(0, side_prefix(side).len() as int) == side_prefix(side) implies false by {
                    assert(occurs_at(r.chars@, 13int + side.spec_name().len(), " of the "@));
                }
            }
            return None;
        },
    };
    proof {
        assert forall|side: TopBottom| #[trigger] side_prefix(side).len() <= r.size()
            && r.chars@.subrange(0, side_prefix(side).len() as int) == side_prefix(side)
            implies q == side_prefix(side).len() && TopBottom::spec_parse(side_text@) == Some(side) by {
            let sn = side.spec_name();
            let k = 13int + sn.len();
            assert(occurs_at(r.chars@, k, " of the "@));
            if q - 8 < k {
                assert(!occurs_at(r.chars@, q - 8, " of the "@));
            }
            if q - 8 > k {
                assert(!occurs_at(r.chars@, k, " of the "@));
            }
            let h = side_prefix(side);
            assert(side_text@ =~= r.chars@.subrange(13, k));
            assert(r.chars@.subrange(13, k) =~= h.subrange(13, k));
            assert(h.subrange(13, k) =~= sn);
            side.lemma_parse_name();
        }
    }
    match TopBottom::from_str(side_text) {
        Ok(side) => Some((side, q)),
        Err(_) => None,
    }
}

/// "Start of the {side} of the "
pub open spec fn side_prefix(side: TopBottom) -> Seq<char> {
    "Start of the "@ + side.spec_name() + " of the "@
}

/// The ordinal of an inning and ". " at `pos`, and the position after them.
fn ordinal_at(r: &Reader, pos: usize) -> (res: Option<(u8, usize)>)
    requires
        r.wf(),
        pos <= r.size(),
    ensures
        res matches Some((_, p)) ==> p <= r.size(),
        forall|number: u8| pos + (#[trigger] start_ordinal(number)).len() + 2 <= r.size()
            && r.chars@.subrange(pos as int, pos + start_ordinal(number).len() + 2) == start_ordinal(number) + ". "@
            ==> res == Some((number, (pos + start_ordinal(number).len() + 2) as usize)),
{
    let n = r.len();
    proof {
        reveal_strlit(". ");
        assert forall|number: u8| pos + (#[trigger] start_ordinal(number)).len() + 2 <= r.size()
            && r.chars@.subrange(pos as int, pos + start_ordinal(number).len() + 2) == start_ordinal(number) + ". "@
            implies spec_leading_unsigned(r.chars@.subrange(pos as int, n as int), 255) == Some(number as nat)
            && digit_run(r.chars@.subrange(pos as int, n as int)) == dec(number as nat).len()
            && r.chars@.subrange(pos + dec(number as nat).len() + 2, pos + dec(number as nat).len() + 4) == ". "@
            && start_ordinal(number).len() == dec(number as nat).len() + 2 by {
            lemma_start_ordinal(number);
            let d = dec(number as nat);
            let sfx = start_suffix(number);
            let c = r.chars@;
            let l = start_ordinal(number).len() + 2;
            let rest = sfx + ". "@ + c.subrange(pos + l, n as int);
            assert(c.subrange(pos as int, n as int) =~= c.subrange(pos as int, pos + l) + c.subrange(pos + l, n as int));
            assert(c.subrange(pos as int, n as int) =~= d + rest);
            assert(rest[0] == sfx[0]);
            lemma_leading_dec(number, rest);
            assert(c.subrange(pos + d.len() + 2, pos + d.len() + 4) =~= (d + rest).subrange(d.len() + 2int, d.len() + 4int));
            assert((d + rest).subrange(d.len() + 2int, d.len() + 4int) =~= ". "@);
        }
    }
    let (number, q) = r.number(pos, n)?;
    if n - q < 2 {
        proof {
            assert forall|nb: u8| pos + (#[trigger] start_ordinal(nb)).len() + 2 <= r.size()
                && r.chars@.subrange(pos as int, pos + start_ordinal(nb).len() + 2) == start_ordinal(nb) + ". "@ implies false by {
                lemma_start_ordinal(nb);
            }
        }
        return None;
    }
    let p = r.lit(q + 2, n, ". ")?;
    proof {
        assert forall|nb: u8| pos + (#[trigger] start_ordinal(nb)).len() + 2 <= r.size()
            && r.chars@.subrange(pos as int, pos + start_ordinal(nb).len() + 2) == start_ordinal(nb) + ". "@
            implies p == pos + start_ordinal(nb).len() + 2 by {
            lemma_start_ordinal(nb);
        }
    }
    Some((number, p))
}

/// The parts of the first sentences of the start of an inning.
proof fn lemma_head_parts(text: Seq<char>, side: TopBottom, number: u8, te: Seq<char>, tn: Seq<char>)
    requires
        head_form(text, side, number, te, tn),
    ensures
        ({
            let p = side_prefix(side).len() as int;
            let l = start_ordinal(number).len() + 2;
            let w = te + " "@ + tn;
            &&& p + l + w.len() + 9 == inning_head_text(side, number, te, tn).len()
            &&& text.subrange(0, p) == side_prefix(side)
            &&& text.subrange(p, p + l) == start_ordinal(number) + ". "@
            &&& text.subrange(p + l, p + l + w.len() + 9) == w + " batting."@
        }),
{
    reveal_strlit(". ");
    reveal_strlit(" batting.");
    reveal_strlit(" ");
    let h = inning_head_text(side, number, te, tn);
    let sp = side_prefix(side);
    let p = sp.len() as int;
    let l = start_ordinal(number).len() + 2;
    let w = te + " "@ + tn;
    assert(h =~= sp + (start_ordinal(number) + ". "@) + (w + " batting."@));
    assert(text.subrange(0, h.len() as int) == h);
    assert(text.subrange(0, p) =~= h.subrange(0, p));
    assert(text.subrange(p, p + l) =~= h.subrange(p, p + l));
    assert(text.subrange(p + l, p + l + w.len() + 9) =~= h.subrange(p + l, p + l + w.len() + 9));
}

/// "Start of the {side} of the {number}{suffix}. {team} batting.", and the
/// position after it.
fn inning_head<'a>(r: &Reader<'a>) -> (res: Option<(TopBottom, u8, EmojiTeam<&'a str>, usize)>)
    requires
        r.wf(),
    ensures
        res matches Some((_, _, _, p)) ==> p <= r.size(),
        forall|side: TopBottom, number: u8, te: Seq<char>, tn: Seq<char>| #[trigger] head_form(r.text@, side, number, te, tn)
            ==> (res matches Some((sd, nb, t, p)) && sd == side && nb == number && t.emoji@ == te && t.name@ == tn
                && p == inning_head_text(side, number, te, tn).len()),
{
    let n = r.len();
    proof {
        assert forall|side: TopBottom, number: u8, te: Seq<char>, tn: Seq<char>| #[trigger] head_form(r.text@, side, number, te, tn)
            implies side_prefix(side).len() <= n && r.chars@.subrange(0, side_prefix(side).len() as int) == side_prefix(side) by {
            lemma_head_parts(r.text@, side, number, te, tn);
        }
    }
    let (side, p) = side_at(r)?;
    proof {
        assert forall|sd: TopBottom, number: u8, te: Seq<char>, tn: Seq<char>| #[trigger] head_form(r.text@, sd, number, te, tn)
            implies sd == side && p + start_ordinal(number).len() + 2 <= n
            && r.chars@.subrange(p as int, p + start_ordinal(number).len() + 2) == start_ordinal(number) + ". "@ by {
            lemma_head_parts(r.text@, sd, number, te, tn);
            assert(side_prefix(sd).len() <= n);
            assert(r.chars@.subrange(0, side_prefix(sd).len() as int) == side_prefix(sd));
        }
    }
    let (number, q) = ordinal_at(r, p)?;
    proof {
        assert forall|sd: TopBottom, nb: u8, te: Seq<char>, tn: Seq<char>| #[trigger] head_form(r.text@, sd, nb, te, tn)
            implies nb == number && r.team_then_at(q as int, n as int, te, tn, " batting."@)
            && inning_head_text(sd, nb, te, tn).len() == q + (te + " "@ + tn).len() + 9 by {
            reveal_strlit(" batting.");
            lemma_head_parts(r.text@, sd, nb, te, tn);
            assert(p + start_ordinal(nb).len() + 2 <= n);
            assert(r.chars@.subrange(p as int, p + start_ordinal(nb).len() + 2) == start_ordinal(nb) + ". "@);
        }
    }
    let (team, e) = r.team_until(q, n, " batting.")?;
    proof {
        reveal_strlit(" batting.");
    }
    Some((side, number, team, e))
}

/// A runner placed on second base at `pos`, and the position after the sentence.
fn runner_at<'a>(r: &Reader<'a>, pos: usize) -> (res: (Option<&'a str>, usize))
    requires
        r.wf(),
        pos <= r.size(),
    ensures
        res.1 <= r.size(),
        pos == r.size() ==> res == (None::<&'a str>, pos),
        forall|rest: Seq<char>| r.text@.subrange(pos as int, r.size() as int) == " "@ + rest
            && #[trigger] crate::text::lacks(rest, runner_sentence()) ==> res == (None::<&'a str>, pos),
{
    let n = r.len();
    proof {
        reveal_strlit(" ");
    }
    match r.lit(pos, n, " ") {
        Some(a) => {
            proof {
                assert forall|rest: Seq<char>| r.text@.subrange(pos as int, r.size() as int) == " "@ + rest
                    && #[trigger] crate::text::lacks(rest, runner_sentence())
                    implies forall|k: int| a <= k ==> !#[trigger] occurs_at(r.chars@, k, runner_sentence()) by {
                    let t = r.chars@.subrange(pos as int, n as int);
                    assert(r.chars@.subrange(a as int, n as int) =~= t.subrange(1, t.len() as int));
                    assert(t.subrange(1, t.len() as int) =~= rest);
                    crate::text::lemma_lacks(r.chars@, a as int, rest, runner_sentence());
                }
            }
            match r.until(a, n, " starts the inning on second base.") {
                Some((runner, e)) => {
                    proof {
                        reveal_strlit(" starts the inning on second base.");
                        assert(occurs_at(r.chars@, e - runner_sentence().len(), runner_sentence()));
                    }
                    (Some(runner), e)
                },
                None => (None, pos),
            }
        },
        None => (None, pos),
    }
}

/// The pitcher `{emoji} {name} pitching.` at `pos`, where `emoji` is the
/// emoji of the team pitching.
fn same_pitcher<'a>(r: &Reader<'a>, pos: usize, emoji: &str) -> (res: Option<(&'a str, &'a str)>)
    requires
        r.wf(),
        pos <= r.size(),
    ensures
        forall|pn: Seq<char>| stops_after(pn, " pitching."@)
            && r.text@.subrange(pos as int, r.size() as int) == #[trigger] (emoji@ + " "@ + pn + " pitching."@)
            ==> (res matches Some((e, name)) && e@ == emoji@ && name@ == pn),
{
    let n = r.len();
    proof {
        reveal_strlit(" ");
        reveal_strlit(" pitching.");
        assert forall|pn: Seq<char>| stops_after(pn, " pitching."@)
            && r.text@.subrange(pos as int, r.size() as int) == #[trigger] (emoji@ + " "@ + pn + " pitching."@)
            implies pos + emoji@.len() + 1 <= n && r.chars@.subrange(pos as int, pos + emoji@.len()) == emoji@
            && r.chars@.subrange(pos + emoji@.len(), pos + emoji@.len() + 1) == " "@
            && occurs_at(r.chars@, pos + emoji@.len() + 1 + pn.len(), " pitching."@)
            && (forall|k: int| pos + emoji@.len() + 1 <= k < pos + emoji@.len() + 1 + pn.len() ==> !#[trigger] occurs_at(r.chars@, k, " pitching."@)) by {
            let t = r.chars@.subrange(pos as int, n as int);
            let l = emoji@.len() as int;
            assert(t == emoji@ + " "@ + pn + " pitching."@);
            assert(t.len() == l + 1 + pn.len() + 10);
            assert(r.chars@.subrange(pos as int, pos + l) =~= t.subrange(0, l));
            assert(t.subrange(0, l) =~= emoji@);
            assert(r.chars@.subrange(pos + l, pos + l + 1) =~= t.subrange(l, l + 1));
            assert(t.subrange(l, l + 1) =~= " "@);
            let c = pos + l + 1;
            assert(r.chars@.subrange(c, n as int) =~= t.subrange(l + 1, t.len() as int));
            assert(t.subrange(l + 1, t.len() as int) =~= pn + " pitching."@);
            crate::text::lemma_stops_after(r.chars@, c, pn, " pitching."@);
        }
    }
    let b = r.lit(pos, n, emoji)?;
    let c = r.lit(b, n, " ")?;
    let (name, q) = match r.until(c, n, " pitching.") {
        Some(x) => x,
        None => {
            proof {
                assert forall|pn: Seq<char>| stops_after(pn, " pitching."@)
                    && r.text@.subrange(pos as int, r.size() as int) == #[trigger] (emoji@ + " "@ + pn + " pitching."@)
                    implies false by {
                    assert(occurs_at(r.chars@, c + pn.len(), " pitching."@));
                }
            }
            return None;
        },
    };
    let e = r.slice(pos, b);
    proof {
        assert forall|pn: Seq<char>| stops_after(pn, " pitching."@)
            && r.text@.subrange(pos as int, r.size() as int) == #[trigger] (emoji@ + " "@ + pn + " pitching."@)
            implies e@ == emoji@ && name@ == pn by {
            let k = c + pn.len();
            assert(occurs_at(r.chars@, k, " pitching."@));
            if q - 10 < k {
                assert(!occurs_at(r.chars@, q - 10, " pitching."@));
            }
            if q - 10 > k {
                assert(!occurs_at(r.chars@, k, " pitching."@));
            }
            let t = r.chars@.subrange(pos as int, n as int);
            let l = emoji@.len() as int;
            assert(t == emoji@ + " "@ + pn + " pitching."@);
            assert(t.len() == l + 1 + pn.len() + 10);
            assert(name@ =~= t.subrange(l + 1, l + 1 + pn.len()));
            assert(t.subrange(l + 1, l + 1 + pn.len()) =~= pn);
            assert(e@ =~= t.subrange(0, l));
            assert(t.subrange(0, l) =~= emoji@);
        }
    }
    Some((e, name))
}

/// The messages of the start of an inning: the inning and the team batting,
/// perhaps a runner placed on second base, and the pitcher.
#[verifier::spinoff_prover]
#[verifier::rlimit(60)]
fn inning_start<'a>(r: &Reader<'a>, ctx: &ParsingContext, event: &Event) -> (res: Option<ParsedEventMessage<&'a str>>)
    requires
        r.wf(),
    ensures
        ctx.read_as(res, r.text@, EventType::InningStart),
        forall|side: TopBottom, number: u8, te: Seq<char>, tn: Seq<char>|
            ctx.wf() && number > 0 && batting_names(te, tn) && r.text@ == #[trigger] inning_head_text(side, number, te, tn)
            ==> (res matches Some(ParsedEventMessage::InningStart { number: nb, side: sd, batting_team, automatic_runner, pitcher_status })
                && nb == number && sd == side && batting_team.emoji@ == te && batting_team.name@ == tn
                && automatic_runner is None && pitcher_status is None),
        forall|side: TopBottom, number: u8, te: Seq<char>, tn: Seq<char>, pe: Seq<char>, pn: Seq<char>|
            ctx.wf() && number > 0 && batting_names(te, tn) && stops_after(pn, " pitching."@)
            && pitching_emoji_of(ctx.spec_unparsing(), event.inning) == Some(pe)
            && crate::text::lacks(pe + " "@ + pn + " pitching."@, runner_sentence())
            && r.text@ == #[trigger] same_pitcher_text(side, number, te, tn, pe, pn)
            ==> (res matches Some(ParsedEventMessage::InningStart { number: nb, side: sd, batting_team, automatic_runner,
                    pitcher_status: Some(crate::parsed_event::StartOfInningPitcher::Same { emoji, name }) })
                && nb == number && sd == side && batting_team.emoji@ == te && batting_team.name@ == tn
                && automatic_runner is None && emoji@ == pe && name@ == pn),
{
    let n = r.len();
    proof {
        assert forall|side: TopBottom, number: u8, te: Seq<char>, tn: Seq<char>|
            number > 0 && batting_names(te, tn) && r.text@ == #[trigger] inning_head_text(side, number, te, tn)
            implies head_form(r.text@, side, number, te, tn) by {
            assert(r.text@.subrange(0, r.text@.len() as int) =~= r.text@);
        }
        assert forall|side: TopBottom, number: u8, te: Seq<char>, tn: Seq<char>, pe: Seq<char>, pn: Seq<char>|
            number > 0 && batting_names(te, tn) && r.text@ == #[trigger] same_pitcher_text(side, number, te, tn, pe, pn)
            implies head_form(r.text@, side, number, te, tn) by {
            let h = inning_head_text(side, number, te, tn);
            assert(r.text@.subrange(0, h.len() as int) =~= h);
        }
    }
    let (side, number, batting_team, p) = inning_head(r)?;
    proof {
        reveal_strlit(" ");
        reveal_strlit(" pitching.");
        assert forall|sd: TopBottom, nb: u8, te: Seq<char>, tn: Seq<char>, pe: Seq<char>, pn: Seq<char>|
            nb > 0 && batting_names(te, tn) && r.text@ == #[trigger] same_pitcher_text(sd, nb, te, tn, pe, pn)
            implies p < n && r.text@.subrange(p as int, n as int) == " "@ + (pe + " "@ + pn + " pitching."@) by {
            assert(head_form(r.text@, sd, nb, te, tn));
            let h = inning_head_text(sd, nb, te, tn);
            assert(r.text@.subrange(p as int, n as int) =~= " "@ + (pe + " "@ + pn + " pitching."@));
        }
        assert forall|sd: TopBottom, nb: u8, te: Seq<char>, tn: Seq<char>|
            nb > 0 && batting_names(te, tn) && r.text@ == #[trigger] inning_head_text(sd, nb, te, tn)
            implies p == n by {
            assert(head_form(r.text@, sd, nb, te, tn));
        }
    }
    let ghost p0 = p;
    let (automatic_runner, p) = runner_at(r, p);
    proof {
        assert forall|sd: TopBottom, nb: u8, te: Seq<char>, tn: Seq<char>, pe: Seq<char>, pn: Seq<char>|
            nb > 0 && batting_names(te, tn) && crate::text::lacks(pe + " "@ + pn + " pitching."@, runner_sentence())
            && r.text@ == #[trigger] same_pitcher_text(sd, nb, te, tn, pe, pn)
            implies p == p0 && automatic_runner is None && p + 1 <= n && r.chars@.subrange(p as int, p + 1) == " "@
            && r.text@.subrange(p as int, n as int) == " "@ + (pe + " "@ + pn + " pitching."@) by {
            assert(r.text@.subrange(p0 as int, n as int) == " "@ + (pe + " "@ + pn + " pitching."@));
            let t = r.chars@.subrange(p as int, n as int);
            assert(r.chars@.subrange(p as int, p + 1) =~= t.subrange(0, 1));
            assert(t.subrange(0, 1) =~= " "@);
        }
    }
    if p == n {
        let m = ParsedEventMessage::InningStart { number, side, batting_team, automatic_runner, pitcher_status: None };
        proof {
            assert forall|sd: TopBottom, nb: u8, te: Seq<char>, tn: Seq<char>|
                ctx.wf() && nb > 0 && batting_names(te, tn) && r.text@ == #[trigger] inning_head_text(sd, nb, te, tn)
                implies ctx.writes(m, r.text@) by {
                assert(head_form(r.text@, sd, nb, te, tn));
                assert(m.spec_inning_start_text(ctx.spec_unparsing(), ctx.event_index) =~= r.text@);
            }
        }
        return ctx.accept(m, r.text);
    }
    let a = r.lit(p, n, " ")?;
    let emoji = pitching_emoji(ctx, event);
    if let Some(e) = emoji {
        proof {
            assert forall|sd: TopBottom, nb: u8, te: Seq<char>, tn: Seq<char>, pn: Seq<char>|
                nb > 0 && batting_names(te, tn) && r.text@ == #[trigger] same_pitcher_text(sd, nb, te, tn, e@, pn)
                && stops_after(pn, " pitching."@) && crate::text::lacks(e@ + " "@ + pn + " pitching."@, runner_sentence())
                implies r.text@.subrange(a as int, n as int) == e@ + " "@ + pn + " pitching."@ by {
                let t = r.chars@.subrange(p as int, n as int);
                assert(t == " "@ + (e@ + " "@ + pn + " pitching."@));
                assert(r.chars@.subrange(a as int, n as int) =~= t.subrange(1, t.len() as int));
                assert(t.subrange(1, t.len() as int) =~= e@ + " "@ + pn + " pitching."@);
            }
        }
        if let Some((emoji_text, name)) = same_pitcher(r, a, e) {
            let status = crate::parsed_event::StartOfInningPitcher::Same { emoji: emoji_text, name };
            let m = ParsedEventMessage::InningStart {
                number,
                side,
                batting_team,
                automatic_runner,
                pitcher_status: Some(status),
            };
            proof {
                assert forall|sd: TopBottom, nb: u8, te: Seq<char>, tn: Seq<char>, pn: Seq<char>|
                    ctx.wf() && nb > 0 && batting_names(te, tn) && r.text@ == #[trigger] same_pitcher_text(sd, nb, te, tn, e@, pn)
                    && stops_after(pn, " pitching."@) && crate::text::lacks(e@ + " "@ + pn + " pitching."@, runner_sentence())
                    implies name@ == pn && ctx.writes(m, r.text@) by {
                    assert(head_form(r.text@, sd, nb, te, tn));
                    assert(m.spec_inning_start_text(ctx.spec_unparsing(), ctx.event_index) =~= r.text@);
                }
            }
            if let Some(m) = ctx.accept(m, r.text) {
                return Some(m);
            }
        }
    }
    let (leaving_emoji, p) = opt_emoji(r, a, n, emoji);
    let q = r.find(p, n, " is leaving the game. ")?;
    let leaving_pitcher = r.placed_player(p, q)?;
    let p = r.lit(q, n, " is leaving the game. ")?;
    let (arriving_emoji, p) = opt_emoji(r, p, n, emoji);
    let q = r.find(p, n, " takes the mound.")?;
    let arriving_pitcher = r.placed_player(p, q)?;
    let status = crate::parsed_event::StartOfInningPitcher::Different { leaving_emoji, leaving_pitcher, arriving_emoji, arriving_pitcher };
    let m = ParsedEventMessage::InningStart { number, side, batting_team, automatic_runner, pitcher_status: Some(status) };
    ctx.accept(m, r.text)
}

/// The start of the `side` of inning `number`, with the team `te` `tn` batting
/// and `pn` of the team `pe` pitching again.
pub open spec fn same_pitcher_text(side: TopBottom, number: u8, te: Seq<char>, tn: Seq<char>, pe: Seq<char>, pn: Seq<char>) -> Seq<char> {
    inning_head_text(side, number, te, tn) + " "@ + pe + " "@ + pn + " pitching."@
}

/// The sentence of the cheer `c`: " {c}!", with a 📣 before the cheer where
/// `emoji` holds.
pub open spec fn cheer_sentence(emoji: bool, c: Seq<char>) -> Seq<char> {
    if emoji {
        " 📣 "@ + c + "!"@
    } else {
        " "@ + c + "!"@
    }
}

/// Whether an event with index `event_index` in `context` is late enough for cheers.
pub open spec fn cheers_allowed_at<T: Text>(context: UnparsingContext<T>, event_index: Option<u16>) -> bool {
    !context.spec_before(event_index, Breakpoints::Season3)
}

/// Whether cheers at an event with index `event_index` in `context` are
/// written with their emoji.
pub open spec fn cheer_emoji_at<T: Text>(context: UnparsingContext<T>, event_index: Option<u16>) -> bool {
    !context.spec_before(event_index, Breakpoints::CheersGetEmoji)
}

/// Whether the event of `ctx` is late enough for cheers.
pub open spec fn cheers_allowed(ctx: &ParsingContext) -> bool {
    cheers_allowed_at(ctx.spec_unparsing(), ctx.event_index)
}

/// Whether cheers at the event of `ctx` are written with their emoji.
pub open spec fn cheer_emoji(ctx: &ParsingContext) -> bool {
    cheer_emoji_at(ctx.spec_unparsing(), ctx.event_index)
}

/// A cheer at `pos` ending the message, if the message goes on past `pos`.
fn cheer_at(r: &Reader, ctx: &ParsingContext, pos: usize, end: usize) -> (res: Option<(Option<crate::parsed_event::Cheer>, usize)>)
    requires
        r.wf(),
        ctx.wf(),
        pos <= end <= r.size(),
    ensures
        match res {
            Some((_, e)) => pos <= e <= end,
            None => true,
        },
        pos == end ==> res == Some((None::<crate::parsed_event::Cheer>, pos)),
        forall|c: Seq<char>| cheers_allowed(ctx) && stops_after(c, "!"@)
            && pos + cheer_sentence(cheer_emoji(ctx), c).len() == end
            && r.text@.subrange(pos as int, end as int) == #[trigger] cheer_sentence(cheer_emoji(ctx), c)
            ==> (res matches Some((Some(ch), e)) && ch.spec_name() == c && e == end),
{
    proof {
        reveal_strlit(" ");
        reveal_strlit(" 📣 ");
        reveal_strlit("!");
        assert forall|c: Seq<char>| pos + cheer_sentence(cheer_emoji(ctx), c).len() == end
            && r.text@.subrange(pos as int, end as int) == #[trigger] cheer_sentence(cheer_emoji(ctx), c)
            implies ({
                let l: int = if cheer_emoji(ctx) { 3 } else { 1 };
                &&& pos < end
                &&& (cheer_emoji(ctx) ==> r.chars@.subrange(pos as int, pos + 3) == " 📣 "@)
                &&& (!cheer_emoji(ctx) ==> r.chars@.subrange(pos as int, pos + 1) == " "@)
                &&& pos + l + c.len() + 1 == end
                &&& r.text@.subrange(pos + l, end as int) == c + "!"@
            }) by {
            let t = cheer_sentence(cheer_emoji(ctx), c);
            if cheer_emoji(ctx) {
                assert(t =~= " 📣 "@ + (c + "!"@));
                assert(r.chars@.subrange(pos as int, pos + 3) =~= t.subrange(0, 3));
                assert(r.text@.subrange(pos + 3, end as int) =~= t.subrange(3, t.len() as int));
            } else {
                assert(t =~= " "@ + (c + "!"@));
                assert(r.chars@.subrange(pos as int, pos + 1) =~= t.subrange(0, 1));
                assert(r.text@.subrange(pos + 1, end as int) =~= t.subrange(1, t.len() as int));
            }
        }
    }
    if pos == end {
        return Some((None, pos));
    }
    if ctx.before(Breakpoints::Season3) {
        return None;
    }
    let a = if ctx.before(Breakpoints::CheersGetEmoji) {
        r.lit(pos, end, " ")?
    } else {
        r.lit(pos, end, " 📣 ")?
    };
    let (text, e) = r.until(a, end, "!")?;
    let cheer = crate::parsed_event::Cheer::new(text);
    Some((Some(cheer), e))
}

/// Two players of the game's teams photographing the aurora, at `pos`, the
/// players of `first` named first.
#[verifier::spinoff_prover]
#[verifier::rlimit(40)]
fn photos_of<'a>(r: &Reader<'a>, pos: usize, end: usize, first: &EmojiTeam<&str>, second: &EmojiTeam<&str>)
    -> (res: Option<(crate::parsed_event::SnappedPhotos<&'a str>, usize)>)
    requires
        r.wf(),
        pos <= end <= r.size(),
    ensures
        match res {
            Some((_, e)) => pos <= e <= end,
            None => true,
        },
        forall|p1: Place, n1: Seq<char>, p2: Place, n2: Seq<char>|
            stops_after(p1.spec_name() + " "@ + n1, " and "@)
            && stops_after(p2.spec_name() + " "@ + n2, " snapped photos of the aurora."@)
            && pos + photos_text(first.emoji@, p1, n1, second.emoji@, p2, n2).len() <= end
            && r.text@.subrange(pos as int, pos + photos_text(first.emoji@, p1, n1, second.emoji@, p2, n2).len())
                == #[trigger] photos_text(first.emoji@, p1, n1, second.emoji@, p2, n2)
            ==> (res matches Some((ph, e)) && ph.first_team_emoji@ == first.emoji@ && ph.first_player.place == p1
                && ph.first_player.name@ == n1 && ph.second_team_emoji@ == second.emoji@ && ph.second_player.place == p2
                && ph.second_player.name@ == n2 && e == pos + photos_text(first.emoji@, p1, n1, second.emoji@, p2, n2).len()),
{
    let ghost e1 = first.emoji@;
    let ghost e2 = second.emoji@;
    let ghost snap = " snapped photos of the aurora."@;
    proof {
        reveal_strlit(" ");
        reveal_strlit(" and ");
        assert forall|p1: Place, n1: Seq<char>, p2: Place, n2: Seq<char>|
            stops_after(p1.spec_name() + " "@ + n1, " and "@)
            && stops_after(p2.spec_name() + " "@ + n2, snap)
            && pos + photos_text(e1, p1, n1, e2, p2, n2).len() <= end
            && r.text@.subrange(pos as int, pos + photos_text(e1, p1, n1, e2, p2, n2).len())
                == #[trigger] photos_text(e1, p1, n1, e2, p2, n2)
            implies ({
                let w1 = p1.spec_name() + " "@ + n1;
                let w2 = p2.spec_name() + " "@ + n2;
                let a = pos + e1.len();
                let b = a + 1;
                let q = b + w1.len();
                let c = q + 5;
                let d = c + e2.len();
                let ee = d + 1;
                let q2 = ee + w2.len();
                &&& r.chars@.subrange(pos as int, a) == e1
                &&& r.chars@.subrange(a, b) == " "@
                &&& occurs_at(r.chars@, q, " and "@)
                &&& (forall|k: int| b <= k < q ==> !#[trigger] occurs_at(r.chars@, k, " and "@))
                &&& r.text@.subrange(b, q) == w1
                &&& r.chars@.subrange(q, c) == " and "@
                &&& r.chars@.subrange(c, d) == e2
                &&& r.chars@.subrange(d, ee) == " "@
                &&& occurs_at(r.chars@, q2, snap)
                &&& (forall|k: int| ee <= k < q2 ==> !#[trigger] occurs_at(r.chars@, k, snap))
                &&& r.text@.subrange(ee, q2) == w2
                &&& r.chars@.subrange(q2, q2 + snap.len()) == snap
                &&& q2 + snap.len() == pos + photos_text(e1, p1, n1, e2, p2, n2).len()
            }) by {
            let t = photos_text(e1, p1, n1, e2, p2, n2);
            let sub = r.text@.subrange(pos as int, pos + t.len());
            let w1 = p1.spec_name() + " "@ + n1;
            let w2 = p2.spec_name() + " "@ + n2;
            let a = pos + e1.len();
            let b = a + 1;
            let q = b + w1.len();
            let c = q + 5;
            let d = c + e2.len();
            let ee = d + 1;
            let q2 = ee + w2.len();
            assert(t =~= e1 + " "@ + (w1 + " and "@) + e2 + " "@ + (w2 + snap));
            assert(r.chars@.subrange(pos as int, a) =~= sub.subrange(0, a - pos));
            assert(r.chars@.subrange(a, b) =~= sub.subrange(a - pos, b - pos));
            assert(r.text@.subrange(b, c) =~= sub.subrange(b - pos, c - pos));
            assert(r.text@.subrange(b, c) =~= w1 + " and "@);
            crate::text::lemma_stops_after(r.chars@, b, w1, " and "@);
            assert(r.text@.subrange(b, q) =~= w1);
            assert(r.chars@.subrange(q, c) =~= " and "@);
            assert(r.chars@.subrange(c, d) =~= sub.subrange(c - pos, d - pos));
            assert(r.chars@.subrange(d, ee) =~= sub.subrange(d - pos, ee - pos));
            assert(r.text@.subrange(ee, q2 + snap.len()) =~= sub.subrange(ee - pos, t.len() as int));
            assert(r.text@.subrange(ee, q2 + snap.len()) =~= w2 + snap);
            crate::text::lemma_stops_after(r.chars@, ee, w2, snap);
            assert(r.text@.subrange(ee, q2) =~= w2);
            assert(r.chars@.subrange(q2, q2 + snap.len()) =~= snap);
        }
    }
    let a = r.lit(pos, end, first.emoji)?;
    let b = r.lit(a, end, " ")?;
    let q = r.find(b, end, " and ")?;
    let first_player = r.placed_player(b, q)?;
    let c = r.lit(q, end, " and ")?;
    let d = r.lit(c, end, second.emoji)?;
    let e = r.lit(d, end, " ")?;
    let q2 = r.find(e, end, " snapped photos of the aurora.")?;
    let second_player = r.placed_player(e, q2)?;
    let f = r.lit(q2, end, " snapped photos of the aurora.")?;
    let photos = crate::parsed_event::SnappedPhotos {
        first_team_emoji: r.slice(pos, a),
        first_player,
        second_team_emoji: r.slice(c, d),
        second_player,
    };
    Some((photos, f))
}

/// "{e1} {p1} {n1} and {e2} {p2} {n2} snapped photos of the aurora."
pub open spec fn photos_text(e1: Seq<char>, p1: Place, n1: Seq<char>, e2: Seq<char>, p2: Place, n2: Seq<char>) -> Seq<char> {
    e1 + " "@ + p1.spec_name() + " "@ + n1 + " and "@ + e2 + " "@ + p2.spec_name() + " "@ + n2 + " snapped photos of the aurora."@
}

/// The storms intensifying and two players photographing the aurora, the
/// players of the team with emoji `e1` named first.
pub open spec fn aurora_text(e1: Seq<char>, p1: Place, n1: Seq<char>, e2: Seq<char>, p2: Place, n2: Seq<char>) -> Seq<char> {
    " The Geomagnetic Storms Intensify! "@ + photos_text(e1, p1, n1, e2, p2, n2)
}

/// Whether the names of two players photographing the aurora can be told from
/// the words around them.
pub open spec fn photographers_readable(p1: Place, n1: Seq<char>, p2: Place, n2: Seq<char>) -> bool {
    &&& stops_after(p1.spec_name() + " "@ + n1, " and "@)
    &&& stops_after(p2.spec_name() + " "@ + n2, " snapped photos of the aurora."@)
}

/// Photos of the aurora at `pos`, if the storms intensify there.
fn aurora_at<'a>(r: &Reader<'a>, ctx: &ParsingContext, pos: usize, end: usize)
    -> (res: Option<(Option<crate::parsed_event::SnappedPhotos<&'a str>>, usize)>)
    requires
        r.wf(),
        pos <= end <= r.size(),
    ensures
        match res {
            Some((_, e)) => pos <= e <= end,
            None => true,
        },
        pos == end ==> res == Some((None::<crate::parsed_event::SnappedPhotos<&'a str>>, pos)),
        !(pos + 35 <= end && r.chars@.subrange(pos as int, pos + 35) == " The Geomagnetic Storms Intensify! "@)
            ==> res == Some((None::<crate::parsed_event::SnappedPhotos<&'a str>>, pos)),
        forall|p1: Place, n1: Seq<char>, p2: Place, n2: Seq<char>| photographers_readable(p1, n1, p2, n2)
            && pos + aurora_text(ctx.home_emoji_team.emoji@, p1, n1, ctx.away_emoji_team.emoji@, p2, n2).len() == end
            && r.text@.subrange(pos as int, end as int) == #[trigger] aurora_text(ctx.home_emoji_team.emoji@, p1, n1, ctx.away_emoji_team.emoji@, p2, n2)
            ==> (res matches Some((Some(ph), e)) && ph.first_team_emoji@ == ctx.home_emoji_team.emoji@ && ph.first_player.place == p1
                && ph.first_player.name@ == n1 && ph.second_team_emoji@ == ctx.away_emoji_team.emoji@ && ph.second_player.place == p2
                && ph.second_player.name@ == n2 && e == end),
{
    proof {
        reveal_strlit(" The Geomagnetic Storms Intensify! ");
        let e1 = ctx.home_emoji_team.emoji@;
        let e2 = ctx.away_emoji_team.emoji@;
        assert forall|p1: Place, n1: Seq<char>, p2: Place, n2: Seq<char>|
            pos + aurora_text(e1, p1, n1, e2, p2, n2).len() == end
            && r.text@.subrange(pos as int, end as int) == #[trigger] aurora_text(e1, p1, n1, e2, p2, n2)
            implies pos + 35 <= end && r.chars@.subrange(pos as int, pos + 35) == " The Geomagnetic Storms Intensify! "@
            && pos + 35 + photos_text(e1, p1, n1, e2, p2, n2).len() == end
            && r.text@.subrange(pos + 35, pos + 35 + photos_text(e1, p1, n1, e2, p2, n2).len()) == photos_text(e1, p1, n1, e2, p2, n2) by {
            let t = aurora_text(e1, p1, n1, e2, p2, n2);
            assert(r.chars@.subrange(pos as int, pos + 35) =~= t.subrange(0, 35));
            assert(r.text@.subrange(pos + 35, end as int) =~= t.subrange(35, t.len() as int));
        }
    }
    let a = match r.lit(pos, end, " The Geomagnetic Storms Intensify! ") {
        Some(a) => a,
        None => return Some((None, pos)),
    };
    if let Some((photos, e)) = photos_of(r, a, end, &ctx.home_emoji_team, &ctx.away_emoji_team) {
        return Some((Some(photos), e));
    }
    let (photos, e) = photos_of(r, a, end, &ctx.away_emoji_team, &ctx.home_emoji_team)?;
    Some((Some(photos), e))
}

/// A count of balls and strikes, "{balls}-{strikes}.", at `pos`.
fn count_at(r: &Reader, pos: usize, end: usize) -> (res: Option<((u8, u8), usize)>)
    requires
        r.wf(),
        pos <= end <= r.size(),
    ensures
        match res {
            Some((_, e)) => pos <= e <= end,
            None => true,
        },
        forall|count: (u8, u8)| r.chars@.subrange(pos as int, end as int) == count_text(count) ==> res == Some((count, end)),
        forall|count: (u8, u8), rest: Seq<char>| r.chars@.subrange(pos as int, end as int) == #[trigger] (count_text(count) + rest)
            ==> res == Some((count, (pos + count_text(count).len()) as usize)),
{
    proof {
        reveal_strlit("-");
        reveal_strlit(".");
        assert forall|count: (u8, u8)| r.chars@.subrange(pos as int, end as int) == count_text(count) implies
            r.chars@.subrange(pos as int, end as int) == count_text(count) + Seq::<char>::empty() by {
            assert(count_text(count) + Seq::<char>::empty() =~= count_text(count));
        }
        assert forall|count: (u8, u8), rest: Seq<char>| r.chars@.subrange(pos as int, end as int) == #[trigger] (count_text(count) + rest) implies ({
            let b = dec(count.0 as nat);
            let s = dec(count.1 as nat);
            let p1 = pos + b.len();
            &&& spec_leading_unsigned(r.chars@.subrange(pos as int, end as int), 255) == Some(count.0 as nat)
            &&& digit_run(r.chars@.subrange(pos as int, end as int)) == b.len()
            &&& p1 + 1 <= end && r.chars@.subrange(p1, p1 + 1) == "-"@
            &&& spec_leading_unsigned(r.chars@.subrange(p1 + 1, end as int), 255) == Some(count.1 as nat)
            &&& digit_run(r.chars@.subrange(p1 + 1, end as int)) == s.len()
            &&& p1 + 1 + s.len() + 1 <= end && r.chars@.subrange(p1 + 1 + s.len(), p1 + 1 + s.len() + 1) == "."@
            &&& p1 + 1 + s.len() + 1 == pos + count_text(count).len()
        }) by {
            let b = dec(count.0 as nat);
            let s = dec(count.1 as nat);
            let p1 = pos + b.len();
            let sub = r.chars@.subrange(pos as int, end as int);
            assert(sub =~= b + ("-"@ + s + "."@ + rest));
            lemma_leading_dec(count.0, "-"@ + s + "."@ + rest);
            assert(r.chars@.subrange(p1, p1 + 1) =~= sub.subrange(b.len() as int, (b.len() + 1) as int));
            assert(sub.subrange(b.len() as int, (b.len() + 1) as int) =~= "-"@);
            assert(r.chars@.subrange(p1 + 1, end as int) =~= sub.subrange((b.len() + 1) as int, sub.len() as int));
            assert(sub.subrange((b.len() + 1) as int, sub.len() as int) =~= s + ("."@ + rest));
            lemma_leading_dec(count.1, "."@ + rest);
            let t = r.chars@.subrange(p1 + 1, end as int);
            assert(r.chars@.subrange(p1 + 1 + s.len(), p1 + 1 + s.len() + 1) =~= t.subrange(s.len() as int, s.len() + 1int));
            assert(t.subrange(s.len() as int, s.len() + 1int) =~= "."@);
        }
    }
    let (balls, p) = r.number(pos, end)?;
    let p = r.lit(p, end, "-")?;
    let (strikes, p) = r.number(p, end)?;
    let p = r.lit(p, end, ".")?;
    Some(((balls, strikes), p))
}

/// The messages of a pitch: a walk, a ball, a strike, a foul or a ball in play.
#[verifier::spinoff_prover]
#[verifier::rlimit(60)]
fn pitch<'a>(r: &Reader<'a>, ctx: &ParsingContext) -> (res: Option<ParsedEventMessage<&'a str>>)
    requires
        r.wf(),
    ensures
        ctx.read_as(res, r.text@, EventType::Pitch),
        forall|count: (u8, u8)| ctx.wf() && r.text@ == ball_form(ctx.space(), count)
            ==> (res matches Some(m) && is_plain_ball(m, count)),
        forall|kind: StrikeType, count: (u8, u8)| ctx.wf() && r.text@ == strike_form(ctx.space(), kind, count)
            ==> (res matches Some(m) && is_plain_strike(m, kind, count)),
        forall|kind: FoulType, count: (u8, u8)| ctx.wf() && r.text@ == foul_form(ctx.space(), kind, count)
            ==> (res matches Some(m) && is_plain_foul(m, kind, count)),
        forall|batter: Seq<char>| ctx.wf() && stops_after(batter, " walks."@) && r.text@ == #[trigger] walk_form(ctx.space(), batter)
            ==> (res matches Some(m) && is_plain_walk(m, batter)),
        forall|batter: Seq<char>, kind: FairBallType, destination: FairBallDestination|
            ctx.wf() && stops_after(batter, " hits a "@) && plain_batter(batter)
            && r.text@ == #[trigger] fair_ball_form(ctx.space(), batter, kind, destination)
            ==> (res matches Some(m) && is_plain_fair_ball(m, batter, kind, destination)),
        forall|count: (u8, u8), runner: Seq<char>, base: crate::enums::Base|
            ctx.wf() && #[trigger] ball_steal_form(r.text@, ctx.space(), count, runner, base) ==> res is Some,
        forall|kind: StrikeType, count: (u8, u8), c: Seq<char>| ctx.wf() && cheers_allowed(ctx) && plain_pitch_cheer(cheer_emoji(ctx), c)
            && r.text@ == #[trigger] strike_cheer_form(ctx.space(), kind, count, cheer_emoji(ctx), c)
            ==> (res matches Some(m) && is_cheered_strike(m, kind, count, c)),
        forall|count: (u8, u8), c: Seq<char>| ctx.wf() && cheers_allowed(ctx) && plain_ball_cheer(cheer_emoji(ctx), c)
            && r.text@ == #[trigger] ball_cheer_form(ctx.space(), count, cheer_emoji(ctx), c)
            ==> (res matches Some(m) && is_cheered_ball(m, count, c)),
        forall|count: (u8, u8), p1: Place, n1: Seq<char>, p2: Place, n2: Seq<char>| ctx.wf()
            && plain_aurora(ctx.home_emoji_team.emoji@, p1, n1, ctx.away_emoji_team.emoji@, p2, n2)
            && r.text@ == #[trigger] ball_aurora_form(ctx.space(), count, ctx.home_emoji_team.emoji@, p1, n1, ctx.away_emoji_team.emoji@, p2, n2)
            ==> (res matches Some(m) && is_photographed_ball(m, count, ctx.home_emoji_team.emoji@, p1, n1, ctx.away_emoji_team.emoji@, p2, n2)),
        forall|kind: FoulType, count: (u8, u8), c: Seq<char>| ctx.wf() && cheers_allowed(ctx) && plain_pitch_cheer(cheer_emoji(ctx), c)
            && r.text@ == #[trigger] foul_cheer_form(ctx.space(), kind, count, cheer_emoji(ctx), c)
            ==> (res matches Some(m) && is_cheered_foul(m, kind, count, c)),
        forall|batter: Seq<char>, kind: FairBallType, destination: FairBallDestination, c: Seq<char>|
            ctx.wf() && cheers_allowed(ctx) && stops_after(batter, " hits a "@) && plain_batter(batter) && stops_after(c, "!"@)
            && r.text@ == #[trigger] fair_ball_cheer_form(ctx.space(), batter, kind, destination, cheer_emoji(ctx), c)
            ==> (res matches Some(m) && is_cheered_fair_ball(m, batter, kind, destination, c)),
        forall|batter: Seq<char>, rs: Seq<Seq<char>>, advs: Seq<(Seq<char>, crate::enums::Base)>| ctx.wf() && stops_after(batter, " walks."@)
            && readable_runs(rs, advs) && r.text@ == #[trigger] walk_runs_form(ctx.space(), batter, rs, advs)
            ==> (res matches Some(m) && is_running_walk(m, batter, rs, advs)),
        forall|batter: Seq<char>, c: Seq<char>| ctx.wf() && cheers_allowed(ctx) && stops_after(batter, " walks."@)
            && plain_cheer(cheer_emoji(ctx), c) && r.text@ == #[trigger] walk_cheer_form(ctx.space(), batter, cheer_emoji(ctx), c)
            ==> (res matches Some(m) && is_cheered_walk(m, batter, c)),
{
    if !ctx.is_wf() {
        return None;
    }
    let n = r.len();
    proof {
        reveal_strlit("Ball 4. ");
        reveal_strlit(" ");
        assert forall|batter: Seq<char>| r.text@ == #[trigger] walk_form(ctx.space(), batter) implies
            (ctx.space() == " "@ ==> r.chars@.subrange(0, 1) == " "@)
            && (ctx.space() != " "@ ==> n >= 1 && r.chars@[0] != ' ') by {
            assert(ctx.space() == " "@ || ctx.space() == Seq::<char>::empty());
            if ctx.space() == " "@ {
                assert(r.chars@.subrange(0, 1) =~= " "@);
            } else {
                assert(r.chars@[0] == 'B');
            }
        }
    }
    proof {
        reveal_strlit(" ");
        reveal_strlit("Ball. ");
        reveal_strlit("Strike, ");
        reveal_strlit("Foul ");
        let space = ctx.space();
        assert(space == " "@ || space == Seq::<char>::empty());
        if plain_pitch_forms_fail(r, ctx, space.len() as usize) {
            if space == " "@ {
                assert(r.chars@.subrange(0, 1) =~= " "@);
            } else {
                assert(r.chars@[0] != ' ');
                if n >= 1 {
                    assert(r.chars@.subrange(0, 1)[0] == r.chars@[0]);
                }
            }
        }
    }
    let p0 = match r.lit(0, n, " ") {
        Some(p) => p,
        None => 0,
    };
    proof {
        reveal_strlit(" hits a ");
        reveal_strlit("Ball 4. ");
        reveal_strlit("Ball. ");
        reveal_strlit("Strike, ");
        reveal_strlit("Foul ");
        assert forall|batter: Seq<char>, kind: FairBallType, destination: FairBallDestination|
            plain_batter(batter) && r.text@ == #[trigger] fair_ball_form(ctx.space(), batter, kind, destination)
            implies p0 == ctx.space().len()
            && !begins_with(r.text@.subrange(p0 as int, n as int), "Ball 4. "@)
            && !begins_with(r.text@.subrange(p0 as int, n as int), "Ball. "@)
            && !begins_with(r.text@.subrange(p0 as int, n as int), "Strike, "@)
            && !begins_with(r.text@.subrange(p0 as int, n as int), "Foul "@) by {
            let space = ctx.space();
            assert(space == " "@ || space == Seq::<char>::empty());
            let start = batter + " hits a "@;
            let rest = kind.spec_name() + " to "@ + destination.spec_name() + "."@;
            if space == " "@ {
                assert(r.chars@.subrange(0, 1) =~= " "@);
            } else {
                assert(r.chars@[0] == batter[0]);
                assert(r.chars@.subrange(0, 1)[0] == r.chars@[0]);
            }
            assert(r.text@.subrange(p0 as int, n as int) =~= start + rest);
            lemma_begins_with_start(start, rest, "Ball 4. "@);
            lemma_begins_with_start(start, rest, "Ball. "@);
            lemma_begins_with_start(start, rest, "Strike, "@);
            lemma_begins_with_start(start, rest, "Foul "@);
        }
        assert forall|batter: Seq<char>, kind: FairBallType, destination: FairBallDestination, c: Seq<char>|
            plain_batter(batter) && r.text@ == #[trigger] fair_ball_cheer_form(ctx.space(), batter, kind, destination, cheer_emoji(ctx), c)
            implies p0 == ctx.space().len()
            && !begins_with(r.text@.subrange(p0 as int, n as int), "Ball 4. "@)
            && !begins_with(r.text@.subrange(p0 as int, n as int), "Ball. "@)
            && !begins_with(r.text@.subrange(p0 as int, n as int), "Strike, "@)
            && !begins_with(r.text@.subrange(p0 as int, n as int), "Foul "@) by {
            let space = ctx.space();
            assert(space == " "@ || space == Seq::<char>::empty());
            let start = batter + " hits a "@;
            let rest = kind.spec_name() + " to "@ + destination.spec_name() + "."@ + cheer_sentence(cheer_emoji(ctx), c);
            if space == " "@ {
                assert(r.chars@.subrange(0, 1) =~= " "@);
            } else {
                assert(r.chars@[0] == batter[0]);
                assert(r.chars@.subrange(0, 1)[0] == r.chars@[0]);
            }
            assert(r.text@.subrange(p0 as int, n as int) =~= start + rest);
            lemma_begins_with_start(start, rest, "Ball 4. "@);
            lemma_begins_with_start(start, rest, "Ball. "@);
            lemma_begins_with_start(start, rest, "Strike, "@);
            lemma_begins_with_start(start, rest, "Foul "@);
        }
        assert forall|count: (u8, u8), p1: Place, n1: Seq<char>, p2: Place, n2: Seq<char>|
            r.text@ == #[trigger] ball_aurora_form(ctx.space(), count, ctx.home_emoji_team.emoji@, p1, n1, ctx.away_emoji_team.emoji@, p2, n2)
            implies p0 == ctx.space().len()
            && !begins_with(r.text@.subrange(p0 as int, n as int), "Ball 4. "@) by {
            reveal_strlit("Ball. ");
            reveal_strlit("Ball 4. ");
            let space = ctx.space();
            assert(space == " "@ || space == Seq::<char>::empty());
            if space == " "@ {
                assert(r.chars@.subrange(0, 1) =~= " "@);
            } else {
                assert(r.chars@[0] == 'B');
                assert(r.chars@.subrange(0, 1)[0] == r.chars@[0]);
            }
            let t = r.text@.subrange(p0 as int, n as int);
            assert(t[4] == '.');
            if begins_with(t, "Ball 4. "@) {
                assert(t.subrange(0, 8)[4] == t[4]);
            }
        }
        assert forall|count: (u8, u8), c: Seq<char>|
            r.text@ == #[trigger] ball_cheer_form(ctx.space(), count, cheer_emoji(ctx), c)
            implies p0 == ctx.space().len()
            && !begins_with(r.text@.subrange(p0 as int, n as int), "Ball 4. "@) by {
            reveal_strlit("Ball. ");
            reveal_strlit("Ball 4. ");
            let space = ctx.space();
            assert(space == " "@ || space == Seq::<char>::empty());
            if space == " "@ {
                assert(r.chars@.subrange(0, 1) =~= " "@);
            } else {
                assert(r.chars@[0] == 'B');
                assert(r.chars@.subrange(0, 1)[0] == r.chars@[0]);
            }
            let t = r.text@.subrange(p0 as int, n as int);
            assert(t[4] == '.');
            if begins_with(t, "Ball 4. "@) {
                assert(t.subrange(0, 8)[4] == t[4]);
            }
        }
        assert forall|kind: FoulType, count: (u8, u8), c: Seq<char>|
            r.text@ == #[trigger] foul_cheer_form(ctx.space(), kind, count, cheer_emoji(ctx), c)
            implies p0 == ctx.space().len()
            && !begins_with(r.text@.subrange(p0 as int, n as int), "Ball 4. "@)
            && !begins_with(r.text@.subrange(p0 as int, n as int), "Ball. "@)
            && !begins_with(r.text@.subrange(p0 as int, n as int), "Strike, "@) by {
            reveal_strlit("Foul ");
            let space = ctx.space();
            assert(space == " "@ || space == Seq::<char>::empty());
            if space == " "@ {
                assert(r.chars@.subrange(0, 1) =~= " "@);
            } else {
                assert(r.chars@[0] == 'F');
                assert(r.chars@.subrange(0, 1)[0] == r.chars@[0]);
            }
            let t = r.text@.subrange(p0 as int, n as int);
            assert(t[0] == 'F');
            if begins_with(t, "Ball 4. "@) {
                assert(t.subrange(0, 8)[0] == t[0]);
            }
            if begins_with(t, "Ball. "@) {
                assert(t.subrange(0, 6)[0] == t[0]);
            }
            if begins_with(t, "Strike, "@) {
                assert(t.subrange(0, 8)[0] == t[0]);
            }
        }
        assert forall|kind: StrikeType, count: (u8, u8), c: Seq<char>|
            r.text@ == #[trigger] strike_cheer_form(ctx.space(), kind, count, cheer_emoji(ctx), c)
            implies p0 == ctx.space().len()
            && !begins_with(r.text@.subrange(p0 as int, n as int), "Ball 4. "@)
            && !begins_with(r.text@.subrange(p0 as int, n as int), "Ball. "@) by {
            reveal_strlit("Strike, ");
            let space = ctx.space();
            assert(space == " "@ || space == Seq::<char>::empty());
            if space == " "@ {
                assert(r.chars@.subrange(0, 1) =~= " "@);
            } else {
                assert(r.chars@[0] == 'S');
                assert(r.chars@.subrange(0, 1)[0] == r.chars@[0]);
            }
            let t = r.text@.subrange(p0 as int, n as int);
            assert(t[0] == 'S');
            if begins_with(t, "Ball 4. "@) {
                assert(t.subrange(0, 8)[0] == t[0]);
            }
            if begins_with(t, "Ball. "@) {
                assert(t.subrange(0, 6)[0] == t[0]);
            }
        }
        assert forall|batter: Seq<char>| r.text@ == #[trigger] walk_form(ctx.space(), batter) implies
            p0 == ctx.space().len() by {
            assert(ctx.space() == " "@ || ctx.space() == Seq::<char>::empty());
            if ctx.space() != " "@ {
                assert(r.chars@.subrange(0, 1)[0] == r.chars@[0]);
            }
        }
        assert forall|batter: Seq<char>, c: Seq<char>| r.text@ == #[trigger] walk_cheer_form(ctx.space(), batter, cheer_emoji(ctx), c) implies
            p0 == ctx.space().len() by {
            assert(ctx.space() == " "@ || ctx.space() == Seq::<char>::empty());
            if ctx.space() == " "@ {
                assert(r.chars@.subrange(0, 1) =~= " "@);
            } else {
                assert(r.chars@[0] == 'B');
                assert(r.chars@.subrange(0, 1)[0] == r.chars@[0]);
            }
        }
        assert forall|batter: Seq<char>, rs: Seq<Seq<char>>, advs: Seq<(Seq<char>, crate::enums::Base)>| r.text@ == #[trigger] walk_runs_form(ctx.space(), batter, rs, advs) implies
            p0 == ctx.space().len() by {
            assert(ctx.space() == " "@ || ctx.space() == Seq::<char>::empty());
            if ctx.space() == " "@ {
                assert(r.chars@.subrange(0, 1) =~= " "@);
            } else {
                assert(r.chars@[0] == 'B');
                assert(r.chars@.subrange(0, 1)[0] == r.chars@[0]);
            }
        }
    }
    proof {
        reveal_strlit(" ");
        reveal_strlit("Ball. ");
        assert forall|count: (u8, u8), runner: Seq<char>, base: crate::enums::Base|
            #[trigger] ball_steal_form(r.text@, ctx.space(), count, runner, base) implies p0 == ctx.space().len() by {
            assert(ctx.space() == " "@ || ctx.space() == Seq::<char>::empty());
            if ctx.space() == " "@ {
                assert(r.chars@.subrange(0, 1) =~= " "@);
            } else {
                assert(r.chars@[0] == 'B');
                assert(r.chars@.subrange(0, 1)[0] == r.chars@[0]);
            }
        }
    }
    if let Some(m) = walk(r, ctx, p0) {
        return Some(m);
    }
    if let Some(m) = ball(r, ctx, p0) {
        return Some(m);
    }
    if let Some(m) = strike(r, ctx, p0) {
        return Some(m);
    }
    if let Some(m) = foul(r, ctx, p0) {
        return Some(m);
    }
    fair_ball(r, ctx, p0)
}

/// "Ball 4. {batter} walks.", then runners scoring and advancing and a cheer.
#[verifier::spinoff_prover]
fn walk<'a>(r: &Reader<'a>, ctx: &ParsingContext, p0: usize) -> (res: Option<ParsedEventMessage<&'a str>>)
    requires
        r.wf(),
        ctx.wf(),
        p0 <= r.size(),
    ensures
        ctx.read_as(res, r.text@, EventType::Pitch),
        !begins_with(r.text@.subrange(p0 as int, r.size() as int), "Ball 4. "@) ==> res is None,
        plain_pitch_forms_fail(r, ctx, p0) ==> res is None,
        forall|batter: Seq<char>| p0 == ctx.space().len() && stops_after(batter, " walks."@)
            && r.text@ == #[trigger] walk_form(ctx.space(), batter)
            ==> (res matches Some(m) && is_plain_walk(m, batter)),
        forall|batter: Seq<char>, rs: Seq<Seq<char>>, advs: Seq<(Seq<char>, crate::enums::Base)>| p0 == ctx.space().len() && stops_after(batter, " walks."@)
            && readable_runs(rs, advs) && r.text@ == #[trigger] walk_runs_form(ctx.space(), batter, rs, advs)
            ==> (res matches Some(m) && is_running_walk(m, batter, rs, advs)),
        forall|batter: Seq<char>, c: Seq<char>| p0 == ctx.space().len() && cheers_allowed(ctx) && stops_after(batter, " walks."@)
            && plain_cheer(cheer_emoji(ctx), c) && r.text@ == #[trigger] walk_cheer_form(ctx.space(), batter, cheer_emoji(ctx), c)
            ==> (res matches Some(m) && is_cheered_walk(m, batter, c)),
{
    let n = r.len();
    proof {
        reveal_strlit(" walks.");
        reveal_strlit("Ball 4. ");
        assert forall|batter: Seq<char>, c: Seq<char>| p0 == ctx.space().len()
            && r.text@ == #[trigger] walk_cheer_form(ctx.space(), batter, cheer_emoji(ctx), c)
            implies p0 + 8 <= n && r.chars@.subrange(p0 as int, p0 + 8) == "Ball 4. "@
            && p0 + 8 + batter.len() + 7 <= n
            && r.text@.subrange(p0 + 8, p0 + 8 + batter.len() + 7) == batter + " walks."@
            && p0 + 8 + batter.len() + 7 + cheer_sentence(cheer_emoji(ctx), c).len() == n
            && r.text@.subrange(p0 + 8 + batter.len() + 7, n as int) == cheer_sentence(cheer_emoji(ctx), c) by {
            let t = cheer_sentence(cheer_emoji(ctx), c);
            assert(r.text@ =~= ctx.space() + "Ball 4. "@ + (batter + " walks."@) + t);
            assert(r.chars@.subrange(p0 as int, p0 + 8) =~= "Ball 4. "@);
            assert(r.text@.subrange(p0 + 8, p0 + 8 + batter.len() + 7) =~= batter + " walks."@);
            assert(r.text@.subrange(p0 + 8 + batter.len() + 7, n as int) =~= t);
        }
    }
    proof {
        reveal_strlit(" walks.");
        reveal_strlit("Ball 4. ");
    }
    proof {
        reveal_strlit(" walks.");
        reveal_strlit("Ball 4. ");
        assert forall|batter: Seq<char>, rs: Seq<Seq<char>>, advs: Seq<(Seq<char>, crate::enums::Base)>| p0 == ctx.space().len()
            && r.text@ == #[trigger] walk_runs_form(ctx.space(), batter, rs, advs)
            implies p0 + 8 <= n && r.chars@.subrange(p0 as int, p0 + 8) == "Ball 4. "@
            && p0 + 8 + batter.len() + 7 <= n
            && r.text@.subrange(p0 + 8, p0 + 8 + batter.len() + 7) == batter + " walks."@
            && p0 + 8 + batter.len() + 7 + crate::reader::runs_text(rs, advs).len() == n
            && r.text@.subrange(p0 + 8 + batter.len() + 7, n as int) == crate::reader::runs_text(rs, advs) by {
            let t = crate::reader::runs_text(rs, advs);
            assert(r.text@ =~= ctx.space() + "Ball 4. "@ + (batter + " walks."@) + t);
            assert(r.chars@.subrange(p0 as int, p0 + 8) =~= "Ball 4. "@);
            assert(r.text@.subrange(p0 + 8, p0 + 8 + batter.len() + 7) =~= batter + " walks."@);
            assert(r.text@.subrange(p0 + 8 + batter.len() + 7, n as int) =~= t);
        }
    }
    proof {
        reveal_strlit(" walks.");
        assert forall|batter: Seq<char>| p0 == ctx.space().len() && stops_after(batter, " walks."@)
            && r.text@ == #[trigger] walk_form(ctx.space(), batter)
            implies p0 + 8 <= n && r.chars@.subrange(p0 as int, p0 + 8) == "Ball 4. "@
            && occurs_at(r.chars@, p0 + 8 + batter.len(), " walks."@)
            && (forall|k: int| p0 + 8 <= k < p0 + 8 + batter.len() ==> !#[trigger] occurs_at(r.chars@, k, " walks."@))
            && p0 + 8 + batter.len() + 7 == n by {
            reveal_strlit("Ball 4. ");
            assert(r.chars@.subrange(p0 as int, p0 + 8) =~= "Ball 4. "@);
            assert(r.chars@.subrange(p0 + 8, n as int) =~= batter + " walks."@);
            crate::text::lemma_stops_after(r.chars@, p0 + 8, batter, " walks."@);
        }
        reveal_strlit("Ball 4. ");
        reveal_strlit("Ball. ");
        reveal_strlit("Strike, ");
        reveal_strlit("Foul ");
        if plain_pitch_forms_fail(r, ctx, p0) && p0 + 8 <= n {
            assert(r.chars@.subrange(p0 as int, p0 + 8)[4] == r.chars@[p0 + 4]);
            assert(r.chars@.subrange(p0 as int, p0 + 8)[0] == r.chars@[p0 as int]);
        }
    }
    let p = r.lit(p0, n, "Ball 4. ")?;
    proof {
        assert(r.text@.subrange(p0 as int, n as int).subrange(0, "Ball 4. "@.len() as int) =~= r.chars@.subrange(p0 as int, p as int));
    }
    let (batter, q) = match r.until(p, n, " walks.") {
        Some(x) => x,
        None => {
            proof {
                assert forall|batter: Seq<char>| p0 == ctx.space().len() && stops_after(batter, " walks."@)
                    && r.text@ == #[trigger] walk_form(ctx.space(), batter) implies false by {
                    assert(occurs_at(r.chars@, p + batter.len(), " walks."@));
                }
                assert forall|batter: Seq<char>, rs: Seq<Seq<char>>, advs: Seq<(Seq<char>, crate::enums::Base)>| p0 == ctx.space().len() && stops_after(batter, " walks."@)
                    && r.text@ == #[trigger] walk_runs_form(ctx.space(), batter, rs, advs)
                    implies false by {
                    assert(r.text@.subrange(p as int, p + batter.len() + 7) == batter + " walks."@);
                }
                assert forall|batter: Seq<char>, c: Seq<char>| p0 == ctx.space().len() && stops_after(batter, " walks."@)
                    && r.text@ == #[trigger] walk_cheer_form(ctx.space(), batter, cheer_emoji(ctx), c)
                    implies false by {
                    assert(r.text@.subrange(p as int, p + batter.len() + 7) == batter + " walks."@);
                }
            }
            return None;
        },
    };
    proof {
        assert forall|name: Seq<char>| p0 == ctx.space().len() && stops_after(name, " walks."@)
            && r.text@ == #[trigger] walk_form(ctx.space(), name) implies q == n && batter@ == name by {
            let k = p + name.len();
            assert(occurs_at(r.chars@, k, " walks."@));
            if q - 7 < k {
                assert(!occurs_at(r.chars@, q - 7, " walks."@));
            }
            if q - 7 > k {
                assert(!occurs_at(r.chars@, k, " walks."@));
            }
            assert(batter@ =~= name);
        }
    }
    proof {
        assert forall|name: Seq<char>, rs: Seq<Seq<char>>, advs: Seq<(Seq<char>, crate::enums::Base)>| p0 == ctx.space().len() && stops_after(name, " walks."@)
            && r.text@ == #[trigger] walk_runs_form(ctx.space(), name, rs, advs)
            implies batter@ == name && q == p + name.len() + 7 by {
            assert(r.text@.subrange(p as int, p + name.len() + 7) == name + " walks."@);
        }
        reveal_strlit(" <strong>");
        reveal_strlit(" 📣 ");
        reveal_strlit(" ");
        reveal_strlit("!");
        assert forall|name: Seq<char>, c: Seq<char>| p0 == ctx.space().len() && stops_after(name, " walks."@)
            && plain_cheer(cheer_emoji(ctx), c) && r.text@ == #[trigger] walk_cheer_form(ctx.space(), name, cheer_emoji(ctx), c)
            implies batter@ == name && q == p + name.len() + 7
            && !(q + 9 <= n && r.chars@.subrange(q as int, q + 9) == " <strong>"@)
            && (forall|k: int| q <= k && k + 4 <= n ==> !#[trigger] occurs_at(r.chars@, k, " to "@)) by {
            assert(r.text@.subrange(p as int, p + name.len() + 7) == name + " walks."@);
            let t = cheer_sentence(cheer_emoji(ctx), c);
            assert(r.text@.subrange(q as int, n as int) == t);
            crate::text::lemma_lacks(r.chars@, q as int, t, " to "@);
            if q + 9 <= n && r.chars@.subrange(q as int, q + 9) == " <strong>"@ {
                assert(r.chars@.subrange(q as int, q + 9)[1] == t[1]);
                if cheer_emoji(ctx) {
                    assert(t[1] == " 📣 "@[1]);
                } else if c.len() == 0 {
                    assert(t[1] == '!');
                } else {
                    assert(t[1] == c[0]);
                }
            }
        }
    }
    let (scores, advances, p) = r.scores_and_advances(q, n);
    let (cheer, _) = cheer_at(r, ctx, p, n)?;
    let m = ParsedEventMessage::Walk { batter, scores, advances, cheer, aurora_photos: None, ejection: None, wither: None };
    proof {
        assert forall|name: Seq<char>, rs: Seq<Seq<char>>, advs: Seq<(Seq<char>, crate::enums::Base)>| p0 == ctx.space().len() && stops_after(name, " walks."@)
            && readable_runs(rs, advs) && r.text@ == #[trigger] walk_runs_form(ctx.space(), name, rs, advs)
            implies ctx.writes(m, r.text@) && is_running_walk(m, name, rs, advs) by {
            let t = crate::reader::runs_text(rs, advs);
            assert(r.text@.subrange(q as int, n as int) == t);
            crate::reader::lemma_scores_text(scores@, rs);
            crate::reader::lemma_advances_text(advances@, advs);
            assert(m.spec_walk_text(ctx.spec_unparsing(), ctx.event_index) =~= r.text@);
        }
        assert forall|name: Seq<char>, c: Seq<char>| p0 == ctx.space().len() && cheers_allowed(ctx) && stops_after(name, " walks."@)
            && plain_cheer(cheer_emoji(ctx), c) && r.text@ == #[trigger] walk_cheer_form(ctx.space(), name, cheer_emoji(ctx), c)
            implies ctx.writes(m, r.text@) && is_cheered_walk(m, name, c) by {
            let t = cheer_sentence(cheer_emoji(ctx), c);
            assert(r.text@.subrange(q as int, n as int) == t);
            assert(scores_text(scores@) == Seq::<char>::empty());
            assert(advances_text(advances@) == Seq::<char>::empty());
            assert(m.spec_walk_text(ctx.spec_unparsing(), ctx.event_index) =~= r.text@);
        }
    }
    proof {
        assert forall|name: Seq<char>| p0 == ctx.space().len() && stops_after(name, " walks."@)
            && r.text@ == #[trigger] walk_form(ctx.space(), name) implies ctx.writes(m, r.text@) by {
            assert(scores_text(scores@) == Seq::<char>::empty());
            assert(advances_text(advances@) == Seq::<char>::empty());
            assert(m.spec_walk_text(ctx.spec_unparsing(), ctx.event_index) =~= r.text@);
        }
    }
    ctx.accept(m, r.text)
}

/// "Ball. {count}", then steals, photos of the aurora and a cheer.
#[verifier::spinoff_prover]
#[verifier::rlimit(100)]
fn ball<'a>(r: &Reader<'a>, ctx: &ParsingContext, p0: usize) -> (res: Option<ParsedEventMessage<&'a str>>)
    requires
        r.wf(),
        ctx.wf(),
        p0 <= r.size(),
    ensures
        ctx.read_as(res, r.text@, EventType::Pitch),
        !begins_with(r.text@.subrange(p0 as int, r.size() as int), "Ball. "@) ==> res is None,
        forall|count: (u8, u8)| r.text@ == ball_form(ctx.space(), count) && p0 == ctx.space().len()
            ==> (res matches Some(m) && is_plain_ball(m, count)),
        forall|kind: StrikeType, count: (u8, u8)| r.text@ == strike_form(ctx.space(), kind, count) && p0 == ctx.space().len()
            ==> res is None,
        forall|kind: FoulType, count: (u8, u8)| r.text@ == foul_form(ctx.space(), kind, count) && p0 == ctx.space().len()
            ==> res is None,
        forall|count: (u8, u8), runner: Seq<char>, base: crate::enums::Base| #[trigger] ball_steal_form(r.text@, ctx.space(), count, runner, base) && p0 == ctx.space().len()
            ==> (res matches Some(ParsedEventMessage::Ball { steals, count: c, cheer, aurora_photos, .. })
                && c == count && steals@.len() == 1 && steals@[0].runner@ == runner && steals@[0].base == base
                && !steals@[0].caught && cheer is None && aurora_photos is None),
        forall|count: (u8, u8), c: Seq<char>| p0 == ctx.space().len() && cheers_allowed(ctx) && plain_ball_cheer(cheer_emoji(ctx), c)
            && r.text@ == #[trigger] ball_cheer_form(ctx.space(), count, cheer_emoji(ctx), c)
            ==> (res matches Some(m) && is_cheered_ball(m, count, c)),
        forall|count: (u8, u8), p1: Place, n1: Seq<char>, p2: Place, n2: Seq<char>| p0 == ctx.space().len()
            && plain_aurora(ctx.home_emoji_team.emoji@, p1, n1, ctx.away_emoji_team.emoji@, p2, n2)
            && r.text@ == #[trigger] ball_aurora_form(ctx.space(), count, ctx.home_emoji_team.emoji@, p1, n1, ctx.away_emoji_team.emoji@, p2, n2)
            ==> (res matches Some(m) && is_photographed_ball(m, count, ctx.home_emoji_team.emoji@, p1, n1, ctx.away_emoji_team.emoji@, p2, n2)),
{
    let n = r.len();
    proof {
        reveal_strlit("Ball. ");
        assert forall|count: (u8, u8), c: Seq<char>| p0 == ctx.space().len() && cheers_allowed(ctx) && plain_ball_cheer(cheer_emoji(ctx), c)
            && r.text@ == #[trigger] ball_cheer_form(ctx.space(), count, cheer_emoji(ctx), c) implies
            p0 + 6 <= n && r.chars@.subrange(p0 as int, p0 + 6) == "Ball. "@
            && r.chars@.subrange(p0 + 6, n as int) == count_text(count) + cheer_sentence(cheer_emoji(ctx), c) by {
            assert(r.chars@.subrange(p0 as int, p0 + 6) =~= "Ball. "@);
            assert(r.chars@.subrange(p0 + 6, n as int) =~= count_text(count) + cheer_sentence(cheer_emoji(ctx), c));
        }
    }
    proof {
        reveal_strlit("Strike, ");
        reveal_strlit("Foul ");
        if p0 + 6 <= n {
            assert(r.chars@.subrange(p0 as int, p0 + 6)[0] == r.chars@[p0 as int]);
        }
        reveal_strlit("Ball. ");
        assert forall|count: (u8, u8), runner: Seq<char>, base: crate::enums::Base| #[trigger] ball_steal_form(r.text@, ctx.space(), count, runner, base) && p0 == ctx.space().len() implies
            p0 + 6 <= n && r.chars@.subrange(p0 as int, p0 + 6) == "Ball. "@
            && r.chars@.subrange(p0 + 6, n as int) == count_text(count) + crate::reader::steal_text(runner, base) by {
            assert(r.chars@.subrange(p0 as int, p0 + 6) =~= "Ball. "@);
            assert(r.chars@.subrange(p0 + 6, n as int) =~= count_text(count) + crate::reader::steal_text(runner, base));
        }
        assert forall|count: (u8, u8)| r.text@ == ball_form(ctx.space(), count) && p0 == ctx.space().len() implies
            p0 + 6 <= n && r.chars@.subrange(p0 as int, p0 + 6) == "Ball. "@
            && r.chars@.subrange(p0 + 6, n as int) == count_text(count) by {
            assert(r.chars@.subrange(p0 as int, p0 + 6) =~= "Ball. "@);
            assert(r.chars@.subrange(p0 + 6, n as int) =~= count_text(count));
        }
    }
    proof {
        reveal_strlit("Ball. ");
        assert forall|count: (u8, u8), p1: Place, n1: Seq<char>, p2: Place, n2: Seq<char>| p0 == ctx.space().len()
            && plain_aurora(ctx.home_emoji_team.emoji@, p1, n1, ctx.away_emoji_team.emoji@, p2, n2)
            && r.text@ == #[trigger] ball_aurora_form(ctx.space(), count, ctx.home_emoji_team.emoji@, p1, n1, ctx.away_emoji_team.emoji@, p2, n2) implies
            p0 + 6 <= n && r.chars@.subrange(p0 as int, p0 + 6) == "Ball. "@
            && r.chars@.subrange(p0 + 6, n as int) == count_text(count)
                + aurora_text(ctx.home_emoji_team.emoji@, p1, n1, ctx.away_emoji_team.emoji@, p2, n2) by {
            let a = aurora_text(ctx.home_emoji_team.emoji@, p1, n1, ctx.away_emoji_team.emoji@, p2, n2);
            assert(r.chars@.subrange(p0 as int, p0 + 6) =~= "Ball. "@);
            assert(r.chars@.subrange(p0 + 6, n as int) =~= count_text(count) + a);
        }
    }
    let p = r.lit(p0, n, "Ball. ")?;
    proof {
        assert(r.text@.subrange(p0 as int, n as int).subrange(0, "Ball. "@.len() as int) =~= r.chars@.subrange(p0 as int, p as int));
    }
    let (count, p) = count_at(r, p, n)?;
    proof {
        reveal_strlit(" is caught stealing ");
        assert forall|count: (u8, u8), runner: Seq<char>, base: crate::enums::Base| #[trigger] ball_steal_form(r.text@, ctx.space(), count, runner, base) && p0 == ctx.space().len() implies
            p + crate::reader::steal_text(runner, base).len() == n
            && r.text@.subrange(p as int, n as int) == crate::reader::steal_text(runner, base)
            && (forall|k: int| p + 1 <= k < p + 1 + runner.len() ==> !#[trigger] occurs_at(r.chars@, k, " is caught stealing "@)) by {
            assert(r.text@.subrange(p as int, n as int) =~= crate::reader::steal_text(runner, base));
        }
    }
    proof {
        assert forall|ct: (u8, u8), c: Seq<char>| p0 == ctx.space().len() && cheers_allowed(ctx)
            && plain_ball_cheer(cheer_emoji(ctx), c)
            && r.text@ == #[trigger] ball_cheer_form(ctx.space(), ct, cheer_emoji(ctx), c) implies
            ct == count
            && p + cheer_sentence(cheer_emoji(ctx), c).len() == n
            && r.text@.subrange(p as int, n as int) == cheer_sentence(cheer_emoji(ctx), c)
            && crate::reader::no_steal_words(r.chars@, p as int, n as int)
            && !(p + 35 <= n && r.chars@.subrange(p as int, p + 35) == " The Geomagnetic Storms Intensify! "@) by {
            reveal_strlit(" The Geomagnetic Storms Intensify! ");
            let cs = cheer_sentence(cheer_emoji(ctx), c);
            assert(r.text@.subrange(p as int, n as int) =~= cs);
            crate::text::lemma_lacks(r.chars@, p as int, cs, " steals "@);
            crate::text::lemma_lacks(r.chars@, p as int, cs, " is caught stealing "@);
            if p + 35 <= n && r.chars@.subrange(p as int, p + 35) == " The Geomagnetic Storms Intensify! "@ {
                assert(cs.subrange(0, 35) =~= r.chars@.subrange(p as int, p + 35));
            }
        }
    }
    proof {
        assert forall|c: (u8, u8), p1: Place, n1: Seq<char>, p2: Place, n2: Seq<char>| p0 == ctx.space().len()
            && plain_aurora(ctx.home_emoji_team.emoji@, p1, n1, ctx.away_emoji_team.emoji@, p2, n2)
            && r.text@ == #[trigger] ball_aurora_form(ctx.space(), c, ctx.home_emoji_team.emoji@, p1, n1, ctx.away_emoji_team.emoji@, p2, n2)
            implies c == count
            && p + aurora_text(ctx.home_emoji_team.emoji@, p1, n1, ctx.away_emoji_team.emoji@, p2, n2).len() == n
            && r.text@.subrange(p as int, n as int) == aurora_text(ctx.home_emoji_team.emoji@, p1, n1, ctx.away_emoji_team.emoji@, p2, n2)
            && crate::reader::no_steal_words(r.chars@, p as int, n as int) by {
            let t = aurora_text(ctx.home_emoji_team.emoji@, p1, n1, ctx.away_emoji_team.emoji@, p2, n2);
            assert(r.text@.subrange(p as int, n as int) =~= t);
            crate::text::lemma_lacks(r.chars@, p as int, t, " steals "@);
            crate::text::lemma_lacks(r.chars@, p as int, t, " is caught stealing "@);
        }
    }
    let (steals, p) = r.steals(p, n);
    proof {
        reveal_strlit(" The Geomagnetic Storms Intensify! ");
    }
    let (aurora_photos, p) = aurora_at(r, ctx, p, n)?;
    let (cheer, _) = cheer_at(r, ctx, p, n)?;
    let m = ParsedEventMessage::Ball {
        steals,
        count,
        cheer,
        aurora_photos,
        ejection: None,
        door_prizes: Vec::new(),
        wither: None,
    };
    proof {
        if steals@.len() == 0 && cheer is None && aurora_photos is None {
            assert(steals@ =~= Seq::<crate::parsed_event::BaseSteal<&'a str>>::empty());
            assert(m.spec_unparse(ctx.spec_unparsing(), ctx.event_index) =~= ball_form(ctx.space(), count));
        }
        assert forall|c: (u8, u8), runner: Seq<char>, base: crate::enums::Base|
            #[trigger] ball_steal_form(r.text@, ctx.space(), c, runner, base) && p0 == ctx.space().len()
            implies ctx.writes(m, r.text@) by {
            reveal_strlit(" ");
            reveal_strlit(" steals ");
            reveal_strlit("!");
            assert(steals@.len() == 1 && steals@[0].runner@ == runner && steals@[0].base == base && !steals@[0].caught);
            assert(steals@.drop_last() =~= Seq::<crate::parsed_event::BaseSteal<&'a str>>::empty());
            assert(steals@.last().spec_text() == runner + " steals "@ + base.spec_base_str() + "!"@);
            assert(crate::parsed_event::steals_text(steals@.drop_last()) == Seq::<char>::empty());
            assert(crate::parsed_event::steals_text(steals@) =~= crate::reader::steal_text(runner, base));
            assert(m.spec_unparse(ctx.spec_unparsing(), ctx.event_index) =~= r.text@);
        }
    }
    proof {
        assert forall|c: (u8, u8), p1: Place, n1: Seq<char>, p2: Place, n2: Seq<char>| p0 == ctx.space().len()
            && plain_aurora(ctx.home_emoji_team.emoji@, p1, n1, ctx.away_emoji_team.emoji@, p2, n2)
            && r.text@ == #[trigger] ball_aurora_form(ctx.space(), c, ctx.home_emoji_team.emoji@, p1, n1, ctx.away_emoji_team.emoji@, p2, n2)
            implies ctx.writes(m, r.text@) by {
            assert(steals@ =~= Seq::<crate::parsed_event::BaseSteal<&'a str>>::empty());
            let ph = aurora_photos->0;
            assert(ph.spec_text() =~= aurora_text(ctx.home_emoji_team.emoji@, p1, n1, ctx.away_emoji_team.emoji@, p2, n2));
            assert(m.spec_unparse(ctx.spec_unparsing(), ctx.event_index) =~= r.text@);
        }
        assert forall|ct: (u8, u8), c: Seq<char>| p0 == ctx.space().len() && cheers_allowed(ctx)
            && plain_ball_cheer(cheer_emoji(ctx), c)
            && r.text@ == #[trigger] ball_cheer_form(ctx.space(), ct, cheer_emoji(ctx), c)
            implies ctx.writes(m, r.text@) by {
            assert(steals@ =~= Seq::<crate::parsed_event::BaseSteal<&'a str>>::empty());
            assert(m.spec_unparse(ctx.spec_unparsing(), ctx.event_index) =~= r.text@);
        }
    }
    ctx.accept(m, r.text)
}

/// "Strike, {kind}. {count}", then steals and a cheer.
#[verifier::spinoff_prover]
#[verifier::rlimit(60)]
fn strike<'a>(r: &Reader<'a>, ctx: &ParsingContext, p0: usize) -> (res: Option<ParsedEventMessage<&'a str>>)
    requires
        r.wf(),
        ctx.wf(),
        p0 <= r.size(),
    ensures
        ctx.read_as(res, r.text@, EventType::Pitch),
        !begins_with(r.text@.subrange(p0 as int, r.size() as int), "Strike, "@) ==> res is None,
        forall|kind: StrikeType, count: (u8, u8)| r.text@ == strike_form(ctx.space(), kind, count) && p0 == ctx.space().len()
            ==> (res matches Some(m) && is_plain_strike(m, kind, count)),
        forall|kind: FoulType, count: (u8, u8)| r.text@ == foul_form(ctx.space(), kind, count) && p0 == ctx.space().len()
            ==> res is None,
        forall|kind: StrikeType, count: (u8, u8), c: Seq<char>| p0 == ctx.space().len() && cheers_allowed(ctx) && plain_pitch_cheer(cheer_emoji(ctx), c)
            && r.text@ == #[trigger] strike_cheer_form(ctx.space(), kind, count, cheer_emoji(ctx), c)
            ==> (res matches Some(m) && is_cheered_strike(m, kind, count, c)),
{
    let n = r.len();
    proof {
        reveal_strlit("Strike, ");
        reveal_strlit(". ");
        reveal_strlit("looking");
        reveal_strlit("swinging");
        assert forall|kind: StrikeType, count: (u8, u8), c: Seq<char>| p0 == ctx.space().len() && cheers_allowed(ctx) && plain_pitch_cheer(cheer_emoji(ctx), c)
            && r.text@ == #[trigger] strike_cheer_form(ctx.space(), kind, count, cheer_emoji(ctx), c) implies ({
            let k = p0 + 8 + kind.spec_name().len();
            &&& p0 + 8 <= n && r.chars@.subrange(p0 as int, p0 + 8) == "Strike, "@
            &&& k + 2 <= n && occurs_at(r.chars@, k, ". "@)
            &&& forall|j: int| p0 + 8 <= j < k ==> !#[trigger] occurs_at(r.chars@, j, ". "@)
            &&& r.text@.subrange(p0 + 8, k) == kind.spec_name()
            &&& r.chars@.subrange(k + 2, n as int) == count_text(count) + cheer_sentence(cheer_emoji(ctx), c)
            &&& StrikeType::spec_parse(kind.spec_name()) == Some(kind)
        }) by {
            let k = p0 + 8 + kind.spec_name().len();
            let cs = cheer_sentence(cheer_emoji(ctx), c);
            assert(r.chars@ =~= ctx.space() + ("Strike, "@ + kind.spec_name() + ". "@) + (count_text(count) + cs));
            assert(r.chars@.subrange(p0 as int, p0 + 8) =~= "Strike, "@);
            assert(r.chars@.subrange(k, k + 2) =~= ". "@);
            assert(r.text@.subrange(p0 + 8, k) =~= kind.spec_name());
            assert(r.chars@.subrange(k + 2, n as int) =~= count_text(count) + cs);
            assert forall|j: int| p0 + 8 <= j < k implies !#[trigger] occurs_at(r.chars@, j, ". "@) by {
                assert(r.chars@[j] == kind.spec_name()[j - p0 - 8]);
                if occurs_at(r.chars@, j, ". "@) {
                    assert(r.chars@.subrange(j, j + 2)[0] == r.chars@[j]);
                }
            }
            kind.lemma_parse_name();
        }
    }
    proof {
        reveal_strlit("Strike, ");
        reveal_strlit("Foul ");
        reveal_strlit(". ");
        reveal_strlit("looking");
        reveal_strlit("swinging");
        if p0 + 8 <= n {
            assert(r.chars@.subrange(p0 as int, p0 + 8)[0] == r.chars@[p0 as int]);
        }
        assert forall|kind: StrikeType, count: (u8, u8)| r.text@ == strike_form(ctx.space(), kind, count) && p0 == ctx.space().len() implies ({
            let k = p0 + 8 + kind.spec_name().len();
            &&& p0 + 8 <= n && r.chars@.subrange(p0 as int, p0 + 8) == "Strike, "@
            &&& k + 2 <= n && occurs_at(r.chars@, k, ". "@)
            &&& forall|j: int| p0 + 8 <= j < k ==> !#[trigger] occurs_at(r.chars@, j, ". "@)
            &&& r.text@.subrange(p0 + 8, k) == kind.spec_name()
            &&& r.chars@.subrange(k + 2, n as int) == count_text(count)
            &&& StrikeType::spec_parse(kind.spec_name()) == Some(kind)
        }) by {
            let k = p0 + 8 + kind.spec_name().len();
            assert(r.chars@.subrange(p0 as int, p0 + 8) =~= "Strike, "@);
            assert(r.chars@.subrange(k, k + 2) =~= ". "@);
            assert(r.text@.subrange(p0 + 8, k) =~= kind.spec_name());
            assert(r.chars@.subrange(k + 2, n as int) =~= count_text(count));
            assert forall|j: int| p0 + 8 <= j < k implies !#[trigger] occurs_at(r.chars@, j, ". "@) by {
                assert(r.chars@[j] == kind.spec_name()[j - p0 - 8]);
                if occurs_at(r.chars@, j, ". "@) {
                    assert(r.chars@.subrange(j, j + 2)[0] == r.chars@[j]);
                }
            }
            kind.lemma_parse_name();
        }
    }
    let p = r.lit(p0, n, "Strike, ")?;
    proof {
        assert(r.text@.subrange(p0 as int, n as int).subrange(0, "Strike, "@.len() as int) =~= r.chars@.subrange(p0 as int, p as int));
    }
    let (kind, p) = r.until(p, n, ". ")?;
    let strike = match StrikeType::from_str(kind) {
        Ok(k) => k,
        Err(_) => return None,
    };
    let (count, p) = count_at(r, p, n)?;
    proof {
        assert forall|kd: StrikeType, ct: (u8, u8), c: Seq<char>| p0 == ctx.space().len() && cheers_allowed(ctx)
            && plain_pitch_cheer(cheer_emoji(ctx), c)
            && r.text@ == #[trigger] strike_cheer_form(ctx.space(), kd, ct, cheer_emoji(ctx), c) implies
            kd == strike && ct == count
            && p + cheer_sentence(cheer_emoji(ctx), c).len() == n
            && r.text@.subrange(p as int, n as int) == cheer_sentence(cheer_emoji(ctx), c)
            && crate::reader::no_steal_words(r.chars@, p as int, n as int) by {
            let cs = cheer_sentence(cheer_emoji(ctx), c);
            assert(r.text@.subrange(p as int, n as int) =~= cs);
            crate::text::lemma_lacks(r.chars@, p as int, cs, " steals "@);
            crate::text::lemma_lacks(r.chars@, p as int, cs, " is caught stealing "@);
        }
    }
    let (steals, p) = r.steals(p, n);
    let (cheer, _) = cheer_at(r, ctx, p, n)?;
    let m = ParsedEventMessage::Strike {
        strike,
        steals,
        count,
        cheer,
        aurora_photos: None,
        ejection: None,
        door_prizes: Vec::new(),
        wither: None,
    };
    proof {
        if steals@.len() == 0 && cheer is None {
            assert(steals@ =~= Seq::<crate::parsed_event::BaseSteal<&'a str>>::empty());
            assert(m.spec_unparse(ctx.spec_unparsing(), ctx.event_index) =~= strike_form(ctx.space(), strike, count));
        }
        assert forall|kd: StrikeType, ct: (u8, u8), c: Seq<char>| p0 == ctx.space().len() && cheers_allowed(ctx)
            && plain_pitch_cheer(cheer_emoji(ctx), c)
            && r.text@ == #[trigger] strike_cheer_form(ctx.space(), kd, ct, cheer_emoji(ctx), c)
            implies ctx.writes(m, r.text@) by {
            assert(steals@ =~= Seq::<crate::parsed_event::BaseSteal<&'a str>>::empty());
            assert(m.spec_unparse(ctx.spec_unparsing(), ctx.event_index) =~= r.text@);
        }
    }
    ctx.accept(m, r.text)
}

/// "Foul {kind}. {count}", then steals and a cheer.
#[verifier::spinoff_prover]
#[verifier::rlimit(60)]
fn foul<'a>(r: &Reader<'a>, ctx: &ParsingContext, p0: usize) -> (res: Option<ParsedEventMessage<&'a str>>)
    requires
        r.wf(),
        ctx.wf(),
        p0 <= r.size(),
    ensures
        ctx.read_as(res, r.text@, EventType::Pitch),
        !begins_with(r.text@.subrange(p0 as int, r.size() as int), "Foul "@) ==> res is None,
        forall|kind: FoulType, count: (u8, u8)| r.text@ == foul_form(ctx.space(), kind, count) && p0 == ctx.space().len()
            ==> (res matches Some(m) && is_plain_foul(m, kind, count)),
        forall|kind: FoulType, count: (u8, u8), c: Seq<char>| p0 == ctx.space().len() && cheers_allowed(ctx) && plain_pitch_cheer(cheer_emoji(ctx), c)
            && r.text@ == #[trigger] foul_cheer_form(ctx.space(), kind, count, cheer_emoji(ctx), c)
            ==> (res matches Some(m) && is_cheered_foul(m, kind, count, c)),
{
    let n = r.len();
    proof {
        reveal_strlit("Foul ");
        reveal_strlit(". ");
        reveal_strlit("tip");
        reveal_strlit("ball");
        assert forall|kind: FoulType, count: (u8, u8), c: Seq<char>| p0 == ctx.space().len() && cheers_allowed(ctx) && plain_pitch_cheer(cheer_emoji(ctx), c)
            && r.text@ == #[trigger] foul_cheer_form(ctx.space(), kind, count, cheer_emoji(ctx), c) implies ({
            let k = p0 + 5 + kind.spec_name().len();
            &&& p0 + 5 <= n && r.chars@.subrange(p0 as int, p0 + 5) == "Foul "@
            &&& k + 2 <= n && occurs_at(r.chars@, k, ". "@)
            &&& forall|j: int| p0 + 5 <= j < k ==> !#[trigger] occurs_at(r.chars@, j, ". "@)
            &&& r.text@.subrange(p0 + 5, k) == kind.spec_name()
            &&& r.chars@.subrange(k + 2, n as int) == count_text(count) + cheer_sentence(cheer_emoji(ctx), c)
            &&& FoulType::spec_parse(kind.spec_name()) == Some(kind)
        }) by {
            let k = p0 + 5 + kind.spec_name().len();
            let cs = cheer_sentence(cheer_emoji(ctx), c);
            assert(r.chars@ =~= ctx.space() + ("Foul "@ + kind.spec_name() + ". "@) + (count_text(count) + cs));
            assert(r.chars@.subrange(p0 as int, p0 + 5) =~= "Foul "@);
            assert(r.chars@.subrange(k, k + 2) =~= ". "@);
            assert(r.text@.subrange(p0 + 5, k) =~= kind.spec_name());
            assert(r.chars@.subrange(k + 2, n as int) =~= count_text(count) + cs);
            assert forall|j: int| p0 + 5 <= j < k implies !#[trigger] occurs_at(r.chars@, j, ". "@) by {
                assert(r.chars@[j] == kind.spec_name()[j - p0 - 5]);
                if occurs_at(r.chars@, j, ". "@) {
                    assert(r.chars@.subrange(j, j + 2)[0] == r.chars@[j]);
                }
            }
            kind.lemma_parse_name();
        }
    }
    proof {
        reveal_strlit("Foul ");
        reveal_strlit(". ");
        reveal_strlit("tip");
        reveal_strlit("ball");
        assert forall|kind: FoulType, count: (u8, u8)| r.text@ == foul_form(ctx.space(), kind, count) && p0 == ctx.space().len() implies ({
            let k = p0 + 5 + kind.spec_name().len();
            &&& p0 + 5 <= n && r.chars@.subrange(p0 as int, p0 + 5) == "Foul "@
            &&& k + 2 <= n && occurs_at(r.chars@, k, ". "@)
            &&& forall|j: int| p0 + 5 <= j < k ==> !#[trigger] occurs_at(r.chars@, j, ". "@)
            &&& r.text@.subrange(p0 + 5, k) == kind.spec_name()
            &&& r.chars@.subrange(k + 2, n as int) == count_text(count)
            &&& FoulType::spec_parse(kind.spec_name()) == Some(kind)
        }) by {
            let k = p0 + 5 + kind.spec_name().len();
            assert(r.chars@.subrange(p0 as int, p0 + 5) =~= "Foul "@);
            assert(r.chars@.subrange(k, k + 2) =~= ". "@);
            assert(r.text@.subrange(p0 + 5, k) =~= kind.spec_name());
            assert(r.chars@.subrange(k + 2, n as int) =~= count_text(count));
            assert forall|j: int| p0 + 5 <= j < k implies !#[trigger] occurs_at(r.chars@, j, ". "@) by {
                assert(r.chars@[j] == kind.spec_name()[j - p0 - 5]);
                if occurs_at(r.chars@, j, ". "@) {
                    assert(r.chars@.subrange(j, j + 2)[0] == r.chars@[j]);
                }
            }
            kind.lemma_parse_name();
        }
    }
    let p = r.lit(p0, n, "Foul ")?;
    proof {
        assert(r.text@.subrange(p0 as int, n as int).subrange(0, "Foul "@.len() as int) =~= r.chars@.subrange(p0 as int, p as int));
    }
    let (kind, p) = r.until(p, n, ". ")?;
    let foul = match FoulType::from_str(kind) {
        Ok(k) => k,
        Err(_) => return None,
    };
    let (count, p) = count_at(r, p, n)?;
    proof {
        assert forall|kd: FoulType, ct: (u8, u8), c: Seq<char>| p0 == ctx.space().len() && cheers_allowed(ctx)
            && plain_pitch_cheer(cheer_emoji(ctx), c)
            && r.text@ == #[trigger] foul_cheer_form(ctx.space(), kd, ct, cheer_emoji(ctx), c) implies
            kd == foul && ct == count
            && p + cheer_sentence(cheer_emoji(ctx), c).len() == n
            && r.text@.subrange(p as int, n as int) == cheer_sentence(cheer_emoji(ctx), c)
            && crate::reader::no_steal_words(r.chars@, p as int, n as int) by {
            let cs = cheer_sentence(cheer_emoji(ctx), c);
            assert(r.text@.subrange(p as int, n as int) =~= cs);
            crate::text::lemma_lacks(r.chars@, p as int, cs, " steals "@);
            crate::text::lemma_lacks(r.chars@, p as int, cs, " is caught stealing "@);
        }
    }
    let (steals, p) = r.steals(p, n);
    let (cheer, _) = cheer_at(r, ctx, p, n)?;
    let m = ParsedEventMessage::Foul { foul, steals, count, cheer, aurora_photos: None, door_prizes: Vec::new(), wither: None };
    proof {
        if steals@.len() == 0 && cheer is None {
            assert(steals@ =~= Seq::<crate::parsed_event::BaseSteal<&'a str>>::empty());
            assert(m.spec_unparse(ctx.spec_unparsing(), ctx.event_index) =~= foul_form(ctx.space(), foul, count));
        }
        assert forall|kd: FoulType, ct: (u8, u8), c: Seq<char>| p0 == ctx.space().len() && cheers_allowed(ctx)
            && plain_pitch_cheer(cheer_emoji(ctx), c)
            && r.text@ == #[trigger] foul_cheer_form(ctx.space(), kd, ct, cheer_emoji(ctx), c)
            implies ctx.writes(m, r.text@) by {
            assert(steals@ =~= Seq::<crate::parsed_event::BaseSteal<&'a str>>::empty());
            assert(m.spec_unparse(ctx.spec_unparsing(), ctx.event_index) =~= r.text@);
        }
    }
    ctx.accept(m, r.text)
}

/// "{batter} hits a {kind} to {destination}.", then a cheer.
#[verifier::spinoff_prover]
#[verifier::rlimit(60)]
fn fair_ball<'a>(r: &Reader<'a>, ctx: &ParsingContext, p0: usize) -> (res: Option<ParsedEventMessage<&'a str>>)
    requires
        r.wf(),
        ctx.wf(),
        p0 <= r.size(),
    ensures
        ctx.read_as(res, r.text@, EventType::Pitch),
        forall|batter: Seq<char>, kind: FairBallType, destination: FairBallDestination|
            p0 == ctx.space().len() && stops_after(batter, " hits a "@)
            && r.text@ == #[trigger] fair_ball_form(ctx.space(), batter, kind, destination)
            ==> (res matches Some(m) && is_plain_fair_ball(m, batter, kind, destination)),
        forall|batter: Seq<char>, kind: FairBallType, destination: FairBallDestination, c: Seq<char>| p0 == ctx.space().len() && cheers_allowed(ctx) && stops_after(batter, " hits a "@) && stops_after(c, "!"@)
            && r.text@ == #[trigger] fair_ball_cheer_form(ctx.space(), batter, kind, destination, cheer_emoji(ctx), c)
            ==> (res matches Some(m) && is_cheered_fair_ball(m, batter, kind, destination, c)),
{
    let n = r.len();
    proof {
        reveal_strlit(" hits a ");
        reveal_strlit(".");
        assert forall|batter: Seq<char>, kind: FairBallType, destination: FairBallDestination, c: Seq<char>| p0 == ctx.space().len() && cheers_allowed(ctx) && stops_after(batter, " hits a "@) && stops_after(c, "!"@)
            && r.text@ == #[trigger] fair_ball_cheer_form(ctx.space(), batter, kind, destination, cheer_emoji(ctx), c)
            implies occurs_at(r.chars@, p0 + batter.len(), " hits a "@)
            && (forall|k: int| p0 <= k < p0 + batter.len() ==> !#[trigger] occurs_at(r.chars@, k, " hits a "@))
            && r.text@.subrange(p0 as int, p0 + batter.len()) == batter
            && p0 + batter.len() + 8 + hit_text(kind, destination, "."@).len() <= n
            && r.chars@.subrange(p0 + batter.len() + 8, p0 + batter.len() + 8 + hit_text(kind, destination, "."@).len())
                == hit_text(kind, destination, "."@)
            && p0 + batter.len() + 8 + hit_text(kind, destination, "."@).len() + cheer_sentence(cheer_emoji(ctx), c).len() == n
            && r.text@.subrange(p0 + batter.len() + 8 + hit_text(kind, destination, "."@).len(), n as int)
                == cheer_sentence(cheer_emoji(ctx), c)
            && stops_after(destination.spec_name(), "."@) by {
            let ch = r.chars@;
            let h = hit_text(kind, destination, "."@);
            let b = p0 + batter.len() + 8;
            assert(ch =~= ctx.space() + (batter + " hits a "@) + h + cheer_sentence(cheer_emoji(ctx), c));
            assert(ch.subrange(p0 as int, b) =~= batter + " hits a "@);
            crate::text::lemma_stops_after(ch, p0 as int, batter, " hits a "@);
            assert(r.text@.subrange(p0 as int, p0 + batter.len()) =~= batter);
            assert(ch.subrange(b, b + h.len()) =~= h);
            assert(r.text@.subrange(b + h.len(), n as int) =~= cheer_sentence(cheer_emoji(ctx), c));
            destination.lemma_name_no_exclamation();
            crate::text::lemma_stops_by_first(destination.spec_name(), "."@);
        }
    }
    proof {
        reveal_strlit(" hits a ");
        reveal_strlit(".");
        assert forall|batter: Seq<char>, kind: FairBallType, destination: FairBallDestination|
            p0 == ctx.space().len() && stops_after(batter, " hits a "@)
            && r.text@ == #[trigger] fair_ball_form(ctx.space(), batter, kind, destination)
            implies occurs_at(r.chars@, p0 + batter.len(), " hits a "@)
            && (forall|k: int| p0 <= k < p0 + batter.len() ==> !#[trigger] occurs_at(r.chars@, k, " hits a "@))
            && r.text@.subrange(p0 as int, p0 + batter.len()) == batter
            && r.chars@.subrange(p0 + batter.len() + 8, n as int) == hit_text(kind, destination, "."@)
            && stops_after(destination.spec_name(), "."@) by {
            let c = r.chars@;
            let t = c.subrange(p0 as int, n as int);
            assert(t =~= batter + " hits a "@ + hit_text(kind, destination, "."@));
            assert(c.subrange(p0 as int, p0 + batter.len() + 8) =~= t.subrange(0, batter.len() + 8int));
            assert(t.subrange(0, batter.len() + 8int) =~= batter + " hits a "@);
            crate::text::lemma_stops_after(c, p0 as int, batter, " hits a "@);
            assert(r.text@.subrange(p0 as int, p0 + batter.len()) =~= t.subrange(0, batter.len() as int));
            assert(t.subrange(0, batter.len() as int) =~= batter);
            assert(c.subrange(p0 + batter.len() + 8, n as int) =~= t.subrange(batter.len() + 8int, t.len() as int));
            assert(t.subrange(batter.len() + 8int, t.len() as int) =~= hit_text(kind, destination, "."@));
            destination.lemma_name_no_exclamation();
            crate::text::lemma_stops_by_first(destination.spec_name(), "."@);
        }
    }
    let (batter, p) = match r.until(p0, n, " hits a ") {
        Some(x) => x,
        None => {
            proof {
                assert forall|name: Seq<char>, kind: FairBallType, destination: FairBallDestination|
                    p0 == ctx.space().len() && stops_after(name, " hits a "@)
                    && r.text@ == #[trigger] fair_ball_form(ctx.space(), name, kind, destination) implies false by {
                    assert(occurs_at(r.chars@, p0 + name.len(), " hits a "@));
                }
                assert forall|batter: Seq<char>, kind: FairBallType, destination: FairBallDestination, c: Seq<char>| p0 == ctx.space().len() && cheers_allowed(ctx) && stops_after(batter, " hits a "@) && stops_after(c, "!"@)
            && r.text@ == #[trigger] fair_ball_cheer_form(ctx.space(), batter, kind, destination, cheer_emoji(ctx), c) implies false by {
                    assert(occurs_at(r.chars@, p0 + batter.len(), " hits a "@));
                }
            }
            return None;
        },
    };
    proof {
        assert forall|name: Seq<char>, kind: FairBallType, destination: FairBallDestination|
            p0 == ctx.space().len() && stops_after(name, " hits a "@)
            && r.text@ == #[trigger] fair_ball_form(ctx.space(), name, kind, destination)
            implies p == p0 + name.len() + 8 && batter@ == name by {
            let k = p0 + name.len();
            assert(occurs_at(r.chars@, k, " hits a "@));
            if p - 8 < k {
                assert(!occurs_at(r.chars@, p - 8, " hits a "@));
            }
            if p - 8 > k {
                assert(!occurs_at(r.chars@, k, " hits a "@));
            }
        }
    }
    proof {
        assert forall|name: Seq<char>, kind: FairBallType, destination: FairBallDestination, c: Seq<char>| p0 == ctx.space().len() && cheers_allowed(ctx) && stops_after(name, " hits a "@) && stops_after(c, "!"@)
            && r.text@ == #[trigger] fair_ball_cheer_form(ctx.space(), name, kind, destination, cheer_emoji(ctx), c)
            implies p == p0 + name.len() + 8 && batter@ == name by {
            let k = p0 + name.len();
            assert(occurs_at(r.chars@, k, " hits a "@));
            if p - 8 < k {
                assert(!occurs_at(r.chars@, p - 8, " hits a "@));
            }
            if p - 8 > k {
                assert(!occurs_at(r.chars@, k, " hits a "@));
            }
        }
    }
    let (fair_ball_type, destination, p) = hit_to(r, p, ".")?;
    let (cheer, _) = cheer_at(r, ctx, p, n)?;
    let door_prizes: Vec<crate::parsed_event::DoorPrize<&'a str>> = Vec::new();
    proof {
        assert(door_prizes_text(door_prizes@) == Seq::<char>::empty());
    }
    let m = ParsedEventMessage::FairBall { batter, fair_ball_type, destination, cheer, aurora_photos: None, door_prizes };
    proof {
        assert forall|name: Seq<char>, kind: FairBallType, d: FairBallDestination|
            p0 == ctx.space().len() && stops_after(name, " hits a "@)
            && r.text@ == #[trigger] fair_ball_form(ctx.space(), name, kind, d)
            implies ctx.writes(m, r.text@) by {
            assert(m.spec_fair_ball_text(ctx.spec_unparsing(), ctx.event_index) =~= r.text@);
        }
        assert forall|name: Seq<char>, kind: FairBallType, destination: FairBallDestination, c: Seq<char>| p0 == ctx.space().len() && cheers_allowed(ctx) && stops_after(name, " hits a "@) && stops_after(c, "!"@)
            && r.text@ == #[trigger] fair_ball_cheer_form(ctx.space(), name, kind, destination, cheer_emoji(ctx), c)
            implies ctx.writes(m, r.text@) by {
            assert(m.spec_fair_ball_text(ctx.spec_unparsing(), ctx.event_index) =~= r.text@);
        }
    }
    ctx.accept(m, r.text)
}

/// "<strong>🥳 {pitcher} and {batter} are Partying!</strong>", then what each
/// gained and the durability they lost.
#[verifier::spinoff_prover]
#[verifier::rlimit(100)]
fn party<'a>(r: &Reader<'a>, ctx: &ParsingContext) -> (res: Option<ParsedEventMessage<&'a str>>)
    requires
        r.wf(),
    ensures
        ctx.read_as(res, r.text@, EventType::Party),
        forall|pn: Seq<char>, bn: Seq<char>, pa: u8, pt: crate::enums::Attribute, ba: u8, bt: crate::enums::Attribute, loss: u8|
            ctx.wf() && stops_after(pn, " and "@) && stops_after(bn, " are Partying!</strong> "@)
            && r.text@ == #[trigger] party_text(pn, bn, pa, pt, ba, bt, loss)
            ==> (res matches Some(ParsedEventMessage::Party { pitcher_name, pitcher_amount_gained, pitcher_attribute, batter_name,
                    batter_amount_gained, batter_attribute, durability_loss })
                && pitcher_name@ == pn && batter_name@ == bn && pitcher_amount_gained == pa && pitcher_attribute == pt
                && batter_amount_gained == ba && batter_attribute == bt
                && durability_loss == crate::parsed_event::PartyDurabilityLoss::<&'a str>::Both(loss)),
{
    let n = r.len();
    let ghost head = "<strong>🥳 "@;
    let ghost and = " and "@;
    let ghost partying = " are Partying!</strong> "@;
    let ghost lose = "Both players lose "@;
    proof {
        reveal_strlit("<strong>🥳 ");
        reveal_strlit(" and ");
        reveal_strlit(" are Partying!</strong> ");
        reveal_strlit("Both players lose ");
        reveal_strlit(" Durability.");
        assert forall|pn: Seq<char>, bn: Seq<char>, pa: u8, pt: crate::enums::Attribute, ba: u8, bt: crate::enums::Attribute, loss: u8|
            r.text@ == #[trigger] party_text(pn, bn, pa, pt, ba, bt, loss)
            implies ({
                let p1 = head.len() as int;
                let p2 = p1 + pn.len() + and.len();
                let p3 = p2 + bn.len() + partying.len();
                let p4 = p3 + party_gain_text(pn, pa, pt).len();
                let p5 = p4 + party_gain_text(bn, ba, bt).len();
                let p6 = p5 + lose.len();
                &&& r.text@.subrange(0, p1) == head
                &&& r.text@.subrange(p1, p2) == pn + and
                &&& r.text@.subrange(p2, p3) == bn + partying
                &&& p4 <= n && r.text@.subrange(p3, p4) == party_gain_text(pn, pa, pt)
                &&& p5 <= n && r.text@.subrange(p4, p5) == party_gain_text(bn, ba, bt)
                &&& p6 <= n && r.text@.subrange(p5, p6) == lose
                &&& spec_leading_unsigned(r.text@.subrange(p6, n as int), 255) == Some(loss as nat)
            }) by {
            lemma_party_parts(r.text@, pn, bn, pa, pt, ba, bt, loss);
        }
    }
    let p = r.lit(0, n, "<strong>🥳 ")?;
    let (pitcher_name, p) = r.until(p, n, " and ")?;
    let (batter_name, p) = r.until(p, n, " are Partying!</strong> ")?;
    let (pitcher_amount_gained, pitcher_attribute, p) = gain(r, p, n, pitcher_name)?;
    let (batter_amount_gained, batter_attribute, p) = gain(r, p, n, batter_name)?;
    let durability_loss = if let Some(a) = r.lit(p, n, "Both players lose ") {
        let (loss, _) = r.number(a, n)?;
        crate::parsed_event::PartyDurabilityLoss::Both(loss)
    } else {
        let (unprotected_player_name, a) = r.until(p, n, " loses ")?;
        let (durability_loss, a) = r.number(a, n)?;
        let a = r.lit(a, n, " Durability, but ")?;
        let (protected_player_name, _) = r.until(a, n, "'s Prolific Greater Boon protects them from harm.")?;
        crate::parsed_event::PartyDurabilityLoss::OneProtected { protected_player_name, unprotected_player_name, durability_loss }
    };
    let m = ParsedEventMessage::Party {
        pitcher_name,
        pitcher_amount_gained,
        pitcher_attribute,
        batter_name,
        batter_amount_gained,
        batter_attribute,
        durability_loss,
    };
    proof {
        assert forall|pn: Seq<char>, bn: Seq<char>, pa: u8, pt: crate::enums::Attribute, ba: u8, bt: crate::enums::Attribute, loss: u8|
            ctx.wf() && stops_after(pn, and) && stops_after(bn, partying)
            && r.text@ == #[trigger] party_text(pn, bn, pa, pt, ba, bt, loss)
            implies ctx.writes(m, r.text@) by {
            lemma_party_written(m, ctx.spec_unparsing(), ctx.event_index, pn, bn, pa, pt, ba, bt, loss);
        }
    }
    ctx.accept(m, r.text)
}

/// Where each part of a party's message begins and ends.
proof fn lemma_party_parts(text: Seq<char>, pn: Seq<char>, bn: Seq<char>, pa: u8, pt: crate::enums::Attribute, ba: u8,
    bt: crate::enums::Attribute, loss: u8)
    requires
        text == party_text(pn, bn, pa, pt, ba, bt, loss),
    ensures
        ({
            let head = "<strong>🥳 "@;
            let and = " and "@;
            let partying = " are Partying!</strong> "@;
            let lose = "Both players lose "@;
            let n = text.len();
            let p1 = head.len() as int;
            let p2 = p1 + pn.len() + and.len();
            let p3 = p2 + bn.len() + partying.len();
            let p4 = p3 + party_gain_text(pn, pa, pt).len();
            let p5 = p4 + party_gain_text(bn, ba, bt).len();
            let p6 = p5 + lose.len();
            &&& text.subrange(0, p1) == head
            &&& text.subrange(p1, p2) == pn + and
            &&& text.subrange(p2, p3) == bn + partying
            &&& p4 <= n && text.subrange(p3, p4) == party_gain_text(pn, pa, pt)
            &&& p5 <= n && text.subrange(p4, p5) == party_gain_text(bn, ba, bt)
            &&& p6 <= n && text.subrange(p5, p6) == lose
            &&& spec_leading_unsigned(text.subrange(p6, n as int), 255) == Some(loss as nat)
        }),
{
    let head = "<strong>🥳 "@;
    let and = " and "@;
    let partying = " are Partying!</strong> "@;
    let lose = "Both players lose "@;
    let n = text.len();
    reveal_strlit("<strong>🥳 ");
    reveal_strlit(" and ");
    reveal_strlit(" are Partying!</strong> ");
    reveal_strlit("Both players lose ");
    reveal_strlit(" Durability.");
    let p1 = head.len() as int;
    let p2 = p1 + pn.len() + and.len();
    let p3 = p2 + bn.len() + partying.len();
    let p4 = p3 + party_gain_text(pn, pa, pt).len();
    let p5 = p4 + party_gain_text(bn, ba, bt).len();
    let p6 = p5 + lose.len();
    let t = text;
    assert(t =~= head + (pn + and) + (bn + partying) + party_gain_text(pn, pa, pt) + party_gain_text(bn, ba, bt)
        + lose + (dec(loss as nat) + " Durability."@));
    assert(text.subrange(0, p1) =~= head);
    assert(text.subrange(p1, p2) =~= pn + and);
    assert(text.subrange(p2, p3) =~= bn + partying);
    assert(text.subrange(p3, p4) =~= party_gain_text(pn, pa, pt));
    assert(text.subrange(p4, p5) =~= party_gain_text(bn, ba, bt));
    assert(text.subrange(p5, p6) =~= lose);
    assert(text.subrange(p6, n as int) =~= dec(loss as nat) + " Durability."@);
    crate::text::lemma_leading_dec(loss, " Durability."@);
}

/// A party message with these players, gains and loss is written as `party_text`.
proof fn lemma_party_written<S: Text, T: Text>(m: ParsedEventMessage<S>, c: UnparsingContext<T>, ei: Option<u16>,
    pn: Seq<char>, bn: Seq<char>, pa: u8, pt: crate::enums::Attribute, ba: u8, bt: crate::enums::Attribute, loss: u8)
    requires
        m matches ParsedEventMessage::Party { pitcher_name, pitcher_amount_gained, pitcher_attribute, batter_name,
            batter_amount_gained, batter_attribute, durability_loss }
        && pitcher_name@ == pn && batter_name@ == bn && pitcher_amount_gained == pa && pitcher_attribute == pt
        && batter_amount_gained == ba && batter_attribute == bt
        && durability_loss == crate::parsed_event::PartyDurabilityLoss::<S>::Both(loss),
    ensures
        m.spec_party_text(c, ei) == party_text(pn, bn, pa, pt, ba, bt, loss),
{
    assert(m.spec_party_text(c, ei) =~= party_text(pn, bn, pa, pt, ba, bt, loss));
}

/// A party where both players lose durability.
pub open spec fn party_text(pn: Seq<char>, bn: Seq<char>, pa: u8, pt: crate::enums::Attribute, ba: u8,
    bt: crate::enums::Attribute, loss: u8) -> Seq<char> {
    "<strong>🥳 "@ + pn + " and "@ + bn + " are Partying!</strong> "@ + party_gain_text(pn, pa, pt)
        + party_gain_text(bn, ba, bt) + "Both players lose "@ + dec(loss as nat) + " Durability."@
}

/// "{player} gained +{amount} {attribute}. " at `pos`.
fn gain(r: &Reader, pos: usize, end: usize, player: &str) -> (res: Option<(u8, crate::enums::Attribute, usize)>)
    requires
        r.wf(),
        pos <= end <= r.size(),
    ensures
        match res {
            Some((_, _, e)) => pos <= e <= end,
            None => true,
        },
        forall|amount: u8, attribute: crate::enums::Attribute|
            pos + party_gain_text(player@, amount, attribute).len() <= end
            && r.text@.subrange(pos as int, pos + party_gain_text(player@, amount, attribute).len())
                == #[trigger] party_gain_text(player@, amount, attribute)
            ==> res == Some((amount, attribute, (pos + party_gain_text(player@, amount, attribute).len()) as usize)),
{
    proof {
        reveal_strlit(" gained +");
        reveal_strlit(" ");
        reveal_strlit(". ");
        assert forall|amount: u8, attribute: crate::enums::Attribute|
            pos + party_gain_text(player@, amount, attribute).len() <= end
            && r.text@.subrange(pos as int, pos + party_gain_text(player@, amount, attribute).len())
                == #[trigger] party_gain_text(player@, amount, attribute)
            implies ({
                let p1 = pos + player@.len();
                let p2 = p1 + 9;
                let p3 = p2 + dec(amount as nat).len();
                let p4 = p3 + 1;
                &&& r.chars@.subrange(pos as int, p1) == player@
                &&& r.chars@.subrange(p1, p2) == " gained +"@
                &&& spec_leading_unsigned(r.chars@.subrange(p2, end as int), 255) == Some(amount as nat)
                &&& digit_run(r.chars@.subrange(p2, end as int)) == dec(amount as nat).len()
                &&& r.chars@.subrange(p3, p4) == " "@
                &&& r.text@.subrange(p4, p4 + attribute.spec_name().len() + 2) == attribute.spec_name() + ". "@
                &&& stops_after(attribute.spec_name(), ". "@)
                &&& crate::enums::Attribute::spec_parse(attribute.spec_name()) == Some(attribute)
            }) by {
            let t = party_gain_text(player@, amount, attribute);
            let sub = r.text@.subrange(pos as int, pos + t.len());
            let p1 = pos + player@.len();
            let p2 = p1 + 9;
            let d = dec(amount as nat);
            let p3 = p2 + d.len();
            let p4 = p3 + 1;
            assert(r.chars@.subrange(pos as int, p1) =~= sub.subrange(0, p1 - pos));
            assert(sub.subrange(0, p1 - pos) =~= player@);
            assert(r.chars@.subrange(p1, p2) =~= sub.subrange(p1 - pos, p2 - pos));
            assert(sub.subrange(p1 - pos, p2 - pos) =~= " gained +"@);
            let rest = r.chars@.subrange(p3, end as int);
            assert(r.chars@.subrange(p2, p3) =~= sub.subrange(p2 - pos, p3 - pos));
            assert(sub.subrange(p2 - pos, p3 - pos) =~= d);
            assert(r.chars@.subrange(p2, end as int) =~= r.chars@.subrange(p2, p3) + rest);
            assert(r.chars@.subrange(p2, end as int) =~= d + rest);
            assert(rest[0] == sub[p3 - pos]);
            assert(sub[p3 - pos] == ' ');
            crate::text::lemma_leading_dec(amount, rest);
            assert(r.chars@.subrange(p3, p4) =~= sub.subrange(p3 - pos, p4 - pos));
            assert(sub.subrange(p3 - pos, p4 - pos) =~= " "@);
            assert(r.text@.subrange(p4, p4 + attribute.spec_name().len() + 2) =~= sub.subrange(p4 - pos, t.len() as int));
            assert(sub.subrange(p4 - pos, t.len() as int) =~= attribute.spec_name() + ". "@);
            attribute.lemma_name_is_word();
            crate::text::lemma_stops_by_first(attribute.spec_name(), ". "@);
            attribute.lemma_parse_name();
        }
    }
    let p = r.lit(pos, end, player)?;
    let p = r.lit(p, end, " gained +")?;
    let (amount, p) = r.number(p, end)?;
    let p = r.lit(p, end, " ")?;
    let (attribute, p) = r.until(p, end, ". ")?;
    match crate::enums::Attribute::from_str(attribute) {
        Ok(a) => Some((amount, a, p)),
        Err(_) => None,
    }
}

/// "{player} gained +{amount} {attribute}. "
pub open spec fn party_gain_text(player: Seq<char>, amount: u8, attribute: crate::enums::Attribute) -> Seq<char> {
    player + " gained +"@ + dec(amount as nat) + " "@ + attribute.spec_name() + ". "@
}

/// The kind of ball a batter is said to hit with `verb`, e.g. "grounds".
fn fair_ball_type_from_verb(verb: &str) -> (r: Option<crate::enums::FairBallType>)
    ensures
        match r {
            Some(t) => t.spec_verb_name() == verb@,
            None => true,
        },
        forall|t: FairBallType| verb@ == #[trigger] t.spec_verb_name() ==> r == Some(t),
{
    proof {
        assert forall|t: FairBallType| verb@ == #[trigger] t.spec_verb_name() implies
            forall|o: FairBallType| o != t ==> o.spec_verb_name() != verb@ by {
            t.lemma_verb_names();
        }
    }
    if str_eq(verb, FairBallType::GroundBall.verb_name()) {
        Some(FairBallType::GroundBall)
    } else if str_eq(verb, FairBallType::FlyBall.verb_name()) {
        Some(FairBallType::FlyBall)
    } else if str_eq(verb, FairBallType::LineDrive.verb_name()) {
        Some(FairBallType::LineDrive)
    } else if str_eq(verb, FairBallType::Popup.verb_name()) {
        Some(FairBallType::Popup)
    } else {
        None
    }
}

/// The kind of error named in lower case, e.g. "throwing".
fn error_from_lowercase(s: &str) -> (r: Option<crate::enums::FieldingErrorType>)
    ensures
        match r {
            Some(t) => t.spec_lowercase() == s@,
            None => true,
        },
        forall|t: FieldingErrorType| s@ == #[trigger] t.spec_lowercase() ==> r == Some(t),
{
    proof {
        reveal_strlit("throwing");
        reveal_strlit("fielding");
        assert("throwing"@[0] != "fielding"@[0]);
    }
    if str_eq(s, FieldingErrorType::Throwing.lowercase()) {
        Some(FieldingErrorType::Throwing)
    } else if str_eq(s, FieldingErrorType::Fielding.lowercase()) {
        Some(FieldingErrorType::Fielding)
    } else {
        None
    }
}

/// The batter's name and the verb after it, in a sentence `0..q` ending with the verb.
fn batter_and_verb<'a>(r: &Reader<'a>, q: usize) -> (res: Option<(&'a str, crate::enums::FairBallType)>)
    requires
        r.wf(),
        q <= r.size(),
    ensures
        forall|batter: Seq<char>, kind: FairBallType|
            r.text@.subrange(0, q as int) == #[trigger] (batter + " "@ + kind.spec_verb_name())
            ==> (res matches Some((b, k)) && b@ == batter && k == kind),
{
    proof {
        reveal_strlit(" ");
        assert forall|batter: Seq<char>, kind: FairBallType|
            r.text@.subrange(0, q as int) == #[trigger] (batter + " "@ + kind.spec_verb_name())
            implies r.chars@[batter.len() as int] == ' ' && batter.len() < q
            && (forall|j: int| batter.len() < j < q ==> #[trigger] r.chars@[j] != ' ')
            && r.text@.subrange(batter.len() + 1int, q as int) == kind.spec_verb_name()
            && r.text@.subrange(0, batter.len() as int) == batter by {
            let t = r.text@.subrange(0, q as int);
            kind.lemma_verb_names();
            assert(t.len() == q);
            assert(t.len() == batter.len() + 1 + kind.spec_verb_name().len());
            assert(t[batter.len() as int] == ' ');
            assert forall|j: int| batter.len() < j < q implies #[trigger] r.chars@[j] != ' ' by {
                assert(t[j] == r.chars@[j]);
                assert(t[j] == kind.spec_verb_name()[j - batter.len() - 1]);
            }
            assert(r.text@.subrange(batter.len() + 1int, q as int) =~= t.subrange(batter.len() + 1int, q as int));
            assert(t.subrange(batter.len() + 1int, q as int) =~= kind.spec_verb_name());
            assert(r.text@.subrange(0, batter.len() as int) =~= batter);
        }
    }
    let sp = match r.rfind_char(0, q, ' ') {
        Some(sp) => sp,
        None => {
            proof {
                assert forall|batter: Seq<char>, kind: FairBallType|
                    r.text@.subrange(0, q as int) == #[trigger] (batter + " "@ + kind.spec_verb_name()) implies false by {
                    assert(r.chars@[batter.len() as int] == ' ');
                }
            }
            return None;
        },
    };
    proof {
        assert forall|batter: Seq<char>, kind: FairBallType|
            r.text@.subrange(0, q as int) == #[trigger] (batter + " "@ + kind.spec_verb_name())
            implies sp == batter.len() && r.chars@.subrange(sp as int, sp + 1) == " "@ by {
            let b = batter.len() as int;
            if sp < b {
                assert(r.chars@[b] == ' ');
            }
            if sp > b {
                assert(r.chars@[sp as int] != ' ');
            }
            assert(r.chars@.subrange(sp as int, sp + 1) =~= seq![r.chars@[sp as int]]);
        }
    }
    let a = match r.lit(sp, q, " ") {
        Some(a) => a,
        None => return None,
    };
    let t = fair_ball_type_from_verb(r.slice(a, q))?;
    Some((r.slice(0, sp), t))
}

/// A runner put out, " {runner} out at {base}.", at `pos`.
#[verifier::spinoff_prover]
#[verifier::rlimit(40)]
fn out_sentence<'a>(r: &Reader<'a>, pos: usize, end: usize) -> (res: Option<(crate::parsed_event::RunnerOut<&'a str>, usize)>)
    requires
        r.wf(),
        pos <= end <= r.size(),
    ensures
        match res {
            Some((_, e)) => pos <= e <= end,
            None => true,
        },
        forall|runner: Seq<char>, base: crate::enums::BaseNameVariant| stops_after(runner, " out at "@)
            && pos + 1 + crate::reader::runner_out_text(runner, base).len() <= end
            && r.text@.subrange(pos as int, pos + 1 + crate::reader::runner_out_text(runner, base).len())
                == " "@ + #[trigger] crate::reader::runner_out_text(runner, base)
            ==> (res matches Some((o, e)) && o.runner@ == runner && o.base == base
                && e == pos + 1 + crate::reader::runner_out_text(runner, base).len()),
{
    proof {
        reveal_strlit(" ");
        reveal_strlit(".");
        reveal_strlit(" out at ");
        assert forall|runner: Seq<char>, base: crate::enums::BaseNameVariant| stops_after(runner, " out at "@)
            && pos + 1 + crate::reader::runner_out_text(runner, base).len() <= end
            && r.text@.subrange(pos as int, pos + 1 + crate::reader::runner_out_text(runner, base).len())
                == " "@ + #[trigger] crate::reader::runner_out_text(runner, base)
            implies ({
                let a = pos + 1;
                let q = a + runner.len();
                let e = q + 8 + base.spec_name().len();
                &&& r.chars@.subrange(pos as int, a) == " "@
                &&& occurs_at(r.chars@, q, " out at "@)
                &&& (forall|k: int| a <= k < q ==> !#[trigger] occurs_at(r.chars@, k, " out at "@))
                &&& occurs_at(r.chars@, e, "."@)
                &&& (forall|k: int| q <= k < e ==> !#[trigger] occurs_at(r.chars@, k, "."@))
                &&& r.text@.subrange(a, e + 1) == crate::reader::runner_out_text(runner, base)
            }) by {
            let t = crate::reader::runner_out_text(runner, base);
            let sub = r.text@.subrange(pos as int, pos + 1 + t.len());
            let a = pos + 1;
            let q = a + runner.len();
            let e = q + 8 + base.spec_name().len();
            assert(r.chars@.subrange(pos as int, a) =~= sub.subrange(0, 1));
            assert(r.text@.subrange(a, e + 1) =~= sub.subrange(1, sub.len() as int));
            assert(r.text@.subrange(a, q + 8) =~= runner + " out at "@);
            crate::text::lemma_stops_after(r.chars@, a, runner, " out at "@);
            let u = r.text@.subrange(a, e + 1);
            assert(u == t);
            assert(u.len() == t.len());
            assert(t[t.len() - 1] == '.');
            assert(u[e - a] == r.chars@[e]);
            assert(r.chars@.subrange(e, e + 1) =~= "."@);
            match base {
                crate::enums::BaseNameVariant::First => { reveal_strlit("first"); }
                crate::enums::BaseNameVariant::FirstBase => { reveal_strlit("first base"); }
                crate::enums::BaseNameVariant::OneB => { reveal_strlit("1B"); }
                crate::enums::BaseNameVariant::Second => { reveal_strlit("second"); }
                crate::enums::BaseNameVariant::SecondBase => { reveal_strlit("second base"); }
                crate::enums::BaseNameVariant::TwoB => { reveal_strlit("2B"); }
                crate::enums::BaseNameVariant::ThirdBase => { reveal_strlit("third base"); }
                crate::enums::BaseNameVariant::Third => { reveal_strlit("third"); }
                crate::enums::BaseNameVariant::ThreeB => { reveal_strlit("3B"); }
                crate::enums::BaseNameVariant::Home => { reveal_strlit("home"); }
            }
            assert forall|k: int| q <= k < e implies !#[trigger] occurs_at(r.chars@, k, "."@) by {
                if occurs_at(r.chars@, k, "."@) {
                    assert(r.chars@.subrange(k, k + 1)[0] == r.chars@[k]);
                    assert(u[k - a] == r.chars@[k]);
                    assert(r.chars@[k] == t[k - a]);
                    if k - a >= runner.len() + 8 {
                        assert(t[k - a] == base.spec_name()[k - a - runner.len() - 8]);
                    } else {
                        assert(t[k - a] == " out at "@[k - a - runner.len()]);
                    }
                }
            }
        }
    }
    let a = r.lit(pos, end, " ")?;
    let q = r.find(a, end, " out at ")?;
    let e = r.find(q, end, ".")?;
    let e = r.lit(e, end, ".")?;
    let out = r.runner_out(a, e)?;
    Some((out, e))
}

/// A perfect catch or an amazing throw ending the message at `pos`.
fn amazing_at(r: &Reader, pos: usize, end: usize) -> (res: Option<bool>)
    requires
        r.wf(),
        pos <= end <= r.size(),
    ensures
        res == (if pos == end {
            Some(false)
        } else if r.chars@.subrange(pos as int, end as int) == " <strong>Perfect catch!</strong>"@
            || r.chars@.subrange(pos as int, end as int) == " <strong>Amazing throw!</strong>"@ {
            Some(true)
        } else {
            None::<bool>
        }),
{
    if pos == end {
        Some(false)
    } else if r.is(pos, end, " <strong>Perfect catch!</strong>") || r.is(pos, end, " <strong>Amazing throw!</strong>") {
        Some(true)
    } else {
        None
    }
}

/// The messages of a ball in play.
fn field<'a>(r: &Reader<'a>, ctx: &ParsingContext) -> (res: Option<ParsedEventMessage<&'a str>>)
    requires
        r.wf(),
    ensures
        ctx.read_as(res, r.text@, EventType::Field),
        forall|batter: Seq<char>, kind: FairBallType, destination: FairBallDestination|
            ctx.wf() && stops_after(batter, " homers on a "@) && r.text@ == #[trigger] solo_home_run_text(batter, kind, destination)
            ==> (res matches Some(ParsedEventMessage::HomeRun { batter: b, fair_ball_type, destination: d, scores, grand_slam, ejection })
                && b@ == batter && fair_ball_type == kind && d == destination && scores@.len() == 0 && !grand_slam
                && ejection is None),
        forall|batter: Seq<char>, kind: FairBallType, destination: FairBallDestination, rs: Seq<Seq<char>>|
            ctx.wf() && stops_after(batter, " homers on a "@) && crate::reader::scoring_runners(rs)
            && r.text@ == #[trigger] home_run_runs_text(batter, kind, destination, rs)
            ==> (res matches Some(ParsedEventMessage::HomeRun { batter: b, fair_ball_type, destination: d, scores, grand_slam, ejection })
                && b@ == batter && fair_ball_type == kind && d == destination && !grand_slam && ejection is None
                && scores@.len() == rs.len() && (forall|i: int| 0 <= i < rs.len() ==> (#[trigger] scores@[i])@ == rs[i])),
        forall|batter: Seq<char>, distance: Distance, kind: FairBallType, place: Place, fielder: Seq<char>|
            ctx.wf() && to_base_readable(batter, distance, fielder)
            && r.text@ == #[trigger] to_base_text(batter, distance, kind, place, fielder)
            ==> (res matches Some(ParsedEventMessage::BatterToBase { batter: b, distance: d, fair_ball_type, fielder: f, scores, advances, ejection })
                && b@ == batter && d == distance && fair_ball_type == kind && f.place == place && f.name@ == fielder
                && scores@.len() == 0 && advances@.len() == 0 && ejection is None),
        forall|batter: Seq<char>, distance: Distance, kind: FairBallType, place: Place, fielder: Seq<char>, rs: Seq<Seq<char>>, advs: Seq<(Seq<char>, crate::enums::Base)>|
            ctx.wf() && to_base_readable(batter, distance, fielder) && readable_runs(rs, advs)
            && r.text@ == #[trigger] to_base_runs_text(batter, distance, kind, place, fielder, rs, advs)
            ==> (res matches Some(ParsedEventMessage::BatterToBase { batter: b, distance: d, fair_ball_type, fielder: f, scores, advances, ejection })
                && b@ == batter && d == distance && fair_ball_type == kind && f.place == place && f.name@ == fielder
                && same_runs(scores@, advances@, rs, advs) && ejection is None),
        forall|batter: Seq<char>, place: Place, fielder: Seq<char>|
            ctx.wf() && ground_out_readable(batter, place, fielder)
            && r.text@ == #[trigger] ground_out_text(batter, place, fielder)
            ==> (res matches Some(ParsedEventMessage::GroundedOut { batter: b, fielders, scores, advances, amazing, ejection })
                && b@ == batter && fielders@.len() == 1 && fielders@[0].place == place && fielders@[0].name@ == fielder
                && scores@.len() == 0 && advances@.len() == 0 && !amazing && ejection is None),
        forall|batter: Seq<char>, place: Place, fielder: Seq<char>, rs: Seq<Seq<char>>, advs: Seq<(Seq<char>, crate::enums::Base)>|
            ctx.wf() && ground_out_runs_readable(batter, place, fielder, rs, advs)
            && r.text@ == #[trigger] ground_out_runs_text(batter, place, fielder, rs, advs)
            ==> (res matches Some(ParsedEventMessage::GroundedOut { batter: b, fielders, scores, advances, amazing, ejection })
                && b@ == batter && fielders@.len() == 1 && fielders@[0].place == place && fielders@[0].name@ == fielder
                && same_runs(scores@, advances@, rs, advs) && !amazing && ejection is None),
        forall|batter: Seq<char>, kind: FairBallType, place: Place, fielder: Seq<char>, rs: Seq<Seq<char>>, advs: Seq<(Seq<char>, crate::enums::Base)>|
            ctx.wf() && caught_out_runs_readable(batter, kind, place, fielder, rs, advs)
            && r.text@ == #[trigger] caught_out_runs_text(batter, kind, place, fielder, rs, advs)
            ==> (res matches Some(ParsedEventMessage::CaughtOut { batter: b, fair_ball_type, caught_by, scores, advances, sacrifice, perfect, ejection })
                && b@ == batter && fair_ball_type == kind && caught_by.place == place && caught_by.name@ == fielder
                && same_runs(scores@, advances@, rs, advs) && !sacrifice && !perfect && ejection is None),
        forall|batter: Seq<char>, kind: FairBallType, place: Place, fielder: Seq<char>|
            ctx.wf() && caught_out_readable(batter, kind, place, fielder)
            && r.text@ == #[trigger] caught_out_text(batter, kind, place, fielder)
            ==> (res matches Some(ParsedEventMessage::CaughtOut { batter: b, fair_ball_type, caught_by, scores, advances, sacrifice, perfect, ejection })
                && b@ == batter && fair_ball_type == kind && caught_by.place == place && caught_by.name@ == fielder
                && scores@.len() == 0 && advances@.len() == 0 && !sacrifice && !perfect && ejection is None),
        forall|double: bool, batter: Seq<char>, kind: FairBallType, place: Place, fielder: Seq<char>, runner: Seq<char>, base: crate::enums::BaseNameVariant| ctx.wf() && stops_after(batter + " "@ + kind.spec_verb_name(), play_words(double)) && stops_after(runner, " out at "@)
            && (double ==> crate::text::lacks(play_prefix(double, batter, kind, place, fielder), " into a force out"@))
            && crate::text::no_period(batter) && crate::text::no_period(fielder)
            && r.text@ == #[trigger] play_text(double, batter, kind, place, fielder, runner, base)
            ==> res is Some,
        forall|batter: Seq<char>, place: Place, fielder: Seq<char>, runner: Seq<char>, base: crate::enums::BaseNameVariant| ctx.wf() && stops_after(batter, " reaches on a fielder's choice out"@) && stops_after(runner, " out at "@)
            && crate::text::no_period(batter) && crate::text::no_period(fielder)
            && r.text@ == #[trigger] choice_out_text(batter, place, fielder, runner, base)
            ==> res is Some,
        forall|batter: Seq<char>, place: Place, f1: Seq<char>, kind: FieldingErrorType, f2: Seq<char>| ctx.wf() && stops_after(batter, " reaches on a fielder's choice, fielded by "@)
            && crate::text::no_period(batter) && crate::text::no_period(f1)
            && crate::text::lacks(r.text@.subrange(choice_error_prefix(batter, place, f1).len() + 1int, r.size() as int), " to "@)
            && r.text@ == #[trigger] choice_error_text(batter, place, f1, kind, f2)
            ==> res is Some,
        forall|batter: Seq<char>, kind: FieldingErrorType, place: Place, fielder: Seq<char>| ctx.wf() && stops_after(batter, " reaches on a "@)
            && crate::text::no_period(batter) && crate::text::no_period(fielder)
            && r.text@ == #[trigger] reach_error_text(batter, kind, place, fielder)
            ==> res is Some,
{
    proof {
        reveal_strlit("<strong>");
        assert forall|batter: Seq<char>, place: Place, fielder: Seq<char>|
            ground_out_readable(batter, place, fielder) && r.text@ == #[trigger] ground_out_text(batter, place, fielder)
            implies !begins_with(r.text@, "<strong>"@) by {
            assert(r.text@[0] == batter[0]);
            if begins_with(r.text@, "<strong>"@) {
                assert(r.text@.subrange(0, 8)[0] == r.text@[0]);
            }
        }
        assert forall|batter: Seq<char>, place: Place, fielder: Seq<char>, rs: Seq<Seq<char>>, advs: Seq<(Seq<char>, crate::enums::Base)>|
            ground_out_runs_readable(batter, place, fielder, rs, advs) && r.text@ == #[trigger] ground_out_runs_text(batter, place, fielder, rs, advs)
            implies !begins_with(r.text@, "<strong>"@) by {
            assert(r.text@[0] == batter[0]);
            if begins_with(r.text@, "<strong>"@) {
                assert(r.text@.subrange(0, 8)[0] == r.text@[0]);
            }
        }
        assert forall|batter: Seq<char>, kind: FairBallType, place: Place, fielder: Seq<char>, rs: Seq<Seq<char>>, advs: Seq<(Seq<char>, crate::enums::Base)>|
            caught_out_runs_readable(batter, kind, place, fielder, rs, advs) && r.text@ == #[trigger] caught_out_runs_text(batter, kind, place, fielder, rs, advs)
            implies !begins_with(r.text@, "<strong>"@) by {
            assert(r.text@[0] == batter[0]);
            if begins_with(r.text@, "<strong>"@) {
                assert(r.text@.subrange(0, 8)[0] == r.text@[0]);
            }
        }
        assert forall|batter: Seq<char>, kind: FairBallType, place: Place, fielder: Seq<char>|
            caught_out_readable(batter, kind, place, fielder) && r.text@ == #[trigger] caught_out_text(batter, kind, place, fielder)
            implies !begins_with(r.text@, "<strong>"@) by {
            assert(r.text@[0] == batter[0]);
            if begins_with(r.text@, "<strong>"@) {
                assert(r.text@.subrange(0, 8)[0] == r.text@[0]);
            }
        }
        assert forall|batter: Seq<char>, distance: Distance, kind: FairBallType, place: Place, fielder: Seq<char>|
            to_base_readable(batter, distance, fielder)
            && r.text@ == #[trigger] to_base_text(batter, distance, kind, place, fielder)
            implies !begins_with(r.text@, "<strong>"@) by {
            assert(r.text@[0] == batter[0]);
            if begins_with(r.text@, "<strong>"@) {
                assert(r.text@.subrange(0, 8)[0] == r.text@[0]);
            }
        }
        assert forall|batter: Seq<char>, distance: Distance, kind: FairBallType, place: Place, fielder: Seq<char>, rs: Seq<Seq<char>>, advs: Seq<(Seq<char>, crate::enums::Base)>|
            to_base_readable(batter, distance, fielder)
            && r.text@ == #[trigger] to_base_runs_text(batter, distance, kind, place, fielder, rs, advs)
            implies !begins_with(r.text@, "<strong>"@) by {
            assert(r.text@[0] == batter[0]);
            if begins_with(r.text@, "<strong>"@) {
                assert(r.text@.subrange(0, 8)[0] == r.text@[0]);
            }
        }
    }
    if let Some(m) = home_run(r, ctx) {
        return Some(m);
    }
    let n = r.len();
    let mut k: usize = 0;
    let mut tries: usize = 0;
    while tries < 10
        invariant
            r.wf(),
            k <= n == r.size(),
            forall|batter: Seq<char>, kind: FairBallType, destination: FairBallDestination|
                ctx.wf() && stops_after(batter, " homers on a "@) && r.text@ == #[trigger] solo_home_run_text(batter, kind, destination)
                ==> false,
            forall|batter: Seq<char>, kind: FairBallType, destination: FairBallDestination, rs: Seq<Seq<char>>|
                ctx.wf() && stops_after(batter, " homers on a "@) && crate::reader::scoring_runners(rs)
                && r.text@ == #[trigger] home_run_runs_text(batter, kind, destination, rs)
                ==> false,
            forall|batter: Seq<char>, distance: Distance, kind: FairBallType, place: Place, fielder: Seq<char>|
                ctx.wf() && to_base_readable(batter, distance, fielder)
                && r.text@ == #[trigger] to_base_text(batter, distance, kind, place, fielder)
                ==> k == 0 && tries == 0,
            forall|batter: Seq<char>, distance: Distance, kind: FairBallType, place: Place, fielder: Seq<char>, rs: Seq<Seq<char>>, advs: Seq<(Seq<char>, crate::enums::Base)>|
                ctx.wf() && to_base_readable(batter, distance, fielder) && readable_runs(rs, advs)
                && r.text@ == #[trigger] to_base_runs_text(batter, distance, kind, place, fielder, rs, advs)
                ==> k == 0 && tries == 0,
            forall|batter: Seq<char>, place: Place, fielder: Seq<char>|
                ctx.wf() && ground_out_readable(batter, place, fielder)
                && r.text@ == #[trigger] ground_out_text(batter, place, fielder)
                ==> k == 0 && tries == 0,
            forall|batter: Seq<char>, place: Place, fielder: Seq<char>, rs: Seq<Seq<char>>, advs: Seq<(Seq<char>, crate::enums::Base)>|
                ctx.wf() && ground_out_runs_readable(batter, place, fielder, rs, advs)
                && r.text@ == #[trigger] ground_out_runs_text(batter, place, fielder, rs, advs)
                ==> k == 0 && tries == 0,
            forall|batter: Seq<char>, kind: FairBallType, place: Place, fielder: Seq<char>|
                ctx.wf() && caught_out_readable(batter, kind, place, fielder)
                && r.text@ == #[trigger] caught_out_text(batter, kind, place, fielder)
                ==> k == 0 && tries == 0,
            forall|batter: Seq<char>, kind: FairBallType, place: Place, fielder: Seq<char>, rs: Seq<Seq<char>>, advs: Seq<(Seq<char>, crate::enums::Base)>|
                ctx.wf() && caught_out_runs_readable(batter, kind, place, fielder, rs, advs)
                && r.text@ == #[trigger] caught_out_runs_text(batter, kind, place, fielder, rs, advs)
                ==> k == 0 && tries == 0,
            forall|double: bool, batter: Seq<char>, kind: FairBallType, place: Place, fielder: Seq<char>, runner: Seq<char>, base: crate::enums::BaseNameVariant| ctx.wf() && stops_after(batter + " "@ + kind.spec_verb_name(), play_words(double)) && stops_after(runner, " out at "@)
                && (double ==> crate::text::lacks(play_prefix(double, batter, kind, place, fielder), " into a force out"@))
                && crate::text::no_period(batter) && crate::text::no_period(fielder)
                && r.text@ == #[trigger] play_text(double, batter, kind, place, fielder, runner, base)
                ==> k == 0 && tries == 0,
            forall|batter: Seq<char>, place: Place, fielder: Seq<char>, runner: Seq<char>, base: crate::enums::BaseNameVariant| ctx.wf() && stops_after(batter, " reaches on a fielder's choice out"@) && stops_after(runner, " out at "@)
                && crate::text::no_period(batter) && crate::text::no_period(fielder)
                && r.text@ == #[trigger] choice_out_text(batter, place, fielder, runner, base)
                ==> k == 0 && tries == 0,
            forall|batter: Seq<char>, place: Place, f1: Seq<char>, kind: FieldingErrorType, f2: Seq<char>| ctx.wf() && stops_after(batter, " reaches on a fielder's choice, fielded by "@)
                && crate::text::no_period(batter) && crate::text::no_period(f1)
                && crate::text::lacks(r.text@.subrange(choice_error_prefix(batter, place, f1).len() + 1int, r.size() as int), " to "@)
                && r.text@ == #[trigger] choice_error_text(batter, place, f1, kind, f2)
                ==> k == 0 && tries == 0,
            forall|batter: Seq<char>, kind: FieldingErrorType, place: Place, fielder: Seq<char>| ctx.wf() && stops_after(batter, " reaches on a "@)
                && crate::text::no_period(batter) && crate::text::no_period(fielder)
                && r.text@ == #[trigger] reach_error_text(batter, kind, place, fielder)
                ==> k == 0 && tries == 0,
        decreases 10 - tries,
    {
        proof {
            reveal_strlit(".");
            reveal_strlit(" ");
            assert forall|double: bool, batter: Seq<char>, kind: FairBallType, place: Place, fielder: Seq<char>, runner: Seq<char>, base: crate::enums::BaseNameVariant| ctx.wf() && stops_after(batter + " "@ + kind.spec_verb_name(), play_words(double)) && stops_after(runner, " out at "@)
                && (double ==> crate::text::lacks(play_prefix(double, batter, kind, place, fielder), " into a force out"@))
                && crate::text::no_period(batter) && crate::text::no_period(fielder)
                && r.text@ == #[trigger] play_text(double, batter, kind, place, fielder, runner, base)
                implies occurs_at(r.chars@, play_prefix(double, batter, kind, place, fielder).len() as int, "."@)
                && (forall|j: int| 0 <= j < play_prefix(double, batter, kind, place, fielder).len() ==> !#[trigger] occurs_at(r.chars@, j, "."@)) by {
                lemma_field_prefixes(batter, kind, place, fielder);
                let pre = play_prefix(double, batter, kind, place, fielder);
                assert(r.chars@ =~= pre + "."@ + (" "@ + crate::reader::runner_out_text(runner, base)));
                lemma_first_period(r.chars@, pre, " "@ + crate::reader::runner_out_text(runner, base));
            }
            assert forall|batter: Seq<char>, place: Place, fielder: Seq<char>, runner: Seq<char>, base: crate::enums::BaseNameVariant| ctx.wf() && stops_after(batter, " reaches on a fielder's choice out"@) && stops_after(runner, " out at "@)
                && crate::text::no_period(batter) && crate::text::no_period(fielder)
                && r.text@ == #[trigger] choice_out_text(batter, place, fielder, runner, base)
                implies occurs_at(r.chars@, choice_out_prefix(batter, place, fielder).len() as int, "."@)
                && (forall|j: int| 0 <= j < choice_out_prefix(batter, place, fielder).len() ==> !#[trigger] occurs_at(r.chars@, j, "."@)) by {
                lemma_field_prefixes(batter, FairBallType::GroundBall, place, fielder);
                let pre = choice_out_prefix(batter, place, fielder);
                assert(r.chars@ =~= pre + "."@ + (" "@ + crate::reader::runner_out_text(runner, base)));
                lemma_first_period(r.chars@, pre, " "@ + crate::reader::runner_out_text(runner, base));
            }
            assert forall|batter: Seq<char>, place: Place, f1: Seq<char>, kind: FieldingErrorType, f2: Seq<char>| ctx.wf() && stops_after(batter, " reaches on a fielder's choice, fielded by "@)
                && crate::text::no_period(batter) && crate::text::no_period(f1)
                && crate::text::lacks(r.text@.subrange(choice_error_prefix(batter, place, f1).len() + 1int, r.size() as int), " to "@)
                && r.text@ == #[trigger] choice_error_text(batter, place, f1, kind, f2)
                implies occurs_at(r.chars@, choice_error_prefix(batter, place, f1).len() as int, "."@)
                && (forall|j: int| 0 <= j < choice_error_prefix(batter, place, f1).len() ==> !#[trigger] occurs_at(r.chars@, j, "."@)) by {
                lemma_field_prefixes(batter, FairBallType::GroundBall, place, f1);
                let pre = choice_error_prefix(batter, place, f1);
                let rest = " "@ + kind.spec_name() + " error by "@ + f2 + "."@;
                assert(r.chars@ =~= pre + "."@ + rest);
                lemma_first_period(r.chars@, pre, rest);
            }
            assert forall|batter: Seq<char>, kind: FieldingErrorType, place: Place, fielder: Seq<char>| ctx.wf() && stops_after(batter, " reaches on a "@)
                && crate::text::no_period(batter) && crate::text::no_period(fielder)
                && r.text@ == #[trigger] reach_error_text(batter, kind, place, fielder)
                implies occurs_at(r.chars@, reach_error_prefix(batter, kind, place, fielder).len() as int, "."@)
                && (forall|j: int| 0 <= j < reach_error_prefix(batter, kind, place, fielder).len() ==> !#[trigger] occurs_at(r.chars@, j, "."@))
                && reach_error_prefix(batter, kind, place, fielder).len() + 1 == n by {
                lemma_field_prefixes(batter, FairBallType::GroundBall, place, fielder);
                let pre = reach_error_prefix(batter, kind, place, fielder);
                assert(crate::text::no_period(pre));
                assert(r.chars@ =~= pre + "."@ + Seq::<char>::empty());
                lemma_first_period(r.chars@, pre, Seq::<char>::empty());
            }
        }
        proof {
            reveal_strlit(".");
            assert forall|batter: Seq<char>, distance: Distance, kind: FairBallType, place: Place, fielder: Seq<char>|
                ctx.wf() && to_base_readable(batter, distance, fielder)
                && r.text@ == #[trigger] to_base_text(batter, distance, kind, place, fielder)
                implies occurs_at(r.chars@, n - 1, "."@)
                && (forall|j: int| 0 <= j < n - 1 ==> !#[trigger] occurs_at(r.chars@, j, "."@)) by {
                lemma_to_base_period(batter, distance, kind, place, fielder);
                let t = r.chars@;
                assert(t.subrange(n - 1, n as int) =~= "."@);
                assert forall|j: int| 0 <= j < n - 1 implies !#[trigger] occurs_at(t, j, "."@) by {
                    if occurs_at(t, j, "."@) {
                        assert(t.subrange(j, j + 1)[0] == t[j]);
                        assert(t.subrange(0, n - 1)[j] == t[j]);
                    }
                }
            }
            assert forall|batter: Seq<char>, distance: Distance, kind: FairBallType, place: Place, fielder: Seq<char>, rs: Seq<Seq<char>>, advs: Seq<(Seq<char>, crate::enums::Base)>|
                ctx.wf() && to_base_readable(batter, distance, fielder) && readable_runs(rs, advs)
                && r.text@ == #[trigger] to_base_runs_text(batter, distance, kind, place, fielder, rs, advs)
                implies occurs_at(r.chars@, to_base_text(batter, distance, kind, place, fielder).len() - 1, "."@)
                && (forall|j: int| 0 <= j < to_base_text(batter, distance, kind, place, fielder).len() - 1 ==> !#[trigger] occurs_at(r.chars@, j, "."@)) by {
                lemma_to_base_period(batter, distance, kind, place, fielder);
                let t = r.chars@;
                let tb = to_base_text(batter, distance, kind, place, fielder);
                let e = tb.len() - 1;
                assert(t.subrange(0, tb.len() as int) =~= tb);
                assert(t.subrange(e, e + 1) =~= "."@) by {
                    assert(t[e] == tb[e]);
                }
                assert forall|j: int| 0 <= j < e implies !#[trigger] occurs_at(t, j, "."@) by {
                    if occurs_at(t, j, "."@) {
                        assert(t.subrange(j, j + 1)[0] == t[j]);
                        assert(t[j] == tb[j]);
                        assert(tb.subrange(0, e)[j] == tb[j]);
                    }
                }
            }
            assert forall|batter: Seq<char>, place: Place, fielder: Seq<char>, rs: Seq<Seq<char>>, advs: Seq<(Seq<char>, crate::enums::Base)>|
                ctx.wf() && ground_out_runs_readable(batter, place, fielder, rs, advs)
                && r.text@ == #[trigger] ground_out_runs_text(batter, place, fielder, rs, advs)
                implies occurs_at(r.chars@, ground_out_text(batter, place, fielder).len() - 1, "."@)
                && (forall|j: int| 0 <= j < ground_out_text(batter, place, fielder).len() - 1 ==> !#[trigger] occurs_at(r.chars@, j, "."@)) by {
                lemma_ground_out_period(batter, place, fielder);
                let t = r.chars@;
                let tb = ground_out_text(batter, place, fielder);
                let e = tb.len() - 1;
                assert(t.subrange(0, tb.len() as int) =~= tb);
                assert(t.subrange(e, e + 1) =~= "."@) by {
                    assert(t[e] == tb[e]);
                }
                assert forall|j: int| 0 <= j < e implies !#[trigger] occurs_at(t, j, "."@) by {
                    if occurs_at(t, j, "."@) {
                        assert(t.subrange(j, j + 1)[0] == t[j]);
                        assert(t[j] == tb[j]);
                        assert(tb.subrange(0, e)[j] == tb[j]);
                    }
                }
            }
            assert forall|batter: Seq<char>, place: Place, fielder: Seq<char>|
                ctx.wf() && ground_out_readable(batter, place, fielder)
                && r.text@ == #[trigger] ground_out_text(batter, place, fielder)
                implies occurs_at(r.chars@, n - 1, "."@)
                && (forall|j: int| 0 <= j < n - 1 ==> !#[trigger] occurs_at(r.chars@, j, "."@)) by {
                lemma_ground_out_period(batter, place, fielder);
                let t = r.chars@;
                assert(t.subrange(n - 1, n as int) =~= "."@);
                assert forall|j: int| 0 <= j < n - 1 implies !#[trigger] occurs_at(t, j, "."@) by {
                    if occurs_at(t, j, "."@) {
                        assert(t.subrange(j, j + 1)[0] == t[j]);
                        assert(t.subrange(0, n - 1)[j] == t[j]);
                    }
                }
            }
            assert forall|batter: Seq<char>, kind: FairBallType, place: Place, fielder: Seq<char>, rs: Seq<Seq<char>>, advs: Seq<(Seq<char>, crate::enums::Base)>|
                ctx.wf() && caught_out_runs_readable(batter, kind, place, fielder, rs, advs)
                && r.text@ == #[trigger] caught_out_runs_text(batter, kind, place, fielder, rs, advs)
                implies occurs_at(r.chars@, caught_out_text(batter, kind, place, fielder).len() - 1, "."@)
                && (forall|j: int| 0 <= j < caught_out_text(batter, kind, place, fielder).len() - 1 ==> !#[trigger] occurs_at(r.chars@, j, "."@)) by {
                lemma_caught_out_period(batter, kind, place, fielder);
                let t = r.chars@;
                let tb = caught_out_text(batter, kind, place, fielder);
                let e = tb.len() - 1;
                assert(t.subrange(0, tb.len() as int) =~= tb);
                assert(t.subrange(e, e + 1) =~= "."@) by {
                    assert(t[e] == tb[e]);
                }
                assert forall|j: int| 0 <= j < e implies !#[trigger] occurs_at(t, j, "."@) by {
                    if occurs_at(t, j, "."@) {
                        assert(t.subrange(j, j + 1)[0] == t[j]);
                        assert(t[j] == tb[j]);
                        assert(tb.subrange(0, e)[j] == tb[j]);
                    }
                }
            }
            assert forall|batter: Seq<char>, kind: FairBallType, place: Place, fielder: Seq<char>|
                ctx.wf() && caught_out_readable(batter, kind, place, fielder)
                && r.text@ == #[trigger] caught_out_text(batter, kind, place, fielder)
                implies occurs_at(r.chars@, n - 1, "."@)
                && (forall|j: int| 0 <= j < n - 1 ==> !#[trigger] occurs_at(r.chars@, j, "."@)) by {
                lemma_caught_out_period(batter, kind, place, fielder);
                let t = r.chars@;
                assert(t.subrange(n - 1, n as int) =~= "."@);
                assert forall|j: int| 0 <= j < n - 1 implies !#[trigger] occurs_at(t, j, "."@) by {
                    if occurs_at(t, j, "."@) {
                        assert(t.subrange(j, j + 1)[0] == t[j]);
                        assert(t.subrange(0, n - 1)[j] == t[j]);
                    }
                }
            }
        }
        let dot = r.find(k, n, ".")?;
        let after = r.lit(dot, n, ".")?;
        if let Some(m) = field_sentences(r, ctx, dot, after) {
            return Some(m);
        }
        k = after;
        tries += 1;
    }
    None
}

/// The first sentence of a force out or a double play with one unassisted fielder.
pub open spec fn play_prefix(double: bool, batter: Seq<char>, kind: FairBallType, place: Place, fielder: Seq<char>) -> Seq<char> {
    batter + " "@ + kind.spec_verb_name() + play_words(double) + crate::reader::unassisted_text(place, fielder)
}

/// The first sentence of a fielder's choice out with one unassisted fielder.
pub open spec fn choice_out_prefix(batter: Seq<char>, place: Place, fielder: Seq<char>) -> Seq<char> {
    batter + " reaches on a fielder's choice out"@ + crate::reader::unassisted_text(place, fielder)
}

/// The first sentence of a fielder's choice with an error.
pub open spec fn choice_error_prefix(batter: Seq<char>, place: Place, f1: Seq<char>) -> Seq<char> {
    batter + " reaches on a fielder's choice, fielded by "@ + place.spec_name() + " "@ + f1
}

/// A text that is a sentence without full stops, a full stop and more holds
/// its first full stop where that sentence ends.
proof fn lemma_first_period(t: Seq<char>, prefix: Seq<char>, rest: Seq<char>)
    requires
        t == prefix + "."@ + rest,
        crate::text::no_period(prefix),
    ensures
        occurs_at(t, prefix.len() as int, "."@),
        forall|j: int| 0 <= j < prefix.len() ==> !#[trigger] occurs_at(t, j, "."@),
{
    reveal_strlit(".");
    assert(t.subrange(prefix.len() as int, prefix.len() + 1int) =~= "."@);
    assert forall|j: int| 0 <= j < prefix.len() implies !#[trigger] occurs_at(t, j, "."@) by {
        if occurs_at(t, j, "."@) {
            assert(t.subrange(j, j + 1)[0] == t[j]);
            assert(t[j] == prefix[j]);
        }
    }
}

/// The sentences of a play whose names hold no full stops hold their first
/// full stop where the first sentence ends.
proof fn lemma_field_prefixes(batter: Seq<char>, kind: FairBallType, place: Place, fielder: Seq<char>)
    requires
        crate::text::no_period(batter),
        crate::text::no_period(fielder),
    ensures
        crate::text::no_period(play_prefix(false, batter, kind, place, fielder)),
        crate::text::no_period(play_prefix(true, batter, kind, place, fielder)),
        crate::text::no_period(choice_out_prefix(batter, place, fielder)),
        crate::text::no_period(choice_error_prefix(batter, place, fielder)),
        forall|e: FieldingErrorType| crate::text::no_period(#[trigger] reach_error_prefix(batter, e, place, fielder)),
{
    reveal_strlit(" ");
    reveal_strlit(", ");
    reveal_strlit(" unassisted");
    reveal_strlit(" into a force out");
    reveal_strlit(" into a double play");
    reveal_strlit(" reaches on a fielder's choice out");
    reveal_strlit(" reaches on a fielder's choice, fielded by ");
    reveal_strlit(" reaches on a ");
    reveal_strlit(" error by ");
    reveal_strlit("throwing");
    reveal_strlit("fielding");
    place.lemma_name_is_word();
    kind.lemma_verb_names();
    let sp = " "@;
    let v = kind.spec_verb_name();
    let pn = place.spec_name();
    assert(crate::text::no_period(sp));
    assert(crate::text::no_period(", "@));
    assert(crate::text::no_period(" unassisted"@));
    assert(crate::text::no_period(" into a force out"@));
    assert(crate::text::no_period(" into a double play"@));
    assert(crate::text::no_period(" reaches on a fielder's choice out"@));
    assert(crate::text::no_period(" reaches on a fielder's choice, fielded by "@));
    assert(crate::text::no_period(" reaches on a "@));
    assert(crate::text::no_period(" error by "@));
    assert(crate::text::no_period(pn));
    crate::text::lemma_no_period_add(", "@, pn);
    crate::text::lemma_no_period_add(", "@ + pn, sp);
    crate::text::lemma_no_period_add(", "@ + pn + sp, fielder);
    crate::text::lemma_no_period_add(", "@ + pn + sp + fielder, " unassisted"@);
    let u = crate::reader::unassisted_text(place, fielder);
    assert(crate::text::no_period(u));
    crate::text::lemma_no_period_add(batter, sp);
    crate::text::lemma_no_period_add(batter + sp, v);
    crate::text::lemma_no_period_add(batter + sp + v, " into a force out"@);
    crate::text::lemma_no_period_add(batter + sp + v, " into a double play"@);
    crate::text::lemma_no_period_add(batter + sp + v + " into a force out"@, u);
    crate::text::lemma_no_period_add(batter + sp + v + " into a double play"@, u);
    crate::text::lemma_no_period_add(batter, " reaches on a fielder's choice out"@);
    crate::text::lemma_no_period_add(batter + " reaches on a fielder's choice out"@, u);
    crate::text::lemma_no_period_add(batter, " reaches on a fielder's choice, fielded by "@);
    crate::text::lemma_no_period_add(batter + " reaches on a fielder's choice, fielded by "@, pn);
    crate::text::lemma_no_period_add(batter + " reaches on a fielder's choice, fielded by "@ + pn, sp);
    crate::text::lemma_no_period_add(batter + " reaches on a fielder's choice, fielded by "@ + pn + sp, fielder);
    assert forall|e: FieldingErrorType| crate::text::no_period(#[trigger] reach_error_prefix(batter, e, place, fielder)) by {
        let lc = e.spec_lowercase();
        assert(crate::text::no_period(lc));
        crate::text::lemma_no_period_add(batter, " reaches on a "@);
        crate::text::lemma_no_period_add(batter + " reaches on a "@, lc);
        crate::text::lemma_no_period_add(batter + " reaches on a "@ + lc, " error by "@);
        crate::text::lemma_no_period_add(batter + " reaches on a "@ + lc + " error by "@, pn);
        crate::text::lemma_no_period_add(batter + " reaches on a "@ + lc + " error by "@ + pn, sp);
        crate::text::lemma_no_period_add(batter + " reaches on a "@ + lc + " error by "@ + pn + sp, fielder);
    }
}

/// The first sentence of a batter reaching on an error.
pub open spec fn reach_error_prefix(batter: Seq<char>, kind: FieldingErrorType, place: Place, fielder: Seq<char>) -> Seq<char> {
    batter + " reaches on a "@ + kind.spec_lowercase() + " error by "@ + place.spec_name() + " "@ + fielder
}

/// The message of `batter` hitting a home run with no runner on base.
pub open spec fn solo_home_run_text(batter: Seq<char>, kind: FairBallType, destination: FairBallDestination) -> Seq<char> {
    "<strong>"@ + batter + " homers on a "@ + kind.spec_name() + " to "@ + destination.spec_name() + "!</strong>"@
}

/// Where the parts of a home run with no runner on base stand in its text `c`.
pub open spec fn solo_home_run_parts(c: Seq<char>, batter: Seq<char>, kind: FairBallType, destination: FairBallDestination) -> bool {
    let a = 8int + batter.len();
    &&& c.subrange(0, 8) == "<strong>"@
    &&& occurs_at(c, a, " homers on a "@)
    &&& (forall|j: int| 8 <= j < a ==> !#[trigger] occurs_at(c, j, " homers on a "@))
    &&& c.subrange(8, a) == batter
    &&& c.subrange(a + 13, c.len() as int) == hit_text(kind, destination, "!</strong>"@)
}

/// "{kind} to {destination}{end}"
pub open spec fn hit_text(kind: FairBallType, destination: FairBallDestination, end: Seq<char>) -> Seq<char> {
    kind.spec_name() + " to "@ + destination.spec_name() + end
}

/// A home run followed by the runners `rs` scoring.
pub open spec fn home_run_runs_text(batter: Seq<char>, kind: FairBallType, destination: FairBallDestination, rs: Seq<Seq<char>>) -> Seq<char> {
    solo_home_run_text(batter, kind, destination) + crate::reader::score_entries(rs)
}

/// The text of a home run with no runner on base is cut at its separators.
proof fn lemma_solo_home_run_parts(c: Seq<char>, batter: Seq<char>, kind: FairBallType, destination: FairBallDestination)
    requires
        stops_after(batter, " homers on a "@),
        c == solo_home_run_text(batter, kind, destination),
    ensures
        solo_home_run_parts(c, batter, kind, destination),
{
    reveal_strlit("<strong>");
    reveal_strlit(" homers on a ");
    let a = 8int + batter.len();
    assert(c.subrange(0, 8) =~= "<strong>"@);
    assert(c.subrange(8, a + 13) =~= batter + " homers on a "@);
    crate::text::lemma_stops_after(c, 8, batter, " homers on a "@);
    assert(c.subrange(8, a) =~= batter);
    assert(c.subrange(a + 13, c.len() as int) =~= hit_text(kind, destination, "!</strong>"@));
}

/// "{kind} to {destination}{end}" at `pos`, and the position after it.
#[verifier::spinoff_prover]
fn hit_to(r: &Reader, pos: usize, end: &str) -> (res: Option<(FairBallType, FairBallDestination, usize)>)
    requires
        r.wf(),
        pos <= r.size(),
    ensures
        res matches Some((_, _, e)) ==> pos <= e <= r.size(),
        forall|kind: FairBallType, destination: FairBallDestination| stops_after(destination.spec_name(), end@)
            && pos + hit_text(kind, destination, end@).len() <= r.size() && r.chars@.subrange(pos as int, pos + hit_text(kind, destination, end@).len()) == #[trigger] hit_text(kind, destination, end@)
            ==> res == Some((kind, destination, (pos + hit_text(kind, destination, end@).len()) as usize)),
{
    let n = r.len();
    let ghost l = end@.len() as int;
    proof {
        reveal_strlit(" to ");
        assert forall|kind: FairBallType, destination: FairBallDestination| stops_after(destination.spec_name(), end@)
            && pos + hit_text(kind, destination, end@).len() <= r.size() && r.chars@.subrange(pos as int, pos + hit_text(kind, destination, end@).len()) == #[trigger] hit_text(kind, destination, end@)
            implies ({
                let k = kind.spec_name();
                let dn = destination.spec_name();
                let b = pos + k.len();
                &&& occurs_at(r.chars@, b, " to "@)
                &&& (forall|j: int| pos <= j < b ==> !#[trigger] occurs_at(r.chars@, j, " to "@))
                &&& occurs_at(r.chars@, b + 4 + dn.len(), end@)
                &&& (forall|j: int| b + 4 <= j < b + 4 + dn.len() ==> !#[trigger] occurs_at(r.chars@, j, end@))
                &&& b + 4 + dn.len() + l <= n
                &&& r.text@.subrange(pos as int, b) == k
                &&& r.text@.subrange(b + 4, b + 4 + dn.len()) == dn
            }) by {
            let k = kind.spec_name();
            let dn = destination.spec_name();
            let b = pos + k.len();
            let c = r.chars@;
            let t = c.subrange(pos as int, pos + hit_text(kind, destination, end@).len());
            assert(t.len() == k.len() + 4 + dn.len() + l);
            kind.lemma_name_no_space_t();
            crate::text::lemma_stops_by_second(k, " to "@);
            assert(c.subrange(pos as int, b + 4) =~= t.subrange(0, k.len() + 4int));
            assert(t.subrange(0, k.len() + 4int) =~= k + " to "@);
            crate::text::lemma_stops_after(c, pos as int, k, " to "@);
            assert(c.subrange(b + 4, pos + t.len()) =~= t.subrange(k.len() + 4int, t.len() as int));
            assert(t.subrange(k.len() + 4int, t.len() as int) =~= dn + end@);
            crate::text::lemma_stops_after(c, b + 4, dn, end@);
            assert(r.text@.subrange(pos as int, b) =~= t.subrange(0, k.len() as int));
            assert(t.subrange(0, k.len() as int) =~= k);
            assert(r.text@.subrange(b + 4, b + 4 + dn.len()) =~= t.subrange(k.len() + 4int, k.len() + 4int + dn.len()));
            assert(t.subrange(k.len() + 4int, k.len() + 4int + dn.len()) =~= dn);
        }
    }
    let (kind, q2) = match r.until(pos, n, " to ") {
        Some(x) => x,
        None => {
            proof {
                assert forall|k: FairBallType, d: FairBallDestination| stops_after(d.spec_name(), end@)
                    && pos + hit_text(k, d, end@).len() <= r.size() && r.chars@.subrange(pos as int, pos + hit_text(k, d, end@).len()) == #[trigger] hit_text(k, d, end@) implies false by {
                    assert(occurs_at(r.chars@, pos + k.spec_name().len(), " to "@));
                }
            }
            return None;
        },
    };
    proof {
        assert forall|k: FairBallType, d: FairBallDestination| stops_after(d.spec_name(), end@)
            && pos + hit_text(k, d, end@).len() <= r.size() && r.chars@.subrange(pos as int, pos + hit_text(k, d, end@).len()) == #[trigger] hit_text(k, d, end@)
            implies q2 == pos + k.spec_name().len() + 4 && FairBallType::spec_parse(kind@) == Some(k) by {
            let b = pos + k.spec_name().len();
            assert(occurs_at(r.chars@, b, " to "@));
            if q2 - 4 < b {
                assert(!occurs_at(r.chars@, q2 - 4, " to "@));
            }
            if q2 - 4 > b {
                assert(!occurs_at(r.chars@, b, " to "@));
            }
            k.lemma_parse_name();
        }
    }
    let fair_ball_type = match FairBallType::from_str(kind) {
        Ok(k) => k,
        Err(_) => return None,
    };
    let (destination_text, q3) = match r.until(q2, n, end) {
        Some(x) => x,
        None => {
            proof {
                assert forall|k: FairBallType, d: FairBallDestination| stops_after(d.spec_name(), end@)
                    && pos + hit_text(k, d, end@).len() <= r.size() && r.chars@.subrange(pos as int, pos + hit_text(k, d, end@).len()) == #[trigger] hit_text(k, d, end@) implies false by {
                    assert(occurs_at(r.chars@, q2 + d.spec_name().len(), end@));
                }
            }
            return None;
        },
    };
    proof {
        assert forall|k: FairBallType, d: FairBallDestination| stops_after(d.spec_name(), end@)
            && pos + hit_text(k, d, end@).len() <= r.size() && r.chars@.subrange(pos as int, pos + hit_text(k, d, end@).len()) == #[trigger] hit_text(k, d, end@)
            implies q3 == pos + hit_text(k, d, end@).len() && FairBallDestination::spec_parse(destination_text@) == Some(d) by {
            let e = q2 + d.spec_name().len();
            assert(occurs_at(r.chars@, e, end@));
            if q3 - l < e {
                assert(!occurs_at(r.chars@, q3 - l, end@));
            }
            if q3 - l > e {
                assert(!occurs_at(r.chars@, e, end@));
            }
            d.lemma_parse_name();
        }
    }
    match FairBallDestination::from_str(destination_text) {
        Ok(d) => Some((fair_ball_type, d, q3)),
        Err(_) => None,
    }
}

/// "<strong>{batter} homers on a {kind} to {destination}!</strong>", or a grand
/// slam, then the runners scoring.
#[verifier::spinoff_prover]
fn home_run<'a>(r: &Reader<'a>, ctx: &ParsingContext) -> (res: Option<ParsedEventMessage<&'a str>>)
    requires
        r.wf(),
    ensures
        ctx.read_as(res, r.text@, EventType::Field),
        forall|batter: Seq<char>, kind: FairBallType, destination: FairBallDestination|
            ctx.wf() && stops_after(batter, " homers on a "@) && r.text@ == #[trigger] solo_home_run_text(batter, kind, destination)
            ==> (res matches Some(ParsedEventMessage::HomeRun { batter: b, fair_ball_type, destination: d, scores, grand_slam, ejection })
                && b@ == batter && fair_ball_type == kind && d == destination && scores@.len() == 0 && !grand_slam
                && ejection is None),
        forall|batter: Seq<char>, kind: FairBallType, destination: FairBallDestination, rs: Seq<Seq<char>>|
            ctx.wf() && stops_after(batter, " homers on a "@) && crate::reader::scoring_runners(rs)
            && r.text@ == #[trigger] home_run_runs_text(batter, kind, destination, rs)
            ==> (res matches Some(ParsedEventMessage::HomeRun { batter: b, fair_ball_type, destination: d, scores, grand_slam, ejection })
                && b@ == batter && fair_ball_type == kind && d == destination && !grand_slam && ejection is None
                && scores@.len() == rs.len() && (forall|i: int| 0 <= i < rs.len() ==> (#[trigger] scores@[i])@ == rs[i])),
        !begins_with(r.text@, "<strong>"@) ==> res is None,
{
    let n = r.len();
    proof {
        reveal_strlit("<strong>");
        reveal_strlit(" homers on a ");
        reveal_strlit(" to ");
        reveal_strlit("!</strong>");
        assert forall|batter: Seq<char>, kind: FairBallType, destination: FairBallDestination, rs: Seq<Seq<char>>| stops_after(batter, " homers on a "@) && crate::reader::scoring_runners(rs)
            && r.text@ == #[trigger] home_run_runs_text(batter, kind, destination, rs)
            implies ({
                let a = 8int + batter.len();
                let h = hit_text(kind, destination, "!</strong>"@);
                let e = a + 13 + h.len();
                &&& r.chars@.subrange(0, 8) == "<strong>"@
                &&& occurs_at(r.chars@, a, " homers on a "@)
                &&& (forall|j: int| 8 <= j < a ==> !#[trigger] occurs_at(r.chars@, j, " homers on a "@))
                &&& r.text@.subrange(8, a) == batter
                &&& e <= n && r.chars@.subrange(a + 13, e) == h
                &&& e + crate::reader::score_entries(rs).len() == n
                &&& r.text@.subrange(e, n as int) == crate::reader::score_entries(rs) + Seq::<char>::empty()
                &&& !crate::reader::starts_strong(Seq::<char>::empty())
            }) by {
            let a = 8int + batter.len();
            let h = hit_text(kind, destination, "!</strong>"@);
            let e = a + 13 + h.len();
            let t = home_run_runs_text(batter, kind, destination, rs);
            assert(t =~= "<strong>"@ + (batter + " homers on a "@) + h + crate::reader::score_entries(rs));
            assert(r.chars@.subrange(0, 8) =~= "<strong>"@);
            assert(r.chars@.subrange(8, a + 13) =~= batter + " homers on a "@);
            crate::text::lemma_stops_after(r.chars@, 8, batter, " homers on a "@);
            assert(r.text@.subrange(8, a) =~= batter);
            assert(r.chars@.subrange(a + 13, e) =~= h);
            assert(r.text@.subrange(e, n as int) =~= crate::reader::score_entries(rs) + Seq::<char>::empty());
        }
    }
    proof {
        reveal_strlit("<strong>");
        reveal_strlit(" homers on a ");
        assert forall|batter: Seq<char>, kind: FairBallType, destination: FairBallDestination|
            stops_after(batter, " homers on a "@) && r.text@ == #[trigger] solo_home_run_text(batter, kind, destination)
            implies solo_home_run_parts(r.chars@, batter, kind, destination) by {
            lemma_solo_home_run_parts(r.chars@, batter, kind, destination);
        }
    }
    let p = r.lit(0, n, "<strong>")?;
    proof {
        assert(r.text@.subrange(0, "<strong>"@.len() as int) =~= r.chars@.subrange(0, p as int));
    }
    let (batter, q, grand_slam) = match r.until(p, n, " homers on a ") {
        Some((batter, q)) => (batter, q, false),
        None => {
            let (batter, q) = r.until(p, n, " hits a grand slam on a ")?;
            (batter, q, true)
        },
    };
    proof {
        assert forall|name: Seq<char>, kind: FairBallType, destination: FairBallDestination|
            stops_after(name, " homers on a "@) && r.text@ == #[trigger] solo_home_run_text(name, kind, destination)
            implies !grand_slam && q == 8 + name.len() + 13 && batter@ == name by {
            let a = 8int + name.len();
            assert(occurs_at(r.chars@, a, " homers on a "@));
            if !grand_slam {
                if q - 13 < a {
                    assert(!occurs_at(r.chars@, q - 13, " homers on a "@));
                }
                if q - 13 > a {
                    assert(!occurs_at(r.chars@, a, " homers on a "@));
                }
            }
        }
        assert forall|name: Seq<char>, k: FairBallType, d: FairBallDestination, rs: Seq<Seq<char>>|
            stops_after(name, " homers on a "@) && crate::reader::scoring_runners(rs)
            && r.text@ == #[trigger] home_run_runs_text(name, k, d, rs)
            implies !grand_slam && q == 8 + name.len() + 13 && batter@ == name by {
            let a = 8int + name.len();
            assert(occurs_at(r.chars@, a, " homers on a "@));
            if !grand_slam {
                if q - 13 < a {
                    assert(!occurs_at(r.chars@, q - 13, " homers on a "@));
                }
                if q - 13 > a {
                    assert(!occurs_at(r.chars@, a, " homers on a "@));
                }
            }
        }
    }
    proof {
        assert forall|name: Seq<char>, k: FairBallType, d: FairBallDestination|
            stops_after(name, " homers on a "@) && r.text@ == #[trigger] solo_home_run_text(name, k, d)
            implies r.chars@.subrange(q as int, r.size() as int) == hit_text(k, d, "!</strong>"@)
            && stops_after(d.spec_name(), "!</strong>"@) by {
            assert(solo_home_run_parts(r.chars@, name, k, d));
            reveal_strlit("!</strong>");
            d.lemma_name_no_exclamation();
            crate::text::lemma_stops_by_first(d.spec_name(), "!</strong>"@);
        }
    }
    proof {
        reveal_strlit("!</strong>");
        assert forall|name: Seq<char>, k: FairBallType, d: FairBallDestination, rs: Seq<Seq<char>>|
            stops_after(name, " homers on a "@) && crate::reader::scoring_runners(rs)
            && r.text@ == #[trigger] home_run_runs_text(name, k, d, rs)
            implies stops_after(d.spec_name(), "!</strong>"@) by {
            d.lemma_name_no_exclamation();
            crate::text::lemma_stops_by_first(d.spec_name(), "!</strong>"@);
        }
    }
    let (fair_ball_type, destination, q3) = hit_to(r, q, "!</strong>")?;
    let (scores, _) = r.scores(q3, n);
    let m = ParsedEventMessage::HomeRun { batter, fair_ball_type, destination, scores, grand_slam, ejection: None };
    proof {
        assert forall|name: Seq<char>, k: FairBallType, d: FairBallDestination|
            ctx.wf() && stops_after(name, " homers on a "@) && r.text@ == #[trigger] solo_home_run_text(name, k, d)
            implies ctx.writes(m, r.text@) by {
            assert(scores_text(scores@) == Seq::<char>::empty());
            assert(m.spec_home_run_text(ctx.spec_unparsing(), ctx.event_index) =~= r.text@);
        }
        assert forall|name: Seq<char>, k: FairBallType, d: FairBallDestination, rs: Seq<Seq<char>>|
            ctx.wf() && stops_after(name, " homers on a "@) && crate::reader::scoring_runners(rs)
            && r.text@ == #[trigger] home_run_runs_text(name, k, d, rs)
            implies ctx.writes(m, r.text@) && scores@.len() == rs.len()
            && (forall|i: int| 0 <= i < rs.len() ==> (#[trigger] scores@[i])@ == rs[i]) by {
            crate::reader::lemma_scores_text(scores@, rs);
            assert(m.spec_home_run_text(ctx.spec_unparsing(), ctx.event_index) =~= r.text@);
        }
    }
    ctx.accept(m, r.text)
}

/// The messages of a ball in play whose first sentence ends with the full stop
/// at `dot`, which `after` follows.
fn field_sentences<'a>(r: &Reader<'a>, ctx: &ParsingContext, dot: usize, after: usize) -> (res: Option<ParsedEventMessage<&'a str>>)
    requires
        r.wf(),
        dot <= after <= r.size(),
    ensures
        ctx.read_as(res, r.text@, EventType::Field),
        forall|batter: Seq<char>, kind: FairBallType, place: Place, fielder: Seq<char>|
            ctx.wf() && caught_out_readable(batter, kind, place, fielder) && dot + 1 == r.size() && after == r.size()
            && r.text@ == #[trigger] caught_out_text(batter, kind, place, fielder)
            ==> (res matches Some(ParsedEventMessage::CaughtOut { batter: b, fair_ball_type, caught_by, scores, advances, sacrifice, perfect, ejection })
                && b@ == batter && fair_ball_type == kind && caught_by.place == place && caught_by.name@ == fielder
                && scores@.len() == 0 && advances@.len() == 0 && !sacrifice && !perfect && ejection is None),
        forall|batter: Seq<char>, place: Place, fielder: Seq<char>|
            ctx.wf() && ground_out_readable(batter, place, fielder) && dot + 1 == r.size() && after == r.size()
            && r.text@ == #[trigger] ground_out_text(batter, place, fielder)
            ==> (res matches Some(ParsedEventMessage::GroundedOut { batter: b, fielders, scores, advances, amazing, ejection })
                && b@ == batter && fielders@.len() == 1 && fielders@[0].place == place && fielders@[0].name@ == fielder
                && scores@.len() == 0 && advances@.len() == 0 && !amazing && ejection is None),
        forall|batter: Seq<char>, distance: Distance, kind: FairBallType, place: Place, fielder: Seq<char>|
            ctx.wf() && to_base_readable(batter, distance, fielder) && dot + 1 == r.size() && after == r.size()
            && r.text@ == #[trigger] to_base_text(batter, distance, kind, place, fielder)
            ==> (res matches Some(ParsedEventMessage::BatterToBase { batter: b, distance: d, fair_ball_type, fielder: f, scores, advances, ejection })
                && b@ == batter && d == distance && fair_ball_type == kind && f.place == place && f.name@ == fielder
                && scores@.len() == 0 && advances@.len() == 0 && ejection is None),
        forall|batter: Seq<char>, distance: Distance, kind: FairBallType, place: Place, fielder: Seq<char>, rs: Seq<Seq<char>>, advs: Seq<(Seq<char>, crate::enums::Base)>|
            ctx.wf() && to_base_readable(batter, distance, fielder) && readable_runs(rs, advs)
            && dot + 1 == to_base_text(batter, distance, kind, place, fielder).len() && after == dot + 1
            && r.text@ == #[trigger] to_base_runs_text(batter, distance, kind, place, fielder, rs, advs)
            ==> (res matches Some(ParsedEventMessage::BatterToBase { batter: b, distance: d, fair_ball_type, fielder: f, scores, advances, ejection })
                && b@ == batter && d == distance && fair_ball_type == kind && f.place == place && f.name@ == fielder
                && same_runs(scores@, advances@, rs, advs) && ejection is None),
        forall|batter: Seq<char>, place: Place, fielder: Seq<char>, rs: Seq<Seq<char>>, advs: Seq<(Seq<char>, crate::enums::Base)>|
            ctx.wf() && ground_out_runs_readable(batter, place, fielder, rs, advs)
            && dot + 1 == ground_out_text(batter, place, fielder).len() && after == dot + 1
            && r.text@ == #[trigger] ground_out_runs_text(batter, place, fielder, rs, advs)
            ==> (res matches Some(ParsedEventMessage::GroundedOut { batter: b, fielders, scores, advances, amazing, ejection })
                && b@ == batter && fielders@.len() == 1 && fielders@[0].place == place && fielders@[0].name@ == fielder
                && same_runs(scores@, advances@, rs, advs) && !amazing && ejection is None),
        forall|batter: Seq<char>, kind: FairBallType, place: Place, fielder: Seq<char>, rs: Seq<Seq<char>>, advs: Seq<(Seq<char>, crate::enums::Base)>|
            ctx.wf() && caught_out_runs_readable(batter, kind, place, fielder, rs, advs)
            && dot + 1 == caught_out_text(batter, kind, place, fielder).len() && after == dot + 1
            && r.text@ == #[trigger] caught_out_runs_text(batter, kind, place, fielder, rs, advs)
            ==> (res matches Some(ParsedEventMessage::CaughtOut { batter: b, fair_ball_type, caught_by, scores, advances, sacrifice, perfect, ejection })
                && b@ == batter && fair_ball_type == kind && caught_by.place == place && caught_by.name@ == fielder
                && same_runs(scores@, advances@, rs, advs) && !sacrifice && !perfect && ejection is None),
        forall|double: bool, batter: Seq<char>, kind: FairBallType, place: Place, fielder: Seq<char>, runner: Seq<char>, base: crate::enums::BaseNameVariant| ctx.wf() && stops_after(batter + " "@ + kind.spec_verb_name(), play_words(double)) && stops_after(runner, " out at "@)
            && (double ==> crate::text::lacks(play_prefix(double, batter, kind, place, fielder), " into a force out"@))
            && dot == play_prefix(double, batter, kind, place, fielder).len() && after == dot + 1
            && r.text@ == #[trigger] play_text(double, batter, kind, place, fielder, runner, base)
            ==> res is Some,
        forall|batter: Seq<char>, place: Place, fielder: Seq<char>, runner: Seq<char>, base: crate::enums::BaseNameVariant| ctx.wf() && stops_after(batter, " reaches on a fielder's choice out"@) && stops_after(runner, " out at "@)
            && dot == choice_out_prefix(batter, place, fielder).len() && after == dot + 1
            && r.text@ == #[trigger] choice_out_text(batter, place, fielder, runner, base)
            ==> res is Some,
        forall|batter: Seq<char>, place: Place, f1: Seq<char>, kind: FieldingErrorType, f2: Seq<char>| ctx.wf() && stops_after(batter, " reaches on a fielder's choice, fielded by "@)
            && dot == choice_error_prefix(batter, place, f1).len() && after == dot + 1
            && crate::text::lacks(r.text@.subrange(choice_error_prefix(batter, place, f1).len() + 1int, r.size() as int), " to "@)
            && r.text@ == #[trigger] choice_error_text(batter, place, f1, kind, f2)
            ==> res is Some,
        forall|batter: Seq<char>, kind: FieldingErrorType, place: Place, fielder: Seq<char>| ctx.wf() && stops_after(batter, " reaches on a "@)
            && dot + 1 == after && after == r.size() as int
            && r.text@ == #[trigger] reach_error_text(batter, kind, place, fielder)
            ==> res is Some,
{
    proof {
        assert forall|double: bool, batter: Seq<char>, kind: FairBallType, place: Place, fielder: Seq<char>, runner: Seq<char>,
            base: crate::enums::BaseNameVariant|
            dot == play_prefix(double, batter, kind, place, fielder).len()
            && r.text@ == #[trigger] play_text(double, batter, kind, place, fielder, runner, base)
            implies r.text@.subrange(0, dot as int) == play_prefix(double, batter, kind, place, fielder) by {
            assert(r.text@.subrange(0, dot as int) =~= play_prefix(double, batter, kind, place, fielder));
        }
    }
    if let Some(m) = batter_to_base(r, ctx, dot, after) {
        return Some(m);
    }
    if let Some(m) = grounded_out(r, ctx, dot, after) {
        return Some(m);
    }
    if let Some(m) = caught_out(r, ctx, dot, after) {
        return Some(m);
    }
    if let Some(m) = force_or_double_play(r, ctx, dot, after) {
        return Some(m);
    }
    if let Some(m) = fielders_choice_out(r, ctx, dot, after) {
        return Some(m);
    }
    if let Some(m) = fielders_choice_error(r, ctx, dot, after) {
        return Some(m);
    }
    reach_on_error(r, ctx, dot, after)
}

/// The message of `batter` reaching base by `distance` on a ball of `kind` to
/// `fielder` at `place`, with no runner moving.
pub open spec fn to_base_text(batter: Seq<char>, distance: Distance, kind: FairBallType, place: Place, fielder: Seq<char>) -> Seq<char> {
    batter + " "@ + distance.spec_name() + " on a "@ + kind.spec_name() + " to "@ + place.spec_name() + " "@ + fielder + "."@
}

/// A batter reaching base followed by runners scoring and then runners advancing.
pub open spec fn to_base_runs_text(batter: Seq<char>, distance: Distance, kind: FairBallType, place: Place, fielder: Seq<char>,
    rs: Seq<Seq<char>>, advs: Seq<(Seq<char>, crate::enums::Base)>) -> Seq<char> {
    to_base_text(batter, distance, kind, place, fielder) + crate::reader::runs_text(rs, advs)
}

/// Whether the names in a batter reaching base can be told from the words
/// around them: neither name holds a full stop, the batter's does not start
/// with `<`, and " on a " occurs after the batter and the distance only where
/// they end.
pub open spec fn to_base_readable(batter: Seq<char>, distance: Distance, fielder: Seq<char>) -> bool {
    &&& batter.len() > 0 && batter[0] != '<'
    &&& crate::text::no_period(batter)
    &&& crate::text::no_period(fielder)
    &&& stops_after(batter + " "@ + distance.spec_name(), " on a "@)
}

/// The message of a batter reaching base holds its only full stop at its end.
proof fn lemma_to_base_period(batter: Seq<char>, distance: Distance, kind: FairBallType, place: Place, fielder: Seq<char>)
    requires
        to_base_readable(batter, distance, fielder),
    ensures
        ({
            let t = to_base_text(batter, distance, kind, place, fielder);
            &&& crate::text::no_period(t.subrange(0, t.len() - 1))
            &&& t[t.len() - 1] == '.'
        }),
{
    reveal_strlit(" ");
    reveal_strlit(" on a ");
    reveal_strlit(" to ");
    reveal_strlit(".");
    let t = to_base_text(batter, distance, kind, place, fielder);
    distance.lemma_name_is_word();
    kind.lemma_name_no_space_t();
    place.lemma_name_is_word();
    let w = batter + " "@ + distance.spec_name() + " on a "@ + kind.spec_name() + " to "@ + place.spec_name() + " "@ + fielder;
    crate::text::lemma_no_period_add(batter, " "@);
    crate::text::lemma_no_period_add(batter + " "@, distance.spec_name());
    crate::text::lemma_no_period_add(batter + " "@ + distance.spec_name(), " on a "@);
    crate::text::lemma_no_period_add(batter + " "@ + distance.spec_name() + " on a "@, kind.spec_name());
    crate::text::lemma_no_period_add(batter + " "@ + distance.spec_name() + " on a "@ + kind.spec_name(), " to "@);
    crate::text::lemma_no_period_add(batter + " "@ + distance.spec_name() + " on a "@ + kind.spec_name() + " to "@, place.spec_name());
    crate::text::lemma_no_period_add(batter + " "@ + distance.spec_name() + " on a "@ + kind.spec_name() + " to "@ + place.spec_name(), " "@);
    crate::text::lemma_no_period_add(batter + " "@ + distance.spec_name() + " on a "@ + kind.spec_name() + " to "@ + place.spec_name() + " "@, fielder);
    assert(t.subrange(0, t.len() - 1) =~= w);
}

/// Where the parts of a batter reaching base stand in its text `c`.
pub open spec fn to_base_parts(c: Seq<char>, batter: Seq<char>, distance: Distance, kind: FairBallType, place: Place, fielder: Seq<char>) -> bool {
    let b = batter.len() as int;
    let q = b + 1 + distance.spec_name().len();
    let p = q + 6;
    let p2 = p + kind.spec_name().len() + 4;
    &&& occurs_at(c, q, " on a "@)
    &&& (forall|j: int| 0 <= j < q ==> !#[trigger] occurs_at(c, j, " on a "@))
    &&& c[b] == ' '
    &&& (forall|j: int| b < j < q ==> #[trigger] c[j] != ' ')
    &&& c.subrange(0, b) == batter
    &&& c.subrange(b + 1, q) == distance.spec_name()
    &&& occurs_at(c, p + kind.spec_name().len(), " to "@)
    &&& (forall|j: int| p <= j < p + kind.spec_name().len() ==> !#[trigger] occurs_at(c, j, " to "@))
    &&& c.subrange(p, p + kind.spec_name().len()) == kind.spec_name()
    &&& c.subrange(p2, c.len() - 1) == place.spec_name() + " "@ + fielder
    &&& p2 <= c.len() - 1
}

/// The text of a batter reaching base is cut at its separators.
proof fn lemma_to_base_parts(c: Seq<char>, batter: Seq<char>, distance: Distance, kind: FairBallType, place: Place, fielder: Seq<char>)
    requires
        to_base_readable(batter, distance, fielder),
        c == to_base_text(batter, distance, kind, place, fielder),
    ensures
        to_base_parts(c, batter, distance, kind, place, fielder),
{
    reveal_strlit(" ");
    reveal_strlit(" on a ");
    reveal_strlit(" to ");
    reveal_strlit(".");
    let b = batter.len() as int;
    let dn = distance.spec_name();
    let k = kind.spec_name();
    let q = b + 1 + dn.len();
    let p = q + 6;
    let p2 = p + k.len() + 4;
    let w1 = batter + " "@ + dn;
    assert(c.subrange(0, q + 6) =~= w1 + " on a "@);
    crate::text::lemma_stops_after(c, 0, w1, " on a "@);
    assert(c[b] == ' ');
    distance.lemma_name_is_word();
    assert forall|j: int| b < j < q implies #[trigger] c[j] != ' ' by {
        assert(c[j] == dn[j - b - 1]);
    }
    assert(c.subrange(0, b) =~= batter);
    assert(c.subrange(b + 1, q) =~= dn);
    kind.lemma_name_no_space_t();
    crate::text::lemma_stops_by_second(k, " to "@);
    assert(c.subrange(p, p2) =~= k + " to "@);
    crate::text::lemma_stops_after(c, p, k, " to "@);
    assert(c.subrange(p, p + k.len()) =~= k);
    assert(c.subrange(p2, c.len() - 1) =~= place.spec_name() + " "@ + fielder);
}

/// "{batter} {distance} on a " at the start of the message, the first sentence
/// of which ends at `dot`: the end of the batter's name, the distance and the
/// position after " on a ".
#[verifier::spinoff_prover]
fn distance_at(r: &Reader, dot: usize) -> (res: Option<(usize, Distance, usize)>)
    requires
        r.wf(),
        dot <= r.size(),
    ensures
        res matches Some((sp, _, p)) ==> sp <= p <= dot,
        crate::text::lacks(r.text@, " on a "@) ==> res is None,
        forall|batter: Seq<char>, distance: Distance, kind: FairBallType, place: Place, fielder: Seq<char>|
            to_base_readable(batter, distance, fielder) && dot + 1 <= r.size()
            && r.text@.subrange(0, dot + 1) == #[trigger] to_base_text(batter, distance, kind, place, fielder)
            ==> res == Some((batter.len() as usize, distance, (batter.len() + 1 + distance.spec_name().len() + 6) as usize)),
{
    let n = r.len();
    proof {
        reveal_strlit(" ");
        reveal_strlit(" on a ");
        assert forall|batter: Seq<char>, distance: Distance, kind: FairBallType, place: Place, fielder: Seq<char>|
            to_base_readable(batter, distance, fielder) && dot + 1 <= r.size()
            && r.text@.subrange(0, dot + 1) == #[trigger] to_base_text(batter, distance, kind, place, fielder)
            implies ({
                let b = batter.len() as int;
                let qq = b + 1 + distance.spec_name().len();
                &&& occurs_at(r.chars@, qq, " on a "@)
                &&& (forall|j: int| 0 <= j < qq ==> !#[trigger] occurs_at(r.chars@, j, " on a "@))
                &&& r.chars@[b] == ' '
                &&& (forall|j: int| b < j < qq ==> #[trigger] r.chars@[j] != ' ')
                &&& r.text@.subrange(b + 1, qq) == distance.spec_name()
                &&& qq + 6 <= dot
            }) by {
            let c = r.chars@.subrange(0, dot + 1);
            lemma_to_base_parts(c, batter, distance, kind, place, fielder);
            let b = batter.len() as int;
            let qq = b + 1 + distance.spec_name().len();
            assert(r.chars@.subrange(qq, qq + 6) =~= c.subrange(qq, qq + 6));
            assert forall|j: int| 0 <= j < qq implies !#[trigger] occurs_at(r.chars@, j, " on a "@) by {
                assert(r.chars@.subrange(j, j + 6) =~= c.subrange(j, j + 6));
                assert(!occurs_at(c, j, " on a "@));
            }
            assert(r.chars@[b] == c[b]);
            assert forall|j: int| b < j < qq implies #[trigger] r.chars@[j] != ' ' by {
                assert(r.chars@[j] == c[j]);
            }
            assert(r.text@.subrange(b + 1, qq) =~= c.subrange(b + 1, qq));
        }
    }
    let q = match r.find(0, dot, " on a ") {
        Some(q) => q,
        None => {
            proof {
                assert forall|batter: Seq<char>, distance: Distance, kind: FairBallType, place: Place, fielder: Seq<char>|
                    to_base_readable(batter, distance, fielder) && dot + 1 <= r.size()
                    && r.text@.subrange(0, dot + 1) == #[trigger] to_base_text(batter, distance, kind, place, fielder) implies false by {
                    assert(occurs_at(r.chars@, batter.len() as int + 1 + distance.spec_name().len(), " on a "@));
                }
            }
            return None;
        },
    };
    proof {
        assert forall|batter: Seq<char>, distance: Distance, kind: FairBallType, place: Place, fielder: Seq<char>|
            to_base_readable(batter, distance, fielder) && dot + 1 <= r.size()
            && r.text@.subrange(0, dot + 1) == #[trigger] to_base_text(batter, distance, kind, place, fielder)
            implies q == batter.len() + 1 + distance.spec_name().len() by {
            let qq = batter.len() as int + 1 + distance.spec_name().len();
            assert(occurs_at(r.chars@, qq, " on a "@));
            if q < qq {
                assert(!occurs_at(r.chars@, q as int, " on a "@));
            }
            if q > qq {
                assert(!occurs_at(r.chars@, qq, " on a "@));
            }
        }
    }
    let sp = match r.rfind_char(0, q, ' ') {
        Some(sp) => sp,
        None => {
            proof {
                assert forall|batter: Seq<char>, distance: Distance, kind: FairBallType, place: Place, fielder: Seq<char>|
                    to_base_readable(batter, distance, fielder) && dot + 1 <= r.size()
                    && r.text@.subrange(0, dot + 1) == #[trigger] to_base_text(batter, distance, kind, place, fielder) implies false by {
                    assert(r.chars@[batter.len() as int] == ' ');
                }
            }
            return None;
        },
    };
    proof {
        assert forall|batter: Seq<char>, distance: Distance, kind: FairBallType, place: Place, fielder: Seq<char>|
            to_base_readable(batter, distance, fielder) && dot + 1 <= r.size()
            && r.text@.subrange(0, dot + 1) == #[trigger] to_base_text(batter, distance, kind, place, fielder)
            implies sp == batter.len() && r.chars@.subrange(sp as int, sp + 1) == " "@
            && Distance::spec_parse(r.text@.subrange(sp + 1, q as int)) == Some(distance) by {
            let b = batter.len() as int;
            if sp < b {
                assert(r.chars@[b] == ' ');
            }
            if sp > b {
                assert(r.chars@[sp as int] != ' ');
            }
            assert(r.chars@.subrange(sp as int, sp + 1) =~= seq![r.chars@[sp as int]]);
            distance.lemma_parse_name();
        }
    }
    let a = match r.lit(sp, q, " ") {
        Some(a) => a,
        None => return None,
    };
    let distance = match Distance::from_str(r.slice(a, q)) {
        Ok(d) => d,
        Err(_) => return None,
    };
    let p = r.lit(q, dot, " on a ")?;
    Some((sp, distance, p))
}

/// "{kind} to {fielder}" filling `pos..end`.
#[verifier::spinoff_prover]
fn kind_to_fielder<'a>(r: &Reader<'a>, pos: usize, end: usize) -> (res: Option<(FairBallType, PlacedPlayer<&'a str>)>)
    requires
        r.wf(),
        pos <= end <= r.size(),
    ensures
        forall|kind: FairBallType, place: Place, fielder: Seq<char>|
            r.text@.subrange(pos as int, end as int) == #[trigger] kind_to_fielder_text(kind, place, fielder)
            ==> (res matches Some((k, f)) && k == kind && f.place == place && f.name@ == fielder),
{
    proof {
        reveal_strlit(" to ");
        reveal_strlit(" ");
        assert forall|kind: FairBallType, place: Place, fielder: Seq<char>|
            r.text@.subrange(pos as int, end as int) == #[trigger] kind_to_fielder_text(kind, place, fielder)
            implies occurs_at(r.chars@, pos + kind.spec_name().len(), " to "@)
            && (forall|j: int| pos <= j < pos + kind.spec_name().len() ==> !#[trigger] occurs_at(r.chars@, j, " to "@))
            && r.text@.subrange(pos + kind.spec_name().len() + 4, end as int) == place.spec_name() + " "@ + fielder
            && r.text@.subrange(pos as int, pos + kind.spec_name().len()) == kind.spec_name() by {
            let k = kind.spec_name();
            let t = r.chars@.subrange(pos as int, end as int);
            assert(t.len() == k.len() + 4 + place.spec_name().len() + 1 + fielder.len());
            kind.lemma_name_no_space_t();
            crate::text::lemma_stops_by_second(k, " to "@);
            assert(r.chars@.subrange(pos as int, pos + k.len() + 4) =~= t.subrange(0, k.len() + 4int));
            assert(t.subrange(0, k.len() + 4int) =~= k + " to "@);
            crate::text::lemma_stops_after(r.chars@, pos as int, k, " to "@);
            assert(r.text@.subrange(pos + k.len() + 4, end as int) =~= t.subrange(k.len() + 4int, t.len() as int));
            assert(t.subrange(k.len() + 4int, t.len() as int) =~= place.spec_name() + " "@ + fielder);
            assert(r.text@.subrange(pos as int, pos + k.len()) =~= t.subrange(0, k.len() as int));
            assert(t.subrange(0, k.len() as int) =~= k);
        }
    }
    let (kind, p) = match r.until(pos, end, " to ") {
        Some(x) => x,
        None => {
            proof {
                assert forall|k: FairBallType, place: Place, fielder: Seq<char>|
                    r.text@.subrange(pos as int, end as int) == #[trigger] kind_to_fielder_text(k, place, fielder) implies false by {
                    reveal_strlit(" ");
                    assert(r.text@.subrange(pos as int, end as int).len() == k.spec_name().len() + 4 + place.spec_name().len() + 1 + fielder.len());
                    assert(occurs_at(r.chars@, pos + k.spec_name().len(), " to "@));
                    assert(pos + k.spec_name().len() + " to "@.len() <= end);
                }
            }
            return None;
        },
    };
    proof {
        assert forall|k: FairBallType, place: Place, fielder: Seq<char>|
            r.text@.subrange(pos as int, end as int) == #[trigger] kind_to_fielder_text(k, place, fielder)
            implies FairBallType::spec_parse(kind@) == Some(k) && p == pos + k.spec_name().len() + 4 by {
            let e = pos + k.spec_name().len();
            assert(occurs_at(r.chars@, e, " to "@));
            if p - 4 < e {
                assert(!occurs_at(r.chars@, p - 4, " to "@));
            }
            if p - 4 > e {
                assert(!occurs_at(r.chars@, e, " to "@));
            }
            k.lemma_parse_name();
        }
    }
    let fair_ball_type = match FairBallType::from_str(kind) {
        Ok(k) => k,
        Err(_) => return None,
    };
    let fielder = r.placed_player(p, end)?;
    Some((fair_ball_type, fielder))
}

/// "{kind} to {place} {fielder}"
pub open spec fn kind_to_fielder_text(kind: FairBallType, place: Place, fielder: Seq<char>) -> Seq<char> {
    kind.spec_name() + " to "@ + place.spec_name() + " "@ + fielder
}

/// "{batter} {distance} on a {kind} to {fielder}."
#[verifier::spinoff_prover]
#[verifier::spinoff_prover]
#[verifier::rlimit(40)]
fn batter_to_base<'a>(r: &Reader<'a>, ctx: &ParsingContext, dot: usize, after: usize) -> (res: Option<ParsedEventMessage<&'a str>>)
    requires
        r.wf(),
        dot <= after <= r.size(),
    ensures
        ctx.read_as(res, r.text@, EventType::Field),
        forall|batter: Seq<char>, distance: Distance, kind: FairBallType, place: Place, fielder: Seq<char>|
            ctx.wf() && to_base_readable(batter, distance, fielder) && dot + 1 == r.size() && after == r.size()
            && r.text@ == #[trigger] to_base_text(batter, distance, kind, place, fielder)
            ==> (res matches Some(ParsedEventMessage::BatterToBase { batter: b, distance: d, fair_ball_type, fielder: f, scores, advances, ejection })
                && b@ == batter && d == distance && fair_ball_type == kind && f.place == place && f.name@ == fielder
                && scores@.len() == 0 && advances@.len() == 0 && ejection is None),
        forall|batter: Seq<char>, distance: Distance, kind: FairBallType, place: Place, fielder: Seq<char>, rs: Seq<Seq<char>>, advs: Seq<(Seq<char>, crate::enums::Base)>|
            ctx.wf() && to_base_readable(batter, distance, fielder) && readable_runs(rs, advs)
            && dot + 1 == to_base_text(batter, distance, kind, place, fielder).len() && after == dot + 1
            && r.text@ == #[trigger] to_base_runs_text(batter, distance, kind, place, fielder, rs, advs)
            ==> (res matches Some(ParsedEventMessage::BatterToBase { batter: b, distance: d, fair_ball_type, fielder: f, scores, advances, ejection })
                && b@ == batter && d == distance && fair_ball_type == kind && f.place == place && f.name@ == fielder
                && same_runs(scores@, advances@, rs, advs) && ejection is None),
        crate::text::lacks(r.text@, " on a "@) ==> res is None,
{
    let n = r.len();
    proof {
    }
    proof {
        assert forall|batter: Seq<char>, dd: Distance, k: FairBallType, place: Place, fielder: Seq<char>|
            to_base_readable(batter, dd, fielder) && dot + 1 == r.size()
            && r.text@ == #[trigger] to_base_text(batter, dd, k, place, fielder)
            implies r.text@.subrange(0, dot + 1) == to_base_text(batter, dd, k, place, fielder) by {
            assert(r.text@.subrange(0, dot + 1) =~= r.text@);
        }
        assert forall|batter: Seq<char>, dd: Distance, k: FairBallType, place: Place, fielder: Seq<char>, rs: Seq<Seq<char>>, advs: Seq<(Seq<char>, crate::enums::Base)>|
            dot + 1 == to_base_text(batter, dd, k, place, fielder).len()
            && r.text@ == #[trigger] to_base_runs_text(batter, dd, k, place, fielder, rs, advs)
            implies r.text@.subrange(0, dot + 1) == to_base_text(batter, dd, k, place, fielder)
            && dot + 1 <= n
            && (dot + 1) + crate::reader::runs_text(rs, advs).len() == n
            && r.text@.subrange(dot + 1, n as int) == crate::reader::runs_text(rs, advs) by {
            assert(r.text@.subrange(0, dot + 1) =~= to_base_text(batter, dd, k, place, fielder));
            assert(r.text@.subrange(dot + 1, n as int) =~= crate::reader::runs_text(rs, advs));
        }
    }
    let (sp, distance, p) = distance_at(r, dot)?;
    proof {
        reveal_strlit(" ");
        reveal_strlit(" on a ");
        reveal_strlit(".");
        assert forall|batter: Seq<char>, dd: Distance, k: FairBallType, place: Place, fielder: Seq<char>|
            to_base_readable(batter, dd, fielder) && dot + 1 <= r.size()
            && r.text@.subrange(0, dot + 1) == #[trigger] to_base_text(batter, dd, k, place, fielder)
            implies r.text@.subrange(p as int, dot as int) == kind_to_fielder_text(k, place, fielder)
            && r.text@.subrange(0, sp as int) == batter by {
            let pt = r.text@.subrange(0, dot + 1);
            let head = batter + " "@ + dd.spec_name() + " on a "@;
            assert(pt =~= head + kind_to_fielder_text(k, place, fielder) + "."@);
            assert(p == head.len());
            assert(r.text@.subrange(p as int, dot as int) =~= pt.subrange(p as int, dot as int));
            assert(pt.subrange(p as int, dot as int) =~= kind_to_fielder_text(k, place, fielder));
            assert(r.text@.subrange(0, sp as int) =~= pt.subrange(0, sp as int));
            assert(pt.subrange(0, sp as int) =~= batter);
        }
    }
    let (fair_ball_type, fielder) = kind_to_fielder(r, p, dot)?;
    let (scores, advances, _) = r.scores_and_advances(after, n);
    let batter = r.slice(0, sp);
    let m = ParsedEventMessage::BatterToBase { batter, distance, fair_ball_type, fielder, scores, advances, ejection: None };
    proof {
        assert forall|name: Seq<char>, dd: Distance, k: FairBallType, place: Place, f: Seq<char>|
            ctx.wf() && to_base_readable(name, dd, f) && dot + 1 == r.size() && after == r.size()
            && r.text@ == #[trigger] to_base_text(name, dd, k, place, f)
            implies ctx.writes(m, r.text@) by {
            assert(scores_text(scores@) == Seq::<char>::empty());
            assert(advances_text(advances@) == Seq::<char>::empty());
            assert(m.spec_batter_to_base_text(ctx.spec_unparsing(), ctx.event_index) =~= r.text@);
        }
        assert forall|name: Seq<char>, dd: Distance, k: FairBallType, place: Place, f: Seq<char>, rs: Seq<Seq<char>>, advs: Seq<(Seq<char>, crate::enums::Base)>|
            ctx.wf() && to_base_readable(name, dd, f) && readable_runs(rs, advs)
            && dot + 1 == to_base_text(name, dd, k, place, f).len() && after == dot + 1
            && r.text@ == #[trigger] to_base_runs_text(name, dd, k, place, f, rs, advs)
            implies ctx.writes(m, r.text@) && same_runs(scores@, advances@, rs, advs) by {
            let t = crate::reader::runs_text(rs, advs);
            assert(r.text@.subrange(after as int, n as int) == t);
            crate::reader::lemma_scores_text(scores@, rs);
            crate::reader::lemma_advances_text(advances@, advs);
            assert(m.spec_batter_to_base_text(ctx.spec_unparsing(), ctx.event_index) =~= r.text@);
        }
    }
    ctx.accept(m, r.text)
}

/// "{batter} grounds out to {fielder}." or "{batter} grounds out, {fielders}."
#[verifier::spinoff_prover]
fn grounded_out<'a>(r: &Reader<'a>, ctx: &ParsingContext, dot: usize, after: usize) -> (res: Option<ParsedEventMessage<&'a str>>)
    requires
        r.wf(),
        dot <= after <= r.size(),
    ensures
        ctx.read_as(res, r.text@, EventType::Field),
        forall|batter: Seq<char>, place: Place, fielder: Seq<char>|
            ctx.wf() && stops_after(batter, " grounds out"@) && dot + 1 == r.size() && after == r.size()
            && r.text@ == #[trigger] ground_out_text(batter, place, fielder)
            ==> (res matches Some(ParsedEventMessage::GroundedOut { batter: b, fielders, scores, advances, amazing, ejection })
                && b@ == batter && fielders@.len() == 1 && fielders@[0].place == place && fielders@[0].name@ == fielder
                && scores@.len() == 0 && advances@.len() == 0 && !amazing && ejection is None),
        forall|batter: Seq<char>, place: Place, fielder: Seq<char>, rs: Seq<Seq<char>>, advs: Seq<(Seq<char>, crate::enums::Base)>|
            ctx.wf() && stops_after(batter, " grounds out"@) && readable_runs(rs, advs)
            && dot + 1 == ground_out_text(batter, place, fielder).len() && after == dot + 1
            && r.text@ == #[trigger] ground_out_runs_text(batter, place, fielder, rs, advs)
            ==> (res matches Some(ParsedEventMessage::GroundedOut { batter: b, fielders, scores, advances, amazing, ejection })
                && b@ == batter && fielders@.len() == 1 && fielders@[0].place == place && fielders@[0].name@ == fielder
                && same_runs(scores@, advances@, rs, advs) && !amazing && ejection is None),
        crate::text::lacks(r.text@, " grounds out"@) ==> res is None,
{
    let n = r.len();
    proof {
        reveal_strlit(" grounds out");
        reveal_strlit(" grounds out to ");
        reveal_strlit(" to ");
        reveal_strlit(" ");
        reveal_strlit(".");
        assert forall|batter: Seq<char>, place: Place, fielder: Seq<char>|
            stops_after(batter, " grounds out"@) && dot + 1 == r.size()
            && r.text@ == #[trigger] ground_out_text(batter, place, fielder)
            implies occurs_at(r.chars@, batter.len() as int, " grounds out"@)
            && (forall|j: int| 0 <= j < batter.len() ==> !#[trigger] occurs_at(r.chars@, j, " grounds out"@))
            && batter.len() + 12 <= dot
            && r.text@.subrange(0, batter.len() as int) == batter
            && r.text@.subrange(batter.len() + 12int, dot as int) == " to "@ + (place.spec_name() + " "@ + fielder) by {
            let c = r.chars@;
            assert(c.subrange(0, batter.len() + 12int) =~= batter + " grounds out"@);
            crate::text::lemma_stops_after(c, 0, batter, " grounds out"@);
            assert(r.text@.subrange(0, batter.len() as int) =~= batter);
            assert(r.text@.subrange(batter.len() + 12int, dot as int) =~= " to "@ + (place.spec_name() + " "@ + fielder));
        }
    }
    proof {
        reveal_strlit(" grounds out");
        reveal_strlit(" grounds out to ");
        reveal_strlit(" to ");
        reveal_strlit(" ");
        reveal_strlit(".");
        assert forall|batter: Seq<char>, place: Place, fielder: Seq<char>, rs: Seq<Seq<char>>, advs: Seq<(Seq<char>, crate::enums::Base)>| stops_after(batter, " grounds out"@) && readable_runs(rs, advs)
            && dot + 1 == ground_out_text(batter, place, fielder).len() && after == dot + 1
            && r.text@ == #[trigger] ground_out_runs_text(batter, place, fielder, rs, advs)
            implies occurs_at(r.chars@, batter.len() as int, " grounds out"@)
            && (forall|j: int| 0 <= j < batter.len() ==> !#[trigger] occurs_at(r.chars@, j, " grounds out"@))
            && batter.len() + 12 <= dot
            && r.text@.subrange(0, batter.len() as int) == batter
            && r.text@.subrange(batter.len() + 12int, dot as int) == " to "@ + (place.spec_name() + " "@ + fielder)
            && after + crate::reader::runs_text(rs, advs).len() == r.size()
            && r.text@.subrange(after as int, r.size() as int) == crate::reader::runs_text(rs, advs) by {
            let c = r.chars@;
            let g = ground_out_text(batter, place, fielder);
            assert(c =~= g + crate::reader::runs_text(rs, advs));
            assert(c.subrange(0, batter.len() + 12int) =~= batter + " grounds out"@);
            crate::text::lemma_stops_after(c, 0, batter, " grounds out"@);
            assert(r.text@.subrange(0, batter.len() as int) =~= batter);
            assert(r.text@.subrange(batter.len() + 12int, dot as int) =~= " to "@ + (place.spec_name() + " "@ + fielder));
            assert(r.text@.subrange(after as int, r.size() as int) =~= crate::reader::runs_text(rs, advs));
        }
    }
    let (batter, p) = match r.until(0, dot, " grounds out") {
        Some(x) => x,
        None => {
            proof {
                assert forall|name: Seq<char>, place: Place, fielder: Seq<char>|
                    stops_after(name, " grounds out"@) && dot + 1 == r.size()
                    && r.text@ == #[trigger] ground_out_text(name, place, fielder) implies false by {
                    assert(occurs_at(r.chars@, name.len() as int, " grounds out"@));
                }
                assert forall|batter: Seq<char>, place: Place, fielder: Seq<char>, rs: Seq<Seq<char>>, advs: Seq<(Seq<char>, crate::enums::Base)>| stops_after(batter, " grounds out"@) && readable_runs(rs, advs)
            && dot + 1 == ground_out_text(batter, place, fielder).len() && after == dot + 1
            && r.text@ == #[trigger] ground_out_runs_text(batter, place, fielder, rs, advs)
                    implies false by {
                    assert(occurs_at(r.chars@, batter.len() as int, " grounds out"@));
                }
            }
            return None;
        },
    };
    proof {
        assert forall|name: Seq<char>, place: Place, fielder: Seq<char>|
            stops_after(name, " grounds out"@) && dot + 1 == r.size()
            && r.text@ == #[trigger] ground_out_text(name, place, fielder)
            implies p == name.len() + 12 && batter@ == name by {
            let k = name.len() as int;
            assert(occurs_at(r.chars@, k, " grounds out"@));
            if p - 12 < k {
                assert(!occurs_at(r.chars@, p - 12, " grounds out"@));
            }
            if p - 12 > k {
                assert(!occurs_at(r.chars@, k, " grounds out"@));
            }
        }
    }
    proof {
        assert forall|name: Seq<char>, place: Place, fielder: Seq<char>, rs: Seq<Seq<char>>, advs: Seq<(Seq<char>, crate::enums::Base)>|
            stops_after(name, " grounds out"@) && readable_runs(rs, advs)
            && dot + 1 == ground_out_text(name, place, fielder).len() && after == dot + 1
            && r.text@ == #[trigger] ground_out_runs_text(name, place, fielder, rs, advs)
            implies p == name.len() + 12 && batter@ == name by {
            let k = name.len() as int;
            assert(occurs_at(r.chars@, k, " grounds out"@));
            if p - 12 < k {
                assert(!occurs_at(r.chars@, p - 12, " grounds out"@));
            }
            if p - 12 > k {
                assert(!occurs_at(r.chars@, k, " grounds out"@));
            }
        }
    }
    let fielders = r.fielders(p, dot)?;
    let (scores, advances, e) = r.scores_and_advances(after, n);
    let amazing = amazing_at(r, e, n)?;
    let m = ParsedEventMessage::GroundedOut { batter, fielders, scores, advances, amazing, ejection: None };
    proof {
        assert forall|name: Seq<char>, place: Place, fielder: Seq<char>|
            ctx.wf() && stops_after(name, " grounds out"@) && dot + 1 == r.size() && after == r.size()
            && r.text@ == #[trigger] ground_out_text(name, place, fielder)
            implies ctx.writes(m, r.text@) by {
            assert(scores_text(scores@) == Seq::<char>::empty());
            assert(advances_text(advances@) == Seq::<char>::empty());
            assert(m.spec_grounded_out_text(ctx.spec_unparsing(), ctx.event_index) =~= r.text@);
        }
    }
    proof {
        assert forall|name: Seq<char>, place: Place, fielder: Seq<char>, rs: Seq<Seq<char>>, advs: Seq<(Seq<char>, crate::enums::Base)>|
            ctx.wf() && stops_after(name, " grounds out"@) && readable_runs(rs, advs)
            && dot + 1 == ground_out_text(name, place, fielder).len() && after == dot + 1
            && r.text@ == #[trigger] ground_out_runs_text(name, place, fielder, rs, advs)
            implies ctx.writes(m, r.text@) && same_runs(scores@, advances@, rs, advs) && !amazing by {
            crate::reader::lemma_scores_text(scores@, rs);
            crate::reader::lemma_advances_text(advances@, advs);
            assert(m.spec_grounded_out_text(ctx.spec_unparsing(), ctx.event_index) =~= r.text@);
        }
    }
    ctx.accept(m, r.text)
}

/// The message of `batter` grounding out to `fielder` at `place`, with no runner moving.
pub open spec fn ground_out_text(batter: Seq<char>, place: Place, fielder: Seq<char>) -> Seq<char> {
    batter + " grounds out to "@ + place.spec_name() + " "@ + fielder + "."@
}

/// Whether the names in a batter grounding out can be told from the words
/// around them: neither holds a full stop, the batter's does not start with
/// `<`, " grounds out" occurs after the batter only where the name ends, and
/// the message has no " on a ".
pub open spec fn ground_out_readable(batter: Seq<char>, place: Place, fielder: Seq<char>) -> bool {
    &&& batter.len() > 0 && batter[0] != '<'
    &&& crate::text::no_period(batter)
    &&& crate::text::no_period(fielder)
    &&& stops_after(batter, " grounds out"@)
    &&& crate::text::lacks(ground_out_text(batter, place, fielder), " on a "@)
}

/// A batter grounding out to one fielder, then runners scoring and advancing.
pub open spec fn ground_out_runs_text(batter: Seq<char>, place: Place, fielder: Seq<char>,
    rs: Seq<Seq<char>>, advs: Seq<(Seq<char>, crate::enums::Base)>) -> Seq<char> {
    ground_out_text(batter, place, fielder) + crate::reader::runs_text(rs, advs)
}

/// Whether the names in a batter grounding out with runners moving can be told
/// from the words around them, and the message has no " on a ".
pub open spec fn ground_out_runs_readable(batter: Seq<char>, place: Place, fielder: Seq<char>,
    rs: Seq<Seq<char>>, advs: Seq<(Seq<char>, crate::enums::Base)>) -> bool {
    &&& ground_out_readable(batter, place, fielder)
    &&& readable_runs(rs, advs)
    &&& crate::text::lacks(ground_out_runs_text(batter, place, fielder, rs, advs), " on a "@)
}

/// The message of a batter grounding out holds its only full stop at its end.
proof fn lemma_ground_out_period(batter: Seq<char>, place: Place, fielder: Seq<char>)
    requires
        ground_out_readable(batter, place, fielder),
    ensures
        ({
            let t = ground_out_text(batter, place, fielder);
            &&& crate::text::no_period(t.subrange(0, t.len() - 1))
            &&& t[t.len() - 1] == '.'
        }),
{
    reveal_strlit(" grounds out to ");
    reveal_strlit(" ");
    reveal_strlit(".");
    let t = ground_out_text(batter, place, fielder);
    place.lemma_name_is_word();
    crate::text::lemma_no_period_add(batter, " grounds out to "@);
    crate::text::lemma_no_period_add(batter + " grounds out to "@, place.spec_name());
    crate::text::lemma_no_period_add(batter + " grounds out to "@ + place.spec_name(), " "@);
    crate::text::lemma_no_period_add(batter + " grounds out to "@ + place.spec_name() + " "@, fielder);
    assert(t.subrange(0, t.len() - 1) =~= batter + " grounds out to "@ + place.spec_name() + " "@ + fielder);
}

/// "{batter} {verb} out to {fielder}.", perhaps on a sacrifice fly.
#[verifier::spinoff_prover]
#[verifier::rlimit(40)]
fn caught_out<'a>(r: &Reader<'a>, ctx: &ParsingContext, dot: usize, after: usize) -> (res: Option<ParsedEventMessage<&'a str>>)
    requires
        r.wf(),
        dot <= after <= r.size(),
    ensures
        ctx.read_as(res, r.text@, EventType::Field),
        forall|batter: Seq<char>, kind: FairBallType, place: Place, fielder: Seq<char>|
            ctx.wf() && kind != FairBallType::GroundBall && stops_after(batter + " "@ + kind.spec_verb_name(), " out "@)
            && dot + 1 == r.size() && after == r.size()
            && r.text@ == #[trigger] caught_out_text(batter, kind, place, fielder)
            ==> (res matches Some(ParsedEventMessage::CaughtOut { batter: b, fair_ball_type, caught_by, scores, advances, sacrifice, perfect, ejection })
                && b@ == batter && fair_ball_type == kind && caught_by.place == place && caught_by.name@ == fielder
                && scores@.len() == 0 && advances@.len() == 0 && !sacrifice && !perfect && ejection is None),
        forall|batter: Seq<char>, kind: FairBallType, place: Place, fielder: Seq<char>, rs: Seq<Seq<char>>, advs: Seq<(Seq<char>, crate::enums::Base)>|
            ctx.wf() && kind != FairBallType::GroundBall && stops_after(batter + " "@ + kind.spec_verb_name(), " out "@) && readable_runs(rs, advs)
            && dot + 1 == caught_out_text(batter, kind, place, fielder).len() && after == dot + 1
            && r.text@ == #[trigger] caught_out_runs_text(batter, kind, place, fielder, rs, advs)
            ==> (res matches Some(ParsedEventMessage::CaughtOut { batter: b, fair_ball_type, caught_by, scores, advances, sacrifice, perfect, ejection })
                && b@ == batter && fair_ball_type == kind && caught_by.place == place && caught_by.name@ == fielder
                && same_runs(scores@, advances@, rs, advs) && !sacrifice && !perfect && ejection is None),
{
    let n = r.len();
    proof {
        reveal_strlit(" ");
        reveal_strlit(" out ");
        reveal_strlit(" out to ");
        reveal_strlit("to ");
        reveal_strlit(".");
        assert forall|batter: Seq<char>, kind: FairBallType, place: Place, fielder: Seq<char>|
            stops_after(batter + " "@ + kind.spec_verb_name(), " out "@) && dot + 1 == r.size()
            && r.text@ == #[trigger] caught_out_text(batter, kind, place, fielder)
            implies ({
                let w = batter + " "@ + kind.spec_verb_name();
                &&& occurs_at(r.chars@, w.len() as int, " out "@)
                &&& (forall|j: int| 0 <= j < w.len() ==> !#[trigger] occurs_at(r.chars@, j, " out "@))
                &&& w.len() + 5int + 3 <= dot
                &&& r.text@.subrange(0, w.len() as int) == w
                &&& r.chars@[w.len() + 5int] == 't'
                &&& r.chars@.subrange(w.len() + 5int, w.len() + 8int) == "to "@
                &&& r.text@.subrange(w.len() + 8int, dot as int) == place.spec_name() + " "@ + fielder
            }) by {
            let w = batter + " "@ + kind.spec_verb_name();
            let c = r.chars@;
            assert(c.subrange(0, w.len() + 5int) =~= w + " out "@);
            crate::text::lemma_stops_after(c, 0, w, " out "@);
            assert(r.text@.subrange(0, w.len() as int) =~= w);
            assert(c.subrange(w.len() + 5int, w.len() + 8int) =~= "to "@);
            assert(r.text@.subrange(w.len() + 8int, dot as int) =~= place.spec_name() + " "@ + fielder);
        }
    }
    proof {
        reveal_strlit(" ");
        reveal_strlit(" out ");
        reveal_strlit(" out to ");
        reveal_strlit("to ");
        reveal_strlit(".");
        assert forall|batter: Seq<char>, kind: FairBallType, place: Place, fielder: Seq<char>, rs: Seq<Seq<char>>, advs: Seq<(Seq<char>, crate::enums::Base)>| stops_after(batter + " "@ + kind.spec_verb_name(), " out "@) && readable_runs(rs, advs)
            && dot + 1 == caught_out_text(batter, kind, place, fielder).len() && after == dot + 1
            && r.text@ == #[trigger] caught_out_runs_text(batter, kind, place, fielder, rs, advs)
            implies ({
                let w = batter + " "@ + kind.spec_verb_name();
                &&& occurs_at(r.chars@, w.len() as int, " out "@)
                &&& (forall|j: int| 0 <= j < w.len() ==> !#[trigger] occurs_at(r.chars@, j, " out "@))
                &&& w.len() + 5int + 3 <= dot
                &&& r.text@.subrange(0, w.len() as int) == w
                &&& r.chars@[w.len() + 5int] == 't'
                &&& r.chars@.subrange(w.len() + 5int, w.len() + 8int) == "to "@
                &&& r.text@.subrange(w.len() + 8int, dot as int) == place.spec_name() + " "@ + fielder
                &&& after + crate::reader::runs_text(rs, advs).len() == r.size()
                &&& r.text@.subrange(after as int, r.size() as int) == crate::reader::runs_text(rs, advs)
            }) by {
            let w = batter + " "@ + kind.spec_verb_name();
            let c = r.chars@;
            assert(c =~= caught_out_text(batter, kind, place, fielder) + crate::reader::runs_text(rs, advs));
            assert(c.subrange(0, w.len() + 5int) =~= w + " out "@);
            crate::text::lemma_stops_after(c, 0, w, " out "@);
            assert(r.text@.subrange(0, w.len() as int) =~= w);
            assert(c.subrange(w.len() + 5int, w.len() + 8int) =~= "to "@);
            assert(r.text@.subrange(w.len() + 8int, dot as int) =~= place.spec_name() + " "@ + fielder);
            assert(r.text@.subrange(after as int, r.size() as int) =~= crate::reader::runs_text(rs, advs));
        }
    }
    let q = match r.find(0, dot, " out ") {
        Some(q) => q,
        None => {
            proof {
                assert forall|batter: Seq<char>, kind: FairBallType, place: Place, fielder: Seq<char>|
                    stops_after(batter + " "@ + kind.spec_verb_name(), " out "@) && dot + 1 == r.size()
                    && r.text@ == #[trigger] caught_out_text(batter, kind, place, fielder) implies false by {
                    assert(occurs_at(r.chars@, (batter + " "@ + kind.spec_verb_name()).len() as int, " out "@));
                }
                assert forall|batter: Seq<char>, kind: FairBallType, place: Place, fielder: Seq<char>, rs: Seq<Seq<char>>, advs: Seq<(Seq<char>, crate::enums::Base)>| stops_after(batter + " "@ + kind.spec_verb_name(), " out "@) && readable_runs(rs, advs)
            && dot + 1 == caught_out_text(batter, kind, place, fielder).len() && after == dot + 1
            && r.text@ == #[trigger] caught_out_runs_text(batter, kind, place, fielder, rs, advs) implies false by {
                    assert(occurs_at(r.chars@, (batter + " "@ + kind.spec_verb_name()).len() as int, " out "@));
                }
            }
            return None;
        },
    };
    proof {
        assert forall|batter: Seq<char>, kind: FairBallType, place: Place, fielder: Seq<char>|
            stops_after(batter + " "@ + kind.spec_verb_name(), " out "@) && dot + 1 == r.size()
            && r.text@ == #[trigger] caught_out_text(batter, kind, place, fielder)
            implies q == (batter + " "@ + kind.spec_verb_name()).len() by {
            let k = (batter + " "@ + kind.spec_verb_name()).len() as int;
            assert(occurs_at(r.chars@, k, " out "@));
            if q < k {
                assert(!occurs_at(r.chars@, q as int, " out "@));
            }
            if q > k {
                assert(!occurs_at(r.chars@, k, " out "@));
            }
        }
    }
    proof {
        assert forall|batter: Seq<char>, kind: FairBallType, place: Place, fielder: Seq<char>, rs: Seq<Seq<char>>, advs: Seq<(Seq<char>, crate::enums::Base)>| stops_after(batter + " "@ + kind.spec_verb_name(), " out "@) && readable_runs(rs, advs)
            && dot + 1 == caught_out_text(batter, kind, place, fielder).len() && after == dot + 1
            && r.text@ == #[trigger] caught_out_runs_text(batter, kind, place, fielder, rs, advs)
            implies q == (batter + " "@ + kind.spec_verb_name()).len() by {
            let k = (batter + " "@ + kind.spec_verb_name()).len() as int;
            assert(occurs_at(r.chars@, k, " out "@));
            if q < k {
                assert(!occurs_at(r.chars@, q as int, " out "@));
            }
            if q > k {
                assert(!occurs_at(r.chars@, k, " out "@));
            }
        }
    }
    let (batter, fair_ball_type) = batter_and_verb(r, q)?;
    if fair_ball_type == crate::enums::FairBallType::GroundBall {
        return None;
    }
    let p = r.lit(q, dot, " out ")?;
    let (sacrifice, p) = match r.lit(p, dot, "on a sacrifice fly ") {
        Some(p) => (true, p),
        None => (false, p),
    };
    proof {
        assert forall|name: Seq<char>, kind: FairBallType, place: Place, fielder: Seq<char>|
            stops_after(name + " "@ + kind.spec_verb_name(), " out "@) && dot + 1 == r.size()
            && r.text@ == #[trigger] caught_out_text(name, kind, place, fielder)
            implies !sacrifice by {
            reveal_strlit("on a sacrifice fly ");
            let w = name + " "@ + kind.spec_verb_name();
            if sacrifice {
                assert(r.chars@.subrange(w.len() + 5int, w.len() + 5int + 19int)[0] == r.chars@[w.len() + 5int]);
            }
        }
    }
    proof {
        assert forall|name: Seq<char>, kind: FairBallType, place: Place, fielder: Seq<char>, rs: Seq<Seq<char>>, advs: Seq<(Seq<char>, crate::enums::Base)>| stops_after(name + " "@ + kind.spec_verb_name(), " out "@) && readable_runs(rs, advs)
            && dot + 1 == caught_out_text(name, kind, place, fielder).len() && after == dot + 1
            && r.text@ == #[trigger] caught_out_runs_text(name, kind, place, fielder, rs, advs)
            implies !sacrifice by {
            reveal_strlit("on a sacrifice fly ");
            let w = name + " "@ + kind.spec_verb_name();
            if sacrifice {
                assert(r.chars@.subrange(w.len() + 5int, w.len() + 5int + 19int)[0] == r.chars@[w.len() + 5int]);
            }
        }
    }
    let p = r.lit(p, dot, "to ")?;
    let caught_by = r.placed_player(p, dot)?;
    let (scores, advances, e) = r.scores_and_advances(after, n);
    let perfect = amazing_at(r, e, n)?;
    let m = ParsedEventMessage::CaughtOut { batter, fair_ball_type, caught_by, scores, advances, sacrifice, perfect, ejection: None };
    proof {
        assert forall|name: Seq<char>, kind: FairBallType, place: Place, fielder: Seq<char>|
            ctx.wf() && stops_after(name + " "@ + kind.spec_verb_name(), " out "@) && dot + 1 == r.size() && after == r.size()
            && r.text@ == #[trigger] caught_out_text(name, kind, place, fielder)
            implies ctx.writes(m, r.text@) by {
            assert(scores_text(scores@) == Seq::<char>::empty());
            assert(advances_text(advances@) == Seq::<char>::empty());
            assert(m.spec_caught_out_text(ctx.spec_unparsing(), ctx.event_index) =~= r.text@);
        }
    }
    proof {
        assert forall|name: Seq<char>, kind: FairBallType, place: Place, fielder: Seq<char>, rs: Seq<Seq<char>>, advs: Seq<(Seq<char>, crate::enums::Base)>| ctx.wf() && stops_after(name + " "@ + kind.spec_verb_name(), " out "@) && readable_runs(rs, advs)
            && dot + 1 == caught_out_text(name, kind, place, fielder).len() && after == dot + 1
            && r.text@ == #[trigger] caught_out_runs_text(name, kind, place, fielder, rs, advs)
            implies ctx.writes(m, r.text@) && same_runs(scores@, advances@, rs, advs) && !perfect by {
            crate::reader::lemma_scores_text(scores@, rs);
            crate::reader::lemma_advances_text(advances@, advs);
            assert(m.spec_caught_out_text(ctx.spec_unparsing(), ctx.event_index) =~= r.text@);
        }
    }
    ctx.accept(m, r.text)
}

/// The message of `batter` put out on a ball of `kind` caught by `fielder` at
/// `place`, with no runner moving.
pub open spec fn caught_out_text(batter: Seq<char>, kind: FairBallType, place: Place, fielder: Seq<char>) -> Seq<char> {
    batter + " "@ + kind.spec_verb_name() + " out to "@ + place.spec_name() + " "@ + fielder + "."@
}

/// Whether the names in a batter caught out can be told from the words around
/// them: the ball is not a ground ball, neither name holds a full stop, the
/// batter's does not start with `<`, " out " occurs after the batter and the
/// verb only where they end, and the message has no " on a " and no
/// " grounds out".
pub open spec fn caught_out_readable(batter: Seq<char>, kind: FairBallType, place: Place, fielder: Seq<char>) -> bool {
    &&& kind != FairBallType::GroundBall
    &&& batter.len() > 0 && batter[0] != '<'
    &&& crate::text::no_period(batter)
    &&& crate::text::no_period(fielder)
    &&& stops_after(batter + " "@ + kind.spec_verb_name(), " out "@)
    &&& crate::text::lacks(caught_out_text(batter, kind, place, fielder), " on a "@)
    &&& crate::text::lacks(caught_out_text(batter, kind, place, fielder), " grounds out"@)
}

/// A batter caught out, then runners scoring and advancing.
pub open spec fn caught_out_runs_text(batter: Seq<char>, kind: FairBallType, place: Place, fielder: Seq<char>,
    rs: Seq<Seq<char>>, advs: Seq<(Seq<char>, crate::enums::Base)>) -> Seq<char> {
    caught_out_text(batter, kind, place, fielder) + crate::reader::runs_text(rs, advs)
}

/// Whether the names in a batter caught out with runners moving can be told
/// from the words around them, and the message has no " on a " and no
/// " grounds out".
pub open spec fn caught_out_runs_readable(batter: Seq<char>, kind: FairBallType, place: Place, fielder: Seq<char>,
    rs: Seq<Seq<char>>, advs: Seq<(Seq<char>, crate::enums::Base)>) -> bool {
    &&& caught_out_readable(batter, kind, place, fielder)
    &&& readable_runs(rs, advs)
    &&& crate::text::lacks(caught_out_runs_text(batter, kind, place, fielder, rs, advs), " on a "@)
    &&& crate::text::lacks(caught_out_runs_text(batter, kind, place, fielder, rs, advs), " grounds out"@)
}

/// The message of a batter caught out holds its only full stop at its end.
proof fn lemma_caught_out_period(batter: Seq<char>, kind: FairBallType, place: Place, fielder: Seq<char>)
    requires
        caught_out_readable(batter, kind, place, fielder),
    ensures
        ({
            let t = caught_out_text(batter, kind, place, fielder);
            &&& crate::text::no_period(t.subrange(0, t.len() - 1))
            &&& t[t.len() - 1] == '.'
        }),
{
    reveal_strlit(" out to ");
    reveal_strlit(" ");
    reveal_strlit(".");
    let t = caught_out_text(batter, kind, place, fielder);
    place.lemma_name_is_word();
    kind.lemma_verb_names();
    let v = kind.spec_verb_name();
    crate::text::lemma_no_period_add(batter, " "@);
    crate::text::lemma_no_period_add(batter + " "@, v);
    crate::text::lemma_no_period_add(batter + " "@ + v, " out to "@);
    crate::text::lemma_no_period_add(batter + " "@ + v + " out to "@, place.spec_name());
    crate::text::lemma_no_period_add(batter + " "@ + v + " out to "@ + place.spec_name(), " "@);
    crate::text::lemma_no_period_add(batter + " "@ + v + " out to "@ + place.spec_name() + " "@, fielder);
    assert(t.subrange(0, t.len() - 1) =~= batter + " "@ + v + " out to "@ + place.spec_name() + " "@ + fielder);
}

/// "{batter} {verb} into a force out, {fielders}. {runner} out at {base}." or the
/// same into a double play.
#[verifier::spinoff_prover]
#[verifier::rlimit(80)]
fn force_or_double_play<'a>(r: &Reader<'a>, ctx: &ParsingContext, dot: usize, after: usize) -> (res: Option<ParsedEventMessage<&'a str>>)
    requires
        r.wf(),
        dot <= after <= r.size(),
    ensures
        ctx.read_as(res, r.text@, EventType::Field),
        forall|double: bool, batter: Seq<char>, kind: FairBallType, place: Place, fielder: Seq<char>, runner: Seq<char>,
            base: crate::enums::BaseNameVariant|
            ctx.wf() && stops_after(batter + " "@ + kind.spec_verb_name(), play_words(double)) && stops_after(runner, " out at "@)
            && (double ==> crate::text::lacks(r.text@.subrange(0, dot as int), " into a force out"@))
            && dot == (batter + " "@ + kind.spec_verb_name() + play_words(double) + crate::reader::unassisted_text(place, fielder)).len()
            && after == dot + 1
            && r.text@ == #[trigger] play_text(double, batter, kind, place, fielder, runner, base)
            ==> (if double {
                res matches Some(ParsedEventMessage::DoublePlayCaught { batter: b, fair_ball_type, fielders, out_two, scores, advances, ejection })
                    && b@ == batter && fair_ball_type == kind && fielders@.len() == 1 && fielders@[0].place == place
                    && fielders@[0].name@ == fielder && out_two.runner@ == runner && out_two.base == base
                    && scores@.len() == 0 && advances@.len() == 0 && ejection is None
            } else {
                res matches Some(ParsedEventMessage::ForceOut { batter: b, fielders, fair_ball_type, out, scores, advances, ejection })
                    && b@ == batter && fair_ball_type == kind && fielders@.len() == 1 && fielders@[0].place == place
                    && fielders@[0].name@ == fielder && out.runner@ == runner && out.base == base
                    && scores@.len() == 0 && advances@.len() == 0 && ejection is None
            }),
{
    let n = r.len();
    proof {
        reveal_strlit(".");
        reveal_strlit(" ");
        assert forall|double: bool, batter: Seq<char>, kind: FairBallType, place: Place, fielder: Seq<char>, runner: Seq<char>,
            base: crate::enums::BaseNameVariant|
            stops_after(batter + " "@ + kind.spec_verb_name(), play_words(double))
            && (double ==> crate::text::lacks(r.text@.subrange(0, dot as int), " into a force out"@))
            && dot == (batter + " "@ + kind.spec_verb_name() + play_words(double) + crate::reader::unassisted_text(place, fielder)).len()
            && after == dot + 1
            && r.text@ == #[trigger] play_text(double, batter, kind, place, fielder, runner, base)
            implies ({
                let w = batter + " "@ + kind.spec_verb_name();
                let p1 = w.len() + play_words(double).len() as int;
                &&& occurs_at(r.chars@, w.len() as int, play_words(double))
                &&& (forall|k: int| 0 <= k < w.len() ==> !#[trigger] occurs_at(r.chars@, k, play_words(double)))
                &&& (double ==> forall|k: int| 0 <= k && k + 17 <= dot ==> !#[trigger] occurs_at(r.chars@, k, " into a force out"@))
                &&& r.text@.subrange(0, w.len() as int) == w
                &&& r.chars@.subrange(w.len() as int, p1) == play_words(double)
                &&& r.text@.subrange(p1, dot as int) == crate::reader::unassisted_text(place, fielder)
                &&& r.text@.subrange(after as int, n as int) == " "@ + crate::reader::runner_out_text(runner, base)
                &&& n == after + 1 + crate::reader::runner_out_text(runner, base).len()
            }) by {
            reveal_strlit(" into a force out");
            reveal_strlit(" into a double play");
            let w = batter + " "@ + kind.spec_verb_name();
            let pw = play_words(double);
            let p1 = w.len() + pw.len() as int;
            assert(r.chars@.subrange(0, p1) =~= w + pw);
            crate::text::lemma_stops_after(r.chars@, 0, w, pw);
            assert(r.text@.subrange(0, w.len() as int) =~= w);
            assert(r.chars@.subrange(w.len() as int, p1) =~= pw);
            assert(r.text@.subrange(p1, dot as int) =~= crate::reader::unassisted_text(place, fielder));
            assert(r.text@.subrange(after as int, n as int) =~= " "@ + crate::reader::runner_out_text(runner, base));
            if double {
                assert forall|k: int| 0 <= k && k + 17 <= dot implies !#[trigger] occurs_at(r.chars@, k, " into a force out"@) by {
                    let t = r.text@.subrange(0, dot as int);
                    if occurs_at(r.chars@, k, " into a force out"@) {
                        assert(t.subrange(k, k + 17) =~= r.chars@.subrange(k, k + 17));
                        assert(occurs_at(t, k, " into a force out"@));
                    }
                }
            }
        }
    }
    let (q, double_play) = match r.find(0, dot, " into a force out") {
        Some(q) => (q, false),
        None => match r.find(0, dot, " into a double play") {
            Some(q) => (q, true),
            None => {
                proof {
                    assert forall|double: bool, bt: Seq<char>, kd: FairBallType, pl: Place, fd: Seq<char>, rn: Seq<char>,
                        bs: crate::enums::BaseNameVariant| stops_after(bt + " "@ + kd.spec_verb_name(), play_words(double))
            && (double ==> crate::text::lacks(r.text@.subrange(0, dot as int), " into a force out"@))
            && dot == (bt + " "@ + kd.spec_verb_name() + play_words(double) + crate::reader::unassisted_text(pl, fd)).len()
            && after == dot + 1
            && r.text@ == #[trigger] play_text(double, bt, kd, pl, fd, rn, bs)
                        implies false by {
                        reveal_strlit(" into a force out");
                        reveal_strlit(" into a double play");
                        let w = bt + " "@ + kd.spec_verb_name();
                        assert(occurs_at(r.chars@, w.len() as int, play_words(double)));
                    }
                }
                return None;
            },
        },
    };
    proof {
        assert forall|double: bool, bt: Seq<char>, kd: FairBallType, pl: Place, fd: Seq<char>, rn: Seq<char>,
            bs: crate::enums::BaseNameVariant| stops_after(bt + " "@ + kd.spec_verb_name(), play_words(double))
            && (double ==> crate::text::lacks(r.text@.subrange(0, dot as int), " into a force out"@))
            && dot == (bt + " "@ + kd.spec_verb_name() + play_words(double) + crate::reader::unassisted_text(pl, fd)).len()
            && after == dot + 1
            && r.text@ == #[trigger] play_text(double, bt, kd, pl, fd, rn, bs)
            implies q == (bt + " "@ + kd.spec_verb_name()).len() && double_play == double by {
            reveal_strlit(" into a force out");
            reveal_strlit(" into a double play");
            let w = bt + " "@ + kd.spec_verb_name();
            let k = w.len() as int;
            assert(occurs_at(r.chars@, k, play_words(double)));
            if !double_play && double {
                assert(occurs_at(r.chars@, q as int, " into a force out"@));
            }
            if double_play && !double {
                assert(occurs_at(r.chars@, k, " into a force out"@));
            }
            if q < k {
                assert(!occurs_at(r.chars@, q as int, play_words(double)));
            }
            if q > k {
                assert(!occurs_at(r.chars@, k, play_words(double)));
            }
        }
    }
    let (batter, fair_ball_type) = batter_and_verb(r, q)?;
    let p = if double_play {
        r.lit(q, dot, " into a double play")?
    } else {
        r.lit(q, dot, " into a force out")?
    };
    let fielders = r.fielders_for_play(p, dot)?;
    let (out, e) = out_sentence(r, after, n)?;
    let (scores, advances, _) = r.scores_and_advances(e, n);
    let m = if double_play {
        ParsedEventMessage::DoublePlayCaught { batter, fair_ball_type, fielders, out_two: out, scores, advances, ejection: None }
    } else {
        ParsedEventMessage::ForceOut { batter, fielders, fair_ball_type, out, scores, advances, ejection: None }
    };
    proof {
        assert forall|double: bool, bt: Seq<char>, kd: FairBallType, pl: Place, fd: Seq<char>, rn: Seq<char>,
            bs: crate::enums::BaseNameVariant|
            ctx.wf() && stops_after(bt + " "@ + kd.spec_verb_name(), play_words(double)) && stops_after(rn, " out at "@)
            && (double ==> crate::text::lacks(r.text@.subrange(0, dot as int), " into a force out"@))
            && dot == (bt + " "@ + kd.spec_verb_name() + play_words(double) + crate::reader::unassisted_text(pl, fd)).len()
            && after == dot + 1
            && r.text@ == #[trigger] play_text(double, bt, kd, pl, fd, rn, bs)
            implies double_play == double && ctx.writes(m, r.text@) by {
            reveal_strlit(", ");
            reveal_strlit(" unassisted");
            reveal_strlit(". ");
            reveal_strlit(" into a force out");
            reveal_strlit(" into a double play");
            assert(crate::parsed_event::scores_and_advances_text(scores@, advances@) =~= Seq::<char>::empty());
            assert(crate::parsed_event::fielders_for_play_text(fielders@) =~= crate::reader::unassisted_text(pl, fd));
            if double {
                assert(m.spec_double_play_caught_text(ctx.spec_unparsing(), ctx.event_index) =~= r.text@);
            } else {
                assert(m.spec_force_out_text(ctx.spec_unparsing(), ctx.event_index) =~= r.text@);
            }
        }
    }
    ctx.accept(m, r.text)
}

/// What follows the batter's hit in a force out, or in a double play.
pub open spec fn play_words(double: bool) -> Seq<char> {
    if double { " into a double play"@ } else { " into a force out"@ }
}

/// "{batter} {verb} into a force out, {place} {fielder} unassisted. {runner} out at {base}.", or the
/// same into a double play.
pub open spec fn play_text(double: bool, batter: Seq<char>, kind: FairBallType, place: Place, fielder: Seq<char>,
    runner: Seq<char>, base: crate::enums::BaseNameVariant) -> Seq<char> {
    batter + " "@ + kind.spec_verb_name() + play_words(double) + crate::reader::unassisted_text(place, fielder) + "."@ + " "@
        + crate::reader::runner_out_text(runner, base)
}

/// "{batter} reaches on a fielder's choice out, {fielders}. {runner} out at {base}."
#[verifier::spinoff_prover]
#[verifier::rlimit(40)]
fn fielders_choice_out<'a>(r: &Reader<'a>, ctx: &ParsingContext, dot: usize, after: usize) -> (res: Option<ParsedEventMessage<&'a str>>)
    requires
        r.wf(),
        dot <= after <= r.size(),
    ensures
        ctx.read_as(res, r.text@, EventType::Field),
        forall|batter: Seq<char>, place: Place, fielder: Seq<char>, runner: Seq<char>, base: crate::enums::BaseNameVariant|
            ctx.wf() && stops_after(batter, " reaches on a fielder's choice out"@) && stops_after(runner, " out at "@)
            && dot == (batter + " reaches on a fielder's choice out"@ + crate::reader::unassisted_text(place, fielder)).len()
            && after == dot + 1
            && r.text@ == #[trigger] choice_out_text(batter, place, fielder, runner, base)
            ==> (res matches Some(ParsedEventMessage::ReachOnFieldersChoice { batter: b, fielders, result, scores, advances, ejection })
                && b@ == batter && fielders@.len() == 1 && fielders@[0].place == place && fielders@[0].name@ == fielder
                && (result matches crate::parsed_event::FieldingAttempt::Out { out } && out.runner@ == runner && out.base == base)
                && scores@.len() == 0 && advances@.len() == 0 && ejection is None),
{
    let n = r.len();
    let ghost sep = " reaches on a fielder's choice out"@;
    proof {
        reveal_strlit(".");
        reveal_strlit(" ");
        assert forall|batter: Seq<char>, place: Place, fielder: Seq<char>, runner: Seq<char>, base: crate::enums::BaseNameVariant|
            dot == (batter + sep + crate::reader::unassisted_text(place, fielder)).len() && after == dot + 1
            && r.text@ == #[trigger] choice_out_text(batter, place, fielder, runner, base)
            implies ({
                let p1 = batter.len() + sep.len() as int;
                &&& r.text@.subrange(0, p1) == batter + sep
                &&& r.text@.subrange(p1, dot as int) == crate::reader::unassisted_text(place, fielder)
                &&& r.text@.subrange(after as int, n as int) == " "@ + crate::reader::runner_out_text(runner, base)
                &&& n == after + 1 + crate::reader::runner_out_text(runner, base).len()
            }) by {
            let p1 = batter.len() + sep.len() as int;
            assert(r.text@.subrange(0, p1) =~= batter + sep);
            assert(r.text@.subrange(p1, dot as int) =~= crate::reader::unassisted_text(place, fielder));
            assert(r.text@.subrange(after as int, n as int) =~= " "@ + crate::reader::runner_out_text(runner, base));
        }
    }
    let (batter, p) = r.until(0, dot, " reaches on a fielder's choice out")?;
    let fielders = r.fielders_for_play(p, dot)?;
    let (out, e) = out_sentence(r, after, n)?;
    let (scores, advances, _) = r.scores_and_advances(e, n);
    let m = ParsedEventMessage::ReachOnFieldersChoice {
        batter,
        fielders,
        result: crate::parsed_event::FieldingAttempt::Out { out },
        scores,
        advances,
        ejection: None,
    };
    proof {
        assert forall|bt: Seq<char>, pl: Place, fd: Seq<char>, rn: Seq<char>, bs: crate::enums::BaseNameVariant|
            ctx.wf() && stops_after(bt, sep) && stops_after(rn, " out at "@)
            && dot == (bt + sep + crate::reader::unassisted_text(pl, fd)).len() && after == dot + 1
            && r.text@ == #[trigger] choice_out_text(bt, pl, fd, rn, bs)
            implies ctx.writes(m, r.text@) by {
            reveal_strlit(", ");
            reveal_strlit(" unassisted");
            reveal_strlit(". ");
            assert(crate::parsed_event::scores_and_advances_text(scores@, advances@) =~= Seq::<char>::empty());
            assert(crate::parsed_event::fielders_for_play_text(fielders@) =~= crate::reader::unassisted_text(pl, fd));
            assert(m.spec_reach_on_fielders_choice_text(ctx.spec_unparsing(), ctx.event_index) =~= r.text@);
        }
    }
    ctx.accept(m, r.text)
}

/// "{batter} reaches on a fielder's choice out, {place} {fielder} unassisted. {runner} out at {base}."
pub open spec fn choice_out_text(batter: Seq<char>, place: Place, fielder: Seq<char>, runner: Seq<char>,
    base: crate::enums::BaseNameVariant) -> Seq<char> {
    batter + " reaches on a fielder's choice out"@ + crate::reader::unassisted_text(place, fielder) + "."@ + " "@
        + crate::reader::runner_out_text(runner, base)
}

/// "{batter} reaches on a fielder's choice, fielded by {fielder}.", then the
/// runners and "{kind} error by {fielder}."
#[verifier::spinoff_prover]
#[verifier::rlimit(80)]
fn fielders_choice_error<'a>(r: &Reader<'a>, ctx: &ParsingContext, dot: usize, after: usize) -> (res: Option<ParsedEventMessage<&'a str>>)
    requires
        r.wf(),
        dot <= after <= r.size(),
    ensures
        ctx.read_as(res, r.text@, EventType::Field),
        forall|batter: Seq<char>, place: Place, f1: Seq<char>, kind: FieldingErrorType, f2: Seq<char>|
            ctx.wf() && stops_after(batter, " reaches on a fielder's choice, fielded by "@)
            && dot == (batter + " reaches on a fielder's choice, fielded by "@ + place.spec_name() + " "@ + f1).len()
            && after == dot + 1 && crate::text::lacks(r.text@.subrange(after as int, r.size() as int), " to "@)
            && r.text@ == #[trigger] choice_error_text(batter, place, f1, kind, f2)
            ==> (res matches Some(ParsedEventMessage::ReachOnFieldersChoice { batter: b, fielders, result, scores, advances, ejection })
                && b@ == batter && fielders@.len() == 1 && fielders@[0].place == place && fielders@[0].name@ == f1
                && (result matches crate::parsed_event::FieldingAttempt::Error { fielder, error } && fielder@ == f2 && error == kind)
                && scores@.len() == 0 && advances@.len() == 0 && ejection is None),
{
    let n = r.len();
    let ghost sep = " reaches on a fielder's choice, fielded by "@;
    proof {
        reveal_strlit(" ");
        reveal_strlit(".");
        reveal_strlit(" error by ");
        reveal_strlit(" <strong>");
        assert forall|batter: Seq<char>, place: Place, f1: Seq<char>, kind: FieldingErrorType, f2: Seq<char>|
            dot == (batter + sep + place.spec_name() + " "@ + f1).len()
            && after == dot + 1 && crate::text::lacks(r.text@.subrange(after as int, n as int), " to "@)
            && r.text@ == #[trigger] choice_error_text(batter, place, f1, kind, f2)
            implies ({
                let p1 = batter.len() + sep.len() as int;
                let a = after + 1;
                let b = a + kind.spec_name().len() + 10;
                &&& r.text@.subrange(0, p1) == batter + sep
                &&& r.text@.subrange(p1, dot as int) == place.spec_name() + " "@ + f1
                &&& !(after + 9 <= n && r.text@.subrange(after as int, after + 9) == " <strong>"@)
                &&& (forall|k: int| after <= k && k + 4 <= n ==> !#[trigger] occurs_at(r.text@, k, " to "@))
                &&& r.text@.subrange(after as int, a) == " "@
                &&& r.text@.subrange(a, b) == kind.spec_name() + " error by "@
                &&& stops_after(kind.spec_name(), " error by "@)
                &&& FieldingErrorType::spec_parse(kind.spec_name()) == Some(kind)
                &&& b < n && r.text@.subrange(b, n - 1) == f2
            }) by {
            lemma_choice_error_parts(r.text@, dot as int, after as int, batter, place, f1, kind, f2);
        }
    }
    let (batter, p) = r.until(0, dot, " reaches on a fielder's choice, fielded by ")?;
    let fielder = r.placed_player(p, dot)?;
    let (scores, advances, e) = r.scores_and_advances(after, n);
    let a = r.lit(e, n, " ")?;
    let (kind, b) = r.until(a, n, " error by ")?;
    let error = match crate::enums::FieldingErrorType::from_str(kind) {
        Ok(k) => k,
        Err(_) => return None,
    };
    if n == b {
        return None;
    }
    let m = ParsedEventMessage::ReachOnFieldersChoice {
        batter,
        fielders: vec![fielder],
        result: crate::parsed_event::FieldingAttempt::Error { fielder: r.slice(b, n - 1), error },
        scores,
        advances,
        ejection: None,
    };
    proof {
        assert forall|bt: Seq<char>, pl: Place, f1: Seq<char>, kd: FieldingErrorType, f2: Seq<char>|
            ctx.wf() && stops_after(bt, sep)
            && dot == (bt + sep + pl.spec_name() + " "@ + f1).len()
            && after == dot + 1 && crate::text::lacks(r.text@.subrange(after as int, n as int), " to "@)
            && r.text@ == #[trigger] choice_error_text(bt, pl, f1, kd, f2)
            implies ctx.writes(m, r.text@) by {
            assert(crate::parsed_event::scores_and_advances_text(scores@, advances@) =~= Seq::<char>::empty());
            assert(m.spec_reach_on_fielders_choice_text(ctx.spec_unparsing(), ctx.event_index) =~= r.text@);
        }
    }
    ctx.accept(m, r.text)
}

/// Where each part of a fielder's choice with an error begins and ends.
proof fn lemma_choice_error_parts(text: Seq<char>, dot: int, after: int, batter: Seq<char>, place: Place, f1: Seq<char>,
    kind: FieldingErrorType, f2: Seq<char>)
    requires
        text == choice_error_text(batter, place, f1, kind, f2),
        dot == (batter + " reaches on a fielder's choice, fielded by "@ + place.spec_name() + " "@ + f1).len(),
        after == dot + 1,
        crate::text::lacks(text.subrange(after, text.len() as int), " to "@),
    ensures
        ({
            let sep = " reaches on a fielder's choice, fielded by "@;
            let n = text.len();
            let p1 = batter.len() + sep.len() as int;
            let a = after + 1;
            let b = a + kind.spec_name().len() + 10;
            &&& text.subrange(0, p1) == batter + sep
            &&& text.subrange(p1, dot) == place.spec_name() + " "@ + f1
            &&& !(after + 9 <= n && text.subrange(after, after + 9) == " <strong>"@)
            &&& (forall|k: int| after <= k && k + 4 <= n ==> !#[trigger] occurs_at(text, k, " to "@))
            &&& text.subrange(after, a) == " "@
            &&& text.subrange(a, b) == kind.spec_name() + " error by "@
            &&& stops_after(kind.spec_name(), " error by "@)
            &&& FieldingErrorType::spec_parse(kind.spec_name()) == Some(kind)
            &&& b < n && text.subrange(b, n - 1) == f2
        }),
{
    let sep = " reaches on a fielder's choice, fielded by "@;
    let n = text.len();
    reveal_strlit(" ");
    reveal_strlit(".");
    reveal_strlit(" to ");
    reveal_strlit(" error by ");
    reveal_strlit(" <strong>");
    let p1 = batter.len() + sep.len() as int;
    let a = after + 1;
    let b = a + kind.spec_name().len() + 10;
    let t = text;
    assert(text.subrange(0, p1) =~= batter + sep);
    assert(text.subrange(p1, dot) =~= place.spec_name() + " "@ + f1);
    assert(text.subrange(after, a) =~= " "@);
    assert(text.subrange(a, b) =~= kind.spec_name() + " error by "@);
    assert(text.subrange(b, n - 1) =~= f2);
    match kind {
        FieldingErrorType::Throwing => { reveal_strlit("Throwing"); }
        FieldingErrorType::Fielding => { reveal_strlit("Fielding"); }
    }
    assert(t[a] == kind.spec_name()[0]);
    if after + 9 <= n && text.subrange(after, after + 9) == " <strong>"@ {
        assert(text.subrange(after, after + 9)[1] == t[a]);
    }
    assert forall|k: int| after <= k && k + 4 <= n implies !#[trigger] occurs_at(text, k, " to "@) by {
        let u = text.subrange(after, n as int);
        if occurs_at(text, k, " to "@) {
            assert(u.subrange(k - after, k - after + 4) =~= text.subrange(k, k + 4));
            assert(occurs_at(u, k - after, " to "@));
        }
    }
    crate::text::lemma_stops_by_first(kind.spec_name(), " error by "@);
    kind.lemma_parse_name();
}

/// "{batter} reaches on a fielder's choice, fielded by {place} {f1}. {kind} error by {f2}."
pub open spec fn choice_error_text(batter: Seq<char>, place: Place, f1: Seq<char>, kind: FieldingErrorType, f2: Seq<char>)
    -> Seq<char> {
    batter + " reaches on a fielder's choice, fielded by "@ + place.spec_name() + " "@ + f1 + "."@ + " "@ + kind.spec_name()
        + " error by "@ + f2 + "."@
}

/// "{batter} reaches on a {kind} error by {fielder}."
#[verifier::spinoff_prover]
#[verifier::rlimit(40)]
fn reach_on_error<'a>(r: &Reader<'a>, ctx: &ParsingContext, dot: usize, after: usize) -> (res: Option<ParsedEventMessage<&'a str>>)
    requires
        r.wf(),
        dot <= after <= r.size(),
    ensures
        ctx.read_as(res, r.text@, EventType::Field),
        forall|batter: Seq<char>, kind: FieldingErrorType, place: Place, fielder: Seq<char>|
            ctx.wf() && stops_after(batter, " reaches on a "@) && dot + 1 == after && after == r.size()
            && r.text@ == #[trigger] reach_error_text(batter, kind, place, fielder)
            ==> (res matches Some(ParsedEventMessage::ReachOnFieldingError { batter: b, fielder: f, error, scores, advances, ejection })
                && b@ == batter && f.place == place && f.name@ == fielder && error == kind && scores@.len() == 0
                && advances@.len() == 0 && ejection is None),
{
    let n = r.len();
    proof {
        reveal_strlit(" reaches on a ");
        reveal_strlit(" error by ");
        reveal_strlit(" ");
        reveal_strlit(".");
        assert forall|batter: Seq<char>, kind: FieldingErrorType, place: Place, fielder: Seq<char>|
            dot + 1 == after && after == r.size()
            && r.text@ == #[trigger] reach_error_text(batter, kind, place, fielder)
            implies ({
                let p1 = batter.len() + 14int;
                let p2 = p1 + kind.spec_lowercase().len() + 10int;
                &&& p2 <= dot
                &&& r.text@.subrange(0, p1) == batter + " reaches on a "@
                &&& r.text@.subrange(p1, p2) == kind.spec_lowercase() + " error by "@
                &&& stops_after(kind.spec_lowercase(), " error by "@)
                &&& r.text@.subrange(p2, dot as int) == place.spec_name() + " "@ + fielder
            }) by {
            let t = reach_error_text(batter, kind, place, fielder);
            let lc = kind.spec_lowercase();
            let p1 = batter.len() + 14int;
            let p2 = p1 + lc.len() + 10int;
            assert(r.text@.subrange(0, p1) =~= batter + " reaches on a "@);
            assert(r.text@.subrange(p1, p2) =~= lc + " error by "@);
            assert(r.text@.subrange(p2, dot as int) =~= place.spec_name() + " "@ + fielder);
            match kind {
                FieldingErrorType::Throwing => { reveal_strlit("throwing"); }
                FieldingErrorType::Fielding => { reveal_strlit("fielding"); }
            }
            crate::text::lemma_stops_by_first(lc, " error by "@);
        }
    }
    let (batter, p) = r.until(0, dot, " reaches on a ")?;
    let (kind, p) = r.until(p, dot, " error by ")?;
    let error = error_from_lowercase(kind)?;
    let fielder = r.placed_player(p, dot)?;
    let (scores, advances, _) = r.scores_and_advances(after, n);
    let m = ParsedEventMessage::ReachOnFieldingError { batter, fielder, error, scores, advances, ejection: None };
    proof {
        assert forall|bt: Seq<char>, kd: FieldingErrorType, pl: Place, fd: Seq<char>|
            ctx.wf() && stops_after(bt, " reaches on a "@) && dot + 1 == after && after == r.size()
            && r.text@ == #[trigger] reach_error_text(bt, kd, pl, fd)
            implies ctx.writes(m, r.text@) by {
            assert(crate::parsed_event::scores_and_advances_text(scores@, advances@) =~= Seq::<char>::empty());
            assert(m.spec_reach_on_fielding_error_text(ctx.spec_unparsing(), ctx.event_index) =~= r.text@);
        }
    }
    ctx.accept(m, r.text)
}

/// "{batter} reaches on a {kind} error by {place} {fielder}."
pub open spec fn reach_error_text(batter: Seq<char>, kind: FieldingErrorType, place: Place, fielder: Seq<char>) -> Seq<char> {
    batter + " reaches on a "@ + kind.spec_lowercase() + " error by "@ + place.spec_name() + " "@ + fielder + "."@
}

/// Parses the message of `event`, an event of the game of `context`.
pub fn parse_event<'a>(event: &'a Event, context: &ParsingContext) -> (r: ParsedEventMessage<&'a str>)
    requires
        context.can_look_up(event.message@),
    ensures
        match context.spec_override_bug(event.message@) {
            Some(bug) => r == ParsedEventMessage::<&'a str>::KnownBug { bug },
            None => is_parse_of(r, *event, context.spec_unparsing(), context.event_index),
        },
{
    if let Some(bug) = context.override_bug(event.message.as_str()) {
        return ParsedEventMessage::KnownBug { bug };
    }
    let t = match &event.event {
        Ok(t) => *t,
        Err(nr) => {
            let error = GameEventParseError::EventTypeNotRecognized(crate::game::NotRecognized(nr.0.clone()));
            return ParsedEventMessage::ParseError { error, message: event.message.as_str() };
        },
    };
    let r = Reader::new(event.message.as_str());
    let ctx = context;
    proof {
        assert(ctx.space() == old_space_text(ctx.spec_unparsing(), ctx.event_index));
        assert(cheer_emoji(ctx) == cheer_emoji_at(ctx.spec_unparsing(), ctx.event_index));
        assert(cheers_allowed(ctx) == cheers_allowed_at(ctx.spec_unparsing(), ctx.event_index));
    }
    let res = match t {
        EventType::PitchingMatchup => pitching_matchup(&r, ctx),
        EventType::MoundVisit => mound_visit(&r, ctx, event),
        EventType::GameOver => game_over(&r, ctx),
        EventType::Field => field(&r, ctx),
        EventType::HomeLineup => lineup(&r, ctx, HomeAway::Home, t),
        EventType::Recordkeeping => recordkeeping(&r, ctx),
        EventType::LiveNow => live_now(&r, ctx),
        EventType::InningStart => inning_start(&r, ctx, event),
        EventType::Pitch => pitch(&r, ctx),
        EventType::AwayLineup => lineup(&r, ctx, HomeAway::Away, t),
        EventType::InningEnd => inning_end(&r, ctx),
        EventType::PlayBall => play_ball(&r, ctx),
        EventType::NowBatting => now_batting(&r, ctx),
        EventType::FallingStar => falling_star(&r, ctx),
        EventType::Weather => weather_reflection(&r, ctx),
        EventType::Balk => balk(&r, ctx),
        EventType::Party => party(&r, ctx),
        _ => None,
    };
    match res {
        Some(m) => m,
        None => {
            let error = GameEventParseError::FailedParsingMessage { event_type: t, message: event.message.clone() };
            ParsedEventMessage::ParseError { error, message: event.message.as_str() }
        },
    }
}

/// Whether `r` is what processing `event` of `game`, whose id is `game_id`, gives:
/// the known bug that the event is, or what parsing its message gives.
pub open spec fn processes(game: Game, game_id: Seq<char>, event: Event, r: ParsedEventMessage<&str>) -> bool {
    match override_bug(game_id, game.event_log@, event.index, event.message@) {
        Some(bug) => r == ParsedEventMessage::<&str>::KnownBug { bug },
        None => is_parse_of(r, event, game.spec_context(), event.index),
    }
}

/// Processes `event`, an event of `game`, whose id is `game_id`, into a
/// `ParsedEventMessage` that borrows its text from the event's message.
pub fn process_event<'a>(event: &'a Event, game: &Game, game_id: &str) -> (r: ParsedEventMessage<&'a str>)
    requires
        spec_override_game(game_id@) && event.index is None
            ==> exists|i: int| 0 <= i < game.event_log@.len() && game.event_log@[i].message@ == event.message@,
    ensures
        processes(*game, game_id@, *event, r),
{
    let context = ParsingContext::new(game_id, game, event.index);
    let r = parse_event(event, &context);
    proof {
        lemma_unparse_context(r, context.spec_unparsing(), game.spec_context(), event.index);
        assert(context.spec_unparsing().away_emoji_team.spec_text() == game.spec_context().away_emoji_team.spec_text());
        assert(context.spec_unparsing().home_emoji_team.spec_text() == game.spec_context().home_emoji_team.spec_text());
        assert(pitching_emoji_of(context.spec_unparsing(), event.inning) == pitching_emoji_of(game.spec_context(), event.inning));
        assert(cheer_emoji_at(context.spec_unparsing(), event.index) == cheer_emoji_at(game.spec_context(), event.index));
        assert(context.spec_unparsing().home_emoji_team.emoji@ == game.spec_context().home_emoji_team.emoji@);
        assert(context.spec_unparsing().away_emoji_team.emoji@ == game.spec_context().away_emoji_team.emoji@);
        assert(cheers_allowed_at(context.spec_unparsing(), event.index) == cheers_allowed_at(game.spec_context(), event.index));
    }
    r
}

/// Processes every event of `game`, whose id is `game_id`, in order.
pub fn process_game<'a>(game: &'a Game, game_id: &str) -> (r: Vec<ParsedEventMessage<&'a str>>)
    ensures
        r.len() == game.event_log@.len(),
        forall|i: int| 0 <= i < r.len() ==> processes(*game, game_id@, game.event_log@[i], #[trigger] r@[i]),
{
    let mut result: Vec<ParsedEventMessage<&'a str>> = Vec::new();
    for i in 0..game.event_log.len()
        invariant
            result.len() == i,
            forall|j: int| 0 <= j < i ==> processes(*game, game_id@, game.event_log@[j], #[trigger] result@[j]),
    {
        let event = &game.event_log[i];
        proof {
            assert(game.event_log@[i as int].message@ == event.message@);
        }
        result.push(process_event(event, game, game_id));
    }
    result
}

} // verus!
