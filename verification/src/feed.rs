//! Feed events of players and teams, and the texts they are written with.

use vstd::prelude::*;
use crate::enums::{Attribute, CelestialEnergyTier, FeedEventSource, FeedEventType, ItemName, ItemPrefix, ItemSuffix, ModificationType};
use crate::game::NotRecognized;
use crate::parsed_event::{EmojiTeam, Item};
use crate::places::Slot;
use crate::text::{dec, push_dec, push_text, Text};
use crate::time::{Breakpoints, Day, Timestamp};

verus! {

/// Why a feed event's text was not parsed.
#[derive(Debug, PartialEq)]
pub enum FeedEventParseError {
    /// The feed event's type was not recognized.
    EventTypeNotRecognized(NotRecognized),
    /// The text did not have the form of its event's type.
    FailedParsingText { event_type: FeedEventType, text: String },
}

/// The collections that feed events were kept in before they had ids.
#[derive(Debug, Clone, Copy, PartialEq, Eq, Hash, Structural)]
pub enum FeedEventCollection {
    Player,
    Team,
}

impl FeedEventCollection {
    /// The name of the collection, as the API writes it.
    pub open spec fn spec_name(self) -> Seq<char> {
        match self {
            FeedEventCollection::Player => "player"@,
            FeedEventCollection::Team => "team"@,
        }
    }

    /// The name of the collection, as the API writes it.
    pub fn as_str(self) -> (r: &'static str)
        ensures
            r@ == self.spec_name(),
    {
        match self {
            FeedEventCollection::Player => "player",
            FeedEventCollection::Team => "team",
        }
    }

    /// The collection named `s`.
    pub fn from_str(s: &str) -> (r: Option<FeedEventCollection>)
        ensures
            match r {
                Some(c) => c.spec_name() == s@,
                None => s@ != "player"@ && s@ != "team"@,
            },
    {
        if crate::text::str_eq(s, "player") {
            Some(FeedEventCollection::Player)
        } else if crate::text::str_eq(s, "team") {
            Some(FeedEventCollection::Team)
        } else {
            None
        }
    }
}

/// Where a feed event was kept before it had an id: its collection and the id of
/// the player or team.
#[derive(Debug, Clone, PartialEq)]
pub struct FeedEventLegacySource {
    pub collection: FeedEventCollection,
    pub source_id: String,
}

/// A feed event: when it happened, its type and its text.
#[derive(Debug)]
pub struct FeedEvent {
    pub season: u8,
    pub day: Result<Day, NotRecognized>,
    pub text: String,
    /// When the event happened: whole seconds since 1970-01-01 00:00:00 UTC, and
    /// the nanoseconds after them.
    pub timestamp_seconds: i64,
    pub timestamp_nanos: u32,
    pub event_type: Result<FeedEventType, NotRecognized>,
}

impl FeedEvent {
    /// The day of the event, when it was recognized.
    pub open spec fn spec_day(&self) -> Option<Day> {
        match self.day {
            Ok(d) => Some(d),
            Err(_) => None,
        }
    }

    /// An event whose day can be placed in the order of its season.
    pub open spec fn wf(&self) -> bool {
        self.spec_day() != Some(Day::SuperstarDay(255))
    }

    /// Whether the event is at or after the change `time`.
    pub open spec fn spec_after(&self, time: Breakpoints) -> bool {
        !time.spec_before(self.season as u32, self.spec_day(), None)
    }

    /// Whether the event happened after the moment `t`.
    pub open spec fn spec_later_than(&self, t: Timestamp) -> bool {
        self.timestamp_seconds > t.spec_seconds() || (self.timestamp_seconds == t.spec_seconds() && self.timestamp_nanos > 0)
    }

    fn day_option(&self) -> (r: Option<Day>)
        ensures
            r == self.spec_day(),
    {
        match &self.day {
            Ok(d) => Some(*d),
            Err(_) => None,
        }
    }

    /// Whether the event is at or after the change `time`.
    pub fn after(&self, time: Breakpoints) -> (r: bool)
        requires
            self.wf(),
        ensures
            r == self.spec_after(time),
    {
        time.after(self.season as u32, self.day_option(), None)
    }

    /// Whether the event is before the change `time`.
    pub fn before(&self, time: Breakpoints) -> (r: bool)
        requires
            self.wf(),
        ensures
            r == !self.spec_after(time),
    {
        time.before(self.season as u32, self.day_option(), None)
    }

    /// Whether the event happened after the moment `t`.
    pub fn later_than(&self, t: Timestamp) -> (r: bool)
        ensures
            r == self.spec_later_than(t),
    {
        let s = t.timestamp();
        self.timestamp_seconds > s || (self.timestamp_seconds == s && self.timestamp_nanos > 0)
    }
}

/// A signed number in decimal, with a minus sign when negative.
pub open spec fn signed_dec(n: int) -> Seq<char> {
    if n < 0 {
        "-"@ + dec((-n) as nat)
    } else {
        dec(n as nat)
    }
}

/// Appends `n` in decimal, with a minus sign when negative.
pub fn push_signed_dec(out: &mut String, n: i16)
    ensures
        final(out)@ == old(out)@ + signed_dec(n as int),
{
    if n < 0 {
        out.append("-");
        let m: i32 = -(n as i32);
        push_dec(out, m as u64);
    } else {
        push_dec(out, n as u64);
    }
}

/// A player's attribute changing by an amount.
#[derive(Debug, Clone, Copy, PartialEq)]
pub struct AttributeChange<S> {
    pub player_name: S,
    pub amount: i16,
    pub attribute: Attribute,
}

impl<S: Text> AttributeChange<S> {
    /// "{player} gained +{amount} {attribute}."
    pub open spec fn spec_text(&self) -> Seq<char> {
        self.player_name@ + " gained +"@ + signed_dec(self.amount as int) + " "@ + self.attribute.spec_name() + "."@
    }

    pub fn push_to(&self, out: &mut String)
        ensures
            final(out)@ == old(out)@ + self.spec_text(),
    {
        push_text(out, &self.player_name);
        out.append(" gained +");
        push_signed_dec(out, self.amount);
        out.append(" ");
        out.append(self.attribute.as_str());
        out.append(".");
    }
}

/// The changes, separated by spaces.
pub open spec fn changes_text<S: Text>(changes: Seq<AttributeChange<S>>) -> Seq<char>
    decreases changes.len(),
{
    if changes.len() == 0 {
        Seq::empty()
    } else if changes.len() == 1 {
        changes[0].spec_text()
    } else {
        changes_text(changes.drop_last()) + " "@ + changes.last().spec_text()
    }
}

pub fn push_changes<S: Text>(out: &mut String, changes: &Vec<AttributeChange<S>>)
    ensures
        final(out)@ == old(out)@ + changes_text(changes@),
{
    let ghost start = out@;
    for i in 0..changes.len()
        invariant
            out@ == start + changes_text(changes@.take(i as int)),
    {
        assert(changes@.take(i + 1).drop_last() =~= changes@.take(i as int));
        if i > 0 {
            out.append(" ");
        } else {
            assert(changes@.take(1)[0] == changes@[0]);
        }
        changes[i].push_to(out);
    }
    assert(changes@.take(changes.len() as int) =~= changes@);
}

/// An item delivered to a player, and the item they discarded for it.
#[derive(Debug, Clone, PartialEq)]
pub struct FeedDelivery<S> {
    pub player: S,
    pub item: Item<S>,
    pub discarded: Option<Item<S>>,
}

impl<S: Text> FeedDelivery<S> {
    /// "{player} received a {item} {label}.", then " They discarded their {item}."
    pub open spec fn spec_text(&self, label: Seq<char>) -> Seq<char> {
        self.player@ + " received a "@ + self.item.spec_text() + " "@ + label + "."@ + match self.discarded {
            Some(d) => " They discarded their "@ + d.spec_text() + "."@,
            None => Seq::empty(),
        }
    }

    pub fn push_to(&self, out: &mut String, label: &str)
        ensures
            final(out)@ == old(out)@ + self.spec_text(label@),
    {
        push_text(out, &self.player);
        out.append(" received a ");
        self.item.push_to(out);
        out.append(" ");
        out.append(label);
        out.append(".");
        if let Some(d) = &self.discarded {
            out.append(" They discarded their ");
            d.push_to(out);
            out.append(".");
        }
    }

    /// The text of the delivery, with `label` naming how it was delivered.
    pub fn unparse(&self, label: &str) -> (r: String)
        ensures
            r@ == self.spec_text(label@),
    {
        let mut s = String::new();
        self.push_to(&mut s, label);
        s
    }
}

/// An item named without its emoji: a prefix, its kind and a suffix.
#[derive(Debug, Clone, Copy, PartialEq, Eq, Structural)]
pub struct EmojilessItem {
    pub prefix: Option<ItemPrefix>,
    pub item: ItemName,
    pub suffix: Option<ItemSuffix>,
}

impl EmojilessItem {
    /// "{prefix} {item} {suffix}", without the missing parts.
    pub open spec fn spec_text(&self) -> Seq<char> {
        (match self.prefix {
            Some(p) => p.spec_name() + " "@,
            None => Seq::empty(),
        }) + self.item.spec_name() + (match self.suffix {
            Some(s) => " "@ + s.spec_name(),
            None => Seq::empty(),
        })
    }

    pub fn push_to(&self, out: &mut String)
        ensures
            final(out)@ == old(out)@ + self.spec_text(),
    {
        if let Some(p) = self.prefix {
            out.append(p.as_str());
            out.append(" ");
        }
        out.append(self.item.as_str());
        if let Some(s) = self.suffix {
            out.append(" ");
            out.append(s.as_str());
        }
    }

    pub fn to_string(&self) -> (r: String)
        ensures
            r@ == self.spec_text(),
    {
        let mut s = String::new();
        self.push_to(&mut s);
        s
    }
}

/// A feed event's text, parsed.
#[derive(Debug, PartialEq)]
pub enum ParsedFeedEventText<S> {
    ParseError { error: FeedEventParseError, text: S },
    GameResult { home_team: EmojiTeam<S>, away_team: EmojiTeam<S>, home_score: u8, away_score: u8 },
    Delivery { delivery: FeedDelivery<S> },
    Shipment { delivery: FeedDelivery<S> },
    SpecialDelivery { delivery: FeedDelivery<S> },
    AttributeChanges { changes: Vec<AttributeChange<S>> },
    SingleAttributeEquals { player_name: S, changing_attribute: Attribute, value_attribute: Attribute },
    MassAttributeEquals { players: Vec<(Option<Slot>, S)>, changing_attribute: Attribute, value_attribute: Attribute },
    S1Enchantment { player_name: S, item: EmojilessItem, amount: u8, attribute: Attribute },
    S2Enchantment {
        player_name: S,
        item: EmojilessItem,
        amount: u8,
        attribute: Attribute,
        enchant_two: Option<(u8, Attribute)>,
        compensatory: bool,
    },
    TakeTheMound { to_mound_player: S, to_lineup_player: S },
    TakeThePlate { to_plate_player: S, from_lineup_player: S },
    SwapPlaces { player_one: S, player_two: S },
    Prosperous { team: EmojiTeam<S>, income: u8 },
    Recomposed { previous: S, new: S },
    Modification { player_name: S, modification: ModificationType },
    Retirement { previous: S, new: Option<S> },
    InjuredByFallingStar { player: S },
    InfusedByFallingStar { player: S, infusion_tier: CelestialEnergyTier },
    Released { team: S },
}

/// How the sentence that sets a player's attribute to another was written
/// before season 3, for an event of `event` in the feed of a `source`.
pub open spec fn old_equal_text<S: Text>(
    player_name: S,
    changing: Attribute,
    value: Attribute,
    event: FeedEvent,
    source: FeedEventSource,
) -> Seq<char> {
    if event.spec_after(Breakpoints::S1AttributeEqualChange) {
        player_name@ + "'s "@ + changing.spec_name() + " became equal to their current base "@ + value.spec_name() + "."@
    } else if source == FeedEventSource::Player {
        player_name@ + "'s "@ + changing.spec_name() + " was set to their "@ + value.spec_name() + "."@
    } else {
        player_name@ + "'s "@ + changing.spec_name() + " became equal to their base "@ + value.spec_name() + "."@
    }
}

/// The sentence that sets the attribute of the `number`th player, after a space
/// but for the first.
pub open spec fn old_equal_entry<S: Text>(
    number: nat,
    player_name: S,
    changing: Attribute,
    value: Attribute,
    event: FeedEvent,
    source: FeedEventSource,
) -> Seq<char> {
    (if number > 1 { " "@ } else { Seq::empty() }) + old_equal_text(player_name, changing, value, event, source)
}

/// The sentence that sets each player's attribute, separated by spaces.
pub open spec fn old_equals_text<S: Text>(
    players: Seq<(Option<Slot>, S)>,
    changing: Attribute,
    value: Attribute,
    event: FeedEvent,
    source: FeedEventSource,
) -> Seq<char>
    decreases players.len(),
{
    if players.len() == 0 {
        Seq::empty()
    } else {
        old_equals_text(players.drop_last(), changing, value, event, source)
            + old_equal_entry(players.len(), players.last().1, changing, value, event, source)
    }
}

/// A slot, or nothing.
pub open spec fn opt_slot_text(slot: Option<Slot>) -> Seq<char> {
    match slot {
        Some(s) => s.spec_name(),
        None => Seq::empty(),
    }
}

/// The lineup of batters: " {n}. {slot} {player}", separated by commas.
pub open spec fn batters_lineup_text<S: Text>(players: Seq<(Option<Slot>, S)>) -> Seq<char>
    decreases players.len(),
{
    if players.len() == 0 {
        Seq::empty()
    } else {
        batters_lineup_text(players.drop_last()) + lineup_entry_text(players.len(), players.last().0, players.last().1)
    }
}

/// "+{amount} {attribute}"
pub open spec fn bonus_text(amount: u8, attribute: Attribute) -> Seq<char> {
    "+"@ + dec(amount as nat) + " "@ + attribute.spec_name()
}

impl<S: Text> ParsedFeedEventText<S> {
    /// Whether the text of this value depends on the day of its event: the
    /// attribute equals and the season 1 enchantments were worded otherwise
    /// after changes of seasons 1 and 3, and the falling star injuries after
    /// the eternal battle.
    pub open spec fn spec_reads_day(&self) -> bool {
        ||| self is SingleAttributeEquals
        ||| self is MassAttributeEquals
        ||| self is S1Enchantment
        ||| self is InjuredByFallingStar
    }

    /// The text this value was parsed from, as the game writes it for `event`
    /// in the feed of a `source`.
    pub open spec fn spec_unparse(&self, event: FeedEvent, source: FeedEventSource) -> Seq<char> {
        match self {
            ParsedFeedEventText::ParseError { text, .. } => text@,
            ParsedFeedEventText::GameResult { home_team, away_team, home_score, away_score } =>
                away_team.spec_text() + " vs. "@ + home_team.spec_text() + " - FINAL "@ + dec(*away_score as nat) + "-"@
                    + dec(*home_score as nat),
            ParsedFeedEventText::Delivery { delivery } => delivery.spec_text("Delivery"@),
            ParsedFeedEventText::SpecialDelivery { delivery } => delivery.spec_text("Special Delivery"@),
            ParsedFeedEventText::Shipment { delivery } => delivery.spec_text("Shipment"@),
            ParsedFeedEventText::AttributeChanges { changes } => changes_text(changes@),
            ParsedFeedEventText::SingleAttributeEquals { player_name, changing_attribute, value_attribute } =>
                if event.spec_after(Breakpoints::Season3) {
                    player_name@ + "'s "@ + changing_attribute.spec_name() + " was set to their "@ + value_attribute.spec_name() + "."@
                } else {
                    old_equal_text(*player_name, *changing_attribute, *value_attribute, event, source)
                },
            ParsedFeedEventText::MassAttributeEquals { players, changing_attribute, value_attribute } =>
                if event.spec_after(Breakpoints::Season3) {
                    "Batters' "@ + changing_attribute.spec_name() + " was set to their "@ + value_attribute.spec_name() + ". Lineup:"@
                        + batters_lineup_text(players@)
                } else {
                    old_equals_text(players@, *changing_attribute, *value_attribute, event, source)
                },
            ParsedFeedEventText::S1Enchantment { player_name, item, amount, attribute } =>
                if !event.spec_after(Breakpoints::Season1EnchantmentChange) {
                    player_name@ + "'s "@ + item.spec_text() + " was enchanted with +"@ + dec(*amount as nat) + " to "@
                        + attribute.spec_name() + "."@
                } else {
                    "The Item Enchantment was a success! "@ + player_name@ + "'s "@ + item.spec_text() + " gained a "@
                        + bonus_text(*amount, *attribute) + " bonus."@
                },
            ParsedFeedEventText::S2Enchantment { player_name, item, amount, attribute, enchant_two, compensatory } =>
                "The "@ + (if *compensatory { "Compensatory"@ } else { "Item"@ }) + " Enchantment was a success! "@ + player_name@
                    + "'s "@ + item.spec_text() + match enchant_two {
                        Some((amount_two, attribute_two)) => " was enchanted with "@ + bonus_text(*amount, *attribute) + " and "@
                            + bonus_text(*amount_two, *attribute_two) + "."@,
                        None => " gained a "@ + bonus_text(*amount, *attribute) + " bonus."@,
                    },
            ParsedFeedEventText::Modification { player_name, modification } =>
                player_name@ + " gained the "@ + modification.spec_name() + " Modification."@,
            ParsedFeedEventText::TakeTheMound { to_mound_player, to_lineup_player } =>
                to_mound_player@ + " was moved to the mound. "@ + to_lineup_player@ + " was sent to the lineup."@,
            ParsedFeedEventText::TakeThePlate { to_plate_player, from_lineup_player } =>
                to_plate_player@ + " was sent to the plate. "@ + from_lineup_player@ + " was pulled from the lineup."@,
            ParsedFeedEventText::SwapPlaces { player_one, player_two } =>
                player_one@ + " swapped places with "@ + player_two@ + "."@,
            ParsedFeedEventText::Prosperous { team, income } =>
                team.spec_text() + " are Prosperous! They earned "@ + dec(*income as nat) + " 🪙."@,
            ParsedFeedEventText::Recomposed { previous, new } =>
                if event.spec_later_than(Timestamp::Season3RecomposeChange) {
                    previous@ + " was Recomposed into "@ + new@ + "."@
                } else {
                    previous@ + " was Recomposed using "@ + new@ + "."@
                },
            ParsedFeedEventText::Retirement { previous, new } =>
                "😇 "@ + previous@ + " retired from MMOLB!"@ + match new {
                    Some(n) => " "@ + n@ + " was called up to take their place."@,
                    None => Seq::empty(),
                },
            ParsedFeedEventText::InjuredByFallingStar { player } =>
                if event.spec_after(Breakpoints::EternalBattle) {
                    player@ + " was injured by the extreme force of the impact!"@
                } else {
                    player@ + " was hit by a Falling Star!"@
                },
            ParsedFeedEventText::InfusedByFallingStar { player, infusion_tier } => player@ + " "@ + infusion_tier.spec_name(),
            ParsedFeedEventText::Released { team } => "Released by the "@ + team@ + "."@,
        }
    }
}

fn push_old_equal<S: Text>(
    out: &mut String,
    player_name: &S,
    changing: Attribute,
    value: Attribute,
    event: &FeedEvent,
    source: FeedEventSource,
)
    requires
        event.wf(),
    ensures
        final(out)@ == old(out)@ + old_equal_text(*player_name, changing, value, *event, source),
{
    push_text(out, player_name);
    out.append("'s ");
    out.append(changing.as_str());
    if event.after(Breakpoints::S1AttributeEqualChange) {
        out.append(" became equal to their current base ");
    } else if source == FeedEventSource::Player {
        out.append(" was set to their ");
    } else {
        out.append(" became equal to their base ");
    }
    out.append(value.as_str());
    out.append(".");
}

fn push_old_equal_entry<S: Text>(
    out: &mut String,
    number: u64,
    player_name: &S,
    changing: Attribute,
    value: Attribute,
    event: &FeedEvent,
    source: FeedEventSource,
)
    requires
        event.wf(),
    ensures
        final(out)@ == old(out)@ + old_equal_entry(number as nat, *player_name, changing, value, *event, source),
{
    if number > 1 {
        out.append(" ");
    }
    push_old_equal(out, player_name, changing, value, event, source);
}

fn push_old_equals<S: Text>(
    out: &mut String,
    players: &Vec<(Option<Slot>, S)>,
    changing: Attribute,
    value: Attribute,
    event: &FeedEvent,
    source: FeedEventSource,
)
    requires
        event.wf(),
    ensures
        final(out)@ == old(out)@ + old_equals_text(players@, changing, value, *event, source),
{
    let ghost start = out@;
    for i in 0..players.len()
        invariant
            event.wf(),
            out@ == start + old_equals_text(players@.take(i as int), changing, value, *event, source),
    {
        let ghost next = players@.take(i + 1);
        assert(next.drop_last() =~= players@.take(i as int));
        assert(next.last() == players@[i as int]);
        push_old_equal_entry(out, i as u64 + 1, &players[i].1, changing, value, event, source);
        proof {
            assert(old_equals_text(next, changing, value, *event, source) =~= old_equals_text(players@.take(i as int), changing, value, *event, source)
                + old_equal_entry((i + 1) as nat, players@[i as int].1, changing, value, *event, source));
        }
    }
    assert(players@.take(players.len() as int) =~= players@);
}

/// One batter of a lineup: " {number}. {slot} {player}", after a comma but for the first.
pub open spec fn lineup_entry_text<S: Text>(number: nat, slot: Option<Slot>, player: S) -> Seq<char> {
    (if number > 1 { ","@ } else { Seq::empty() }) + " "@ + dec(number) + ". "@ + opt_slot_text(slot) + " "@ + player@
}

fn push_lineup_entry<S: Text>(out: &mut String, number: u64, slot: &Option<Slot>, player: &S)
    ensures
        final(out)@ == old(out)@ + lineup_entry_text(number as nat, *slot, *player),
{
    if number > 1 {
        out.append(",");
    }
    out.append(" ");
    push_dec(out, number);
    out.append(". ");
    if let Some(slot) = slot {
        let t = slot.to_string();
        out.append(t.as_str());
    }
    out.append(" ");
    push_text(out, player);
}

fn push_batters_lineup<S: Text>(out: &mut String, players: &Vec<(Option<Slot>, S)>)
    ensures
        final(out)@ == old(out)@ + batters_lineup_text(players@),
{
    let ghost start = out@;
    for i in 0..players.len()
        invariant
            out@ == start + batters_lineup_text(players@.take(i as int)),
    {
        let ghost next = players@.take(i + 1);
        assert(next.drop_last() =~= players@.take(i as int));
        assert(next.last() == players@[i as int]);
        push_lineup_entry(out, i as u64 + 1, &players[i].0, &players[i].1);
        proof {
            assert(batters_lineup_text(next) =~= batters_lineup_text(players@.take(i as int))
                + lineup_entry_text((i + 1) as nat, players@[i as int].0, players@[i as int].1));
        }
    }
    assert(players@.take(players.len() as int) =~= players@);
}

fn push_bonus(out: &mut String, amount: u8, attribute: Attribute)
    ensures
        final(out)@ == old(out)@ + bonus_text(amount, attribute),
{
    out.append("+");
    push_dec(out, amount as u64);
    out.append(" ");
    out.append(attribute.as_str());
}

impl<S: Text> ParsedFeedEventText<S> {
    fn push_equals(&self, out: &mut String, event: &FeedEvent, source: FeedEventSource)
        requires
            event.wf(),
            self is SingleAttributeEquals || self is MassAttributeEquals,
        ensures
            final(out)@ == old(out)@ + self.spec_unparse(*event, source),
    {
        match self {
            ParsedFeedEventText::SingleAttributeEquals { player_name, changing_attribute, value_attribute } => {
                if event.after(Breakpoints::Season3) {
                    push_text(out, player_name);
                    out.append("'s ");
                    out.append(changing_attribute.as_str());
                    out.append(" was set to their ");
                    out.append(value_attribute.as_str());
                    out.append(".");
                } else {
                    push_old_equal(out, player_name, *changing_attribute, *value_attribute, event, source);
                }
            },
            ParsedFeedEventText::MassAttributeEquals { players, changing_attribute, value_attribute } => {
                if event.after(Breakpoints::Season3) {
                    out.append("Batters' ");
                    out.append(changing_attribute.as_str());
                    out.append(" was set to their ");
                    out.append(value_attribute.as_str());
                    out.append(". Lineup:");
                    push_batters_lineup(out, players);
                } else {
                    push_old_equals(out, players, *changing_attribute, *value_attribute, event, source);
                }
            },
            _ => {},
        }
    }

    fn push_enchantment(&self, out: &mut String, event: &FeedEvent)
        requires
            self is S1Enchantment ==> event.wf(),
            self is S1Enchantment || self is S2Enchantment,
        ensures
            final(out)@ == old(out)@ + self.spec_unparse(*event, FeedEventSource::Player),
    {
        match self {
            ParsedFeedEventText::S1Enchantment { player_name, item, amount, attribute } => {
                if event.before(Breakpoints::Season1EnchantmentChange) {
                    push_text(out, player_name);
                    out.append("'s ");
                    item.push_to(out);
                    out.append(" was enchanted with +");
                    push_dec(out, *amount as u64);
                    out.append(" to ");
                    out.append(attribute.as_str());
                    out.append(".");
                } else {
                    out.append("The Item Enchantment was a success! ");
                    push_text(out, player_name);
                    out.append("'s ");
                    item.push_to(out);
                    out.append(" gained a ");
                    push_bonus(out, *amount, *attribute);
                    out.append(" bonus.");
                }
            },
            ParsedFeedEventText::S2Enchantment { .. } => self.push_s2_enchantment(out, event),
            _ => {},
        }
    }

    fn push_s2_enchantment(&self, out: &mut String, event: &FeedEvent)
        requires
            self is S2Enchantment,
        ensures
            final(out)@ == old(out)@ + self.spec_unparse(*event, FeedEventSource::Player),
    {
        if let ParsedFeedEventText::S2Enchantment { player_name, item, amount, attribute, enchant_two, compensatory } = self {
            let ghost start = out@;
            out.append("The ");
            out.append(if *compensatory { "Compensatory" } else { "Item" });
            out.append(" Enchantment was a success! ");
            push_text(out, player_name);
            out.append("'s ");
            item.push_to(out);
            let ghost head = out@;
            match enchant_two {
                Some((amount_two, attribute_two)) => {
                    out.append(" was enchanted with ");
                    push_bonus(out, *amount, *attribute);
                    out.append(" and ");
                    push_bonus(out, *amount_two, *attribute_two);
                    out.append(".");
                },
                None => {
                    out.append(" gained a ");
                    push_bonus(out, *amount, *attribute);
                    out.append(" bonus.");
                },
            }
        }
    }

    fn push_simple(&self, out: &mut String, event: &FeedEvent)
        requires
            self is InjuredByFallingStar ==> event.wf(),
            !(self is SingleAttributeEquals || self is MassAttributeEquals || self is S1Enchantment || self is S2Enchantment),
        ensures
            final(out)@ == old(out)@ + self.spec_unparse(*event, FeedEventSource::Player),
    {
        match self {
            ParsedFeedEventText::ParseError { text, .. } => push_text(out, text),
            ParsedFeedEventText::GameResult { home_team, away_team, home_score, away_score } => {
                away_team.push_to(out);
                out.append(" vs. ");
                home_team.push_to(out);
                out.append(" - FINAL ");
                push_dec(out, *away_score as u64);
                out.append("-");
                push_dec(out, *home_score as u64);
            },
            ParsedFeedEventText::Delivery { delivery } => delivery.push_to(out, "Delivery"),
            ParsedFeedEventText::SpecialDelivery { delivery } => delivery.push_to(out, "Special Delivery"),
            ParsedFeedEventText::Shipment { delivery } => delivery.push_to(out, "Shipment"),
            ParsedFeedEventText::AttributeChanges { changes } => push_changes(out, changes),
            ParsedFeedEventText::Modification { player_name, modification } => {
                push_text(out, player_name);
                out.append(" gained the ");
                let m = modification.to_string();
                out.append(m.as_str());
                out.append(" Modification.");
            },
            ParsedFeedEventText::TakeTheMound { to_mound_player, to_lineup_player } => {
                push_text(out, to_mound_player);
                out.append(" was moved to the mound. ");
                push_text(out, to_lineup_player);
                out.append(" was sent to the lineup.");
            },
            ParsedFeedEventText::TakeThePlate { to_plate_player, from_lineup_player } => {
                push_text(out, to_plate_player);
                out.append(" was sent to the plate. ");
                push_text(out, from_lineup_player);
                out.append(" was pulled from the lineup.");
            },
            ParsedFeedEventText::SwapPlaces { player_one, player_two } => {
                push_text(out, player_one);
                out.append(" swapped places with ");
                push_text(out, player_two);
                out.append(".");
            },
            ParsedFeedEventText::Prosperous { team, income } => {
                team.push_to(out);
                out.append(" are Prosperous! They earned ");
                push_dec(out, *income as u64);
                out.append(" 🪙.");
            },
            ParsedFeedEventText::Recomposed { previous, new } => {
                push_text(out, previous);
                if event.later_than(Timestamp::Season3RecomposeChange) {
                    out.append(" was Recomposed into ");
                } else {
                    out.append(" was Recomposed using ");
                }
                push_text(out, new);
                out.append(".");
            },
            ParsedFeedEventText::Retirement { previous, new } => {
                out.append("😇 ");
                push_text(out, previous);
                out.append(" retired from MMOLB!");
                if let Some(n) = new {
                    out.append(" ");
                    push_text(out, n);
                    out.append(" was called up to take their place.");
                }
            },
            ParsedFeedEventText::InjuredByFallingStar { player } => {
                push_text(out, player);
                if event.after(Breakpoints::EternalBattle) {
                    out.append(" was injured by the extreme force of the impact!");
                } else {
                    out.append(" was hit by a Falling Star!");
                }
            },
            ParsedFeedEventText::InfusedByFallingStar { player, infusion_tier } => {
                push_text(out, player);
                out.append(" ");
                out.append(infusion_tier.as_str());
            },
            ParsedFeedEventText::Released { team } => {
                out.append("Released by the ");
                push_text(out, team);
                out.append(".");
            },
            _ => {},
        }
    }

    /// Recreates the text this value was parsed from, as the game writes it for
    /// `event` in the feed of a `source`.
    pub fn unparse(&self, event: &FeedEvent, source: FeedEventSource) -> (r: String)
        requires
            self.spec_reads_day() ==> event.wf(),
        ensures
            r@ == self.spec_unparse(*event, source),
    {
        let mut s = String::new();
        match self {
            ParsedFeedEventText::SingleAttributeEquals { .. } | ParsedFeedEventText::MassAttributeEquals { .. } => {
                self.push_equals(&mut s, event, source);
            },
            ParsedFeedEventText::S1Enchantment { .. } | ParsedFeedEventText::S2Enchantment { .. } => {
                self.push_enchantment(&mut s, event);
            },
            _ => {
                self.push_simple(&mut s, event);
            },
        }
        s
    }
}

/// How a feed event's words follow its kind: a delivery is headed "Delivery",
/// a special delivery "Special Delivery" and a shipment "Shipment"; an
/// enchantment opens "The Compensatory Enchantment was a success! " when it is
/// compensatory and "The Item Enchantment was a success! " otherwise; a
/// recomposition reads "was Recomposed into" from the change of season 3 and
/// "was Recomposed using" before; a falling star injury reads "was injured by
/// the extreme force of the impact!" from the eternal battle and "was hit by a
/// Falling Star!" before.
pub proof fn lemma_feed_words<S: Text>(
    delivery: FeedDelivery<S>,
    player: S,
    other: S,
    item: EmojilessItem,
    amount: u8,
    attribute: Attribute,
    enchant_two: Option<(u8, Attribute)>,
    event: FeedEvent,
    source: FeedEventSource,
)
    ensures
        (ParsedFeedEventText::Delivery { delivery }).spec_unparse(event, source) == delivery.spec_text("Delivery"@),
        (ParsedFeedEventText::SpecialDelivery { delivery }).spec_unparse(event, source) == delivery.spec_text("Special Delivery"@),
        (ParsedFeedEventText::Shipment { delivery }).spec_unparse(event, source) == delivery.spec_text("Shipment"@),
        exists|rest: Seq<char>| {
            &&& (ParsedFeedEventText::S2Enchantment { player_name: player, item, amount, attribute, enchant_two, compensatory: true })
                .spec_unparse(event, source) == "The Compensatory Enchantment was a success! "@ + rest
            &&& (ParsedFeedEventText::S2Enchantment { player_name: player, item, amount, attribute, enchant_two, compensatory: false })
                .spec_unparse(event, source) == "The Item Enchantment was a success! "@ + rest
        },
        event.spec_later_than(Timestamp::Season3RecomposeChange)
            ==> (ParsedFeedEventText::Recomposed { previous: player, new: other }).spec_unparse(event, source)
                == player@ + " was Recomposed into "@ + other@ + "."@,
        !event.spec_later_than(Timestamp::Season3RecomposeChange)
            ==> (ParsedFeedEventText::Recomposed { previous: player, new: other }).spec_unparse(event, source)
                == player@ + " was Recomposed using "@ + other@ + "."@,
        event.spec_after(Breakpoints::EternalBattle)
            ==> (ParsedFeedEventText::InjuredByFallingStar { player }).spec_unparse(event, source)
                == player@ + " was injured by the extreme force of the impact!"@,
        !event.spec_after(Breakpoints::EternalBattle)
            ==> (ParsedFeedEventText::InjuredByFallingStar { player }).spec_unparse(event, source)
                == player@ + " was hit by a Falling Star!"@,
{
    reveal_strlit("The ");
    reveal_strlit("Compensatory");
    reveal_strlit("Item");
    reveal_strlit(" Enchantment was a success! ");
    reveal_strlit("The Compensatory Enchantment was a success! ");
    reveal_strlit("The Item Enchantment was a success! ");
    let rest = player@ + "'s "@ + item.spec_text() + match enchant_two {
        Some((amount_two, attribute_two)) => " was enchanted with "@ + bonus_text(amount, attribute) + " and "@
            + bonus_text(amount_two, attribute_two) + "."@,
        None => " gained a "@ + bonus_text(amount, attribute) + " bonus."@,
    };
    let yes = ParsedFeedEventText::S2Enchantment { player_name: player, item, amount, attribute, enchant_two, compensatory: true };
    let no = ParsedFeedEventText::S2Enchantment { player_name: player, item, amount, attribute, enchant_two, compensatory: false };
    assert(yes.spec_unparse(event, source) =~= "The Compensatory Enchantment was a success! "@ + rest);
    assert(no.spec_unparse(event, source) =~= "The Item Enchantment was a success! "@ + rest);
}

} // verus!
