//! Parsing the texts of feed events into `ParsedFeedEventText`s.
//!
//! As for game events, a value is only returned when writing it back gives
//! exactly the text it was read from, in the feed of a player or of a team.

use vstd::prelude::*;
use crate::enums::{Attribute, CelestialEnergyTier, FeedEventSource, FeedEventType, ItemName, ItemPrefix, ItemSuffix, ModificationType};
use crate::feed::{changes_text, old_equals_text, signed_dec, AttributeChange, EmojilessItem, FeedDelivery, FeedEvent, FeedEventParseError, ParsedFeedEventText};
use crate::parsed_event::{prefixes_text, suffixes_text, Item, ItemAffixes};
use crate::places::Slot;
use crate::reader::{no_space, Reader};
use crate::text::{dec, digit_run, is_digit, lemma_stops_after, occurs_at, score_text, spec_leading_unsigned, stops_after, str_eq};
use crate::time::{Breakpoints, Day, Timestamp};

verus! {

/// Whether `m` is a value that feed events of type `t` hold.
pub open spec fn feed_fits<S>(t: FeedEventType, m: ParsedFeedEventText<S>) -> bool {
    match t {
        FeedEventType::Game => m is GameResult || m is Delivery || m is Shipment || m is SpecialDelivery || m is Prosperous
            || m is Retirement || m is InjuredByFallingStar || m is InfusedByFallingStar,
        FeedEventType::Augment => m is AttributeChanges || m is S1Enchantment || m is S2Enchantment || m is Modification
            || m is TakeTheMound || m is TakeThePlate || m is MassAttributeEquals || m is SingleAttributeEquals
            || m is SwapPlaces || m is Recomposed,
        FeedEventType::Release => m is Released,
        FeedEventType::Season => false,
    }
}

/// Whether `m` writes back to the text of `event`, in the feed of a player or of a team.
pub open spec fn writes_feed<S: crate::text::Text>(m: ParsedFeedEventText<S>, event: FeedEvent) -> bool {
    &&& event.wf()
    &&& (m.spec_unparse(event, FeedEventSource::Player) == event.text@
        || m.spec_unparse(event, FeedEventSource::Team) == event.text@)
}

/// Whether `res`, when there is one, writes back to the text of `event` and is
/// a value that feed events of type `t` hold.
pub open spec fn read_feed_as<S: crate::text::Text>(res: Option<ParsedFeedEventText<S>>, event: FeedEvent, t: FeedEventType) -> bool {
    match res {
        Some(m) => writes_feed(m, event) && feed_fits(t, m),
        None => true,
    }
}

/// Whether the day of `event` can be placed in the order of its season.
fn event_is_wf(event: &FeedEvent) -> (r: bool)
    ensures
        r == event.wf(),
{
    match &event.day {
        Ok(Day::SuperstarDay(d)) => *d != 255,
        _ => true,
    }
}

/// `m`, when it writes back to the text of `event`.
fn accept<'b>(m: ParsedFeedEventText<&'b str>, event: &FeedEvent) -> (r: Option<ParsedFeedEventText<&'b str>>)
    ensures
        match r {
            Some(x) => x == m && writes_feed(x, *event),
            None => !writes_feed(m, *event),
        },
{
    if !event_is_wf(event) {
        return None;
    }
    let s = m.unparse(event, FeedEventSource::Player);
    if str_eq(s.as_str(), event.text.as_str()) {
        return Some(m);
    }
    let s = m.unparse(event, FeedEventSource::Team);
    if str_eq(s.as_str(), event.text.as_str()) {
        Some(m)
    } else {
        None
    }
}

/// An item written as its emoji and name, filling `a..b`: a kind alone, a kind
/// with a prefix or a suffix, or a kind after a rare name.
#[verifier::spinoff_prover]
#[verifier::rlimit(100)]
fn item_at<'a>(r: &Reader<'a>, a: usize, b: usize) -> (res: Option<Item<&'a str>>)
    requires
        r.wf(),
        a <= b <= r.size(),
    ensures
        res matches Some(it) ==> it.spec_text() == r.text@.subrange(a as int, b as int),
        forall|emoji: Seq<char>, item: ItemName| no_space(emoji)
            && r.text@.subrange(a as int, b as int) == #[trigger] (emoji + " "@ + item.spec_name())
            ==> (res matches Some(it) && it.item_emoji@ == emoji && it.item == item && it.affixes is NoAffixes),
{
    proof {
        reveal_strlit(" ");
        reveal_strlit(" of ");
        assert forall|emoji: Seq<char>, item: ItemName| no_space(emoji)
            && r.text@.subrange(a as int, b as int) == #[trigger] (emoji + " "@ + item.spec_name())
            implies ({
                let sp = a + emoji.len();
                &&& occurs_at(r.chars@, sp, " "@) && sp + 1 <= b
                &&& (forall|k: int| a <= k < sp ==> !#[trigger] occurs_at(r.chars@, k, " "@))
                &&& r.text@.subrange(a as int, sp) == emoji
                &&& (forall|k: int| sp + 1 <= k && k + 4 <= b ==> !#[trigger] occurs_at(r.chars@, k, " of "@))
                &&& r.text@.subrange(sp + 1, b as int) == item.spec_name()
                &&& ItemName::spec_parse(item.spec_name()) == Some(item)
            }) by {
            lemma_item_parts(r.text@, a as int, b as int, emoji, item);
        }
    }
    let sp = r.find(a, b, " ")?;
    let item_emoji = r.slice(a, sp);
    let start = r.lit(sp, b, " ")?;
    let (main_end, suffix) = match r.find(start, b, " of ") {
        Some(q) => {
            let s = r.lit(q, b, " ")?;
            match ItemSuffix::from_str(r.slice(s, b)) {
                Ok(suffix) => (q, Some(suffix)),
                Err(_) => (b, None),
            }
        },
        None => (b, None),
    };
    proof {
        assert forall|emoji: Seq<char>, nm: ItemName| no_space(emoji)
            && r.text@.subrange(a as int, b as int) == #[trigger] (emoji + " "@ + nm.spec_name())
            implies sp == a + emoji.len() && main_end == b && suffix is None && r.text@.subrange(a as int, sp as int) == emoji
            && ItemName::spec_parse(r.text@.subrange(start as int, main_end as int)) == Some(nm) by {
            lemma_item_parts(r.text@, a as int, b as int, emoji, nm);
            let k = a + emoji.len();
            if sp < k {
                assert(!occurs_at(r.chars@, sp as int, " "@));
            }
            if sp > k {
                assert(!occurs_at(r.chars@, k, " "@));
            }
        }
    }
    let ghost tail = match suffix {
        Some(sx) => " "@ + sx.spec_name(),
        None => Seq::<char>::empty(),
    };
    proof {
        let c = r.chars@;
        if suffix is Some {
            assert(c.subrange(start as int, b as int) =~= c.subrange(start as int, main_end as int)
                + c.subrange(main_end as int, main_end + 1) + c.subrange(main_end + 1, b as int));
        }
        assert(c.subrange(a as int, b as int) =~= c.subrange(a as int, sp as int) + c.subrange(sp as int, start as int)
            + c.subrange(start as int, b as int));
        assert(r.text@.subrange(a as int, b as int) =~= item_emoji@ + " "@ + r.text@.subrange(start as int, main_end as int) + tail);
    }
    if let Ok(item) = ItemName::from_str(r.slice(start, main_end)) {
        let affixes = match suffix {
            Some(s) => ItemAffixes::PrefixSuffix(Vec::new(), vec![s]),
            None => ItemAffixes::NoAffixes,
        };
        proof {
            if let ItemAffixes::PrefixSuffix(ps, ss) = &affixes {
                assert(ps@.len() == 0);
                assert(prefixes_text(ps@) == Seq::<char>::empty());
                assert(ss@.drop_last() =~= Seq::<ItemSuffix>::empty());
                assert(suffixes_text(ss@.drop_last()) == Seq::<char>::empty());
                assert(suffixes_text(ss@) =~= tail);
            }
        }
        let it = Item { item_emoji, item, affixes };
        proof {
            assert(it.spec_text() =~= item_emoji@ + " "@ + r.text@.subrange(start as int, main_end as int) + tail);
            assert forall|emoji: Seq<char>, nm: ItemName| no_space(emoji)
                && r.text@.subrange(a as int, b as int) == #[trigger] (emoji + " "@ + nm.spec_name())
                implies it.item_emoji@ == emoji && it.item == nm && it.affixes is NoAffixes by {
                lemma_item_parts(r.text@, a as int, b as int, emoji, nm);
            }
        }
        return Some(it);
    }
    proof {
        assert forall|emoji: Seq<char>, nm: ItemName| no_space(emoji)
            && r.text@.subrange(a as int, b as int) == #[trigger] (emoji + " "@ + nm.spec_name())
            implies false by {
            lemma_item_parts(r.text@, a as int, b as int, emoji, nm);
        }
    }
    if let Some(p) = r.find(start, main_end, " ") {
        if let Ok(prefix) = ItemPrefix::from_str(r.slice(start, p)) {
            let n = r.lit(p, main_end, " ")?;
            if let Ok(item) = ItemName::from_str(r.slice(n, main_end)) {
                let suffixes = match suffix {
                    Some(s) => vec![s],
                    None => Vec::new(),
                };
                let prefixes = vec![prefix];
                let it = Item { item_emoji, item, affixes: ItemAffixes::PrefixSuffix(prefixes, suffixes) };
                proof {
                    let c = r.chars@;
                    assert(prefixes@.drop_last() =~= Seq::<ItemPrefix>::empty());
                    assert(prefixes_text(prefixes@.drop_last()) == Seq::<char>::empty());
                    assert(prefixes_text(prefixes@) =~= prefix.spec_name() + " "@);
                    if suffix is Some {
                        assert(suffixes@.drop_last() =~= Seq::<ItemSuffix>::empty());
                        assert(suffixes_text(suffixes@.drop_last()) == Seq::<char>::empty());
                    }
                    assert(suffixes_text(suffixes@) =~= tail);
                    assert(c.subrange(start as int, main_end as int) =~= c.subrange(start as int, p as int)
                        + c.subrange(p as int, n as int) + c.subrange(n as int, main_end as int));
                    assert(it.spec_text() =~= item_emoji@ + " "@ + r.text@.subrange(start as int, main_end as int) + tail);
                }
                return Some(it);
            }
        }
    }
    if suffix.is_some() {
        return None;
    }
    let last = r.rfind_char(start, b, ' ')?;
    let n = r.lit(last, b, " ")?;
    if let Ok(item) = ItemName::from_str(r.slice(n, b)) {
        let it = Item { item_emoji, item, affixes: ItemAffixes::RareName(r.slice(start, last)) };
        proof {
            let c = r.chars@;
            assert(c.subrange(start as int, b as int) =~= c.subrange(start as int, last as int)
                + c.subrange(last as int, n as int) + c.subrange(n as int, b as int));
            assert(it.spec_text() =~= item_emoji@ + " "@ + r.text@.subrange(start as int, main_end as int) + tail);
        }
        return Some(it);
    }
    let before = r.rfind_char(start, last, ' ')?;
    let n = r.lit(before, b, " ")?;
    match ItemName::from_str(r.slice(n, b)) {
        Ok(item) => {
            let it = Item { item_emoji, item, affixes: ItemAffixes::RareName(r.slice(start, before)) };
            proof {
                let c = r.chars@;
                assert(c.subrange(start as int, b as int) =~= c.subrange(start as int, before as int)
                    + c.subrange(before as int, n as int) + c.subrange(n as int, b as int));
                assert(it.spec_text() =~= item_emoji@ + " "@ + r.text@.subrange(start as int, main_end as int) + tail);
            }
            Some(it)
        },
        Err(_) => None,
    }
}

/// Where the emoji and the kind of a plain item stand in `text[a..b]`.
proof fn lemma_item_parts(text: Seq<char>, a: int, b: int, emoji: Seq<char>, item: ItemName)
    requires
        0 <= a <= b <= text.len(),
        no_space(emoji),
        text.subrange(a, b) == emoji + " "@ + item.spec_name(),
    ensures
        ({
            let sp = a + emoji.len();
            &&& occurs_at(text, sp, " "@) && sp + 1 <= b
            &&& (forall|k: int| a <= k < sp ==> !#[trigger] occurs_at(text, k, " "@))
            &&& text.subrange(a, sp) == emoji
            &&& (forall|k: int| sp + 1 <= k && k + 4 <= b ==> !#[trigger] occurs_at(text, k, " of "@))
            &&& text.subrange(sp + 1, b) == item.spec_name()
            &&& ItemName::spec_parse(item.spec_name()) == Some(item)
        }),
{
    reveal_strlit(" ");
    reveal_strlit(" of ");
    let sp = a + emoji.len();
    let u = text.subrange(a, b);
    item.lemma_name_spaces();
    assert(u.len() == emoji.len() + 1 + item.spec_name().len());
    assert(text.subrange(a, sp + 1) =~= u.subrange(0, emoji.len() + 1int));
    assert(u.subrange(0, emoji.len() + 1int) =~= emoji + " "@);
    assert(text.subrange(sp + 1, b) =~= u.subrange(emoji.len() + 1int, u.len() as int));
    crate::reader::lemma_word_stops(emoji, " "@);
    lemma_stops_after(text, a, emoji, " "@);
    assert(text.subrange(a, sp) =~= emoji);
    assert(text.subrange(sp + 1, b) =~= item.spec_name());
    lemma_item_lacks(item, " of "@);
    item.lemma_parse_name();
    assert forall|k: int| sp + 1 <= k && k + 4 <= b implies !#[trigger] occurs_at(text, k, " of "@) by {
        let w = text.subrange(sp + 1, b);
        if occurs_at(text, k, " of "@) {
            assert(w.subrange(k - sp - 1, k - sp + 3) =~= text.subrange(k, k + 4));
            assert(occurs_at(w, k - sp - 1, " of "@));
        }
    }
}

/// An item written without its emoji, filling `a..b`.
#[verifier::spinoff_prover]
#[verifier::rlimit(40)]
fn emojiless_item_at(r: &Reader, a: usize, b: usize) -> (res: Option<EmojilessItem>)
    requires
        r.wf(),
        a <= b <= r.size(),
    ensures
        res matches Some(it) ==> it.spec_text() == r.text@.subrange(a as int, b as int),
        forall|item: ItemName| r.text@.subrange(a as int, b as int) == #[trigger] item.spec_name()
            ==> res == Some(EmojilessItem { prefix: None, item, suffix: None }),
{
    proof {
        reveal_strlit(" of ");
        assert forall|item: ItemName| r.text@.subrange(a as int, b as int) == #[trigger] item.spec_name()
            implies (forall|k: int| a <= k && k + 4 <= b ==> !#[trigger] occurs_at(r.chars@, k, " of "@))
            && ItemName::spec_parse(item.spec_name()) == Some(item) by {
            lemma_item_lacks(item, " of "@);
            item.lemma_parse_name();
            assert forall|k: int| a <= k && k + 4 <= b implies !#[trigger] occurs_at(r.chars@, k, " of "@) by {
                let u = r.text@.subrange(a as int, b as int);
                if occurs_at(r.chars@, k, " of "@) {
                    assert(u.subrange(k - a, k - a + 4) =~= r.chars@.subrange(k, k + 4));
                    assert(occurs_at(u, k - a, " of "@));
                }
            }
        }
    }
    let (main_end, suffix) = match r.find(a, b, " of ") {
        Some(q) => {
            let s = r.lit(q, b, " ")?;
            match ItemSuffix::from_str(r.slice(s, b)) {
                Ok(suffix) => (q, Some(suffix)),
                Err(_) => return None,
            }
        },
        None => (b, None),
    };
    let ghost tail = match suffix {
        Some(sx) => " "@ + sx.spec_name(),
        None => Seq::<char>::empty(),
    };
    proof {
        reveal_strlit(" ");
        let c = r.chars@;
        if suffix is Some {
            assert(c.subrange(a as int, b as int) =~= c.subrange(a as int, main_end as int) + c.subrange(main_end as int, main_end + 1)
                + c.subrange(main_end + 1, b as int));
        }
        assert(r.text@.subrange(a as int, b as int) =~= r.text@.subrange(a as int, main_end as int) + tail);
    }
    if let Ok(item) = ItemName::from_str(r.slice(a, main_end)) {
        let it = EmojilessItem { prefix: None, item, suffix };
        proof {
            assert(it.spec_text() =~= r.text@.subrange(a as int, main_end as int) + tail);
        }
        return Some(it);
    }
    let p = r.find(a, main_end, " ")?;
    let prefix = match ItemPrefix::from_str(r.slice(a, p)) {
        Ok(prefix) => prefix,
        Err(_) => return None,
    };
    let n = r.lit(p, main_end, " ")?;
    match ItemName::from_str(r.slice(n, main_end)) {
        Ok(item) => {
            let it = EmojilessItem { prefix: Some(prefix), item, suffix };
            proof {
                let c = r.chars@;
                assert(c.subrange(a as int, main_end as int) =~= c.subrange(a as int, p as int) + c.subrange(p as int, n as int)
                    + c.subrange(n as int, main_end as int));
                assert(it.spec_text() =~= r.text@.subrange(a as int, main_end as int) + tail);
            }
            Some(it)
        },
        Err(_) => None,
    }
}

/// A text that starts with a space and then anything but a capital O occurs
/// nowhere in the written form of a kind of item, nor where it starts within
/// that form and runs on past it.
proof fn lemma_item_lacks(item: ItemName, sep: Seq<char>)
    requires
        sep.len() >= 2,
        sep[0] == ' ',
        sep[1] != 'O',
    ensures
        crate::text::lacks(item.spec_name(), sep),
        stops_after(item.spec_name(), sep),
{
    item.lemma_name_spaces();
    let w = item.spec_name();
    assert forall|k: int| !#[trigger] occurs_at(w, k, sep) by {
        if occurs_at(w, k, sep) {
            assert(w.subrange(k, k + sep.len())[0] == w[k]);
            assert(w.subrange(k, k + sep.len())[1] == w[k + 1]);
        }
    }
    assert forall|i: int| 0 <= i < w.len() implies !#[trigger] occurs_at(w + sep, i, sep) by {
        if occurs_at(w + sep, i, sep) {
            assert((w + sep).subrange(i, i + sep.len())[0] == (w + sep)[i]);
            assert((w + sep).subrange(i, i + sep.len())[1] == (w + sep)[i + 1]);
            assert(w[i] == ' ');
        }
    }
}

/// The attribute named before `term`, from `pos`, and the position after `term`.
fn attribute_until(r: &Reader, pos: usize, end: usize, term: &str) -> (res: Option<(Attribute, usize)>)
    requires
        r.wf(),
        pos <= end <= r.size(),
    ensures
        match res {
            Some((_, p)) => pos <= p <= end,
            None => true,
        },
        forall|attribute: Attribute| stops_after(attribute.spec_name(), term@)
            && pos + attribute.spec_name().len() + term@.len() <= end
            && r.text@.subrange(pos as int, pos + attribute.spec_name().len() + term@.len()) == #[trigger] (attribute.spec_name() + term@)
            ==> res == Some((attribute, (pos + attribute.spec_name().len() + term@.len()) as usize)),
{
    proof {
        assert forall|attribute: Attribute| stops_after(attribute.spec_name(), term@)
            && pos + attribute.spec_name().len() + term@.len() <= end
            && r.text@.subrange(pos as int, pos + attribute.spec_name().len() + term@.len()) == #[trigger] (attribute.spec_name() + term@)
            implies occurs_at(r.chars@, pos + attribute.spec_name().len(), term@)
            && forall|k: int| pos <= k < pos + attribute.spec_name().len() ==> !#[trigger] occurs_at(r.chars@, k, term@) by {
            lemma_stops_after(r.chars@, pos as int, attribute.spec_name(), term@);
        }
    }
    let (name, p) = match r.until(pos, end, term) {
        Some(x) => x,
        None => {
            proof {
                assert forall|attribute: Attribute| stops_after(attribute.spec_name(), term@)
                    && pos + attribute.spec_name().len() + term@.len() <= end
                    && r.text@.subrange(pos as int, pos + attribute.spec_name().len() + term@.len()) == #[trigger] (attribute.spec_name() + term@)
                    implies false by {
                    assert(occurs_at(r.chars@, pos + attribute.spec_name().len(), term@));
                }
            }
            return None;
        },
    };
    proof {
        assert forall|attribute: Attribute| stops_after(attribute.spec_name(), term@)
            && pos + attribute.spec_name().len() + term@.len() <= end
            && r.text@.subrange(pos as int, pos + attribute.spec_name().len() + term@.len()) == #[trigger] (attribute.spec_name() + term@)
            implies p == pos + attribute.spec_name().len() + term@.len() && name@ == attribute.spec_name()
            && Attribute::spec_parse(name@) == Some(attribute) by {
            let k = pos + attribute.spec_name().len();
            let l = term@.len();
            assert(occurs_at(r.chars@, k, term@));
            if p - l < k {
                assert(!occurs_at(r.chars@, p - l, term@));
            }
            if p - l > k {
                assert(!occurs_at(r.chars@, k, term@));
            }
            assert(name@ =~= attribute.spec_name());
            attribute.lemma_parse_name();
        }
    }
    match Attribute::from_str(name) {
        Ok(x) => Some((x, p)),
        Err(_) => None,
    }
}

/// The text of the final score of a game of the away team `ae` `an` at the
/// home team `he` `hn`.
pub open spec fn game_result_text(ae: Seq<char>, an: Seq<char>, he: Seq<char>, hn: Seq<char>, away_score: u8, home_score: u8) -> Seq<char> {
    ae + " "@ + an + " vs. "@ + he + " "@ + hn + " - FINAL "@ + score_text(away_score, home_score)
}

/// Whether the names of the teams in a final score can be told from what
/// follows them: each emoji is a word, " vs. " occurs after the away team only
/// where it ends, and " - FINAL " after the home team.
pub open spec fn game_result_names(ae: Seq<char>, an: Seq<char>, he: Seq<char>, hn: Seq<char>) -> bool {
    &&& no_space(ae)
    &&& no_space(he)
    &&& stops_after(ae + " "@ + an, " vs. "@)
    &&& stops_after(he + " "@ + hn, " - FINAL "@)
}

/// "{away} vs. {home} - FINAL {away score}-{home score}"
fn game_result<'a>(r: &Reader<'a>, event: &FeedEvent) -> (res: Option<ParsedFeedEventText<&'a str>>)
    requires
        r.wf(),
        r.text@ == event.text@,
    ensures
        read_feed_as(res, *event, FeedEventType::Game),
        forall|ae: Seq<char>, an: Seq<char>, he: Seq<char>, hn: Seq<char>, away_score: u8, home_score: u8|
            event.wf() && game_result_names(ae, an, he, hn)
            && r.text@ == #[trigger] game_result_text(ae, an, he, hn, away_score, home_score)
            ==> (res matches Some(ParsedFeedEventText::GameResult { home_team, away_team, home_score: h, away_score: a })
                && away_team.emoji@ == ae && away_team.name@ == an && home_team.emoji@ == he
                && home_team.name@ == hn && a == away_score && h == home_score),
        crate::text::lacks(r.text@, " vs. "@) ==> res is None,
{
    let n = r.len();
    proof {
        reveal_strlit(" vs. ");
        reveal_strlit(" - FINAL ");
        reveal_strlit(" ");
        assert forall|ae: Seq<char>, an: Seq<char>, he: Seq<char>, hn: Seq<char>, x: u8, y: u8|
            game_result_names(ae, an, he, hn) && r.text@ == #[trigger] game_result_text(ae, an, he, hn, x, y)
            implies r.team_then_at(0, n as int, ae, an, " vs. "@) by {
            let w = ae + " "@ + an;
            assert(r.text@.subrange(0, w.len() + 5int) =~= w + " vs. "@);
        }
    }
    let (away_team, p) = r.team_until(0, n, " vs. ")?;
    proof {
        reveal_strlit(" vs. ");
        let w = away_team.emoji@ + " "@ + away_team.name@;
        let pre = r.text@.subrange(0, p as int);
        assert(pre == away_team.emoji@ + " "@ + away_team.name@ + " vs. "@);
        assert(pre.len() == w.len() + 5);
        assert(p - 5 == w.len());
        assert((w + " vs. "@).subrange(w.len() as int, w.len() + 5int) =~= " vs. "@);
        assert(pre =~= w + " vs. "@);
        assert(r.chars@.subrange(p - 5, p as int) =~= pre.subrange(w.len() as int, w.len() + 5int));
        assert(occurs_at(r.chars@, p - 5, " vs. "@));
    }
    proof {
        assert forall|ae: Seq<char>, an: Seq<char>, he: Seq<char>, hn: Seq<char>, x: u8, y: u8|
            game_result_names(ae, an, he, hn) && p == (ae + " "@ + an).len() + 5
            && r.text@ == #[trigger] game_result_text(ae, an, he, hn, x, y)
            implies r.team_then_at(p as int, n as int, he, hn, " - FINAL "@) by {
            let w = he + " "@ + hn;
            assert(r.text@.subrange(p as int, p + w.len() + 9) =~= w + " - FINAL "@);
        }
    }
    let (home_team, q) = r.team_until(p, n, " - FINAL ")?;
    proof {
        assert forall|ae: Seq<char>, an: Seq<char>, he: Seq<char>, hn: Seq<char>, x: u8, y: u8|
            game_result_names(ae, an, he, hn) && p == (ae + " "@ + an).len() + 5
            && q == p + (he + " "@ + hn).len() + 9
            && r.text@ == #[trigger] game_result_text(ae, an, he, hn, x, y)
            implies r.chars@.subrange(q as int, n as int) == score_text(x, y) by {
            assert(r.chars@.subrange(q as int, n as int) =~= score_text(x, y));
        }
    }
    let (away_score, home_score) = r.score(q, n)?;
    let m = ParsedFeedEventText::GameResult { home_team, away_team, home_score, away_score };
    proof {
        assert forall|ae: Seq<char>, an: Seq<char>, he: Seq<char>, hn: Seq<char>, x: u8, y: u8|
            event.wf() && game_result_names(ae, an, he, hn) && away_team.emoji@ == ae && away_team.name@ == an
            && home_team.emoji@ == he && home_team.name@ == hn
            && p == (ae + " "@ + an).len() + 5 && q == p + (he + " "@ + hn).len() + 9
            && r.text@ == #[trigger] game_result_text(ae, an, he, hn, x, y)
            implies away_score == x && home_score == y && writes_feed(m, *event) by {
            assert(r.chars@.subrange(q as int, n as int) == score_text(x, y));
            assert(away_score == x && home_score == y);
            assert(m.spec_unparse(*event, FeedEventSource::Player) =~= r.text@);
        }
    }
    accept(m, event)
}

/// "{player} received a {item} {label}.", then perhaps the item they discarded.
#[verifier::spinoff_prover]
#[verifier::rlimit(100)]
fn delivery_with<'a>(r: &Reader<'a>, label: &str) -> (res: Option<FeedDelivery<&'a str>>)
    requires
        r.wf(),
    ensures
        res matches Some(d) ==> d.spec_text(label@) == r.text@,
        forall|pl: Seq<char>, em: Seq<char>, it: ItemName| label@ == "Delivery"@ && stops_after(pl, " received a "@) && no_space(em)
            && r.text@ == #[trigger] delivery_text(pl, em, it)
            ==> (res matches Some(d) && d.player@ == pl && d.item.item_emoji@ == em && d.item.item == it
                && d.item.affixes is NoAffixes && d.discarded is None),
        crate::text::lacks(r.text@, " received a "@) ==> res is None,
{
    proof {
        reveal_strlit(" ");
        reveal_strlit(".");
        reveal_strlit(" received a ");
        assert forall|pl: Seq<char>, em: Seq<char>, it: ItemName| label@ == "Delivery"@ && stops_after(pl, " received a "@) && no_space(em)
            && r.text@ == #[trigger] delivery_text(pl, em, it)
            implies r.text@.subrange(0, pl.len() + 12int) == pl + " received a "@ by {
            lemma_delivery_parts(r.text@, pl, em, it);
        }
    }
    let n = r.len();
    let (player, p) = r.until(0, n, " received a ")?;
    proof {
        assert forall|pl: Seq<char>, em: Seq<char>, it: ItemName| label@ == "Delivery"@ && stops_after(pl, " received a "@) && no_space(em)
            && r.text@ == #[trigger] delivery_text(pl, em, it)
            implies p == pl.len() + 12 && occurs_at(r.chars@, p + em.len(), " "@)
            && (forall|k: int| p <= k < p + em.len() ==> !#[trigger] occurs_at(r.chars@, k, " "@)) by {
            lemma_delivery_parts(r.text@, pl, em, it);
        }
    }
    let q = r.find(p, n, " ")?;
    proof {
        assert forall|pl: Seq<char>, em: Seq<char>, it: ItemName| label@ == "Delivery"@ && stops_after(pl, " received a "@) && no_space(em)
            && r.text@ == #[trigger] delivery_text(pl, em, it)
            implies ({
                let l = q + 1 + it.spec_name().len() + 1;
                &&& q == p + em.len()
                &&& occurs_at(r.chars@, l, label@) && l + 8 <= n
                &&& (forall|k: int| q <= k < l ==> !#[trigger] occurs_at(r.chars@, k, label@))
            }) by {
            lemma_delivery_parts(r.text@, pl, em, it);
            let k0 = p + em.len();
            if q < k0 {
                assert(!occurs_at(r.chars@, q as int, " "@));
            }
            if q > k0 {
                assert(!occurs_at(r.chars@, k0, " "@));
            }
        }
    }
    let q = r.find(q, n, label)?;
    proof {
        assert forall|pl: Seq<char>, em: Seq<char>, it: ItemName| label@ == "Delivery"@ && stops_after(pl, " received a "@) && no_space(em)
            && r.text@ == #[trigger] delivery_text(pl, em, it)
            implies q == pl.len() + 12 + em.len() + 1 + it.spec_name().len() + 1 && r.chars@.subrange(q - 1, q as int) == " "@
            && r.text@.subrange(p as int, q - 1) == em + " "@ + it.spec_name()
            && q + 9 == n && r.chars@.subrange(q + 8, q + 9) == "."@ by {
            lemma_delivery_parts(r.text@, pl, em, it);
            let l = pl.len() + 12int + em.len() + 1 + it.spec_name().len() + 1;
            if q < l {
                assert(!occurs_at(r.chars@, q as int, label@));
            }
            if q > l {
                assert(!occurs_at(r.chars@, l, label@));
            }
        }
    }
    if q == p || !r.is(q - 1, q, " ") {
        return None;
    }
    let item = item_at(r, p, q - 1)?;
    let e = r.lit(q, n, label)?;
    proof {
        reveal_strlit("Delivery");
        assert forall|pl: Seq<char>, em: Seq<char>, it: ItemName| label@ == "Delivery"@ && stops_after(pl, " received a "@) && no_space(em)
            && r.text@ == #[trigger] delivery_text(pl, em, it)
            implies e == q + 8 && e + 1 == n && r.chars@.subrange(e as int, e + 1) == "."@ by {
            lemma_delivery_parts(r.text@, pl, em, it);
        }
    }
    let e = r.lit(e, n, ".")?;
    let ghost head = player@ + " received a "@ + item.spec_text() + " "@ + label@ + "."@;
    proof {
        let c = r.chars@;
        assert(c.subrange(0, e as int) =~= c.subrange(0, p - 12) + c.subrange(p - 12, p as int) + c.subrange(p as int, q - 1)
            + c.subrange(q - 1, q as int) + c.subrange(q as int, e - 1) + c.subrange(e - 1, e as int));
        assert(r.text@.subrange(0, e as int) =~= head);
    }
    let discarded = if e == n {
        proof {
            assert(r.text@ =~= r.text@.subrange(0, e as int));
        }
        None
    } else {
        let a = r.lit(e, n, " They discarded their ")?;
        if n == a || !r.is(n - 1, n, ".") {
            return None;
        }
        let d = item_at(r, a, n - 1)?;
        proof {
            let c = r.chars@;
            assert(c =~= c.subrange(0, e as int) + c.subrange(e as int, a as int) + c.subrange(a as int, n - 1)
                + c.subrange(n - 1, n as int));
            assert(r.text@ =~= head + " They discarded their "@ + d.spec_text() + "."@);
        }
        Some(d)
    };
    let d = FeedDelivery { player, item, discarded };
    proof {
        assert(d.spec_text(label@) =~= r.text@);
    }
    Some(d)
}

/// "{player} received a {emoji} {item} Delivery."
pub open spec fn delivery_text(player: Seq<char>, emoji: Seq<char>, item: ItemName) -> Seq<char> {
    player + " received a "@ + emoji + " "@ + item.spec_name() + " Delivery."@
}

/// Where the parts of a delivery of a plain item stand.
proof fn lemma_delivery_parts(text: Seq<char>, player: Seq<char>, emoji: Seq<char>, item: ItemName)
    requires
        no_space(emoji),
        text == delivery_text(player, emoji, item),
    ensures
        ({
            let p = player.len() + 12int;
            let q = p + emoji.len();
            let l = q + 1 + item.spec_name().len() + 1;
            &&& text.subrange(0, p) == player + " received a "@
            &&& occurs_at(text, q, " "@)
            &&& (forall|k: int| p <= k < q ==> !#[trigger] occurs_at(text, k, " "@))
            &&& occurs_at(text, l, "Delivery"@) && l + 9 == text.len()
            &&& (forall|k: int| q <= k < l ==> !#[trigger] occurs_at(text, k, "Delivery"@))
            &&& text.subrange(l - 1, l) == " "@
            &&& text.subrange(p, l - 1) == emoji + " "@ + item.spec_name()
            &&& text.subrange(l + 8, l + 9) == "."@
        }),
{
    reveal_strlit(" ");
    reveal_strlit(".");
    reveal_strlit(" received a ");
    reveal_strlit(" Delivery.");
    reveal_strlit("Delivery");
    let p = player.len() + 12int;
    let q = p + emoji.len();
    let w = item.spec_name();
    let l = q + 1 + w.len() + 1;
    let t = text;
    assert(t =~= (player + " received a "@) + (emoji + " "@) + w + " "@ + "Delivery"@ + "."@);
    assert(t.subrange(0, p) =~= player + " received a "@);
    assert(t.subrange(p, q + 1) =~= emoji + " "@);
    crate::reader::lemma_word_stops(emoji, " "@);
    lemma_stops_after(t, p, emoji, " "@);
    assert(t.subrange(l, l + 8) =~= "Delivery"@);
    assert(t.subrange(l - 1, l) =~= " "@);
    assert(t.subrange(p, l - 1) =~= emoji + " "@ + w);
    assert(t.subrange(l + 8, l + 9) =~= "."@);
    item.lemma_name_no_capital_d();
    assert forall|k: int| q <= k < l implies !#[trigger] occurs_at(t, k, "Delivery"@) by {
        if occurs_at(t, k, "Delivery"@) {
            assert(t.subrange(k, k + 8)[0] == t[k]);
            if q < k < l - 1 {
                assert(t[k] == w[k - q - 1]);
            }
        }
    }
}

/// A delivery, a shipment or a special delivery.
fn delivery<'a>(r: &Reader<'a>, event: &FeedEvent) -> (res: Option<ParsedFeedEventText<&'a str>>)
    requires
        r.wf(),
        r.text@ == event.text@,
    ensures
        read_feed_as(res, *event, FeedEventType::Game),
        forall|pl: Seq<char>, em: Seq<char>, it: ItemName| event.wf() && stops_after(pl, " received a "@) && no_space(em)
            && r.text@ == #[trigger] delivery_text(pl, em, it)
            ==> (res matches Some(ParsedFeedEventText::Delivery { delivery }) && delivery.player@ == pl
                && delivery.item.item_emoji@ == em && delivery.item.item == it && delivery.item.affixes is NoAffixes
                && delivery.discarded is None),
        crate::text::lacks(r.text@, " received a "@) ==> res is None,
{
    if let Some(delivery) = delivery_with(r, "Delivery") {
        if let Some(m) = accept(ParsedFeedEventText::Delivery { delivery }, event) {
            return Some(m);
        }
    }
    if let Some(delivery) = delivery_with(r, "Shipment") {
        if let Some(m) = accept(ParsedFeedEventText::Shipment { delivery }, event) {
            return Some(m);
        }
    }
    let delivery = delivery_with(r, "Special Delivery")?;
    accept(ParsedFeedEventText::SpecialDelivery { delivery }, event)
}

/// "{team} are Prosperous! They earned {income} 🪙."
#[verifier::spinoff_prover]
#[verifier::rlimit(40)]
fn prosperous<'a>(r: &Reader<'a>, event: &FeedEvent) -> (res: Option<ParsedFeedEventText<&'a str>>)
    requires
        r.wf(),
        r.text@ == event.text@,
    ensures
        read_feed_as(res, *event, FeedEventType::Game),
        forall|emoji: Seq<char>, name: Seq<char>, income: u8| event.wf() && no_space(emoji)
            && stops_after(emoji + " "@ + name, " are Prosperous! They earned "@)
            && r.text@ == #[trigger] prosperous_text(emoji, name, income)
            ==> (res matches Some(ParsedFeedEventText::Prosperous { team, income: i })
                && team.emoji@ == emoji && team.name@ == name && i == income),
        crate::text::lacks(r.text@, " are Prosperous! They earned "@) ==> res is None,
{
    let n = r.len();
    let ghost sep = " are Prosperous! They earned "@;
    proof {
        reveal_strlit(" 🪙.");
        reveal_strlit(" ");
        assert forall|emoji: Seq<char>, name: Seq<char>, income: u8| no_space(emoji)
            && stops_after(emoji + " "@ + name, sep) && r.text@ == #[trigger] prosperous_text(emoji, name, income)
            implies occurs_at(r.chars@, (emoji + " "@ + name).len() as int, sep)
            && (forall|k: int| 0 <= k < (emoji + " "@ + name).len() ==> !#[trigger] occurs_at(r.chars@, k, sep)) by {
            let w = emoji + " "@ + name;
            assert(r.chars@.subrange(0, w.len() + sep.len() as int) =~= w + sep);
            lemma_stops_after(r.chars@, 0, w, sep);
        }
    }
    let q = r.find(0, n, " are Prosperous! They earned ")?;
    proof {
        assert forall|emoji: Seq<char>, name: Seq<char>, income: u8| no_space(emoji)
            && stops_after(emoji + " "@ + name, sep) && r.text@ == #[trigger] prosperous_text(emoji, name, income)
            implies q == (emoji + " "@ + name).len() && r.text@.subrange(0, q as int) == emoji + " "@ + name
            && !no_space(r.text@.subrange(0, q as int)) by {
            let k = (emoji + " "@ + name).len() as int;
            assert(occurs_at(r.chars@, k, sep));
            if q < k {
                assert(!occurs_at(r.chars@, q as int, sep));
            }
            if q > k {
                assert(!occurs_at(r.chars@, k, sep));
            }
            assert(r.text@.subrange(0, q as int) =~= emoji + " "@ + name);
            assert(r.text@.subrange(0, q as int)[emoji.len() as int] == ' ');
        }
    }
    let team = r.emoji_team(0, q)?;
    let p = r.lit(q, n, " are Prosperous! They earned ")?;
    proof {
        assert forall|emoji: Seq<char>, name: Seq<char>, income: u8| no_space(emoji)
            && stops_after(emoji + " "@ + name, sep) && r.text@ == #[trigger] prosperous_text(emoji, name, income)
            implies team.emoji@ == emoji && team.name@ == name
            && spec_leading_unsigned(r.chars@.subrange(p as int, n as int), 255) == Some(income as nat) by {
            crate::reader::lemma_first_space_split(team.emoji@, team.name@, emoji, name);
            assert(r.chars@.subrange(p as int, n as int) =~= dec(income as nat) + " 🪙."@);
            crate::text::lemma_leading_dec(income, " 🪙."@);
        }
    }
    let (income, _) = r.number(p, n)?;
    let m = ParsedFeedEventText::Prosperous { team, income };
    proof {
        assert forall|emoji: Seq<char>, name: Seq<char>, i: u8| event.wf() && no_space(emoji)
            && stops_after(emoji + " "@ + name, sep) && r.text@ == #[trigger] prosperous_text(emoji, name, i)
            implies writes_feed(m, *event) by {
            assert(income == i);
            assert(m.spec_unparse(*event, FeedEventSource::Player) =~= r.text@);
        }
    }
    accept(m, event)
}

/// The text of the team `emoji` `name` earning `income` by prosperity.
pub open spec fn prosperous_text(emoji: Seq<char>, name: Seq<char>, income: u8) -> Seq<char> {
    emoji + " "@ + name + " are Prosperous! They earned "@ + dec(income as nat) + " 🪙."@
}

/// "😇 {player} retired from MMOLB!", then perhaps who was called up.
#[verifier::spinoff_prover]
#[verifier::rlimit(40)]
fn retirement<'a>(r: &Reader<'a>, event: &FeedEvent) -> (res: Option<ParsedFeedEventText<&'a str>>)
    requires
        r.wf(),
        r.text@ == event.text@,
    ensures
        read_feed_as(res, *event, FeedEventType::Game),
        forall|prev: Seq<char>| event.wf() && stops_after(prev, " retired from MMOLB!"@)
            && r.text@ == #[trigger] retirement_text(prev)
            ==> (res matches Some(ParsedFeedEventText::Retirement { previous, new }) && previous@ == prev && new is None),
        forall|prev: Seq<char>, called: Seq<char>| event.wf() && stops_after(prev, " retired from MMOLB!"@)
            && stops_after(called, " was called up to take their place."@)
            && r.text@ == #[trigger] (retirement_text(prev) + " "@ + called + " was called up to take their place."@)
            ==> (res matches Some(ParsedFeedEventText::Retirement { previous, new: Some(nw) }) && previous@ == prev
                && nw@ == called),
        !crate::parsing::begins_with(r.text@, "😇 "@) ==> res is None,
{
    let n = r.len();
    let ghost sep = " retired from MMOLB!"@;
    let ghost call = " was called up to take their place."@;
    proof {
        reveal_strlit("😇 ");
        reveal_strlit(" ");
        assert forall|prev: Seq<char>, rest: Seq<char>| r.text@ == #[trigger] (retirement_text(prev) + rest)
            implies r.chars@.subrange(0, 2) == "😇 "@
            && r.text@.subrange(2, 2 + prev.len() + sep.len() as int) == prev + sep
            && r.text@.subrange(2 + prev.len() + sep.len() as int, n as int) == rest by {
            assert(r.chars@.subrange(0, 2) =~= "😇 "@);
            assert(r.text@.subrange(2, 2 + prev.len() + sep.len() as int) =~= prev + sep);
            assert(r.text@.subrange(2 + prev.len() + sep.len() as int, n as int) =~= rest);
        }
        assert forall|prev: Seq<char>| r.text@ == #[trigger] retirement_text(prev)
            implies r.text@ == retirement_text(prev) + Seq::<char>::empty() by {
            assert(retirement_text(prev) =~= retirement_text(prev) + Seq::<char>::empty());
        }
        assert forall|prev: Seq<char>, called: Seq<char>|
            r.text@ == #[trigger] (retirement_text(prev) + " "@ + called + call)
            implies r.text@ == retirement_text(prev) + (" "@ + called + call) by {
            assert(retirement_text(prev) + " "@ + called + call =~= retirement_text(prev) + (" "@ + called + call));
        }
    }
    let p = r.lit(0, n, "😇 ")?;
    let (previous, p) = r.until(p, n, " retired from MMOLB!")?;
    let new = if p == n {
        None
    } else {
        proof {
            assert forall|called: Seq<char>| r.text@.subrange(p as int, n as int) == #[trigger] (" "@ + called + call)
                implies r.chars@.subrange(p as int, p + 1) == " "@ by {
                let t = r.text@.subrange(p as int, n as int);
                assert(r.chars@.subrange(p as int, p + 1) =~= t.subrange(0, 1));
                assert(t.subrange(0, 1) =~= " "@);
            }
        }
        let a = r.lit(p, n, " ")?;
        proof {
            assert forall|called: Seq<char>| r.text@.subrange(p as int, n as int) == #[trigger] (" "@ + called + call)
                implies r.text@.subrange(a as int, a + called.len() + call.len() as int) == called + call by {
                let t = r.text@.subrange(p as int, n as int);
                assert(t.len() == 1 + called.len() + call.len());
                assert(r.text@.subrange(a as int, a + called.len() + call.len() as int) =~= t.subrange(1, t.len() as int));
                assert(t.subrange(1, t.len() as int) =~= called + call);
            }
        }
        let (new, _) = r.until(a, n, " was called up to take their place.")?;
        Some(new)
    };
    let m = ParsedFeedEventText::Retirement { previous, new };
    proof {
        assert forall|prev: Seq<char>| event.wf() && stops_after(prev, sep) && r.text@ == #[trigger] retirement_text(prev)
            implies writes_feed(m, *event) by {
            assert(r.text@.subrange(2 + prev.len() + sep.len() as int, n as int) == Seq::<char>::empty());
            assert(m.spec_unparse(*event, FeedEventSource::Player) =~= r.text@);
        }
        assert forall|prev: Seq<char>, called: Seq<char>| event.wf() && stops_after(prev, sep) && stops_after(called, call)
            && r.text@ == #[trigger] (retirement_text(prev) + " "@ + called + call)
            implies writes_feed(m, *event) by {
            assert(r.text@.subrange(2 + prev.len() + sep.len() as int, n as int) == " "@ + called + call);
            assert(m.spec_unparse(*event, FeedEventSource::Player) =~= r.text@);
        }
    }
    accept(m, event)
}

/// The text of the retirement of `prev`, before who was called up.
pub open spec fn retirement_text(prev: Seq<char>) -> Seq<char> {
    "😇 "@ + prev + " retired from MMOLB!"@
}

/// A player hit by a falling star.
fn injured_by_falling_star<'a>(r: &Reader<'a>, event: &FeedEvent) -> (res: Option<ParsedFeedEventText<&'a str>>)
    requires
        r.wf(),
        r.text@ == event.text@,
    ensures
        read_feed_as(res, *event, FeedEventType::Game),
        forall|name: Seq<char>| event.wf() && #[trigger] stops_after(name, injury_words(*event))
            && r.text@ == name + injury_words(*event)
            ==> (res matches Some(ParsedFeedEventText::InjuredByFallingStar { player }) && player@ == name),
{
    if !event_is_wf(event) {
        return None;
    }
    let n = r.len();
    proof {
        assert forall|name: Seq<char>| r.text@ == name + injury_words(*event)
            implies #[trigger] r.text@.subrange(0, name.len() + injury_words(*event).len() as int) == name + injury_words(*event) by {
            assert(r.text@.subrange(0, name.len() + injury_words(*event).len() as int) =~= name + injury_words(*event));
        }
    }
    let (player, _) = if event.after(Breakpoints::EternalBattle) {
        r.until(0, n, " was injured by the extreme force of the impact!")?
    } else {
        r.until(0, n, " was hit by a Falling Star!")?
    };
    let m = ParsedFeedEventText::InjuredByFallingStar { player };
    proof {
        assert forall|name: Seq<char>| event.wf() && #[trigger] stops_after(name, injury_words(*event))
            && r.text@ == name + injury_words(*event) implies writes_feed(m, *event) by {
            assert(r.text@.subrange(0, name.len() + injury_words(*event).len() as int) == name + injury_words(*event));
            assert(m.spec_unparse(*event, FeedEventSource::Player) =~= r.text@);
        }
    }
    accept(m, event)
}

/// What follows the name of a player injured by a falling star, as written at
/// the time of `event`.
pub open spec fn injury_words(event: FeedEvent) -> Seq<char> {
    if event.spec_after(Breakpoints::EternalBattle) {
        " was injured by the extreme force of the impact!"@
    } else {
        " was hit by a Falling Star!"@
    }
}

/// "{player} {infusion}", a player infused by a falling star.
fn infused_by_falling_star<'a>(r: &Reader<'a>, event: &FeedEvent) -> (res: Option<ParsedFeedEventText<&'a str>>)
    requires
        r.wf(),
        r.text@ == event.text@,
    ensures
        read_feed_as(res, *event, FeedEventType::Game),
        forall|player: Seq<char>, tier: CelestialEnergyTier| event.wf() && r.text@ == #[trigger] (player + " "@ + tier.spec_name())
            ==> (res matches Some(ParsedFeedEventText::InfusedByFallingStar { player: pl, infusion_tier })
                && pl@ == player && infusion_tier == tier),
{
    let n = r.len();
    proof {
        reveal_strlit(" ");
        assert forall|player: Seq<char>, tier: CelestialEnergyTier| r.text@ == #[trigger] (player + " "@ + tier.spec_name())
            implies occurs_at(r.chars@, player.len() as int, " "@) && player.len() + 1 <= n by {
            assert(r.chars@.subrange(player.len() as int, player.len() + 1int) =~= " "@);
        }
    }
    let sp = r.find(0, n, " ")?;
    let mut p = sp;
    loop
        invariant
            r.wf(),
            r.text@ == event.text@,
            p <= n == r.size(),
            p + 1 <= n && occurs_at(r.chars@, p as int, " "@),
            forall|player: Seq<char>, tier: CelestialEnergyTier| r.text@ == #[trigger] (player + " "@ + tier.spec_name())
                ==> p <= player.len(),
        decreases n - p,
    {
        proof {
            reveal_strlit(" ");
        }
        let a = r.lit(p, n, " ")?;
        if let Ok(infusion_tier) = CelestialEnergyTier::from_str(r.slice(a, n)) {
            let m = ParsedFeedEventText::InfusedByFallingStar { player: r.slice(0, p), infusion_tier };
            proof {
                assert forall|player: Seq<char>, tier: CelestialEnergyTier| event.wf() && r.text@ == #[trigger] (player + " "@ + tier.spec_name())
                    implies p == player.len() && infusion_tier == tier && writes_feed(m, *event) by {
                    let t = r.text@;
                    if p < player.len() {
                        let x = player.subrange(p + 1, player.len() as int);
                        assert(t.subrange(a as int, n as int) =~= x + " "@ + tier.spec_name());
                        lemma_tier_after_space(infusion_tier, tier, x);
                    }
                    assert(t.subrange(a as int, n as int) =~= tier.spec_name());
                    tier.lemma_parse_name();
                    assert(t.subrange(0, p as int) =~= player);
                    assert(m.spec_unparse(*event, FeedEventSource::Player) =~= r.text@);
                }
            }
            return accept(m, event);
        }
        proof {
            assert forall|player: Seq<char>, tier: CelestialEnergyTier| r.text@ == #[trigger] (player + " "@ + tier.spec_name())
                implies p < player.len() && occurs_at(r.chars@, player.len() as int, " "@) by {
                if p == player.len() {
                    assert(r.text@.subrange(a as int, n as int) =~= tier.spec_name());
                    tier.lemma_parse_name();
                }
                assert(r.chars@.subrange(player.len() as int, player.len() + 1int) =~= " "@);
            }
        }
        p = r.find(a, n, " ")?;
    }
}

/// No way of writing an infusion ends with a space and another way of writing one.
proof fn lemma_tier_after_space(t1: CelestialEnergyTier, t2: CelestialEnergyTier, x: Seq<char>)
    ensures
        x + " "@ + t2.spec_name() != t1.spec_name(),
{
    reveal_strlit(" ");
    reveal_strlit("began to glow brightly with celestial energy!");
    reveal_strlit("was infused with a glimmer of celestial energy!");
    reveal_strlit("was fully charged with an abundance of celestial energy!");
    let s = x + " "@ + t2.spec_name();
    if s == t1.spec_name() {
        assert(s[x.len() as int] == ' ');
        assert(t1.spec_name()[x.len() as int] == ' ');
        match (t1, t2) {
            (CelestialEnergyTier::Infused, CelestialEnergyTier::BeganToGlow) => { assert(x.len() == 1); }
            (CelestialEnergyTier::FullyCharged, CelestialEnergyTier::BeganToGlow) => { assert(t1.spec_name().len() == 56); assert(t2.spec_name().len() == 45); assert(x.len() == 10); }
            (CelestialEnergyTier::FullyCharged, CelestialEnergyTier::Infused) => { assert(x.len() == 8); }
            _ => {}
        }
    }
}

/// The text of a feed event about a game.
fn game_feed_event<'a>(r: &Reader<'a>, event: &FeedEvent) -> (res: Option<ParsedFeedEventText<&'a str>>)
    requires
        r.wf(),
        r.text@ == event.text@,
    ensures
        read_feed_as(res, *event, FeedEventType::Game),
        game_text_form(*event) ==> res is Some,
        forall|ae: Seq<char>, an: Seq<char>, he: Seq<char>, hn: Seq<char>, away_score: u8, home_score: u8|
            event.wf() && game_result_names(ae, an, he, hn)
            && r.text@ == #[trigger] game_result_text(ae, an, he, hn, away_score, home_score)
            ==> (res matches Some(ParsedFeedEventText::GameResult { home_team, away_team, home_score: h, away_score: a })
                && away_team.emoji@ == ae && away_team.name@ == an && home_team.emoji@ == he
                && home_team.name@ == hn && a == away_score && h == home_score),
        forall|pl: Seq<char>, em: Seq<char>, it: ItemName| event.wf() && stops_after(pl, " received a "@) && no_space(em)
            && crate::text::lacks(r.text@, " vs. "@)
            && r.text@ == #[trigger] delivery_text(pl, em, it)
            ==> (res matches Some(ParsedFeedEventText::Delivery { delivery }) && delivery.player@ == pl
                && delivery.item.item_emoji@ == em && delivery.item.item == it && delivery.item.affixes is NoAffixes
                && delivery.discarded is None),
        forall|emoji: Seq<char>, name: Seq<char>, income: u8| event.wf() && no_space(emoji)
            && stops_after(emoji + " "@ + name, " are Prosperous! They earned "@)
            && crate::text::lacks(r.text@, " vs. "@) && crate::text::lacks(r.text@, " received a "@)
            && r.text@ == #[trigger] prosperous_text(emoji, name, income)
            ==> (res matches Some(ParsedFeedEventText::Prosperous { team, income: i })
                && team.emoji@ == emoji && team.name@ == name && i == income),
        forall|prev: Seq<char>| event.wf() && stops_after(prev, " retired from MMOLB!"@)
            && crate::text::lacks(r.text@, " vs. "@) && crate::text::lacks(r.text@, " received a "@)
            && crate::text::lacks(r.text@, " are Prosperous! They earned "@)
            && r.text@ == #[trigger] retirement_text(prev)
            ==> (res matches Some(ParsedFeedEventText::Retirement { previous, new }) && previous@ == prev && new is None),
        forall|prev: Seq<char>, called: Seq<char>| event.wf() && stops_after(prev, " retired from MMOLB!"@)
            && stops_after(called, " was called up to take their place."@)
            && crate::text::lacks(r.text@, " vs. "@) && crate::text::lacks(r.text@, " received a "@)
            && crate::text::lacks(r.text@, " are Prosperous! They earned "@)
            && r.text@ == #[trigger] (retirement_text(prev) + " "@ + called + " was called up to take their place."@)
            ==> (res matches Some(ParsedFeedEventText::Retirement { previous, new: Some(nw) }) && previous@ == prev
                && nw@ == called),
{
    if let Some(m) = game_result(r, event) {
        return Some(m);
    }
    if let Some(m) = delivery(r, event) {
        return Some(m);
    }
    if let Some(m) = prosperous(r, event) {
        return Some(m);
    }
    if let Some(m) = retirement(r, event) {
        return Some(m);
    }
    if let Some(m) = injured_by_falling_star(r, event) {
        return Some(m);
    }
    infused_by_falling_star(r, event)
}

/// The text of `player` gaining `amount` in `attribute`.
pub open spec fn gain_text(player: Seq<char>, amount: i16, attribute: Attribute) -> Seq<char> {
    player + " gained +"@ + signed_dec(amount as int) + " "@ + attribute.spec_name() + "."@
}

/// Whether `text` tells of `player` gaining `amount` in `attribute`, and
/// " gained +" occurs in it only after the player's name.
pub open spec fn gain_form(text: Seq<char>, player: Seq<char>, amount: i16, attribute: Attribute) -> bool {
    stops_after(player, " gained +"@) && text == gain_text(player, amount, attribute)
}

/// A number "{amount}" or "-{amount}" that fits an `i16` at `pos`, and the
/// position after it.
fn signed_at(r: &Reader, pos: usize, end: usize) -> (res: Option<(i16, usize)>)
    requires
        r.wf(),
        pos <= end <= r.size(),
    ensures
        res matches Some((_, e)) ==> pos <= e <= end,
        forall|amount: i16, rest: Seq<char>| rest.len() > 0 && !is_digit(rest[0])
            && r.chars@.subrange(pos as int, end as int) == #[trigger] (signed_dec(amount as int) + rest)
            ==> res == Some((amount, (pos + signed_dec(amount as int).len()) as usize)),
{
    proof {
        reveal_strlit("-");
        assert forall|amount: i16, rest: Seq<char>| rest.len() > 0 && !is_digit(rest[0])
            && r.chars@.subrange(pos as int, end as int) == #[trigger] (signed_dec(amount as int) + rest)
            implies (amount < 0 <==> (pos + 1 <= end && r.chars@.subrange(pos as int, pos + 1) == "-"@)) by {
            let t = r.chars@.subrange(pos as int, end as int);
            if amount < 0 {
                assert(t =~= "-"@ + (dec(abs_amount(amount)) + rest));
                assert(r.chars@.subrange(pos as int, pos + 1) =~= "-"@);
            } else {
                crate::text::lemma_leading_dec_upto(abs_amount(amount), rest, 32767);
                assert(t =~= dec(abs_amount(amount)) + rest);
                assert(t[0] == dec(abs_amount(amount))[0]);
                if pos + 1 <= end && r.chars@.subrange(pos as int, pos + 1) == "-"@ {
                    assert(r.chars@.subrange(pos as int, pos + 1)[0] == t[0]);
                }
            }
        }
    }
    let (negative, a) = match r.lit(pos, end, "-") {
        Some(b) => (true, b),
        None => (false, pos),
    };
    proof {
        assert forall|amount: i16, rest: Seq<char>| rest.len() > 0 && !is_digit(rest[0])
            && r.chars@.subrange(pos as int, end as int) == #[trigger] (signed_dec(amount as int) + rest)
            implies negative == (amount < 0)
            && r.chars@.subrange(a as int, end as int) == dec(abs_amount(amount)) + rest
            && spec_leading_unsigned(r.chars@.subrange(a as int, end as int), if negative { 32768nat } else { 32767nat })
                == Some(abs_amount(amount))
            && digit_run(r.chars@.subrange(a as int, end as int)) == dec(abs_amount(amount)).len() by {
            let t = r.chars@.subrange(pos as int, end as int);
            if amount < 0 {
                assert(t =~= "-"@ + (dec(abs_amount(amount)) + rest));
                assert(r.chars@.subrange(a as int, end as int) =~= t.subrange(1, t.len() as int));
                assert(t.subrange(1, t.len() as int) =~= dec(abs_amount(amount)) + rest);
                crate::text::lemma_leading_dec_upto(abs_amount(amount), rest, 32768);
            } else {
                assert(r.chars@.subrange(a as int, end as int) =~= dec(abs_amount(amount)) + rest);
                crate::text::lemma_leading_dec_upto(abs_amount(amount), rest, 32767);
            }
        }
    }
    let (value, e) = match crate::text::leading_unsigned(&r.chars, a, end, if negative { 32768 } else { 32767 }) {
        Some(x) => x,
        None => return None,
    };
    let amount: i16 = if negative {
        if value == 32768 { i16::MIN } else { -(value as i16) }
    } else {
        value as i16
    };
    Some((amount, e))
}

/// The written form of an attribute, followed by a full stop, holds a full
/// stop only at its end.
proof fn lemma_attribute_stops_at_period(attribute: Attribute)
    ensures
        stops_after(attribute.spec_name(), "."@),
{
    reveal_strlit(".");
    attribute.lemma_name_is_word();
    assert forall|i: int| 0 <= i < attribute.spec_name().len()
        implies !#[trigger] occurs_at(attribute.spec_name() + "."@, i, "."@) by {
        if occurs_at(attribute.spec_name() + "."@, i, "."@) {
            assert((attribute.spec_name() + "."@).subrange(i, i + 1)[0] == attribute.spec_name()[i]);
        }
    }
}

/// One change "{player} gained +{amount} {attribute}." at `pos`, and the
/// position after it.
#[verifier::spinoff_prover]
#[verifier::rlimit(40)]
fn gain_at<'a>(r: &Reader<'a>, pos: usize) -> (res: Option<(AttributeChange<&'a str>, usize)>)
    requires
        r.wf(),
        pos <= r.size(),
    ensures
        res matches Some((_, e)) ==> pos <= e <= r.size(),
        forall|player: Seq<char>, amount: i16, attribute: Attribute|
            pos == 0 && #[trigger] gain_form(r.text@, player, amount, attribute)
            ==> (res matches Some((c, e)) && e == r.size() && c.player_name@ == player && c.amount == amount
                && c.attribute == attribute),
        crate::text::lacks(r.text@, " gained +"@) ==> res is None,
{
    let n = r.len();
    proof {
        reveal_strlit(" gained +");
        reveal_strlit("-");
        reveal_strlit(" ");
        reveal_strlit(".");
    }
    proof {
        assert forall|player: Seq<char>, amount: i16, attribute: Attribute| pos == 0 && #[trigger] gain_form(r.text@, player, amount, attribute)
            implies occurs_at(r.chars@, player.len() as int, " gained +"@)
            && (forall|k: int| 0 <= k < player.len() ==> !#[trigger] occurs_at(r.chars@, k, " gained +"@))
            && player.len() + 9 <= n by {
            assert(r.chars@.subrange(0, player.len() + 9int) =~= player + " gained +"@);
            lemma_stops_after(r.chars@, 0, player, " gained +"@);
        }
    }
    let (player_name, a) = match r.until(pos, n, " gained +") {
        Some(x) => x,
        None => {
            proof {
                assert forall|player: Seq<char>, amount: i16, attribute: Attribute| pos == 0 && #[trigger] gain_form(r.text@, player, amount, attribute)
                    implies false by {
                    assert(occurs_at(r.chars@, player.len() as int, " gained +"@));
                }
            }
            return None;
        },
    };
    proof {
        assert forall|player: Seq<char>, amount: i16, attribute: Attribute| pos == 0 && #[trigger] gain_form(r.text@, player, amount, attribute)
            implies a == player.len() + 9 && player_name@ == player
            && r.chars@.subrange(a as int, n as int) == signed_dec(amount as int) + " "@ + attribute.spec_name() + "."@ by {
            let k = player.len() as int;
            assert(occurs_at(r.chars@, k, " gained +"@));
            if a - 9 < k {
                assert(!occurs_at(r.chars@, a - 9, " gained +"@));
            }
            if a - 9 > k {
                assert(!occurs_at(r.chars@, k, " gained +"@));
            }
            assert(player_name@ =~= player);
            assert(r.chars@.subrange(a as int, n as int) =~= signed_dec(amount as int) + " "@ + attribute.spec_name() + "."@);
        }
    }
    proof {
        assert forall|player: Seq<char>, am: i16, attribute: Attribute| pos == 0 && #[trigger] gain_form(r.text@, player, am, attribute)
            implies r.chars@.subrange(a as int, n as int) == signed_dec(am as int) + (" "@ + attribute.spec_name() + "."@)
            && (" "@ + attribute.spec_name() + "."@)[0] == ' ' by {
            assert(r.chars@.subrange(a as int, n as int) =~= signed_dec(am as int) + (" "@ + attribute.spec_name() + "."@));
        }
    }
    let ghost a1 = a;
    let (amount, a) = signed_at(r, a, n)?;
    proof {
        assert forall|player: Seq<char>, am: i16, attribute: Attribute| pos == 0 && #[trigger] gain_form(r.text@, player, am, attribute)
            implies amount == am && a + 1 <= n && r.chars@.subrange(a as int, a + 1) == " "@
            && r.text@.subrange(a + 1, n as int) == attribute.spec_name() + "."@
            && stops_after(attribute.spec_name(), "."@) by {
            let rest = " "@ + attribute.spec_name() + "."@;
            assert(r.chars@.subrange(a1 as int, n as int) == #[trigger] (signed_dec(am as int) + rest));
            let d = signed_dec(am as int);
            let t = r.chars@.subrange(a1 as int, n as int);
            assert(r.chars@.subrange(a as int, a + 1) =~= t.subrange(d.len() as int, d.len() + 1int));
            assert(t.subrange(d.len() as int, d.len() + 1int) =~= " "@);
            assert(r.text@.subrange(a + 1, n as int) =~= t.subrange(d.len() + 1int, t.len() as int));
            assert(t.subrange(d.len() + 1int, t.len() as int) =~= attribute.spec_name() + "."@);
            lemma_attribute_stops_at_period(attribute);
        }
    }
    let a = r.lit(a, n, " ")?;
    let (attribute, e) = attribute_until(r, a, n, ".")?;
    Some((AttributeChange { player_name, amount, attribute }, e))
}

/// "{player} gained +{amount} {attribute}.", once or more, separated by spaces.
fn attribute_gain<'a>(r: &Reader<'a>, event: &FeedEvent) -> (res: Option<ParsedFeedEventText<&'a str>>)
    requires
        r.wf(),
        r.text@ == event.text@,
    ensures
        read_feed_as(res, *event, FeedEventType::Augment),
        forall|player: Seq<char>, amount: i16, attribute: Attribute|
            event.wf() && #[trigger] gain_form(r.text@, player, amount, attribute)
            ==> (res matches Some(ParsedFeedEventText::AttributeChanges { changes }) && changes@.len() == 1
                && changes@[0].player_name@ == player && changes@[0].amount == amount
                && changes@[0].attribute == attribute),
        crate::text::lacks(r.text@, " gained +"@) ==> res is None,
{
    let n = r.len();
    let mut changes: Vec<AttributeChange<&'a str>> = Vec::new();
    let mut p: usize = 0;
    loop
        invariant
            r.wf(),
            r.text@ == event.text@,
            p <= n == r.size(),
            forall|player: Seq<char>, amount: i16, attribute: Attribute| #[trigger] gain_form(r.text@, player, amount, attribute)
                ==> p == 0 && changes@.len() == 0,
        decreases n - p,
    {
        let start = if p > 0 {
            proof {
                reveal_strlit(" ");
            }
            r.lit(p, n, " ")?
        } else {
            p
        };
        let (change, e) = gain_at(r, start)?;
        changes.push(change);
        if e == n {
            proof {
                assert forall|player: Seq<char>, am: i16, attr: Attribute| event.wf() && #[trigger] gain_form(r.text@, player, am, attr)
                    implies writes_feed(ParsedFeedEventText::<&'a str>::AttributeChanges { changes }, *event) by {
                    assert(changes@.len() == 1);
                    assert(changes_text(changes@) == changes@[0].spec_text());
                    assert(changes@[0].spec_text() =~= r.text@);
                }
            }
            return accept(ParsedFeedEventText::AttributeChanges { changes }, event);
        }
        if e == p {
            return None;
        }
        p = e;
    }
}

/// The size of `amount`.
pub open spec fn abs_amount(amount: i16) -> nat {
    if amount < 0 { (-amount) as nat } else { amount as nat }
}

/// "{player}'s {item} was enchanted with +{amount} to {attribute}."
#[verifier::spinoff_prover]
#[verifier::rlimit(80)]
fn enchantment_s1a<'a>(r: &Reader<'a>, event: &FeedEvent) -> (res: Option<ParsedFeedEventText<&'a str>>)
    requires
        r.wf(),
        r.text@ == event.text@,
    ensures
        read_feed_as(res, *event, FeedEventType::Augment),
        forall|player: Seq<char>, item: ItemName, amount: u8, attribute: Attribute| event.wf()
            && !event.spec_after(Breakpoints::Season1EnchantmentChange) && stops_after(player, "'s "@)
            && r.text@ == #[trigger] old_enchantment_text(player, item, amount, attribute)
            ==> (res matches Some(ParsedFeedEventText::S1Enchantment { player_name, item: it, amount: a, attribute: at })
                && player_name@ == player && it == (EmojilessItem { prefix: None, item, suffix: None }) && a == amount
                && at == attribute),
        crate::text::lacks(r.text@, " was enchanted with +"@) ==> res is None,
{
    let n = r.len();
    proof {
        reveal_strlit("'s ");
        reveal_strlit(" was enchanted with +");
        reveal_strlit(" to ");
        reveal_strlit(".");
        assert forall|player: Seq<char>, item: ItemName, amount: u8, attribute: Attribute|
            r.text@ == #[trigger] old_enchantment_text(player, item, amount, attribute)
            implies ({
                let p1 = player.len() + 3int;
                let q = p1 + item.spec_name().len();
                let p2 = q + 21;
                let p3 = p2 + dec(amount as nat).len();
                let p4 = p3 + 4;
                &&& r.text@.subrange(0, p1) == player + "'s "@
                &&& occurs_at(r.chars@, q, " was enchanted with +"@)
                &&& (forall|k: int| p1 <= k < q ==> !#[trigger] occurs_at(r.chars@, k, " was enchanted with +"@))
                &&& r.text@.subrange(p1, q) == item.spec_name()
                &&& spec_leading_unsigned(r.chars@.subrange(p2, n as int), 255) == Some(amount as nat)
                &&& digit_run(r.chars@.subrange(p2, n as int)) == dec(amount as nat).len()
                &&& r.chars@.subrange(p3, p4) == " to "@
                &&& p4 + attribute.spec_name().len() + 1 == n
                &&& r.text@.subrange(p4, n as int) == attribute.spec_name() + "."@
                &&& stops_after(attribute.spec_name(), "."@)
            }) by {
            let p1 = player.len() + 3int;
            let w = item.spec_name();
            let q = p1 + w.len();
            let sep = " was enchanted with +"@;
            let p2 = q + 21;
            let d = dec(amount as nat);
            let p3 = p2 + d.len();
            let p4 = p3 + 4;
            let t = r.text@;
            assert(t =~= (player + "'s "@) + (w + sep) + d + (" to "@ + attribute.spec_name() + "."@));
            assert(t.subrange(0, p1) =~= player + "'s "@);
            assert(t.subrange(p1, p2) =~= w + sep);
            lemma_item_lacks(item, sep);
            lemma_stops_after(r.chars@, p1, w, sep);
            assert(t.subrange(p1, q) =~= w);
            assert(r.chars@.subrange(p2, n as int) =~= d + (" to "@ + attribute.spec_name() + "."@));
            crate::text::lemma_leading_dec(amount, " to "@ + attribute.spec_name() + "."@);
            assert(r.chars@.subrange(p3, p4) =~= " to "@);
            assert(t.subrange(p4, n as int) =~= attribute.spec_name() + "."@);
            lemma_attribute_stops_at_period(attribute);
        }
    }
    let (player_name, p) = r.until(0, n, "'s ")?;
    let q = r.find(p, n, " was enchanted with +")?;
    let item = emojiless_item_at(r, p, q)?;
    let p = r.lit(q, n, " was enchanted with +")?;
    let (amount, p) = r.number(p, n)?;
    let p = r.lit(p, n, " to ")?;
    let (attribute, _) = attribute_until(r, p, n, ".")?;
    let m = ParsedFeedEventText::S1Enchantment { player_name, item, amount, attribute };
    proof {
        assert forall|pl: Seq<char>, it: ItemName, am: u8, at: Attribute| event.wf()
            && !event.spec_after(Breakpoints::Season1EnchantmentChange) && stops_after(pl, "'s "@)
            && r.text@ == #[trigger] old_enchantment_text(pl, it, am, at)
            implies writes_feed(m, *event) by {
            assert(item.spec_text() =~= it.spec_name());
            assert(m.spec_unparse(*event, FeedEventSource::Player) =~= r.text@);
        }
    }
    accept(m, event)
}

/// How an enchantment of the kind of item `item` was written in season 1.
pub open spec fn old_enchantment_text(player: Seq<char>, item: ItemName, amount: u8, attribute: Attribute) -> Seq<char> {
    player + "'s "@ + item.spec_name() + " was enchanted with +"@ + dec(amount as nat) + " to "@ + attribute.spec_name() + "."@
}

/// "The {kind} Enchantment was a success! {player}'s {item} ...": an
/// enchantment gaining one bonus or two.
#[verifier::spinoff_prover]
#[verifier::rlimit(100)]
fn enchantment<'a>(r: &Reader<'a>, event: &FeedEvent) -> (res: Option<ParsedFeedEventText<&'a str>>)
    requires
        r.wf(),
        r.text@ == event.text@,
    ensures
        read_feed_as(res, *event, FeedEventType::Augment),
        forall|compensatory: bool, player: Seq<char>, item: ItemName, amount: u8, attribute: Attribute| event.wf()
            && (compensatory || event.spec_after(Breakpoints::Season1EnchantmentChange)) && stops_after(player, "'s "@)
            && crate::text::lacks(r.text@, " was enchanted with +"@)
            && r.text@ == #[trigger] bonus_enchantment_text(compensatory, player, item, amount, attribute)
            ==> (if compensatory {
                res matches Some(ParsedFeedEventText::S2Enchantment { player_name, item: it, amount: a, attribute: at, enchant_two, compensatory: c })
                    && player_name@ == player && it == (EmojilessItem { prefix: None, item, suffix: None }) && a == amount
                    && at == attribute && enchant_two is None && c
            } else {
                res matches Some(ParsedFeedEventText::S1Enchantment { player_name, item: it, amount: a, attribute: at })
                    && player_name@ == player && it == (EmojilessItem { prefix: None, item, suffix: None }) && a == amount
                    && at == attribute
            }),
        !crate::parsing::begins_with(r.text@, "The Item Enchantment was a success! "@) && !crate::parsing::begins_with(r.text@, "The Compensatory Enchantment was a success! "@) ==> res is None,
{
    let n = r.len();
    proof {
        reveal_strlit("The Item Enchantment was a success! ");
        reveal_strlit("The Compensatory Enchantment was a success! ");
        reveal_strlit("The ");
        reveal_strlit("Item");
        reveal_strlit("Compensatory");
        reveal_strlit(" Enchantment was a success! ");
        reveal_strlit("'s ");
        reveal_strlit(" gained a +");
        reveal_strlit(" gained a ");
        reveal_strlit("+");
        reveal_strlit(" ");
        reveal_strlit(" bonus.");
        assert forall|compensatory: bool, player: Seq<char>, item: ItemName, amount: u8, attribute: Attribute|
            r.text@ == #[trigger] bonus_enchantment_text(compensatory, player, item, amount, attribute)
            implies ({
                let head = enchantment_head(compensatory);
                let p0 = head.len() as int;
                let p1 = p0 + player.len() + 3int;
                let q = p1 + item.spec_name().len();
                let p2 = q + 11;
                let p3 = p2 + dec(amount as nat).len();
                let p4 = p3 + 1;
                &&& (compensatory ==> !(36 <= n && r.chars@.subrange(0, 36) == "The Item Enchantment was a success! "@))
                &&& r.chars@.subrange(0, p0) == head
                &&& r.text@.subrange(p0, p1) == player + "'s "@
                &&& occurs_at(r.chars@, q, " gained a +"@)
                &&& (forall|k: int| p1 <= k < q ==> !#[trigger] occurs_at(r.chars@, k, " gained a +"@))
                &&& r.text@.subrange(p1, q) == item.spec_name()
                &&& spec_leading_unsigned(r.chars@.subrange(p2, n as int), 255) == Some(amount as nat)
                &&& digit_run(r.chars@.subrange(p2, n as int)) == dec(amount as nat).len()
                &&& r.chars@.subrange(p3, p4) == " "@
                &&& p4 + attribute.spec_name().len() + 7 == n
                &&& r.text@.subrange(p4, n as int) == attribute.spec_name() + " bonus."@
                &&& stops_after(attribute.spec_name(), " bonus."@)
            }) by {
            let head = enchantment_head(compensatory);
            let p0 = head.len() as int;
            let p1 = p0 + player.len() + 3int;
            let w = item.spec_name();
            let q = p1 + w.len();
            let sep = " gained a +"@;
            let p2 = q + 11;
            let d = dec(amount as nat);
            let p3 = p2 + d.len();
            let p4 = p3 + 1;
            let t = r.text@;
            let tail = " "@ + attribute.spec_name() + " bonus."@;
            assert(t =~= head + (player + "'s "@) + (w + sep) + d + tail);
            if compensatory && 36 <= n && r.chars@.subrange(0, 36) == "The Item Enchantment was a success! "@ {
                assert(r.chars@.subrange(0, 36)[4] == t[4]);
            }
            assert(r.chars@.subrange(0, p0) =~= head);
            assert(t.subrange(p0, p1) =~= player + "'s "@);
            assert(t.subrange(p1, p2) =~= w + sep);
            lemma_item_lacks(item, sep);
            lemma_stops_after(r.chars@, p1, w, sep);
            assert(t.subrange(p1, q) =~= w);
            assert(r.chars@.subrange(p2, n as int) =~= d + tail);
            crate::text::lemma_leading_dec(amount, tail);
            assert(r.chars@.subrange(p3, p4) =~= " "@);
            assert(t.subrange(p4, n as int) =~= attribute.spec_name() + " bonus."@);
            attribute.lemma_name_is_word();
            crate::text::lemma_stops_by_first(attribute.spec_name(), " bonus."@);
        }
    }
    let (compensatory, p) = match r.lit(0, n, "The Item Enchantment was a success! ") {
        Some(p) => (false, p),
        None => (true, r.lit(0, n, "The Compensatory Enchantment was a success! ")?),
    };
    let (player_name, p) = r.until(p, n, "'s ")?;
    if let Some(q) = r.find(p, n, " was enchanted with +") {
        let item = emojiless_item_at(r, p, q)?;
        let a = r.lit(q, n, " was enchanted with +")?;
        let (amount, a) = r.number(a, n)?;
        let a = r.lit(a, n, " ")?;
        let (attribute, a) = attribute_until(r, a, n, " and +")?;
        let (amount_two, a) = r.number(a, n)?;
        let a = r.lit(a, n, " ")?;
        let (attribute_two, _) = attribute_until(r, a, n, ".")?;
        let m = ParsedFeedEventText::S2Enchantment {
            player_name,
            item,
            amount,
            attribute,
            enchant_two: Some((amount_two, attribute_two)),
            compensatory,
        };
        return accept(m, event);
    }
    let q = r.find(p, n, " gained a +")?;
    let item = emojiless_item_at(r, p, q)?;
    let a = r.lit(q, n, " gained a +")?;
    let (amount, a) = r.number(a, n)?;
    let a = r.lit(a, n, " ")?;
    let (attribute, _) = attribute_until(r, a, n, " bonus.")?;
    let m = if compensatory {
        ParsedFeedEventText::S2Enchantment { player_name, item, amount, attribute, enchant_two: None, compensatory }
    } else {
        ParsedFeedEventText::S1Enchantment { player_name, item, amount, attribute }
    };
    proof {
        assert forall|cp: bool, pl: Seq<char>, it: ItemName, am: u8, at: Attribute| event.wf()
            && (cp || event.spec_after(Breakpoints::Season1EnchantmentChange)) && stops_after(pl, "'s "@)
            && crate::text::lacks(r.text@, " was enchanted with +"@)
            && r.text@ == #[trigger] bonus_enchantment_text(cp, pl, it, am, at)
            implies compensatory == cp && writes_feed(m, *event) by {
            reveal_strlit("The ");
            reveal_strlit("Item");
            reveal_strlit("Compensatory");
            reveal_strlit(" Enchantment was a success! ");
            reveal_strlit("The Item Enchantment was a success! ");
            reveal_strlit("+");
            reveal_strlit(" ");
            reveal_strlit(" gained a ");
            reveal_strlit(" gained a +");
            reveal_strlit(" bonus.");
            assert(item.spec_text() =~= it.spec_name());
            assert(m.spec_unparse(*event, FeedEventSource::Player) =~= r.text@);
        }
    }
    accept(m, event)
}

/// The opening of a message about an enchantment, compensatory or not.
pub open spec fn enchantment_head(compensatory: bool) -> Seq<char> {
    if compensatory {
        "The Compensatory Enchantment was a success! "@
    } else {
        "The Item Enchantment was a success! "@
    }
}

/// An enchantment of the kind of item `item` gaining one bonus, compensatory or not.
pub open spec fn bonus_enchantment_text(compensatory: bool, player: Seq<char>, item: ItemName, amount: u8,
    attribute: Attribute) -> Seq<char> {
    enchantment_head(compensatory) + player + "'s "@ + item.spec_name() + " gained a +"@ + dec(amount as nat) + " "@
        + attribute.spec_name() + " bonus."@
}

/// "{player} gained the {modification} Modification."
fn modification<'a>(r: &Reader<'a>, event: &FeedEvent) -> (res: Option<ParsedFeedEventText<&'a str>>)
    requires
        r.wf(),
        r.text@ == event.text@,
    ensures
        read_feed_as(res, *event, FeedEventType::Augment),
        forall|player: Seq<char>, name: Seq<char>| event.wf() && stops_after(player, " gained the "@)
            && stops_after(name, " Modification."@)
            && r.text@ == #[trigger] modification_text(player, name)
            ==> (res matches Some(ParsedFeedEventText::Modification { player_name, modification })
                && player_name@ == player && modification.spec_name() == name),
        crate::text::lacks(r.text@, " gained the "@) ==> res is None,
{
    let n = r.len();
    proof {
        reveal_strlit(" gained the ");
        reveal_strlit(" Modification.");
        assert forall|player: Seq<char>, name: Seq<char>| r.text@ == #[trigger] modification_text(player, name)
            implies r.text@.subrange(0, player.len() + 12int) == player + " gained the "@
            && r.text@.subrange(player.len() + 12int, player.len() + 12 + name.len() + 14int) == name + " Modification."@ by {
            assert(r.text@.subrange(0, player.len() + 12int) =~= player + " gained the "@);
            assert(r.text@.subrange(player.len() + 12int, player.len() + 12 + name.len() + 14int) =~= name + " Modification."@);
        }
    }
    let (player_name, p) = r.until(0, n, " gained the ")?;
    let (name, _) = r.until(p, n, " Modification.")?;
    let m = ParsedFeedEventText::Modification { player_name, modification: ModificationType::new(name) };
    proof {
        assert forall|player: Seq<char>, nm: Seq<char>| event.wf() && stops_after(player, " gained the "@)
            && stops_after(nm, " Modification."@) && r.text@ == #[trigger] modification_text(player, nm)
            implies writes_feed(m, *event) by {
            assert(m.spec_unparse(*event, FeedEventSource::Player) =~= r.text@);
        }
    }
    accept(m, event)
}

/// The text of `player` gaining the modification written as `name`.
pub open spec fn modification_text(player: Seq<char>, name: Seq<char>) -> Seq<char> {
    player + " gained the "@ + name + " Modification."@
}

/// Two sentences about two players, "{a}{first}{b}{second}".
#[verifier::spinoff_prover]
fn two_players<'a>(r: &Reader<'a>, first: &str, second: &str) -> (res: Option<(&'a str, &'a str)>)
    requires
        r.wf(),
    ensures
        res matches Some((x, y)) ==> (x@ + first@ + y@ + second@).len() <= r.text@.len()
            && r.text@.subrange(0, (x@ + first@ + y@ + second@).len() as int) == x@ + first@ + y@ + second@,
        forall|a: Seq<char>, b: Seq<char>| stops_after(a, first@) && stops_after(b, second@)
            && r.text@ == #[trigger] (a + first@ + b + second@)
            ==> (res matches Some((x, y)) && x@ == a && y@ == b),
        crate::text::lacks(r.text@, first@) ==> res is None,
{
    let n = r.len();
    proof {
        assert forall|a: Seq<char>, b: Seq<char>| stops_after(a, first@) && stops_after(b, second@)
            && r.text@ == #[trigger] (a + first@ + b + second@)
            implies r.text@.subrange(0, a.len() + first@.len() as int) == a + first@
            && r.text@.subrange(a.len() + first@.len() as int, a.len() + first@.len() + b.len() + second@.len() as int) == b + second@ by {
            assert(r.text@.subrange(0, a.len() + first@.len() as int) =~= a + first@);
            assert(r.text@.subrange(a.len() + first@.len() as int, a.len() + first@.len() + b.len() + second@.len() as int) =~= b + second@);
        }
    }
    let (a, p) = r.until(0, n, first)?;
    let (b, q) = r.until(p, n, second)?;
    proof {
        let c = r.chars@;
        let f = first@.len() as int;
        let g = second@.len() as int;
        assert(c.subrange(p - f, p as int) == first@);
        assert(c.subrange(0, p as int) =~= a@ + first@);
        assert(c.subrange(q - g, q as int) == second@);
        assert(c.subrange(p as int, q as int) =~= b@ + second@);
        assert(c.subrange(0, q as int) =~= c.subrange(0, p as int) + c.subrange(p as int, q as int));
        assert(a@ + first@ + (b@ + second@) =~= a@ + first@ + b@ + second@);
    }
    Some((a, b))
}

/// "{player} was moved to the mound. {player} was sent to the lineup."
fn take_the_mound<'a>(r: &Reader<'a>, event: &FeedEvent) -> (res: Option<ParsedFeedEventText<&'a str>>)
    requires
        r.wf(),
        r.text@ == event.text@,
    ensures
        read_feed_as(res, *event, FeedEventType::Augment),
        forall|a: Seq<char>, b: Seq<char>| event.wf() && stops_after(a, " was moved to the mound. "@)
            && stops_after(b, " was sent to the lineup."@)
            && r.text@ == #[trigger] (a + " was moved to the mound. "@ + b + " was sent to the lineup."@)
            ==> (res matches Some(ParsedFeedEventText::TakeTheMound { to_mound_player, to_lineup_player })
                && to_mound_player@ == a && to_lineup_player@ == b),
        crate::text::lacks(r.text@, " was moved to the mound. "@) ==> res is None,
{
    let (to_mound_player, to_lineup_player) = two_players(r, " was moved to the mound. ", " was sent to the lineup.")?;
    let m = ParsedFeedEventText::TakeTheMound { to_mound_player, to_lineup_player };
    proof {
        assert(m.spec_unparse(*event, FeedEventSource::Player) =~= to_mound_player@ + " was moved to the mound. "@
            + to_lineup_player@ + " was sent to the lineup."@);
    }
    accept(m, event)
}

/// "{player} was sent to the plate. {player} was pulled from the lineup."
fn take_the_plate<'a>(r: &Reader<'a>, event: &FeedEvent) -> (res: Option<ParsedFeedEventText<&'a str>>)
    requires
        r.wf(),
        r.text@ == event.text@,
    ensures
        read_feed_as(res, *event, FeedEventType::Augment),
        forall|a: Seq<char>, b: Seq<char>| event.wf() && stops_after(a, " was sent to the plate. "@)
            && stops_after(b, " was pulled from the lineup."@)
            && r.text@ == #[trigger] (a + " was sent to the plate. "@ + b + " was pulled from the lineup."@)
            ==> (res matches Some(ParsedFeedEventText::TakeThePlate { to_plate_player, from_lineup_player })
                && to_plate_player@ == a && from_lineup_player@ == b),
{
    let (to_plate_player, from_lineup_player) = two_players(r, " was sent to the plate. ", " was pulled from the lineup.")?;
    let m = ParsedFeedEventText::TakeThePlate { to_plate_player, from_lineup_player };
    proof {
        assert(m.spec_unparse(*event, FeedEventSource::Player) =~= to_plate_player@ + " was sent to the plate. "@
            + from_lineup_player@ + " was pulled from the lineup."@);
    }
    accept(m, event)
}

/// "{player} swapped places with {player}."
fn swap_places<'a>(r: &Reader<'a>, event: &FeedEvent) -> (res: Option<ParsedFeedEventText<&'a str>>)
    requires
        r.wf(),
        r.text@ == event.text@,
    ensures
        read_feed_as(res, *event, FeedEventType::Augment),
        forall|a: Seq<char>, b: Seq<char>| event.wf() && stops_after(a, " swapped places with "@)
            && r.text@ == #[trigger] (a + " swapped places with "@ + b + "."@)
            ==> (res matches Some(ParsedFeedEventText::SwapPlaces { player_one, player_two })
                && player_one@ == a && player_two@ == b),
{
    let n = r.len();
    proof {
        reveal_strlit(" swapped places with ");
        reveal_strlit(".");
        assert forall|a: Seq<char>, b: Seq<char>| r.text@ == #[trigger] (a + " swapped places with "@ + b + "."@)
            implies r.text@.subrange(0, a.len() + 21int) == a + " swapped places with "@
            && r.text@.subrange(a.len() + 21int, n - 1) == b by {
            assert(r.text@.subrange(0, a.len() + 21int) =~= a + " swapped places with "@);
            assert(r.text@.subrange(a.len() + 21int, n - 1) =~= b);
        }
    }
    let (player_one, p) = r.until(0, n, " swapped places with ")?;
    if n == p {
        return None;
    }
    let m = ParsedFeedEventText::SwapPlaces { player_one, player_two: r.slice(p, n - 1) };
    proof {
        assert forall|a: Seq<char>, b: Seq<char>| event.wf() && stops_after(a, " swapped places with "@)
            && r.text@ == #[trigger] (a + " swapped places with "@ + b + "."@)
            implies writes_feed(m, *event) by {
            assert(m.spec_unparse(*event, FeedEventSource::Player) =~= r.text@);
        }
    }
    accept(m, event)
}

/// "{player} was Recomposed into {player}.", "using" before the recompose change.
fn recompose<'a>(r: &Reader<'a>, event: &FeedEvent) -> (res: Option<ParsedFeedEventText<&'a str>>)
    requires
        r.wf(),
        r.text@ == event.text@,
    ensures
        read_feed_as(res, *event, FeedEventType::Augment),
        forall|a: Seq<char>, b: Seq<char>| event.wf() && stops_after(a, #[trigger] recompose_word(*event))
            && r.text@ == a + recompose_word(*event) + b + "."@
            ==> (res matches Some(ParsedFeedEventText::Recomposed { previous, new })
                && previous@ == a && new@ == b),
{
    let n = r.len();
    proof {
        reveal_strlit(" was Recomposed into ");
        reveal_strlit(" was Recomposed using ");
        reveal_strlit(".");
        let w = recompose_word(*event);
        assert forall|a: Seq<char>, b: Seq<char>| r.text@ == a + w + b + "."@
            implies r.text@.subrange(0, a.len() + w.len() as int) == a + w
            && r.text@.subrange(a.len() + w.len() as int, n - 1) == b by {
            assert(r.text@.subrange(0, a.len() + w.len() as int) =~= a + w);
            assert(r.text@.subrange(a.len() + w.len() as int, n - 1) =~= b);
        }
    }
    let (previous, p) = if event.later_than(Timestamp::Season3RecomposeChange) {
        r.until(0, n, " was Recomposed into ")?
    } else {
        r.until(0, n, " was Recomposed using ")?
    };
    if n == p {
        return None;
    }
    let m = ParsedFeedEventText::Recomposed { previous, new: r.slice(p, n - 1) };
    proof {
        let w = recompose_word(*event);
        assert forall|a: Seq<char>, b: Seq<char>| event.wf() && stops_after(a, #[trigger] recompose_word(*event))
            && r.text@ == a + recompose_word(*event) + b + "."@
            implies writes_feed(m, *event) by {
            assert(m.spec_unparse(*event, FeedEventSource::Player) =~= r.text@);
        }
    }
    accept(m, event)
}

/// The words between the two players of a recomposition, as written at the
/// time of `event`.
pub open spec fn recompose_word(event: FeedEvent) -> Seq<char> {
    if event.spec_later_than(Timestamp::Season3RecomposeChange) {
        " was Recomposed into "@
    } else {
        " was Recomposed using "@
    }
}

/// "{player}'s {attribute} was set to their {attribute}." and the older ways
/// of writing it.
#[verifier::spinoff_prover]
#[verifier::rlimit(60)]
fn attribute_equal<'a>(r: &Reader<'a>, pos: usize, end: usize) -> (res: Option<(&'a str, Attribute, Attribute, usize)>)
    requires
        r.wf(),
        pos <= end <= r.size(),
    ensures
        match res {
            Some((_, _, _, e)) => pos < e <= end,
            None => true,
        },
        forall|name: Seq<char>, changing: Attribute, middle: Seq<char>, value: Attribute| is_equal_middle(middle)
            && stops_after(name, "'s "@) && pos + equal_text(name, changing, middle, value).len() <= end
            && r.text@.subrange(pos as int, pos + equal_text(name, changing, middle, value).len())
                == #[trigger] equal_text(name, changing, middle, value)
            ==> (res matches Some((nm, c, v, e)) && nm@ == name && c == changing && v == value
                && e == pos + equal_text(name, changing, middle, value).len()),
{
    let ghost set = "was set to their "@;
    let ghost current = "became equal to their current base "@;
    let ghost base = "became equal to their base "@;
    proof {
        reveal_strlit("'s ");
        reveal_strlit(" ");
        reveal_strlit(".");
        reveal_strlit("was set to their ");
        reveal_strlit("became equal to their current base ");
        reveal_strlit("became equal to their base ");
        assert forall|name: Seq<char>, changing: Attribute, middle: Seq<char>, value: Attribute| is_equal_middle(middle)
            && pos + equal_text(name, changing, middle, value).len() <= end
            && r.text@.subrange(pos as int, pos + equal_text(name, changing, middle, value).len())
                == #[trigger] equal_text(name, changing, middle, value)
            implies ({
                let p1 = pos + name.len() + 3;
                let p2 = p1 + changing.spec_name().len() + 1;
                let p3 = p2 + middle.len();
                &&& r.text@.subrange(pos as int, p1) == name + "'s "@
                &&& r.text@.subrange(p1, p2) == changing.spec_name() + " "@
                &&& stops_after(changing.spec_name(), " "@)
                &&& p3 <= end && r.chars@.subrange(p2, p3) == middle
                &&& (middle != set ==> !(p2 + set.len() <= end && r.chars@.subrange(p2, p2 + set.len()) == set))
                &&& (middle == base ==> !(p2 + current.len() <= end && r.chars@.subrange(p2, p2 + current.len()) == current))
                &&& r.text@.subrange(p3, pos + equal_text(name, changing, middle, value).len()) == value.spec_name() + "."@
                &&& stops_after(value.spec_name(), "."@)
            }) by {
            let t = equal_text(name, changing, middle, value);
            let p1 = pos + name.len() + 3;
            let p2 = p1 + changing.spec_name().len() + 1;
            let p3 = p2 + middle.len();
            let sub = r.text@.subrange(pos as int, pos + t.len());
            assert(r.text@.subrange(pos as int, p1) =~= sub.subrange(0, name.len() + 3int));
            assert(sub.subrange(0, name.len() + 3int) =~= name + "'s "@);
            assert(r.text@.subrange(p1, p2) =~= sub.subrange(name.len() + 3int, p2 - pos));
            assert(sub.subrange(name.len() + 3int, p2 - pos) =~= changing.spec_name() + " "@);
            changing.lemma_name_is_word();
            crate::text::lemma_stops_by_first(changing.spec_name(), " "@);
            assert(r.chars@.subrange(p2, p3) =~= sub.subrange(p2 - pos, p3 - pos));
            assert(sub.subrange(p2 - pos, p3 - pos) =~= middle);
            if middle != set && p2 + set.len() <= end && r.chars@.subrange(p2, p2 + set.len()) == set {
                assert(r.chars@.subrange(p2, p2 + set.len())[0] == r.chars@[p2]);
                assert(r.chars@.subrange(p2, p3)[0] == r.chars@[p2]);
            }
            if middle == base && p2 + current.len() <= end && r.chars@.subrange(p2, p2 + current.len()) == current {
                assert(r.chars@.subrange(p2, p2 + current.len())[22] == r.chars@[p2 + 22]);
                assert(r.chars@.subrange(p2, p3)[22] == r.chars@[p2 + 22]);
            }
            assert(r.text@.subrange(p3, pos + t.len()) =~= sub.subrange(p3 - pos, t.len() as int));
            assert(sub.subrange(p3 - pos, t.len() as int) =~= value.spec_name() + "."@);
            lemma_attribute_stops_at_period(value);
        }
    }
    let (player_name, p) = r.until(pos, end, "'s ")?;
    let (changing, p) = attribute_until(r, p, end, " ")?;
    let p = match r.lit(p, end, "was set to their ") {
        Some(p) => p,
        None => match r.lit(p, end, "became equal to their current base ") {
            Some(p) => p,
            None => r.lit(p, end, "became equal to their base ")?,
        },
    };
    let (value, e) = attribute_until(r, p, end, ".")?;
    if e == pos {
        return None;
    }
    Some((player_name, changing, value, e))
}

/// The words that set one attribute to another, in one of the ways they have
/// been written.
pub open spec fn is_equal_middle(middle: Seq<char>) -> bool {
    ||| middle == "was set to their "@
    ||| middle == "became equal to their current base "@
    ||| middle == "became equal to their base "@
}

/// The sentence setting the attribute `changing` of `name` to `value`, with
/// `middle` between them.
pub open spec fn equal_text(name: Seq<char>, changing: Attribute, middle: Seq<char>, value: Attribute) -> Seq<char> {
    name + "'s "@ + changing.spec_name() + " "@ + middle + value.spec_name() + "."@
}

/// The attribute of many players set to another: the lineup of batters from
/// season 3, a sentence for each player before.
#[verifier::spinoff_prover]
#[verifier::rlimit(60)]
fn multiple_attribute_equal<'a>(r: &Reader<'a>, event: &FeedEvent) -> (res: Option<ParsedFeedEventText<&'a str>>)
    requires
        r.wf(),
        r.text@ == event.text@,
    ensures
        read_feed_as(res, *event, FeedEventType::Augment),
        forall|name: Seq<char>, changing: Attribute, middle: Seq<char>, value: Attribute| event.wf()
            && !event.spec_after(Breakpoints::Season3) && stops_after(name, "'s "@) && written_middle(*event, middle)
            && r.text@ == #[trigger] equal_text(name, changing, middle, value)
            ==> (res matches Some(ParsedFeedEventText::MassAttributeEquals { players, changing_attribute, value_attribute })
                && players@.len() == 1 && players@[0].0 is None && players@[0].1@ == name
                && changing_attribute == changing && value_attribute == value),
{
    if !event_is_wf(event) {
        return None;
    }
    let n = r.len();
    proof {
        assert(r.text@.subrange(0, n as int) =~= r.text@);
    }
    let mut players: Vec<(Option<Slot>, &'a str)> = Vec::new();
    if event.after(Breakpoints::Season3) {
        let p = r.lit(0, n, "Batters' ")?;
        let (changing_attribute, p) = attribute_until(r, p, n, " was set to their ")?;
        let (value_attribute, p) = attribute_until(r, p, n, ". Lineup:")?;
        let mut p = p;
        while p < n
            invariant
                r.wf(),
                p <= n == r.size(),
                event.wf() && event.spec_after(Breakpoints::Season3),
            decreases n - p,
        {
            let a = if players.len() > 0 { r.lit(p, n, ",")? } else { p };
            let a = r.lit(a, n, " ")?;
            let (_, a) = r.number(a, n)?;
            let a = r.lit(a, n, ". ")?;
            let sp = r.find(a, n, " ")?;
            let slot = match Slot::from_str(r.slice(a, sp)) {
                Ok(slot) => slot,
                Err(_) => return None,
            };
            let b = r.lit(sp, n, " ")?;
            let e = match r.find(b, n, ",") {
                Some(e) => e,
                None => n,
            };
            players.push((Some(slot), r.slice(b, e)));
            if e == p {
                return None;
            }
            p = e;
        }
        accept(ParsedFeedEventText::MassAttributeEquals { players, changing_attribute, value_attribute }, event)
    } else {
        let (player_name, changing_attribute, value_attribute, mut p) = attribute_equal(r, 0, n)?;
        players.push((None, player_name));
        proof {
            assert forall|name: Seq<char>, changing: Attribute, middle: Seq<char>, value: Attribute| event.wf()
                && !event.spec_after(Breakpoints::Season3) && stops_after(name, "'s "@) && written_middle(*event, middle)
                && r.text@ == #[trigger] equal_text(name, changing, middle, value)
                implies p == n && writes_feed(ParsedFeedEventText::MassAttributeEquals { players, changing_attribute, value_attribute }, *event) by {
                reveal_strlit(" ");
                reveal_strlit("was set to their ");
                reveal_strlit("became equal to their current base ");
                reveal_strlit("became equal to their base ");
                reveal_strlit(" was set to their ");
                reveal_strlit(" became equal to their current base ");
                reveal_strlit(" became equal to their base ");
                assert(is_equal_middle(middle));
                let m = ParsedFeedEventText::MassAttributeEquals { players, changing_attribute, value_attribute };
                assert(players@.drop_last() =~= Seq::<(Option<Slot>, &'a str)>::empty());
                let src = if event.spec_after(Breakpoints::S1AttributeEqualChange) || middle == "was set to their "@ {
                    FeedEventSource::Player
                } else {
                    FeedEventSource::Team
                };
                assert(old_equals_text(players@.drop_last(), changing_attribute, value_attribute, *event, src) == Seq::<char>::empty());
                assert(m.spec_unparse(*event, src) =~= r.text@);
            }
        }
        while p < n
            invariant
                r.wf(),
                p <= n == r.size(),
                forall|name: Seq<char>, changing: Attribute, middle: Seq<char>, value: Attribute| event.wf()
                    && !event.spec_after(Breakpoints::Season3) && stops_after(name, "'s "@) && written_middle(*event, middle)
                    && r.text@ == #[trigger] equal_text(name, changing, middle, value)
                    ==> p == n && players@.len() == 1 && players@[0].0 is None && players@[0].1@ == name
                        && changing_attribute == changing && value_attribute == value
                        && writes_feed(ParsedFeedEventText::MassAttributeEquals { players, changing_attribute, value_attribute }, *event),
            decreases n - p,
        {
            let a = r.lit(p, n, " ")?;
            let (name, changing, value, e) = attribute_equal(r, a, n)?;
            if changing != changing_attribute || value != value_attribute {
                return None;
            }
            players.push((None, name));
            p = e;
        }
        accept(ParsedFeedEventText::MassAttributeEquals { players, changing_attribute, value_attribute }, event)
    }
}

/// One player's attribute set to another.
#[verifier::spinoff_prover]
#[verifier::rlimit(40)]
fn single_attribute_equal<'a>(r: &Reader<'a>, event: &FeedEvent) -> (res: Option<ParsedFeedEventText<&'a str>>)
    requires
        r.wf(),
        r.text@ == event.text@,
    ensures
        read_feed_as(res, *event, FeedEventType::Augment),
        forall|name: Seq<char>, changing: Attribute, middle: Seq<char>, value: Attribute| event.wf()
            && stops_after(name, "'s "@) && written_middle(*event, middle)
            && r.text@ == #[trigger] equal_text(name, changing, middle, value)
            ==> (res matches Some(ParsedFeedEventText::SingleAttributeEquals { player_name, changing_attribute, value_attribute })
                && player_name@ == name && changing_attribute == changing && value_attribute == value),
{
    let n = r.len();
    proof {
        assert(r.text@.subrange(0, n as int) =~= r.text@);
    }
    let (player_name, changing_attribute, value_attribute, _) = attribute_equal(r, 0, n)?;
    let m = ParsedFeedEventText::SingleAttributeEquals { player_name, changing_attribute, value_attribute };
    proof {
        assert forall|name: Seq<char>, changing: Attribute, middle: Seq<char>, value: Attribute| event.wf()
            && stops_after(name, "'s "@) && written_middle(*event, middle)
            && r.text@ == #[trigger] equal_text(name, changing, middle, value)
            implies writes_feed(m, *event) by {
            reveal_strlit(" ");
            reveal_strlit("was set to their ");
            reveal_strlit("became equal to their current base ");
            reveal_strlit("became equal to their base ");
            reveal_strlit(" was set to their ");
            reveal_strlit(" became equal to their current base ");
            reveal_strlit(" became equal to their base ");
            assert(is_equal_middle(middle));
            if event.spec_after(Breakpoints::Season3) || event.spec_after(Breakpoints::S1AttributeEqualChange)
                || middle == "was set to their "@ {
                assert(m.spec_unparse(*event, FeedEventSource::Player) =~= r.text@);
            } else {
                assert(m.spec_unparse(*event, FeedEventSource::Team) =~= r.text@);
            }
        }
    }
    accept(m, event)
}

/// Whether `middle` is how a sentence setting one attribute to another was
/// written at the time of `event`, in the feed of a player or of a team.
pub open spec fn written_middle(event: FeedEvent, middle: Seq<char>) -> bool {
    if event.spec_after(Breakpoints::Season3) {
        middle == "was set to their "@
    } else if event.spec_after(Breakpoints::S1AttributeEqualChange) {
        middle == "became equal to their current base "@
    } else {
        middle == "was set to their "@ || middle == "became equal to their base "@
    }
}

/// The text of a feed event about an augment.
/// Whether `t` holds none of the words by which gains and enchantments are
/// read, which are tried before a modification.
pub open spec fn no_gain_or_enchantment(t: Seq<char>) -> bool {
    &&& crate::text::lacks(t, " gained +"@)
    &&& crate::text::lacks(t, " was enchanted with +"@)
    &&& !crate::parsing::begins_with(t, "The Item Enchantment was a success! "@)
    &&& !crate::parsing::begins_with(t, "The Compensatory Enchantment was a success! "@)
}

/// "{a} was moved to the mound. {b} was sent to the lineup."
pub open spec fn mound_text(a: Seq<char>, b: Seq<char>) -> Seq<char> {
    a + " was moved to the mound. "@ + b + " was sent to the lineup."@
}

/// "{a} was sent to the plate. {b} was pulled from the lineup."
pub open spec fn plate_text(a: Seq<char>, b: Seq<char>) -> Seq<char> {
    a + " was sent to the plate. "@ + b + " was pulled from the lineup."@
}

fn augment_feed_event<'a>(r: &Reader<'a>, event: &FeedEvent) -> (res: Option<ParsedFeedEventText<&'a str>>)
    requires
        r.wf(),
        r.text@ == event.text@,
    ensures
        read_feed_as(res, *event, FeedEventType::Augment),
        augment_text_form(*event) ==> res is Some,
        forall|player: Seq<char>, amount: i16, attribute: Attribute|
            event.wf() && #[trigger] gain_form(r.text@, player, amount, attribute)
            ==> (res matches Some(ParsedFeedEventText::AttributeChanges { changes }) && changes@.len() == 1
                && changes@[0].player_name@ == player && changes@[0].amount == amount
                && changes@[0].attribute == attribute),
        forall|player: Seq<char>, name: Seq<char>| event.wf() && stops_after(player, " gained the "@)
            && stops_after(name, " Modification."@) && no_gain_or_enchantment(r.text@)
            && r.text@ == #[trigger] modification_text(player, name)
            ==> (res matches Some(ParsedFeedEventText::Modification { player_name, modification })
                && player_name@ == player && modification.spec_name() == name),
        forall|a: Seq<char>, b: Seq<char>| event.wf() && stops_after(a, " was moved to the mound. "@)
            && stops_after(b, " was sent to the lineup."@) && no_gain_or_enchantment(r.text@)
            && crate::text::lacks(r.text@, " gained the "@)
            && r.text@ == #[trigger] mound_text(a, b)
            ==> (res matches Some(ParsedFeedEventText::TakeTheMound { to_mound_player, to_lineup_player })
                && to_mound_player@ == a && to_lineup_player@ == b),
        forall|a: Seq<char>, b: Seq<char>| event.wf() && stops_after(a, " was sent to the plate. "@)
            && stops_after(b, " was pulled from the lineup."@) && no_gain_or_enchantment(r.text@)
            && crate::text::lacks(r.text@, " gained the "@) && crate::text::lacks(r.text@, " was moved to the mound. "@)
            && r.text@ == #[trigger] plate_text(a, b)
            ==> (res matches Some(ParsedFeedEventText::TakeThePlate { to_plate_player, from_lineup_player })
                && to_plate_player@ == a && from_lineup_player@ == b),
{
    if let Some(m) = attribute_gain(r, event) {
        return Some(m);
    }
    if let Some(m) = enchantment_s1a(r, event) {
        return Some(m);
    }
    if let Some(m) = enchantment(r, event) {
        return Some(m);
    }
    if let Some(m) = modification(r, event) {
        return Some(m);
    }
    if let Some(m) = take_the_mound(r, event) {
        return Some(m);
    }
    if let Some(m) = take_the_plate(r, event) {
        return Some(m);
    }
    if let Some(m) = multiple_attribute_equal(r, event) {
        return Some(m);
    }
    if let Some(m) = single_attribute_equal(r, event) {
        return Some(m);
    }
    if let Some(m) = swap_places(r, event) {
        return Some(m);
    }
    recompose(r, event)
}

/// The text of a feed event releasing a player: "Released by the {team}."
fn release<'a>(r: &Reader<'a>, event: &FeedEvent) -> (res: Option<ParsedFeedEventText<&'a str>>)
    requires
        r.wf(),
        r.text@ == event.text@,
    ensures
        read_feed_as(res, *event, FeedEventType::Release),
        forall|team: Seq<char>| event.wf() && event.text@ == released_text(team)
            ==> (res matches Some(ParsedFeedEventText::Released { team: t }) && t@ == team),
{
    let n = r.len();
    let prefix = "Released by the ";
    let lp = prefix.unicode_len();
    proof {
        reveal_strlit(".");
        assert forall|team: Seq<char>| r.text@ == released_text(team) implies
            r.chars@.subrange(0, lp as int) == prefix@ && lp < n && r.chars@.subrange(lp as int, n - 1) == team by {
            assert(r.chars@.subrange(0, lp as int) =~= prefix@);
            assert(r.chars@.subrange(lp as int, n - 1) =~= team);
        }
    }
    let p = r.lit(0, n, prefix)?;
    if n == p {
        return None;
    }
    let team = r.slice(p, n - 1);
    proof {
        if exists|t: Seq<char>| r.text@ == released_text(t) {
            assert(r.text@ =~= prefix@ + team@ + "."@);
        }
    }
    accept(ParsedFeedEventText::Released { team }, event)
}

/// The text of a feed event releasing a player from `team`.
pub open spec fn released_text(team: Seq<char>) -> Seq<char> {
    "Released by the "@ + team + "."@
}

/// Whether the text of `event` has one of the forms of a feed event about a
/// game that are read whenever they have it: a delivery of a plain item, a
/// team's prosperity, a retirement with or without a player called up, and a
/// player injured or infused by a falling star.
pub open spec fn game_text_form(event: FeedEvent) -> bool {
    let t = event.text@;
    &&& event.wf()
    &&& {
        ||| exists|pl: Seq<char>, em: Seq<char>, it: ItemName| stops_after(pl, " received a "@) && no_space(em)
            && t == #[trigger] delivery_text(pl, em, it)
        ||| exists|emoji: Seq<char>, name: Seq<char>, income: u8| no_space(emoji)
            && stops_after(emoji + " "@ + name, " are Prosperous! They earned "@) && t == #[trigger] prosperous_text(emoji, name, income)
        ||| exists|prev: Seq<char>| stops_after(prev, " retired from MMOLB!"@) && t == #[trigger] retirement_text(prev)
        ||| exists|prev: Seq<char>, called: Seq<char>| stops_after(prev, " retired from MMOLB!"@)
            && stops_after(called, " was called up to take their place."@)
            && t == #[trigger] (retirement_text(prev) + " "@ + called + " was called up to take their place."@)
        ||| exists|name: Seq<char>| #[trigger] stops_after(name, injury_words(event)) && t == name + injury_words(event)
        ||| exists|player: Seq<char>, tier: CelestialEnergyTier| t == #[trigger] (player + " "@ + tier.spec_name())
    }
}

/// Whether the text of `event` has one of the forms of a feed event about an
/// augment that are read whenever they have it: gains, enchantments of plain
/// items, modifications, a player moved to the mound or to the plate, one
/// player's attribute set to another, swapped places and recompositions.
pub open spec fn augment_text_form(event: FeedEvent) -> bool {
    let t = event.text@;
    &&& event.wf()
    &&& {
        ||| exists|player: Seq<char>, amount: i16, attribute: Attribute| #[trigger] gain_form(t, player, amount, attribute)
        ||| exists|player: Seq<char>, item: ItemName, amount: u8, attribute: Attribute|
            !event.spec_after(Breakpoints::Season1EnchantmentChange) && stops_after(player, "'s "@)
            && t == #[trigger] old_enchantment_text(player, item, amount, attribute)
        ||| exists|compensatory: bool, player: Seq<char>, item: ItemName, amount: u8, attribute: Attribute|
            (compensatory || event.spec_after(Breakpoints::Season1EnchantmentChange)) && stops_after(player, "'s "@)
            && crate::text::lacks(t, " was enchanted with +"@)
            && t == #[trigger] bonus_enchantment_text(compensatory, player, item, amount, attribute)
        ||| exists|player: Seq<char>, name: Seq<char>| stops_after(player, " gained the "@)
            && stops_after(name, " Modification."@) && t == #[trigger] modification_text(player, name)
        ||| exists|a: Seq<char>, b: Seq<char>| stops_after(a, " was moved to the mound. "@)
            && stops_after(b, " was sent to the lineup."@)
            && t == #[trigger] (a + " was moved to the mound. "@ + b + " was sent to the lineup."@)
        ||| exists|a: Seq<char>, b: Seq<char>| stops_after(a, " was sent to the plate. "@)
            && stops_after(b, " was pulled from the lineup."@)
            && t == #[trigger] (a + " was sent to the plate. "@ + b + " was pulled from the lineup."@)
        ||| exists|name: Seq<char>, changing: Attribute, middle: Seq<char>, value: Attribute|
            stops_after(name, "'s "@) && written_middle(event, middle) && t == #[trigger] equal_text(name, changing, middle, value)
        ||| exists|a: Seq<char>, b: Seq<char>| stops_after(a, " swapped places with "@)
            && t == #[trigger] (a + " swapped places with "@ + b + "."@)
        ||| exists|a: Seq<char>, b: Seq<char>| stops_after(a, recompose_word(event))
            && t == #[trigger] (a + recompose_word(event) + b + "."@)
    }
}

/// What parsing the text of `event` gives for the texts that are read whenever
/// they have their type's form: the release of a player, the final score of a
/// game and a player gaining in one attribute; deliveries, prosperity and
/// retirements, modifications and players moved to the mound or the plate,
/// where the text holds none of the words of the forms tried before them; and
/// that the other forms of game and augment events are read rather than refused.
pub open spec fn reads_known_feed_forms<S: crate::text::Text>(r: ParsedFeedEventText<S>, event: FeedEvent) -> bool {
    &&& (event.event_type == Ok::<FeedEventType, crate::game::NotRecognized>(FeedEventType::Game)
        && game_text_form(event) ==> !(r is ParseError))
    &&& (event.event_type == Ok::<FeedEventType, crate::game::NotRecognized>(FeedEventType::Augment)
        && augment_text_form(event) ==> !(r is ParseError))
    &&& forall|team: Seq<char>| event.event_type == Ok::<FeedEventType, crate::game::NotRecognized>(FeedEventType::Release)
        && event.wf() && event.text@ == released_text(team)
        ==> (r matches ParsedFeedEventText::Released { team: t } && t@ == team)
    &&& forall|ae: Seq<char>, an: Seq<char>, he: Seq<char>, hn: Seq<char>, away_score: u8, home_score: u8|
        event.event_type == Ok::<FeedEventType, crate::game::NotRecognized>(FeedEventType::Game)
        && event.wf() && game_result_names(ae, an, he, hn)
        && event.text@ == game_result_text(ae, an, he, hn, away_score, home_score)
        ==> (r matches ParsedFeedEventText::GameResult { home_team, away_team, home_score: h, away_score: a }
            && away_team.emoji@ == ae && away_team.name@ == an && home_team.emoji@ == he
            && home_team.name@ == hn && a == away_score && h == home_score)
    &&& forall|player: Seq<char>, amount: i16, attribute: Attribute|
        event.event_type == Ok::<FeedEventType, crate::game::NotRecognized>(FeedEventType::Augment)
        && event.wf() && gain_form(event.text@, player, amount, attribute)
        ==> (r matches ParsedFeedEventText::AttributeChanges { changes } && changes@.len() == 1
            && changes@[0].player_name@ == player && changes@[0].amount == amount
            && changes@[0].attribute == attribute)
    &&& forall|player: Seq<char>, name: Seq<char>|
        event.event_type == Ok::<FeedEventType, crate::game::NotRecognized>(FeedEventType::Augment)
        && event.wf() && stops_after(player, " gained the "@)
        && stops_after(name, " Modification."@) && no_gain_or_enchantment(event.text@)
        && event.text@ == #[trigger] modification_text(player, name)
        ==> (r matches ParsedFeedEventText::Modification { player_name, modification }
            && player_name@ == player && modification.spec_name() == name)
    &&& forall|a: Seq<char>, b: Seq<char>|
        event.event_type == Ok::<FeedEventType, crate::game::NotRecognized>(FeedEventType::Augment)
        && event.wf() && stops_after(a, " was moved to the mound. "@)
        && stops_after(b, " was sent to the lineup."@) && no_gain_or_enchantment(event.text@)
        && crate::text::lacks(event.text@, " gained the "@)
        && event.text@ == #[trigger] mound_text(a, b)
        ==> (r matches ParsedFeedEventText::TakeTheMound { to_mound_player, to_lineup_player }
            && to_mound_player@ == a && to_lineup_player@ == b)
    &&& forall|a: Seq<char>, b: Seq<char>|
        event.event_type == Ok::<FeedEventType, crate::game::NotRecognized>(FeedEventType::Augment)
        && event.wf() && stops_after(a, " was sent to the plate. "@)
        && stops_after(b, " was pulled from the lineup."@) && no_gain_or_enchantment(event.text@)
        && crate::text::lacks(event.text@, " gained the "@) && crate::text::lacks(event.text@, " was moved to the mound. "@)
        && event.text@ == #[trigger] plate_text(a, b)
        ==> (r matches ParsedFeedEventText::TakeThePlate { to_plate_player, from_lineup_player }
            && to_plate_player@ == a && from_lineup_player@ == b)
    &&& forall|pl: Seq<char>, em: Seq<char>, it: ItemName|
        event.event_type == Ok::<FeedEventType, crate::game::NotRecognized>(FeedEventType::Game)
        && event.wf() && stops_after(pl, " received a "@) && no_space(em)
        && crate::text::lacks(event.text@, " vs. "@)
        && event.text@ == #[trigger] delivery_text(pl, em, it)
        ==> (r matches ParsedFeedEventText::Delivery { delivery } && delivery.player@ == pl
            && delivery.item.item_emoji@ == em && delivery.item.item == it && delivery.item.affixes is NoAffixes
            && delivery.discarded is None)
    &&& forall|emoji: Seq<char>, name: Seq<char>, income: u8|
        event.event_type == Ok::<FeedEventType, crate::game::NotRecognized>(FeedEventType::Game)
        && event.wf() && no_space(emoji)
        && stops_after(emoji + " "@ + name, " are Prosperous! They earned "@)
        && crate::text::lacks(event.text@, " vs. "@) && crate::text::lacks(event.text@, " received a "@)
        && event.text@ == #[trigger] prosperous_text(emoji, name, income)
        ==> (r matches ParsedFeedEventText::Prosperous { team, income: i }
            && team.emoji@ == emoji && team.name@ == name && i == income)
    &&& forall|prev: Seq<char>|
        event.event_type == Ok::<FeedEventType, crate::game::NotRecognized>(FeedEventType::Game)
        && event.wf() && stops_after(prev, " retired from MMOLB!"@)
        && crate::text::lacks(event.text@, " vs. "@) && crate::text::lacks(event.text@, " received a "@)
        && crate::text::lacks(event.text@, " are Prosperous! They earned "@)
        && event.text@ == #[trigger] retirement_text(prev)
        ==> (r matches ParsedFeedEventText::Retirement { previous, new } && previous@ == prev && new is None)
    &&& forall|prev: Seq<char>, called: Seq<char>|
        event.event_type == Ok::<FeedEventType, crate::game::NotRecognized>(FeedEventType::Game)
        && event.wf() && stops_after(prev, " retired from MMOLB!"@)
        && stops_after(called, " was called up to take their place."@)
        && crate::text::lacks(event.text@, " vs. "@) && crate::text::lacks(event.text@, " received a "@)
        && crate::text::lacks(event.text@, " are Prosperous! They earned "@)
        && event.text@ == #[trigger] (retirement_text(prev) + " "@ + called + " was called up to take their place."@)
        ==> (r matches ParsedFeedEventText::Retirement { previous, new: Some(nw) } && previous@ == prev
            && nw@ == called)
}

/// Whether `r` is what parsing the text of `event` gives: a value that writes
/// back to the text and that events of its type hold, or the text itself with
/// the reason it was not read.
pub open spec fn is_feed_parse_of<S: crate::text::Text>(r: ParsedFeedEventText<S>, event: FeedEvent) -> bool {
    match event.event_type {
        Err(nr) => r matches ParsedFeedEventText::ParseError { error: FeedEventParseError::EventTypeNotRecognized(e), text }
            && e.0@ == nr.0@ && text@ == event.text@,
        Ok(t) => match r {
            ParsedFeedEventText::ParseError { error, text } => text@ == event.text@
                && (error matches FeedEventParseError::FailedParsingText { event_type, text: m } && event_type == t
                && m@ == event.text@),
            _ => feed_fits(t, r) && writes_feed(r, event),
        },
    }
}

/// Parses the text of a feed event.
pub fn parse_feed_event<'a>(event: &'a FeedEvent) -> (r: ParsedFeedEventText<&'a str>)
    ensures
        is_feed_parse_of(r, *event),
        reads_known_feed_forms(r, *event),
{
    let t = match &event.event_type {
        Ok(t) => *t,
        Err(nr) => {
            let error = FeedEventParseError::EventTypeNotRecognized(crate::game::NotRecognized(nr.0.clone()));
            return ParsedFeedEventText::ParseError { error, text: event.text.as_str() };
        },
    };
    let r = Reader::new(event.text.as_str());
    let res = match t {
        FeedEventType::Game => game_feed_event(&r, event),
        FeedEventType::Augment => augment_feed_event(&r, event),
        FeedEventType::Release => release(&r, event),
        FeedEventType::Season => None,
    };
    match res {
        Some(m) => m,
        None => {
            let error = FeedEventParseError::FailedParsingText { event_type: t, text: event.text.clone() };
            ParsedFeedEventText::ParseError { error, text: event.text.as_str() }
        },
    }
}

} // verus!
