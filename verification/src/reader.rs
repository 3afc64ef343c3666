//! Reading the parts of an event message: literals, names that run up to a
//! literal, numbers, and the lists of runners that end many messages.

use vstd::prelude::*;
use crate::enums::{Base, BaseNameVariant};
use crate::parsed_event::{BaseSteal, EmojiTeam, PlacedPlayer, RunnerAdvance, RunnerOut};
use crate::places::Place;
use crate::text::{chars_of, dec, digit_run, find_from, leading_unsigned, lemma_leading_dec, lemma_stops_after, matches_at, occurs_at, score_text, spec_leading_unsigned, stops_after, str_eq};

verus! {

/// A message together with its characters, from which parts of the message are
/// cut as slices of it.
pub(crate) struct Reader<'a> {
    pub(crate) text: &'a str,
    pub(crate) chars: Vec<char>,
}

impl<'a> Reader<'a> {
    /// The characters are those of the text.
    pub(crate) open spec fn wf(&self) -> bool {
        self.chars@ == self.text@
    }

    /// The number of characters in the message.
    pub(crate) open spec fn size(&self) -> nat {
        self.chars@.len()
    }

    pub(crate) fn new(text: &'a str) -> (r: Reader<'a>)
        ensures
            r.wf(),
            r.text == text,
    {
        Reader { text, chars: chars_of(text) }
    }

    pub(crate) fn len(&self) -> (r: usize)
        ensures
            r == self.size(),
    {
        self.chars.len()
    }

    /// The characters `a..b` of the message.
    pub(crate) fn slice(&self, a: usize, b: usize) -> (r: &'a str)
        requires
            self.wf(),
            a <= b <= self.size(),
        ensures
            r@ == self.text@.subrange(a as int, b as int),
    {
        self.text.substring_char(a, b)
    }

    /// The position after `lit` when it stands at `pos` and ends by `end`.
    pub(crate) fn lit(&self, pos: usize, end: usize, lit: &str) -> (r: Option<usize>)
        requires
            pos <= end <= self.size(),
        ensures
            match r {
                Some(p) => p == pos + lit@.len() && p <= end && self.chars@.subrange(pos as int, p as int) == lit@,
                None => !(pos + lit@.len() <= end && self.chars@.subrange(pos as int, pos + lit@.len()) == lit@),
            },
    {
        if matches_at(&self.chars, pos, lit) {
            let l = lit.unicode_len();
            if l <= end - pos {
                return Some(pos + l);
            }
        }
        None
    }

    /// Whether the characters `a..b` are exactly `lit`.
    pub(crate) fn is(&self, a: usize, b: usize, lit: &str) -> (r: bool)
        requires
            a <= b <= self.size(),
        ensures
            r == (self.chars@.subrange(a as int, b as int) == lit@),
    {
        match self.lit(a, b, lit) {
            Some(p) => p == b,
            None => false,
        }
    }

    /// The first position from `pos` at which `lit` stands, ending by `end`.
    pub(crate) fn find(&self, pos: usize, end: usize, lit: &str) -> (r: Option<usize>)
        requires
            pos <= end <= self.size(),
        ensures
            match r {
                Some(q) => pos <= q && q + lit@.len() <= end && occurs_at(self.chars@, q as int, lit@)
                    && forall|k: int| pos <= k < q ==> !#[trigger] occurs_at(self.chars@, k, lit@),
                None => forall|k: int| pos <= k && k + lit@.len() <= end ==> !#[trigger] occurs_at(self.chars@, k, lit@),
            },
    {
        find_from(&self.chars, pos, end, lit)
    }

    /// The last position in `pos..end` holding `c`.
    pub(crate) fn rfind_char(&self, pos: usize, end: usize, c: char) -> (r: Option<usize>)
        requires
            pos <= end <= self.size(),
        ensures
            match r {
                Some(q) => pos <= q < end && self.chars@[q as int] == c
                    && forall|k: int| q < k < end ==> #[trigger] self.chars@[k] != c,
                None => forall|k: int| pos <= k < end ==> #[trigger] self.chars@[k] != c,
            },
    {
        let mut q = end;
        while q > pos
            invariant
                pos <= q <= end <= self.chars@.len(),
                forall|k: int| q <= k < end ==> #[trigger] self.chars@[k] != c,
            decreases q,
        {
            q -= 1;
            if self.chars[q] == c {
                return Some(q);
            }
        }
        None
    }

    /// The text from `pos` up to the first `term` before `end`, and the position after `term`.
    pub(crate) fn until(&self, pos: usize, end: usize, term: &str) -> (r: Option<(&'a str, usize)>)
        requires
            self.wf(),
            pos <= end <= self.size(),
        ensures
            match r {
                Some((s, p)) => pos + term@.len() <= p <= end
                    && s@ == self.text@.subrange(pos as int, p - term@.len())
                    && occurs_at(self.chars@, p - term@.len(), term@)
                    && forall|k: int| pos <= k < p - term@.len() ==> !#[trigger] occurs_at(self.chars@, k, term@),
                None => forall|k: int| pos <= k && k + term@.len() <= end ==> !#[trigger] occurs_at(self.chars@, k, term@),
            },
            forall|name: Seq<char>| #[trigger] stops_after(name, term@) && pos + name.len() + term@.len() <= end
                && self.text@.subrange(pos as int, pos + name.len() + term@.len()) == name + term@
                ==> (r matches Some((s, p)) && s@ == name && p == pos + name.len() + term@.len()),
    {
        proof {
            assert forall|name: Seq<char>| #[trigger] stops_after(name, term@) && pos + name.len() + term@.len() <= end
                && self.text@.subrange(pos as int, pos + name.len() + term@.len()) == name + term@
                implies occurs_at(self.chars@, pos + name.len(), term@)
                && forall|k: int| pos <= k < pos + name.len() ==> !#[trigger] occurs_at(self.chars@, k, term@) by {
                lemma_stops_after(self.chars@, pos as int, name, term@);
            }
        }
        match self.find(pos, end, term) {
            Some(q) => {
                let p = self.lit(q, end, term)?;
                let s = self.slice(pos, q);
                proof {
                    assert forall|name: Seq<char>| #[trigger] stops_after(name, term@) && pos + name.len() + term@.len() <= end
                        && self.text@.subrange(pos as int, pos + name.len() + term@.len()) == name + term@
                        implies s@ == name && p == pos + name.len() + term@.len() by {
                        let k = pos + name.len();
                        assert(occurs_at(self.chars@, k, term@));
                        if q < k {
                            assert(!occurs_at(self.chars@, q as int, term@));
                        }
                        if q > k {
                            assert(!occurs_at(self.chars@, k, term@));
                        }
                        let t = self.text@.subrange(pos as int, pos + name.len() + term@.len());
                        assert(s@ =~= t.subrange(0, name.len() as int));
                        assert(t.subrange(0, name.len() as int) =~= name);
                    }
                }
                Some((s, p))
            },
            None => {
                proof {
                    assert forall|name: Seq<char>| #[trigger] stops_after(name, term@) && pos + name.len() + term@.len() <= end
                        && self.text@.subrange(pos as int, pos + name.len() + term@.len()) == name + term@
                        implies false by {
                        assert(occurs_at(self.chars@, pos + name.len(), term@));
                    }
                }
                None
            },
        }
    }

    /// A number of at most 255 at `pos`, and the position after its digits.
    pub(crate) fn number(&self, pos: usize, end: usize) -> (r: Option<(u8, usize)>)
        requires
            pos <= end <= self.size(),
        ensures
            match r {
                Some((k, p)) => pos <= p <= end
                    && spec_leading_unsigned(self.chars@.subrange(pos as int, end as int), 255) == Some(k as nat)
                    && p == pos + digit_run(self.chars@.subrange(pos as int, end as int)),
                None => spec_leading_unsigned(self.chars@.subrange(pos as int, end as int), 255) is None,
            },
    {
        match leading_unsigned(&self.chars, pos, end, 255) {
            Some((n, p)) => Some((n as u8, p)),
            None => None,
        }
    }

    /// A score "{a}-{b}" at `pos`.
    pub(crate) fn score(&self, pos: usize, end: usize) -> (res: Option<(u8, u8)>)
        requires
            self.wf(),
            pos <= end <= self.size(),
        ensures
            forall|a: u8, b: u8| self.chars@.subrange(pos as int, end as int) == #[trigger] score_text(a, b)
                ==> res == Some((a, b)),
    {
        proof {
            reveal_strlit("-");
            assert forall|a: u8, b: u8| self.chars@.subrange(pos as int, end as int) == #[trigger] score_text(a, b) implies ({
                let p1 = pos + dec(a as nat).len();
                &&& spec_leading_unsigned(self.chars@.subrange(pos as int, end as int), 255) == Some(a as nat)
                &&& digit_run(self.chars@.subrange(pos as int, end as int)) == dec(a as nat).len()
                &&& p1 + 1 <= end && self.chars@.subrange(p1, p1 + 1) == "-"@
                &&& spec_leading_unsigned(self.chars@.subrange(p1 + 1, end as int), 255) == Some(b as nat)
            }) by {
                let d = dec(a as nat);
                let e = dec(b as nat);
                let p1 = pos + d.len();
                let sub = self.chars@.subrange(pos as int, end as int);
                assert(sub =~= d + ("-"@ + e));
                lemma_leading_dec(a, "-"@ + e);
                assert(self.chars@.subrange(p1, p1 + 1) =~= sub.subrange(d.len() as int, (d.len() + 1) as int));
                assert(sub.subrange(d.len() as int, (d.len() + 1) as int) =~= "-"@);
                assert(self.chars@.subrange(p1 + 1, end as int) =~= sub.subrange((d.len() + 1) as int, sub.len() as int));
                assert(sub.subrange((d.len() + 1) as int, sub.len() as int) =~= e + Seq::<char>::empty());
                lemma_leading_dec(b, Seq::<char>::empty());
            }
        }
        let (a, p) = self.number(pos, end)?;
        let p = self.lit(p, end, "-")?;
        let (b, _) = self.number(p, end)?;
        Some((a, b))
    }

    /// A team of the game, as its emoji, a space and its name, standing at `pos`.
    pub(crate) fn team(&self, pos: usize, end: usize, team: &EmojiTeam<&str>) -> (r: Option<(EmojiTeam<&'a str>, usize)>)
        requires
            self.wf(),
            pos <= end <= self.size(),
        ensures
            match r {
                Some((t, p)) => pos <= p <= end && t.emoji@ == team.emoji@ && t.name@ == team.name@
                    && p == pos + team.spec_text().len(),
                None => !(pos + team.spec_text().len() <= end
                    && self.text@.subrange(pos as int, pos + team.spec_text().len()) == team.spec_text()),
            },
    {
        proof {
            reveal_strlit(" ");
            let l = team.spec_text().len();
            let a = pos + team.emoji@.len();
            if pos + l <= end && self.text@.subrange(pos as int, pos + l) == team.spec_text() {
                assert(self.chars@.subrange(pos as int, a) =~= team.emoji@);
                let t = team.spec_text();
                let e = team.emoji@.len() as int;
                assert(t.subrange(e, e + 1) =~= " "@);
                assert(t.subrange(e + 1, l as int) =~= team.name@);
                assert(self.chars@.subrange(a, a + 1) =~= t.subrange(e, e + 1));
                assert(self.chars@.subrange(a + 1, pos + l) =~= t.subrange(e + 1, l as int));
            }
        }
        let a = self.lit(pos, end, team.emoji)?;
        let b = self.lit(a, end, " ")?;
        let c = self.lit(b, end, team.name)?;
        Some((EmojiTeam { emoji: self.slice(pos, a), name: self.slice(b, c) }, c))
    }

    /// A team written as its emoji, a space and its name, filling `a..b`.
    pub(crate) fn emoji_team(&self, a: usize, b: usize) -> (r: Option<EmojiTeam<&'a str>>)
        requires
            self.wf(),
            a <= b <= self.size(),
        ensures
            match r {
                Some(t) => t.emoji@ + " "@ + t.name@ == self.text@.subrange(a as int, b as int) && no_space(t.emoji@),
                None => no_space(self.text@.subrange(a as int, b as int)),
            },
    {
        proof {
            reveal_strlit(" ");
            assert forall|k: int| a <= k < b && self.chars@[k] == ' ' implies #[trigger] occurs_at(self.chars@, k, " "@) by {
                assert(self.chars@.subrange(k, k + 1) =~= " "@);
            }
        }
        let sp = match self.find(a, b, " ") {
            Some(sp) => sp,
            None => {
                proof {
                    assert forall|i: int| 0 <= i < b - a implies #[trigger] self.text@.subrange(a as int, b as int)[i] != ' ' by {
                        if self.chars@[a + i] == ' ' {
                            assert(occurs_at(self.chars@, a + i, " "@));
                        }
                    }
                }
                return None;
            },
        };
        let n = self.lit(sp, b, " ")?;
        let team = EmojiTeam { emoji: self.slice(a, sp), name: self.slice(n, b) };
        proof {
            assert(team.emoji@ + " "@ + team.name@ =~= self.text@.subrange(a as int, b as int));
            assert forall|i: int| 0 <= i < team.emoji@.len() implies #[trigger] team.emoji@[i] != ' ' by {
                if self.chars@[a + i] == ' ' {
                    assert(occurs_at(self.chars@, a + i, " "@));
                }
            }
        }
        Some(team)
    }

    /// A team, as its emoji, a space and its name, between `prefix` at the start
    /// of the message and `suffix` at its end.
    pub(crate) fn framed_team(&self, prefix: &str, suffix: &str) -> (r: Option<EmojiTeam<&'a str>>)
        requires
            self.wf(),
        ensures
            r matches Some(t) ==> self.text@ == prefix@ + t.emoji@ + " "@ + t.name@ + suffix@ && no_space(t.emoji@),
            forall|emoji: Seq<char>, name: Seq<char>|
                no_space(emoji) && #[trigger] (prefix@ + emoji + " "@ + name + suffix@) == self.text@
                ==> (r matches Some(t) && t.emoji@ == emoji && t.name@ == name),
    {
        let n = self.len();
        let l = suffix.unicode_len();
        proof {
            reveal_strlit(" ");
            assert forall|emoji: Seq<char>, name: Seq<char>|
                no_space(emoji) && #[trigger] (prefix@ + emoji + " "@ + name + suffix@) == self.text@ implies
                prefix@.len() + l <= n
                && self.chars@.subrange(0, prefix@.len() as int) == prefix@
                && self.chars@.subrange(n - l, n as int) == suffix@
                && self.text@.subrange(prefix@.len() as int, n - l) == emoji + " "@ + name
                && !no_space(self.text@.subrange(prefix@.len() as int, n - l)) by {
                assert(self.chars@.subrange(0, prefix@.len() as int) =~= prefix@);
                assert(self.chars@.subrange(n - l, n as int) =~= suffix@);
                assert(self.text@.subrange(prefix@.len() as int, n - l) =~= emoji + " "@ + name);
                assert(self.text@.subrange(prefix@.len() as int, n - l)[emoji.len() as int] == ' ');
            }
        }
        let p = self.lit(0, n, prefix)?;
        if n - p < l || !self.is(n - l, n, suffix) {
            return None;
        }
        let t = self.emoji_team(p, n - l)?;
        proof {
            let c = self.chars@;
            assert(c =~= c.subrange(0, p as int) + c.subrange(p as int, n - l) + c.subrange(n - l, n as int));
            assert(self.text@ =~= prefix@ + (t.emoji@ + " "@ + t.name@) + suffix@);
            assert(self.text@ =~= prefix@ + t.emoji@ + " "@ + t.name@ + suffix@);
            assert forall|emoji: Seq<char>, name: Seq<char>|
                no_space(emoji) && #[trigger] (prefix@ + emoji + " "@ + name + suffix@) == self.text@ implies
                t.emoji@ == emoji && t.name@ == name by {
                lemma_first_space_split(t.emoji@, t.name@, emoji, name);
            }
        }
        Some(t)
    }

    /// Whether the message holds, from `pos` and ending by `end`, the team `emoji`
    /// `name` and then `sep`, with `sep` occurring there only after the team.
    pub(crate) open spec fn team_then_at(&self, pos: int, end: int, emoji: Seq<char>, name: Seq<char>, sep: Seq<char>) -> bool {
        let w = emoji + " "@ + name;
        &&& no_space(emoji)
        &&& stops_after(w, sep)
        &&& 0 <= pos
        &&& pos + w.len() + sep.len() <= end
        &&& self.text@.subrange(pos, pos + w.len() + sep.len()) == w + sep
    }

    /// A team, as its emoji, a space and its name, from `pos` up to the first
    /// `sep` before `end`, and the position after `sep`.
    pub(crate) fn team_until(&self, pos: usize, end: usize, sep: &str) -> (r: Option<(EmojiTeam<&'a str>, usize)>)
        requires
            self.wf(),
            pos <= end <= self.size(),
        ensures
            r matches Some((t, p)) ==> pos <= p <= end && no_space(t.emoji@)
                && self.text@.subrange(pos as int, p as int) == t.emoji@ + " "@ + t.name@ + sep@,
            forall|emoji: Seq<char>, name: Seq<char>| #[trigger] self.team_then_at(pos as int, end as int, emoji, name, sep@)
                ==> (r matches Some((t, p)) && t.emoji@ == emoji && t.name@ == name
                    && p == pos + (emoji + " "@ + name).len() + sep@.len()),
    {
        proof {
            reveal_strlit(" ");
            assert forall|emoji: Seq<char>, name: Seq<char>| #[trigger] self.team_then_at(pos as int, end as int, emoji, name, sep@)
                implies occurs_at(self.chars@, pos + (emoji + " "@ + name).len(), sep@)
                && forall|k: int| pos <= k < pos + (emoji + " "@ + name).len() ==> !#[trigger] occurs_at(self.chars@, k, sep@) by {
                lemma_stops_after(self.chars@, pos as int, emoji + " "@ + name, sep@);
            }
        }
        let q = match self.find(pos, end, sep) {
            Some(q) => q,
            None => {
                proof {
                    assert forall|emoji: Seq<char>, name: Seq<char>| #[trigger] self.team_then_at(pos as int, end as int, emoji, name, sep@)
                        implies false by {
                        assert(occurs_at(self.chars@, pos + (emoji + " "@ + name).len(), sep@));
                    }
                }
                return None;
            },
        };
        proof {
            assert forall|emoji: Seq<char>, name: Seq<char>| #[trigger] self.team_then_at(pos as int, end as int, emoji, name, sep@)
                implies q == pos + (emoji + " "@ + name).len()
                && self.text@.subrange(pos as int, q as int) == emoji + " "@ + name
                && !no_space(self.text@.subrange(pos as int, q as int)) by {
                let k = pos + (emoji + " "@ + name).len();
                assert(occurs_at(self.chars@, k, sep@));
                if q < k {
                    assert(!occurs_at(self.chars@, q as int, sep@));
                }
                let w = emoji + " "@ + name;
                assert(self.text@.subrange(pos as int, q as int) =~= w) by {
                    assert forall|j: int| 0 <= j < w.len() implies self.text@.subrange(pos as int, q as int)[j] == w[j] by {
                        assert(self.text@.subrange(pos as int, pos + w.len() + sep@.len())[j] == (w + sep@)[j]);
                    }
                }
                assert(self.text@.subrange(pos as int, q as int)[emoji.len() as int] == ' ');
            }
        }
        let t = match self.emoji_team(pos, q) {
            Some(t) => t,
            None => return None,
        };
        let p = match self.lit(q, end, sep) {
            Some(p) => p,
            None => return None,
        };
        proof {
            let c = self.chars@;
            assert(c.subrange(pos as int, p as int) =~= c.subrange(pos as int, q as int) + c.subrange(q as int, p as int));
            assert forall|emoji: Seq<char>, name: Seq<char>| #[trigger] self.team_then_at(pos as int, end as int, emoji, name, sep@)
                implies t.emoji@ == emoji && t.name@ == name by {
                lemma_first_space_split(t.emoji@, t.name@, emoji, name);
            }
        }
        Some((t, p))
    }

    /// A player written as their place, a space and their name, filling `a..b`.
    pub(crate) fn placed_player(&self, a: usize, b: usize) -> (r: Option<PlacedPlayer<&'a str>>)
        requires
            self.wf(),
            a <= b <= self.size(),
        ensures
            r matches Some(pp) ==> placed_reads(self.text@.subrange(a as int, b as int), pp.place, pp.name@),
            forall|place: Place, name: Seq<char>| self.text@.subrange(a as int, b as int) == #[trigger] (place.spec_name() + " "@ + name)
                ==> (r matches Some(pp) && pp.place == place && pp.name@ == name),
    {
        proof {
            reveal_strlit(" ");
            assert forall|place: Place, name: Seq<char>| self.text@.subrange(a as int, b as int) == #[trigger] (place.spec_name() + " "@ + name)
                implies occurs_at(self.chars@, a + place.spec_name().len(), " "@)
                && (forall|k: int| a <= k < a + place.spec_name().len() ==> !#[trigger] occurs_at(self.chars@, k, " "@))
                && a + place.spec_name().len() + 1 <= b by {
                let pn = place.spec_name();
                place.lemma_name_is_word();
                lemma_word_stops(pn, " "@);
                let t = self.chars@.subrange(a as int, b as int);
                assert(t == pn + " "@ + name);
                assert(t.len() == pn.len() + 1 + name.len());
                assert(self.chars@.subrange(a as int, a + pn.len() + 1) =~= t.subrange(0, pn.len() + 1int));
                assert(t.subrange(0, pn.len() + 1int) =~= pn + " "@);
                lemma_stops_after(self.chars@, a as int, pn, " "@);
            }
        }
        let sp = match self.find(a, b, " ") {
            Some(sp) => sp,
            None => {
                proof {
                    assert forall|place: Place, name: Seq<char>| self.text@.subrange(a as int, b as int) == #[trigger] (place.spec_name() + " "@ + name)
                        implies false by {
                        assert(occurs_at(self.chars@, a + place.spec_name().len(), " "@));
                    }
                }
                return None;
            },
        };
        proof {
            assert forall|place: Place, name: Seq<char>| self.text@.subrange(a as int, b as int) == #[trigger] (place.spec_name() + " "@ + name)
                implies sp == a + place.spec_name().len() && Place::spec_parse(self.text@.subrange(a as int, sp as int)) == Some(place)
                && self.text@.subrange(sp + 1, b as int) == name by {
                let k = a + place.spec_name().len();
                assert(occurs_at(self.chars@, k, " "@));
                if sp < k {
                    assert(!occurs_at(self.chars@, sp as int, " "@));
                }
                if sp > k {
                    assert(!occurs_at(self.chars@, k, " "@));
                }
                let t = self.chars@.subrange(a as int, b as int);
                let l = place.spec_name().len() as int;
                assert(t == place.spec_name() + " "@ + name);
                assert(t.len() == l + 1 + name.len());
                assert(self.text@.subrange(a as int, sp as int) =~= t.subrange(0, l));
                assert(t.subrange(0, l) =~= place.spec_name());
                assert(self.text@.subrange(sp + 1, b as int) =~= t.subrange(l + 1, t.len() as int));
                assert(t.subrange(l + 1, t.len() as int) =~= name);
                place.lemma_parse_name();
            }
        }
        let n = self.lit(sp, b, " ")?;
        match Place::from_str(self.slice(a, sp)) {
            Ok(place) => {
                let pp = PlacedPlayer { name: self.slice(n, b), place };
                proof {
                    let t = self.text@.subrange(a as int, b as int);
                    let k = sp - a;
                    assert(self.chars@.subrange(sp as int, n as int)[0] == t[k]);
                    assert(t.subrange(0, k) =~= self.text@.subrange(a as int, sp as int));
                    assert(t.subrange(k + 1, t.len() as int) =~= pp.name@);
                    assert(placed_reads(t, pp.place, pp.name@));
                }
                Some(pp)
            },
            Err(_) => None,
        }
    }

    /// Players written as places and names, separated by " to ", filling `a..b`.
    pub(crate) fn fielder_chain(&self, a: usize, b: usize) -> (r: Option<Vec<PlacedPlayer<&'a str>>>)
        requires
            self.wf(),
            a <= b <= self.size(),
        ensures
            r matches Some(v) ==> chain_reads(self.text@.subrange(a as int, b as int), v@),
    {
        let mut fielders: Vec<PlacedPlayer<&'a str>> = Vec::new();
        let mut p = a;
        proof {
            reveal_strlit(" to ");
        }
        loop
            invariant
                self.wf(),
                a <= p <= b <= self.size(),
                fielders@.len() == 0 ==> p == a,
                fielders@.len() > 0 ==> a + 4 <= p && self.text@.subrange(p - 4, p as int) == " to "@
                    && chain_reads(self.text@.subrange(a as int, p - 4), fielders@),
            decreases b - p,
        {
            proof {
                reveal_strlit(" to ");
            }
            match self.find(p, b, " to ") {
                Some(q) => {
                    let f = self.placed_player(p, q)?;
                    let ghost old_fielders = fielders@;
                    fielders.push(f);
                    proof {
                        assert(fielders@.drop_last() =~= old_fielders);
                        self.lemma_chain_step(a as int, p as int, q as int, old_fielders, fielders@);
                    }
                    p = self.lit(q, b, " to ")?;
                },
                None => {
                    let f = self.placed_player(p, b)?;
                    let ghost old_fielders = fielders@;
                    fielders.push(f);
                    proof {
                        assert(fielders@.drop_last() =~= old_fielders);
                        self.lemma_chain_step(a as int, p as int, b as int, old_fielders, fielders@);
                    }
                    return Some(fielders);
                },
            }
        }
    }

    /// A chain that reads as `old`, then " to " and a player, reads as `old`
    /// with the player after it.
    proof fn lemma_chain_step<S: crate::text::Text>(&self, a: int, p: int, q: int, old: Seq<PlacedPlayer<S>>, new: Seq<PlacedPlayer<S>>)
        requires
            0 <= a <= p <= q <= self.text@.len(),
            new.len() == old.len() + 1,
            new.drop_last() == old,
            placed_reads(self.text@.subrange(p, q), new.last().place, new.last().name@),
            old.len() == 0 ==> p == a,
            old.len() > 0 ==> a + 4 <= p && self.text@.subrange(p - 4, p) == " to "@
                && chain_reads(self.text@.subrange(a, p - 4), old),
        ensures
            chain_reads(self.text@.subrange(a, q), new),
    {
        let t = self.text@.subrange(a, q);
        if old.len() == 0 {
            assert(new[0] == new.last());
            assert(t =~= self.text@.subrange(p, q));
        } else {
            let k = p - 4 - a;
            assert(t.subrange(k, k + 4) =~= self.text@.subrange(p - 4, p));
            assert(t.subrange(0, k) =~= self.text@.subrange(a, p - 4));
            assert(t.subrange(k + 4, t.len() as int) =~= self.text@.subrange(p, q));
        }
    }

    /// The fielders of a ground out, filling `a..b`: " to {fielder}" or ", {chain}".
    pub(crate) fn fielders(&self, a: usize, b: usize) -> (r: Option<Vec<PlacedPlayer<&'a str>>>)
        requires
            self.wf(),
            a <= b <= self.size(),
        ensures
            forall|place: Place, name: Seq<char>| self.text@.subrange(a as int, b as int) == " to "@ + #[trigger] (place.spec_name() + " "@ + name)
                ==> (r matches Some(v) && v@.len() == 1 && v@[0].place == place && v@[0].name@ == name),
    {
        proof {
            reveal_strlit(" to ");
            assert forall|place: Place, name: Seq<char>| self.text@.subrange(a as int, b as int) == " to "@ + #[trigger] (place.spec_name() + " "@ + name)
                implies a + 4 <= b && self.chars@.subrange(a as int, a + 4) == " to "@
                && self.text@.subrange(a + 4, b as int) == place.spec_name() + " "@ + name by {
                let t = self.chars@.subrange(a as int, b as int);
                assert(t == " to "@ + (place.spec_name() + " "@ + name));
                assert(t.len() == 4 + (place.spec_name() + " "@ + name).len());
                assert(self.chars@.subrange(a as int, a + 4) =~= t.subrange(0, 4));
                assert(t.subrange(0, 4) =~= " to "@);
                assert(self.text@.subrange(a + 4, b as int) =~= t.subrange(4, t.len() as int));
                assert(t.subrange(4, t.len() as int) =~= place.spec_name() + " "@ + name);
            }
        }
        if let Some(p) = self.lit(a, b, " to ") {
            let f = self.placed_player(p, b)?;
            Some(vec![f])
        } else {
            let p = self.lit(a, b, ", ")?;
            self.fielder_chain(p, b)
        }
    }

    /// The fielders of a play, filling `a..b`: ", {fielder} unassisted" or ", {chain}".
    pub(crate) fn fielders_for_play(&self, a: usize, b: usize) -> (r: Option<Vec<PlacedPlayer<&'a str>>>)
        requires
            self.wf(),
            a <= b <= self.size(),
        ensures
            r matches Some(v) ==> a + 2 <= b && self.text@.subrange(a as int, a + 2) == ", "@ && (
                (v@.len() == 1 && a + 13 <= b && self.text@.subrange(b - 11, b as int) == " unassisted"@
                    && placed_reads(self.text@.subrange(a + 2, b - 11), v@[0].place, v@[0].name@))
                || chain_reads(self.text@.subrange(a + 2, b as int), v@)),
            forall|place: Place, name: Seq<char>|
                self.text@.subrange(a as int, b as int) == #[trigger] unassisted_text(place, name)
                ==> (r matches Some(v) && v@.len() == 1 && v@[0].place == place && v@[0].name@ == name),
    {
        proof {
            reveal_strlit(", ");
            reveal_strlit(" ");
            reveal_strlit(" unassisted");
            assert forall|place: Place, name: Seq<char>|
                self.text@.subrange(a as int, b as int) == #[trigger] unassisted_text(place, name)
                implies a + 14 + place.spec_name().len() + name.len() == b
                && self.chars@.subrange(a as int, a + 2) == ", "@
                && self.chars@.subrange(b - 11, b as int) == " unassisted"@
                && self.text@.subrange(a + 2, b - 11) == place.spec_name() + " "@ + name by {
                let t = self.text@.subrange(a as int, b as int);
                assert(t.len() == 2 + place.spec_name().len() + 1 + name.len() + 11);
                assert(self.chars@.subrange(a as int, a + 2) =~= t.subrange(0, 2));
                assert(t.subrange(0, 2) =~= ", "@);
                assert(self.chars@.subrange(b - 11, b as int) =~= t.subrange(t.len() - 11, t.len() as int));
                assert(t.subrange(t.len() - 11, t.len() as int) =~= " unassisted"@);
                assert(self.text@.subrange(a + 2, b - 11) =~= t.subrange(2, t.len() - 11));
                assert(t.subrange(2, t.len() - 11) =~= place.spec_name() + " "@ + name);
            }
        }
        let p = self.lit(a, b, ", ")?;
        if b - p >= 11 && self.is(b - 11, b, " unassisted") {
            let f = self.placed_player(p, b - 11)?;
            let v = vec![f];
            proof {
                assert(v@[0] == f);
            }
            Some(v)
        } else {
            self.fielder_chain(p, b)
        }
    }

    /// Runners scoring, each as " <strong>{runner} scores!</strong>", from `pos`.
    #[verifier::spinoff_prover]
    pub(crate) fn scores(&self, pos: usize, end: usize) -> (r: (Vec<&'a str>, usize))
        requires
            self.wf(),
            pos <= end <= self.size(),
        ensures
            pos <= r.1 <= end,
            pos == end ==> r.0@.len() == 0,
            !(pos + 9 <= end && self.chars@.subrange(pos as int, pos + 9) == " <strong>"@) ==> r.0@.len() == 0 && r.1 == pos,
            forall|rs: Seq<Seq<char>>, rest: Seq<char>| scoring_runners(rs) && !starts_strong(rest) && pos + score_entries(rs).len() + rest.len() == end
                && self.text@.subrange(pos as int, end as int) == #[trigger] (score_entries(rs) + rest)
                ==> r.0@.len() == rs.len() && (forall|i: int| 0 <= i < rs.len() ==> (#[trigger] r.0@[i])@ == rs[i])
                    && r.1 == pos + score_entries(rs).len(),
    {
        let mut scores: Vec<&'a str> = Vec::new();
        let mut p = pos;
        proof {
            assert forall|rs: Seq<Seq<char>>, rest: Seq<char>| scoring_runners(rs) && !starts_strong(rest) && pos + score_entries(rs).len() + rest.len() == end
                && self.text@.subrange(pos as int, end as int) == #[trigger] (score_entries(rs) + rest)
                implies p == pos + score_entries(rs.take(scores@.len() as int)).len() by {
                assert(rs.take(0) =~= Seq::<Seq<char>>::empty());
            }
        }
        loop
            invariant
                self.wf(),
                pos <= p <= end <= self.size(),
                p == pos ==> scores@.len() == 0,
                !(pos + 9 <= end && self.chars@.subrange(pos as int, pos + 9) == " <strong>"@) ==> p == pos,
                forall|rs: Seq<Seq<char>>, rest: Seq<char>| scoring_runners(rs) && !starts_strong(rest) && pos + score_entries(rs).len() + rest.len() == end
                    && self.text@.subrange(pos as int, end as int) == #[trigger] (score_entries(rs) + rest)
                    ==> scores@.len() <= rs.len() && p == pos + score_entries(rs.take(scores@.len() as int)).len()
                        && (forall|i: int| 0 <= i < scores@.len() ==> (#[trigger] scores@[i])@ == rs[i]),
            decreases end - p,
        {
            proof {
                reveal_strlit(" <strong>");
            }
            let a = match self.lit(p, end, " <strong>") {
                Some(a) => a,
                None => {
                    proof {
                        assert forall|rs: Seq<Seq<char>>, rest: Seq<char>| scoring_runners(rs) && !starts_strong(rest) && pos + score_entries(rs).len() + rest.len() == end
                && self.text@.subrange(pos as int, end as int) == #[trigger] (score_entries(rs) + rest)
                            implies scores@.len() == rs.len() && p == pos + score_entries(rs).len() by {
                            let i = scores@.len() as int;
                            if i < rs.len() {
                                lemma_score_at(self.chars@, pos as int, end as int, rs, rest, i);
                            }
                            assert(rs.take(i) =~= rs);
                        }
                    }
                    return (scores, p);
                },
            };
            proof {
                assert forall|rs: Seq<Seq<char>>, rest: Seq<char>| scoring_runners(rs) && !starts_strong(rest) && pos + score_entries(rs).len() + rest.len() == end
                && self.text@.subrange(pos as int, end as int) == #[trigger] (score_entries(rs) + rest)
                    implies scores@.len() < rs.len() by {
                    let i = scores@.len() as int;
                    if i == rs.len() {
                        assert(rs.take(i) =~= rs);
                        lemma_scores_done(self.chars@, pos as int, end as int, rs, rest);
                        assert(p == pos + score_entries(rs).len());
                        assert(self.chars@.subrange(p as int, end as int) == rest);
                        assert(rest.len() >= 9);
                        assert(rest.subrange(0, 9) =~= self.chars@.subrange(p as int, p + 9));
                        assert(starts_strong(rest));
                    }
                }
            }
            proof {
                reveal_strlit(" scores!</strong>");
            }
            match self.until(a, end, " scores!</strong>") {
                Some((runner, q)) => {
                    proof {
                        assert forall|rs: Seq<Seq<char>>, rest: Seq<char>| scoring_runners(rs) && !starts_strong(rest) && pos + score_entries(rs).len() + rest.len() == end
                && self.text@.subrange(pos as int, end as int) == #[trigger] (score_entries(rs) + rest)
                            implies runner@ == rs[scores@.len() as int]
                            && q == pos + score_entries(rs.take(scores@.len() + 1int)).len() by {
                            let i = scores@.len() as int;
                            lemma_score_at(self.chars@, pos as int, end as int, rs, rest, i);
                            assert(stops_after(rs[i], " scores!</strong>"@));
                        }
                    }
                    scores.push(runner);
                    p = q;
                },
                None => {
                    proof {
                        assert forall|rs: Seq<Seq<char>>, rest: Seq<char>| scoring_runners(rs) && !starts_strong(rest) && pos + score_entries(rs).len() + rest.len() == end
                && self.text@.subrange(pos as int, end as int) == #[trigger] (score_entries(rs) + rest)
                            implies false by {
                            let i = scores@.len() as int;
                            lemma_score_at(self.chars@, pos as int, end as int, rs, rest, i);
                            assert(stops_after(rs[i], " scores!</strong>"@));
                        }
                    }
                    return (scores, p);
                },
            }
        }
    }

    /// Runners advancing, each as " {runner} to {base} base.", from `pos`.
    pub(crate) fn advances(&self, pos: usize, end: usize) -> (r: (Vec<RunnerAdvance<&'a str>>, usize))
        requires
            self.wf(),
            pos <= end <= self.size(),
        ensures
            pos <= r.1 <= end,
            pos == end ==> r.0@.len() == 0,
            (forall|k: int| pos <= k && k + 4 <= end ==> !#[trigger] occurs_at(self.chars@, k, " to "@))
                ==> r.0@.len() == 0 && r.1 == pos,
            forall|advs: Seq<(Seq<char>, Base)>| advancing_runners(advs) && pos + advance_entries(advs).len() == end
                && self.text@.subrange(pos as int, end as int) == #[trigger] advance_entries(advs)
                ==> r.0@.len() == advs.len() && r.1 == end
                    && (forall|i: int| 0 <= i < advs.len() ==> (#[trigger] r.0@[i]).runner@ == advs[i].0 && r.0@[i].base == advs[i].1),
    {
        let mut advances: Vec<RunnerAdvance<&'a str>> = Vec::new();
        let mut p = pos;
        proof {
            assert forall|advs: Seq<(Seq<char>, Base)>| advancing_runners(advs) && pos + advance_entries(advs).len() == end
                && self.text@.subrange(pos as int, end as int) == #[trigger] advance_entries(advs)
                implies p == pos + advance_entries(advs.take(advances@.len() as int)).len() by {
                assert(advs.take(0) =~= Seq::<(Seq<char>, Base)>::empty());
            }
        }
        loop
            invariant
                forall|advs: Seq<(Seq<char>, Base)>| advancing_runners(advs) && pos + advance_entries(advs).len() == end
                && self.text@.subrange(pos as int, end as int) == #[trigger] advance_entries(advs)
                    ==> advances@.len() <= advs.len() && p == pos + advance_entries(advs.take(advances@.len() as int)).len()
                        && (forall|i: int| 0 <= i < advances@.len() ==> (#[trigger] advances@[i]).runner@ == advs[i].0
                            && advances@[i].base == advs[i].1),
                self.wf(),
                pos <= p <= end <= self.size(),
                p == pos ==> advances@.len() == 0,
                (forall|k: int| pos <= k && k + 4 <= end ==> !#[trigger] occurs_at(self.chars@, k, " to "@)) ==> p == pos,
            decreases end - p,
        {
            match self.advance(p, end) {
                Some((adv, q)) => {
                    proof {
                        assert forall|advs: Seq<(Seq<char>, Base)>| advancing_runners(advs) && pos + advance_entries(advs).len() == end
                && self.text@.subrange(pos as int, end as int) == #[trigger] advance_entries(advs)
                            implies advances@.len() < advs.len()
                            && adv.runner@ == advs[advances@.len() as int].0 && adv.base == advs[advances@.len() as int].1
                            && q == pos + advance_entries(advs.take(advances@.len() + 1int)).len() by {
                            let i = advances@.len() as int;
                            if i == advs.len() {
                                assert(advs.take(i) =~= advs);
                                assert(p == end);
                            } else {
                                lemma_advance_at(self.chars@, pos as int, end as int, advs, i);
                                assert(stops_after(advs[i].0, " to "@));
                            }
                        }
                    }
                    advances.push(adv);
                    p = q;
                },
                None => {
                    proof {
                        assert forall|advs: Seq<(Seq<char>, Base)>| advancing_runners(advs) && pos + advance_entries(advs).len() == end
                && self.text@.subrange(pos as int, end as int) == #[trigger] advance_entries(advs)
                            implies advances@.len() == advs.len() && p == end by {
                            let i = advances@.len() as int;
                            if i < advs.len() {
                                lemma_advance_at(self.chars@, pos as int, end as int, advs, i);
                                assert(stops_after(advs[i].0, " to "@));
                            }
                            assert(advs.take(i) =~= advs);
                        }
                    }
                    return (advances, p);
                },
            }
        }
    }

    /// One runner advancing, " {runner} to {base} base.", at `pos`.
    fn advance(&self, pos: usize, end: usize) -> (r: Option<(RunnerAdvance<&'a str>, usize)>)
        requires
            self.wf(),
            pos <= end <= self.size(),
        ensures
            match r {
                Some((_, p)) => pos < p <= end,
                None => true,
            },
            (forall|k: int| pos <= k && k + 4 <= end ==> !#[trigger] occurs_at(self.chars@, k, " to "@)) ==> r is None,
            forall|runner: Seq<char>, base: Base| stops_after(runner, " to "@)
                && pos + advance_text(runner, base).len() <= end
                && self.text@.subrange(pos as int, pos + advance_text(runner, base).len()) == #[trigger] advance_text(runner, base)
                ==> (r matches Some((adv, p)) && adv.runner@ == runner && adv.base == base
                    && p == pos + advance_text(runner, base).len()),
    {
        proof {
            reveal_strlit(" ");
            reveal_strlit(" to ");
            reveal_strlit(" base.");
            assert forall|runner: Seq<char>, base: Base| pos + advance_text(runner, base).len() <= end
                && self.text@.subrange(pos as int, pos + advance_text(runner, base).len()) == #[trigger] advance_text(runner, base)
                implies ({
                    let a = pos + 1;
                    let b = a + runner.len() + 4;
                    &&& self.chars@.subrange(pos as int, a) == " "@
                    &&& self.text@.subrange(a, b) == runner + " to "@
                    &&& self.text@.subrange(b, b + base.spec_name().len() + 6) == base.spec_name() + " base."@
                    &&& stops_after(base.spec_name(), " base."@)
                    &&& Base::spec_parse(base.spec_name()) == Some(base)
                }) by {
                let t = advance_text(runner, base);
                let a = pos + 1;
                let b = a + runner.len() + 4;
                let sub = self.text@.subrange(pos as int, pos + t.len());
                assert(self.chars@.subrange(pos as int, a) =~= sub.subrange(0, 1));
                assert(sub.subrange(0, 1) =~= " "@);
                assert(self.text@.subrange(a, b) =~= sub.subrange(1, b - pos));
                assert(sub.subrange(1, b - pos) =~= runner + " to "@);
                assert(self.text@.subrange(b, b + base.spec_name().len() + 6) =~= sub.subrange(b - pos, t.len() as int));
                assert(sub.subrange(b - pos, t.len() as int) =~= base.spec_name() + " base."@);
                match base {
                    Base::Home => { reveal_strlit("home"); }
                    Base::First => { reveal_strlit("first"); }
                    Base::Second => { reveal_strlit("second"); }
                    Base::Third => { reveal_strlit("third"); }
                }
                crate::text::lemma_stops_by_first(base.spec_name(), " base."@);
                base.lemma_parse_name();
            }
        }
        let a = self.lit(pos, end, " ")?;
        let (runner, b) = self.until(a, end, " to ")?;
        let (base, c) = self.until(b, end, " base.")?;
        match Base::from_str(base) {
            Ok(base) => Some((RunnerAdvance { runner, base }, c)),
            Err(_) => None,
        }
    }

    /// Runners scoring, then runners advancing.
    pub(crate) fn scores_and_advances(&self, pos: usize, end: usize) -> (r: (Vec<&'a str>, Vec<RunnerAdvance<&'a str>>, usize))
        requires
            self.wf(),
            pos <= end <= self.size(),
        ensures
            pos <= r.2 <= end,
            pos == end ==> r.0@.len() == 0 && r.1@.len() == 0,
            !(pos + 9 <= end && self.chars@.subrange(pos as int, pos + 9) == " <strong>"@)
                && (forall|k: int| pos <= k && k + 4 <= end ==> !#[trigger] occurs_at(self.chars@, k, " to "@))
                ==> r.0@.len() == 0 && r.1@.len() == 0 && r.2 == pos,
            forall|rs: Seq<Seq<char>>, advs: Seq<(Seq<char>, Base)>| scoring_runners(rs) && advancing_runners(advs)
                && pos + runs_text(rs, advs).len() == end
                && self.text@.subrange(pos as int, end as int) == #[trigger] runs_text(rs, advs)
                ==> r.0@.len() == rs.len() && (forall|i: int| 0 <= i < rs.len() ==> (#[trigger] r.0@[i])@ == rs[i])
                    && r.1@.len() == advs.len()
                    && (forall|i: int| 0 <= i < advs.len() ==> (#[trigger] r.1@[i]).runner@ == advs[i].0 && r.1@[i].base == advs[i].1)
                    && r.2 == end,
    {
        proof {
            assert forall|rs: Seq<Seq<char>>, advs: Seq<(Seq<char>, Base)>| scoring_runners(rs) && advancing_runners(advs)
                && pos + runs_text(rs, advs).len() == end
                && self.text@.subrange(pos as int, end as int) == #[trigger] runs_text(rs, advs)
                implies !starts_strong(advance_entries(advs))
                && pos + score_entries(rs).len() + advance_entries(advs).len() == end
                && self.text@.subrange(pos as int, end as int) == score_entries(rs) + advance_entries(advs)
                && self.text@.subrange(pos + score_entries(rs).len(), end as int) == advance_entries(advs) by {
                lemma_advances_not_strong(advs);
                assert(self.text@.subrange(pos + score_entries(rs).len(), end as int)
                    =~= runs_text(rs, advs).subrange(score_entries(rs).len() as int, runs_text(rs, advs).len() as int));
            }
        }
        let (scores, p) = self.scores(pos, end);
        let (advances, q) = self.advances(p, end);
        (scores, advances, q)
    }

    /// A runner put out, "{runner} out at {base}.", filling `a..b`.
    pub(crate) fn runner_out(&self, a: usize, b: usize) -> (r: Option<RunnerOut<&'a str>>)
        requires
            self.wf(),
            a <= b <= self.size(),
        ensures
            r matches Some(o) ==> self.text@.subrange(a as int, b as int) == runner_out_text(o.runner@, o.base),
            forall|runner: Seq<char>, base: BaseNameVariant| stops_after(runner, " out at "@)
                && self.text@.subrange(a as int, b as int) == #[trigger] runner_out_text(runner, base)
                ==> (r matches Some(o) && o.runner@ == runner && o.base == base),
    {
        proof {
            reveal_strlit(" out at ");
            reveal_strlit(".");
            assert forall|runner: Seq<char>, base: BaseNameVariant|
                self.text@.subrange(a as int, b as int) == #[trigger] runner_out_text(runner, base)
                implies a + runner.len() + 8 <= b
                && self.text@.subrange(a as int, a + runner.len() + 8int) == runner + " out at "@ by {
                let t = self.text@.subrange(a as int, b as int);
                assert(t.len() == runner.len() + 8 + base.spec_name().len() + 1);
                assert(self.text@.subrange(a as int, a + runner.len() + 8int) =~= t.subrange(0, runner.len() + 8int));
                assert(t.subrange(0, runner.len() + 8int) =~= runner + " out at "@);
            }
        }
        let (runner, p) = self.until(a, b, " out at ")?;
        if b == p || !self.is(b - 1, b, ".") {
            proof {
                assert forall|runner: Seq<char>, base: BaseNameVariant| stops_after(runner, " out at "@)
                    && self.text@.subrange(a as int, b as int) == #[trigger] runner_out_text(runner, base)
                    implies false by {
                    let t = self.text@.subrange(a as int, b as int);
                    assert(self.chars@.subrange(b - 1, b as int) =~= t.subrange(t.len() - 1, t.len() as int));
                    assert(t.subrange(t.len() - 1, t.len() as int) =~= "."@);
                }
            }
            return None;
        }
        proof {
            assert forall|rn: Seq<char>, base: BaseNameVariant| stops_after(rn, " out at "@)
                && self.text@.subrange(a as int, b as int) == #[trigger] runner_out_text(rn, base)
                implies self.text@.subrange(p as int, b - 1) == base.spec_name() by {
                let t = self.text@.subrange(a as int, b as int);
                assert(self.text@.subrange(p as int, b - 1) =~= t.subrange(rn.len() + 8int, t.len() - 1));
                assert(t.subrange(rn.len() + 8int, t.len() - 1) =~= base.spec_name());
                base.lemma_parse_name();
            }
        }
        match BaseNameVariant::from_str(self.slice(p, b - 1)) {
            Ok(base) => {
                let o = RunnerOut { runner, base };
                proof {
                    let c = self.chars@;
                    assert(c.subrange(a as int, b as int) =~= c.subrange(a as int, p - 8) + c.subrange(p - 8, p as int)
                        + c.subrange(p as int, b - 1) + c.subrange(b - 1, b as int));
                    assert(self.text@.subrange(a as int, b as int) =~= runner_out_text(o.runner@, o.base));
                    assert forall|rn: Seq<char>, bs: BaseNameVariant| stops_after(rn, " out at "@)
                        && self.text@.subrange(a as int, b as int) == #[trigger] runner_out_text(rn, bs)
                        implies o.base == bs by {
                        bs.lemma_parse_name();
                    }
                }
                Some(o)
            },
            Err(_) => {
                proof {
                    assert forall|rn: Seq<char>, base: BaseNameVariant| stops_after(rn, " out at "@)
                        && self.text@.subrange(a as int, b as int) == #[trigger] runner_out_text(rn, base)
                        implies false by {
                        base.lemma_parse_name();
                    }
                }
                None
            },
        }
    }

    /// Base steals, each after a space, from `pos`.
    pub(crate) fn steals(&self, pos: usize, end: usize) -> (r: (Vec<BaseSteal<&'a str>>, usize))
        requires
            self.wf(),
            pos <= end <= self.size(),
        ensures
            pos <= r.1 <= end,
            pos == end ==> r.0@.len() == 0 && r.1 == pos,
            forall|runner: Seq<char>, base: Base| base != Base::Home && (runner.len() > 0 ==> runner[0] != '<')
                && stops_after(runner, " steals "@)
                && (forall|k: int| pos + 1 <= k < pos + 1 + runner.len() ==> !#[trigger] occurs_at(self.chars@, k, " is caught stealing "@))
                && pos + steal_text(runner, base).len() == end
                && self.text@.subrange(pos as int, end as int) == #[trigger] steal_text(runner, base)
                ==> r.0@.len() == 1 && r.0@[0].runner@ == runner && r.0@[0].base == base && !r.0@[0].caught && r.1 == end,
            no_steal_words(self.chars@, pos as int, end as int) ==> r.0@.len() == 0 && r.1 == pos,
    {
        let mut steals: Vec<BaseSteal<&'a str>> = Vec::new();
        let mut p = pos;
        loop
            invariant
                self.wf(),
                pos <= p <= end <= self.size(),
                p == pos ==> steals@.len() == 0,
                forall|runner: Seq<char>, base: Base| base != Base::Home && (runner.len() > 0 ==> runner[0] != '<')
                && stops_after(runner, " steals "@)
                && (forall|k: int| pos + 1 <= k < pos + 1 + runner.len() ==> !#[trigger] occurs_at(self.chars@, k, " is caught stealing "@))
                && pos + steal_text(runner, base).len() == end
                && self.text@.subrange(pos as int, end as int) == #[trigger] steal_text(runner, base)
                    ==> (p == pos && steals@.len() == 0) || (p == end && steals@.len() == 1 && steals@[0].runner@ == runner
                        && steals@[0].base == base && !steals@[0].caught),
                no_steal_words(self.chars@, pos as int, end as int) ==> p == pos && steals@.len() == 0,
            decreases end - p,
        {
            match self.steal(p, end) {
                Some((steal, q)) => {
                    steals.push(steal);
                    p = q;
                },
                None => return (steals, p),
            }
        }
    }

    /// One base steal after a space, at `pos`.
    #[verifier::spinoff_prover]
    #[verifier::rlimit(80)]
    fn steal(&self, pos: usize, end: usize) -> (r: Option<(BaseSteal<&'a str>, usize)>)
        requires
            self.wf(),
            pos <= end <= self.size(),
        ensures
            match r {
                Some((_, p)) => pos < p <= end,
                None => true,
            },
            pos == end ==> r is None,
            forall|runner: Seq<char>, base: Base| base != Base::Home && (runner.len() > 0 ==> runner[0] != '<')
                && stops_after(runner, " steals "@)
                && (forall|k: int| pos + 1 <= k < pos + 1 + runner.len() ==> !#[trigger] occurs_at(self.chars@, k, " is caught stealing "@))
                && pos + steal_text(runner, base).len() <= end
                && self.text@.subrange(pos as int, pos + steal_text(runner, base).len()) == #[trigger] steal_text(runner, base)
                ==> (r matches Some((st, e)) && st.runner@ == runner && st.base == base && !st.caught
                    && e == pos + steal_text(runner, base).len()),
            no_steal_words(self.chars@, pos as int, end as int) ==> r is None,
    {
        proof {
            reveal_strlit(" <strong>");
            reveal_strlit(" ");
            reveal_strlit(" steals ");
            reveal_strlit("!");
            assert forall|runner: Seq<char>, base: Base| base != Base::Home && (runner.len() > 0 ==> runner[0] != '<')
                && stops_after(runner, " steals "@)
                && pos + steal_text(runner, base).len() <= end
                && self.text@.subrange(pos as int, pos + steal_text(runner, base).len()) == #[trigger] steal_text(runner, base)
                implies ({
                    let a = pos + 1;
                    let sp = a + runner.len();
                    let q = sp + 8;
                    &&& !(pos + 9 <= end && self.chars@.subrange(pos as int, pos + 9) == " <strong>"@)
                    &&& self.chars@.subrange(pos as int, a) == " "@
                    &&& occurs_at(self.chars@, sp, " steals "@)
                    &&& (forall|k: int| a <= k < sp ==> !#[trigger] occurs_at(self.chars@, k, " steals "@))
                    &&& self.text@.subrange(a, sp) == runner
                    &&& self.chars@.subrange(sp, q) == " steals "@
                    &&& self.text@.subrange(q, q + base.spec_base_str().len() + 1) == base.spec_base_str() + "!"@
                    &&& stops_after(base.spec_base_str(), "!"@)
                }) by {
                let t = steal_text(runner, base);
                let sub = self.text@.subrange(pos as int, pos + t.len());
                let a = pos + 1;
                let sp = a + runner.len();
                let q = sp + 8;
                let bs = base.spec_base_str();
                assert(sub =~= " "@ + (runner + " steals "@) + (bs + "!"@));
                if pos + 9 <= end && self.chars@.subrange(pos as int, pos + 9) == " <strong>"@ {
                    assert(self.chars@.subrange(pos as int, pos + 9)[1] == sub[1]);
                    if runner.len() == 0 {
                        assert(sub[1] == ' ');
                    }
                }
                assert(self.chars@.subrange(pos as int, a) =~= sub.subrange(0, 1));
                assert(self.text@.subrange(a, q) =~= sub.subrange(1, q - pos));
                assert(self.text@.subrange(a, q) =~= runner + " steals "@);
                lemma_stops_after(self.chars@, a, runner, " steals "@);
                assert(self.text@.subrange(a, sp) =~= runner);
                assert(self.chars@.subrange(sp, q) =~= " steals "@);
                assert(self.text@.subrange(q, q + bs.len() + 1) =~= sub.subrange(q - pos, t.len() as int));
                assert(sub.subrange(q - pos, t.len() as int) =~= bs + "!"@);
                match base {
                    Base::First => { reveal_strlit("first base"); }
                    Base::Second => { reveal_strlit("second base"); }
                    Base::Third => { reveal_strlit("third base"); }
                    Base::Home => {}
                }
                crate::text::lemma_stops_by_first(bs, "!"@);
            }
        }
        if let Some(a) = self.lit(pos, end, " <strong>") {
            if let Some((runner, q)) = self.until(a, end, " steals home!</strong>") {
                proof {
                    reveal_strlit(" steals home!</strong>");
                    reveal_strlit(" steals ");
                    let k = q - 22;
                    assert(occurs_at(self.chars@, k, " steals home!</strong>"@));
                    assert(self.chars@.subrange(k, q as int) == " steals home!</strong>"@);
                    assert(" steals home!</strong>"@.subrange(0, 8) =~= " steals "@);
                    assert(self.chars@.subrange(k, k + 8) =~= self.chars@.subrange(k, q as int).subrange(0, 8));
                    assert(occurs_at(self.chars@, k, " steals "@));
                }
                return Some((BaseSteal { runner, base: Base::Home, caught: false }, q));
            }
        }
        let a = self.lit(pos, end, " ")?;
        proof {
            reveal_strlit(" steals ");
            reveal_strlit(" is caught stealing ");
        }
        let caught_at = self.find(a, end, " is caught stealing ");
        let steals_at = self.find(a, end, " steals ");
        let (runner_end, caught) = match (caught_at, steals_at) {
            (Some(c), Some(s)) => if c < s { (c, true) } else { (s, false) },
            (Some(c), None) => (c, true),
            (None, Some(s)) => (s, false),
            (None, None) => return None,
        };
        let runner = self.slice(a, runner_end);
        let (q, term) = if caught {
            (self.lit(runner_end, end, " is caught stealing ")?, ".")
        } else {
            (self.lit(runner_end, end, " steals ")?, "!")
        };
        let (base, e) = self.until(q, end, term)?;
        let base = base_from_text(base)?;
        Some((BaseSteal { runner, base, caught }, e))
    }
}

/// Whether `t` is a place, a space and `name`, the place read as `place`.
pub open spec fn placed_reads(t: Seq<char>, place: Place, name: Seq<char>) -> bool {
    exists|k: int| 0 <= k < t.len() && t[k] == ' ' && #[trigger] Place::spec_parse(t.subrange(0, k)) == Some(place)
        && t.subrange(k + 1, t.len() as int) == name
}

/// Whether `t` is fielders as places and names separated by " to ", read as `v`.
pub open spec fn chain_reads<S: crate::text::Text>(t: Seq<char>, v: Seq<PlacedPlayer<S>>) -> bool
    decreases v.len(),
{
    if v.len() == 0 {
        false
    } else if v.len() == 1 {
        placed_reads(t, v[0].place, v[0].name@)
    } else {
        exists|k: int| 0 <= k && k + 4 <= t.len() && #[trigger] t.subrange(k, k + 4) == " to "@
            && chain_reads(t.subrange(0, k), v.drop_last())
            && placed_reads(t.subrange(k + 4, t.len() as int), v.last().place, v.last().name@)
    }
}

/// ", {place} {name} unassisted"
pub open spec fn unassisted_text(place: Place, name: Seq<char>) -> Seq<char> {
    ", "@ + place.spec_name() + " "@ + name + " unassisted"@
}

/// " {runner} steals {base}!"
pub open spec fn steal_text(runner: Seq<char>, base: Base) -> Seq<char> {
    " "@ + runner + " steals "@ + base.spec_base_str() + "!"@
}

/// Whether neither " steals " nor " is caught stealing " occurs in `c` between
/// `pos` and `end`.
pub open spec fn no_steal_words(c: Seq<char>, pos: int, end: int) -> bool {
    &&& forall|k: int| pos <= k && k + 8 <= end ==> !#[trigger] occurs_at(c, k, " steals "@)
    &&& forall|k: int| pos <= k && k + 20 <= end ==> !#[trigger] occurs_at(c, k, " is caught stealing "@)
}

/// " <strong>{runner} scores!</strong>"
pub open spec fn score_entry_text(runner: Seq<char>) -> Seq<char> {
    " <strong>"@ + runner + " scores!</strong>"@
}

/// Runners scoring, each as " <strong>{runner} scores!</strong>", in order.
pub open spec fn score_entries(runners: Seq<Seq<char>>) -> Seq<char>
    decreases runners.len(),
{
    if runners.len() == 0 {
        Seq::empty()
    } else {
        score_entries(runners.drop_last()) + score_entry_text(runners.last())
    }
}

/// Whether each of the scoring runners' names is followed by " scores!</strong>"
/// only where it ends.
pub open spec fn scoring_runners(runners: Seq<Seq<char>>) -> bool {
    forall|i: int| 0 <= i < runners.len() ==> stops_after(#[trigger] runners[i], " scores!</strong>"@)
}

/// Runners advancing, each as " {runner} to {base} base.", in order.
pub open spec fn advance_entries(advances: Seq<(Seq<char>, Base)>) -> Seq<char>
    decreases advances.len(),
{
    if advances.len() == 0 {
        Seq::empty()
    } else {
        advance_entries(advances.drop_last()) + advance_text(advances.last().0, advances.last().1)
    }
}

/// Whether each advancing runner's name is followed by " to " only where it
/// ends, and does not start with `<`.
pub open spec fn advancing_runners(advances: Seq<(Seq<char>, Base)>) -> bool {
    forall|i: int| 0 <= i < advances.len() ==> stops_after((#[trigger] advances[i]).0, " to "@)
        && (advances[i].0.len() > 0 ==> advances[i].0[0] != '<')
}

/// Whether `s` starts with " <strong>".
pub open spec fn starts_strong(s: Seq<char>) -> bool {
    s.len() >= 9 && s.subrange(0, 9) == " <strong>"@
}

/// The entries of runners scoring split where any runner's entry starts.
pub proof fn lemma_score_entries_split(runners: Seq<Seq<char>>, i: int)
    requires
        0 <= i <= runners.len(),
    ensures
        score_entries(runners) == score_entries(runners.take(i)) + score_entries(runners.skip(i)),
    decreases runners.len(),
{
    if i == runners.len() {
        assert(runners.take(i) =~= runners);
        assert(runners.skip(i) =~= Seq::<Seq<char>>::empty());
        assert(score_entries(runners) + Seq::<char>::empty() =~= score_entries(runners));
    } else {
        let dl = runners.drop_last();
        lemma_score_entries_split(dl, i);
        assert(dl.take(i) =~= runners.take(i));
        assert(runners.skip(i).drop_last() =~= dl.skip(i));
        assert(runners.skip(i).last() == runners.last());
        assert(score_entries(runners) =~= score_entries(runners.take(i)) + score_entries(runners.skip(i)));
    }
}

/// The entry of the runner after the first `i` follows theirs.
pub proof fn lemma_score_entries_next(runners: Seq<Seq<char>>, i: int)
    requires
        0 <= i < runners.len(),
    ensures
        score_entries(runners.take(i + 1)) == score_entries(runners.take(i)) + score_entry_text(runners[i]),
        score_entries(runners) == score_entries(runners.take(i)) + score_entry_text(runners[i]) + score_entries(runners.skip(i + 1)),
{
    assert(runners.take(i + 1).drop_last() =~= runners.take(i));
    assert(runners.take(i + 1).last() == runners[i]);
    lemma_score_entries_split(runners, i + 1);
}

/// Where text from `pos` to `end` is runners scoring and then `rest`, the entry
/// of the runner after the first `i` stands where theirs end.
pub proof fn lemma_score_at(c: Seq<char>, pos: int, end: int, runners: Seq<Seq<char>>, rest: Seq<char>, i: int)
    requires
        0 <= pos <= end <= c.len(),
        pos + score_entries(runners).len() + rest.len() == end,
        c.subrange(pos, end) == score_entries(runners) + rest,
        0 <= i < runners.len(),
    ensures
        ({
            let o = pos + score_entries(runners.take(i)).len();
            let n = runners[i].len();
            &&& o + 9 + n + 17 <= end
            &&& c.subrange(o, o + 9) == " <strong>"@
            &&& c.subrange(o + 9, o + 9 + n + 17) == runners[i] + " scores!</strong>"@
            &&& score_entries(runners.take(i + 1)).len() == score_entries(runners.take(i)).len() + 9 + n + 17
        }),
{
    reveal_strlit(" <strong>");
    reveal_strlit(" scores!</strong>");
    lemma_score_entries_next(runners, i);
    let t = score_entries(runners) + rest;
    let o = score_entries(runners.take(i)).len() as int;
    let n = runners[i].len() as int;
    assert(t =~= score_entries(runners.take(i)) + (" <strong>"@ + (runners[i] + " scores!</strong>"@)) + score_entries(runners.skip(i + 1)) + rest);
    assert(c.subrange(pos + o, pos + o + 9) =~= t.subrange(o, o + 9));
    assert(c.subrange(pos + o + 9, pos + o + 9 + n + 17) =~= t.subrange(o + 9, o + 9 + n + 17));
}

/// Runners scoring written as the library writes them are their entries.
pub proof fn lemma_scores_text<S: crate::text::Text>(scores: Seq<S>, runners: Seq<Seq<char>>)
    requires
        scores.len() == runners.len(),
        forall|i: int| 0 <= i < runners.len() ==> (#[trigger] scores[i])@ == runners[i],
    ensures
        crate::parsed_event::scores_text(scores) == score_entries(runners),
    decreases scores.len(),
{
    if scores.len() > 0 {
        let n = scores.len() - 1;
        assert forall|i: int| 0 <= i < runners.drop_last().len() implies (#[trigger] scores.drop_last()[i])@ == runners.drop_last()[i] by {
            assert(scores.drop_last()[i] == scores[i]);
        }
        lemma_scores_text(scores.drop_last(), runners.drop_last());
        assert(scores.last()@ == runners.last()) by {
            assert(scores[n as int]@ == runners[n as int]);
        }
        assert(crate::parsed_event::scores_text(scores) =~= score_entries(runners));
    }
}

/// Runners advancing written as the library writes them are their entries.
pub proof fn lemma_advances_text<S: crate::text::Text>(advances: Seq<RunnerAdvance<S>>, advs: Seq<(Seq<char>, Base)>)
    requires
        advances.len() == advs.len(),
        forall|i: int| 0 <= i < advs.len() ==> (#[trigger] advances[i]).runner@ == advs[i].0 && advances[i].base == advs[i].1,
    ensures
        crate::parsed_event::advances_text(advances) == advance_entries(advs),
    decreases advances.len(),
{
    if advances.len() > 0 {
        let n = advances.len() - 1;
        assert forall|i: int| 0 <= i < advs.drop_last().len() implies (#[trigger] advances.drop_last()[i]).runner@ == advs.drop_last()[i].0
            && advances.drop_last()[i].base == advs.drop_last()[i].1 by {
            assert(advances.drop_last()[i] == advances[i]);
        }
        lemma_advances_text(advances.drop_last(), advs.drop_last());
        assert(advances.last().runner@ == advs.last().0 && advances.last().base == advs.last().1) by {
            assert(advances[n as int].runner@ == advs[n as int].0);
        }
        assert(crate::parsed_event::advances_text(advances) =~= advance_entries(advs));
    }
}

/// Runners scoring, then runners advancing.
pub open spec fn runs_text(runners: Seq<Seq<char>>, advances: Seq<(Seq<char>, Base)>) -> Seq<char> {
    score_entries(runners) + advance_entries(advances)
}

/// Runners advancing, whose names do not start with `<`, do not start as a
/// runner scoring does.
pub proof fn lemma_advances_not_strong(advances: Seq<(Seq<char>, Base)>)
    requires
        advancing_runners(advances),
    ensures
        !starts_strong(advance_entries(advances)),
{
    reveal_strlit(" <strong>");
    reveal_strlit(" ");
    reveal_strlit(" to ");
    if advances.len() > 0 {
        lemma_advance_entries_next(advances, 0);
        assert(advances.take(0) =~= Seq::<(Seq<char>, Base)>::empty());
        let t = advance_entries(advances);
        let a = advance_text(advances[0].0, advances[0].1);
        let r = advances[0].0;
        assert(a =~= " "@ + r + " to "@ + advances[0].1.spec_name() + " base."@);
        assert(t[1] == a[1]);
        if starts_strong(t) {
            assert(t.subrange(0, 9)[1] == t[1]);
            if r.len() == 0 {
                assert(a[1] == ' ');
            } else {
                assert(a[1] == r[0]);
            }
        }
    }
}

/// Where text from `pos` to `end` is runners advancing, the entry of the
/// runner after the first `i` stands where theirs end.
pub proof fn lemma_advance_at(c: Seq<char>, pos: int, end: int, advances: Seq<(Seq<char>, Base)>, i: int)
    requires
        0 <= pos <= end <= c.len(),
        pos + advance_entries(advances).len() == end,
        c.subrange(pos, end) == advance_entries(advances),
        0 <= i < advances.len(),
    ensures
        ({
            let o = pos + advance_entries(advances.take(i)).len();
            let t = advance_text(advances[i].0, advances[i].1);
            &&& o + t.len() <= end
            &&& c.subrange(o, o + t.len()) == t
            &&& advance_entries(advances.take(i + 1)).len() == advance_entries(advances.take(i)).len() + t.len()
        }),
{
    lemma_advance_entries_next(advances, i);
    let o = advance_entries(advances.take(i)).len() as int;
    let t = advance_text(advances[i].0, advances[i].1);
    assert(c.subrange(pos + o, pos + o + t.len()) =~= advance_entries(advances).subrange(o, o + t.len()));
}

/// Where text from `pos` to `end` is runners scoring and then `rest`, `rest`
/// stands after their entries.
pub proof fn lemma_scores_done(c: Seq<char>, pos: int, end: int, runners: Seq<Seq<char>>, rest: Seq<char>)
    requires
        0 <= pos <= end <= c.len(),
        pos + score_entries(runners).len() + rest.len() == end,
        c.subrange(pos, end) == score_entries(runners) + rest,
    ensures
        c.subrange(pos + score_entries(runners).len(), end) == rest,
{
    assert(c.subrange(pos + score_entries(runners).len(), end) =~= (score_entries(runners) + rest).subrange(score_entries(runners).len() as int, (end - pos)));
}

/// The entries of runners advancing split where any runner's entry starts.
pub proof fn lemma_advance_entries_split(advances: Seq<(Seq<char>, Base)>, i: int)
    requires
        0 <= i <= advances.len(),
    ensures
        advance_entries(advances) == advance_entries(advances.take(i)) + advance_entries(advances.skip(i)),
    decreases advances.len(),
{
    if i == advances.len() {
        assert(advances.take(i) =~= advances);
        assert(advances.skip(i) =~= Seq::<(Seq<char>, Base)>::empty());
        assert(advance_entries(advances) + Seq::<char>::empty() =~= advance_entries(advances));
    } else {
        let dl = advances.drop_last();
        lemma_advance_entries_split(dl, i);
        assert(dl.take(i) =~= advances.take(i));
        assert(advances.skip(i).drop_last() =~= dl.skip(i));
        assert(advances.skip(i).last() == advances.last());
        assert(advance_entries(advances) =~= advance_entries(advances.take(i)) + advance_entries(advances.skip(i)));
    }
}

/// The entry of the runner after the first `i` follows theirs.
pub proof fn lemma_advance_entries_next(advances: Seq<(Seq<char>, Base)>, i: int)
    requires
        0 <= i < advances.len(),
    ensures
        advance_entries(advances.take(i + 1)) == advance_entries(advances.take(i)) + advance_text(advances[i].0, advances[i].1),
        advance_entries(advances) == advance_entries(advances.take(i)) + advance_text(advances[i].0, advances[i].1)
            + advance_entries(advances.skip(i + 1)),
{
    assert(advances.take(i + 1).drop_last() =~= advances.take(i));
    assert(advances.take(i + 1).last() == advances[i]);
    lemma_advance_entries_split(advances, i + 1);
}

/// " {runner} to {base} base."
pub open spec fn advance_text(runner: Seq<char>, base: Base) -> Seq<char> {
    " "@ + runner + " to "@ + base.spec_name() + " base."@
}

/// "{runner} out at {base}."
pub open spec fn runner_out_text(runner: Seq<char>, base: BaseNameVariant) -> Seq<char> {
    runner + " out at "@ + base.spec_name() + "."@
}

/// Whether `s` holds no space.
pub open spec fn no_space(s: Seq<char>) -> bool {
    forall|i: int| 0 <= i < s.len() ==> #[trigger] s[i] != ' '
}

/// A separator that starts with a space occurs in a word without spaces,
/// followed by the separator, only at its end.
pub proof fn lemma_word_stops(w: Seq<char>, sep: Seq<char>)
    requires
        no_space(w),
        sep.len() > 0,
        sep[0] == ' ',
    ensures
        stops_after(w, sep),
{
    assert forall|i: int| 0 <= i < w.len() implies !#[trigger] occurs_at(w + sep, i, sep) by {
        if occurs_at(w + sep, i, sep) {
            assert((w + sep).subrange(i, i + sep.len())[0] == w[i]);
        }
    }
}

/// A text made of a word without spaces, a space and the rest is cut at its
/// first space.
pub proof fn lemma_first_space_split(e1: Seq<char>, n1: Seq<char>, e2: Seq<char>, n2: Seq<char>)
    requires
        e1 + " "@ + n1 == e2 + " "@ + n2,
        no_space(e1),
        no_space(e2),
    ensures
        e1 == e2,
        n1 == n2,
{
    reveal_strlit(" ");
    let s = e1 + " "@ + n1;
    if e1.len() < e2.len() {
        assert(s[e1.len() as int] == ' ');
        assert((e2 + " "@ + n2)[e1.len() as int] == e2[e1.len() as int]);
    } else if e2.len() < e1.len() {
        assert((e2 + " "@ + n2)[e2.len() as int] == ' ');
        assert(s[e2.len() as int] == e1[e2.len() as int]);
    } else {
        assert(e1 =~= s.subrange(0, e1.len() as int));
        assert(e2 =~= (e2 + " "@ + n2).subrange(0, e2.len() as int));
        assert(n1 =~= s.subrange((e1.len() + 1) as int, s.len() as int));
        assert(n2 =~= (e2 + " "@ + n2).subrange((e2.len() + 1) as int, s.len() as int));
    }
}

/// The base named as a destination, e.g. "second base" or "home".
pub(crate) fn base_from_text(s: &str) -> (r: Option<Base>)
    ensures
        match r {
            Some(b) => b.spec_base_str() == s@,
            None => true,
        },
        forall|b: Base| s@ == #[trigger] b.spec_base_str() ==> r == Some(b),
{
    proof {
        reveal_strlit("first base");
        reveal_strlit("second base");
        reveal_strlit("third base");
        reveal_strlit("home");
        assert("first base"@[0] != "second base"@[0]);
        assert("first base"@[0] != "third base"@[0]);
        assert("second base"@[0] != "third base"@[0]);
    }
    if str_eq(s, Base::First.to_base_str()) {
        Some(Base::First)
    } else if str_eq(s, Base::Second.to_base_str()) {
        Some(Base::Second)
    } else if str_eq(s, Base::Third.to_base_str()) {
        Some(Base::Third)
    } else if str_eq(s, Base::Home.to_base_str()) {
        Some(Base::Home)
    } else {
        None
    }
}

} // verus!
