//! Batting statistics shown when a batter comes up.

use vstd::prelude::*;
use crate::enums::ParseError;
use crate::places::{leading_u8, lemma_leading_u8_dec};
use crate::text::{chars_of, dec, push_dec, matches_at, segment_is, leading_unsigned, digit_run,
    lemma_dec_digits, lemma_digit_run, is_digit};

verus! {

/// A batter's statistic for the game so far, e.g. "1 1B" or "1 for 3".
#[derive(Debug, Clone, Copy, PartialEq, Eq, Hash, Structural)]
pub enum BatterStat {
    HitsForAtBats { hits: u8, at_bats: u8 },
    FirstBases(u8),
    SecondBases(u8),
    ThirdBases(u8),
    HomeRuns(u8),
    SacrificeFlies(u8),
    PopOuts(u8),
    LineOuts(u8),
    StrikeOuts(u8),
    ForceOuts(u8),
    BaseOnBalls(u8),
    HitByPitchs(u8),
    GroundIntoDoublePlays(u8),
    CaughtDoublePlays(u8),
    FieldersChoices(u8),
    Fouls(u8),
    GroundOuts(u8),
}

impl BatterStat {
    /// The short name of the statistic's kind, e.g. "1B".
    pub open spec fn spec_kind_name(self) -> Seq<char> {
        match self {
            BatterStat::HitsForAtBats { .. } => "HitsForAtBats"@,
            BatterStat::FirstBases(_) => "1B"@,
            BatterStat::SecondBases(_) => "2B"@,
            BatterStat::ThirdBases(_) => "3B"@,
            BatterStat::HomeRuns(_) => "HR"@,
            BatterStat::SacrificeFlies(_) => "SF"@,
            BatterStat::PopOuts(_) => "PO"@,
            BatterStat::LineOuts(_) => "LO"@,
            BatterStat::StrikeOuts(_) => "SO"@,
            BatterStat::ForceOuts(_) => "FO"@,
            BatterStat::BaseOnBalls(_) => "BB"@,
            BatterStat::HitByPitchs(_) => "HBP"@,
            BatterStat::GroundIntoDoublePlays(_) => "GIDP"@,
            BatterStat::CaughtDoublePlays(_) => "CDP"@,
            BatterStat::FieldersChoices(_) => "FC"@,
            BatterStat::Fouls(_) => "F"@,
            BatterStat::GroundOuts(_) => "GO"@,
        }
    }

    /// The short name of the statistic's kind, e.g. "1B".
    pub fn kind_name(self) -> (r: &'static str)
        ensures
            r@ == self.spec_kind_name(),
    {
        match self {
            BatterStat::HitsForAtBats { .. } => "HitsForAtBats",
            BatterStat::FirstBases(_) => "1B",
            BatterStat::SecondBases(_) => "2B",
            BatterStat::ThirdBases(_) => "3B",
            BatterStat::HomeRuns(_) => "HR",
            BatterStat::SacrificeFlies(_) => "SF",
            BatterStat::PopOuts(_) => "PO",
            BatterStat::LineOuts(_) => "LO",
            BatterStat::StrikeOuts(_) => "SO",
            BatterStat::ForceOuts(_) => "FO",
            BatterStat::BaseOnBalls(_) => "BB",
            BatterStat::HitByPitchs(_) => "HBP",
            BatterStat::GroundIntoDoublePlays(_) => "GIDP",
            BatterStat::CaughtDoublePlays(_) => "CDP",
            BatterStat::FieldersChoices(_) => "FC",
            BatterStat::Fouls(_) => "F",
            BatterStat::GroundOuts(_) => "GO",
        }
    }

    /// "{count} {kind}", or "{hits} for {at_bats}".
    pub open spec fn spec_text(self) -> Seq<char> {
        match self {
            BatterStat::HitsForAtBats { hits, at_bats } => dec(hits as nat) + " for "@ + dec(at_bats as nat),
            BatterStat::FirstBases(count) | BatterStat::SecondBases(count) | BatterStat::ThirdBases(count) | BatterStat::HomeRuns(count) | BatterStat::SacrificeFlies(count) | BatterStat::PopOuts(count) | BatterStat::LineOuts(count) | BatterStat::StrikeOuts(count) | BatterStat::ForceOuts(count) | BatterStat::BaseOnBalls(count) | BatterStat::HitByPitchs(count) | BatterStat::GroundIntoDoublePlays(count) | BatterStat::CaughtDoublePlays(count) | BatterStat::FieldersChoices(count) | BatterStat::Fouls(count) | BatterStat::GroundOuts(count) =>
                dec(count as nat) + " "@ + self.spec_kind_name(),
        }
    }

    pub fn push_to(&self, out: &mut String)
        ensures
            final(out)@ == old(out)@ + self.spec_text(),
    {
        match *self {
            BatterStat::HitsForAtBats { hits, at_bats } => {
                push_dec(out, hits as u64);
                out.append(" for ");
                push_dec(out, at_bats as u64);
            },
            BatterStat::FirstBases(count) | BatterStat::SecondBases(count) | BatterStat::ThirdBases(count) | BatterStat::HomeRuns(count) | BatterStat::SacrificeFlies(count) | BatterStat::PopOuts(count) | BatterStat::LineOuts(count) | BatterStat::StrikeOuts(count) | BatterStat::ForceOuts(count) | BatterStat::BaseOnBalls(count) | BatterStat::HitByPitchs(count) | BatterStat::GroundIntoDoublePlays(count) | BatterStat::CaughtDoublePlays(count) | BatterStat::FieldersChoices(count) | BatterStat::Fouls(count) | BatterStat::GroundOuts(count) => {
                push_dec(out, count as u64);
                out.append(" ");
                out.append(self.kind_name());
            },
        }
    }

    pub fn unparse(&self) -> (r: String)
        ensures
            r@ == self.spec_text(),
    {
        let mut s = String::new();
        self.push_to(&mut s);
        s
    }

    /// The statistic written as `s`: a count and the name of its kind, or hits " for " at-bats.
    pub open spec fn spec_parse(s: Seq<char>) -> Option<BatterStat> {
        match leading_u8(s) {
            None => None,
            Some(n) => {
                let rest = s.skip(digit_run(s) as int);
                if rest == " 1B"@ { Some(BatterStat::FirstBases(n)) }
                else if rest == " 2B"@ { Some(BatterStat::SecondBases(n)) }
                else if rest == " 3B"@ { Some(BatterStat::ThirdBases(n)) }
                else if rest == " LO"@ { Some(BatterStat::LineOuts(n)) }
                else if rest == " SO"@ { Some(BatterStat::StrikeOuts(n)) }
                else if rest == " FO"@ { Some(BatterStat::ForceOuts(n)) }
                else if rest == " HR"@ { Some(BatterStat::HomeRuns(n)) }
                else if rest == " FC"@ { Some(BatterStat::FieldersChoices(n)) }
                else if rest == " SF"@ { Some(BatterStat::SacrificeFlies(n)) }
                else if rest == " F"@ { Some(BatterStat::Fouls(n)) }
                else if rest == " BB"@ { Some(BatterStat::BaseOnBalls(n)) }
                else if rest == " FC"@ { Some(BatterStat::SacrificeFlies(n)) }
                else if rest == " HBP"@ { Some(BatterStat::HitByPitchs(n)) }
                else if rest == " GIDP"@ { Some(BatterStat::GroundIntoDoublePlays(n)) }
                else if rest == " CDP"@ { Some(BatterStat::CaughtDoublePlays(n)) }
                else if rest == " PO"@ { Some(BatterStat::PopOuts(n)) }
                else if rest == " GO"@ { Some(BatterStat::GroundOuts(n)) }
                else if rest.len() >= 5 && rest.subrange(0, 5) == " for "@ && leading_u8(rest.skip(5)) is Some {
                    Some(BatterStat::HitsForAtBats { hits: n, at_bats: leading_u8(rest.skip(5))->0 })
                }
                else { None }
            },
        }
    }

    /// Reads a statistic from its written form.
    pub fn from_str(s: &str) -> (r: Result<BatterStat, ParseError>)
        ensures
            match r {
                Ok(x) => BatterStat::spec_parse(s@) == Some(x),
                Err(_) => BatterStat::spec_parse(s@) is None,
            },
    {
        let v = chars_of(s);
        let len = v.len();
        assert(v@.subrange(0, len as int) =~= s@);
        let (n, k) = match leading_unsigned(&v, 0, len, 255) {
            Some(p) => p,
            None => { return Err(ParseError::VariantNotFound); },
        };
        let n = n as u8;
        assert(v@.subrange(k as int, len as int) =~= s@.skip(digit_run(s@) as int));
        if segment_is(&v, k, len, " 1B") {
            return Ok(BatterStat::FirstBases(n));
        }
        if segment_is(&v, k, len, " 2B") {
            return Ok(BatterStat::SecondBases(n));
        }
        if segment_is(&v, k, len, " 3B") {
            return Ok(BatterStat::ThirdBases(n));
        }
        if segment_is(&v, k, len, " LO") {
            return Ok(BatterStat::LineOuts(n));
        }
        if segment_is(&v, k, len, " SO") {
            return Ok(BatterStat::StrikeOuts(n));
        }
        if segment_is(&v, k, len, " FO") {
            return Ok(BatterStat::ForceOuts(n));
        }
        if segment_is(&v, k, len, " HR") {
            return Ok(BatterStat::HomeRuns(n));
        }
        if segment_is(&v, k, len, " FC") {
            return Ok(BatterStat::FieldersChoices(n));
        }
        if segment_is(&v, k, len, " SF") {
            return Ok(BatterStat::SacrificeFlies(n));
        }
        if segment_is(&v, k, len, " F") {
            return Ok(BatterStat::Fouls(n));
        }
        if segment_is(&v, k, len, " BB") {
            return Ok(BatterStat::BaseOnBalls(n));
        }
        if segment_is(&v, k, len, " FC") {
            return Ok(BatterStat::SacrificeFlies(n));
        }
        if segment_is(&v, k, len, " HBP") {
            return Ok(BatterStat::HitByPitchs(n));
        }
        if segment_is(&v, k, len, " GIDP") {
            return Ok(BatterStat::GroundIntoDoublePlays(n));
        }
        if segment_is(&v, k, len, " CDP") {
            return Ok(BatterStat::CaughtDoublePlays(n));
        }
        if segment_is(&v, k, len, " PO") {
            return Ok(BatterStat::PopOuts(n));
        }
        if segment_is(&v, k, len, " GO") {
            return Ok(BatterStat::GroundOuts(n));
        }
        if matches_at(&v, k, " for ") {
            proof {
                reveal_strlit(" for ");
                assert(s@.skip(digit_run(s@) as int).subrange(0, 5) =~= v@.subrange(k as int, k + 5));
                assert(v@.subrange(k + 5, len as int) =~= s@.skip(digit_run(s@) as int).skip(5));
            }
            match leading_unsigned(&v, k + 5, len, 255) {
                Some((m, _)) => {
                    return Ok(BatterStat::HitsForAtBats { hits: n, at_bats: m as u8 });
                },
                None => {},
            }
        }
        proof {
            reveal_strlit(" for ");
            let rest = s@.skip(digit_run(s@) as int);
            if rest.len() >= 5 {
                assert(rest.subrange(0, 5) =~= v@.subrange(k as int, k + 5));
            }
        }
        Err(ParseError::VariantNotFound)
    }

    /// Reading the written form of a statistic gives that statistic back.
    pub proof fn lemma_parse_text(self)
        ensures
            BatterStat::spec_parse(self.spec_text()) == Some(self),
    {
        let s = self.spec_text();
        reveal_strlit(" for ");
        reveal_strlit(" 1B");
        reveal_strlit(" 2B");
        reveal_strlit(" 3B");
        reveal_strlit(" LO");
        reveal_strlit(" SO");
        reveal_strlit(" FO");
        reveal_strlit(" HR");
        reveal_strlit(" FC");
        reveal_strlit(" SF");
        reveal_strlit(" F");
        reveal_strlit(" BB");
        reveal_strlit(" HBP");
        reveal_strlit(" GIDP");
        reveal_strlit(" CDP");
        reveal_strlit(" PO");
        reveal_strlit(" GO");
        match self {
            BatterStat::HitsForAtBats { hits, at_bats } => {
                assert(s =~= dec(hits as nat) + (" for "@ + dec(at_bats as nat)));
                lemma_count_prefix(hits, " for "@ + dec(at_bats as nat));
                let rest = s.skip(digit_run(s) as int);
                assert(rest =~= " for "@ + dec(at_bats as nat));
                assert(rest.subrange(0, 5) =~= " for "@);
                assert(rest.skip(5) =~= dec(at_bats as nat));
                lemma_leading_u8_dec(at_bats);
                lemma_dec_digits(at_bats as nat);
                assert(rest.len() >= 6);
            },
            BatterStat::FirstBases(count) => {
                reveal_strlit("1B");
                reveal_strlit(" ");
                assert(" "@ + "1B"@ =~= " 1B"@);
                assert(s =~= dec(count as nat) + " 1B"@);
                lemma_count_prefix(count, " 1B"@);
                
            },
            BatterStat::SecondBases(count) => {
                reveal_strlit("2B");
                reveal_strlit(" ");
                assert(" "@ + "2B"@ =~= " 2B"@);
                assert(s =~= dec(count as nat) + " 2B"@);
                lemma_count_prefix(count, " 2B"@);
                assert(" 2B"@[1] != " 1B"@[1]);
            },
            BatterStat::ThirdBases(count) => {
                reveal_strlit("3B");
                reveal_strlit(" ");
                assert(" "@ + "3B"@ =~= " 3B"@);
                assert(s =~= dec(count as nat) + " 3B"@);
                lemma_count_prefix(count, " 3B"@);
                assert(" 3B"@[1] != " 1B"@[1]); assert(" 3B"@[1] != " 2B"@[1]);
            },
            BatterStat::HomeRuns(count) => {
                reveal_strlit("HR");
                reveal_strlit(" ");
                assert(" "@ + "HR"@ =~= " HR"@);
                assert(s =~= dec(count as nat) + " HR"@);
                lemma_count_prefix(count, " HR"@);
                assert(" HR"@[1] != " 1B"@[1]); assert(" HR"@[1] != " 2B"@[1]); assert(" HR"@[1] != " 3B"@[1]); assert(" HR"@[1] != " LO"@[1]); assert(" HR"@[1] != " SO"@[1]); assert(" HR"@[1] != " FO"@[1]);
            },
            BatterStat::SacrificeFlies(count) => {
                reveal_strlit("SF");
                reveal_strlit(" ");
                assert(" "@ + "SF"@ =~= " SF"@);
                assert(s =~= dec(count as nat) + " SF"@);
                lemma_count_prefix(count, " SF"@);
                assert(" SF"@[1] != " 1B"@[1]); assert(" SF"@[1] != " 2B"@[1]); assert(" SF"@[1] != " 3B"@[1]); assert(" SF"@[1] != " LO"@[1]); assert(" SF"@[2] != " SO"@[2]); assert(" SF"@[1] != " FO"@[1]); assert(" SF"@[1] != " HR"@[1]); assert(" SF"@[1] != " FC"@[1]);
            },
            BatterStat::PopOuts(count) => {
                reveal_strlit("PO");
                reveal_strlit(" ");
                assert(" "@ + "PO"@ =~= " PO"@);
                assert(s =~= dec(count as nat) + " PO"@);
                lemma_count_prefix(count, " PO"@);
                assert(" PO"@[1] != " 1B"@[1]); assert(" PO"@[1] != " 2B"@[1]); assert(" PO"@[1] != " 3B"@[1]); assert(" PO"@[1] != " LO"@[1]); assert(" PO"@[1] != " SO"@[1]); assert(" PO"@[1] != " FO"@[1]); assert(" PO"@[1] != " HR"@[1]); assert(" PO"@[1] != " FC"@[1]); assert(" PO"@[1] != " SF"@[1]); assert(" PO"@[1] != " BB"@[1]); assert(" PO"@[1] != " FC"@[1]);
            },
            BatterStat::LineOuts(count) => {
                reveal_strlit("LO");
                reveal_strlit(" ");
                assert(" "@ + "LO"@ =~= " LO"@);
                assert(s =~= dec(count as nat) + " LO"@);
                lemma_count_prefix(count, " LO"@);
                assert(" LO"@[1] != " 1B"@[1]); assert(" LO"@[1] != " 2B"@[1]); assert(" LO"@[1] != " 3B"@[1]);
            },
            BatterStat::StrikeOuts(count) => {
                reveal_strlit("SO");
                reveal_strlit(" ");
                assert(" "@ + "SO"@ =~= " SO"@);
                assert(s =~= dec(count as nat) + " SO"@);
                lemma_count_prefix(count, " SO"@);
                assert(" SO"@[1] != " 1B"@[1]); assert(" SO"@[1] != " 2B"@[1]); assert(" SO"@[1] != " 3B"@[1]); assert(" SO"@[1] != " LO"@[1]);
            },
            BatterStat::ForceOuts(count) => {
                reveal_strlit("FO");
                reveal_strlit(" ");
                assert(" "@ + "FO"@ =~= " FO"@);
                assert(s =~= dec(count as nat) + " FO"@);
                lemma_count_prefix(count, " FO"@);
                assert(" FO"@[1] != " 1B"@[1]); assert(" FO"@[1] != " 2B"@[1]); assert(" FO"@[1] != " 3B"@[1]); assert(" FO"@[1] != " LO"@[1]); assert(" FO"@[1] != " SO"@[1]);
            },
            BatterStat::BaseOnBalls(count) => {
                reveal_strlit("BB");
                reveal_strlit(" ");
                assert(" "@ + "BB"@ =~= " BB"@);
                assert(s =~= dec(count as nat) + " BB"@);
                lemma_count_prefix(count, " BB"@);
                assert(" BB"@[1] != " 1B"@[1]); assert(" BB"@[1] != " 2B"@[1]); assert(" BB"@[1] != " 3B"@[1]); assert(" BB"@[1] != " LO"@[1]); assert(" BB"@[1] != " SO"@[1]); assert(" BB"@[1] != " FO"@[1]); assert(" BB"@[1] != " HR"@[1]); assert(" BB"@[1] != " FC"@[1]); assert(" BB"@[1] != " SF"@[1]);
            },
            BatterStat::HitByPitchs(count) => {
                reveal_strlit("HBP");
                reveal_strlit(" ");
                assert(" "@ + "HBP"@ =~= " HBP"@);
                assert(s =~= dec(count as nat) + " HBP"@);
                lemma_count_prefix(count, " HBP"@);
                
            },
            BatterStat::GroundIntoDoublePlays(count) => {
                reveal_strlit("GIDP");
                reveal_strlit(" ");
                assert(" "@ + "GIDP"@ =~= " GIDP"@);
                assert(s =~= dec(count as nat) + " GIDP"@);
                lemma_count_prefix(count, " GIDP"@);
                
            },
            BatterStat::CaughtDoublePlays(count) => {
                reveal_strlit("CDP");
                reveal_strlit(" ");
                assert(" "@ + "CDP"@ =~= " CDP"@);
                assert(s =~= dec(count as nat) + " CDP"@);
                lemma_count_prefix(count, " CDP"@);
                assert(" CDP"@[1] != " HBP"@[1]);
            },
            BatterStat::FieldersChoices(count) => {
                reveal_strlit("FC");
                reveal_strlit(" ");
                assert(" "@ + "FC"@ =~= " FC"@);
                assert(s =~= dec(count as nat) + " FC"@);
                lemma_count_prefix(count, " FC"@);
                assert(" FC"@[1] != " 1B"@[1]); assert(" FC"@[1] != " 2B"@[1]); assert(" FC"@[1] != " 3B"@[1]); assert(" FC"@[1] != " LO"@[1]); assert(" FC"@[1] != " SO"@[1]); assert(" FC"@[2] != " FO"@[2]); assert(" FC"@[1] != " HR"@[1]);
            },
            BatterStat::Fouls(count) => {
                reveal_strlit("F");
                reveal_strlit(" ");
                assert(" "@ + "F"@ =~= " F"@);
                assert(s =~= dec(count as nat) + " F"@);
                lemma_count_prefix(count, " F"@);
                
            },
            BatterStat::GroundOuts(count) => {
                reveal_strlit("GO");
                reveal_strlit(" ");
                assert(" "@ + "GO"@ =~= " GO"@);
                assert(s =~= dec(count as nat) + " GO"@);
                lemma_count_prefix(count, " GO"@);
                assert(" GO"@[1] != " 1B"@[1]); assert(" GO"@[1] != " 2B"@[1]); assert(" GO"@[1] != " 3B"@[1]); assert(" GO"@[1] != " LO"@[1]); assert(" GO"@[1] != " SO"@[1]); assert(" GO"@[1] != " FO"@[1]); assert(" GO"@[1] != " HR"@[1]); assert(" GO"@[1] != " FC"@[1]); assert(" GO"@[1] != " SF"@[1]); assert(" GO"@[1] != " BB"@[1]); assert(" GO"@[1] != " FC"@[1]); assert(" GO"@[1] != " PO"@[1]);
            },
        }
    }
}

/// A count statistic written as its count and `form`, a space and the name of
/// its kind, reads back as itself.
proof fn lemma_count_stat(stat: BatterStat, n: u8, form: Seq<char>)
    requires
        !(stat is HitsForAtBats),
        stat.spec_text() == dec(n as nat) + " "@ + stat.spec_kind_name(),
        form == " "@ + stat.spec_kind_name(),
    ensures
        stat.spec_text() == dec(n as nat) + form,
        BatterStat::spec_parse(dec(n as nat) + form) == Some(stat),
{
    assert(stat.spec_text() =~= dec(n as nat) + form);
    stat.lemma_parse_text();
}

/// How hits are written and read: "{n} 1B" first bases, "{n} 2B" second
/// bases, "{n} 3B" third bases and "{n} HR" home runs, and "{h} for {a}" hits for
/// at-bats.
pub proof fn lemma_hit_stat_table(n: u8, hits: u8, at_bats: u8)
    ensures
        (BatterStat::HitsForAtBats { hits, at_bats }).spec_text() == dec(hits as nat) + " for "@ + dec(at_bats as nat),
        BatterStat::spec_parse(dec(hits as nat) + " for "@ + dec(at_bats as nat)) == Some((BatterStat::HitsForAtBats { hits, at_bats })),
        BatterStat::FirstBases(n).spec_text() == dec(n as nat) + " 1B"@,
        BatterStat::spec_parse(dec(n as nat) + " 1B"@) == Some(BatterStat::FirstBases(n)),
        BatterStat::SecondBases(n).spec_text() == dec(n as nat) + " 2B"@,
        BatterStat::spec_parse(dec(n as nat) + " 2B"@) == Some(BatterStat::SecondBases(n)),
        BatterStat::ThirdBases(n).spec_text() == dec(n as nat) + " 3B"@,
        BatterStat::spec_parse(dec(n as nat) + " 3B"@) == Some(BatterStat::ThirdBases(n)),
        BatterStat::HomeRuns(n).spec_text() == dec(n as nat) + " HR"@,
        BatterStat::spec_parse(dec(n as nat) + " HR"@) == Some(BatterStat::HomeRuns(n)),
{
    (BatterStat::HitsForAtBats { hits, at_bats }).lemma_parse_text();
    reveal_strlit(" ");
    reveal_strlit("1B");
    reveal_strlit(" 1B");
    assert(" 1B"@ =~= " "@ + "1B"@);
    lemma_count_stat(BatterStat::FirstBases(n), n, " 1B"@);
    reveal_strlit("2B");
    reveal_strlit(" 2B");
    assert(" 2B"@ =~= " "@ + "2B"@);
    lemma_count_stat(BatterStat::SecondBases(n), n, " 2B"@);
    reveal_strlit("3B");
    reveal_strlit(" 3B");
    assert(" 3B"@ =~= " "@ + "3B"@);
    lemma_count_stat(BatterStat::ThirdBases(n), n, " 3B"@);
    reveal_strlit("HR");
    reveal_strlit(" HR");
    assert(" HR"@ =~= " "@ + "HR"@);
    lemma_count_stat(BatterStat::HomeRuns(n), n, " HR"@);
}

/// How outs are written and read: "{n} PO" pop outs, "{n} LO" line outs,
/// "{n} SO" strike outs, "{n} FO" force outs and "{n} GO" ground outs.
pub proof fn lemma_out_stat_table(n: u8)
    ensures
        BatterStat::PopOuts(n).spec_text() == dec(n as nat) + " PO"@,
        BatterStat::spec_parse(dec(n as nat) + " PO"@) == Some(BatterStat::PopOuts(n)),
        BatterStat::LineOuts(n).spec_text() == dec(n as nat) + " LO"@,
        BatterStat::spec_parse(dec(n as nat) + " LO"@) == Some(BatterStat::LineOuts(n)),
        BatterStat::StrikeOuts(n).spec_text() == dec(n as nat) + " SO"@,
        BatterStat::spec_parse(dec(n as nat) + " SO"@) == Some(BatterStat::StrikeOuts(n)),
        BatterStat::ForceOuts(n).spec_text() == dec(n as nat) + " FO"@,
        BatterStat::spec_parse(dec(n as nat) + " FO"@) == Some(BatterStat::ForceOuts(n)),
        BatterStat::GroundOuts(n).spec_text() == dec(n as nat) + " GO"@,
        BatterStat::spec_parse(dec(n as nat) + " GO"@) == Some(BatterStat::GroundOuts(n)),
{
    reveal_strlit(" ");
    reveal_strlit("PO");
    reveal_strlit(" PO");
    assert(" PO"@ =~= " "@ + "PO"@);
    lemma_count_stat(BatterStat::PopOuts(n), n, " PO"@);
    reveal_strlit("LO");
    reveal_strlit(" LO");
    assert(" LO"@ =~= " "@ + "LO"@);
    lemma_count_stat(BatterStat::LineOuts(n), n, " LO"@);
    reveal_strlit("SO");
    reveal_strlit(" SO");
    assert(" SO"@ =~= " "@ + "SO"@);
    lemma_count_stat(BatterStat::StrikeOuts(n), n, " SO"@);
    reveal_strlit("FO");
    reveal_strlit(" FO");
    assert(" FO"@ =~= " "@ + "FO"@);
    lemma_count_stat(BatterStat::ForceOuts(n), n, " FO"@);
    reveal_strlit("GO");
    reveal_strlit(" GO");
    assert(" GO"@ =~= " "@ + "GO"@);
    lemma_count_stat(BatterStat::GroundOuts(n), n, " GO"@);
}

/// How the other statistics are written and read: "{n} SF" sacrifice flies,
/// "{n} BB" walks, "{n} HBP" hit by pitches, "{n} GIDP" double plays grounded
/// into, "{n} CDP" caught double plays, "{n} FC" fielder's choices and "{n} F"
/// fouls.
pub proof fn lemma_other_stat_table(n: u8)
    ensures
        BatterStat::SacrificeFlies(n).spec_text() == dec(n as nat) + " SF"@,
        BatterStat::spec_parse(dec(n as nat) + " SF"@) == Some(BatterStat::SacrificeFlies(n)),
        BatterStat::BaseOnBalls(n).spec_text() == dec(n as nat) + " BB"@,
        BatterStat::spec_parse(dec(n as nat) + " BB"@) == Some(BatterStat::BaseOnBalls(n)),
        BatterStat::HitByPitchs(n).spec_text() == dec(n as nat) + " HBP"@,
        BatterStat::spec_parse(dec(n as nat) + " HBP"@) == Some(BatterStat::HitByPitchs(n)),
        BatterStat::GroundIntoDoublePlays(n).spec_text() == dec(n as nat) + " GIDP"@,
        BatterStat::spec_parse(dec(n as nat) + " GIDP"@) == Some(BatterStat::GroundIntoDoublePlays(n)),
        BatterStat::CaughtDoublePlays(n).spec_text() == dec(n as nat) + " CDP"@,
        BatterStat::spec_parse(dec(n as nat) + " CDP"@) == Some(BatterStat::CaughtDoublePlays(n)),
        BatterStat::FieldersChoices(n).spec_text() == dec(n as nat) + " FC"@,
        BatterStat::spec_parse(dec(n as nat) + " FC"@) == Some(BatterStat::FieldersChoices(n)),
        BatterStat::Fouls(n).spec_text() == dec(n as nat) + " F"@,
        BatterStat::spec_parse(dec(n as nat) + " F"@) == Some(BatterStat::Fouls(n)),
{
    reveal_strlit(" ");
    reveal_strlit("SF");
    reveal_strlit(" SF");
    assert(" SF"@ =~= " "@ + "SF"@);
    lemma_count_stat(BatterStat::SacrificeFlies(n), n, " SF"@);
    reveal_strlit("BB");
    reveal_strlit(" BB");
    assert(" BB"@ =~= " "@ + "BB"@);
    lemma_count_stat(BatterStat::BaseOnBalls(n), n, " BB"@);
    reveal_strlit("HBP");
    reveal_strlit(" HBP");
    assert(" HBP"@ =~= " "@ + "HBP"@);
    lemma_count_stat(BatterStat::HitByPitchs(n), n, " HBP"@);
    reveal_strlit("GIDP");
    reveal_strlit(" GIDP");
    assert(" GIDP"@ =~= " "@ + "GIDP"@);
    lemma_count_stat(BatterStat::GroundIntoDoublePlays(n), n, " GIDP"@);
    reveal_strlit("CDP");
    reveal_strlit(" CDP");
    assert(" CDP"@ =~= " "@ + "CDP"@);
    lemma_count_stat(BatterStat::CaughtDoublePlays(n), n, " CDP"@);
    reveal_strlit("FC");
    reveal_strlit(" FC");
    assert(" FC"@ =~= " "@ + "FC"@);
    lemma_count_stat(BatterStat::FieldersChoices(n), n, " FC"@);
    reveal_strlit("F");
    reveal_strlit(" F");
    assert(" F"@ =~= " "@ + "F"@);
    lemma_count_stat(BatterStat::Fouls(n), n, " F"@);
}

/// The text of a statistic starts with a digit, has at least two characters,
/// the second a digit or a space, and holds no comma.
pub proof fn lemma_stat_text_shape(stat: BatterStat)
    ensures
        stat.spec_text().len() >= 2,
        is_digit(stat.spec_text()[0]),
        is_digit(stat.spec_text()[1]) || stat.spec_text()[1] == ' ',
        forall|i: int| 0 <= i < stat.spec_text().len() ==> #[trigger] stat.spec_text()[i] != ',',
{
    reveal_strlit(" ");
    reveal_strlit(" for ");
    let t = stat.spec_text();
    match stat {
        BatterStat::HitsForAtBats { hits, at_bats } => {
            lemma_dec_digits(hits as nat);
            lemma_dec_digits(at_bats as nat);
            let d = dec(hits as nat);
            let e = dec(at_bats as nat);
            assert forall|i: int| 0 <= i < t.len() implies #[trigger] t[i] != ',' by {
                if i < d.len() {
                    assert(t[i] == d[i]);
                    assert(is_digit(d[i]));
                } else if i < d.len() + 5 {
                    assert(t[i] == " for "@[i - d.len()]);
                } else {
                    assert(t[i] == e[i - d.len() - 5]);
                    assert(is_digit(e[i - d.len() - 5]));
                }
            }
            assert(t[0] == d[0]);
            assert(is_digit(d[0]));
            if d.len() > 1 {
                assert(t[1] == d[1]);
                assert(is_digit(d[1]));
            } else {
                assert(t[1] == ' ');
            }
        },
        _ => {
            let count: u8 = match stat {
                BatterStat::HitsForAtBats { hits, .. } => hits,
                BatterStat::FirstBases(c) | BatterStat::SecondBases(c) | BatterStat::ThirdBases(c) | BatterStat::HomeRuns(c)
                | BatterStat::SacrificeFlies(c) | BatterStat::PopOuts(c) | BatterStat::LineOuts(c) | BatterStat::StrikeOuts(c)
                | BatterStat::ForceOuts(c) | BatterStat::BaseOnBalls(c) | BatterStat::HitByPitchs(c)
                | BatterStat::GroundIntoDoublePlays(c) | BatterStat::CaughtDoublePlays(c) | BatterStat::FieldersChoices(c)
                | BatterStat::Fouls(c) | BatterStat::GroundOuts(c) => c,
            };
            lemma_dec_digits(count as nat);
            lemma_kind_name_no_comma(stat);
            let d = dec(count as nat);
            let k = stat.spec_kind_name();
            assert(t == d + " "@ + k);
            assert forall|i: int| 0 <= i < t.len() implies #[trigger] t[i] != ',' by {
                if i < d.len() {
                    assert(t[i] == d[i]);
                    assert(is_digit(d[i]));
                } else if i == d.len() {
                    assert(t[i] == ' ');
                } else {
                    assert(t[i] == k[i - d.len() - 1]);
                }
            }
            assert(t[0] == d[0]);
            assert(is_digit(d[0]));
            if d.len() > 1 {
                assert(t[1] == d[1]);
                assert(is_digit(d[1]));
            } else {
                assert(t[1] == ' ');
            }
        },
    }
}

/// The short names of the kinds of statistics hold no comma and are not empty.
proof fn lemma_kind_name_no_comma(stat: BatterStat)
    ensures
        stat.spec_kind_name().len() >= 1,
        forall|i: int| 0 <= i < stat.spec_kind_name().len() ==> #[trigger] stat.spec_kind_name()[i] != ',',
{
    match stat {
        BatterStat::HitsForAtBats { .. } => {
            reveal_strlit("HitsForAtBats");
        }
        BatterStat::FirstBases(_) => {
            reveal_strlit("1B");
        }
        BatterStat::SecondBases(_) => {
            reveal_strlit("2B");
        }
        BatterStat::ThirdBases(_) => {
            reveal_strlit("3B");
        }
        BatterStat::HomeRuns(_) => {
            reveal_strlit("HR");
        }
        BatterStat::SacrificeFlies(_) => {
            reveal_strlit("SF");
        }
        BatterStat::PopOuts(_) => {
            reveal_strlit("PO");
        }
        BatterStat::LineOuts(_) => {
            reveal_strlit("LO");
        }
        BatterStat::StrikeOuts(_) => {
            reveal_strlit("SO");
        }
        BatterStat::ForceOuts(_) => {
            reveal_strlit("FO");
        }
        BatterStat::BaseOnBalls(_) => {
            reveal_strlit("BB");
        }
        BatterStat::HitByPitchs(_) => {
            reveal_strlit("HBP");
        }
        BatterStat::GroundIntoDoublePlays(_) => {
            reveal_strlit("GIDP");
        }
        BatterStat::CaughtDoublePlays(_) => {
            reveal_strlit("CDP");
        }
        BatterStat::FieldersChoices(_) => {
            reveal_strlit("FC");
        }
        BatterStat::Fouls(_) => {
            reveal_strlit("F");
        }
        BatterStat::GroundOuts(_) => {
            reveal_strlit("GO");
        }
    }
}

/// Statistics written one after another: the first, ", ", then the others.
pub proof fn lemma_stats_text_first(stats: Seq<BatterStat>)
    requires
        stats.len() >= 2,
    ensures
        stats_text(stats) == stats[0].spec_text() + ", "@ + stats_text(stats.drop_first()),
    decreases stats.len(),
{
    let d = stats.drop_last();
    let f = stats.drop_first();
    assert(stats_text(stats) == stats_text(d) + ", "@ + stats.last().spec_text());
    if stats.len() == 2 {
        assert(d.len() == 1);
        assert(f.len() == 1);
        assert(stats_text(d) == d[0].spec_text());
        assert(stats_text(f) == f[0].spec_text());
        assert(d[0] == stats[0]);
        assert(f[0] == stats.last());
    } else {
        lemma_stats_text_first(d);
        assert(d.drop_first() =~= f.drop_last());
        assert(f.last() == stats.last());
        assert(d[0] == stats[0]);
        assert(stats_text(f) == stats_text(f.drop_last()) + ", "@ + f.last().spec_text());
        assert(stats_text(stats) =~= stats[0].spec_text() + ", "@ + (stats_text(d.drop_first()) + ", "@ + stats.last().spec_text()));
    }
}

/// After the digits of a number comes the rest of the text, when the rest does
/// not start with a digit.
pub proof fn lemma_count_prefix(n: u8, rest: Seq<char>)
    requires
        rest.len() > 0 && !is_digit(rest[0]),
    ensures
        digit_run(dec(n as nat) + rest) == dec(n as nat).len(),
        leading_u8(dec(n as nat) + rest) == Some(n),
        (dec(n as nat) + rest).skip(dec(n as nat).len() as int) == rest,
{
    let d = dec(n as nat);
    let s = d + rest;
    lemma_dec_digits(n as nat);
    assert(s.subrange(0, d.len() as int) =~= d);
    assert(s[d.len() as int] == rest[0]);
    lemma_digit_run(s, d.len() as int);
    assert(s.skip(d.len() as int) =~= rest);
}

/// Possible followup to "Now batting: [BATTER]", e.g. "(1st PA of game)".
#[derive(Debug, Clone, PartialEq, Eq, Hash)]
pub enum NowBattingStats {
    FirstPA,
    Stats(Vec<BatterStat>),
    NoStats,
}

/// The texts of the statistics, separated by ", ".
pub open spec fn stats_text(stats: Seq<BatterStat>) -> Seq<char>
    decreases stats.len(),
{
    if stats.len() == 0 {
        Seq::empty()
    } else if stats.len() == 1 {
        stats[0].spec_text()
    } else {
        stats_text(stats.drop_last()) + ", "@ + stats.last().spec_text()
    }
}

impl NowBattingStats {
    /// The text after the batter's name.
    pub open spec fn spec_text(&self) -> Seq<char> {
        match self {
            NowBattingStats::FirstPA => " (1st PA of game)"@,
            NowBattingStats::Stats(stats) => " ("@ + stats_text(stats@) + ")"@,
            NowBattingStats::NoStats => Seq::empty(),
        }
    }

    pub fn push_to(&self, out: &mut String)
        ensures
            final(out)@ == old(out)@ + self.spec_text(),
    {
        match self {
            NowBattingStats::FirstPA => {
                out.append(" (1st PA of game)");
            },
            NowBattingStats::Stats(stats) => {
                out.append(" (");
                let ghost start = out@;
                for i in 0..stats.len()
                    invariant
                        out@ == start + stats_text(stats@.take(i as int)),
                {
                    assert(stats@.take(i + 1).drop_last() =~= stats@.take(i as int));
                    if i > 0 {
                        out.append(", ");
                    } else {
                        assert(stats@.take(1)[0] == stats@[0]);
                    }
                    stats[i].push_to(out);
                }
                assert(stats@.take(stats.len() as int) =~= stats@);
                out.append(")");
            },
            NowBattingStats::NoStats => {},
        }
    }
}

} // verus!
