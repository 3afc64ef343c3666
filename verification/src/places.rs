//! Fielding places and roster slots, written as short codes such as `1B` or `SP2`.

use vstd::prelude::*;
use vstd::std_specs::convert::FromSpecImpl;
use crate::enums::{Base, BaseNameVariant, FairBallType, FieldingErrorType, ParseError, Position};
use crate::text::{chars_of, dec, push_dec, matches_at, segment_is, leading_unsigned, spec_leading_unsigned,
    lemma_dec_digits, lemma_digit_run};

verus! {

/// The digits of a number, or nothing.
pub open spec fn opt_dec(n: Option<u8>) -> Seq<char> {
    match n {
        Some(k) => dec(k as nat),
        None => Seq::empty(),
    }
}

/// The number of at most 255 written by the digits at the start of `r`, if any.
pub open spec fn leading_u8(r: Seq<char>) -> Option<u8> {
    match spec_leading_unsigned(r, 255) {
        Some(k) => Some(k as u8),
        None => None,
    }
}

/// The digits of a number read back as that number.
pub proof fn lemma_leading_u8_dec(k: u8)
    ensures
        leading_u8(dec(k as nat)) == Some(k),
{
    let s = dec(k as nat);
    lemma_dec_digits(k as nat);
    assert(s.subrange(0, s.len() as int) =~= s);
    lemma_digit_run(s, s.len() as int);
}

/// A place a player in a game has been said to be.
#[derive(Debug, Clone, Copy, PartialEq, Eq, Hash, Structural)]
pub enum Place {
    Pitcher,
    Catcher,
    FirstBaseman,
    SecondBaseman,
    ThirdBaseman,
    ShortStop,
    LeftField,
    CenterField,
    RightField,
    StartingPitcher(Option<u8>),
    ReliefPitcher(Option<u8>),
    Closer,
    DesignatedHitter,
}

/// A roster slot of a player.
#[derive(Debug, Clone, Copy, PartialEq, Eq, Hash, Structural)]
pub enum Slot {
    Catcher,
    FirstBaseman,
    SecondBaseman,
    ThirdBaseman,
    ShortStop,
    LeftField,
    CenterField,
    RightField,
    StartingPitcher(u8),
    ReliefPitcher(u8),
    Closer,
    DesignatedHitter,
}

impl Place {
    /// The text by which this place is written.
    pub open spec fn spec_name(self) -> Seq<char> {
        match self {
            Place::Pitcher => "P"@,
            Place::Catcher => "C"@,
            Place::FirstBaseman => "1B"@,
            Place::SecondBaseman => "2B"@,
            Place::ThirdBaseman => "3B"@,
            Place::LeftField => "LF"@,
            Place::CenterField => "CF"@,
            Place::RightField => "RF"@,
            Place::ShortStop => "SS"@,
            Place::StartingPitcher(n) => "SP"@ + opt_dec(n),
            Place::ReliefPitcher(n) => "RP"@ + opt_dec(n),
            Place::Closer => "CL"@,
            Place::DesignatedHitter => "DH"@,
        }
    }

    /// The text by which this place is written.
    pub fn to_string(&self) -> (r: String)
        ensures
            r@ == self.spec_name(),
    {
        match self {
            Place::Pitcher => String::from_str("P"),
            Place::Catcher => String::from_str("C"),
            Place::FirstBaseman => String::from_str("1B"),
            Place::SecondBaseman => String::from_str("2B"),
            Place::ThirdBaseman => String::from_str("3B"),
            Place::LeftField => String::from_str("LF"),
            Place::CenterField => String::from_str("CF"),
            Place::RightField => String::from_str("RF"),
            Place::ShortStop => String::from_str("SS"),
            Place::StartingPitcher(n) => {
                let mut s = String::from_str("SP");
                if let Some(n) = n {
                    push_dec(&mut s, *n as u64);
                }
                s
            },
            Place::ReliefPitcher(n) => {
                let mut s = String::from_str("RP");
                if let Some(n) = n {
                    push_dec(&mut s, *n as u64);
                }
                s
            },
            Place::Closer => String::from_str("CL"),
            Place::DesignatedHitter => String::from_str("DH"),
        }
    }

    /// The place written at the start of `s`: most places must be the whole text,
    /// while `DH`, `SP` and `RP` may be followed by more (the number of a pitcher
    /// directly after `SP` or `RP`).
    pub open spec fn spec_parse(s: Seq<char>) -> Option<Place> {
        if s == "P"@ { Some(Place::Pitcher) }
        else if s == "C"@ { Some(Place::Catcher) }
        else if s == "1B"@ { Some(Place::FirstBaseman) }
        else if s == "2B"@ { Some(Place::SecondBaseman) }
        else if s == "3B"@ { Some(Place::ThirdBaseman) }
        else if s == "LF"@ { Some(Place::LeftField) }
        else if s == "CF"@ { Some(Place::CenterField) }
        else if s == "RF"@ { Some(Place::RightField) }
        else if s == "SS"@ { Some(Place::ShortStop) }
        else if s.len() >= 2 && s.subrange(0, 2) == "DH"@ { Some(Place::DesignatedHitter) }
        else if s.len() >= 2 && s.subrange(0, 2) == "SP"@ { Some(Place::StartingPitcher(leading_u8(s.skip(2)))) }
        else if s.len() >= 2 && s.subrange(0, 2) == "RP"@ { Some(Place::ReliefPitcher(leading_u8(s.skip(2)))) }
        else if s == "CL"@ { Some(Place::Closer) }
        else { None }
    }

    /// Reads a place from its written form.
    pub fn from_str(s: &str) -> (r: Result<Place, ParseError>)
        ensures
            match r {
                Ok(p) => Place::spec_parse(s@) == Some(p),
                Err(_) => Place::spec_parse(s@) is None,
            },
    {
        let v = chars_of(s);
        let n = v.len();
        assert(v@.subrange(0, n as int) =~= s@);
        if segment_is(&v, 0, n, "P") {
            return Ok(Place::Pitcher);
        }
        if segment_is(&v, 0, n, "C") {
            return Ok(Place::Catcher);
        }
        if segment_is(&v, 0, n, "1B") {
            return Ok(Place::FirstBaseman);
        }
        if segment_is(&v, 0, n, "2B") {
            return Ok(Place::SecondBaseman);
        }
        if segment_is(&v, 0, n, "3B") {
            return Ok(Place::ThirdBaseman);
        }
        if segment_is(&v, 0, n, "LF") {
            return Ok(Place::LeftField);
        }
        if segment_is(&v, 0, n, "CF") {
            return Ok(Place::CenterField);
        }
        if segment_is(&v, 0, n, "RF") {
            return Ok(Place::RightField);
        }
        if segment_is(&v, 0, n, "SS") {
            return Ok(Place::ShortStop);
        }
        proof { reveal_strlit("DH"); reveal_strlit("SP"); reveal_strlit("RP"); }
        if matches_at(&v, 0, "DH") {
            return Ok(Place::DesignatedHitter);
        }
        if matches_at(&v, 0, "SP") {
            proof { assert(v@.subrange(2, n as int) =~= s@.skip(2)); }
            return match leading_unsigned(&v, 2, n, 255) {
                Some((k, _)) => Ok(Place::StartingPitcher(Some(k as u8))),
                None => Ok(Place::StartingPitcher(None)),
            };
        }
        if matches_at(&v, 0, "RP") {
            proof { assert(v@.subrange(2, n as int) =~= s@.skip(2)); }
            return match leading_unsigned(&v, 2, n, 255) {
                Some((k, _)) => Ok(Place::ReliefPitcher(Some(k as u8))),
                None => Ok(Place::ReliefPitcher(None)),
            };
        }
        if segment_is(&v, 0, n, "CL") {
            return Ok(Place::Closer);
        }
        Err(ParseError::VariantNotFound)
    }

    /// The written form of a place is a word: not empty, and without spaces.
    pub proof fn lemma_name_is_word(self)
        ensures
            self.spec_name().len() >= 1,
            forall|i: int| 0 <= i < self.spec_name().len() ==> #[trigger] self.spec_name()[i] != ' ' && self.spec_name()[i] != '.',
            self.spec_name()[0] != 'T',
    {
        reveal_strlit("SP");
        reveal_strlit("RP");
        match self {
            Place::Pitcher => { reveal_strlit("P"); }
            Place::Catcher => { reveal_strlit("C"); }
            Place::FirstBaseman => { reveal_strlit("1B"); }
            Place::SecondBaseman => { reveal_strlit("2B"); }
            Place::ThirdBaseman => { reveal_strlit("3B"); }
            Place::LeftField => { reveal_strlit("LF"); }
            Place::CenterField => { reveal_strlit("CF"); }
            Place::RightField => { reveal_strlit("RF"); }
            Place::ShortStop => { reveal_strlit("SS"); }
            Place::Closer => { reveal_strlit("CL"); }
            Place::DesignatedHitter => { reveal_strlit("DH"); }
            Place::StartingPitcher(n) | Place::ReliefPitcher(n) => {
                let t = self.spec_name();
                let d = opt_dec(n);
                if let Some(k) = n {
                    lemma_dec_digits(k as nat);
                }
                assert(t[0] == 'S' || t[0] == 'R');
                assert forall|i: int| 0 <= i < t.len() implies #[trigger] t[i] != ' ' && t[i] != '.' by {
                    if i >= 2 {
                        assert(t[i] == d[i - 2]);
                        if let Some(k) = n {
                            assert(crate::text::is_digit(dec(k as nat)[i - 2]));
                        }
                    }
                }
            }
        }
    }

    /// Reading the written form of a place gives that place back.
    pub proof fn lemma_parse_name(self)
        ensures
            Place::spec_parse(self.spec_name()) == Some(self),
    {
        reveal_strlit("DH"); reveal_strlit("SP"); reveal_strlit("RP"); reveal_strlit("CL");
        match self {
            Place::Pitcher => {
                reveal_strlit("P");
            }
            Place::Catcher => {
                reveal_strlit("C");
                reveal_strlit("P"); assert("C"@[0] != "P"@[0]); assert("C"@ != "P"@);
            }
            Place::FirstBaseman => {
                reveal_strlit("1B");
                reveal_strlit("P"); assert("1B"@.len() != "P"@.len()); assert("1B"@ != "P"@);
                reveal_strlit("C"); assert("1B"@.len() != "C"@.len()); assert("1B"@ != "C"@);
            }
            Place::SecondBaseman => {
                reveal_strlit("2B");
                reveal_strlit("P"); assert("2B"@.len() != "P"@.len()); assert("2B"@ != "P"@);
                reveal_strlit("C"); assert("2B"@.len() != "C"@.len()); assert("2B"@ != "C"@);
                reveal_strlit("1B"); assert("2B"@[0] != "1B"@[0]); assert("2B"@ != "1B"@);
            }
            Place::ThirdBaseman => {
                reveal_strlit("3B");
                reveal_strlit("P"); assert("3B"@.len() != "P"@.len()); assert("3B"@ != "P"@);
                reveal_strlit("C"); assert("3B"@.len() != "C"@.len()); assert("3B"@ != "C"@);
                reveal_strlit("1B"); assert("3B"@[0] != "1B"@[0]); assert("3B"@ != "1B"@);
                reveal_strlit("2B"); assert("3B"@[0] != "2B"@[0]); assert("3B"@ != "2B"@);
            }
            Place::LeftField => {
                reveal_strlit("LF");
                reveal_strlit("P"); assert("LF"@.len() != "P"@.len()); assert("LF"@ != "P"@);
                reveal_strlit("C"); assert("LF"@.len() != "C"@.len()); assert("LF"@ != "C"@);
                reveal_strlit("1B"); assert("LF"@[0] != "1B"@[0]); assert("LF"@ != "1B"@);
                reveal_strlit("2B"); assert("LF"@[0] != "2B"@[0]); assert("LF"@ != "2B"@);
                reveal_strlit("3B"); assert("LF"@[0] != "3B"@[0]); assert("LF"@ != "3B"@);
            }
            Place::CenterField => {
                reveal_strlit("CF");
                reveal_strlit("P"); assert("CF"@.len() != "P"@.len()); assert("CF"@ != "P"@);
                reveal_strlit("C"); assert("CF"@.len() != "C"@.len()); assert("CF"@ != "C"@);
                reveal_strlit("1B"); assert("CF"@[0] != "1B"@[0]); assert("CF"@ != "1B"@);
                reveal_strlit("2B"); assert("CF"@[0] != "2B"@[0]); assert("CF"@ != "2B"@);
                reveal_strlit("3B"); assert("CF"@[0] != "3B"@[0]); assert("CF"@ != "3B"@);
                reveal_strlit("LF"); assert("CF"@[0] != "LF"@[0]); assert("CF"@ != "LF"@);
            }
            Place::RightField => {
                reveal_strlit("RF");
                reveal_strlit("P"); assert("RF"@.len() != "P"@.len()); assert("RF"@ != "P"@);
                reveal_strlit("C"); assert("RF"@.len() != "C"@.len()); assert("RF"@ != "C"@);
                reveal_strlit("1B"); assert("RF"@[0] != "1B"@[0]); assert("RF"@ != "1B"@);
                reveal_strlit("2B"); assert("RF"@[0] != "2B"@[0]); assert("RF"@ != "2B"@);
                reveal_strlit("3B"); assert("RF"@[0] != "3B"@[0]); assert("RF"@ != "3B"@);
                reveal_strlit("LF"); assert("RF"@[0] != "LF"@[0]); assert("RF"@ != "LF"@);
                reveal_strlit("CF"); assert("RF"@[0] != "CF"@[0]); assert("RF"@ != "CF"@);
            }
            Place::ShortStop => {
                reveal_strlit("SS");
                reveal_strlit("P"); assert("SS"@.len() != "P"@.len()); assert("SS"@ != "P"@);
                reveal_strlit("C"); assert("SS"@.len() != "C"@.len()); assert("SS"@ != "C"@);
                reveal_strlit("1B"); assert("SS"@[0] != "1B"@[0]); assert("SS"@ != "1B"@);
                reveal_strlit("2B"); assert("SS"@[0] != "2B"@[0]); assert("SS"@ != "2B"@);
                reveal_strlit("3B"); assert("SS"@[0] != "3B"@[0]); assert("SS"@ != "3B"@);
                reveal_strlit("LF"); assert("SS"@[0] != "LF"@[0]); assert("SS"@ != "LF"@);
                reveal_strlit("CF"); assert("SS"@[0] != "CF"@[0]); assert("SS"@ != "CF"@);
                reveal_strlit("RF"); assert("SS"@[0] != "RF"@[0]); assert("SS"@ != "RF"@);
            }
            Place::StartingPitcher(n) => {
                let s = self.spec_name();
                match n { Some(k) => lemma_leading_u8_dec(k), None => {} }
                assert(s.skip(2) =~= opt_dec(n));
                assert(s.subrange(0, 2) =~= "SP"@);
                assert(s.len() >= 3 || n is None);
                if n is None {
                    assert(s =~= "SP"@);
                }
                reveal_strlit("P");
                reveal_strlit("C");
                reveal_strlit("SP");
                reveal_strlit("DH"); assert("SP"@[0] != "DH"@[0]); assert("SP"@ != "DH"@);
                reveal_strlit("1B"); assert("SP"@[0] != "1B"@[0]); assert("SP"@ != "1B"@);
                reveal_strlit("2B"); assert("SP"@[0] != "2B"@[0]); assert("SP"@ != "2B"@);
                reveal_strlit("3B"); assert("SP"@[0] != "3B"@[0]); assert("SP"@ != "3B"@);
                reveal_strlit("LF"); assert("SP"@[0] != "LF"@[0]); assert("SP"@ != "LF"@);
                reveal_strlit("CF"); assert("SP"@[0] != "CF"@[0]); assert("SP"@ != "CF"@);
                reveal_strlit("RF"); assert("SP"@[0] != "RF"@[0]); assert("SP"@ != "RF"@);
                reveal_strlit("SS"); assert("SP"@[1] != "SS"@[1]); assert("SP"@ != "SS"@);
            }
            Place::ReliefPitcher(n) => {
                let s = self.spec_name();
                match n { Some(k) => lemma_leading_u8_dec(k), None => {} }
                assert(s.skip(2) =~= opt_dec(n));
                assert(s.subrange(0, 2) =~= "RP"@);
                assert(s.len() >= 3 || n is None);
                if n is None {
                    assert(s =~= "RP"@);
                }
                reveal_strlit("P");
                reveal_strlit("C");
                reveal_strlit("RP");
                reveal_strlit("SP"); assert("RP"@[0] != "SP"@[0]); assert("RP"@ != "SP"@);
                reveal_strlit("DH"); assert("RP"@[0] != "DH"@[0]); assert("RP"@ != "DH"@);
                reveal_strlit("1B"); assert("RP"@[0] != "1B"@[0]); assert("RP"@ != "1B"@);
                reveal_strlit("2B"); assert("RP"@[0] != "2B"@[0]); assert("RP"@ != "2B"@);
                reveal_strlit("3B"); assert("RP"@[0] != "3B"@[0]); assert("RP"@ != "3B"@);
                reveal_strlit("LF"); assert("RP"@[0] != "LF"@[0]); assert("RP"@ != "LF"@);
                reveal_strlit("CF"); assert("RP"@[0] != "CF"@[0]); assert("RP"@ != "CF"@);
                reveal_strlit("RF"); assert("RP"@[1] != "RF"@[1]); assert("RP"@ != "RF"@);
                reveal_strlit("SS"); assert("RP"@[0] != "SS"@[0]); assert("RP"@ != "SS"@);
            }
            Place::Closer => {
                reveal_strlit("CL");
                reveal_strlit("DH"); assert("CL"@[0] != "DH"@[0]); assert("CL"@ != "DH"@);
                reveal_strlit("SP"); assert("CL"@[0] != "SP"@[0]); assert("CL"@ != "SP"@);
                reveal_strlit("RP"); assert("CL"@[0] != "RP"@[0]); assert("CL"@ != "RP"@);
                reveal_strlit("P"); assert("CL"@.len() != "P"@.len()); assert("CL"@ != "P"@);
                reveal_strlit("C"); assert("CL"@.len() != "C"@.len()); assert("CL"@ != "C"@);
                reveal_strlit("1B"); assert("CL"@[0] != "1B"@[0]); assert("CL"@ != "1B"@);
                reveal_strlit("2B"); assert("CL"@[0] != "2B"@[0]); assert("CL"@ != "2B"@);
                reveal_strlit("3B"); assert("CL"@[0] != "3B"@[0]); assert("CL"@ != "3B"@);
                reveal_strlit("LF"); assert("CL"@[0] != "LF"@[0]); assert("CL"@ != "LF"@);
                reveal_strlit("CF"); assert("CL"@[1] != "CF"@[1]); assert("CL"@ != "CF"@);
                reveal_strlit("RF"); assert("CL"@[0] != "RF"@[0]); assert("CL"@ != "RF"@);
                reveal_strlit("SS"); assert("CL"@[0] != "SS"@[0]); assert("CL"@ != "SS"@);
                assert("CL"@.subrange(0, 2) =~= "CL"@);
            }
            Place::DesignatedHitter => {
                reveal_strlit("DH");
                reveal_strlit("P"); assert("DH"@.len() != "P"@.len()); assert("DH"@ != "P"@);
                reveal_strlit("C"); assert("DH"@.len() != "C"@.len()); assert("DH"@ != "C"@);
                reveal_strlit("1B"); assert("DH"@[0] != "1B"@[0]); assert("DH"@ != "1B"@);
                reveal_strlit("2B"); assert("DH"@[0] != "2B"@[0]); assert("DH"@ != "2B"@);
                reveal_strlit("3B"); assert("DH"@[0] != "3B"@[0]); assert("DH"@ != "3B"@);
                reveal_strlit("LF"); assert("DH"@[0] != "LF"@[0]); assert("DH"@ != "LF"@);
                reveal_strlit("CF"); assert("DH"@[0] != "CF"@[0]); assert("DH"@ != "CF"@);
                reveal_strlit("RF"); assert("DH"@[0] != "RF"@[0]); assert("DH"@ != "RF"@);
                reveal_strlit("SS"); assert("DH"@[0] != "SS"@[0]); assert("DH"@ != "SS"@);
                assert("DH"@.subrange(0, 2) =~= "DH"@);
            }
        }
    }
    /// The written form of each known value, and what reading it gives.
    pub proof fn lemma_name_table()
        ensures
            Place::Pitcher.spec_name() == "P"@,
            Place::Catcher.spec_name() == "C"@,
            Place::FirstBaseman.spec_name() == "1B"@,
            Place::SecondBaseman.spec_name() == "2B"@,
            Place::ThirdBaseman.spec_name() == "3B"@,
            Place::LeftField.spec_name() == "LF"@,
            Place::CenterField.spec_name() == "CF"@,
            Place::RightField.spec_name() == "RF"@,
            Place::ShortStop.spec_name() == "SS"@,
            Place::Closer.spec_name() == "CL"@,
            Place::DesignatedHitter.spec_name() == "DH"@,
            Place::spec_parse("P"@) == Some(Place::Pitcher),
            Place::spec_parse("C"@) == Some(Place::Catcher),
            Place::spec_parse("1B"@) == Some(Place::FirstBaseman),
            Place::spec_parse("2B"@) == Some(Place::SecondBaseman),
            Place::spec_parse("3B"@) == Some(Place::ThirdBaseman),
            Place::spec_parse("LF"@) == Some(Place::LeftField),
            Place::spec_parse("CF"@) == Some(Place::CenterField),
            Place::spec_parse("RF"@) == Some(Place::RightField),
            Place::spec_parse("SS"@) == Some(Place::ShortStop),
            Place::spec_parse("CL"@) == Some(Place::Closer),
            Place::spec_parse("DH"@) == Some(Place::DesignatedHitter),
    {
        Place::Pitcher.lemma_parse_name();
        Place::Catcher.lemma_parse_name();
        Place::FirstBaseman.lemma_parse_name();
        Place::SecondBaseman.lemma_parse_name();
        Place::ThirdBaseman.lemma_parse_name();
        Place::LeftField.lemma_parse_name();
        Place::CenterField.lemma_parse_name();
        Place::RightField.lemma_parse_name();
        Place::ShortStop.lemma_parse_name();
        Place::Closer.lemma_parse_name();
        Place::DesignatedHitter.lemma_parse_name();
    }
}

impl Slot {
    /// The text by which this place is written.
    pub open spec fn spec_name(self) -> Seq<char> {
        match self {
            Slot::Catcher => "C"@,
            Slot::FirstBaseman => "1B"@,
            Slot::SecondBaseman => "2B"@,
            Slot::ThirdBaseman => "3B"@,
            Slot::LeftField => "LF"@,
            Slot::CenterField => "CF"@,
            Slot::RightField => "RF"@,
            Slot::ShortStop => "SS"@,
            Slot::StartingPitcher(n) => "SP"@ + dec(n as nat),
            Slot::ReliefPitcher(n) => "RP"@ + dec(n as nat),
            Slot::Closer => "CL"@,
            Slot::DesignatedHitter => "DH"@,
        }
    }

    /// The text by which this place is written.
    pub fn to_string(&self) -> (r: String)
        ensures
            r@ == self.spec_name(),
    {
        match self {
            Slot::Catcher => String::from_str("C"),
            Slot::FirstBaseman => String::from_str("1B"),
            Slot::SecondBaseman => String::from_str("2B"),
            Slot::ThirdBaseman => String::from_str("3B"),
            Slot::LeftField => String::from_str("LF"),
            Slot::CenterField => String::from_str("CF"),
            Slot::RightField => String::from_str("RF"),
            Slot::ShortStop => String::from_str("SS"),
            Slot::StartingPitcher(n) => {
                let mut s = String::from_str("SP");
                push_dec(&mut s, *n as u64);
                s
            },
            Slot::ReliefPitcher(n) => {
                let mut s = String::from_str("RP");
                push_dec(&mut s, *n as u64);
                s
            },
            Slot::Closer => String::from_str("CL"),
            Slot::DesignatedHitter => String::from_str("DH"),
        }
    }

    /// The place written at the start of `s`: most places must be the whole text,
    /// while `DH`, `SP` and `RP` may be followed by more (the number of a pitcher
    /// directly after `SP` or `RP`).
    pub open spec fn spec_parse(s: Seq<char>) -> Option<Slot> {
        if s == "C"@ { Some(Slot::Catcher) }
        else if s == "1B"@ { Some(Slot::FirstBaseman) }
        else if s == "2B"@ { Some(Slot::SecondBaseman) }
        else if s == "3B"@ { Some(Slot::ThirdBaseman) }
        else if s == "LF"@ { Some(Slot::LeftField) }
        else if s == "CF"@ { Some(Slot::CenterField) }
        else if s == "RF"@ { Some(Slot::RightField) }
        else if s == "SS"@ { Some(Slot::ShortStop) }
        else if s.len() >= 2 && s.subrange(0, 2) == "DH"@ { Some(Slot::DesignatedHitter) }
        else if s.len() >= 2 && s.subrange(0, 2) == "SP"@ && leading_u8(s.skip(2)) is Some { Some(Slot::StartingPitcher(leading_u8(s.skip(2))->0)) }
        else if s.len() >= 2 && s.subrange(0, 2) == "RP"@ && leading_u8(s.skip(2)) is Some { Some(Slot::ReliefPitcher(leading_u8(s.skip(2))->0)) }
        else if s == "CL"@ { Some(Slot::Closer) }
        else { None }
    }

    /// Reads a place from its written form.
    pub fn from_str(s: &str) -> (r: Result<Slot, ParseError>)
        ensures
            match r {
                Ok(p) => Slot::spec_parse(s@) == Some(p),
                Err(_) => Slot::spec_parse(s@) is None,
            },
    {
        let v = chars_of(s);
        let n = v.len();
        assert(v@.subrange(0, n as int) =~= s@);
        if segment_is(&v, 0, n, "C") {
            return Ok(Slot::Catcher);
        }
        if segment_is(&v, 0, n, "1B") {
            return Ok(Slot::FirstBaseman);
        }
        if segment_is(&v, 0, n, "2B") {
            return Ok(Slot::SecondBaseman);
        }
        if segment_is(&v, 0, n, "3B") {
            return Ok(Slot::ThirdBaseman);
        }
        if segment_is(&v, 0, n, "LF") {
            return Ok(Slot::LeftField);
        }
        if segment_is(&v, 0, n, "CF") {
            return Ok(Slot::CenterField);
        }
        if segment_is(&v, 0, n, "RF") {
            return Ok(Slot::RightField);
        }
        if segment_is(&v, 0, n, "SS") {
            return Ok(Slot::ShortStop);
        }
        proof { reveal_strlit("DH"); reveal_strlit("SP"); reveal_strlit("RP"); }
        if matches_at(&v, 0, "DH") {
            return Ok(Slot::DesignatedHitter);
        }
        if matches_at(&v, 0, "SP") {
            proof {
                assert(v@.subrange(2, n as int) =~= s@.skip(2));
                assert(s@.subrange(0, 2) =~= "SP"@);
                reveal_strlit("CL");
                assert(s@[0] == "SP"@[0]);
                assert(s@ != "CL"@);
                assert("SP"@[0] != "RP"@[0]);
            }
            match leading_unsigned(&v, 2, n, 255) {
                Some((k, _)) => { return Ok(Slot::StartingPitcher(k as u8)); },
                None => { return Err(ParseError::VariantNotFound); },
            }
        }
        if matches_at(&v, 0, "RP") {
            proof {
                assert(v@.subrange(2, n as int) =~= s@.skip(2));
                assert(s@.subrange(0, 2) =~= "RP"@);
                reveal_strlit("CL");
                assert(s@[0] == "RP"@[0]);
                assert(s@ != "CL"@);
                assert("SP"@[0] != "RP"@[0]);
            }
            match leading_unsigned(&v, 2, n, 255) {
                Some((k, _)) => { return Ok(Slot::ReliefPitcher(k as u8)); },
                None => { return Err(ParseError::VariantNotFound); },
            }
        }
        if segment_is(&v, 0, n, "CL") {
            return Ok(Slot::Closer);
        }
        Err(ParseError::VariantNotFound)
    }

    /// Reading the written form of a place gives that place back.
    pub proof fn lemma_parse_name(self)
        ensures
            Slot::spec_parse(self.spec_name()) == Some(self),
    {
        reveal_strlit("DH"); reveal_strlit("SP"); reveal_strlit("RP"); reveal_strlit("CL");
        match self {
            Slot::Catcher => {
                reveal_strlit("C");
            }
            Slot::FirstBaseman => {
                reveal_strlit("1B");
                reveal_strlit("C"); assert("1B"@.len() != "C"@.len()); assert("1B"@ != "C"@);
            }
            Slot::SecondBaseman => {
                reveal_strlit("2B");
                reveal_strlit("C"); assert("2B"@.len() != "C"@.len()); assert("2B"@ != "C"@);
                reveal_strlit("1B"); assert("2B"@[0] != "1B"@[0]); assert("2B"@ != "1B"@);
            }
            Slot::ThirdBaseman => {
                reveal_strlit("3B");
                reveal_strlit("C"); assert("3B"@.len() != "C"@.len()); assert("3B"@ != "C"@);
                reveal_strlit("1B"); assert("3B"@[0] != "1B"@[0]); assert("3B"@ != "1B"@);
                reveal_strlit("2B"); assert("3B"@[0] != "2B"@[0]); assert("3B"@ != "2B"@);
            }
            Slot::LeftField => {
                reveal_strlit("LF");
                reveal_strlit("C"); assert("LF"@.len() != "C"@.len()); assert("LF"@ != "C"@);
                reveal_strlit("1B"); assert("LF"@[0] != "1B"@[0]); assert("LF"@ != "1B"@);
                reveal_strlit("2B"); assert("LF"@[0] != "2B"@[0]); assert("LF"@ != "2B"@);
                reveal_strlit("3B"); assert("LF"@[0] != "3B"@[0]); assert("LF"@ != "3B"@);
            }
            Slot::CenterField => {
                reveal_strlit("CF");
                reveal_strlit("C"); assert("CF"@.len() != "C"@.len()); assert("CF"@ != "C"@);
                reveal_strlit("1B"); assert("CF"@[0] != "1B"@[0]); assert("CF"@ != "1B"@);
                reveal_strlit("2B"); assert("CF"@[0] != "2B"@[0]); assert("CF"@ != "2B"@);
                reveal_strlit("3B"); assert("CF"@[0] != "3B"@[0]); assert("CF"@ != "3B"@);
                reveal_strlit("LF"); assert("CF"@[0] != "LF"@[0]); assert("CF"@ != "LF"@);
            }
            Slot::RightField => {
                reveal_strlit("RF");
                reveal_strlit("C"); assert("RF"@.len() != "C"@.len()); assert("RF"@ != "C"@);
                reveal_strlit("1B"); assert("RF"@[0] != "1B"@[0]); assert("RF"@ != "1B"@);
                reveal_strlit("2B"); assert("RF"@[0] != "2B"@[0]); assert("RF"@ != "2B"@);
                reveal_strlit("3B"); assert("RF"@[0] != "3B"@[0]); assert("RF"@ != "3B"@);
                reveal_strlit("LF"); assert("RF"@[0] != "LF"@[0]); assert("RF"@ != "LF"@);
                reveal_strlit("CF"); assert("RF"@[0] != "CF"@[0]); assert("RF"@ != "CF"@);
            }
            Slot::ShortStop => {
                reveal_strlit("SS");
                reveal_strlit("C"); assert("SS"@.len() != "C"@.len()); assert("SS"@ != "C"@);
                reveal_strlit("1B"); assert("SS"@[0] != "1B"@[0]); assert("SS"@ != "1B"@);
                reveal_strlit("2B"); assert("SS"@[0] != "2B"@[0]); assert("SS"@ != "2B"@);
                reveal_strlit("3B"); assert("SS"@[0] != "3B"@[0]); assert("SS"@ != "3B"@);
                reveal_strlit("LF"); assert("SS"@[0] != "LF"@[0]); assert("SS"@ != "LF"@);
                reveal_strlit("CF"); assert("SS"@[0] != "CF"@[0]); assert("SS"@ != "CF"@);
                reveal_strlit("RF"); assert("SS"@[0] != "RF"@[0]); assert("SS"@ != "RF"@);
            }
            Slot::StartingPitcher(n) => {
                let s = self.spec_name();
                lemma_leading_u8_dec(n);
                assert(s.skip(2) =~= dec(n as nat));
                assert(s.subrange(0, 2) =~= "SP"@);
                assert(s.len() >= 3);
                reveal_strlit("P");
                reveal_strlit("C");
                reveal_strlit("SP");
                reveal_strlit("DH"); assert("SP"@[0] != "DH"@[0]); assert("SP"@ != "DH"@);
                reveal_strlit("1B"); assert("SP"@[0] != "1B"@[0]); assert("SP"@ != "1B"@);
                reveal_strlit("2B"); assert("SP"@[0] != "2B"@[0]); assert("SP"@ != "2B"@);
                reveal_strlit("3B"); assert("SP"@[0] != "3B"@[0]); assert("SP"@ != "3B"@);
                reveal_strlit("LF"); assert("SP"@[0] != "LF"@[0]); assert("SP"@ != "LF"@);
                reveal_strlit("CF"); assert("SP"@[0] != "CF"@[0]); assert("SP"@ != "CF"@);
                reveal_strlit("RF"); assert("SP"@[0] != "RF"@[0]); assert("SP"@ != "RF"@);
                reveal_strlit("SS"); assert("SP"@[1] != "SS"@[1]); assert("SP"@ != "SS"@);
            }
            Slot::ReliefPitcher(n) => {
                let s = self.spec_name();
                lemma_leading_u8_dec(n);
                assert(s.skip(2) =~= dec(n as nat));
                assert(s.subrange(0, 2) =~= "RP"@);
                assert(s.len() >= 3);
                reveal_strlit("P");
                reveal_strlit("C");
                reveal_strlit("RP");
                reveal_strlit("SP"); assert("RP"@[0] != "SP"@[0]); assert("RP"@ != "SP"@);
                reveal_strlit("DH"); assert("RP"@[0] != "DH"@[0]); assert("RP"@ != "DH"@);
                reveal_strlit("1B"); assert("RP"@[0] != "1B"@[0]); assert("RP"@ != "1B"@);
                reveal_strlit("2B"); assert("RP"@[0] != "2B"@[0]); assert("RP"@ != "2B"@);
                reveal_strlit("3B"); assert("RP"@[0] != "3B"@[0]); assert("RP"@ != "3B"@);
                reveal_strlit("LF"); assert("RP"@[0] != "LF"@[0]); assert("RP"@ != "LF"@);
                reveal_strlit("CF"); assert("RP"@[0] != "CF"@[0]); assert("RP"@ != "CF"@);
                reveal_strlit("RF"); assert("RP"@[1] != "RF"@[1]); assert("RP"@ != "RF"@);
                reveal_strlit("SS"); assert("RP"@[0] != "SS"@[0]); assert("RP"@ != "SS"@);
            }
            Slot::Closer => {
                reveal_strlit("CL");
                reveal_strlit("DH"); assert("CL"@[0] != "DH"@[0]); assert("CL"@ != "DH"@);
                reveal_strlit("SP"); assert("CL"@[0] != "SP"@[0]); assert("CL"@ != "SP"@);
                reveal_strlit("RP"); assert("CL"@[0] != "RP"@[0]); assert("CL"@ != "RP"@);
                reveal_strlit("P"); assert("CL"@.len() != "P"@.len()); assert("CL"@ != "P"@);
                reveal_strlit("C"); assert("CL"@.len() != "C"@.len()); assert("CL"@ != "C"@);
                reveal_strlit("1B"); assert("CL"@[0] != "1B"@[0]); assert("CL"@ != "1B"@);
                reveal_strlit("2B"); assert("CL"@[0] != "2B"@[0]); assert("CL"@ != "2B"@);
                reveal_strlit("3B"); assert("CL"@[0] != "3B"@[0]); assert("CL"@ != "3B"@);
                reveal_strlit("LF"); assert("CL"@[0] != "LF"@[0]); assert("CL"@ != "LF"@);
                reveal_strlit("CF"); assert("CL"@[1] != "CF"@[1]); assert("CL"@ != "CF"@);
                reveal_strlit("RF"); assert("CL"@[0] != "RF"@[0]); assert("CL"@ != "RF"@);
                reveal_strlit("SS"); assert("CL"@[0] != "SS"@[0]); assert("CL"@ != "SS"@);
                assert("CL"@.subrange(0, 2) =~= "CL"@);
            }
            Slot::DesignatedHitter => {
                reveal_strlit("DH");
                reveal_strlit("C"); assert("DH"@.len() != "C"@.len()); assert("DH"@ != "C"@);
                reveal_strlit("1B"); assert("DH"@[0] != "1B"@[0]); assert("DH"@ != "1B"@);
                reveal_strlit("2B"); assert("DH"@[0] != "2B"@[0]); assert("DH"@ != "2B"@);
                reveal_strlit("3B"); assert("DH"@[0] != "3B"@[0]); assert("DH"@ != "3B"@);
                reveal_strlit("LF"); assert("DH"@[0] != "LF"@[0]); assert("DH"@ != "LF"@);
                reveal_strlit("CF"); assert("DH"@[0] != "CF"@[0]); assert("DH"@ != "CF"@);
                reveal_strlit("RF"); assert("DH"@[0] != "RF"@[0]); assert("DH"@ != "RF"@);
                reveal_strlit("SS"); assert("DH"@[0] != "SS"@[0]); assert("DH"@ != "SS"@);
                assert("DH"@.subrange(0, 2) =~= "DH"@);
            }
        }
    }
    /// The written form of each known value, and what reading it gives.
    pub proof fn lemma_name_table()
        ensures
            Slot::Catcher.spec_name() == "C"@,
            Slot::FirstBaseman.spec_name() == "1B"@,
            Slot::SecondBaseman.spec_name() == "2B"@,
            Slot::ThirdBaseman.spec_name() == "3B"@,
            Slot::LeftField.spec_name() == "LF"@,
            Slot::CenterField.spec_name() == "CF"@,
            Slot::RightField.spec_name() == "RF"@,
            Slot::ShortStop.spec_name() == "SS"@,
            Slot::Closer.spec_name() == "CL"@,
            Slot::DesignatedHitter.spec_name() == "DH"@,
            Slot::spec_parse("C"@) == Some(Slot::Catcher),
            Slot::spec_parse("1B"@) == Some(Slot::FirstBaseman),
            Slot::spec_parse("2B"@) == Some(Slot::SecondBaseman),
            Slot::spec_parse("3B"@) == Some(Slot::ThirdBaseman),
            Slot::spec_parse("LF"@) == Some(Slot::LeftField),
            Slot::spec_parse("CF"@) == Some(Slot::CenterField),
            Slot::spec_parse("RF"@) == Some(Slot::RightField),
            Slot::spec_parse("SS"@) == Some(Slot::ShortStop),
            Slot::spec_parse("CL"@) == Some(Slot::Closer),
            Slot::spec_parse("DH"@) == Some(Slot::DesignatedHitter),
    {
        Slot::Catcher.lemma_parse_name();
        Slot::FirstBaseman.lemma_parse_name();
        Slot::SecondBaseman.lemma_parse_name();
        Slot::ThirdBaseman.lemma_parse_name();
        Slot::LeftField.lemma_parse_name();
        Slot::CenterField.lemma_parse_name();
        Slot::RightField.lemma_parse_name();
        Slot::ShortStop.lemma_parse_name();
        Slot::Closer.lemma_parse_name();
        Slot::DesignatedHitter.lemma_parse_name();
    }
}

impl Place {
    /// The place of a player in a roster slot.
    pub open spec fn spec_from_slot(value: Slot) -> Place {
        match value {
            Slot::Catcher => Place::Catcher,
            Slot::CenterField => Place::CenterField,
            Slot::Closer => Place::Closer,
            Slot::DesignatedHitter => Place::DesignatedHitter,
            Slot::FirstBaseman => Place::FirstBaseman,
            Slot::SecondBaseman => Place::SecondBaseman,
            Slot::ThirdBaseman => Place::ThirdBaseman,
            Slot::ShortStop => Place::ShortStop,
            Slot::LeftField => Place::LeftField,
            Slot::RightField => Place::RightField,
            Slot::StartingPitcher(i) => Place::StartingPitcher(Some(i)),
            Slot::ReliefPitcher(i) => Place::ReliefPitcher(Some(i)),
        }
    }

    /// The place of a player in a roster position.
    pub open spec fn spec_from_position(value: Position) -> Place {
        match value {
            Position::Pitcher => Place::Pitcher,
            Position::Catcher => Place::Catcher,
            Position::FirstBaseman => Place::FirstBaseman,
            Position::SecondBaseman => Place::SecondBaseman,
            Position::ThirdBaseman => Place::ThirdBaseman,
            Position::ShortStop => Place::ShortStop,
            Position::LeftField => Place::LeftField,
            Position::CenterField => Place::CenterField,
            Position::RightField => Place::RightField,
            Position::StartingPitcher => Place::StartingPitcher(None),
            Position::ReliefPitcher => Place::ReliefPitcher(None),
            Position::Closer => Place::Closer,
        }
    }
}

impl From<Slot> for Place {
    fn from(value: Slot) -> (r: Place) {
        match value {
            Slot::Catcher => Place::Catcher,
            Slot::CenterField => Place::CenterField,
            Slot::Closer => Place::Closer,
            Slot::DesignatedHitter => Place::DesignatedHitter,
            Slot::FirstBaseman => Place::FirstBaseman,
            Slot::SecondBaseman => Place::SecondBaseman,
            Slot::ThirdBaseman => Place::ThirdBaseman,
            Slot::ShortStop => Place::ShortStop,
            Slot::LeftField => Place::LeftField,
            Slot::RightField => Place::RightField,
            Slot::StartingPitcher(i) => Place::StartingPitcher(Some(i)),
            Slot::ReliefPitcher(i) => Place::ReliefPitcher(Some(i)),
        }
    }
}

impl FromSpecImpl<Slot> for Place {
    open spec fn obeys_from_spec() -> bool {
        true
    }

    open spec fn from_spec(v: Slot) -> Place {
        Place::spec_from_slot(v)
    }
}

impl From<Position> for Place {
    fn from(value: Position) -> (r: Place) {
        match value {
            Position::Pitcher => Place::Pitcher,
            Position::Catcher => Place::Catcher,
            Position::FirstBaseman => Place::FirstBaseman,
            Position::SecondBaseman => Place::SecondBaseman,
            Position::ThirdBaseman => Place::ThirdBaseman,
            Position::ShortStop => Place::ShortStop,
            Position::LeftField => Place::LeftField,
            Position::CenterField => Place::CenterField,
            Position::RightField => Place::RightField,
            Position::StartingPitcher => Place::StartingPitcher(None),
            Position::ReliefPitcher => Place::ReliefPitcher(None),
            Position::Closer => Place::Closer,
        }
    }
}

impl FromSpecImpl<Position> for Place {
    open spec fn obeys_from_spec() -> bool {
        true
    }

    open spec fn from_spec(v: Position) -> Place {
        Place::spec_from_position(v)
    }
}

/// A slot and the place it gives a player are written alike.
pub proof fn lemma_slot_place_name(slot: Slot)
    ensures
        Place::spec_from_slot(slot).spec_name() == slot.spec_name(),
{
}

impl FairBallType {
    /// The verb by which a batter is said to hit this kind of ball.
    pub open spec fn spec_verb_name(self) -> Seq<char> {
        match self {
            FairBallType::GroundBall => "grounds"@,
            FairBallType::FlyBall => "flies"@,
            FairBallType::LineDrive => "lines"@,
            FairBallType::Popup => "pops"@,
        }
    }

    /// The verb of each kind of fair ball: a ground ball "grounds", a fly ball
    /// "flies", a line drive "lines" and a popup "pops".
    pub proof fn lemma_verb_table()
        ensures
            FairBallType::GroundBall.spec_verb_name() == "grounds"@,
            FairBallType::FlyBall.spec_verb_name() == "flies"@,
            FairBallType::LineDrive.spec_verb_name() == "lines"@,
            FairBallType::Popup.spec_verb_name() == "pops"@,
    {
    }

    /// The verbs are words without spaces or full stops, each different.
    pub proof fn lemma_verb_names(self)
        ensures
            self.spec_verb_name().len() > 0,
            forall|i: int| 0 <= i < self.spec_verb_name().len() ==> #[trigger] self.spec_verb_name()[i] != ' '
                && self.spec_verb_name()[i] != '.',
            forall|other: FairBallType| other != self ==> #[trigger] other.spec_verb_name() != self.spec_verb_name(),
    {
        reveal_strlit("grounds");
        reveal_strlit("flies");
        reveal_strlit("lines");
        reveal_strlit("pops");
        assert("flies"@[0] != "lines"@[0]);
        assert("grounds"@.len() != "flies"@.len());
        assert("grounds"@.len() != "lines"@.len());
        assert("grounds"@.len() != "pops"@.len());
        assert("flies"@.len() != "pops"@.len());
        assert("lines"@.len() != "pops"@.len());
    }

    /// The verb by which a batter is said to hit this kind of ball, e.g. "grounds".
    pub fn verb_name(self) -> (r: &'static str)
        ensures
            r@ == self.spec_verb_name(),
    {
        match self {
            FairBallType::GroundBall => "grounds",
            FairBallType::FlyBall => "flies",
            FairBallType::LineDrive => "lines",
            FairBallType::Popup => "pops",
        }
    }
}

impl FieldingErrorType {
    /// The kind of error in lower case.
    pub open spec fn spec_lowercase(self) -> Seq<char> {
        match self {
            FieldingErrorType::Throwing => "throwing"@,
            FieldingErrorType::Fielding => "fielding"@,
        }
    }

    /// The kind of error in lower case, e.g. "throwing".
    pub fn lowercase(self) -> (r: &'static str)
        ensures
            r@ == self.spec_lowercase(),
    {
        match self {
            FieldingErrorType::Throwing => "throwing",
            FieldingErrorType::Fielding => "fielding",
        }
    }

    /// A throwing error is "throwing" in lower case, a fielding error "fielding".
    pub proof fn lemma_lowercase_table()
        ensures
            FieldingErrorType::Throwing.spec_lowercase() == "throwing"@,
            FieldingErrorType::Fielding.spec_lowercase() == "fielding"@,
    {
    }

    /// The kind of error with a capital, e.g. "Throwing".
    pub fn uppercase(self) -> (r: &'static str)
        ensures
            r@ == self.spec_name(),
    {
        match self {
            FieldingErrorType::Throwing => "Throwing",
            FieldingErrorType::Fielding => "Fielding",
        }
    }
}

impl Base {
    /// The name of the base as a destination, e.g. "first base" or "home".
    pub open spec fn spec_base_str(self) -> Seq<char> {
        match self {
            Base::First => "first base"@,
            Base::Second => "second base"@,
            Base::Third => "third base"@,
            Base::Home => "home"@,
        }
    }

    /// The bases as destinations: "first base", "second base", "third base" and
    /// "home".
    pub proof fn lemma_base_str_table()
        ensures
            Base::First.spec_base_str() == "first base"@,
            Base::Second.spec_base_str() == "second base"@,
            Base::Third.spec_base_str() == "third base"@,
            Base::Home.spec_base_str() == "home"@,
    {
    }

    /// The name of the base as a destination, e.g. "first base" or "home".
    pub fn to_base_str(self) -> (r: &'static str)
        ensures
            r@ == self.spec_base_str(),
    {
        match self {
            Base::First => "first base",
            Base::Second => "second base",
            Base::Third => "third base",
            Base::Home => "home",
        }
    }

    /// The base that a name of a base names.
    pub open spec fn spec_from_variant(value: BaseNameVariant) -> Base {
        match value {
            BaseNameVariant::First => Base::First,
            BaseNameVariant::FirstBase => Base::First,
            BaseNameVariant::OneB => Base::First,
            BaseNameVariant::Second => Base::Second,
            BaseNameVariant::SecondBase => Base::Second,
            BaseNameVariant::TwoB => Base::Second,
            BaseNameVariant::Third => Base::Third,
            BaseNameVariant::ThirdBase => Base::Third,
            BaseNameVariant::ThreeB => Base::Third,
            BaseNameVariant::Home => Base::Home,
        }
    }
}

impl From<BaseNameVariant> for Base {
    fn from(value: BaseNameVariant) -> (r: Base) {
        match value {
            BaseNameVariant::First => Base::First,
            BaseNameVariant::FirstBase => Base::First,
            BaseNameVariant::OneB => Base::First,
            BaseNameVariant::Second => Base::Second,
            BaseNameVariant::SecondBase => Base::Second,
            BaseNameVariant::TwoB => Base::Second,
            BaseNameVariant::Third => Base::Third,
            BaseNameVariant::ThirdBase => Base::Third,
            BaseNameVariant::ThreeB => Base::Third,
            BaseNameVariant::Home => Base::Home,
        }
    }
}

impl FromSpecImpl<BaseNameVariant> for Base {
    open spec fn obeys_from_spec() -> bool {
        true
    }

    open spec fn from_spec(v: BaseNameVariant) -> Base {
        Base::spec_from_variant(v)
    }
}

impl BaseNameVariant {
    /// The most basic name for a given base, e.g. "first".
    pub open spec fn spec_basic_name(base: Base) -> BaseNameVariant {
        match base {
            Base::First => BaseNameVariant::First,
            Base::Second => BaseNameVariant::Second,
            Base::Third => BaseNameVariant::Third,
            Base::Home => BaseNameVariant::Home,
        }
    }

    /// The most basic name for a given base, e.g. "first".
    pub fn basic_name(base: Base) -> (r: BaseNameVariant)
        ensures
            r == BaseNameVariant::spec_basic_name(base),
    {
        match base {
            Base::First => BaseNameVariant::First,
            Base::Second => BaseNameVariant::Second,
            Base::Third => BaseNameVariant::Third,
            Base::Home => BaseNameVariant::Home,
        }
    }
}

/// The basic name of a base names that base, and is written as the base is.
pub proof fn lemma_basic_name(base: Base)
    ensures
        Base::spec_from_variant(BaseNameVariant::spec_basic_name(base)) == base,
        BaseNameVariant::spec_basic_name(base).spec_name() == base.spec_name(),
{
}

} // verus!
