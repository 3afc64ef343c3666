//! Records kept about teams, and the markers of fields that older or newer
//! data lacks.

use vstd::prelude::*;

verus! {

/// A team's record: its wins and losses and its run differential.
#[derive(Debug, Clone, Copy, PartialEq, Eq, Structural)]
pub struct TeamRecord {
    pub losses: u16,
    pub run_differential: i32,
    pub wins: u16,
}

/// Marks a field that an entity lacks because it is older than the field.
#[derive(Debug, Clone, Copy, PartialEq, Eq, Hash, Structural)]
pub struct AddedLater;

/// Marks a field that an entity lacks because it is newer than the field.
#[derive(Debug, Clone, Copy, PartialEq, Eq, Hash, Structural)]
pub struct RemovedLater;

impl Default for AddedLater {
    fn default() -> (r: AddedLater)
        ensures
            r == AddedLater,
    {
        AddedLater
    }
}

impl Default for RemovedLater {
    fn default() -> (r: RemovedLater)
        ensures
            r == RemovedLater,
    {
        RemovedLater
    }
}

/// The value of a field that an entity lacks: the marker of why it lacks it.
pub fn default_result<T, E: Default>() -> (r: Result<T, E>)
    ensures
        r is Err,
{
    Err(E::default())
}

} // verus!

verus! {

/// Star ratings, which the API writes as a string of ⭐.
#[derive(Debug, Clone, Copy, PartialEq, Eq, Structural)]
pub struct StarHelper;

/// Whether every character of `s` is a star.
pub open spec fn all_stars(s: Seq<char>) -> bool {
    forall|i: int| 0 <= i < s.len() ==> s[i] == '⭐'
}

impl StarHelper {
    /// The number of stars in `s`, when it is made of stars only, kept as a `u8`
    /// keeps it: modulo 256.
    pub open spec fn spec_read(s: Seq<char>) -> Option<u8> {
        if all_stars(s) {
            Some((s.len() % 256) as u8)
        } else {
            None
        }
    }

    /// The number of stars in `s`, when it is made of stars only, modulo 256.
    pub fn read(s: &str) -> (r: Option<u8>)
        ensures
            r == StarHelper::spec_read(s@),
    {
        let v = crate::text::chars_of(s);
        let mut i: usize = 0;
        while i < v.len()
            invariant
                v@ == s@,
                i <= v.len(),
                forall|j: int| 0 <= j < i ==> v@[j] == '⭐',
            decreases v.len() - i,
        {
            if v[i] != '⭐' {
                return None;
            }
            i += 1;
        }
        Some((v.len() % 256) as u8)
    }

    /// `n` stars.
    pub fn write(n: u8) -> (r: String)
        ensures
            r@.len() == n,
            all_stars(r@),
    {
        let mut s = String::new();
        let mut i: u8 = 0;
        while i < n
            invariant
                i <= n,
                s@.len() == i,
                all_stars(s@),
            decreases n - i,
        {
            s.append("⭐");
            proof {
                reveal_strlit("⭐");
            }
            i += 1;
        }
        s
    }
}

/// Reading the stars written for a rating gives the rating back: `s` is what
/// `StarHelper::write(n)` gives.
pub proof fn lemma_stars_round_trip(s: Seq<char>, n: u8)
    requires
        s.len() == n,
        all_stars(s),
    ensures
        StarHelper::spec_read(s) == Some(n),
{
}

} // verus!

verus! {

/// A value that the API sometimes gives as an empty array instead.
#[derive(Debug, Clone, PartialEq)]
pub enum EmptyArrayOr<T> {
    EmptyArray,
    Value(T),
}

impl<T> EmptyArrayOr<T> {
    /// The value, if there is one.
    pub fn value(self) -> (r: Option<T>)
        ensures
            r == (match self {
                EmptyArrayOr::Value(v) => Some(v),
                EmptyArrayOr::EmptyArray => None,
            }),
    {
        match self {
            EmptyArrayOr::Value(v) => Some(v),
            EmptyArrayOr::EmptyArray => None,
        }
    }
}

} // verus!
