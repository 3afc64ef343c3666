//! Character-sequence helpers: decimal numbers, collecting characters,
//! searching and comparing text.

use vstd::prelude::*;

verus! {

broadcast use vstd::string::group_string_axioms;

/// The character of the decimal digit `d` (`0 <= d < 10`).
pub open spec fn digit_char(d: int) -> char {
    (d + 48) as char
}

/// The decimal representation of `n`, without leading zeros.
pub open spec fn dec(n: nat) -> Seq<char>
    decreases n,
{
    if n < 10 {
        seq![digit_char(n as int)]
    } else {
        dec(n / 10).push(digit_char((n % 10) as int))
    }
}

/// A score of `a` to `b`, as "{a}-{b}".
pub open spec fn score_text(a: u8, b: u8) -> Seq<char> {
    dec(a as nat) + "-"@ + dec(b as nat)
}

/// A one-character string holding the digit `d`.
fn digit_str(d: u64) -> (r: &'static str)
    requires
        d < 10,
    ensures
        r@ == seq![digit_char(d as int)],
{
    if d == 0 {
        proof { reveal_strlit("0"); }
        "0"
    } else if d == 1 {
        proof { reveal_strlit("1"); }
        "1"
    } else if d == 2 {
        proof { reveal_strlit("2"); }
        "2"
    } else if d == 3 {
        proof { reveal_strlit("3"); }
        "3"
    } else if d == 4 {
        proof { reveal_strlit("4"); }
        "4"
    } else if d == 5 {
        proof { reveal_strlit("5"); }
        "5"
    } else if d == 6 {
        proof { reveal_strlit("6"); }
        "6"
    } else if d == 7 {
        proof { reveal_strlit("7"); }
        "7"
    } else if d == 8 {
        proof { reveal_strlit("8"); }
        "8"
    } else {
        proof { reveal_strlit("9"); }
        "9"
    }
}

/// Appends the decimal representation of `n` to `s`.
pub fn push_dec(s: &mut String, n: u64)
    ensures
        final(s)@ == old(s)@ + dec(n as nat),
    decreases n,
{
    if n < 10 {
        s.append(digit_str(n));
    } else {
        push_dec(s, n / 10);
        s.append(digit_str(n % 10));
        proof {
            assert(dec(n as nat) == dec((n / 10) as nat).push(digit_char((n % 10) as int)));
        }
    }
}

/// The characters of `s`, in order.
pub fn chars_of(s: &str) -> (r: Vec<char>)
    ensures
        r@ == s@,
{
    let mut r: Vec<char> = Vec::new();
    for c in it: s.chars()
        invariant
            r@ == it.seq().take(it.index() as int),
    {
        r.push(c);
    }
    r
}

} // verus!

verus! {

/// Whether two strings hold the same characters.
pub fn str_eq(a: &str, b: &str) -> (r: bool)
    ensures
        r == (a@ == b@),
{
    let x = chars_of(a);
    let y = chars_of(b);
    if x.len() != y.len() {
        return false;
    }
    let mut i: usize = 0;
    while i < x.len()
        invariant
            x@ == a@,
            y@ == b@,
            x.len() == y.len(),
            i <= x.len(),
            forall|j: int| 0 <= j < i ==> x@[j] == y@[j],
        decreases x.len() - i,
    {
        if x[i] != y[i] {
            return false;
        }
        i += 1;
    }
    assert(x@ =~= y@);
    true
}

} // verus!

verus! {

/// Whether `c` is one of the ASCII digits.
pub open spec fn is_digit(c: char) -> bool {
    '0' <= c && c <= '9'
}

/// Whether every character of `s` is a digit.
pub open spec fn all_digits(s: Seq<char>) -> bool {
    forall|i: int| 0 <= i < s.len() ==> is_digit(#[trigger] s[i])
}

/// The number written by the digits `s`, leading zeros allowed.
pub open spec fn digits_value(s: Seq<char>) -> nat
    decreases s.len(),
{
    if s.len() == 0 {
        0
    } else {
        digits_value(s.drop_last()) * 10 + ((s.last() as int) - 48) as nat
    }
}

/// The length of the longest run of digits at the start of `s`.
pub open spec fn digit_run(s: Seq<char>) -> nat
    decreases s.len(),
{
    if s.len() > 0 && is_digit(s[0]) {
        1 + digit_run(s.drop_first())
    } else {
        0
    }
}

/// The unsigned number written by `s` in the way `str::parse` reads one:
/// an optional `+`, then one or more digits, with a value of at most `max`.
pub open spec fn spec_parse_unsigned(s: Seq<char>, max: nat) -> Option<nat> {
    let d = if s.len() > 0 && s[0] == '+' { s.drop_first() } else { s };
    if d.len() > 0 && all_digits(d) && digits_value(d) <= max {
        Some(digits_value(d))
    } else {
        None
    }
}

/// The decimal form of a number is a non-empty run of digits that reads back as the number.
pub proof fn lemma_dec_digits(n: nat)
    ensures
        dec(n).len() >= 1,
        all_digits(dec(n)),
        digits_value(dec(n)) == n,
        dec(n)[0] != '+',
    decreases n,
{
    assert(digit_char((n % 10) as int) as int == (n % 10) + 48);
    if n >= 10 {
        lemma_dec_digits(n / 10);
        let s = dec(n);
        assert(s.drop_last() == dec(n / 10));
        assert(s.last() == digit_char((n % 10) as int));
        assert(digits_value(s) == digits_value(s.drop_last()) * 10 + ((s.last() as int) - 48) as nat);
        assert(digits_value(s) == (n / 10) * 10 + n % 10);
        assert forall|i: int| 0 <= i < s.len() implies is_digit(#[trigger] s[i]) by {
            if i < s.len() - 1 {
                assert(s[i] == dec(n / 10)[i]);
            }
        }
    } else {
        assert(dec(n).drop_last() =~= Seq::<char>::empty());
        assert(digits_value(Seq::<char>::empty()) == 0);
        assert(dec(n).last() == digit_char(n as int));
        assert(digits_value(dec(n)) == digits_value(dec(n).drop_last()) * 10 + ((dec(n).last() as int) - 48) as nat);
    }
}

/// Reading the decimal form of a number gives that number.
pub proof fn lemma_parse_dec(n: nat, max: nat)
    requires
        n <= max,
    ensures
        spec_parse_unsigned(dec(n), max) == Some(n),
{
    lemma_dec_digits(n);
}

/// The length of the digit run starting at `from`, up to `to`.
pub fn digit_run_at(v: &Vec<char>, from: usize, to: usize) -> (r: usize)
    requires
        from <= to <= v.len(),
    ensures
        from + r <= to,
        all_digits(v@.subrange(from as int, from + r)),
        from + r == to || !is_digit(v@[from + r]),
{
    let mut i = from;
    while i < to && '0' <= v[i] && v[i] <= '9'
        invariant
            from <= i <= to <= v.len(),
            all_digits(v@.subrange(from as int, i as int)),
        decreases to - i,
    {
        proof {
            assert forall|j: int| 0 <= j < i + 1 - from implies is_digit(#[trigger] v@.subrange(from as int, i + 1)[j]) by {
                if j < i - from {
                    assert(v@.subrange(from as int, i + 1)[j] == v@.subrange(from as int, i as int)[j]);
                }
            }
        }
        i += 1;
    }
    i - from
}

/// The value of the digits `v[from..to]`, or `None` when it exceeds `max`.
pub fn digits_value_at(v: &Vec<char>, from: usize, to: usize, max: u32) -> (r: Option<u32>)
    requires
        from <= to <= v.len(),
        all_digits(v@.subrange(from as int, to as int)),
    ensures
        match r {
            Some(n) => n == digits_value(v@.subrange(from as int, to as int)) && n <= max,
            None => digits_value(v@.subrange(from as int, to as int)) > max,
        },
{
    let mut acc: u32 = 0;
    let mut i = from;
    while i < to
        invariant
            from <= i <= to <= v.len(),
            all_digits(v@.subrange(from as int, to as int)),
            acc == digits_value(v@.subrange(from as int, i as int)),
            acc <= max,
        decreases to - i,
    {
        assert(v@.subrange(from as int, i + 1).drop_last() =~= v@.subrange(from as int, i as int));
        assert(is_digit(v@.subrange(from as int, to as int)[i - from]));
        let d = (v[i] as u32) - 48;
        if d > max || acc > (max - d) / 10 {
            proof { lemma_digits_value_grows(v@.subrange(from as int, to as int), i + 1 - from); }
            assert(v@.subrange(from as int, to as int).subrange(0, i + 1 - from) =~= v@.subrange(from as int, i + 1));
            return None;
        }
        acc = acc * 10 + d;
        i += 1;
    }
    Some(acc)
}

/// A longer prefix of digits never reads as a smaller number.
pub proof fn lemma_digits_value_grows(s: Seq<char>, k: int)
    requires
        0 <= k <= s.len(),
        all_digits(s),
    ensures
        digits_value(s.subrange(0, k)) <= digits_value(s),
    decreases s.len() - k,
{
    if k < s.len() {
        lemma_digits_value_grows(s, k + 1);
        assert(s.subrange(0, k + 1).drop_last() =~= s.subrange(0, k));
        assert(is_digit(s[k]));
    } else {
        assert(s.subrange(0, k) =~= s);
    }
}

} // verus!

verus! {

/// Whether `lit` occurs in `v` starting at `pos`.
pub fn matches_at(v: &Vec<char>, pos: usize, lit: &str) -> (r: bool)
    ensures
        r == (pos + lit@.len() <= v@.len() && v@.subrange(pos as int, pos + lit@.len()) == lit@),
{
    let l = chars_of(lit);
    if pos > v.len() || l.len() > v.len() - pos {
        return false;
    }
    let mut i: usize = 0;
    while i < l.len()
        invariant
            l@ == lit@,
            pos + l.len() <= v.len(),
            i <= l.len(),
            forall|j: int| 0 <= j < i ==> v@[pos + j] == l@[j],
        decreases l.len() - i,
    {
        if v[pos + i] != l[i] {
            return false;
        }
        i += 1;
    }
    assert(v@.subrange(pos as int, pos + l@.len()) =~= l@);
    true
}

/// Whether `v[from..to]` is exactly `lit`.
pub fn segment_is(v: &Vec<char>, from: usize, to: usize, lit: &str) -> (r: bool)
    requires
        from <= to <= v.len(),
    ensures
        r == (v@.subrange(from as int, to as int) == lit@),
{
    let l = chars_of(lit);
    if l.len() != to - from {
        return false;
    }
    let r = matches_at(v, from, lit);
    r
}

/// Whether `lit` occurs in `s` at `q`.
pub open spec fn occurs_at(s: Seq<char>, q: int, lit: Seq<char>) -> bool {
    0 <= q && q + lit.len() <= s.len() && s.subrange(q, q + lit.len()) == lit
}

/// Whether `sep` occurs in `s + sep` only at its end, so that a search for `sep`
/// in a text that goes on from `s` with `sep` stops right after `s`.
pub open spec fn stops_after(s: Seq<char>, sep: Seq<char>) -> bool {
    forall|i: int| 0 <= i < s.len() ==> !#[trigger] occurs_at(s + sep, i, sep)
}

/// A separator whose first character `w` lacks occurs in `w + sep` only at its end.
pub proof fn lemma_stops_by_first(w: Seq<char>, sep: Seq<char>)
    requires
        sep.len() > 0,
        forall|i: int| 0 <= i < w.len() ==> #[trigger] w[i] != sep[0],
    ensures
        stops_after(w, sep),
{
    assert forall|i: int| 0 <= i < w.len() implies !#[trigger] occurs_at(w + sep, i, sep) by {
        if occurs_at(w + sep, i, sep) {
            assert((w + sep).subrange(i, i + sep.len())[0] == w[i]);
        }
    }
}

/// A separator whose first character is followed in `w`, wherever it stands,
/// by a character other than the separator's second, occurs in `w + sep` only
/// at its end.
pub proof fn lemma_stops_by_second(w: Seq<char>, sep: Seq<char>)
    requires
        sep.len() >= 2,
        forall|i: int| 0 <= i < w.len() && #[trigger] w[i] == sep[0] ==> i + 1 < w.len() && w[i + 1] != sep[1],
    ensures
        stops_after(w, sep),
{
    assert forall|i: int| 0 <= i < w.len() implies !#[trigger] occurs_at(w + sep, i, sep) by {
        if occurs_at(w + sep, i, sep) {
            let t = (w + sep).subrange(i, i + sep.len());
            assert(t[0] == w[i]);
            assert(t[1] == (w + sep)[i + 1]);
        }
    }
}

/// Whether `s` holds no full stop.
pub open spec fn no_period(s: Seq<char>) -> bool {
    forall|i: int| 0 <= i < s.len() ==> #[trigger] s[i] != '.'
}

/// Two texts without full stops make one.
pub proof fn lemma_no_period_add(a: Seq<char>, b: Seq<char>)
    requires
        no_period(a),
        no_period(b),
    ensures
        no_period(a + b),
{
    assert forall|i: int| 0 <= i < (a + b).len() implies #[trigger] (a + b)[i] != '.' by {
        if i < a.len() {
            assert((a + b)[i] == a[i]);
        } else {
            assert((a + b)[i] == b[i - a.len()]);
        }
    }
}

/// Whether `sep` occurs nowhere in `s`.
pub open spec fn lacks(s: Seq<char>, sep: Seq<char>) -> bool {
    forall|i: int| !#[trigger] occurs_at(s, i, sep)
}

/// Where `text` ends with `rest` from `from`, and `sep` occurs nowhere in
/// `rest`, `sep` occurs nowhere in `text` from `from`.
pub proof fn lemma_lacks(text: Seq<char>, from: int, rest: Seq<char>, sep: Seq<char>)
    requires
        0 <= from <= text.len(),
        text.subrange(from, text.len() as int) == rest,
        lacks(rest, sep),
    ensures
        forall|k: int| from <= k ==> !#[trigger] occurs_at(text, k, sep),
{
    assert forall|k: int| from <= k implies !#[trigger] occurs_at(text, k, sep) by {
        if occurs_at(text, k, sep) {
            let ts = rest.subrange(k - from, k - from + sep.len());
            let xs = text.subrange(k, k + sep.len());
            assert(ts =~= xs) by {
                assert forall|j: int| 0 <= j < sep.len() implies #[trigger] ts[j] == xs[j] by {
                    assert(text.subrange(from, text.len() as int)[k - from + j] == text[k + j]);
                }
            }
            assert(occurs_at(rest, k - from, sep));
        }
    }
}

/// Where `text` holds `s` and then `sep` from `from`, and `sep` occurs in
/// `s + sep` only at its end, the first occurrence of `sep` from `from` is right
/// after `s`.
pub proof fn lemma_stops_after(text: Seq<char>, from: int, s: Seq<char>, sep: Seq<char>)
    requires
        0 <= from,
        from + s.len() + sep.len() <= text.len(),
        text.subrange(from, from + s.len() + sep.len()) == s + sep,
        stops_after(s, sep),
    ensures
        occurs_at(text, from + s.len(), sep),
        forall|k: int| from <= k < from + s.len() ==> !#[trigger] occurs_at(text, k, sep),
{
    let t = s + sep;
    let e = from + s.len();
    let es = text.subrange(e, e + sep.len());
    assert(es =~= sep) by {
        assert forall|j: int| 0 <= j < sep.len() implies #[trigger] es[j] == sep[j] by {
            assert(text.subrange(from, from + t.len())[s.len() + j] == t[s.len() + j]);
        }
    }
    assert forall|k: int| from <= k < e implies !#[trigger] occurs_at(text, k, sep) by {
        if occurs_at(text, k, sep) {
            let ts = t.subrange(k - from, k - from + sep.len());
            let xs = text.subrange(k, k + sep.len());
            assert(ts =~= xs) by {
                assert forall|j: int| 0 <= j < sep.len() implies #[trigger] ts[j] == xs[j] by {
                    assert(text.subrange(from, from + t.len())[k - from + j] == t[k - from + j]);
                }
            }
            assert(occurs_at(t, k - from, sep));
        }
    }
}

/// The first position at or after `from`, and no later than `to - lit.len()`, at
/// which `lit` occurs in `v[..to]`.
pub fn find_from(v: &Vec<char>, from: usize, to: usize, lit: &str) -> (r: Option<usize>)
    requires
        from <= to <= v.len(),
    ensures
        match r {
            Some(p) => from <= p && p + lit@.len() <= to && v@.subrange(p as int, p + lit@.len()) == lit@
                && forall|q: int| from <= q < p ==> !#[trigger] occurs_at(v@, q, lit@),
            None => forall|q: int| from <= q && q + lit@.len() <= to ==> !#[trigger] occurs_at(v@, q, lit@),
        },
{
    let l = chars_of(lit);
    if l.len() > to - from {
        return None;
    }
    let mut p = from;
    while p <= to - l.len()
        invariant
            l@ == lit@,
            l.len() <= to,
            from <= p,
            p <= to - l.len() + 1,
            to <= v.len(),
            forall|q: int| from <= q < p ==> !#[trigger] occurs_at(v@, q, lit@),
        decreases to - l.len() + 1 - p,
    {
        if matches_at(v, p, lit) {
            return Some(p);
        }
        if p == to - l.len() {
            return None;
        }
        p += 1;
    }
    None
}

} // verus!

verus! {

/// A run of `k` digits ended by the end of the text or by a non-digit is the
/// longest run of digits at the start.
pub proof fn lemma_digit_run(s: Seq<char>, k: int)
    requires
        0 <= k <= s.len(),
        all_digits(s.subrange(0, k)),
        k == s.len() || !is_digit(s[k]),
    ensures
        digit_run(s) == k,
    decreases k,
{
    if k > 0 {
        assert(is_digit(s.subrange(0, k)[0]));
        let t = s.drop_first();
        assert forall|i: int| 0 <= i < k - 1 implies is_digit(#[trigger] t.subrange(0, k - 1)[i]) by {
            assert(t.subrange(0, k - 1)[i] == s.subrange(0, k)[i + 1]);
        }
        if k < s.len() {
            assert(t[k - 1] == s[k]);
        }
        lemma_digit_run(t, k - 1);
    }
}

/// The number made of the digits at the start of `r`, when there is at least one
/// digit and the number is at most `max`.
pub open spec fn spec_leading_unsigned(r: Seq<char>, max: nat) -> Option<nat> {
    let k = digit_run(r);
    if k > 0 && digits_value(r.subrange(0, k as int)) <= max {
        Some(digits_value(r.subrange(0, k as int)))
    } else {
        None
    }
}

/// Reads the number made of the digits of `v` at `from` (before `to`), when there
/// is at least one digit and the number is at most `max`; gives the number and
/// the position after its digits.
pub fn leading_unsigned(v: &Vec<char>, from: usize, to: usize, max: u32) -> (r: Option<(u32, usize)>)
    requires
        from <= to <= v.len(),
    ensures
        match r {
            Some((n, end)) => spec_leading_unsigned(v@.subrange(from as int, to as int), max as nat) == Some(n as nat)
                && end == from + digit_run(v@.subrange(from as int, to as int)) && end <= to,
            None => spec_leading_unsigned(v@.subrange(from as int, to as int), max as nat) is None,
        },
{
    let k = digit_run_at(v, from, to);
    let ghost s = v@.subrange(from as int, to as int);
    proof {
        assert(s.subrange(0, k as int) =~= v@.subrange(from as int, from + k));
        if from + k < to {
            assert(s[k as int] == v@[from + k]);
        }
        lemma_digit_run(s, k as int);
    }
    if k == 0 {
        return None;
    }
    match digits_value_at(v, from, from + k, max) {
        Some(n) => Some((n, from + k)),
        None => None,
    }
}

} // verus!

verus! {

/// Text held by a value, owned or borrowed.
pub trait Text: View<V = Seq<char>> + Sized {
    /// The text as a string slice.
    fn as_text(&self) -> (r: &str)
        ensures
            r@ == self@,
    ;
}

impl Text for String {
    fn as_text(&self) -> (r: &str) {
        self.as_str()
    }
}

impl<'a> Text for &'a str {
    fn as_text(&self) -> (r: &str) {
        *self
    }
}

/// Appends the text of `t` to `out`.
pub fn push_text<S: Text>(out: &mut String, t: &S)
    ensures
        final(out)@ == old(out)@ + t@,
{
    out.append(t.as_text());
}

} // verus!

verus! {

/// The digits of a number, followed by anything that does not start with a
/// digit, lead with that number.
pub proof fn lemma_leading_dec(k: u8, rest: Seq<char>)
    requires
        rest.len() == 0 || !is_digit(rest[0]),
    ensures
        spec_leading_unsigned(dec(k as nat) + rest, 255) == Some(k as nat),
        digit_run(dec(k as nat) + rest) == dec(k as nat).len(),
{
    lemma_leading_dec_upto(k as nat, rest, 255);
}

/// The digits of a number of at most `max`, followed by anything that does not
/// start with a digit, lead with that number.
pub proof fn lemma_leading_dec_upto(k: nat, rest: Seq<char>, max: nat)
    requires
        k <= max,
        rest.len() == 0 || !is_digit(rest[0]),
    ensures
        spec_leading_unsigned(dec(k) + rest, max) == Some(k),
        digit_run(dec(k) + rest) == dec(k).len(),
        is_digit(dec(k)[0]),
{
    let d = dec(k);
    let s = d + rest;
    lemma_dec_digits(k);
    assert(s.subrange(0, d.len() as int) =~= d);
    if rest.len() > 0 {
        assert(s[d.len() as int] == rest[0]);
    }
    lemma_digit_run(s, d.len() as int);
}

} // verus!

verus! {

/// Reads `v[from..to]` the way `str::parse` reads an unsigned number of at most `max`.
pub fn parse_unsigned_at(v: &Vec<char>, from: usize, to: usize, max: u32) -> (r: Option<u32>)
    requires
        from <= to <= v.len(),
    ensures
        match r {
            Some(n) => spec_parse_unsigned(v@.subrange(from as int, to as int), max as nat) == Some(n as nat),
            None => spec_parse_unsigned(v@.subrange(from as int, to as int), max as nat) is None,
        },
{
    let ghost s = v@.subrange(from as int, to as int);
    let start = if from < to && v[from] == '+' { from + 1 } else { from };
    proof {
        let d = if s.len() > 0 && s[0] == '+' { s.drop_first() } else { s };
        assert(d =~= v@.subrange(start as int, to as int));
    }
    if start == to {
        return None;
    }
    let k = digit_run_at(v, start, to);
    if start + k != to {
        proof {
            let d = v@.subrange(start as int, to as int);
            assert(d[k as int] == v@[start + k]);
            assert(!is_digit(d[k as int]));
        }
        return None;
    }
    digits_value_at(v, start, to, max)
}

} // verus!
