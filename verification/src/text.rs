//! Character-level text helpers shared by the parsers of this crate.

use crate::trusted::push_char;
use vstd::prelude::*;

verus! {

/// The characters with the Unicode `White_Space` property.
pub open spec fn is_space(c: char) -> bool {
    let u = c as u32;
    ||| 0x09 <= u <= 0x0D
    ||| u == 0x20
    ||| u == 0x85
    ||| u == 0xA0
    ||| u == 0x1680
    ||| 0x2000 <= u <= 0x200A
    ||| u == 0x2028
    ||| u == 0x2029
    ||| u == 0x202F
    ||| u == 0x205F
    ||| u == 0x3000
}

/// The ASCII decimal digits.
pub open spec fn is_digit(c: char) -> bool {
    '0' <= c <= '9'
}

/// End of the longest run of white space that starts at `from`.
pub open spec fn spaces_end(s: Seq<char>, from: int) -> int
    decreases s.len() - from,
{
    if 0 <= from < s.len() && is_space(s[from]) {
        spaces_end(s, from + 1)
    } else {
        from
    }
}

/// Start of the longest run of white space that ends at `to`.
pub open spec fn spaces_start(s: Seq<char>, to: int) -> int
    decreases to,
{
    if 0 < to <= s.len() && is_space(s[to - 1]) {
        spaces_start(s, to - 1)
    } else {
        to
    }
}

/// End of the longest run of ASCII digits that starts at `from`.
pub open spec fn digits_end(s: Seq<char>, from: int) -> int
    decreases s.len() - from,
{
    if 0 <= from < s.len() && is_digit(s[from]) {
        digits_end(s, from + 1)
    } else {
        from
    }
}

/// End of the longest run of characters other than `stop` that starts at `from`.
pub open spec fn until_char(s: Seq<char>, from: int, stop: char) -> int
    decreases s.len() - from,
{
    if 0 <= from < s.len() && s[from] != stop {
        until_char(s, from + 1, stop)
    } else {
        from
    }
}

/// `s` without its leading and trailing white space.
pub open spec fn trimmed(s: Seq<char>) -> Seq<char> {
    let a = spaces_end(s, 0);
    let b = spaces_start(s, s.len() as int);
    if a < b {
        s.subrange(a, b)
    } else {
        Seq::empty()
    }
}

/// `pat` occurs in `s` at index `at`.
pub open spec fn occurs_at(s: Seq<char>, at: int, pat: Seq<char>) -> bool {
    &&& 0 <= at
    &&& at + pat.len() <= s.len()
    &&& s.subrange(at, at + pat.len()) == pat
}

/// The lower-case form of an ASCII letter; any other character unchanged.
pub open spec fn ascii_lower(c: char) -> char {
    if 'A' <= c <= 'Z' {
        ((c as u32) + 32) as char
    } else {
        c
    }
}

/// `s` begins with `pat`, the ASCII letters compared without regard to case.
/// `pat` is meant to hold no upper-case letter.
pub open spec fn starts_with_ignoring_case(s: Seq<char>, pat: Seq<char>) -> bool {
    &&& pat.len() <= s.len()
    &&& forall|i: int| 0 <= i < pat.len() ==> ascii_lower(#[trigger] s[i]) == pat[i]
}

/// A run of white space holds nothing else and stops at the first character
/// that is none, or at the end.
pub proof fn lemma_spaces_end(s: Seq<char>, from: int)
    requires
        0 <= from <= s.len(),
    ensures
        from <= spaces_end(s, from) <= s.len(),
        forall|i: int| from <= i < spaces_end(s, from) ==> is_space(#[trigger] s[i]),
        spaces_end(s, from) < s.len() ==> !is_space(s[spaces_end(s, from)]),
    decreases s.len() - from,
{
    if from < s.len() && is_space(s[from]) {
        lemma_spaces_end(s, from + 1);
    }
}

/// A run of white space, read backwards, holds nothing else and stops after
/// the last character that is none, or at the start.
pub proof fn lemma_spaces_start(s: Seq<char>, to: int)
    requires
        0 <= to <= s.len(),
    ensures
        0 <= spaces_start(s, to) <= to,
        forall|i: int| spaces_start(s, to) <= i < to ==> is_space(#[trigger] s[i]),
        spaces_start(s, to) > 0 ==> !is_space(s[spaces_start(s, to) - 1]),
    decreases to,
{
    if 0 < to && is_space(s[to - 1]) {
        lemma_spaces_start(s, to - 1);
    }
}

/// A run of digits holds nothing else and stops at the first character that
/// is none, or at the end.
pub proof fn lemma_digits_end(s: Seq<char>, from: int)
    requires
        0 <= from <= s.len(),
    ensures
        from <= digits_end(s, from) <= s.len(),
        forall|i: int| from <= i < digits_end(s, from) ==> is_digit(#[trigger] s[i]),
        digits_end(s, from) < s.len() ==> !is_digit(s[digits_end(s, from)]),
    decreases s.len() - from,
{
    if from < s.len() && is_digit(s[from]) {
        lemma_digits_end(s, from + 1);
    }
}

/// A run up to `stop` holds no `stop` and ends at the first one, or at the end.
pub proof fn lemma_until_char(s: Seq<char>, from: int, stop: char)
    requires
        0 <= from <= s.len(),
    ensures
        from <= until_char(s, from, stop) <= s.len(),
        forall|i: int| from <= i < until_char(s, from, stop) ==> #[trigger] s[i] != stop,
        until_char(s, from, stop) < s.len() ==> s[until_char(s, from, stop)] == stop,
    decreases s.len() - from,
{
    if from < s.len() && s[from] != stop {
        lemma_until_char(s, from + 1, stop);
    }
}

/// The run of white space that starts at `from` ends at `at` if all is white
/// space up to there and something else, or nothing, stands at `at`.
pub proof fn lemma_spaces_end_is(s: Seq<char>, from: int, at: int)
    requires
        0 <= from <= at <= s.len(),
        forall|i: int| from <= i < at ==> is_space(#[trigger] s[i]),
        at < s.len() ==> !is_space(s[at]),
    ensures
        spaces_end(s, from) == at,
    decreases at - from,
{
    if from < at {
        lemma_spaces_end_is(s, from + 1, at);
    }
}

/// The run of digits that starts at `from` reaches at least to `at` if all
/// are digits up to there.
pub proof fn lemma_digits_end_reaches(s: Seq<char>, from: int, at: int)
    requires
        0 <= from <= at <= s.len(),
        forall|i: int| from <= i < at ==> is_digit(#[trigger] s[i]),
    ensures
        at <= digits_end(s, from),
    decreases at - from,
{
    if from < at {
        lemma_digits_end_reaches(s, from + 1, at);
    } else {
        lemma_digits_end(s, from);
    }
}

/// The run up to `stop` that starts at `from` ends at `at` if no `stop`
/// stands before `at` and one, or nothing, stands there.
pub proof fn lemma_until_char_is(s: Seq<char>, from: int, at: int, stop: char)
    requires
        0 <= from <= at <= s.len(),
        forall|i: int| from <= i < at ==> #[trigger] s[i] != stop,
        at < s.len() ==> s[at] == stop,
    ensures
        until_char(s, from, stop) == at,
    decreases at - from,
{
    if from < at {
        lemma_until_char_is(s, from + 1, at, stop);
    }
}

/// Where `pat` occurs, its characters stand one by one.
pub proof fn lemma_occurs_at(s: Seq<char>, at: int, pat: Seq<char>, k: int)
    requires
        occurs_at(s, at, pat),
        0 <= k < pat.len(),
    ensures
        s[at + k] == pat[k],
{
    assert(s.subrange(at, at + pat.len())[k] == s[at + k]);
}

/// A trimmed text neither begins nor ends with white space, and it is what
/// stands between a run of white space at the start of the text and one at
/// its end.
pub proof fn lemma_trimmed(s: Seq<char>)
    ensures
        trimmed(s).len() > 0 ==> !is_space(trimmed(s).first()) && !is_space(trimmed(s).last()),
        exists|a: int, b: int|
            {
                &&& 0 <= a <= b <= s.len()
                &&& #[trigger] s.subrange(a, b) == trimmed(s)
                &&& forall|i: int| 0 <= i < a ==> is_space(#[trigger] s[i])
                &&& forall|i: int| b <= i < s.len() ==> is_space(#[trigger] s[i])
            },
        (forall|i: int| 0 <= i < s.len() ==> is_space(#[trigger] s[i])) ==> trimmed(s).len() == 0,
{
    let a = spaces_end(s, 0);
    let b = spaces_start(s, s.len() as int);
    lemma_spaces_end(s, 0);
    lemma_spaces_start(s, s.len() as int);
    if a < b {
        assert(s.subrange(a, b) == trimmed(s));
        assert(!is_space(s[a]));
        assert(!is_space(s[b - 1]));
    } else {
        assert(s.subrange(a, a) =~= trimmed(s));
        assert forall|i: int| a <= i < s.len() implies is_space(#[trigger] s[i]) by {
            if i < b {
            }
        }
    }
    if forall|i: int| 0 <= i < s.len() ==> is_space(#[trigger] s[i]) {
        if a < s.len() {
            assert(is_space(s[a]));
        }
    }
}

/// Tells whether `c` is white space.
pub fn is_whitespace(c: char) -> (b: bool)
    ensures
        b == is_space(c),
{
    let u: u32 = c as u32;
    (0x09 <= u && u <= 0x0D) || u == 0x20 || u == 0x85 || u == 0xA0 || u == 0x1680 || (0x2000 <= u
        && u <= 0x200A) || u == 0x2028 || u == 0x2029 || u == 0x202F || u == 0x205F || u == 0x3000
}

/// Tells whether `c` is an ASCII decimal digit.
pub fn is_ascii_digit(c: char) -> (b: bool)
    ensures
        b == is_digit(c),
{
    '0' <= c && c <= '9'
}

/// The characters of a string slice, in order.
pub fn to_chars(s: &str) -> (v: Vec<char>)
    ensures
        v@ == s@,
{
    let mut v: Vec<char> = Vec::new();
    let it = s.chars();
    for c in iter: it
        invariant
            v@ == iter.seq().take(iter.index()),
    {
        v.push(c);
    }
    v
}

/// Index of the first character at or after `from` that is not white space.
pub fn skip_spaces(s: &[char], from: usize) -> (end: usize)
    requires
        from <= s@.len(),
    ensures
        end == spaces_end(s@, from as int),
        from <= end <= s@.len(),
{
    let mut i: usize = from;
    proof {
        lemma_spaces_end(s@, from as int);
    }
    while i < s.len() && is_whitespace(s[i])
        invariant
            from <= i <= s@.len(),
            spaces_end(s@, from as int) == spaces_end(s@, i as int),
        decreases s@.len() - i,
    {
        i = i + 1;
    }
    i
}

/// Index after the last character before `to` that is not white space.
pub fn skip_spaces_back(s: &[char], to: usize) -> (start: usize)
    requires
        to <= s@.len(),
    ensures
        start == spaces_start(s@, to as int),
        start <= to,
{
    let mut i: usize = to;
    while i > 0 && is_whitespace(s[i - 1])
        invariant
            i <= to <= s@.len(),
            spaces_start(s@, to as int) == spaces_start(s@, i as int),
        decreases i,
    {
        i = i - 1;
    }
    i
}

/// Index of the first character at or after `from` that is no ASCII digit.
pub fn skip_digits(s: &[char], from: usize) -> (end: usize)
    requires
        from <= s@.len(),
    ensures
        end == digits_end(s@, from as int),
        from <= end <= s@.len(),
{
    let mut i: usize = from;
    while i < s.len() && is_ascii_digit(s[i])
        invariant
            from <= i <= s@.len(),
            digits_end(s@, from as int) == digits_end(s@, i as int),
        decreases s@.len() - i,
    {
        i = i + 1;
    }
    i
}

/// Index of the first `stop` at or after `from`, or the length of `s`.
pub fn skip_until(s: &[char], from: usize, stop: char) -> (end: usize)
    requires
        from <= s@.len(),
    ensures
        end == until_char(s@, from as int, stop),
        from <= end <= s@.len(),
{
    let mut i: usize = from;
    while i < s.len() && s[i] != stop
        invariant
            from <= i <= s@.len(),
            until_char(s@, from as int, stop) == until_char(s@, i as int, stop),
        decreases s@.len() - i,
    {
        i = i + 1;
    }
    i
}

/// Tells whether `pat` occurs in `s` at index `at`.
pub fn matches_at(s: &[char], at: usize, pat: &[char]) -> (b: bool)
    ensures
        b == occurs_at(s@, at as int, pat@),
        b ==> at + pat@.len() <= usize::MAX,
{
    if pat.len() > s.len() || at > s.len() - pat.len() {
        return false;
    }
    let mut i: usize = 0;
    while i < pat.len()
        invariant
            at + pat@.len() <= s@.len() <= usize::MAX,
            i <= pat@.len(),
            forall|j: int| 0 <= j < i ==> s@[at + j] == pat@[j],
        decreases pat@.len() - i,
    {
        if s[at + i] != pat[i] {
            assert(s@.subrange(at as int, at + pat@.len())[i as int] != pat@[i as int]);
            return false;
        }
        i = i + 1;
    }
    assert(s@.subrange(at as int, at + pat@.len()) =~= pat@);
    true
}

/// The characters of `s` from `from` up to `to`, as a vector of their own.
pub fn slice_chars(s: &[char], from: usize, to: usize) -> (v: Vec<char>)
    requires
        from <= to <= s@.len(),
    ensures
        v@ == s@.subrange(from as int, to as int),
{
    let mut v: Vec<char> = Vec::new();
    let mut i: usize = from;
    while i < to
        invariant
            from <= i <= to <= s@.len(),
            v@ == s@.subrange(from as int, i as int),
        decreases to - i,
    {
        v.push(s[i]);
        i = i + 1;
    }
    v
}

/// `s` without its leading and trailing white space.
pub fn trim(s: &[char]) -> (v: Vec<char>)
    ensures
        v@ == trimmed(s@),
{
    let a = skip_spaces(s, 0);
    let b = skip_spaces_back(s, s.len());
    if a < b {
        slice_chars(s, a, b)
    } else {
        Vec::new()
    }
}

/// The string made of the characters of `chars`, in order.
pub fn from_chars(chars: &[char]) -> (s: String)
    ensures
        s@ == chars@,
{
    let mut s = String::new();
    let mut i: usize = 0;
    while i < chars.len()
        invariant
            i <= chars@.len(),
            s@ == chars@.take(i as int),
        decreases chars@.len() - i,
    {
        push_char(&mut s, chars[i]);
        assert(chars@.take(i + 1) =~= chars@.take(i as int).push(chars@[i as int]));
        i = i + 1;
    }
    assert(chars@.take(chars@.len() as int) =~= chars@);
    s
}

/// Tells whether two texts hold the same characters.
pub fn same_chars(a: &[char], b: &[char]) -> (eq: bool)
    ensures
        eq == (a@ == b@),
{
    if a.len() != b.len() {
        return false;
    }
    let eq = matches_at(a, 0, b);
    assert(a@.subrange(0, a@.len() as int) =~= a@);
    eq
}

/// The decimal digits of `n`, the most significant first, with no leading zero.
pub open spec fn decimal(n: nat) -> Seq<char>
    decreases n,
{
    if n < 10 {
        seq![(('0' as u32) + n) as char]
    } else {
        decimal(n / 10).push((('0' as u32) + n % 10) as char)
    }
}

/// The character of a decimal digit.
pub fn digit_char(d: u8) -> (c: char)
    requires
        d < 10,
    ensures
        c == (('0' as u32) + d) as char,
{
    (48u8 + d) as char
}

/// Appends the decimal digits of `n` to `out`.
pub fn push_decimal(out: &mut String, n: u64)
    ensures
        final(out)@ == old(out)@ + decimal(n as nat),
    decreases n,
{
    if n < 10 {
        push_char(out, digit_char(n as u8));
        assert(old(out)@.push((('0' as u32) + n) as char) =~= old(out)@ + decimal(n as nat));
    } else {
        push_decimal(out, n / 10);
        push_char(out, digit_char((n % 10) as u8));
        assert((old(out)@ + decimal((n / 10) as nat)).push((('0' as u32) + n % 10) as char)
            =~= old(out)@ + decimal(n as nat));
    }
}

} // verus!
