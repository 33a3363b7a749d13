//! The fields that are read out of the plain text of a transcript: the
//! `Host` header and the request line of what was sent, and the score in what
//! was received.

use crate::text::{
    ascii_lower, digits_end, is_digit, is_space, lemma_digits_end, lemma_digits_end_reaches,
    lemma_occurs_at, lemma_spaces_end, lemma_spaces_end_is, lemma_until_char,
    lemma_until_char_is, matches_at, occurs_at, skip_digits, skip_spaces, skip_until,
    slice_chars, spaces_end, starts_with_ignoring_case, to_chars, trim, trimmed, until_char,
};
use vstd::prelude::*;

verus! {

/// The line that begins at `start`: it runs up to the next line feed, and a
/// carriage return just before that line feed is not part of it.
pub open spec fn line_at(s: Seq<char>, start: int) -> Seq<char> {
    let end = until_char(s, start, '\n');
    if end < s.len() && start < end && s[end - 1] == '\r' {
        s.subrange(start, end - 1)
    } else {
        s.subrange(start, end)
    }
}

/// The lines of `s` from index `start` on.
pub open spec fn lines_from(s: Seq<char>, start: int) -> Seq<Seq<char>>
    decreases s.len() + 1 - start,
{
    if start < 0 || start >= s.len() {
        Seq::empty()
    } else {
        proof {
            lemma_until_char(s, start, '\n');
        }
        seq![line_at(s, start)] + lines_from(s, until_char(s, start, '\n') + 1)
    }
}

/// The lines of `s`. A line ends with a line feed, or with a carriage return
/// and a line feed; the last line needs no ending, and no line follows a
/// final line ending.
pub open spec fn lines(s: Seq<char>) -> Seq<Seq<char>> {
    lines_from(s, 0)
}

/// The views of a vector of lines.
pub open spec fn line_views(v: Seq<Vec<char>>) -> Seq<Seq<char>> {
    Seq::new(v.len(), |i: int| v[i]@)
}

/// The name of the header that carries the host, with its colon.
pub open spec fn host_name() -> Seq<char> {
    seq!['h', 'o', 's', 't', ':']
}

/// A line that begins with `host:`, in letters of either case.
pub open spec fn is_host_line(line: Seq<char>) -> bool {
    starts_with_ignoring_case(line, host_name())
}

/// Index of the first host line among `lines`, or their number if there is none.
pub open spec fn first_host_line(lines: Seq<Seq<char>>) -> int
    decreases lines.len(),
{
    if lines.len() == 0 {
        0
    } else if is_host_line(lines[0]) {
        0
    } else {
        1 + first_host_line(lines.drop_first())
    }
}

/// The value of the first `Host` header in `sent`: what follows the header's
/// name on its line, without the white space around it.
pub open spec fn host_header(sent: Seq<char>) -> Option<Seq<char>> {
    let all = lines(sent);
    let at = first_host_line(all);
    if at < all.len() {
        Some(trimmed(all[at].skip(host_name().len() as int)))
    } else {
        None
    }
}

/// The first line of `sent`, if it has any.
pub open spec fn request_line(sent: Seq<char>) -> Option<Seq<char>> {
    if sent.len() > 0 {
        Some(line_at(sent, 0))
    } else {
        None
    }
}

/// At index `p` stand the path of a credit score, `/users/`, one or more
/// characters other than a slash, `/credit-score`, then white space and the
/// protocol version.
pub open spec fn target_at(s: Seq<char>, p: int) -> bool {
    let q = p + "/users/"@.len();
    let r = until_char(s, q, '/');
    let t = r + "/credit-score"@.len();
    let u = spaces_end(s, t);
    &&& occurs_at(s, p, "/users/"@)
    &&& q < r
    &&& occurs_at(s, r, "/credit-score"@)
    &&& t < u
    &&& occurs_at(s, u, "HTTP/1.1"@)
}

/// At index `b` stands `scheme`, then an authority of one or more characters
/// other than a slash, then the target.
pub open spec fn absolute_target_at(s: Seq<char>, b: int, scheme: Seq<char>) -> bool {
    let c = b + scheme.len();
    let d = until_char(s, c, '/');
    &&& occurs_at(s, b, scheme)
    &&& c < d
    &&& target_at(s, d)
}

/// At index `i` begins a request for a credit score: `GET`, white space, an
/// optional `http://` or `https://` with an authority, and the target.
pub open spec fn request_at(s: Seq<char>, i: int) -> bool {
    let a = i + "GET"@.len();
    let b = spaces_end(s, a);
    &&& occurs_at(s, i, "GET"@)
    &&& a < b
    &&& (target_at(s, b) || absolute_target_at(s, b, "http://"@) || absolute_target_at(
        s,
        b,
        "https://"@,
    ))
}

/// From `from` up to `to` stands nothing but white space.
pub open spec fn all_spaces(s: Seq<char>, from: int, to: int) -> bool {
    forall|i: int| from <= i < to ==> is_space(#[trigger] s[i])
}

/// From `from` up to `to` stands no slash.
pub open spec fn no_slash(s: Seq<char>, from: int, to: int) -> bool {
    forall|i: int| from <= i < to ==> #[trigger] s[i] != '/'
}

/// From `from` up to `to` stands nothing but digits.
pub open spec fn all_digits(s: Seq<char>, from: int, to: int) -> bool {
    forall|i: int| from <= i < to ==> is_digit(#[trigger] s[i])
}

/// At `b` stands `scheme`, and from there up to `d` an authority: one or
/// more characters, none of them a slash.
pub open spec fn authority_between(s: Seq<char>, b: int, d: int, scheme: Seq<char>) -> bool {
    &&& occurs_at(s, b, scheme)
    &&& b + scheme.len() < d
    &&& no_slash(s, b + scheme.len(), d)
}

/// `s` holds the target of a request for a credit score with its parts at
/// the given places: `/users/` at `p`; a user of one or more characters other
/// than a slash from there up to `r`; `/credit-score` at `r`; white space
/// from there up to `u`; and `HTTP/1.1` at `u`.
pub open spec fn target_shape(s: Seq<char>, p: int, r: int, u: int) -> bool {
    &&& occurs_at(s, p, "/users/"@)
    &&& p + "/users/"@.len() < r
    &&& no_slash(s, p + "/users/"@.len(), r)
    &&& occurs_at(s, r, "/credit-score"@)
    &&& r + "/credit-score"@.len() < u
    &&& all_spaces(s, r + "/credit-score"@.len(), u)
    &&& occurs_at(s, u, "HTTP/1.1"@)
}

/// `s` holds a request for a credit score with its parts at the given
/// places: `GET` at `i`; white space from there up to `b`; at `b` either the
/// target itself, or `http://` or `https://` and an authority up to `d`; and
/// at `d` the target, with its parts at `r` and `u`.
pub open spec fn request_shape(s: Seq<char>, i: int, b: int, d: int, r: int, u: int) -> bool {
    &&& occurs_at(s, i, "GET"@)
    &&& i + "GET"@.len() < b
    &&& all_spaces(s, i + "GET"@.len(), b)
    &&& (d == b || authority_between(s, b, d, "http://"@) || authority_between(
        s,
        b,
        d,
        "https://"@,
    ))
    &&& target_shape(s, d, r, u)
}

/// Somewhere in `line` stands a request for a credit score.
pub open spec fn is_score_request(line: Seq<char>) -> bool {
    exists|i: int, b: int, d: int, r: int, u: int| #[trigger] request_shape(line, i, b, d, r, u)
}

/// `s` holds a score with its parts at the given places: `"value"` at `i`;
/// white space, if any, from there up to `j`; a colon at `j`; white space, if
/// any, up to `c`; and one or more digits from `c` up to `d`.
pub open spec fn score_shape(s: Seq<char>, i: int, j: int, c: int, d: int) -> bool {
    &&& occurs_at(s, i, "\"value\""@)
    &&& i + "\"value\""@.len() <= j < s.len()
    &&& all_spaces(s, i + "\"value\""@.len(), j)
    &&& s[j] == ':'
    &&& j < c < d <= s.len()
    &&& all_spaces(s, j + 1, c)
    &&& all_digits(s, c, d)
}

/// Where the digits of a score stand, if at index `i` begins `"value"`,
/// optional white space, a colon, optional white space and one or more
/// digits: the index of the first digit and the index after the last.
pub open spec fn score_at(s: Seq<char>, i: int) -> Option<(int, int)> {
    let a = i + "\"value\""@.len();
    let b = spaces_end(s, a);
    let c = spaces_end(s, b + 1);
    let d = digits_end(s, c);
    if occurs_at(s, i, "\"value\""@) && b < s.len() && s[b] == ':' && c < d {
        Some((c, d))
    } else {
        None
    }
}

/// The digits of the first score that begins at index `i` or later.
pub open spec fn score_from(s: Seq<char>, i: int) -> Option<Seq<char>>
    decreases s.len() - i,
{
    if i < 0 || i >= s.len() {
        None
    } else if let Some((c, d)) = score_at(s, i) {
        Some(s.subrange(c, d))
    } else {
        score_from(s, i + 1)
    }
}

/// The digits of the leftmost score in `received`.
pub open spec fn score_of(received: Seq<char>) -> Option<Seq<char>> {
    score_from(received, 0)
}

/// Somewhere in `received` stands a score.
pub open spec fn has_score(received: Seq<char>) -> bool {
    exists|i: int, j: int, c: int, d: int| #[trigger] score_shape(received, i, j, c, d)
}

/// No line before the first host line is one, and the first host line is
/// one, if there is any.
pub proof fn lemma_first_host_line(lines: Seq<Seq<char>>)
    ensures
        0 <= first_host_line(lines) <= lines.len(),
        forall|i: int| 0 <= i < first_host_line(lines) ==> !is_host_line(#[trigger] lines[i]),
        first_host_line(lines) < lines.len() ==> is_host_line(lines[first_host_line(lines)]),
    decreases lines.len(),
{
    if lines.len() > 0 && !is_host_line(lines[0]) {
        let rest = lines.drop_first();
        lemma_first_host_line(rest);
        assert forall|i: int| 0 <= i < first_host_line(lines) implies !is_host_line(
            #[trigger] lines[i],
        ) by {
            if i > 0 {
                assert(lines[i] == rest[i - 1]);
            }
        }
        if first_host_line(lines) < lines.len() {
            assert(lines[first_host_line(lines)] == rest[first_host_line(rest)]);
        }
    }
}

/// The index that `first_host_line` gives is the only one with a host line
/// at it and none before it.
pub proof fn lemma_first_host_line_is(lines: Seq<Seq<char>>, at: int)
    requires
        0 <= at <= lines.len(),
        forall|i: int| 0 <= i < at ==> !is_host_line(#[trigger] lines[i]),
        at < lines.len() ==> is_host_line(lines[at]),
    ensures
        first_host_line(lines) == at,
{
    lemma_first_host_line(lines);
    let f = first_host_line(lines);
    if f < at {
        assert(!is_host_line(lines[f]));
    } else if at < f {
        assert(is_host_line(lines[at]));
    }
}

/// The search from `i` on finds a score exactly if one begins at `i` or later.
pub proof fn lemma_score_from(s: Seq<char>, i: int)
    requires
        0 <= i,
    ensures
        score_from(s, i) is Some <==> exists|j: int|
            i <= j < s.len() && #[trigger] score_at(s, j) is Some,
    decreases s.len() - i,
{
    if i < s.len() {
        if score_at(s, i) is None {
            lemma_score_from(s, i + 1);
            if score_from(s, i + 1) is Some {
                let j = choose|j: int| i + 1 <= j < s.len() && #[trigger] score_at(s, j) is Some;
                assert(i <= j < s.len() && score_at(s, j) is Some);
            }
        }
    }
}

/// The target stands at `p` exactly if its parts can be placed.
pub proof fn lemma_target_at(s: Seq<char>, p: int)
    ensures
        target_at(s, p) <==> exists|r: int, u: int| #[trigger]
            target_shape(s, p, r, u),
{
    let q = p + "/users/"@.len();
    if target_at(s, p) {
        let r = until_char(s, q, '/');
        let t = r + "/credit-score"@.len();
        let u = spaces_end(s, t);
        lemma_until_char(s, q, '/');
        lemma_spaces_end(s, t);
        assert(target_shape(s, p, r, u));
    }
    if exists|r: int, u: int| #[trigger] target_shape(s, p, r, u) {
        let (r, u) = choose|r: int, u: int| #[trigger] target_shape(s, p, r, u);
        let t = r + "/credit-score"@.len();
        reveal_strlit("/credit-score");
        reveal_strlit("HTTP/1.1");
        lemma_occurs_at(s, r, "/credit-score"@, 0);
        lemma_occurs_at(s, u, "HTTP/1.1"@, 0);
        lemma_until_char_is(s, q, r, '/');
        lemma_spaces_end_is(s, t, u);
    }
}

/// An absolute target stands at `b` exactly if an authority can be placed
/// before a target.
pub proof fn lemma_absolute_target_at(s: Seq<char>, b: int, scheme: Seq<char>)
    ensures
        absolute_target_at(s, b, scheme) <==> exists|d: int| #[trigger]
            authority_between(s, b, d, scheme) && target_at(s, d),
{
    let c = b + scheme.len();
    if absolute_target_at(s, b, scheme) {
        let d = until_char(s, c, '/');
        lemma_until_char(s, c, '/');
        assert(authority_between(s, b, d, scheme) && target_at(s, d));
    }
    if exists|d: int| #[trigger] authority_between(s, b, d, scheme) && target_at(s, d) {
        let d = choose|d: int| #[trigger] authority_between(s, b, d, scheme) && target_at(s, d);
        reveal_strlit("/users/");
        lemma_occurs_at(s, d, "/users/"@, 0);
        lemma_until_char_is(s, c, d, '/');
    }
}

/// A request that is found at `i` has its parts placed.
pub proof fn lemma_request_has_shape(s: Seq<char>, i: int)
    requires
        request_at(s, i),
    ensures
        exists|b: int, d: int, r: int, u: int| #[trigger] request_shape(s, i, b, d, r, u),
        0 <= i < s.len(),
{
    let a = i + "GET"@.len();
    let b = spaces_end(s, a);
    lemma_spaces_end(s, a);
    let d = if target_at(s, b) {
        b
    } else if absolute_target_at(s, b, "http://"@) {
        until_char(s, b + "http://"@.len(), '/')
    } else {
        until_char(s, b + "https://"@.len(), '/')
    };
    if !target_at(s, b) {
        if absolute_target_at(s, b, "http://"@) {
            lemma_until_char(s, b + "http://"@.len(), '/');
        } else {
            lemma_until_char(s, b + "https://"@.len(), '/');
        }
    }
    assert(target_at(s, d));
    lemma_target_at(s, d);
    let (r, u) = choose|r: int, u: int| #[trigger] target_shape(s, d, r, u);
    assert(request_shape(s, i, b, d, r, u));
}

/// Where the parts of a request can be placed, a request is found.
pub proof fn lemma_shape_is_request(s: Seq<char>, i: int, b: int, d: int, r: int, u: int)
    requires
        request_shape(s, i, b, d, r, u),
    ensures
        request_at(s, i),
        0 <= i < s.len(),
{
    let a = i + "GET"@.len();
    reveal_strlit("/users/");
    reveal_strlit("http://");
    reveal_strlit("https://");
    lemma_occurs_at(s, d, "/users/"@, 0);
    if d != b {
        if authority_between(s, b, d, "http://"@) {
            lemma_occurs_at(s, b, "http://"@, 0);
        } else {
            lemma_occurs_at(s, b, "https://"@, 0);
        }
    }
    assert(!is_space(s[b]));
    lemma_spaces_end_is(s, a, b);
    assert(target_shape(s, d, r, u));
    lemma_target_at(s, d);
    if d != b {
        if authority_between(s, b, d, "http://"@) {
            lemma_absolute_target_at(s, b, "http://"@);
        } else {
            lemma_absolute_target_at(s, b, "https://"@);
        }
    }
}

/// A score that is found at `i` has its parts placed.
pub proof fn lemma_score_has_shape(s: Seq<char>, i: int)
    requires
        score_at(s, i) is Some,
    ensures
        exists|j: int, c: int, d: int| #[trigger] score_shape(s, i, j, c, d),
        0 <= i < s.len(),
{
    let a = i + "\"value\""@.len();
    let j = spaces_end(s, a);
    let c = spaces_end(s, j + 1);
    let d = digits_end(s, c);
    lemma_spaces_end(s, a);
    lemma_spaces_end(s, j + 1);
    lemma_digits_end(s, c);
    assert(score_shape(s, i, j, c, d));
}

/// Where the parts of a score can be placed, a score is found, and its
/// digits begin where they were placed.
pub proof fn lemma_shape_is_score(s: Seq<char>, i: int, j: int, c: int, d: int)
    requires
        score_shape(s, i, j, c, d),
    ensures
        score_at(s, i) matches Some((first, end)) && first == c && d <= end,
        0 <= i < s.len(),
{
    let a = i + "\"value\""@.len();
    lemma_spaces_end_is(s, a, j);
    assert(is_digit(s[c]));
    lemma_spaces_end_is(s, j + 1, c);
    lemma_digits_end_reaches(s, c, d);
}

/// A score is found exactly if one stands somewhere.
pub proof fn lemma_score_found_iff(s: Seq<char>)
    ensures
        score_of(s) is Some <==> has_score(s),
{
    lemma_score_from(s, 0);
    if score_of(s) is Some {
        let i = choose|i: int| 0 <= i < s.len() && #[trigger] score_at(s, i) is Some;
        lemma_score_has_shape(s, i);
        let (j, c, d) = choose|j: int, c: int, d: int| #[trigger] score_shape(s, i, j, c, d);
        assert(score_shape(s, i, j, c, d));
    }
    if has_score(s) {
        let (i, j, c, d) = choose|i: int, j: int, c: int, d: int| #[trigger]
            score_shape(s, i, j, c, d);
        lemma_shape_is_score(s, i, j, c, d);
        assert(0 <= i < s.len() && score_at(s, i) is Some);
    }
}

/// The score that is found stands in the text, and none stands further to
/// the left.
pub proof fn lemma_score_is_leftmost(received: Seq<char>) -> (at: int)
    requires
        score_of(received) is Some,
    ensures
        0 <= at < received.len(),
        score_at(received, at) matches Some((c, d)) && score_of(received) == Some(
            received.subrange(c, d),
        ),
        forall|j: int| 0 <= j < at ==> score_at(received, j) is None,
{
    lemma_leftmost_from(received, 0)
}

proof fn lemma_leftmost_from(s: Seq<char>, i: int) -> (at: int)
    requires
        0 <= i,
        score_from(s, i) is Some,
    ensures
        i <= at < s.len(),
        score_at(s, at) matches Some((c, d)) && score_from(s, i) == Some(
            s.subrange(c, d),
        ),
        forall|j: int| i <= j < at ==> score_at(s, j) is None,
    decreases s.len() - i,
{
    if score_at(s, i) is Some {
        i
    } else {
        lemma_leftmost_from(s, i + 1)
    }
}

/// The lines of a text, each as a vector of its own.
pub fn split_lines(text: &[char]) -> (out: Vec<Vec<char>>)
    ensures
        line_views(out@) == lines(text@),
{
    let mut out: Vec<Vec<char>> = Vec::new();
    let mut start: usize = 0;
    assert(line_views(out@) + lines_from(text@, 0) =~= lines(text@));
    while start < text.len()
        invariant
            start <= text@.len(),
            line_views(out@) + lines_from(text@, start as int) == lines(text@),
        decreases text@.len() - start,
    {
        let end = skip_until(text, start, '\n');
        let line = if end < text.len() && start < end && text[end - 1] == '\r' {
            slice_chars(text, start, end - 1)
        } else {
            slice_chars(text, start, end)
        };
        let ghost before = out@;
        assert(line@ == line_at(text@, start as int));
        out.push(line);
        proof {
            assert(line_views(out@) =~= line_views(before) + seq![line_at(text@, start as int)]);
        }
        if end == text.len() {
            proof {
                assert(lines_from(text@, end + 1) =~= Seq::<Seq<char>>::empty());
                assert(lines_from(text@, end as int) =~= Seq::<Seq<char>>::empty());
                assert(line_views(out@) + lines_from(text@, end as int) =~= line_views(before)
                    + lines_from(text@, start as int));
            }
            start = end;
        } else {
            proof {
                assert(line_views(out@) + lines_from(text@, end + 1) =~= line_views(before)
                    + lines_from(text@, start as int));
            }
            start = end + 1;
        }
    }
    assert(lines_from(text@, start as int) =~= Seq::<Seq<char>>::empty());
    assert(line_views(out@) + Seq::<Seq<char>>::empty() =~= line_views(out@));
    out
}

/// Tells whether `c`, brought to lower case if it is an ASCII letter, is `lower`.
pub fn is_char_ignoring_case(c: char, lower: char) -> (b: bool)
    ensures
        b == (ascii_lower(c) == lower),
{
    if 'A' <= c && c <= 'Z' {
        c as u32 + 32 == lower as u32
    } else {
        c == lower
    }
}

/// Tells whether `line` begins with `host:`, in letters of either case.
pub fn starts_with_host(line: &[char]) -> (b: bool)
    ensures
        b == is_host_line(line@),
{
    if line.len() < 5 {
        return false;
    }
    let b = is_char_ignoring_case(line[0], 'h') && is_char_ignoring_case(line[1], 'o')
        && is_char_ignoring_case(line[2], 's') && is_char_ignoring_case(line[3], 't')
        && is_char_ignoring_case(line[4], ':');
    b
}

/// The value of the first `Host` header in `sent`.
pub fn find_host(sent: &[char]) -> (res: Option<Vec<char>>)
    ensures
        res is Some <==> host_header(sent@) is Some,
        res matches Some(host) ==> host_header(sent@) == Some(host@),
{
    let all = split_lines(sent);
    let mut i: usize = 0;
    while i < all.len()
        invariant
            i <= all@.len(),
            line_views(all@) == lines(sent@),
            forall|j: int| 0 <= j < i ==> !is_host_line(#[trigger] line_views(all@)[j]),
        decreases all@.len() - i,
    {
        let line = all[i].as_slice();
        assert(line@ == line_views(all@)[i as int]);
        if starts_with_host(line) {
            proof {
                lemma_first_host_line_is(line_views(all@), i as int);
            }
            let value = slice_chars(line, 5, line.len());
            assert(value@ == line@.skip(host_name().len() as int));
            return Some(trim(value.as_slice()));
        }
        i = i + 1;
    }
    proof {
        lemma_first_host_line_is(line_views(all@), all@.len() as int);
    }
    None
}

/// The first line of `sent`, if it has any.
pub fn first_line(sent: &[char]) -> (res: Option<Vec<char>>)
    ensures
        res is Some <==> request_line(sent@) is Some,
        res matches Some(line) ==> request_line(sent@) == Some(line@),
{
    if sent.len() == 0 {
        return None;
    }
    let end = skip_until(sent, 0, '\n');
    if end < sent.len() && 0 < end && sent[end - 1] == '\r' {
        Some(slice_chars(sent, 0, end - 1))
    } else {
        Some(slice_chars(sent, 0, end))
    }
}

/// Tells whether the target of a credit score request stands at index `p`.
pub fn target_matches(s: &[char], p: usize) -> (b: bool)
    ensures
        b == target_at(s@, p as int),
{
    let users = to_chars("/users/");
    let credit = to_chars("/credit-score");
    let version = to_chars("HTTP/1.1");
    if !matches_at(s, p, users.as_slice()) {
        return false;
    }
    let q = p + users.len();
    let r = skip_until(s, q, '/');
    if r <= q {
        return false;
    }
    if !matches_at(s, r, credit.as_slice()) {
        return false;
    }
    let t = r + credit.len();
    let u = skip_spaces(s, t);
    if u <= t {
        return false;
    }
    matches_at(s, u, version.as_slice())
}

/// Tells whether `scheme`, an authority and the target stand at index `b`.
pub fn absolute_target_matches(s: &[char], b: usize, scheme: &[char]) -> (ok: bool)
    ensures
        ok == absolute_target_at(s@, b as int, scheme@),
{
    if !matches_at(s, b, scheme) {
        return false;
    }
    let c = b + scheme.len();
    let d = skip_until(s, c, '/');
    if d <= c {
        return false;
    }
    target_matches(s, d)
}

/// Tells whether a request for a credit score begins at index `i`.
pub fn request_matches_at(s: &[char], i: usize) -> (b: bool)
    ensures
        b == request_at(s@, i as int),
{
    let get = to_chars("GET");
    if !matches_at(s, i, get.as_slice()) {
        return false;
    }
    let a = i + get.len();
    let b = skip_spaces(s, a);
    if b <= a {
        return false;
    }
    if target_matches(s, b) {
        return true;
    }
    let http = to_chars("http://");
    if absolute_target_matches(s, b, http.as_slice()) {
        return true;
    }
    let https = to_chars("https://");
    absolute_target_matches(s, b, https.as_slice())
}

/// Tells whether a request for a credit score begins somewhere in `line`.
pub fn is_request_for_score(line: &[char]) -> (b: bool)
    ensures
        b == is_score_request(line@),
{
    let mut i: usize = 0;
    while i < line.len()
        invariant
            i <= line@.len(),
            forall|j: int| 0 <= j < i ==> !#[trigger] request_at(line@, j),
        decreases line@.len() - i,
    {
        if request_matches_at(line, i) {
            proof {
                lemma_request_has_shape(line@, i as int);
            }
            return true;
        }
        i = i + 1;
    }
    proof {
        assert forall|i: int, b: int, d: int, r: int, u: int|
            !#[trigger] request_shape(line@, i, b, d, r, u) by {
            if request_shape(line@, i, b, d, r, u) {
                lemma_shape_is_request(line@, i, b, d, r, u);
            }
        }
    }
    false
}

/// The digits of the leftmost score in `received`.
pub fn find_score(received: &[char]) -> (res: Option<Vec<char>>)
    ensures
        res is Some <==> score_of(received@) is Some,
        res matches Some(digits) ==> score_of(received@) == Some(digits@),
{
    let name = to_chars("\"value\"");
    let mut i: usize = 0;
    while i < received.len()
        invariant
            i <= received@.len(),
            name@ == "\"value\""@,
            score_of(received@) == score_from(received@, i as int),
        decreases received@.len() - i,
    {
        if matches_at(received, i, name.as_slice()) {
            let a = i + name.len();
            let b = skip_spaces(received, a);
            if b < received.len() && received[b] == ':' {
                let c = skip_spaces(received, b + 1);
                let d = skip_digits(received, c);
                if c < d {
                    return Some(slice_chars(received, c, d));
                }
            }
        }
        i = i + 1;
    }
    None
}

} // verus!
