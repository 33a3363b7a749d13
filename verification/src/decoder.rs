//! Decoding of the payload of a presentation.

use crate::text::{is_space, is_whitespace, to_chars};
use crate::trusted::{hex_decode, hex_decoding, hex_error_text, is_hex_text, push_char};
use crate::types::{ErrorKind, PresentationJSON, VerificationError};
use vstd::prelude::*;
use vstd::string::StringExecFns;

verus! {

/// The model of a `VerificationError`: its kind and the characters of its message.
pub struct Rejection {
    pub kind: ErrorKind,
    pub message: Seq<char>,
}

impl View for VerificationError {
    type V = Rejection;

    open spec fn view(&self) -> Rejection {
        Rejection { kind: self.kind, message: self.message@ }
    }
}

/// `s` with every white-space character taken out.
pub open spec fn without_spaces(s: Seq<char>) -> Seq<char>
    decreases s.len(),
{
    if s.len() == 0 {
        Seq::empty()
    } else if is_space(s.last()) {
        without_spaces(s.drop_last())
    } else {
        without_spaces(s.drop_last()).push(s.last())
    }
}

/// The message for a payload that is no hexadecimal text.
pub open spec fn encoding_message(why: Seq<char>) -> Seq<char> {
    "Invalid presentation encoding: "@ + why
}

/// What decoding the payload `data` gives: its bytes, or the rejection.
pub open spec fn payload_of(data: Seq<char>) -> Result<Seq<u8>, Rejection> {
    let hex = without_spaces(data);
    if is_hex_text(hex) {
        Ok(hex_decoding(hex))
    } else {
        Err(Rejection { kind: ErrorKind::Decode, message: encoding_message(hex_error_text(hex)) })
    }
}

/// Nothing that is left after stripping is white space, and a text without
/// white space is left as it is.
pub proof fn lemma_without_spaces(s: Seq<char>)
    ensures
        forall|i: int| 0 <= i < without_spaces(s).len() ==> !is_space(#[trigger] without_spaces(s)[i]),
        (forall|i: int| 0 <= i < s.len() ==> !is_space(#[trigger] s[i])) ==> without_spaces(s) == s,
        without_spaces(s).len() <= s.len(),
    decreases s.len(),
{
    if s.len() > 0 {
        lemma_without_spaces(s.drop_last());
        if forall|i: int| 0 <= i < s.len() ==> !is_space(#[trigger] s[i]) {
            assert forall|i: int| 0 <= i < s.drop_last().len() implies !is_space(
                #[trigger] s.drop_last()[i],
            ) by {
                assert(s.drop_last()[i] == s[i]);
            }
            assert(!is_space(s[s.len() - 1]));
            assert(s.drop_last().push(s.last()) =~= s);
        }
    } else {
        assert(without_spaces(s) =~= s);
    }
}

/// `s` with every white-space character taken out.
pub fn strip_whitespace(s: &str) -> (out: String)
    ensures
        out@ == without_spaces(s@),
{
    let chars = to_chars(s);
    let mut out = String::new();
    let mut i: usize = 0;
    while i < chars.len()
        invariant
            i <= chars@.len(),
            out@ == without_spaces(chars@.take(i as int)),
        decreases chars@.len() - i,
    {
        let c = chars[i];
        assert(chars@.take(i + 1).drop_last() =~= chars@.take(i as int));
        if !is_whitespace(c) {
            push_char(&mut out, c);
        }
        i = i + 1;
    }
    assert(chars@.take(chars@.len() as int) =~= chars@);
    out
}

/// A rejection of the given kind with the given message.
pub fn reject(kind: ErrorKind, message: String) -> (e: VerificationError)
    ensures
        e@ == (Rejection { kind, message: message@ }),
{
    VerificationError { kind, message }
}

/// `prefix` followed by `rest`.
pub fn prefixed(prefix: &str, rest: &str) -> (s: String)
    ensures
        s@ == prefix@ + rest@,
{
    let mut s = String::from_str(prefix);
    s.append(rest);
    s
}

impl PresentationJSON {
    /// The bytes of the proof: the payload without its white space, decoded
    /// from hexadecimal. Nothing is returned of a payload that does not
    /// decode as a whole.
    pub fn to_presentation(&self) -> (res: Result<Vec<u8>, VerificationError>)
        ensures
            res is Ok <==> payload_of(self.data@) is Ok,
            res matches Ok(bytes) ==> payload_of(self.data@) == Ok::<Seq<u8>, Rejection>(bytes@),
            res matches Err(e) ==> payload_of(self.data@) == Err::<Seq<u8>, Rejection>(e@),
    {
        let hex = strip_whitespace(self.data.as_str());
        match hex_decode(hex.as_str()) {
            Ok(bytes) => Ok(bytes),
            Err(why) => Err(
                reject(ErrorKind::Decode, prefixed("Invalid presentation encoding: ", why.as_str())),
            ),
        }
    }
}

} // verus!
