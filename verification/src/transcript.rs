//! The recorded bytes of a notarized session, of which only some ranges are
//! authenticated by the proof.

use vstd::prelude::*;

verus! {

/// The indices from `start` up to, not including, `end`.
#[derive(Debug, Clone, Copy, PartialEq, Eq, Structural)]
pub struct ByteRange {
    pub start: usize,
    pub end: usize,
}

/// The bytes sent and received in a session, with the ranges of each
/// direction that the proof authenticates.
#[derive(Debug, Clone, PartialEq, Eq)]
pub struct Transcript {
    pub sent: Vec<u8>,
    pub received: Vec<u8>,
    pub sent_authed: Vec<ByteRange>,
    pub received_authed: Vec<ByteRange>,
}

/// Index `i` lies in `range`.
pub open spec fn covers(range: ByteRange, i: int) -> bool {
    range.start <= i < range.end
}

/// Index `i` lies in one of the first `n` ranges.
pub open spec fn is_authed_by(ranges: Seq<ByteRange>, n: int, i: int) -> bool {
    exists|k: int| 0 <= k < n && k < ranges.len() && covers(#[trigger] ranges[k], i)
}

/// Index `i` lies in one of `ranges`.
pub open spec fn is_authed(ranges: Seq<ByteRange>, i: int) -> bool {
    is_authed_by(ranges, ranges.len() as int, i)
}

/// `bytes` with every byte outside `ranges` replaced by `fill`.
pub open spec fn redacted(bytes: Seq<u8>, ranges: Seq<ByteRange>, fill: u8) -> Seq<u8> {
    Seq::new(
        bytes.len(),
        |i: int|
            if is_authed(ranges, i) {
                bytes[i]
            } else {
                fill
            },
    )
}

/// A copy of `bytes` in which every byte that no range of `ranges` covers is
/// `fill`.
pub fn redact(bytes: &Vec<u8>, ranges: &Vec<ByteRange>, fill: u8) -> (out: Vec<u8>)
    ensures
        out@ == redacted(bytes@, ranges@, fill),
{
    let n = bytes.len();
    let mut out: Vec<u8> = Vec::new();
    let mut j: usize = 0;
    while j < n
        invariant
            j <= n,
            out@.len() == j,
            forall|i: int| 0 <= i < j ==> out@[i] == fill,
        decreases n - j,
    {
        out.push(fill);
        j = j + 1;
    }
    let mut k: usize = 0;
    while k < ranges.len()
        invariant
            k <= ranges@.len(),
            n == bytes@.len(),
            out@.len() == n,
            forall|i: int|
                0 <= i < n ==> out@[i] == if is_authed_by(ranges@, k as int, i) {
                    bytes@[i]
                } else {
                    fill
                },
        decreases ranges@.len() - k,
    {
        let range = ranges[k];
        let stop = if range.end < n {
            range.end
        } else {
            n
        };
        let mut p: usize = range.start;
        while p < stop
            invariant
                k < ranges@.len(),
                range == ranges@[k as int],
                n == bytes@.len(),
                out@.len() == n,
                stop <= n,
                stop <= range.end,
                range.start <= p,
                p <= stop || p == range.start,
                forall|i: int|
                    0 <= i < n ==> out@[i] == if is_authed_by(ranges@, k as int, i) || (
                    range.start <= i < p) {
                        bytes@[i]
                    } else {
                        fill
                    },
            decreases stop - p,
        {
            out.set(p, bytes[p]);
            p = p + 1;
        }
        proof {
            assert forall|i: int| 0 <= i < n implies out@[i] == if is_authed_by(
                ranges@,
                k + 1,
                i,
            ) {
                bytes@[i]
            } else {
                fill
            } by {
                if is_authed_by(ranges@, k + 1, i) {
                    let w = choose|w: int|
                        0 <= w < k + 1 && w < ranges@.len() && covers(#[trigger] ranges@[w], i);
                    if w < k {
                        assert(is_authed_by(ranges@, k as int, i));
                    } else {
                        assert(covers(range, i));
                        assert(range.start <= i < p);
                    }
                } else {
                    assert(!covers(ranges@[k as int], i));
                    assert(!(range.start <= i < p));
                    if is_authed_by(ranges@, k as int, i) {
                        let w = choose|w: int|
                            0 <= w < k && w < ranges@.len() && covers(#[trigger] ranges@[w], i);
                        assert(covers(ranges@[w], i));
                    }
                }
            }
        }
        k = k + 1;
    }
    assert(out@ =~= redacted(bytes@, ranges@, fill));
    out
}

impl Transcript {
    /// Overwrites with `value` every byte, sent or received, that the proof
    /// does not authenticate.
    pub fn set_unauthed(&mut self, value: u8)
        ensures
            final(self).sent@ == redacted(old(self).sent@, old(self).sent_authed@, value),
            final(self).received@ == redacted(
                old(self).received@,
                old(self).received_authed@,
                value,
            ),
            final(self).sent_authed == old(self).sent_authed,
            final(self).received_authed == old(self).received_authed,
    {
        let sent = redact(&self.sent, &self.sent_authed, value);
        let received = redact(&self.received, &self.received_authed, value);
        self.sent = sent;
        self.received = received;
    }

    /// The sent bytes as they stand, authenticated or not.
    pub fn sent_unsafe(&self) -> (bytes: &Vec<u8>)
        ensures
            bytes@ == self.sent@,
    {
        &self.sent
    }

    /// The received bytes as they stand, authenticated or not.
    pub fn received_unsafe(&self) -> (bytes: &Vec<u8>)
        ensures
            bytes@ == self.received@,
    {
        &self.received
    }
}

/// Redacting leaves the length alone, keeps every authenticated byte and
/// shows `fill` everywhere else.
pub proof fn lemma_redacted_hides_unauthenticated(bytes: Seq<u8>, ranges: Seq<ByteRange>, fill: u8)
    ensures
        redacted(bytes, ranges, fill).len() == bytes.len(),
        forall|i: int|
            0 <= i < bytes.len() && is_authed(ranges, i) ==> #[trigger] redacted(
                bytes,
                ranges,
                fill,
            )[i] == bytes[i],
        forall|i: int|
            0 <= i < bytes.len() && !is_authed(ranges, i) ==> #[trigger] redacted(
                bytes,
                ranges,
                fill,
            )[i] == fill,
{
}

/// Redacting twice with the same ranges and byte changes nothing more.
pub proof fn lemma_redacted_idempotent(bytes: Seq<u8>, ranges: Seq<ByteRange>, fill: u8)
    ensures
        redacted(redacted(bytes, ranges, fill), ranges, fill) == redacted(bytes, ranges, fill),
{
    assert(redacted(redacted(bytes, ranges, fill), ranges, fill) =~= redacted(
        bytes,
        ranges,
        fill,
    ));
}

} // verus!
