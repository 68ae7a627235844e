//! The exchange-buffer protocol: terminator scanning and the bounded write
//! of the result text into a caller-owned wide-character buffer.

use vstd::prelude::*;

verus! {

/// Number of UTF-16 code units in the result text, terminator excluded.
pub const RESULT_LEN: usize = 13;

/// The result text this module produces for every command evaluation, as
/// UTF-16 code units: the thirteen characters of "Hello, world!", terminator
/// excluded.
pub open spec fn result_seq() -> Seq<u16> {
    seq![72u16, 101u16, 108u16, 108u16, 111u16, 44u16, 32u16, 119u16, 111u16, 114u16, 108u16, 100u16, 33u16]
}

/// A buffer is terminated when some position holds a null code unit.
pub open spec fn is_terminated(s: Seq<u16>) -> bool {
    exists|i: int| 0 <= i < s.len() && s[i] == 0
}

/// The terminated length of a buffer: the index of its first null code unit
/// (the whole length if none is present). This is the only size signal the
/// host supplies, and the bound on every write.
pub open spec fn term_len(s: Seq<u16>) -> int
    decreases s.len(),
{
    if s.len() == 0 {
        0
    } else if s[0] == 0 {
        0
    } else {
        1 + term_len(s.drop_first())
    }
}

/// The terminated length points at a null code unit, everything before it is
/// non-null, and it stays strictly inside a terminated buffer.
pub proof fn lemma_term_len(s: Seq<u16>)
    ensures
        0 <= term_len(s) <= s.len(),
        is_terminated(s) ==> term_len(s) < s.len() && s[term_len(s)] == 0,
        forall|j: int| 0 <= j < term_len(s) ==> s[j] != 0,
    decreases s.len(),
{
    if s.len() == 0 {
    } else if s[0] == 0 {
    } else {
        let rest = s.drop_first();
        lemma_term_len(rest);
        if is_terminated(s) {
            let i = choose|i: int| 0 <= i < s.len() && s[i] == 0;
            assert(rest[i - 1] == s[i]);
            assert(is_terminated(rest));
            assert(s[term_len(s)] == rest[term_len(rest)]);
        }
        assert forall|j: int| 0 <= j < term_len(s) implies s[j] != 0 by {
            if j > 0 {
                assert(rest[j - 1] == s[j]);
            }
        }
    }
}

/// Scans forward from the start of the buffer to its existing null
/// terminator and returns the terminated length.
pub fn scan_terminated_len(data: &Vec<u16>) -> (r: usize)
    requires
        is_terminated(data@),
    ensures
        r as int == term_len(data@),
        r < data.len(),
        data@[r as int] == 0,
        forall|j: int| 0 <= j < r ==> data@[j] != 0,
{
    proof {
        lemma_term_len(data@);
    }
    let n = data.len();
    let mut i: usize = 0;
    while data[i] != 0
        invariant
            is_terminated(data@),
            0 <= i <= term_len(data@),
            n == data@.len(),
            term_len(data@) < n,
            data@[term_len(data@)] == 0,
            forall|j: int| 0 <= j < term_len(data@) ==> data@[j] != 0,
        decreases term_len(data@) - i,
    {
        i = i + 1;
    }
    i
}

/// The single bounded-write helper: every store into the caller's buffer
/// goes through here, and `limit` — the pre-write terminated length — is
/// enforced as the write bound in this one place.
///
/// It first zeroes the tail from the end of the result text through the
/// position just before `limit` (the host keeps stale code units past a new
/// terminator visible otherwise, so the whole previously-terminated region
/// is cleared against the pre-write length), then copies the result text
/// over the start of the buffer.
pub(crate) fn write_result_bounded(data: &mut Vec<u16>, result: &Vec<u16>, limit: usize)
    requires
        result@.len() <= limit,
        limit < old(data)@.len(),
        old(data)@[limit as int] == 0,
    ensures
        final(data)@.len() == old(data)@.len(),
        forall|k: int| 0 <= k < result@.len() ==> final(data)@[k] == result@[k],
        forall|k: int| result@.len() <= k <= limit ==> final(data)@[k] == 0,
        forall|k: int| limit < k < old(data)@.len() ==> final(data)@[k] == old(data)@[k],
{
    let mut i: usize = result.len();
    while i < limit
        invariant
            result@.len() <= i <= limit,
            limit < data@.len(),
            data@.len() == old(data)@.len(),
            forall|k: int| 0 <= k < result@.len() ==> data@[k] == old(data)@[k],
            forall|k: int| result@.len() <= k < i ==> data@[k] == 0,
            forall|k: int| i <= k < data@.len() ==> data@[k] == old(data)@[k],
        decreases limit - i,
    {
        data.set(i, 0);
        i = i + 1;
    }
    let mut j: usize = 0;
    while j < result.len()
        invariant
            0 <= j <= result@.len(),
            result@.len() <= limit < data@.len(),
            data@.len() == old(data)@.len(),
            forall|k: int| 0 <= k < j ==> data@[k] == result@[k],
            forall|k: int| result@.len() <= k < limit ==> data@[k] == 0,
            forall|k: int| limit <= k < data@.len() ==> data@[k] == old(data)@[k],
        decreases result@.len() - j,
    {
        let val = result[j];
        data.set(j, val);
        j = j + 1;
    }
}

/// Builds the result text as an owned vector of UTF-16 code units.
pub fn result_text() -> (r: Vec<u16>)
    ensures
        r@ == result_seq(),
        r@.len() == RESULT_LEN,
{
    let mut v: Vec<u16> = Vec::new();
    v.push(72);
    v.push(101);
    v.push(108);
    v.push(108);
    v.push(111);
    v.push(44);
    v.push(32);
    v.push(119);
    v.push(111);
    v.push(114);
    v.push(108);
    v.push(100);
    v.push(33);
    proof {
        assert(v@ =~= result_seq());
    }
    v
}

} // verus!
