//! Comparing and searching text and bytes.

use vstd::prelude::*;
use vstd::utf8::encode_utf8_decode_utf8;

verus! {

/// Whether `needle` occurs in `hay` as a contiguous run.
pub open spec fn spec_contains(hay: Seq<u8>, needle: Seq<u8>) -> bool {
    exists|start: int| spec_occurs_at(hay, needle, start)
}

/// Whether `needle` stands in `hay` at position `start`.
pub open spec fn spec_occurs_at(hay: Seq<u8>, needle: Seq<u8>, start: int) -> bool {
    &&& 0 <= start
    &&& start + needle.len() <= hay.len()
    &&& hay.subrange(start, start + needle.len()) == needle
}

/// Whether `needle` stands in `hay` at position `start`.
pub fn occurs_at(hay: &[u8], needle: &[u8], start: usize) -> (found: bool)
    ensures
        found == spec_occurs_at(hay@, needle@, start as int),
{
    if start > hay.len() || needle.len() > hay.len() - start {
        return false;
    }
    let mut i: usize = 0;
    while i < needle.len()
        invariant
            i <= needle.len(),
            start + needle.len() <= hay.len(),
            forall|j: int| 0 <= j < i ==> hay@[start + j] == needle@[j],
        decreases needle.len() - i,
    {
        if hay[start + i] != needle[i] {
            return false;
        }
        i = i + 1;
    }
    assert(hay@.subrange(start as int, start + needle@.len()) =~= needle@);
    true
}

/// Whether `needle` occurs anywhere in `hay`. The empty needle occurs in every
/// text.
pub fn contains(hay: &[u8], needle: &[u8]) -> (found: bool)
    ensures
        found == spec_contains(hay@, needle@),
{
    if needle.len() > hay.len() {
        return false;
    }
    let last: usize = hay.len() - needle.len();
    let mut start: usize = 0;
    while start < last
        invariant
            last == hay.len() - needle.len(),
            start <= last,
            forall|s: int| 0 <= s < start ==> !spec_occurs_at(hay@, needle@, s),
        decreases last - start,
    {
        if occurs_at(hay, needle, start) {
            return true;
        }
        start = start + 1;
    }
    occurs_at(hay, needle, last)
}

/// Whether `hay` begins with `prefix`.
pub open spec fn spec_starts_with(hay: Seq<u8>, prefix: Seq<u8>) -> bool {
    spec_occurs_at(hay, prefix, 0)
}

/// Whether `hay` begins with `prefix`.
pub fn starts_with(hay: &[u8], prefix: &[u8]) -> (found: bool)
    ensures
        found == spec_starts_with(hay@, prefix@),
{
    occurs_at(hay, prefix, 0)
}

/// Whether two byte strings are equal.
pub fn same_bytes(a: &[u8], b: &[u8]) -> (same: bool)
    ensures
        same == (a@ == b@),
{
    if a.len() != b.len() {
        return false;
    }
    let mut i: usize = 0;
    while i < a.len()
        invariant
            i <= a@.len(),
            a@.len() == b@.len(),
            forall|j: int| 0 <= j < i ==> a@[j] == b@[j],
        decreases a@.len() - i,
    {
        if a[i] != b[i] {
            return false;
        }
        i = i + 1;
    }
    assert(a@ =~= b@);
    true
}

/// Whether two strings hold the same characters.
pub fn same_text(a: &str, b: &str) -> (same: bool)
    ensures
        same == (a@ == b@),
{
    proof {
        encode_utf8_decode_utf8(a@);
        encode_utf8_decode_utf8(b@);
    }
    same_bytes(a.as_bytes(), b.as_bytes())
}

} // verus!
