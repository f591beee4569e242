//! Byte-level text helpers: string equality, ASCII lowercasing and
//! substring search over the UTF-8 bytes of a string.

use vstd::prelude::*;
use vstd::string::*;
use vstd::utf8::*;

verus! {

/// Two strings are equal exactly when their UTF-8 encodings are.
pub proof fn lemma_bytes_eq_implies_chars_eq(a: Seq<char>, b: Seq<char>)
    requires
        encode_utf8(a) == encode_utf8(b),
    ensures
        a == b,
{
    encode_utf8_decode_utf8(a);
    encode_utf8_decode_utf8(b);
}

/// Compares two strings.
pub fn str_eq(a: &str, b: &str) -> (eq: bool)
    ensures
        eq == (a@ == b@),
{
    let ab = a.as_bytes();
    let bb = b.as_bytes();
    if ab.len() != bb.len() {
        return false;
    }
    let mut i: usize = 0;
    while i < ab.len()
        invariant
            ab@ == a.spec_bytes(),
            bb@ == b.spec_bytes(),
            ab@.len() == bb@.len(),
            i <= ab@.len(),
            forall|j: int| 0 <= j < i ==> ab@[j] == bb@[j],
        decreases ab@.len() - i,
    {
        if ab[i] != bb[i] {
            return false;
        }
        i = i + 1;
    }
    proof {
        assert(ab@ =~= bb@);
        lemma_bytes_eq_implies_chars_eq(a@, b@);
    }
    true
}

/// The ASCII lowercase of a byte: `A`..=`Z` become `a`..=`z`, every other
/// byte stays.
pub open spec fn spec_ascii_lower_byte(b: u8) -> u8 {
    if 65 <= b <= 90 {
        (b + 32) as u8
    } else {
        b
    }
}

/// The ASCII lowercase of a byte string.
pub open spec fn spec_ascii_lower(bytes: Seq<u8>) -> Seq<u8> {
    bytes.map_values(|b: u8| spec_ascii_lower_byte(b))
}

/// `needle` occurs in `haystack` at position `i`.
pub open spec fn occurs_at(haystack: Seq<u8>, needle: Seq<u8>, i: int) -> bool {
    0 <= i && i + needle.len() <= haystack.len() && haystack.subrange(i, i + needle.len()) == needle
}

/// `needle` occurs somewhere in `haystack`.
pub open spec fn contains_bytes(haystack: Seq<u8>, needle: Seq<u8>) -> bool {
    exists|i: int| occurs_at(haystack, needle, i)
}

/// Lowercases the ASCII letters of a byte string.
pub fn ascii_lower_bytes(bytes: &[u8]) -> (lower: Vec<u8>)
    ensures
        lower@ == spec_ascii_lower(bytes@),
{
    let mut lower: Vec<u8> = Vec::new();
    let mut i: usize = 0;
    while i < bytes.len()
        invariant
            i <= bytes@.len(),
            lower@ == spec_ascii_lower(bytes@.subrange(0, i as int)),
        decreases bytes@.len() - i,
    {
        let b = bytes[i];
        let l = if 65 <= b && b <= 90 {
            b + 32
        } else {
            b
        };
        lower.push(l);
        proof {
            assert(bytes@.subrange(0, i + 1) =~= bytes@.subrange(0, i as int).push(b));
            assert(lower@ =~= spec_ascii_lower(bytes@.subrange(0, i + 1)));
        }
        i = i + 1;
    }
    proof {
        assert(bytes@.subrange(0, bytes@.len() as int) =~= bytes@);
    }
    lower
}

/// Tells whether `needle` occurs at position `i` of `haystack`.
fn matches_at(haystack: &[u8], needle: &[u8], i: usize) -> (m: bool)
    requires
        i + needle@.len() <= haystack@.len(),
    ensures
        m == occurs_at(haystack@, needle@, i as int),
{
    let hay_len: usize = haystack.len();
    let mut j: usize = 0;
    while j < needle.len()
        invariant
            i + needle@.len() <= haystack@.len(),
            haystack@.len() == hay_len,
            j <= needle@.len(),
            forall|k: int| 0 <= k < j ==> haystack@[i + k] == needle@[k],
        decreases needle@.len() - j,
    {
        if haystack[i + j] != needle[j] {
            proof {
                assert(haystack@.subrange(i as int, i + needle@.len())[j as int] != needle@[j as int]);
            }
            return false;
        }
        j = j + 1;
    }
    proof {
        assert(haystack@.subrange(i as int, i + needle@.len()) =~= needle@);
    }
    true
}

/// Tells whether `needle` occurs in `haystack`.
pub fn contains_subslice(haystack: &[u8], needle: &[u8]) -> (found: bool)
    ensures
        found == contains_bytes(haystack@, needle@),
{
    if needle.len() > haystack.len() {
        proof {
            assert forall|i: int| !occurs_at(haystack@, needle@, i) by {}
        }
        return false;
    }
    if needle.len() == 0 {
        proof {
            assert(haystack@.subrange(0, 0) =~= needle@);
            assert(occurs_at(haystack@, needle@, 0));
        }
        return true;
    }
    let last = haystack.len() - needle.len();
    let mut i: usize = 0;
    while i <= last
        invariant
            last + needle@.len() == haystack@.len(),
            haystack@.len() <= usize::MAX,
            needle@.len() > 0,
            i <= last + 1,
            forall|k: int| 0 <= k < i ==> !occurs_at(haystack@, needle@, k),
        decreases last + 1 - i,
    {
        if matches_at(haystack, needle, i) {
            return true;
        }
        i = i + 1;
    }
    proof {
        assert forall|k: int| !occurs_at(haystack@, needle@, k) by {
            if 0 <= k && k + needle@.len() <= haystack@.len() {
                assert(k < i);
            }
        }
    }
    false
}

} // verus!
