//! Small helpers on strings and their views.

use vstd::prelude::*;
use vstd::string::*;
use vstd::utf8::{encode_utf8, encode_utf8_decode_utf8};

verus! {

/// A short fingerprint of a string: its length and three of its characters.
/// Two strings with different fingerprints are different strings, which is
/// how the fixed names of the wire format are told apart in proofs.
pub open spec fn sig(s: Seq<char>) -> (nat, char, char, char) {
    (
        s.len(),
        if s.len() > 0 {
            s[0]
        } else {
            ' '
        },
        if s.len() > 1 {
            s[1]
        } else {
            ' '
        },
        if s.len() > 5 {
            s[5]
        } else {
            ' '
        },
    )
}

/// Two texts with the same bytes are the same text.
pub proof fn lemma_same_bytes_same_text(a: Seq<char>, b: Seq<char>)
    requires
        encode_utf8(a) == encode_utf8(b),
    ensures
        a == b,
{
    encode_utf8_decode_utf8(a);
    encode_utf8_decode_utf8(b);
}

/// Whether two string slices hold the same characters in the same order.
/// The slices are compared byte by byte.
pub(crate) fn str_eq(a: &str, b: &str) -> (same: bool)
    ensures
        same == (a@ == b@),
{
    let left = a.as_bytes();
    let right = b.as_bytes();
    if left.len() != right.len() {
        return false;
    }
    let mut i: usize = 0;
    while i < left.len()
        invariant
            i <= left.len(),
            left.len() == right.len(),
            left@ == encode_utf8(a@),
            right@ == encode_utf8(b@),
            forall|j: int| 0 <= j < i ==> left@[j] == right@[j],
        decreases left.len() - i,
    {
        if left[i] != right[i] {
            return false;
        }
        i += 1;
    }
    proof {
        assert(left@ =~= right@);
        lemma_same_bytes_same_text(a@, b@);
    }
    true
}

/// An owned copy of a string slice.
pub(crate) fn owned(s: &str) -> (copy: String)
    ensures
        copy@ == s@,
{
    s.to_owned()
}

} // verus!
