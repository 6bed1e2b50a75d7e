//! Comparisons of string slices by their UTF-8 bytes.

use vstd::prelude::*;
use vstd::string::StringSliceAdditionalSpecFns;
use vstd::utf8::{decode_utf8, encode_utf8, encode_utf8_decode_utf8};

verus! {

/// The UTF-8 bytes of `prefix` are the leading bytes of `text`.
pub open spec fn has_prefix(text: Seq<char>, prefix: Seq<char>) -> bool {
    encode_utf8(prefix).is_prefix_of(encode_utf8(text))
}

/// Two character sequences with the same UTF-8 bytes are the same sequence.
pub proof fn same_bytes_same_text(a: Seq<char>, b: Seq<char>)
    requires
        encode_utf8(a) == encode_utf8(b),
    ensures
        a == b,
{
    encode_utf8_decode_utf8(a);
    encode_utf8_decode_utf8(b);
    assert(decode_utf8(encode_utf8(a)) == decode_utf8(encode_utf8(b)));
}

/// Every text has the empty prefix.
pub proof fn empty_prefix_of_any(text: Seq<char>, prefix: Seq<char>)
    requires
        prefix.len() == 0,
    ensures
        has_prefix(text, prefix),
{
    assert(encode_utf8(prefix) =~= Seq::<u8>::empty());
}

/// Byte-wise, case-sensitive prefix test.
pub fn starts_with(text: &str, prefix: &str) -> (found: bool)
    ensures
        found == has_prefix(text@, prefix@),
{
    let whole = text.as_bytes();
    let lead = prefix.as_bytes();
    if lead.len() > whole.len() {
        return false;
    }
    let mut i: usize = 0;
    while i < lead.len()
        invariant
            i <= lead@.len() <= whole@.len(),
            whole@ == encode_utf8(text@),
            lead@ == encode_utf8(prefix@),
            forall|j: int| 0 <= j < i ==> whole@[j] == lead@[j],
        decreases lead@.len() - i,
    {
        if whole[i] != lead[i] {
            assert(lead@[i as int] != whole@.subrange(0, lead@.len() as int)[i as int]);
            return false;
        }
        i += 1;
    }
    assert(lead@ =~= whole@.subrange(0, lead@.len() as int));
    true
}

/// Whether two string slices hold the same characters.
pub fn same_text(a: &str, b: &str) -> (same: bool)
    ensures
        same == (a@ == b@),
{
    let left = a.as_bytes();
    let right = b.as_bytes();
    if left.len() != right.len() {
        return false;
    }
    let mut i: usize = 0;
    while i < left.len()
        invariant
            i <= left@.len() == right@.len(),
            left@ == encode_utf8(a@),
            right@ == encode_utf8(b@),
            forall|j: int| 0 <= j < i ==> left@[j] == right@[j],
        decreases left@.len() - i,
    {
        if left[i] != right[i] {
            return false;
        }
        i += 1;
    }
    proof {
        assert(left@ =~= right@);
        same_bytes_same_text(a@, b@);
    }
    true
}

} // verus!
