//! Text helpers shared by the decoders.

use vstd::prelude::*;
use vstd::string::{StringExecFns, StringSliceAdditionalSpecFns};
use vstd::utf8::{decode_utf8, encode_utf8, encode_utf8_decode_utf8};

verus! {

/// Two texts with the same UTF-8 encoding hold the same characters.
pub proof fn lemma_same_encoding_same_text(a: Seq<char>, b: Seq<char>)
    requires
        encode_utf8(a) == encode_utf8(b),
    ensures
        a == b,
{
    encode_utf8_decode_utf8(a);
    encode_utf8_decode_utf8(b);
    assert(a == decode_utf8(encode_utf8(a)));
    assert(b == decode_utf8(encode_utf8(b)));
}

/// Tells whether two texts hold the same characters.
pub fn same_text(a: &str, b: &str) -> (same: bool)
    ensures
        same == (a@ == b@),
{
    let x = a.as_bytes();
    let y = b.as_bytes();
    if x.len() != y.len() {
        return false;
    }
    let mut i: usize = 0;
    while i < x.len()
        invariant
            i <= x.len(),
            x.len() == y.len(),
            x@ == a.spec_bytes(),
            y@ == b.spec_bytes(),
            forall|k: int| 0 <= k < i ==> x@[k] == y@[k],
        decreases x.len() - i,
    {
        if x[i] != y[i] {
            return false;
        }
        i = i + 1;
    }
    proof {
        assert(x@ =~= y@);
        lemma_same_encoding_same_text(a@, b@);
    }
    true
}

/// What a failed decode reports: a fixed prefix, then the rejected text.
pub open spec fn parse_error_text(rejected: Seq<char>) -> Seq<char> {
    "Parse Error "@ + rejected
}

/// Words the report of a failed decode.
pub fn parse_error(rejected: &str) -> (message: String)
    ensures
        message@ == parse_error_text(rejected@),
{
    "Parse Error ".to_owned().concat(rejected)
}

} // verus!
