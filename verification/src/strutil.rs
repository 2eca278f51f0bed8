use vstd::prelude::*;
use vstd::string::StringExecFns;
use vstd::utf8::encode_scalar;
use vstd::utf8::encode_utf8;

verus! {

broadcast use vstd::slice::axiom_spec_len;

/// The UTF-8 byte length of a text, as `str::len` counts it.
pub open spec fn byte_len(s: Seq<char>) -> nat {
    encode_utf8(s).len()
}

/// Measure a string's byte length.
pub fn str_byte_len(s: &str) -> (n: usize)
    ensures
        n == byte_len(s@),
{
    s.as_bytes().len()
}

/// A text of more than four bytes holds at least two characters: one character
/// encodes to at most four bytes.
pub proof fn lemma_long_bytes_two_chars(s: Seq<char>)
    ensures
        byte_len(s) > 4 ==> s.len() >= 2,
{
    if s.len() == 0 {
        assert(byte_len(s) == 0);
    } else if s.len() == 1 {
        assert(encode_utf8(s) == encode_scalar(s[0] as u32) + encode_utf8(s.drop_first()));
        assert(s.drop_first().len() == 0);
        assert(encode_utf8(s.drop_first()).len() == 0);
        assert(encode_scalar(s[0] as u32).len() <= 4);
    }
}

/// Character-wise equality of two string slices.
pub fn str_eq(a: &str, b: &str) -> (r: bool)
    ensures
        r == (a@ == b@),
{
    let sa = String::from_str(a);
    let sb = String::from_str(b);
    sa == sb
}

/// Join two texts with the " - " separator the player bus uses in composite names.
pub fn dash_join(a: &str, b: &str) -> (r: String)
    ensures
        r@ == a@ + " - "@ + b@,
{
    let mut r = String::from_str(a);
    r.append(" - ");
    r.append(b);
    r
}

} // verus!
