//! Small operations on strings: the longer of two, and lengths in bytes.
use vstd::prelude::*;
use vstd::utf8::encode_utf8;

verus! {

/// The number of bytes of `s` in UTF-8.
pub open spec fn byte_len(s: Seq<char>) -> usize {
    encode_utf8(s).len() as usize
}

/// The decimal digit `d`.
pub open spec fn digit_char(d: nat) -> char {
    seq!['0', '1', '2', '3', '4', '5', '6', '7', '8', '9'][d as int]
}

/// The decimal form of `n`, without leading zeros.
pub open spec fn decimal(n: nat) -> Seq<char>
    decreases n,
{
    if n < 10 {
        seq![digit_char(n)]
    } else {
        decimal(n / 10).push(digit_char(n % 10))
    }
}

/// Relies on `usize::to_string`, that is `Display` for integers: the
/// decimal form of `n`.
#[verifier::external_body]
fn usize_to_string(n: usize) -> (r: String)
    ensures
        r@ == decimal(n as nat),
{
    n.to_string()
}

/// The one of `x` and `y` with more bytes; `y` when they have as many.
pub fn longest<'a>(x: &'a str, y: &'a str) -> (r: &'a str)
    ensures
        r@ == (if byte_len(x@) > byte_len(y@) {
            x@
        } else {
            y@
        }),
{
    if x.len() > y.len() {
        x
    } else {
        y
    }
}

/// The length of `s` in bytes, handing `s` back.
pub fn calculate_length(s: String) -> (r: (usize, String))
    ensures
        r.0 == byte_len(s@),
        r.1@ == s@,
{
    (s.as_str().len(), s)
}

/// The length of `s` in bytes.
pub fn length(s: &String) -> (r: usize)
    ensures
        r == byte_len(s@),
{
    s.as_str().len()
}

/// Appends to `s` the decimal form of its own length in bytes.
pub fn append_length(s: &mut String)
    ensures
        final(s)@ == old(s)@ + decimal(byte_len(old(s)@) as nat),
{
    let length_string = usize_to_string(s.as_str().len());
    s.append(length_string.as_str());
}

} // verus!
