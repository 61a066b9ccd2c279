//! Small string-building helpers: appending a character, rendering an
//! unsigned number in decimal, and decoding UTF-8 bytes.

use vstd::prelude::*;
use vstd::utf8::{decode_utf8, valid_utf8};

verus! {

/// Relies on `String::push`: appends exactly the one character.
#[verifier::external_body]
pub(crate) fn push_char(s: &mut String, c: char)
    ensures
        final(s)@ == old(s)@ + seq![c],
{
    s.push(c);
}

/// The decimal digit character for `d`.
pub open spec fn dec_digit(d: int) -> char
    recommends
        0 <= d < 10,
{
    ((0x30 + d) as u8) as char
}

/// The decimal rendering of `n`: most significant digit first, no sign,
/// no leading zero except for `n == 0` itself.
pub open spec fn spec_dec(n: nat) -> Seq<char>
    decreases n,
{
    if n < 10 {
        seq![dec_digit(n as int)]
    } else {
        spec_dec(n / 10) + seq![dec_digit((n % 10) as int)]
    }
}

fn dec_digit_char(d: u8) -> (c: char)
    requires
        d < 10,
    ensures
        c == dec_digit(d as int),
{
    (0x30 + d) as char
}

/// Renders `n` in decimal.
pub fn u64_to_string(n: u64) -> (r: String)
    ensures
        r@ == spec_dec(n as nat),
    decreases n,
{
    if n < 10 {
        let mut s = String::new();
        push_char(&mut s, dec_digit_char(n as u8));
        s
    } else {
        let mut s = u64_to_string(n / 10);
        push_char(&mut s, dec_digit_char((n % 10) as u8));
        s
    }
}

/// Relies on `std::str::from_utf8`: `Ok` exactly on well-formed UTF-8,
/// giving the decoded characters.
#[verifier::external_body]
pub(crate) fn utf8_to_string(bytes: &[u8]) -> (r: Option<String>)
    ensures
        r is Some <==> valid_utf8(bytes@),
        r matches Some(s) ==> s@ == decode_utf8(bytes@),
{
    match std::str::from_utf8(bytes) {
        Ok(s) => Some(s.to_string()),
        Err(_) => None,
    }
}

} // verus!
