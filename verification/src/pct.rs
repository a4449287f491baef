//! Percent-encoding as the remote service expects it: every byte that is not
//! an ASCII letter or digit becomes `%XX` with upper-case hex digits. The
//! encoding itself is performed by the `percent-encoding` crate; this module
//! pins down exactly what that call returns.

use vstd::prelude::*;

verus! {

/// Whether a byte is an ASCII letter or digit.
pub open spec fn is_alnum_byte(b: u8) -> bool {
    (48 <= b <= 57) || (65 <= b <= 90) || (97 <= b <= 122)
}

/// Upper-case hexadecimal digit of a value below 16.
pub open spec fn hex_digit(n: int) -> u8 {
    if n < 10 {
        (48 + n) as u8
    } else {
        (55 + n) as u8
    }
}

/// Percent-encoding of a single byte: letters and digits pass through, every
/// other byte becomes `%XX` with upper-case hex digits.
pub open spec fn pct_byte(b: u8) -> Seq<u8> {
    if is_alnum_byte(b) {
        seq![b]
    } else {
        seq![37u8, hex_digit(b as int / 16), hex_digit(b as int % 16)]
    }
}

/// Percent-encoding of a byte sequence, byte by byte in order.
pub open spec fn pct(s: Seq<u8>) -> Seq<u8>
    decreases s.len(),
{
    if s.len() == 0 {
        Seq::empty()
    } else {
        pct_byte(s[0]) + pct(s.drop_first())
    }
}

/// Percent-encode a byte string with the non-alphanumeric reserved set.
///
/// Relies on `percent_encoding::percent_encode` with the `NON_ALPHANUMERIC`
/// set: every byte outside ASCII letters and digits (non-ASCII bytes
/// included) is written as `%XX` with upper-case hex digits, in input order;
/// letters and digits pass through unchanged.
#[verifier::external_body]
pub fn percent_encode_bytes(b: &Vec<u8>) -> (r: Vec<u8>)
    ensures
        r@ == pct(b@),
{
    percent_encoding::percent_encode(b.as_slice(), percent_encoding::NON_ALPHANUMERIC)
        .to_string()
        .into_bytes()
}

} // verus!
