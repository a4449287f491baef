//! Upper-case hexadecimal rendering of byte strings, used to put a message
//! digest on the wire: two digits per byte, most significant first.

use vstd::prelude::*;
use crate::pct::hex_digit;
use crate::strutil::chars_of_bytes;

verus! {

/// Upper-case hex rendering of a byte sequence: two digits per byte.
pub open spec fn hex_upper(s: Seq<u8>) -> Seq<u8> {
    Seq::new(
        2 * s.len(),
        |i: int|
            if i % 2 == 0 {
                hex_digit(s[i / 2] as int / 16)
            } else {
                hex_digit(s[i / 2] as int % 16)
            },
    )
}

/// Whether a character is an upper-case hexadecimal digit.
pub open spec fn is_upper_hex_char(c: char) -> bool {
    ('0' <= c <= '9') || ('A' <= c <= 'F')
}

/// Every character of a hex rendering is an upper-case hex digit.
pub proof fn lemma_hex_upper_chars(s: Seq<u8>)
    ensures
        chars_of_bytes(hex_upper(s)).len() == 2 * s.len(),
        forall|i: int| 0 <= i < 2 * s.len()
            ==> is_upper_hex_char(#[trigger] chars_of_bytes(hex_upper(s))[i]),
{
    assert forall|i: int| 0 <= i < 2 * s.len() implies is_upper_hex_char(
        chars_of_bytes(hex_upper(s))[i],
    ) by {
        let b = hex_upper(s)[i];
        assert(48 <= b <= 57 || 65 <= b <= 70);
    }
}

/// Render bytes as upper-case hex, two digits per byte.
pub fn hex_upper_bytes(b: &Vec<u8>) -> (r: Vec<u8>)
    ensures
        r@ == hex_upper(b@),
{
    let mut r: Vec<u8> = Vec::new();
    let mut i: usize = 0;
    while i < b.len()
        invariant
            0 <= i <= b@.len(),
            r@ =~= hex_upper(b@).subrange(0, 2 * i as int),
        decreases b@.len() - i,
    {
        let x = b[i];
        let hi = x / 16;
        let lo = x % 16;
        r.push(if hi < 10 { 48 + hi } else { 55 + hi });
        r.push(if lo < 10 { 48 + lo } else { 55 + lo });
        i += 1;
        assert(r@ =~= hex_upper(b@).subrange(0, 2 * i as int));
    }
    assert(r@ =~= hex_upper(b@));
    r
}

} // verus!
