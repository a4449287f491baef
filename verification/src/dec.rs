//! Verified decimal rendering and parsing for the integer-backed identifier
//! scalars: canonical digit strings, a signed parser with exact overflow
//! behaviour, and the round-trip facts the identifier codec builds on.

use vstd::prelude::*;
use crate::strutil::chars_of_bytes;

verus! {

/// Whether a byte is an ASCII decimal digit.
pub open spec fn is_digit_byte(b: u8) -> bool {
    48 <= b <= 57
}

/// Whether a character is an ASCII decimal digit.
pub open spec fn is_digit_char(c: char) -> bool {
    '0' <= c <= '9'
}

/// Whether every character of `s` is an ASCII decimal digit.
pub open spec fn all_digits(s: Seq<char>) -> bool {
    forall|i: int| 0 <= i < s.len() ==> is_digit_char(#[trigger] s[i])
}

/// Canonical decimal digit bytes of a natural number (no sign, no leading
/// zeros except for zero itself).
pub open spec fn dec_digits(n: nat) -> Seq<u8>
    decreases n,
{
    if n < 10 {
        seq![(n + 48) as u8]
    } else {
        dec_digits(n / 10) + seq![((n % 10) + 48) as u8]
    }
}

/// Canonical decimal byte rendering of an integer: a `-` sign for negative
/// values, then the magnitude's digits.
pub open spec fn dec_int(n: int) -> Seq<u8> {
    if n < 0 {
        seq![45u8] + dec_digits((-n) as nat)
    } else {
        dec_digits(n as nat)
    }
}

/// Canonical decimal character rendering of an integer.
pub open spec fn dec_int_chars(n: int) -> Seq<char> {
    chars_of_bytes(dec_int(n))
}

/// Numeric value of a digit string, most significant digit first.
pub open spec fn digits_val(s: Seq<char>) -> int
    decreases s.len(),
{
    if s.len() == 0 {
        0
    } else {
        digits_val(s.drop_last()) * 10 + (s.last() as int - 48)
    }
}

/// What parsing a signed 32-bit decimal means: an optional single `+` or `-`
/// sign, then one or more digits, rejected when empty, non-numeric, or out of
/// the representable range.
pub open spec fn spec_parse_i32(s: Seq<char>) -> Option<i32> {
    let neg = s.len() > 0 && s[0] == '-';
    let body = if s.len() > 0 && (s[0] == '-' || s[0] == '+') {
        s.drop_first()
    } else {
        s
    };
    if body.len() == 0 || !all_digits(body) {
        None
    } else {
        let v = digits_val(body);
        if neg {
            if v <= 0x8000_0000 {
                Some((-v) as i32)
            } else {
                None
            }
        } else {
            if v <= 0x7fff_ffff {
                Some(v as i32)
            } else {
                None
            }
        }
    }
}

/// Append the canonical digits of `n` to a byte vector.
pub fn push_dec_u64(v: &mut Vec<u8>, n: u64)
    ensures
        final(v)@ == old(v)@ + dec_digits(n as nat),
    decreases n,
{
    if n < 10 {
        v.push((n as u8) + 48);
        assert(final(v)@ =~= old(v)@ + dec_digits(n as nat));
    } else {
        push_dec_u64(v, n / 10);
        v.push(((n % 10) as u8) + 48);
        assert(final(v)@ =~= old(v)@ + dec_digits(n as nat));
    }
}

/// Append the canonical decimal rendering of `n` to a byte vector.
pub fn push_dec_i64(v: &mut Vec<u8>, n: i64)
    ensures
        final(v)@ == old(v)@ + dec_int(n as int),
{
    if n < 0 {
        v.push(45);
        let mag: u64 = if n == i64::MIN {
            9223372036854775808u64
        } else {
            (-n) as u64
        };
        assert(mag as nat == (-(n as int)) as nat);
        push_dec_u64(v, mag);
        assert(final(v)@ =~= old(v)@ + dec_int(n as int));
    } else {
        push_dec_u64(v, n as u64);
    }
}

/// Decimal digits of a natural number, as characters.
pub fn dec_u64_chars(n: u64) -> (r: Vec<char>)
    ensures
        r@ == chars_of_bytes(dec_digits(n as nat)),
{
    let mut b: Vec<u8> = Vec::new();
    push_dec_u64(&mut b, n);
    assert(b@ =~= dec_digits(n as nat));
    crate::strutil::bytes_to_chars(&b)
}

/// Canonical decimal rendering of a signed integer, as characters.
pub fn dec_i64_chars(n: i64) -> (r: Vec<char>)
    ensures
        r@ == dec_int_chars(n as int),
{
    let mut b: Vec<u8> = Vec::new();
    push_dec_i64(&mut b, n);
    assert(b@ =~= dec_int(n as int));
    crate::strutil::bytes_to_chars(&b)
}

/// Parse a signed 32-bit decimal from characters, rejecting malformed or
/// out-of-range text exactly as `spec_parse_i32` says.
pub fn parse_i32_chars(v: &Vec<char>) -> (r: Option<i32>)
    ensures
        r == spec_parse_i32(v@),
{
    let n = v.len();
    let mut start: usize = 0;
    let mut neg = false;
    if n > 0 && (v[0] == '-' || v[0] == '+') {
        neg = v[0] == '-';
        start = 1;
    }
    let ghost body = if v@.len() > 0 && (v@[0] == '-' || v@[0] == '+') {
        v@.drop_first()
    } else {
        v@
    };
    assert(body =~= v@.subrange(start as int, n as int));
    if start == n {
        return None;
    }
    let limit: u64 = if neg {
        0x8000_0000
    } else {
        0x7fff_ffff
    };
    let mut acc: u64 = 0;
    let mut big = false;
    let mut j: usize = start;
    while j < n
        invariant
            start <= j <= n,
            n == v@.len(),
            start < n,
            body == (if v@.len() > 0 && (v@[0] == '-' || v@[0] == '+') {
                v@.drop_first()
            } else {
                v@
            }),
            neg == (v@.len() > 0 && v@[0] == '-'),
            body =~= v@.subrange(start as int, n as int),
            limit == if neg { 0x8000_0000u64 } else { 0x7fff_ffffu64 },
            forall|k: int| 0 <= k < j - start ==> is_digit_char(#[trigger] body[k]),
            !big ==> acc as int == digits_val(body.subrange(0, j - start)) && acc <= limit,
            big ==> digits_val(body.subrange(0, j - start)) > limit,
        decreases n - j,
    {
        let c = v[j];
        if !('0' <= c && c <= '9') {
            assert(body[j - start] == c && !is_digit_char(c));
            assert(!all_digits(body));
            return None;
        }
        let d: u64 = (c as u8 - 48) as u64;
        proof {
            let pre = body.subrange(0, j - start);
            let post = body.subrange(0, j + 1 - start);
            assert(post.drop_last() =~= pre);
            assert(post.last() == c);
            assert(digits_val(post) == digits_val(pre) * 10 + d);
        }
        if big {
            proof {
                let pre = body.subrange(0, j - start);
                assert(digits_val(pre) > limit);
                assert(digits_val(pre) * 10 + d > limit) by (nonlinear_arith)
                    requires
                        digits_val(pre) > limit,
                        d >= 0,
                        limit >= 0,
                ;
            }
        } else {
            let next = acc * 10 + d;
            if next > limit {
                big = true;
            } else {
                acc = next;
            }
        }
        j += 1;
    }
    assert(body =~= body.subrange(0, n - start as int));
    assert(all_digits(body));
    if big {
        assert(digits_val(body) > limit);
        return None;
    }
    if neg {
        let r = -(acc as i64);
        assert(r as int == -(digits_val(body)));
        Some(r as i32)
    } else {
        Some(acc as i32)
    }
}

/// The canonical digits of `n` are digits, at least one of them.
pub proof fn lemma_dec_digits_shape(n: nat)
    ensures
        dec_digits(n).len() >= 1,
        forall|i: int| 0 <= i < dec_digits(n).len() ==> is_digit_byte(#[trigger] dec_digits(n)[i]),
    decreases n,
{
    if n >= 10 {
        lemma_dec_digits_shape(n / 10);
    }
}

/// Reading the canonical digits back gives the number they were made from.
pub proof fn lemma_digits_val_dec_digits(n: nat)
    ensures
        digits_val(chars_of_bytes(dec_digits(n))) == n,
    decreases n,
{
    if n < 10 {
        let s = chars_of_bytes(dec_digits(n));
        assert(s.len() == 1);
        assert(s[0] == ((n + 48) as u8) as char);
        assert(s.drop_last() =~= Seq::<char>::empty());
        assert(digits_val(s.drop_last()) == 0);
        assert(s.last() == s[0]);
        assert(digits_val(s) == (s.last() as int) - 48);
        assert(digits_val(s) == n);
    } else {
        lemma_digits_val_dec_digits(n / 10);
        let s = chars_of_bytes(dec_digits(n));
        let pre = chars_of_bytes(dec_digits(n / 10));
        assert(s.drop_last() =~= pre);
        assert(s.last() as int == (n % 10) + 48);
        assert(digits_val(s) == (n / 10) * 10 + n % 10);
        assert((n / 10) * 10 + n % 10 == n) by (nonlinear_arith);
    }
}

/// Round trip: parsing the canonical rendering of any 32-bit value yields
/// that value back.
pub proof fn lemma_parse_dec_round_trip(n: i32)
    ensures
        spec_parse_i32(dec_int_chars(n as int)) == Some(n),
{
    let s = dec_int_chars(n as int);
    if n < 0 {
        let mag = (-(n as int)) as nat;
        lemma_dec_digits_shape(mag);
        lemma_digits_val_dec_digits(mag);
        let body = chars_of_bytes(dec_digits(mag));
        assert(s[0] == '-');
        assert(s.drop_first() =~= body);
        assert(all_digits(body));
        assert(digits_val(body) == mag);
        assert(mag <= 0x8000_0000);
        assert(spec_parse_i32(s) == Some(((-(mag as int))) as i32));
        assert(((-(mag as int))) as i32 == n);
    } else {
        lemma_dec_digits_shape(n as nat);
        lemma_digits_val_dec_digits(n as nat);
        assert(s =~= chars_of_bytes(dec_digits(n as nat)));
        assert(is_digit_byte(dec_int(n as int)[0]));
        assert(s[0] != '-' && s[0] != '+');
        assert(all_digits(s));
        assert(digits_val(s) == n);
        assert(spec_parse_i32(s) == Some((n as int) as i32));
    }
}

} // verus!
