//! Text taken from raw bytes: UTF-8 decoding, and reading decimal numbers.

use std::str::Utf8Error;
use vstd::prelude::*;
use vstd::utf8::encode_utf8;
use vstd::utf8::encode_utf8_decode_utf8;
use vstd::utf8::valid_utf8;

verus! {

/// The value of a decimal digit, or `None` for any other character.
pub open spec fn digit_value(c: char) -> Option<int> {
    if '0' <= c && c <= '9' {
        Some(c as int - '0' as int)
    } else {
        None
    }
}

/// The number that a non-empty run of decimal digits denotes; `None` where
/// `s` is empty or holds anything but digits.
pub open spec fn digits_value(s: Seq<char>) -> Option<int>
    decreases s.len(),
{
    if s.len() == 0 {
        None
    } else {
        match digit_value(s.last()) {
            None => None,
            Some(d) => if s.len() == 1 {
                Some(d)
            } else {
                match digits_value(s.drop_last()) {
                    None => None,
                    Some(high) => Some(10 * high + d),
                }
            },
        }
    }
}

/// The integer that `s` denotes as an optional sign followed by decimal
/// digits, with nothing before, between or after them.
pub open spec fn signed_decimal(s: Seq<char>) -> Option<int> {
    if s.len() > 0 && s[0] == '-' {
        match digits_value(s.skip(1)) {
            Some(v) => Some(-v),
            None => None,
        }
    } else if s.len() > 0 && s[0] == '+' {
        digits_value(s.skip(1))
    } else {
        digits_value(s)
    }
}

/// The `i64` that `s` denotes: `signed_decimal` where it fits in 64 bits.
pub open spec fn decimal_i64(s: Seq<char>) -> Option<i64> {
    match signed_decimal(s) {
        Some(v) => if i64::MIN <= v && v <= i64::MAX {
            Some(v as i64)
        } else {
            None
        },
        None => None,
    }
}

/// Calls `core::str::from_utf8`. Trusted: the call succeeds exactly on
/// well-formed UTF-8, and the text it returns encodes to the bytes given.
#[verifier::external_body]
pub(crate) fn utf8_text(bytes: &[u8]) -> (r: Result<&str, Utf8Error>)
    ensures
        r is Ok <==> valid_utf8(bytes@),
        r matches Ok(s) ==> encode_utf8(s@) == bytes@,
{
    std::str::from_utf8(bytes)
}

/// The number that `s` denotes as decimal digits after an optional `+`, with
/// nothing before, between or after them.
pub open spec fn unsigned_decimal(s: Seq<char>) -> Option<int> {
    if s.len() > 0 && s[0] == '+' {
        digits_value(s.skip(1))
    } else {
        digits_value(s)
    }
}

/// The `u16` that `s` denotes: `unsigned_decimal` where it fits in 16 bits.
pub open spec fn decimal_u16(s: Seq<char>) -> Option<u16> {
    match unsigned_decimal(s) {
        Some(v) => if v <= u16::MAX {
            Some(v as u16)
        } else {
            None
        },
        None => None,
    }
}

/// The `u64` that `s` denotes: `unsigned_decimal` where it fits in 64 bits.
pub open spec fn decimal_u64(s: Seq<char>) -> Option<u64> {
    match unsigned_decimal(s) {
        Some(v) => if v <= u64::MAX {
            Some(v as u64)
        } else {
            None
        },
        None => None,
    }
}

/// Whether two texts hold the same characters.
pub fn same_text(a: &str, b: &str) -> (same: bool)
    ensures
        same == (a@ == b@),
{
    let x = a.as_bytes();
    let y = b.as_bytes();
    if x.len() != y.len() {
        return false;
    }
    let mut i: usize = 0;
    while i < x.len()
        invariant
            i <= x.len(),
            x.len() == y.len(),
            x@ == encode_utf8(a@),
            y@ == encode_utf8(b@),
            forall|k: int| 0 <= k < i ==> x[k] == y[k],
        decreases x.len() - i,
    {
        if x[i] != y[i] {
            return false;
        }
        i = i + 1;
    }
    proof {
        assert(x@ =~= y@);
        encode_utf8_decode_utf8(a@);
        encode_utf8_decode_utf8(b@);
    }
    true
}

/// What is read from a text that holds an optional sign and then decimal
/// digits: whether the sign is a minus, and the number that the digits
/// denote. A `-` counts as a sign only where `signs` says so; a number with
/// a minus may be as large as `least`, any other as large as `most`.
spec fn reading(s: Seq<char>, signs: bool, most: int, least: int) -> Option<(bool, int)> {
    let negative = signs && s.len() > 0 && s[0] == '-';
    let sign: int = if s.len() > 0 && (s[0] == '+' || negative) {
        1
    } else {
        0
    };
    match digits_value(s.skip(sign)) {
        Some(v) => if v <= (if negative {
            least
        } else {
            most
        }) {
            Some((negative, v))
        } else {
            None
        },
        None => None,
    }
}

/// A run of characters with anything but a digit in it denotes no number.
proof fn lemma_digits_reject(s: Seq<char>, i: int)
    requires
        0 <= i < s.len(),
        digit_value(s[i]) is None,
    ensures
        digits_value(s) is None,
    decreases s.len(),
{
    if i < s.len() - 1 {
        lemma_digits_reject(s.drop_last(), i);
    }
}

/// The number that a run of digits denotes is not negative, and no smaller
/// than the number that any of its beginnings denotes.
proof fn lemma_digits_prefix(s: Seq<char>, k: int)
    requires
        1 <= k <= s.len(),
        digits_value(s) is Some,
    ensures
        digits_value(s.take(k)) is Some,
        0 <= digits_value(s.take(k)).unwrap() <= digits_value(s).unwrap(),
    decreases s.len(),
{
    if k == s.len() {
        assert(s.take(k) =~= s);
        if s.len() > 1 {
            lemma_digits_prefix(s.drop_last(), s.len() - 1);
        }
    } else {
        lemma_digits_prefix(s.drop_last(), k);
        assert(s.drop_last().take(k) =~= s.take(k));
    }
}

/// Reads an optional sign and decimal digits.
fn read(text: &str, signs: bool, most: u64, least: u64) -> (r: Option<(bool, u64)>)
    ensures
        match reading(text@, signs, most as int, least as int) {
            Some((negative, v)) => r == Some((negative, v as u64)) && 0 <= v <= u64::MAX,
            None => r is None,
        },
{
    let mut first = true;
    let mut negative = false;
    let mut seen = false;
    let mut acc: u64 = 0;
    let ghost sign: int = 0;
    for c in it: text.chars()
        invariant
            it.seq() == text@,
            first <==> it.index() == 0,
            first ==> !negative && !seen && sign == 0,
            !first ==> {
                &&& negative == (signs && text@[0] == '-')
                &&& sign == if text@[0] == '+' || negative {
                    1int
                } else {
                    0int
                }
                &&& seen <==> it.index() > sign
                &&& seen ==> digits_value(text@.subrange(sign, it.index() as int)) == Some(
                    acc as int,
                )
                &&& seen ==> acc <= if negative {
                    least
                } else {
                    most
                }
            },
    {
        let ghost i = it.index() as int;
        let was_first = first;
        if first {
            first = false;
            if c == '-' && signs {
                negative = true;
                proof {
                    sign = 1;
                }
            } else if c == '+' {
                proof {
                    sign = 1;
                }
            }
        }
        if !(was_first && (c == '+' || (c == '-' && signs))) {
            let ghost rest = text@.skip(sign);
            if !('0' <= c && c <= '9') {
                proof {
                    lemma_digits_reject(rest, i - sign);
                }
                return None;
            }
            let d = (c as u32 - '0' as u32) as u64;
            let limit = if negative {
                least
            } else {
                most
            };
            let next: u128 = if seen {
                acc as u128 * 10 + d as u128
            } else {
                d as u128
            };
            proof {
                let upto = text@.subrange(sign, i + 1);
                assert(upto.drop_last() =~= text@.subrange(sign, i));
                assert(rest.take(i + 1 - sign) =~= upto);
                if digits_value(rest) is Some {
                    lemma_digits_prefix(rest, i + 1 - sign);
                }
            }
            if next > limit as u128 {
                return None;
            }
            acc = next as u64;
            seen = true;
        }
    }
    if seen {
        Some((negative, acc))
    } else {
        None
    }
}

/// Reads an `i64` from a text: an optional `+` or `-` and then one or more
/// decimal digits, with nothing before, between or after them. `None`
/// where the text is anything else, or the number does not fit.
pub fn parse_i64(text: &str) -> (r: Option<i64>)
    ensures
        r == decimal_i64(text@),
{
    assert(text@.skip(0) =~= text@);
    match read(text, true, 0x7FFF_FFFF_FFFF_FFFF, 0x8000_0000_0000_0000) {
        Some((false, v)) => Some(v as i64),
        Some((true, v)) => if v == 0x8000_0000_0000_0000 {
            Some(i64::MIN)
        } else {
            Some(-(v as i64))
        },
        None => None,
    }
}

/// Reads a `u16` from a text: an optional `+` and then one or more decimal
/// digits, with nothing before, between or after them. `None` where the
/// text is anything else, or the number does not fit.
pub fn parse_u16(text: &str) -> (r: Option<u16>)
    ensures
        r == decimal_u16(text@),
{
    assert(text@.skip(0) =~= text@);
    match read(text, false, 0xFFFF, 0) {
        Some((_, v)) => Some(v as u16),
        None => None,
    }
}

/// Reads a `u64` from a text: an optional `+` and then one or more decimal
/// digits, with nothing before, between or after them. `None` where the
/// text is anything else, or the number does not fit.
pub fn parse_u64(text: &str) -> (r: Option<u64>)
    ensures
        r == decimal_u64(text@),
{
    assert(text@.skip(0) =~= text@);
    match read(text, false, 0xFFFF_FFFF_FFFF_FFFF, 0) {
        Some((_, v)) => Some(v),
        None => None,
    }
}

} // verus!
