//! Unsigned 128-bit amounts as ASCII decimal digits.
//!
//! Amounts travel on the wire as their decimal notation.  `decimal` is the
//! notation of a number, `parse_decimal` reads one back, and
//! `lemma_parse_decimal_of_decimal` shows that nothing is lost on the way.

use vstd::prelude::*;
use vstd::utf8::*;

verus! {

/// ASCII code of the digit `0`.
pub const ZERO: u8 = 0x30;

/// ASCII code of the plus sign.
pub const PLUS: u8 = 0x2b;

/// True for the ASCII codes of the ten decimal digits.
pub open spec fn is_digit(b: u8) -> bool {
    0x30 <= b && b <= 0x39
}

/// True when every byte of `s` is a decimal digit.
pub open spec fn all_digits(s: Seq<u8>) -> bool {
    forall|i: int| 0 <= i < s.len() ==> is_digit(#[trigger] s[i])
}

/// The decimal notation of `n`, most significant digit first, without
/// leading zeros; zero is written `0`.
pub open spec fn decimal(n: nat) -> Seq<u8>
    decreases n,
{
    if n < 10 {
        seq![(0x30 + n) as u8]
    } else {
        decimal(n / 10).push((0x30 + n % 10) as u8)
    }
}

/// The number that a digit string denotes; the empty string denotes zero.
pub open spec fn digits_value(s: Seq<u8>) -> nat
    decreases s.len(),
{
    if s.len() == 0 {
        0
    } else {
        digits_value(s.drop_last()) * 10 + (s.last() - 0x30) as nat
    }
}

/// The digits of `s` once an optional leading plus sign is set aside.
pub open spec fn unsigned_part(s: Seq<u8>) -> Seq<u8> {
    if s.len() > 0 && s[0] == 0x2b {
        s.drop_first()
    } else {
        s
    }
}

/// Reads an amount: an optional plus sign, then at least one digit and
/// nothing else, denoting a number that fits 128 bits.
pub open spec fn parse_decimal(s: Seq<u8>) -> Option<u128> {
    let digits = unsigned_part(s);
    if digits.len() > 0 && all_digits(digits) && digits_value(digits) <= u128::MAX {
        Some(digits_value(digits) as u128)
    } else {
        None
    }
}

/// The notation of a number consists of digits, is never empty and denotes
/// that number.
pub proof fn lemma_decimal_digits(n: nat)
    ensures
        decimal(n).len() > 0,
        all_digits(decimal(n)),
        digits_value(decimal(n)) == n,
        n > 0 ==> decimal(n)[0] != 0x30,
    decreases n,
{
    if n < 10 {
        let s = decimal(n);
        assert(s.drop_last().len() == 0);
        assert(digits_value(s.drop_last()) == 0);
    } else {
        lemma_decimal_digits(n / 10);
        let s = decimal(n);
        assert(s.drop_last() =~= decimal(n / 10));
        assert(s.last() == (0x30 + n % 10) as u8);
    }
}

/// Reading the notation of an amount gives the amount back.
pub proof fn lemma_parse_decimal_of_decimal(value: u128)
    ensures
        parse_decimal(decimal(value as nat)) == Some(value),
{
    lemma_decimal_digits(value as nat);
}

/// A string of digits is ASCII, hence well-formed UTF-8.
pub proof fn lemma_digits_valid_utf8(s: Seq<u8>)
    requires
        all_digits(s),
    ensures
        valid_utf8(s),
{
    assert(s.subrange(0, 0) =~= Seq::<u8>::empty());
    assert(partial_valid_utf8(s, 0));
    assert forall|i: int| 0 <= 0 <= i < s.len() <= s.len() implies #[trigger] is_leading_byte_width_1(
        s[i],
    ) by {
        assert(is_digit(s[i]));
    }
    partial_valid_utf8_extend_ascii_block(s, 0, s.len() as int);
    assert(s.subrange(0, s.len() as int) =~= s);
}

/// A longer digit string denotes at least as much as any of its prefixes.
proof fn lemma_digits_value_prefix(s: Seq<u8>, k: int)
    requires
        0 <= k <= s.len(),
        all_digits(s),
    ensures
        digits_value(s.take(k)) <= digits_value(s),
    decreases s.len() - k,
{
    if k == s.len() {
        assert(s.take(k) =~= s);
    } else {
        lemma_digits_value_prefix(s, k + 1);
        let t = s.take(k + 1);
        assert(t.drop_last() =~= s.take(k));
        assert(is_digit(s[k]));
        assert(t.last() == s[k]);
    }
}

/// Writes `value` in decimal notation.
pub fn decimal_bytes(value: u128) -> (out: Vec<u8>)
    ensures
        out@ == decimal(value as nat),
{
    let mut reversed: Vec<u8> = Vec::new();
    let mut rest: u128 = value / 10;
    reversed.push(ZERO + (value % 10) as u8);
    while rest > 0
        invariant
            reversed@.len() > 0,
            decimal(value as nat) == if rest > 0 {
                decimal(rest as nat) + reversed@.reverse()
            } else {
                reversed@.reverse()
            },
        decreases rest,
    {
        let ghost before = reversed@;
        let digit: u8 = ZERO + (rest % 10) as u8;
        reversed.push(digit);
        proof {
            assert(reversed@.reverse() =~= seq![digit] + before.reverse());
            if rest >= 10 {
                assert(decimal(rest as nat) + before.reverse() =~= decimal((rest / 10) as nat)
                    + reversed@.reverse());
            } else {
                assert(decimal(rest as nat) + before.reverse() =~= reversed@.reverse());
            }
        }
        rest = rest / 10;
    }
    let mut out: Vec<u8> = Vec::new();
    let mut left: usize = reversed.len();
    while left > 0
        invariant
            left <= reversed@.len(),
            out@ == reversed@.reverse().take(reversed@.len() - left),
        decreases left,
    {
        left = left - 1;
        out.push(reversed[left]);
        assert(out@ =~= reversed@.reverse().take(reversed@.len() - left));
    }
    assert(out@ =~= reversed@.reverse());
    out
}

/// Reads an amount written as an optional plus sign followed by decimal
/// digits.  Anything else, and any number beyond 128 bits, gives `None`.
pub fn parse_u128(s: &[u8]) -> (r: Option<u128>)
    ensures
        r == parse_decimal(s@),
{
    let start: usize = if s.len() > 0 && s[0] == PLUS {
        1
    } else {
        0
    };
    let ghost digits = unsigned_part(s@);
    assert(digits =~= s@.skip(start as int));
    if start == s.len() {
        return None;
    }
    let mut value: u128 = 0;
    let mut i: usize = start;
    while i < s.len()
        invariant
            start <= i <= s.len(),
            digits == unsigned_part(s@),
            digits == s@.skip(start as int),
            all_digits(digits.take(i - start)),
            value == digits_value(digits.take(i - start)),
        decreases s.len() - i,
    {
        let b: u8 = s[i];
        if b < ZERO || b > ZERO + 9 {
            assert(!is_digit(digits[i - start]));
            return None;
        }
        let ghost next = digits.take(i - start + 1);
        proof {
            assert(next.drop_last() =~= digits.take(i - start));
            assert(next.last() == b);
            assert(digits_value(next) == value * 10 + (b - 0x30));
            assert forall|j: int| 0 <= j < next.len() implies is_digit(#[trigger] next[j]) by {
                if j < i - start {
                    assert(is_digit(digits.take(i - start)[j]));
                }
            }
        }
        let grown: Option<u128> = match value.checked_mul(10) {
            Some(tenfold) => tenfold.checked_add((b - ZERO) as u128),
            None => None,
        };
        match grown {
            Some(v) => {
                value = v;
            },
            None => {
                proof {
                    if all_digits(digits) {
                        lemma_digits_value_prefix(digits, i - start + 1);
                    }
                }
                return None;
            },
        }
        i = i + 1;
    }
    assert(digits.take(i - start) =~= digits);
    Some(value)
}

} // verus!
