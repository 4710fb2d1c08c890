//! The length-prefixed list encoding that carries messages between chains.
//!
//! A byte string of one byte below `0x80` stands for itself.  Any other
//! string is preceded by a header that gives its length, and a list is the
//! concatenation of its encoded items preceded by a header that gives the
//! length of that concatenation.  A header is one byte for lengths up to 55;
//! for longer payloads it is one byte that gives the width of the length,
//! followed by the length in big-endian bytes without leading zeros.
//!
//! This module states the format as spec functions on byte sequences, proves
//! that reading is the exact inverse of writing, and implements both.

use vstd::prelude::*;

verus! {

/// First header byte of the shortest byte string.
pub const STRING_BASE: u8 = 0x80;

/// First header byte of the shortest list.
pub const LIST_BASE: u8 = 0xc0;

/// Longest payload whose length fits into the first header byte.
pub const SHORT_LIMIT: usize = 55;

/// `256` to the power `k`.
pub open spec fn pow256(k: nat) -> nat
    decreases k,
{
    if k == 0 {
        1
    } else {
        256 * pow256((k - 1) as nat)
    }
}

/// Big-endian bytes of `n` without leading zeros; zero has no bytes.
pub open spec fn be_bytes(n: nat) -> Seq<u8>
    decreases n,
{
    if n == 0 {
        Seq::empty()
    } else {
        be_bytes(n / 256).push((n % 256) as u8)
    }
}

/// The number that big-endian bytes denote.
pub open spec fn be_value(b: Seq<u8>) -> nat
    decreases b.len(),
{
    if b.len() == 0 {
        0
    } else {
        be_value(b.drop_last()) * 256 + b.last() as nat
    }
}

/// True for the two kinds of item; every header starts at one of these.
pub open spec fn is_base(base: u8) -> bool {
    base == STRING_BASE || base == LIST_BASE
}

/// The header of a payload of `len` bytes.
pub open spec fn header(base: u8, len: nat) -> Seq<u8> {
    if len <= 55 {
        seq![(base + len) as u8]
    } else {
        seq![(base + 55 + be_bytes(len).len()) as u8] + be_bytes(len)
    }
}

/// The encoding of one byte string.
pub open spec fn encode_string(s: Seq<u8>) -> Seq<u8> {
    if s.len() == 1 && s[0] < 0x80 {
        s
    } else {
        header(STRING_BASE, s.len()) + s
    }
}

/// The encodings of the strings of `items`, one after the other.
pub open spec fn encode_items(items: Seq<Seq<u8>>) -> Seq<u8>
    decreases items.len(),
{
    if items.len() == 0 {
        Seq::empty()
    } else {
        encode_string(items[0]) + encode_items(items.drop_first())
    }
}

/// The encoding of a list of byte strings.
pub open spec fn encode_list(items: Seq<Seq<u8>>) -> Seq<u8> {
    header(LIST_BASE, encode_items(items).len()) + encode_items(items)
}

/// Reads the header at the front of `b`: its own length, then the length of
/// the payload it announces.  A header that could be written shorter is
/// refused.
pub open spec fn decode_header(base: u8, b: Seq<u8>) -> Option<(nat, nat)> {
    if b.len() == 0 || b[0] < base || b[0] - base >= 64 {
        None
    } else if b[0] - base <= 55 {
        Some((1, (b[0] - base) as nat))
    } else {
        let width = (b[0] - base - 55) as nat;
        if b.len() < 1 + width {
            None
        } else {
            let digits = b.subrange(1, 1 + width as int);
            if digits[0] == 0 || be_value(digits) <= 55 {
                None
            } else {
                Some((1 + width, be_value(digits)))
            }
        }
    }
}

/// Reads the byte string encoded at the front of `b`: the string, then the
/// number of bytes that its encoding takes.
pub open spec fn decode_string_prefix(b: Seq<u8>) -> Option<(Seq<u8>, nat)> {
    if b.len() == 0 {
        None
    } else if b[0] < 0x80 {
        Some((b.subrange(0, 1), 1))
    } else {
        match decode_header(STRING_BASE, b) {
            None => None,
            Some((head, len)) => {
                if b.len() < head + len {
                    None
                } else if len == 1 && b[head as int] < 0x80 {
                    None
                } else {
                    Some((b.subrange(head as int, (head + len) as int), head + len))
                }
            },
        }
    }
}

/// Reads byte strings from `b` until nothing is left.
pub open spec fn decode_items(b: Seq<u8>) -> Option<Seq<Seq<u8>>>
    decreases b.len(),
{
    if b.len() == 0 {
        Some(Seq::empty())
    } else {
        match decode_string_prefix(b) {
            None => None,
            Some((first, used)) => {
                if 0 < used <= b.len() {
                    match decode_items(b.skip(used as int)) {
                        None => None,
                        Some(rest) => Some(seq![first] + rest),
                    }
                } else {
                    None
                }
            },
        }
    }
}

/// Reads a list of byte strings that fills `b` exactly.
pub open spec fn decode_list(b: Seq<u8>) -> Option<Seq<Seq<u8>>> {
    match decode_header(LIST_BASE, b) {
        None => None,
        Some((head, len)) => {
            if b.len() == head + len {
                decode_items(b.skip(head as int))
            } else {
                None
            }
        },
    }
}

/// Bytes denote the number they were written from.
pub proof fn lemma_be_value_of_be_bytes(n: nat)
    ensures
        be_value(be_bytes(n)) == n,
    decreases n,
{
    if n > 0 {
        lemma_be_value_of_be_bytes(n / 256);
        assert(be_bytes(n).drop_last() =~= be_bytes(n / 256));
    }
}

/// The bytes of a positive number start with a byte that is not zero.
pub proof fn lemma_be_bytes_leading(n: nat)
    requires
        n > 0,
    ensures
        be_bytes(n).len() > 0,
        be_bytes(n)[0] != 0,
    decreases n,
{
    if n >= 256 {
        lemma_be_bytes_leading(n / 256);
    } else {
        assert(be_bytes(n / 256) =~= Seq::<u8>::empty());
    }
}

/// Bytes that start with a byte other than zero denote a positive number.
pub proof fn lemma_be_value_positive(b: Seq<u8>)
    requires
        b.len() > 0,
        b[0] != 0,
    ensures
        be_value(b) > 0,
    decreases b.len(),
{
    if b.len() > 1 {
        lemma_be_value_positive(b.drop_last());
    } else {
        assert(be_value(b.drop_last()) == 0);
    }
}

/// Bytes without a leading zero are the bytes of the number they denote.
pub proof fn lemma_be_bytes_of_be_value(b: Seq<u8>)
    requires
        b.len() > 0 ==> b[0] != 0,
    ensures
        be_bytes(be_value(b)) == b,
    decreases b.len(),
{
    if b.len() == 0 {
    } else {
        let front = b.drop_last();
        let n = be_value(b);
        if front.len() > 0 {
            lemma_be_value_positive(front);
        }
        lemma_be_bytes_of_be_value(front);
        assert(n / 256 == be_value(front));
        assert(n % 256 == b.last() as nat);
        assert(n > 0);
        assert(be_bytes(n) =~= b);
    }
}

/// A number below `256^k` takes at most `k` bytes, and only such a number does.
pub proof fn lemma_be_bytes_len(n: nat, k: nat)
    ensures
        n < pow256(k) <==> be_bytes(n).len() <= k,
    decreases n,
{
    if n == 0 {
        lemma_pow256_positive(k);
    } else if k == 0 {
    } else {
        lemma_be_bytes_len(n / 256, (k - 1) as nat);
    }
}

/// Every power of 256 is positive.
pub proof fn lemma_pow256_positive(k: nat)
    ensures
        pow256(k) > 0,
    decreases k,
{
    if k > 0 {
        lemma_pow256_positive((k - 1) as nat);
    }
}

/// Bytes denote a number below `256` to the power of their count.
pub proof fn lemma_be_value_bound(b: Seq<u8>)
    ensures
        be_value(b) < pow256(b.len()),
    decreases b.len(),
{
    if b.len() > 0 {
        lemma_be_value_bound(b.drop_last());
    }
}

/// Eight bytes hold exactly the numbers below `2^64`.
pub proof fn lemma_pow256_of_8()
    ensures
        pow256(8) == 0x1_0000_0000_0000_0000,
{
    reveal_with_fuel(pow256, 9);
}

/// True for a length that a header can announce: one below `2^64`.
pub open spec fn fits(len: nat) -> bool {
    len < 0x1_0000_0000_0000_0000
}

/// Reading a header that was written gives its own length and the length it
/// was written for, whatever follows it.
pub proof fn lemma_decode_header_of_header(base: u8, len: nat, tail: Seq<u8>)
    requires
        is_base(base),
        fits(len),
    ensures
        decode_header(base, header(base, len) + tail) == Some((header(base, len).len(), len)),
        header(base, len).len() <= 9,
{
    let h = header(base, len);
    let b = h + tail;
    if len <= 55 {
        assert(b[0] == h[0]);
    } else {
        let digits = be_bytes(len);
        lemma_pow256_of_8();
        lemma_be_bytes_len(len, 8);
        lemma_be_bytes_leading(len);
        lemma_be_value_of_be_bytes(len);
        assert(b[0] == h[0]);
        assert(b.subrange(1, 1 + digits.len() as int) =~= digits);
    }
}

/// A header that was read is the header of the length it announces.
pub proof fn lemma_header_of_decode_header(base: u8, b: Seq<u8>)
    requires
        is_base(base),
        decode_header(base, b) is Some,
    ensures
        ({
            let (head, len) = decode_header(base, b)->0;
            &&& 0 < head <= b.len()
            &&& head <= 9
            &&& fits(len)
            &&& b.subrange(0, head as int) == header(base, len)
        }),
{
    let (head, len) = decode_header(base, b)->0;
    if b[0] - base <= 55 {
        assert(b.subrange(0, 1) =~= header(base, len));
    } else {
        let width = (b[0] - base - 55) as nat;
        let digits = b.subrange(1, 1 + width as int);
        lemma_be_bytes_of_be_value(digits);
        lemma_be_value_bound(digits);
        lemma_pow256_of_8();
        lemma_be_bytes_len(len, 8);
        lemma_pow256_monotonic(width, 8);
        assert(b.subrange(0, head as int) =~= header(base, len));
    }
}

/// A larger exponent gives a power of 256 that is at least as large.
pub proof fn lemma_pow256_monotonic(i: nat, j: nat)
    requires
        i <= j,
    ensures
        pow256(i) <= pow256(j),
    decreases j,
{
    if i < j {
        lemma_pow256_monotonic(i, (j - 1) as nat);
    }
}

/// Reading an encoded string gives the string and the length of its encoding,
/// whatever follows it.
pub proof fn lemma_decode_string_of_encode(s: Seq<u8>, tail: Seq<u8>)
    requires
        fits(s.len()),
    ensures
        decode_string_prefix(encode_string(s) + tail) == Some((s, encode_string(s).len())),
        encode_string(s).len() > 0,
{
    let b = encode_string(s) + tail;
    if s.len() == 1 && s[0] < 0x80 {
        assert(b.subrange(0, 1) =~= s);
    } else {
        let h = header(STRING_BASE, s.len());
        lemma_decode_header_of_header(STRING_BASE, s.len(), s + tail);
        assert(h + (s + tail) =~= b);
        assert(b[0] == h[0]);
        assert(b[0] >= 0x80);
        if s.len() == 1 {
            assert(b[h.len() as int] == s[0]);
        }
        assert(b.subrange(h.len() as int, (h.len() + s.len()) as int) =~= s);
    }
}

/// What was read as a string from the front of `b` is encoded there.
pub proof fn lemma_encode_of_decode_string(b: Seq<u8>)
    requires
        decode_string_prefix(b) is Some,
    ensures
        ({
            let (s, used) = decode_string_prefix(b)->0;
            &&& 0 < used <= b.len()
            &&& fits(s.len())
            &&& b.subrange(0, used as int) == encode_string(s)
        }),
{
    let (s, used) = decode_string_prefix(b)->0;
    if b[0] < 0x80 {
        assert(s[0] == b[0]);
    } else {
        lemma_header_of_decode_header(STRING_BASE, b);
        let (head, len) = decode_header(STRING_BASE, b)->0;
        assert(s.len() == len);
        if len == 1 {
            assert(s[0] == b[head as int]);
        }
        assert(b.subrange(0, used as int) =~= b.subrange(0, head as int) + s);
    }
}

/// True when every string of `items` has a length that a header can announce.
pub open spec fn all_fit(items: Seq<Seq<u8>>) -> bool {
    forall|i: int| 0 <= i < items.len() ==> fits(#[trigger] items[i].len())
}

/// Reading the encodings of strings gives the strings back.
pub proof fn lemma_decode_items_of_encode(items: Seq<Seq<u8>>)
    requires
        all_fit(items),
    ensures
        decode_items(encode_items(items)) == Some(items),
    decreases items.len(),
{
    if items.len() > 0 {
        let rest = items.drop_first();
        let b = encode_items(items);
        lemma_decode_string_of_encode(items[0], encode_items(rest));
        assert(all_fit(rest)) by {
            assert forall|i: int| 0 <= i < rest.len() implies fits(#[trigger] rest[i].len()) by {
                assert(rest[i] == items[i + 1]);
            }
        }
        lemma_decode_items_of_encode(rest);
        assert(b.skip(encode_string(items[0]).len() as int) =~= encode_items(rest));
        assert(seq![items[0]] + rest =~= items);
    }
}

/// Strings that were read from `b` encode to `b`.
pub proof fn lemma_encode_of_decode_items(b: Seq<u8>)
    requires
        decode_items(b) is Some,
    ensures
        encode_items(decode_items(b)->0) == b,
        all_fit(decode_items(b)->0),
    decreases b.len(),
{
    if b.len() > 0 {
        let (first, used) = decode_string_prefix(b)->0;
        lemma_encode_of_decode_string(b);
        let tail = b.skip(used as int);
        lemma_encode_of_decode_items(tail);
        let rest = decode_items(tail)->0;
        let items = seq![first] + rest;
        assert(items.drop_first() =~= rest);
        assert(b =~= b.subrange(0, used as int) + tail);
        assert forall|i: int| 0 <= i < items.len() implies fits(#[trigger] items[i].len()) by {
            if i > 0 {
                assert(items[i] == rest[i - 1]);
            }
        }
    }
}

/// The encoding of a string is at least as long as the string.
pub proof fn lemma_encode_string_len(s: Seq<u8>)
    ensures
        encode_string(s).len() >= s.len(),
        encode_string(s).len() > 0,
{
}

/// The encoding of strings is at least as long as each of them.
pub proof fn lemma_encode_items_len(items: Seq<Seq<u8>>, i: int)
    requires
        0 <= i < items.len(),
    ensures
        encode_items(items).len() >= items[i].len(),
    decreases items.len(),
{
    lemma_encode_string_len(items[0]);
    if i > 0 {
        lemma_encode_items_len(items.drop_first(), i - 1);
    }
}

/// Appending a string to a list appends its encoding.
pub proof fn lemma_encode_items_push(items: Seq<Seq<u8>>, s: Seq<u8>)
    ensures
        encode_items(items.push(s)) == encode_items(items) + encode_string(s),
    decreases items.len(),
{
    if items.len() == 0 {
        assert(items.push(s).drop_first() =~= Seq::<Seq<u8>>::empty());
        assert(encode_items(items.push(s).drop_first()) =~= Seq::<u8>::empty());
        assert(encode_items(items.push(s)) =~= encode_string(s) + Seq::<u8>::empty());
    } else {
        lemma_encode_items_push(items.drop_first(), s);
        assert(items.push(s).drop_first() =~= items.drop_first().push(s));
        assert(encode_items(items.push(s)) =~= encode_items(items) + encode_string(s));
    }
}

/// Reading is the exact inverse of writing: a byte sequence of a length that
/// a machine can hold is read as `items` if and only if it is the encoding of
/// `items`.
pub proof fn lemma_decode_list_iff_encode_list(b: Seq<u8>, items: Seq<Seq<u8>>)
    requires
        fits(b.len()),
    ensures
        decode_list(b) == Some(items) <==> encode_list(items) == b,
{
    if decode_list(b) == Some(items) {
        lemma_header_of_decode_header(LIST_BASE, b);
        let (head, len) = decode_header(LIST_BASE, b)->0;
        lemma_encode_of_decode_items(b.skip(head as int));
        assert(b =~= b.subrange(0, head as int) + b.skip(head as int));
    }
    if encode_list(items) == b {
        let payload = encode_items(items);
        assert(b.len() >= payload.len());
        assert(all_fit(items)) by {
            assert forall|i: int| 0 <= i < items.len() implies fits(#[trigger] items[i].len()) by {
                lemma_encode_items_len(items, i);
            }
        }
        lemma_decode_header_of_header(LIST_BASE, payload.len(), payload);
        lemma_decode_items_of_encode(items);
        assert(b.skip(header(LIST_BASE, payload.len()).len() as int) =~= payload);
    }
}

} // verus!
