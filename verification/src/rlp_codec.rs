//! Writing and reading the list encoding of `rlp`.

use crate::rlp::{
    be_bytes, be_value, decode_header, decode_items, decode_list, decode_string_prefix,
    encode_items, encode_list, encode_string, fits, header, is_base, lemma_be_bytes_len,
    lemma_decode_list_iff_encode_list, lemma_encode_items_push, lemma_pow256_monotonic,
    lemma_pow256_of_8, pow256, LIST_BASE, SHORT_LIMIT, STRING_BASE,
};
use vstd::prelude::*;
use vstd::slice::*;

verus! {

/// The byte strings that a vector of buffers holds.
pub open spec fn views(items: Seq<Vec<u8>>) -> Seq<Seq<u8>> {
    Seq::new(items.len(), |i: int| items[i]@)
}

/// Appends the bytes of `s` to `out`.
pub fn push_all(out: &mut Vec<u8>, s: &[u8])
    ensures
        final(out)@ == old(out)@ + s@,
{
    let mut i: usize = 0;
    while i < s.len()
        invariant
            i <= s.len(),
            out@ == old(out)@ + s@.take(i as int),
        decreases s.len() - i,
    {
        out.push(s[i]);
        assert(out@ =~= old(out)@ + s@.take(i + 1));
        i = i + 1;
    }
    assert(s@.take(i as int) =~= s@);
}

/// The big-endian bytes of `len`, without leading zeros.
pub fn length_bytes(len: usize) -> (out: Vec<u8>)
    ensures
        out@ == be_bytes(len as nat),
        out@.len() <= 8,
{
    let mut reversed: Vec<u8> = Vec::new();
    let mut rest: usize = len;
    while rest > 0
        invariant
            be_bytes(len as nat) == be_bytes(rest as nat) + reversed@.reverse(),
        decreases rest,
    {
        let ghost before = reversed@;
        let digit: u8 = (rest % 256) as u8;
        reversed.push(digit);
        proof {
            assert(reversed@.reverse() =~= seq![digit] + before.reverse());
            assert(be_bytes(rest as nat) + before.reverse() =~= be_bytes((rest / 256) as nat)
                + reversed@.reverse());
        }
        rest = rest / 256;
    }
    let mut out: Vec<u8> = Vec::new();
    let mut left: usize = reversed.len();
    while left > 0
        invariant
            left <= reversed@.len(),
            out@ == reversed@.reverse().take(reversed@.len() - left),
        decreases left,
    {
        left = left - 1;
        out.push(reversed[left]);
        assert(out@ =~= reversed@.reverse().take(reversed@.len() - left));
    }
    proof {
        assert(out@ =~= reversed@.reverse());
        assert(be_bytes(0) + reversed@.reverse() =~= reversed@.reverse());
        lemma_pow256_of_8();
        lemma_be_bytes_len(len as nat, 8);
    }
    out
}

/// Appends to `out` the header of a payload of `len` bytes.
pub fn write_header(out: &mut Vec<u8>, base: u8, len: usize)
    requires
        is_base(base),
    ensures
        final(out)@ == old(out)@ + header(base, len as nat),
{
    if len <= SHORT_LIMIT {
        out.push(base + len as u8);
        assert(out@ =~= old(out)@ + header(base, len as nat));
    } else {
        let mut digits: Vec<u8> = length_bytes(len);
        out.push(base + 55 + digits.len() as u8);
        out.append(&mut digits);
        assert(out@ =~= old(out)@ + header(base, len as nat));
    }
}

/// Appends to `out` the encoding of the byte string `s`.
pub fn write_string(out: &mut Vec<u8>, s: &[u8])
    ensures
        final(out)@ == old(out)@ + encode_string(s@),
{
    if s.len() == 1 && s[0] < STRING_BASE {
        out.push(s[0]);
        assert(out@ =~= old(out)@ + encode_string(s@));
    } else {
        write_header(out, STRING_BASE, s.len());
        push_all(out, s);
        assert(out@ =~= old(out)@ + encode_string(s@));
    }
}

/// Encodes a list of byte strings.
pub fn encode(items: &[Vec<u8>]) -> (out: Vec<u8>)
    ensures
        out@ == encode_list(views(items@)),
{
    let mut payload: Vec<u8> = Vec::new();
    let mut i: usize = 0;
    assert(views(items@).take(0) =~= Seq::<Seq<u8>>::empty());
    while i < items.len()
        invariant
            i <= items.len(),
            payload@ == encode_items(views(items@).take(i as int)),
        decreases items.len() - i,
    {
        write_string(&mut payload, items[i].as_slice());
        proof {
            lemma_encode_items_push(views(items@).take(i as int), items[i as int]@);
            assert(views(items@).take(i + 1) =~= views(items@).take(i as int).push(
                items[i as int]@,
            ));
        }
        i = i + 1;
    }
    assert(views(items@).take(i as int) =~= views(items@));
    let mut out: Vec<u8> = Vec::new();
    write_header(&mut out, LIST_BASE, payload.len());
    out.append(&mut payload);
    out
}

/// Reads the header at offset `at` of `b`.  The result is the length of the
/// header and of the payload it announces, provided that the payload lies
/// within `b` too.
fn read_header(base: u8, b: &[u8], at: usize) -> (r: Option<(usize, usize)>)
    requires
        is_base(base),
        at <= b@.len(),
    ensures
        match r {
            Some((head, len)) => at + head + len <= b.len() && decode_header(
                base,
                b@.skip(at as int),
            ) == Some((head as nat, len as nat)),
            None => match decode_header(base, b@.skip(at as int)) {
                Some((head, len)) => b@.len() - at < head + len,
                None => true,
            },
        },
{
    let ghost s = b@.skip(at as int);
    if at >= b.len() {
        return None;
    }
    let first: u8 = b[at];
    assert(s[0] == first);
    if first < base {
        return None;
    }
    let offset: u8 = first - base;
    if offset >= 64 {
        return None;
    }
    let remaining: usize = b.len() - at - 1;
    if offset <= 55 {
        let len: usize = offset as usize;
        if remaining < len {
            return None;
        }
        return Some((1, len));
    }
    let width: usize = (offset - 55) as usize;
    if remaining < width {
        return None;
    }
    let ghost digits = s.subrange(1, 1 + width as int);
    let mut value: u64 = 0;
    let mut i: usize = 0;
    assert(digits.take(0) =~= Seq::<u8>::empty());
    while i < width
        invariant
            i <= width <= 8,
            at + 1 + width <= b.len(),
            digits == b@.skip(at as int).subrange(1, 1 + width as int),
            value == be_value(digits.take(i as int)),
            value < pow256(i as nat),
        decreases width - i,
    {
        let byte: u8 = b[at + 1 + i];
        proof {
            let next = digits.take(i + 1);
            assert(next.drop_last() =~= digits.take(i as int));
            assert(next.last() == byte);
            lemma_pow256_monotonic((i + 1) as nat, 8);
            lemma_pow256_of_8();
            assert(pow256((i + 1) as nat) == 256 * pow256(i as nat));
        }
        value = value * 256 + byte as u64;
        i = i + 1;
    }
    assert(digits.take(width as int) =~= digits);
    if b[at + 1] == 0 || value <= 55 {
        assert(digits[0] == b@[at + 1]);
        return None;
    }
    assert(digits[0] == b@[at + 1]);
    if value > (remaining - width) as u64 {
        return None;
    }
    Some((1 + width, value as usize))
}

/// Reads the byte string encoded at offset `at` of `b` and gives the range
/// of `b` that holds its content.
fn read_string(b: &[u8], at: usize) -> (r: Option<(usize, usize)>)
    requires
        at < b@.len(),
    ensures
        match r {
            Some((start, end)) => at <= start <= end <= b.len() && at < end
                && decode_string_prefix(b@.skip(at as int)) == Some(
                (b@.subrange(start as int, end as int), (end - at) as nat),
            ),
            None => decode_string_prefix(b@.skip(at as int)) is None,
        },
{
    let ghost s = b@.skip(at as int);
    assert(s[0] == b@[at as int]);
    if b[at] < STRING_BASE {
        assert(s.subrange(0, 1) =~= b@.subrange(at as int, at + 1));
        return Some((at, at + 1));
    }
    match read_header(STRING_BASE, b, at) {
        None => None,
        Some((head, len)) => {
            if len == 1 {
                assert(s[head as int] == b@[at + head]);
                if b[at + head] < STRING_BASE {
                    return None;
                }
            }
            assert(s.subrange(head as int, head + len) =~= b@.subrange(
                at + head,
                at + head + len,
            ));
            Some((at + head, at + head + len))
        },
    }
}

/// Reads byte strings from offset `from` of `b` to its end.
fn read_items(b: &[u8], from: usize) -> (r: Option<Vec<Vec<u8>>>)
    requires
        from <= b.len(),
    ensures
        match r {
            Some(items) => decode_items(b@.skip(from as int)) == Some(views(items@)),
            None => decode_items(b@.skip(from as int)) is None,
        },
{
    let mut items: Vec<Vec<u8>> = Vec::new();
    let mut at: usize = from;
    proof {
        assert(views(items@) =~= Seq::<Seq<u8>>::empty());
        if decode_items(b@.skip(at as int)) is Some {
            assert(views(items@) + decode_items(b@.skip(at as int))->0 =~= decode_items(
                b@.skip(at as int),
            )->0);
        }
    }
    while at < b.len()
        invariant
            from <= at <= b.len(),
            decode_items(b@.skip(from as int)) == match decode_items(b@.skip(at as int)) {
                Some(rest) => Some(views(items@) + rest),
                None => None,
            },
        decreases b.len() - at,
    {
        let ghost s = b@.skip(at as int);
        let ghost before = views(items@);
        match read_string(b, at) {
            None => {
                return None;
            },
            Some((start, end)) => {
                let item: Vec<u8> = slice_to_vec(slice_subrange(b, start, end));
                items.push(item);
                proof {
                    assert(s.skip(end - at) =~= b@.skip(end as int));
                    assert(views(items@) =~= before.push(b@.subrange(start as int, end as int)));
                    if decode_items(b@.skip(end as int)) is Some {
                        let rest = decode_items(b@.skip(end as int))->0;
                        assert(before + (seq![b@.subrange(start as int, end as int)] + rest)
                            =~= views(items@) + rest);
                    }
                }
                at = end;
            },
        }
    }
    proof {
        assert(b@.skip(at as int) =~= Seq::<u8>::empty());
        assert(views(items@) + Seq::<Seq<u8>>::empty() =~= views(items@));
    }
    Some(items)
}

/// Decodes a list of byte strings.  The input is accepted exactly when it is
/// the encoding of some list, and that list is returned.
pub fn decode(b: &[u8]) -> (r: Option<Vec<Vec<u8>>>)
    ensures
        match r {
            Some(items) => decode_list(b@) == Some(views(items@)) && encode_list(views(items@))
                == b@,
            None => decode_list(b@) is None && forall|items: Seq<Seq<u8>>|
                encode_list(items) != b@,
        },
{
    proof {
        assert(b@.len() == b.len());
        assert(fits(b@.len()));
        assert forall|items: Seq<Seq<u8>>| (decode_list(b@) == Some(items)) == (#[trigger] encode_list(
            items,
        ) == b@) by {
            lemma_decode_list_iff_encode_list(b@, items);
        }
        assert(b@.skip(0) =~= b@);
    }
    match read_header(LIST_BASE, b, 0) {
        None => None,
        Some((head, len)) => {
            if head + len != b.len() {
                None
            } else {
                read_items(b, head)
            }
        },
    }
}

} // verus!
