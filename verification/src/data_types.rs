//! The two messages of the bridge and their wire form.
//!
//! A message travels as a list of strings: its method tag, then its fields in
//! order.  Addresses are written as they are, the amount in decimal notation,
//! and the payload of a transfer as the bytes it consists of.

use crate::constants::{lemma_tags, X_CROSS_TRANSFER, X_CROSS_TRANSFER_REVERT};
use crate::decimal::{
    decimal, decimal_bytes, lemma_digits_valid_utf8, lemma_decimal_digits,
    lemma_parse_decimal_of_decimal, parse_decimal, parse_u128,
};
use crate::error::ContractError;
use crate::rlp::{decode_list, encode_list, fits, lemma_decode_list_iff_encode_list};
use crate::rlp_codec::views;
use crate::text::{same_text, utf8_to_string};
use vstd::prelude::*;
use vstd::slice::*;
use vstd::string::*;
use vstd::utf8::*;

verus! {

/// An instruction to move `value` from `from` to `to`, both written as
/// cross-chain addresses, with a payload for the receiver.
#[derive(Debug, Clone, PartialEq, Eq)]
pub struct CrossTransfer {
    pub from: String,
    pub to: String,
    pub value: u128,
    pub data: Vec<u8>,
}

/// An instruction to give `value` back to `from`.
#[derive(Debug, Clone, PartialEq, Eq)]
pub struct CrossTransferRevert {
    pub from: String,
    pub value: u128,
}

/// A message that this contract understands.
#[derive(Debug, Clone, PartialEq, Eq)]
pub enum Message {
    CrossTransfer(CrossTransfer),
    CrossTransferRevert(CrossTransferRevert),
}

/// What a `CrossTransfer` holds.
pub struct CrossTransferView {
    pub from: Seq<char>,
    pub to: Seq<char>,
    pub value: u128,
    pub data: Seq<u8>,
}

/// What a `CrossTransferRevert` holds.
pub struct CrossTransferRevertView {
    pub from: Seq<char>,
    pub value: u128,
}

/// What a `Message` holds.
pub enum MessageView {
    CrossTransfer(CrossTransferView),
    CrossTransferRevert(CrossTransferRevertView),
}

impl View for CrossTransfer {
    type V = CrossTransferView;

    open spec fn view(&self) -> CrossTransferView {
        CrossTransferView { from: self.from@, to: self.to@, value: self.value, data: self.data@ }
    }
}

impl View for CrossTransferRevert {
    type V = CrossTransferRevertView;

    open spec fn view(&self) -> CrossTransferRevertView {
        CrossTransferRevertView { from: self.from@, value: self.value }
    }
}

impl View for Message {
    type V = MessageView;

    open spec fn view(&self) -> MessageView {
        match self {
            Message::CrossTransfer(m) => MessageView::CrossTransfer(m@),
            Message::CrossTransferRevert(m) => MessageView::CrossTransferRevert(m@),
        }
    }
}

/// The character sequences of a list of strings.
pub open spec fn strings(list: Seq<String>) -> Seq<Seq<char>> {
    Seq::new(list.len(), |i: int| list[i]@)
}

/// The UTF-8 bytes of each string of a list.
pub open spec fn utf8_fields(list: Seq<Seq<char>>) -> Seq<Seq<u8>> {
    Seq::new(list.len(), |i: int| encode_utf8(list[i]))
}

/// True when every byte string of `items` is well-formed UTF-8.
pub open spec fn all_valid_utf8(items: Seq<Seq<u8>>) -> bool {
    forall|i: int| 0 <= i < items.len() ==> valid_utf8(#[trigger] items[i])
}

/// The list of strings that `b` encodes, if it encodes one.
pub open spec fn spec_decode_strings(b: Seq<u8>) -> Option<Seq<Seq<char>>> {
    match decode_list(b) {
        None => None,
        Some(items) => if all_valid_utf8(items) {
            Some(Seq::new(items.len(), |i: int| decode_utf8(items[i])))
        } else {
            None
        },
    }
}

/// The amount that a string denotes: the number it spells in decimal, and
/// zero when it spells none.
pub open spec fn amount_of(s: Seq<char>) -> u128 {
    match parse_decimal(encode_utf8(s)) {
        Some(value) => value,
        None => 0,
    }
}

/// The fields of a transfer on the wire.
pub open spec fn cross_transfer_fields(m: CrossTransferView) -> Seq<Seq<u8>> {
    seq![
        encode_utf8(X_CROSS_TRANSFER@),
        encode_utf8(m.from),
        encode_utf8(m.to),
        decimal(m.value as nat),
        m.data,
    ]
}

/// The fields of a revert on the wire.
pub open spec fn cross_transfer_revert_fields(m: CrossTransferRevertView) -> Seq<Seq<u8>> {
    seq![encode_utf8(X_CROSS_TRANSFER_REVERT@), encode_utf8(m.from), decimal(m.value as nat)]
}

/// The wire form of a transfer.
pub open spec fn spec_encode_cross_transfer(m: CrossTransferView) -> Seq<u8> {
    encode_list(cross_transfer_fields(m))
}

/// The wire form of a revert.
pub open spec fn spec_encode_cross_transfer_revert(m: CrossTransferRevertView) -> Seq<u8> {
    encode_list(cross_transfer_revert_fields(m))
}

/// The transfer that a list of at least five strings spells.
pub open spec fn spec_decode_cross_transfer(list: Seq<Seq<char>>) -> CrossTransferView {
    CrossTransferView {
        from: list[1],
        to: list[2],
        value: amount_of(list[3]),
        data: encode_utf8(list[4]),
    }
}

/// The revert that a list of at least three strings spells.
pub open spec fn spec_decode_cross_transfer_revert(list: Seq<Seq<char>>) -> CrossTransferRevertView {
    CrossTransferRevertView { from: list[1], value: amount_of(list[2]) }
}

/// The message that a list of strings spells.  The first string selects the
/// kind of message; a list too short for its kind is refused as data, an
/// unknown tag as a method.
pub open spec fn spec_decode_message(list: Seq<Seq<char>>) -> Result<MessageView, ContractError> {
    if list.len() == 0 {
        Err(ContractError::InvalidData)
    } else if list[0] == X_CROSS_TRANSFER@ {
        if list.len() < 5 {
            Err(ContractError::InvalidData)
        } else {
            Ok(MessageView::CrossTransfer(spec_decode_cross_transfer(list)))
        }
    } else if list[0] == X_CROSS_TRANSFER_REVERT@ {
        if list.len() < 3 {
            Err(ContractError::InvalidData)
        } else {
            Ok(MessageView::CrossTransferRevert(spec_decode_cross_transfer_revert(list)))
        }
    } else {
        Err(ContractError::InvalidMethod)
    }
}

/// The message that a payload carries.
pub open spec fn spec_decode(b: Seq<u8>) -> Result<MessageView, ContractError> {
    match spec_decode_strings(b) {
        None => Err(ContractError::InvalidData),
        Some(list) => spec_decode_message(list),
    }
}

/// A payload is read as a list of strings if and only if it is the encoding
/// of the UTF-8 bytes of those strings.
pub proof fn lemma_decode_strings_iff_encode(b: Seq<u8>, list: Seq<Seq<char>>)
    requires
        fits(b.len()),
    ensures
        spec_decode_strings(b) == Some(list) <==> encode_list(utf8_fields(list)) == b,
{
    broadcast use {encode_utf8_valid_utf8, encode_utf8_decode_utf8, decode_utf8_encode_utf8};

    if spec_decode_strings(b) == Some(list) {
        let items = decode_list(b)->0;
        lemma_decode_list_iff_encode_list(b, items);
        assert(utf8_fields(list) =~= items) by {
            assert forall|i: int| 0 <= i < items.len() implies utf8_fields(list)[i] == items[i] by {
                assert(valid_utf8(items[i]));
                assert(list[i] == decode_utf8(items[i]));
            }
        }
    }
    if encode_list(utf8_fields(list)) == b {
        let items = utf8_fields(list);
        lemma_decode_list_iff_encode_list(b, items);
        assert(all_valid_utf8(items));
        assert(Seq::new(items.len(), |i: int| decode_utf8(items[i])) =~= list);
    }
}

/// Reads the amount that `s` spells; a string that spells none counts as zero.
fn read_amount(s: &String) -> (value: u128)
    ensures
        value == amount_of(s@),
{
    match parse_u128(s.as_str().as_bytes()) {
        Some(value) => value,
        None => 0,
    }
}

impl CrossTransfer {
    /// Encodes the transfer for the wire.
    pub fn encode_cross_transfer_message(&self) -> (out: Vec<u8>)
        ensures
            out@ == spec_encode_cross_transfer(self@),
    {
        let mut fields: Vec<Vec<u8>> = Vec::new();
        fields.push(X_CROSS_TRANSFER.as_bytes_vec());
        fields.push(self.from.as_str().as_bytes_vec());
        fields.push(self.to.as_str().as_bytes_vec());
        fields.push(decimal_bytes(self.value));
        fields.push(slice_to_vec(self.data.as_slice()));
        assert(views(fields@) =~= cross_transfer_fields(self@));
        crate::rlp_codec::encode(fields.as_slice())
    }
}

impl CrossTransferRevert {
    /// Encodes the revert for the wire.
    pub fn encode_cross_transfer_revert_message(&self) -> (out: Vec<u8>)
        ensures
            out@ == spec_encode_cross_transfer_revert(self@),
    {
        let mut fields: Vec<Vec<u8>> = Vec::new();
        fields.push(X_CROSS_TRANSFER_REVERT.as_bytes_vec());
        fields.push(self.from.as_str().as_bytes_vec());
        fields.push(decimal_bytes(self.value));
        assert(views(fields@) =~= cross_transfer_revert_fields(self@));
        crate::rlp_codec::encode(fields.as_slice())
    }
}

/// Decodes a payload into the list of strings it carries.  The payload is
/// accepted exactly when it is the encoding of a list of strings.
pub fn decode_strings(bytes: &[u8]) -> (r: Result<Vec<String>, ContractError>)
    ensures
        match r {
            Ok(list) => spec_decode_strings(bytes@) == Some(strings(list@)) && encode_list(
                utf8_fields(strings(list@)),
            ) == bytes@,
            Err(e) => e == ContractError::InvalidData && spec_decode_strings(bytes@) is None
                && forall|list: Seq<Seq<char>>| encode_list(utf8_fields(list)) != bytes@,
        },
{
    proof {
        assert(bytes@.len() == bytes.len());
        assert forall|list: Seq<Seq<char>>|
            (spec_decode_strings(bytes@) == Some(list)) == (#[trigger] encode_list(
                utf8_fields(list),
            ) == bytes@) by {
            lemma_decode_strings_iff_encode(bytes@, list);
        }
    }
    let items: Vec<Vec<u8>> = match crate::rlp_codec::decode(bytes) {
        None => {
            return Err(ContractError::InvalidData);
        },
        Some(items) => items,
    };
    let mut list: Vec<String> = Vec::new();
    let mut i: usize = 0;
    while i < items.len()
        invariant
            i <= items.len(),
            list@.len() == i,
            decode_list(bytes@) == Some(views(items@)),
            forall|list: Seq<Seq<char>>|
                (spec_decode_strings(bytes@) == Some(list)) == (#[trigger] encode_list(
                    utf8_fields(list),
                ) == bytes@),
            forall|k: int|
                0 <= k < i ==> valid_utf8(#[trigger] items@[k]@) && list@[k]@ == decode_utf8(
                    items@[k]@,
                ),
        decreases items.len() - i,
    {
        match utf8_to_string(slice_to_vec(items[i].as_slice())) {
            None => {
                assert(!valid_utf8(views(items@)[i as int]));
                return Err(ContractError::InvalidData);
            },
            Some(text) => {
                list.push(text);
            },
        }
        i = i + 1;
    }
    proof {
        let raw = views(items@);
        assert forall|k: int| 0 <= k < raw.len() implies valid_utf8(#[trigger] raw[k]) by {
            assert(valid_utf8(items@[k]@));
        }
        assert(strings(list@) =~= Seq::new(raw.len(), |k: int| decode_utf8(raw[k])));
    }
    Ok(list)
}

/// Takes the fields of a transfer from a list of strings that starts with
/// the method tag.
pub fn decode_cross_transfer(ls: &[String]) -> (m: CrossTransfer)
    requires
        ls@.len() >= 5,
    ensures
        m@ == spec_decode_cross_transfer(strings(ls@)),
{
    CrossTransfer {
        from: ls[1].clone(),
        to: ls[2].clone(),
        value: read_amount(&ls[3]),
        data: ls[4].as_str().as_bytes_vec(),
    }
}

/// Takes the fields of a revert from a list of strings that starts with the
/// method tag.
pub fn decode_cross_transfer_revert(ls: &[String]) -> (m: CrossTransferRevert)
    requires
        ls@.len() >= 3,
    ensures
        m@ == spec_decode_cross_transfer_revert(strings(ls@)),
{
    CrossTransferRevert { from: ls[1].clone(), value: read_amount(&ls[2]) }
}

/// Tells which message a list of strings spells and takes its fields.
pub fn decode_message(ls: &[String]) -> (r: Result<Message, ContractError>)
    ensures
        match r {
            Ok(m) => spec_decode_message(strings(ls@)) == Ok::<MessageView, ContractError>(m@),
            Err(e) => spec_decode_message(strings(ls@)) == Err::<MessageView, ContractError>(e),
        },
{
    if ls.len() == 0 {
        return Err(ContractError::InvalidData);
    }
    if same_text(ls[0].as_str(), X_CROSS_TRANSFER) {
        if ls.len() < 5 {
            Err(ContractError::InvalidData)
        } else {
            Ok(Message::CrossTransfer(decode_cross_transfer(ls)))
        }
    } else if same_text(ls[0].as_str(), X_CROSS_TRANSFER_REVERT) {
        if ls.len() < 3 {
            Err(ContractError::InvalidData)
        } else {
            Ok(Message::CrossTransferRevert(decode_cross_transfer_revert(ls)))
        }
    } else {
        Err(ContractError::InvalidMethod)
    }
}

/// Decodes a payload into the message it carries.
pub fn decode(bytes: &[u8]) -> (r: Result<Message, ContractError>)
    ensures
        match r {
            Ok(m) => spec_decode(bytes@) == Ok::<MessageView, ContractError>(m@),
            Err(e) => spec_decode(bytes@) == Err::<MessageView, ContractError>(e),
        },
{
    match decode_strings(bytes) {
        Err(e) => Err(e),
        Ok(list) => decode_message(list.as_slice()),
    }
}

/// Round trip of a transfer: decoding the wire form of a transfer whose
/// payload is well-formed UTF-8 gives the same transfer, whatever its amount.
pub proof fn lemma_decode_of_encode_cross_transfer(m: CrossTransferView)
    requires
        valid_utf8(m.data),
        fits(spec_encode_cross_transfer(m).len()),
    ensures
        spec_decode(spec_encode_cross_transfer(m)) == Ok::<MessageView, ContractError>(
            MessageView::CrossTransfer(m),
        ),
{
    broadcast use {encode_utf8_valid_utf8, encode_utf8_decode_utf8, decode_utf8_encode_utf8};

    let fields = cross_transfer_fields(m);
    let b = encode_list(fields);
    lemma_decode_list_iff_encode_list(b, fields);
    lemma_decimal_digits(m.value as nat);
    lemma_digits_valid_utf8(decimal(m.value as nat));
    lemma_parse_decimal_of_decimal(m.value);
    assert(all_valid_utf8(fields));
    let list = spec_decode_strings(b)->0;
    assert(list[0] == X_CROSS_TRANSFER@);
    assert(list[1] == m.from);
    assert(list[2] == m.to);
    assert(encode_utf8(list[3]) == decimal(m.value as nat));
    assert(encode_utf8(list[4]) == m.data);
}

/// Round trip of a revert: decoding the wire form of a revert gives the same
/// revert, whatever its amount.
pub proof fn lemma_decode_of_encode_cross_transfer_revert(m: CrossTransferRevertView)
    requires
        fits(spec_encode_cross_transfer_revert(m).len()),
    ensures
        spec_decode(spec_encode_cross_transfer_revert(m)) == Ok::<MessageView, ContractError>(
            MessageView::CrossTransferRevert(m),
        ),
{
    broadcast use {encode_utf8_valid_utf8, encode_utf8_decode_utf8, decode_utf8_encode_utf8};

    let fields = cross_transfer_revert_fields(m);
    let b = encode_list(fields);
    lemma_decode_list_iff_encode_list(b, fields);
    lemma_decimal_digits(m.value as nat);
    lemma_digits_valid_utf8(decimal(m.value as nat));
    lemma_parse_decimal_of_decimal(m.value);
    lemma_tags();
    assert(all_valid_utf8(fields));
    let list = spec_decode_strings(b)->0;
    assert(list[0] == X_CROSS_TRANSFER_REVERT@);
    assert(list[1] == m.from);
    assert(encode_utf8(list[2]) == decimal(m.value as nat));
}

/// The amount of a transfer can be read off its wire form whatever its
/// payload holds: the wire form is a list of five byte strings, and the
/// fourth is the decimal notation of the amount.
pub proof fn lemma_amount_on_the_wire(m: CrossTransferView)
    requires
        fits(spec_encode_cross_transfer(m).len()),
    ensures
        decode_list(spec_encode_cross_transfer(m)) == Some(cross_transfer_fields(m)),
        cross_transfer_fields(m).len() == 5,
        parse_decimal(cross_transfer_fields(m)[3]) == Some(m.value),
{
    lemma_decode_list_iff_encode_list(spec_encode_cross_transfer(m), cross_transfer_fields(m));
    lemma_parse_decimal_of_decimal(m.value);
}

} // verus!
