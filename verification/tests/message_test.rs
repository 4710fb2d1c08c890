use cw_hub_bnusd::constants::{X_CROSS_TRANSFER, X_CROSS_TRANSFER_REVERT};
use cw_hub_bnusd::data_types::{
    decode, decode_cross_transfer, decode_cross_transfer_revert, decode_message, decode_strings,
    CrossTransfer, CrossTransferRevert, Message,
};
use cw_hub_bnusd::error::ContractError;
use cw_hub_bnusd::rlp_codec::encode;
use rlp::RlpStream;

const FROM: &str = "btp://0x38.bsc/0x034AaDE86BF402F023Aa17E5725fABC4ab9E9798";
const TO: &str = "btp://0x1.icon/0x03AaDE86BF402F023Aa17E5725fABC4ab9E9798";

fn wire(fields: &[&str]) -> Vec<u8> {
    let items: Vec<Vec<u8>> = fields.iter().map(|f| f.as_bytes().to_vec()).collect();
    encode(&items)
}

fn texts(fields: &[&str]) -> Vec<String> {
    fields.iter().map(|f| f.to_string()).collect()
}

#[test]
fn wire_form_of_a_transfer() {
    let transfer = CrossTransfer {
        from: FROM.to_string(),
        to: TO.to_string(),
        value: 100,
        data: b"data".to_vec(),
    };
    let bytes = transfer.encode_cross_transfer_message();

    let mut stream = RlpStream::new_list(5);
    stream.append(&"xCrossTransfer");
    stream.append(&FROM);
    stream.append(&TO);
    stream.append(&"100");
    stream.append(&"data");
    assert_eq!(bytes, stream.out().to_vec());

    assert_eq!(&bytes[..3], &[0xf8, 141, 0x8e]);
    assert_eq!(&bytes[bytes.len() - 9..], &[0x83, b'1', b'0', b'0', 0x84, b'd', b'a', b't', b'a']);
    assert_eq!(
        decode_strings(&bytes),
        Ok(texts(&["xCrossTransfer", FROM, TO, "100", "data"]))
    );
}

#[test]
fn wire_form_of_a_revert() {
    let revert = CrossTransferRevert { from: "btp://n/a".to_string(), value: 7 };
    let bytes = revert.encode_cross_transfer_revert_message();
    let mut expected: Vec<u8> = vec![0xe0, 0x94];
    expected.extend_from_slice(b"xCrossTransferRevert");
    expected.push(0x89);
    expected.extend_from_slice(b"btp://n/a");
    expected.push(b'7');
    assert_eq!(bytes, expected);
}

#[test]
fn transfer_round_trip_at_the_boundaries() {
    for value in [0u128, 1, 55, 56, 1u128 << 64, u128::MAX - 1, u128::MAX] {
        for data in [Vec::new(), b"data".to_vec(), vec![0u8], vec![b'x'; 300], "ünï".as_bytes().to_vec()] {
            let transfer = CrossTransfer { from: FROM.to_string(), to: TO.to_string(), value, data };
            let bytes = transfer.encode_cross_transfer_message();
            assert_eq!(decode(&bytes), Ok(Message::CrossTransfer(transfer)));
        }
    }
}

#[test]
fn revert_round_trip_at_the_boundaries() {
    for value in [0u128, 1, u128::MAX] {
        let revert = CrossTransferRevert { from: FROM.to_string(), value };
        let bytes = revert.encode_cross_transfer_revert_message();
        assert_eq!(decode(&bytes), Ok(Message::CrossTransferRevert(revert)));
    }
}

#[test]
fn a_payload_that_is_not_text_does_not_come_back() {
    let transfer = CrossTransfer {
        from: FROM.to_string(),
        to: TO.to_string(),
        value: 1,
        data: vec![0xff],
    };
    let bytes = transfer.encode_cross_transfer_message();
    assert_eq!(decode(&bytes), Err(ContractError::InvalidData));
}

#[test]
fn unknown_tags_are_no_method() {
    assert_eq!(decode(&wire(&["foo", FROM, TO, "1", "data"])), Err(ContractError::InvalidMethod));
    assert_eq!(decode(&wire(&["foo"])), Err(ContractError::InvalidMethod));
    assert_eq!(decode(&wire(&[""])), Err(ContractError::InvalidMethod));
    assert_eq!(decode(&wire(&["xcrosstransfer", FROM, TO, "1", ""])), Err(ContractError::InvalidMethod));
    assert_eq!(decode(&wire(&["xCrossTransfer ", FROM, TO, "1", ""])), Err(ContractError::InvalidMethod));
    assert_eq!(decode_message(&texts(&["foo", "a", "b"])), Err(ContractError::InvalidMethod));
}

#[test]
fn short_lists_are_no_data() {
    assert_eq!(decode(&wire(&[])), Err(ContractError::InvalidData));
    assert_eq!(decode(&wire(&["xCrossTransfer"])), Err(ContractError::InvalidData));
    assert_eq!(decode(&wire(&["xCrossTransfer", FROM, TO, "1"])), Err(ContractError::InvalidData));
    assert_eq!(decode(&wire(&["xCrossTransferRevert"])), Err(ContractError::InvalidData));
    assert_eq!(decode(&wire(&["xCrossTransferRevert", FROM])), Err(ContractError::InvalidData));
    assert_eq!(decode_message(&[]), Err(ContractError::InvalidData));
    assert_eq!(decode(&[]), Err(ContractError::InvalidData));
    assert_eq!(decode(&[0xc1]), Err(ContractError::InvalidData));
}

#[test]
fn longer_lists_are_read_by_position() {
    assert_eq!(
        decode(&wire(&["xCrossTransfer", FROM, TO, "12", "data", "more"])),
        Ok(Message::CrossTransfer(CrossTransfer {
            from: FROM.to_string(),
            to: TO.to_string(),
            value: 12,
            data: b"data".to_vec(),
        }))
    );
    assert_eq!(
        decode(&wire(&["xCrossTransferRevert", FROM, "12", "more"])),
        Ok(Message::CrossTransferRevert(CrossTransferRevert { from: FROM.to_string(), value: 12 }))
    );
}

#[test]
fn fields_by_position() {
    let list = texts(&[X_CROSS_TRANSFER, "a", "b", "+42", "çé"]);
    assert_eq!(
        decode_cross_transfer(&list),
        CrossTransfer { from: "a".to_string(), to: "b".to_string(), value: 42, data: "çé".as_bytes().to_vec() }
    );
    let list = texts(&[X_CROSS_TRANSFER_REVERT, "a", "340282366920938463463374607431768211455"]);
    assert_eq!(
        decode_cross_transfer_revert(&list),
        CrossTransferRevert { from: "a".to_string(), value: u128::MAX }
    );
}

#[test]
fn an_amount_that_is_no_number_counts_as_zero() {
    for amount in ["", "d", "-1", "1.5", "340282366920938463463374607431768211456"] {
        let list = texts(&[X_CROSS_TRANSFER, "a", "b", amount, ""]);
        assert_eq!(decode_cross_transfer(&list).value, 0);
        let list = texts(&[X_CROSS_TRANSFER_REVERT, "a", amount]);
        assert_eq!(decode_cross_transfer_revert(&list).value, 0);
    }
}
