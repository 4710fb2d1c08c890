use cw_hub_bnusd::data_types::decode_strings;
use cw_hub_bnusd::error::ContractError;
use cw_hub_bnusd::rlp_codec::{decode, encode, length_bytes, push_all, write_header, write_string};
use rlp::{DecoderError, Rlp, RlpStream};

const FROM: &str = "btp://0x38.bsc/0x034AaDE86BF402F023Aa17E5725fABC4ab9E9798";
const TO: &str = "btp://0x1.icon/0x03AaDE86BF402F023Aa17E5725fABC4ab9E9798";

fn sample() -> Vec<u8> {
    [
        248, 133, 142, 120, 67, 114, 111, 115, 115, 84, 114, 97, 110, 115, 102, 101, 114, 184,
        57, 98, 116, 112, 58, 47, 47, 48, 120, 51, 56, 46, 98, 115, 99, 47, 48, 120, 48, 51,
        52, 65, 97, 68, 69, 56, 54, 66, 70, 52, 48, 50, 70, 48, 50, 51, 65, 97, 49, 55, 69, 53,
        55, 50, 53, 102, 65, 66, 67, 52, 97, 98, 57, 69, 57, 55, 57, 56, 184, 56, 98, 116, 112,
        58, 47, 47, 48, 120, 49, 46, 105, 99, 111, 110, 47, 48, 120, 48, 51, 65, 97, 68, 69,
        56, 54, 66, 70, 52, 48, 50, 70, 48, 50, 51, 65, 97, 49, 55, 69, 53, 55, 50, 53, 102,
        65, 66, 67, 52, 97, 98, 57, 69, 57, 55, 57, 56, 100, 132, 100, 97, 116, 97,
    ]
    .into()
}

#[test]
fn test() {
    let bytes: Vec<u8> = sample();
    let rlp: Rlp = Rlp::new(&bytes);
    let ddata: Result<Vec<String>, DecoderError> = rlp.as_list();
    println!("this is {:?} {:?} {:?}", bytes, ddata, rlp);

    // The list ends after 135 bytes; the five bytes behind it belong to no list.
    assert_eq!(decode_strings(&bytes), Err(ContractError::InvalidData));
    let list = decode_strings(&bytes[..135]).unwrap();
    assert_eq!(list, vec!["xCrossTransfer".to_string(), FROM.to_string(), TO.to_string(), "d".to_string()]);
    assert_eq!(ddata.unwrap()[..4], list[..]);
}

#[test]
fn encodetest() {
    let method = "xCrossTransfer";
    let val: u32 = 100;

    let mut calldata = RlpStream::new_list(4);
    calldata.append(&method.to_string());
    calldata.append(&FROM);
    calldata.append(&TO);
    calldata.append(&val);
    calldata.append(&"data");

    let encoded = calldata.as_raw().to_vec();
    println!("this is {:?}", encoded);
    assert_eq!(encoded, sample());

    let items: Vec<Vec<u8>> = vec![
        method.as_bytes().to_vec(),
        FROM.as_bytes().to_vec(),
        TO.as_bytes().to_vec(),
        vec![100],
    ];
    let mut ours = encode(&items);
    assert_eq!(ours, encoded[..135].to_vec());
    write_string(&mut ours, b"data");
    assert_eq!(ours, encoded);
}

#[test]
fn encode_small_lists() {
    assert_eq!(encode(&[]), vec![0xc0]);
    assert_eq!(encode(&[vec![]]), vec![0xc1, 0x80]);
    assert_eq!(encode(&[b"dog".to_vec()]), vec![0xc4, 0x83, b'd', b'o', b'g']);
    assert_eq!(
        encode(&[b"cat".to_vec(), b"dog".to_vec()]),
        vec![0xc8, 0x83, b'c', b'a', b't', 0x83, b'd', b'o', b'g']
    );
}

#[test]
fn encode_single_bytes() {
    assert_eq!(encode(&[vec![0x00]]), vec![0xc1, 0x00]);
    assert_eq!(encode(&[vec![0x7f]]), vec![0xc1, 0x7f]);
    assert_eq!(encode(&[vec![0x80]]), vec![0xc2, 0x81, 0x80]);
    assert_eq!(encode(&[vec![0xff]]), vec![0xc2, 0x81, 0xff]);
}

#[test]
fn encode_at_the_short_limit() {
    let mut out: Vec<u8> = Vec::new();
    write_string(&mut out, &[7u8; 55]);
    assert_eq!(out.len(), 56);
    assert_eq!(out[0], 0xb7);

    let mut out: Vec<u8> = Vec::new();
    write_string(&mut out, &[7u8; 56]);
    assert_eq!(out.len(), 58);
    assert_eq!(&out[..2], &[0xb8, 56]);

    let mut out: Vec<u8> = Vec::new();
    write_string(&mut out, &[7u8; 256]);
    assert_eq!(out.len(), 259);
    assert_eq!(&out[..3], &[0xb9, 1, 0]);

    // A list whose payload is 55 bytes, then 56 bytes.
    let short = encode(&[vec![7u8; 54]]);
    assert_eq!(&short[..2], &[0xf7, 0xb6]);
    let long = encode(&[vec![7u8; 55]]);
    assert_eq!(&long[..3], &[0xf8, 56, 0xb7]);
}

#[test]
fn headers_and_lengths() {
    assert_eq!(length_bytes(0), Vec::<u8>::new());
    assert_eq!(length_bytes(1), vec![1]);
    assert_eq!(length_bytes(255), vec![255]);
    assert_eq!(length_bytes(256), vec![1, 0]);
    assert_eq!(length_bytes(0x01_02_03), vec![1, 2, 3]);

    let mut out: Vec<u8> = vec![9];
    write_header(&mut out, 0x80, 0);
    write_header(&mut out, 0xc0, 55);
    write_header(&mut out, 0xc0, 1024);
    assert_eq!(out, vec![9, 0x80, 0xf7, 0xf9, 4, 0]);

    let mut out: Vec<u8> = vec![1, 2];
    push_all(&mut out, &[3, 4, 5]);
    assert_eq!(out, vec![1, 2, 3, 4, 5]);
}

#[test]
fn decode_gives_back_what_encode_took() {
    let lists: Vec<Vec<Vec<u8>>> = vec![
        vec![],
        vec![vec![]],
        vec![vec![0x00], vec![0x7f], vec![0x80], vec![0xff]],
        vec![b"xCrossTransfer".to_vec(), vec![1u8; 55], vec![2u8; 56], vec![3u8; 300]],
        vec![vec![0xc0, 0xc1], vec![0xf8, 0x00]],
        vec![vec![4u8; 70_000]],
    ];
    for items in lists {
        let bytes = encode(&items);
        assert_eq!(decode(&bytes), Some(items));
    }
}

#[test]
fn decode_refuses_what_is_not_a_list_of_strings() {
    // nothing at all
    assert_eq!(decode(&[]), None);
    // a string, not a list
    assert_eq!(decode(&[0x83, b'd', b'o', b'g']), None);
    assert_eq!(decode(&[0x05]), None);
    // a list inside the list
    assert_eq!(decode(&[0xc1, 0xc0]), None);
    // payload shorter than announced
    assert_eq!(decode(&[0xc4, 0x83, b'd', b'o']), None);
    // payload longer than announced
    assert_eq!(decode(&[0xc4, 0x83, b'd', b'o', b'g', 0x00]), None);
    // an item that runs over the end of the list
    assert_eq!(decode(&[0xc3, 0x83, b'd', b'o']), None);
    // a header without its length bytes
    assert_eq!(decode(&[0xf8]), None);
    assert_eq!(decode(&[0xc2, 0xb8, 0x01]), None);
}

#[test]
fn decode_refuses_encodings_that_could_be_shorter() {
    // a single byte below 0x80 behind a header
    assert_eq!(decode(&[0xc2, 0x81, 0x05]), None);
    // the long form for a short string
    let mut long_form: Vec<u8> = vec![0xc5, 0xb8, 0x03, b'd', b'o', b'g'];
    assert_eq!(decode(&long_form), None);
    long_form = vec![0xf8, 0x04, 0x83, b'd', b'o', b'g'];
    assert_eq!(decode(&long_form), None);
    // a length with a leading zero
    let mut padded: Vec<u8> = vec![0xf9, 0x00, 0x3b, 0xb9, 0x00, 0x38];
    padded.extend_from_slice(&[1u8; 56]);
    assert_eq!(decode(&padded), None);
    let mut padded_list: Vec<u8> = vec![0xf9, 0x00, 0x3a, 0xb8, 0x38];
    padded_list.extend_from_slice(&[1u8; 56]);
    assert_eq!(decode(&padded_list), None);
    // the same without the padding is fine
    let mut plain: Vec<u8> = vec![0xf8, 0x3a, 0xb8, 0x38];
    plain.extend_from_slice(&[1u8; 56]);
    assert_eq!(decode(&plain), Some(vec![vec![1u8; 56]]));
}

#[test]
fn encode_agrees_with_the_rlp_crate() {
    let lists: Vec<Vec<Vec<u8>>> = vec![
        vec![],
        vec![vec![], vec![0x00], vec![0x7f], vec![0x80]],
        vec![b"xCrossTransferRevert".to_vec(), FROM.as_bytes().to_vec(), b"340282366920938463463374607431768211455".to_vec()],
        vec![vec![5u8; 55], vec![6u8; 56], vec![7u8; 255], vec![8u8; 256], vec![9u8; 65_536]],
    ];
    for items in lists {
        let mut stream = RlpStream::new_list(items.len());
        for item in items.iter() {
            stream.append(item);
        }
        assert_eq!(encode(&items), stream.out().to_vec());
    }
}

#[test]
fn strings_must_be_utf8() {
    let fine = encode(&[b"caf\xc3\xa9".to_vec(), "日本".as_bytes().to_vec()]);
    assert_eq!(decode_strings(&fine), Ok(vec!["café".to_string(), "日本".to_string()]));
    // a lone continuation byte, an overlong form, a surrogate, a truncated character
    for bad in [vec![0x80u8], vec![0xc0, 0x80], vec![0xed, 0xa0, 0x80], vec![0xe6, 0x97], vec![0xff]] {
        let bytes = encode(&[b"ok".to_vec(), bad]);
        assert_eq!(decode_strings(&bytes), Err(ContractError::InvalidData));
    }
    assert_eq!(decode_strings(&[0x83, b'd', b'o', b'g']), Err(ContractError::InvalidData));
}

fn next(state: &mut u64) -> u64 {
    *state = state.wrapping_mul(6364136223846793005).wrapping_add(1442695040888963407);
    *state >> 33
}

#[test]
fn random_lists_round_trip_and_agree_with_the_rlp_crate() {
    let mut state: u64 = 0x2545f4914f6cdd1d;
    for _ in 0..300 {
        let count = (next(&mut state) % 6) as usize;
        let mut items: Vec<Vec<u8>> = Vec::new();
        for _ in 0..count {
            let len = match next(&mut state) % 5 {
                0 => 0,
                1 => 1,
                2 => (next(&mut state) % 60) as usize,
                3 => 50 + (next(&mut state) % 12) as usize,
                _ => (next(&mut state) % 400) as usize,
            };
            items.push((0..len).map(|_| next(&mut state) as u8).collect());
        }
        let bytes = encode(&items);
        let mut stream = RlpStream::new_list(items.len());
        for item in items.iter() {
            stream.append(item);
        }
        assert_eq!(bytes, stream.out().to_vec());
        assert_eq!(decode(&bytes), Some(items));
    }
}

#[test]
fn whatever_decodes_encodes_to_the_same_bytes() {
    let mut state: u64 = 0x9e3779b97f4a7c15;
    let mut accepted = 0;
    for _ in 0..20_000 {
        let len = 1 + (next(&mut state) % 7) as usize;
        let mut bytes: Vec<u8> = vec![0xc0 + (len as u8 - 1)];
        for _ in 1..len {
            let b = match next(&mut state) % 4 {
                0 => 0x80 + (next(&mut state) % 4) as u8,
                1 => (next(&mut state) % 0x80) as u8,
                _ => next(&mut state) as u8,
            };
            bytes.push(b);
        }
        if let Some(items) = decode(&bytes) {
            accepted += 1;
            assert_eq!(encode(&items), bytes);
        }
    }
    assert!(accepted > 100);
}
