use cw_hub_bnusd::error::ContractError;
use cw_hub_bnusd::network_address::{format_address, parse_network_address, parse_protocol_address};
use cw_hub_bnusd::text::{chars_of, same_bytes, same_text, utf8_to_string};

#[test]
fn parse_the_documented_address() {
    let address = "btp://0x1.icon/0x03AaDE86BF402F023Aa17E5725fABC4ab9E9798";
    assert_eq!(
        parse_network_address(address),
        Ok(("0x1.icon", "0x03AaDE86BF402F023Aa17E5725fABC4ab9E9798"))
    );
    assert_eq!(
        parse_protocol_address(address),
        Ok(("0x1.icon", "0x03AaDE86BF402F023Aa17E5725fABC4ab9E9798"))
    );
}

#[test]
fn format_the_documented_address() {
    assert_eq!(
        format_address("btp", "0x1.icon", "0x03AaDE86BF402F023Aa17E5725fABC4ab9E9798"),
        "btp://0x1.icon/0x03AaDE86BF402F023Aa17E5725fABC4ab9E9798"
    );
    assert_eq!(format_address("a", "b", "c"), "a://b/c");
    assert_eq!(format_address("", "", ""), ":///");
}

#[test]
fn parse_after_format() {
    let cases = [
        ("btp", "0x38.bsc", "0x034AaDE86BF402F023Aa17E5725fABC4ab9E9798"),
        ("btp", "archway", "archway13zjt2swjk0un2fpp3259szed7dsfmv3etdfkumrstlrdcq3szx9szucncp"),
        ("p", "n", "a"),
        ("p:", ":n:", "a/b://c"),
        ("протокол", "сеть", "счёт"),
    ];
    for (protocol, network_id, account) in cases {
        let address = format_address(protocol, network_id, account);
        assert_eq!(parse_network_address(&address), Ok((network_id, account)));
        assert_eq!(parse_protocol_address(&address), Ok((network_id, account)));
    }
}

#[test]
fn the_account_is_everything_behind_the_network_id() {
    assert_eq!(parse_network_address("btp://net/a/b/c"), Ok(("net", "a/b/c")));
    assert_eq!(parse_network_address("btp://net//"), Ok(("net", "/")));
    assert_eq!(parse_network_address("x://y://z/w"), Ok(("y:", "/z/w")));
    assert_eq!(parse_network_address("a/b://c/d"), Ok(("c", "d")));
}

#[test]
fn an_empty_account_is_no_network_address() {
    assert_eq!(parse_network_address("btp://0x1.icon/"), Err(ContractError::MalformedAddress));
    assert_eq!(parse_protocol_address("btp://0x1.icon/"), Ok(("0x1.icon", "")));
}

#[test]
fn malformed_addresses() {
    for text in [
        "", "btp", "btp:", "btp:/", "btp://", "btp://0x1.icon", "btp:/0x1.icon/hx1", "0x1.icon/hx1",
        "://0x1.icon/hx1", "btp:///hx1", ":///", "todo!()", "btp//0x1.icon/hx1", "btp:0x1.icon/hx1",
    ] {
        assert_eq!(parse_network_address(text), Err(ContractError::MalformedAddress));
        assert_eq!(parse_protocol_address(text), Err(ContractError::MalformedAddress));
    }
}

#[test]
fn text_helpers() {
    assert_eq!(chars_of("añ日"), vec!['a', 'ñ', '日']);
    assert_eq!(chars_of(""), Vec::<char>::new());
    assert!(same_text("btp", "btp"));
    assert!(!same_text("btp", "btP"));
    assert!(!same_text("btp", "btpp"));
    assert!(same_bytes(&[], &[]));
    assert!(same_bytes(&[1, 2], &[1, 2]));
    assert!(!same_bytes(&[1, 2], &[1, 3]));
    assert!(!same_bytes(&[1, 2], &[1]));
    assert_eq!(utf8_to_string(vec![0xe6, 0x97, 0xa5]), Some("日".to_string()));
    assert_eq!(utf8_to_string(vec![]), Some(String::new()));
    assert_eq!(utf8_to_string(vec![0xe6, 0x97]), None);
    assert_eq!(utf8_to_string(vec![0xf4, 0x90, 0x80, 0x80]), None);
}
