use smc_lib::command::{parse_hex, parse_key, CommandError};

#[test]
fn key_of_four_bytes_is_accepted() {
    assert_eq!(parse_key("TB0T"), Ok(*b"TB0T"));
    assert_eq!(parse_key("#KEY"), Ok(*b"#KEY"));
    assert_eq!(parse_key("ui8 "), Ok(*b"ui8 "));
    assert_eq!(parse_key("\u{e9}12"), Ok([0xc3, 0xa9, b'1', b'2']));
}

#[test]
fn key_of_other_length_is_invalid() {
    for key in ["", "T", "TB0", "TB0TX", "\u{e9}123", "\u{1F600}1"] {
        assert_eq!(parse_key(key), Err(CommandError::InvalidKey));
    }
}

#[test]
fn hex_text_spells_bytes() {
    assert_eq!(parse_hex("031000"), Ok(vec![0x03, 0x10, 0x00]));
    assert_eq!(parse_hex("03"), Ok(vec![0x03]));
    assert_eq!(parse_hex("deadBEEF"), Ok(vec![0xde, 0xad, 0xbe, 0xef]));
    assert_eq!(parse_hex("00ff7f80"), Ok(vec![0x00, 0xff, 0x7f, 0x80]));
    assert_eq!(parse_hex(""), Ok(vec![]));
}

#[test]
fn hex_text_of_full_buffer_is_accepted() {
    let text = "a5".repeat(32);
    assert_eq!(parse_hex(&text), Ok(vec![0xa5; 32]));
}

#[test]
fn hex_text_errors() {
    assert_eq!(parse_hex("0\u{e9}"), Err(CommandError::ValueNotAscii));
    assert_eq!(parse_hex("\u{e9}"), Err(CommandError::ValueNotAscii));
    assert_eq!(parse_hex("031"), Err(CommandError::InvalidValue));
    assert_eq!(parse_hex("0"), Err(CommandError::InvalidValue));
    assert_eq!(parse_hex(&"00".repeat(33)), Err(CommandError::ValueTooLong));
    assert_eq!(parse_hex(&"zz".repeat(33)), Err(CommandError::ValueTooLong));
    assert_eq!(parse_hex("zz"), Err(CommandError::NotHex { chunk: *b"zz" }));
    assert_eq!(parse_hex("0x10"), Err(CommandError::NotHex { chunk: *b"0x" }));
    assert_eq!(parse_hex("00g1zz"), Err(CommandError::NotHex { chunk: *b"g1" }));
    assert_eq!(parse_hex("001 "), Err(CommandError::NotHex { chunk: *b"1 " }));
    assert_eq!(parse_hex("-1"), Err(CommandError::NotHex { chunk: *b"-1" }));
    assert_eq!(parse_hex("++"), Err(CommandError::NotHex { chunk: *b"++" }));
    assert_eq!(parse_hex("1+"), Err(CommandError::NotHex { chunk: *b"1+" }));
}

#[test]
fn hex_pair_reads_as_the_standard_integer_parser() {
    assert_eq!(parse_hex("+f"), Ok(vec![0x0f]));
    for a in 0u8..128 {
        for b in 0u8..128 {
            let pair = [a, b];
            let text = std::str::from_utf8(&pair).unwrap();
            match u8::from_str_radix(text, 16) {
                Ok(v) => assert_eq!(parse_hex(text), Ok(vec![v])),
                Err(_) => assert_eq!(parse_hex(text), Err(CommandError::NotHex { chunk: pair })),
            }
        }
    }
}

#[test]
fn messages() {
    assert_eq!(CommandError::InvalidKey.message(), "Invalid key!");
    assert_eq!(CommandError::ValueNotAscii.message(), "Value should be ascii!");
    assert_eq!(CommandError::InvalidValue.message(), "Invalid value!");
    assert_eq!(CommandError::ValueTooLong.message(), "value is too long!");
    assert_eq!(CommandError::NotHex { chunk: *b"zz" }.message(), "can not parse zz as hex");
}
