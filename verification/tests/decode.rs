use smc_lib::structs::SMCVal;
use smc_lib::value::{parse_smc_value, SmcTypeCode, SmcValue, IOFT_FRACTION_DIVISOR};

fn payload(head: &[u8]) -> [u8; 32] {
    let mut bytes = [0u8; 32];
    bytes[..head.len()].copy_from_slice(head);
    bytes
}

fn decode(tag: &[u8; 4], head: &[u8]) -> Option<SmcValue> {
    SMCVal { key: *b"TEST", data_size: head.len() as u32, data_type: *tag, bytes: payload(head) }
        .data_value()
}

#[test]
fn recognises_every_type_tag() {
    let table: [(&[u8; 4], SmcTypeCode); 12] = [
        (b"flt ", SmcTypeCode::Flt),
        (b"ui8 ", SmcTypeCode::Ui8),
        (b"si8 ", SmcTypeCode::Si8),
        (b"si16", SmcTypeCode::Si16),
        (b"ui16", SmcTypeCode::Ui16),
        (b"ui32", SmcTypeCode::Ui32),
        (b"si32", SmcTypeCode::Si32),
        (b"si64", SmcTypeCode::Si64),
        (b"ui64", SmcTypeCode::Ui64),
        (b"ch8*", SmcTypeCode::Chars),
        (b"flag", SmcTypeCode::Flag),
        (b"ioft", SmcTypeCode::Ioft),
    ];
    for (tag, code) in table {
        assert_eq!(SmcTypeCode::from_bytes(tag), Some(code));
    }
}

#[test]
fn unrecognised_tags_decode_to_nothing() {
    for tag in [b"hex_", b"{jst", b"flt\0", b"FLT ", b"ui8\0", b" ui8", b"\0\0\0\0", b"fp88"] {
        assert_eq!(SmcTypeCode::from_bytes(tag), None);
        assert_eq!(decode(tag, &[1, 2, 3, 4]), None);
    }
}

#[test]
fn decodes_ui16_little_endian() {
    assert_eq!(decode(b"ui16", &[0x34, 0x12]), Some(SmcValue::U16(0x1234)));
    let code = SmcTypeCode::from_bytes(b"ui16").unwrap();
    assert_eq!(parse_smc_value(code, &payload(&[0x34, 0x12])), SmcValue::U16(0x1234));
}

#[test]
fn decodes_flag() {
    assert_eq!(decode(b"flag", &[0x00]), Some(SmcValue::Bool(false)));
    assert_eq!(decode(b"flag", &[0x01]), Some(SmcValue::Bool(true)));
    assert_eq!(decode(b"flag", &[0x80]), Some(SmcValue::Bool(true)));
    assert_eq!(decode(b"flag", &[0x00, 0x01]), Some(SmcValue::Bool(false)));
}

#[test]
fn decodes_text_up_to_first_zero() {
    assert_eq!(decode(b"ch8*", b"OK"), Some(SmcValue::Chars("OK".to_string())));
    assert_eq!(decode(b"ch8*", b"AB\0CD"), Some(SmcValue::Chars("AB".to_string())));
    assert_eq!(decode(b"ch8*", b""), Some(SmcValue::Chars(String::new())));
}

#[test]
fn decodes_text_that_fills_the_buffer() {
    let full = [b'x'; 32];
    assert_eq!(decode(b"ch8*", &full), Some(SmcValue::Chars("x".repeat(32))));
}

#[test]
fn decodes_invalid_text_with_replacement() {
    assert_eq!(
        decode(b"ch8*", &[b'a', 0xff, b'b']),
        Some(SmcValue::Chars("a\u{FFFD}b".to_string()))
    );
    assert_eq!(decode(b"ch8*", &[0xc3, 0xa9]), Some(SmcValue::Chars("\u{e9}".to_string())));
}

#[test]
fn decodes_float_in_both_byte_orders() {
    let value = decode(b"flt ", &[0x00, 0x00, 0x80, 0x3F]).unwrap();
    let (le, be) = match value {
        SmcValue::F32 { le, be } => (le, be),
        other => panic!("unexpected {:?}", other),
    };
    assert_eq!(f32::from_bits(le), 1.0);
    assert_eq!(le, 0x3F80_0000);
    assert_eq!(be, 0x0000_803F);
    assert_ne!(f32::from_bits(be), f32::from_bits(le));
    assert_eq!(f32::from_bits(be), f32::from_bits(0x0000_803F));
    assert_eq!(le, u32::from_le_bytes([0x00, 0x00, 0x80, 0x3F]));
    assert_eq!(be, u32::from_be_bytes([0x00, 0x00, 0x80, 0x3F]));
}

#[test]
fn decodes_float_whose_readings_coincide() {
    assert_eq!(
        decode(b"flt ", &[0x42, 0x00, 0x00, 0x42, 0xff]),
        Some(SmcValue::F32 { le: 0x4200_0042, be: 0x4200_0042 })
    );
}

#[test]
fn decodes_eight_bit_integers() {
    assert_eq!(decode(b"ui8 ", &[0xff, 0x01]), Some(SmcValue::U8(255)));
    assert_eq!(decode(b"si8 ", &[0xff]), Some(SmcValue::I8(-1)));
    assert_eq!(decode(b"si8 ", &[0x80]), Some(SmcValue::I8(-128)));
    assert_eq!(decode(b"si8 ", &[0x7f]), Some(SmcValue::I8(127)));
    assert_eq!(decode(b"si8 ", &[0x00]), Some(SmcValue::I8(0)));
}

#[test]
fn decodes_sixteen_bit_integers() {
    assert_eq!(decode(b"si16", &[0xfe, 0xff]), Some(SmcValue::I16(-2)));
    assert_eq!(decode(b"si16", &[0x00, 0x80]), Some(SmcValue::I16(i16::MIN)));
    assert_eq!(decode(b"si16", &[0xff, 0x7f]), Some(SmcValue::I16(i16::MAX)));
    assert_eq!(decode(b"ui16", &[0xff, 0xff, 0x01]), Some(SmcValue::U16(u16::MAX)));
}

#[test]
fn decodes_thirty_two_bit_integers() {
    assert_eq!(decode(b"ui32", &[0x78, 0x56, 0x34, 0x12]), Some(SmcValue::U32(0x1234_5678)));
    assert_eq!(decode(b"ui32", &[0xff; 4]), Some(SmcValue::U32(u32::MAX)));
    assert_eq!(decode(b"si32", &[0xff; 4]), Some(SmcValue::I32(-1)));
    assert_eq!(decode(b"si32", &[0x00, 0x00, 0x00, 0x80]), Some(SmcValue::I32(i32::MIN)));
    assert_eq!(decode(b"si32", &[0xff, 0xff, 0xff, 0x7f]), Some(SmcValue::I32(i32::MAX)));
}

#[test]
fn decodes_sixty_four_bit_integers() {
    let bytes = [0xef, 0xcd, 0xab, 0x89, 0x67, 0x45, 0x23, 0x01];
    assert_eq!(decode(b"ui64", &bytes), Some(SmcValue::U64(0x0123_4567_89ab_cdef)));
    assert_eq!(decode(b"si64", &bytes), Some(SmcValue::I64(0x0123_4567_89ab_cdef)));
    assert_eq!(decode(b"ui64", &[0xff; 8]), Some(SmcValue::U64(u64::MAX)));
    assert_eq!(decode(b"si64", &[0xff; 8]), Some(SmcValue::I64(-1)));
    assert_eq!(decode(b"si64", &[0, 0, 0, 0, 0, 0, 0, 0x80]), Some(SmcValue::I64(i64::MIN)));
    assert_eq!(
        decode(b"si64", &[0xff, 0xff, 0xff, 0xff, 0xff, 0xff, 0xff, 0x7f, 0x55]),
        Some(SmcValue::I64(i64::MAX))
    );
}

#[test]
fn decoded_integers_agree_with_the_standard_conversions() {
    let mut seed: u64 = 0x9e37_79b9_7f4a_7c15;
    for _ in 0..2000 {
        seed ^= seed << 13;
        seed ^= seed >> 7;
        seed ^= seed << 17;
        let b = seed.to_le_bytes();
        assert_eq!(decode(b"ui8 ", &b), Some(SmcValue::U8(b[0])));
        assert_eq!(decode(b"si8 ", &b), Some(SmcValue::I8(b[0] as i8)));
        assert_eq!(decode(b"ui16", &b), Some(SmcValue::U16(u16::from_le_bytes([b[0], b[1]]))));
        assert_eq!(decode(b"si16", &b), Some(SmcValue::I16(i16::from_le_bytes([b[0], b[1]]))));
        let four = [b[0], b[1], b[2], b[3]];
        assert_eq!(decode(b"ui32", &b), Some(SmcValue::U32(u32::from_le_bytes(four))));
        assert_eq!(decode(b"si32", &b), Some(SmcValue::I32(i32::from_le_bytes(four))));
        assert_eq!(decode(b"ui64", &b), Some(SmcValue::U64(u64::from_le_bytes(b))));
        assert_eq!(decode(b"si64", &b), Some(SmcValue::I64(i64::from_le_bytes(b))));
        assert_eq!(decode(b"ioft", &b), Some(SmcValue::Ioft48_16(u64::from_le_bytes(b))));
        assert_eq!(
            decode(b"flt ", &b),
            Some(SmcValue::F32 { le: u32::from_le_bytes(four), be: u32::from_be_bytes(four) })
        );
    }
}

#[test]
fn decodes_fixed_point_raw_and_splits_it() {
    let value = decode(b"ioft", &[0x00, 0x80, 0x01, 0x00, 0x00, 0x00, 0x00, 0x00]);
    assert_eq!(value, Some(SmcValue::Ioft48_16(0x0001_8000)));
    assert_eq!(IOFT_FRACTION_DIVISOR, 65536);
    assert_eq!(SmcValue::ioft_integer_part(0x0001_8000), 1);
    assert_eq!(SmcValue::ioft_fraction_part(0x0001_8000), 0x8000);
    let text = SmcValue::ioft_integer_part(0x0001_8000) as f64
        + SmcValue::ioft_fraction_part(0x0001_8000) as f64 / IOFT_FRACTION_DIVISOR as f64;
    assert_eq!(text, 1.5);
    assert_eq!(SmcValue::ioft_integer_part(u64::MAX), (1 << 48) - 1);
    assert_eq!(SmcValue::ioft_fraction_part(u64::MAX), 0xffff);
    assert_eq!(SmcValue::ioft_integer_part(0xffff), 0);
    assert_eq!(SmcValue::ioft_fraction_part(0x10000), 0);
}

#[test]
fn valid_bytes_are_the_declared_prefix() {
    let bytes: [u8; 32] = core::array::from_fn(|i| i as u8 + 1);
    let val = |data_size| SMCVal { key: *b"TEST", data_size, data_type: *b"hex_", bytes };
    assert_eq!(val(0).valid_bytes(), &[] as &[u8]);
    assert_eq!(val(1).valid_bytes(), &[1]);
    assert_eq!(val(4).valid_bytes(), &[1, 2, 3, 4]);
    assert_eq!(val(32).valid_bytes(), &bytes[..]);
    assert_eq!(val(33).valid_bytes(), &bytes[..]);
    assert_eq!(val(u32::MAX).valid_bytes(), &bytes[..]);
}

#[test]
fn key_and_type_names_as_text() {
    let val = SMCVal { key: *b"TB0T", data_size: 4, data_type: *b"ui8 ", bytes: [0; 32] };
    assert_eq!(val.key_str(), "TB0T");
    assert_eq!(val.data_type_str(), "ui8 ");
    let odd = SMCVal { key: [b'#', 0xff, b'K', 0xfe], data_size: 0, data_type: [0xc3, 0xa9, b'1', 0], bytes: [0; 32] };
    assert_eq!(odd.key_str(), "#\u{FFFD}K\u{FFFD}");
    assert_eq!(odd.data_type_str(), "\u{e9}1\0");
}
