use smc_lib::io::ValError;
use smc_lib::structs::SMCVal;
use smc_lib::value::SmcValue;

fn payload(head: &[u8]) -> [u8; 32] {
    let mut bytes = [0u8; 32];
    bytes[..head.len()].copy_from_slice(head);
    bytes
}

#[test]
fn integers_in_base_ten() {
    assert_eq!(SmcValue::U8(0).plain_text(), Some("0".to_string()));
    assert_eq!(SmcValue::U8(255).plain_text(), Some("255".to_string()));
    assert_eq!(SmcValue::U16(0x1234).plain_text(), Some("4660".to_string()));
    assert_eq!(SmcValue::U32(u32::MAX).plain_text(), Some("4294967295".to_string()));
    assert_eq!(SmcValue::U64(u64::MAX).plain_text(), Some(u64::MAX.to_string()));
    assert_eq!(SmcValue::U64(10).plain_text(), Some("10".to_string()));
    assert_eq!(SmcValue::U64(1_000_000).plain_text(), Some("1000000".to_string()));
    assert_eq!(SmcValue::I8(-128).plain_text(), Some("-128".to_string()));
    assert_eq!(SmcValue::I8(127).plain_text(), Some("127".to_string()));
    assert_eq!(SmcValue::I16(-2).plain_text(), Some("-2".to_string()));
    assert_eq!(SmcValue::I32(i32::MIN).plain_text(), Some(i32::MIN.to_string()));
    assert_eq!(SmcValue::I64(i64::MIN).plain_text(), Some(i64::MIN.to_string()));
    assert_eq!(SmcValue::I64(i64::MAX).plain_text(), Some(i64::MAX.to_string()));
    assert_eq!(SmcValue::I64(0).plain_text(), Some("0".to_string()));
    assert_eq!(SmcValue::I64(-1).plain_text(), Some("-1".to_string()));
}

#[test]
fn integers_in_base_ten_agree_with_the_standard_rendering() {
    let mut seed: u64 = 0x0123_4567_89ab_cdef;
    for _ in 0..2000 {
        seed ^= seed << 13;
        seed ^= seed >> 7;
        seed ^= seed << 17;
        let shifted = seed >> (seed % 64);
        assert_eq!(SmcValue::U64(shifted).plain_text(), Some(format!("{}", shifted)));
        assert_eq!(SmcValue::I64(seed as i64).plain_text(), Some(format!("{}", seed as i64)));
        assert_eq!(SmcValue::I32(seed as i32).plain_text(), Some(format!("{}", seed as i32)));
    }
}

#[test]
fn flags_and_text() {
    assert_eq!(SmcValue::Bool(true).plain_text(), Some("true".to_string()));
    assert_eq!(SmcValue::Bool(false).plain_text(), Some("false".to_string()));
    assert_eq!(SmcValue::Chars("j314".to_string()).plain_text(), Some("j314".to_string()));
    assert_eq!(SmcValue::Chars(String::new()).plain_text(), Some(String::new()));
}

#[test]
fn floating_values_have_no_plain_text() {
    assert_eq!(SmcValue::F32 { le: 0x3F80_0000, be: 0x0000_803F }.plain_text(), None);
    assert_eq!(SmcValue::Ioft48_16(0x0001_8000).plain_text(), None);
}

#[test]
fn float_text_gives_both_readings_unless_they_coincide() {
    let le = 0x3F80_0000u32;
    let be = 0x0000_803Fu32;
    let le_text = format!("{}", f32::from_bits(le));
    let be_text = format!("{}", f32::from_bits(be));
    assert_eq!(
        SmcValue::float_text(le, be, &le_text, &be_text),
        format!("le={}, be={}", f32::from_bits(le), f32::from_bits(be))
    );
    assert_eq!(SmcValue::float_text(le, be, "1", "x"), "le=1, be=x");
    assert_eq!(SmcValue::float_text(0x4200_0042, 0x4200_0042, "32.00025", "ignored"), "32.00025");
}

#[test]
fn value_line() {
    let val = SMCVal { key: *b"ABCD", data_size: 2, data_type: *b"ui16", bytes: payload(&[0x34, 0x12, 0xff]) };
    assert_eq!(val.to_text(Some("4660")), "ABCD ui16 size: 2(bytes 34 12) value: 4660");
    assert_eq!(val.to_text(None), "ABCD ui16 size: 2(bytes 34 12)");
    let wide = SMCVal { key: *b"wide", data_size: 40, data_type: *b"hex_", bytes: [0x0a; 32] };
    assert_eq!(wide.to_text(None), format!("wide hex_ size: 40(bytes{})", " 0a".repeat(32)));
    let short = SMCVal { key: *b"ACLC", data_size: 1, data_type: *b"ui8 ", bytes: payload(&[0xf0]) };
    assert_eq!(short.to_text(Some("240")), "ACLC ui8  size: 1(bytes f0) value: 240");
}

#[test]
fn value_line_without_data() {
    let val = SMCVal { key: *b"ABCD", data_size: 0, data_type: *b"ui16", bytes: payload(&[1, 2]) };
    assert_eq!(val.to_text(Some("513")), "no data");
    assert_eq!(val.to_text(None), "no data");
    assert_eq!(SMCVal::default().to_text(None), "no data");
}

#[test]
fn error_line_grows_with_what_was_learned() {
    let first = ValError { err_code: 5, index: 7, key: None, data_size: None, data_type: None };
    assert_eq!(first.to_text("(os/kern) failure"), "index: 7, error: (os/kern) failure");
    let second = ValError { key: Some(u32::from_be_bytes(*b"ABCD")), ..first };
    assert_eq!(second.to_text("(os/kern) failure"), "ABCD index: 7, error: (os/kern) failure");
    let third = ValError {
        data_size: Some(2),
        data_type: Some(u32::from_be_bytes(*b"ui16")),
        ..second
    };
    assert_eq!(
        third.to_text("(os/kern) failure"),
        "ABCD ui16 size: 2 index: 7, error: (os/kern) failure"
    );
    let odd = ValError { key: Some(0xff41_4243), index: u32::MAX, ..first };
    assert_eq!(odd.to_text(""), "\u{FFFD}ABC index: 4294967295, error: ");
}
