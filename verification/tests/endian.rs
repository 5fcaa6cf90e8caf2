use smc_lib::endian::{
    i16_from_bits, i32_from_bits, i64_from_bits, i8_from_bits, u16_from_le_bytes,
    u32_from_be_bytes, u32_from_le_bytes, u32_to_be_bytes, u64_from_le_bytes,
};

#[test]
fn big_endian_words() {
    assert_eq!(u32_from_be_bytes(b"TB0T"), 0x5442_3054);
    assert_eq!(u32_from_be_bytes(b"#KEY"), 0x234B_4559);
    assert_eq!(u32_from_be_bytes(&[0, 0, 0, 1]), 1);
    assert_eq!(u32_from_be_bytes(&[0xff; 4]), u32::MAX);
    assert_eq!(u32_to_be_bytes(0x5442_3054), *b"TB0T");
    assert_eq!(u32_to_be_bytes(1), [0, 0, 0, 1]);
    assert_eq!(u32_to_be_bytes(u32::MAX), [0xff; 4]);
}

#[test]
fn big_endian_round_trip() {
    let mut seed: u32 = 0x2545_f491;
    for _ in 0..5000 {
        seed ^= seed << 13;
        seed ^= seed >> 17;
        seed ^= seed << 5;
        assert_eq!(u32_to_be_bytes(seed), seed.to_be_bytes());
        assert_eq!(u32_from_be_bytes(&seed.to_be_bytes()), seed);
        assert_eq!(u32_from_be_bytes(&u32_to_be_bytes(seed)), seed);
    }
}

#[test]
fn little_endian_reads_use_leading_bytes() {
    let mut data = [0xeeu8; 32];
    data[..8].copy_from_slice(&[0x01, 0x02, 0x03, 0x04, 0x05, 0x06, 0x07, 0x08]);
    assert_eq!(u16_from_le_bytes(&data), 0x0201);
    assert_eq!(u32_from_le_bytes(&data), 0x0403_0201);
    assert_eq!(u64_from_le_bytes(&data), 0x0807_0605_0403_0201);
    assert_eq!(u64_from_le_bytes(&[0xff; 32]), u64::MAX);
}

#[test]
fn bit_patterns_as_twos_complement() {
    for v in 0..=u8::MAX {
        assert_eq!(i8_from_bits(v), v as i8);
    }
    for v in 0..=u16::MAX {
        assert_eq!(i16_from_bits(v), v as i16);
    }
    for v in [0u32, 1, 0x7fff_ffff, 0x8000_0000, 0x8000_0001, u32::MAX] {
        assert_eq!(i32_from_bits(v), v as i32);
    }
    for v in [0u64, 1, i64::MAX as u64, 1 << 63, (1 << 63) + 1, u64::MAX] {
        assert_eq!(i64_from_bits(v), v as i64);
    }
}
