use tegra_spi::bits::{has_bit, lowest_byte, pack, replace};

#[test]
fn pack_puts_the_first_byte_lowest() {
    assert_eq!(pack(0x01, 0x02, 0x03, 0x04), 0x0403_0201);
    assert_eq!(pack(0xde, 0xad, 0xbe, 0xef), 0xefbe_adde);
    assert_eq!(pack(0, 0, 0, 0), 0);
    assert_eq!(pack(0xff, 0xff, 0xff, 0xff), 0xffff_ffff);
    assert_eq!(pack(0x80, 0, 0, 0), 0x0000_0080);
    assert_eq!(pack(0, 0, 0, 0x80), 0x8000_0000);
}

#[test]
fn pack_agrees_with_the_standard_little_endian_word() {
    let samples: [[u8; 4]; 4] =
        [[1, 2, 3, 4], [0xde, 0xad, 0xbe, 0xef], [0, 0xff, 0, 0xff], [0x7f, 0x80, 0x81, 0xfe]];
    for bytes in samples {
        let word = pack(bytes[0], bytes[1], bytes[2], bytes[3]);
        assert_eq!(word, u32::from_le_bytes(bytes));
        assert_eq!(word.to_le_bytes(), bytes);
    }
}

#[test]
fn lowest_byte_drops_the_upper_three_bytes() {
    assert_eq!(lowest_byte(0x0000_0000), 0x00);
    assert_eq!(lowest_byte(0x1234_56ab), 0xab);
    assert_eq!(lowest_byte(0xffff_ff00), 0x00);
    assert_eq!(lowest_byte(0x0000_01ff), 0xff);
}

#[test]
fn has_bit_is_true_when_any_masked_bit_is_set() {
    assert!(has_bit(0x4000_0000, 0x4000_0000));
    assert!(!has_bit(0xbfff_ffff, 0x4000_0000));
    assert!(has_bit(0x0000_4000, 0x0000_c000));
    assert!(has_bit(0x0000_8000, 0x0000_c000));
    assert!(!has_bit(0xffff_3fff, 0x0000_c000));
    assert!(!has_bit(0xffff_ffff, 0));
}

#[test]
fn replace_changes_only_the_masked_bits() {
    assert_eq!(replace(0x0000_0000, 0x0000_c000, 0x0000_c000), 0x0000_c000);
    assert_eq!(replace(0xffff_ffff, 0x0000_003f, 0x0000_0007), 0xffff_ffc7);
    assert_eq!(replace(0x1234_5678, 0x0000_0800, 0), 0x1234_5678 & !0x0000_0800);
    assert_eq!(replace(0x1234_5678, 0, 0xffff_ffff), 0x1234_5678);
    // Bits of the value outside the mask are not taken over.
    assert_eq!(replace(0x0000_0000, 0x0000_00f0, 0xffff_ffff), 0x0000_00f0);
    assert_eq!(replace(0xabcd_ef01, 0xffff_ffff, 0x1020_3040), 0x1020_3040);
}
