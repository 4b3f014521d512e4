use tm1637::{bit_delay_us, char_to_raw, hex_digit_pattern};

#[test]
fn hex_digit_table() {
    let expected: [u8; 16] = [
        0x3F, 0x06, 0x5B, 0x4F, 0x66, 0x6D, 0x7D, 0x07, 0x7F, 0x6F, 0x77, 0x7C, 0x39, 0x5E, 0x79,
        0x71,
    ];
    for d in 0..16u8 {
        assert_eq!(hex_digit_pattern(d), expected[d as usize]);
    }
}

#[test]
fn hex_digit_masked_to_low_nibble() {
    for d in 0..=255u8 {
        assert_eq!(hex_digit_pattern(d), hex_digit_pattern(d & 0x0F));
    }
    assert_eq!(hex_digit_pattern(0xF3), 0x4F);
}

#[test]
fn letters_case_insensitive() {
    assert_eq!(char_to_raw('a'), 0x77);
    assert_eq!(char_to_raw('A'), 0x77);
    assert_eq!(char_to_raw('h'), 0x74);
    assert_eq!(char_to_raw('H'), 0x74);
    assert_eq!(char_to_raw('z'), 0x5B);
    assert_eq!(char_to_raw('Z'), 0x5B);
}

#[test]
fn unmapped_characters_blank() {
    assert_eq!(char_to_raw('5'), 0x00);
    assert_eq!(char_to_raw('?'), 0x00);
    assert_eq!(char_to_raw(' '), 0x00);
}

#[test]
fn bit_delay_follows_ceiling_formula() {
    // delay_us = ceil(1000 / (2 * max_freq_kHz))
    assert_eq!(bit_delay_us(500), 1);
    assert_eq!(bit_delay_us(250), 2);
    assert_eq!(bit_delay_us(80), 7);
    assert_eq!(bit_delay_us(3), 167);
    assert_eq!(bit_delay_us(1), 500);
    assert_eq!(bit_delay_us(65535), 1);
}
