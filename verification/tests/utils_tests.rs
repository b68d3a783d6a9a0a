use rustness::utils::bitwise_utils::{get_bit, get_bit_16, get_bits_16, set_bit, set_bit_16, set_bits_16};
use rustness::utils::hex_utils::{decimal_byte_to_hex_str, decimal_value_to_hex_char, decimal_word_to_hex_str};

#[test]
fn get_bit_reads_one_bit() {
    assert_eq!(get_bit(0b1010_0000, 5), 1);
    assert_eq!(get_bit(0b1010_0000, 6), 0);
    assert_eq!(get_bit(0x80, 7), 1);
    assert_eq!(get_bit_16(0x8000, 15), 1);
    assert_eq!(get_bit_16(0x8000, 14), 0);
}

#[test]
fn set_bit_then_get_bit_gives_the_value() {
    let mut v: u8 = 0b0101_0101;
    set_bit(&mut v, 1, 1);
    assert_eq!(v, 0b0101_0111);
    assert_eq!(get_bit(v, 1), 1);
    set_bit(&mut v, 0, 0);
    assert_eq!(v, 0b0101_0110);
    assert_eq!(get_bit(v, 0), 0);
    let mut w: u16 = 0;
    set_bit_16(&mut w, 12, 1);
    assert_eq!(w, 0x1000);
    assert_eq!(get_bit_16(w, 12), 1);
}

#[test]
fn get_bits_16_extracts_a_field() {
    assert_eq!(get_bits_16(0b0111_0110_1010_0101, 5, 9), 0b10101);
    assert_eq!(get_bits_16(0xFFFF, 0, 15), 0xFFFF);
    assert_eq!(get_bits_16(0x7000, 12, 14), 7);
}

#[test]
fn set_bits_16_then_get_bits_16_gives_the_value() {
    let mut v: u16 = 0xFFFF;
    set_bits_16(&mut v, 5, 9, 0b00110);
    assert_eq!(v, 0b1111_1100_1101_1111);
    assert_eq!(get_bits_16(v, 5, 9), 0b00110);
    assert_eq!(get_bits_16(v, 0, 4), 0b11111);
}

#[test]
fn hex_digits_and_bytes() {
    assert_eq!(decimal_value_to_hex_char(0), '0');
    assert_eq!(decimal_value_to_hex_char(9), '9');
    assert_eq!(decimal_value_to_hex_char(10), 'A');
    assert_eq!(decimal_value_to_hex_char(15), 'F');
    assert_eq!(decimal_byte_to_hex_str(0xAB), "AB");
    assert_eq!(decimal_byte_to_hex_str(0x05), "05");
    assert_eq!(decimal_byte_to_hex_str(0), "00");
}

#[test]
fn hex_words_have_no_leading_zeros() {
    assert_eq!(decimal_word_to_hex_str(0xC000), "C000");
    assert_eq!(decimal_word_to_hex_str(0x0FA0), "FA0");
    assert_eq!(decimal_word_to_hex_str(0x1), "1");
    assert_eq!(decimal_word_to_hex_str(0xFFFF), "FFFF");
    assert_eq!(decimal_word_to_hex_str(0), "");
}

#[test]
fn hex_words_parse_back() {
    for word in [0xC0DEu16, 0x0100, 0x000A, 0xFFFF, 0x1] {
        let text = decimal_word_to_hex_str(word);
        assert!(!text.starts_with('0'));
        assert_eq!(u16::from_str_radix(&text, 16), Ok(word));
    }
    assert_eq!(decimal_word_to_hex_str(0x0100), "100");
}
