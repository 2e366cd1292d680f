use cpuem::helper::{
    fallback_starting_operation, return_opp_string, str, str_hex_to_u32, string_to_u32,
    string_to_u8, u32_to_string, u8_to_string,
};

#[test]
fn u8_spelling_round_trips() {
    for x in 0..=255u8 {
        assert_eq!(string_to_u8(u8_to_string(x)), x);
    }
}

#[test]
fn u32_spelling_round_trips() {
    for &x in &[0u32, 1, 2, 4, 25, 51, 0x8000_0000, 0xDEAD_BEEF, u32::MAX] {
        assert_eq!(string_to_u32(u32_to_string(x)), x);
    }
}

#[test]
fn u8_to_string_is_msb_first() {
    assert_eq!(u8_to_string(0), "00000000");
    assert_eq!(u8_to_string(1), "00000001");
    assert_eq!(u8_to_string(0x80), "10000000");
    assert_eq!(u8_to_string(0b0100_1100), "01001100");
}

#[test]
fn u32_to_string_is_the_binary_spelling() {
    assert_eq!(u32_to_string(4), format!("{}100", "0".repeat(29)));
    assert_eq!(u32_to_string(u32::MAX), "1".repeat(32));
    assert_eq!(u32_to_string(0).len(), 32);
}

#[test]
fn string_to_u8_reads_any_length_keeping_low_bits() {
    assert_eq!(string_to_u8(String::from("1010")), 10);
    assert_eq!(string_to_u8(String::from("")), 0);
    assert_eq!(string_to_u8(String::from("111111111")), 255);
    assert_eq!(string_to_u8(String::from("100000000")), 0);
    // anything but '1' is a clear bit
    assert_eq!(string_to_u8(String::from("1x1")), 5);
}

#[test]
fn string_to_u32_reads_twelve_bit_immediates() {
    assert_eq!(string_to_u32(String::from("000000011001")), 25);
    assert_eq!(string_to_u32(String::from("111111111111")), 4095);
    assert_eq!(string_to_u32("1".repeat(33)), u32::MAX);
}

#[test]
fn str_hex_to_u32_reads_hex() {
    assert_eq!(str_hex_to_u32("FF"), 255);
    assert_eq!(str_hex_to_u32("1a"), 26);
    assert_eq!(str_hex_to_u32("0011"), 17);
    assert_eq!(str_hex_to_u32(""), 0);
    assert_eq!(str_hex_to_u32("FFFFFFFF"), u32::MAX);
}

#[test]
fn return_opp_string_flips_digits() {
    assert_eq!(return_opp_string(String::from("0101")), "1010");
    assert_eq!(return_opp_string(String::from("")), "");
    // one output character per byte; anything but '0' becomes '0'
    assert_eq!(return_opp_string(String::from("0x")), "10");
    assert_eq!(return_opp_string(String::from("é")), "00");
}

#[test]
fn flipping_a_word_spelling_is_bitwise_not() {
    for &x in &[0u32, 4, 0x1234_5678, u32::MAX] {
        assert_eq!(string_to_u32(return_opp_string(u32_to_string(x))), !x);
    }
}

#[test]
fn str_is_fnv1a() {
    assert_eq!(str(&String::new()), 2166136261);
    assert_eq!(str(&String::from("a")), 0xe40c292c);
    assert_eq!(str(&String::from("foobar")), 0xbf9cf968);
}

#[test]
fn fallback_program_is_the_demo() {
    let p: String = fallback_starting_operation().iter().collect();
    assert_eq!(
        p,
        "100000000001000000011001100000000010000000011010010000000001001000000001"
    );
}

#[test]
fn flipping_twice_gives_the_text_back() {
    for s in ["", "0", "1", "0110", "11110000111100001111000011110000"] {
        assert_eq!(return_opp_string(return_opp_string(String::from(s))), s);
    }
}
