use cpuem::bytestr::ByteStr;
use cpuem::helper::str;

#[test]
fn new_reads_eight_characters() {
    let b = ByteStr::new("10101010");
    assert_eq!(b.as_u8(), 170);
    assert_eq!(b.as_string(), "10101010");
}

#[test]
fn new_pads_short_text_with_zeros() {
    let b = ByteStr::new("11");
    assert_eq!(b.as_string(), "11000000");
    assert_eq!(b.as_u8(), 0b1100_0000);
}

#[test]
fn new_records_the_hash_of_its_characters() {
    let b = ByteStr::new("01000000");
    assert_eq!(b.my_hashed_value(), str(&String::from("01000000")));
    assert_eq!(b.my_hashed_value(), b.hash());
}

#[test]
fn load_and_clear_keep_the_recorded_hash() {
    let mut b = ByteStr::new("00000001");
    let h = b.my_hashed_value();
    b.load(String::from("1111"));
    assert_eq!(b.as_string(), "11110001");
    assert_eq!(b.my_hashed_value(), h);
    b.clear();
    assert_eq!(b.as_u8(), 0);
    assert_eq!(b.my_hashed_value(), h);
    assert_ne!(b.hash(), h);
}

#[test]
fn increment_clamps_to_a_byte() {
    let mut b = ByteStr::new("11111110");
    b.increment(5);
    assert_eq!(b.as_u8(), 255);
    b.increment(-300);
    assert_eq!(b.as_u8(), 0);
    b.increment(42);
    assert_eq!(b.as_string(), "00101010");
}

#[test]
fn grab_half_splits_the_byte() {
    let b = ByteStr::new("10010110");
    assert_eq!(b.grab_half(true), "1001");
    assert_eq!(b.grab_half(false), "0110");
}

#[test]
fn at_reports_non_zero_characters() {
    let b = ByteStr::new("10x00000");
    assert!(b.at(0));
    assert!(!b.at(1));
    assert!(b.at(2));
    assert!(!b.at(8));
    // as_u8 counts only '1', as_string anything but '0'
    assert_eq!(b.as_u8(), 0x80);
    assert_eq!(b.as_string(), "10100000");
}
