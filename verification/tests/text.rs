use libasi::{decimal, decode_name, strip_nul};

fn padded(text: &[u8], len: usize) -> Vec<u8> {
    let mut field = text.to_vec();
    field.resize(len, 0);
    field
}

#[test]
fn strip_nul_drops_trailing_padding() {
    assert_eq!(strip_nul(&padded(b"ZWO ASI120MC", 64)), b"ZWO ASI120MC".to_vec());
}

#[test]
fn strip_nul_drops_zeros_wherever_they_stand() {
    assert_eq!(strip_nul(&[0, 65, 0, 0, 66, 67, 0]), vec![65u8, 66, 67]);
}

#[test]
fn strip_nul_of_nothing_is_nothing() {
    assert_eq!(strip_nul(&[]), Vec::<u8>::new());
}

#[test]
fn strip_nul_of_zeros_is_nothing() {
    assert_eq!(strip_nul(&[0u8; 64]), Vec::<u8>::new());
}

#[test]
fn strip_nul_keeps_what_has_no_zero() {
    let bytes: Vec<u8> = (1..=255).collect();
    assert_eq!(strip_nul(&bytes), bytes);
}

#[test]
fn strip_nul_twice_is_once() {
    let once = strip_nul(&[9, 0, 8, 0, 0, 7]);
    assert_eq!(strip_nul(&once), once);
    assert!(!once.contains(&0));
}

#[test]
fn decode_name_reads_a_padded_field() {
    assert_eq!(decode_name(&padded(b"ZWO ASI120MC", 64)), "ZWO ASI120MC");
}

#[test]
fn decode_name_reads_a_full_field() {
    let field = [b'x'; 64];
    assert_eq!(decode_name(&field), "x".repeat(64));
}

#[test]
fn decode_name_of_an_empty_field_is_empty() {
    assert_eq!(decode_name(&[0u8; 64]), "");
    assert_eq!(decode_name(&[]), "");
}

#[test]
fn decode_name_reads_utf8_beyond_ascii() {
    let text = "Caméra ☆ 𝄞";
    assert_eq!(decode_name(&padded(text.as_bytes(), 64)), text);
}

#[test]
fn decode_name_refuses_bytes_that_are_no_utf8() {
    assert_eq!(decode_name(&[b'A', 0xff, b'B']), "Invalid name");
    assert_eq!(decode_name(&[0x80]), "Invalid name");
}

#[test]
fn decode_name_refuses_a_cut_sequence() {
    assert_eq!(decode_name(&padded(&[b'A', 0xc3], 8)), "Invalid name");
}

#[test]
fn decode_name_refuses_surrogates_and_overlong_forms() {
    assert_eq!(decode_name(&[0xed, 0xa0, 0x80]), "Invalid name");
    assert_eq!(decode_name(&[0xc0, 0xaf]), "Invalid name");
}

#[test]
fn decode_name_joins_what_a_zero_parted() {
    assert_eq!(decode_name(&[0xc3, 0x00, 0xa9]), "é");
}

#[test]
fn decimal_of_small_numbers() {
    assert_eq!(decimal(0), "0");
    assert_eq!(decimal(7), "7");
    assert_eq!(decimal(9), "9");
    assert_eq!(decimal(10), "10");
    assert_eq!(decimal(42), "42");
    assert_eq!(decimal(100), "100");
    assert_eq!(decimal(1090), "1090");
}

#[test]
fn decimal_of_negative_numbers() {
    assert_eq!(decimal(-1), "-1");
    assert_eq!(decimal(-10), "-10");
    assert_eq!(decimal(-42), "-42");
}

#[test]
fn decimal_of_the_extremes() {
    assert_eq!(decimal(i32::MAX), "2147483647");
    assert_eq!(decimal(i32::MIN), "-2147483648");
}

#[test]
fn decimal_agrees_with_the_standard_formatter() {
    let mut n: i32 = i32::MIN;
    loop {
        assert_eq!(decimal(n), format!("{}", n));
        match n.checked_add(9_973_331) {
            Some(next) => n = next,
            None => break,
        }
    }
    for n in -1100..1100 {
        assert_eq!(decimal(n), format!("{}", n));
    }
}

#[test]
fn decimal_tells_numbers_apart() {
    assert_ne!(decimal(1), decimal(-1));
    assert_ne!(decimal(10), decimal(1));
    assert_ne!(decimal(12), decimal(21));
}
