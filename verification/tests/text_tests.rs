use blockchain::text::{append_decimal, append_digit, to_decimal, to_hex};

#[test]
fn decimal_of_zero_is_one_digit() {
    assert_eq!(to_decimal(0), "0");
}

#[test]
fn decimal_has_no_leading_zero() {
    assert_eq!(to_decimal(7), "7");
    assert_eq!(to_decimal(10), "10");
    assert_eq!(to_decimal(1234567890), "1234567890");
}

#[test]
fn decimal_of_largest_value() {
    assert_eq!(to_decimal(u64::MAX), "18446744073709551615");
    assert_eq!(to_decimal(u32::MAX as u64), "4294967295");
}

#[test]
fn decimal_matches_standard_formatting() {
    let mut n: u64 = 1;
    for _ in 0..60 {
        assert_eq!(to_decimal(n), format!("{}", n));
        assert_eq!(to_decimal(n - 1), format!("{}", n - 1));
        n = n.wrapping_mul(3).wrapping_add(1);
    }
}

#[test]
fn append_decimal_keeps_what_was_there() {
    let mut out = String::from("n=");
    append_decimal(&mut out, 405);
    assert_eq!(out, "n=405");
}

#[test]
fn append_digit_covers_all_sixteen() {
    let mut out = String::new();
    for d in 0..16usize {
        append_digit(&mut out, d);
    }
    assert_eq!(out, "0123456789abcdef");
}

#[test]
fn hex_of_nothing_is_empty() {
    assert_eq!(to_hex(&[]), "");
}

#[test]
fn hex_is_lowercase_two_digits_per_byte() {
    assert_eq!(to_hex(&[0x00, 0x0f, 0xa0, 0xff, 0x1b]), "000fa0ff1b");
}

#[test]
fn hex_of_every_byte() {
    for b in 0..=255u8 {
        assert_eq!(to_hex(&[b]), format!("{:02x}", b));
    }
}
