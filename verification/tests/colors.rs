use mos6510::color::Color;

#[test]
fn can_construct_color_from_u32() {
    let c = Color::hex(0x345678);
    assert_eq!(c.r, 0x34);
    assert_eq!(c.g, 0x56);
    assert_eq!(c.b, 0x78);
}

#[test]
fn can_construct_color_from_string() {
    let c = Color::from_str("#345678").unwrap();
    assert_eq!(c.r, 0x34);
    assert_eq!(c.g, 0x56);
    assert_eq!(c.b, 0x78);
}

#[test]
fn should_return_err_if_decimal() {
    let c = Color::from_str("345678");
    assert!(c.is_err())
}

#[test]
fn hex_prefix_is_accepted_and_bad_digits_are_not() {
    let c = Color::from_str("0x010203").unwrap();
    assert_eq!((c.r, c.g, c.b), (1, 2, 3));
    assert!(Color::from_str("#34567g").is_err());
    assert!(Color::from_str("#").is_err());
    assert!(Color::from_str("#123456789").is_err());
}
