use hivemind::text::to_decimal;

#[test]
fn small_numbers_render_as_one_digit() {
    assert_eq!(to_decimal(0), "0");
    assert_eq!(to_decimal(7), "7");
    assert_eq!(to_decimal(9), "9");
}

#[test]
fn larger_numbers_render_most_significant_first() {
    assert_eq!(to_decimal(10), "10");
    assert_eq!(to_decimal(42), "42");
    assert_eq!(to_decimal(12345), "12345");
    assert_eq!(to_decimal(1000000), "1000000");
}

#[test]
fn the_largest_value_renders_fully() {
    assert_eq!(to_decimal(usize::MAX), usize::MAX.to_string());
}
