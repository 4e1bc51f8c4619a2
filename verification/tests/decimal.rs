use image_server::decimal::decimal_string;

#[test]
fn decimal_of_zero_is_one_digit() {
    assert_eq!(decimal_string(0), "0");
}

#[test]
fn decimal_of_single_digits() {
    assert_eq!(decimal_string(1), "1");
    assert_eq!(decimal_string(7), "7");
    assert_eq!(decimal_string(9), "9");
}

#[test]
fn decimal_of_the_image_size() {
    assert_eq!(decimal_string(512), "512");
}

#[test]
fn decimal_keeps_inner_and_trailing_zeros() {
    assert_eq!(decimal_string(10), "10");
    assert_eq!(decimal_string(100), "100");
    assert_eq!(decimal_string(1005), "1005");
}

#[test]
fn decimal_of_a_long_number() {
    assert_eq!(decimal_string(1234567890), "1234567890");
}

#[test]
fn decimal_agrees_with_the_standard_formatting() {
    for n in 0..2000usize {
        assert_eq!(decimal_string(n), n.to_string());
    }
    assert_eq!(decimal_string(usize::MAX), usize::MAX.to_string());
}
