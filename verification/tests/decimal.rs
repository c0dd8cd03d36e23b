use unwrap::decimal::push_decimal;

#[test]
fn decimal_of_zero_is_one_digit() {
    let mut text = String::new();
    push_decimal(&mut text, 0);
    assert_eq!(text, "0");
}

#[test]
fn decimal_of_single_digits() {
    let mut text = String::new();
    for n in 0..10 {
        push_decimal(&mut text, n);
    }
    assert_eq!(text, "0123456789");
}

#[test]
fn decimal_keeps_inner_and_trailing_zeros() {
    let mut text = String::new();
    push_decimal(&mut text, 10);
    text.push(' ');
    push_decimal(&mut text, 1002);
    text.push(' ');
    push_decimal(&mut text, 1_000_000_000);
    assert_eq!(text, "10 1002 1000000000");
}

#[test]
fn decimal_of_the_largest_number() {
    let mut text = String::new();
    push_decimal(&mut text, u32::MAX);
    assert_eq!(text, "4294967295");
}

#[test]
fn decimal_is_appended_to_what_is_there() {
    let mut text = String::from("line ");
    push_decimal(&mut text, 258);
    assert_eq!(text, "line 258");
}

#[test]
fn decimal_agrees_with_the_standard_rendering() {
    let samples: [u32; 9] = [0, 9, 10, 99, 100, 12345, 65535, 65536, 4294967294];
    for n in samples {
        let mut text = String::new();
        push_decimal(&mut text, n);
        assert_eq!(text, format!("{}", n));
    }
}
