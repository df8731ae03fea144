use tensoru::text::{decimal_string, push_decimal};

#[test]
fn decimal_single_digits() {
    assert_eq!("0", decimal_string(0).as_str());
    assert_eq!("7", decimal_string(7).as_str());
    assert_eq!("9", decimal_string(9).as_str());
}

#[test]
fn decimal_multi_digit() {
    assert_eq!("10", decimal_string(10).as_str());
    assert_eq!("1024", decimal_string(1024).as_str());
    assert_eq!("1000000", decimal_string(1_000_000).as_str());
    assert_eq!("18446744073709551615", decimal_string(u64::MAX).as_str());
}

#[test]
fn push_decimal_appends_in_place() {
    let mut s = String::from("r");
    push_decimal(&mut s, 42);
    assert_eq!("r42", s.as_str());
}
