use stampit::decimal::decimal_string;

#[test]
fn decimal_of_zero_is_a_single_digit() {
    assert_eq!(decimal_string(0), "0");
}

#[test]
fn decimal_of_each_digit() {
    let expected = ["0", "1", "2", "3", "4", "5", "6", "7", "8", "9"];
    let mut n: u64 = 0;
    while n < 10 {
        assert_eq!(decimal_string(n), expected[n as usize]);
        n += 1;
    }
}

#[test]
fn decimal_has_no_leading_zero() {
    assert_eq!(decimal_string(10), "10");
    assert_eq!(decimal_string(100), "100");
    assert_eq!(decimal_string(1005), "1005");
}

#[test]
fn decimal_of_several_digits() {
    assert_eq!(decimal_string(12345), "12345");
    assert_eq!(decimal_string(9_876_543_210), "9876543210");
}

#[test]
fn decimal_of_the_largest_counter() {
    assert_eq!(decimal_string(u64::MAX), "18446744073709551615");
}

#[test]
fn decimal_differs_for_different_numbers() {
    let mut seen: Vec<String> = Vec::new();
    let mut n: u64 = 0;
    while n < 300 {
        let text = decimal_string(n);
        assert!(!seen.contains(&text));
        seen.push(text);
        n += 1;
    }
}
