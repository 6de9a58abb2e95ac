use snake::text::{push_decimal, push_signed_decimal, push_two_digits};

fn decimal(n: u128) -> String {
    let mut out = String::new();
    push_decimal(&mut out, n);
    out
}

fn signed(i: i8) -> String {
    let mut out = String::new();
    push_signed_decimal(&mut out, i);
    out
}

fn padded(n: u128) -> String {
    let mut out = String::new();
    push_two_digits(&mut out, n);
    out
}

#[test]
fn decimal_of_single_digits() {
    assert_eq!(decimal(0), "0");
    assert_eq!(decimal(7), "7");
    assert_eq!(decimal(9), "9");
}

#[test]
fn decimal_of_longer_numbers() {
    assert_eq!(decimal(10), "10");
    assert_eq!(decimal(55), "55");
    assert_eq!(decimal(1234567890), "1234567890");
    assert_eq!(decimal(u128::MAX), "340282366920938463463374607431768211455");
}

#[test]
fn decimal_agrees_with_std_formatting() {
    for n in 0u128..2000 {
        assert_eq!(decimal(n), format!("{}", n));
    }
}

#[test]
fn decimal_appends_to_what_is_there() {
    let mut out = String::from("n = ");
    push_decimal(&mut out, 42);
    assert_eq!(out, "n = 42");
}

#[test]
fn signed_decimal_of_every_score() {
    for i in i8::MIN..=i8::MAX {
        assert_eq!(signed(i), format!("{}", i));
    }
}

#[test]
fn signed_decimal_at_the_ends() {
    assert_eq!(signed(-128), "-128");
    assert_eq!(signed(-1), "-1");
    assert_eq!(signed(0), "0");
    assert_eq!(signed(127), "127");
}

#[test]
fn two_digits_pads_small_numbers() {
    assert_eq!(padded(0), "00");
    assert_eq!(padded(5), "05");
    assert_eq!(padded(9), "09");
}

#[test]
fn two_digits_leaves_larger_numbers() {
    assert_eq!(padded(10), "10");
    assert_eq!(padded(59), "59");
    assert_eq!(padded(100), "100");
}

#[test]
fn two_digits_agrees_with_std_formatting() {
    for n in 0u128..500 {
        assert_eq!(padded(n), format!("{:02}", n));
    }
}
