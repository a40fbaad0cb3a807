use rust_wasm_libs::decimal::decimal_string;

#[test]
fn decimal_of_zero_is_a_single_zero() {
    assert_eq!(decimal_string(0), "0");
}

#[test]
fn decimal_of_each_digit() {
    let digits = ["0", "1", "2", "3", "4", "5", "6", "7", "8", "9"];
    for (d, text) in digits.iter().enumerate() {
        assert_eq!(decimal_string(d as u64), *text);
    }
}

#[test]
fn decimal_puts_the_most_significant_digit_first() {
    assert_eq!(decimal_string(10), "10");
    assert_eq!(decimal_string(507), "507");
    assert_eq!(decimal_string(1_000_000), "1000000");
    assert_eq!(decimal_string(9_876_543_210), "9876543210");
}

#[test]
fn decimal_of_the_largest_value() {
    assert_eq!(decimal_string(u64::MAX), "18446744073709551615");
}

#[test]
fn decimal_agrees_with_the_standard_formatting() {
    for n in 0..2000u64 {
        assert_eq!(decimal_string(n), n.to_string());
    }
    let mut n: u64 = 1;
    for _ in 0..64 {
        assert_eq!(decimal_string(n), n.to_string());
        assert_eq!(decimal_string(n - 1), (n - 1).to_string());
        n = n.wrapping_mul(2);
    }
    let mut p: u64 = 1;
    for _ in 0..19 {
        p *= 10;
        assert_eq!(decimal_string(p), p.to_string());
        assert_eq!(decimal_string(p - 1), (p - 1).to_string());
    }
}
