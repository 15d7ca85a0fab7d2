use otel_cli::text::{decimal, digit_text, starts_with, str_lt};

#[test]
fn decimal_renders_numbers() {
    assert_eq!(decimal(0), "0");
    assert_eq!(decimal(5), "5");
    assert_eq!(decimal(10), "10");
    assert_eq!(decimal(1234567890), "1234567890");
    assert_eq!(decimal(u64::MAX), "18446744073709551615");
}

#[test]
fn decimal_agrees_with_the_standard_rendering() {
    let mut n: u64 = 1;
    for _ in 0..64 {
        assert_eq!(decimal(n), n.to_string());
        assert_eq!(decimal(n - 1), (n - 1).to_string());
        n = n.wrapping_mul(2);
    }
}

#[test]
fn digit_text_gives_one_digit() {
    assert_eq!(digit_text(0), "0");
    assert_eq!(digit_text(7), "7");
    assert_eq!(digit_text(9), "9");
    assert_eq!(digit_text(12), "9");
}

#[test]
fn str_lt_is_strict() {
    assert!(!str_lt("", ""));
    assert!(!str_lt("cpu", "cpu"));
    assert!(str_lt("", "a"));
    assert!(!str_lt("a", ""));
}

#[test]
fn str_lt_orders_by_first_difference() {
    assert!(str_lt("cpu", "mem"));
    assert!(!str_lt("mem", "cpu"));
    assert!(str_lt("cpu.idle", "cpu.user"));
    assert!(str_lt("Zeta", "alpha"));
}

#[test]
fn str_lt_puts_a_prefix_first() {
    assert!(str_lt("cpu", "cpu.user"));
    assert!(!str_lt("cpu.user", "cpu"));
}

#[test]
fn str_lt_agrees_with_the_standard_order() {
    let words = ["", "a", "ab", "b", "cpu", "cpu.user", "é", "z", "日本", "😀", "Z", "0"];
    for a in words.iter() {
        for b in words.iter() {
            assert_eq!(str_lt(a, b), a < b, "{:?} and {:?}", a, b);
        }
    }
}

#[test]
fn starts_with_tests_a_literal_prefix() {
    assert!(starts_with("cpu: = 1", "cpu"));
    assert!(starts_with("cpu", "cpu"));
    assert!(starts_with("cpu", ""));
    assert!(starts_with("", ""));
    assert!(!starts_with("cp", "cpu"));
    assert!(!starts_with("", "cpu"));
    assert!(!starts_with("mem: = 1", "cpu"));
    assert!(!starts_with("xcpu", "cpu"));
}

#[test]
fn starts_with_agrees_with_the_standard_test() {
    let words = ["", "a", "ab", "abc", "b", "é", "éa", "日本", "日本語"];
    for a in words.iter() {
        for b in words.iter() {
            assert_eq!(starts_with(a, b), a.starts_with(b), "{:?} and {:?}", a, b);
        }
    }
}
