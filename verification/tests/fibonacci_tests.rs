use fibonacci::fast_doubling_fibonacci;
use fibonacci::slow_fibonacci;
use malachite::Natural;
use std::str::FromStr;

#[test]
fn test_fast_doubling_fibonacci_2_100() {
    for i in 0..100 {
        assert_eq!(fast_doubling_fibonacci(i), slow_fibonacci(i));
    }
}

#[test]
fn test_fast_doubling_fibonacci_100_1000() {
    for i in (100..1000).step_by(100) {
        assert_eq!(fast_doubling_fibonacci(i), slow_fibonacci(i));
    }
}

#[test]
fn test_fast_doubling_fibonacci_1000_10000() {
    for i in (1000..10000).step_by(1000) {
        assert_eq!(fast_doubling_fibonacci(i), slow_fibonacci(i));
    }
}

#[test]
fn test_fast_doubling_fibonacci_10000_50000() {
    for i in (10000..50000).step_by(10000) {
        assert_eq!(fast_doubling_fibonacci(i), slow_fibonacci(i));
    }
}

#[test]
fn test_fibonacci_base_values() {
    assert_eq!(fast_doubling_fibonacci(0), 0u32);
    assert_eq!(fast_doubling_fibonacci(1), 1u32);
    assert_eq!(slow_fibonacci(0), 0u32);
    assert_eq!(slow_fibonacci(1), 1u32);
}

#[test]
fn test_fibonacci_index_ten() {
    assert_eq!(fast_doubling_fibonacci(10), 55u32);
}

#[test]
fn test_fibonacci_index_one_hundred() {
    let expected = Natural::from_str("354224848179261915075").unwrap();
    assert_eq!(fast_doubling_fibonacci(100), expected);
}

#[test]
fn test_fibonacci_index_522_matches_oracle() {
    assert_eq!(fast_doubling_fibonacci(522), slow_fibonacci(522));
}

#[test]
fn test_recurrence_on_small_indices() {
    for n in 2..40 {
        let sum = fast_doubling_fibonacci(n - 1) + fast_doubling_fibonacci(n - 2);
        assert_eq!(fast_doubling_fibonacci(n), sum);
    }
}

#[test]
fn test_monotone_on_small_indices() {
    for n in 1..60 {
        assert!(fast_doubling_fibonacci(n) <= fast_doubling_fibonacci(n + 1));
    }
}

#[test]
fn test_doubling_identity_on_small_indices() {
    let two = Natural::from(2u32);
    for k in 0..25 {
        let fk = fast_doubling_fibonacci(k);
        let fk1 = fast_doubling_fibonacci(k + 1);
        let expected = &fk * &(&two * &fk1 - &fk);
        assert_eq!(fast_doubling_fibonacci(2 * k), expected);
    }
}
