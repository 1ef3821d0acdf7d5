use weather::decimal::{digit_str, Numeral};

#[test]
fn numerals_of_small_numbers() {
    assert_eq!(Numeral::from_u64(0).to_text(), "0");
    assert_eq!(Numeral::from_u64(7).to_text(), "7");
    assert_eq!(Numeral::from_u64(10).to_text(), "10");
    assert_eq!(Numeral::from_u64(1013).to_text(), "1013");
    assert_eq!(Numeral::from_u64(u64::MAX).to_text(), "18446744073709551615");
}

#[test]
fn digits_are_least_significant_first() {
    assert_eq!(Numeral::from_u64(1013).digits, vec![3, 1, 0, 1]);
    assert_eq!(Numeral::from_u64(0).digits, vec![0]);
}

#[test]
fn doubling() {
    let mut n = Numeral::from_u64(0);
    n.double();
    assert_eq!(n.to_text(), "0");
    let mut n = Numeral::from_u64(4);
    n.double();
    assert_eq!(n.to_text(), "8");
    n.double();
    assert_eq!(n.to_text(), "16");
    let mut n = Numeral::from_u64(999);
    n.double();
    assert_eq!(n.to_text(), "1998");
    let mut n = Numeral::from_u64(u64::MAX);
    n.double();
    assert_eq!(n.to_text(), "36893488147419103230");
}

#[test]
fn two_to_the_hundredth() {
    let mut n = Numeral::from_u64(1);
    for _ in 0..100 {
        n.double();
    }
    assert_eq!(n.to_text(), "1267650600228229401496703205376");
}

#[test]
fn doubling_agrees_with_wide_arithmetic() {
    let mut n = Numeral::from_u64(12345678901234567);
    let mut wide: u128 = 12345678901234567;
    for _ in 0..60 {
        n.double();
        wide *= 2;
        assert_eq!(n.to_text(), wide.to_string());
    }
}

#[test]
fn the_ten_digits() {
    let all: Vec<&str> = (0..10u8).map(digit_str).collect();
    assert_eq!(all, vec!["0", "1", "2", "3", "4", "5", "6", "7", "8", "9"]);
}
