use weather::reading::Reading;

fn shown(x: f64) -> String {
    Reading::from_bits(x.to_bits()).to_one_decimal()
}

#[test]
fn one_decimal_of_everyday_values() {
    assert_eq!(shown(22.3), "22.3");
    assert_eq!(shown(55.0), "55.0");
    assert_eq!(shown(1013.2), "1013.2");
    assert_eq!(shown(3.4), "3.4");
    assert_eq!(shown(0.0), "0.0");
    assert_eq!(shown(-7.25), "-7.2");
    assert_eq!(shown(-7.35), "-7.3");
    assert_eq!(shown(9.96), "10.0");
    assert_eq!(shown(99.95), "100.0");
}

#[test]
fn one_decimal_rounds_ties_to_even() {
    assert_eq!(shown(0.25), "0.2");
    assert_eq!(shown(0.75), "0.8");
    assert_eq!(shown(2.5), "2.5");
    assert_eq!(shown(0.125), "0.1");
    assert_eq!(shown(1.25), "1.2");
    assert_eq!(shown(1.75), "1.8");
}

#[test]
fn one_decimal_keeps_the_sign_of_what_rounds_to_zero() {
    assert_eq!(shown(-0.0), "-0.0");
    assert_eq!(shown(-0.04), "-0.0");
    assert_eq!(shown(0.04), "0.0");
    assert_eq!(shown(f64::MIN_POSITIVE), "0.0");
    assert_eq!(shown(5e-324), "0.0");
}

#[test]
fn one_decimal_of_values_that_are_not_numbers() {
    assert_eq!(shown(f64::NAN), "NaN");
    assert_eq!(shown(-f64::NAN), "NaN");
    assert_eq!(shown(f64::INFINITY), "inf");
    assert_eq!(shown(f64::NEG_INFINITY), "-inf");
}

#[test]
fn one_decimal_of_large_values_is_exact() {
    assert_eq!(shown(9007199254740992.0), "9007199254740992.0");
    assert_eq!(shown(1e22), "10000000000000000000000.0");
    assert_eq!(shown(1e23), "99999999999999991611392.0");
    assert_eq!(shown(f64::MAX), format!("{:.1}", f64::MAX));
    assert_eq!(shown(f64::MAX).len(), 311);
}

#[test]
fn one_decimal_agrees_with_the_standard_formatter() {
    let mut state: u64 = 0x9E37_79B9_7F4A_7C15;
    let mut checked = 0;
    while checked < 20000 {
        state = state.wrapping_mul(6364136223846793005).wrapping_add(1442695040888963407);
        let x = f64::from_bits(state);
        assert_eq!(shown(x), format!("{:.1}", x), "bits {:#x}", state);
        checked += 1;
    }
}

#[test]
fn one_decimal_agrees_with_the_standard_formatter_near_the_weather_range() {
    let mut i: i64 = -120_000;
    while i <= 120_000 {
        let x = (i as f64) / 1000.0;
        assert_eq!(shown(x), format!("{:.1}", x), "value {}", x);
        let y = (i as f64) / 16.0;
        assert_eq!(shown(y), format!("{:.1}", y), "value {}", y);
        i += 7;
    }
}

#[test]
fn readings_keep_their_bits() {
    let r = Reading::from_bits(22.3f64.to_bits());
    assert_eq!(r.to_bits(), 22.3f64.to_bits());
    assert_eq!(f64::from_bits(r.to_bits()), 22.3);
}
