use arima_console::confidence::{
    confidence_in_range, DEFAULT_THOUSANDTHS, MAX_THOUSANDTHS, MIN_THOUSANDTHS,
};

#[test]
fn bounds_are_accepted() {
    assert!(confidence_in_range("0.5"));
    assert!(confidence_in_range("0.50"));
    assert!(confidence_in_range("0.500"));
    assert!(confidence_in_range("0.999"));
    assert!(confidence_in_range("0.9990"));
    assert!(confidence_in_range("0.99900000000000000000000000"));
}

#[test]
fn values_inside_are_accepted() {
    assert!(confidence_in_range("0.95"));
    assert!(confidence_in_range("0.9"));
    assert!(confidence_in_range("0.99"));
    assert!(confidence_in_range("0.9512345"));
    assert!(confidence_in_range("0.998999999999999999"));
    assert!(confidence_in_range("0.50000000000000001"));
    assert!(confidence_in_range("0.9899"));
    assert!(confidence_in_range("0.9989"));
}

#[test]
fn values_outside_are_refused() {
    assert!(!confidence_in_range("0.4"));
    assert!(!confidence_in_range("0.49"));
    assert!(!confidence_in_range("0.49999999999999994"));
    assert!(!confidence_in_range("0.0"));
    assert!(!confidence_in_range("0.9991"));
    assert!(!confidence_in_range("0.9990000000000001"));
    assert!(!confidence_in_range("0.99900000000000000000000001"));
    assert!(!confidence_in_range("0.9999"));
    assert!(!confidence_in_range("1"));
    assert!(!confidence_in_range("1.0"));
    assert!(!confidence_in_range("0"));
}

#[test]
fn other_texts_are_refused() {
    assert!(!confidence_in_range(""));
    assert!(!confidence_in_range("0."));
    assert!(!confidence_in_range(".95"));
    assert!(!confidence_in_range("0,95"));
    assert!(!confidence_in_range("0.9a"));
    assert!(!confidence_in_range("0.95 "));
    assert!(!confidence_in_range(" 0.95"));
    assert!(!confidence_in_range("+0.95"));
    assert!(!confidence_in_range("-0.95"));
    assert!(!confidence_in_range("00.95"));
    assert!(!confidence_in_range("9.5e-1"));
    assert!(!confidence_in_range("0.٩"));
    assert!(!confidence_in_range("NaN"));
    assert!(!confidence_in_range("inf"));
}

#[test]
fn the_text_of_a_number_is_judged_as_the_number() {
    for k in 0..=20_000u32 {
        let v = k as f64 / 20_000.0;
        let expected = v >= 0.50 && v <= 0.999;
        assert_eq!(confidence_in_range(&v.to_string()), expected, "{}", v);
    }
    for &v in &[
        0.5f64,
        0.49999999999999994,
        0.5000000000000001,
        0.999,
        0.9989999999999999,
        0.9990000000000001,
        0.95,
        f64::MIN_POSITIVE,
        1e-7,
        0.1 + 0.2,
        0.1 + 0.7,
    ] {
        let expected = v >= 0.50 && v <= 0.999;
        assert_eq!(confidence_in_range(&v.to_string()), expected, "{}", v);
    }
}

#[test]
fn bounds_in_thousandths() {
    assert_eq!(MIN_THOUSANDTHS as f64 / 1000.0, 0.50);
    assert_eq!(MAX_THOUSANDTHS as f64 / 1000.0, 0.999);
    assert_eq!(DEFAULT_THOUSANDTHS as f64 / 1000.0, 0.95);
}
