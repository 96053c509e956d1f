use exercises::decimal::{decimal_string, push_decimal};
use exercises::score::{push_score, push_short};

#[test]
fn decimal_strings() {
    assert_eq!(decimal_string(0), "0");
    assert_eq!(decimal_string(7), "7");
    assert_eq!(decimal_string(10), "10");
    assert_eq!(decimal_string(909), "909");
    assert_eq!(decimal_string(1_234_567_890), "1234567890");
    assert_eq!(decimal_string(u64::MAX), "18446744073709551615");
}

#[test]
fn push_decimal_appends() {
    let mut out = String::from("n = ");
    push_decimal(&mut out, 42);
    push_decimal(&mut out, 0);
    assert_eq!(out, "n = 420");
}

#[test]
fn push_score_keeps_one_fraction_digit() {
    for (value, text) in [
        (0, "0.0"),
        (1, "0.001"),
        (10, "0.01"),
        (100, "0.1"),
        (1_000, "1.0"),
        (85_000, "85.0"),
        (85_500, "85.5"),
        (85_050, "85.05"),
        (85_005, "85.005"),
        (85_125, "85.125"),
        (100_000, "100.0"),
        (1_234_567, "1234.567"),
    ] {
        let mut out = String::new();
        push_score(&mut out, value);
        assert_eq!(out, text);
    }
}

#[test]
fn push_short_drops_empty_fraction() {
    for (value, text) in [
        (0, "0"),
        (1, "0.001"),
        (500, "0.5"),
        (85_000, "85"),
        (88_500, "88.5"),
        (89_999, "89.999"),
        (100_000, "100"),
    ] {
        let mut out = String::from(">");
        push_short(&mut out, value);
        assert_eq!(out, format!(">{}", text));
    }
}

#[test]
fn rendering_agrees_with_floating_point() {
    for value in 0..=100_000u64 {
        let points = value as f64 / 1000.0;
        let mut long = String::new();
        push_score(&mut long, value);
        assert_eq!(long, format!("{:?}", points));
        let mut short = String::new();
        push_short(&mut short, value);
        assert_eq!(short, format!("{}", points));
    }
}
