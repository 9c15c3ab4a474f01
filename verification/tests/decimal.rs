use pcb_render::decimal::{decimal_text, format_fixed6, Fixed6};

fn fin(negative: bool, whole: u128, micros: u32) -> Fixed6 {
    Fixed6::Finite { negative, whole, micros }
}

#[test]
fn decimal_text_of_small_and_large_numbers() {
    assert_eq!(decimal_text(0), "0");
    assert_eq!(decimal_text(7), "7");
    assert_eq!(decimal_text(10), "10");
    assert_eq!(decimal_text(1234567890), "1234567890");
    assert_eq!(decimal_text(u128::MAX), u128::MAX.to_string());
}

#[test]
fn decimal_text_reads_back() {
    for n in [0u128, 1, 9, 10, 99, 100, 4096, 1_000_000_007, u64::MAX as u128] {
        let text = decimal_text(n);
        assert!(text.chars().all(|c| c.is_ascii_digit()));
        assert!(n == 0 || !text.starts_with('0'));
        assert_eq!(text.parse::<u128>().unwrap(), n);
    }
}

#[test]
fn fixed6_matches_six_place_float_formatting() {
    assert_eq!(format_fixed6(&fin(false, 1, 600_000)), format!("{:.6}", 1.6f32));
    assert_eq!(format_fixed6(&fin(false, 0, 7812)), format!("{:.6}", 0.0078125f32));
    assert_eq!(format_fixed6(&fin(true, 2, 250_000)), format!("{:.6}", -2.25f32));
    assert_eq!(format_fixed6(&fin(false, 100, 0)), format!("{:.6}", 100.0f32));
    assert_eq!(format_fixed6(&fin(true, 0, 0)), format!("{:.6}", -0.0f32));
    assert_eq!(format_fixed6(&fin(false, 0, 0)), format!("{:.6}", 0.0f32));
}

#[test]
fn fixed6_exact_texts() {
    assert_eq!(format_fixed6(&fin(false, 1, 600_000)), "1.600000");
    assert_eq!(format_fixed6(&fin(false, 0, 5)), "0.000005");
    assert_eq!(format_fixed6(&fin(true, 12, 345_678)), "-12.345678");
    assert_eq!(format_fixed6(&fin(true, 0, 0)), "-0.000000");
    assert_eq!(format_fixed6(&fin(false, 0, 999_999)), "0.999999");
}

#[test]
fn fixed6_non_finite_texts() {
    assert_eq!(format_fixed6(&Fixed6::NaN), "NaN");
    assert_eq!(format_fixed6(&Fixed6::Infinite { negative: false }), "inf");
    assert_eq!(format_fixed6(&Fixed6::Infinite { negative: true }), "-inf");
    assert_eq!(format_fixed6(&Fixed6::NaN), format!("{:.6}", f32::NAN));
    assert_eq!(format_fixed6(&Fixed6::Infinite { negative: true }), format!("{:.6}", f32::NEG_INFINITY));
}

#[test]
fn fixed6_texts_tell_values_apart() {
    let values = [
        fin(false, 0, 0),
        fin(true, 0, 0),
        fin(false, 0, 1),
        fin(false, 1, 0),
        fin(false, 10, 0),
        fin(true, 1, 0),
        Fixed6::NaN,
        Fixed6::Infinite { negative: false },
        Fixed6::Infinite { negative: true },
    ];
    for (i, a) in values.iter().enumerate() {
        for (j, b) in values.iter().enumerate() {
            assert_eq!(format_fixed6(a) == format_fixed6(b), i == j);
        }
    }
}

#[test]
fn zero_keeps_its_sign() {
    assert_eq!(Fixed6::zero(true), fin(true, 0, 0));
    assert_eq!(format_fixed6(&Fixed6::zero(false)), "0.000000");
}
