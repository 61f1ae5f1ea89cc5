use vapours::enums::ColorRange;
use vapours::rational::Rational;
use vapours::scale::scale_value;
use vapours::vs_enums::{gray, grays, rgb24, yuv420p, yuv420ps, yuv444p, yuv444ps};

#[test]
fn test_scale_value_8_to_10() {
    for (input, expected) in [(0, 0), (1, 4), (2, 8), (3, 12), (4, 16)] {
        for format_in in [gray(8), yuv420p(8), yuv444p(8)] {
            for format_out in [gray(10), yuv420p(10), yuv444p(10)] {
                for chroma in [None, Some(false), Some(true)] {
                    let result = scale_value(
                        Rational::from_int(input),
                        &format_in,
                        &format_out,
                        None,
                        None,
                        None,
                        chroma,
                    );
                    assert_eq!(result, Rational::from_int(expected));
                }
            }
        }
    }
}

#[test]
fn test_scale_value_8_to_16() {
    for (input, expected) in [(0, 0), (1, 256), (2, 512), (3, 768), (4, 1024)] {
        for format_in in [gray(8), yuv420p(8), yuv444p(8)] {
            for format_out in [gray(16), yuv420p(16), yuv444p(16)] {
                for chroma in [None, Some(false), Some(true)] {
                    let result = scale_value(
                        Rational::from_int(input),
                        &format_in,
                        &format_out,
                        None,
                        None,
                        None,
                        chroma,
                    );
                    assert_eq!(result, Rational::from_int(expected));
                }
            }
        }
    }
}

#[test]
fn test_scale_value_8_to_32_luma() {
    // studio-range luma maps to (v - 16) / 219; at v = 0 that is the small
    // negative float -0.0730594
    for (input, expected_num) in [(0, -16), (1, -15), (2, -14), (3, -13), (4, -12)] {
        for format_in in [gray(8), yuv420p(8), yuv444p(8)] {
            for format_out in [grays(), yuv420ps(), yuv444ps()] {
                let result = scale_value(
                    Rational::from_int(input),
                    &format_in,
                    &format_out,
                    None,
                    None,
                    None,
                    None,
                );
                assert_eq!(result, Rational::new(expected_num, 219));
            }
        }
    }
    let floor = scale_value(
        Rational::from_int(0),
        &yuv444p(8),
        &yuv444ps(),
        None,
        None,
        None,
        None,
    );
    let approx = floor.num as f64 / floor.den as f64;
    assert!((approx + 0.0730594).abs() < 1e-6);
}

#[test]
fn test_scale_value_8_to_32_chroma() {
    // chroma maps to (v - 128) / 224; at v = 0 that is -0.5714285
    for (input, expected_num) in [(0, -128), (1, -127), (2, -126), (3, -125), (4, -124)] {
        for format_in in [yuv420p(8), yuv444p(8)] {
            for format_out in [yuv420ps(), yuv444ps()] {
                let result = scale_value(
                    Rational::from_int(input),
                    &format_in,
                    &format_out,
                    None,
                    None,
                    None,
                    Some(true),
                );
                assert_eq!(result, Rational::new(expected_num, 224));
            }
        }
    }
    let floor = scale_value(
        Rational::from_int(0),
        &yuv420p(8),
        &yuv420ps(),
        None,
        None,
        None,
        Some(true),
    );
    let approx = floor.num as f64 / floor.den as f64;
    assert!((approx + 0.5714285).abs() < 1e-6);
}

#[test]
fn test_scale_value_peak_8_to_10() {
    let result = scale_value(
        Rational::from_int(255),
        &gray(8),
        &gray(10),
        None,
        None,
        None,
        None,
    );
    assert_eq!(result, Rational::from_int(1020));
}

#[test]
fn test_scale_value_limited_to_full() {
    // studio black maps to PC black
    let result = scale_value(
        Rational::from_int(16),
        &gray(8),
        &gray(8),
        Some(ColorRange::Limited),
        Some(ColorRange::Full),
        None,
        None,
    );
    assert_eq!(result, Rational::from_int(0));
    // and studio white to PC white
    let white = scale_value(
        Rational::from_int(235),
        &gray(8),
        &gray(8),
        Some(ColorRange::Limited),
        Some(ColorRange::Full),
        None,
        None,
    );
    assert_eq!(white, Rational::from_int(255));
}

#[test]
fn test_scale_value_full_to_limited() {
    // the full-range value 235 lands just under the limited white level 235:
    // 235 * 219 / 255 + 16 rounds to 218
    let result = scale_value(
        Rational::from_int(235),
        &gray(8),
        &gray(8),
        Some(ColorRange::Full),
        Some(ColorRange::Limited),
        None,
        None,
    );
    assert_eq!(result, Rational::from_int(218));
    let white = scale_value(
        Rational::from_int(255),
        &gray(8),
        &gray(8),
        Some(ColorRange::Full),
        Some(ColorRange::Limited),
        None,
        None,
    );
    assert_eq!(white, Rational::from_int(235));
}

#[test]
fn test_scale_identity_instances() {
    // same format, same range: the value comes back untouched, even an
    // out-of-grid rational, whatever the offset and chroma choices
    let value = Rational::new(123, 7);
    for range in [None, Some(ColorRange::Limited), Some(ColorRange::Full)] {
        for offsets in [None, Some(true), Some(false)] {
            for chroma in [None, Some(true)] {
                let result =
                    scale_value(value, &gray(10), &gray(10), range, range, offsets, chroma);
                assert_eq!(result, value);
            }
        }
    }
    let float_value = Rational::new(-3, 8);
    let result = scale_value(float_value, &grays(), &grays(), None, None, None, None);
    assert_eq!(result, float_value);
}

#[test]
fn test_scale_round_trip_instances() {
    // a value representable at 8 bits survives the trip through any deeper
    // integer format and back, with ranges held equal on both legs
    for value in [0i64, 1, 16, 17, 128, 235, 254, 255] {
        for range in [ColorRange::Limited, ColorRange::Full] {
            for deeper in [gray(9), gray(10), gray(12), gray(16), gray(32)] {
                let up = scale_value(
                    Rational::from_int(value),
                    &gray(8),
                    &deeper,
                    Some(range),
                    Some(range),
                    None,
                    None,
                );
                let back = scale_value(
                    up,
                    &deeper,
                    &gray(8),
                    Some(range),
                    Some(range),
                    None,
                    None,
                );
                assert_eq!(back, Rational::from_int(value));
            }
        }
    }
    // chroma planes round-trip as well, in both ranges; the full-range
    // zero is the interesting case, where the upscale clamps at zero
    for value in [0i64, 17, 128, 240, 255] {
        for range in [ColorRange::Limited, ColorRange::Full] {
            let up = scale_value(
                Rational::from_int(value),
                &yuv420p(8),
                &yuv420p(16),
                Some(range),
                Some(range),
                None,
                Some(true),
            );
            let back = scale_value(
                up,
                &yuv420p(16),
                &yuv420p(8),
                Some(range),
                Some(range),
                None,
                Some(true),
            );
            assert_eq!(back, Rational::from_int(value));
        }
    }
}

#[test]
fn test_scale_clamps_into_destination() {
    // headroom above studio white would rescale past the 8-bit ceiling and
    // is clamped to it
    let result = scale_value(
        Rational::from_int(300),
        &gray(8),
        &gray(8),
        Some(ColorRange::Limited),
        Some(ColorRange::Full),
        None,
        None,
    );
    assert_eq!(result, Rational::from_int(255));
    // and a negative float sample clamps to zero in an integer format
    let negative = scale_value(
        Rational::new(-3, 4),
        &grays(),
        &gray(8),
        None,
        None,
        None,
        None,
    );
    assert_eq!(negative, Rational::from_int(0));
}

#[test]
fn test_scale_rgb_ignores_chroma() {
    // with an RGB endpoint the chroma flag changes nothing
    for value in [0i64, 10, 200] {
        let with_chroma = scale_value(
            Rational::from_int(value),
            &rgb24(),
            &grays(),
            None,
            None,
            None,
            Some(true),
        );
        let without = scale_value(
            Rational::from_int(value),
            &rgb24(),
            &grays(),
            None,
            None,
            None,
            Some(false),
        );
        assert_eq!(with_chroma, without);
    }
}

#[test]
fn test_scale_without_offsets() {
    // offsets disabled: a pure magnitude rescale, no level shift
    let result = scale_value(
        Rational::from_int(219),
        &gray(8),
        &gray(10),
        None,
        None,
        Some(false),
        None,
    );
    // 219 * (876 / 219) = 876
    assert_eq!(result, Rational::from_int(876));
}

#[test]
fn test_scale_float_to_integer() {
    // float 1.0 maps onto the studio white of the limited-range destination
    let result = scale_value(
        Rational::from_int(1),
        &grays(),
        &gray(8),
        None,
        None,
        None,
        None,
    );
    assert_eq!(result, Rational::from_int(235));
    // and float 0.0 onto studio black
    let black = scale_value(
        Rational::from_int(0),
        &grays(),
        &gray(8),
        None,
        None,
        None,
        None,
    );
    assert_eq!(black, Rational::from_int(16));
    // halves round away from zero: 0.5 -> 125.5 -> 126
    let half = scale_value(
        Rational::new(1, 2),
        &grays(),
        &gray(8),
        None,
        None,
        None,
        None,
    );
    assert_eq!(half, Rational::from_int(126));
}

#[test]
fn test_scale_at_deepest_format() {
    // the deepest storage: 32-bit full range down to 8 bits and up again
    let peak = scale_value(
        Rational::from_int(4294967295),
        &gray(32),
        &gray(8),
        Some(ColorRange::Full),
        Some(ColorRange::Full),
        None,
        None,
    );
    assert_eq!(peak, Rational::from_int(255));
    let up = scale_value(
        Rational::from_int(255),
        &gray(8),
        &gray(32),
        Some(ColorRange::Full),
        Some(ColorRange::Full),
        None,
        None,
    );
    assert_eq!(up, Rational::from_int(4294967295));
}
