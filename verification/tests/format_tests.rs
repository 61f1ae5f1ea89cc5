use vapours::enums::ColorRange;
use vapours::generic::HoldsVideoFormat;
use vapours::rational::Rational;
use vapours::vs_enums::{
    gray, grayh, grays, make_video_format, rgb24, rgbh, rgbs, yuv420p, yuv420ps, yuv444p,
    yuv444ps, ColorFamily, SampleType,
};

#[test]
fn test_from_primitive() {
    assert_eq!(ColorRange::from_u8(0), Some(ColorRange::Full));
    assert_eq!(ColorRange::from_u8(1), Some(ColorRange::Limited));
    assert_eq!(ColorRange::from_u8(2), None);
}

#[test]
fn test_range_tag_round_trip() {
    assert_eq!(ColorRange::from_u8(ColorRange::Full.to_u8()), Some(ColorRange::Full));
    assert_eq!(ColorRange::from_u8(ColorRange::Limited.to_u8()), Some(ColorRange::Limited));
}

#[test]
fn test_preset_video_formats() {
    let gray8 = gray(8);
    assert_eq!(gray8.color_family, ColorFamily::Gray);
    assert_eq!(gray8.sample_type, SampleType::Integer);
    assert_eq!(gray8.bits_per_sample, 8);
    assert_eq!(gray8.bytes_per_sample, 1);

    let yuv420p8 = yuv420p(8);
    assert_eq!(yuv420p8.color_family, ColorFamily::YUV);
    assert_eq!(yuv420p8.sample_type, SampleType::Integer);
    assert_eq!(yuv420p8.bits_per_sample, 8);
    assert_eq!(yuv420p8.bytes_per_sample, 1);

    let yuv420p16 = yuv420p(16);
    assert_eq!(yuv420p16.color_family, ColorFamily::YUV);
    assert_eq!(yuv420p16.sample_type, SampleType::Integer);
    assert_eq!(yuv420p16.bits_per_sample, 16);
    assert_eq!(yuv420p16.bytes_per_sample, 2);

    let yuv444ps_fmt = yuv444ps();
    assert_eq!(yuv444ps_fmt.color_family, ColorFamily::YUV);
    assert_eq!(yuv444ps_fmt.sample_type, SampleType::Float);
    assert_eq!(yuv444ps_fmt.bits_per_sample, 32);
    assert_eq!(yuv444ps_fmt.bytes_per_sample, 4);
}

#[test]
fn test_derived_fields() {
    // the smallest power-of-two byte count holding the bit depth
    assert_eq!(gray(9).bytes_per_sample, 2);
    assert_eq!(gray(16).bytes_per_sample, 2);
    assert_eq!(gray(17).bytes_per_sample, 4);
    assert_eq!(gray(32).bytes_per_sample, 4);
    assert_eq!(grayh().bytes_per_sample, 2);
    // plane counts per color family
    assert_eq!(gray(8).num_planes, 1);
    assert_eq!(yuv444p(10).num_planes, 3);
    assert_eq!(rgb24().num_planes, 3);
    let undefined = make_video_format(ColorFamily::Undefined, SampleType::Integer, 12, 0, 0);
    assert_eq!(undefined.num_planes, 3);
    assert_eq!(undefined.bytes_per_sample, 2);
}

#[test]
fn test_lowest_value_defaults() {
    assert_eq!(gray(8).lowest_value(None, None), Rational::from_int(16));
    assert_eq!(gray(16).lowest_value(None, None), Rational::from_int(4096));
    assert_eq!(rgb24().lowest_value(None, None), Rational::from_int(0));
    assert_eq!(rgbh().lowest_value(None, None), Rational::from_int(0));
    assert_eq!(rgbs().lowest_value(None, None), Rational::from_int(0));
    assert_eq!(yuv420p(8).lowest_value(None, None), Rational::from_int(16));
    assert_eq!(yuv420p(16).lowest_value(None, None), Rational::from_int(4096));
    assert_eq!(yuv420ps().lowest_value(None, None), Rational::from_int(0));
    assert_eq!(yuv444p(8).lowest_value(None, None), Rational::from_int(16));
}

#[test]
fn test_lowest_value_chroma() {
    // chroma planes of float formats are signed around zero
    assert_eq!(yuv420ps().lowest_value(Some(true), None), Rational::new(-1, 2));
    assert_eq!(yuv444ps().lowest_value(Some(true), None), Rational::new(-1, 2));
    // integer formats keep the same floor on chroma planes
    assert_eq!(yuv420p(8).lowest_value(Some(true), None), Rational::from_int(16));
    assert_eq!(gray(16).lowest_value(Some(true), None), Rational::from_int(4096));
    // and RGB ignores the flag altogether
    assert_eq!(rgbs().lowest_value(Some(true), None), Rational::from_int(0));
    assert_eq!(rgb24().lowest_value(Some(true), None), Rational::from_int(0));
}

#[test]
fn test_neutral_value() {
    assert_eq!(gray(8).neutral_value(), Rational::from_int(128));
    assert_eq!(gray(16).neutral_value(), Rational::from_int(32768));
    assert_eq!(grayh().neutral_value(), Rational::from_int(0));
    assert_eq!(grays().neutral_value(), Rational::from_int(0));
}

#[test]
fn test_peak_value_defaults() {
    assert_eq!(gray(8).peak_value(None, None), Rational::from_int(235));
    assert_eq!(gray(16).peak_value(None, None), Rational::from_int(60160));
    assert_eq!(grayh().peak_value(None, None), Rational::from_int(1));
    assert_eq!(grays().peak_value(None, None), Rational::from_int(1));
    assert_eq!(rgb24().peak_value(None, None), Rational::from_int(255));
    assert_eq!(rgbh().peak_value(None, None), Rational::from_int(1));
    assert_eq!(rgbs().peak_value(None, None), Rational::from_int(1));
}

#[test]
fn test_peak_value_explicit() {
    // chroma ceiling in limited range
    assert_eq!(yuv420p(8).peak_value(Some(true), None), Rational::from_int(240));
    assert_eq!(yuv420p(10).peak_value(Some(true), None), Rational::from_int(960));
    // full range uses the whole storage span
    assert_eq!(
        gray(8).peak_value(None, Some(ColorRange::Full)),
        Rational::from_int(255)
    );
    assert_eq!(
        gray(32).peak_value(None, Some(ColorRange::Full)),
        Rational::from_int(4294967295)
    );
    // float chroma peak
    assert_eq!(yuv444ps().peak_value(Some(true), None), Rational::new(1, 2));
}

#[test]
fn test_range_monotonicity_instances() {
    // limited floors sit above the full floor of zero, limited ceilings
    // below the full ceiling, at every integer depth
    for bits in [8u32, 10, 12, 16, 32] {
        let format = gray(bits);
        let low_limited = format.lowest_value(None, Some(ColorRange::Limited));
        let low_full = format.lowest_value(None, Some(ColorRange::Full));
        let peak_limited = format.peak_value(None, Some(ColorRange::Limited));
        let peak_full = format.peak_value(None, Some(ColorRange::Full));
        assert_eq!(low_full, Rational::from_int(0));
        assert_eq!(low_limited.den, 1);
        assert!(low_limited.num > 0);
        assert_eq!(peak_limited.den, 1);
        assert_eq!(peak_full.den, 1);
        assert!(peak_limited.num < peak_full.num);
    }
}

#[test]
fn test_trait_accessors() {
    let format = yuv420p(10);
    assert_eq!(format.video_format(), format);
    assert_eq!(format.color_family(), ColorFamily::YUV);
    assert_eq!(format.depth(), 10);
    assert_eq!(format.sample_type(), SampleType::Integer);
}

#[test]
fn test_rational_equality() {
    // eq_value compares the denoted numbers, not the representations
    assert!(Rational::new(32, 2).eq_value(&Rational::from_int(16)));
    assert!(Rational::new(-16, 219).eq_value(&Rational::new(-32, 438)));
    assert!(!Rational::new(1, 2).eq_value(&Rational::new(1, 3)));
}
