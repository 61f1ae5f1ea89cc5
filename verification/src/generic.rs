//! Traits that apply to multiple types.
//!
//! Any entity that can report a pixel format — a format value itself, or a
//! host object such as a frame or a node wrapped by the caller — exposes the
//! three characteristic values of that format (lowest, neutral and peak
//! representable sample) through one shared implementation.

use vstd::arithmetic::power2::{
    lemma2_to64, lemma_pow2_adds, lemma_pow2_pos, lemma_pow2_strictly_increases, pow2,
};
use vstd::prelude::*;

use crate::enums::ColorRange;
use crate::rational::{pow2_u64, Rational};
use crate::vs_enums::{ColorFamily, SampleType, VideoFormat};

verus! {

/// Whether the format belongs to the RGB color family.
pub open spec fn is_rgb(format: VideoFormat) -> bool {
    format.color_family == ColorFamily::RGB
}

/// The range a caller meant: an explicit choice wins; otherwise RGB formats
/// default to full range and every other family to limited range.
pub open spec fn resolve_range(range: Option<ColorRange>, format: VideoFormat) -> ColorRange {
    match range {
        Some(explicit) => explicit,
        None => if is_rgb(format) {
            ColorRange::Full
        } else {
            ColorRange::Limited
        },
    }
}

/// The chroma flag a caller meant: forced off for RGB formats, which have no
/// chroma plane; otherwise the caller's choice, off by default.
pub open spec fn resolve_chroma(chroma: Option<bool>, format: VideoFormat) -> bool {
    if is_rgb(format) {
        false
    } else {
        match chroma {
            Some(explicit) => explicit,
            None => false,
        }
    }
}

/// The lowest representable sample of a format, as an exact fraction
/// (numerator, denominator), for a resolved chroma flag and range.
///
/// Float formats are signed around zero on chroma planes (`-1/2`) and start
/// at zero elsewhere; integer formats start at the studio black level
/// `16 << (bits - 8)` in limited range and at zero in full range.
pub open spec fn lowest_frac(format: VideoFormat, chroma: bool, range: ColorRange) -> (int, int) {
    if format.sample_type == SampleType::Float {
        if chroma {
            (-1, 2)
        } else {
            (0, 1)
        }
    } else if range == ColorRange::Limited {
        (16 * pow2((format.bits_per_sample - 8) as nat) as int, 1)
    } else {
        (0, 1)
    }
}

/// The midpoint sample of a format as an exact fraction: zero for float
/// formats, `1 << (bits - 1)` for integer formats.
pub open spec fn neutral_frac(format: VideoFormat) -> (int, int) {
    if format.sample_type == SampleType::Float {
        (0, 1)
    } else {
        (pow2((format.bits_per_sample - 1) as nat) as int, 1)
    }
}

/// The peak representable sample of a format, as an exact fraction, for a
/// resolved chroma flag and range.
///
/// Float formats peak at `1/2` on chroma planes and `1` elsewhere; integer
/// formats peak at `(1 << bits) - 1` in full range and at the studio ceiling
/// `(240 or 235) << (bits - 8)` in limited range.
pub open spec fn peak_frac(format: VideoFormat, chroma: bool, range: ColorRange) -> (int, int) {
    if format.sample_type == SampleType::Float {
        if chroma {
            (1, 2)
        } else {
            (1, 1)
        }
    } else if range == ColorRange::Limited {
        ((if chroma { 240int } else { 235int }) * pow2((format.bits_per_sample - 8) as nat), 1)
    } else {
        (pow2(format.bits_per_sample as nat) - 1, 1)
    }
}

/// The width of a format's characteristic span, `peak - lowest`, always a
/// positive integer (see [`lemma_span_is_peak_minus_lowest`]).
pub open spec fn value_span(format: VideoFormat, chroma: bool, range: ColorRange) -> int {
    if format.sample_type == SampleType::Float {
        1
    } else if range == ColorRange::Limited {
        (if chroma { 224int } else { 219int }) * pow2((format.bits_per_sample - 8) as nat)
    } else {
        pow2(format.bits_per_sample as nat) - 1
    }
}

/// The span really is the difference of the two characteristic values:
/// `value_span == peak - lowest`, cleared of the fractions' denominators.
pub proof fn lemma_span_is_peak_minus_lowest(format: VideoFormat, chroma: bool, range: ColorRange)
    requires
        format.wf(),
    ensures
        ({
            let (peak_n, peak_d) = peak_frac(format, chroma, range);
            let (low_n, low_d) = lowest_frac(format, chroma, range);
            value_span(format, chroma, range) * (peak_d * low_d) == peak_n * low_d - low_n * peak_d
        }),
        value_span(format, chroma, range) > 0,
{
    let span = value_span(format, chroma, range);
    let (peak_n, peak_d) = peak_frac(format, chroma, range);
    let (low_n, low_d) = lowest_frac(format, chroma, range);
    if format.sample_type == SampleType::Integer {
        let p = pow2((format.bits_per_sample - 8) as nat) as int;
        lemma_pow2_pos((format.bits_per_sample - 8) as nat);
        lemma_pow2_pos(format.bits_per_sample as nat);
        if range == ColorRange::Limited {
            assert(span * (peak_d * low_d) == peak_n * low_d - low_n * peak_d
                    && span > 0) by (nonlinear_arith)
                requires
                    p > 0,
                    peak_d == 1 && low_d == 1,
                    span == (if chroma { 224int } else { 219int }) * p,
                    peak_n == (if chroma { 240int } else { 235int }) * p,
                    low_n == 16 * p;
        } else {
            lemma_pow2_strictly_increases(0, format.bits_per_sample as nat);
            lemma2_to64();
        }
    }
}

/// Range monotonicity of integer formats: the limited-range floor sits
/// strictly above the full-range floor of zero, and the limited-range
/// ceiling sits strictly below the full-range ceiling.
pub proof fn lemma_range_monotonicity(format: VideoFormat, chroma: bool)
    requires
        format.wf(),
        format.sample_type == SampleType::Integer,
    ensures
        lowest_frac(format, chroma, ColorRange::Full) == (0int, 1int),
        lowest_frac(format, chroma, ColorRange::Limited).0 > 0,
        lowest_frac(format, chroma, ColorRange::Limited).1 == 1,
        peak_frac(format, chroma, ColorRange::Limited).0 < peak_frac(format, chroma, ColorRange::Full).0,
        peak_frac(format, chroma, ColorRange::Limited).1 == 1,
        peak_frac(format, chroma, ColorRange::Full).1 == 1,
{
    let bits = format.bits_per_sample;
    let p = pow2((bits - 8) as nat);
    lemma_pow2_pos((bits - 8) as nat);
    assert(pow2(bits as nat) == 256 * p) by {
        lemma_pow2_adds(8, (bits - 8) as nat);
        lemma2_to64();
    }
    assert(16 * p > 0 && 240 * p < 256 * p - 1 && 235 * p < 256 * p - 1) by (nonlinear_arith)
        requires p >= 1;
}

/// RGB chroma suppression for the characteristic values: on an RGB format
/// the chroma flag has no influence on the lowest or the peak value,
/// whatever the range.
pub proof fn lemma_rgb_ignores_chroma(
    format: VideoFormat,
    chroma_a: Option<bool>,
    chroma_b: Option<bool>,
    range: Option<ColorRange>,
)
    requires
        is_rgb(format),
    ensures
        lowest_frac(format, resolve_chroma(chroma_a, format), resolve_range(range, format))
            == lowest_frac(format, resolve_chroma(chroma_b, format), resolve_range(range, format)),
        peak_frac(format, resolve_chroma(chroma_a, format), resolve_range(range, format))
            == peak_frac(format, resolve_chroma(chroma_b, format), resolve_range(range, format)),
{
}

/// A trait for types that hold a video format.
pub trait HoldsVideoFormat: Sized {
    /// The format this entity reports.
    spec fn format_spec(&self) -> VideoFormat;

    /// Get the video format.
    #[must_use]
    fn video_format(&self) -> (format: VideoFormat)
        ensures
            format == self.format_spec(),
    ;

    /// Get the color family of this clip or format.
    #[must_use]
    fn color_family(&self) -> (family: ColorFamily)
        ensures
            family == self.format_spec().color_family,
    {
        self.video_format().color_family
    }

    /// Get the bit depth of this clip or format.
    #[must_use]
    fn depth(&self) -> (bits: u32)
        ensures
            bits == self.format_spec().bits_per_sample,
    {
        self.video_format().bits_per_sample
    }

    /// Get the sample type of this clip or format.
    #[must_use]
    fn sample_type(&self) -> (sample_type: SampleType)
        ensures
            sample_type == self.format_spec().sample_type,
    {
        self.video_format().sample_type
    }

    /// Returns the lowest value for the bit depth of this clip or format.
    #[must_use]
    fn lowest_value(&self, chroma: Option<bool>, range_in: Option<ColorRange>) -> (lowest: Rational)
        requires
            self.format_spec().wf(),
        ensures
            lowest.wf(),
            (lowest.num as int, lowest.den as int) == lowest_frac(
                self.format_spec(),
                resolve_chroma(chroma, self.format_spec()),
                resolve_range(range_in, self.format_spec()),
            ),
    {
        let format = self.video_format();
        let format_is_rgb = matches!(format.color_family, ColorFamily::RGB);
        let chroma_plane = if format_is_rgb {
            false
        } else {
            match chroma {
                Some(explicit) => explicit,
                None => false,
            }
        };
        if matches!(format.sample_type, SampleType::Float) {
            if chroma_plane {
                Rational::new(-1, 2)
            } else {
                Rational::from_int(0)
            }
        } else {
            let range = match range_in {
                Some(explicit) => explicit,
                None => if format_is_rgb {
                    ColorRange::Full
                } else {
                    ColorRange::Limited
                },
            };
            if matches!(range, ColorRange::Limited) {
                let floor = 16 * pow2_u64(format.bits_per_sample - 8);
                Rational::new(floor as i128, 1)
            } else {
                Rational::from_int(0)
            }
        }
    }

    /// Returns the midpoint value for the bit depth of this clip or format.
    #[must_use]
    fn neutral_value(&self) -> (neutral: Rational)
        requires
            self.format_spec().wf(),
        ensures
            neutral.wf(),
            (neutral.num as int, neutral.den as int) == neutral_frac(self.format_spec()),
    {
        let format = self.video_format();
        if matches!(format.sample_type, SampleType::Float) {
            Rational::from_int(0)
        } else {
            let midpoint = pow2_u64(format.bits_per_sample - 1);
            Rational::new(midpoint as i128, 1)
        }
    }

    /// Returns the peak value for the bit depth of this clip or format.
    #[must_use]
    fn peak_value(&self, chroma: Option<bool>, range_in: Option<ColorRange>) -> (peak: Rational)
        requires
            self.format_spec().wf(),
        ensures
            peak.wf(),
            (peak.num as int, peak.den as int) == peak_frac(
                self.format_spec(),
                resolve_chroma(chroma, self.format_spec()),
                resolve_range(range_in, self.format_spec()),
            ),
    {
        let format = self.video_format();
        let format_is_rgb = matches!(format.color_family, ColorFamily::RGB);
        let chroma_plane = if format_is_rgb {
            false
        } else {
            match chroma {
                Some(explicit) => explicit,
                None => false,
            }
        };
        if matches!(format.sample_type, SampleType::Float) {
            if chroma_plane {
                Rational::new(1, 2)
            } else {
                Rational::from_int(1)
            }
        } else {
            let range = match range_in {
                Some(explicit) => explicit,
                None => if format_is_rgb {
                    ColorRange::Full
                } else {
                    ColorRange::Limited
                },
            };
            if matches!(range, ColorRange::Limited) {
                let scale: u64 = if chroma_plane { 240 } else { 235 };
                let ceiling = scale * pow2_u64(format.bits_per_sample - 8);
                Rational::new(ceiling as i128, 1)
            } else {
                let ceiling = pow2_u64(format.bits_per_sample) - 1;
                Rational::new(ceiling as i128, 1)
            }
        }
    }
}

impl HoldsVideoFormat for VideoFormat {
    open spec fn format_spec(&self) -> VideoFormat {
        *self
    }

    fn video_format(&self) -> VideoFormat {
        *self
    }
}

} // verus!
