//! Value scaling.
//!
//! [`scale_value`] converts one scalar sample from a source format, range
//! and chroma context to the numerically equivalent scalar of a destination
//! context: it removes the source level offset, rescales by the ratio of the
//! two characteristic spans, inserts the destination offset, and rounds and
//! clamps integer output into the destination's storage span. The whole
//! computation is exact; [`scale_value_spec`] is its mathematical statement.

use vstd::arithmetic::power2::{lemma_pow2_pos, pow2};
use vstd::prelude::*;

use crate::enums::ColorRange;
use crate::generic::{
    is_rgb, resolve_range, value_span, HoldsVideoFormat,
};
use crate::rational::{
    clamp, clamp_spec, pow2_u64, round_half_away, round_nearest, Rational,
};
use crate::vs_enums::{ColorFamily, SampleType, VideoFormat};

verus! {

/// The level offset of an integer format under a range and chroma
/// interpretation: the chroma midpoint `128 << (bits - 8)`, the studio black
/// level `16 << (bits - 8)` for limited-range luma, and nothing for
/// full-range luma.
pub open spec fn range_offset(format: VideoFormat, range: ColorRange, chroma: bool) -> int {
    if chroma {
        128 * pow2((format.bits_per_sample - 8) as nat) as int
    } else if range == ColorRange::Limited {
        16 * pow2((format.bits_per_sample - 8) as nat) as int
    } else {
        0
    }
}

/// The chroma flag a conversion honors: forced off as soon as either end is
/// RGB, which has no chroma plane; otherwise the caller's choice, off by
/// default.
pub open spec fn scale_chroma(
    chroma: Option<bool>,
    format_in: VideoFormat,
    format_out: VideoFormat,
) -> bool {
    if is_rgb(format_in) || is_rgb(format_out) {
        false
    } else {
        match chroma {
            Some(explicit) => explicit,
            None => false,
        }
    }
}

/// Nothing distinguishes the two endpoints of a conversion: same bit depth,
/// same sample representation, same resolved range.
pub open spec fn identity_conversion(
    format_in: VideoFormat,
    format_out: VideoFormat,
    range_in: ColorRange,
    range_out: ColorRange,
) -> bool {
    &&& format_in.bits_per_sample == format_out.bits_per_sample
    &&& format_in.sample_type == format_out.sample_type
    &&& range_in == range_out
}

/// The exact result of [`scale_value`], as a fraction (numerator,
/// denominator) of the input fraction `value_num / value_den`.
///
/// An identity conversion returns the value untouched. Otherwise the value
/// is shifted down by the source offset (when offsets apply and the source
/// is an integer format), rescaled by the ratio of the destination and
/// source spans, shifted up by the destination offset, and — for integer
/// destinations — rounded to the nearest integer (halves away from zero)
/// and clamped into the destination storage span `[0, (1 << bits) - 1]`.
pub open spec fn scale_value_spec(
    value_num: int,
    value_den: int,
    format_in: VideoFormat,
    format_out: VideoFormat,
    range_in: Option<ColorRange>,
    range_out: Option<ColorRange>,
    scale_offsets: Option<bool>,
    chroma: Option<bool>,
) -> (int, int) {
    let resolved_in = resolve_range(range_in, format_in);
    let resolved_out = resolve_range(range_out, format_out);
    if identity_conversion(format_in, format_out, resolved_in, resolved_out) {
        (value_num, value_den)
    } else {
        let chroma_plane = scale_chroma(chroma, format_in, format_out);
        let apply_offsets = match scale_offsets {
            Some(explicit) => explicit,
            None => true,
        };
        let pre = if apply_offsets && format_in.sample_type == SampleType::Integer {
            range_offset(format_in, resolved_in, chroma_plane)
        } else {
            0
        };
        let post = if apply_offsets && format_out.sample_type == SampleType::Integer {
            range_offset(format_out, resolved_out, chroma_plane)
        } else {
            0
        };
        let span_in = value_span(format_in, chroma_plane, resolved_in);
        let span_out = value_span(format_out, chroma_plane, resolved_out);
        let scaled_num = (value_num - pre * value_den) * span_out + post * value_den * span_in;
        let scaled_den = value_den * span_in;
        if format_out.sample_type == SampleType::Integer {
            let bound = pow2(format_out.bits_per_sample as nat) - 1;
            (clamp_spec(round_half_away(scaled_num, scaled_den), 0, bound), 1)
        } else {
            (scaled_num, scaled_den)
        }
    }
}

/// The characteristic span of a format as an executable number.
fn span_of(format: &VideoFormat, range: ColorRange, chroma: bool) -> (span: u64)
    requires
        format.wf(),
    ensures
        span == value_span(*format, chroma, range),
        1 <= span < 0x1_0000_0000u64,
{
    if matches!(format.sample_type, SampleType::Float) {
        1
    } else if matches!(range, ColorRange::Limited) {
        let scale: u64 = if chroma { 224 } else { 219 };
        let unit = pow2_u64(format.bits_per_sample - 8);
        proof {
            lemma_small_pow2_bound((format.bits_per_sample - 8) as nat);
        }
        scale * unit
    } else {
        proof {
            vstd::arithmetic::power2::lemma2_to64();
            vstd::arithmetic::power2::lemma_pow2_strictly_increases(
                0,
                format.bits_per_sample as nat,
            );
        }
        pow2_u64(format.bits_per_sample) - 1
    }
}

/// A power of two with exponent at most 24 is at most `2^24`.
proof fn lemma_small_pow2_bound(exponent: nat)
    requires
        exponent <= 24,
    ensures
        1 <= pow2(exponent) <= 0x100_0000,
{
    vstd::arithmetic::power2::lemma2_to64();
    lemma_pow2_pos(exponent);
    if exponent < 24 {
        vstd::arithmetic::power2::lemma_pow2_strictly_increases(exponent, 24);
    }
}

/// The level offset of an integer format as an executable number.
fn offset_of(format: &VideoFormat, range: ColorRange, chroma: bool) -> (offset: u64)
    requires
        format.wf(),
        format.sample_type == SampleType::Integer,
    ensures
        offset == range_offset(*format, range, chroma),
        offset <= 0x8000_0000u64,
{
    proof {
        lemma_small_pow2_bound((format.bits_per_sample - 8) as nat);
    }
    if chroma {
        128 * pow2_u64(format.bits_per_sample - 8)
    } else if matches!(range, ColorRange::Limited) {
        16 * pow2_u64(format.bits_per_sample - 8)
    } else {
        0
    }
}

/// Scale a value from one bit depth to another.
///
/// `range_in`, `range_out`, `scale_offsets` and `chroma` default, when
/// `None`, to the format-appropriate range (full for RGB, limited
/// otherwise), to applying offsets, and to a luma plane. The result is the
/// exact fraction that [`scale_value_spec`] states.
#[must_use]
pub fn scale_value<U: HoldsVideoFormat, V: HoldsVideoFormat>(
    value: Rational,
    format_in: &U,
    format_out: &V,
    range_in: Option<ColorRange>,
    range_out: Option<ColorRange>,
    scale_offsets: Option<bool>,
    chroma: Option<bool>,
) -> (result: Rational)
    requires
        format_in.format_spec().wf(),
        format_out.format_spec().wf(),
        value.wf(),
        value.den <= 0x1_0000_0000i128,
        -0x4000_0000_0000_0000i128 <= value.num <= 0x4000_0000_0000_0000i128,
    ensures
        result.wf(),
        (result.num as int, result.den as int) == scale_value_spec(
            value.num as int,
            value.den as int,
            format_in.format_spec(),
            format_out.format_spec(),
            range_in,
            range_out,
            scale_offsets,
            chroma,
        ),
{
    let in_fmt = format_in.video_format();
    let out_fmt = format_out.video_format();

    let resolved_in = match range_in {
        Some(explicit) => explicit,
        None => if matches!(in_fmt.color_family, ColorFamily::RGB) {
            ColorRange::Full
        } else {
            ColorRange::Limited
        },
    };
    let resolved_out = match range_out {
        Some(explicit) => explicit,
        None => if matches!(out_fmt.color_family, ColorFamily::RGB) {
            ColorRange::Full
        } else {
            ColorRange::Limited
        },
    };

    if in_fmt.bits_per_sample == out_fmt.bits_per_sample && in_fmt.sample_type == out_fmt.sample_type
        && resolved_in == resolved_out {
        return value;
    }

    let chroma_plane = if matches!(in_fmt.color_family, ColorFamily::RGB)
        || matches!(out_fmt.color_family, ColorFamily::RGB) {
        false
    } else {
        match chroma {
            Some(explicit) => explicit,
            None => false,
        }
    };
    let apply_offsets = match scale_offsets {
        Some(explicit) => explicit,
        None => true,
    };

    let span_in = span_of(&in_fmt, resolved_in, chroma_plane);
    let span_out = span_of(&out_fmt, resolved_out, chroma_plane);
    let pre: i128 = if apply_offsets && matches!(in_fmt.sample_type, SampleType::Integer) {
        offset_of(&in_fmt, resolved_in, chroma_plane) as i128
    } else {
        0
    };
    let post: i128 = if apply_offsets && matches!(out_fmt.sample_type, SampleType::Integer) {
        offset_of(&out_fmt, resolved_out, chroma_plane) as i128
    } else {
        0
    };

    proof {
        assert(0 <= pre * value.den <= 0x8000_0000_0000_0000i128) by (nonlinear_arith)
            requires
                0 <= pre <= 0x8000_0000i128,
                0 < value.den <= 0x1_0000_0000i128;
        assert(0 <= post * value.den <= 0x8000_0000_0000_0000i128) by (nonlinear_arith)
            requires
                0 <= post <= 0x8000_0000i128,
                0 < value.den <= 0x1_0000_0000i128;
    }
    let shifted: i128 = value.num - pre * value.den;
    let rebased: i128 = post * value.den;
    proof {
        assert(-0xC000_0000_0000_0000_0000_0000i128 <= shifted * (span_out as i128)
            <= 0xC000_0000_0000_0000_0000_0000i128) by (nonlinear_arith)
            requires
                -0xC000_0000_0000_0000i128 <= shifted <= 0xC000_0000_0000_0000i128,
                0 <= (span_out as i128) < 0x1_0000_0000i128;
        assert(0 <= rebased * (span_in as i128) <= 0x8000_0000_0000_0000_0000_0000i128)
            by (nonlinear_arith)
            requires
                0 <= rebased <= 0x8000_0000_0000_0000i128,
                0 <= (span_in as i128) < 0x1_0000_0000i128;
        assert(0 < value.den * (span_in as i128) <= 0x1_0000_0000_0000_0000i128)
            by (nonlinear_arith)
            requires
                0 < value.den <= 0x1_0000_0000i128,
                0 < (span_in as i128) < 0x1_0000_0000i128;
    }
    let scaled_num: i128 = shifted * (span_out as i128) + rebased * (span_in as i128);
    let scaled_den: i128 = value.den * (span_in as i128);

    if matches!(out_fmt.sample_type, SampleType::Integer) {
        let rounded = round_nearest(scaled_num, scaled_den);
        let bound: i128 = (pow2_u64(out_fmt.bits_per_sample) - 1) as i128;
        let clamped = clamp(rounded, 0, bound);
        Rational { num: clamped, den: 1 }
    } else {
        Rational { num: scaled_num, den: scaled_den }
    }
}

/// Identity law: converting a value between one format and itself, with the
/// same range on both sides, returns the value exactly, whatever the offset
/// and chroma choices.
pub proof fn lemma_scale_identity(
    value_num: int,
    value_den: int,
    format: VideoFormat,
    range: Option<ColorRange>,
    scale_offsets: Option<bool>,
    chroma: Option<bool>,
)
    ensures
        scale_value_spec(
            value_num,
            value_den,
            format,
            format,
            range,
            range,
            scale_offsets,
            chroma,
        ) == (value_num, value_den),
{
}

/// RGB chroma suppression for the scaler: as soon as either endpoint format
/// is RGB, the chroma flag has no influence on the result.
pub proof fn lemma_scale_rgb_ignores_chroma(
    value_num: int,
    value_den: int,
    format_in: VideoFormat,
    format_out: VideoFormat,
    range_in: Option<ColorRange>,
    range_out: Option<ColorRange>,
    scale_offsets: Option<bool>,
    chroma_a: Option<bool>,
    chroma_b: Option<bool>,
)
    requires
        is_rgb(format_in) || is_rgb(format_out),
    ensures
        scale_value_spec(
            value_num,
            value_den,
            format_in,
            format_out,
            range_in,
            range_out,
            scale_offsets,
            chroma_a,
        ) == scale_value_spec(
            value_num,
            value_den,
            format_in,
            format_out,
            range_in,
            range_out,
            scale_offsets,
            chroma_b,
        ),
{
    assert(scale_chroma(chroma_a, format_in, format_out) == scale_chroma(
        chroma_b,
        format_in,
        format_out,
    ));
}

/// Round-trip law: scaling a representable value from an integer format up
/// into a strictly deeper integer format and back, with the same range on
/// all four sides, recovers the value exactly.
///
/// In full-range chroma conversions the two midpoints `128 << (bits - 8)`
/// are not related by the ratio of the spans `(1 << bits) - 1`, so the
/// upscale of zero dips just under half a step below zero and is clamped;
/// the clamp is what the proof's second branch handles, and the way back
/// still lands on zero because the dip is strictly under half a step.
pub proof fn lemma_integer_round_trip(
    value: int,
    format_a: VideoFormat,
    format_b: VideoFormat,
    range: ColorRange,
    scale_offsets: Option<bool>,
    chroma: Option<bool>,
)
    requires
        format_a.wf(),
        format_b.wf(),
        format_a.sample_type == SampleType::Integer,
        format_b.sample_type == SampleType::Integer,
        format_a.bits_per_sample < format_b.bits_per_sample,
        0 <= value <= pow2(format_a.bits_per_sample as nat) - 1,
    ensures
        ({
            let (mid_num, mid_den) = scale_value_spec(
                value,
                1,
                format_a,
                format_b,
                Some(range),
                Some(range),
                scale_offsets,
                chroma,
            );
            scale_value_spec(
                mid_num,
                mid_den,
                format_b,
                format_a,
                Some(range),
                Some(range),
                scale_offsets,
                chroma,
            ) == (value, 1int)
        }),
{
    let a_bits = format_a.bits_per_sample as nat;
    let b_bits = format_b.bits_per_sample as nat;
    let pa = pow2((a_bits - 8) as nat) as int;
    let pb = pow2((b_bits - 8) as nat) as int;
    let chroma_plane = scale_chroma(chroma, format_a, format_b);
    let apply = match scale_offsets {
        Some(explicit) => explicit,
        None => true,
    };
    let span_a = value_span(format_a, chroma_plane, range);
    let span_b = value_span(format_b, chroma_plane, range);
    let pre = if apply {
        range_offset(format_a, range, chroma_plane)
    } else {
        0
    };
    let post = if apply {
        range_offset(format_b, range, chroma_plane)
    } else {
        0
    };
    let bound_a = pow2(a_bits) - 1;
    let bound_b = pow2(b_bits) - 1;

    lemma_pow2_pos((a_bits - 8) as nat);
    lemma_pow2_pos((b_bits - 8) as nat);
    lemma_pow2_pos(a_bits);
    lemma_pow2_pos(b_bits);
    vstd::arithmetic::power2::lemma_pow2_strictly_increases(a_bits, b_bits);
    vstd::arithmetic::power2::lemma_pow2_strictly_increases((a_bits - 8) as nat, (b_bits - 8) as nat);
    vstd::arithmetic::power2::lemma_pow2_strictly_increases(0, a_bits);
    vstd::arithmetic::power2::lemma_pow2_adds(8, (a_bits - 8) as nat);
    vstd::arithmetic::power2::lemma_pow2_adds(8, (b_bits - 8) as nat);
    vstd::arithmetic::power2::lemma2_to64();
    assert(pow2(a_bits) == 256 * pa && pow2(b_bits) == 256 * pb);

    // The two spans are positive and the deeper format's span is strictly
    // wider.
    assert(0 < span_a < span_b) by (nonlinear_arith)
        requires
            0 < pa < pb,
            pow2(a_bits) < pow2(b_bits),
            span_a == (if format_a.sample_type == SampleType::Float { 1int } else if range == ColorRange::Limited { (if chroma_plane { 224int } else { 219int }) * pa } else { pow2(a_bits) - 1 }),
            span_b == (if format_b.sample_type == SampleType::Float { 1int } else if range == ColorRange::Limited { (if chroma_plane { 224int } else { 219int }) * pb } else { pow2(b_bits) - 1 }),
            format_a.sample_type == SampleType::Integer,
            format_b.sample_type == SampleType::Integer,
            pow2(a_bits) >= 2;

    // The offset mismatch of the two sides: zero whenever the offsets stand
    // in the span ratio (every case but full-range chroma), and there a dip
    // of strictly under half a destination step.
    let skew = post * span_a - pre * span_b;
    assert(skew <= 0 && 2 * (0 - skew) < span_b) by (nonlinear_arith)
        requires
            skew == post * span_a - pre * span_b,
            pre == (if !apply { 0int } else if chroma_plane { 128 * pa } else if range == ColorRange::Limited { 16 * pa } else { 0int }),
            post == (if !apply { 0int } else if chroma_plane { 128 * pb } else if range == ColorRange::Limited { 16 * pb } else { 0int }),
            span_a == (if range == ColorRange::Limited { (if chroma_plane { 224int } else { 219int }) * pa } else { 256 * pa - 1 }),
            span_b == (if range == ColorRange::Limited { (if chroma_plane { 224int } else { 219int }) * pb } else { 256 * pb - 1 }),
            0 < pa < pb;

    // First leg: the scaled numerator is `value * span_b` plus the skew,
    // over `span_a`.
    let leg1_num = (value - pre * 1) * span_b + post * 1 * span_a;
    assert(leg1_num == value * span_b + skew) by (nonlinear_arith)
        requires
            skew == post * span_a - pre * span_b,
            leg1_num == (value - pre * 1) * span_b + post * 1 * span_a;
    let rounded_mid = round_half_away(leg1_num, span_a);
    let mid_value = clamp_spec(rounded_mid, 0, bound_b);

    let mid = scale_value_spec(
        value,
        1,
        format_a,
        format_b,
        Some(range),
        Some(range),
        scale_offsets,
        chroma,
    );
    assert(mid == (mid_value, 1int));

    // Second leg, before the rounding: `mid_value * span_a` minus the same
    // skew, over `span_b`.
    let leg2_num = (mid_value - post * 1) * span_a + pre * 1 * span_b;
    assert(leg2_num == mid_value * span_a - skew) by (nonlinear_arith)
        requires
            skew == post * span_a - pre * span_b,
            leg2_num == (mid_value - post * 1) * span_a + pre * 1 * span_b;

    if leg1_num >= 0 {
        // The rounding stays inside the deeper storage span, so the clamp
        // does nothing.
        assert(leg1_num <= bound_b * span_a) by (nonlinear_arith)
            requires
                leg1_num == value * span_b + skew,
                skew <= 0,
                0 <= value <= bound_a,
                0 < span_a < span_b,
                0 < pa < pb,
                2 <= pow2(a_bits) < pow2(b_bits),
                pow2(a_bits) == 256 * pa,
                pow2(b_bits) == 256 * pb,
                bound_a == pow2(a_bits) - 1,
                bound_b == pow2(b_bits) - 1,
                span_a == (if range == ColorRange::Limited { (if chroma_plane { 224int } else { 219int }) * pa } else { bound_a }),
                span_b == (if range == ColorRange::Limited { (if chroma_plane { 224int } else { 219int }) * pb } else { bound_b });
        crate::rational::lemma_round_bounds(leg1_num, span_a, bound_b);
        assert(mid_value == rounded_mid);

        // The rounding error of the first leg is too small — under half a
        // destination step — to move the way back off `value`.
        crate::rational::lemma_round_error(leg1_num, span_a);
        assert(2 * (rounded_mid * span_a - leg1_num) <= span_a);
        assert(2 * (leg1_num - rounded_mid * span_a) <= span_a);
        assert(leg2_num - value * span_b == rounded_mid * span_a - leg1_num);
        crate::rational::lemma_round_unique(leg2_num, span_b, value);
    } else {
        // Only the zero of a full-range chroma conversion scales below
        // zero: anything larger clears the skew, which is under half a
        // step.
        assert(value == 0) by (nonlinear_arith)
            requires
                leg1_num == value * span_b + skew,
                leg1_num < 0,
                2 * (0 - skew) < span_b,
                0 <= value,
                0 < span_b;
        // The upscale clamps to zero ...
        assert(rounded_mid <= 0) by {
            vstd::arithmetic::div_mod::lemma_div_pos_is_pos(0 - leg1_num, span_a);
        }
        assert(mid_value == 0);
        // ... and zero comes back to zero, the skew being under half a step.
        assert(leg2_num == 0 - skew);
        crate::rational::lemma_round_unique(leg2_num, span_b, 0);
    }
    assert(round_half_away(leg2_num, span_b) == value);
    assert(clamp_spec(value, 0, bound_a) == value);

    assert(scale_chroma(chroma, format_b, format_a) == chroma_plane);
    assert(!identity_conversion(format_b, format_a, range, range));
    let fin = scale_value_spec(
        mid_value,
        1,
        format_b,
        format_a,
        Some(range),
        Some(range),
        scale_offsets,
        chroma,
    );
    assert(1 * span_b == span_b && post * 1 == post && pre * 1 == pre);
    assert(fin == (clamp_spec(round_half_away(leg2_num, span_b), 0, bound_a), 1int));
    assert(fin == (value, 1int));
}

/// Destination clamping law: a conversion into an integer format never
/// produces a value outside the destination's storage span
/// `[0, (1 << bits) - 1]`. On the identity path nothing is recomputed, so
/// there the input itself must already lie in that span.
pub proof fn lemma_destination_clamping(
    value_num: int,
    value_den: int,
    format_in: VideoFormat,
    format_out: VideoFormat,
    range_in: Option<ColorRange>,
    range_out: Option<ColorRange>,
    scale_offsets: Option<bool>,
    chroma: Option<bool>,
)
    requires
        format_in.wf(),
        format_out.wf(),
        value_den > 0,
        format_out.sample_type == SampleType::Integer,
        identity_conversion(
            format_in,
            format_out,
            resolve_range(range_in, format_in),
            resolve_range(range_out, format_out),
        ) ==> 0 <= value_num <= (pow2(format_out.bits_per_sample as nat) - 1) * value_den,
    ensures
        ({
            let (result_num, result_den) = scale_value_spec(
                value_num,
                value_den,
                format_in,
                format_out,
                range_in,
                range_out,
                scale_offsets,
                chroma,
            );
            &&& result_den > 0
            &&& 0 <= result_num
            &&& result_num <= (pow2(format_out.bits_per_sample as nat) - 1) * result_den
        }),
{
    lemma_pow2_pos(format_out.bits_per_sample as nat);
    let resolved_in = resolve_range(range_in, format_in);
    let resolved_out = resolve_range(range_out, format_out);
    if !identity_conversion(format_in, format_out, resolved_in, resolved_out) {
        let bound = pow2(format_out.bits_per_sample as nat) - 1;
        let (result_num, result_den) = scale_value_spec(
            value_num,
            value_den,
            format_in,
            format_out,
            range_in,
            range_out,
            scale_offsets,
            chroma,
        );
        assert(result_den == 1);
        assert(0 <= result_num <= bound);
    }
}

} // verus!
