//! More Rust equivalents to VapourSynth enums.

use vstd::prelude::*;

verus! {

/// Color family of a pixel format.
#[derive(Clone, Copy, Debug, Eq, PartialEq, Structural)]
pub enum ColorFamily {
    /// A single luma plane.
    Gray,
    /// Luma plus two chroma planes.
    YUV,
    /// Three color planes; RGB formats never carry chroma offsets and are
    /// conventionally full range.
    RGB,
    /// Unknown family; treated like YUV for plane count and defaults.
    Undefined,
}

/// How one sample is stored.
#[derive(Clone, Copy, Debug, Eq, PartialEq, Structural)]
pub enum SampleType {
    /// Samples are offset-and-clamped integers.
    Integer,
    /// Samples are unclamped real numbers.
    Float,
}

/// An immutable description of a pixel format.
#[derive(Clone, Copy, Debug, Eq, PartialEq, Structural)]
pub struct VideoFormat {
    /// Color family.
    pub color_family: ColorFamily,
    /// Sample representation.
    pub sample_type: SampleType,
    /// Bits used to store one sample.
    pub bits_per_sample: u32,
    /// Smallest power-of-two byte count holding one sample.
    pub bytes_per_sample: u32,
    /// Horizontal chroma subsampling factor (power-of-two exponent).
    pub sub_sampling_w: u32,
    /// Vertical chroma subsampling factor (power-of-two exponent).
    pub sub_sampling_h: u32,
    /// Number of planes, derived from the color family.
    pub num_planes: u32,
}

/// Plane count of a color family: gray formats have one plane, all others
/// have three.
pub open spec fn planes_of_family(family: ColorFamily) -> u32 {
    match family {
        ColorFamily::Gray => 1,
        ColorFamily::YUV | ColorFamily::RGB | ColorFamily::Undefined => 3,
    }
}

/// The smallest power-of-two byte count whose bits hold `bits` (for bit
/// depths up to 32).
pub open spec fn bytes_holding_bits(bits: u32) -> u32 {
    if bits <= 8 {
        1
    } else if bits <= 16 {
        2
    } else {
        4
    }
}

/// The bit depths a sample representation admits: 8 to 32 bits for integer
/// samples, half or single precision for float samples.
pub open spec fn depth_valid(sample_type: SampleType, bits: u32) -> bool {
    match sample_type {
        SampleType::Integer => 8 <= bits <= 32,
        SampleType::Float => bits == 16 || bits == 32,
    }
}

impl VideoFormat {
    /// A descriptor is internally consistent: its bit depth suits its sample
    /// representation and the derived fields follow from the others.
    pub open spec fn wf(self) -> bool {
        &&& depth_valid(self.sample_type, self.bits_per_sample)
        &&& self.bytes_per_sample == bytes_holding_bits(self.bits_per_sample)
        &&& self.num_planes == planes_of_family(self.color_family)
    }
}

/// Build a format descriptor; the bytes per sample and the plane count are
/// derived from the other fields.
pub fn make_video_format(
    color_family: ColorFamily,
    sample_type: SampleType,
    bits_per_sample: u32,
    sub_sampling_w: u32,
    sub_sampling_h: u32,
) -> (format: VideoFormat)
    requires
        depth_valid(sample_type, bits_per_sample),
    ensures
        format.wf(),
        format.color_family == color_family,
        format.sample_type == sample_type,
        format.bits_per_sample == bits_per_sample,
        format.sub_sampling_w == sub_sampling_w,
        format.sub_sampling_h == sub_sampling_h,
{
    let mut bytes_per_sample: u32 = 1;
    while bytes_per_sample * 8 < bits_per_sample
        invariant
            bits_per_sample <= 32,
            bytes_per_sample == 1 || bytes_per_sample == 2 || bytes_per_sample == 4,
            bytes_per_sample == 1 || bytes_per_sample * 4 < bits_per_sample,
        decreases 32 - bytes_per_sample,
    {
        bytes_per_sample = bytes_per_sample * 2;
    }
    VideoFormat {
        color_family,
        sample_type,
        bits_per_sample,
        bytes_per_sample,
        sub_sampling_w,
        sub_sampling_h,
        num_planes: match color_family {
            ColorFamily::Gray => 1,
            ColorFamily::YUV | ColorFamily::RGB | ColorFamily::Undefined => 3,
        },
    }
}

/// Gray color family with integer samples at the given bit depth.
pub fn gray(bits_per_sample: u32) -> (format: VideoFormat)
    requires
        8 <= bits_per_sample <= 32,
    ensures
        format.wf(),
        format.color_family == ColorFamily::Gray,
        format.sample_type == SampleType::Integer,
        format.bits_per_sample == bits_per_sample,
        format.sub_sampling_w == 0,
        format.sub_sampling_h == 0,
{
    make_video_format(ColorFamily::Gray, SampleType::Integer, bits_per_sample, 0, 0)
}

/// Gray color family, 16-bit float samples.
pub fn grayh() -> (format: VideoFormat)
    ensures
        format.wf(),
        format.color_family == ColorFamily::Gray,
        format.sample_type == SampleType::Float,
        format.bits_per_sample == 16,
        format.sub_sampling_w == 0,
        format.sub_sampling_h == 0,
{
    make_video_format(ColorFamily::Gray, SampleType::Float, 16, 0, 0)
}

/// Gray color family, 32-bit float samples.
pub fn grays() -> (format: VideoFormat)
    ensures
        format.wf(),
        format.color_family == ColorFamily::Gray,
        format.sample_type == SampleType::Float,
        format.bits_per_sample == 32,
        format.sub_sampling_w == 0,
        format.sub_sampling_h == 0,
{
    make_video_format(ColorFamily::Gray, SampleType::Float, 32, 0, 0)
}

/// YUV color family, 4:2:0 subsampling, integer samples at the given bit
/// depth.
pub fn yuv420p(bits_per_sample: u32) -> (format: VideoFormat)
    requires
        8 <= bits_per_sample <= 32,
    ensures
        format.wf(),
        format.color_family == ColorFamily::YUV,
        format.sample_type == SampleType::Integer,
        format.bits_per_sample == bits_per_sample,
        format.sub_sampling_w == 1,
        format.sub_sampling_h == 1,
{
    make_video_format(ColorFamily::YUV, SampleType::Integer, bits_per_sample, 1, 1)
}

/// YUV color family, 4:2:0 subsampling, 16-bit float samples.
pub fn yuv420ph() -> (format: VideoFormat)
    ensures
        format.wf(),
        format.color_family == ColorFamily::YUV,
        format.sample_type == SampleType::Float,
        format.bits_per_sample == 16,
        format.sub_sampling_w == 1,
        format.sub_sampling_h == 1,
{
    make_video_format(ColorFamily::YUV, SampleType::Float, 16, 1, 1)
}

/// YUV color family, 4:2:0 subsampling, 32-bit float samples.
pub fn yuv420ps() -> (format: VideoFormat)
    ensures
        format.wf(),
        format.color_family == ColorFamily::YUV,
        format.sample_type == SampleType::Float,
        format.bits_per_sample == 32,
        format.sub_sampling_w == 1,
        format.sub_sampling_h == 1,
{
    make_video_format(ColorFamily::YUV, SampleType::Float, 32, 1, 1)
}

/// YUV color family, 4:4:4 subsampling, integer samples at the given bit
/// depth.
pub fn yuv444p(bits_per_sample: u32) -> (format: VideoFormat)
    requires
        8 <= bits_per_sample <= 32,
    ensures
        format.wf(),
        format.color_family == ColorFamily::YUV,
        format.sample_type == SampleType::Integer,
        format.bits_per_sample == bits_per_sample,
        format.sub_sampling_w == 0,
        format.sub_sampling_h == 0,
{
    make_video_format(ColorFamily::YUV, SampleType::Integer, bits_per_sample, 0, 0)
}

/// YUV color family, 4:4:4 subsampling, 16-bit float samples.
pub fn yuv444ph() -> (format: VideoFormat)
    ensures
        format.wf(),
        format.color_family == ColorFamily::YUV,
        format.sample_type == SampleType::Float,
        format.bits_per_sample == 16,
        format.sub_sampling_w == 0,
        format.sub_sampling_h == 0,
{
    make_video_format(ColorFamily::YUV, SampleType::Float, 16, 0, 0)
}

/// YUV color family, 4:4:4 subsampling, 32-bit float samples.
pub fn yuv444ps() -> (format: VideoFormat)
    ensures
        format.wf(),
        format.color_family == ColorFamily::YUV,
        format.sample_type == SampleType::Float,
        format.bits_per_sample == 32,
        format.sub_sampling_w == 0,
        format.sub_sampling_h == 0,
{
    make_video_format(ColorFamily::YUV, SampleType::Float, 32, 0, 0)
}

/// RGB color family, 8 bits per integer sample per plane.
pub fn rgb24() -> (format: VideoFormat)
    ensures
        format.wf(),
        format.color_family == ColorFamily::RGB,
        format.sample_type == SampleType::Integer,
        format.bits_per_sample == 8,
        format.sub_sampling_w == 0,
        format.sub_sampling_h == 0,
{
    make_video_format(ColorFamily::RGB, SampleType::Integer, 8, 0, 0)
}

/// RGB color family, 16-bit float samples.
pub fn rgbh() -> (format: VideoFormat)
    ensures
        format.wf(),
        format.color_family == ColorFamily::RGB,
        format.sample_type == SampleType::Float,
        format.bits_per_sample == 16,
        format.sub_sampling_w == 0,
        format.sub_sampling_h == 0,
{
    make_video_format(ColorFamily::RGB, SampleType::Float, 16, 0, 0)
}

/// RGB color family, 32-bit float samples.
pub fn rgbs() -> (format: VideoFormat)
    ensures
        format.wf(),
        format.color_family == ColorFamily::RGB,
        format.sample_type == SampleType::Float,
        format.bits_per_sample == 32,
        format.sub_sampling_w == 0,
        format.sub_sampling_h == 0,
{
    make_video_format(ColorFamily::RGB, SampleType::Float, 32, 0, 0)
}

} // verus!
