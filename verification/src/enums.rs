//! Enums.

use vstd::prelude::*;

verus! {

/// Pixel range ([ITU-T H.265](https://www.itu.int/rec/T-REC-H.265) Equations
/// E-10 through E-20).
#[derive(Clone, Copy, Debug, Eq, PartialEq, Structural)]
pub enum ColorRange {
    /// Studio (TV) legal range, 16-235 in 8 bits. This is primarily used with
    /// YUV integer formats.
    Limited,
    /// Full (PC) dynamic range, 0-255 in 8 bits. Note that float clips should
    /// ALWAYS be FULL range! RGB clips will ALWAYS be FULL range!
    Full,
}

/// The range that a numeric tag denotes: 0 is full range, 1 is limited range,
/// anything else denotes no range at all.
pub open spec fn color_range_from_u8(value: u8) -> Option<ColorRange> {
    if value == 0 {
        Some(ColorRange::Full)
    } else if value == 1 {
        Some(ColorRange::Limited)
    } else {
        None
    }
}

impl ColorRange {
    /// Decode the numeric tag used by host pipelines: 0 is full range and 1
    /// is limited range; any other value is rejected.
    pub fn from_u8(value: u8) -> (result: Option<ColorRange>)
        ensures
            result == color_range_from_u8(value),
    {
        if value == 0 {
            Some(ColorRange::Full)
        } else if value == 1 {
            Some(ColorRange::Limited)
        } else {
            None
        }
    }

    /// The numeric tag of this range: the inverse of [`ColorRange::from_u8`].
    pub fn to_u8(self) -> (result: u8)
        ensures
            color_range_from_u8(result) == Some(self),
    {
        match self {
            ColorRange::Full => 0,
            ColorRange::Limited => 1,
        }
    }
}

} // verus!
