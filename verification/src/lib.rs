//! Pixel-value domain conversion for video processing.
//!
//! The crate models pixel formats (color family, sample representation, bit
//! depth) and converts scalar sample values between two such formats,
//! handling dynamic-range offsets, magnitude rescaling and destination
//! rounding and clamping. All arithmetic is exact: sample values are carried
//! as rational numbers, so every contract pins the result down to the
//! mathematical value a reference conversion would produce.

pub mod enums;
pub mod errors;
pub mod frame;
pub mod generic;
pub mod rational;
pub mod scale;
pub mod utils;
pub mod vs_enums;
