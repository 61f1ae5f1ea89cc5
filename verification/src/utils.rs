//! Dither-strategy selection and the delegated bit-depth conversion.
//!
//! The scaler itself never dithers: a dither strategy is configuration that
//! a host pipeline passes on to an external conversion plugin, looked up
//! under the `fmtc` namespace. This module parses strategy names and states
//! which error each step of that delegated conversion reports when it
//! fails; driving the plugin itself is host-runtime work that stays outside
//! the library.

use vstd::prelude::*;

use crate::errors::VapoursError;

verus! {

/// The namespace under which the external bit-depth conversion plugin is
/// looked up.
pub const FMTCONV_NAMESPACE: &'static str = "fmtc";

/// Enum for `zimg_dither_type_e` and fmtconv `dmode`.
#[derive(Clone, Copy, Debug, Eq, PartialEq, Structural)]
pub enum DitherType {
    /// Choose automatically.
    Auto,
    /// Round to nearest.
    NoDither,
    /// Bayer patterned dither.
    Ordered,
    /// Pseudo-random noise of magnitude 0.5.
    Random,
    /// Floyd-Steinberg error diffusion.
    ErrorDiffusion,
    /// Floyd-Steinberg error diffusion. Modified for serpentine scan (avoids
    /// worm artifacts).
    ErrorDiffusionFmtc,
    /// Another type of error diffusion. Quick and excellent quality, similar
    /// to Floyd-Steinberg.
    Sierra24a,
    /// Another error diffusion kernel. Preserves delicate edges better but
    /// distorts gradients.
    Stucki,
    /// Another error diffusion kernel. Generates distinct patterns but keeps
    /// clean the flat areas (noise modulation).
    Atkinson,
    /// Another error diffusion kernel. Slow, available only for integer
    /// input at the moment. Avoids usual F-S artifacts.
    Ostromoukhov,
    /// A way to generate blue-noise dither and has a much better visual
    /// aspect than ordered dithering.
    Void,
    /// Dither using quasirandom sequences. Good intermediary between void,
    /// cluster, and error diffusion algorithms.
    Quasirandom,
}

/// An ASCII upper-case letter folded to lower case; any other character is
/// kept as it is.
pub open spec fn fold_char(c: char) -> char {
    if c == 'A' { 'a' } else if c == 'B' { 'b' } else if c == 'C' { 'c' }
    else if c == 'D' { 'd' } else if c == 'E' { 'e' } else if c == 'F' { 'f' }
    else if c == 'G' { 'g' } else if c == 'H' { 'h' } else if c == 'I' { 'i' }
    else if c == 'J' { 'j' } else if c == 'K' { 'k' } else if c == 'L' { 'l' }
    else if c == 'M' { 'm' } else if c == 'N' { 'n' } else if c == 'O' { 'o' }
    else if c == 'P' { 'p' } else if c == 'Q' { 'q' } else if c == 'R' { 'r' }
    else if c == 'S' { 's' } else if c == 'T' { 't' } else if c == 'U' { 'u' }
    else if c == 'V' { 'v' } else if c == 'W' { 'w' } else if c == 'X' { 'x' }
    else if c == 'Y' { 'y' } else if c == 'Z' { 'z' } else { c }
}

/// A string folded to ASCII lower case, character by character.
pub open spec fn fold_str(s: Seq<char>) -> Seq<char> {
    s.map_values(|c: char| fold_char(c))
}

/// The dither strategy a name token denotes, compared case-insensitively
/// against the closed set of strategy names; an unknown token denotes
/// nothing.
pub open spec fn dither_from_name(s: Seq<char>) -> Option<DitherType> {
    let folded = fold_str(s);
    if folded == "auto"@ { Some(DitherType::Auto) }
    else if folded == "none"@ { Some(DitherType::NoDither) }
    else if folded == "ordered"@ { Some(DitherType::Ordered) }
    else if folded == "random"@ { Some(DitherType::Random) }
    else if folded == "error_diffusion"@ { Some(DitherType::ErrorDiffusion) }
    else if folded == "error_diffusion_fmtc"@ { Some(DitherType::ErrorDiffusionFmtc) }
    else if folded == "sierra_2_4a"@ { Some(DitherType::Sierra24a) }
    else if folded == "stucki"@ { Some(DitherType::Stucki) }
    else if folded == "atkinson"@ { Some(DitherType::Atkinson) }
    else if folded == "ostromoukhov"@ { Some(DitherType::Ostromoukhov) }
    else if folded == "void"@ { Some(DitherType::Void) }
    else if folded == "quasirandom"@ { Some(DitherType::Quasirandom) }
    else { None }
}

/// An ASCII upper-case letter folded to lower case.
fn fold_char_exec(c: char) -> (folded: char)
    ensures
        folded == fold_char(c),
{
    if c == 'A' { 'a' } else if c == 'B' { 'b' } else if c == 'C' { 'c' }
    else if c == 'D' { 'd' } else if c == 'E' { 'e' } else if c == 'F' { 'f' }
    else if c == 'G' { 'g' } else if c == 'H' { 'h' } else if c == 'I' { 'i' }
    else if c == 'J' { 'j' } else if c == 'K' { 'k' } else if c == 'L' { 'l' }
    else if c == 'M' { 'm' } else if c == 'N' { 'n' } else if c == 'O' { 'o' }
    else if c == 'P' { 'p' } else if c == 'Q' { 'q' } else if c == 'R' { 'r' }
    else if c == 'S' { 's' } else if c == 'T' { 't' } else if c == 'U' { 'u' }
    else if c == 'V' { 'v' } else if c == 'W' { 'w' } else if c == 'X' { 'x' }
    else if c == 'Y' { 'y' } else if c == 'Z' { 'z' } else { c }
}

/// Whether `s`, folded to ASCII lower case, equals the (already lower-case)
/// token `token`.
fn matches_folded(s: &str, token: &str) -> (matches: bool)
    ensures
        matches == (fold_str(s@) == token@),
{
    let s_len = s.unicode_len();
    let token_len = token.unicode_len();
    if s_len != token_len {
        proof {
            assert(fold_str(s@).len() == s@.len());
        }
        return false;
    }
    let mut i: usize = 0;
    while i < s_len
        invariant
            i <= s_len,
            s_len == s@.len(),
            s_len == token@.len(),
            forall|j: int| 0 <= j < i ==> fold_char(s@[j]) == token@[j],
        decreases s_len - i,
    {
        let folded = fold_char_exec(s.get_char(i));
        let expected = token.get_char(i);
        if folded != expected {
            proof {
                assert(fold_str(s@)[i as int] != token@[i as int]);
            }
            return false;
        }
        i = i + 1;
    }
    proof {
        assert(fold_str(s@) =~= token@);
    }
    true
}

impl DitherType {
    /// Parse a dither-strategy name, case-insensitively: the inverse of the
    /// snake_case strategy names, `None` for any unknown token.
    pub fn from_name(name: &str) -> (result: Option<DitherType>)
        ensures
            result == dither_from_name(name@),
    {
        if matches_folded(name, "auto") { Some(DitherType::Auto) }
        else if matches_folded(name, "none") { Some(DitherType::NoDither) }
        else if matches_folded(name, "ordered") { Some(DitherType::Ordered) }
        else if matches_folded(name, "random") { Some(DitherType::Random) }
        else if matches_folded(name, "error_diffusion") { Some(DitherType::ErrorDiffusion) }
        else if matches_folded(name, "error_diffusion_fmtc") { Some(DitherType::ErrorDiffusionFmtc) }
        else if matches_folded(name, "sierra_2_4a") { Some(DitherType::Sierra24a) }
        else if matches_folded(name, "stucki") { Some(DitherType::Stucki) }
        else if matches_folded(name, "atkinson") { Some(DitherType::Atkinson) }
        else if matches_folded(name, "ostromoukhov") { Some(DitherType::Ostromoukhov) }
        else if matches_folded(name, "void") { Some(DitherType::Void) }
        else if matches_folded(name, "quasirandom") { Some(DitherType::Quasirandom) }
        else { None }
    }
}

/// A step of the delegated bit-depth conversion that can fail: looking the
/// plugin up, handing it the clip, handing it the requested depth, and
/// fetching the converted clip back.
#[derive(Clone, Copy, Debug, Eq, PartialEq, Structural)]
pub enum DepthStep {
    /// Looking up the conversion plugin by its namespace.
    PluginLookup,
    /// Setting the `clip` argument of the conversion call.
    ClipArgument,
    /// Setting the `bitdepth` argument of the conversion call.
    BitDepthArgument,
    /// Reading the converted clip out of the call's result.
    ResultFetch,
}

/// The error a failure of the given step of the delegated bit-depth
/// conversion reports: a missing plugin is a missing dependency named
/// `fmtc`; every property failure names the `clip` property.
pub fn depth_failure(step: DepthStep) -> (error: VapoursError)
    ensures
        match step {
            DepthStep::PluginLookup => error matches VapoursError::DependencyNotFoundError(name)
                && name@ == "fmtc"@,
            _ => error matches VapoursError::FramePropertyError(name) && name@ == "clip"@,
        },
{
    match step {
        DepthStep::PluginLookup => VapoursError::DependencyNotFoundError("fmtc".to_owned()),
        DepthStep::ClipArgument => VapoursError::FramePropertyError("clip".to_owned()),
        DepthStep::BitDepthArgument => VapoursError::FramePropertyError("clip".to_owned()),
        DepthStep::ResultFetch => VapoursError::FramePropertyError("clip".to_owned()),
    }
}

} // verus!
