//! RGBA palette colors and the binary alpha-mode classification.

use vstd::prelude::*;

verus! {

/// An 8-bit-per-channel RGBA color, as a voxel palette stores it.
///
/// A renderer converts the channels to its own working representation; the
/// builder only carries them, so the integer channels are the whole value.
#[derive(Clone, Copy, Debug, PartialEq, Eq, Structural)]
pub struct Rgba {
    pub r: u8,
    pub g: u8,
    pub b: u8,
    pub a: u8,
}

/// How a leaf's material is rendered: fully opaque geometry, or
/// alpha-blended geometry. The classification is binary — any partial
/// transparency renders as fully blended.
#[derive(Clone, Copy, Debug, PartialEq, Eq, Structural)]
pub enum AlphaMode {
    Opaque,
    Blend,
}

/// The alpha mode a color's 8-bit alpha channel classifies to.
///
/// An 8-bit alpha of 255 is the only value that converts to a fully opaque
/// working-representation alpha of 1.0, so `Blend` holds exactly of alphas
/// below 255.
pub open spec fn alpha_mode_spec(alpha: u8) -> AlphaMode {
    if alpha < 255 {
        AlphaMode::Blend
    } else {
        AlphaMode::Opaque
    }
}

/// Classify a color's alpha channel: `Blend` iff it is not fully opaque.
pub fn classify_alpha(alpha: u8) -> (mode: AlphaMode)
    ensures
        mode == alpha_mode_spec(alpha),
        mode is Blend <==> alpha < 255,
{
    if alpha < 255 {
        AlphaMode::Blend
    } else {
        AlphaMode::Opaque
    }
}

} // verus!
