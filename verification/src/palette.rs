//! Palette lookup with the decoder's fixed default palette as fallback.

use vstd::prelude::*;
use crate::color::Rgba;

verus! {

/// The channels (r, g, b, a) of entry `i` of the decoder's fixed default
/// palette. The table is a constant of the decoding library, so the entry
/// depends on nothing but `i`.
pub uninterp spec fn default_palette_rgba(i: int) -> (u8, u8, u8, u8);

/// The color carrying the four channels of a default-palette entry.
pub open spec fn rgba_of(t: (u8, u8, u8, u8)) -> Rgba {
    Rgba { r: t.0, g: t.1, b: t.2, a: t.3 }
}

/// Relies on `dot_vox::DEFAULT_PALETTE`: the fixed default palette, a table
/// of exactly 256 colors decoded from a constant resource, so entry `i`
/// exists exactly for `i < 256` and is a pure function of `i`.
#[verifier::external_body]
pub(crate) fn default_palette_entry(i: usize) -> (entry: Option<Rgba>)
    ensures
        entry is Some <==> i < 256,
        entry matches Some(c) ==> c == rgba_of(default_palette_rgba(i as int)),
{
    dot_vox::DEFAULT_PALETTE.get(i).map(|c| Rgba { r: c.r, g: c.g, b: c.b, a: c.a })
}

/// A palette reference resolves when the document palette has an entry at
/// the index, or the 256-entry default palette does.
pub open spec fn color_resolvable(palette: Seq<Rgba>, i: int) -> bool {
    i < palette.len() || i < 256
}

/// The color a palette index resolves to: the document palette entry when
/// present, else the default-palette entry at the same index.
pub open spec fn resolved_rgba(palette: Seq<Rgba>, i: int) -> Rgba
    recommends
        color_resolvable(palette, i),
{
    if i < palette.len() {
        palette[i]
    } else {
        rgba_of(default_palette_rgba(i))
    }
}

/// Look a palette index up, falling back to the default palette; `None`
/// exactly when both tables miss.
pub fn lookup_color(palette: &Vec<Rgba>, index: u16) -> (found: Option<Rgba>)
    ensures
        found is Some <==> color_resolvable(palette@, index as int),
        found matches Some(c) ==> c == resolved_rgba(palette@, index as int),
{
    if (index as usize) < palette.len() {
        Some(palette[index as usize])
    } else {
        default_palette_entry(index as usize)
    }
}

} // verus!
