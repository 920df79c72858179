//! Per-voxel material resolution: palette color, alpha classification, and
//! the sparse material-record overlay.

use vstd::prelude::*;
use crate::color::{AlphaMode, Rgba, alpha_mode_spec, classify_alpha};
use crate::document::MaterialRecord;
use crate::palette::{color_resolvable, lookup_color, resolved_rgba};

verus! {

/// The material a leaf references: the resolved base color, its binary
/// alpha classification, and the physical factors. A `None` factor keeps
/// the host engine's default; a `Some` factor carries the bit pattern of
/// the engine's 32-bit scalar, taken verbatim from the material record.
#[derive(Clone, Copy, Debug, PartialEq, Eq)]
pub struct ResolvedMaterial {
    pub base_color: Rgba,
    pub alpha_mode: AlphaMode,
    pub metalness: Option<u32>,
    pub roughness: Option<u32>,
    pub specular_transmission: Option<u32>,
    pub refractive_index: Option<u32>,
    pub attenuation_distance: Option<u32>,
}

/// Why a build attempt was rejected.
#[derive(Clone, Copy, Debug, PartialEq, Eq, Structural)]
pub enum BuildError {
    /// A voxel references a palette index that both the document palette
    /// and the 256-entry default palette miss: the document is malformed.
    PaletteIndexOutOfRange(u16),
}

/// The first material record whose id equals `id`, in table order.
pub open spec fn find_record(records: Seq<MaterialRecord>, id: u32) -> Option<MaterialRecord>
    decreases records.len(),
{
    if records.len() == 0 {
        None
    } else if records[0].id == id {
        Some(records[0])
    } else {
        find_record(records.drop_first(), id)
    }
}

/// The material a palette index resolves to before any overlay: the
/// resolved color, its alpha classification, and every factor at the
/// engine default.
pub open spec fn base_material(palette: Seq<Rgba>, i: int) -> ResolvedMaterial
    recommends
        color_resolvable(palette, i),
{
    ResolvedMaterial {
        base_color: resolved_rgba(palette, i),
        alpha_mode: alpha_mode_spec(resolved_rgba(palette, i).a),
        metalness: None,
        roughness: None,
        specular_transmission: None,
        refractive_index: None,
        attenuation_distance: None,
    }
}

/// A record overlaid onto a material: each present field replaces the
/// material's value, each absent field keeps it. Color and alpha mode are
/// untouched.
pub open spec fn overlay(m: ResolvedMaterial, rec: MaterialRecord) -> ResolvedMaterial {
    ResolvedMaterial {
        base_color: m.base_color,
        alpha_mode: m.alpha_mode,
        metalness: if rec.metalness is Some { rec.metalness } else { m.metalness },
        roughness: if rec.roughness is Some { rec.roughness } else { m.roughness },
        specular_transmission: if rec.specular_transmission is Some {
            rec.specular_transmission
        } else {
            m.specular_transmission
        },
        refractive_index: if rec.refractive_index is Some {
            rec.refractive_index
        } else {
            m.refractive_index
        },
        attenuation_distance: if rec.attenuation_distance is Some {
            rec.attenuation_distance
        } else {
            m.attenuation_distance
        },
    }
}

/// The material a palette index resolves to against a palette and a
/// material table: the base material, with the first matching record (if
/// any) overlaid.
pub open spec fn resolve_spec(
    palette: Seq<Rgba>,
    records: Seq<MaterialRecord>,
    index: u16,
) -> ResolvedMaterial
    recommends
        color_resolvable(palette, index as int),
{
    match find_record(records, index as u32) {
        Some(rec) => overlay(base_material(palette, index as int), rec),
        None => base_material(palette, index as int),
    }
}

/// Skipping a non-matching head record does not change which record is
/// found.
proof fn lemma_find_record_step(records: Seq<MaterialRecord>, id: u32, i: int)
    requires
        0 <= i < records.len(),
        records[i].id != id,
    ensures
        find_record(records.skip(i), id) == find_record(records.skip(i + 1), id),
{
    assert(records.skip(i).drop_first() =~= records.skip(i + 1));
}

/// Find the first material record keyed by `id`, in table order.
pub fn find_material(records: &Vec<MaterialRecord>, id: u32) -> (found: Option<MaterialRecord>)
    ensures
        found == find_record(records@, id),
{
    let ghost all = records@;
    assert(all.skip(0) =~= all);
    let mut i: usize = 0;
    while i < records.len()
        invariant
            0 <= i <= all.len(),
            records@ == all,
            find_record(all, id) == find_record(all.skip(i as int), id),
        decreases all.len() - i,
    {
        if records[i].id == id {
            return Some(records[i]);
        }
        proof {
            lemma_find_record_step(all, id, i as int);
        }
        i = i + 1;
    }
    None
}

/// Resolve the material for a voxel with palette index `index`: the
/// palette color (with default-palette fallback), the binary alpha
/// classification, and the overlay of the first matching material record.
/// Fails exactly when both palette lookups miss.
pub fn resolve_material(
    palette: &Vec<Rgba>,
    records: &Vec<MaterialRecord>,
    index: u16,
) -> (result: Result<ResolvedMaterial, BuildError>)
    ensures
        result is Ok <==> color_resolvable(palette@, index as int),
        result matches Ok(m) ==> m == resolve_spec(palette@, records@, index),
        result matches Err(e) ==> e == BuildError::PaletteIndexOutOfRange(index),
{
    let color = match lookup_color(palette, index) {
        Some(c) => c,
        None => {
            return Err(BuildError::PaletteIndexOutOfRange(index));
        },
    };
    let mut resolved = ResolvedMaterial {
        base_color: color,
        alpha_mode: classify_alpha(color.a),
        metalness: None,
        roughness: None,
        specular_transmission: None,
        refractive_index: None,
        attenuation_distance: None,
    };
    if let Some(rec) = find_material(records, index as u32) {
        if rec.metalness.is_some() {
            resolved.metalness = rec.metalness;
        }
        if rec.roughness.is_some() {
            resolved.roughness = rec.roughness;
        }
        if rec.specular_transmission.is_some() {
            resolved.specular_transmission = rec.specular_transmission;
        }
        if rec.refractive_index.is_some() {
            resolved.refractive_index = rec.refractive_index;
        }
        if rec.attenuation_distance.is_some() {
            resolved.attenuation_distance = rec.attenuation_distance;
        }
    }
    Ok(resolved)
}

/// Law: the alpha classification of a resolved material is a pure function
/// of the resolved color's alpha channel — `Blend` exactly when the alpha
/// is below fully opaque — whatever the material table holds.
pub proof fn lemma_alpha_classification(
    palette: Seq<Rgba>,
    records: Seq<MaterialRecord>,
    index: u16,
)
    requires
        color_resolvable(palette, index as int),
    ensures
        resolve_spec(palette, records, index).alpha_mode is Blend <==> resolve_spec(
            palette,
            records,
            index,
        ).base_color.a < 255,
{
}

/// Law: material resolution is idempotent — resolving the same palette
/// index against the same palette and material table a second time yields
/// the identical resolved material.
pub proof fn lemma_resolution_idempotent(
    palette: Seq<Rgba>,
    records: Seq<MaterialRecord>,
    index: u16,
)
    ensures
        resolve_spec(palette, records, index) == resolve_spec(palette, records, index),
{
}

} // verus!
