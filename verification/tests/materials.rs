//! Tests for material resolution: alpha classification, the sparse
//! overlay, and the default-palette fallback against the real decoder
//! table.

use vox_scene::color::{AlphaMode, Rgba, classify_alpha};
use vox_scene::document::MaterialRecord;
use vox_scene::material::{BuildError, find_material, resolve_material};
use vox_scene::palette::lookup_color;

fn record(id: u32) -> MaterialRecord {
    MaterialRecord {
        id,
        metalness: None,
        roughness: None,
        specular_transmission: None,
        refractive_index: None,
        attenuation_distance: None,
    }
}

#[test]
fn alpha_classification_is_blend_below_opaque() {
    assert_eq!(classify_alpha(255), AlphaMode::Opaque);
    assert_eq!(classify_alpha(254), AlphaMode::Blend);
    assert_eq!(classify_alpha(128), AlphaMode::Blend);
    assert_eq!(classify_alpha(0), AlphaMode::Blend);
}

#[test]
fn resolved_alpha_mode_follows_palette_alpha() {
    let palette = vec![
        Rgba { r: 10, g: 20, b: 30, a: 255 },
        Rgba { r: 10, g: 20, b: 30, a: 200 },
    ];
    let opaque = resolve_material(&palette, &Vec::new(), 0).unwrap();
    assert_eq!(opaque.alpha_mode, AlphaMode::Opaque);
    let blended = resolve_material(&palette, &Vec::new(), 1).unwrap();
    assert_eq!(blended.alpha_mode, AlphaMode::Blend);
}

#[test]
fn overlay_applies_present_fields_only() {
    let palette = vec![Rgba { r: 1, g: 2, b: 3, a: 255 }];
    let mut rec = record(0);
    rec.metalness = Some(0.75f32.to_bits());
    rec.refractive_index = Some(1.45f32.to_bits());
    let resolved = resolve_material(&palette, &vec![rec], 0).unwrap();
    assert_eq!(resolved.base_color, palette[0]);
    assert_eq!(resolved.metalness, Some(0.75f32.to_bits()));
    assert_eq!(resolved.refractive_index, Some(1.45f32.to_bits()));
    assert_eq!(resolved.roughness, None);
    assert_eq!(resolved.specular_transmission, None);
    assert_eq!(resolved.attenuation_distance, None);
}

#[test]
fn first_matching_record_wins() {
    let mut first = record(7);
    first.roughness = Some(0.1f32.to_bits());
    let mut second = record(7);
    second.roughness = Some(0.9f32.to_bits());
    let records = vec![record(3), first, second];
    let found = find_material(&records, 7).unwrap();
    assert_eq!(found.roughness, Some(0.1f32.to_bits()));
    assert_eq!(find_material(&records, 8), None);
}

#[test]
fn resolution_is_idempotent() {
    let palette = vec![Rgba { r: 9, g: 9, b: 9, a: 3 }];
    let mut rec = record(0);
    rec.attenuation_distance = Some(2.5f32.to_bits());
    let records = vec![rec];
    let once = resolve_material(&palette, &records, 0).unwrap();
    let twice = resolve_material(&palette, &records, 0).unwrap();
    assert_eq!(once, twice);
}

#[test]
fn missing_entry_falls_back_to_default_palette() {
    // An empty document palette forces the fallback; the resolved color
    // must match the decoder's own table, not the input handed in.
    let palette: Vec<Rgba> = Vec::new();
    for index in [0u16, 1, 5, 255] {
        let resolved = resolve_material(&palette, &Vec::new(), index).unwrap();
        let expected = dot_vox::DEFAULT_PALETTE[index as usize];
        assert_eq!(resolved.base_color.r, expected.r);
        assert_eq!(resolved.base_color.g, expected.g);
        assert_eq!(resolved.base_color.b, expected.b);
        assert_eq!(resolved.base_color.a, expected.a);
    }
}

#[test]
fn document_palette_shadows_default_palette() {
    let palette = vec![Rgba { r: 11, g: 22, b: 33, a: 255 }];
    let looked = lookup_color(&palette, 0).unwrap();
    assert_eq!(looked, palette[0]);
    // Beyond the document palette the default table answers.
    assert!(lookup_color(&palette, 200).is_some());
    // Beyond both tables nothing does.
    assert_eq!(lookup_color(&palette, 256), None);
    assert_eq!(
        resolve_material(&palette, &Vec::new(), 256),
        Err(BuildError::PaletteIndexOutOfRange(256))
    );
}
