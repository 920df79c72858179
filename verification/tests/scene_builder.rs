//! Scenario tests for the scene builder: degenerate documents, leaf
//! counts, bounding dimensions, and malformed palette references.

use vox_scene::color::Rgba;
use vox_scene::document::{Dimensions, MaterialRecord, Voxel, VoxelDocument, VoxelModel};
use vox_scene::material::BuildError;
use vox_scene::scene::build;

fn plain_record(id: u32) -> MaterialRecord {
    MaterialRecord {
        id,
        metalness: None,
        roughness: None,
        specular_transmission: None,
        refractive_index: None,
        attenuation_distance: None,
    }
}

fn voxel(x: u8, y: u8, z: u8, color_index: u16) -> Voxel {
    Voxel { x, y, z, color_index }
}

fn red() -> Rgba {
    Rgba { r: 255, g: 0, b: 0, a: 255 }
}

fn six_entry_palette() -> Vec<Rgba> {
    let mut palette = vec![Rgba { r: 0, g: 0, b: 0, a: 255 }; 5];
    palette.push(red());
    palette
}

#[test]
fn build_zero_models_is_empty() {
    let doc = VoxelDocument { models: Vec::new(), palette: Vec::new(), materials: Vec::new() };
    let (graph, dims) = build(&doc).expect("degenerate documents build");
    assert_eq!(graph.group_count(), 0);
    assert_eq!(graph.leaf_count(), 0);
    assert_eq!(dims, Dimensions { x: 0, y: 0, z: 0 });
}

#[test]
fn build_empty_first_model_is_empty() {
    let doc = VoxelDocument {
        models: vec![
            VoxelModel { voxels: Vec::new(), size: Dimensions { x: 9, y: 9, z: 9 } },
            VoxelModel { voxels: vec![voxel(0, 0, 0, 5)], size: Dimensions { x: 3, y: 3, z: 3 } },
        ],
        palette: six_entry_palette(),
        materials: Vec::new(),
    };
    let (graph, dims) = build(&doc).expect("degenerate documents build");
    assert_eq!(graph.group_count(), 0);
    assert_eq!(graph.leaf_count(), 0);
    assert_eq!(dims, Dimensions { x: 0, y: 0, z: 0 });
}

#[test]
fn leaf_count_matches_voxel_count() {
    let doc = VoxelDocument {
        models: vec![
            VoxelModel {
                voxels: vec![voxel(0, 0, 0, 1), voxel(1, 0, 0, 2), voxel(0, 1, 0, 3)],
                size: Dimensions { x: 2, y: 2, z: 1 },
            },
            VoxelModel {
                voxels: vec![voxel(0, 0, 0, 4), voxel(0, 0, 1, 5)],
                size: Dimensions { x: 1, y: 1, z: 2 },
            },
        ],
        palette: six_entry_palette(),
        materials: Vec::new(),
    };
    let (graph, _) = build(&doc).expect("all indices resolve");
    assert_eq!(graph.group_count(), 2);
    assert_eq!(graph.groups[0].leaves.len(), 3);
    assert_eq!(graph.groups[1].leaves.len(), 2);
    assert_eq!(graph.leaf_count(), 5);
}

#[test]
fn dimensions_are_component_wise_maximum() {
    let model = |size: Dimensions| VoxelModel { voxels: vec![voxel(0, 0, 0, 5)], size };
    let a = model(Dimensions { x: 2, y: 5, z: 1 });
    let b = model(Dimensions { x: 4, y: 1, z: 3 });
    let doc = VoxelDocument {
        models: vec![a.clone(), b.clone()],
        palette: six_entry_palette(),
        materials: Vec::new(),
    };
    let (_, dims) = build(&doc).expect("all indices resolve");
    assert_eq!(dims, Dimensions { x: 4, y: 5, z: 3 });

    let swapped = VoxelDocument {
        models: vec![b, a],
        palette: six_entry_palette(),
        materials: Vec::new(),
    };
    let (_, swapped_dims) = build(&swapped).expect("all indices resolve");
    assert_eq!(swapped_dims, dims);
}

#[test]
fn two_red_voxels_build_two_opaque_leaves() {
    let doc = VoxelDocument {
        models: vec![VoxelModel {
            voxels: vec![voxel(0, 0, 0, 5), voxel(1, 1, 1, 5)],
            size: Dimensions { x: 2, y: 2, z: 2 },
        }],
        palette: six_entry_palette(),
        materials: Vec::new(),
    };
    let (graph, dims) = build(&doc).expect("all indices resolve");
    assert_eq!(dims, Dimensions { x: 2, y: 2, z: 2 });
    assert_eq!(graph.leaf_count(), 2);
    for leaf in &graph.groups[0].leaves {
        assert_eq!(leaf.material.base_color, red());
        assert!(matches!(leaf.material.alpha_mode, vox_scene::color::AlphaMode::Opaque));
        assert_eq!(leaf.material.metalness, None);
        assert_eq!(leaf.material.roughness, None);
        assert_eq!(leaf.material.specular_transmission, None);
        assert_eq!(leaf.material.refractive_index, None);
        assert_eq!(leaf.material.attenuation_distance, None);
    }
    assert_eq!(graph.groups[0].leaves[0].x, 0);
    assert_eq!(graph.groups[0].leaves[1].x, 1);
}

#[test]
fn out_of_range_index_rejects_document() {
    let doc = VoxelDocument {
        models: vec![VoxelModel {
            voxels: vec![voxel(0, 0, 0, 300)],
            size: Dimensions { x: 1, y: 1, z: 1 },
        }],
        palette: Vec::new(),
        materials: vec![plain_record(300)],
    };
    let err = build(&doc).expect_err("index 300 misses both palettes");
    assert_eq!(err, BuildError::PaletteIndexOutOfRange(300));
}
