//! The decoded voxel document: models of voxels, a palette, and sparse
//! material-override records.

use vstd::prelude::*;
use crate::color::Rgba;

verus! {

/// A unit cube at integer grid coordinates, referencing a palette entry.
///
/// The color index is wider than the 256-entry default palette on purpose:
/// a malformed document whose references run past every palette stays
/// representable, and the builder rejects it instead of a decoder-side cast
/// hiding it.
#[derive(Clone, Copy, Debug, PartialEq, Eq, Structural)]
pub struct Voxel {
    pub x: u8,
    pub y: u8,
    pub z: u8,
    pub color_index: u16,
}

/// Integer extents along the three axes. Serves both as a model's declared
/// size and as the bounding dimensions reported for camera framing.
#[derive(Clone, Copy, Debug, PartialEq, Eq, Structural)]
pub struct Dimensions {
    pub x: u32,
    pub y: u32,
    pub z: u32,
}

impl Dimensions {
    /// The zero extent, reported for a degenerate document.
    pub open spec fn zero_spec() -> Dimensions {
        Dimensions { x: 0, y: 0, z: 0 }
    }

    pub fn zero() -> (d: Dimensions)
        ensures
            d == Dimensions::zero_spec(),
    {
        Dimensions { x: 0, y: 0, z: 0 }
    }

    /// The component-wise maximum of two extents.
    pub open spec fn max_spec(self, other: Dimensions) -> Dimensions {
        Dimensions {
            x: if self.x < other.x { other.x } else { self.x },
            y: if self.y < other.y { other.y } else { self.y },
            z: if self.z < other.z { other.z } else { self.z },
        }
    }

    pub fn component_max(self, other: Dimensions) -> (d: Dimensions)
        ensures
            d == self.max_spec(other),
    {
        Dimensions {
            x: if self.x < other.x { other.x } else { self.x },
            y: if self.y < other.y { other.y } else { self.y },
            z: if self.z < other.z { other.z } else { self.z },
        }
    }
}

/// A sparse override of physical material properties, keyed by palette
/// index. Each present field carries the bit pattern of the host engine's
/// 32-bit scalar value; the builder moves the bits and never interprets
/// them, so no arithmetic meaning is attached here. An absent field keeps
/// the engine's default.
#[derive(Clone, Copy, Debug, PartialEq, Eq)]
pub struct MaterialRecord {
    pub id: u32,
    pub metalness: Option<u32>,
    pub roughness: Option<u32>,
    pub specular_transmission: Option<u32>,
    pub refractive_index: Option<u32>,
    pub attenuation_distance: Option<u32>,
}

/// One voxel model: an unordered collection of voxels plus its declared
/// size. The declared size, not the voxel extents, feeds the bounding
/// dimensions.
#[derive(Clone, Debug, PartialEq, Eq)]
pub struct VoxelModel {
    pub voxels: Vec<Voxel>,
    pub size: Dimensions,
}

/// The mathematical value of a `VoxelModel`.
pub struct ModelView {
    pub voxels: Seq<Voxel>,
    pub size: Dimensions,
}

impl View for VoxelModel {
    type V = ModelView;

    open spec fn view(&self) -> ModelView {
        ModelView { voxels: self.voxels@, size: self.size }
    }
}

/// A decoded voxel document: models in document order, the document
/// palette (up to 256 entries), and the sparse material records.
#[derive(Clone, Debug, PartialEq, Eq)]
pub struct VoxelDocument {
    pub models: Vec<VoxelModel>,
    pub palette: Vec<Rgba>,
    pub materials: Vec<MaterialRecord>,
}

/// The mathematical value of a `VoxelDocument`.
pub struct DocumentView {
    pub models: Seq<ModelView>,
    pub palette: Seq<Rgba>,
    pub materials: Seq<MaterialRecord>,
}

impl View for VoxelDocument {
    type V = DocumentView;

    open spec fn view(&self) -> DocumentView {
        DocumentView {
            models: self.models@.map_values(|m: VoxelModel| m@),
            palette: self.palette@,
            materials: self.materials@,
        }
    }
}

} // verus!
