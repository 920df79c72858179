//! A verified scene builder for voxel documents.
//!
//! The crate turns a decoded voxel document — models of colored unit cubes,
//! a palette, and sparse material overrides — into a tree-shaped scene
//! description (one group per model, one leaf per voxel) together with the
//! bounding dimensions used to frame a camera, and keeps the single
//! "current scene" through an atomic replacement protocol.

pub mod color;
pub mod document;
pub mod material;
pub mod palette;
pub mod scene;
pub mod viewer;
