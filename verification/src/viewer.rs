//! The single current scene and its atomic replacement protocol, plus the
//! file-drop filter that guards it.

use vstd::prelude::*;
use crate::document::{Dimensions, VoxelDocument};
use crate::material::BuildError;
use crate::palette::color_resolvable;
use crate::scene::{
    SceneGraph, build, doc_degenerate, doc_dims_spec, doc_references, doc_resolvable, graph_spec,
    total_leaves,
};

verus! {

/// Whether an extension names a voxel file: exactly the three characters
/// of "vox", each in either case (ASCII case-insensitive match).
pub open spec fn is_vox_ext_spec(s: Seq<char>) -> bool {
    s.len() == 3 && (s[0] == 'v' || s[0] == 'V') && (s[1] == 'o' || s[1] == 'O') && (s[2] == 'x'
        || s[2] == 'X')
}

/// What a file-drop event leads to.
#[derive(Clone, Copy, Debug, PartialEq, Eq, Structural)]
pub enum DropDecision {
    /// The dropped path names a voxel file: tear the current scene down
    /// and rebuild from it.
    Rebuild,
    /// Unsupported file type: log the event, change nothing.
    Ignore,
}

/// Decide a file-drop event from the dropped path's extension (`None`
/// when the path has none): only a case-insensitive "vox" extension
/// triggers a rebuild; every other drop is ignored and the current scene
/// stays as it is.
pub fn drop_decision(extension: Option<&str>) -> (decision: DropDecision)
    ensures
        decision is Rebuild <==> (extension matches Some(e) && is_vox_ext_spec(e@)),
{
    match extension {
        None => DropDecision::Ignore,
        Some(e) => {
            if e.unicode_len() != 3 {
                DropDecision::Ignore
            } else {
                let c0 = e.get_char(0);
                let c1 = e.get_char(1);
                let c2 = e.get_char(2);
                if (c0 == 'v' || c0 == 'V') && (c1 == 'o' || c1 == 'O') && (c2 == 'x' || c2
                    == 'X') {
                    DropDecision::Rebuild
                } else {
                    DropDecision::Ignore
                }
            }
        },
    }
}

/// The replacement protocol's state: `current` is `None` while no scene is
/// loaded, and holds the one current scene otherwise. Only one scene
/// exists at a time; replacement is teardown-then-build, never a merge.
pub struct ViewerState {
    pub current: Option<SceneGraph>,
}

impl ViewerState {
    /// Start empty: no scene is current.
    pub fn new() -> (state: ViewerState)
        ensures
            state.current is None,
    {
        ViewerState { current: None }
    }

    /// Tear the whole current scene down: every sub-group and leaf is
    /// released and no scene is current afterwards.
    pub fn teardown(&mut self)
        ensures
            final(self).current is None,
    {
        self.current = None;
    }

    /// Replace the current scene with the build of `doc`: the old scene is
    /// torn down first, and no partially built scene is ever current — on
    /// success the new scene is current and its bounding dimensions are
    /// returned, on failure the state stays empty and the prior scene is
    /// not restored.
    pub fn install(&mut self, doc: &VoxelDocument) -> (result: Result<Dimensions, BuildError>)
        ensures
            result is Ok <==> (doc_degenerate(doc@) || doc_resolvable(doc@)),
            result matches Ok(dims) ==> final(self).current matches Some(g)
                && g@ == graph_spec(doc@) && dims == doc_dims_spec(doc@),
            result matches Err(e) ==> e matches BuildError::PaletteIndexOutOfRange(idx)
                && final(self).current is None && doc_references(doc@, idx)
                && !color_resolvable(doc@.palette, idx as int),
    {
        self.current = None;
        match build(doc) {
            Ok((graph, dims)) => {
                self.current = Some(graph);
                Ok(dims)
            },
            Err(e) => Err(e),
        }
    }

    /// The number of sub-groups the current scene holds; zero while empty.
    pub fn group_count(&self) -> (n: usize)
        ensures
            self.current matches Some(g) ==> n == g@.len(),
            self.current is None ==> n == 0,
    {
        match &self.current {
            Some(g) => g.group_count(),
            None => 0,
        }
    }

    /// The number of leaves the current scene holds; zero while empty.
    pub fn leaf_count(&self) -> (n: usize)
        requires
            self.current matches Some(g) ==> total_leaves(g@) <= usize::MAX,
        ensures
            self.current matches Some(g) ==> n == total_leaves(g@),
            self.current is None ==> n == 0,
    {
        match &self.current {
            Some(g) => g.leaf_count(),
            None => 0,
        }
    }
}

} // verus!
