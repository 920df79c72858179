//! Building a voxel document into a tree-shaped scene: one sub-group per
//! model, one leaf cube per voxel, and the bounding dimensions for camera
//! framing.

use vstd::prelude::*;
use crate::color::Rgba;
use crate::document::{Dimensions, DocumentView, MaterialRecord, ModelView, Voxel, VoxelDocument, VoxelModel};
use crate::material::{BuildError, ResolvedMaterial, resolve_material, resolve_spec};
use crate::palette::color_resolvable;

verus! {

/// A leaf of the scene: one unit cube at the voxel's integer grid
/// coordinates, carrying its resolved material. Every leaf references the
/// one shared unit-cube mesh, so the mesh is no per-leaf datum.
#[derive(Clone, Copy, Debug, PartialEq, Eq)]
pub struct Leaf {
    pub x: u8,
    pub y: u8,
    pub z: u8,
    pub material: ResolvedMaterial,
}

/// One sub-group of the scene: the leaves built from one model's voxels.
/// The group owns its leaves; nothing is shared between groups.
#[derive(Clone, Debug, PartialEq, Eq)]
pub struct Group {
    pub leaves: Vec<Leaf>,
}

impl View for Group {
    type V = Seq<Leaf>;

    open spec fn view(&self) -> Seq<Leaf> {
        self.leaves@
    }
}

/// The scene built from one document: a root owning one sub-group per
/// model, in document order. Ownership is strictly tree-shaped.
#[derive(Clone, Debug, PartialEq, Eq)]
pub struct SceneGraph {
    pub groups: Vec<Group>,
}

impl View for SceneGraph {
    type V = Seq<Seq<Leaf>>;

    open spec fn view(&self) -> Seq<Seq<Leaf>> {
        self.groups@.map_values(|g: Group| g@)
    }
}

/// The leaf a voxel builds to: its coordinates and its resolved material.
pub open spec fn leaf_spec(palette: Seq<Rgba>, records: Seq<MaterialRecord>, v: Voxel) -> Leaf {
    Leaf { x: v.x, y: v.y, z: v.z, material: resolve_spec(palette, records, v.color_index) }
}

/// The leaves a sequence of voxels builds to, in order.
pub open spec fn leaves_spec(
    palette: Seq<Rgba>,
    records: Seq<MaterialRecord>,
    voxels: Seq<Voxel>,
) -> Seq<Leaf> {
    voxels.map_values(|v: Voxel| leaf_spec(palette, records, v))
}

/// The sub-group a model builds to: one leaf per voxel, in model order.
pub open spec fn group_spec(
    palette: Seq<Rgba>,
    records: Seq<MaterialRecord>,
    m: ModelView,
) -> Seq<Leaf> {
    leaves_spec(palette, records, m.voxels)
}

/// The sub-groups a sequence of models builds to, in document order.
pub open spec fn groups_spec(
    palette: Seq<Rgba>,
    records: Seq<MaterialRecord>,
    models: Seq<ModelView>,
) -> Seq<Seq<Leaf>> {
    models.map_values(|m: ModelView| group_spec(palette, records, m))
}

/// A document with no models, or whose first model has no voxels, builds
/// to an empty scene with zero dimensions instead of failing.
pub open spec fn doc_degenerate(d: DocumentView) -> bool {
    d.models.len() == 0 || d.models[0].voxels.len() == 0
}

/// Every palette index the model references resolves against this palette.
pub open spec fn model_resolvable(palette: Seq<Rgba>, m: ModelView) -> bool {
    forall|j: int|
        0 <= j < m.voxels.len() ==> color_resolvable(
            palette,
            (#[trigger] m.voxels[j]).color_index as int,
        )
}

/// Every palette index the document references resolves.
pub open spec fn doc_resolvable(d: DocumentView) -> bool {
    forall|i: int|
        0 <= i < d.models.len() ==> model_resolvable(d.palette, #[trigger] d.models[i])
}

/// Some voxel of the model references this palette index.
pub open spec fn model_references(m: ModelView, index: u16) -> bool {
    exists|j: int| 0 <= j < m.voxels.len() && (#[trigger] m.voxels[j]).color_index == index
}

/// Some voxel of the document references this palette index.
pub open spec fn doc_references(d: DocumentView, index: u16) -> bool {
    exists|i: int| 0 <= i < d.models.len() && model_references(#[trigger] d.models[i], index)
}

/// The component-wise maximum of a sequence of extents; zero for the empty
/// sequence.
pub open spec fn dims_spec(sizes: Seq<Dimensions>) -> Dimensions
    decreases sizes.len(),
{
    if sizes.len() == 0 {
        Dimensions::zero_spec()
    } else {
        dims_spec(sizes.drop_last()).max_spec(sizes.last())
    }
}

/// The declared sizes of a document's models, in document order.
pub open spec fn doc_sizes(d: DocumentView) -> Seq<Dimensions> {
    d.models.map_values(|m: ModelView| m.size)
}

/// The scene a document builds to: empty for a degenerate document, else
/// one sub-group per model.
pub open spec fn graph_spec(d: DocumentView) -> Seq<Seq<Leaf>> {
    if doc_degenerate(d) {
        Seq::empty()
    } else {
        groups_spec(d.palette, d.materials, d.models)
    }
}

/// The bounding dimensions a document builds to: zero for a degenerate
/// document, else the component-wise maximum of the declared model sizes.
pub open spec fn doc_dims_spec(d: DocumentView) -> Dimensions {
    if doc_degenerate(d) {
        Dimensions::zero_spec()
    } else {
        dims_spec(doc_sizes(d))
    }
}

/// The number of leaves across all sub-groups.
pub open spec fn total_leaves(groups: Seq<Seq<Leaf>>) -> nat
    decreases groups.len(),
{
    if groups.len() == 0 {
        0
    } else {
        total_leaves(groups.drop_last()) + groups.last().len()
    }
}

/// The number of voxels across all models.
pub open spec fn total_voxels(models: Seq<ModelView>) -> nat
    decreases models.len(),
{
    if models.len() == 0 {
        0
    } else {
        total_voxels(models.drop_last()) + models.last().voxels.len()
    }
}

/// Build the sub-group for one model: one leaf per voxel, in model order,
/// each with its resolved material. Fails exactly when some voxel's
/// palette index resolves against neither palette.
pub fn build_group(
    palette: &Vec<Rgba>,
    records: &Vec<MaterialRecord>,
    model: &VoxelModel,
) -> (result: Result<Group, BuildError>)
    ensures
        result is Ok <==> model_resolvable(palette@, model@),
        result matches Ok(g) ==> g@ == group_spec(palette@, records@, model@),
        result matches Err(e) ==> e matches BuildError::PaletteIndexOutOfRange(idx)
            && model_references(model@, idx) && !color_resolvable(palette@, idx as int),
{
    let ghost voxels = model@.voxels;
    let mut leaves: Vec<Leaf> = Vec::new();
    let n = model.voxels.len();
    assert(leaves@ =~= leaves_spec(palette@, records@, voxels.take(0)));
    let mut j: usize = 0;
    while j < n
        invariant
            0 <= j <= n,
            n == voxels.len(),
            voxels == model@.voxels,
            leaves@ == leaves_spec(palette@, records@, voxels.take(j as int)),
            forall|k: int|
                0 <= k < j ==> color_resolvable(
                    palette@,
                    (#[trigger] voxels[k]).color_index as int,
                ),
        decreases n - j,
    {
        let v = model.voxels[j];
        match resolve_material(palette, records, v.color_index) {
            Ok(m) => {
                leaves.push(Leaf { x: v.x, y: v.y, z: v.z, material: m });
            },
            Err(e) => {
                proof {
                    assert(model_references(model@, v.color_index));
                }
                return Err(e);
            },
        }
        proof {
            assert(leaves@ =~= leaves_spec(palette@, records@, voxels.take(j as int + 1)));
        }
        j = j + 1;
    }
    proof {
        assert(voxels.take(n as int) =~= voxels);
    }
    Ok(Group { leaves })
}

/// Build a document into its scene and bounding dimensions.
///
/// A degenerate document (no models, or an empty first model) builds to
/// the empty scene with zero dimensions. Otherwise the build succeeds
/// exactly when every referenced palette index resolves, producing one
/// sub-group per model in document order and the component-wise maximum
/// of the declared model sizes; a miss against both palettes rejects the
/// document with the offending index.
pub fn build(doc: &VoxelDocument) -> (result: Result<(SceneGraph, Dimensions), BuildError>)
    ensures
        result is Ok <==> (doc_degenerate(doc@) || doc_resolvable(doc@)),
        result matches Ok(r) ==> r.0@ == graph_spec(doc@) && r.1 == doc_dims_spec(doc@),
        result matches Err(e) ==> e matches BuildError::PaletteIndexOutOfRange(idx)
            && doc_references(doc@, idx) && !color_resolvable(doc@.palette, idx as int),
{
    if doc.models.len() == 0 || doc.models[0].voxels.len() == 0 {
        let graph = SceneGraph { groups: Vec::new() };
        proof {
            assert(doc_degenerate(doc@));
            assert(graph@ =~= graph_spec(doc@));
        }
        return Ok((graph, Dimensions::zero()));
    }
    let ghost models = doc@.models;
    let mut groups: Vec<Group> = Vec::new();
    let mut dims = Dimensions::zero();
    let n = doc.models.len();
    assert(models.take(0).map_values(|m: ModelView| m.size) =~= Seq::<Dimensions>::empty());
    let mut i: usize = 0;
    while i < n
        invariant
            0 <= i <= n,
            n == models.len(),
            models == doc@.models,
            !doc_degenerate(doc@),
            groups@.len() == i,
            forall|k: int|
                0 <= k < i ==> (#[trigger] groups@[k])@ == group_spec(
                    doc@.palette,
                    doc@.materials,
                    models[k],
                ),
            dims == dims_spec(models.take(i as int).map_values(|m: ModelView| m.size)),
            forall|k: int| 0 <= k < i ==> model_resolvable(doc@.palette, #[trigger] models[k]),
        decreases n - i,
    {
        match build_group(&doc.palette, &doc.materials, &doc.models[i]) {
            Ok(g) => {
                groups.push(g);
            },
            Err(e) => {
                proof {
                    let m = models[i as int];
                    assert(doc_references(doc@, e->0)) by {
                        assert(model_references(m, e->0));
                    }
                    assert(!doc_resolvable(doc@)) by {
                        let j = choose|j: int|
                            0 <= j < m.voxels.len() && (#[trigger] m.voxels[j]).color_index
                                == e->0;
                        assert(!model_resolvable(doc@.palette, m));
                    }
                }
                return Err(e);
            },
        }
        dims = dims.component_max(doc.models[i].size);
        proof {
            let sizes_next = models.take(i as int + 1).map_values(|m: ModelView| m.size);
            let sizes_prev = models.take(i as int).map_values(|m: ModelView| m.size);
            assert(sizes_next.drop_last() =~= sizes_prev);
            assert(sizes_next.last() == models[i as int].size);
        }
        i = i + 1;
    }
    proof {
        assert(models.take(n as int) =~= models);
        assert(models.map_values(|m: ModelView| m.size) =~= doc_sizes(doc@));
        assert(groups@.map_values(|g: Group| g@) =~= groups_spec(
            doc@.palette,
            doc@.materials,
            models,
        ));
    }
    Ok((SceneGraph { groups }, dims))
}

impl SceneGraph {
    /// The number of sub-groups: one per model of the built document.
    pub fn group_count(&self) -> (n: usize)
        ensures
            n == self@.len(),
    {
        self.groups.len()
    }

    /// The number of leaves across all sub-groups: one per voxel of the
    /// built document.
    pub fn leaf_count(&self) -> (n: usize)
        requires
            total_leaves(self@) <= usize::MAX,
        ensures
            n == total_leaves(self@),
    {
        let ghost view = self@;
        let mut n: usize = 0;
        assert(view.take(0) =~= Seq::<Seq<Leaf>>::empty());
        let mut i: usize = 0;
        while i < self.groups.len()
            invariant
                0 <= i <= self.groups.len(),
                view == self@,
                view.len() == self.groups@.len(),
                total_leaves(view) <= usize::MAX,
                n == total_leaves(view.take(i as int)),
            decreases self.groups.len() - i,
        {
            proof {
                lemma_total_leaves_take(view, i as int + 1);
                assert(view.take(i as int + 1).drop_last() =~= view.take(i as int));
                assert(view.take(i as int + 1).last() == view[i as int]);
            }
            n = n + self.groups[i].leaves.len();
            i = i + 1;
        }
        proof {
            assert(view.take(self.groups@.len() as int) =~= view);
        }
        n
    }
}

/// A prefix never holds more leaves than the whole.
proof fn lemma_total_leaves_take(groups: Seq<Seq<Leaf>>, i: int)
    requires
        0 <= i <= groups.len(),
    ensures
        total_leaves(groups.take(i)) <= total_leaves(groups),
    decreases groups.len(),
{
    if i == groups.len() {
        assert(groups.take(i) =~= groups);
    } else {
        assert(groups.drop_last().take(i) =~= groups.take(i));
        lemma_total_leaves_take(groups.drop_last(), i);
    }
}

/// Law: a document with no models builds to an empty scene — no groups,
/// no leaves — and zero bounding dimensions.
pub proof fn lemma_empty_document(d: DocumentView)
    requires
        d.models.len() == 0,
    ensures
        graph_spec(d) =~= Seq::<Seq<Leaf>>::empty(),
        total_leaves(graph_spec(d)) == 0,
        doc_dims_spec(d) == Dimensions::zero_spec(),
{
}

/// The sub-groups of a model sequence hold exactly its voxels' leaves.
proof fn lemma_groups_total(
    palette: Seq<Rgba>,
    records: Seq<MaterialRecord>,
    models: Seq<ModelView>,
)
    ensures
        total_leaves(groups_spec(palette, records, models)) == total_voxels(models),
    decreases models.len(),
{
    if models.len() > 0 {
        lemma_groups_total(palette, records, models.drop_last());
        assert(groups_spec(palette, records, models).drop_last() =~= groups_spec(
            palette,
            records,
            models.drop_last(),
        ));
        assert(groups_spec(palette, records, models).last() == group_spec(
            palette,
            records,
            models.last(),
        ));
    }
}

/// Law: the scene holds exactly one leaf per voxel — the number of leaves
/// equals the total voxel count across all models. The degenerate
/// documents that build to the empty scene despite holding voxels (an
/// empty first model followed by non-empty ones) are the one exclusion.
pub proof fn lemma_leaf_count(d: DocumentView)
    requires
        d.models.len() == 0 || d.models[0].voxels.len() != 0 || total_voxels(d.models) == 0,
    ensures
        total_leaves(graph_spec(d)) == total_voxels(d.models),
{
    if doc_degenerate(d) {
        if d.models.len() == 0 {
            lemma_empty_document(d);
        }
    } else {
        lemma_groups_total(d.palette, d.materials, d.models);
    }
}

/// Law: the built dimensions bound every model's declared size and are
/// attained, per component — they are the component-wise maximum.
pub proof fn lemma_dims_component_max(sizes: Seq<Dimensions>)
    ensures
        forall|k: int|
            0 <= k < sizes.len() ==> (#[trigger] sizes[k]).x <= dims_spec(sizes).x && sizes[k].y
                <= dims_spec(sizes).y && sizes[k].z <= dims_spec(sizes).z,
        sizes.len() > 0 ==> exists|k: int|
            0 <= k < sizes.len() && (#[trigger] sizes[k]).x == dims_spec(sizes).x,
        sizes.len() > 0 ==> exists|k: int|
            0 <= k < sizes.len() && (#[trigger] sizes[k]).y == dims_spec(sizes).y,
        sizes.len() > 0 ==> exists|k: int|
            0 <= k < sizes.len() && (#[trigger] sizes[k]).z == dims_spec(sizes).z,
    decreases sizes.len(),
{
    if sizes.len() > 0 {
        lemma_dims_component_max(sizes.drop_last());
        let prefix = sizes.drop_last();
        let whole = dims_spec(sizes);
        assert(forall|k: int| 0 <= k < prefix.len() ==> prefix[k] == #[trigger] sizes[k]);
        if sizes.last().x >= dims_spec(prefix).x {
            assert(sizes[sizes.len() - 1].x == whole.x);
        }
        if sizes.last().y >= dims_spec(prefix).y {
            assert(sizes[sizes.len() - 1].y == whole.y);
        }
        if sizes.last().z >= dims_spec(prefix).z {
            assert(sizes[sizes.len() - 1].z == whole.z);
        }
    }
}

/// Law: the bounding dimensions are independent of model order — two size
/// sequences holding the same sizes (as a multiset) yield the same
/// component-wise maximum.
pub proof fn lemma_dims_order_independent(a: Seq<Dimensions>, b: Seq<Dimensions>)
    requires
        a.to_multiset() == b.to_multiset(),
    ensures
        dims_spec(a) == dims_spec(b),
{
    broadcast use vstd::seq_lib::group_to_multiset_ensures;

    assert(a.to_multiset().len() == a.len());
    assert(b.to_multiset().len() == b.len());
    if a.len() == 0 {
        assert(b.len() == 0);
    } else {
        assert(b.len() > 0);
        lemma_dims_component_max(a);
        lemma_dims_component_max(b);
        lemma_dims_le(a, b);
        lemma_dims_le(b, a);
        assert(dims_spec(a) == dims_spec(b));
    }
}

/// Each attained component of `dims_spec(a)` is bounded by `dims_spec(b)`
/// when `b` holds the same sizes.
proof fn lemma_dims_le(a: Seq<Dimensions>, b: Seq<Dimensions>)
    requires
        a.to_multiset() == b.to_multiset(),
        a.len() > 0,
        b.len() > 0,
    ensures
        dims_spec(a).x <= dims_spec(b).x,
        dims_spec(a).y <= dims_spec(b).y,
        dims_spec(a).z <= dims_spec(b).z,
{
    broadcast use vstd::seq_lib::group_to_multiset_ensures;

    lemma_dims_component_max(a);
    lemma_dims_component_max(b);
    let ka = choose|k: int| 0 <= k < a.len() && (#[trigger] a[k]).x == dims_spec(a).x;
    assert(a.contains(a[ka]));
    assert(a.to_multiset().count(a[ka]) > 0);
    assert(b.to_multiset().count(a[ka]) > 0);
    assert(b.contains(a[ka]));
    let kb = choose|k: int| 0 <= k < b.len() && b[k] == a[ka];
    assert(b[kb].x <= dims_spec(b).x);
    let kay = choose|k: int| 0 <= k < a.len() && (#[trigger] a[k]).y == dims_spec(a).y;
    assert(a.contains(a[kay]));
    assert(a.to_multiset().count(a[kay]) > 0);
    assert(b.to_multiset().count(a[kay]) > 0);
    assert(b.contains(a[kay]));
    let kby = choose|k: int| 0 <= k < b.len() && b[k] == a[kay];
    assert(b[kby].y <= dims_spec(b).y);
    let kaz = choose|k: int| 0 <= k < a.len() && (#[trigger] a[k]).z == dims_spec(a).z;
    assert(a.contains(a[kaz]));
    assert(a.to_multiset().count(a[kaz]) > 0);
    assert(b.to_multiset().count(a[kaz]) > 0);
    assert(b.contains(a[kaz]));
    let kbz = choose|k: int| 0 <= k < b.len() && b[k] == a[kaz];
    assert(b[kbz].z <= dims_spec(b).z);
}

} // verus!
