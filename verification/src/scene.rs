//! Scene assembly.
//!
//! One pass over the parsed document builds the output scene: every mesh
//! object's geometry runs through the assembler, every referenced material
//! through the label-deduplicated loader dispatch, and the node tree
//! through the hierarchy walker.  Failures are collected per unit and the
//! rest of the document still loads — a failed mesh or material is simply
//! missing from the result.
//!
//! The unit scale is an explicit configuration value resolved once at
//! load start: a caller override wins over the document's unit-scale
//! property, which wins over the default of one.

use vstd::prelude::*;

use crate::error::{FbxError, LoadError};
use crate::fixed::FP_ONE;
use crate::hierarchy::{local_ok, sresolved, sretained, subtree_has_mesh, traverse_hierarchy, NodeTree, ResolvedNode};
use crate::labels::{copy_bytes, display_label, display_label_spec};
use crate::material_loader::{
    cache_views, find_label_view, first_applying, lemma_find_label_views, strategy_result_matches,
    MaterialCache, MaterialDescription, MaterialLoader, MaterialProperties,
};
use crate::mesh::{assemble, assemble_error_matches, assemble_ok, assembled_matches, GeometryObject, MeshBuffers};

verus! {

/// Where a texture's bytes come from: embedded in the document, or an
/// external file next to it.
pub enum TextureSource {
    /// The document itself carries the bytes; the label is the clip's
    /// file name.
    Embedded(Vec<u8>),
    /// The bytes live in a separate file at this normalized relative
    /// path.
    External(Vec<u8>),
}

/// A path with the document's Windows-style separators normalized.
pub open spec fn normalized_path_spec(p: Seq<u8>) -> Seq<u8> {
    Seq::new(
        p.len(),
        |i: int|
            if p[i] == 92 {
                47u8
            } else {
                p[i]
            },
    )
}

/// Normalizes a relative path's separators.
pub fn normalize_path(p: &Vec<u8>) -> (r: Vec<u8>)
    ensures
        r@ == normalized_path_spec(p@),
{
    let mut r: Vec<u8> = Vec::new();
    let mut i: usize = 0;
    while i < p.len()
        invariant
            0 <= i <= p@.len(),
            r@.len() == i,
            forall|j: int| 0 <= j < i ==> #[trigger] r@[j] == normalized_path_spec(p@)[j],
        decreases p@.len() - i,
    {
        let b = p[i];
        if b == 92 {
            r.push(47);
        } else {
            r.push(b);
        }
        i = i + 1;
    }
    proof {
        assert(r@ =~= normalized_path_spec(p@));
    }
    r
}

/// Decides where a texture's bytes come from: embedded content is used
/// under the clip's file name, anything else is an external file at the
/// normalized relative path.
pub fn resolve_texture_source(has_content: bool, relative_filename: &Vec<u8>) -> (r: TextureSource)
    ensures
        has_content ==> r is Embedded && r->Embedded_0@ == relative_filename@,
        !has_content ==> r is External && r->External_0@ == normalized_path_spec(
            relative_filename@,
        ),
{
    if has_content {
        TextureSource::Embedded(copy_bytes(relative_filename))
    } else {
        TextureSource::External(normalize_path(relative_filename))
    }
}

/// Resolves the unit scale: caller override, then the document's
/// unit-scale property, then one.
pub fn resolve_scale(override_scale: Option<i64>, document_scale: Option<i64>) -> (r: i64)
    ensures
        override_scale is Some ==> r == override_scale->0,
        override_scale is None && document_scale is Some ==> r == document_scale->0,
        override_scale is None && document_scale is None ==> r == FP_ONE,
{
    match override_scale {
        Option::Some(v) => v,
        Option::None => match document_scale {
            Option::Some(v) => v,
            Option::None => FP_ONE,
        },
    }
}

/// The loaded scene: meshes and materials by label, texture sources,
/// the pruned hierarchy and its roots, and the resolved unit scale.
pub struct Scene {
    pub name: Option<Vec<u8>>,
    pub meshes: Vec<(Vec<u8>, MeshBuffers)>,
    pub materials: MaterialCache,
    pub textures: Vec<(Vec<u8>, TextureSource)>,
    pub hierarchy: Vec<Option<ResolvedNode>>,
    pub roots: Vec<usize>,
    pub scale: i64,
}

impl Scene {
    /// An empty scene at unit scale.
    pub fn new() -> (r: Scene)
        ensures
            r.name is None,
            r.meshes@.len() == 0,
            r.materials.labels@.len() == 0,
            r.materials.well_formed(),
            r.textures@.len() == 0,
            r.hierarchy@.len() == 0,
            r.roots@.len() == 0,
            r.scale == FP_ONE,
    {
        Scene {
            name: Option::None,
            meshes: Vec::new(),
            materials: MaterialCache::new(),
            textures: Vec::new(),
            hierarchy: Vec::new(),
            roots: Vec::new(),
            scale: FP_ONE,
        }
    }

    /// Sets the scene name.
    pub fn set_name(&mut self, name: Option<Vec<u8>>)
        ensures
            final(self).name == name,
            final(self).meshes == old(self).meshes,
            final(self).materials == old(self).materials,
            final(self).textures == old(self).textures,
            final(self).hierarchy == old(self).hierarchy,
            final(self).roots == old(self).roots,
            final(self).scale == old(self).scale,
    {
        self.name = name;
    }

    /// Adds a mesh under its label.
    pub fn add_mesh(&mut self, label: Vec<u8>, buffers: MeshBuffers)
        ensures
            final(self).meshes@.len() == old(self).meshes@.len() + 1,
            final(self).meshes@.last().0 == label,
            final(self).meshes@.last().1 == buffers,
            forall|j: int|
                0 <= j < old(self).meshes@.len() ==> (#[trigger] final(self).meshes@[j]) == old(
                    self,
                ).meshes@[j],
            final(self).name == old(self).name,
            final(self).materials == old(self).materials,
            final(self).textures == old(self).textures,
            final(self).hierarchy == old(self).hierarchy,
            final(self).roots == old(self).roots,
            final(self).scale == old(self).scale,
    {
        self.meshes.push((label, buffers));
    }

    /// Adds a texture under its label, returning its index.
    pub fn add_texture(&mut self, label: Vec<u8>, source: TextureSource) -> (r: usize)
        ensures
            r == old(self).textures@.len(),
            final(self).textures@.len() == old(self).textures@.len() + 1,
            final(self).textures@.last().0 == label,
            final(self).textures@.last().1 == source,
            forall|j: int|
                0 <= j < old(self).textures@.len() ==> (#[trigger] final(self).textures@[j])
                    == old(self).textures@[j],
            final(self).name == old(self).name,
            final(self).meshes == old(self).meshes,
            final(self).materials == old(self).materials,
            final(self).hierarchy == old(self).hierarchy,
            final(self).roots == old(self).roots,
            final(self).scale == old(self).scale,
    {
        let i = self.textures.len();
        self.textures.push((label, source));
        i
    }

    /// The material descriptions, in insertion order.
    pub fn materials(&self) -> (r: &Vec<MaterialDescription>)
        ensures
            r == self.materials.descriptions,
    {
        &self.materials.descriptions
    }

    /// The material at an index.
    pub fn material(&self, i: usize) -> (r: Option<&MaterialDescription>)
        ensures
            r is Some <==> i < self.materials.descriptions@.len(),
            r is Some ==> r->0 == self.materials.descriptions@[i as int],
    {
        if i < self.materials.descriptions.len() {
            Option::Some(&self.materials.descriptions[i])
        } else {
            Option::None
        }
    }

    /// The textures, in insertion order.
    pub fn textures(&self) -> (r: &Vec<(Vec<u8>, TextureSource)>)
        ensures
            r == self.textures,
    {
        &self.textures
    }

    /// The texture at an index.
    pub fn texture(&self, i: usize) -> (r: Option<&(Vec<u8>, TextureSource)>)
        ensures
            r is Some <==> i < self.textures@.len(),
            r is Some ==> r->0 == self.textures@[i as int],
    {
        if i < self.textures.len() {
            Option::Some(&self.textures[i])
        } else {
            Option::None
        }
    }
}

/// One material reference of a mesh object: the source material's display
/// label and its plain-value properties.
pub struct MeshMaterial {
    pub label: Vec<u8>,
    pub properties: MaterialProperties,
}

/// One mesh object of the document: its geometry and the materials its
/// slots reference, in slot order.
pub struct MeshObject {
    pub id: u64,
    pub name: Option<Vec<u8>>,
    pub geometry: GeometryObject,
    pub materials: Vec<MeshMaterial>,
}

/// The parsed document, reduced to plain values: the mesh objects, the
/// model tree with its roots, and the unit-scale property when present.
pub struct DocumentModel {
    pub meshes: Vec<MeshObject>,
    pub tree: NodeTree,
    pub roots: Vec<usize>,
    pub document_scale: Option<i64>,
}

/// Every kept index points into the mesh list.
pub proof fn lemma_kept_in_range(meshes: Seq<MeshObject>)
    ensures
        forall|k: int|
            0 <= k < kept_meshes(meshes).len() ==> 0 <= #[trigger] kept_meshes(meshes)[k]
                < meshes.len(),
    decreases meshes.len(),
{
    if meshes.len() > 0 {
        lemma_kept_in_range(meshes.drop_last());
        assert forall|k: int|
            0 <= k < kept_meshes(meshes).len() implies 0 <= #[trigger] kept_meshes(meshes)[k]
            < meshes.len() by {
            if k < kept_meshes(meshes.drop_last()).len() {
                assert(kept_meshes(meshes)[k] == kept_meshes(meshes.drop_last())[k]);
            }
        }
    }
}

/// The indices of the mesh objects whose geometry assembles.
pub open spec fn kept_meshes(meshes: Seq<MeshObject>) -> Seq<int>
    decreases meshes.len(),
{
    if meshes.len() == 0 {
        Seq::empty()
    } else {
        kept_meshes(meshes.drop_last()) + if assemble_ok(
            meshes.last().geometry,
            meshes.last().materials@.len() as int,
        ) {
            seq![meshes.len() - 1]
        } else {
            Seq::empty()
        }
    }
}

/// The material pass's state after processing every slot of the first
/// `i` mesh objects and, beyond them, the first `m` slots of mesh `i`:
/// the cache's label views in insertion order, the (mesh, slot)
/// reference that produced each entry, and the references whose load
/// failed, in order.
pub open spec fn material_pass_state(
    meshes: Seq<MeshObject>,
    loaders: Seq<MaterialLoader>,
    i: int,
    m: int,
) -> (Seq<Seq<u8>>, Seq<(int, int)>, Seq<(int, int)>)
    decreases i, m,
{
    if i <= 0 && m <= 0 {
        (Seq::empty(), Seq::empty(), Seq::empty())
    } else if m <= 0 {
        material_pass_state(meshes, loaders, i - 1, meshes[i - 1].materials@.len() as int)
    } else {
        let prev = material_pass_state(meshes, loaders, i, m - 1);
        let label = meshes[i].materials@[m - 1].label@;
        let props = meshes[i].materials@[m - 1].properties;
        if find_label_view(prev.0, label) is Some {
            prev
        } else if first_applying(loaders, props) is Some {
            (prev.0.push(label), prev.1.push((i, m - 1)), prev.2)
        } else {
            (prev.0, prev.1, prev.2.push((i, m - 1)))
        }
    }
}

/// What the material pass guarantees at state `(i, m)`: the cache holds
/// exactly the labels the processed references introduced, each with a
/// description produced by the first applying strategy of the reference
/// that introduced it, and the error list holds exactly the references
/// whose loader chain declined, labeled, with `NoLoaderMatched`.
pub open spec fn material_pass_matches(
    meshes: Seq<MeshObject>,
    loaders: Seq<MaterialLoader>,
    i: int,
    m: int,
    cache: MaterialCache,
    errors: Seq<LoadError>,
) -> bool {
    let st = material_pass_state(meshes, loaders, i, m);
    &&& cache.well_formed()
    &&& cache_views(cache) == st.0
    &&& cache.descriptions@.len() == st.0.len()
    &&& st.1.len() == st.0.len()
    &&& forall|j: int|
        0 <= j < st.1.len() ==> {
            let rf = #[trigger] st.1[j];
            &&& 0 <= rf.0 < meshes.len()
            &&& 0 <= rf.1 < meshes[rf.0].materials@.len()
            &&& st.0[j] == meshes[rf.0].materials@[rf.1].label@
            &&& first_applying(loaders, meshes[rf.0].materials@[rf.1].properties) is Some
            &&& strategy_result_matches(
                first_applying(loaders, meshes[rf.0].materials@[rf.1].properties)->0,
                meshes[rf.0].materials@[rf.1].properties,
                cache.descriptions@[j],
            )
        }
    &&& errors.len() == st.2.len()
    &&& forall|k: int|
        0 <= k < st.2.len() ==> {
            let rf = #[trigger] st.2[k];
            &&& 0 <= rf.0 < meshes.len()
            &&& 0 <= rf.1 < meshes[rf.0].materials@.len()
            &&& errors[k].label@ == meshes[rf.0].materials@[rf.1].label@
            &&& errors[k].error == FbxError::NoLoaderMatched
            &&& first_applying(loaders, meshes[rf.0].materials@[rf.1].properties) is None
        }
}

/// The indices of the mesh objects whose geometry does not assemble.
pub open spec fn failed_meshes(meshes: Seq<MeshObject>) -> Seq<int>
    decreases meshes.len(),
{
    if meshes.len() == 0 {
        Seq::empty()
    } else {
        failed_meshes(meshes.drop_last()) + if assemble_ok(
            meshes.last().geometry,
            meshes.last().materials@.len() as int,
        ) {
            Seq::empty()
        } else {
            seq![meshes.len() - 1]
        }
    }
}

/// Loads a parsed document into a scene: loads every referenced material
/// through the label-deduplicated dispatch, assembles every mesh, and
/// walks the node tree.  Units that fail are skipped and reported under
/// their display label; one failure stops nothing else.
#[verifier::rlimit(100)]
pub fn load_document(
    doc: &DocumentModel,
    loaders: &Vec<MaterialLoader>,
    override_scale: Option<i64>,
) -> (r: (Scene, Vec<LoadError>))
    requires
        doc.tree.well_formed(),
        forall|i: int|
            0 <= i < doc.meshes@.len() ==> (#[trigger] doc.meshes@[i]).materials@.len()
                <= 0xFFFF_FFFF,
    ensures
        ({
            let scene = r.0;
            &&& scene.hierarchy@.len() == doc.tree.nodes@.len()
            &&& forall|i: int|
                0 <= i < doc.tree.nodes@.len() ==> ((#[trigger] scene.hierarchy@[i]) is Some
                    <==> sretained(doc.tree.nodes@, i))
            &&& scene.roots@ == doc.roots@
            &&& override_scale is Some ==> scene.scale == override_scale->0
            &&& override_scale is None && doc.document_scale is Some ==> scene.scale
                == doc.document_scale->0
            &&& override_scale is None && doc.document_scale is None ==> scene.scale == FP_ONE
            &&& scene.meshes@.len() == kept_meshes(doc.meshes@).len()
            &&& forall|k: int|
                0 <= k < kept_meshes(doc.meshes@).len() ==> {
                    let i = kept_meshes(doc.meshes@)[k];
                    let src = doc.meshes@[i];
                    &&& 0 <= i < doc.meshes@.len()
                    &&& (#[trigger] scene.meshes@[k]).0@ == display_label_spec(
                        match src.name {
                            Option::Some(n) => Option::Some(n@),
                            Option::None => Option::None,
                        },
                        src.id as int,
                    )
                    &&& assembled_matches(
                        src.geometry,
                        src.materials@.len() as int,
                        scene.meshes@[k].1,
                    )
                    &&& scene.meshes@[k].1.well_formed()
                }
            &&& scene.materials.well_formed()
        }),
        ({
            let mat_fails = material_pass_state(
                doc.meshes@,
                loaders@,
                doc.meshes@.len() as int,
                0,
            ).2;
            let mfailed = failed_meshes(doc.meshes@);
            &&& material_pass_matches(
                doc.meshes@,
                loaders@,
                doc.meshes@.len() as int,
                0,
                r.0.materials,
                r.1@.take(mat_fails.len() as int),
            )
            &&& r.1@.len() >= mat_fails.len() + mfailed.len()
            &&& forall|k: int|
                0 <= k < mfailed.len() ==> {
                    let mi = #[trigger] mfailed[k];
                    &&& 0 <= mi < doc.meshes@.len()
                    &&& r.1@[mat_fails.len() + k].label@ == display_label_spec(
                        match doc.meshes@[mi].name {
                            Option::Some(n) => Option::Some(n@),
                            Option::None => Option::None,
                        },
                        doc.meshes@[mi].id as int,
                    )
                    &&& assemble_error_matches(
                        doc.meshes@[mi].geometry,
                        doc.meshes@[mi].materials@.len() as int,
                        r.1@[mat_fails.len() + k].error,
                    )
                }
            &&& (r.1@.len() == 0 <==> (mat_fails.len() == 0 && mfailed.len() == 0 && (forall|
                x: int,
            |
                0 <= x < doc.tree.nodes@.len() ==> (#[trigger] sresolved(doc.tree.nodes@, x))
                    is Some) && (forall|x: int|
                0 <= x < doc.tree.nodes@.len() ==> (subtree_has_mesh(doc.tree.nodes@, x)
                    ==> #[trigger] local_ok(doc.tree.nodes@, x)))))
        }),
{
    let mut scene = Scene::new();
    let mut errors: Vec<LoadError> = Vec::new();

    scene.scale = resolve_scale(override_scale, doc.document_scale);
    let n = doc.meshes.len();
    proof {
        assert(cache_views(scene.materials) =~= Seq::<Seq<u8>>::empty());
        assert(material_pass_matches(doc.meshes@, loaders@, 0, 0, scene.materials, errors@));
    }

    // Material pass: every reference through the deduplicating dispatch.
    let mut i: usize = 0;
    while i < n
        invariant
            0 <= i <= n,
            n == doc.meshes@.len(),
            forall|j: int|
                0 <= j < doc.meshes@.len() ==> (#[trigger] doc.meshes@[j]).materials@.len()
                    <= 0xFFFF_FFFF,
            material_pass_matches(doc.meshes@, loaders@, i as int, 0, scene.materials, errors@),
            scene.meshes@.len() == 0,
            scene.hierarchy@.len() == 0,
            scene.roots@.len() == 0,
            scene.scale == resolve_scale_spec(override_scale, doc.document_scale),
        decreases n - i,
    {
        let mesh_obj = &doc.meshes[i];
        let mc = mesh_obj.materials.len();
        let mut m: usize = 0;
        proof {
            assert(material_pass_state(doc.meshes@, loaders@, i as int, 0)
                == material_pass_state(doc.meshes@, loaders@, i as int, 0));
        }
        while m < mc
            invariant
                0 <= m <= mc,
                i < n,
                n == doc.meshes@.len(),
                mc == doc.meshes@[i as int].materials@.len(),
                mesh_obj == doc.meshes@[i as int],
                material_pass_matches(
                    doc.meshes@,
                    loaders@,
                    i as int,
                    m as int,
                    scene.materials,
                    errors@,
                ),
                scene.meshes@.len() == 0,
                scene.hierarchy@.len() == 0,
                scene.roots@.len() == 0,
                scene.scale == resolve_scale_spec(override_scale, doc.document_scale),
            decreases mc - m,
        {
            let entry = &mesh_obj.materials[m];
            let ghost st0 = material_pass_state(doc.meshes@, loaders@, i as int, m as int);
            let ghost cache0 = scene.materials;
            let ghost errs0 = errors@;
            proof {
                lemma_find_label_views(scene.materials.labels@, entry.label@);
                assert(Seq::new(
                    scene.materials.labels@.len(),
                    |j: int| scene.materials.labels@[j]@,
                ) == cache_views(scene.materials));
            }
            match scene.materials.material_for(&entry.label, &entry.properties, loaders) {
                Ok(_) => {},
                Err(e) => {
                    errors.push(LoadError { label: copy_bytes(&entry.label), error: e });
                },
            }
            proof {
                let st1 = material_pass_state(doc.meshes@, loaders@, i as int, m + 1);
                assert(st1 == ({
                    let prev = material_pass_state(doc.meshes@, loaders@, i as int, m as int);
                    let label = doc.meshes@[i as int].materials@[m as int].label@;
                    let props = doc.meshes@[i as int].materials@[m as int].properties;
                    if find_label_view(prev.0, label) is Some {
                        prev
                    } else if first_applying(loaders@, props) is Some {
                        (prev.0.push(label), prev.1.push((i as int, m as int)), prev.2)
                    } else {
                        (prev.0, prev.1, prev.2.push((i as int, m as int)))
                    }
                }));
                if find_label_view(st0.0, entry.label@) is Some {
                    assert(st1 == st0);
                    assert(material_pass_matches(
                        doc.meshes@,
                        loaders@,
                        i as int,
                        m + 1,
                        scene.materials,
                        errors@,
                    ));
                } else if first_applying(loaders@, entry.properties) is Some {
                    assert(st1.0 == st0.0.push(entry.label@) && st1.1 == st0.1.push(
                        (i as int, m as int),
                    ) && st1.2 == st0.2);
                    assert(cache_views(scene.materials) =~= st0.0.push(entry.label@));
                    assert forall|j: int| 0 <= j < st1.1.len() implies {
                        let rf = #[trigger] st1.1[j];
                        &&& 0 <= rf.0 < doc.meshes@.len()
                        &&& 0 <= rf.1 < doc.meshes@[rf.0].materials@.len()
                        &&& st1.0[j] == doc.meshes@[rf.0].materials@[rf.1].label@
                        &&& first_applying(
                            loaders@,
                            doc.meshes@[rf.0].materials@[rf.1].properties,
                        ) is Some
                        &&& strategy_result_matches(
                            first_applying(
                                loaders@,
                                doc.meshes@[rf.0].materials@[rf.1].properties,
                            )->0,
                            doc.meshes@[rf.0].materials@[rf.1].properties,
                            scene.materials.descriptions@[j],
                        )
                    } by {
                        if j < st0.1.len() {
                            assert(st1.1[j] == st0.1[j]);
                            assert(st1.0[j] == st0.0[j]);
                            assert(scene.materials.descriptions@[j] == cache0.descriptions@[j]);
                        } else {
                            assert(st1.1[j] == (i as int, m as int));
                        }
                    }
                    assert(material_pass_matches(
                        doc.meshes@,
                        loaders@,
                        i as int,
                        m + 1,
                        scene.materials,
                        errors@,
                    ));
                } else {
                    assert(st1.0 == st0.0 && st1.1 == st0.1 && st1.2 == st0.2.push(
                        (i as int, m as int),
                    ));
                    assert(errors@ =~= errs0.push(errors@.last()));
                    assert forall|k: int| 0 <= k < st1.2.len() implies {
                        let rf = #[trigger] st1.2[k];
                        &&& 0 <= rf.0 < doc.meshes@.len()
                        &&& 0 <= rf.1 < doc.meshes@[rf.0].materials@.len()
                        &&& errors@[k].label@ == doc.meshes@[rf.0].materials@[rf.1].label@
                        &&& errors@[k].error == FbxError::NoLoaderMatched
                        &&& first_applying(
                            loaders@,
                            doc.meshes@[rf.0].materials@[rf.1].properties,
                        ) is None
                    } by {
                        if k < st0.2.len() {
                            assert(st1.2[k] == st0.2[k]);
                            assert(errors@[k] == errs0[k]);
                        } else {
                            assert(st1.2[k] == (i as int, m as int));
                        }
                    }
                    assert(material_pass_matches(
                        doc.meshes@,
                        loaders@,
                        i as int,
                        m + 1,
                        scene.materials,
                        errors@,
                    ));
                }
            }
            m = m + 1;
        }
        proof {
            assert(material_pass_state(doc.meshes@, loaders@, i + 1, 0) == material_pass_state(
                doc.meshes@,
                loaders@,
                i as int,
                mc as int,
            ));
        }
        i = i + 1;
    }
    let ghost mat_fail_count = material_pass_state(
        doc.meshes@,
        loaders@,
        n as int,
        0,
    ).2.len() as int;
    proof {
        assert(errors@.take(mat_fail_count) =~= errors@);
        assert(doc.meshes@.take(0) =~= Seq::<MeshObject>::empty());
    }

    // Mesh pass: every geometry through the assembler.
    let mut i: usize = 0;
    while i < n
        invariant
            0 <= i <= n,
            n == doc.meshes@.len(),
            forall|j: int|
                0 <= j < doc.meshes@.len() ==> (#[trigger] doc.meshes@[j]).materials@.len()
                    <= 0xFFFF_FFFF,
            mat_fail_count == material_pass_state(
                doc.meshes@,
                loaders@,
                n as int,
                0,
            ).2.len() as int,
            mat_fail_count <= errors@.len(),
            material_pass_matches(
                doc.meshes@,
                loaders@,
                n as int,
                0,
                scene.materials,
                errors@.take(mat_fail_count),
            ),
            errors@.len() == mat_fail_count + failed_meshes(doc.meshes@.take(i as int)).len(),
            forall|k: int|
                0 <= k < failed_meshes(doc.meshes@.take(i as int)).len() ==> {
                    let mi = #[trigger] failed_meshes(doc.meshes@.take(i as int))[k];
                    &&& 0 <= mi < i
                    &&& errors@[mat_fail_count + k].label@ == display_label_spec(
                        match doc.meshes@[mi].name {
                            Option::Some(nm) => Option::Some(nm@),
                            Option::None => Option::None,
                        },
                        doc.meshes@[mi].id as int,
                    )
                    &&& assemble_error_matches(
                        doc.meshes@[mi].geometry,
                        doc.meshes@[mi].materials@.len() as int,
                        errors@[mat_fail_count + k].error,
                    )
                },
            scene.hierarchy@.len() == 0,
            scene.roots@.len() == 0,
            scene.scale == resolve_scale_spec(override_scale, doc.document_scale),
            ({
                let kept = kept_meshes(doc.meshes@.take(i as int));
                &&& scene.meshes@.len() == kept.len()
                &&& forall|k: int|
                    0 <= k < kept.len() ==> {
                        let mi = kept[k];
                        let src = doc.meshes@[mi];
                        &&& 0 <= mi < i
                        &&& (#[trigger] scene.meshes@[k]).0@ == display_label_spec(
                            match src.name {
                                Option::Some(nm) => Option::Some(nm@),
                                Option::None => Option::None,
                            },
                            src.id as int,
                        )
                        &&& assembled_matches(
                            src.geometry,
                            src.materials@.len() as int,
                            scene.meshes@[k].1,
                        )
                        &&& scene.meshes@[k].1.well_formed()
                    }
            }),
        decreases n - i,
    {
        let mesh_obj = &doc.meshes[i];
        let ghost i0 = i as int;
        let ghost kept0 = kept_meshes(doc.meshes@.take(i as int));
        let ghost fail0 = failed_meshes(doc.meshes@.take(i as int));
        let ghost meshes0 = scene.meshes@;
        let ghost errs0 = errors@;
        proof {
            assert(doc.meshes@[i as int].materials@.len() <= 0xFFFF_FFFF);
            assert(doc.meshes@.take(i + 1).drop_last() =~= doc.meshes@.take(i as int));
            assert(doc.meshes@.take(i + 1).last() == doc.meshes@[i as int]);
        }
        let material_count: u32 = mesh_obj.materials.len() as u32;
        match assemble(&mesh_obj.geometry, material_count) {
            Ok(buffers) => {
                let label = display_label(
                    match &mesh_obj.name {
                        Option::Some(nm) => Option::Some(nm),
                        Option::None => Option::None,
                    },
                    mesh_obj.id,
                );
                scene.add_mesh(label, buffers);
            },
            Err(e) => {
                let label = display_label(
                    match &mesh_obj.name {
                        Option::Some(nm) => Option::Some(nm),
                        Option::None => Option::None,
                    },
                    mesh_obj.id,
                );
                errors.push(LoadError { label, error: e });
            },
        }
        proof {
            lemma_kept_in_range(doc.meshes@.take(i0 + 1));
            let kept1 = kept_meshes(doc.meshes@.take(i0 + 1));
            let fail1 = failed_meshes(doc.meshes@.take(i0 + 1));
            let src0 = doc.meshes@[i0];
            if assemble_ok(src0.geometry, src0.materials@.len() as int) {
                assert(kept1 =~= kept0 + seq![i0]);
                assert(kept1.len() == kept0.len() + 1);
                assert(kept1[kept0.len() as int] == i0);
                assert(fail1 =~= fail0);
            } else {
                assert(kept1 =~= kept0);
                assert(fail1 =~= fail0 + seq![i0]);
                assert(errors@ =~= errs0.push(errors@.last()));
            }
            assert(errors@.take(mat_fail_count) =~= errs0.take(mat_fail_count));
            assert forall|k: int| 0 <= k < fail1.len() implies {
                let mi = #[trigger] fail1[k];
                &&& 0 <= mi < i0 + 1
                &&& errors@[mat_fail_count + k].label@ == display_label_spec(
                    match doc.meshes@[mi].name {
                        Option::Some(nm) => Option::Some(nm@),
                        Option::None => Option::None,
                    },
                    doc.meshes@[mi].id as int,
                )
                &&& assemble_error_matches(
                    doc.meshes@[mi].geometry,
                    doc.meshes@[mi].materials@.len() as int,
                    errors@[mat_fail_count + k].error,
                )
            } by {
                if k < fail0.len() {
                    assert(fail1[k] == fail0[k]);
                    assert(errors@[mat_fail_count + k] == errs0[mat_fail_count + k]);
                } else {
                    assert(fail1[k] == i0);
                }
            }
            assert forall|k: int| 0 <= k < kept1.len() implies {
                let mi = kept1[k];
                let src = doc.meshes@[mi];
                &&& 0 <= mi < i0 + 1
                &&& (#[trigger] scene.meshes@[k]).0@ == display_label_spec(
                    match src.name {
                        Option::Some(nm) => Option::Some(nm@),
                        Option::None => Option::None,
                    },
                    src.id as int,
                )
                &&& assembled_matches(src.geometry, src.materials@.len() as int, scene.meshes@[k].1)
                &&& scene.meshes@[k].1.well_formed()
            } by {
                if k < kept0.len() {
                    assert(kept1[k] == kept0[k]);
                    assert(scene.meshes@[k] == meshes0[k]);
                } else {
                    assert(kept1[k] == i0);
                    assert(scene.meshes@[k] == scene.meshes@.last());
                }
            }
        }
        i = i + 1;
    }
    proof {
        assert(doc.meshes@.take(n as int) =~= doc.meshes@);
        lemma_kept_in_range(doc.meshes@);
    }

    // Walk the node tree.
    let (hierarchy, herrors) = traverse_hierarchy(&doc.tree);
    scene.hierarchy = hierarchy;
    let ghost pre = errors@;
    let mut e: usize = 0;
    let hn = herrors.len();
    while e < hn
        invariant
            0 <= e <= hn,
            hn == herrors@.len(),
            errors@.len() == pre.len() + e,
            forall|j: int| 0 <= j < pre.len() ==> #[trigger] errors@[j] == pre[j],
        decreases hn - e,
    {
        let entry = &herrors[e];
        errors.push(LoadError { label: copy_bytes(&entry.label), error: entry.error });
        e = e + 1;
    }
    proof {
        assert(errors@.take(mat_fail_count) =~= pre.take(mat_fail_count));
        assert forall|k: int|
            0 <= k < failed_meshes(doc.meshes@).len() implies #[trigger] errors@[mat_fail_count
            + k] == pre[mat_fail_count + k] by {
            assert(mat_fail_count + k < pre.len());
        }
    }
    scene.roots = copy_indices(&doc.roots);

    (scene, errors)
}

/// The resolved unit scale as a specification value.
pub open spec fn resolve_scale_spec(override_scale: Option<i64>, document_scale: Option<i64>) -> int {
    match override_scale {
        Option::Some(v) => v as int,
        Option::None => match document_scale {
            Option::Some(v) => v as int,
            Option::None => FP_ONE as int,
        },
    }
}

/// Copies an index list.
fn copy_indices(v: &Vec<usize>) -> (r: Vec<usize>)
    ensures
        r@ == v@,
{
    let mut r: Vec<usize> = Vec::new();
    let mut i: usize = 0;
    while i < v.len()
        invariant
            0 <= i <= v@.len(),
            r@ == v@.take(i as int),
        decreases v@.len() - i,
    {
        r.push(v[i]);
        proof {
            assert(r@ =~= v@.take(i + 1));
        }
        i = i + 1;
    }
    proof {
        assert(v@.take(v@.len() as int) =~= v@);
    }
    r
}

} // verus!
