//! Material loader dispatch.
//!
//! An ordered list of named strategies is tried for each source material;
//! the first that accepts the material's shading model produces a
//! renderer material description, the rest are never consulted.  When
//! every strategy declines the load fails with `NoLoaderMatched`.
//!
//! Materials are deduplicated by display label before dispatch runs:
//! repeated requests for a label reuse the prior result without invoking
//! any strategy again.
//!
//! The Lambert/Phong approximation itself is a policy, not a contract to
//! other components: diffuse color becomes the base color with full
//! alpha, the averaged specular channels scaled by a fixed ratio become
//! the metallic value, and a `sqrt(2 / (2 + shininess))` curve the
//! roughness.

use vstd::prelude::*;

use crate::error::FbxError;
use crate::fixed::{fp_div_spec, int_sqrt, sqrt_floor, FP_ONE};
use crate::labels::{bytes_eq, copy_bytes};

verus! {

/// The source material's lighting model tag.
#[derive(Clone, Copy, Debug, PartialEq, Eq, Structural)]
pub enum ShadingModel {
    Unknown,
    Lambert,
    Phong,
}

/// How the produced material blends.
#[derive(Clone, Copy, Debug, PartialEq, Eq, Structural)]
pub enum AlphaMode {
    Opaque,
    Blend,
}

/// The plain-value properties of one source material, each absent when
/// the document does not carry it; texture slots hold the labels of
/// already-resolved textures.
pub struct MaterialProperties {
    pub shading_model: Option<ShadingModel>,
    pub diffuse_color: Option<[i64; 3]>,
    pub specular: Option<[i64; 3]>,
    pub shininess: Option<i64>,
    pub transparent_texture: Option<Vec<u8>>,
    pub diffuse_texture: Option<Vec<u8>>,
    pub emissive_texture: Option<Vec<u8>>,
    pub normal_map_texture: Option<Vec<u8>>,
}

/// A renderer material description.
pub struct MaterialDescription {
    pub base_color: [i64; 4],
    pub metallic: i64,
    pub perceptual_roughness: i64,
    pub alpha_mode: AlphaMode,
    pub base_color_texture: Option<Vec<u8>>,
    pub emissive_texture: Option<Vec<u8>>,
    pub normal_map_texture: Option<Vec<u8>>,
    pub flip_normal_map_y: bool,
}

/// Ratio applied to the averaged specular channels to approximate a
/// metallic value: four fifths.
pub const SPECULAR_TO_METALLIC_NUM: i64 = 4;

/// Denominator of the specular-to-metallic ratio.
pub const SPECULAR_TO_METALLIC_DEN: i64 = 5;

/// The diffuse gray assumed when a material names no diffuse color.
pub const DEFAULT_DIFFUSE: i64 = 52429;

/// The specular level assumed when a material names none.
pub const DEFAULT_SPECULAR: i64 = 13107;

/// The roughness assumed when a material names no shininess.
pub const DEFAULT_ROUGHNESS: i64 = 52429;

/// The placeholder color of the fallback strategy: pink.
pub const FALLBACK_RED: i64 = 65536;

/// Green channel of the placeholder color.
pub const FALLBACK_GREEN: i64 = 5243;

/// Blue channel of the placeholder color.
pub const FALLBACK_BLUE: i64 = 38011;

/// A color channel clamped to the unit range.
pub open spec fn clamp_unit(v: int) -> int {
    if v < 0 {
        0
    } else if v > FP_ONE {
        FP_ONE as int
    } else {
        v
    }
}

/// The metallic approximation: the clamped specular channels averaged and
/// scaled by the fixed ratio.
pub open spec fn metallic_spec(s: (int, int, int)) -> int {
    (clamp_unit(s.0) + clamp_unit(s.1) + clamp_unit(s.2)) / 3 * (SPECULAR_TO_METALLIC_NUM as int)
        / (SPECULAR_TO_METALLIC_DEN as int)
}

/// The roughness approximation: `sqrt(2 / (2 + shininess))` in fixed
/// point, shininess clamped to non-negative.
pub open spec fn roughness_spec(shininess: int) -> int {
    let s = if shininess < 0 {
        0
    } else if shininess > 0x4000_0000_0000_0000 {
        0x4000_0000_0000_0000
    } else {
        shininess
    };
    let q = fp_div_spec(2 * FP_ONE, 2 * FP_ONE + s);
    sqrt_floor(q * (FP_ONE as int))
}

/// The color adapter: a source color with an opaque alpha appended.
pub open spec fn with_alpha(c: (int, int, int)) -> (int, int, int, int) {
    (c.0, c.1, c.2, FP_ONE as int)
}

/// Clamps a color channel to the unit range.
fn clamp_channel(v: i64) -> (r: i64)
    ensures
        r == clamp_unit(v as int),
{
    if v < 0 {
        0
    } else if v > FP_ONE {
        FP_ONE
    } else {
        v
    }
}

/// Computes the metallic approximation.
fn metallic_of(s: [i64; 3]) -> (r: i64)
    ensures
        r == metallic_spec((s[0] as int, s[1] as int, s[2] as int)),
{
    let sum = clamp_channel(s[0]) + clamp_channel(s[1]) + clamp_channel(s[2]);
    sum / 3 * SPECULAR_TO_METALLIC_NUM / SPECULAR_TO_METALLIC_DEN
}

/// Computes the roughness approximation.
fn roughness_of(shininess: i64) -> (r: i64)
    ensures
        r == roughness_spec(shininess as int),
{
    let s = if shininess < 0 {
        0
    } else if shininess > 0x4000_0000_0000_0000 {
        0x4000_0000_0000_0000
    } else {
        shininess
    };
    let q = match crate::fixed::fp_div(2 * FP_ONE, 2 * FP_ONE + s) {
        Option::Some(v) => v,
        Option::None => 0,  // unreachable: the quotient is at most one
    };
    proof {
        assert(fp_div_spec(2 * FP_ONE, 2 * FP_ONE + s) <= FP_ONE && fp_div_spec(
            2 * FP_ONE,
            2 * FP_ONE + s,
        ) >= 0) by {
            vstd::arithmetic::div_mod::lemma_div_is_ordered(
                2 * FP_ONE * FP_ONE,
                (2 * FP_ONE + s) * FP_ONE,
                2 * FP_ONE + s,
            );
            assert((2 * FP_ONE + s) * FP_ONE / (2 * FP_ONE + s) == FP_ONE) by (nonlinear_arith)
                requires
                    2 * FP_ONE + s > 0,
            ;
            assert(2 * FP_ONE * FP_ONE <= (2 * FP_ONE + s) * FP_ONE) by (nonlinear_arith)
                requires
                    s >= 0,
            ;
            vstd::arithmetic::div_mod::lemma_div_pos_is_pos(
                2 * FP_ONE * FP_ONE,
                2 * FP_ONE + s,
            );
        }
    }
    let rough = int_sqrt((q as u128) * (FP_ONE as u128));
    proof {
        crate::fixed::lemma_sqrt_floor_unique((q * FP_ONE) as int, rough as int);
        assert((rough as int) * (rough as int) <= q * FP_ONE < 0x1_0000_0000_0000_0000
            ==> rough < 0x1_0000_0000) by (nonlinear_arith);
    }
    rough as i64
}

/// The built-in strategies.
#[derive(Clone, Copy, Debug, PartialEq, Eq, Structural)]
pub enum StrategyKind {
    /// Converts Lambert and Phong materials into the physically-based
    /// approximation; declines every other shading model.
    LambertPhong,
    /// Accepts anything, producing the placeholder-colored material.
    Fallback,
}

/// One named entry of the loader chain.
pub struct MaterialLoader {
    pub name: &'static str,
    pub kind: StrategyKind,
}

/// Whether a strategy accepts a material.
pub open spec fn strategy_applies(kind: StrategyKind, m: MaterialProperties) -> bool {
    match kind {
        StrategyKind::LambertPhong => {
            let model = match m.shading_model {
                Option::Some(s) => s,
                Option::None => ShadingModel::Unknown,
            };
            model == ShadingModel::Lambert || model == ShadingModel::Phong
        },
        StrategyKind::Fallback => true,
    }
}

/// What the produced description holds, per strategy.
pub open spec fn strategy_result_matches(
    kind: StrategyKind,
    m: MaterialProperties,
    d: MaterialDescription,
) -> bool {
    match kind {
        StrategyKind::LambertPhong => {
            &&& (d.base_color[0] as int, d.base_color[1] as int, d.base_color[2] as int,
            d.base_color[3] as int) == with_alpha(
                match m.diffuse_color {
                    Option::Some(c) => (c[0] as int, c[1] as int, c[2] as int),
                    Option::None => (
                        DEFAULT_DIFFUSE as int,
                        DEFAULT_DIFFUSE as int,
                        DEFAULT_DIFFUSE as int,
                    ),
                },
            )
            &&& d.metallic == metallic_spec(
                match m.specular {
                    Option::Some(s) => (s[0] as int, s[1] as int, s[2] as int),
                    Option::None => (
                        DEFAULT_SPECULAR as int,
                        DEFAULT_SPECULAR as int,
                        DEFAULT_SPECULAR as int,
                    ),
                },
            )
            &&& d.perceptual_roughness == match m.shininess {
                Option::Some(s) => roughness_spec(s as int),
                Option::None => DEFAULT_ROUGHNESS as int,
            }
            &&& d.alpha_mode == if m.transparent_texture is Some {
                AlphaMode::Blend
            } else {
                AlphaMode::Opaque
            }
            &&& (d.base_color_texture is Some <==> (m.transparent_texture is Some
                || m.diffuse_texture is Some))
            &&& m.transparent_texture is Some ==> d.base_color_texture is Some
                && d.base_color_texture->0@ == m.transparent_texture->0@
            &&& m.transparent_texture is None && m.diffuse_texture is Some
                ==> d.base_color_texture is Some && d.base_color_texture->0@
                == m.diffuse_texture->0@
            &&& (d.emissive_texture is Some <==> m.emissive_texture is Some)
            &&& m.emissive_texture is Some ==> d.emissive_texture->0@ == m.emissive_texture->0@
            &&& (d.normal_map_texture is Some <==> m.normal_map_texture is Some)
            &&& m.normal_map_texture is Some ==> d.normal_map_texture->0@
                == m.normal_map_texture->0@
            &&& d.flip_normal_map_y == true
        },
        StrategyKind::Fallback => {
            &&& (d.base_color[0] as int, d.base_color[1] as int, d.base_color[2] as int,
            d.base_color[3] as int) == with_alpha(
                match m.diffuse_color {
                    Option::Some(c) => (c[0] as int, c[1] as int, c[2] as int),
                    Option::None => (FALLBACK_RED as int, FALLBACK_GREEN as int,
                    FALLBACK_BLUE as int),
                },
            )
            &&& d.metallic == match m.specular {
                Option::Some(s) => metallic_spec((s[0] as int, s[1] as int, s[2] as int)),
                Option::None => DEFAULT_SPECULAR as int,
            }
            &&& d.perceptual_roughness == match m.shininess {
                Option::Some(s) => roughness_spec(s as int),
                Option::None => DEFAULT_ROUGHNESS as int,
            }
            &&& d.alpha_mode == AlphaMode::Opaque
            &&& d.base_color_texture is None
            &&& d.emissive_texture is None
            &&& d.normal_map_texture is None
            &&& d.flip_normal_map_y == false
        },
    }
}

/// Copies an optional texture label.
fn copy_texture(t: &Option<Vec<u8>>) -> (r: Option<Vec<u8>>)
    ensures
        r is Some <==> t is Some,
        r is Some ==> r->0@ == t->0@,
{
    match t {
        Option::Some(v) => Option::Some(copy_bytes(v)),
        Option::None => Option::None,
    }
}

/// Runs one strategy on a material: a description when it accepts,
/// nothing when it declines.
pub fn try_load(loader: &MaterialLoader, m: &MaterialProperties) -> (r: Option<
    MaterialDescription,
>)
    ensures
        r is Some <==> strategy_applies(loader.kind, *m),
        r is Some ==> strategy_result_matches(loader.kind, *m, r->0),
{
    match loader.kind {
        StrategyKind::LambertPhong => {
            let model = match m.shading_model {
                Option::Some(s) => s,
                Option::None => ShadingModel::Unknown,
            };
            if !(matches!(model, ShadingModel::Lambert) || matches!(model, ShadingModel::Phong)) {
                return Option::None;
            }
            let base = match m.diffuse_color {
                Option::Some(c) => [c[0], c[1], c[2], FP_ONE],
                Option::None => [DEFAULT_DIFFUSE, DEFAULT_DIFFUSE, DEFAULT_DIFFUSE, FP_ONE],
            };
            let metallic = match m.specular {
                Option::Some(s) => metallic_of(s),
                Option::None => metallic_of([DEFAULT_SPECULAR, DEFAULT_SPECULAR, DEFAULT_SPECULAR]),
            };
            let roughness = match m.shininess {
                Option::Some(s) => roughness_of(s),
                Option::None => DEFAULT_ROUGHNESS,
            };
            let is_transparent = m.transparent_texture.is_some();
            let base_color_texture = if is_transparent {
                copy_texture(&m.transparent_texture)
            } else {
                copy_texture(&m.diffuse_texture)
            };
            Option::Some(
                MaterialDescription {
                    base_color: base,
                    metallic,
                    perceptual_roughness: roughness,
                    alpha_mode: if is_transparent {
                        AlphaMode::Blend
                    } else {
                        AlphaMode::Opaque
                    },
                    base_color_texture,
                    emissive_texture: copy_texture(&m.emissive_texture),
                    normal_map_texture: copy_texture(&m.normal_map_texture),
                    flip_normal_map_y: true,
                },
            )
        },
        StrategyKind::Fallback => {
            let base = match m.diffuse_color {
                Option::Some(c) => [c[0], c[1], c[2], FP_ONE],
                Option::None => [FALLBACK_RED, FALLBACK_GREEN, FALLBACK_BLUE, FP_ONE],
            };
            let metallic = match m.specular {
                Option::Some(s) => metallic_of(s),
                Option::None => DEFAULT_SPECULAR,
            };
            let roughness = match m.shininess {
                Option::Some(s) => roughness_of(s),
                Option::None => DEFAULT_ROUGHNESS,
            };
            Option::Some(
                MaterialDescription {
                    base_color: base,
                    metallic,
                    perceptual_roughness: roughness,
                    alpha_mode: AlphaMode::Opaque,
                    base_color_texture: Option::None,
                    emissive_texture: Option::None,
                    normal_map_texture: Option::None,
                    flip_normal_map_y: false,
                },
            )
        },
    }
}

/// The default loader chain: the Lambert/Phong conversion first, the
/// fallback last.
pub fn default_loader_order() -> (r: Vec<MaterialLoader>)
    ensures
        r@.len() == 2,
        r@[0].kind == StrategyKind::LambertPhong,
        r@[1].kind == StrategyKind::Fallback,
{
    let mut v: Vec<MaterialLoader> = Vec::new();
    v.push(MaterialLoader { name: "LOAD_LAMBERT_PHONG", kind: StrategyKind::LambertPhong });
    v.push(MaterialLoader { name: "LOAD_FALLBACK", kind: StrategyKind::Fallback });
    v
}

/// The configured loader chain; callers may build their own ordering,
/// adding the defaults back where the fallback behavior is still wanted.
pub struct FbxMaterialLoaders(pub Vec<MaterialLoader>);

impl Default for FbxMaterialLoaders {
    /// The default chain, in its documented order.
    fn default() -> (r: FbxMaterialLoaders)
        ensures
            r.0@.len() == 2,
            r.0@[0].kind == StrategyKind::LambertPhong,
            r.0@[1].kind == StrategyKind::Fallback,
    {
        FbxMaterialLoaders(default_loader_order())
    }
}

/// The first strategy of the chain that accepts the material.
pub open spec fn first_applying(loaders: Seq<MaterialLoader>, m: MaterialProperties) -> Option<
    StrategyKind,
>
    decreases loaders.len(),
{
    if loaders.len() == 0 {
        Option::None
    } else if strategy_applies(loaders[0].kind, m) {
        Option::Some(loaders[0].kind)
    } else {
        first_applying(loaders.drop_first(), m)
    }
}

/// Tries the strategies in order; the first that accepts wins, and an
/// exhausted chain is `NoLoaderMatched`.
pub fn dispatch(loaders: &Vec<MaterialLoader>, m: &MaterialProperties) -> (r: Result<
    MaterialDescription,
    FbxError,
>)
    ensures
        r is Ok <==> first_applying(loaders@, *m) is Some,
        r is Ok ==> strategy_result_matches(first_applying(loaders@, *m)->0, *m, r->Ok_0),
        r is Err ==> r->Err_0 == FbxError::NoLoaderMatched,
{
    let n = loaders.len();
    proof {
        assert(loaders@.skip(0) =~= loaders@);
    }
    let mut k: usize = 0;
    while k < n
        invariant
            0 <= k <= n,
            n == loaders@.len(),
            first_applying(loaders@, *m) == first_applying(loaders@.skip(k as int), *m),
            forall|j: int| 0 <= j < k ==> !strategy_applies((#[trigger] loaders@[j]).kind, *m),
        decreases n - k,
    {
        let loader = &loaders[k];
        match try_load(loader, m) {
            Option::Some(d) => {
                proof {
                    assert(loaders@.skip(k as int)[0] == loaders@[k as int]);
                    assert(first_applying(loaders@.skip(k as int), *m) == Option::Some(
                        loaders@[k as int].kind,
                    ));
                }
                return Ok(d);
            },
            Option::None => {
                proof {
                    assert(loaders@.skip(k as int)[0] == loaders@[k as int]);
                    assert(loaders@.skip(k as int).drop_first() =~= loaders@.skip(k + 1));
                }
                k = k + 1;
            },
        }
    }
    proof {
        assert(loaders@.skip(n as int).len() == 0);
    }
    Err(FbxError::NoLoaderMatched)
}

/// The label-keyed material store: repeated requests for a label reuse
/// the first result, so the loader chain runs at most once per label.
pub struct MaterialCache {
    pub labels: Vec<Vec<u8>>,
    pub descriptions: Vec<MaterialDescription>,
}

/// Index of the first entry with the given label.
pub open spec fn find_label(labels: Seq<Vec<u8>>, label: Seq<u8>) -> Option<int>
    decreases labels.len(),
{
    if labels.len() == 0 {
        Option::None
    } else if labels[0]@ == label {
        Option::Some(0int)
    } else {
        match find_label(labels.drop_first(), label) {
            Option::Some(i) => Option::Some(i + 1),
            Option::None => Option::None,
        }
    }
}

/// Index of the first entry with the given label, over label views.
pub open spec fn find_label_view(labels: Seq<Seq<u8>>, label: Seq<u8>) -> Option<int>
    decreases labels.len(),
{
    if labels.len() == 0 {
        Option::None
    } else if labels[0] == label {
        Option::Some(0int)
    } else {
        match find_label_view(labels.drop_first(), label) {
            Option::Some(i) => Option::Some(i + 1),
            Option::None => Option::None,
        }
    }
}

/// The label views of a store, in insertion order.
pub open spec fn cache_views(c: MaterialCache) -> Seq<Seq<u8>> {
    Seq::new(c.labels@.len(), |j: int| c.labels@[j]@)
}

/// Looking a label up among stored byte strings and among their views is
/// the same search.
pub proof fn lemma_find_label_views(labels: Seq<Vec<u8>>, label: Seq<u8>)
    ensures
        find_label(labels, label) == find_label_view(
            Seq::new(labels.len(), |j: int| labels[j]@),
            label,
        ),
    decreases labels.len(),
{
    let views = Seq::new(labels.len(), |j: int| labels[j]@);
    if labels.len() > 0 {
        lemma_find_label_views(labels.drop_first(), label);
        assert(Seq::new(labels.drop_first().len(), |j: int| labels.drop_first()[j]@)
            =~= views.drop_first());
    }
}

/// A scan that saw the label nowhere before `k` pins `find_label` down.
proof fn lemma_find_label_at(labels: Seq<Vec<u8>>, label: Seq<u8>, k: int)
    requires
        0 <= k <= labels.len(),
        forall|j: int| 0 <= j < k ==> (#[trigger] labels[j])@ != label,
        k < labels.len() ==> labels[k]@ == label,
    ensures
        find_label(labels, label) == if k < labels.len() {
            Option::Some(k)
        } else {
            Option::None::<int>
        },
    decreases k,
{
    if k > 0 {
        lemma_find_label_at(labels.drop_first(), label, k - 1);
    }
}

impl MaterialCache {
    /// One description per label.
    pub open spec fn well_formed(self) -> bool {
        self.labels@.len() == self.descriptions@.len()
    }

    /// An empty store.
    pub fn new() -> (r: MaterialCache)
        ensures
            r.well_formed(),
            r.labels@.len() == 0,
    {
        MaterialCache { labels: Vec::new(), descriptions: Vec::new() }
    }

    /// Finds the entry holding a label.
    pub fn lookup(&self, label: &Vec<u8>) -> (r: Option<usize>)
        ensures
            r is Some <==> find_label(self.labels@, label@) is Some,
            r is Some ==> r->0 as int == find_label(self.labels@, label@)->0,
    {
        let n = self.labels.len();
        let mut k: usize = 0;
        while k < n
            invariant
                0 <= k <= n,
                n == self.labels@.len(),
                forall|j: int| 0 <= j < k ==> (#[trigger] self.labels@[j])@ != label@,
            decreases n - k,
        {
            if bytes_eq(&self.labels[k], label) {
                proof {
                    lemma_find_label_at(self.labels@, label@, k as int);
                }
                return Option::Some(k);
            }
            k = k + 1;
        }
        proof {
            lemma_find_label_at(self.labels@, label@, n as int);
        }
        Option::None
    }

    /// Returns the store index of the material for a label, dispatching
    /// the loader chain only when the label is new: a repeated label
    /// reuses the first result and leaves the store untouched.
    pub fn material_for(
        &mut self,
        label: &Vec<u8>,
        props: &MaterialProperties,
        loaders: &Vec<MaterialLoader>,
    ) -> (r: Result<usize, FbxError>)
        requires
            old(self).well_formed(),
        ensures
            final(self).well_formed(),
            find_label(old(self).labels@, label@) is Some ==> {
                &&& *final(self) == *old(self)
                &&& r is Ok && r->Ok_0 as int == find_label(old(self).labels@, label@)->0
            },
            find_label(old(self).labels@, label@) is None ==> match first_applying(
                loaders@,
                *props,
            ) {
                Option::Some(kind) => {
                    &&& r is Ok && r->Ok_0 as int == old(self).labels@.len()
                    &&& final(self).labels@.len() == old(self).labels@.len() + 1
                    &&& final(self).labels@[old(self).labels@.len() as int]@ == label@
                    &&& final(self).descriptions@.len() == old(self).descriptions@.len() + 1
                    &&& strategy_result_matches(
                        kind,
                        *props,
                        final(self).descriptions@[old(self).descriptions@.len() as int],
                    )
                    &&& forall|j: int|
                        0 <= j < old(self).labels@.len() ==> (#[trigger] final(self).labels@[j])
                            == old(self).labels@[j]
                    &&& forall|j: int|
                        0 <= j < old(self).descriptions@.len()
                            ==> (#[trigger] final(self).descriptions@[j]) == old(
                            self,
                        ).descriptions@[j]
                },
                Option::None => r is Err && r->Err_0 == FbxError::NoLoaderMatched && *final(self)
                    == *old(self),
            },
    {
        match self.lookup(label) {
            Option::Some(i) => Ok(i),
            Option::None => {
                match dispatch(loaders, props) {
                    Ok(d) => {
                        let i = self.labels.len();
                        self.labels.push(copy_bytes(label));
                        self.descriptions.push(d);
                        Ok(i)
                    },
                    Err(e) => Err(e),
                }
            },
        }
    }
}

} // verus!
