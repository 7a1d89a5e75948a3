//! Axis-aligned bounding boxes over fixed-point positions.

use vstd::prelude::*;

use crate::mesh::MeshBuffers;

verus! {

/// A 3D bounding box: componentwise minimum and maximum.
#[derive(Clone, Copy, Debug)]
pub struct BoundingBox3d {
    pub min: [i64; 3],
    pub max: [i64; 3],
}

/// The integer image of a bounding box.
pub open spec fn sbb(b: BoundingBox3d) -> ((int, int, int), (int, int, int)) {
    (
        (b.min[0] as int, b.min[1] as int, b.min[2] as int),
        (b.max[0] as int, b.max[1] as int, b.max[2] as int),
    )
}

/// The smaller of two integers.
pub open spec fn smin(a: int, b: int) -> int {
    if a < b {
        a
    } else {
        b
    }
}

/// The larger of two integers.
pub open spec fn smax(a: int, b: int) -> int {
    if a > b {
        a
    } else {
        b
    }
}

/// A bounding box extended to contain a point.
pub open spec fn sinsert_point(
    b: ((int, int, int), (int, int, int)),
    p: (int, int, int),
) -> ((int, int, int), (int, int, int)) {
    (
        (smin(b.0.0, p.0), smin(b.0.1, p.1), smin(b.0.2, p.2)),
        (smax(b.1.0, p.0), smax(b.1.1, p.1), smax(b.1.2, p.2)),
    )
}

/// The union of two bounding boxes.
pub open spec fn sunion(
    a: ((int, int, int), (int, int, int)),
    b: ((int, int, int), (int, int, int)),
) -> ((int, int, int), (int, int, int)) {
    (
        (smin(a.0.0, b.0.0), smin(a.0.1, b.0.1), smin(a.0.2, b.0.2)),
        (smax(a.1.0, b.1.0), smax(a.1.1, b.1.1), smax(a.1.2, b.1.2)),
    )
}

/// A bounding box folded over a point list.
pub open spec fn sfold_points(
    b: ((int, int, int), (int, int, int)),
    pts: Seq<(int, int, int)>,
) -> ((int, int, int), (int, int, int))
    decreases pts.len(),
{
    if pts.len() == 0 {
        b
    } else {
        sinsert_point(sfold_points(b, pts.drop_last()), pts.last())
    }
}

/// An optional bounding box folded over a point list: the first point
/// seeds the box.
pub open spec fn sfold_opt(
    b: Option<((int, int, int), (int, int, int))>,
    pts: Seq<(int, int, int)>,
) -> Option<((int, int, int), (int, int, int))>
    decreases pts.len(),
{
    if pts.len() == 0 {
        b
    } else {
        match sfold_opt(b, pts.drop_last()) {
            Option::Some(acc) => Option::Some(sinsert_point(acc, pts.last())),
            Option::None => Option::Some((pts.last(), pts.last())),
        }
    }
}

impl BoundingBox3d {
    /// The degenerate box holding one point.
    pub fn from_point(p: [i64; 3]) -> (r: BoundingBox3d)
        ensures
            sbb(r) == (((p[0] as int, p[1] as int, p[2] as int)), (
                (p[0] as int, p[1] as int, p[2] as int)
            )),
    {
        BoundingBox3d { min: p, max: p }
    }

    /// The minimum corner.
    pub fn min(&self) -> (r: [i64; 3])
        ensures
            r == self.min,
    {
        self.min
    }

    /// The maximum corner.
    pub fn max(&self) -> (r: [i64; 3])
        ensures
            r == self.max,
    {
        self.max
    }

    /// The box's extent per axis; `None` when a difference leaves `i64`.
    pub fn size(&self) -> (r: Option<[i64; 3]>)
        ensures
            ({
                let d0 = sbb(*self).1.0 - sbb(*self).0.0;
                let d1 = sbb(*self).1.1 - sbb(*self).0.1;
                let d2 = sbb(*self).1.2 - sbb(*self).0.2;
                &&& r is Some <==> (crate::fixed::fits_i64(d0) && crate::fixed::fits_i64(d1)
                    && crate::fixed::fits_i64(d2))
                &&& r is Some ==> (r->0[0] as int, r->0[1] as int, r->0[2] as int) == (d0, d1, d2)
            }),
    {
        let d0 = (self.max[0] as i128) - (self.min[0] as i128);
        let d1 = (self.max[1] as i128) - (self.min[1] as i128);
        let d2 = (self.max[2] as i128) - (self.min[2] as i128);
        if d0 > i64::MAX as i128 || d1 > i64::MAX as i128 || d2 > i64::MAX as i128 || d0 < i64::MIN
            as i128 || d1 < i64::MIN as i128 || d2 < i64::MIN as i128 {
            return Option::None;
        }
        Option::Some([d0 as i64, d1 as i64, d2 as i64])
    }

    /// Extends the box to contain a point.
    pub fn insert(&self, p: [i64; 3]) -> (r: BoundingBox3d)
        ensures
            sbb(r) == sinsert_point(sbb(*self), (p[0] as int, p[1] as int, p[2] as int)),
    {
        BoundingBox3d {
            min: [
                if p[0] < self.min[0] {
                    p[0]
                } else {
                    self.min[0]
                },
                if p[1] < self.min[1] {
                    p[1]
                } else {
                    self.min[1]
                },
                if p[2] < self.min[2] {
                    p[2]
                } else {
                    self.min[2]
                },
            ],
            max: [
                if p[0] > self.max[0] {
                    p[0]
                } else {
                    self.max[0]
                },
                if p[1] > self.max[1] {
                    p[1]
                } else {
                    self.max[1]
                },
                if p[2] > self.max[2] {
                    p[2]
                } else {
                    self.max[2]
                },
            ],
        }
    }

    /// Extends the box to contain every point of a list.
    pub fn insert_extend(&self, pts: &Vec<[i64; 3]>) -> (r: BoundingBox3d)
        ensures
            sbb(r) == sfold_points(
                sbb(*self),
                Seq::new(pts@.len(), |j: int| (pts@[j][0] as int, pts@[j][1] as int,
                pts@[j][2] as int)),
            ),
    {
        let ghost gpts = Seq::new(
            pts@.len(),
            |j: int| (pts@[j][0] as int, pts@[j][1] as int, pts@[j][2] as int),
        );
        let mut acc = *self;
        let mut i: usize = 0;
        proof {
            assert(gpts.take(0) =~= Seq::<(int, int, int)>::empty());
        }
        while i < pts.len()
            invariant
                0 <= i <= pts@.len(),
                gpts.len() == pts@.len(),
                forall|j: int|
                    0 <= j < pts@.len() ==> #[trigger] gpts[j] == (pts@[j][0] as int,
                    pts@[j][1] as int, pts@[j][2] as int),
                sbb(acc) == sfold_points(sbb(*self), gpts.take(i as int)),
            decreases pts@.len() - i,
        {
            proof {
                assert(gpts.take(i + 1).drop_last() =~= gpts.take(i as int));
            }
            acc = acc.insert(pts[i]);
            i = i + 1;
        }
        proof {
            assert(gpts.take(pts@.len() as int) =~= gpts);
        }
        acc
    }

    /// Merges two boxes.
    pub fn union(&self, o: &BoundingBox3d) -> (r: BoundingBox3d)
        ensures
            sbb(r) == sunion(sbb(*self), sbb(*o)),
    {
        BoundingBox3d {
            min: [
                if o.min[0] < self.min[0] {
                    o.min[0]
                } else {
                    self.min[0]
                },
                if o.min[1] < self.min[1] {
                    o.min[1]
                } else {
                    self.min[1]
                },
                if o.min[2] < self.min[2] {
                    o.min[2]
                } else {
                    self.min[2]
                },
            ],
            max: [
                if o.max[0] > self.max[0] {
                    o.max[0]
                } else {
                    self.max[0]
                },
                if o.max[1] > self.max[1] {
                    o.max[1]
                } else {
                    self.max[1]
                },
                if o.max[2] > self.max[2] {
                    o.max[2]
                } else {
                    self.max[2]
                },
            ],
        }
    }

    /// Merges every box of a list into this one.
    pub fn union_extend(&self, os: &Vec<BoundingBox3d>) -> (r: BoundingBox3d)
        ensures
            ({
                let n = os@.len() as int;
                n == 0 ==> sbb(r) == sbb(*self)
            }),
            forall|j: int| 0 <= j < os@.len() ==> contains_box(sbb(r), sbb(#[trigger] os@[j])),
            contains_box(sbb(r), sbb(*self)),
    {
        let mut acc = *self;
        let mut i: usize = 0;
        while i < os.len()
            invariant
                0 <= i <= os@.len(),
                forall|j: int| 0 <= j < i ==> contains_box(sbb(acc), sbb(#[trigger] os@[j])),
                contains_box(sbb(acc), sbb(*self)),
                i == 0 ==> acc == *self,
            decreases os@.len() - i,
        {
            let next = acc.union(&os[i]);
            proof {
                assert(contains_box(sbb(next), sbb(acc)));
                assert(contains_box(sbb(next), sbb(os@[i as int])));
                assert forall|j: int| 0 <= j < i + 1 implies contains_box(
                    sbb(next),
                    sbb(#[trigger] os@[j]),
                ) by {
                    if j < i {
                        assert(contains_box(sbb(acc), sbb(os@[j])));
                    }
                }
            }
            acc = next;
            i = i + 1;
        }
        acc
    }
}

/// Whether the first box contains the second.
pub open spec fn contains_box(
    outer: ((int, int, int), (int, int, int)),
    inner: ((int, int, int), (int, int, int)),
) -> bool {
    &&& outer.0.0 <= inner.0.0 && outer.0.1 <= inner.0.1 && outer.0.2 <= inner.0.2
    &&& outer.1.0 >= inner.1.0 && outer.1.1 >= inner.1.1 && outer.1.2 >= inner.1.2
}

/// A bounding box that may be empty.
#[derive(Clone, Copy, Debug)]
pub struct OptionalBoundingBox3d {
    pub bbox: Option<BoundingBox3d>,
}

impl OptionalBoundingBox3d {
    /// The empty box.
    pub fn new() -> (r: OptionalBoundingBox3d)
        ensures
            r.bbox is None,
    {
        OptionalBoundingBox3d { bbox: Option::None }
    }

    /// The contained box, when any point was inserted.
    pub fn bounding_box(&self) -> (r: Option<BoundingBox3d>)
        ensures
            r == self.bbox,
    {
        self.bbox
    }

    /// Extends the box to contain a point; a first point seeds it.
    pub fn insert(&self, p: [i64; 3]) -> (r: OptionalBoundingBox3d)
        ensures
            r.bbox is Some,
            ({
                let pt = (p[0] as int, p[1] as int, p[2] as int);
                match self.bbox {
                    Option::Some(b) => sbb(r.bbox->0) == sinsert_point(sbb(b), pt),
                    Option::None => sbb(r.bbox->0) == (pt, pt),
                }
            }),
    {
        match &self.bbox {
            Option::Some(b) => OptionalBoundingBox3d { bbox: Option::Some(b.insert(p)) },
            Option::None => OptionalBoundingBox3d {
                bbox: Option::Some(BoundingBox3d::from_point(p)),
            },
        }
    }

    /// Extends the box to contain every point of a list.
    pub fn insert_extend(&self, pts: &Vec<[i64; 3]>) -> (r: OptionalBoundingBox3d)
        ensures
            ({
                let gpts = Seq::new(
                    pts@.len(),
                    |j: int| (pts@[j][0] as int, pts@[j][1] as int, pts@[j][2] as int),
                );
                let sb = match self.bbox {
                    Option::Some(b) => Option::Some(sbb(b)),
                    Option::None => Option::None,
                };
                let folded = sfold_opt(sb, gpts);
                &&& (r.bbox is Some <==> folded is Some)
                &&& r.bbox is Some ==> sbb(r.bbox->0) == folded->0
            }),
    {
        let ghost gpts = Seq::new(
            pts@.len(),
            |j: int| (pts@[j][0] as int, pts@[j][1] as int, pts@[j][2] as int),
        );
        let mut acc = *self;
        let mut i: usize = 0;
        proof {
            assert(gpts.take(0) =~= Seq::<(int, int, int)>::empty());
        }
        while i < pts.len()
            invariant
                0 <= i <= pts@.len(),
                gpts.len() == pts@.len(),
                forall|j: int|
                    0 <= j < pts@.len() ==> #[trigger] gpts[j] == (pts@[j][0] as int,
                    pts@[j][1] as int, pts@[j][2] as int),
                ({
                    let sb = match self.bbox {
                        Option::Some(b) => Option::Some(sbb(b)),
                        Option::None => Option::None,
                    };
                    let folded = sfold_opt(sb, gpts.take(i as int));
                    &&& (acc.bbox is Some <==> folded is Some)
                    &&& acc.bbox is Some ==> sbb(acc.bbox->0) == folded->0
                }),
            decreases pts@.len() - i,
        {
            proof {
                assert(gpts.take(i + 1).drop_last() =~= gpts.take(i as int));
            }
            acc = acc.insert(pts[i]);
            i = i + 1;
        }
        proof {
            assert(gpts.take(pts@.len() as int) =~= gpts);
        }
        acc
    }

    /// Merges two optional boxes.
    pub fn union(&self, o: &OptionalBoundingBox3d) -> (r: OptionalBoundingBox3d)
        ensures
            ({
                match (self.bbox, o.bbox) {
                    (Option::Some(a), Option::Some(b)) => r.bbox is Some && sbb(r.bbox->0)
                        == sunion(sbb(a), sbb(b)),
                    (Option::Some(a), Option::None) => r.bbox == Option::Some(a),
                    (Option::None, Option::Some(b)) => r.bbox == Option::Some(b),
                    (Option::None, Option::None) => r.bbox is None,
                }
            }),
    {
        match (&self.bbox, &o.bbox) {
            (Option::Some(a), Option::Some(b)) => OptionalBoundingBox3d {
                bbox: Option::Some(a.union(b)),
            },
            (Option::Some(a), Option::None) => OptionalBoundingBox3d {
                bbox: Option::Some(*a),
            },
            (Option::None, Option::Some(b)) => OptionalBoundingBox3d {
                bbox: Option::Some(*b),
            },
            (Option::None, Option::None) => OptionalBoundingBox3d { bbox: Option::None },
        }
    }
}

/// The union of two optional boxes: the one of them when the other is
/// empty.
pub open spec fn sunion_opt(
    a: Option<((int, int, int), (int, int, int))>,
    b: Option<((int, int, int), (int, int, int))>,
) -> Option<((int, int, int), (int, int, int))> {
    match (a, b) {
        (Option::Some(x), Option::Some(y)) => Option::Some(sunion(x, y)),
        (Option::Some(x), Option::None) => Option::Some(x),
        (Option::None, Option::Some(y)) => Option::Some(y),
        (Option::None, Option::None) => Option::None,
    }
}

/// An optional bounding box folded over a list of optional boxes by
/// union.
pub open spec fn sfold_union(
    acc: Option<((int, int, int), (int, int, int))>,
    others: Seq<Option<((int, int, int), (int, int, int))>>,
) -> Option<((int, int, int), (int, int, int))>
    decreases others.len(),
{
    if others.len() == 0 {
        acc
    } else {
        sunion_opt(sfold_union(acc, others.drop_last()), others.last())
    }
}

/// The integer image of an optional box.
pub open spec fn sopt(b: OptionalBoundingBox3d) -> Option<((int, int, int), (int, int, int))> {
    match b.bbox {
        Option::Some(x) => Option::Some(sbb(x)),
        Option::None => Option::None,
    }
}

impl OptionalBoundingBox3d {
    /// Merges every box of a list into this one.
    pub fn union_extend(&self, os: &Vec<OptionalBoundingBox3d>) -> (r: OptionalBoundingBox3d)
        ensures
            sopt(r) == sfold_union(
                sopt(*self),
                Seq::new(os@.len(), |j: int| sopt(os@[j])),
            ),
    {
        let ghost gos = Seq::new(os@.len(), |j: int| sopt(os@[j]));
        let mut acc = *self;
        let mut i: usize = 0;
        proof {
            assert(gos.take(0) =~= Seq::<Option<((int, int, int), (int, int, int))>>::empty());
        }
        while i < os.len()
            invariant
                0 <= i <= os@.len(),
                gos.len() == os@.len(),
                forall|j: int| 0 <= j < os@.len() ==> #[trigger] gos[j] == sopt(os@[j]),
                sopt(acc) == sfold_union(sopt(*self), gos.take(i as int)),
            decreases os@.len() - i,
        {
            proof {
                assert(gos.take(i + 1).drop_last() =~= gos.take(i as int));
            }
            acc = acc.union(&os[i]);
            i = i + 1;
        }
        proof {
            assert(gos.take(os@.len() as int) =~= gos);
        }
        acc
    }
}

impl MeshBuffers {
    /// The bounding box of the whole mesh's positions.
    pub fn bbox_mesh(&self) -> (r: OptionalBoundingBox3d)
        ensures
            ({
                let gpts = Seq::new(
                    self.positions@.len(),
                    |j: int| (self.positions@[j][0] as int, self.positions@[j][1] as int,
                    self.positions@[j][2] as int),
                );
                let folded = sfold_opt(Option::None, gpts);
                &&& (r.bbox is Some <==> folded is Some)
                &&& r.bbox is Some ==> sbb(r.bbox->0) == folded->0
            }),
    {
        let empty = OptionalBoundingBox3d::new();
        empty.insert_extend(&self.positions)
    }

    /// The bounding box of one primitive's referenced positions; the
    /// empty box for an out-of-range primitive index.
    pub fn bbox_submesh(&self, submesh_i: usize) -> (r: OptionalBoundingBox3d)
        requires
            self.well_formed(),
        ensures
            submesh_i >= self.primitives@.len() ==> r.bbox is None,
            submesh_i < self.primitives@.len() ==> ({
                let ind = self.primitives@[submesh_i as int].indices@;
                let gpts = Seq::new(
                    ind.len(),
                    |j: int|
                        {
                            let p = self.positions@[ind[j] as int];
                            (p[0] as int, p[1] as int, p[2] as int)
                        },
                );
                let folded = sfold_opt(Option::None, gpts);
                &&& (r.bbox is Some <==> folded is Some)
                &&& r.bbox is Some ==> sbb(r.bbox->0) == folded->0
            }),
    {
        if submesh_i >= self.primitives.len() {
            return OptionalBoundingBox3d::new();
        }
        let prim = &self.primitives[submesh_i];
        let ghost ind = self.primitives@[submesh_i as int].indices@;
        let ghost gpts = Seq::new(
            ind.len(),
            |j: int|
                {
                    let p = self.positions@[ind[j] as int];
                    (p[0] as int, p[1] as int, p[2] as int)
                },
        );
        let mut acc = OptionalBoundingBox3d::new();
        let mut i: usize = 0;
        proof {
            assert(gpts.take(0) =~= Seq::<(int, int, int)>::empty());
        }
        while i < prim.indices.len()
            invariant
                0 <= i <= ind.len(),
                self.well_formed(),
                submesh_i < self.primitives@.len(),
                prim == self.primitives@[submesh_i as int],
                ind == self.primitives@[submesh_i as int].indices@,
                gpts == Seq::new(
                    ind.len(),
                    |j: int|
                        {
                            let p = self.positions@[ind[j] as int];
                            (p[0] as int, p[1] as int, p[2] as int)
                        },
                ),
                ({
                    let folded = sfold_opt(Option::None, gpts.take(i as int));
                    &&& (acc.bbox is Some <==> folded is Some)
                    &&& acc.bbox is Some ==> sbb(acc.bbox->0) == folded->0
                }),
            decreases ind.len() - i,
        {
            proof {
                assert(crate::mesh::prim_indices_valid(
                    self.primitives@[submesh_i as int],
                    self.positions@.len() as int,
                ));
                assert((ind[i as int] as int) < self.positions@.len());
                assert(gpts.take(i + 1).drop_last() =~= gpts.take(i as int));
            }
            let pi = prim.indices[i];
            let p = self.positions[pi as usize];
            acc = acc.insert(p);
            i = i + 1;
        }
        proof {
            assert(gpts.take(ind.len() as int) =~= gpts);
        }
        acc
    }
}

} // verus!
