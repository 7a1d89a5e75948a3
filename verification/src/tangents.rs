//! Preconditions and post-processing of tangent-space generation.
//!
//! Tangents are derived from positions, normals and UVs by a third-party
//! space-averaging algorithm that works in floating point and is treated
//! as a black box outside this library.  What belongs here is the part
//! around it: the input validation the algorithm assumes, and the
//! handedness flip applied to its output — the algorithm assumes the
//! opposite winding from the target renderer, so every tangent's sign
//! component is negated.

use vstd::prelude::*;

use crate::mesh::{prim_indices_valid, MeshBuffers};

verus! {

/// Why tangents could not be generated for a mesh.
#[derive(Clone, Copy, Debug, PartialEq, Eq, Structural)]
pub enum GenerateTangentsError {
    /// An index buffer's length is not a whole number of triangles.
    UnsupportedTopology,
    /// The mesh has no index buffer with any triangle.
    MissingIndices,
    /// The mesh has no positions to derive tangents from.
    MissingVertexAttribute,
    /// An attribute buffer disagrees in length or an index is out of
    /// range.
    MalformedVertexAttribute,
    /// The generation algorithm itself reported failure.
    MikktspaceFailure,
}

/// What tangent generation assumes of a mesh: non-empty equal-length
/// attribute buffers, at least one triangle, every index buffer a whole
/// number of triangles, and every index in range.
pub open spec fn tangent_input_ok(mb: MeshBuffers) -> bool {
    &&& mb.positions@.len() > 0
    &&& mb.normals@.len() == mb.positions@.len()
    &&& mb.uvs@.len() == mb.positions@.len()
    &&& exists|s: int|
        0 <= s < mb.primitives@.len() && (#[trigger] mb.primitives@[s].indices@).len() > 0
    &&& forall|s: int|
        0 <= s < mb.primitives@.len() ==> (#[trigger] mb.primitives@[s].indices@).len() % 3 == 0
    &&& forall|s: int|
        0 <= s < mb.primitives@.len() ==> #[trigger] prim_indices_valid(
            mb.primitives@[s],
            mb.positions@.len() as int,
        )
}

/// Checks the assumptions of tangent generation for one mesh.
pub fn validate_tangent_input(mb: &MeshBuffers) -> (r: Result<(), GenerateTangentsError>)
    ensures
        r is Ok <==> tangent_input_ok(*mb),
        r is Err && mb.positions@.len() == 0 ==> r->Err_0
            == GenerateTangentsError::MissingVertexAttribute,
        r is Err && mb.positions@.len() > 0 && (mb.normals@.len() != mb.positions@.len()
            || mb.uvs@.len() != mb.positions@.len()) ==> r->Err_0
            == GenerateTangentsError::MalformedVertexAttribute,
        r is Err && mb.positions@.len() > 0 && mb.normals@.len() == mb.positions@.len()
            && mb.uvs@.len() == mb.positions@.len() && (forall|s: int|
            0 <= s < mb.primitives@.len() ==> (#[trigger] mb.primitives@[s].indices@).len() % 3
                == 0) && (forall|s: int|
            0 <= s < mb.primitives@.len() ==> #[trigger] prim_indices_valid(
                mb.primitives@[s],
                mb.positions@.len() as int,
            )) ==> r->Err_0 == GenerateTangentsError::MissingIndices,
        r is Err && mb.positions@.len() > 0 && mb.normals@.len() == mb.positions@.len()
            && mb.uvs@.len() == mb.positions@.len() && (forall|s: int|
            0 <= s < mb.primitives@.len() ==> #[trigger] prim_indices_valid(
                mb.primitives@[s],
                mb.positions@.len() as int,
            )) && !(forall|s: int|
            0 <= s < mb.primitives@.len() ==> (#[trigger] mb.primitives@[s].indices@).len() % 3
                == 0) ==> r->Err_0 == GenerateTangentsError::UnsupportedTopology,
        r is Err && mb.positions@.len() > 0 && mb.normals@.len() == mb.positions@.len()
            && mb.uvs@.len() == mb.positions@.len() && (forall|s: int|
            0 <= s < mb.primitives@.len() ==> (#[trigger] mb.primitives@[s].indices@).len() % 3
                == 0) && !(forall|s: int|
            0 <= s < mb.primitives@.len() ==> #[trigger] prim_indices_valid(
                mb.primitives@[s],
                mb.positions@.len() as int,
            )) ==> r->Err_0 == GenerateTangentsError::MalformedVertexAttribute,
{
    if mb.positions.len() == 0 {
        return Err(GenerateTangentsError::MissingVertexAttribute);
    }
    if mb.normals.len() != mb.positions.len() || mb.uvs.len() != mb.positions.len() {
        return Err(GenerateTangentsError::MalformedVertexAttribute);
    }
    let n = mb.primitives.len();
    let count = mb.positions.len();
    let mut any_triangles = false;
    let mut s: usize = 0;
    while s < n
        invariant
            0 <= s <= n,
            n == mb.primitives@.len(),
            count == mb.positions@.len(),
            count > 0,
            mb.normals@.len() == count,
            mb.uvs@.len() == count,
            any_triangles <==> exists|j: int|
                0 <= j < s && (#[trigger] mb.primitives@[j].indices@).len() > 0,
            forall|j: int|
                0 <= j < s ==> (#[trigger] mb.primitives@[j].indices@).len() % 3 == 0,
            forall|j: int|
                0 <= j < s ==> #[trigger] prim_indices_valid(mb.primitives@[j], count as int),
        decreases n - s,
    {
        let prim = &mb.primitives[s];
        let m = prim.indices.len();
        if m % 3 != 0 {
            return Err(GenerateTangentsError::UnsupportedTopology);
        }
        let mut k: usize = 0;
        while k < m
            invariant
                0 <= k <= m,
                m == mb.primitives@[s as int].indices@.len(),
                prim == mb.primitives@[s as int],
                count == mb.positions@.len(),
                count > 0,
                mb.normals@.len() == count,
                mb.uvs@.len() == count,
                s < n == mb.primitives@.len(),
                forall|j: int|
                    0 <= j < k ==> (#[trigger] mb.primitives@[s as int].indices@[j] as int)
                        < count,
            decreases m - k,
        {
            if (prim.indices[k] as usize) >= count {
                assert(!prim_indices_valid(mb.primitives@[s as int], count as int));
                return Err(GenerateTangentsError::MalformedVertexAttribute);
            }
            k = k + 1;
        }
        proof {
            assert(prim_indices_valid(mb.primitives@[s as int], count as int));
        }
        if m > 0 {
            any_triangles = true;
        }
        s = s + 1;
    }
    if !any_triangles {
        return Err(GenerateTangentsError::MissingIndices);
    }
    Ok(())
}

/// Negates every tangent's handedness sign: the generation algorithm
/// assumes left-handed winding, the renderer the opposite.
pub fn flip_tangent_handedness(tangents: &mut Vec<[i64; 4]>)
    requires
        forall|j: int| 0 <= j < old(tangents)@.len() ==> (#[trigger] old(tangents)@[j])[3]
            != i64::MIN,
    ensures
        final(tangents)@.len() == old(tangents)@.len(),
        forall|j: int|
            0 <= j < old(tangents)@.len() ==> {
                let t = #[trigger] final(tangents)@[j];
                let o = old(tangents)@[j];
                t[0] == o[0] && t[1] == o[1] && t[2] == o[2] && t[3] == -o[3]
            },
{
    let n = tangents.len();
    let mut j: usize = 0;
    while j < n
        invariant
            0 <= j <= n,
            n == tangents@.len(),
            tangents@.len() == old(tangents)@.len(),
            forall|x: int|
                0 <= x < n ==> (#[trigger] old(tangents)@[x])[3] != i64::MIN,
            forall|x: int| j <= x < n ==> #[trigger] tangents@[x] == old(tangents)@[x],
            forall|x: int|
                0 <= x < j ==> {
                    let t = #[trigger] tangents@[x];
                    let o = old(tangents)@[x];
                    t[0] == o[0] && t[1] == o[1] && t[2] == o[2] && t[3] == -o[3]
                },
        decreases n - j,
    {
        let t = tangents[j];
        proof {
            assert(old(tangents)@[j as int][3] != i64::MIN);
        }
        tangents.set(j, [t[0], t[1], t[2], -t[3]]);
        j = j + 1;
    }
}

} // verus!
