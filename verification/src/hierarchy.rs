//! Hierarchy walker.
//!
//! Walks the document's model tree, resolving every node's transform
//! against its parent's resolved state, and prunes subtrees that do not
//! terminate in a mesh-bearing node: a node survives only if it carries a
//! mesh itself or some descendant does.  This trims the deformer, limb and
//! helper nodes common in rigged exports.  A node whose transform cannot
//! be resolved fails together with its whole subtree; the walk records the
//! error and continues with the rest of the tree.
//!
//! Nodes live in a flat arena ordered parent-before-child: a parent index
//! is smaller than the node's own, child indices larger.

use vstd::prelude::*;

use crate::error::{FbxError, LoadError};
use crate::labels::{copy_bytes, display_label};
use crate::mat::{
    fits_mat, mat_mul, sdecompose_ok, sinverse, sinverse_ok, smul, spec_entry, srot_entry,
    sscale_of, stranslation_of, LocalTransform, MatS,
};
use crate::transform::{
    resolve, resolve_ok, s_child_rotation, s_global, s_global_translation, sid_trans, v3,
    FbxTransform, STrans, TransformInfo,
};

verus! {

/// One node of the raw document tree.
pub struct RawNode {
    /// The document's object identifier.
    pub id: u64,
    /// The node's name, when the document gives one.
    pub name: Option<Vec<u8>>,
    /// The node's raw transform properties.
    pub info: TransformInfo,
    /// Whether the node is itself a mesh-bearing model.
    pub has_mesh: bool,
    /// Index of the parent node; `None` for a root.
    pub parent: Option<usize>,
    /// Indices of the child nodes.
    pub children: Vec<usize>,
}

/// The document's model tree, as a flat arena ordered parent-before-child.
pub struct NodeTree {
    pub nodes: Vec<RawNode>,
}

/// The links of one node respect the arena order: the parent comes
/// earlier, children later.
pub open spec fn node_links_ok(nodes: Seq<RawNode>, i: int) -> bool {
    &&& match nodes[i].parent {
        Option::Some(p) => (p as int) < i,
        Option::None => true,
    }
    &&& forall|k: int| #![trigger nodes[i].children@[k]]
        0 <= k < nodes[i].children@.len() ==> i < (nodes[i].children@[k] as int) < nodes.len()
}

impl NodeTree {
    /// Every node's links respect the arena order.
    pub open spec fn well_formed(self) -> bool {
        forall|i: int| 0 <= i < self.nodes@.len() ==> #[trigger] node_links_ok(self.nodes@, i)
    }
}

/// Whether some child at slot `k` or later of node `i` leads to a
/// mesh-bearing subtree.
pub open spec fn subtree_has_mesh_from(nodes: Seq<RawNode>, i: int, k: int) -> bool
    decreases nodes.len() - i, nodes[i].children@.len() - k,
{
    if 0 <= i < nodes.len() && 0 <= k < nodes[i].children@.len() {
        ({
            let c = nodes[i].children@[k] as int;
            i < c < nodes.len() && subtree_has_mesh(nodes, c)
        }) || subtree_has_mesh_from(nodes, i, k + 1)
    } else {
        false
    }
}

/// Whether node `i` or some descendant of it carries a mesh.
pub open spec fn subtree_has_mesh(nodes: Seq<RawNode>, i: int) -> bool
    decreases nodes.len() - i, nodes[i].children@.len() + 1,
{
    if 0 <= i < nodes.len() {
        nodes[i].has_mesh || subtree_has_mesh_from(nodes, i, 0)
    } else {
        false
    }
}

/// The resolved state of node `i`: the identity-rooted chain of `resolve`
/// along its parents, `None` as soon as one step is unresolvable.
pub open spec fn sresolved(nodes: Seq<RawNode>, i: int) -> Option<STrans>
    decreases i,
{
    if 0 <= i < nodes.len() {
        let pres = match nodes[i].parent {
            Option::None => Option::Some(sid_trans()),
            Option::Some(pi) => if (pi as int) < i {
                sresolved(nodes, pi as int)
            } else {
                Option::None
            },
        };
        match pres {
            Option::None => Option::None,
            Option::Some(pt) => if resolve_ok(nodes[i].info, pt) {
                Option::Some(
                    STrans {
                        global: s_global(nodes[i].info, pt),
                        rotation: s_child_rotation(nodes[i].info, pt),
                        translation: s_global_translation(nodes[i].info, pt),
                        local_scale: v3(nodes[i].info.local_scale),
                    },
                )
            } else {
                Option::None
            },
        }
    } else {
        Option::None
    }
}

/// The local (parent-relative) matrix of node `i`:
/// `global * parent_global⁻¹`, or the global matrix itself for a root.
pub open spec fn s_local_mat(nodes: Seq<RawNode>, i: int) -> MatS {
    let g = sresolved(nodes, i)->0.global;
    match nodes[i].parent {
        Option::None => g,
        Option::Some(pi) => smul(g, sinverse(sresolved(nodes, pi as int)->0.global)),
    }
}

/// Whether node `i`'s local matrix can be derived and decomposed.
pub open spec fn local_ok(nodes: Seq<RawNode>, i: int) -> bool {
    &&& sresolved(nodes, i) is Some
    &&& match nodes[i].parent {
        Option::None => sdecompose_ok(sresolved(nodes, i)->0.global),
        Option::Some(pi) => {
            &&& sresolved(nodes, pi as int) is Some
            &&& sinverse_ok(sresolved(nodes, pi as int)->0.global)
            &&& fits_mat(s_local_mat(nodes, i))
            &&& sdecompose_ok(s_local_mat(nodes, i))
        },
    }
}

/// Whether node `i` survives the walk: it resolves, its subtree bears a
/// mesh, and its local transform is derivable.
pub open spec fn sretained(nodes: Seq<RawNode>, i: int) -> bool {
    &&& sresolved(nodes, i) is Some
    &&& subtree_has_mesh(nodes, i)
    &&& local_ok(nodes, i)
}

/// A mesh-bearing subtree at some child slot makes the scan from any
/// earlier slot find one.
proof fn lemma_subtree_mesh_from_prefix(nodes: Seq<RawNode>, i: int, j: int, k: int)
    requires
        0 <= i < nodes.len(),
        0 <= j <= k < nodes[i].children@.len(),
        i < (nodes[i].children@[k] as int) < nodes.len(),
        subtree_has_mesh(nodes, nodes[i].children@[k] as int),
    ensures
        subtree_has_mesh_from(nodes, i, j),
    decreases k - j,
{
    if j < k {
        lemma_subtree_mesh_from_prefix(nodes, i, j + 1, k);
    }
}

/// A mesh-bearing subtree makes every ancestor's subtree mesh-bearing:
/// a node over a surviving descendant is never pruned for want of a
/// mesh.
pub proof fn lemma_subtree_mesh_ascends(nodes: Seq<RawNode>, i: int, k: int)
    requires
        0 <= i < nodes.len(),
        0 <= k < nodes[i].children@.len(),
        i < (nodes[i].children@[k] as int) < nodes.len(),
        subtree_has_mesh(nodes, nodes[i].children@[k] as int),
    ensures
        subtree_has_mesh(nodes, i),
{
    lemma_subtree_mesh_from_prefix(nodes, i, 0, k);
}

/// A node whose transform chain resolves and decomposes survives the
/// walk whenever one of its children does: the chain from a retained
/// node up to its root is kept whole, node by node, as long as each
/// ancestor's transform is derivable.
pub proof fn lemma_parent_of_retained(nodes: Seq<RawNode>, i: int, k: int)
    requires
        0 <= i < nodes.len(),
        0 <= k < nodes[i].children@.len(),
        i < (nodes[i].children@[k] as int) < nodes.len(),
        sretained(nodes, nodes[i].children@[k] as int),
        sresolved(nodes, i) is Some,
        local_ok(nodes, i),
    ensures
        sretained(nodes, i),
{
    lemma_subtree_mesh_ascends(nodes, i, k);
}

/// The child indices that survive the walk, in order.
pub open spec fn retained_children(nodes: Seq<RawNode>, children: Seq<usize>) -> Seq<usize>
    decreases children.len(),
{
    if children.len() == 0 {
        Seq::empty()
    } else {
        retained_children(nodes, children.drop_last()) + if sretained(
            nodes,
            children.last() as int,
        ) {
            seq![children.last()]
        } else {
            Seq::empty()
        }
    }
}

/// Whether a decomposed local transform matches the decomposition of the
/// local matrix of node `i`.
pub open spec fn local_matches(nodes: Seq<RawNode>, i: int, lt: LocalTransform) -> bool {
    let lm = s_local_mat(nodes, i);
    &&& (lt.translation[0] as int, lt.translation[1] as int, lt.translation[2] as int)
        == stranslation_of(lm)
    &&& (lt.scale[0] as int, lt.scale[1] as int, lt.scale[2] as int) == sscale_of(lm)
    &&& forall|rr: int, cc: int|
        0 <= rr < 3 && 0 <= cc < 3 ==> #[trigger] spec_entry(lt.rotation.s(), rr, cc)
            == srot_entry(lm, rr, cc)
}

/// A node of the pruned output hierarchy.
pub struct ResolvedNode {
    pub id: u64,
    pub name: Option<Vec<u8>>,
    pub local: LocalTransform,
    pub children: Vec<usize>,
}

/// Whether node `i`'s parent chain has resolved (trivially true for a
/// root).
pub open spec fn parent_available(nodes: Seq<RawNode>, i: int) -> bool {
    match nodes[i].parent {
        Option::None => true,
        Option::Some(pi) => (pi as int) < i && sresolved(nodes, pi as int) is Some,
    }
}

/// Resolves one node given the entries of all earlier nodes, recording an
/// error when the node itself is the point of failure.
#[verifier::rlimit(100)]
fn resolve_node(
    tree: &NodeTree,
    i: usize,
    rtrans: &Vec<Option<FbxTransform>>,
    errors: &mut Vec<LoadError>,
) -> (res: Option<FbxTransform>)
    requires
        tree.well_formed(),
        i < tree.nodes@.len(),
        rtrans@.len() == i,
        forall|j: int|
            0 <= j < i ==> ((#[trigger] rtrans@[j]) is Some <==> sresolved(tree.nodes@, j)
                is Some),
        forall|j: int|
            0 <= j < i && rtrans@[j] is Some ==> (#[trigger] rtrans@[j])->0.strans() == sresolved(
                tree.nodes@,
                j,
            )->0,
    ensures
        res is Some <==> sresolved(tree.nodes@, i as int) is Some,
        res is Some ==> res->0.strans() == sresolved(tree.nodes@, i as int)->0,
        parent_available(tree.nodes@, i as int) && sresolved(tree.nodes@, i as int) is None
            ==> final(errors)@.len() == old(errors)@.len() + 1,
        !(parent_available(tree.nodes@, i as int) && sresolved(tree.nodes@, i as int) is None)
            ==> final(errors)@ == old(errors)@,
{
    proof {
        assert(node_links_ok(tree.nodes@, i as int));
    }
    let node = &tree.nodes[i];
    match node.parent {
        Option::None => {
            match resolve(&node.info, Option::None) {
                Ok(t) => Option::Some(t),
                Err(e) => {
                    let label = display_label(
                        match &node.name {
                            Option::Some(nm) => Option::Some(nm),
                            Option::None => Option::None,
                        },
                        node.id,
                    );
                    errors.push(LoadError { label, error: e });
                    Option::None
                },
            }
        },
        Option::Some(pi) => {
            match &rtrans[pi] {
                Option::Some(pt) => {
                    match resolve(&node.info, Option::Some(pt)) {
                        Ok(t) => Option::Some(t),
                        Err(e) => {
                            let label = display_label(
                                match &node.name {
                                    Option::Some(nm) => Option::Some(nm),
                                    Option::None => Option::None,
                                },
                                node.id,
                            );
                            errors.push(LoadError { label, error: e });
                            Option::None
                        },
                    }
                },
                Option::None => Option::None,
            }
        },
    }
}

/// Resolves every node's transform, parents before children; a node whose
/// resolution fails aborts its whole subtree and is reported once.
fn resolve_pass(tree: &NodeTree) -> (r: (Vec<Option<FbxTransform>>, Vec<LoadError>))
    requires
        tree.well_formed(),
    ensures
        r.0@.len() == tree.nodes@.len(),
        forall|i: int|
            0 <= i < tree.nodes@.len() ==> ((#[trigger] r.0@[i]) is Some <==> sresolved(
                tree.nodes@,
                i,
            ) is Some),
        forall|i: int|
            0 <= i < tree.nodes@.len() && r.0@[i] is Some ==> (#[trigger] r.0@[i])->0.strans()
                == sresolved(tree.nodes@, i)->0,
        r.1@.len() == 0 <==> (forall|i: int|
            0 <= i < tree.nodes@.len() ==> (#[trigger] sresolved(tree.nodes@, i)) is Some),
{
    let n = tree.nodes.len();
    let mut rtrans: Vec<Option<FbxTransform>> = Vec::new();
    let mut errors: Vec<LoadError> = Vec::new();
    let mut i: usize = 0;
    while i < n
        invariant
            0 <= i <= n,
            n == tree.nodes@.len(),
            tree.well_formed(),
            rtrans@.len() == i,
            forall|j: int|
                0 <= j < i ==> ((#[trigger] rtrans@[j]) is Some <==> sresolved(tree.nodes@, j)
                    is Some),
            forall|j: int|
                0 <= j < i && rtrans@[j] is Some ==> (#[trigger] rtrans@[j])->0.strans()
                    == sresolved(tree.nodes@, j)->0,
            errors@.len() == 0 <==> (forall|j: int|
                0 <= j < i ==> (#[trigger] sresolved(tree.nodes@, j)) is Some),
        decreases n - i,
    {
        let res = resolve_node(tree, i, &rtrans, &mut errors);
        proof {
            if sresolved(tree.nodes@, i as int) is None && !parent_available(
                tree.nodes@,
                i as int,
            ) {
                assert(node_links_ok(tree.nodes@, i as int));
                match tree.nodes@[i as int].parent {
                    Option::None => {},
                    Option::Some(pi) => {
                        assert(sresolved(tree.nodes@, pi as int) is None);
                    },
                }
            }
        }
        rtrans.push(res);
        i = i + 1;
    }
    (rtrans, errors)
}

/// Computes, child-to-parent, whether each node's subtree bears a mesh.
fn mesh_pass(tree: &NodeTree) -> (r: Vec<bool>)
    requires
        tree.well_formed(),
    ensures
        r@.len() == tree.nodes@.len(),
        forall|i: int|
            0 <= i < tree.nodes@.len() ==> (#[trigger] r@[i]) == subtree_has_mesh(tree.nodes@, i),
{
    let n = tree.nodes.len();
    let mut mesh: Vec<bool> = Vec::new();
    let mut i: usize = 0;
    while i < n
        invariant
            mesh@.len() == i <= n,
        decreases n - i,
    {
        mesh.push(false);
        i = i + 1;
    }
    let mut i: usize = n;
    while i > 0
        invariant
            0 <= i <= n,
            n == tree.nodes@.len(),
            tree.well_formed(),
            mesh@.len() == n,
            forall|j: int|
                i <= j < n ==> (#[trigger] mesh@[j]) == subtree_has_mesh(tree.nodes@, j),
        decreases i,
    {
        let idx = i - 1;
        proof {
            assert(node_links_ok(tree.nodes@, idx as int));
        }
        let node = &tree.nodes[idx];
        let cn = node.children.len();
        let mut found_children = false;
        let mut k: usize = cn;
        while k > 0
            invariant
                0 <= k <= cn,
                i == idx + 1,
                idx < i <= n,
                n == tree.nodes@.len(),
                cn == tree.nodes@[idx as int].children@.len(),
                node == tree.nodes@[idx as int],
                node_links_ok(tree.nodes@, idx as int),
                mesh@.len() == n,
                forall|j: int|
                    i <= j < n ==> (#[trigger] mesh@[j]) == subtree_has_mesh(tree.nodes@, j),
                found_children == subtree_has_mesh_from(tree.nodes@, idx as int, k as int),
            decreases k,
        {
            let kk = k - 1;
            let c = node.children[kk];
            proof {
                assert(idx < c < n);
            }
            if mesh[c] {
                found_children = true;
            }
            proof {
                assert(found_children == subtree_has_mesh_from(tree.nodes@, idx as int, kk as int));
            }
            k = kk;
        }
        let found = node.has_mesh || found_children;
        proof {
            assert(found == subtree_has_mesh(tree.nodes@, idx as int));
        }
        mesh.set(idx, found);
        i = idx;
    }
    mesh
}

/// Derives and decomposes the local transform of one node, recording the
/// error when a resolved node's local transform is underivable.
#[verifier::rlimit(100)]
fn derive_local(
    tree: &NodeTree,
    i: usize,
    rtrans: &Vec<Option<FbxTransform>>,
    errors: &mut Vec<LoadError>,
) -> (res: Option<LocalTransform>)
    requires
        tree.well_formed(),
        i < tree.nodes@.len(),
        rtrans@.len() == tree.nodes@.len(),
        forall|j: int|
            0 <= j < tree.nodes@.len() ==> ((#[trigger] rtrans@[j]) is Some <==> sresolved(
                tree.nodes@,
                j,
            ) is Some),
        forall|j: int|
            0 <= j < tree.nodes@.len() && rtrans@[j] is Some ==> (#[trigger] rtrans@[j])->0.strans()
                == sresolved(tree.nodes@, j)->0,
    ensures
        res is Some <==> sresolved(tree.nodes@, i as int) is Some && local_ok(
            tree.nodes@,
            i as int,
        ),
        res is Some ==> local_matches(tree.nodes@, i as int, res->0),
        sresolved(tree.nodes@, i as int) is Some && !local_ok(tree.nodes@, i as int)
            ==> final(errors)@.len() == old(errors)@.len() + 1,
        !(sresolved(tree.nodes@, i as int) is Some && !local_ok(tree.nodes@, i as int))
            ==> final(errors)@ == old(errors)@,
{
    proof {
        assert(node_links_ok(tree.nodes@, i as int));
    }
    let node = &tree.nodes[i];
    match &rtrans[i] {
        Option::None => Option::None,
        Option::Some(t) => {
            let local_mat = match node.parent {
                Option::None => Ok(t.global),
                Option::Some(pi) => {
                    match &rtrans[pi] {
                        // A resolved child always has a resolved parent.
                        Option::None => Err(FbxError::DegenerateTransform),
                        Option::Some(pt) => {
                            match pt.global.affine_inverse() {
                                Ok(inv) => mat_mul(&t.global, &inv),
                                Err(e) => Err(e),
                            }
                        },
                    }
                },
            };
            match local_mat {
                Ok(lm) => {
                    match lm.decompose() {
                        Ok(lt) => Option::Some(lt),
                        Err(e) => {
                            let label = display_label(
                                match &node.name {
                                    Option::Some(nm) => Option::Some(nm),
                                    Option::None => Option::None,
                                },
                                node.id,
                            );
                            errors.push(LoadError { label, error: e });
                            Option::None
                        },
                    }
                },
                Err(e) => {
                    let label = display_label(
                        match &node.name {
                            Option::Some(nm) => Option::Some(nm),
                            Option::None => Option::None,
                        },
                        node.id,
                    );
                    errors.push(LoadError { label, error: e });
                    Option::None
                },
            }
        },
    }
}

/// Walks the tree and builds the pruned hierarchy: entry `i` of the
/// result holds node `i`'s name, decomposed local transform and retained
/// children exactly when the node survives.  The error list is empty when
/// every node resolved and every retained node's local transform was
/// derivable.
#[verifier::rlimit(100)]
pub fn traverse_hierarchy(tree: &NodeTree) -> (r: (Vec<Option<ResolvedNode>>, Vec<LoadError>))
    requires
        tree.well_formed(),
    ensures
        r.0@.len() == tree.nodes@.len(),
        forall|i: int|
            0 <= i < tree.nodes@.len() ==> ((#[trigger] r.0@[i]) is Some <==> sretained(
                tree.nodes@,
                i,
            )),
        forall|i: int|
            0 <= i < tree.nodes@.len() && r.0@[i] is Some ==> {
                let out = (#[trigger] r.0@[i])->0;
                &&& out.id == tree.nodes@[i].id
                &&& out.name is Some <==> tree.nodes@[i].name is Some
                &&& out.name is Some ==> out.name->0@ == tree.nodes@[i].name->0@
                &&& local_matches(tree.nodes@, i, out.local)
                &&& out.children@ == retained_children(tree.nodes@, tree.nodes@[i].children@)
            },
        r.1@.len() == 0 <==> ((forall|i: int|
            0 <= i < tree.nodes@.len() ==> (#[trigger] sresolved(tree.nodes@, i)) is Some) && (
        forall|i: int|
            0 <= i < tree.nodes@.len() ==> (subtree_has_mesh(tree.nodes@, i)
                ==> #[trigger] local_ok(tree.nodes@, i)))),
{
    let n = tree.nodes.len();
    let (rtrans, mut errors) = resolve_pass(tree);
    let mesh = mesh_pass(tree);

    // Derive and decompose each retained node's local transform.
    let mut loc: Vec<Option<LocalTransform>> = Vec::new();
    let ghost gnodes = tree.nodes@;
    let mut i: usize = 0;
    while i < n
        invariant
            0 <= i <= n,
            n == tree.nodes@.len(),
            tree.well_formed(),
            rtrans@.len() == n,
            mesh@.len() == n,
            forall|j: int|
                0 <= j < n ==> ((#[trigger] rtrans@[j]) is Some <==> sresolved(tree.nodes@, j)
                    is Some),
            forall|j: int|
                0 <= j < n && rtrans@[j] is Some ==> (#[trigger] rtrans@[j])->0.strans()
                    == sresolved(tree.nodes@, j)->0,
            forall|j: int|
                0 <= j < n ==> (#[trigger] mesh@[j]) == subtree_has_mesh(tree.nodes@, j),
            loc@.len() == i,
            forall|j: int|
                0 <= j < i ==> ((#[trigger] loc@[j]) is Some <==> sretained(tree.nodes@, j)),
            forall|j: int|
                0 <= j < i && loc@[j] is Some ==> local_matches(
                    tree.nodes@,
                    j,
                    (#[trigger] loc@[j])->0,
                ),
            errors@.len() == 0 <==> ((forall|j: int|
                0 <= j < n ==> (#[trigger] sresolved(tree.nodes@, j)) is Some) && (forall|j: int|
                0 <= j < i ==> (subtree_has_mesh(tree.nodes@, j) ==> #[trigger] local_ok(
                    tree.nodes@,
                    j,
                )))),
        decreases n - i,
    {
        let entry: Option<LocalTransform> = if !mesh[i] {
            Option::None
        } else {
            derive_local(tree, i, &rtrans, &mut errors)
        };
        loc.push(entry);
        i = i + 1;
    }

    // Emit the surviving nodes with their retained children.
    let mut out: Vec<Option<ResolvedNode>> = Vec::new();
    let mut i: usize = 0;
    while i < n
        invariant
            0 <= i <= n,
            n == tree.nodes@.len(),
            tree.well_formed(),
            loc@.len() == n,
            forall|j: int|
                0 <= j < n ==> ((#[trigger] loc@[j]) is Some <==> sretained(tree.nodes@, j)),
            forall|j: int|
                0 <= j < n && loc@[j] is Some ==> local_matches(
                    tree.nodes@,
                    j,
                    (#[trigger] loc@[j])->0,
                ),
            out@.len() == i,
            forall|j: int|
                0 <= j < i ==> ((#[trigger] out@[j]) is Some <==> sretained(tree.nodes@, j)),
            forall|j: int|
                0 <= j < i && out@[j] is Some ==> {
                    let o = (#[trigger] out@[j])->0;
                    &&& o.id == tree.nodes@[j].id
                    &&& o.name is Some <==> tree.nodes@[j].name is Some
                    &&& o.name is Some ==> o.name->0@ == tree.nodes@[j].name->0@
                    &&& local_matches(tree.nodes@, j, o.local)
                    &&& o.children@ == retained_children(tree.nodes@, tree.nodes@[j].children@)
                },
        decreases n - i,
    {
        let node = &tree.nodes[i];
        let entry: Option<ResolvedNode> = match &loc[i] {
            Option::None => Option::None,
            Option::Some(lt) => {
                let cn = node.children.len();
                let mut kept: Vec<usize> = Vec::new();
                proof {
                    assert(tree.nodes@[i as int].children@.take(0) =~= Seq::<usize>::empty());
                }
                let mut k: usize = 0;
                while k < cn
                    invariant
                        0 <= k <= cn,
                        n == tree.nodes@.len(),
                        cn == tree.nodes@[i as int].children@.len(),
                        node == tree.nodes@[i as int],
                        i < n,
                        loc@.len() == n,
                        node_links_ok(tree.nodes@, i as int),
                        forall|j: int|
                            0 <= j < n ==> ((#[trigger] loc@[j]) is Some <==> sretained(
                                tree.nodes@,
                                j,
                            )),
                        kept@ == retained_children(
                            tree.nodes@,
                            tree.nodes@[i as int].children@.take(k as int),
                        ),
                    decreases cn - k,
                {
                    proof {
                        assert(tree.nodes@[i as int].children@.take(k + 1).drop_last()
                            =~= tree.nodes@[i as int].children@.take(k as int));
                        assert(tree.nodes@[i as int].children@.take(k + 1).last()
                            == tree.nodes@[i as int].children@[k as int]);
                    }
                    let c = node.children[k];
                    proof {
                        assert(i < c < n);
                    }
                    if loc[c].is_some() {
                        kept.push(c);
                        proof {
                            assert(kept@ =~= retained_children(
                                tree.nodes@,
                                tree.nodes@[i as int].children@.take(k as int),
                            ) + seq![tree.nodes@[i as int].children@[k as int]]);
                        }
                    }
                    k = k + 1;
                }
                proof {
                    let ci = tree.nodes@[i as int].children@;
                    assert(ci.take(cn as int) =~= ci);
                }
                let name = match &node.name {
                    Option::Some(v) => Option::Some(copy_bytes(v)),
                    Option::None => Option::None,
                };
                Option::Some(ResolvedNode { id: node.id, name, local: *lt, children: kept })
            },
        };
        out.push(entry);
        i = i + 1;
    }
    (out, errors)
}

} // verus!
