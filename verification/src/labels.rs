//! Deterministic labels for the objects of a loaded scene.
//!
//! Every produced asset is labeled by a scheme derived from the source
//! object: a named object is labeled by its name, a nameless one by its
//! numeric identifier in decimal, and primitive `i` of a mesh by
//! `<label>/Primitive<i>`.  Labels are byte strings.

use vstd::prelude::*;

verus! {

/// The decimal digits of `n`, most significant first.
pub open spec fn decimal_spec(n: int) -> Seq<u8>
    decreases n,
{
    if n < 10 {
        seq![(48 + if n >= 0 {
            n
        } else {
            0
        }) as u8]
    } else {
        decimal_spec(n / 10) + seq![(48 + n % 10) as u8]
    }
}

/// Renders an identifier in decimal.
pub fn to_decimal(n: u64) -> (r: Vec<u8>)
    ensures
        r@ == decimal_spec(n as int),
    decreases n,
{
    if n < 10 {
        let mut v: Vec<u8> = Vec::new();
        v.push(48 + (n as u8));
        proof {
            assert(v@ =~= decimal_spec(n as int));
        }
        v
    } else {
        let mut v = to_decimal(n / 10);
        v.push(48 + ((n % 10) as u8));
        proof {
            assert(v@ =~= decimal_spec(n as int));
        }
        v
    }
}

/// Copies a byte string.
pub fn copy_bytes(v: &Vec<u8>) -> (r: Vec<u8>)
    ensures
        r@ == v@,
{
    let mut r: Vec<u8> = Vec::new();
    let mut i: usize = 0;
    while i < v.len()
        invariant
            0 <= i <= v@.len(),
            r@ == v@.take(i as int),
        decreases v@.len() - i,
    {
        r.push(v[i]);
        proof {
            assert(r@ =~= v@.take(i + 1));
        }
        i = i + 1;
    }
    proof {
        assert(v@.take(v@.len() as int) =~= v@);
    }
    r
}

/// Appends a byte string to another.
pub fn append_bytes(dst: &mut Vec<u8>, src: &Vec<u8>)
    ensures
        final(dst)@ == old(dst)@ + src@,
{
    let mut i: usize = 0;
    while i < src.len()
        invariant
            0 <= i <= src@.len(),
            dst@ == old(dst)@ + src@.take(i as int),
        decreases src@.len() - i,
    {
        proof {
            assert((old(dst)@ + src@.take(i as int)).push(src@[i as int]) =~= old(dst)@ + src@.take(
                i + 1,
            ));
        }
        dst.push(src[i]);
        i = i + 1;
    }
    proof {
        assert(src@.take(src@.len() as int) =~= src@);
    }
}

/// Whether two byte strings hold the same bytes.
pub fn bytes_eq(a: &Vec<u8>, b: &Vec<u8>) -> (r: bool)
    ensures
        r <==> a@ == b@,
{
    if a.len() != b.len() {
        proof {
            assert(a@ != b@);
        }
        return false;
    }
    let n = a.len();
    let mut i: usize = 0;
    while i < n
        invariant
            0 <= i <= n,
            n == a@.len() && n == b@.len(),
            forall|j: int| 0 <= j < i ==> a@[j] == b@[j],
        decreases n - i,
    {
        if a[i] != b[i] {
            proof {
                assert(a@[i as int] != b@[i as int]);
            }
            return false;
        }
        i = i + 1;
    }
    proof {
        assert(a@ =~= b@);
    }
    true
}

/// The label of an object: its name when it has a non-empty one, its
/// numeric identifier in decimal otherwise.
pub open spec fn display_label_spec(name: Option<Seq<u8>>, id: int) -> Seq<u8> {
    match name {
        Option::Some(n) => if n.len() > 0 {
            n
        } else {
            decimal_spec(id)
        },
        Option::None => decimal_spec(id),
    }
}

/// Builds an object's label from its optional name and numeric
/// identifier.
pub fn display_label(name: Option<&Vec<u8>>, id: u64) -> (r: Vec<u8>)
    ensures
        r@ == display_label_spec(
            match name {
                Option::Some(n) => Option::Some(n@),
                Option::None => Option::None,
            },
            id as int,
        ),
{
    match name {
        Option::Some(n) if n.len() > 0 => copy_bytes(n),
        _ => to_decimal(id),
    }
}

/// The infix between a mesh label and its primitive index:
/// `/Primitive` as bytes.
pub open spec fn primitive_infix_spec() -> Seq<u8> {
    seq![47u8, 80u8, 114u8, 105u8, 109u8, 105u8, 116u8, 105u8, 118u8, 101u8]
}

/// The label of primitive `i` of a mesh: `<label>/Primitive<i>`.
pub open spec fn primitive_label_spec(base: Seq<u8>, i: int) -> Seq<u8> {
    base + primitive_infix_spec() + decimal_spec(i)
}

/// Builds a primitive's label from its mesh label and index.
pub fn primitive_label(base: &Vec<u8>, i: u64) -> (r: Vec<u8>)
    ensures
        r@ == primitive_label_spec(base@, i as int),
{
    let mut r = copy_bytes(base);
    let mut infix: Vec<u8> = Vec::new();
    infix.push(47);
    infix.push(80);
    infix.push(114);
    infix.push(105);
    infix.push(109);
    infix.push(105);
    infix.push(116);
    infix.push(105);
    infix.push(118);
    infix.push(101);
    proof {
        assert(infix@ =~= primitive_infix_spec());
    }
    append_bytes(&mut r, &infix);
    let digits = to_decimal(i);
    append_bytes(&mut r, &digits);
    r
}

} // verus!
