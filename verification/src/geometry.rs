//! Static cube geometry: the per-face index lists and their flattening into
//! the single index buffer handed to the GPU.
//!
//! The cube has eight vertices; each of its six faces is recorded as six
//! indices (two triangles), naming exactly four distinct vertices.

use vstd::prelude::*;

verus! {

/// Number of vertices of the cube.
pub const CUBE_VERTEX_COUNT: u16 = 8;

/// Number of faces of the cube.
pub const CUBE_FACE_COUNT: usize = 6;

/// Indices recorded for one face: two triangles of three indices each.
pub const INDICES_PER_FACE: usize = 6;

/// The index lists of the six cube faces, one list of six indices per face.
pub open spec fn cube_faces_spec() -> Seq<Seq<u16>> {
    seq![
        seq![0u16, 1u16, 2u16, 2u16, 3u16, 0u16],
        seq![4u16, 5u16, 6u16, 6u16, 7u16, 4u16],
        seq![0u16, 1u16, 4u16, 4u16, 5u16, 1u16],
        seq![1u16, 2u16, 5u16, 5u16, 6u16, 2u16],
        seq![2u16, 3u16, 6u16, 6u16, 7u16, 3u16],
        seq![3u16, 0u16, 7u16, 7u16, 4u16, 0u16],
    ]
}

/// The views of a list of index lists.
pub open spec fn seq_views(faces: Seq<Vec<u16>>) -> Seq<Seq<u16>> {
    faces.map_values(|v: Vec<u16>| v@)
}

fn face(a: u16, b: u16, c: u16, d: u16, e: u16, f: u16) -> (v: Vec<u16>)
    ensures
        v@ == seq![a, b, c, d, e, f],
{
    let mut v: Vec<u16> = Vec::new();
    v.push(a);
    v.push(b);
    v.push(c);
    v.push(d);
    v.push(e);
    v.push(f);
    proof {
        assert(v@ =~= seq![a, b, c, d, e, f]);
    }
    v
}

/// The cube's face index lists as executable data.
pub fn cube_faces() -> (faces: Vec<Vec<u16>>)
    ensures
        seq_views(faces@) == cube_faces_spec(),
{
    let mut faces: Vec<Vec<u16>> = Vec::new();
    faces.push(face(0, 1, 2, 2, 3, 0));
    faces.push(face(4, 5, 6, 6, 7, 4));
    faces.push(face(0, 1, 4, 4, 5, 1));
    faces.push(face(1, 2, 5, 5, 6, 2));
    faces.push(face(2, 3, 6, 6, 7, 3));
    faces.push(face(3, 0, 7, 7, 4, 0));
    proof {
        assert(seq_views(faces@) =~= cube_faces_spec());
    }
    faces
}

/// Flattens per-face index lists into one index buffer, checking that every
/// face holds exactly `per_face` indices; a mismatch yields `None` rather
/// than an index buffer of a surprising shape.
pub fn flatten_faces(faces: &Vec<Vec<u16>>, per_face: usize) -> (r: Option<Vec<u16>>)
    ensures
        (r is Some) <==> (forall|i: int|
            0 <= i < faces@.len() ==> (#[trigger] faces@[i]@.len()) == per_face as int),
        r matches Some(flat) ==> flat@ == seq_views(faces@).flatten(),
        r matches Some(flat) ==> flat@.len() == faces@.len() * (per_face as int),
{
    let views = Ghost(seq_views(faces@));
    let mut flat: Vec<u16> = Vec::new();
    let mut i: usize = 0;
    while i < faces.len()
        invariant
            0 <= i <= faces@.len(),
            views@ == seq_views(faces@),
            views@.len() == faces@.len(),
            forall|j: int| 0 <= j < i ==> (#[trigger] faces@[j]@.len()) == per_face as int,
            flat@ == views@.subrange(0, i as int).flatten(),
            flat@.len() == i * (per_face as int),
        decreases faces@.len() - i,
    {
        let f = &faces[i];
        if f.len() != per_face {
            return None;
        }
        let ghost prefix = views@.subrange(0, i as int);
        let mut k: usize = 0;
        while k < f.len()
            invariant
                0 <= k <= f@.len(),
                f@ == faces@[i as int]@,
                f@.len() == per_face as int,
                flat@ == prefix.flatten() + f@.subrange(0, k as int),
            decreases f@.len() - k,
        {
            flat.push(f[k]);
            proof {
                assert(f@.subrange(0, k + 1 as int) =~= f@.subrange(0, k as int).push(f@[k as int]));
                assert(flat@ =~= prefix.flatten() + f@.subrange(0, k + 1 as int));
            }
            k = k + 1;
        }
        proof {
            assert(f@.subrange(0, f@.len() as int) =~= f@);
            prefix.lemma_flatten_push(f@);
            assert(views@[i as int] == f@);
            assert(views@.subrange(0, i + 1 as int) =~= prefix.push(f@));
            assert(flat@ =~= views@.subrange(0, i + 1 as int).flatten());
            assert((i + 1) * (per_face as int) == i * (per_face as int) + per_face as int)
                by (nonlinear_arith);
        }
        i = i + 1;
    }
    proof {
        assert(views@.subrange(0, faces@.len() as int) =~= views@);
    }
    Some(flat)
}

/// Four pairwise-distinct vertex indices that cover the whole index list of
/// a face, each occurring in it: the list names exactly these four vertices.
pub open spec fn four_distinct_cover(f: Seq<u16>, a: u16, b: u16, c: u16, d: u16) -> bool {
    &&& a != b && a != c && a != d && b != c && b != d && c != d
    &&& forall|k: int|
        0 <= k < f.len() ==> ((#[trigger] f[k]) == a || f[k] == b || f[k] == c || f[k] == d)
    &&& f.contains(a) && f.contains(b) && f.contains(c) && f.contains(d)
}

/// The index list names exactly four distinct vertices.
pub open spec fn exactly_four_distinct(f: Seq<u16>) -> bool {
    exists|a: u16, b: u16, c: u16, d: u16| four_distinct_cover(f, a, b, c, d)
}

/// A face list of the cube's shape, `[a, b, c, c, d, a-or-b]`, with the four
/// representatives distinct and within the vertex count, covers exactly
/// those four vertices, all in bounds.
proof fn lemma_face_cover(f: Seq<u16>, a: u16, b: u16, c: u16, d: u16)
    requires
        f.len() == 6,
        a != b && a != c && a != d && b != c && b != d && c != d,
        a < CUBE_VERTEX_COUNT && b < CUBE_VERTEX_COUNT,
        c < CUBE_VERTEX_COUNT && d < CUBE_VERTEX_COUNT,
        f[0] == a && f[1] == b && f[2] == c && f[3] == c && f[4] == d,
        f[5] == a || f[5] == b,
    ensures
        four_distinct_cover(f, a, b, c, d),
        forall|k: int| 0 <= k < f.len() ==> (#[trigger] f[k]) < CUBE_VERTEX_COUNT,
{
    assert forall|k: int|
        0 <= k < f.len() implies ((#[trigger] f[k]) == a || f[k] == b || f[k] == c || f[k]
        == d) by {
        if k == 0 {
        } else if k == 1 {
        } else if k == 2 {
        } else if k == 3 {
        } else if k == 4 {
        } else {
            assert(k == 5);
        }
    }
    assert(f.contains(a)) by {
        assert(f[0] == a);
    }
    assert(f.contains(b)) by {
        assert(f[1] == b);
    }
    assert(f.contains(c)) by {
        assert(f[2] == c);
    }
    assert(f.contains(d)) by {
        assert(f[4] == d);
    }
}

/// Index-buffer validity: the cube has six faces of six indices each; every
/// face names exactly four distinct vertices, and every index lies within
/// the cube's eight vertices.
pub proof fn lemma_cube_faces_valid()
    ensures
        cube_faces_spec().len() == CUBE_FACE_COUNT as int,
        forall|f: int|
            0 <= f < CUBE_FACE_COUNT ==> (#[trigger] cube_faces_spec()[f]).len()
                == INDICES_PER_FACE as int,
        forall|f: int|
            0 <= f < CUBE_FACE_COUNT ==> exactly_four_distinct(#[trigger] cube_faces_spec()[f]),
        forall|f: int, k: int|
            0 <= f < CUBE_FACE_COUNT && 0 <= k < INDICES_PER_FACE ==> (#[trigger] cube_faces_spec()[f][k])
                < CUBE_VERTEX_COUNT,
{
    let s = cube_faces_spec();
    lemma_face_cover(s[0], 0, 1, 2, 3);
    lemma_face_cover(s[1], 4, 5, 6, 7);
    lemma_face_cover(s[2], 0, 1, 4, 5);
    lemma_face_cover(s[3], 1, 2, 5, 6);
    lemma_face_cover(s[4], 2, 3, 6, 7);
    lemma_face_cover(s[5], 3, 0, 7, 4);
    assert(exactly_four_distinct(s[0]));
    assert(exactly_four_distinct(s[1]));
    assert(exactly_four_distinct(s[2]));
    assert(exactly_four_distinct(s[3]));
    assert(exactly_four_distinct(s[4]));
    assert(exactly_four_distinct(s[5]));
    assert forall|f: int| 0 <= f < CUBE_FACE_COUNT implies exactly_four_distinct(
        #[trigger] s[f],
    ) by {
        if f == 0 {
        } else if f == 1 {
        } else if f == 2 {
        } else if f == 3 {
        } else if f == 4 {
        } else {
            assert(f == 5);
        }
    }
    assert forall|f: int, k: int|
        0 <= f < CUBE_FACE_COUNT && 0 <= k < INDICES_PER_FACE implies (#[trigger] s[f][k])
        < CUBE_VERTEX_COUNT by {
        if f == 0 {
        } else if f == 1 {
        } else if f == 2 {
        } else if f == 3 {
        } else if f == 4 {
        } else {
            assert(f == 5);
        }
    }
}

/// Every element of a flattened sequence of sequences stays under a bound
/// that every element of every inner sequence satisfies.
proof fn lemma_flatten_bounded(ss: Seq<Seq<u16>>, bound: u16)
    requires
        forall|i: int, j: int|
            0 <= i < ss.len() && 0 <= j < ss[i].len() ==> (#[trigger] ss[i][j]) < bound,
    ensures
        forall|k: int| 0 <= k < ss.flatten().len() ==> (#[trigger] ss.flatten()[k]) < bound,
    decreases ss.len(),
{
    if ss.len() == 0 {
        assert(ss.flatten() =~= Seq::<u16>::empty());
    } else {
        assert forall|i: int, j: int|
            0 <= i < ss.drop_first().len() && 0 <= j < ss.drop_first()[i].len() implies (
        #[trigger] ss.drop_first()[i][j]) < bound by {
            assert(ss.drop_first()[i] == ss[i + 1]);
        }
        lemma_flatten_bounded(ss.drop_first(), bound);
        assert(ss.flatten() == ss.first().add(ss.drop_first().flatten()));
        assert forall|k: int| 0 <= k < ss.flatten().len() implies (#[trigger] ss.flatten()[k])
            < bound by {
            if k < ss.first().len() {
                assert(ss.flatten()[k] == ss.first()[k]);
                assert(ss[0][k] < bound);
            } else {
                assert(ss.flatten()[k] == ss.drop_first().flatten()[k - ss.first().len()]);
            }
        }
    }
}

/// The cube's flattened index buffer: six faces of six indices, every index
/// within the cube's eight vertices.
pub fn cube_indices() -> (flat: Vec<u16>)
    ensures
        flat@ == cube_faces_spec().flatten(),
        flat@.len() == CUBE_FACE_COUNT * INDICES_PER_FACE,
        forall|k: int| 0 <= k < flat@.len() ==> (#[trigger] flat@[k]) < CUBE_VERTEX_COUNT,
{
    let faces = cube_faces();
    proof {
        lemma_cube_faces_valid();
        assert(seq_views(faces@).len() == faces@.len());
        assert forall|i: int|
            0 <= i < faces@.len() implies (#[trigger] faces@[i]@.len())
            == INDICES_PER_FACE as int by {
            assert(faces@[i]@ == seq_views(faces@)[i]);
            assert(seq_views(faces@)[i] == cube_faces_spec()[i]);
        }
    }
    let r = flatten_faces(&faces, INDICES_PER_FACE);
    proof {
        lemma_flatten_bounded(cube_faces_spec(), CUBE_VERTEX_COUNT);
    }
    match r {
        Some(flat) => flat,
        None => vstd::pervasive::unreached(),
    }
}

} // verus!
