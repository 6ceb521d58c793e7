//! The faces of the regular polyhedra, as lists of vertex indices.
//!
//! The vertex positions are real numbers and are placed by the caller; the faces
//! here name the vertices by their place in that list.

use vstd::prelude::*;
use crate::polygon::Polygon3;
use crate::obj::polygons_view;
use crate::topology::{indices_within, polygons_within};

verus! {

fn face(indices: &[usize]) -> (p: Polygon3)
    ensures
        p@ == indices@,
{
    Polygon3::from_list(indices)
}

/// The faces of the tetrahedron: four triangles over four vertices.
pub open spec fn tetrahedron_faces() -> Seq<Seq<usize>> {
    seq![
        seq![0usize, 1, 2],
        seq![0usize, 2, 3],
        seq![0usize, 3, 1],
        seq![1usize, 3, 2],
    ]
}

/// The faces of the tetrahedron, as [`tetrahedron_faces`] lists them.
pub fn tetrahedron_polygons() -> (polygons: Vec<Polygon3>)
    ensures
        polygons_view(polygons@) == tetrahedron_faces(),
{
    let mut polygons: Vec<Polygon3> = Vec::new();
    polygons.push(face(&[0, 1, 2]));
    polygons.push(face(&[0, 2, 3]));
    polygons.push(face(&[0, 3, 1]));
    polygons.push(face(&[1, 3, 2]));
    assert(polygons_view(polygons@) =~= tetrahedron_faces());
    polygons
}

/// The faces of the hexahedron: six quads over eight vertices: the bottom square 0..4, the top square 4..8, then the four sides.
pub open spec fn hexahedron_faces() -> Seq<Seq<usize>> {
    seq![
        seq![0usize, 1, 2, 3],
        seq![4usize, 5, 6, 7],
        seq![3usize, 2, 6, 7],
        seq![0usize, 1, 5, 4],
        seq![0usize, 3, 7, 4],
        seq![1usize, 2, 6, 5],
    ]
}

/// The faces of the hexahedron, as [`hexahedron_faces`] lists them.
pub fn hexahedron_polygons() -> (polygons: Vec<Polygon3>)
    ensures
        polygons_view(polygons@) == hexahedron_faces(),
{
    let mut polygons: Vec<Polygon3> = Vec::new();
    polygons.push(face(&[0, 1, 2, 3]));
    polygons.push(face(&[4, 5, 6, 7]));
    polygons.push(face(&[3, 2, 6, 7]));
    polygons.push(face(&[0, 1, 5, 4]));
    polygons.push(face(&[0, 3, 7, 4]));
    polygons.push(face(&[1, 2, 6, 5]));
    assert(polygons_view(polygons@) =~= hexahedron_faces());
    polygons
}

/// The faces of the octahedron: eight triangles over six vertices: the poles 0 and 1, then the equator 2..6.
pub open spec fn octahedron_faces() -> Seq<Seq<usize>> {
    seq![
        seq![0usize, 2, 3],
        seq![0usize, 3, 4],
        seq![0usize, 4, 5],
        seq![0usize, 5, 2],
        seq![1usize, 3, 2],
        seq![1usize, 4, 3],
        seq![1usize, 5, 4],
        seq![1usize, 2, 5],
    ]
}

/// The faces of the octahedron, as [`octahedron_faces`] lists them.
pub fn octahedron_polygons() -> (polygons: Vec<Polygon3>)
    ensures
        polygons_view(polygons@) == octahedron_faces(),
{
    let mut polygons: Vec<Polygon3> = Vec::new();
    polygons.push(face(&[0, 2, 3]));
    polygons.push(face(&[0, 3, 4]));
    polygons.push(face(&[0, 4, 5]));
    polygons.push(face(&[0, 5, 2]));
    polygons.push(face(&[1, 3, 2]));
    polygons.push(face(&[1, 4, 3]));
    polygons.push(face(&[1, 5, 4]));
    polygons.push(face(&[1, 2, 5]));
    assert(polygons_view(polygons@) =~= octahedron_faces());
    polygons
}

/// The faces of the icosahedron: twenty triangles over twelve vertices, which
/// close its surface: every edge lies on exactly two of them (see
/// [`law_polyhedra_closed`]).
pub open spec fn icosahedron_faces() -> Seq<Seq<usize>> {
    seq![
        seq![0usize, 4, 8],
        seq![0usize, 8, 2],
        seq![0usize, 2, 10],
        seq![0usize, 10, 5],
        seq![0usize, 5, 4],
        seq![1usize, 9, 4],
        seq![1usize, 4, 5],
        seq![1usize, 5, 11],
        seq![1usize, 11, 3],
        seq![1usize, 3, 9],
        seq![4usize, 9, 8],
        seq![8usize, 9, 6],
        seq![6usize, 9, 3],
        seq![11usize, 5, 10],
        seq![2usize, 8, 6],
        seq![7usize, 6, 2],
        seq![7usize, 6, 3],
        seq![7usize, 2, 10],
        seq![7usize, 10, 11],
        seq![7usize, 11, 3],
    ]
}

/// The faces of the icosahedron, as [`icosahedron_faces`] lists them.
pub fn icosahedron_polygons() -> (polygons: Vec<Polygon3>)
    ensures
        polygons_view(polygons@) == icosahedron_faces(),
{
    let mut polygons: Vec<Polygon3> = Vec::new();
    polygons.push(face(&[0, 4, 8]));
    polygons.push(face(&[0, 8, 2]));
    polygons.push(face(&[0, 2, 10]));
    polygons.push(face(&[0, 10, 5]));
    polygons.push(face(&[0, 5, 4]));
    polygons.push(face(&[1, 9, 4]));
    polygons.push(face(&[1, 4, 5]));
    polygons.push(face(&[1, 5, 11]));
    polygons.push(face(&[1, 11, 3]));
    polygons.push(face(&[1, 3, 9]));
    polygons.push(face(&[4, 9, 8]));
    polygons.push(face(&[8, 9, 6]));
    polygons.push(face(&[6, 9, 3]));
    polygons.push(face(&[11, 5, 10]));
    polygons.push(face(&[2, 8, 6]));
    polygons.push(face(&[7, 6, 2]));
    polygons.push(face(&[7, 6, 3]));
    polygons.push(face(&[7, 2, 10]));
    polygons.push(face(&[7, 10, 11]));
    polygons.push(face(&[7, 11, 3]));
    assert(polygons_view(polygons@) =~= icosahedron_faces());
    polygons
}

/// The faces of the dodecahedron: twelve pentagons over twenty vertices.
pub open spec fn dodecahedron_faces() -> Seq<Seq<usize>> {
    seq![
        seq![0usize, 12, 2, 18, 16],
        seq![0usize, 16, 1, 9, 8],
        seq![0usize, 8, 4, 13, 12],
        seq![10usize, 2, 12, 13, 6],
        seq![10usize, 6, 19, 7, 11],
        seq![10usize, 11, 3, 18, 2],
        seq![5usize, 17, 4, 8, 9],
        seq![5usize, 9, 1, 14, 15],
        seq![5usize, 15, 7, 19, 17],
        seq![3usize, 14, 1, 16, 18],
        seq![3usize, 11, 7, 15, 14],
        seq![4usize, 17, 19, 6, 13],
    ]
}

/// The faces of the dodecahedron, as [`dodecahedron_faces`] lists them.
pub fn dodecahedron_polygons() -> (polygons: Vec<Polygon3>)
    ensures
        polygons_view(polygons@) == dodecahedron_faces(),
{
    let mut polygons: Vec<Polygon3> = Vec::new();
    polygons.push(face(&[0, 12, 2, 18, 16]));
    polygons.push(face(&[0, 16, 1, 9, 8]));
    polygons.push(face(&[0, 8, 4, 13, 12]));
    polygons.push(face(&[10, 2, 12, 13, 6]));
    polygons.push(face(&[10, 6, 19, 7, 11]));
    polygons.push(face(&[10, 11, 3, 18, 2]));
    polygons.push(face(&[5, 17, 4, 8, 9]));
    polygons.push(face(&[5, 9, 1, 14, 15]));
    polygons.push(face(&[5, 15, 7, 19, 17]));
    polygons.push(face(&[3, 14, 1, 16, 18]));
    polygons.push(face(&[3, 11, 7, 15, 14]));
    polygons.push(face(&[4, 17, 19, 6, 13]));
    assert(polygons_view(polygons@) =~= dodecahedron_faces());
    polygons
}

/// The faces of each regular polyhedron name only its own vertices: 4 for the
/// tetrahedron, 8 for the hexahedron, 6 for the octahedron, 12 for the icosahedron
/// and 20 for the dodecahedron; and they have 4, 6, 8, 20 and 12 faces.
pub proof fn law_polyhedra_well_formed()
    ensures
        polygons_within(tetrahedron_faces(), 4),
        tetrahedron_faces().len() == 4,
        polygons_within(hexahedron_faces(), 8),
        hexahedron_faces().len() == 6,
        polygons_within(octahedron_faces(), 6),
        octahedron_faces().len() == 8,
        polygons_within(icosahedron_faces(), 12),
        icosahedron_faces().len() == 20,
        polygons_within(dodecahedron_faces(), 20),
        dodecahedron_faces().len() == 12,
{
    assert forall|i: int| 0 <= i < tetrahedron_faces().len() implies indices_within(#[trigger] tetrahedron_faces()[i], 4) by {
        if i == 0 { assert(tetrahedron_faces()[i] =~= seq![0, 1, 2]); }
        if i == 1 { assert(tetrahedron_faces()[i] =~= seq![0, 2, 3]); }
        if i == 2 { assert(tetrahedron_faces()[i] =~= seq![0, 3, 1]); }
        if i == 3 { assert(tetrahedron_faces()[i] =~= seq![1, 3, 2]); }
    }
    assert forall|i: int| 0 <= i < hexahedron_faces().len() implies indices_within(#[trigger] hexahedron_faces()[i], 8) by {
        if i == 0 { assert(hexahedron_faces()[i] =~= seq![0, 1, 2, 3]); }
        if i == 1 { assert(hexahedron_faces()[i] =~= seq![4, 5, 6, 7]); }
        if i == 2 { assert(hexahedron_faces()[i] =~= seq![3, 2, 6, 7]); }
        if i == 3 { assert(hexahedron_faces()[i] =~= seq![0, 1, 5, 4]); }
        if i == 4 { assert(hexahedron_faces()[i] =~= seq![0, 3, 7, 4]); }
        if i == 5 { assert(hexahedron_faces()[i] =~= seq![1, 2, 6, 5]); }
    }
    assert forall|i: int| 0 <= i < octahedron_faces().len() implies indices_within(#[trigger] octahedron_faces()[i], 6) by {
        if i == 0 { assert(octahedron_faces()[i] =~= seq![0, 2, 3]); }
        if i == 1 { assert(octahedron_faces()[i] =~= seq![0, 3, 4]); }
        if i == 2 { assert(octahedron_faces()[i] =~= seq![0, 4, 5]); }
        if i == 3 { assert(octahedron_faces()[i] =~= seq![0, 5, 2]); }
        if i == 4 { assert(octahedron_faces()[i] =~= seq![1, 3, 2]); }
        if i == 5 { assert(octahedron_faces()[i] =~= seq![1, 4, 3]); }
        if i == 6 { assert(octahedron_faces()[i] =~= seq![1, 5, 4]); }
        if i == 7 { assert(octahedron_faces()[i] =~= seq![1, 2, 5]); }
    }
    assert forall|i: int| 0 <= i < icosahedron_faces().len() implies indices_within(#[trigger] icosahedron_faces()[i], 12) by {
        if i == 0 { assert(icosahedron_faces()[i] =~= seq![0, 4, 8]); }
        if i == 1 { assert(icosahedron_faces()[i] =~= seq![0, 8, 2]); }
        if i == 2 { assert(icosahedron_faces()[i] =~= seq![0, 2, 10]); }
        if i == 3 { assert(icosahedron_faces()[i] =~= seq![0, 10, 5]); }
        if i == 4 { assert(icosahedron_faces()[i] =~= seq![0, 5, 4]); }
        if i == 5 { assert(icosahedron_faces()[i] =~= seq![1, 9, 4]); }
        if i == 6 { assert(icosahedron_faces()[i] =~= seq![1, 4, 5]); }
        if i == 7 { assert(icosahedron_faces()[i] =~= seq![1, 5, 11]); }
        if i == 8 { assert(icosahedron_faces()[i] =~= seq![1, 11, 3]); }
        if i == 9 { assert(icosahedron_faces()[i] =~= seq![1, 3, 9]); }
        if i == 10 { assert(icosahedron_faces()[i] =~= seq![4, 9, 8]); }
        if i == 11 { assert(icosahedron_faces()[i] =~= seq![8, 9, 6]); }
        if i == 12 { assert(icosahedron_faces()[i] =~= seq![6, 9, 3]); }
        if i == 13 { assert(icosahedron_faces()[i] =~= seq![11, 5, 10]); }
        if i == 14 { assert(icosahedron_faces()[i] =~= seq![2, 8, 6]); }
        if i == 15 { assert(icosahedron_faces()[i] =~= seq![7, 6, 2]); }
        if i == 16 { assert(icosahedron_faces()[i] =~= seq![7, 6, 3]); }
        if i == 17 { assert(icosahedron_faces()[i] =~= seq![7, 2, 10]); }
        if i == 18 { assert(icosahedron_faces()[i] =~= seq![7, 10, 11]); }
        if i == 19 { assert(icosahedron_faces()[i] =~= seq![7, 11, 3]); }
    }
    assert forall|i: int| 0 <= i < dodecahedron_faces().len() implies indices_within(#[trigger] dodecahedron_faces()[i], 20) by {
        if i == 0 { assert(dodecahedron_faces()[i] =~= seq![0, 12, 2, 18, 16]); }
        if i == 1 { assert(dodecahedron_faces()[i] =~= seq![0, 16, 1, 9, 8]); }
        if i == 2 { assert(dodecahedron_faces()[i] =~= seq![0, 8, 4, 13, 12]); }
        if i == 3 { assert(dodecahedron_faces()[i] =~= seq![10, 2, 12, 13, 6]); }
        if i == 4 { assert(dodecahedron_faces()[i] =~= seq![10, 6, 19, 7, 11]); }
        if i == 5 { assert(dodecahedron_faces()[i] =~= seq![10, 11, 3, 18, 2]); }
        if i == 6 { assert(dodecahedron_faces()[i] =~= seq![5, 17, 4, 8, 9]); }
        if i == 7 { assert(dodecahedron_faces()[i] =~= seq![5, 9, 1, 14, 15]); }
        if i == 8 { assert(dodecahedron_faces()[i] =~= seq![5, 15, 7, 19, 17]); }
        if i == 9 { assert(dodecahedron_faces()[i] =~= seq![3, 14, 1, 16, 18]); }
        if i == 10 { assert(dodecahedron_faces()[i] =~= seq![3, 11, 7, 15, 14]); }
        if i == 11 { assert(dodecahedron_faces()[i] =~= seq![4, 17, 19, 6, 13]); }
    }
}

// ----------------------------------------------------------------------
// Closed surfaces
// ----------------------------------------------------------------------

/// Does the polygon `f`, from its vertex `k` on, have an edge (two consecutive
/// vertices, the last joined to the first) between `a` and `b`?
pub open spec fn has_edge_from(f: Seq<usize>, a: usize, b: usize, k: nat) -> bool
    decreases f.len() - k,
{
    if k >= f.len() {
        false
    } else {
        let next = f[((k + 1) % f.len()) as int];
        (f[k as int] == a && next == b) || (f[k as int] == b && next == a) || has_edge_from(
            f,
            a,
            b,
            k + 1,
        )
    }
}

/// Do the vertex `k` of the polygon `f` and the next one (the first, after the
/// last) join `a` and `b`?
pub open spec fn joins(f: Seq<usize>, k: int, a: usize, b: usize) -> bool {
    let next = f[(k + 1) % (f.len() as int)];
    (f[k] == a && next == b) || (f[k] == b && next == a)
}

/// Does the polygon `f` have an edge between `a` and `b`?
pub open spec fn has_edge(f: Seq<usize>, a: usize, b: usize) -> bool {
    has_edge_from(f, a, b, 0)
}

/// The number of the first `n` faces of `faces` that have an edge between `a` and `b`.
pub open spec fn count_edge(faces: Seq<Seq<usize>>, a: usize, b: usize, n: nat) -> nat
    decreases n,
{
    if n == 0 {
        0
    } else {
        count_edge(faces, a, b, (n - 1) as nat) + if has_edge(faces[n - 1], a, b) {
            1nat
        } else {
            0nat
        }
    }
}

/// The number of faces of `faces` that have an edge between `a` and `b`.
pub open spec fn edge_count(faces: Seq<Seq<usize>>, a: usize, b: usize) -> nat {
    count_edge(faces, a, b, faces.len())
}

/// Does every edge of every face lie on exactly two faces, so that the faces
/// close a surface?
pub open spec fn closed_surface(faces: Seq<Seq<usize>>) -> bool {
    forall|i: int, k: int|
        0 <= i < faces.len() && 0 <= k < faces[i].len() ==> #[trigger] edge_count(
            faces,
            faces[i][k],
            faces[i][(k + 1) % (faces[i].len() as int)],
        ) == 2
}


/// The edges of a polygon of three to five vertices are its pairs of consecutive
/// vertices, the last joined to the first.
proof fn lemma_has_edge(f: Seq<usize>, a: usize, b: usize)
    requires
        3 <= f.len() <= 5,
    ensures
        f.len() == 3 ==> has_edge(f, a, b) == (joins(f, 0, a, b) || joins(f, 1, a, b) || joins(
            f,
            2,
            a,
            b,
        )),
        f.len() == 4 ==> has_edge(f, a, b) == (joins(f, 0, a, b) || joins(f, 1, a, b) || joins(
            f,
            2,
            a,
            b,
        ) || joins(f, 3, a, b)),
        f.len() == 5 ==> has_edge(f, a, b) == (joins(f, 0, a, b) || joins(f, 1, a, b) || joins(
            f,
            2,
            a,
            b,
        ) || joins(f, 3, a, b) || joins(f, 4, a, b)),
{
    reveal_with_fuel(has_edge_from, 6);
}

proof fn lemma_tetrahedron_listed()
    ensures
        tetrahedron_faces().len() == 4,
        tetrahedron_faces()[0] == seq![0usize, 1, 2],
        tetrahedron_faces()[1] == seq![0usize, 2, 3],
        tetrahedron_faces()[2] == seq![0usize, 3, 1],
        tetrahedron_faces()[3] == seq![1usize, 3, 2],
{
    assert(tetrahedron_faces()[0] =~= seq![0usize, 1, 2]);
    assert(tetrahedron_faces()[1] =~= seq![0usize, 2, 3]);
    assert(tetrahedron_faces()[2] =~= seq![0usize, 3, 1]);
    assert(tetrahedron_faces()[3] =~= seq![1usize, 3, 2]);
}

proof fn lemma_tetrahedron_edges(a: usize, b: usize)
    ensures
        has_edge(tetrahedron_faces()[0], a, b) == ((a == 0 && b == 1) || (a == 1 && b == 0) || (a == 1 && b == 2) || (a == 2 && b == 1) || (a == 2 && b == 0) || (a == 0 && b == 2)),
        has_edge(tetrahedron_faces()[1], a, b) == ((a == 0 && b == 2) || (a == 2 && b == 0) || (a == 2 && b == 3) || (a == 3 && b == 2) || (a == 3 && b == 0) || (a == 0 && b == 3)),
        has_edge(tetrahedron_faces()[2], a, b) == ((a == 0 && b == 3) || (a == 3 && b == 0) || (a == 3 && b == 1) || (a == 1 && b == 3) || (a == 1 && b == 0) || (a == 0 && b == 1)),
        has_edge(tetrahedron_faces()[3], a, b) == ((a == 1 && b == 3) || (a == 3 && b == 1) || (a == 3 && b == 2) || (a == 2 && b == 3) || (a == 2 && b == 1) || (a == 1 && b == 2)),
{
    lemma_tetrahedron_listed();
    lemma_has_edge(tetrahedron_faces()[0], a, b);
    lemma_has_edge(tetrahedron_faces()[1], a, b);
    lemma_has_edge(tetrahedron_faces()[2], a, b);
    lemma_has_edge(tetrahedron_faces()[3], a, b);
}

proof fn lemma_tetrahedron_counts()
    ensures
        edge_count(tetrahedron_faces(), 0, 1) == 2,
        edge_count(tetrahedron_faces(), 1, 0) == 2,
        edge_count(tetrahedron_faces(), 1, 2) == 2,
        edge_count(tetrahedron_faces(), 2, 1) == 2,
        edge_count(tetrahedron_faces(), 2, 0) == 2,
        edge_count(tetrahedron_faces(), 0, 2) == 2,
        edge_count(tetrahedron_faces(), 2, 3) == 2,
        edge_count(tetrahedron_faces(), 3, 2) == 2,
        edge_count(tetrahedron_faces(), 3, 0) == 2,
        edge_count(tetrahedron_faces(), 0, 3) == 2,
        edge_count(tetrahedron_faces(), 3, 1) == 2,
        edge_count(tetrahedron_faces(), 1, 3) == 2,
{
    lemma_tetrahedron_listed();
    reveal_with_fuel(count_edge, 5);
    lemma_tetrahedron_edges(0, 1);
    lemma_tetrahedron_edges(1, 0);
    lemma_tetrahedron_edges(1, 2);
    lemma_tetrahedron_edges(2, 1);
    lemma_tetrahedron_edges(2, 0);
    lemma_tetrahedron_edges(0, 2);
    lemma_tetrahedron_edges(2, 3);
    lemma_tetrahedron_edges(3, 2);
    lemma_tetrahedron_edges(3, 0);
    lemma_tetrahedron_edges(0, 3);
    lemma_tetrahedron_edges(3, 1);
    lemma_tetrahedron_edges(1, 3);
}

proof fn lemma_tetrahedron_closed()
    ensures
        closed_surface(tetrahedron_faces()),
{
    lemma_tetrahedron_listed();
    let f = tetrahedron_faces();
    assert forall|i: int, k: int| 0 <= i < f.len() && 0 <= k < f[i].len() implies #[trigger] edge_count(
        f,
        f[i][k],
        f[i][(k + 1) % (f[i].len() as int)],
    ) == 2 by {
        let a = f[i][k];
        let b = f[i][(k + 1) % (f[i].len() as int)];
        lemma_tetrahedron_counts();
        if i == 0 && k == 0 { assert(f[i].len() == 3 && (k + 1) % 3 == 1 && a == 0 && b == 1); }
        if i == 0 && k == 1 { assert(f[i].len() == 3 && (k + 1) % 3 == 2 && a == 1 && b == 2); }
        if i == 0 && k == 2 { assert(f[i].len() == 3 && (k + 1) % 3 == 0 && a == 2 && b == 0); }
        if i == 1 && k == 0 { assert(f[i].len() == 3 && (k + 1) % 3 == 1 && a == 0 && b == 2); }
        if i == 1 && k == 1 { assert(f[i].len() == 3 && (k + 1) % 3 == 2 && a == 2 && b == 3); }
        if i == 1 && k == 2 { assert(f[i].len() == 3 && (k + 1) % 3 == 0 && a == 3 && b == 0); }
        if i == 2 && k == 0 { assert(f[i].len() == 3 && (k + 1) % 3 == 1 && a == 0 && b == 3); }
        if i == 2 && k == 1 { assert(f[i].len() == 3 && (k + 1) % 3 == 2 && a == 3 && b == 1); }
        if i == 2 && k == 2 { assert(f[i].len() == 3 && (k + 1) % 3 == 0 && a == 1 && b == 0); }
        if i == 3 && k == 0 { assert(f[i].len() == 3 && (k + 1) % 3 == 1 && a == 1 && b == 3); }
        if i == 3 && k == 1 { assert(f[i].len() == 3 && (k + 1) % 3 == 2 && a == 3 && b == 2); }
        if i == 3 && k == 2 { assert(f[i].len() == 3 && (k + 1) % 3 == 0 && a == 2 && b == 1); }
    }
}

proof fn lemma_hexahedron_listed()
    ensures
        hexahedron_faces().len() == 6,
        hexahedron_faces()[0] == seq![0usize, 1, 2, 3],
        hexahedron_faces()[1] == seq![4usize, 5, 6, 7],
        hexahedron_faces()[2] == seq![3usize, 2, 6, 7],
        hexahedron_faces()[3] == seq![0usize, 1, 5, 4],
        hexahedron_faces()[4] == seq![0usize, 3, 7, 4],
        hexahedron_faces()[5] == seq![1usize, 2, 6, 5],
{
    assert(hexahedron_faces()[0] =~= seq![0usize, 1, 2, 3]);
    assert(hexahedron_faces()[1] =~= seq![4usize, 5, 6, 7]);
    assert(hexahedron_faces()[2] =~= seq![3usize, 2, 6, 7]);
    assert(hexahedron_faces()[3] =~= seq![0usize, 1, 5, 4]);
    assert(hexahedron_faces()[4] =~= seq![0usize, 3, 7, 4]);
    assert(hexahedron_faces()[5] =~= seq![1usize, 2, 6, 5]);
}

proof fn lemma_hexahedron_edges(a: usize, b: usize)
    ensures
        has_edge(hexahedron_faces()[0], a, b) == ((a == 0 && b == 1) || (a == 1 && b == 0) || (a == 1 && b == 2) || (a == 2 && b == 1) || (a == 2 && b == 3) || (a == 3 && b == 2) || (a == 3 && b == 0) || (a == 0 && b == 3)),
        has_edge(hexahedron_faces()[1], a, b) == ((a == 4 && b == 5) || (a == 5 && b == 4) || (a == 5 && b == 6) || (a == 6 && b == 5) || (a == 6 && b == 7) || (a == 7 && b == 6) || (a == 7 && b == 4) || (a == 4 && b == 7)),
        has_edge(hexahedron_faces()[2], a, b) == ((a == 3 && b == 2) || (a == 2 && b == 3) || (a == 2 && b == 6) || (a == 6 && b == 2) || (a == 6 && b == 7) || (a == 7 && b == 6) || (a == 7 && b == 3) || (a == 3 && b == 7)),
        has_edge(hexahedron_faces()[3], a, b) == ((a == 0 && b == 1) || (a == 1 && b == 0) || (a == 1 && b == 5) || (a == 5 && b == 1) || (a == 5 && b == 4) || (a == 4 && b == 5) || (a == 4 && b == 0) || (a == 0 && b == 4)),
        has_edge(hexahedron_faces()[4], a, b) == ((a == 0 && b == 3) || (a == 3 && b == 0) || (a == 3 && b == 7) || (a == 7 && b == 3) || (a == 7 && b == 4) || (a == 4 && b == 7) || (a == 4 && b == 0) || (a == 0 && b == 4)),
        has_edge(hexahedron_faces()[5], a, b) == ((a == 1 && b == 2) || (a == 2 && b == 1) || (a == 2 && b == 6) || (a == 6 && b == 2) || (a == 6 && b == 5) || (a == 5 && b == 6) || (a == 5 && b == 1) || (a == 1 && b == 5)),
{
    lemma_hexahedron_listed();
    lemma_has_edge(hexahedron_faces()[0], a, b);
    lemma_has_edge(hexahedron_faces()[1], a, b);
    lemma_has_edge(hexahedron_faces()[2], a, b);
    lemma_has_edge(hexahedron_faces()[3], a, b);
    lemma_has_edge(hexahedron_faces()[4], a, b);
    lemma_has_edge(hexahedron_faces()[5], a, b);
}

proof fn lemma_hexahedron_counts()
    ensures
        edge_count(hexahedron_faces(), 0, 1) == 2,
        edge_count(hexahedron_faces(), 1, 0) == 2,
        edge_count(hexahedron_faces(), 1, 2) == 2,
        edge_count(hexahedron_faces(), 2, 1) == 2,
        edge_count(hexahedron_faces(), 2, 3) == 2,
        edge_count(hexahedron_faces(), 3, 2) == 2,
        edge_count(hexahedron_faces(), 3, 0) == 2,
        edge_count(hexahedron_faces(), 0, 3) == 2,
        edge_count(hexahedron_faces(), 4, 5) == 2,
        edge_count(hexahedron_faces(), 5, 4) == 2,
        edge_count(hexahedron_faces(), 5, 6) == 2,
        edge_count(hexahedron_faces(), 6, 5) == 2,
        edge_count(hexahedron_faces(), 6, 7) == 2,
        edge_count(hexahedron_faces(), 7, 6) == 2,
        edge_count(hexahedron_faces(), 7, 4) == 2,
        edge_count(hexahedron_faces(), 4, 7) == 2,
        edge_count(hexahedron_faces(), 2, 6) == 2,
        edge_count(hexahedron_faces(), 6, 2) == 2,
        edge_count(hexahedron_faces(), 7, 3) == 2,
        edge_count(hexahedron_faces(), 3, 7) == 2,
        edge_count(hexahedron_faces(), 1, 5) == 2,
        edge_count(hexahedron_faces(), 5, 1) == 2,
        edge_count(hexahedron_faces(), 4, 0) == 2,
        edge_count(hexahedron_faces(), 0, 4) == 2,
{
    lemma_hexahedron_listed();
    reveal_with_fuel(count_edge, 7);
    lemma_hexahedron_edges(0, 1);
    lemma_hexahedron_edges(1, 0);
    lemma_hexahedron_edges(1, 2);
    lemma_hexahedron_edges(2, 1);
    lemma_hexahedron_edges(2, 3);
    lemma_hexahedron_edges(3, 2);
    lemma_hexahedron_edges(3, 0);
    lemma_hexahedron_edges(0, 3);
    lemma_hexahedron_edges(4, 5);
    lemma_hexahedron_edges(5, 4);
    lemma_hexahedron_edges(5, 6);
    lemma_hexahedron_edges(6, 5);
    lemma_hexahedron_edges(6, 7);
    lemma_hexahedron_edges(7, 6);
    lemma_hexahedron_edges(7, 4);
    lemma_hexahedron_edges(4, 7);
    lemma_hexahedron_edges(2, 6);
    lemma_hexahedron_edges(6, 2);
    lemma_hexahedron_edges(7, 3);
    lemma_hexahedron_edges(3, 7);
    lemma_hexahedron_edges(1, 5);
    lemma_hexahedron_edges(5, 1);
    lemma_hexahedron_edges(4, 0);
    lemma_hexahedron_edges(0, 4);
}

proof fn lemma_hexahedron_closed()
    ensures
        closed_surface(hexahedron_faces()),
{
    lemma_hexahedron_listed();
    let f = hexahedron_faces();
    assert forall|i: int, k: int| 0 <= i < f.len() && 0 <= k < f[i].len() implies #[trigger] edge_count(
        f,
        f[i][k],
        f[i][(k + 1) % (f[i].len() as int)],
    ) == 2 by {
        let a = f[i][k];
        let b = f[i][(k + 1) % (f[i].len() as int)];
        lemma_hexahedron_counts();
        if i == 0 && k == 0 { assert(f[i].len() == 4 && (k + 1) % 4 == 1 && a == 0 && b == 1); }
        if i == 0 && k == 1 { assert(f[i].len() == 4 && (k + 1) % 4 == 2 && a == 1 && b == 2); }
        if i == 0 && k == 2 { assert(f[i].len() == 4 && (k + 1) % 4 == 3 && a == 2 && b == 3); }
        if i == 0 && k == 3 { assert(f[i].len() == 4 && (k + 1) % 4 == 0 && a == 3 && b == 0); }
        if i == 1 && k == 0 { assert(f[i].len() == 4 && (k + 1) % 4 == 1 && a == 4 && b == 5); }
        if i == 1 && k == 1 { assert(f[i].len() == 4 && (k + 1) % 4 == 2 && a == 5 && b == 6); }
        if i == 1 && k == 2 { assert(f[i].len() == 4 && (k + 1) % 4 == 3 && a == 6 && b == 7); }
        if i == 1 && k == 3 { assert(f[i].len() == 4 && (k + 1) % 4 == 0 && a == 7 && b == 4); }
        if i == 2 && k == 0 { assert(f[i].len() == 4 && (k + 1) % 4 == 1 && a == 3 && b == 2); }
        if i == 2 && k == 1 { assert(f[i].len() == 4 && (k + 1) % 4 == 2 && a == 2 && b == 6); }
        if i == 2 && k == 2 { assert(f[i].len() == 4 && (k + 1) % 4 == 3 && a == 6 && b == 7); }
        if i == 2 && k == 3 { assert(f[i].len() == 4 && (k + 1) % 4 == 0 && a == 7 && b == 3); }
        if i == 3 && k == 0 { assert(f[i].len() == 4 && (k + 1) % 4 == 1 && a == 0 && b == 1); }
        if i == 3 && k == 1 { assert(f[i].len() == 4 && (k + 1) % 4 == 2 && a == 1 && b == 5); }
        if i == 3 && k == 2 { assert(f[i].len() == 4 && (k + 1) % 4 == 3 && a == 5 && b == 4); }
        if i == 3 && k == 3 { assert(f[i].len() == 4 && (k + 1) % 4 == 0 && a == 4 && b == 0); }
        if i == 4 && k == 0 { assert(f[i].len() == 4 && (k + 1) % 4 == 1 && a == 0 && b == 3); }
        if i == 4 && k == 1 { assert(f[i].len() == 4 && (k + 1) % 4 == 2 && a == 3 && b == 7); }
        if i == 4 && k == 2 { assert(f[i].len() == 4 && (k + 1) % 4 == 3 && a == 7 && b == 4); }
        if i == 4 && k == 3 { assert(f[i].len() == 4 && (k + 1) % 4 == 0 && a == 4 && b == 0); }
        if i == 5 && k == 0 { assert(f[i].len() == 4 && (k + 1) % 4 == 1 && a == 1 && b == 2); }
        if i == 5 && k == 1 { assert(f[i].len() == 4 && (k + 1) % 4 == 2 && a == 2 && b == 6); }
        if i == 5 && k == 2 { assert(f[i].len() == 4 && (k + 1) % 4 == 3 && a == 6 && b == 5); }
        if i == 5 && k == 3 { assert(f[i].len() == 4 && (k + 1) % 4 == 0 && a == 5 && b == 1); }
    }
}

proof fn lemma_octahedron_listed()
    ensures
        octahedron_faces().len() == 8,
        octahedron_faces()[0] == seq![0usize, 2, 3],
        octahedron_faces()[1] == seq![0usize, 3, 4],
        octahedron_faces()[2] == seq![0usize, 4, 5],
        octahedron_faces()[3] == seq![0usize, 5, 2],
        octahedron_faces()[4] == seq![1usize, 3, 2],
        octahedron_faces()[5] == seq![1usize, 4, 3],
        octahedron_faces()[6] == seq![1usize, 5, 4],
        octahedron_faces()[7] == seq![1usize, 2, 5],
{
    assert(octahedron_faces()[0] =~= seq![0usize, 2, 3]);
    assert(octahedron_faces()[1] =~= seq![0usize, 3, 4]);
    assert(octahedron_faces()[2] =~= seq![0usize, 4, 5]);
    assert(octahedron_faces()[3] =~= seq![0usize, 5, 2]);
    assert(octahedron_faces()[4] =~= seq![1usize, 3, 2]);
    assert(octahedron_faces()[5] =~= seq![1usize, 4, 3]);
    assert(octahedron_faces()[6] =~= seq![1usize, 5, 4]);
    assert(octahedron_faces()[7] =~= seq![1usize, 2, 5]);
}

proof fn lemma_octahedron_edges(a: usize, b: usize)
    ensures
        has_edge(octahedron_faces()[0], a, b) == ((a == 0 && b == 2) || (a == 2 && b == 0) || (a == 2 && b == 3) || (a == 3 && b == 2) || (a == 3 && b == 0) || (a == 0 && b == 3)),
        has_edge(octahedron_faces()[1], a, b) == ((a == 0 && b == 3) || (a == 3 && b == 0) || (a == 3 && b == 4) || (a == 4 && b == 3) || (a == 4 && b == 0) || (a == 0 && b == 4)),
        has_edge(octahedron_faces()[2], a, b) == ((a == 0 && b == 4) || (a == 4 && b == 0) || (a == 4 && b == 5) || (a == 5 && b == 4) || (a == 5 && b == 0) || (a == 0 && b == 5)),
        has_edge(octahedron_faces()[3], a, b) == ((a == 0 && b == 5) || (a == 5 && b == 0) || (a == 5 && b == 2) || (a == 2 && b == 5) || (a == 2 && b == 0) || (a == 0 && b == 2)),
        has_edge(octahedron_faces()[4], a, b) == ((a == 1 && b == 3) || (a == 3 && b == 1) || (a == 3 && b == 2) || (a == 2 && b == 3) || (a == 2 && b == 1) || (a == 1 && b == 2)),
        has_edge(octahedron_faces()[5], a, b) == ((a == 1 && b == 4) || (a == 4 && b == 1) || (a == 4 && b == 3) || (a == 3 && b == 4) || (a == 3 && b == 1) || (a == 1 && b == 3)),
        has_edge(octahedron_faces()[6], a, b) == ((a == 1 && b == 5) || (a == 5 && b == 1) || (a == 5 && b == 4) || (a == 4 && b == 5) || (a == 4 && b == 1) || (a == 1 && b == 4)),
        has_edge(octahedron_faces()[7], a, b) == ((a == 1 && b == 2) || (a == 2 && b == 1) || (a == 2 && b == 5) || (a == 5 && b == 2) || (a == 5 && b == 1) || (a == 1 && b == 5)),
{
    lemma_octahedron_listed();
    lemma_has_edge(octahedron_faces()[0], a, b);
    lemma_has_edge(octahedron_faces()[1], a, b);
    lemma_has_edge(octahedron_faces()[2], a, b);
    lemma_has_edge(octahedron_faces()[3], a, b);
    lemma_has_edge(octahedron_faces()[4], a, b);
    lemma_has_edge(octahedron_faces()[5], a, b);
    lemma_has_edge(octahedron_faces()[6], a, b);
    lemma_has_edge(octahedron_faces()[7], a, b);
}

proof fn lemma_octahedron_counts()
    ensures
        edge_count(octahedron_faces(), 0, 2) == 2,
        edge_count(octahedron_faces(), 2, 0) == 2,
        edge_count(octahedron_faces(), 2, 3) == 2,
        edge_count(octahedron_faces(), 3, 2) == 2,
        edge_count(octahedron_faces(), 3, 0) == 2,
        edge_count(octahedron_faces(), 0, 3) == 2,
        edge_count(octahedron_faces(), 3, 4) == 2,
        edge_count(octahedron_faces(), 4, 3) == 2,
        edge_count(octahedron_faces(), 4, 0) == 2,
        edge_count(octahedron_faces(), 0, 4) == 2,
        edge_count(octahedron_faces(), 4, 5) == 2,
        edge_count(octahedron_faces(), 5, 4) == 2,
        edge_count(octahedron_faces(), 5, 0) == 2,
        edge_count(octahedron_faces(), 0, 5) == 2,
        edge_count(octahedron_faces(), 5, 2) == 2,
        edge_count(octahedron_faces(), 2, 5) == 2,
        edge_count(octahedron_faces(), 1, 3) == 2,
        edge_count(octahedron_faces(), 3, 1) == 2,
        edge_count(octahedron_faces(), 2, 1) == 2,
        edge_count(octahedron_faces(), 1, 2) == 2,
        edge_count(octahedron_faces(), 1, 4) == 2,
        edge_count(octahedron_faces(), 4, 1) == 2,
        edge_count(octahedron_faces(), 1, 5) == 2,
        edge_count(octahedron_faces(), 5, 1) == 2,
{
    lemma_octahedron_listed();
    reveal_with_fuel(count_edge, 9);
    lemma_octahedron_edges(0, 2);
    lemma_octahedron_edges(2, 0);
    lemma_octahedron_edges(2, 3);
    lemma_octahedron_edges(3, 2);
    lemma_octahedron_edges(3, 0);
    lemma_octahedron_edges(0, 3);
    lemma_octahedron_edges(3, 4);
    lemma_octahedron_edges(4, 3);
    lemma_octahedron_edges(4, 0);
    lemma_octahedron_edges(0, 4);
    lemma_octahedron_edges(4, 5);
    lemma_octahedron_edges(5, 4);
    lemma_octahedron_edges(5, 0);
    lemma_octahedron_edges(0, 5);
    lemma_octahedron_edges(5, 2);
    lemma_octahedron_edges(2, 5);
    lemma_octahedron_edges(1, 3);
    lemma_octahedron_edges(3, 1);
    lemma_octahedron_edges(2, 1);
    lemma_octahedron_edges(1, 2);
    lemma_octahedron_edges(1, 4);
    lemma_octahedron_edges(4, 1);
    lemma_octahedron_edges(1, 5);
    lemma_octahedron_edges(5, 1);
}

proof fn lemma_octahedron_closed()
    ensures
        closed_surface(octahedron_faces()),
{
    lemma_octahedron_listed();
    let f = octahedron_faces();
    assert forall|i: int, k: int| 0 <= i < f.len() && 0 <= k < f[i].len() implies #[trigger] edge_count(
        f,
        f[i][k],
        f[i][(k + 1) % (f[i].len() as int)],
    ) == 2 by {
        let a = f[i][k];
        let b = f[i][(k + 1) % (f[i].len() as int)];
        lemma_octahedron_counts();
        if i == 0 && k == 0 { assert(f[i].len() == 3 && (k + 1) % 3 == 1 && a == 0 && b == 2); }
        if i == 0 && k == 1 { assert(f[i].len() == 3 && (k + 1) % 3 == 2 && a == 2 && b == 3); }
        if i == 0 && k == 2 { assert(f[i].len() == 3 && (k + 1) % 3 == 0 && a == 3 && b == 0); }
        if i == 1 && k == 0 { assert(f[i].len() == 3 && (k + 1) % 3 == 1 && a == 0 && b == 3); }
        if i == 1 && k == 1 { assert(f[i].len() == 3 && (k + 1) % 3 == 2 && a == 3 && b == 4); }
        if i == 1 && k == 2 { assert(f[i].len() == 3 && (k + 1) % 3 == 0 && a == 4 && b == 0); }
        if i == 2 && k == 0 { assert(f[i].len() == 3 && (k + 1) % 3 == 1 && a == 0 && b == 4); }
        if i == 2 && k == 1 { assert(f[i].len() == 3 && (k + 1) % 3 == 2 && a == 4 && b == 5); }
        if i == 2 && k == 2 { assert(f[i].len() == 3 && (k + 1) % 3 == 0 && a == 5 && b == 0); }
        if i == 3 && k == 0 { assert(f[i].len() == 3 && (k + 1) % 3 == 1 && a == 0 && b == 5); }
        if i == 3 && k == 1 { assert(f[i].len() == 3 && (k + 1) % 3 == 2 && a == 5 && b == 2); }
        if i == 3 && k == 2 { assert(f[i].len() == 3 && (k + 1) % 3 == 0 && a == 2 && b == 0); }
        if i == 4 && k == 0 { assert(f[i].len() == 3 && (k + 1) % 3 == 1 && a == 1 && b == 3); }
        if i == 4 && k == 1 { assert(f[i].len() == 3 && (k + 1) % 3 == 2 && a == 3 && b == 2); }
        if i == 4 && k == 2 { assert(f[i].len() == 3 && (k + 1) % 3 == 0 && a == 2 && b == 1); }
        if i == 5 && k == 0 { assert(f[i].len() == 3 && (k + 1) % 3 == 1 && a == 1 && b == 4); }
        if i == 5 && k == 1 { assert(f[i].len() == 3 && (k + 1) % 3 == 2 && a == 4 && b == 3); }
        if i == 5 && k == 2 { assert(f[i].len() == 3 && (k + 1) % 3 == 0 && a == 3 && b == 1); }
        if i == 6 && k == 0 { assert(f[i].len() == 3 && (k + 1) % 3 == 1 && a == 1 && b == 5); }
        if i == 6 && k == 1 { assert(f[i].len() == 3 && (k + 1) % 3 == 2 && a == 5 && b == 4); }
        if i == 6 && k == 2 { assert(f[i].len() == 3 && (k + 1) % 3 == 0 && a == 4 && b == 1); }
        if i == 7 && k == 0 { assert(f[i].len() == 3 && (k + 1) % 3 == 1 && a == 1 && b == 2); }
        if i == 7 && k == 1 { assert(f[i].len() == 3 && (k + 1) % 3 == 2 && a == 2 && b == 5); }
        if i == 7 && k == 2 { assert(f[i].len() == 3 && (k + 1) % 3 == 0 && a == 5 && b == 1); }
    }
}

proof fn lemma_icosahedron_listed()
    ensures
        icosahedron_faces().len() == 20,
        icosahedron_faces()[0] == seq![0usize, 4, 8],
        icosahedron_faces()[1] == seq![0usize, 8, 2],
        icosahedron_faces()[2] == seq![0usize, 2, 10],
        icosahedron_faces()[3] == seq![0usize, 10, 5],
        icosahedron_faces()[4] == seq![0usize, 5, 4],
        icosahedron_faces()[5] == seq![1usize, 9, 4],
        icosahedron_faces()[6] == seq![1usize, 4, 5],
        icosahedron_faces()[7] == seq![1usize, 5, 11],
        icosahedron_faces()[8] == seq![1usize, 11, 3],
        icosahedron_faces()[9] == seq![1usize, 3, 9],
        icosahedron_faces()[10] == seq![4usize, 9, 8],
        icosahedron_faces()[11] == seq![8usize, 9, 6],
        icosahedron_faces()[12] == seq![6usize, 9, 3],
        icosahedron_faces()[13] == seq![11usize, 5, 10],
        icosahedron_faces()[14] == seq![2usize, 8, 6],
        icosahedron_faces()[15] == seq![7usize, 6, 2],
        icosahedron_faces()[16] == seq![7usize, 6, 3],
        icosahedron_faces()[17] == seq![7usize, 2, 10],
        icosahedron_faces()[18] == seq![7usize, 10, 11],
        icosahedron_faces()[19] == seq![7usize, 11, 3],
{
    assert(icosahedron_faces()[0] =~= seq![0usize, 4, 8]);
    assert(icosahedron_faces()[1] =~= seq![0usize, 8, 2]);
    assert(icosahedron_faces()[2] =~= seq![0usize, 2, 10]);
    assert(icosahedron_faces()[3] =~= seq![0usize, 10, 5]);
    assert(icosahedron_faces()[4] =~= seq![0usize, 5, 4]);
    assert(icosahedron_faces()[5] =~= seq![1usize, 9, 4]);
    assert(icosahedron_faces()[6] =~= seq![1usize, 4, 5]);
    assert(icosahedron_faces()[7] =~= seq![1usize, 5, 11]);
    assert(icosahedron_faces()[8] =~= seq![1usize, 11, 3]);
    assert(icosahedron_faces()[9] =~= seq![1usize, 3, 9]);
    assert(icosahedron_faces()[10] =~= seq![4usize, 9, 8]);
    assert(icosahedron_faces()[11] =~= seq![8usize, 9, 6]);
    assert(icosahedron_faces()[12] =~= seq![6usize, 9, 3]);
    assert(icosahedron_faces()[13] =~= seq![11usize, 5, 10]);
    assert(icosahedron_faces()[14] =~= seq![2usize, 8, 6]);
    assert(icosahedron_faces()[15] =~= seq![7usize, 6, 2]);
    assert(icosahedron_faces()[16] =~= seq![7usize, 6, 3]);
    assert(icosahedron_faces()[17] =~= seq![7usize, 2, 10]);
    assert(icosahedron_faces()[18] =~= seq![7usize, 10, 11]);
    assert(icosahedron_faces()[19] =~= seq![7usize, 11, 3]);
}

proof fn lemma_icosahedron_edges(a: usize, b: usize)
    ensures
        has_edge(icosahedron_faces()[0], a, b) == ((a == 0 && b == 4) || (a == 4 && b == 0) || (a == 4 && b == 8) || (a == 8 && b == 4) || (a == 8 && b == 0) || (a == 0 && b == 8)),
        has_edge(icosahedron_faces()[1], a, b) == ((a == 0 && b == 8) || (a == 8 && b == 0) || (a == 8 && b == 2) || (a == 2 && b == 8) || (a == 2 && b == 0) || (a == 0 && b == 2)),
        has_edge(icosahedron_faces()[2], a, b) == ((a == 0 && b == 2) || (a == 2 && b == 0) || (a == 2 && b == 10) || (a == 10 && b == 2) || (a == 10 && b == 0) || (a == 0 && b == 10)),
        has_edge(icosahedron_faces()[3], a, b) == ((a == 0 && b == 10) || (a == 10 && b == 0) || (a == 10 && b == 5) || (a == 5 && b == 10) || (a == 5 && b == 0) || (a == 0 && b == 5)),
        has_edge(icosahedron_faces()[4], a, b) == ((a == 0 && b == 5) || (a == 5 && b == 0) || (a == 5 && b == 4) || (a == 4 && b == 5) || (a == 4 && b == 0) || (a == 0 && b == 4)),
        has_edge(icosahedron_faces()[5], a, b) == ((a == 1 && b == 9) || (a == 9 && b == 1) || (a == 9 && b == 4) || (a == 4 && b == 9) || (a == 4 && b == 1) || (a == 1 && b == 4)),
        has_edge(icosahedron_faces()[6], a, b) == ((a == 1 && b == 4) || (a == 4 && b == 1) || (a == 4 && b == 5) || (a == 5 && b == 4) || (a == 5 && b == 1) || (a == 1 && b == 5)),
        has_edge(icosahedron_faces()[7], a, b) == ((a == 1 && b == 5) || (a == 5 && b == 1) || (a == 5 && b == 11) || (a == 11 && b == 5) || (a == 11 && b == 1) || (a == 1 && b == 11)),
        has_edge(icosahedron_faces()[8], a, b) == ((a == 1 && b == 11) || (a == 11 && b == 1) || (a == 11 && b == 3) || (a == 3 && b == 11) || (a == 3 && b == 1) || (a == 1 && b == 3)),
        has_edge(icosahedron_faces()[9], a, b) == ((a == 1 && b == 3) || (a == 3 && b == 1) || (a == 3 && b == 9) || (a == 9 && b == 3) || (a == 9 && b == 1) || (a == 1 && b == 9)),
        has_edge(icosahedron_faces()[10], a, b) == ((a == 4 && b == 9) || (a == 9 && b == 4) || (a == 9 && b == 8) || (a == 8 && b == 9) || (a == 8 && b == 4) || (a == 4 && b == 8)),
        has_edge(icosahedron_faces()[11], a, b) == ((a == 8 && b == 9) || (a == 9 && b == 8) || (a == 9 && b == 6) || (a == 6 && b == 9) || (a == 6 && b == 8) || (a == 8 && b == 6)),
        has_edge(icosahedron_faces()[12], a, b) == ((a == 6 && b == 9) || (a == 9 && b == 6) || (a == 9 && b == 3) || (a == 3 && b == 9) || (a == 3 && b == 6) || (a == 6 && b == 3)),
        has_edge(icosahedron_faces()[13], a, b) == ((a == 11 && b == 5) || (a == 5 && b == 11) || (a == 5 && b == 10) || (a == 10 && b == 5) || (a == 10 && b == 11) || (a == 11 && b == 10)),
        has_edge(icosahedron_faces()[14], a, b) == ((a == 2 && b == 8) || (a == 8 && b == 2) || (a == 8 && b == 6) || (a == 6 && b == 8) || (a == 6 && b == 2) || (a == 2 && b == 6)),
        has_edge(icosahedron_faces()[15], a, b) == ((a == 7 && b == 6) || (a == 6 && b == 7) || (a == 6 && b == 2) || (a == 2 && b == 6) || (a == 2 && b == 7) || (a == 7 && b == 2)),
        has_edge(icosahedron_faces()[16], a, b) == ((a == 7 && b == 6) || (a == 6 && b == 7) || (a == 6 && b == 3) || (a == 3 && b == 6) || (a == 3 && b == 7) || (a == 7 && b == 3)),
        has_edge(icosahedron_faces()[17], a, b) == ((a == 7 && b == 2) || (a == 2 && b == 7) || (a == 2 && b == 10) || (a == 10 && b == 2) || (a == 10 && b == 7) || (a == 7 && b == 10)),
        has_edge(icosahedron_faces()[18], a, b) == ((a == 7 && b == 10) || (a == 10 && b == 7) || (a == 10 && b == 11) || (a == 11 && b == 10) || (a == 11 && b == 7) || (a == 7 && b == 11)),
        has_edge(icosahedron_faces()[19], a, b) == ((a == 7 && b == 11) || (a == 11 && b == 7) || (a == 11 && b == 3) || (a == 3 && b == 11) || (a == 3 && b == 7) || (a == 7 && b == 3)),
{
    lemma_icosahedron_listed();
    lemma_has_edge(icosahedron_faces()[0], a, b);
    lemma_has_edge(icosahedron_faces()[1], a, b);
    lemma_has_edge(icosahedron_faces()[2], a, b);
    lemma_has_edge(icosahedron_faces()[3], a, b);
    lemma_has_edge(icosahedron_faces()[4], a, b);
    lemma_has_edge(icosahedron_faces()[5], a, b);
    lemma_has_edge(icosahedron_faces()[6], a, b);
    lemma_has_edge(icosahedron_faces()[7], a, b);
    lemma_has_edge(icosahedron_faces()[8], a, b);
    lemma_has_edge(icosahedron_faces()[9], a, b);
    lemma_has_edge(icosahedron_faces()[10], a, b);
    lemma_has_edge(icosahedron_faces()[11], a, b);
    lemma_has_edge(icosahedron_faces()[12], a, b);
    lemma_has_edge(icosahedron_faces()[13], a, b);
    lemma_has_edge(icosahedron_faces()[14], a, b);
    lemma_has_edge(icosahedron_faces()[15], a, b);
    lemma_has_edge(icosahedron_faces()[16], a, b);
    lemma_has_edge(icosahedron_faces()[17], a, b);
    lemma_has_edge(icosahedron_faces()[18], a, b);
    lemma_has_edge(icosahedron_faces()[19], a, b);
}

proof fn lemma_icosahedron_counts()
    ensures
        edge_count(icosahedron_faces(), 0, 4) == 2,
        edge_count(icosahedron_faces(), 4, 0) == 2,
        edge_count(icosahedron_faces(), 4, 8) == 2,
        edge_count(icosahedron_faces(), 8, 4) == 2,
        edge_count(icosahedron_faces(), 8, 0) == 2,
        edge_count(icosahedron_faces(), 0, 8) == 2,
        edge_count(icosahedron_faces(), 8, 2) == 2,
        edge_count(icosahedron_faces(), 2, 8) == 2,
        edge_count(icosahedron_faces(), 2, 0) == 2,
        edge_count(icosahedron_faces(), 0, 2) == 2,
        edge_count(icosahedron_faces(), 2, 10) == 2,
        edge_count(icosahedron_faces(), 10, 2) == 2,
        edge_count(icosahedron_faces(), 10, 0) == 2,
        edge_count(icosahedron_faces(), 0, 10) == 2,
        edge_count(icosahedron_faces(), 10, 5) == 2,
        edge_count(icosahedron_faces(), 5, 10) == 2,
        edge_count(icosahedron_faces(), 5, 0) == 2,
        edge_count(icosahedron_faces(), 0, 5) == 2,
        edge_count(icosahedron_faces(), 5, 4) == 2,
        edge_count(icosahedron_faces(), 4, 5) == 2,
        edge_count(icosahedron_faces(), 1, 9) == 2,
        edge_count(icosahedron_faces(), 9, 1) == 2,
        edge_count(icosahedron_faces(), 9, 4) == 2,
        edge_count(icosahedron_faces(), 4, 9) == 2,
        edge_count(icosahedron_faces(), 4, 1) == 2,
        edge_count(icosahedron_faces(), 1, 4) == 2,
        edge_count(icosahedron_faces(), 5, 1) == 2,
        edge_count(icosahedron_faces(), 1, 5) == 2,
        edge_count(icosahedron_faces(), 5, 11) == 2,
        edge_count(icosahedron_faces(), 11, 5) == 2,
        edge_count(icosahedron_faces(), 11, 1) == 2,
        edge_count(icosahedron_faces(), 1, 11) == 2,
        edge_count(icosahedron_faces(), 11, 3) == 2,
        edge_count(icosahedron_faces(), 3, 11) == 2,
        edge_count(icosahedron_faces(), 3, 1) == 2,
        edge_count(icosahedron_faces(), 1, 3) == 2,
        edge_count(icosahedron_faces(), 3, 9) == 2,
        edge_count(icosahedron_faces(), 9, 3) == 2,
        edge_count(icosahedron_faces(), 9, 8) == 2,
        edge_count(icosahedron_faces(), 8, 9) == 2,
        edge_count(icosahedron_faces(), 9, 6) == 2,
        edge_count(icosahedron_faces(), 6, 9) == 2,
        edge_count(icosahedron_faces(), 6, 8) == 2,
        edge_count(icosahedron_faces(), 8, 6) == 2,
        edge_count(icosahedron_faces(), 3, 6) == 2,
        edge_count(icosahedron_faces(), 6, 3) == 2,
        edge_count(icosahedron_faces(), 10, 11) == 2,
        edge_count(icosahedron_faces(), 11, 10) == 2,
        edge_count(icosahedron_faces(), 6, 2) == 2,
        edge_count(icosahedron_faces(), 2, 6) == 2,
        edge_count(icosahedron_faces(), 7, 6) == 2,
        edge_count(icosahedron_faces(), 6, 7) == 2,
        edge_count(icosahedron_faces(), 2, 7) == 2,
        edge_count(icosahedron_faces(), 7, 2) == 2,
        edge_count(icosahedron_faces(), 3, 7) == 2,
        edge_count(icosahedron_faces(), 7, 3) == 2,
        edge_count(icosahedron_faces(), 10, 7) == 2,
        edge_count(icosahedron_faces(), 7, 10) == 2,
        edge_count(icosahedron_faces(), 11, 7) == 2,
        edge_count(icosahedron_faces(), 7, 11) == 2,
{
    lemma_icosahedron_listed();
    reveal_with_fuel(count_edge, 21);
    lemma_icosahedron_edges(0, 4);
    lemma_icosahedron_edges(4, 0);
    lemma_icosahedron_edges(4, 8);
    lemma_icosahedron_edges(8, 4);
    lemma_icosahedron_edges(8, 0);
    lemma_icosahedron_edges(0, 8);
    lemma_icosahedron_edges(8, 2);
    lemma_icosahedron_edges(2, 8);
    lemma_icosahedron_edges(2, 0);
    lemma_icosahedron_edges(0, 2);
    lemma_icosahedron_edges(2, 10);
    lemma_icosahedron_edges(10, 2);
    lemma_icosahedron_edges(10, 0);
    lemma_icosahedron_edges(0, 10);
    lemma_icosahedron_edges(10, 5);
    lemma_icosahedron_edges(5, 10);
    lemma_icosahedron_edges(5, 0);
    lemma_icosahedron_edges(0, 5);
    lemma_icosahedron_edges(5, 4);
    lemma_icosahedron_edges(4, 5);
    lemma_icosahedron_edges(1, 9);
    lemma_icosahedron_edges(9, 1);
    lemma_icosahedron_edges(9, 4);
    lemma_icosahedron_edges(4, 9);
    lemma_icosahedron_edges(4, 1);
    lemma_icosahedron_edges(1, 4);
    lemma_icosahedron_edges(5, 1);
    lemma_icosahedron_edges(1, 5);
    lemma_icosahedron_edges(5, 11);
    lemma_icosahedron_edges(11, 5);
    lemma_icosahedron_edges(11, 1);
    lemma_icosahedron_edges(1, 11);
    lemma_icosahedron_edges(11, 3);
    lemma_icosahedron_edges(3, 11);
    lemma_icosahedron_edges(3, 1);
    lemma_icosahedron_edges(1, 3);
    lemma_icosahedron_edges(3, 9);
    lemma_icosahedron_edges(9, 3);
    lemma_icosahedron_edges(9, 8);
    lemma_icosahedron_edges(8, 9);
    lemma_icosahedron_edges(9, 6);
    lemma_icosahedron_edges(6, 9);
    lemma_icosahedron_edges(6, 8);
    lemma_icosahedron_edges(8, 6);
    lemma_icosahedron_edges(3, 6);
    lemma_icosahedron_edges(6, 3);
    lemma_icosahedron_edges(10, 11);
    lemma_icosahedron_edges(11, 10);
    lemma_icosahedron_edges(6, 2);
    lemma_icosahedron_edges(2, 6);
    lemma_icosahedron_edges(7, 6);
    lemma_icosahedron_edges(6, 7);
    lemma_icosahedron_edges(2, 7);
    lemma_icosahedron_edges(7, 2);
    lemma_icosahedron_edges(3, 7);
    lemma_icosahedron_edges(7, 3);
    lemma_icosahedron_edges(10, 7);
    lemma_icosahedron_edges(7, 10);
    lemma_icosahedron_edges(11, 7);
    lemma_icosahedron_edges(7, 11);
}

proof fn lemma_icosahedron_closed()
    ensures
        closed_surface(icosahedron_faces()),
{
    lemma_icosahedron_listed();
    let f = icosahedron_faces();
    assert forall|i: int, k: int| 0 <= i < f.len() && 0 <= k < f[i].len() implies #[trigger] edge_count(
        f,
        f[i][k],
        f[i][(k + 1) % (f[i].len() as int)],
    ) == 2 by {
        let a = f[i][k];
        let b = f[i][(k + 1) % (f[i].len() as int)];
        lemma_icosahedron_counts();
        if i == 0 && k == 0 { assert(f[i].len() == 3 && (k + 1) % 3 == 1 && a == 0 && b == 4); }
        if i == 0 && k == 1 { assert(f[i].len() == 3 && (k + 1) % 3 == 2 && a == 4 && b == 8); }
        if i == 0 && k == 2 { assert(f[i].len() == 3 && (k + 1) % 3 == 0 && a == 8 && b == 0); }
        if i == 1 && k == 0 { assert(f[i].len() == 3 && (k + 1) % 3 == 1 && a == 0 && b == 8); }
        if i == 1 && k == 1 { assert(f[i].len() == 3 && (k + 1) % 3 == 2 && a == 8 && b == 2); }
        if i == 1 && k == 2 { assert(f[i].len() == 3 && (k + 1) % 3 == 0 && a == 2 && b == 0); }
        if i == 2 && k == 0 { assert(f[i].len() == 3 && (k + 1) % 3 == 1 && a == 0 && b == 2); }
        if i == 2 && k == 1 { assert(f[i].len() == 3 && (k + 1) % 3 == 2 && a == 2 && b == 10); }
        if i == 2 && k == 2 { assert(f[i].len() == 3 && (k + 1) % 3 == 0 && a == 10 && b == 0); }
        if i == 3 && k == 0 { assert(f[i].len() == 3 && (k + 1) % 3 == 1 && a == 0 && b == 10); }
        if i == 3 && k == 1 { assert(f[i].len() == 3 && (k + 1) % 3 == 2 && a == 10 && b == 5); }
        if i == 3 && k == 2 { assert(f[i].len() == 3 && (k + 1) % 3 == 0 && a == 5 && b == 0); }
        if i == 4 && k == 0 { assert(f[i].len() == 3 && (k + 1) % 3 == 1 && a == 0 && b == 5); }
        if i == 4 && k == 1 { assert(f[i].len() == 3 && (k + 1) % 3 == 2 && a == 5 && b == 4); }
        if i == 4 && k == 2 { assert(f[i].len() == 3 && (k + 1) % 3 == 0 && a == 4 && b == 0); }
        if i == 5 && k == 0 { assert(f[i].len() == 3 && (k + 1) % 3 == 1 && a == 1 && b == 9); }
        if i == 5 && k == 1 { assert(f[i].len() == 3 && (k + 1) % 3 == 2 && a == 9 && b == 4); }
        if i == 5 && k == 2 { assert(f[i].len() == 3 && (k + 1) % 3 == 0 && a == 4 && b == 1); }
        if i == 6 && k == 0 { assert(f[i].len() == 3 && (k + 1) % 3 == 1 && a == 1 && b == 4); }
        if i == 6 && k == 1 { assert(f[i].len() == 3 && (k + 1) % 3 == 2 && a == 4 && b == 5); }
        if i == 6 && k == 2 { assert(f[i].len() == 3 && (k + 1) % 3 == 0 && a == 5 && b == 1); }
        if i == 7 && k == 0 { assert(f[i].len() == 3 && (k + 1) % 3 == 1 && a == 1 && b == 5); }
        if i == 7 && k == 1 { assert(f[i].len() == 3 && (k + 1) % 3 == 2 && a == 5 && b == 11); }
        if i == 7 && k == 2 { assert(f[i].len() == 3 && (k + 1) % 3 == 0 && a == 11 && b == 1); }
        if i == 8 && k == 0 { assert(f[i].len() == 3 && (k + 1) % 3 == 1 && a == 1 && b == 11); }
        if i == 8 && k == 1 { assert(f[i].len() == 3 && (k + 1) % 3 == 2 && a == 11 && b == 3); }
        if i == 8 && k == 2 { assert(f[i].len() == 3 && (k + 1) % 3 == 0 && a == 3 && b == 1); }
        if i == 9 && k == 0 { assert(f[i].len() == 3 && (k + 1) % 3 == 1 && a == 1 && b == 3); }
        if i == 9 && k == 1 { assert(f[i].len() == 3 && (k + 1) % 3 == 2 && a == 3 && b == 9); }
        if i == 9 && k == 2 { assert(f[i].len() == 3 && (k + 1) % 3 == 0 && a == 9 && b == 1); }
        if i == 10 && k == 0 { assert(f[i].len() == 3 && (k + 1) % 3 == 1 && a == 4 && b == 9); }
        if i == 10 && k == 1 { assert(f[i].len() == 3 && (k + 1) % 3 == 2 && a == 9 && b == 8); }
        if i == 10 && k == 2 { assert(f[i].len() == 3 && (k + 1) % 3 == 0 && a == 8 && b == 4); }
        if i == 11 && k == 0 { assert(f[i].len() == 3 && (k + 1) % 3 == 1 && a == 8 && b == 9); }
        if i == 11 && k == 1 { assert(f[i].len() == 3 && (k + 1) % 3 == 2 && a == 9 && b == 6); }
        if i == 11 && k == 2 { assert(f[i].len() == 3 && (k + 1) % 3 == 0 && a == 6 && b == 8); }
        if i == 12 && k == 0 { assert(f[i].len() == 3 && (k + 1) % 3 == 1 && a == 6 && b == 9); }
        if i == 12 && k == 1 { assert(f[i].len() == 3 && (k + 1) % 3 == 2 && a == 9 && b == 3); }
        if i == 12 && k == 2 { assert(f[i].len() == 3 && (k + 1) % 3 == 0 && a == 3 && b == 6); }
        if i == 13 && k == 0 { assert(f[i].len() == 3 && (k + 1) % 3 == 1 && a == 11 && b == 5); }
        if i == 13 && k == 1 { assert(f[i].len() == 3 && (k + 1) % 3 == 2 && a == 5 && b == 10); }
        if i == 13 && k == 2 { assert(f[i].len() == 3 && (k + 1) % 3 == 0 && a == 10 && b == 11); }
        if i == 14 && k == 0 { assert(f[i].len() == 3 && (k + 1) % 3 == 1 && a == 2 && b == 8); }
        if i == 14 && k == 1 { assert(f[i].len() == 3 && (k + 1) % 3 == 2 && a == 8 && b == 6); }
        if i == 14 && k == 2 { assert(f[i].len() == 3 && (k + 1) % 3 == 0 && a == 6 && b == 2); }
        if i == 15 && k == 0 { assert(f[i].len() == 3 && (k + 1) % 3 == 1 && a == 7 && b == 6); }
        if i == 15 && k == 1 { assert(f[i].len() == 3 && (k + 1) % 3 == 2 && a == 6 && b == 2); }
        if i == 15 && k == 2 { assert(f[i].len() == 3 && (k + 1) % 3 == 0 && a == 2 && b == 7); }
        if i == 16 && k == 0 { assert(f[i].len() == 3 && (k + 1) % 3 == 1 && a == 7 && b == 6); }
        if i == 16 && k == 1 { assert(f[i].len() == 3 && (k + 1) % 3 == 2 && a == 6 && b == 3); }
        if i == 16 && k == 2 { assert(f[i].len() == 3 && (k + 1) % 3 == 0 && a == 3 && b == 7); }
        if i == 17 && k == 0 { assert(f[i].len() == 3 && (k + 1) % 3 == 1 && a == 7 && b == 2); }
        if i == 17 && k == 1 { assert(f[i].len() == 3 && (k + 1) % 3 == 2 && a == 2 && b == 10); }
        if i == 17 && k == 2 { assert(f[i].len() == 3 && (k + 1) % 3 == 0 && a == 10 && b == 7); }
        if i == 18 && k == 0 { assert(f[i].len() == 3 && (k + 1) % 3 == 1 && a == 7 && b == 10); }
        if i == 18 && k == 1 { assert(f[i].len() == 3 && (k + 1) % 3 == 2 && a == 10 && b == 11); }
        if i == 18 && k == 2 { assert(f[i].len() == 3 && (k + 1) % 3 == 0 && a == 11 && b == 7); }
        if i == 19 && k == 0 { assert(f[i].len() == 3 && (k + 1) % 3 == 1 && a == 7 && b == 11); }
        if i == 19 && k == 1 { assert(f[i].len() == 3 && (k + 1) % 3 == 2 && a == 11 && b == 3); }
        if i == 19 && k == 2 { assert(f[i].len() == 3 && (k + 1) % 3 == 0 && a == 3 && b == 7); }
    }
}

proof fn lemma_dodecahedron_listed()
    ensures
        dodecahedron_faces().len() == 12,
        dodecahedron_faces()[0] == seq![0usize, 12, 2, 18, 16],
        dodecahedron_faces()[1] == seq![0usize, 16, 1, 9, 8],
        dodecahedron_faces()[2] == seq![0usize, 8, 4, 13, 12],
        dodecahedron_faces()[3] == seq![10usize, 2, 12, 13, 6],
        dodecahedron_faces()[4] == seq![10usize, 6, 19, 7, 11],
        dodecahedron_faces()[5] == seq![10usize, 11, 3, 18, 2],
        dodecahedron_faces()[6] == seq![5usize, 17, 4, 8, 9],
        dodecahedron_faces()[7] == seq![5usize, 9, 1, 14, 15],
        dodecahedron_faces()[8] == seq![5usize, 15, 7, 19, 17],
        dodecahedron_faces()[9] == seq![3usize, 14, 1, 16, 18],
        dodecahedron_faces()[10] == seq![3usize, 11, 7, 15, 14],
        dodecahedron_faces()[11] == seq![4usize, 17, 19, 6, 13],
{
    assert(dodecahedron_faces()[0] =~= seq![0usize, 12, 2, 18, 16]);
    assert(dodecahedron_faces()[1] =~= seq![0usize, 16, 1, 9, 8]);
    assert(dodecahedron_faces()[2] =~= seq![0usize, 8, 4, 13, 12]);
    assert(dodecahedron_faces()[3] =~= seq![10usize, 2, 12, 13, 6]);
    assert(dodecahedron_faces()[4] =~= seq![10usize, 6, 19, 7, 11]);
    assert(dodecahedron_faces()[5] =~= seq![10usize, 11, 3, 18, 2]);
    assert(dodecahedron_faces()[6] =~= seq![5usize, 17, 4, 8, 9]);
    assert(dodecahedron_faces()[7] =~= seq![5usize, 9, 1, 14, 15]);
    assert(dodecahedron_faces()[8] =~= seq![5usize, 15, 7, 19, 17]);
    assert(dodecahedron_faces()[9] =~= seq![3usize, 14, 1, 16, 18]);
    assert(dodecahedron_faces()[10] =~= seq![3usize, 11, 7, 15, 14]);
    assert(dodecahedron_faces()[11] =~= seq![4usize, 17, 19, 6, 13]);
}

proof fn lemma_dodecahedron_edges(a: usize, b: usize)
    ensures
        has_edge(dodecahedron_faces()[0], a, b) == ((a == 0 && b == 12) || (a == 12 && b == 0) || (a == 12 && b == 2) || (a == 2 && b == 12) || (a == 2 && b == 18) || (a == 18 && b == 2) || (a == 18 && b == 16) || (a == 16 && b == 18) || (a == 16 && b == 0) || (a == 0 && b == 16)),
        has_edge(dodecahedron_faces()[1], a, b) == ((a == 0 && b == 16) || (a == 16 && b == 0) || (a == 16 && b == 1) || (a == 1 && b == 16) || (a == 1 && b == 9) || (a == 9 && b == 1) || (a == 9 && b == 8) || (a == 8 && b == 9) || (a == 8 && b == 0) || (a == 0 && b == 8)),
        has_edge(dodecahedron_faces()[2], a, b) == ((a == 0 && b == 8) || (a == 8 && b == 0) || (a == 8 && b == 4) || (a == 4 && b == 8) || (a == 4 && b == 13) || (a == 13 && b == 4) || (a == 13 && b == 12) || (a == 12 && b == 13) || (a == 12 && b == 0) || (a == 0 && b == 12)),
        has_edge(dodecahedron_faces()[3], a, b) == ((a == 10 && b == 2) || (a == 2 && b == 10) || (a == 2 && b == 12) || (a == 12 && b == 2) || (a == 12 && b == 13) || (a == 13 && b == 12) || (a == 13 && b == 6) || (a == 6 && b == 13) || (a == 6 && b == 10) || (a == 10 && b == 6)),
        has_edge(dodecahedron_faces()[4], a, b) == ((a == 10 && b == 6) || (a == 6 && b == 10) || (a == 6 && b == 19) || (a == 19 && b == 6) || (a == 19 && b == 7) || (a == 7 && b == 19) || (a == 7 && b == 11) || (a == 11 && b == 7) || (a == 11 && b == 10) || (a == 10 && b == 11)),
        has_edge(dodecahedron_faces()[5], a, b) == ((a == 10 && b == 11) || (a == 11 && b == 10) || (a == 11 && b == 3) || (a == 3 && b == 11) || (a == 3 && b == 18) || (a == 18 && b == 3) || (a == 18 && b == 2) || (a == 2 && b == 18) || (a == 2 && b == 10) || (a == 10 && b == 2)),
        has_edge(dodecahedron_faces()[6], a, b) == ((a == 5 && b == 17) || (a == 17 && b == 5) || (a == 17 && b == 4) || (a == 4 && b == 17) || (a == 4 && b == 8) || (a == 8 && b == 4) || (a == 8 && b == 9) || (a == 9 && b == 8) || (a == 9 && b == 5) || (a == 5 && b == 9)),
        has_edge(dodecahedron_faces()[7], a, b) == ((a == 5 && b == 9) || (a == 9 && b == 5) || (a == 9 && b == 1) || (a == 1 && b == 9) || (a == 1 && b == 14) || (a == 14 && b == 1) || (a == 14 && b == 15) || (a == 15 && b == 14) || (a == 15 && b == 5) || (a == 5 && b == 15)),
        has_edge(dodecahedron_faces()[8], a, b) == ((a == 5 && b == 15) || (a == 15 && b == 5) || (a == 15 && b == 7) || (a == 7 && b == 15) || (a == 7 && b == 19) || (a == 19 && b == 7) || (a == 19 && b == 17) || (a == 17 && b == 19) || (a == 17 && b == 5) || (a == 5 && b == 17)),
        has_edge(dodecahedron_faces()[9], a, b) == ((a == 3 && b == 14) || (a == 14 && b == 3) || (a == 14 && b == 1) || (a == 1 && b == 14) || (a == 1 && b == 16) || (a == 16 && b == 1) || (a == 16 && b == 18) || (a == 18 && b == 16) || (a == 18 && b == 3) || (a == 3 && b == 18)),
        has_edge(dodecahedron_faces()[10], a, b) == ((a == 3 && b == 11) || (a == 11 && b == 3) || (a == 11 && b == 7) || (a == 7 && b == 11) || (a == 7 && b == 15) || (a == 15 && b == 7) || (a == 15 && b == 14) || (a == 14 && b == 15) || (a == 14 && b == 3) || (a == 3 && b == 14)),
        has_edge(dodecahedron_faces()[11], a, b) == ((a == 4 && b == 17) || (a == 17 && b == 4) || (a == 17 && b == 19) || (a == 19 && b == 17) || (a == 19 && b == 6) || (a == 6 && b == 19) || (a == 6 && b == 13) || (a == 13 && b == 6) || (a == 13 && b == 4) || (a == 4 && b == 13)),
{
    lemma_dodecahedron_listed();
    lemma_has_edge(dodecahedron_faces()[0], a, b);
    lemma_has_edge(dodecahedron_faces()[1], a, b);
    lemma_has_edge(dodecahedron_faces()[2], a, b);
    lemma_has_edge(dodecahedron_faces()[3], a, b);
    lemma_has_edge(dodecahedron_faces()[4], a, b);
    lemma_has_edge(dodecahedron_faces()[5], a, b);
    lemma_has_edge(dodecahedron_faces()[6], a, b);
    lemma_has_edge(dodecahedron_faces()[7], a, b);
    lemma_has_edge(dodecahedron_faces()[8], a, b);
    lemma_has_edge(dodecahedron_faces()[9], a, b);
    lemma_has_edge(dodecahedron_faces()[10], a, b);
    lemma_has_edge(dodecahedron_faces()[11], a, b);
}

proof fn lemma_dodecahedron_counts()
    ensures
        edge_count(dodecahedron_faces(), 0, 12) == 2,
        edge_count(dodecahedron_faces(), 12, 0) == 2,
        edge_count(dodecahedron_faces(), 12, 2) == 2,
        edge_count(dodecahedron_faces(), 2, 12) == 2,
        edge_count(dodecahedron_faces(), 2, 18) == 2,
        edge_count(dodecahedron_faces(), 18, 2) == 2,
        edge_count(dodecahedron_faces(), 18, 16) == 2,
        edge_count(dodecahedron_faces(), 16, 18) == 2,
        edge_count(dodecahedron_faces(), 16, 0) == 2,
        edge_count(dodecahedron_faces(), 0, 16) == 2,
        edge_count(dodecahedron_faces(), 16, 1) == 2,
        edge_count(dodecahedron_faces(), 1, 16) == 2,
        edge_count(dodecahedron_faces(), 1, 9) == 2,
        edge_count(dodecahedron_faces(), 9, 1) == 2,
        edge_count(dodecahedron_faces(), 9, 8) == 2,
        edge_count(dodecahedron_faces(), 8, 9) == 2,
        edge_count(dodecahedron_faces(), 8, 0) == 2,
        edge_count(dodecahedron_faces(), 0, 8) == 2,
        edge_count(dodecahedron_faces(), 8, 4) == 2,
        edge_count(dodecahedron_faces(), 4, 8) == 2,
        edge_count(dodecahedron_faces(), 4, 13) == 2,
        edge_count(dodecahedron_faces(), 13, 4) == 2,
        edge_count(dodecahedron_faces(), 13, 12) == 2,
        edge_count(dodecahedron_faces(), 12, 13) == 2,
        edge_count(dodecahedron_faces(), 10, 2) == 2,
        edge_count(dodecahedron_faces(), 2, 10) == 2,
        edge_count(dodecahedron_faces(), 13, 6) == 2,
        edge_count(dodecahedron_faces(), 6, 13) == 2,
        edge_count(dodecahedron_faces(), 6, 10) == 2,
        edge_count(dodecahedron_faces(), 10, 6) == 2,
        edge_count(dodecahedron_faces(), 6, 19) == 2,
        edge_count(dodecahedron_faces(), 19, 6) == 2,
        edge_count(dodecahedron_faces(), 19, 7) == 2,
        edge_count(dodecahedron_faces(), 7, 19) == 2,
        edge_count(dodecahedron_faces(), 7, 11) == 2,
        edge_count(dodecahedron_faces(), 11, 7) == 2,
        edge_count(dodecahedron_faces(), 11, 10) == 2,
        edge_count(dodecahedron_faces(), 10, 11) == 2,
        edge_count(dodecahedron_faces(), 11, 3) == 2,
        edge_count(dodecahedron_faces(), 3, 11) == 2,
        edge_count(dodecahedron_faces(), 3, 18) == 2,
        edge_count(dodecahedron_faces(), 18, 3) == 2,
        edge_count(dodecahedron_faces(), 5, 17) == 2,
        edge_count(dodecahedron_faces(), 17, 5) == 2,
        edge_count(dodecahedron_faces(), 17, 4) == 2,
        edge_count(dodecahedron_faces(), 4, 17) == 2,
        edge_count(dodecahedron_faces(), 9, 5) == 2,
        edge_count(dodecahedron_faces(), 5, 9) == 2,
        edge_count(dodecahedron_faces(), 1, 14) == 2,
        edge_count(dodecahedron_faces(), 14, 1) == 2,
        edge_count(dodecahedron_faces(), 14, 15) == 2,
        edge_count(dodecahedron_faces(), 15, 14) == 2,
        edge_count(dodecahedron_faces(), 15, 5) == 2,
        edge_count(dodecahedron_faces(), 5, 15) == 2,
        edge_count(dodecahedron_faces(), 15, 7) == 2,
        edge_count(dodecahedron_faces(), 7, 15) == 2,
        edge_count(dodecahedron_faces(), 19, 17) == 2,
        edge_count(dodecahedron_faces(), 17, 19) == 2,
        edge_count(dodecahedron_faces(), 3, 14) == 2,
        edge_count(dodecahedron_faces(), 14, 3) == 2,
{
    lemma_dodecahedron_listed();
    reveal_with_fuel(count_edge, 13);
    lemma_dodecahedron_edges(0, 12);
    lemma_dodecahedron_edges(12, 0);
    lemma_dodecahedron_edges(12, 2);
    lemma_dodecahedron_edges(2, 12);
    lemma_dodecahedron_edges(2, 18);
    lemma_dodecahedron_edges(18, 2);
    lemma_dodecahedron_edges(18, 16);
    lemma_dodecahedron_edges(16, 18);
    lemma_dodecahedron_edges(16, 0);
    lemma_dodecahedron_edges(0, 16);
    lemma_dodecahedron_edges(16, 1);
    lemma_dodecahedron_edges(1, 16);
    lemma_dodecahedron_edges(1, 9);
    lemma_dodecahedron_edges(9, 1);
    lemma_dodecahedron_edges(9, 8);
    lemma_dodecahedron_edges(8, 9);
    lemma_dodecahedron_edges(8, 0);
    lemma_dodecahedron_edges(0, 8);
    lemma_dodecahedron_edges(8, 4);
    lemma_dodecahedron_edges(4, 8);
    lemma_dodecahedron_edges(4, 13);
    lemma_dodecahedron_edges(13, 4);
    lemma_dodecahedron_edges(13, 12);
    lemma_dodecahedron_edges(12, 13);
    lemma_dodecahedron_edges(10, 2);
    lemma_dodecahedron_edges(2, 10);
    lemma_dodecahedron_edges(13, 6);
    lemma_dodecahedron_edges(6, 13);
    lemma_dodecahedron_edges(6, 10);
    lemma_dodecahedron_edges(10, 6);
    lemma_dodecahedron_edges(6, 19);
    lemma_dodecahedron_edges(19, 6);
    lemma_dodecahedron_edges(19, 7);
    lemma_dodecahedron_edges(7, 19);
    lemma_dodecahedron_edges(7, 11);
    lemma_dodecahedron_edges(11, 7);
    lemma_dodecahedron_edges(11, 10);
    lemma_dodecahedron_edges(10, 11);
    lemma_dodecahedron_edges(11, 3);
    lemma_dodecahedron_edges(3, 11);
    lemma_dodecahedron_edges(3, 18);
    lemma_dodecahedron_edges(18, 3);
    lemma_dodecahedron_edges(5, 17);
    lemma_dodecahedron_edges(17, 5);
    lemma_dodecahedron_edges(17, 4);
    lemma_dodecahedron_edges(4, 17);
    lemma_dodecahedron_edges(9, 5);
    lemma_dodecahedron_edges(5, 9);
    lemma_dodecahedron_edges(1, 14);
    lemma_dodecahedron_edges(14, 1);
    lemma_dodecahedron_edges(14, 15);
    lemma_dodecahedron_edges(15, 14);
    lemma_dodecahedron_edges(15, 5);
    lemma_dodecahedron_edges(5, 15);
    lemma_dodecahedron_edges(15, 7);
    lemma_dodecahedron_edges(7, 15);
    lemma_dodecahedron_edges(19, 17);
    lemma_dodecahedron_edges(17, 19);
    lemma_dodecahedron_edges(3, 14);
    lemma_dodecahedron_edges(14, 3);
}

proof fn lemma_dodecahedron_closed()
    ensures
        closed_surface(dodecahedron_faces()),
{
    lemma_dodecahedron_listed();
    let f = dodecahedron_faces();
    assert forall|i: int, k: int| 0 <= i < f.len() && 0 <= k < f[i].len() implies #[trigger] edge_count(
        f,
        f[i][k],
        f[i][(k + 1) % (f[i].len() as int)],
    ) == 2 by {
        let a = f[i][k];
        let b = f[i][(k + 1) % (f[i].len() as int)];
        lemma_dodecahedron_counts();
        if i == 0 && k == 0 { assert(f[i].len() == 5 && (k + 1) % 5 == 1 && a == 0 && b == 12); }
        if i == 0 && k == 1 { assert(f[i].len() == 5 && (k + 1) % 5 == 2 && a == 12 && b == 2); }
        if i == 0 && k == 2 { assert(f[i].len() == 5 && (k + 1) % 5 == 3 && a == 2 && b == 18); }
        if i == 0 && k == 3 { assert(f[i].len() == 5 && (k + 1) % 5 == 4 && a == 18 && b == 16); }
        if i == 0 && k == 4 { assert(f[i].len() == 5 && (k + 1) % 5 == 0 && a == 16 && b == 0); }
        if i == 1 && k == 0 { assert(f[i].len() == 5 && (k + 1) % 5 == 1 && a == 0 && b == 16); }
        if i == 1 && k == 1 { assert(f[i].len() == 5 && (k + 1) % 5 == 2 && a == 16 && b == 1); }
        if i == 1 && k == 2 { assert(f[i].len() == 5 && (k + 1) % 5 == 3 && a == 1 && b == 9); }
        if i == 1 && k == 3 { assert(f[i].len() == 5 && (k + 1) % 5 == 4 && a == 9 && b == 8); }
        if i == 1 && k == 4 { assert(f[i].len() == 5 && (k + 1) % 5 == 0 && a == 8 && b == 0); }
        if i == 2 && k == 0 { assert(f[i].len() == 5 && (k + 1) % 5 == 1 && a == 0 && b == 8); }
        if i == 2 && k == 1 { assert(f[i].len() == 5 && (k + 1) % 5 == 2 && a == 8 && b == 4); }
        if i == 2 && k == 2 { assert(f[i].len() == 5 && (k + 1) % 5 == 3 && a == 4 && b == 13); }
        if i == 2 && k == 3 { assert(f[i].len() == 5 && (k + 1) % 5 == 4 && a == 13 && b == 12); }
        if i == 2 && k == 4 { assert(f[i].len() == 5 && (k + 1) % 5 == 0 && a == 12 && b == 0); }
        if i == 3 && k == 0 { assert(f[i].len() == 5 && (k + 1) % 5 == 1 && a == 10 && b == 2); }
        if i == 3 && k == 1 { assert(f[i].len() == 5 && (k + 1) % 5 == 2 && a == 2 && b == 12); }
        if i == 3 && k == 2 { assert(f[i].len() == 5 && (k + 1) % 5 == 3 && a == 12 && b == 13); }
        if i == 3 && k == 3 { assert(f[i].len() == 5 && (k + 1) % 5 == 4 && a == 13 && b == 6); }
        if i == 3 && k == 4 { assert(f[i].len() == 5 && (k + 1) % 5 == 0 && a == 6 && b == 10); }
        if i == 4 && k == 0 { assert(f[i].len() == 5 && (k + 1) % 5 == 1 && a == 10 && b == 6); }
        if i == 4 && k == 1 { assert(f[i].len() == 5 && (k + 1) % 5 == 2 && a == 6 && b == 19); }
        if i == 4 && k == 2 { assert(f[i].len() == 5 && (k + 1) % 5 == 3 && a == 19 && b == 7); }
        if i == 4 && k == 3 { assert(f[i].len() == 5 && (k + 1) % 5 == 4 && a == 7 && b == 11); }
        if i == 4 && k == 4 { assert(f[i].len() == 5 && (k + 1) % 5 == 0 && a == 11 && b == 10); }
        if i == 5 && k == 0 { assert(f[i].len() == 5 && (k + 1) % 5 == 1 && a == 10 && b == 11); }
        if i == 5 && k == 1 { assert(f[i].len() == 5 && (k + 1) % 5 == 2 && a == 11 && b == 3); }
        if i == 5 && k == 2 { assert(f[i].len() == 5 && (k + 1) % 5 == 3 && a == 3 && b == 18); }
        if i == 5 && k == 3 { assert(f[i].len() == 5 && (k + 1) % 5 == 4 && a == 18 && b == 2); }
        if i == 5 && k == 4 { assert(f[i].len() == 5 && (k + 1) % 5 == 0 && a == 2 && b == 10); }
        if i == 6 && k == 0 { assert(f[i].len() == 5 && (k + 1) % 5 == 1 && a == 5 && b == 17); }
        if i == 6 && k == 1 { assert(f[i].len() == 5 && (k + 1) % 5 == 2 && a == 17 && b == 4); }
        if i == 6 && k == 2 { assert(f[i].len() == 5 && (k + 1) % 5 == 3 && a == 4 && b == 8); }
        if i == 6 && k == 3 { assert(f[i].len() == 5 && (k + 1) % 5 == 4 && a == 8 && b == 9); }
        if i == 6 && k == 4 { assert(f[i].len() == 5 && (k + 1) % 5 == 0 && a == 9 && b == 5); }
        if i == 7 && k == 0 { assert(f[i].len() == 5 && (k + 1) % 5 == 1 && a == 5 && b == 9); }
        if i == 7 && k == 1 { assert(f[i].len() == 5 && (k + 1) % 5 == 2 && a == 9 && b == 1); }
        if i == 7 && k == 2 { assert(f[i].len() == 5 && (k + 1) % 5 == 3 && a == 1 && b == 14); }
        if i == 7 && k == 3 { assert(f[i].len() == 5 && (k + 1) % 5 == 4 && a == 14 && b == 15); }
        if i == 7 && k == 4 { assert(f[i].len() == 5 && (k + 1) % 5 == 0 && a == 15 && b == 5); }
        if i == 8 && k == 0 { assert(f[i].len() == 5 && (k + 1) % 5 == 1 && a == 5 && b == 15); }
        if i == 8 && k == 1 { assert(f[i].len() == 5 && (k + 1) % 5 == 2 && a == 15 && b == 7); }
        if i == 8 && k == 2 { assert(f[i].len() == 5 && (k + 1) % 5 == 3 && a == 7 && b == 19); }
        if i == 8 && k == 3 { assert(f[i].len() == 5 && (k + 1) % 5 == 4 && a == 19 && b == 17); }
        if i == 8 && k == 4 { assert(f[i].len() == 5 && (k + 1) % 5 == 0 && a == 17 && b == 5); }
        if i == 9 && k == 0 { assert(f[i].len() == 5 && (k + 1) % 5 == 1 && a == 3 && b == 14); }
        if i == 9 && k == 1 { assert(f[i].len() == 5 && (k + 1) % 5 == 2 && a == 14 && b == 1); }
        if i == 9 && k == 2 { assert(f[i].len() == 5 && (k + 1) % 5 == 3 && a == 1 && b == 16); }
        if i == 9 && k == 3 { assert(f[i].len() == 5 && (k + 1) % 5 == 4 && a == 16 && b == 18); }
        if i == 9 && k == 4 { assert(f[i].len() == 5 && (k + 1) % 5 == 0 && a == 18 && b == 3); }
        if i == 10 && k == 0 { assert(f[i].len() == 5 && (k + 1) % 5 == 1 && a == 3 && b == 11); }
        if i == 10 && k == 1 { assert(f[i].len() == 5 && (k + 1) % 5 == 2 && a == 11 && b == 7); }
        if i == 10 && k == 2 { assert(f[i].len() == 5 && (k + 1) % 5 == 3 && a == 7 && b == 15); }
        if i == 10 && k == 3 { assert(f[i].len() == 5 && (k + 1) % 5 == 4 && a == 15 && b == 14); }
        if i == 10 && k == 4 { assert(f[i].len() == 5 && (k + 1) % 5 == 0 && a == 14 && b == 3); }
        if i == 11 && k == 0 { assert(f[i].len() == 5 && (k + 1) % 5 == 1 && a == 4 && b == 17); }
        if i == 11 && k == 1 { assert(f[i].len() == 5 && (k + 1) % 5 == 2 && a == 17 && b == 19); }
        if i == 11 && k == 2 { assert(f[i].len() == 5 && (k + 1) % 5 == 3 && a == 19 && b == 6); }
        if i == 11 && k == 3 { assert(f[i].len() == 5 && (k + 1) % 5 == 4 && a == 6 && b == 13); }
        if i == 11 && k == 4 { assert(f[i].len() == 5 && (k + 1) % 5 == 0 && a == 13 && b == 4); }
    }
}

/// Each regular polyhedron is a closed surface: every edge of every face lies on
/// exactly two faces.
pub proof fn law_polyhedra_closed()
    ensures
        closed_surface(tetrahedron_faces()),
        closed_surface(hexahedron_faces()),
        closed_surface(octahedron_faces()),
        closed_surface(icosahedron_faces()),
        closed_surface(dodecahedron_faces()),
{
    lemma_tetrahedron_closed();
    lemma_hexahedron_closed();
    lemma_octahedron_closed();
    lemma_icosahedron_closed();
    lemma_dodecahedron_closed();
}

} // verus!
