//! The topology of meshes: which vertices each polygon joins.
//!
//! A mesh is well formed when every polygon names only vertices that the mesh has.
//! The functions here check that, cut polygons into triangles, and build the
//! polygon lists of the generated models (bodies of revolution, function graphs and
//! the regular polyhedra).

use vstd::prelude::*;
use crate::polygon::Polygon3;
use crate::obj::polygons_view;

verus! {

/// Do all indices of the polygon `p` name one of `n` vertices?
pub open spec fn indices_within(p: Seq<usize>, n: nat) -> bool {
    forall|j: int| 0 <= j < p.len() ==> #[trigger] p[j] < n
}

/// Do all polygons of `ps` name only vertices among `n`?
pub open spec fn polygons_within(ps: Seq<Seq<usize>>, n: nat) -> bool {
    forall|i: int| 0 <= i < ps.len() ==> indices_within(#[trigger] ps[i], n)
}

/// Check that every polygon names only vertices among the first `vertex_count`.
///
/// A mesh whose polygons fail this check refers to vertices that do not exist.
pub fn polygons_valid(vertex_count: usize, polygons: &Vec<Polygon3>) -> (b: bool)
    ensures
        b == polygons_within(polygons_view(polygons@), vertex_count as nat),
{
    let ghost ps = polygons_view(polygons@);
    let mut i: usize = 0;
    while i < polygons.len()
        invariant
            i <= polygons@.len(),
            ps == polygons_view(polygons@),
            forall|k: int| 0 <= k < i ==> indices_within(#[trigger] ps[k], vertex_count as nat),
        decreases polygons@.len() - i,
    {
        let p = polygons[i].get_vertexes();
        assert(p@ == ps[i as int]);
        let mut j: usize = 0;
        while j < p.len()
            invariant
                j <= p@.len(),
                i < polygons@.len(),
                ps == polygons_view(polygons@),
                p@ == ps[i as int],
                forall|k: int| 0 <= k < j ==> #[trigger] p@[k] < vertex_count,
            decreases p@.len() - j,
        {
            if p[j] >= vertex_count {
                assert(ps[i as int][j as int] >= vertex_count);
                assert(!indices_within(ps[i as int], vertex_count as nat));
                return false;
            }
            j += 1;
        }
        assert(indices_within(ps[i as int], vertex_count as nat));
        i += 1;
    }
    true
}

/// The fan triangulation of the polygon `p`: its first vertex joined with each
/// pair of consecutive later vertices.
pub open spec fn fan_triangles(p: Seq<usize>) -> Seq<[usize; 3]> {
    Seq::new(
        (if p.len() >= 2 { p.len() - 2 } else { 0 }) as nat,
        |k: int| [p[0], p[k + 1], p[k + 2]],
    )
}

/// Cut a polygon, given by its vertex indices, into triangles: the fan from its
/// first vertex. A polygon of `n >= 2` vertices gives `n - 2` triangles.
pub fn triangulate_polygon(polygon: &[usize]) -> (triangles: Vec<[usize; 3]>)
    requires
        polygon@.len() >= 1,
    ensures
        triangles@ == fan_triangles(polygon@),
{
    let mut triangles: Vec<[usize; 3]> = Vec::new();
    let mut i: usize = 1;
    while i < polygon.len() - 1
        invariant
            1 <= i,
            polygon@.len() >= 1,
            i + 1 <= polygon@.len() || i == 1,
            triangles@ =~= fan_triangles(polygon@).take(i - 1),
            i - 1 <= fan_triangles(polygon@).len(),
        decreases polygon@.len() - i,
    {
        triangles.push([polygon[0], polygon[i], polygon[i + 1]]);
        i += 1;
        assert(triangles@ =~= fan_triangles(polygon@).take(i - 1));
    }
    assert(fan_triangles(polygon@).take(i - 1) =~= fan_triangles(polygon@));
    triangles
}

/// The fan of a polygon with `k >= 2` vertices has `k - 2` triangles, each made
/// of the first vertex and two consecutive later ones, so a polygon that names only
/// vertices of the mesh is cut into triangles that do too.
pub proof fn law_fan_triangles(p: Seq<usize>, n: nat)
    requires
        p.len() >= 2,
    ensures
        fan_triangles(p).len() == p.len() - 2,
        forall|k: int|
            0 <= k < fan_triangles(p).len() ==> #[trigger] fan_triangles(p)[k] == [
                p[0],
                p[k + 1],
                p[k + 2],
            ],
        indices_within(p, n) ==> forall|k: int, c: int|
            0 <= k < fan_triangles(p).len() && 0 <= c < 3 ==> #[trigger] fan_triangles(p)[k][c] < n,
{
    if indices_within(p, n) {
        assert forall|k: int, c: int|
            0 <= k < fan_triangles(p).len() && 0 <= c < 3 implies #[trigger] fan_triangles(p)[k][c]
            < n by {
            let t = fan_triangles(p)[k];
            assert(t == [p[0], p[k + 1], p[k + 2]]);
            assert(p[0] < n && p[k + 1] < n && p[k + 2] < n);
            assert(t@ == seq![p[0], p[k + 1], p[k + 2]]);
        }
    }
}

// ----------------------------------------------------------------------
// Bodies of revolution
// ----------------------------------------------------------------------

/// The side quad of a body of revolution between profile ring `p` and ring
/// `p + 1`, at segment `s` of `parts`. Ring `p` holds the vertices
/// `p * parts .. (p + 1) * parts`, one per rotation step.
pub open spec fn rotation_quad(p: nat, s: nat, parts: nat) -> Seq<usize> {
    let cur: nat = p * parts;
    let next: nat = (p + 1) * parts;
    seq![
        (cur + s) as usize,
        (cur + (s + 1) % parts) as usize,
        (next + (s + 1) % parts) as usize,
        (next + s) as usize,
    ]
}

/// The quads between ring `p` and ring `p + 1`, one per segment, in order.
pub open spec fn ring_quads(p: nat, parts: nat) -> Seq<Seq<usize>> {
    Seq::new(parts, |s: int| rotation_quad(p, s as nat, parts))
}

/// The side quads of the first `rings` rings, ring by ring.
pub open spec fn side_quads(rings: nat, parts: nat) -> Seq<Seq<usize>>
    decreases rings,
{
    if rings == 0 {
        seq![]
    } else {
        side_quads((rings - 1) as nat, parts) + ring_quads((rings - 1) as nat, parts)
    }
}

/// The cap over the first profile ring: its vertices in rotation order.
pub open spec fn bottom_cap(parts: nat) -> Seq<usize> {
    Seq::new(parts, |i: int| i as usize)
}

/// The cap over the last profile ring: its vertices in reverse rotation order,
/// so that its normal points outwards.
pub open spec fn top_cap(profile_count: nat, parts: nat) -> Seq<usize> {
    Seq::new(parts, |i: int| ((profile_count - 1) * parts + (parts - 1 - i)) as usize)
}

/// The polygons of a body of revolution of `profile_count` profile points turned
/// in `parts` steps: the side quads ring by ring, then the bottom and top caps.
pub open spec fn rotation_polygons_spec(profile_count: nat, parts: nat) -> Seq<Seq<usize>> {
    side_quads((profile_count - 1) as nat, parts) + seq![bottom_cap(parts), top_cap(profile_count, parts)]
}

proof fn lemma_side_quads_len(rings: nat, parts: nat)
    ensures
        side_quads(rings, parts).len() == rings * parts,
    decreases rings,
{
    if rings > 0 {
        lemma_side_quads_len((rings - 1) as nat, parts);
        let r1: nat = (rings - 1) as nat;
        assert(ring_quads(r1, parts).len() == parts);
        assert(side_quads(rings, parts).len() == r1 * parts + parts);
        assert(rings * parts == r1 * parts + parts) by (nonlinear_arith)
            requires
                r1 + 1 == rings,
        ;
    } else {
        assert(0 * parts == 0) by (nonlinear_arith);
    }
}

proof fn lemma_ring_start(p: nat, parts: nat, rings: nat)
    requires
        p < rings,
    ensures
        (p + 1) * parts == p * parts + parts,
        (p + 1) * parts <= rings * parts,
{
    assert((p + 1) * parts == p * parts + parts) by (nonlinear_arith);
    assert((p + 1) * parts <= rings * parts) by (nonlinear_arith)
        requires
            p + 1 <= rings,
    ;
}

/// The polygons of a body of revolution: `profile_count` profile points, each
/// turned into a ring of `parts` vertices (ring `p` holds the vertices
/// `p * parts .. (p + 1) * parts`); consecutive rings are joined by quads, and the
/// first and last rings are closed by caps.
pub fn create_rotation_polygons(profile_count: usize, parts: usize) -> (polygons: Vec<Polygon3>)
    requires
        parts >= 3,
        profile_count >= 2,
        profile_count * parts <= usize::MAX,
    ensures
        polygons_view(polygons@) == rotation_polygons_spec(profile_count as nat, parts as nat),
{
    let ghost rings: nat = (profile_count - 1) as nat;
    let mut polygons: Vec<Polygon3> = Vec::new();
    let mut profile_idx: usize = 0;
    let mut current_ring_start: usize = 0;
    assert(polygons_view(polygons@) =~= side_quads(0, parts as nat));
    while profile_idx < profile_count - 1
        invariant
            parts >= 3,
            profile_count >= 2,
            profile_count * parts <= usize::MAX,
            rings == profile_count - 1,
            profile_idx <= rings,
            current_ring_start == profile_idx * parts,
            polygons_view(polygons@) == side_quads(profile_idx as nat, parts as nat),
        decreases rings - profile_idx,
    {
        proof {
            lemma_ring_start(profile_idx as nat, parts as nat, profile_count as nat);
            lemma_ring_start((profile_idx + 1) as nat, parts as nat, profile_count as nat);
        }
        let next_ring_start: usize = current_ring_start + parts;
        let ghost before = polygons_view(polygons@);
        let mut segment_idx: usize = 0;
        while segment_idx < parts
            invariant
                parts >= 3,
                profile_idx < rings,
                rings == profile_count - 1,
                current_ring_start == profile_idx * parts,
                next_ring_start == (profile_idx + 1) * parts,
                next_ring_start == current_ring_start + parts,
                next_ring_start + parts <= profile_count * parts,
                next_ring_start <= profile_count * parts,
                profile_count * parts <= usize::MAX,
                segment_idx <= parts,
                before == side_quads(profile_idx as nat, parts as nat),
                polygons_view(polygons@) == before + ring_quads(profile_idx as nat, parts as nat).take(
                    segment_idx as int,
                ),
            decreases parts - segment_idx,
        {
            let wrap: usize = (segment_idx + 1) % parts;
            assert(wrap < parts);
            let v0: usize = current_ring_start + segment_idx;
            let v1: usize = current_ring_start + wrap;
            let v2: usize = next_ring_start + wrap;
            let v3: usize = next_ring_start + segment_idx;
            let mut quad: Vec<usize> = Vec::new();
            quad.push(v0);
            quad.push(v1);
            quad.push(v2);
            quad.push(v3);
            let p = Polygon3::from_vec(quad);
            assert(p@ =~= rotation_quad(profile_idx as nat, segment_idx as nat, parts as nat));
            let ghost old_view = polygons_view(polygons@);
            polygons.push(p);
            assert(polygons_view(polygons@) =~= old_view.push(p@));
            segment_idx += 1;
            assert(polygons_view(polygons@) =~= before + ring_quads(profile_idx as nat, parts as nat).take(
                segment_idx as int,
            ));
        }
        assert(ring_quads(profile_idx as nat, parts as nat).take(parts as int) =~= ring_quads(
            profile_idx as nat,
            parts as nat,
        ));
        assert(side_quads((profile_idx + 1) as nat, parts as nat) == before + ring_quads(
            profile_idx as nat,
            parts as nat,
        ));
        profile_idx += 1;
        current_ring_start = next_ring_start;
    }
    // the cap over the first ring
    let mut bottom: Vec<usize> = Vec::new();
    let mut i: usize = 0;
    while i < parts
        invariant
            i <= parts,
            bottom@ =~= bottom_cap(parts as nat).take(i as int),
        decreases parts - i,
    {
        bottom.push(i);
        i += 1;
    }
    assert(bottom_cap(parts as nat).take(parts as int) =~= bottom_cap(parts as nat));
    let bp = Polygon3::from_vec(bottom);
    polygons.push(bp);
    // the cap over the last ring, in reverse order
    proof {
        lemma_ring_start((profile_count - 1) as nat, parts as nat, profile_count as nat);
    }
    let top_profile_start: usize = current_ring_start;
    let mut top: Vec<usize> = Vec::new();
    let mut j: usize = 0;
    while j < parts
        invariant
            j <= parts,
            top_profile_start == (profile_count - 1) * parts,
            top_profile_start + parts <= usize::MAX,
            top@ =~= top_cap(profile_count as nat, parts as nat).take(j as int),
        decreases parts - j,
    {
        top.push(top_profile_start + (parts - 1 - j));
        j += 1;
    }
    assert(top_cap(profile_count as nat, parts as nat).take(parts as int) =~= top_cap(
        profile_count as nat,
        parts as nat,
    ));
    let tp = Polygon3::from_vec(top);
    polygons.push(tp);
    assert(polygons_view(polygons@) =~= rotation_polygons_spec(profile_count as nat, parts as nat));
    polygons
}

proof fn lemma_quad_within(p: nat, s: nat, parts: nat, profile_count: nat)
    requires
        parts >= 1,
        s < parts,
        p + 1 < profile_count,
        profile_count * parts <= usize::MAX,
    ensures
        indices_within(rotation_quad(p, s, parts), profile_count * parts),
{
    let w: nat = (s + 1) % parts;
    assert(w < parts);
    assert((p + 2) * parts <= profile_count * parts) by (nonlinear_arith)
        requires
            p + 2 <= profile_count,
    ;
    assert((p + 1) * parts == p * parts + parts) by (nonlinear_arith);
    assert((p + 2) * parts == (p + 1) * parts + parts) by (nonlinear_arith);
    assert(p * parts >= 0) by (nonlinear_arith);
    let q = rotation_quad(p, s, parts);
    assert(q[0] < profile_count * parts);
    assert(q[1] < profile_count * parts);
    assert(q[2] < profile_count * parts);
    assert(q[3] < profile_count * parts);
}

proof fn lemma_side_quads_within(rings: nat, parts: nat, profile_count: nat)
    requires
        parts >= 1,
        rings < profile_count,
        profile_count * parts <= usize::MAX,
    ensures
        polygons_within(side_quads(rings, parts), profile_count * parts),
    decreases rings,
{
    if rings > 0 {
        let r1: nat = (rings - 1) as nat;
        lemma_side_quads_within(r1, parts, profile_count);
        let prev = side_quads(r1, parts);
        let ring = ring_quads(r1, parts);
        assert forall|i: int| 0 <= i < side_quads(rings, parts).len() implies indices_within(
            #[trigger] side_quads(rings, parts)[i],
            profile_count * parts,
        ) by {
            if i >= prev.len() {
                let s: int = i - prev.len();
                assert(ring[s] == rotation_quad(r1, s as nat, parts));
                lemma_quad_within(r1, s as nat, parts, profile_count);
            } else {
                assert(side_quads(rings, parts)[i] == prev[i]);
            }
        }
    }
}

/// The polygons of a body of revolution index only its `profile_count * parts`
/// vertices, and there are `(profile_count - 1) * parts` side quads and two caps.
pub proof fn law_rotation_polygons_well_formed(profile_count: nat, parts: nat)
    requires
        parts >= 3,
        profile_count >= 2,
        profile_count * parts <= usize::MAX,
    ensures
        polygons_within(rotation_polygons_spec(profile_count, parts), profile_count * parts),
        rotation_polygons_spec(profile_count, parts).len() == (profile_count - 1) * parts + 2,
        forall|i: int| 0 <= i < rotation_polygons_spec(profile_count, parts).len() ==>
            (#[trigger] rotation_polygons_spec(profile_count, parts)[i]).len() >= 3,
{
    let rings: nat = (profile_count - 1) as nat;
    lemma_side_quads_within(rings, parts, profile_count);
    lemma_side_quads_len(rings, parts);
    lemma_ring_start(rings, parts, profile_count);
    let all = rotation_polygons_spec(profile_count, parts);
    let sides = side_quads(rings, parts);
    assert forall|i: int| 0 <= i < all.len() implies indices_within(#[trigger] all[i], profile_count * parts)
        && all[i].len() >= 3 by {
        if i < sides.len() {
            assert(all[i] == sides[i]);
            lemma_side_quad_len(rings, parts, i);
        } else if i == sides.len() {
            assert(all[i] == bottom_cap(parts));
            assert(parts <= profile_count * parts) by (nonlinear_arith)
                requires
                    profile_count >= 1,
            ;
        } else {
            assert(all[i] == top_cap(profile_count, parts));
        }
    }
}

proof fn lemma_side_quad_len(rings: nat, parts: nat, i: int)
    requires
        0 <= i < side_quads(rings, parts).len(),
    ensures
        side_quads(rings, parts)[i].len() == 4,
    decreases rings,
{
    if rings > 0 {
        let r1: nat = (rings - 1) as nat;
        let prev = side_quads(r1, parts);
        if i < prev.len() {
            lemma_side_quad_len(r1, parts, i);
        }
    }
}

proof fn lemma_side_quad_at(rings: nat, parts: nat, p: nat, s: nat)
    requires
        p < rings,
        s < parts,
    ensures
        side_quads(rings, parts)[(p * parts + s) as int] == rotation_quad(p, s, parts),
    decreases rings,
{
    let r1 = (rings - 1) as nat;
    lemma_side_quads_len(r1, parts);
    if p < r1 {
        lemma_side_quad_at(r1, parts, p, s);
        assert(p * parts + s < r1 * parts) by (nonlinear_arith)
            requires
                p < r1,
                s < parts,
        ;
    } else {
        assert(ring_quads(r1, parts)[s as int] == rotation_quad(r1, s, parts));
    }
}

/// Where the faces of a body of revolution are: the side quad between ring `p`
/// and ring `p + 1` at step `s` is face `p * parts + s` and joins, in order, step
/// `s` and the next step (wrapping round) of ring `p`, then the next step and step
/// `s` of ring `p + 1`, where step `t` of ring `q` is vertex `q * parts + t`. After
/// the side quads come the bottom cap (ring 0 in step order) and the top cap (the
/// last ring in reverse step order).
pub proof fn law_rotation_layout(profile_count: nat, parts: nat, p: nat, s: nat)
    requires
        parts >= 3,
        profile_count >= 2,
        profile_count * parts <= usize::MAX,
        p + 1 < profile_count,
        s < parts,
    ensures
        rotation_polygons_spec(profile_count, parts)[(p * parts + s) as int] == seq![
            (p * parts + s) as usize,
            (p * parts + (s + 1) % parts) as usize,
            ((p + 1) * parts + (s + 1) % parts) as usize,
            ((p + 1) * parts + s) as usize,
        ],
        rotation_polygons_spec(profile_count, parts)[((profile_count - 1) * parts) as int]
            == Seq::new(parts, |i: int| i as usize),
        rotation_polygons_spec(profile_count, parts)[((profile_count - 1) * parts + 1) as int]
            == Seq::new(
            parts,
            |i: int| ((profile_count - 1) * parts + (parts - 1 - i)) as usize,
        ),
{
    let rings = (profile_count - 1) as nat;
    lemma_side_quads_len(rings, parts);
    lemma_side_quad_at(rings, parts, p, s);
    assert(p * parts + s < rings * parts) by (nonlinear_arith)
        requires
            p < rings,
            s < parts,
    ;
    let all = rotation_polygons_spec(profile_count, parts);
    assert(all[(p * parts + s) as int] == side_quads(rings, parts)[(p * parts + s) as int]);
}

} // verus!
