//! The wireframe (edge-mesh) extractor.
//!
//! From a triangulated surface this derives a renderable "thickened
//! wireframe" mesh: for every unique undirected edge of the surface, the
//! two endpoints and their copies pushed radially away from the surface's
//! centroid form a thin quad (two triangles). Output vertices are
//! deduplicated by exact IEEE-754 position equality, by linear search in
//! first-occurrence order, and the whole construction is pinned to a
//! spec-level fold so the result is a function of the surface and the
//! thickness alone.

use vstd::prelude::*;

use crate::mesh::{
    center_spec, edges_list_spec, lemma_edges_list_bounds, tri_in_bounds, Mesh,
};
use crate::point::{point_eq, pt_eq, shift_point_from, shift_point_spec, Point3};

verus! {

/// The least index `j >= i` with `s[j]` position-equal to `p`, or `-1`
/// if there is none.
pub open spec fn first_match(s: Seq<Point3>, p: Point3, i: int) -> int
    decreases s.len() - i,
    when 0 <= i <= s.len()
{
    if i >= s.len() {
        -1
    } else if pt_eq(s[i], p) {
        i
    } else {
        first_match(s, p, i + 1)
    }
}

/// Looks `p` up in `s` by position equality; a miss appends it. Returns
/// the sequence and the index `p` lives at.
pub open spec fn lookup_or_push(s: Seq<Point3>, p: Point3) -> (Seq<Point3>, usize) {
    let j = first_match(s, p, 0);
    if j >= 0 {
        (s, j as usize)
    } else {
        (s.push(p), s.len() as usize)
    }
}

/// One edge's contribution: the four corner points are looked up (or
/// inserted) in order, then the two triangles of the quad are appended.
pub open spec fn edge_step(
    vs: Seq<Point3>,
    ts: Seq<(usize, usize, usize)>,
    v1: Point3,
    v1e: Point3,
    v2: Point3,
    v2e: Point3,
) -> (Seq<Point3>, Seq<(usize, usize, usize)>) {
    let r1 = lookup_or_push(vs, v1);
    let r2 = lookup_or_push(r1.0, v1e);
    let r3 = lookup_or_push(r2.0, v2);
    let r4 = lookup_or_push(r3.0, v2e);
    (r4.0, ts.push((r1.1, r2.1, r3.1)).push((r2.1, r4.1, r3.1)))
}

/// The edge mesh accumulated over the first `k` edges of `edges`, drawn
/// between positions of `verts` and offset away from `center` by `bold`.
pub open spec fn edge_mesh_rec(
    verts: Seq<Point3>,
    center: Point3,
    bold: u32,
    edges: Seq<(usize, usize)>,
    k: int,
) -> (Seq<Point3>, Seq<(usize, usize, usize)>)
    decreases k,
{
    if k <= 0 {
        (Seq::empty(), Seq::empty())
    } else {
        let prev = edge_mesh_rec(verts, center, bold, edges, k - 1);
        let e = edges[k - 1];
        let v1 = verts[e.0 as int];
        let v2 = verts[e.1 as int];
        let v1e = shift_point_spec(v1, center, bold);
        let v2e = shift_point_spec(v2, center, bold);
        edge_step(prev.0, prev.1, v1, v1e, v2, v2e)
    }
}

/// The complete edge mesh of a surface: its unique edge list folded over
/// `edge_step`, with offsets taken from the surface's centroid.
pub open spec fn edge_mesh_spec(
    verts: Seq<Point3>,
    tris: Seq<(usize, usize, usize)>,
    bold: u32,
) -> (Seq<Point3>, Seq<(usize, usize, usize)>) {
    let edges = edges_list_spec(tris);
    edge_mesh_rec(verts, center_spec(verts), bold, edges, edges.len() as int)
}

/// Skipping a prefix without a match leaves the first match unchanged.
proof fn lemma_first_match_from(s: Seq<Point3>, p: Point3, i: int)
    requires
        0 <= i <= s.len(),
        forall|j: int| 0 <= j < i ==> !pt_eq(s[j], p),
    ensures
        first_match(s, p, 0) == first_match(s, p, i),
    decreases i,
{
    if i > 0 {
        lemma_first_match_from(s, p, i - 1);
        assert(first_match(s, p, i - 1) == first_match(s, p, i));
    }
}

/// Looks `p` up in `verts` by position equality, appending it on a miss;
/// returns its index. Exactly `lookup_or_push` on the view.
fn find_or_insert(verts: &mut Vec<Point3>, p: &Point3) -> (idx: usize)
    ensures
        final(verts)@ == lookup_or_push(old(verts)@, *p).0,
        idx == lookup_or_push(old(verts)@, *p).1,
        idx < final(verts)@.len(),
        old(verts)@.len() <= final(verts)@.len(),
{
    let n = verts.len();
    for i in 0..n
        invariant
            n == verts@.len(),
            verts@ == old(verts)@,
            forall|j: int| 0 <= j < i ==> !pt_eq(verts@[j], *p),
    {
        if point_eq(&verts[i], p) {
            proof {
                lemma_first_match_from(verts@, *p, i as int);
            }
            return i;
        }
    }
    proof {
        lemma_first_match_from(verts@, *p, n as int);
    }
    verts.push(*p);
    n
}

/// Derives the thickened-wireframe mesh of `surface`: one thin quad (two
/// triangles) per unique undirected surface edge, with the outer corners
/// offset radially from the surface centroid by the binary32 amount
/// `bold`. The output shares no buffer with the surface and satisfies the
/// mesh invariant.
pub fn build_edge_mesh(surface: &Mesh, bold: u32) -> (r: Mesh)
    requires
        surface.wf(),
        surface.vertices@.len() > 0,
    ensures
        r.vertices@ == edge_mesh_spec(surface.vertices@, surface.indices@, bold).0,
        r.indices@ == edge_mesh_spec(surface.vertices@, surface.indices@, bold).1,
        r.wf(),
{
    let indices = surface.get_edges_indices();
    let center = surface.get_center();
    proof {
        lemma_edges_list_bounds(surface.indices@, surface.vertices@.len() as int);
    }
    let mut everts: Vec<Point3> = Vec::new();
    let mut eindices: Vec<(usize, usize, usize)> = Vec::new();
    let m = indices.len();
    for k in 0..m
        invariant
            m == indices@.len(),
            indices@ == edges_list_spec(surface.indices@),
            center == center_spec(surface.vertices@),
            forall|j: int|
                0 <= j < indices@.len() ==> (#[trigger] indices@[j]).0 < surface.vertices@.len()
                    && indices@[j].1 < surface.vertices@.len(),
            (everts@, eindices@) == edge_mesh_rec(
                surface.vertices@,
                center_spec(surface.vertices@),
                bold,
                indices@,
                k as int,
            ),
            forall|i: int|
                0 <= i < eindices@.len() ==> tri_in_bounds(
                    #[trigger] eindices@[i],
                    everts@.len() as int,
                ),
    {
        let e = indices[k];
        let v1 = surface.vertices[e.0];
        let v2 = surface.vertices[e.1];
        let v1_edge = shift_point_from(&v1, &center, bold);
        let v2_edge = shift_point_from(&v2, &center, bold);
        let ind11_edge = find_or_insert(&mut everts, &v1);
        let ind12_edge = find_or_insert(&mut everts, &v1_edge);
        let ind21_edge = find_or_insert(&mut everts, &v2);
        let ind22_edge = find_or_insert(&mut everts, &v2_edge);
        eindices.push((ind11_edge, ind12_edge, ind21_edge));
        eindices.push((ind12_edge, ind22_edge, ind21_edge));
    }
    Mesh { vertices: everts, indices: eindices }
}

} // verus!
