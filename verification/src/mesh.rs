//! The mesh data type and its index-level derivations.
//!
//! A `Mesh` is an ordered vertex sequence plus an ordered sequence of
//! triangles given as index triples into the vertices. The well-formedness
//! invariant — every index is a valid vertex position — is stated here and
//! carried through every producer in the crate.

use vstd::prelude::*;

use crate::point::{pt_add, vadd, Point3};
use crate::scalar::{div_bits, of_usize_bits, real_div, real_of_usize, ZERO_BITS};

verus! {

/// Extents `(width, height, depth)` of an axis-aligned box containing a
/// solid; each field is a binary64 bit pattern.
#[derive(Clone, Copy, Debug, PartialEq, Eq, Structural)]
pub struct MBV(pub u64, pub u64, pub u64);

/// A triangulated mesh: vertices plus triangles as index triples.
#[derive(Clone, Debug)]
pub struct Mesh {
    pub vertices: Vec<Point3>,
    pub indices: Vec<(usize, usize, usize)>,
}

/// Every component of the triangle `t` is below `n`.
pub open spec fn tri_in_bounds(t: (usize, usize, usize), n: int) -> bool {
    t.0 < n && t.1 < n && t.2 < n
}

/// The undirected edge `{a, b}`, normalized to `(min, max)` form.
pub open spec fn norm_edge(a: usize, b: usize) -> (usize, usize) {
    if a <= b {
        (a, b)
    } else {
        (b, a)
    }
}

/// The three normalized edges of the triangle `t`.
pub open spec fn tri_edge_set(t: (usize, usize, usize)) -> Set<(usize, usize)> {
    set![norm_edge(t.0, t.1), norm_edge(t.0, t.2), norm_edge(t.2, t.1)]
}

/// The set of unique undirected edges over all triangles of `tris`.
pub open spec fn mesh_edge_set(tris: Seq<(usize, usize, usize)>) -> Set<(usize, usize)> {
    Set::new(
        |e: (usize, usize)|
            exists|i: int| 0 <= i < tris.len() && #[trigger] tri_edge_set(tris[i]).contains(e),
    )
}

/// Appends `e` to `s` unless already present.
pub open spec fn insert_edge_spec(s: Seq<(usize, usize)>, e: (usize, usize)) -> Seq<
    (usize, usize),
> {
    if s.contains(e) {
        s
    } else {
        s.push(e)
    }
}

/// The unique-edge list over the first `k` triangles of `tris`, each edge
/// listed once in order of first occurrence.
pub open spec fn edges_list_rec(tris: Seq<(usize, usize, usize)>, k: int) -> Seq<(usize, usize)>
    decreases k,
{
    if k <= 0 {
        Seq::empty()
    } else {
        let s = edges_list_rec(tris, k - 1);
        let t = tris[k - 1];
        insert_edge_spec(
            insert_edge_spec(insert_edge_spec(s, norm_edge(t.0, t.1)), norm_edge(t.0, t.2)),
            norm_edge(t.2, t.1),
        )
    }
}

/// The unique-edge list over all triangles of `tris`.
pub open spec fn edges_list_spec(tris: Seq<(usize, usize, usize)>) -> Seq<(usize, usize)> {
    edges_list_rec(tris, tris.len() as int)
}

/// Inserting one edge keeps the list duplicate-free and adds exactly that
/// edge to its contents.
proof fn lemma_insert_edge_spec(s: Seq<(usize, usize)>, e: (usize, usize))
    ensures
        s.no_duplicates() ==> insert_edge_spec(s, e).no_duplicates(),
        forall|x: (usize, usize)|
            #[trigger] insert_edge_spec(s, e).contains(x) <==> s.contains(x) || x == e,
{
    if s.contains(e) {
    } else {
        assert(insert_edge_spec(s, e).last() == e);
        assert(forall|j: int| 0 <= j < s.len() ==> insert_edge_spec(s, e)[j] == #[trigger] s[j]);
        assert(forall|x: (usize, usize)| s.contains(x) ==> #[trigger] insert_edge_spec(
            s,
            e,
        ).contains(x));
    }
}

/// The unique-edge list of a triangle prefix is duplicate-free and holds
/// exactly the edges of those triangles.
pub proof fn lemma_edges_list_props(tris: Seq<(usize, usize, usize)>, k: int)
    requires
        0 <= k <= tris.len(),
    ensures
        edges_list_rec(tris, k).no_duplicates(),
        forall|e: (usize, usize)|
            #[trigger] edges_list_rec(tris, k).contains(e) <==> exists|i: int|
                0 <= i < k && #[trigger] tri_edge_set(tris[i]).contains(e),
    decreases k,
{
    if k > 0 {
        lemma_edges_list_props(tris, k - 1);
        let s = edges_list_rec(tris, k - 1);
        let t = tris[k - 1];
        let s1 = insert_edge_spec(s, norm_edge(t.0, t.1));
        let s2 = insert_edge_spec(s1, norm_edge(t.0, t.2));
        lemma_insert_edge_spec(s, norm_edge(t.0, t.1));
        lemma_insert_edge_spec(s1, norm_edge(t.0, t.2));
        lemma_insert_edge_spec(s2, norm_edge(t.2, t.1));
        assert forall|e: (usize, usize)|
            #[trigger] edges_list_rec(tris, k).contains(e) <==> exists|i: int|
                0 <= i < k && #[trigger] tri_edge_set(tris[i]).contains(e) by {
            if edges_list_rec(tris, k).contains(e) {
                if s.contains(e) {
                    assert(exists|i: int| 0 <= i < k - 1 && #[trigger] tri_edge_set(
                        tris[i],
                    ).contains(e));
                } else {
                    assert(tri_edge_set(t).contains(e));
                    assert(0 <= k - 1 < k && tri_edge_set(tris[k - 1]).contains(e));
                }
            }
            if exists|i: int| 0 <= i < k && #[trigger] tri_edge_set(tris[i]).contains(e) {
                let i = choose|i: int| 0 <= i < k && #[trigger] tri_edge_set(tris[i]).contains(e);
                if i < k - 1 {
                    assert(s.contains(e));
                } else {
                    assert(tri_edge_set(t).contains(e));
                    assert(e == norm_edge(t.0, t.1) || e == norm_edge(t.0, t.2) || e == norm_edge(
                        t.2,
                        t.1,
                    ));
                }
            }
        }
    }
}

/// Every edge listed for a well-formed triangle set indexes the vertex
/// range: both endpoints are below `n`.
pub proof fn lemma_edges_list_bounds(tris: Seq<(usize, usize, usize)>, n: int)
    requires
        forall|i: int| 0 <= i < tris.len() ==> tri_in_bounds(#[trigger] tris[i], n),
    ensures
        forall|j: int|
            0 <= j < edges_list_spec(tris).len() ==> (#[trigger] edges_list_spec(tris)[j]).0 < n
                && edges_list_spec(tris)[j].1 < n,
{
    lemma_edges_list_props(tris, tris.len() as int);
    assert forall|j: int| 0 <= j < edges_list_spec(tris).len() implies (
    #[trigger] edges_list_spec(tris)[j]).0 < n && edges_list_spec(tris)[j].1 < n by {
        let e = edges_list_spec(tris)[j];
        assert(edges_list_spec(tris).contains(e));
        let i = choose|i: int| 0 <= i < tris.len() && #[trigger] tri_edge_set(tris[i]).contains(e);
        let t = tris[i];
        assert(tri_in_bounds(t, n));
        assert(e == norm_edge(t.0, t.1) || e == norm_edge(t.0, t.2) || e == norm_edge(t.2, t.1));
    }
}

/// Left fold of componentwise addition over `s`, starting from the origin.
pub open spec fn sum_points(s: Seq<Point3>) -> Point3
    decreases s.len(),
{
    if s.len() == 0 {
        Point3 { x: ZERO_BITS, y: ZERO_BITS, z: ZERO_BITS }
    } else {
        pt_add(sum_points(s.drop_last()), s.last())
    }
}

/// The arithmetic mean of the points of `s`: the componentwise sum divided
/// by the count.
pub open spec fn center_spec(s: Seq<Point3>) -> Point3 {
    let n = of_usize_bits(s.len() as usize);
    let sm = sum_points(s);
    Point3 { x: div_bits(sm.x, n), y: div_bits(sm.y, n), z: div_bits(sm.z, n) }
}

/// Appends `e` to `edges` unless an equal pair is already present.
fn insert_edge(edges: &mut Vec<(usize, usize)>, e: (usize, usize))
    ensures
        final(edges)@ == insert_edge_spec(old(edges)@, e),
{
    let n = edges.len();
    for i in 0..n
        invariant
            n == edges@.len(),
            edges@ == old(edges)@,
            forall|j: int| 0 <= j < i ==> edges@[j] != e,
    {
        let cur = edges[i];
        if cur.0 == e.0 && cur.1 == e.1 {
            assert(edges@[i as int] == e);
            assert(edges@.contains(e));
            return ;
        }
    }
    assert(!edges@.contains(e));
    edges.push(e);
}

impl Mesh {
    /// Every triangle's indices are valid positions in `vertices`.
    pub open spec fn wf(self) -> bool {
        forall|i: int|
            0 <= i < self.indices@.len() ==> tri_in_bounds(
                #[trigger] self.indices@[i],
                self.vertices@.len() as int,
            )
    }

    /// The unique undirected edges of this mesh's triangles, each listed
    /// once in order of first occurrence: exactly the members of
    /// `mesh_edge_set`, with no duplicates.
    pub fn get_edges_indices(&self) -> (r: Vec<(usize, usize)>)
        ensures
            r@ == edges_list_spec(self.indices@),
            r@.no_duplicates(),
            forall|e: (usize, usize)|
                #[trigger] r@.contains(e) <==> mesh_edge_set(self.indices@).contains(e),
    {
        let mut edges: Vec<(usize, usize)> = Vec::new();
        let n = self.indices.len();
        for k in 0..n
            invariant
                n == self.indices@.len(),
                edges@ == edges_list_rec(self.indices@, k as int),
        {
            let t = self.indices[k];
            let (a, b, c) = (t.0, t.1, t.2);
            let e1 = if a <= b {
                (a, b)
            } else {
                (b, a)
            };
            let e2 = if a <= c {
                (a, c)
            } else {
                (c, a)
            };
            let e3 = if c <= b {
                (c, b)
            } else {
                (b, c)
            };
            assert(e1 == norm_edge(t.0, t.1));
            assert(e2 == norm_edge(t.0, t.2));
            assert(e3 == norm_edge(t.2, t.1));
            insert_edge(&mut edges, e1);
            insert_edge(&mut edges, e2);
            insert_edge(&mut edges, e3);
        }
        proof {
            lemma_edges_list_props(self.indices@, n as int);
        }
        edges
    }

    /// The arithmetic mean of this mesh's vertices.
    pub fn get_center(&self) -> (r: Point3)
        requires
            self.vertices@.len() > 0,
        ensures
            r == center_spec(self.vertices@),
    {
        let count = self.vertices.len();
        let mut sum = Point3::zero();
        for i in 0..count
            invariant
                count == self.vertices@.len(),
                sum == sum_points(self.vertices@.take(i as int)),
        {
            let v = self.vertices[i];
            sum = vadd(&sum, &v);
            proof {
                let post = self.vertices@.take(i + 1);
                assert(post.drop_last() =~= self.vertices@.take(i as int));
                assert(post.last() == self.vertices@[i as int]);
            }
        }
        proof {
            assert(self.vertices@.take(count as int) =~= self.vertices@);
        }
        let n = real_of_usize(count);
        Point3 { x: real_div(sum.x, n), y: real_div(sum.y, n), z: real_div(sum.z, n) }
    }
}

} // verus!
