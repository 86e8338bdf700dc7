//! The convex-hull collaborator.
//!
//! Surface triangulation of sampled point clouds is delegated to the
//! `convexhull3d` crate. Its solver is declared here behind trusted items;
//! the one fact the rest of the crate relies on is that every face of a
//! successfully built hull indexes the vertex slice the hull was built
//! from, which is how `quick_hull` upholds the mesh invariant.

use vstd::prelude::*;

use crate::mesh::tri_in_bounds;
use crate::point::Point3;

verus! {

#[verifier::external_type_specification]
#[verifier::external_body]
pub struct ExVertex(convexhull3d::Vertex);

#[verifier::external_type_specification]
#[verifier::external_body]
pub struct ExConvexHull3D(convexhull3d::ConvexHull3D);

#[verifier::external_type_specification]
#[verifier::external_body]
pub struct ExConvexHullError(convexhull3d::ConvexHullError);

/// The triangular faces a built hull holds, as index triples into the
/// vertex slice the hull was built from.
pub uninterp spec fn hull_faces_seq(h: convexhull3d::ConvexHull3D) -> Seq<(usize, usize, usize)>;

/// Relies on `convexhull3d::Vertex::new`, which packs three binary64
/// coordinates into the solver's vertex record.
#[verifier::external_body]
fn hull_vertex(p: &Point3) -> (r: convexhull3d::Vertex) {
    convexhull3d::Vertex::new(bytemuck::cast(p.x), bytemuck::cast(p.y), bytemuck::cast(p.z))
}

/// Relies on `convexhull3d::ConvexHull3D::build` (Quickhull). Every face of
/// a successfully built hull is a triple of indices drawn from the input
/// slice: the solver forms faces only from its initial simplex and from
/// input point positions, so each component is below the input length.
/// Inputs of fewer than four vertices and degenerate configurations are
/// rejected with an error, not a panic.
#[verifier::external_body]
fn hull_build(vs: &Vec<convexhull3d::Vertex>) -> (r: Result<
    convexhull3d::ConvexHull3D,
    convexhull3d::ConvexHullError,
>)
    ensures
        r is Ok ==> forall|i: int|
            0 <= i < hull_faces_seq(r->Ok_0).len() ==> tri_in_bounds(
                #[trigger] hull_faces_seq(r->Ok_0)[i],
                vs@.len() as int,
            ),
{
    convexhull3d::ConvexHull3D::build(vs)
}

/// Relies on `convexhull3d::ConvexHull3D::num_faces`, the length of the
/// hull's face slice.
#[verifier::external_body]
fn hull_num_faces(h: &convexhull3d::ConvexHull3D) -> (r: usize)
    ensures
        r == hull_faces_seq(*h).len(),
{
    h.num_faces()
}

/// Relies on `convexhull3d::ConvexHull3D::faces`: reads one face of the
/// hull and unpacks its three vertex indices.
#[verifier::external_body]
fn hull_face_at(h: &convexhull3d::ConvexHull3D, i: usize) -> (r: (usize, usize, usize))
    requires
        i < hull_faces_seq(*h).len(),
    ensures
        r == hull_faces_seq(*h)[i as int],
{
    let f = &h.faces()[i];
    (f.v0, f.v1, f.v2)
}

/// Builds the convex hull of `vertices` and returns its triangular faces
/// as index triples into `vertices`; an input the solver cannot
/// triangulate (too few points, or a coplanar or collinear configuration)
/// yields the empty face list.
pub fn quick_hull(vertices: &Vec<Point3>) -> (r: Vec<(usize, usize, usize)>)
    ensures
        forall|i: int|
            0 <= i < r@.len() ==> tri_in_bounds(#[trigger] r@[i], vertices@.len() as int),
{
    let n = vertices.len();
    let mut hull_input: Vec<convexhull3d::Vertex> = Vec::new();
    for i in 0..n
        invariant
            n == vertices@.len(),
            hull_input@.len() == i,
    {
        hull_input.push(hull_vertex(&vertices[i]));
    }
    match hull_build(&hull_input) {
        Ok(hull) => {
            let m = hull_num_faces(&hull);
            let mut faces: Vec<(usize, usize, usize)> = Vec::new();
            for j in 0..m
                invariant
                    m == hull_faces_seq(hull).len(),
                    hull_input@.len() == vertices@.len(),
                    faces@.len() == j,
                    forall|i: int|
                        0 <= i < hull_faces_seq(hull).len() ==> tri_in_bounds(
                            #[trigger] hull_faces_seq(hull)[i],
                            hull_input@.len() as int,
                        ),
                    forall|i: int|
                        0 <= i < faces@.len() ==> tri_in_bounds(
                            #[trigger] faces@[i],
                            vertices@.len() as int,
                        ),
            {
                faces.push(hull_face_at(&hull, j));
            }
            faces
        },
        Err(_) => Vec::new(),
    }
}

} // verus!
