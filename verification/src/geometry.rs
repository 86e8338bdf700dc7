//! The closed set of solids the engine can describe, dispatched as a
//! tagged union so every use is checked for exhaustiveness.

use vstd::prelude::*;

use crate::ball::{ball_edge_mesh_from, ball_mbv_spec, fib_points, Ball, SPHERE_SAMPLE_COUNT};
use crate::cube::{cube_corners, cube_face_table, cube_mbv_spec, Cube};
use crate::mesh::{Mesh, MBV};
use crate::scalar::le_zero_bits_32;

verus! {

/// An immutable value description of a solid.
#[derive(Clone, Copy)]
pub enum Geometry {
    Ball(Ball),
    Cube(Cube),
}

/// `m` is a surface mesh the solid `g` can produce: a cube's surface is
/// fixed entirely; a ball's vertices are its sample cloud and its faces
/// are whatever the hull solver returned, within bounds.
pub open spec fn surface_mesh_ok(g: Geometry, m: Mesh) -> bool {
    &&& m.wf()
    &&& match g {
        Geometry::Ball(b) => m.vertices@ == fib_points(SPHERE_SAMPLE_COUNT, b.radius),
        Geometry::Cube(c) => m.vertices@ == cube_corners(c.side_len) && m.indices@
            == cube_face_table(),
    }
}

/// `m` is an edge mesh the solid `g` can produce for thickness `bold`.
pub open spec fn edges_mesh_ok(g: Geometry, bold: u32, m: Mesh) -> bool {
    &&& m.wf()
    &&& match g {
        Geometry::Ball(b) => exists|tris: Seq<(usize, usize, usize)>|
            #[trigger] ball_edge_mesh_from(b.radius, bold, tris, m),
        Geometry::Cube(c) => m.vertices@ == cube_corners(c.side_len) && m.indices@
            == cube_face_table(),
    }
}

/// The bounding box each solid reports.
pub open spec fn mbv_spec(g: Geometry) -> MBV {
    match g {
        Geometry::Ball(b) => ball_mbv_spec(b.radius),
        Geometry::Cube(c) => cube_mbv_spec(c.side_len),
    }
}

impl Geometry {
    /// The solid's triangulated surface mesh.
    pub fn get_surface_mesh(&self) -> (r: Mesh)
        ensures
            surface_mesh_ok(*self, r),
    {
        match self {
            Geometry::Ball(b) => b.get_surface_mesh(),
            Geometry::Cube(c) => c.get_surface_mesh(),
        }
    }

    /// The solid's thickened-wireframe mesh. A cube validates the
    /// thickness, so a non-positive `bold` is excluded for cubes.
    pub fn get_edges_mesh(&self, bold: u32) -> (r: Mesh)
        requires
            self matches Geometry::Cube(_) ==> !le_zero_bits_32(bold),
        ensures
            edges_mesh_ok(*self, bold, r),
    {
        match self {
            Geometry::Ball(b) => b.get_edges_mesh(bold),
            Geometry::Cube(c) => c.get_edges_mesh(bold),
        }
    }

    /// The axis-aligned bounding volume of the untransformed solid.
    pub fn minimal_bounding_volume(&self) -> (r: MBV)
        ensures
            r == mbv_spec(*self),
    {
        match self {
            Geometry::Ball(b) => b.minimal_bounding_volume(),
            Geometry::Cube(c) => c.minimal_bounding_volume(),
        }
    }
}

} // verus!
