//! The cube solid: eight explicitly enumerated corners and a fixed
//! twelve-triangle face table that depends on that enumeration order.

use vstd::prelude::*;

use crate::mesh::{Mesh, MBV};
use crate::point::{pt_scale_left, vscale_left, Point3};
use crate::scalar::{
    div_bits, le_zero_bits_32, real_div, NEG_ONE_BITS, ONE_BITS, TWO_BITS,
};

verus! {

/// An axis-aligned cube of the given side length (binary64 bit pattern),
/// centered at the origin.
#[derive(Clone, Copy)]
pub struct Cube {
    pub side_len: u64,
}

/// A corner of the half-unit cube scaled by `scale`: each component is
/// `scale * (+-1)`.
pub open spec fn cube_corner(scale: u64, sx: u64, sy: u64, sz: u64) -> Point3 {
    pt_scale_left(scale, Point3 { x: sx, y: sy, z: sz })
}

/// The eight corners of a cube with side `side`, in the fixed enumeration
/// order the face table depends on: the four bottom corners first, then
/// the four top corners, x varying fastest.
pub open spec fn cube_corners(side: u64) -> Seq<Point3> {
    let scale = div_bits(side, TWO_BITS);
    let n = NEG_ONE_BITS;
    let p = ONE_BITS;
    seq![
        cube_corner(scale, n, n, n),
        cube_corner(scale, p, n, n),
        cube_corner(scale, n, p, n),
        cube_corner(scale, p, p, n),
        cube_corner(scale, n, n, p),
        cube_corner(scale, p, n, p),
        cube_corner(scale, n, p, p),
        cube_corner(scale, p, p, p),
    ]
}

/// The fixed face table: twelve triangles covering the six faces, two per
/// face sharing a diagonal, written against the corner enumeration order.
pub open spec fn cube_face_table() -> Seq<(usize, usize, usize)> {
    seq![
        (0usize, 1usize, 3usize),
        (0usize, 2usize, 3usize),
        (4usize, 5usize, 7usize),
        (4usize, 6usize, 7usize),
        (0usize, 1usize, 5usize),
        (0usize, 4usize, 5usize),
        (2usize, 3usize, 7usize),
        (2usize, 6usize, 7usize),
        (0usize, 2usize, 6usize),
        (0usize, 4usize, 6usize),
        (1usize, 3usize, 7usize),
        (1usize, 5usize, 7usize),
    ]
}

/// Bounding box of a cube: its own side length in every extent.
pub open spec fn cube_mbv_spec(side: u64) -> MBV {
    MBV(side, side, side)
}

impl Cube {
    pub fn new(side_len: u64) -> (r: Cube)
        ensures
            r.side_len == side_len,
    {
        Cube { side_len }
    }

    /// The cube's surface: the eight corners with the fixed face table.
    /// Always succeeds.
    fn build_surface_mesh(&self) -> (r: Mesh)
        ensures
            r.vertices@ == cube_corners(self.side_len),
            r.indices@ == cube_face_table(),
            r.wf(),
    {
        let scale = real_div(self.side_len, TWO_BITS);
        let mut vertices: Vec<Point3> = Vec::new();
        vertices.push(vscale_left(scale, &Point3 { x: NEG_ONE_BITS, y: NEG_ONE_BITS, z: NEG_ONE_BITS }));
        vertices.push(vscale_left(scale, &Point3 { x: ONE_BITS, y: NEG_ONE_BITS, z: NEG_ONE_BITS }));
        vertices.push(vscale_left(scale, &Point3 { x: NEG_ONE_BITS, y: ONE_BITS, z: NEG_ONE_BITS }));
        vertices.push(vscale_left(scale, &Point3 { x: ONE_BITS, y: ONE_BITS, z: NEG_ONE_BITS }));
        vertices.push(vscale_left(scale, &Point3 { x: NEG_ONE_BITS, y: NEG_ONE_BITS, z: ONE_BITS }));
        vertices.push(vscale_left(scale, &Point3 { x: ONE_BITS, y: NEG_ONE_BITS, z: ONE_BITS }));
        vertices.push(vscale_left(scale, &Point3 { x: NEG_ONE_BITS, y: ONE_BITS, z: ONE_BITS }));
        vertices.push(vscale_left(scale, &Point3 { x: ONE_BITS, y: ONE_BITS, z: ONE_BITS }));
        let mut indices: Vec<(usize, usize, usize)> = Vec::new();
        indices.push((0, 1, 3));
        indices.push((0, 2, 3));
        indices.push((4, 5, 7));
        indices.push((4, 6, 7));
        indices.push((0, 1, 5));
        indices.push((0, 4, 5));
        indices.push((2, 3, 7));
        indices.push((2, 6, 7));
        indices.push((0, 2, 6));
        indices.push((0, 4, 6));
        indices.push((1, 3, 7));
        indices.push((1, 5, 7));
        proof {
            assert(vertices@ =~= cube_corners(self.side_len));
            assert(indices@ =~= cube_face_table());
        }
        Mesh { vertices, indices }
    }

    /// The cube's "edge" mesh. A cube's frame is rendered from the same
    /// corner and face data as its surface, so this returns the surface
    /// mesh after validating the thickness; a non-positive `bold` is a
    /// programmer error and is excluded by precondition.
    pub fn build_edges_mesh(&self, bold: u32) -> (r: Mesh)
        requires
            !le_zero_bits_32(bold),
        ensures
            r.vertices@ == cube_corners(self.side_len),
            r.indices@ == cube_face_table(),
            r.wf(),
    {
        self.build_surface_mesh()
    }

    /// The cube's triangulated surface.
    pub fn get_surface_mesh(&self) -> (r: Mesh)
        ensures
            r.vertices@ == cube_corners(self.side_len),
            r.indices@ == cube_face_table(),
            r.wf(),
    {
        self.build_surface_mesh()
    }

    /// The cube's edge mesh (see `build_edges_mesh`).
    pub fn get_edges_mesh(&self, bold: u32) -> (r: Mesh)
        requires
            !le_zero_bits_32(bold),
        ensures
            r.vertices@ == cube_corners(self.side_len),
            r.indices@ == cube_face_table(),
            r.wf(),
    {
        self.build_edges_mesh(bold)
    }

    /// Bounding box of the cube: the side length in every extent.
    pub fn minimal_bounding_volume(&self) -> (r: MBV)
        ensures
            r == cube_mbv_spec(self.side_len),
    {
        let side = self.side_len;
        MBV(side, side, side)
    }
}

} // verus!
