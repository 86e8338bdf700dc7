//! Geometric placement: a rotation, a uniform scale and a translation
//! composed into one transform and applied per vertex as
//! `v' = R * (v * scale) + center`.
//!
//! The rotation matrix is built from Euler angles `(roll, pitch, yaw)` in
//! the extrinsic X-Y-Z convention, `R = Rz(yaw) * Ry(pitch) * Rx(roll)`,
//! written out entry by entry over sines and cosines; placement depends on
//! this exact composition order.

use vstd::prelude::*;

use crate::geometry::{edges_mesh_ok, mbv_spec, surface_mesh_ok, Geometry};
use crate::mesh::{Mesh, MBV};
use crate::point::{pt_add, pt_scale, vadd, vscale, Point3};
use crate::scalar::{
    add_bits, cos_bits, le_zero_bits_32, mul_bits, neg_bits, real_add, real_cos, real_mul,
    real_neg, real_sin, sin_bits, sub_bits, real_sub,
};

verus! {

/// A 3x3 rotation matrix, row major; each entry is a binary64 bit
/// pattern.
#[derive(Clone, Copy, PartialEq, Eq, Structural, Debug)]
pub struct Rotation {
    pub m00: u64,
    pub m01: u64,
    pub m02: u64,
    pub m10: u64,
    pub m11: u64,
    pub m12: u64,
    pub m20: u64,
    pub m21: u64,
    pub m22: u64,
}

/// The rotation matrix of the Euler angles `(roll, pitch, yaw)`:
/// `Rz(yaw) * Ry(pitch) * Rx(roll)`, entry by entry.
pub open spec fn rotation_from_euler_spec(roll: u64, pitch: u64, yaw: u64) -> Rotation {
    let sr = sin_bits(roll);
    let cr = cos_bits(roll);
    let sp = sin_bits(pitch);
    let cp = cos_bits(pitch);
    let sy = sin_bits(yaw);
    let cy = cos_bits(yaw);
    Rotation {
        m00: mul_bits(cy, cp),
        m01: sub_bits(mul_bits(mul_bits(cy, sp), sr), mul_bits(sy, cr)),
        m02: add_bits(mul_bits(mul_bits(cy, sp), cr), mul_bits(sy, sr)),
        m10: mul_bits(sy, cp),
        m11: add_bits(mul_bits(mul_bits(sy, sp), sr), mul_bits(cy, cr)),
        m12: sub_bits(mul_bits(mul_bits(sy, sp), cr), mul_bits(cy, sr)),
        m20: neg_bits(sp),
        m21: mul_bits(cp, sr),
        m22: mul_bits(cp, cr),
    }
}

/// The matrix applied to a vector: each output component is the row's
/// products summed left to right.
pub open spec fn rotate_spec(m: Rotation, v: Point3) -> Point3 {
    Point3 {
        x: add_bits(add_bits(mul_bits(m.m00, v.x), mul_bits(m.m01, v.y)), mul_bits(m.m02, v.z)),
        y: add_bits(add_bits(mul_bits(m.m10, v.x), mul_bits(m.m11, v.y)), mul_bits(m.m12, v.z)),
        z: add_bits(add_bits(mul_bits(m.m20, v.x), mul_bits(m.m21, v.y)), mul_bits(m.m22, v.z)),
    }
}

/// One vertex placed in world space: scaled, rotated, translated.
pub open spec fn place_point(m: Rotation, scale: u64, center: Point3, v: Point3) -> Point3 {
    pt_add(rotate_spec(m, pt_scale(v, scale)), center)
}

/// A whole vertex sequence placed in world space.
pub open spec fn place_points(m: Rotation, scale: u64, center: Point3, vs: Seq<Point3>) -> Seq<
    Point3,
> {
    Seq::new(vs.len(), |i: int| place_point(m, scale, center, vs[i]))
}

/// Builds the rotation matrix of the Euler angles, exactly as
/// `rotation_from_euler_spec` lays it out.
pub fn rotation_from_euler(roll: u64, pitch: u64, yaw: u64) -> (m: Rotation)
    ensures
        m == rotation_from_euler_spec(roll, pitch, yaw),
{
    let sr = real_sin(roll);
    let cr = real_cos(roll);
    let sp = real_sin(pitch);
    let cp = real_cos(pitch);
    let sy = real_sin(yaw);
    let cy = real_cos(yaw);
    Rotation {
        m00: real_mul(cy, cp),
        m01: real_sub(real_mul(real_mul(cy, sp), sr), real_mul(sy, cr)),
        m02: real_add(real_mul(real_mul(cy, sp), cr), real_mul(sy, sr)),
        m10: real_mul(sy, cp),
        m11: real_add(real_mul(real_mul(sy, sp), sr), real_mul(cy, cr)),
        m12: real_sub(real_mul(real_mul(sy, sp), cr), real_mul(cy, sr)),
        m20: real_neg(sp),
        m21: real_mul(cp, sr),
        m22: real_mul(cp, cr),
    }
}

/// Applies the rotation matrix to one vector.
pub fn rotate(m: &Rotation, v: &Point3) -> (r: Point3)
    ensures
        r == rotate_spec(*m, *v),
{
    Point3 {
        x: real_add(real_add(real_mul(m.m00, v.x), real_mul(m.m01, v.y)), real_mul(m.m02, v.z)),
        y: real_add(real_add(real_mul(m.m10, v.x), real_mul(m.m11, v.y)), real_mul(m.m12, v.z)),
        z: real_add(real_add(real_mul(m.m20, v.x), real_mul(m.m21, v.y)), real_mul(m.m22, v.z)),
    }
}

/// A solid placed in world space: the solid itself, a rotation, a uniform
/// scale and a translation. The transform is applied afresh on every
/// query; nothing is cached.
#[derive(Clone, Copy)]
pub struct GraphicsGeometry {
    pub geometry: Geometry,
    pub rotation: Rotation,
    pub scale: u64,
    pub center: Point3,
}

/// `r` is `base` with every vertex placed by `gg`'s transform and the
/// triangles kept as they are.
pub open spec fn placed_mesh_ok(gg: GraphicsGeometry, base: Mesh, r: Mesh) -> bool {
    &&& r.vertices@ == place_points(gg.rotation, gg.scale, gg.center, base.vertices@)
    &&& r.indices@ == base.indices@
}

/// `r` is a placed surface mesh of `gg`'s solid.
pub open spec fn placed_surface_ok(gg: GraphicsGeometry, r: Mesh) -> bool {
    exists|base: Mesh| #[trigger] surface_mesh_ok(gg.geometry, base) && placed_mesh_ok(gg, base, r)
}

/// `r` is a placed edge mesh of `gg`'s solid for thickness `bold`.
pub open spec fn placed_edges_ok(gg: GraphicsGeometry, bold: u32, r: Mesh) -> bool {
    exists|base: Mesh|
        #[trigger] edges_mesh_ok(gg.geometry, bold, base) && placed_mesh_ok(gg, base, r)
}

/// Places every vertex of `base` by the transform of `gg`, keeping the
/// triangles; the mesh invariant is preserved.
fn transform_mesh(gg: &GraphicsGeometry, base: Mesh) -> (r: Mesh)
    ensures
        placed_mesh_ok(*gg, base, r),
        base.wf() ==> r.wf(),
{
    let n = base.vertices.len();
    let mut placed: Vec<Point3> = Vec::new();
    for i in 0..n
        invariant
            n == base.vertices@.len(),
            placed@.len() == i,
            forall|j: int|
                0 <= j < i ==> placed@[j] == place_point(
                    gg.rotation,
                    gg.scale,
                    gg.center,
                    base.vertices@[j],
                ),
    {
        let scaled = vscale(&base.vertices[i], gg.scale);
        let rotated = rotate(&gg.rotation, &scaled);
        placed.push(vadd(&rotated, &gg.center));
    }
    proof {
        assert(placed@ =~= place_points(gg.rotation, gg.scale, gg.center, base.vertices@));
    }
    Mesh { vertices: placed, indices: base.indices }
}

impl GraphicsGeometry {
    /// Wraps a solid with a placement; the rotation is built from the
    /// Euler angles `(roll, pitch, yaw)`.
    pub fn new(
        geometry: Geometry,
        rotation_euler: (u64, u64, u64),
        scale: u64,
        center: Point3,
    ) -> (r: GraphicsGeometry)
        ensures
            r.geometry == geometry,
            r.rotation == rotation_from_euler_spec(
                rotation_euler.0,
                rotation_euler.1,
                rotation_euler.2,
            ),
            r.scale == scale,
            r.center == center,
    {
        let rotation = rotation_from_euler(rotation_euler.0, rotation_euler.1, rotation_euler.2);
        GraphicsGeometry { geometry, rotation, scale, center }
    }

    /// The solid's surface mesh, placed in world space.
    pub fn get_surface(&self) -> (r: Mesh)
        ensures
            r.wf(),
            placed_surface_ok(*self, r),
    {
        let base = self.geometry.get_surface_mesh();
        let ghost base_g = base;
        let r = transform_mesh(self, base);
        proof {
            assert(surface_mesh_ok(self.geometry, base_g) && placed_mesh_ok(*self, base_g, r));
        }
        r
    }

    /// The solid's edge mesh, placed in world space. A cube validates the
    /// thickness, so a non-positive `bold` is excluded for cubes.
    pub fn get_edges(&self, bold: u32) -> (r: Mesh)
        requires
            self.geometry matches Geometry::Cube(_) ==> !le_zero_bits_32(bold),
        ensures
            r.wf(),
            placed_edges_ok(*self, bold, r),
    {
        let base = self.geometry.get_edges_mesh(bold);
        let ghost base_g = base;
        let r = transform_mesh(self, base);
        proof {
            assert(edges_mesh_ok(self.geometry, bold, base_g) && placed_mesh_ok(*self, base_g, r));
        }
        r
    }

    /// The bounding volume of the untransformed solid, passed through:
    /// deliberately ignores rotation, scale and translation.
    pub fn minimal_bounding_volume(&self) -> (r: MBV)
        ensures
            r == mbv_spec(self.geometry),
    {
        self.geometry.minimal_bounding_volume()
    }
}

} // verus!
