//! The ball solid: a Fibonacci-lattice point cloud on a sphere, surfaced
//! through the convex-hull collaborator.

use vstd::prelude::*;

use crate::edges::{build_edge_mesh, edge_mesh_spec};
use crate::hull::quick_hull;
use crate::mesh::{tri_in_bounds, Mesh, MBV};
use crate::point::{pt_scale, vscale, Point3};
use crate::scalar::{
    add_bits, cos_bits, div_bits, fract_bits, mul_bits, of_usize_bits, real_add, real_cos,
    real_div, real_fract, real_mul, real_of_usize, real_sin, real_sqrt, real_sub, sin_bits,
    sqrt_bits, sub_bits, FIVE_BITS, HALF_BITS, ONE_BITS, PI_BITS, TWO_BITS,
};

verus! {

/// Number of lattice points sampled on a ball's surface.
pub const SPHERE_SAMPLE_COUNT: usize = 100;

/// A ball of the given radius (binary64 bit pattern), centered at the
/// origin.
#[derive(Clone, Copy)]
pub struct Ball {
    pub radius: u64,
}

/// The golden ratio as computed at run time: `(1 + sqrt(5)) / 2`.
pub open spec fn golden_ratio_bits() -> u64 {
    div_bits(add_bits(ONE_BITS, sqrt_bits(FIVE_BITS)), TWO_BITS)
}

/// The `i`-th of `n` Fibonacci-lattice points on the sphere of radius `r`:
/// `z` descends linearly through `[-1, 1]`, the azimuth advances by the
/// golden ratio, and the point is scaled by `r`.
pub open spec fn fib_point(i: usize, n: usize, r: u64) -> Point3 {
    let ifl = add_bits(of_usize_bits(i), HALF_BITS);
    let z = sub_bits(ONE_BITS, div_bits(mul_bits(TWO_BITS, ifl), of_usize_bits(n)));
    let phi = mul_bits(mul_bits(TWO_BITS, PI_BITS), fract_bits(mul_bits(ifl, golden_ratio_bits())));
    let r_xy = sqrt_bits(sub_bits(ONE_BITS, mul_bits(z, z)));
    let x = mul_bits(r_xy, cos_bits(phi));
    let y = mul_bits(r_xy, sin_bits(phi));
    pt_scale(Point3 { x, y, z }, r)
}

/// The full lattice: `n` points, the `i`-th being `fib_point(i, n, r)`.
pub open spec fn fib_points(n: usize, r: u64) -> Seq<Point3> {
    Seq::new(n as nat, |i: int| fib_point(i as usize, n, r))
}

/// Deterministic low-discrepancy sampling of the sphere of radius `r`
/// with `n` points; the result is exactly `fib_points(n, r)`.
pub fn fibonacci_sphere_points(n: usize, r: u64) -> (pts: Vec<Point3>)
    ensures
        pts@ == fib_points(n, r),
{
    let golden_ratio = real_div(real_add(ONE_BITS, real_sqrt(FIVE_BITS)), TWO_BITS);
    let mut pts: Vec<Point3> = Vec::new();
    for i in 0..n
        invariant
            golden_ratio == golden_ratio_bits(),
            pts@.len() == i,
            forall|j: int| 0 <= j < i ==> pts@[j] == fib_point(j as usize, n, r),
    {
        let ifl = real_add(real_of_usize(i), HALF_BITS);
        let z = real_sub(ONE_BITS, real_div(real_mul(TWO_BITS, ifl), real_of_usize(n)));
        let phi = real_mul(real_mul(TWO_BITS, PI_BITS), real_fract(real_mul(ifl, golden_ratio)));
        let r_xy = real_sqrt(real_sub(ONE_BITS, real_mul(z, z)));
        let x = real_mul(r_xy, real_cos(phi));
        let y = real_mul(r_xy, real_sin(phi));
        pts.push(vscale(&Point3 { x, y, z }, r));
    }
    proof {
        assert(pts@ =~= fib_points(n, r));
    }
    pts
}

/// Law: the sphere sampler is deterministic. Any two point sequences that
/// meet the sampler's postcondition for the same `n` and `r` are
/// identical.
pub proof fn lemma_sampler_deterministic(a: Seq<Point3>, b: Seq<Point3>, n: usize, r: u64)
    requires
        a == fib_points(n, r),
        b == fib_points(n, r),
    ensures
        a == b,
{
}

/// The edge mesh `m` is what the wireframe extractor derives from the
/// ball's sample cloud triangulated by the face set `tris`.
pub open spec fn ball_edge_mesh_from(
    radius: u64,
    bold: u32,
    tris: Seq<(usize, usize, usize)>,
    m: Mesh,
) -> bool {
    &&& forall|i: int|
        0 <= i < tris.len() ==> tri_in_bounds(#[trigger] tris[i], SPHERE_SAMPLE_COUNT as int)
    &&& m.vertices@ == edge_mesh_spec(fib_points(SPHERE_SAMPLE_COUNT, radius), tris, bold).0
    &&& m.indices@ == edge_mesh_spec(fib_points(SPHERE_SAMPLE_COUNT, radius), tris, bold).1
}

/// Bounding box of a ball: a cube of side `2 * radius`.
pub open spec fn ball_mbv_spec(radius: u64) -> MBV {
    let side = mul_bits(TWO_BITS, radius);
    MBV(side, side, side)
}

impl Ball {
    pub fn new(radius: u64) -> (r: Ball)
        ensures
            r.radius == radius,
    {
        Ball { radius }
    }

    /// Samples the lattice and triangulates it through the hull solver; a
    /// degenerate cloud yields an empty face list ("no surface"), never a
    /// panic.
    fn build_surface_mesh(&self) -> (r: Mesh)
        ensures
            r.vertices@ == fib_points(SPHERE_SAMPLE_COUNT, self.radius),
            r.wf(),
    {
        let vertices = fibonacci_sphere_points(SPHERE_SAMPLE_COUNT, self.radius);
        let indices = quick_hull(&vertices);
        Mesh { vertices, indices }
    }

    /// The ball's triangulated surface: exactly the Fibonacci sample
    /// cloud, with hull faces that respect the mesh invariant.
    pub fn get_surface_mesh(&self) -> (r: Mesh)
        ensures
            r.vertices@ == fib_points(SPHERE_SAMPLE_COUNT, self.radius),
            r.wf(),
    {
        self.build_surface_mesh()
    }

    /// The ball's thickened-wireframe mesh, derived by the extractor from
    /// a freshly built surface.
    pub fn get_edges_mesh(&self, bold: u32) -> (r: Mesh)
        ensures
            r.wf(),
            exists|tris: Seq<(usize, usize, usize)>|
                #[trigger] ball_edge_mesh_from(self.radius, bold, tris, r),
    {
        let vertices = fibonacci_sphere_points(SPHERE_SAMPLE_COUNT, self.radius);
        let surface_indices = quick_hull(&vertices);
        let surface_mesh = Mesh { vertices, indices: surface_indices };
        let r = build_edge_mesh(&surface_mesh, bold);
        proof {
            let tris = surface_mesh.indices@;
            assert(ball_edge_mesh_from(self.radius, bold, tris, r));
        }
        r
    }

    /// Bounding box of the ball: a cube of side `2 * radius`.
    pub fn minimal_bounding_volume(&self) -> (r: MBV)
        ensures
            r == ball_mbv_spec(self.radius),
    {
        let side = real_mul(TWO_BITS, self.radius);
        MBV(side, side, side)
    }
}

} // verus!
