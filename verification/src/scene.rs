//! Scene composition and the per-frame orbital tick.
//!
//! A scene is a list of planets, each a placed ball with an angular speed.
//! The factory turns declarative configuration records into planets; the
//! tick advances each planet's azimuth through the coordinate engine; the
//! composer concatenates per-object meshes into single vertex and index
//! buffers, rebasing every triangle by the running vertex count so that
//! cross-object index collisions cannot occur.

use vstd::prelude::*;

use crate::ball::Ball;
use crate::coords::{coord_from_cartesian, tick_spec, Coord};
use crate::geometry::Geometry;
use crate::mesh::{tri_in_bounds, Mesh};
use crate::placement::{
    placed_edges_ok, placed_surface_ok, rotation_from_euler_spec, GraphicsGeometry,
};
use crate::point::Point3;
use crate::scalar::{
    add_bits_32, div_bits_32, le_zero_bits_32, mul_bits, mul_bits_32, narrow_bits, of_u32_bits_32,
    real_add, real_mul, real_of_single, real_sqrt, single_add, single_div, single_mul,
    single_of_real, single_of_u32, sqrt_bits, widen_bits, FORTY_BITS_32, NEG_ONE_BITS_32,
    ONE_BITS, PI_BITS_32, ZERO_BITS, ZERO_BITS_32,
};

verus! {

/// Scene units per astronomical unit (binary32 bit pattern of 100.0).
pub const ORBIT_SCALE_BITS_32: u32 = 0x42C8_0000;

/// Days per year (binary32 bit pattern of 365.0).
pub const DAYS_PER_YEAR_BITS_32: u32 = 0x43B6_8000;

/// Base radius every planet ball is scaled by (binary64 bit pattern of
/// 2.0).
pub const PLANET_RADIUS_BITS: u64 = 0x4000_0000_0000_0000;

/// The sense in which a planet orbits.
#[derive(Clone, Copy, PartialEq, Eq, Structural, Debug)]
pub enum MoveDirection {
    Cw,
    Ccw,
}

/// One planet's declarative configuration record, as plain values.
pub struct PlanetRecord {
    pub name: String,
    pub year_dur_re: u32,
    pub r_au: u64,
    pub radius_re: u64,
    pub texture_path: String,
    pub move_direction: MoveDirection,
    pub day_dur_re: u64,
    pub is_giant: bool,
}

/// A scene object: a placed solid, its texture slot, and its angular
/// speed per tick (binary32 bit pattern).
#[derive(Clone, Copy)]
pub struct Planet {
    pub geom_obj: GraphicsGeometry,
    pub texture: i32,
    pub angle_speed: u32,
}

/// The base angular speed: `pi / 40` in binary32.
pub open spec fn base_angle_speed_spec() -> u32 {
    div_bits_32(PI_BITS_32, FORTY_BITS_32)
}

/// A planet's uniform scale: its relative radius, square-rooted for
/// giants, times the base planet radius.
pub open spec fn planet_scale_spec(radius_re: u64, is_giant: bool) -> u64 {
    let s = if is_giant {
        sqrt_bits(radius_re)
    } else {
        radius_re
    };
    mul_bits(s, PLANET_RADIUS_BITS)
}

/// A planet's initial center: on the x axis, at its orbital radius in
/// scene units (computed in binary32, then widened).
pub open spec fn planet_center_spec(r_au: u64) -> Point3 {
    Point3 {
        x: widen_bits(
            add_bits_32(ZERO_BITS_32, mul_bits_32(ORBIT_SCALE_BITS_32, narrow_bits(r_au))),
        ),
        y: widen_bits(ZERO_BITS_32),
        z: widen_bits(ZERO_BITS_32),
    }
}

/// A planet's angular speed: the base speed scaled by year length, with
/// the sign flipped (by a multiplication with -1) for counter-clockwise
/// movers.
pub open spec fn planet_speed_spec(year_dur_re: u32, direction: MoveDirection) -> u32 {
    let s = div_bits_32(
        mul_bits_32(base_angle_speed_spec(), DAYS_PER_YEAR_BITS_32),
        of_u32_bits_32(year_dur_re),
    );
    match direction {
        MoveDirection::Cw => s,
        MoveDirection::Ccw => mul_bits_32(s, NEG_ONE_BITS_32),
    }
}

/// The scene object a configuration record describes: a unit ball,
/// identity rotation, the derived scale, center and speed.
pub open spec fn planet_from_record_spec(rec: PlanetRecord) -> Planet {
    Planet {
        geom_obj: GraphicsGeometry {
            geometry: Geometry::Ball(Ball { radius: ONE_BITS }),
            rotation: rotation_from_euler_spec(ZERO_BITS, ZERO_BITS, ZERO_BITS),
            scale: planet_scale_spec(rec.radius_re, rec.is_giant),
            center: planet_center_spec(rec.r_au),
        },
        texture: 0,
        angle_speed: planet_speed_spec(rec.year_dur_re, rec.move_direction),
    }
}

/// One orbital tick applied to a Cartesian center: rebuild the dual
/// coordinate, advance the azimuth by the widened angular speed, read the
/// Cartesian form back.
pub open spec fn orbit_step_spec(center: Point3, w32: u32) -> Point3 {
    let c = coord_from_cartesian(center.x, center.y, center.z);
    let c2 = tick_spec(c, widen_bits(w32));
    Point3 { x: c2.x, y: c2.y, z: c2.z }
}

/// A planet after one tick: only the center moves.
pub open spec fn planet_ticked_spec(p: Planet) -> Planet {
    Planet {
        geom_obj: GraphicsGeometry {
            geometry: p.geom_obj.geometry,
            rotation: p.geom_obj.rotation,
            scale: p.geom_obj.scale,
            center: orbit_step_spec(p.geom_obj.center, p.angle_speed),
        },
        texture: p.texture,
        angle_speed: p.angle_speed,
    }
}

/// The triangle `t` with every index moved up by `off`.
pub open spec fn offset_tri(t: (usize, usize, usize), off: int) -> (usize, usize, usize) {
    (((t.0 + off) as usize), ((t.1 + off) as usize), ((t.2 + off) as usize))
}

/// The first `k` meshes of `ms` concatenated: vertices appended in
/// order, every triangle rebased by the vertex count that preceded its
/// mesh.
pub open spec fn compose_rec(ms: Seq<Mesh>, k: int) -> (Seq<Point3>, Seq<(usize, usize, usize)>)
    decreases k,
{
    if k <= 0 {
        (Seq::empty(), Seq::empty())
    } else {
        let p = compose_rec(ms, k - 1);
        let m = ms[k - 1];
        let off = p.0.len() as int;
        (p.0 + m.vertices@, p.1 + m.indices@.map_values(|t: (usize, usize, usize)| offset_tri(t, off)))
    }
}

/// All of `ms` concatenated.
pub open spec fn compose_spec(ms: Seq<Mesh>) -> (Seq<Point3>, Seq<(usize, usize, usize)>) {
    compose_rec(ms, ms.len() as int)
}

/// `ms` are surface meshes the planets `ps` can produce, one per planet.
pub open spec fn scene_surfaces_ok(ps: Seq<Planet>, ms: Seq<Mesh>) -> bool {
    ms.len() == ps.len() && forall|k: int|
        0 <= k < ps.len() ==> #[trigger] placed_surface_ok(ps[k].geom_obj, ms[k]) && ms[k].wf()
}

/// `ms` are edge meshes the planets `ps` can produce for `bold`.
pub open spec fn scene_edges_ok(ps: Seq<Planet>, bold: u32, ms: Seq<Mesh>) -> bool {
    ms.len() == ps.len() && forall|k: int|
        0 <= k < ps.len() ==> #[trigger] placed_edges_ok(ps[k].geom_obj, bold, ms[k]) && ms[k].wf()
}

/// Builds the scene objects a configuration record list describes.
pub fn planets_from_records(records: &Vec<PlanetRecord>) -> (r: Vec<Planet>)
    ensures
        r@.len() == records@.len(),
        forall|i: int| 0 <= i < r@.len() ==> r@[i] == planet_from_record_spec(records@[i]),
{
    let n = records.len();
    let mut out: Vec<Planet> = Vec::new();
    for i in 0..n
        invariant
            n == records@.len(),
            out@.len() == i,
            forall|j: int| 0 <= j < i ==> out@[j] == planet_from_record_spec(records@[j]),
    {
        let radius_re = records[i].radius_re;
        let is_giant = records[i].is_giant;
        let r_au = records[i].r_au;
        let year = records[i].year_dur_re;
        let ccw = matches!(records[i].move_direction, MoveDirection::Ccw);
        let ball = Ball::new(ONE_BITS);
        let scale_base = if is_giant {
            real_sqrt(radius_re)
        } else {
            radius_re
        };
        let scale = real_mul(scale_base, PLANET_RADIUS_BITS);
        let center = Point3 {
            x: real_of_single(
                single_add(ZERO_BITS_32, single_mul(ORBIT_SCALE_BITS_32, single_of_real(r_au))),
            ),
            y: real_of_single(ZERO_BITS_32),
            z: real_of_single(ZERO_BITS_32),
        };
        let geom_obj = GraphicsGeometry::new(
            Geometry::Ball(ball),
            (ZERO_BITS, ZERO_BITS, ZERO_BITS),
            scale,
            center,
        );
        let base = single_div(PI_BITS_32, FORTY_BITS_32);
        let mut angle_speed = single_div(
            single_mul(base, DAYS_PER_YEAR_BITS_32),
            single_of_u32(year),
        );
        if ccw {
            angle_speed = single_mul(angle_speed, NEG_ONE_BITS_32);
        }
        out.push(Planet { geom_obj, texture: 0, angle_speed });
    }
    out
}

/// Advances every planet by one orbital tick: each center moves along its
/// orbit by the planet's own angular speed; nothing else changes.
pub fn advance_tick(planets: &mut Vec<Planet>)
    ensures
        final(planets)@.len() == old(planets)@.len(),
        forall|i: int|
            0 <= i < old(planets)@.len() ==> final(planets)@[i] == planet_ticked_spec(
                old(planets)@[i],
            ),
{
    let n = planets.len();
    let mut out: Vec<Planet> = Vec::new();
    for i in 0..n
        invariant
            planets@ == old(planets)@,
            n == planets@.len(),
            out@.len() == i,
            forall|j: int| 0 <= j < i ==> out@[j] == planet_ticked_spec(planets@[j]),
    {
        let p = planets[i];
        let c = p.geom_obj.center;
        let mut coord = Coord::new_cartesian(c.x, c.y, c.z);
        let rr = coord.r;
        let az = real_add(coord.azimuth, real_of_single(p.angle_speed));
        let el = coord.elevation;
        coord.set_spherical(rr, az, el);
        let center = Point3 { x: coord.x, y: coord.y, z: coord.z };
        out.push(
            Planet {
                geom_obj: GraphicsGeometry {
                    geometry: p.geom_obj.geometry,
                    rotation: p.geom_obj.rotation,
                    scale: p.geom_obj.scale,
                    center,
                },
                texture: p.texture,
                angle_speed: p.angle_speed,
            },
        );
    }
    *planets = out;
}

/// Concatenates well-formed meshes into one: vertices in order, every
/// triangle rebased by the running vertex count. The result is exactly
/// `compose_spec` of the inputs and is itself well-formed.
pub fn compose_meshes(meshes: &Vec<Mesh>) -> (r: Mesh)
    requires
        forall|k: int| 0 <= k < meshes@.len() ==> (#[trigger] meshes@[k]).wf(),
    ensures
        r.vertices@ == compose_spec(meshes@).0,
        r.indices@ == compose_spec(meshes@).1,
        r.wf(),
{
    let n = meshes.len();
    let mut vertices: Vec<Point3> = Vec::new();
    let mut indices: Vec<(usize, usize, usize)> = Vec::new();
    for k in 0..n
        invariant
            n == meshes@.len(),
            forall|j: int| 0 <= j < meshes@.len() ==> (#[trigger] meshes@[j]).wf(),
            vertices@ == compose_rec(meshes@, k as int).0,
            indices@ == compose_rec(meshes@, k as int).1,
            forall|i: int|
                0 <= i < indices@.len() ==> tri_in_bounds(
                    #[trigger] indices@[i],
                    vertices@.len() as int,
                ),
    {
        let offset = vertices.len();
        let ghost pre_verts = vertices@;
        let ghost pre_inds = indices@;
        let vcount = meshes[k].vertices.len();
        for i in 0..vcount
            invariant
                n == meshes@.len(),
                k < n,
                vcount == meshes@[k as int].vertices@.len(),
                vertices@ == pre_verts + meshes@[k as int].vertices@.take(i as int),
        {
            let v = meshes[k].vertices[i];
            vertices.push(v);
            proof {
                assert(pre_verts + meshes@[k as int].vertices@.take(i + 1) =~= (pre_verts
                    + meshes@[k as int].vertices@.take(i as int)).push(
                    meshes@[k as int].vertices@[i as int],
                ));
            }
        }
        proof {
            assert(meshes@[k as int].vertices@.take(vcount as int) =~= meshes@[k as int].vertices@);
        }
        let total = vertices.len();
        proof {
            assert(total == offset + vcount);
        }
        let icount = meshes[k].indices.len();
        for j in 0..icount
            invariant
                n == meshes@.len(),
                k < n,
                icount == meshes@[k as int].indices@.len(),
                vcount == meshes@[k as int].vertices@.len(),
                offset == pre_verts.len(),
                total == offset + vcount,
                vertices@ == pre_verts + meshes@[k as int].vertices@,
                forall|jj: int| 0 <= jj < meshes@.len() ==> (#[trigger] meshes@[jj]).wf(),
                forall|i: int|
                    0 <= i < pre_inds.len() ==> tri_in_bounds(
                        #[trigger] pre_inds[i],
                        pre_verts.len() as int,
                    ),
                indices@ == pre_inds + meshes@[k as int].indices@.take(j as int).map_values(
                    |t: (usize, usize, usize)| offset_tri(t, offset as int),
                ),
        {
            let t = meshes[k].indices[j];
            proof {
                assert(meshes@[k as int].wf());
                assert(tri_in_bounds(meshes@[k as int].indices@[j as int], vcount as int));
                assert(vertices@.len() == offset + vcount);
            }
            indices.push((t.0 + offset, t.1 + offset, t.2 + offset));
            proof {
                let mk = meshes@[k as int].indices@;
                assert(mk.take(j + 1).map_values(
                    |t: (usize, usize, usize)| offset_tri(t, offset as int),
                ) =~= mk.take(j as int).map_values(
                    |t: (usize, usize, usize)| offset_tri(t, offset as int),
                ).push(offset_tri(mk[j as int], offset as int)));
            }
        }
        proof {
            let mk = meshes@[k as int].indices@;
            assert(mk.take(icount as int) =~= mk);
            assert(forall|i: int|
                0 <= i < indices@.len() ==> tri_in_bounds(
                    #[trigger] indices@[i],
                    vertices@.len() as int,
                ));
        }
    }
    Mesh { vertices, indices }
}

/// The scene's combined surface mesh: every planet's placed surface,
/// concatenated with index rebasing.
pub fn compose_scene_surfaces(planets: &Vec<Planet>) -> (r: Mesh)
    ensures
        r.wf(),
        exists|ms: Seq<Mesh>|
            #[trigger] scene_surfaces_ok(planets@, ms) && r.vertices@ == compose_spec(ms).0
                && r.indices@ == compose_spec(ms).1,
{
    let n = planets.len();
    let mut meshes: Vec<Mesh> = Vec::new();
    for i in 0..n
        invariant
            n == planets@.len(),
            meshes@.len() == i,
            forall|j: int|
                0 <= j < i ==> #[trigger] placed_surface_ok(planets@[j].geom_obj, meshes@[j]),
            forall|j: int| 0 <= j < i ==> (#[trigger] meshes@[j]).wf(),
    {
        let p = planets[i];
        meshes.push(p.geom_obj.get_surface());
    }
    let r = compose_meshes(&meshes);
    proof {
        assert(scene_surfaces_ok(planets@, meshes@));
    }
    r
}

/// The scene's combined edge mesh: every planet's placed wireframe,
/// concatenated with index rebasing. Cube-shaped objects validate the
/// thickness, so a non-positive `bold` is excluded for them.
pub fn compose_scene_edges(planets: &Vec<Planet>, bold: u32) -> (r: Mesh)
    requires
        forall|k: int|
            0 <= k < planets@.len() ==> ((#[trigger] planets@[k].geom_obj.geometry) matches
            Geometry::Cube(_) ==> !le_zero_bits_32(bold)),
    ensures
        r.wf(),
        exists|ms: Seq<Mesh>|
            #[trigger] scene_edges_ok(planets@, bold, ms) && r.vertices@ == compose_spec(ms).0
                && r.indices@ == compose_spec(ms).1,
{
    let n = planets.len();
    let mut meshes: Vec<Mesh> = Vec::new();
    for i in 0..n
        invariant
            n == planets@.len(),
            meshes@.len() == i,
            forall|k: int|
                0 <= k < planets@.len() ==> ((#[trigger] planets@[k].geom_obj.geometry) matches
                Geometry::Cube(_) ==> !le_zero_bits_32(bold)),
            forall|j: int|
                0 <= j < i ==> #[trigger] placed_edges_ok(planets@[j].geom_obj, bold, meshes@[j]),
            forall|j: int| 0 <= j < i ==> (#[trigger] meshes@[j]).wf(),
    {
        let p = planets[i];
        meshes.push(p.geom_obj.get_edges(bold));
    }
    let r = compose_meshes(&meshes);
    proof {
        assert(scene_edges_ok(planets@, bold, meshes@));
    }
    r
}

} // verus!
