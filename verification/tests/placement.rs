use nalgebra::{Rotation3, Vector3};
use planetarium::cube::Cube;
use planetarium::geometry::Geometry;
use planetarium::placement::{rotation_from_euler, GraphicsGeometry};
use planetarium::point::Point3;

fn p3(x: f64, y: f64, z: f64) -> Point3 {
    Point3 { x: x.to_bits(), y: y.to_bits(), z: z.to_bits() }
}

fn f(bits: u64) -> f64 {
    f64::from_bits(bits)
}

#[test]
fn rotation_matrix_matches_reference_euler_convention() {
    for &(roll, pitch, yaw) in &[
        (0.0f64, 0.0f64, 0.0f64),
        (0.1, 0.2, 0.3),
        (-1.2, 0.7, 2.9),
        (std::f64::consts::FRAC_PI_2, 0.0, 0.0),
    ] {
        let m = rotation_from_euler(roll.to_bits(), pitch.to_bits(), yaw.to_bits());
        let reference = Rotation3::from_euler_angles(roll, pitch, yaw);
        let rm = reference.matrix();
        assert_eq!(f(m.m00), rm[(0, 0)], "m00 at {:?}", (roll, pitch, yaw));
        assert_eq!(f(m.m01), rm[(0, 1)]);
        assert_eq!(f(m.m02), rm[(0, 2)]);
        assert_eq!(f(m.m10), rm[(1, 0)]);
        assert_eq!(f(m.m11), rm[(1, 1)]);
        assert_eq!(f(m.m12), rm[(1, 2)]);
        assert_eq!(f(m.m20), rm[(2, 0)]);
        assert_eq!(f(m.m21), rm[(2, 1)]);
        assert_eq!(f(m.m22), rm[(2, 2)]);
    }
}

#[test]
fn identity_placement_returns_base_vertices_unchanged() {
    let zero = 0.0f64.to_bits();
    let cube = Cube::new(2.0f64.to_bits());
    let base = cube.get_surface_mesh();
    let gg = GraphicsGeometry::new(
        Geometry::Cube(cube),
        (zero, zero, zero),
        1.0f64.to_bits(),
        p3(0.0, 0.0, 0.0),
    );
    let placed = gg.get_surface();
    assert_eq!(placed.vertices, base.vertices);
    assert_eq!(placed.indices, base.indices);
}

#[test]
fn placement_scales_rotates_and_translates() {
    // Quarter turn about the z axis (yaw), doubled and shifted.
    let cube = Cube::new(2.0f64.to_bits());
    let gg = GraphicsGeometry::new(
        Geometry::Cube(cube),
        (0.0f64.to_bits(), 0.0f64.to_bits(), std::f64::consts::FRAC_PI_2.to_bits()),
        2.0f64.to_bits(),
        p3(10.0, 0.0, 0.0),
    );
    let placed = gg.get_surface();
    let base = Cube::new(2.0f64.to_bits()).get_surface_mesh();
    let reference = Rotation3::from_euler_angles(0.0, 0.0, std::f64::consts::FRAC_PI_2);
    for (v, b) in placed.vertices.iter().zip(base.vertices.iter()) {
        let scaled = Vector3::new(f(b.x) * 2.0, f(b.y) * 2.0, f(b.z) * 2.0);
        let rotated = reference * scaled;
        let expected = rotated + Vector3::new(10.0, 0.0, 0.0);
        assert!((f(v.x) - expected.x).abs() < 1e-12);
        assert!((f(v.y) - expected.y).abs() < 1e-12);
        assert!((f(v.z) - expected.z).abs() < 1e-12);
    }
}

#[test]
fn bounding_volume_ignores_placement() {
    let cube = Cube::new(3.0f64.to_bits());
    let gg = GraphicsGeometry::new(
        Geometry::Cube(cube),
        (1.0f64.to_bits(), 2.0f64.to_bits(), 3.0f64.to_bits()),
        5.0f64.to_bits(),
        p3(7.0, 8.0, 9.0),
    );
    let mbv = gg.minimal_bounding_volume();
    assert_eq!((f(mbv.0), f(mbv.1), f(mbv.2)), (3.0, 3.0, 3.0));
}
