use planetarium::ball::{fibonacci_sphere_points, Ball, SPHERE_SAMPLE_COUNT};
use planetarium::point::Point3;

fn f(bits: u64) -> f64 {
    f64::from_bits(bits)
}

#[test]
fn sampler_deterministic() {
    let r = 2.5f64.to_bits();
    let a = fibonacci_sphere_points(100, r);
    let b = fibonacci_sphere_points(100, r);
    assert_eq!(a.len(), 100);
    assert_eq!(a, b);
}

#[test]
fn sampler_matches_direct_computation() {
    let n: usize = 100;
    let radius = 1.75f64;
    let pts = fibonacci_sphere_points(n, radius.to_bits());
    let golden_ratio = (1.0 + 5f64.sqrt()) / 2.0;
    for i in 0..n {
        let z = 1.0 - 2.0 * ((i as f64) + 0.5) / n as f64;
        let phi = 2.0 * std::f64::consts::PI * (((i as f64) + 0.5) * golden_ratio).fract();
        let r_xy = (1.0 - z * z).sqrt();
        let x = r_xy * phi.cos();
        let y = r_xy * phi.sin();
        let expected = Point3 {
            x: (x * radius).to_bits(),
            y: (y * radius).to_bits(),
            z: (z * radius).to_bits(),
        };
        assert_eq!(pts[i], expected, "point {} differs", i);
    }
}

#[test]
fn sampler_points_lie_on_sphere() {
    let radius = 3.0f64;
    let pts = fibonacci_sphere_points(100, radius.to_bits());
    for p in &pts {
        let mag = (f(p.x) * f(p.x) + f(p.y) * f(p.y) + f(p.z) * f(p.z)).sqrt();
        assert!((mag - radius).abs() < 1e-9, "magnitude {} is off the sphere", mag);
    }
}

#[test]
fn ball_surface_mesh_is_sample_cloud_with_bounded_faces() {
    let ball = Ball::new(1.0f64.to_bits());
    let mesh = ball.get_surface_mesh();
    assert_eq!(mesh.vertices.len(), SPHERE_SAMPLE_COUNT);
    assert!(!mesh.indices.is_empty(), "a sphere cloud must triangulate");
    for t in &mesh.indices {
        assert!(t.0 < mesh.vertices.len());
        assert!(t.1 < mesh.vertices.len());
        assert!(t.2 < mesh.vertices.len());
    }
}

#[test]
fn degenerate_cloud_yields_no_surface() {
    // Fewer than four points.
    let few: Vec<Point3> = vec![
        Point3 { x: 0f64.to_bits(), y: 0f64.to_bits(), z: 0f64.to_bits() },
        Point3 { x: 1f64.to_bits(), y: 0f64.to_bits(), z: 0f64.to_bits() },
    ];
    assert!(planetarium::hull::quick_hull(&few).is_empty());
    // Collinear points.
    let line: Vec<Point3> = (0..6)
        .map(|i| Point3 {
            x: (i as f64).to_bits(),
            y: 0f64.to_bits(),
            z: 0f64.to_bits(),
        })
        .collect();
    assert!(planetarium::hull::quick_hull(&line).is_empty());
}
