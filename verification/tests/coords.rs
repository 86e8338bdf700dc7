use planetarium::coords::Coord;

fn f(bits: u64) -> f64 {
    f64::from_bits(bits)
}

fn close(a: f64, b: f64) {
    assert!((a - b).abs() <= 1e-9 * 1f64.max(b.abs()), "{} != {}", a, b);
}

#[test]
fn cartesian_constructor_matches_direct_computation() {
    for &(x, y, z) in &[
        (1.0f64, 2.0f64, 3.0f64),
        (-4.0, 0.5, 2.0),
        (0.25, -0.75, -1.5),
        (3.0, 4.0, 0.0),
    ] {
        let c = Coord::new_cartesian(x.to_bits(), y.to_bits(), z.to_bits());
        let r = (x * x + y * y + z * z).sqrt();
        let azimuth = if x == 0.0 && y == 0.0 { 0.0 } else { y.atan2(x) };
        let elevation = if r == 0.0 { 0.0 } else { (z / r).asin() };
        assert_eq!(f(c.r), r);
        assert_eq!(f(c.azimuth), azimuth);
        assert_eq!(f(c.elevation), elevation);
        assert_eq!((f(c.x), f(c.y), f(c.z)), (x, y, z));
    }
}

#[test]
fn pythagorean_radius_is_exact() {
    let c = Coord::new_cartesian(3.0f64.to_bits(), 4.0f64.to_bits(), 0.0f64.to_bits());
    assert_eq!(f(c.r), 5.0);
}

#[test]
fn origin_gets_zero_angles() {
    let c = Coord::new_cartesian(0.0f64.to_bits(), 0.0f64.to_bits(), 0.0f64.to_bits());
    assert_eq!(f(c.r), 0.0);
    assert_eq!(f(c.azimuth), 0.0);
    assert_eq!(f(c.elevation), 0.0);
    // On the z axis the azimuth is defined as 0 as well.
    let c = Coord::new_cartesian(0.0f64.to_bits(), 0.0f64.to_bits(), 2.0f64.to_bits());
    assert_eq!(f(c.azimuth), 0.0);
    assert_eq!(f(c.r), 2.0);
}

#[test]
fn spherical_constructor_matches_direct_computation() {
    let (r, az, el) = (2.0f64, 0.7f64, -0.3f64);
    let c = Coord::new_spherical(r.to_bits(), az.to_bits(), el.to_bits());
    assert_eq!(f(c.x), r * el.cos() * az.cos());
    assert_eq!(f(c.y), r * el.cos() * az.sin());
    assert_eq!(f(c.z), r * el.sin());
    let (sr, saz, sel) = {
        let t = c.spherical();
        (f(t.0), f(t.1), f(t.2))
    };
    assert_eq!((sr, saz, sel), (r, az, el));
}

#[test]
fn round_trip_cartesian_spherical_cartesian() {
    for &(x, y, z) in &[
        (1.0f64, 2.0f64, 3.0f64),
        (-0.8, 1.3, -2.2),
        (5.0, -0.001, 0.4),
        (-7.5, -7.5, 7.5),
        (0.0, 0.0, 1.0),
    ] {
        let c = Coord::new_cartesian(x.to_bits(), y.to_bits(), z.to_bits());
        let (r, az, el) = c.spherical();
        let back = Coord::new_spherical(r, az, el);
        let t = back.cartesian();
        close(f(t.0), x);
        close(f(t.1), y);
        close(f(t.2), z);
    }
}

#[test]
fn setters_recompute_the_other_representation() {
    let mut c = Coord::new_cartesian(1.0f64.to_bits(), 0.0f64.to_bits(), 0.0f64.to_bits());
    c.set_cartesian(0.0f64.to_bits(), 2.0f64.to_bits(), 0.0f64.to_bits());
    assert_eq!(f(c.r), 2.0);
    assert_eq!(f(c.azimuth), std::f64::consts::FRAC_PI_2);
    c.set_spherical(3.0f64.to_bits(), 0.0f64.to_bits(), 0.0f64.to_bits());
    assert_eq!((f(c.x), f(c.y), f(c.z)), (3.0, 0.0, 0.0));
}

#[test]
fn vector_operations_renormalize() {
    let a = Coord::new_cartesian(1.0f64.to_bits(), 2.0f64.to_bits(), 2.0f64.to_bits());
    let b = Coord::new_cartesian(2.0f64.to_bits(), (-1.0f64).to_bits(), 0.0f64.to_bits());
    let s = a.plus(&b);
    assert_eq!((f(s.x), f(s.y), f(s.z)), (3.0, 1.0, 2.0));
    let d = a.minus(&b);
    assert_eq!((f(d.x), f(d.y), f(d.z)), (-1.0, 3.0, 2.0));
    let m = a.times(2.0f64.to_bits());
    assert_eq!((f(m.x), f(m.y), f(m.z)), (2.0, 4.0, 4.0));
    assert_eq!(f(m.r), 6.0);
}
