use planetarium::cube::Cube;
use planetarium::geometry::Geometry;
use planetarium::mesh::Mesh;
use planetarium::placement::GraphicsGeometry;
use planetarium::point::Point3;
use planetarium::scene::{
    advance_tick, compose_meshes, compose_scene_surfaces, planets_from_records, MoveDirection,
    PlanetRecord,
};

fn p3(x: f64, y: f64, z: f64) -> Point3 {
    Point3 { x: x.to_bits(), y: y.to_bits(), z: z.to_bits() }
}

fn f(bits: u64) -> f64 {
    f64::from_bits(bits)
}

fn quad_mesh(origin: f64) -> Mesh {
    Mesh {
        vertices: vec![
            p3(origin, 0.0, 0.0),
            p3(origin + 1.0, 0.0, 0.0),
            p3(origin + 1.0, 1.0, 0.0),
            p3(origin, 1.0, 0.0),
        ],
        indices: vec![(0, 1, 2), (0, 2, 3)],
    }
}

#[test]
fn scene_rebase_offsets_second_object_by_first_vertex_count() {
    let a = quad_mesh(0.0);
    let b = quad_mesh(10.0);
    let meshes = vec![a.clone(), b.clone()];
    let combined = compose_meshes(&meshes);
    assert_eq!(combined.vertices.len(), 8);
    assert_eq!(combined.indices.len(), 4);
    assert_eq!(&combined.vertices[..4], &a.vertices[..]);
    assert_eq!(&combined.vertices[4..], &b.vertices[..]);
    assert_eq!(combined.indices[0], (0, 1, 2));
    assert_eq!(combined.indices[1], (0, 2, 3));
    assert_eq!(combined.indices[2], (4, 5, 6));
    assert_eq!(combined.indices[3], (4, 6, 7));
    let max = combined.indices.iter().map(|t| t.0.max(t.1).max(t.2)).max().unwrap();
    assert!(max < combined.vertices.len());
}

#[test]
fn compose_handles_empty_input_and_empty_meshes() {
    let empty: Vec<Mesh> = Vec::new();
    let combined = compose_meshes(&empty);
    assert!(combined.vertices.is_empty());
    assert!(combined.indices.is_empty());
    let meshes = vec![
        Mesh { vertices: Vec::new(), indices: Vec::new() },
        quad_mesh(0.0),
    ];
    let combined = compose_meshes(&meshes);
    assert_eq!(combined.vertices.len(), 4);
    assert_eq!(combined.indices, vec![(0, 1, 2), (0, 2, 3)]);
}

fn record(name: &str, year: u32, r_au: f64, radius_re: f64, dir: MoveDirection, giant: bool) -> PlanetRecord {
    PlanetRecord {
        name: name.to_string(),
        year_dur_re: year,
        r_au: r_au.to_bits(),
        radius_re: radius_re.to_bits(),
        texture_path: String::new(),
        move_direction: dir,
        day_dur_re: 1.0f64.to_bits(),
        is_giant: giant,
    }
}

#[test]
fn factory_builds_placed_unit_balls() {
    let records = vec![
        record("inner", 365, 1.0, 1.0, MoveDirection::Cw, false),
        record("giant", 4333, 5.2, 11.2, MoveDirection::Ccw, true),
    ];
    let planets = planets_from_records(&records);
    assert_eq!(planets.len(), 2);

    // First planet: scale = 1.0 * 2.0, center x = 0 + 100 * 1 (in
    // binary32), unit ball.
    let p = &planets[0];
    assert_eq!(f(p.geom_obj.scale), 2.0);
    let expected_x = (0.0f32 + (100.0f32 * 1.0f64 as f32)) as f64;
    assert_eq!(f(p.geom_obj.center.x), expected_x);
    assert_eq!(f(p.geom_obj.center.y), 0.0);
    assert_eq!(f(p.geom_obj.center.z), 0.0);
    match p.geom_obj.geometry {
        Geometry::Ball(b) => assert_eq!(f(b.radius), 1.0),
        _ => panic!("expected a ball"),
    }
    let base = std::f64::consts::PI as f32 / 40.0;
    let expected_speed = base * 365.0 / 365u32 as f32;
    assert_eq!(f32::from_bits(p.angle_speed), expected_speed);

    // Second planet: giant, so the relative radius is square-rooted;
    // counter-clockwise, so the speed is negated.
    let p = &planets[1];
    assert_eq!(f(p.geom_obj.scale), 11.2f64.sqrt() * 2.0);
    let expected_x = (0.0f32 + (100.0f32 * 5.2f64 as f32)) as f64;
    assert_eq!(f(p.geom_obj.center.x), expected_x);
    let expected_speed = (base * 365.0 / 4333u32 as f32) * -1.0;
    assert_eq!(f32::from_bits(p.angle_speed), expected_speed);
}

#[test]
fn tick_advances_azimuth_and_keeps_radius_and_elevation() {
    let records = vec![record("orbiter", 730, 2.0, 1.0, MoveDirection::Cw, false)];
    let mut planets = planets_from_records(&records);
    let speed = f32::from_bits(planets[0].angle_speed) as f64;
    let r0 = f(planets[0].geom_obj.center.x);

    let n = 25;
    for _ in 0..n {
        advance_tick(&mut planets);
    }
    let c = planets[0].geom_obj.center;
    let (x, y, z) = (f(c.x), f(c.y), f(c.z));
    let radius = (x * x + y * y + z * z).sqrt();
    assert!((radius - r0).abs() < 1e-6, "radius drifted: {} vs {}", radius, r0);
    assert!(z.abs() < 1e-9, "left the orbital plane");
    let azimuth = y.atan2(x);
    let expected = {
        // Wrap the accumulated angle the way atan2 reports it.
        let a = n as f64 * speed;
        a.sin().atan2(a.cos())
    };
    assert!((azimuth - expected).abs() < 1e-6, "azimuth {} vs {}", azimuth, expected);
}

#[test]
fn tick_only_moves_the_center() {
    let records = vec![record("still", 365, 1.5, 2.0, MoveDirection::Ccw, false)];
    let mut planets = planets_from_records(&records);
    let before = planets[0];
    advance_tick(&mut planets);
    let after = planets[0];
    assert_eq!(after.angle_speed, before.angle_speed);
    assert_eq!(after.texture, before.texture);
    assert_eq!(after.geom_obj.scale, before.geom_obj.scale);
    assert_eq!(after.geom_obj.rotation, before.geom_obj.rotation);
    assert_ne!(after.geom_obj.center, before.geom_obj.center);
}

#[test]
fn scene_surfaces_concatenate_all_planets() {
    let records = vec![
        record("a", 365, 1.0, 1.0, MoveDirection::Cw, false),
        record("b", 687, 1.5, 0.5, MoveDirection::Cw, false),
    ];
    let planets = planets_from_records(&records);
    let combined = compose_scene_surfaces(&planets);
    // Each ball contributes its full sample cloud.
    assert_eq!(combined.vertices.len(), 200);
    for t in &combined.indices {
        assert!(t.0 < 200 && t.1 < 200 && t.2 < 200);
    }
}

#[test]
fn surface_and_edge_buffers_combine_per_entity() {
    // One entity's render buffers concatenate its surface mesh and its
    // edge mesh with the same rebasing rule.
    let cube = Cube::new(2.0f64.to_bits());
    let gg = GraphicsGeometry::new(
        Geometry::Cube(cube),
        (0.0f64.to_bits(), 0.0f64.to_bits(), 0.0f64.to_bits()),
        1.0f64.to_bits(),
        p3(0.0, 0.0, 0.0),
    );
    let surface = gg.get_surface();
    let edges = gg.get_edges(0.01f32.to_bits());
    let surface_len = surface.vertices.len();
    let both = compose_meshes(&vec![surface, edges]);
    assert_eq!(both.vertices.len(), 16);
    for (j, t) in both.indices.iter().enumerate().skip(12) {
        let base = Cube::new(2.0f64.to_bits()).get_surface_mesh().indices[j - 12];
        assert_eq!(*t, (base.0 + surface_len, base.1 + surface_len, base.2 + surface_len));
    }
}
