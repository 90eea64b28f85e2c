use solar_system::orbit::{
    advance, initial, planet, sun, BodyPose, Planets, Rotation, SpinAxis, Sun, PLANETS_COUNT,
};

fn position(pose: &BodyPose) -> (f64, f64, f64) {
    let angle = pose.phase as f64 * std::f64::consts::FRAC_PI_4 + pose.orbit_angle as f64 * 1e-12;
    let r = pose.radius as f64 * 1e-6;
    (r * angle.cos(), 0.0, r * angle.sin())
}

#[test]
fn first_planet_at_start_sits_at_three_eighths_of_a_turn() {
    let mut planets = Planets::new();
    planets.update(0);
    let p0 = planets.instances()[0];
    assert_eq!(p0.radius, 12_500_000);
    assert_eq!(p0.phase, 3);
    assert_eq!(p0.orbit_angle, 0);
    let (x, y, z) = position(&p0);
    assert!((x - 12.5 * (3.0 * std::f64::consts::FRAC_PI_4).cos()).abs() < 1e-9);
    assert!((x + 8.84).abs() < 0.01 && y == 0.0 && (z - 8.84).abs() < 0.01);
}

#[test]
fn same_time_gives_same_scene() {
    let mut a = Planets::new();
    let mut b = Planets::new();
    b.update(9_999_999);
    a.update(1_234_567);
    b.update(1_234_567);
    assert_eq!(a.instances(), b.instances());
    let mut s1 = Sun::new();
    let mut s2 = Sun::new();
    s1.update(42);
    s2.update(7);
    s2.update(42);
    assert_eq!(s1.instance(), s2.instance());
}

#[test]
fn planets_keep_their_radius() {
    let radii = [12.5, 17.5, 25.0, 32.5, 42.5, 55.0, 65.0, 77.5];
    let mut planets = Planets::new();
    for t in [0u64, 1, 1_000_000, 3_600_000_000, u64::MAX] {
        planets.update(t);
        for (i, pose) in planets.instances().iter().enumerate() {
            let (x, y, z) = position(pose);
            assert!(((x * x + y * y + z * z).sqrt() - radii[i]).abs() < 1e-6);
        }
    }
}

#[test]
fn orbit_and_spin_rates() {
    assert_eq!(planet(0).orbit_speed, 150_000);
    assert_eq!(planet(7).orbit_speed, 150_000 - 105_000 - 9_800);
    assert_eq!(planet(7).spin_speed, 150_000);
    let pose = advance(planet(2), 2_000_000);
    assert_eq!(pose.orbit_angle, (150_000 - 30_000 - 800) * 2_000_000);
    assert_eq!(pose.rotation, Rotation { axis: SpinAxis::Up, degrees: 0, angle: 400_000 * 2_000_000 });
    assert_eq!(pose.scale, 1_300);
    assert_eq!(pose.texture_index, 2);
    for i in 1..PLANETS_COUNT {
        assert!(planet(i).orbit_speed < planet(i - 1).orbit_speed);
    }
}

#[test]
fn initial_planets_are_tilted_about_their_radial_axis() {
    let planets = Planets::new();
    assert_eq!(planets.instances().len(), PLANETS_COUNT);
    for (i, pose) in planets.instances().iter().enumerate() {
        assert_eq!(pose.rotation, Rotation { axis: SpinAxis::Radial, degrees: 5 * i as u32, angle: 0 });
        assert_eq!(pose.texture_index, i as u32);
    }
}

#[test]
fn body_at_origin_uses_world_up() {
    let s = Sun::new();
    assert_eq!(s.instance().rotation.axis, SpinAxis::Up);
    assert_eq!(s.instance().radius, 0);
    let mut p = planet(3);
    p.radius = 0;
    assert_eq!(initial(p).rotation.axis, SpinAxis::Up);
}

#[test]
fn sun_spins_in_place() {
    let mut s = Sun::new();
    s.update(1_000_000);
    let pose = s.instance();
    assert_eq!(pose, advance(sun(), 1_000_000));
    assert_eq!(pose.rotation.angle, 120_000 * 1_000_000);
    assert_eq!(pose.orbit_angle, 0);
    assert_eq!(pose.scale, 6_500);
}
