use satellite::body::BodyType;
use satellite::body::CelestialBody;
use satellite::body::ValidationError;
use satellite::geometry::Vector3;
use satellite::integrators::EulerIntegrator;
use satellite::integrators::Integrator;
use satellite::integrators::IntegratorType;
use satellite::integrators::RK4Integrator;
use satellite::physics::State;
use satellite::scalar::Scalar;
use satellite::scalar::Single;
use satellite::solar_system::SimulationParameters;
use satellite::solar_system::SolarSystem;
use satellite::solar_system::STANDARD_COUNT;
use satellite::solar_system::STANDARD_TIMESTEP_BITS;

fn double(x: f64) -> Scalar {
    Scalar::from_bits(x.to_bits())
}

fn single(x: f32) -> Single {
    Single::from_bits(x.to_bits())
}

fn as_f64(s: Scalar) -> f64 {
    f64::from_bits(s.to_bits())
}

fn as_f32(s: Single) -> f32 {
    f32::from_bits(s.to_bits())
}

fn point(x: f64, y: f64, z: f64) -> Vector3 {
    Vector3::new(double(x), double(y), double(z))
}

fn coords(v: Vector3) -> (f64, f64, f64) {
    (as_f64(v.x), as_f64(v.y), as_f64(v.z))
}

fn raw(v: Vector3) -> (u64, u64, u64) {
    (v.x.to_bits(), v.y.to_bits(), v.z.to_bits())
}

fn rgb(c: [Single; 3]) -> [f32; 3] {
    [as_f32(c[0]), as_f32(c[1]), as_f32(c[2])]
}

fn planet(name: &str, x: f64, vy: f64, mass: f64) -> CelestialBody {
    CelestialBody::new(
        name.to_string(),
        BodyType::Planet,
        point(x, 0.0, 0.0),
        double(1000.0),
        double(mass),
        point(0.0, vy, 0.0),
        [single(0.1), single(0.2), single(0.3)],
    )
    .unwrap()
}

fn small_system(kind: IntegratorType) -> SolarSystem {
    let mut system = SolarSystem::new(double(100.0), kind);
    system.add_body(
        CelestialBody::new(
            "Hub".to_string(),
            BodyType::Star,
            point(0.0, 0.0, 0.0),
            double(5000.0),
            double(1.0e26),
            point(0.0, 0.0, 0.0),
            [single(1.0), single(1.0), single(0.0)],
        )
        .unwrap(),
    );
    system.add_body(planet("Inner", 1.0e9, 300.0, 2.0e24));
    system.add_body(
        CelestialBody::new(
            "Probe".to_string(),
            BodyType::Satellite,
            point(0.0, 2.0e9, 5.0e8),
            double(0.002),
            double(3.0e3),
            point(-200.0, 0.0, 10.0),
            [single(0.5), single(0.5), single(0.5)],
        )
        .unwrap(),
    );
    system
}

fn snapshot_of(system: &SolarSystem) -> State {
    let bodies = system.get_bodies();
    State::new(
        bodies.iter().map(|b| b.position()).collect(),
        bodies.iter().map(|b| b.velocity()).collect(),
        bodies.iter().map(|b| b.mass()).collect(),
    )
    .unwrap()
}

#[test]
fn body_keeps_what_it_was_given() {
    let b = CelestialBody::new(
        "Ceres".to_string(),
        BodyType::Moon,
        point(1.0, 2.0, 3.0),
        double(473.0),
        double(9.38e20),
        point(4.0, 5.0, 6.0),
        [single(0.25), single(0.5), single(0.75)],
    )
    .unwrap();
    assert_eq!(b.name(), "Ceres");
    assert_eq!(b.body_type(), BodyType::Moon);
    assert_eq!(coords(b.position()), (1.0, 2.0, 3.0));
    assert_eq!(as_f64(b.km_radius()), 473.0);
    assert_eq!(as_f64(b.mass()), 9.38e20);
    assert_eq!(coords(b.velocity()), (4.0, 5.0, 6.0));
    assert_eq!(rgb(b.color()), [0.25, 0.5, 0.75]);
}

#[test]
fn body_rejects_a_mass_that_is_not_positive() {
    for bad in [0.0, -0.0, -1.0, f64::NAN, f64::NEG_INFINITY] {
        let r = CelestialBody::new(
            "x".to_string(),
            BodyType::Planet,
            point(0.0, 0.0, 0.0),
            double(1.0),
            double(bad),
            point(0.0, 0.0, 0.0),
            [single(0.0), single(0.0), single(0.0)],
        );
        assert_eq!(r.err(), Some(ValidationError::NonPositiveMass), "{bad}");
    }
}

#[test]
fn body_rejects_a_radius_that_is_not_positive() {
    for bad in [0.0, -0.0, -6371.0, f64::NAN, f64::NEG_INFINITY] {
        let r = CelestialBody::new(
            "x".to_string(),
            BodyType::Planet,
            point(0.0, 0.0, 0.0),
            double(bad),
            double(1.0),
            point(0.0, 0.0, 0.0),
            [single(0.0), single(0.0), single(0.0)],
        );
        assert_eq!(r.err(), Some(ValidationError::NonPositiveRadius), "{bad}");
    }
}

#[test]
fn a_bad_mass_is_reported_before_a_bad_radius() {
    let r = CelestialBody::new(
        "x".to_string(),
        BodyType::Planet,
        point(0.0, 0.0, 0.0),
        double(-1.0),
        double(-1.0),
        point(0.0, 0.0, 0.0),
        [single(0.0), single(0.0), single(0.0)],
    );
    assert_eq!(r.err(), Some(ValidationError::NonPositiveMass));
}

#[test]
fn body_accepts_the_smallest_and_the_infinite() {
    let r = CelestialBody::new(
        "x".to_string(),
        BodyType::Planet,
        point(f64::NAN, 0.0, 0.0),
        double(4.9e-324),
        double(f64::INFINITY),
        point(0.0, 0.0, 0.0),
        [single(0.0), single(0.0), single(0.0)],
    );
    assert!(r.is_ok());
}

#[test]
fn display_size_formula() {
    for radius in [696_340.0f64, 6_371.0, 2_439.7, 69_911.0, 1.0, 22026.465794806718] {
        let b = CelestialBody::new(
            "x".to_string(),
            BodyType::Planet,
            point(0.0, 0.0, 0.0),
            double(radius),
            double(1.0),
            point(0.0, 0.0, 0.0),
            [single(0.0), single(0.0), single(0.0)],
        )
        .unwrap();
        let got = as_f32(b.calculate_display_size());
        let expected = ((radius.ln() - 10.0) / 2.0) as f32;
        assert!((got - expected).abs() <= 1e-6, "{radius}: {got} {expected}");
    }
}

#[test]
fn display_size_values() {
    let size = |radius: f64| {
        as_f32(
            CelestialBody::new(
                "x".to_string(),
                BodyType::Planet,
                point(0.0, 0.0, 0.0),
                double(radius),
                double(1.0),
                point(0.0, 0.0, 0.0),
                [single(0.0), single(0.0), single(0.0)],
            )
            .unwrap()
            .calculate_display_size(),
        )
    };
    assert_eq!(size(1.0), -5.0);
    assert!((size(696_340.0) - 1.7268).abs() < 1e-4);
    assert!((size(6_371.0) + 0.6202).abs() < 1e-4);
}

#[test]
fn default_parameters() {
    assert_eq!(as_f64(SimulationParameters::new().time_multiplier), 1.0);
}

#[test]
fn new_system_is_empty() {
    let system = SolarSystem::new(double(60.0), IntegratorType::Euler);
    assert_eq!(system.get_bodies().len(), 0);
    assert_eq!(as_f64(system.timestep()), 60.0);
    assert_eq!(system.integrator_type(), IntegratorType::Euler);
}

#[test]
fn bodies_keep_their_insertion_order() {
    let system = small_system(IntegratorType::Euler);
    let names: Vec<&str> = system.get_bodies().iter().map(|b| b.name().as_str()).collect();
    assert_eq!(names, vec!["Hub", "Inner", "Probe"]);
}

#[test]
fn timestep_takes_any_value() {
    let mut system = small_system(IntegratorType::Euler);
    for t in [0.0, -3600.0, 1.0e300, f64::INFINITY] {
        system.set_timestep(double(t));
        assert_eq!(system.timestep().to_bits(), t.to_bits());
    }
    assert_eq!(system.get_bodies().len(), 3);
    assert_eq!(system.integrator_type(), IntegratorType::Euler);
}

#[test]
fn find_body_by_exact_name() {
    let mut system = small_system(IntegratorType::Euler);
    system.add_body(planet("Inner", 5.0e9, 1.0, 1.0));
    assert_eq!(system.find_body("Hub"), Some(0));
    assert_eq!(system.find_body("Inner"), Some(1));
    assert_eq!(system.find_body("Probe"), Some(2));
    assert_eq!(system.find_body("probe"), None);
    assert_eq!(system.find_body("Inn"), None);
    assert_eq!(system.find_body(""), None);
    assert_eq!(SolarSystem::new(double(1.0), IntegratorType::Euler).find_body("Hub"), None);
}

#[test]
fn update_only_moves_the_bodies() {
    for kind in [
        IntegratorType::Euler,
        IntegratorType::RK4(0),
        IntegratorType::RK4(1),
        IntegratorType::RK4(4),
    ] {
        let mut system = small_system(kind);
        let before = small_system(kind);
        for _ in 0..3 {
            system.update();
        }
        assert_eq!(system.get_bodies().len(), 3);
        assert_eq!(system.timestep().to_bits(), before.timestep().to_bits());
        assert_eq!(system.integrator_type(), kind);
        for (now, then) in system.get_bodies().iter().zip(before.get_bodies().iter()) {
            assert_eq!(now.name(), then.name());
            assert_eq!(now.body_type(), then.body_type());
            assert_eq!(now.mass().to_bits(), then.mass().to_bits());
            assert_eq!(now.km_radius().to_bits(), then.km_radius().to_bits());
            assert_eq!(rgb(now.color()), rgb(then.color()));
            assert_ne!(raw(now.position()), raw(then.position()));
            assert_ne!(raw(now.velocity()), raw(then.velocity()));
        }
    }
}

#[test]
fn update_is_one_step_of_the_integrator() {
    let mut euler = small_system(IntegratorType::Euler);
    let mut state = snapshot_of(&euler);
    euler.update();
    EulerIntegrator.step(&mut state, double(100.0));
    for (i, b) in euler.get_bodies().iter().enumerate() {
        assert_eq!(raw(b.position()), raw(state.positions()[i]));
        assert_eq!(raw(b.velocity()), raw(state.velocities()[i]));
    }

    let mut rk4 = small_system(IntegratorType::RK4(3));
    let mut state = snapshot_of(&rk4);
    rk4.update();
    RK4Integrator::new(3).step(&mut state, double(100.0));
    for (i, b) in rk4.get_bodies().iter().enumerate() {
        assert_eq!(raw(b.position()), raw(state.positions()[i]));
        assert_eq!(raw(b.velocity()), raw(state.velocities()[i]));
    }
}

#[test]
fn update_uses_the_current_timestep() {
    let mut a = small_system(IntegratorType::Euler);
    let mut b = small_system(IntegratorType::Euler);
    b.set_timestep(double(110.0));
    a.update();
    b.update();
    assert_ne!(raw(a.get_bodies()[1].position()), raw(b.get_bodies()[1].position()));
    let mut state = snapshot_of(&small_system(IntegratorType::Euler));
    EulerIntegrator.step(&mut state, double(110.0));
    assert_eq!(raw(b.get_bodies()[1].position()), raw(state.positions()[1]));
}

#[test]
fn update_of_an_empty_system() {
    let mut system = SolarSystem::new(double(1.0), IntegratorType::RK4(2));
    system.update();
    assert_eq!(system.get_bodies().len(), 0);
}

#[test]
fn two_systems_run_alike() {
    let mut a = small_system(IntegratorType::RK4(2));
    let mut b = small_system(IntegratorType::RK4(2));
    for _ in 0..10 {
        a.update();
    }
    for _ in 0..10 {
        b.update();
    }
    for (x, y) in a.get_bodies().iter().zip(b.get_bodies().iter()) {
        assert_eq!(raw(x.position()), raw(y.position()));
        assert_eq!(raw(x.velocity()), raw(y.velocity()));
    }
}

#[test]
fn standard_system_settings() {
    let system = SolarSystem::initialize_standard();
    assert_eq!(STANDARD_COUNT, 9);
    assert_eq!(system.get_bodies().len(), 9);
    assert_eq!(STANDARD_TIMESTEP_BITS, 3600.0f64.to_bits());
    assert_eq!(as_f64(system.timestep()), 3600.0);
    assert_eq!(system.integrator_type(), IntegratorType::RK4(1));
}

#[test]
fn standard_system_table() {
    let table: [(&str, BodyType, f64, f64, f64, f64, [f32; 3]); 9] = [
        ("Sun", BodyType::Star, 0.0, 696_340.0, 1.989e30, 0.0, [1.0, 1.0, 0.0]),
        ("Mercury", BodyType::Planet, 57.9e9, 2_439.7, 3.285e23, 47360.0, [0.7, 0.7, 0.7]),
        ("Venus", BodyType::Planet, 108.2e9, 6_051.8, 4.867e24, 35020.0, [0.9, 0.7, 0.5]),
        ("Earth", BodyType::Planet, 149.6e9, 6_371.0, 5.972e24, 29780.0, [0.2, 0.5, 1.0]),
        ("Mars", BodyType::Planet, 227.9e9, 3_389.5, 6.39e23, 24080.0, [1.0, 0.3, 0.0]),
        ("Jupiter", BodyType::Planet, 778.5e9, 69_911.0, 1.898e27, 13070.0, [0.8, 0.6, 0.4]),
        ("Saturn", BodyType::Planet, 1.434e12, 58_232.0, 5.683e26, 9680.0, [0.9, 0.8, 0.5]),
        ("Uranus", BodyType::Planet, 2.871e12, 25_362.0, 8.681e25, 6800.0, [0.5, 0.8, 0.9]),
        ("Neptune", BodyType::Planet, 4.495e12, 24_622.0, 1.024e26, 5430.0, [0.0, 0.0, 0.8]),
    ];
    let system = SolarSystem::initialize_standard();
    for (body, row) in system.get_bodies().iter().zip(table.iter()) {
        assert_eq!(body.name(), row.0);
        assert_eq!(body.body_type(), row.1);
        assert_eq!(raw(body.position()), (row.2.to_bits(), 0, 0), "{}", row.0);
        assert_eq!(body.km_radius().to_bits(), row.3.to_bits(), "{}", row.0);
        assert_eq!(body.mass().to_bits(), row.4.to_bits(), "{}", row.0);
        assert_eq!(raw(body.velocity()), (0, row.5.to_bits(), 0), "{}", row.0);
        let color = body.color();
        for k in 0..3 {
            assert_eq!(color[k].to_bits(), row.6[k].to_bits(), "{}", row.0);
        }
    }
}

#[test]
fn standard_system_finds_earth() {
    let system = SolarSystem::initialize_standard();
    assert_eq!(system.find_body("Earth"), Some(3));
    assert_eq!(system.find_body("Pluto"), None);
}

#[test]
fn standard_system_advances() {
    let mut system = SolarSystem::initialize_standard();
    for _ in 0..24 {
        system.update();
    }
    let earth = &system.get_bodies()[3];
    let (x, y, z) = coords(earth.position());
    assert!(x < 149.6e9 && x > 149.0e9, "{x}");
    assert!((y - 29780.0 * 86400.0).abs() / (29780.0 * 86400.0) < 1e-3, "{y}");
    assert_eq!(z, 0.0);
    assert_eq!(as_f64(earth.mass()), 5.972e24);
}
