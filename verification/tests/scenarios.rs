use twobody::kepler::Kepler;
use twobody::methods::ab2::Ab2;
use twobody::methods::am2::Am2;
use twobody::scalar::{Angular, Num};
use twobody::soe::{Soe, Soe2Builder};
use twobody::twobody::{Body, TwoBodySystem};
use twobody::vector::Vector;

/// Double precision wrapped into a crate-local scalar, so that it can
/// carry the arithmetic capabilities the library is generic over.
#[derive(Clone, Copy, Debug, PartialEq)]
struct F(f64);

impl Num for F {
    fn zero_spec() -> F {
        F(0.0)
    }
    fn one_spec() -> F {
        F(1.0)
    }
    fn from_u64_spec(n: u64) -> F {
        F(n as f64)
    }
    fn add_spec(self, rhs: F) -> F {
        F(self.0 + rhs.0)
    }
    fn sub_spec(self, rhs: F) -> F {
        F(self.0 - rhs.0)
    }
    fn mul_spec(self, rhs: F) -> F {
        F(self.0 * rhs.0)
    }
    fn div_spec(self, rhs: F) -> F {
        F(self.0 / rhs.0)
    }
    fn neg_spec(self) -> F {
        F(-self.0)
    }
    fn abs_spec(self) -> F {
        F(self.0.abs())
    }
    fn sqrt_spec(self) -> F {
        F(self.0.sqrt())
    }
    fn pow_spec(self, rhs: F) -> F {
        F(self.0.powf(rhs.0))
    }
    fn eq_spec(self, rhs: F) -> bool {
        self.0 == rhs.0
    }
    fn le_spec(self, rhs: F) -> bool {
        self.0 <= rhs.0
    }
    fn lt_spec(self, rhs: F) -> bool {
        self.0 < rhs.0
    }
    fn zero() -> F {
        F(0.0)
    }
    fn one() -> F {
        F(1.0)
    }
    fn from_u64(n: u64) -> F {
        F(n as f64)
    }
    fn add(self, rhs: F) -> F {
        F(self.0 + rhs.0)
    }
    fn sub(self, rhs: F) -> F {
        F(self.0 - rhs.0)
    }
    fn mul(self, rhs: F) -> F {
        F(self.0 * rhs.0)
    }
    fn div(self, rhs: F) -> F {
        F(self.0 / rhs.0)
    }
    fn neg(self) -> F {
        F(-self.0)
    }
    fn abs(self) -> F {
        F(self.0.abs())
    }
    fn sqrt(self) -> F {
        F(self.0.sqrt())
    }
    fn pow(self, rhs: F) -> F {
        F(self.0.powf(rhs.0))
    }
    fn equals(self, rhs: F) -> bool {
        self.0 == rhs.0
    }
    fn le(self, rhs: F) -> bool {
        self.0 <= rhs.0
    }
    fn lt(self, rhs: F) -> bool {
        self.0 < rhs.0
    }
}

impl Angular for F {
    fn pi_spec() -> F {
        F(std::f64::consts::PI)
    }
    fn sin_spec(self) -> F {
        F(self.0.sin())
    }
    fn cos_spec(self) -> F {
        F(self.0.cos())
    }
    fn tan_spec(self) -> F {
        F(self.0.tan())
    }
    fn acos_spec(self) -> F {
        F(self.0.acos())
    }
    fn atan_spec(self) -> F {
        F(self.0.atan())
    }
    fn atan2_spec(self, rhs: F) -> F {
        F(self.0.atan2(rhs.0))
    }
    fn pi() -> F {
        F(std::f64::consts::PI)
    }
    fn sin(self) -> F {
        F(self.0.sin())
    }
    fn cos(self) -> F {
        F(self.0.cos())
    }
    fn tan(self) -> F {
        F(self.0.tan())
    }
    fn acos(self) -> F {
        F(self.0.acos())
    }
    fn atan(self) -> F {
        F(self.0.atan())
    }
    fn atan2(self, rhs: F) -> F {
        F(self.0.atan2(rhs.0))
    }
}

fn sample_system() -> TwoBodySystem<F, 2> {
    let body1 = Body {
        m: F(5.0),
        pos: Vector { data: [F(0.0), F(0.0)] },
        velocity: Vector { data: [F(0.5), F(0.0)] },
    };
    let body2 = Body {
        m: F(5.0),
        pos: Vector { data: [F(1.0), F(1.0)] },
        velocity: Vector { data: [F(-0.5), F(0.0)] },
    };
    TwoBodySystem::new(body1, body2, F(0.1))
}

#[test]
fn test_initial_state_is_relative_coordinates() {
    let system = sample_system();
    let init = system.get_init();
    assert_eq!(init.data, [F(0.0), F(1.0), F(1.0), F(-1.0), F(0.0)]);
}

#[test]
fn test_gravity_derivative_exact_values() {
    let system = sample_system();
    let mut soe = system.generate_soe();
    // Relative position (3, 4): distance 5, cubed distance 125.
    let state = Vector { data: [F(0.0), F(3.0), F(4.0), F(7.0), F(8.0)] };
    let d = soe.call(&state);
    assert_eq!(d.data[0], F(0.0));
    assert_eq!(d.data[1], F(7.0));
    assert_eq!(d.data[2], F(8.0));
    assert_eq!(d.data[3], F(3.0 * 10.0 * -0.1 / 125.0));
    assert_eq!(d.data[4], F(4.0 * 10.0 * -0.1 / 125.0));
}

#[test]
fn test_reader_reconstructs_center_of_mass() {
    let system = sample_system();
    let reader = system.build_reader();
    let center = system.calc_center();

    // At t = 0 the mass-weighted mean of the two body positions is B.
    let p0 = reader.get(system.get_init());
    for j in 0..2 {
        let com = (p0.body1.data[j].0 * 5.0 + p0.body2.data[j].0 * 5.0) / 10.0;
        assert!((com - center.1.data[j].0).abs() < 1e-12);
    }

    // At any other time it is A t + B.
    let t = 1.5;
    let state = Vector { data: [F(t), F(0.3), F(-0.4), F(0.0), F(0.0)] };
    let p = reader.get(state);
    for j in 0..2 {
        let com = (p.body1.data[j].0 * 5.0 + p.body2.data[j].0 * 5.0) / 10.0;
        let expected = center.0.data[j].0 * t + center.1.data[j].0;
        assert!((com - expected).abs() < 1e-12);
    }
}

#[test]
fn test_kepler_round_trip_at_epoch() {
    // Relative coordinates of the sample system: r = (1, 1), v = (-1, 0),
    // and the system's own gravitational parameter g (m1 + m2) = 1.
    let system = sample_system();
    let mut kepler = system.construct_kepler(F(0.001));
    assert_eq!(kepler.mu, F(1.0));

    kepler.set_init_time(F(0.0));
    kepler.set_current_time(F(0.0));
    let out = kepler.next().unwrap();

    assert_eq!(out.data[0], F(0.0));
    assert!((out.data[1].0 - 1.0).abs() < 1e-6);
    assert!((out.data[2].0 - 1.0).abs() < 1e-6);
    assert!(out.data[3].0.abs() < 1e-6);
    assert_eq!(out.data[4], F(0.0));

    let radius = (out.data[1].0 * out.data[1].0 + out.data[2].0 * out.data[2].0
        + out.data[3].0 * out.data[3].0)
        .sqrt();
    assert!((radius - 2.0f64.sqrt()).abs() < 1e-6);
}

#[test]
fn test_rk4_trajectory_bounded_and_matches_kepler() {
    let system = sample_system();
    let h = 0.001;
    let mut rk4 = system.construct_rk4(F(h));

    let mut last = system.get_init();
    for _ in 0..2000 {
        last = rk4.next().unwrap();
        for j in 0..5 {
            assert!(last.data[j].0.is_finite());
            assert!(last.data[j].0.abs() < 10.0);
        }
    }
    assert!((last.data[0].0 - 2.0).abs() < 1e-9);

    let mut kepler = system.construct_kepler(F(h));
    assert_eq!(kepler.mu, F(1.0));
    kepler.set_init_time(F(0.0));
    kepler.set_current_time(last.data[0]);
    let analytic = kepler.next().unwrap();

    assert!((analytic.data[1].0 - last.data[1].0).abs() < 1e-4);
    assert!((analytic.data[2].0 - last.data[2].0).abs() < 1e-4);
}

#[test]
fn test_multistep_time_slot_exact_after_rk4_seeds() {
    let system = sample_system();
    let h = 0.001;

    let mut rk4 = system.construct_rk4(F(h));
    let seed1 = rk4.next().unwrap();
    let seed2 = rk4.next().unwrap();

    let mut ab2 = Ab2::new(seed1, seed2, system.generate_soe(), F(h));
    let third = ab2.next().unwrap();
    assert_eq!(third.data[0].0, seed2.data[0].0 + h);

    let mut am2 = Am2::new(seed1, seed2, system.generate_soe(), F(h));
    let third = am2.next().unwrap();
    assert_eq!(third.data[0].0, seed2.data[0].0 + h);
}

#[test]
fn test_rk45_terminates_past_max_time() {
    let system = sample_system();
    let mut rk45 = system.construct_rk45(F(0.01), F(1e-9), F(0.05));

    let mut prev_time = 0.0;
    let mut produced = 0;
    while let Some(state) = rk45.next() {
        assert!(state.data[0].0 > prev_time);
        prev_time = state.data[0].0;
        produced += 1;
        assert!(produced < 10_000);
    }
    assert!(!rk45.stalled);
    assert!(produced > 0);

    // The sequence has ended for good.
    assert!(rk45.next().is_none());
    assert!(rk45.next().is_none());
}

#[test]
fn test_rk45_reports_a_stall_instead_of_looping() {
    let nan_soe = Soe2Builder::<F, 5, 2>::new().build(
        |_args: &Vector<F, 5>| Vector::<F, 2> { data: [F(f64::NAN), F(f64::NAN)] },
        |_args: &Vector<F, 5>| Vector::<F, 2> { data: [F(f64::NAN), F(f64::NAN)] },
    );
    let init = Vector { data: [F(0.0), F(1.0), F(1.0), F(-1.0), F(0.0)] };
    let mut rk45 = twobody::methods::rk45::Rk45::new(init, nan_soe, F(0.01), F(1e-9), F(5.0));

    // The error estimate is never within tolerance, so the request gives
    // up after its retry budget and reports the stall.
    assert!(rk45.next().is_none());
    assert!(rk45.stalled);
    assert!(rk45.next().is_none());
}

#[test]
fn test_center_of_mass_motion_exact_values() {
    let system = sample_system();
    let (a, b) = system.calc_center();
    assert_eq!(a.data, [F(0.0), F(0.0)]);
    assert_eq!(b.data, [F(0.5), F(0.5)]);
}

#[test]
fn test_kepler_orbital_elements_exact_values() {
    // r = (1, 1, 0), v = (-1, 0, 0), mu = 1: a planar orbit with
    // momentum h = (0, 0, 1), inclination zero (the equatorial
    // degeneracy, so the ascending node defaults to zero), semi-major
    // axis 1 + sqrt(2) from vis-viva and eccentricity ~0.76536686.
    let r = Vector { data: [F(1.0), F(1.0), F(0.0)] };
    let v = Vector { data: [F(-1.0), F(0.0), F(0.0)] };
    let kepler = Kepler::new(r, v, F(1.0), F(0.001));

    assert!(kepler.i.0.abs() < 1e-12);
    assert_eq!(kepler.omega, F(0.0));
    assert!((kepler.a.0 - (1.0 + 2.0f64.sqrt())).abs() < 1e-9);
    assert!((kepler.e.0 - 0.76536686).abs() < 1e-8);
    assert_eq!(kepler.mu, F(1.0));
    assert_eq!(kepler.t0, F(0.0));
    assert_eq!(kepler.t, F(0.001));
    assert_eq!(kepler.step, F(0.001));
}
