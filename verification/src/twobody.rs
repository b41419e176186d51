//! The relative-coordinate two-body problem.
//!
//! A [`TwoBodySystem`] holds two bodies and a gravitational constant.  From
//! it follow the initial relative state vector `[0, Δposition, Δvelocity]`,
//! the system of equations whose acceleration part is the reduced-mass
//! gravity law `-g (m1 + m2) r / |r|^3`, a [`TwoBodyReader`] that maps a
//! relative-coordinate state back to the two absolute body positions via
//! the linear centre-of-mass motion `A t + B`, and ready-wired integrators.
//!
//! The planar case works on 5-component states `[t, rx, ry, vx, vy]`, the
//! spatial case on 7-component states `[t, rx, ry, rz, vx, vy, vz]`.

use crate::kepler::{eccentricity_spec, semi_major_spec, arg_periapsis_spec, lan_spec,
    inclination_spec, mean_anomaly_spec, Kepler};
use crate::methods::ab2::Ab2;
use crate::methods::am2::Am2;
use crate::methods::euler::Euler;
use crate::methods::rk4::Rk4;
use crate::methods::rk45::Rk45;
use crate::scalar::{Angular, Num};
use crate::soe::{Soe, Soe2Builder};
use crate::vector::{seq_add, seq_div, seq_scale, seq_sub, spec_concat, Vector};
use vstd::prelude::*;

verus! {

broadcast use vstd::array::group_array_axioms;

/// One of the two bodies, with its initial parameters.
#[derive(Clone, Copy)]
pub struct Body<E, const N: usize> {
    /// Mass.
    pub m: E,
    /// Initial position.
    pub pos: Vector<E, N>,
    /// Initial velocity.
    pub velocity: Vector<E, N>,
}

/// The two bodies and the gravitational constant.
#[derive(Clone, Copy)]
pub struct TwoBodySystem<E, const N: usize> {
    /// The first body.
    pub body1: Body<E, N>,
    /// The second body.
    pub body2: Body<E, N>,
    /// The gravitational constant.
    pub g: E,
}

/// Maps a relative-coordinate state to absolute body positions through the
/// centre-of-mass motion `A t + B`.
#[derive(Clone, Copy)]
pub struct TwoBodyReader<E, const N: usize> {
    /// The centre-of-mass velocity.
    pub a: Vector<E, N>,
    /// The initial centre-of-mass position.
    pub b: Vector<E, N>,
    /// The mass of the first body.
    pub m1: E,
    /// The mass of the second body.
    pub m2: E,
}

/// The absolute positions of the two bodies at one instant.
#[derive(Clone, Copy)]
pub struct Position<E, const N: usize> {
    /// Position of the first body.
    pub body1: Vector<E, N>,
    /// Position of the second body.
    pub body2: Vector<E, N>,
}

/// The acceleration half of the planar derivative: the relative position
/// `(a[1], a[2])` scaled by the summed masses and `-g`, divided by the
/// cubed distance.
pub open spec fn gravity_accel2<E: Num>(a: Seq<E>, msum: E, g: E) -> Seq<E> {
    let sum_sq = a[1].mul_spec(a[1]).add_spec(a[2].mul_spec(a[2]));
    let len3 = sum_sq.mul_spec(sum_sq.sqrt_spec());
    seq_div(seq_scale(seq_scale(seq![a[1], a[2]], msum), g.neg_spec()), len3)
}

/// The acceleration half of the spatial derivative, over the relative
/// position `(a[1], a[2], a[3])`.
pub open spec fn gravity_accel3<E: Num>(a: Seq<E>, msum: E, g: E) -> Seq<E> {
    let sum_sq = a[1].mul_spec(a[1]).add_spec(a[2].mul_spec(a[2])).add_spec(
        a[3].mul_spec(a[3]),
    );
    let len3 = sum_sq.mul_spec(sum_sq.sqrt_spec());
    seq_div(seq_scale(seq_scale(seq![a[1], a[2], a[3]], msum), g.neg_spec()), len3)
}

/// The full planar derivative view on state `a`: velocity components
/// followed by the gravity acceleration, laid into 5 slots.
pub open spec fn derivative2<E: Num>(a: Seq<E>, msum: E, g: E) -> Seq<E> {
    spec_concat(seq![a[3], a[4]], gravity_accel2(a, msum, g), 5nat)
}

/// The full spatial derivative view on state `a`, laid into 7 slots.
pub open spec fn derivative3<E: Num>(a: Seq<E>, msum: E, g: E) -> Seq<E> {
    spec_concat(seq![a[4], a[5], a[6]], gravity_accel3(a, msum, g), 7nat)
}

/// The initial relative state `[0, Δposition, Δvelocity]` of a system.
pub open spec fn init_state<E: Num>(s: TwoBodySystem<E, 2>) -> Seq<E> {
    spec_concat(
        seq_sub(s.body2.pos@, s.body1.pos@),
        seq_sub(s.body2.velocity@, s.body1.velocity@),
        5nat,
    )
}

/// The relative position handed to the Kepler propagator: the planar
/// initial position, padded with a zero third component.
pub open spec fn kepler_r_of<E: Num>(s: TwoBodySystem<E, 2>) -> Seq<E> {
    seq![init_state(s)[1], init_state(s)[2], E::zero_spec()]
}

/// The relative velocity handed to the Kepler propagator.
pub open spec fn kepler_v_of<E: Num>(s: TwoBodySystem<E, 2>) -> Seq<E> {
    seq![init_state(s)[3], init_state(s)[4], E::zero_spec()]
}

/// The gravitational parameter handed to the Kepler propagator:
/// `g (m1 + m2)`, the parameter of the relative motion the system's
/// derivative function describes.
pub open spec fn kepler_mu_of<E: Num>(s: TwoBodySystem<E, 2>) -> E {
    s.g.mul_spec(s.body1.m.add_spec(s.body2.m))
}

/// The initial relative state `[0, Δposition, Δvelocity]` of a spatial
/// system.
pub open spec fn init_state3<E: Num>(s: TwoBodySystem<E, 3>) -> Seq<E> {
    spec_concat(
        seq_sub(s.body2.pos@, s.body1.pos@),
        seq_sub(s.body2.velocity@, s.body1.velocity@),
        7nat,
    )
}

impl<E: Num, const N: usize> TwoBodySystem<E, N> {
    /// A new system.  Masses must be strictly positive; nothing else is
    /// validated.
    pub fn new(body1: Body<E, N>, body2: Body<E, N>, g: E) -> (r: Self)
        requires
            E::zero_spec().lt_spec(body1.m),
            E::zero_spec().lt_spec(body2.m),
        ensures
            r.body1 == body1,
            r.body2 == body2,
            r.g == g,
    {
        Self { body1, body2, g }
    }

    /// The centre-of-mass motion `R(t) = A t + B`: returns `(A, B)`, the
    /// mass-weighted mean velocity and mass-weighted mean position.
    pub fn calc_center(&self) -> (r: (Vector<E, N>, Vector<E, N>))
        ensures
            r.0@ == seq_div(
                seq_add(
                    seq_scale(self.body1.velocity@, self.body1.m),
                    seq_scale(self.body2.velocity@, self.body2.m),
                ),
                self.body1.m.add_spec(self.body2.m),
            ),
            r.1@ == seq_div(
                seq_add(
                    seq_scale(self.body1.pos@, self.body1.m),
                    seq_scale(self.body2.pos@, self.body2.m),
                ),
                self.body1.m.add_spec(self.body2.m),
            ),
    {
        (
            self.body1.velocity.mul(self.body1.m).add(self.body2.velocity.mul(self.body2.m)).div(
                self.body1.m.add(self.body2.m),
            ),
            self.body1.pos.mul(self.body1.m).add(self.body2.pos.mul(self.body2.m)).div(
                self.body1.m.add(self.body2.m),
            ),
        )
    }

    /// A reader that converts relative-coordinate states of this system
    /// into absolute body positions.
    pub fn build_reader(&self) -> (r: TwoBodyReader<E, N>)
        ensures
            r.a@ == seq_div(
                seq_add(
                    seq_scale(self.body1.velocity@, self.body1.m),
                    seq_scale(self.body2.velocity@, self.body2.m),
                ),
                self.body1.m.add_spec(self.body2.m),
            ),
            r.b@ == seq_div(
                seq_add(
                    seq_scale(self.body1.pos@, self.body1.m),
                    seq_scale(self.body2.pos@, self.body2.m),
                ),
                self.body1.m.add_spec(self.body2.m),
            ),
            r.m1 == self.body1.m,
            r.m2 == self.body2.m,
    {
        let center = self.calc_center();
        TwoBodyReader { a: center.0, b: center.1, m1: self.body1.m, m2: self.body2.m }
    }
}

impl<E: Num> TwoBodySystem<E, 2> {
    /// The system of equations of the planar problem: the derivative of a
    /// state is its velocity components followed by the gravity
    /// acceleration.
    pub fn generate_soe(self) -> (r: impl Soe<Elem = E, Args = Vector<E, 5>>)
        ensures
            forall|a: Vector<E, 5>| #[trigger] r.accepts(a),
            forall|a: Vector<E, 5>, o: Seq<E>| #[trigger] r.delivers(a, o) ==> o == derivative2(
                a@,
                self.body1.m.add_spec(self.body2.m),
                self.g,
            ),
    {
        let f1 = |args: &Vector<E, 5>| -> (res: Vector<E, 2>)
            ensures
                res@ == seq![args@[3], args@[4]],
            {
                let res = Vector { data: [args.data[3], args.data[4]] };
                proof {
                    assert(res@ =~= seq![args@[3], args@[4]]);
                }
                res
            };

        let f2 = move |args: &Vector<E, 5>| -> (res: Vector<E, 2>)
            ensures
                res@ == gravity_accel2(args@, self.body1.m.add_spec(self.body2.m), self.g),
            {
                let r: Vector<E, 2> = Vector { data: [args.data[1], args.data[2]] };

                let sum_sq = r.data[0].mul(r.data[0]).add(r.data[1].mul(r.data[1]));
                let len_inpow3 = sum_sq.mul(sum_sq.sqrt());

                let res = r.mul(self.body1.m.add(self.body2.m)).mul(self.g.neg()).div(len_inpow3);
                proof {
                    assert(r@ =~= seq![args@[1], args@[2]]);
                }
                res
            };

        let soe = Soe2Builder::<E, 5, 2>::new().build(f1, f2);
        proof {
            assert forall|a: Vector<E, 5>| #[trigger] soe.accepts(a) by {
                assert(call_requires(f1, (&a,)));
                assert(call_requires(f2, (&a,)));
            }
            assert forall|a: Vector<E, 5>, o: Seq<E>| #[trigger] soe.delivers(a, o) implies o
                == derivative2(a@, self.body1.m.add_spec(self.body2.m), self.g) by {
                let (r1, r2) = choose|r1: Vector<E, 2>, r2: Vector<E, 2>|
                    call_ensures(f1, (&a,), r1) && call_ensures(f2, (&a,), r2) && o == spec_concat(
                        r1@,
                        r2@,
                        5nat,
                    );
            }
        }
        soe
    }

    /// The initial relative state `[0, Δposition, Δvelocity]`.
    pub fn get_init(&self) -> (r: Vector<E, 5>)
        ensures
            r@ == init_state(*self),
            r@[0] == E::zero_spec(),
    {
        Vector::<E, 5>::construct_from_two(
            &self.body2.pos.sub(self.body1.pos),
            &self.body2.velocity.sub(self.body1.velocity),
        )
    }

    /// A classical Runge-Kutta integrator of this system with step `h`.
    pub fn construct_rk4(&self, h: E) -> (r: Rk4<E, impl Soe<Elem = E, Args = Vector<E, 5>>, 5>)
        ensures
            r.init@ == init_state(*self),
            r.h == h,
            forall|a: Vector<E, 5>| #[trigger] r.soe.accepts(a),
            forall|a: Vector<E, 5>, o: Seq<E>| #[trigger] r.soe.delivers(a, o) ==> o
                == derivative2(a@, self.body1.m.add_spec(self.body2.m), self.g),
    {
        Rk4::new(self.get_init(), self.generate_soe(), h)
    }

    /// A Heun integrator of this system with step `h`.
    pub fn construct_euler(&self, h: E) -> (r: Euler<
        E,
        impl Soe<Elem = E, Args = Vector<E, 5>>,
        5,
    >)
        ensures
            r.init@ == init_state(*self),
            r.h == h,
            forall|a: Vector<E, 5>| #[trigger] r.soe.accepts(a),
            forall|a: Vector<E, 5>, o: Seq<E>| #[trigger] r.soe.delivers(a, o) ==> o
                == derivative2(a@, self.body1.m.add_spec(self.body2.m), self.g),
    {
        Euler::new(self.get_init(), self.generate_soe(), h)
    }

    /// An adaptive Runge-Kutta-Fehlberg integrator of this system with
    /// initial step `h`, error tolerance `e` and maximum time `max`.
    pub fn construct_rk45(&self, h: E, e: E, max: E) -> (r: Rk45<
        E,
        impl Soe<Elem = E, Args = Vector<E, 5>>,
        5,
    >)
        ensures
            r.init@ == init_state(*self),
            r.h == h,
            r.e == e,
            r.max == max,
            !r.stalled,
            forall|a: Vector<E, 5>| #[trigger] r.soe.accepts(a),
            forall|a: Vector<E, 5>, o: Seq<E>| #[trigger] r.soe.delivers(a, o) ==> o
                == derivative2(a@, self.body1.m.add_spec(self.body2.m), self.g),
    {
        Rk45::new(self.get_init(), self.generate_soe(), h, e, max)
    }

    /// A two-step Adams-Bashforth integrator of this system, seeded with
    /// the initial state and the given second seed.
    pub fn construct_ab2(&self, h: E, init2: Vector<E, 5>) -> (r: Ab2<
        E,
        impl Soe<Elem = E, Args = Vector<E, 5>>,
        5,
    >)
        ensures
            r.init1@ == init_state(*self),
            r.init2 == init2,
            r.h == h,
            forall|a: Vector<E, 5>| #[trigger] r.soe.accepts(a),
            forall|a: Vector<E, 5>, o: Seq<E>| #[trigger] r.soe.delivers(a, o) ==> o
                == derivative2(a@, self.body1.m.add_spec(self.body2.m), self.g),
    {
        Ab2::new(self.get_init(), init2, self.generate_soe(), h)
    }

    /// An Adams-Bashforth-Moulton integrator of this system, seeded with
    /// the initial state and the given second seed.
    pub fn construct_am2(&self, h: E, init2: Vector<E, 5>) -> (r: Am2<
        E,
        impl Soe<Elem = E, Args = Vector<E, 5>>,
        5,
    >)
        ensures
            r.init1@ == init_state(*self),
            r.init2 == init2,
            r.h == h,
            forall|a: Vector<E, 5>| #[trigger] r.soe.accepts(a),
            forall|a: Vector<E, 5>, o: Seq<E>| #[trigger] r.soe.delivers(a, o) ==> o
                == derivative2(a@, self.body1.m.add_spec(self.body2.m), self.g),
    {
        Am2::new(self.get_init(), init2, self.generate_soe(), h)
    }
}

impl<E: Angular> TwoBodySystem<E, 2> {
    /// An analytic Kepler propagator anchored at this system's initial
    /// relative position and velocity, with the system's own gravitational
    /// parameter `g (m1 + m2)`, stepping by `h` — the oracle the numeric
    /// integrators of the same system can be measured against.  The orbit
    /// the initial conditions describe must be elliptical.
    pub fn construct_kepler(&self, h: E) -> (k: Kepler<E>)
        requires
            eccentricity_spec(kepler_r_of(*self), kepler_v_of(*self), kepler_mu_of(*self)).lt_spec(
                E::one_spec(),
            ),
        ensures
            k.a == semi_major_spec(kepler_r_of(*self), kepler_v_of(*self), kepler_mu_of(*self)),
            k.e == eccentricity_spec(kepler_r_of(*self), kepler_v_of(*self), kepler_mu_of(*self)),
            k.w == arg_periapsis_spec(kepler_r_of(*self), kepler_v_of(*self), kepler_mu_of(*self)),
            k.omega == lan_spec(kepler_r_of(*self), kepler_v_of(*self)),
            k.i == inclination_spec(kepler_r_of(*self), kepler_v_of(*self)),
            k.m == mean_anomaly_spec(kepler_r_of(*self), kepler_v_of(*self), kepler_mu_of(*self)),
            k.mu == kepler_mu_of(*self),
            k.t0 == E::zero_spec(),
            k.t == E::zero_spec().add_spec(h),
            k.step == h,
    {
        let init = self.get_init();
        let rv = Vector::<E, 3> { data: [init.data[1], init.data[2], E::zero()] };
        let vv = Vector::<E, 3> { data: [init.data[3], init.data[4], E::zero()] };
        proof {
            assert(rv@ =~= kepler_r_of(*self));
            assert(vv@ =~= kepler_v_of(*self));
        }
        Kepler::new(rv, vv, self.g.mul(self.body1.m.add(self.body2.m)), h)
    }
}

impl<E: Num> TwoBodySystem<E, 3> {
    /// The system of equations of the spatial problem.
    pub fn generate_soe(self) -> (r: impl Soe<Elem = E, Args = Vector<E, 7>>)
        ensures
            forall|a: Vector<E, 7>| #[trigger] r.accepts(a),
            forall|a: Vector<E, 7>, o: Seq<E>| #[trigger] r.delivers(a, o) ==> o == derivative3(
                a@,
                self.body1.m.add_spec(self.body2.m),
                self.g,
            ),
    {
        let f1 = |args: &Vector<E, 7>| -> (res: Vector<E, 3>)
            ensures
                res@ == seq![args@[4], args@[5], args@[6]],
            {
                let res = Vector { data: [args.data[4], args.data[5], args.data[6]] };
                proof {
                    assert(res@ =~= seq![args@[4], args@[5], args@[6]]);
                }
                res
            };

        let f2 = move |args: &Vector<E, 7>| -> (res: Vector<E, 3>)
            ensures
                res@ == gravity_accel3(args@, self.body1.m.add_spec(self.body2.m), self.g),
            {
                let r: Vector<E, 3> = Vector { data: [args.data[1], args.data[2], args.data[3]] };

                let sum_sq = r.data[0].mul(r.data[0]).add(r.data[1].mul(r.data[1])).add(
                    r.data[2].mul(r.data[2]),
                );
                let len_inpow3 = sum_sq.mul(sum_sq.sqrt());

                let res = r.mul(self.body1.m.add(self.body2.m)).mul(self.g.neg()).div(len_inpow3);
                proof {
                    assert(r@ =~= seq![args@[1], args@[2], args@[3]]);
                }
                res
            };

        let soe = Soe2Builder::<E, 7, 3>::new().build(f1, f2);
        proof {
            assert forall|a: Vector<E, 7>| #[trigger] soe.accepts(a) by {
                assert(call_requires(f1, (&a,)));
                assert(call_requires(f2, (&a,)));
            }
            assert forall|a: Vector<E, 7>, o: Seq<E>| #[trigger] soe.delivers(a, o) implies o
                == derivative3(a@, self.body1.m.add_spec(self.body2.m), self.g) by {
                let (r1, r2) = choose|r1: Vector<E, 3>, r2: Vector<E, 3>|
                    call_ensures(f1, (&a,), r1) && call_ensures(f2, (&a,), r2) && o == spec_concat(
                        r1@,
                        r2@,
                        7nat,
                    );
            }
        }
        soe
    }

    /// The initial relative state `[0, Δposition, Δvelocity]`.
    pub fn get_init(&self) -> (r: Vector<E, 7>)
        ensures
            r@ == init_state3(*self),
            r@[0] == E::zero_spec(),
    {
        Vector::<E, 7>::construct_from_two(
            &self.body2.pos.sub(self.body1.pos),
            &self.body2.velocity.sub(self.body1.velocity),
        )
    }

    /// A classical Runge-Kutta integrator of this system with step `h`.
    pub fn construct_rk4(&self, h: E) -> (r: Rk4<E, impl Soe<Elem = E, Args = Vector<E, 7>>, 7>)
        ensures
            r.init@ == init_state3(*self),
            r.h == h,
            forall|a: Vector<E, 7>| #[trigger] r.soe.accepts(a),
            forall|a: Vector<E, 7>, o: Seq<E>| #[trigger] r.soe.delivers(a, o) ==> o
                == derivative3(a@, self.body1.m.add_spec(self.body2.m), self.g),
    {
        Rk4::new(self.get_init(), self.generate_soe(), h)
    }

    /// A Heun integrator of this system with step `h`.
    pub fn construct_euler(&self, h: E) -> (r: Euler<
        E,
        impl Soe<Elem = E, Args = Vector<E, 7>>,
        7,
    >)
        ensures
            r.init@ == init_state3(*self),
            r.h == h,
            forall|a: Vector<E, 7>| #[trigger] r.soe.accepts(a),
            forall|a: Vector<E, 7>, o: Seq<E>| #[trigger] r.soe.delivers(a, o) ==> o
                == derivative3(a@, self.body1.m.add_spec(self.body2.m), self.g),
    {
        Euler::new(self.get_init(), self.generate_soe(), h)
    }

    /// An adaptive Runge-Kutta-Fehlberg integrator of this system with
    /// initial step `h`, error tolerance `e` and maximum time `max`.
    pub fn construct_rk45(&self, h: E, e: E, max: E) -> (r: Rk45<
        E,
        impl Soe<Elem = E, Args = Vector<E, 7>>,
        7,
    >)
        ensures
            r.init@ == init_state3(*self),
            r.h == h,
            r.e == e,
            r.max == max,
            !r.stalled,
            forall|a: Vector<E, 7>| #[trigger] r.soe.accepts(a),
            forall|a: Vector<E, 7>, o: Seq<E>| #[trigger] r.soe.delivers(a, o) ==> o
                == derivative3(a@, self.body1.m.add_spec(self.body2.m), self.g),
    {
        Rk45::new(self.get_init(), self.generate_soe(), h, e, max)
    }

    /// A two-step Adams-Bashforth integrator of this system, seeded with
    /// the initial state and the given second seed.
    pub fn construct_ab2(&self, h: E, init2: Vector<E, 7>) -> (r: Ab2<
        E,
        impl Soe<Elem = E, Args = Vector<E, 7>>,
        7,
    >)
        ensures
            r.init1@ == init_state3(*self),
            r.init2 == init2,
            r.h == h,
            forall|a: Vector<E, 7>| #[trigger] r.soe.accepts(a),
            forall|a: Vector<E, 7>, o: Seq<E>| #[trigger] r.soe.delivers(a, o) ==> o
                == derivative3(a@, self.body1.m.add_spec(self.body2.m), self.g),
    {
        Ab2::new(self.get_init(), init2, self.generate_soe(), h)
    }

    /// An Adams-Bashforth-Moulton integrator of this system, seeded with
    /// the initial state and the given second seed.
    pub fn construct_am2(&self, h: E, init2: Vector<E, 7>) -> (r: Am2<
        E,
        impl Soe<Elem = E, Args = Vector<E, 7>>,
        7,
    >)
        ensures
            r.init1@ == init_state3(*self),
            r.init2 == init2,
            r.h == h,
            forall|a: Vector<E, 7>| #[trigger] r.soe.accepts(a),
            forall|a: Vector<E, 7>, o: Seq<E>| #[trigger] r.soe.delivers(a, o) ==> o
                == derivative3(a@, self.body1.m.add_spec(self.body2.m), self.g),
    {
        Am2::new(self.get_init(), init2, self.generate_soe(), h)
    }
}

impl<E: Num> TwoBodyReader<E, 2> {
    /// The absolute positions of the two bodies for the relative state
    /// `data = [t, rx, ry, vx, vy]`: the centre of mass at time `t`, minus
    /// the mass-weighted share of the relative position for the first
    /// body, plus it for the second.
    pub fn get(&self, data: Vector<E, 5>) -> (p: Position<E, 2>)
        ensures
            p.body1@ == seq_sub(
                seq_add(seq_scale(self.a@, data@[0]), self.b@),
                seq_div(seq_scale(seq![data@[1], data@[2]], self.m2), self.m1.add_spec(self.m2)),
            ),
            p.body2@ == seq_add(
                seq_add(seq_scale(self.a@, data@[0]), self.b@),
                seq_div(seq_scale(seq![data@[1], data@[2]], self.m1), self.m1.add_spec(self.m2)),
            ),
    {
        let r: Vector<E, 2> = Vector { data: [data.data[1], data.data[2]] };
        proof {
            assert(r@ =~= seq![data@[1], data@[2]]);
        }

        let body1 = self.a.mul(data.data[0]).add(self.b).sub(
            r.mul(self.m2).div(self.m1.add(self.m2)),
        );

        let body2 = self.a.mul(data.data[0]).add(self.b).add(
            r.mul(self.m1).div(self.m1.add(self.m2)),
        );

        Position { body1, body2 }
    }
}

impl<E: Num> TwoBodyReader<E, 3> {
    /// The absolute positions of the two bodies for the relative state
    /// `data = [t, rx, ry, rz, vx, vy, vz]`.
    pub fn get(&self, data: Vector<E, 7>) -> (p: Position<E, 3>)
        ensures
            p.body1@ == seq_sub(
                seq_add(seq_scale(self.a@, data@[0]), self.b@),
                seq_div(
                    seq_scale(seq![data@[1], data@[2], data@[3]], self.m2),
                    self.m1.add_spec(self.m2),
                ),
            ),
            p.body2@ == seq_add(
                seq_add(seq_scale(self.a@, data@[0]), self.b@),
                seq_div(
                    seq_scale(seq![data@[1], data@[2], data@[3]], self.m1),
                    self.m1.add_spec(self.m2),
                ),
            ),
    {
        let r: Vector<E, 3> = Vector { data: [data.data[1], data.data[2], data.data[3]] };
        proof {
            assert(r@ =~= seq![data@[1], data@[2], data@[3]]);
        }

        let body1 = self.a.mul(data.data[0]).add(self.b).sub(
            r.mul(self.m2).div(self.m1.add(self.m2)),
        );

        let body2 = self.a.mul(data.data[0]).add(self.b).add(
            r.mul(self.m1).div(self.m1.add(self.m2)),
        );

        Position { body1, body2 }
    }
}

} // verus!
