//! The analytic Kepler propagator.
//!
//! From an instantaneous relative position, relative velocity and
//! gravitational parameter the constructor derives the classical orbital
//! elements of the (necessarily elliptical) orbit.  Each request then
//! solves Kepler's equation for the current time by Newton's method and
//! returns the analytic position, rotated from the orbital plane into the
//! reference frame.  Re-anchoring the epoch and the current time lets the
//! propagator serve as an oracle against a numerically advanced state at
//! the same instant.
//!
//! Newton's method runs for at most thirty iterations and stops early once
//! the residual falls below `1 / 100000000`; not converging within the
//! budget is tolerated silently and yields the best available estimate.

use crate::scalar::{Angular, Num};
use crate::vector::Vector;
use vstd::prelude::*;

verus! {

broadcast use vstd::array::group_array_axioms;

/// The magnitude of a 3-component vector.
pub open spec fn vec_len_spec<E: Num>(v: Seq<E>) -> E {
    v[0].mul_spec(v[0]).add_spec(v[1].mul_spec(v[1])).add_spec(v[2].mul_spec(v[2])).sqrt_spec()
}

/// The dot product of two 3-component vectors.
pub open spec fn scalar_mul_spec<E: Num>(a: Seq<E>, b: Seq<E>) -> E {
    a[0].mul_spec(b[0]).add_spec(a[1].mul_spec(b[1])).add_spec(a[2].mul_spec(b[2]))
}

/// The cosine of the angle between two 3-component vectors.
pub open spec fn angle_between_spec<E: Num>(a: Seq<E>, b: Seq<E>) -> E {
    scalar_mul_spec(a, b).div_spec(vec_len_spec(a).mul_spec(vec_len_spec(b)))
}

/// The cross product of two 3-component vectors.
pub open spec fn cross_spec<E: Num>(a: Seq<E>, b: Seq<E>) -> Seq<E> {
    seq![
        a[1].mul_spec(b[2]).sub_spec(a[2].mul_spec(b[1])),
        a[2].mul_spec(b[0]).sub_spec(a[0].mul_spec(b[2])),
        a[0].mul_spec(b[1]).sub_spec(a[1].mul_spec(b[0])),
    ]
}

/// Magnitude of a 3-component vector.
pub fn vec_len<E: Num>(vec: Vector<E, 3>) -> (r: E)
    ensures
        r == vec_len_spec(vec@),
{
    vec.data[0].mul(vec.data[0]).add(vec.data[1].mul(vec.data[1])).add(
        vec.data[2].mul(vec.data[2]),
    ).sqrt()
}

/// Dot product of two 3-component vectors.
pub fn scalar_mul<E: Num>(v1: Vector<E, 3>, v2: Vector<E, 3>) -> (r: E)
    ensures
        r == scalar_mul_spec(v1@, v2@),
{
    v1.data[0].mul(v2.data[0]).add(v1.data[1].mul(v2.data[1])).add(v1.data[2].mul(v2.data[2]))
}

/// Cosine of the angle between two 3-component vectors.
pub fn angle_between<E: Num>(v1: Vector<E, 3>, v2: Vector<E, 3>) -> (r: E)
    ensures
        r == angle_between_spec(v1@, v2@),
{
    scalar_mul(v1, v2).div(vec_len(v1).mul(vec_len(v2)))
}

/// Cross product of two 3-component vectors.
pub fn cross<E: Num>(a: Vector<E, 3>, b: Vector<E, 3>) -> (r: Vector<E, 3>)
    ensures
        r@ == cross_spec(a@, b@),
{
    let r = Vector {
        data: [
            a.data[1].mul(b.data[2]).sub(a.data[2].mul(b.data[1])),
            a.data[2].mul(b.data[0]).sub(a.data[0].mul(b.data[2])),
            a.data[0].mul(b.data[1]).sub(a.data[1].mul(b.data[0])),
        ],
    };
    proof {
        assert(r@ =~= cross_spec(a@, b@));
    }
    r
}

/// The threshold under which an inclination or an eccentricity counts as
/// degenerate.
pub open spec fn degenerate_threshold<E: Num>() -> E {
    E::one_spec().div_spec(E::from_u64_spec(10000))
}

/// The orbital momentum vector `r x v`.
pub open spec fn momentum_spec<E: Num>(r: Seq<E>, v: Seq<E>) -> Seq<E> {
    cross_spec(r, v)
}

/// The eccentricity vector `(v x h) / mu - r / |r|`.
pub open spec fn ecc_vec_spec<E: Num>(r: Seq<E>, v: Seq<E>, mu: E) -> Seq<E> {
    let h = momentum_spec(r, v);
    crate::vector::seq_sub(
        crate::vector::seq_div(cross_spec(v, h), mu),
        crate::vector::seq_div(r, vec_len_spec(r)),
    )
}

/// The direction of the ascending node `(-h_y, h_x, 0)`.
pub open spec fn node_spec<E: Num>(r: Seq<E>, v: Seq<E>) -> Seq<E> {
    let h = momentum_spec(r, v);
    seq![h[1].neg_spec(), h[0], E::zero_spec()]
}

/// The true anomaly, quadrant-resolved via the sign of `r . v`.
pub open spec fn true_anomaly_spec<E: Angular>(r: Seq<E>, v: Seq<E>, mu: E) -> E {
    let e_vec = ecc_vec_spec(r, v, mu);
    if E::zero_spec().le_spec(scalar_mul_spec(r, v)) {
        angle_between_spec(e_vec, r).acos_spec()
    } else {
        E::from_u64_spec(2).mul_spec(E::pi_spec()).sub_spec(angle_between_spec(e_vec, r).acos_spec())
    }
}

/// The orbit inclination `acos(h_z / |h|)`.
pub open spec fn inclination_spec<E: Angular>(r: Seq<E>, v: Seq<E>) -> E {
    let h = momentum_spec(r, v);
    h[2].div_spec(vec_len_spec(h)).acos_spec()
}

/// The orbit eccentricity `|e_vec|`.
pub open spec fn eccentricity_spec<E: Num>(r: Seq<E>, v: Seq<E>, mu: E) -> E {
    vec_len_spec(ecc_vec_spec(r, v, mu))
}

/// The eccentric anomaly at the epoch, from the true anomaly by the
/// half-angle relation.
pub open spec fn ecc_anomaly_spec<E: Angular>(r: Seq<E>, v: Seq<E>, mu: E) -> E {
    let nu = true_anomaly_spec(r, v, mu);
    let e = eccentricity_spec(r, v, mu);
    E::from_u64_spec(2).mul_spec(
        nu.div_spec(E::from_u64_spec(2)).tan_spec().div_spec(
            E::one_spec().add_spec(e).div_spec(E::one_spec().sub_spec(e)).sqrt_spec(),
        ).atan_spec(),
    )
}

/// The longitude of the ascending node, zero for the equatorial
/// degeneracy, resolved to the correct hemisphere via the sign of `n_y`.
pub open spec fn lan_spec<E: Angular>(r: Seq<E>, v: Seq<E>) -> E {
    let i = inclination_spec(r, v);
    let n = node_spec(r, v);
    if i.abs_spec().lt_spec(degenerate_threshold::<E>()) || i.eq_spec(E::pi_spec()) {
        E::zero_spec()
    } else {
        let res = n[0].div_spec(vec_len_spec(n)).acos_spec();
        if n[1].lt_spec(E::zero_spec()) {
            E::from_u64_spec(2).mul_spec(E::pi_spec()).sub_spec(res)
        } else {
            res
        }
    }
}

/// The argument of periapsis, zero for a near-circular orbit, computed
/// from the node and eccentricity vectors (directly from the eccentricity
/// vector in the equatorial degeneracy) and sign-corrected.
pub open spec fn arg_periapsis_spec<E: Angular>(r: Seq<E>, v: Seq<E>, mu: E) -> E {
    let i = inclination_spec(r, v);
    let n = node_spec(r, v);
    let e_vec = ecc_vec_spec(r, v, mu);
    let e = eccentricity_spec(r, v, mu);
    if e.abs_spec().lt_spec(degenerate_threshold::<E>()) {
        E::zero_spec()
    } else {
        let res = if i.abs_spec().lt_spec(degenerate_threshold::<E>()) || i.eq_spec(
            E::pi_spec(),
        ) {
            e_vec[1].atan2_spec(e_vec[0])
        } else {
            angle_between_spec(n, e_vec).acos_spec()
        };
        if e_vec[2].lt_spec(E::zero_spec()) || i.eq_spec(E::pi_spec()) {
            E::from_u64_spec(2).mul_spec(E::pi_spec()).sub_spec(res)
        } else {
            res
        }
    }
}

/// The mean anomaly at the epoch `E - e sin E`.
pub open spec fn mean_anomaly_spec<E: Angular>(r: Seq<E>, v: Seq<E>, mu: E) -> E {
    let ea = ecc_anomaly_spec(r, v, mu);
    ea.sub_spec(eccentricity_spec(r, v, mu).mul_spec(ea.sin_spec()))
}

/// The semi-major axis, from the vis-viva relation.
pub open spec fn semi_major_spec<E: Num>(r: Seq<E>, v: Seq<E>, mu: E) -> E {
    E::one_spec().div_spec(
        E::from_u64_spec(2).div_spec(vec_len_spec(r)).sub_spec(
            vec_len_spec(v).mul_spec(vec_len_spec(v)).div_spec(mu),
        ),
    )
}

/// The residual threshold of the Newton iteration.
pub open spec fn newton_delta<E: Num>() -> E {
    E::one_spec().div_spec(E::from_u64_spec(100000000))
}

/// The Newton iteration for Kepler's equation `Mt = E - e sin E`: starting
/// from the estimate `ea` with residual `f`, it refines at most `fuel`
/// times and stops early once the residual magnitude falls below
/// [`newton_delta`].
pub open spec fn newton_iter<E: Angular>(ecc: E, mt: E, ea: E, f: E, fuel: nat) -> E
    decreases fuel,
{
    if fuel == 0 {
        ea
    } else {
        let ea2 = ea.sub_spec(f.div_spec(E::one_spec().sub_spec(ecc.mul_spec(ea.cos_spec()))));
        let f2 = ea2.sub_spec(ecc.mul_spec(ea2.sin_spec())).sub_spec(mt);
        if f2.abs_spec().lt_spec(newton_delta::<E>()) {
            ea2
        } else {
            newton_iter(ecc, mt, ea2, f2, (fuel - 1) as nat)
        }
    }
}

/// The orbital elements of an elliptical orbit, with the epoch time, the
/// current time and the step size of the emitted sequence.
#[derive(Clone, Copy)]
pub struct Kepler<E> {
    /// Semi-major axis.
    pub a: E,
    /// Eccentricity.
    pub e: E,
    /// Argument of periapsis.
    pub w: E,
    /// Longitude of the ascending node.
    pub omega: E,
    /// Inclination.
    pub i: E,
    /// Mean anomaly at the epoch.
    pub m: E,
    /// Standard gravitational parameter.
    pub mu: E,
    /// Epoch time.
    pub t0: E,
    /// Current time.
    pub t: E,
    /// Time step of the emitted sequence.
    pub step: E,
}

/// The mean anomaly of `k` at its current time,
/// `m + (t - t0) sqrt(mu / a^3)`.
pub open spec fn mean_anomaly_now<E: Angular>(k: Kepler<E>) -> E {
    k.m.add_spec(
        k.t.sub_spec(k.t0).mul_spec(
            k.mu.div_spec(k.a.mul_spec(k.a).mul_spec(k.a)).sqrt_spec(),
        ),
    )
}

/// The eccentric anomaly of `k` at its current time: the Newton solution
/// of Kepler's equation, seeded with the mean anomaly.
pub open spec fn ecc_anomaly_now<E: Angular>(k: Kepler<E>) -> E {
    let mt = mean_anomaly_now(k);
    let f0 = mt.sub_spec(k.e.mul_spec(mt.sin_spec())).sub_spec(mt);
    newton_iter(k.e, mt, mt, f0, 30nat)
}

/// The true anomaly of `k` at its current time, by the quadrant-safe
/// half-angle form.
pub open spec fn true_anomaly_now<E: Angular>(k: Kepler<E>) -> E {
    let ea = ecc_anomaly_now(k);
    E::from_u64_spec(2).mul_spec(
        E::one_spec().add_spec(k.e).sqrt_spec().mul_spec(
            ea.div_spec(E::from_u64_spec(2)).sin_spec(),
        ).atan2_spec(
            E::one_spec().sub_spec(k.e).sqrt_spec().mul_spec(
                ea.div_spec(E::from_u64_spec(2)).cos_spec(),
            ),
        ),
    )
}

/// The distance to the central body at the current time,
/// `a (1 - e cos E)`.
pub open spec fn radius_now<E: Angular>(k: Kepler<E>) -> E {
    k.a.mul_spec(E::one_spec().sub_spec(k.e.mul_spec(ecc_anomaly_now(k).cos_spec())))
}

/// The analytic position of `k` at its current time, rotated from the
/// orbital plane into the reference frame by the angles `w`, `i` and
/// `omega`.
pub open spec fn position_now<E: Angular>(k: Kepler<E>) -> Seq<E> {
    let nut = true_anomaly_now(k);
    let rc = radius_now(k);
    let ot0 = nut.cos_spec().mul_spec(rc);
    let ot1 = nut.sin_spec().mul_spec(rc);
    let x = ot0.mul_spec(
        k.w.cos_spec().mul_spec(k.omega.cos_spec()).sub_spec(
            k.w.sin_spec().mul_spec(k.i.cos_spec()).mul_spec(k.omega.sin_spec()),
        ),
    ).sub_spec(
        ot1.mul_spec(
            k.w.sin_spec().mul_spec(k.omega.cos_spec()).add_spec(
                k.w.cos_spec().mul_spec(k.i.cos_spec()).mul_spec(k.omega.sin_spec()),
            ),
        ),
    );
    let y = ot0.mul_spec(
        k.w.cos_spec().mul_spec(k.omega.sin_spec()).add_spec(
            k.w.sin_spec().mul_spec(k.i.cos_spec()).mul_spec(k.omega.cos_spec()),
        ),
    ).add_spec(
        ot1.mul_spec(
            k.w.cos_spec().mul_spec(k.i.cos_spec()).mul_spec(k.omega.cos_spec()).sub_spec(
                k.w.sin_spec().mul_spec(k.omega.sin_spec()),
            ),
        ),
    );
    let z = ot0.mul_spec(k.w.sin_spec().mul_spec(k.i.sin_spec())).add_spec(
        ot1.mul_spec(k.w.cos_spec().mul_spec(k.i.sin_spec())),
    );
    seq![x, y, z]
}

impl<E: Angular> Kepler<E> {
    /// Derives the orbital elements from an instantaneous relative
    /// position `r`, relative velocity `v` and gravitational parameter
    /// `mu`.  Only elliptical orbits are supported: the eccentricity of
    /// the orbit described by the inputs must be below one.
    pub fn new(r: Vector<E, 3>, v: Vector<E, 3>, mu: E, step: E) -> (k: Self)
        requires
            eccentricity_spec(r@, v@, mu).lt_spec(E::one_spec()),
        ensures
            k.a == semi_major_spec(r@, v@, mu),
            k.e == eccentricity_spec(r@, v@, mu),
            k.w == arg_periapsis_spec(r@, v@, mu),
            k.omega == lan_spec(r@, v@),
            k.i == inclination_spec(r@, v@),
            k.m == mean_anomaly_spec(r@, v@, mu),
            k.mu == mu,
            k.t0 == E::zero_spec(),
            k.t == E::zero_spec().add_spec(step),
            k.step == step,
    {
        let h = cross(r, v);

        let e_vec = cross(v, h).div(mu).sub(r.div(vec_len(r)));

        let n: Vector<E, 3> = Vector { data: [h.data[1].neg(), h.data[0], E::zero()] };
        proof {
            assert(n@ =~= node_spec(r@, v@));
        }

        let nu = if E::zero().le(scalar_mul(r, v)) {
            angle_between(e_vec, r).acos()
        } else {
            E::from_u64(2).mul(E::pi()).sub(angle_between(e_vec, r).acos())
        };

        let i = h.data[2].div(vec_len(h)).acos();

        let e = vec_len(e_vec);
        let ea = E::from_u64(2).mul(
            nu.div(E::from_u64(2)).tan().div(
                E::one().add(e).div(E::one().sub(e)).sqrt(),
            ).atan(),
        );

        let tiny = E::one().div(E::from_u64(10000));

        let omega = if i.abs().lt(tiny) || i.equals(E::pi()) {
            E::zero()
        } else {
            let res = n.data[0].div(vec_len(n)).acos();
            if n.data[1].lt(E::zero()) {
                E::from_u64(2).mul(E::pi()).sub(res)
            } else {
                res
            }
        };

        let w = if e.abs().lt(tiny) {
            E::zero()
        } else {
            let res = if i.abs().lt(tiny) || i.equals(E::pi()) {
                e_vec.data[1].atan2(e_vec.data[0])
            } else {
                angle_between(n, e_vec).acos()
            };
            if e_vec.data[2].lt(E::zero()) || i.equals(E::pi()) {
                E::from_u64(2).mul(E::pi()).sub(res)
            } else {
                res
            }
        };

        let m = ea.sub(e.mul(ea.sin()));

        let a = E::one().div(
            E::from_u64(2).div(vec_len(r)).sub(vec_len(v).mul(vec_len(v)).div(mu)),
        );

        Self { a, e, w, omega, i, m, mu, t0: E::zero(), t: E::zero().add(step), step }
    }

    /// Re-anchors the current time, at which the next request reports the
    /// analytic position.
    pub fn set_current_time(&mut self, t: E)
        ensures
            *final(self) == (Kepler { t, ..*old(self) }),
    {
        self.t = t;
    }

    /// Re-anchors the epoch time.
    pub fn set_init_time(&mut self, t: E)
        ensures
            *final(self) == (Kepler { t0: t, ..*old(self) }),
    {
        self.t0 = t;
    }

    /// The analytic position at the current time, as the 5-component
    /// vector `[t, x, y, z, 0]` (the trailing slot is a fixed placeholder
    /// matching the state-vector convention).  The current time then
    /// advances by the step size.
    pub fn next(&mut self) -> (r: Option<Vector<E, 5>>)
        ensures
            *final(self) == (Kepler { t: old(self).t.add_spec(old(self).step), ..*old(self) }),
            r is Some,
            r.unwrap()@ == seq![
                old(self).t.add_spec(old(self).step).sub_spec(old(self).step),
                position_now(*old(self))[0],
                position_now(*old(self))[1],
                position_now(*old(self))[2],
                E::zero_spec(),
            ],
    {
        let mt = self.m.add(
            self.t.sub(self.t0).mul(self.mu.div(self.a.mul(self.a).mul(self.a)).sqrt()),
        );

        let mut ea = mt;
        let mut f = ea.sub(self.e.mul(ea.sin())).sub(mt);

        let delta = E::one().div(E::from_u64(100000000));

        let ghost target = newton_iter(self.e, mt, ea, f, 30nat);

        let mut idx: usize = 0;
        while idx < 30
            invariant_except_break
                idx <= 30,
                *self == *old(self),
                delta == newton_delta::<E>(),
                newton_iter(self.e, mt, ea, f, (30 - idx) as nat) == target,
            ensures
                *self == *old(self),
                ea == target,
            decreases 30 - idx,
        {
            ea = ea.sub(f.div(E::one().sub(self.e.mul(ea.cos()))));
            f = ea.sub(self.e.mul(ea.sin())).sub(mt);
            idx = idx + 1;
            if f.abs().lt(delta) {
                break ;
            }
        }

        let nut = E::from_u64(2).mul(
            E::one().add(self.e).sqrt().mul(ea.div(E::from_u64(2)).sin()).atan2(
                E::one().sub(self.e).sqrt().mul(ea.div(E::from_u64(2)).cos()),
            ),
        );

        let rc = self.a.mul(E::one().sub(self.e.mul(ea.cos())));

        let ot = Vector::<E, 3> { data: [nut.cos(), nut.sin(), E::zero()] }.mul(rc);

        let x = ot.data[0].mul(
            self.w.cos().mul(self.omega.cos()).sub(
                self.w.sin().mul(self.i.cos()).mul(self.omega.sin()),
            ),
        ).sub(
            ot.data[1].mul(
                self.w.sin().mul(self.omega.cos()).add(
                    self.w.cos().mul(self.i.cos()).mul(self.omega.sin()),
                ),
            ),
        );

        let y = ot.data[0].mul(
            self.w.cos().mul(self.omega.sin()).add(
                self.w.sin().mul(self.i.cos()).mul(self.omega.cos()),
            ),
        ).add(
            ot.data[1].mul(
                self.w.cos().mul(self.i.cos()).mul(self.omega.cos()).sub(
                    self.w.sin().mul(self.omega.sin()),
                ),
            ),
        );

        let z = ot.data[0].mul(self.w.sin().mul(self.i.sin())).add(
            ot.data[1].mul(self.w.cos().mul(self.i.sin())),
        );

        self.t = self.t.add(self.step);

        let out = Vector::<E, 5> { data: [self.t.sub(self.step), x, y, z, E::zero()] };
        proof {
            assert(out@ =~= seq![
                old(self).t.add_spec(old(self).step).sub_spec(old(self).step),
                position_now(*old(self))[0],
                position_now(*old(self))[1],
                position_now(*old(self))[2],
                E::zero_spec(),
            ]);
        }

        Some(out)
    }
}

} // verus!
