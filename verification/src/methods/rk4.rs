//! The classical fourth-order Runge-Kutta method.

use crate::methods::soe_step;
use crate::scalar::Num;
use crate::soe::Soe;
use crate::vector::{seq_add, seq_div, seq_scale, Vector};
use vstd::prelude::*;

verus! {

broadcast use vstd::array::group_array_axioms;

/// The four stage derivatives and the three intermediate states of one
/// classical Runge-Kutta step, with the blend they produce.
pub open spec fn rk4_witness<E: Num, S: Soe<Elem = E, Args = Vector<E, N>>, const N: usize>(
    s: S,
    st: Vector<E, N>,
    h: E,
    out: Seq<E>,
    k1: Seq<E>,
    p2: Vector<E, N>,
    k2: Seq<E>,
    p3: Vector<E, N>,
    k3: Seq<E>,
    p4: Vector<E, N>,
    k4: Seq<E>,
) -> bool {
    let two = E::from_u64_spec(2);
    &&& soe_step(s, st, k1)
    &&& p2@ == seq_add(st@, seq_div(seq_scale(k1, h), two))
    &&& soe_step(s, p2, k2)
    &&& p3@ == seq_add(st@, seq_div(seq_scale(k2, h), two))
    &&& soe_step(s, p3, k3)
    &&& p4@ == seq_add(st@, seq_scale(k3, h))
    &&& soe_step(s, p4, k4)
    &&& out == seq_add(
        st@,
        seq_div(
            seq_scale(
                seq_add(seq_add(seq_add(k1, seq_scale(k2, two)), seq_scale(k3, two)), k4),
                h,
            ),
            E::from_u64_spec(6),
        ),
    )
}

/// One classical Runge-Kutta step from state `st` with step size `h`: the
/// four stage derivatives `k1..k4` are evaluated at `st`, at the two half
/// steps and at the full step, and `out` is `st` plus their weighted blend
/// `(k1 + 2 k2 + 2 k3 + k4) * h / 6`.
pub open spec fn rk4_step<E: Num, S: Soe<Elem = E, Args = Vector<E, N>>, const N: usize>(
    s: S,
    st: Vector<E, N>,
    h: E,
    out: Seq<E>,
) -> bool {
    exists|
        k1: Seq<E>,
        p2: Vector<E, N>,
        k2: Seq<E>,
        p3: Vector<E, N>,
        k3: Seq<E>,
        p4: Vector<E, N>,
        k4: Seq<E>,
    | #[trigger] rk4_witness(s, st, h, out, k1, p2, k2, p3, k3, p4, k4)
}

/// A zero derivative function leaves the state unchanged: a classical
/// Runge-Kutta step over the exact `i32` scalar, driven by a system all of
/// whose outputs are zero, reproduces the state except for the reserved
/// time slot, which advances by exactly `h`.  The time bounds keep the
/// wrap-around of the exact scalar out of play; repeated steps stay under
/// them whenever the accumulated time does.
pub proof fn lemma_rk4_step_zero_derivative<
    S: Soe<Elem = i32, Args = Vector<i32, N>>,
    const N: usize,
>(s: S, st: Vector<i32, N>, h: i32, out: Seq<i32>)
    requires
        N >= 1,
        forall|a: Vector<i32, N>, o: Seq<i32>| #[trigger] s.delivers(a, o) ==> (o.len() == N
            && forall|j: int| 0 <= j < N ==> o[j] == 0i32),
        rk4_step(s, st, h, out),
        -0x10000000 <= st@[0] <= 0x10000000,
        -0x10000000 <= h <= 0x10000000,
    ensures
        out.len() == N,
        out[0] == st@[0] + h,
        forall|j: int| 1 <= j < N ==> out[j] == st@[j],
{
    let (k1, p2, k2, p3, k3, p4, k4) = choose|
        k1: Seq<i32>,
        p2: Vector<i32, N>,
        k2: Seq<i32>,
        p3: Vector<i32, N>,
        k3: Seq<i32>,
        p4: Vector<i32, N>,
        k4: Seq<i32>,
    | #[trigger] rk4_witness(s, st, h, out, k1, p2, k2, p3, k3, p4, k4);

    let o1 = choose|o: Seq<i32>|
        #![trigger s.delivers(st, o)]
        s.delivers(st, o) && o.len() == N && k1 == o.update(0, 1i32);
    let o2 = choose|o: Seq<i32>|
        #![trigger s.delivers(p2, o)]
        s.delivers(p2, o) && o.len() == N && k2 == o.update(0, 1i32);
    let o3 = choose|o: Seq<i32>|
        #![trigger s.delivers(p3, o)]
        s.delivers(p3, o) && o.len() == N && k3 == o.update(0, 1i32);
    let o4 = choose|o: Seq<i32>|
        #![trigger s.delivers(p4, o)]
        s.delivers(p4, o) && o.len() == N && k4 == o.update(0, 1i32);

    let two = 2i32;
    let sum = seq_add(seq_add(seq_add(k1, seq_scale(k2, two)), seq_scale(k3, two)), k4);

    assert(k1[0] == 1i32 && k2[0] == 1i32 && k3[0] == 1i32 && k4[0] == 1i32);
    assert(sum[0] == 6i32);
    assert(sum[0].mul_spec(h) == vstd::wrapping::i32_specs::signed_crop(6 * h));
    assert(vstd::wrapping::i32_specs::signed_crop(6 * h) == 6 * h);
    assert((6 * h) as i32 % 6i32 == 0i32);
    assert(seq_div(seq_scale(sum, h), 6i32)[0] == h);
    assert(out[0] == st@[0].add_spec(h));
    assert(out[0] == st@[0] + h);

    assert forall|j: int| 1 <= j < N implies out[j] == st@[j] by {
        assert(k1[j] == 0i32 && k2[j] == 0i32 && k3[j] == 0i32 && k4[j] == 0i32);
        assert(sum[j] == 0i32);
        assert(sum[j].mul_spec(h) == 0i32);
        assert(0i32.div_spec(6i32) == 0i32);
        assert(out[j] == st@[j].add_spec(0i32));
    }
}

/// The many-step form of the law above: along a whole trajectory of
/// classical Runge-Kutta steps over the exact `i32` scalar, driven by a
/// system all of whose outputs are zero, every state agrees with the first
/// except for the time slot, which has advanced by the step size once per
/// step.  The bounds on every time slot keep the wrap-around of the exact
/// scalar out of play.
pub proof fn lemma_rk4_zero_derivative_trajectory<
    S: Soe<Elem = i32, Args = Vector<i32, N>>,
    const N: usize,
>(s: S, states: Seq<Vector<i32, N>>, h: i32)
    requires
        N >= 1,
        states.len() >= 1,
        forall|a: Vector<i32, N>, o: Seq<i32>| #[trigger] s.delivers(a, o) ==> (o.len() == N
            && forall|j: int| 0 <= j < N ==> o[j] == 0i32),
        forall|k: int| 0 <= k < states.len() - 1 ==> rk4_step(
            s,
            states[k],
            h,
            #[trigger] states[k + 1]@,
        ),
        -0x10000000 <= h <= 0x10000000,
        forall|k: int| 0 <= k < states.len() ==> -0x10000000 <= #[trigger] states[k]@[0]
            <= 0x10000000,
    ensures
        forall|k: int|
            0 <= k < states.len() ==> (#[trigger] states[k]@[0] == states[0]@[0] + k * h
                && (forall|j: int| 1 <= j < N ==> states[k]@[j] == states[0]@[j])),
    decreases states.len(),
{
    if states.len() > 1 {
        let prior = states.drop_last();
        lemma_rk4_zero_derivative_trajectory(s, prior, h);
        let last = (states.len() - 1) as int;
        assert(forall|k: int| 0 <= k < last ==> states[k] == prior[k]);
        assert(rk4_step(s, states[last - 1], h, states[last - 1 + 1]@));
        lemma_rk4_step_zero_derivative(s, states[last - 1], h, states[last]@);
        assert((last - 1) * h + h == last * h) by (nonlinear_arith);
    }
}

/// The classical Runge-Kutta integrator: a fixed-step sequence of states.
#[verifier::reject_recursive_types(E)]
#[verifier::reject_recursive_types(N)]
pub struct Rk4<E: Num, S: Soe<Elem = E, Args = Vector<E, N>>, const N: usize> {
    /// The state the next step starts from.
    pub init: Vector<E, N>,
    /// The system of equations being integrated.
    pub soe: S,
    /// The step size.
    pub h: E,
}

impl<E: Num, S: Soe<Elem = E, Args = Vector<E, N>>, const N: usize> Rk4<E, S, N> {
    /// A new integrator starting from `init`.
    pub fn new(init: Vector<E, N>, soe: S, h: E) -> (r: Self)
        ensures
            r.init == init,
            r.soe == soe,
            r.h == h,
    {
        Self { init, soe, h }
    }

    /// Performs one classical Runge-Kutta step, advances the internal state
    /// to the result and returns it.  The sequence never ends on its own.
    pub fn next(&mut self) -> (r: Option<Vector<E, N>>)
        requires
            N >= 1,
            forall|a: Vector<E, N>| #[trigger] old(self).soe.accepts(a),
        ensures
            final(self).soe == old(self).soe,
            final(self).h == old(self).h,
            r == Some(final(self).init),
            rk4_step(old(self).soe, old(self).init, old(self).h, final(self).init@),
    {
        let two = E::from_u64(2);

        let k1 = crate::methods::call_soe(&mut self.soe, &self.init);

        let next_params = self.init.add(k1.mul(self.h).div(two));

        let k2 = crate::methods::call_soe(&mut self.soe, &next_params);

        let ghost p2 = next_params;
        let next_params = self.init.add(k2.mul(self.h).div(two));

        let k3 = crate::methods::call_soe(&mut self.soe, &next_params);

        let ghost p3 = next_params;
        let next_params = self.init.add(k3.mul(self.h));

        let k4 = crate::methods::call_soe(&mut self.soe, &next_params);

        let ghost p4 = next_params;
        let next_step = self.init.add(
            k1.add(k2.mul(two)).add(k3.mul(two)).add(k4).mul(self.h).div(E::from_u64(6)),
        );

        proof {
            assert(rk4_witness(
                old(self).soe,
                old(self).init,
                old(self).h,
                next_step@,
                k1@,
                p2,
                k2@,
                p3,
                k3@,
                p4,
                k4@,
            ));
        }

        self.init = next_step;

        Some(next_step)
    }
}

} // verus!
