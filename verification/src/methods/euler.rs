//! Heun's predictor-corrector variant of the Euler method.

use crate::scalar::Num;
use crate::soe::Soe;
use crate::vector::{seq_add, seq_div, seq_scale, Vector};
use vstd::prelude::*;

verus! {

broadcast use vstd::array::group_array_axioms;

/// The two derivative evaluations and the trial state of one Heun step,
/// with the blend they produce.
pub open spec fn euler_witness<E: Num, S: Soe<Elem = E, Args = Vector<E, N>>, const N: usize>(
    s: S,
    st: Vector<E, N>,
    h: E,
    out: Seq<E>,
    o1: Seq<E>,
    t1: Vector<E, N>,
    o2: Seq<E>,
) -> bool {
    let k1 = o1.update(0, E::one_spec());
    let k2 = o2.update(0, E::one_spec());
    &&& s.delivers(st, o1)
    &&& o1.len() == N
    &&& t1@ == seq_add(st@, seq_scale(k1, h))
    &&& s.delivers(t1, o2)
    &&& o2.len() == N
    &&& out == seq_add(st@, seq_div(seq_scale(seq_add(k1, k2), h), E::from_u64_spec(2)))
}

/// One Heun step from state `st` with step size `h`: the derivative at `st`
/// gives a trial state, the derivative at the trial state is averaged with
/// the first, and `out` is `st` plus the average scaled by `h`.  Both
/// derivative evaluations carry a forced unit time slot.
pub open spec fn euler_step<E: Num, S: Soe<Elem = E, Args = Vector<E, N>>, const N: usize>(
    s: S,
    st: Vector<E, N>,
    h: E,
    out: Seq<E>,
) -> bool {
    exists|o1: Seq<E>, t1: Vector<E, N>, o2: Seq<E>| #[trigger] euler_witness(
        s,
        st,
        h,
        out,
        o1,
        t1,
        o2,
    )
}

/// A zero derivative function leaves the state unchanged: a Heun step over
/// the exact `i32` scalar, driven by a system all of whose outputs are
/// zero, reproduces the state except for the reserved time slot, which
/// advances by exactly `h`.  The time bounds keep the wrap-around of the
/// exact scalar out of play.
pub proof fn lemma_euler_step_zero_derivative<
    S: Soe<Elem = i32, Args = Vector<i32, N>>,
    const N: usize,
>(s: S, st: Vector<i32, N>, h: i32, out: Seq<i32>)
    requires
        N >= 1,
        forall|a: Vector<i32, N>, o: Seq<i32>| #[trigger] s.delivers(a, o) ==> (o.len() == N
            && forall|j: int| 0 <= j < N ==> o[j] == 0i32),
        euler_step(s, st, h, out),
        -0x10000000 <= st@[0] <= 0x10000000,
        -0x10000000 <= h <= 0x10000000,
    ensures
        out.len() == N,
        out[0] == st@[0] + h,
        forall|j: int| 1 <= j < N ==> out[j] == st@[j],
{
    let (o1, t1, o2) = choose|o1: Seq<i32>, t1: Vector<i32, N>, o2: Seq<i32>|
        #[trigger] euler_witness(s, st, h, out, o1, t1, o2);

    let k1 = o1.update(0, 1i32);
    let k2 = o2.update(0, 1i32);
    let sum = seq_add(k1, k2);

    assert(sum[0] == 2i32);
    assert(sum[0].mul_spec(h) == vstd::wrapping::i32_specs::signed_crop(2 * h));
    assert(vstd::wrapping::i32_specs::signed_crop(2 * h) == 2 * h);
    assert(seq_div(seq_scale(sum, h), 2i32)[0] == h);
    assert(out[0] == st@[0].add_spec(h));

    assert forall|j: int| 1 <= j < N implies out[j] == st@[j] by {
        assert(o1[j] == 0i32 && o2[j] == 0i32);
        assert(sum[j] == 0i32);
        assert(sum[j].mul_spec(h) == 0i32);
        assert(out[j] == st@[j].add_spec(0i32));
    }
}

/// The many-step form of the law above: along a whole trajectory of Heun
/// steps over the exact `i32` scalar, driven by a system all of whose
/// outputs are zero, every state agrees with the first except for the
/// time slot, which has advanced by the step size once per step.  The
/// bounds on every time slot keep the wrap-around of the exact scalar out
/// of play.
pub proof fn lemma_euler_zero_derivative_trajectory<
    S: Soe<Elem = i32, Args = Vector<i32, N>>,
    const N: usize,
>(s: S, states: Seq<Vector<i32, N>>, h: i32)
    requires
        N >= 1,
        states.len() >= 1,
        forall|a: Vector<i32, N>, o: Seq<i32>| #[trigger] s.delivers(a, o) ==> (o.len() == N
            && forall|j: int| 0 <= j < N ==> o[j] == 0i32),
        forall|k: int| 0 <= k < states.len() - 1 ==> euler_step(
            s,
            states[k],
            h,
            #[trigger] states[k + 1]@,
        ),
        -0x10000000 <= h <= 0x10000000,
        forall|k: int| 0 <= k < states.len() ==> -0x10000000 <= #[trigger] states[k]@[0]
            <= 0x10000000,
    ensures
        forall|k: int|
            0 <= k < states.len() ==> (#[trigger] states[k]@[0] == states[0]@[0] + k * h
                && (forall|j: int| 1 <= j < N ==> states[k]@[j] == states[0]@[j])),
    decreases states.len(),
{
    if states.len() > 1 {
        let prior = states.drop_last();
        lemma_euler_zero_derivative_trajectory(s, prior, h);
        let last = (states.len() - 1) as int;
        assert(forall|k: int| 0 <= k < last ==> states[k] == prior[k]);
        assert(euler_step(s, states[last - 1], h, states[last - 1 + 1]@));
        lemma_euler_step_zero_derivative(s, states[last - 1], h, states[last]@);
        assert((last - 1) * h + h == last * h) by (nonlinear_arith);
    }
}

/// The Euler (Heun) integrator: a fixed-step sequence of states.
#[verifier::reject_recursive_types(E)]
#[verifier::reject_recursive_types(N)]
pub struct Euler<E: Num, S: Soe<Elem = E, Args = Vector<E, N>>, const N: usize> {
    /// The state the next step starts from.
    pub init: Vector<E, N>,
    /// The system of equations being integrated.
    pub soe: S,
    /// The step size.
    pub h: E,
}

impl<E: Num, S: Soe<Elem = E, Args = Vector<E, N>>, const N: usize> Euler<E, S, N> {
    /// A new integrator starting from `init`.
    pub fn new(init: Vector<E, N>, soe: S, h: E) -> (r: Self)
        ensures
            r.init == init,
            r.soe == soe,
            r.h == h,
    {
        Self { init, soe, h }
    }

    /// Performs one Heun step, advances the internal state to the result
    /// and returns it.  The sequence never ends on its own.
    pub fn next(&mut self) -> (r: Option<Vector<E, N>>)
        requires
            N >= 1,
            forall|a: Vector<E, N>| #[trigger] old(self).soe.accepts(a),
        ensures
            final(self).soe == old(self).soe,
            final(self).h == old(self).h,
            r == Some(final(self).init),
            euler_step(old(self).soe, old(self).init, old(self).h, final(self).init@),
    {
        let mut result = self.soe.call(&self.init);
        let ghost o1 = result@;
        result.data[0] = E::one();

        let tmp = self.init.add(result.mul(self.h));

        let mut prediction = self.soe.call(&tmp);
        let ghost o2 = prediction@;
        prediction.data[0] = E::one();

        let ghost trial = tmp;

        let tmp = self.init.add(result.add(prediction).mul(self.h).div(E::from_u64(2)));

        proof {
            assert(euler_witness(
                old(self).soe,
                old(self).init,
                old(self).h,
                tmp@,
                o1,
                trial,
                o2,
            ));
        }

        self.init = tmp;

        Some(tmp)
    }
}

} // verus!
