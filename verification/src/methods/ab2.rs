//! The two-step explicit Adams-Bashforth method.

use crate::methods::soe_step;
use crate::scalar::Num;
use crate::soe::Soe;
use crate::vector::{seq_add, seq_div, seq_scale, seq_sub, Vector};
use vstd::prelude::*;

verus! {

broadcast use vstd::array::group_array_axioms;

/// One Adams-Bashforth step from the two seed states `st1` (older) and
/// `st2` (newer) with step size `h`: `out` is
/// `st2 + f(st2)*h*3/2 - f(st1)*h/2`, with its time slot forced to
/// `st2`'s time plus `h`.
pub open spec fn ab2_step<E: Num, S: Soe<Elem = E, Args = Vector<E, N>>, const N: usize>(
    s: S,
    st1: Vector<E, N>,
    st2: Vector<E, N>,
    h: E,
    out: Seq<E>,
) -> bool {
    exists|k1: Seq<E>, k2: Seq<E>|
        #![trigger soe_step(s, st1, k1), soe_step(s, st2, k2)]
        {
            let two = E::from_u64_spec(2);
            let blend = seq_sub(
                seq_add(st2@, seq_div(seq_scale(seq_scale(k2, h), E::from_u64_spec(3)), two)),
                seq_div(seq_scale(k1, h), two),
            );
            &&& soe_step(s, st1, k1)
            &&& soe_step(s, st2, k2)
            &&& out == blend.update(0, st2@[0].add_spec(h))
        }
}

/// The two-step Adams-Bashforth integrator; it must be seeded with two
/// consecutive states, typically the first outputs of a one-step method.
#[verifier::reject_recursive_types(E)]
#[verifier::reject_recursive_types(N)]
pub struct Ab2<E: Num, S: Soe<Elem = E, Args = Vector<E, N>>, const N: usize> {
    /// The older of the two seed states.
    pub init1: Vector<E, N>,
    /// The newer of the two seed states; the next step starts here.
    pub init2: Vector<E, N>,
    /// The system of equations being integrated.
    pub soe: S,
    /// The step size.
    pub h: E,
}

impl<E: Num, S: Soe<Elem = E, Args = Vector<E, N>>, const N: usize> Ab2<E, S, N> {
    /// A new integrator seeded with the consecutive states `init1` and
    /// `init2`.
    pub fn new(init1: Vector<E, N>, init2: Vector<E, N>, soe: S, h: E) -> (r: Self)
        ensures
            r.init1 == init1,
            r.init2 == init2,
            r.soe == soe,
            r.h == h,
    {
        Self { init1, init2, soe, h }
    }

    /// Performs one Adams-Bashforth step, rolls the seed pair forward and
    /// returns the new state.  The time slot of the result is exactly the
    /// newer seed's time plus the step size.  The sequence never ends on
    /// its own.
    pub fn next(&mut self) -> (r: Option<Vector<E, N>>)
        requires
            N >= 1,
            forall|a: Vector<E, N>| #[trigger] old(self).soe.accepts(a),
        ensures
            final(self).soe == old(self).soe,
            final(self).h == old(self).h,
            final(self).init1 == old(self).init2,
            r == Some(final(self).init2),
            ab2_step(old(self).soe, old(self).init1, old(self).init2, old(self).h, final(self).init2@),
    {
        let k2 = crate::methods::call_soe(&mut self.soe, &self.init2);
        let k1 = crate::methods::call_soe(&mut self.soe, &self.init1);
        let result2 = k2.mul(self.h);
        let result1 = k1.mul(self.h);

        proof {
            assert(soe_step(old(self).soe, old(self).init1, k1@) && soe_step(
                old(self).soe,
                old(self).init2,
                k2@,
            ));
        }

        self.init1 = self.init2;

        self.init2 = self.init1.add(result2.mul(E::from_u64(3)).div(E::from_u64(2))).sub(
            result1.div(E::from_u64(2)),
        );
        let time = self.init1.data[0].add(self.h);
        self.init2.data[0] = time;

        Some(self.init2)
    }
}

} // verus!
