//! The family of stepping algorithms.
//!
//! Every integrator owns its current state (one vector, or two for the
//! multi-step methods), the system of equations and a step size, and
//! produces the next state on demand.  The fixed-step methods never stop;
//! the adaptive method ends its sequence once the time slot runs past a
//! configured maximum.
//!
//! Derivative evaluations share a convention: the time slot of whatever the
//! system returns is overwritten with one, so that time advances at unit
//! rate ([`soe_step`]).

use crate::scalar::Num;
use crate::soe::Soe;
use crate::vector::Vector;
use vstd::prelude::*;

pub mod ab2;
pub mod am2;
pub mod euler;
pub mod rk4;
pub mod rk45;

verus! {

/// One forced derivative evaluation: `k` is a possible output of the system
/// on `a`, with its time slot overwritten by one.
pub open spec fn soe_step<E: Num, S: Soe<Elem = E, Args = Vector<E, N>>, const N: usize>(
    s: S,
    a: Vector<E, N>,
    k: Seq<E>,
) -> bool {
    exists|o: Seq<E>|
        #![trigger s.delivers(a, o)]
        s.delivers(a, o) && o.len() == N && k == o.update(0, E::one_spec())
}

/// Evaluates the system on `args` and forces the reserved time slot of the
/// result to one.
pub(crate) fn call_soe<E: Num, S: Soe<Elem = E, Args = Vector<E, N>>, const N: usize>(
    soe: &mut S,
    args: &Vector<E, N>,
) -> (r: Vector<E, N>)
    requires
        N >= 1,
        old(soe).accepts(*args),
    ensures
        *final(soe) == *old(soe),
        soe_step(*old(soe), *args, r@),
{
    let mut result = soe.call(args);
    let ghost o = result@;
    result.data[0] = E::one();
    proof {
        assert(old(soe).delivers(*args, o) && o.len() == N && result@ == o.update(
            0,
            E::one_spec(),
        ));
    }
    result
}

/// The magnitude of a vector: the square root of the sum of the squared
/// components, accumulated left to right.
pub open spec fn seq_sumsq<E: Num>(s: Seq<E>) -> E
    decreases s.len(),
{
    if s.len() == 0 {
        E::zero_spec()
    } else {
        seq_sumsq(s.drop_last()).add_spec(s.last().mul_spec(s.last()))
    }
}

/// The magnitude of a vector, as [`abs`] computes it.
pub open spec fn seq_norm<E: Num>(s: Seq<E>) -> E {
    seq_sumsq(s).sqrt_spec()
}

/// Magnitude of `v`: the square root of the sum of its squared components.
pub fn abs<E: Num, const N: usize>(v: &Vector<E, N>) -> (r: E)
    ensures
        r == seq_norm(v@),
{
    let mut result = E::zero();
    let mut i: usize = 0;
    while i < N
        invariant
            i <= N,
            v@.len() == N,
            result == seq_sumsq(v@.take(i as int)),
        decreases N - i,
    {
        proof {
            assert(v@.take(i + 1).drop_last() =~= v@.take(i as int));
            assert(v@.take(i + 1).last() == v@[i as int]);
        }
        result = result.add(v.data[i].mul(v.data[i]));
        i = i + 1;
    }
    proof {
        assert(v@.take(N as int) =~= v@);
    }
    result.sqrt()
}

} // verus!
