//! Systems of equations: the derivative-function abstraction.
//!
//! A [`Soe`] is something that can be evaluated on a state vector and yields
//! a vector of the same length, conventionally the time-derivative of the
//! state.  A system may be composed of two sub-functions whose partial
//! outputs are concatenated into the full derivative ([`Soe2`]), or of a
//! single sub-function ([`SimpleSoe`]); both are created through their
//! builders.
//!
//! Because the sub-functions are arbitrary closures, a system's behaviour is
//! described relationally: [`Soe::accepts`] tells on which arguments it may
//! be called and [`Soe::delivers`] which outputs a call may produce.

use crate::scalar::Num;
use crate::vector::{spec_concat, Vector};
use core::marker::PhantomData;
use vstd::prelude::*;

verus! {

/// A system of equations: called on a state vector, it returns the
/// derivative vector of the same length.
pub trait Soe: Sized {
    /// The scalar the state vectors are made of.
    type Elem;

    /// The state-vector type the system maps to itself.
    type Args: View<V = Seq<Self::Elem>> + Copy;

    /// On which argument vectors the system may be evaluated.
    spec fn accepts(self, args: Self::Args) -> bool;

    /// Which output views an evaluation on `args` may produce.
    spec fn delivers(self, args: Self::Args, out: Seq<Self::Elem>) -> bool;

    /// Evaluates the system.  The system itself is left unchanged: a
    /// derivative function is stateless.
    fn call(&mut self, args: &Self::Args) -> (out: Self::Args)
        requires
            old(self).accepts(*args),
        ensures
            *final(self) == *old(self),
            old(self).delivers(*args, out@),
            out@.len() == args@.len(),
    ;
}

/// A system composed of two sub-functions `f1` and `f2`; their outputs, of
/// length `N2` each, are concatenated into a derivative of length `N1` by
/// the layout rule of [`spec_concat`].
pub struct Soe2<F1, F2, T, const N1: usize, const N2: usize> {
    /// The first sub-function; its output forms the leading components.
    pub f1: F1,
    /// The second sub-function; its output forms the trailing components.
    pub f2: F2,
    /// Pins the state and output vector types.
    pub marker: PhantomData<(Vector<T, N1>, Vector<T, N2>)>,
}

/// Builder for [`Soe2`].
pub struct Soe2Builder<T, const N1: usize, const N2: usize> {
    /// Pins the state and output vector types.
    pub marker: PhantomData<(Vector<T, N1>, Vector<T, N2>)>,
}

impl<T, const N1: usize, const N2: usize> Soe2Builder<T, N1, N2> {
    /// A fresh builder.
    pub fn new() -> Self {
        Self { marker: PhantomData }
    }

    /// Composes the two sub-functions into a system.
    pub fn build<F1, F2>(self, f1: F1, f2: F2) -> (r: Soe2<F1, F2, T, N1, N2>) where
        F1: Fn(&Vector<T, N1>) -> Vector<T, N2>,
        F2: Fn(&Vector<T, N1>) -> Vector<T, N2>,
        T: Num,

        ensures
            r.f1 == f1,
            r.f2 == f2,
            forall|a: Vector<T, N1>| #[trigger] r.accepts(a) <==> (call_requires(f1, (&a,))
                && call_requires(f2, (&a,)) && N2 + N2 <= usize::MAX),
            forall|a: Vector<T, N1>, o: Seq<T>| #[trigger] r.delivers(a, o) <==> exists|
                r1: Vector<T, N2>,
                r2: Vector<T, N2>,
            |
                call_ensures(f1, (&a,), r1) && call_ensures(f2, (&a,), r2) && o == spec_concat(
                    r1@,
                    r2@,
                    N1 as nat,
                ),
    {
        Soe2 { f1, f2, marker: PhantomData }
    }
}

/// A system made of a single sub-function; its output is laid into the
/// derivative by the same rule, the remaining slots staying zero.
pub struct SimpleSoe<F1, T, const N1: usize, const N2: usize> {
    /// The only sub-function.
    pub f1: F1,
    /// Pins the state and output vector types.
    pub marker: PhantomData<(Vector<T, N1>, Vector<T, N2>)>,
}

/// Builder for [`SimpleSoe`].
pub struct SimpleSoeBuilder<T, const N1: usize, const N2: usize> {
    /// Pins the state and output vector types.
    pub marker: PhantomData<(Vector<T, N1>, Vector<T, N2>)>,
}

impl<T, const N1: usize, const N2: usize> SimpleSoeBuilder<T, N1, N2> {
    /// A fresh builder.
    pub fn new() -> Self {
        Self { marker: PhantomData }
    }

    /// Wraps the sub-function into a system.
    pub fn build<F1>(self, f1: F1) -> (r: SimpleSoe<F1, T, N1, N2>) where
        F1: Fn(&Vector<T, N1>) -> Vector<T, N2>,
        T: Num,

        ensures
            r.f1 == f1,
            forall|a: Vector<T, N1>| #[trigger] r.accepts(a) <==> call_requires(f1, (&a,)),
            forall|a: Vector<T, N1>, o: Seq<T>| #[trigger] r.delivers(a, o) <==> exists|
                r1: Vector<T, N2>,
            |
                call_ensures(f1, (&a,), r1) && o == spec_concat(
                    r1@,
                    crate::vector::seq_zero::<T>(0),
                    N1 as nat,
                ),
    {
        SimpleSoe { f1, marker: PhantomData }
    }
}

impl<F1, F2, T, const N1: usize, const N2: usize> Soe for Soe2<F1, F2, T, N1, N2> where
    F1: Fn(&Vector<T, N1>) -> Vector<T, N2>,
    F2: Fn(&Vector<T, N1>) -> Vector<T, N2>,
    T: Num,
 {
    type Elem = T;

    type Args = Vector<T, N1>;

    open spec fn accepts(self, args: Self::Args) -> bool {
        &&& call_requires(self.f1, (&args,))
        &&& call_requires(self.f2, (&args,))
        &&& N2 + N2 <= usize::MAX
    }

    open spec fn delivers(self, args: Self::Args, out: Seq<T>) -> bool {
        exists|r1: Vector<T, N2>, r2: Vector<T, N2>|
            call_ensures(self.f1, (&args,), r1) && call_ensures(self.f2, (&args,), r2) && out
                == spec_concat(r1@, r2@, N1 as nat)
    }

    fn call(&mut self, args: &Self::Args) -> (out: Self::Args) {
        let f1result = (self.f1)(args);
        let f2result = (self.f2)(args);

        let out: Self::Args = Vector::construct_from_two(&f1result, &f2result);
        proof {
            assert(call_ensures(self.f1, (args,), f1result) && call_ensures(
                self.f2,
                (args,),
                f2result,
            ) && out@ == spec_concat(f1result@, f2result@, N1 as nat));
        }
        out
    }
}

impl<F1, T, const N1: usize, const N2: usize> Soe for SimpleSoe<F1, T, N1, N2> where
    F1: Fn(&Vector<T, N1>) -> Vector<T, N2>,
    T: Num,
 {
    type Elem = T;

    type Args = Vector<T, N1>;

    open spec fn accepts(self, args: Self::Args) -> bool {
        call_requires(self.f1, (&args,))
    }

    open spec fn delivers(self, args: Self::Args, out: Seq<T>) -> bool {
        exists|r1: Vector<T, N2>|
            call_ensures(self.f1, (&args,), r1) && out == spec_concat(
                r1@,
                crate::vector::seq_zero::<T>(0),
                N1 as nat,
            )
    }

    fn call(&mut self, args: &Self::Args) -> (out: Self::Args) {
        let f1result = (self.f1)(args);

        let empty = Vector::<T, 0>::new();
        let out: Self::Args = Vector::construct_from_two(&f1result, &empty);
        proof {
            assert(empty@ =~= crate::vector::seq_zero::<T>(0));
            assert(call_ensures(self.f1, (args,), f1result) && out@ == spec_concat(
                f1result@,
                crate::vector::seq_zero::<T>(0),
                N1 as nat,
            ));
        }
        out
    }
}

} // verus!
