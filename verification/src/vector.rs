//! Fixed-length state vectors with componentwise arithmetic.
//!
//! A [`Vector`] owns exactly `N` scalars; the length is part of the type and
//! never changes.  Arithmetic is componentwise and preserves the length.  A
//! vector of length `N` can be assembled from two shorter vectors: the two
//! are laid out back to back, left-padded with zeros when they fall short of
//! `N` and truncated when they run past it.

use crate::scalar::Num;
use vstd::prelude::*;

verus! {

broadcast use vstd::array::group_array_axioms;

/// An ordered tuple of exactly `N` scalars.
///
/// The first slot conventionally carries the current time when the vector is
/// used as an integrator state.
#[derive(Clone, Copy)]
pub struct Vector<T, const N: usize> {
    /// The backing storage; views of the vector are views of this array.
    pub data: [T; N],
}

impl<T, const N: usize> View for Vector<T, N> {
    type V = Seq<T>;

    open spec fn view(&self) -> Seq<T> {
        self.data@
    }
}

/// The all-zero sequence of length `n`.
pub open spec fn seq_zero<T: Num>(n: nat) -> Seq<T> {
    Seq::new(n, |i: int| T::zero_spec())
}

/// Componentwise sum of two equally long sequences.
pub open spec fn seq_add<T: Num>(a: Seq<T>, b: Seq<T>) -> Seq<T> {
    Seq::new(a.len(), |i: int| a[i].add_spec(b[i]))
}

/// Componentwise difference of two equally long sequences.
pub open spec fn seq_sub<T: Num>(a: Seq<T>, b: Seq<T>) -> Seq<T> {
    Seq::new(a.len(), |i: int| a[i].sub_spec(b[i]))
}

/// Every component multiplied by the scalar `s`.
pub open spec fn seq_scale<T: Num>(a: Seq<T>, s: T) -> Seq<T> {
    Seq::new(a.len(), |i: int| a[i].mul_spec(s))
}

/// Every component divided by the scalar `s`.
pub open spec fn seq_div<T: Num>(a: Seq<T>, s: T) -> Seq<T> {
    Seq::new(a.len(), |i: int| a[i].div_spec(s))
}

/// Component `i` of `a` and `b` laid out back to back into `n` slots:
/// zero-padded on the left when the two fall short of `n`, truncated on the
/// right when they run past it.
pub open spec fn spec_concat_at<T: Num>(a: Seq<T>, b: Seq<T>, n: nat, i: int) -> T {
    if a.len() + b.len() <= n {
        let pad = n - a.len() - b.len();
        if i < pad {
            T::zero_spec()
        } else if i < pad + a.len() {
            a[i - pad]
        } else {
            b[i - pad - a.len()]
        }
    } else {
        if i < a.len() {
            a[i]
        } else {
            b[i - a.len()]
        }
    }
}

/// The sequences `a` and `b` laid out back to back into `n` slots, with the
/// padding and truncation rule of [`spec_concat_at`].
pub open spec fn spec_concat<T: Num>(a: Seq<T>, b: Seq<T>, n: nat) -> Seq<T> {
    Seq::new(n, |i: int| spec_concat_at(a, b, n, i))
}

impl<T: Num, const N: usize> Default for Vector<T, N> {
    /// The all-zero vector.
    fn default() -> (r: Self)
        ensures
            r@ == seq_zero::<T>(N as nat),
    {
        Self::new()
    }
}

impl<T, const N: usize> From<[T; N]> for Vector<T, N> {
    /// Wraps an array as a vector.
    fn from(data: [T; N]) -> (r: Self)
        ensures
            r.data == data,
    {
        Self { data }
    }
}

impl<T, const N: usize> vstd::std_specs::convert::FromSpecImpl<[T; N]> for Vector<T, N> {
    open spec fn obeys_from_spec() -> bool {
        true
    }

    open spec fn from_spec(data: [T; N]) -> Self {
        Vector { data }
    }
}

impl<T: Num, const N: usize> Vector<T, N> {
    /// The all-zero vector.
    pub fn new() -> (r: Self)
        ensures
            r@ == seq_zero::<T>(N as nat),
    {
        let r = Vector { data: [T::zero(); N] };
        proof {
            assert(r@ =~= seq_zero::<T>(N as nat));
        }
        r
    }

    /// Builds a vector of length `N` from a vector of length `N1` followed
    /// by one of length `N2`.
    ///
    /// When `N1 + N2 == N` the result is the exact concatenation; when
    /// `N1 + N2 < N` the leading `N - N1 - N2` slots are zero and the rest
    /// is the concatenation; when `N1 + N2 > N` the concatenation is cut to
    /// its first `N` entries, silently.
    pub fn construct_from_two<const N1: usize, const N2: usize>(
        vec1: &Vector<T, N1>,
        vec2: &Vector<T, N2>,
    ) -> (r: Vector<T, N>)
        requires
            N1 + N2 <= usize::MAX,
        ensures
            r@ == spec_concat(vec1@, vec2@, N as nat),
    {
        let mut result = Self::new();

        let mut start: usize = 0;

        if N1 + N2 < N {
            start = N - N1 - N2;
        }

        Self::fill_from_vector(&mut result, start, vec1);
        Self::fill_from_vector(&mut result, start + N1, vec2);

        proof {
            assert(result@ =~= spec_concat(vec1@, vec2@, N as nat));
        }
        result
    }

    /// Writes the components of `vec` into `target` starting at slot
    /// `start`, stopping at the end of `target` or of `vec`, whichever comes
    /// first.  Slots outside that range keep their values; a `start` beyond
    /// the end writes nothing.
    pub fn fill_from_vector<const N1: usize>(
        target: &mut Vector<T, N>,
        start: usize,
        vec: &Vector<T, N1>,
    )
        requires
            start + N1 <= usize::MAX,
        ensures
            final(target)@.len() == N,
            forall|i: int|
                0 <= i < N ==> final(target)@[i] == (if start <= i < start + N1 {
                    vec@[i - start]
                } else {
                    old(target)@[i]
                }),
    {
        let max = if start + N1 < N {
            start + N1
        } else {
            N
        };

        let mut i: usize = start;
        while i < max
            invariant
                start <= i,
                i <= max || i == start,
                max <= N,
                max == (if start + N1 < N {
                    start + N1
                } else {
                    N as int
                }),
                target@.len() == N,
                forall|j: int|
                    0 <= j < N ==> target@[j] == (if start <= j < i {
                        vec@[j - start]
                    } else {
                        old(target)@[j]
                    }),
            decreases max - i,
        {
            target.data[i] = vec.data[i - start];
            i = i + 1;
        }
    }

    /// Componentwise sum.
    pub fn add(self, rhs: Self) -> (r: Self)
        ensures
            r@ == seq_add(self@, rhs@),
    {
        let mut result = Self::new();
        let mut i: usize = 0;
        while i < N
            invariant
                i <= N,
                result@.len() == N,
                forall|j: int| 0 <= j < i ==> result@[j] == self@[j].add_spec(rhs@[j]),
            decreases N - i,
        {
            result.data[i] = self.data[i].add(rhs.data[i]);
            i = i + 1;
        }
        proof {
            assert(result@ =~= seq_add(self@, rhs@));
        }
        result
    }

    /// Componentwise difference.
    pub fn sub(self, rhs: Self) -> (r: Self)
        ensures
            r@ == seq_sub(self@, rhs@),
    {
        let mut result = Self::new();
        let mut i: usize = 0;
        while i < N
            invariant
                i <= N,
                result@.len() == N,
                forall|j: int| 0 <= j < i ==> result@[j] == self@[j].sub_spec(rhs@[j]),
            decreases N - i,
        {
            result.data[i] = self.data[i].sub(rhs.data[i]);
            i = i + 1;
        }
        proof {
            assert(result@ =~= seq_sub(self@, rhs@));
        }
        result
    }

    /// Every component multiplied by `rhs`.
    pub fn mul(self, rhs: T) -> (r: Self)
        ensures
            r@ == seq_scale(self@, rhs),
    {
        let mut result = Self::new();
        let mut i: usize = 0;
        while i < N
            invariant
                i <= N,
                result@.len() == N,
                forall|j: int| 0 <= j < i ==> result@[j] == self@[j].mul_spec(rhs),
            decreases N - i,
        {
            result.data[i] = self.data[i].mul(rhs);
            i = i + 1;
        }
        proof {
            assert(result@ =~= seq_scale(self@, rhs));
        }
        result
    }

    /// Every component divided by `rhs`.
    pub fn div(self, rhs: T) -> (r: Self)
        ensures
            r@ == seq_div(self@, rhs),
    {
        let mut result = Self::new();
        let mut i: usize = 0;
        while i < N
            invariant
                i <= N,
                result@.len() == N,
                forall|j: int| 0 <= j < i ==> result@[j] == self@[j].div_spec(rhs),
            decreases N - i,
        {
            result.data[i] = self.data[i].div(rhs);
            i = i + 1;
        }
        proof {
            assert(result@ =~= seq_div(self@, rhs));
        }
        result
    }
}

} // verus!
