//! Scalar capabilities required of state-vector components.
//!
//! The integrators and the two-body setup are generic over the scalar the
//! state vectors are made of.  A scalar must offer componentwise arithmetic,
//! comparisons and a square root; the analytic Kepler propagator additionally
//! needs the trigonometric operations of [`Angular`].  Each implementation
//! fixes the meaning of its own operations through its `*_spec`
//! functions, and every executable operation is pinned to that meaning.
//!
//! The crate ships an exact instantiation for `i32`: addition, subtraction
//! and multiplication wrap around two's complement, division truncates
//! towards zero as the machine division does, and the square root is the
//! floor square root (zero on negative inputs).  Fractional powers
//! collapse to one and the trigonometric operations to constants: they
//! have no exact integer meaning.  It is the instantiation the proofs and
//! the deterministic tests run on; callers may instantiate the same traits
//! for approximate scalars of their own.

use vstd::prelude::*;

verus! {

/// Componentwise arithmetic of a state-vector scalar.
///
/// Every operation returns exactly the value described by the
/// matching `*_spec` function of the implementation, so two calls on equal inputs
/// agree and contracts written over the `*_spec` functions pin the
/// executable results completely.
pub trait Num: Sized + Copy {
    /// The additive neutral element, used for padding and fresh vectors.
    spec fn zero_spec() -> Self;

    /// The value written into the reserved time slot of a derivative.
    spec fn one_spec() -> Self;

    /// Meaning of [`Num::from_u64`].
    spec fn from_u64_spec(n: u64) -> Self;

    /// Meaning of [`Num::add`].
    spec fn add_spec(self, rhs: Self) -> Self;

    /// Meaning of [`Num::sub`].
    spec fn sub_spec(self, rhs: Self) -> Self;

    /// Meaning of [`Num::mul`].
    spec fn mul_spec(self, rhs: Self) -> Self;

    /// Meaning of [`Num::div`].
    spec fn div_spec(self, rhs: Self) -> Self;

    /// Meaning of [`Num::neg`].
    spec fn neg_spec(self) -> Self;

    /// Meaning of [`Num::abs`].
    spec fn abs_spec(self) -> Self;

    /// Meaning of [`Num::sqrt`].
    spec fn sqrt_spec(self) -> Self;

    /// Meaning of [`Num::pow`].
    spec fn pow_spec(self, rhs: Self) -> Self;

    /// Meaning of [`Num::equals`].
    spec fn eq_spec(self, rhs: Self) -> bool;

    /// Meaning of [`Num::le`].
    spec fn le_spec(self, rhs: Self) -> bool;

    /// Meaning of [`Num::lt`].
    spec fn lt_spec(self, rhs: Self) -> bool;

    /// The additive neutral element.
    fn zero() -> (r: Self)
        ensures
            r == Self::zero_spec(),
    ;

    /// The rate at which time advances per unit of time.
    fn one() -> (r: Self)
        ensures
            r == Self::one_spec(),
    ;

    /// Embeds a small machine integer, for the fixed coefficients of the
    /// integration formulas.
    fn from_u64(n: u64) -> (r: Self)
        ensures
            r == Self::from_u64_spec(n),
    ;

    /// Addition.
    fn add(self, rhs: Self) -> (r: Self)
        ensures
            r == self.add_spec(rhs),
    ;

    /// Subtraction.
    fn sub(self, rhs: Self) -> (r: Self)
        ensures
            r == self.sub_spec(rhs),
    ;

    /// Multiplication.
    fn mul(self, rhs: Self) -> (r: Self)
        ensures
            r == self.mul_spec(rhs),
    ;

    /// Division.  Division by zero must not panic; what it yields is fixed
    /// by the implementation (an infinity, a zero, ...).
    fn div(self, rhs: Self) -> (r: Self)
        ensures
            r == self.div_spec(rhs),
    ;

    /// Additive inverse.
    fn neg(self) -> (r: Self)
        ensures
            r == self.neg_spec(),
    ;

    /// Magnitude of the scalar.
    fn abs(self) -> (r: Self)
        ensures
            r == self.abs_spec(),
    ;

    /// Square root, used by the vector magnitude and the gravity law.
    fn sqrt(self) -> (r: Self)
        ensures
            r == self.sqrt_spec(),
    ;

    /// Raises `self` to the power `rhs`; the adaptive step-size controller
    /// uses it for its fractional exponent.
    fn pow(self, rhs: Self) -> (r: Self)
        ensures
            r == self.pow_spec(rhs),
    ;

    /// `self == rhs` in the scalar's order.
    fn equals(self, rhs: Self) -> (r: bool)
        ensures
            r == self.eq_spec(rhs),
    ;

    /// `self <= rhs` in the scalar's order.
    fn le(self, rhs: Self) -> (r: bool)
        ensures
            r == self.le_spec(rhs),
    ;

    /// `self < rhs` in the scalar's order.
    fn lt(self, rhs: Self) -> (r: bool)
        ensures
            r == self.lt_spec(rhs),
    ;
}

/// Trigonometric capabilities needed by the analytic Kepler propagator.
pub trait Angular: Num {
    /// Meaning of [`Angular::pi`].
    spec fn pi_spec() -> Self;

    /// Meaning of [`Angular::sin`].
    spec fn sin_spec(self) -> Self;

    /// Meaning of [`Angular::cos`].
    spec fn cos_spec(self) -> Self;

    /// Meaning of [`Angular::tan`].
    spec fn tan_spec(self) -> Self;

    /// Meaning of [`Angular::acos`].
    spec fn acos_spec(self) -> Self;

    /// Meaning of [`Angular::atan`].
    spec fn atan_spec(self) -> Self;

    /// Meaning of [`Angular::atan2`].
    spec fn atan2_spec(self, rhs: Self) -> Self;

    /// The half turn.
    fn pi() -> (r: Self)
        ensures
            r == Self::pi_spec(),
    ;

    /// Sine.
    fn sin(self) -> (r: Self)
        ensures
            r == self.sin_spec(),
    ;

    /// Cosine.
    fn cos(self) -> (r: Self)
        ensures
            r == self.cos_spec(),
    ;

    /// Tangent.
    fn tan(self) -> (r: Self)
        ensures
            r == self.tan_spec(),
    ;

    /// Inverse cosine.
    fn acos(self) -> (r: Self)
        ensures
            r == self.acos_spec(),
    ;

    /// Inverse tangent.
    fn atan(self) -> (r: Self)
        ensures
            r == self.atan_spec(),
    ;

    /// Quadrant-aware inverse tangent of `self / rhs`.
    fn atan2(self, rhs: Self) -> (r: Self)
        ensures
            r == self.atan2_spec(rhs),
    ;
}

/// The two floor square-root bounds determine the root uniquely.
proof fn lemma_floor_sqrt_unique(n: int, a: int, b: int)
    requires
        0 <= a,
        a * a <= n,
        n < (a + 1) * (a + 1),
        0 <= b,
        b * b <= n,
        n < (b + 1) * (b + 1),
    ensures
        a == b,
{
    if a < b {
        assert((a + 1) * (a + 1) <= b * b) by (nonlinear_arith)
            requires
                0 <= a,
                a < b,
        ;
    }
    if b < a {
        assert((b + 1) * (b + 1) <= a * a) by (nonlinear_arith)
            requires
                0 <= b,
                b < a,
        ;
    }
}

/// The floor square root of a non-negative integer.
pub open spec fn floor_sqrt(n: int) -> int {
    choose|r: int| 0 <= r && #[trigger] (r * r) <= n && n < (r + 1) * (r + 1)
}

/// The exact instantiation: wrapping ring operations, truncating
/// division, floor square root, and a fractional power collapsed to one.
impl Num for i32 {
    open spec fn zero_spec() -> Self {
        0
    }

    open spec fn one_spec() -> Self {
        1
    }

    open spec fn from_u64_spec(n: u64) -> Self {
        vstd::wrapping::i32_specs::signed_crop(n as int)
    }

    open spec fn add_spec(self, rhs: Self) -> Self {
        vstd::wrapping::i32_specs::wrapping_add(self, rhs)
    }

    open spec fn sub_spec(self, rhs: Self) -> Self {
        vstd::wrapping::i32_specs::wrapping_sub(self, rhs)
    }

    open spec fn mul_spec(self, rhs: Self) -> Self {
        vstd::wrapping::i32_specs::wrapping_mul(self, rhs)
    }

    open spec fn div_spec(self, rhs: Self) -> Self {
        if rhs == 0 {
            0
        } else if self == i32::MIN && rhs == -1 {
            i32::MIN
        } else {
            let a = if self >= 0 {
                self as int
            } else {
                0 - self as int
            };
            let b = if rhs >= 0 {
                rhs as int
            } else {
                0 - rhs as int
            };
            if (self >= 0) == (rhs >= 0) {
                (a / b) as i32
            } else {
                (0 - a / b) as i32
            }
        }
    }

    open spec fn neg_spec(self) -> Self {
        vstd::wrapping::i32_specs::wrapping_sub(0, self)
    }

    open spec fn abs_spec(self) -> Self {
        if self < 0 {
            vstd::wrapping::i32_specs::wrapping_sub(0, self)
        } else {
            self
        }
    }

    open spec fn sqrt_spec(self) -> Self {
        if self <= 0 {
            0
        } else {
            floor_sqrt(self as int) as i32
        }
    }

    open spec fn pow_spec(self, rhs: Self) -> Self {
        1
    }

    open spec fn eq_spec(self, rhs: Self) -> bool {
        self == rhs
    }

    open spec fn le_spec(self, rhs: Self) -> bool {
        self <= rhs
    }

    open spec fn lt_spec(self, rhs: Self) -> bool {
        self < rhs
    }

    fn zero() -> (r: Self) {
        0
    }

    fn one() -> (r: Self) {
        1
    }

    fn from_u64(n: u64) -> (r: Self) {
        let m: u64 = n % 0x1_0000_0000;
        if m <= i32::MAX as u64 {
            m as i32
        } else {
            ((m as i64) - 0x1_0000_0000) as i32
        }
    }

    fn add(self, rhs: Self) -> (r: Self) {
        self.wrapping_add(rhs)
    }

    fn sub(self, rhs: Self) -> (r: Self) {
        self.wrapping_sub(rhs)
    }

    fn mul(self, rhs: Self) -> (r: Self) {
        self.wrapping_mul(rhs)
    }

    fn div(self, rhs: Self) -> (r: Self) {
        if rhs == 0 {
            return 0;
        }
        if self == i32::MIN && rhs == -1 {
            return i32::MIN;
        }
        let a: u64 = if self >= 0 {
            self as u64
        } else {
            (-(self as i64)) as u64
        };
        let b: u64 = if rhs >= 0 {
            rhs as u64
        } else {
            (-(rhs as i64)) as u64
        };
        let q: u64 = a / b;
        if (self >= 0) == (rhs >= 0) {
            q as i32
        } else {
            (-(q as i64)) as i32
        }
    }

    fn neg(self) -> (r: Self) {
        0i32.wrapping_sub(self)
    }

    fn abs(self) -> (r: Self) {
        if self < 0 {
            0i32.wrapping_sub(self)
        } else {
            self
        }
    }

    fn sqrt(self) -> (r: Self) {
        if self <= 0 {
            return 0;
        }
        let mut root: i32 = 0;
        let mut sq: i64 = 0;
        while sq + 2 * (root as i64) + 1 <= self as i64
            invariant
                0 <= root,
                root <= self,
                0 < self,
                sq == root * root,
                sq <= self,
            decreases self - root,
        {
            proof {
                assert((root + 1) * (root + 1) == root * root + 2 * root + 1) by (nonlinear_arith);
                assert(root + 1 <= (root + 1) * (root + 1)) by (nonlinear_arith)
                    requires
                        0 <= root,
                ;
            }
            sq = sq + 2 * (root as i64) + 1;
            root = root + 1;
        }
        proof {
            assert((root + 1) * (root + 1) == root * root + 2 * root + 1) by (nonlinear_arith);
            lemma_floor_sqrt_unique(
                self as int,
                root as int,
                floor_sqrt(self as int),
            );
        }
        root
    }

    fn pow(self, rhs: Self) -> (r: Self) {
        1
    }

    fn equals(self, rhs: Self) -> (r: bool) {
        self == rhs
    }

    fn le(self, rhs: Self) -> (r: bool) {
        self <= rhs
    }

    fn lt(self, rhs: Self) -> (r: bool) {
        self < rhs
    }
}

/// Integer trigonometry has no exact meaning; the operations collapse to
/// the constants that keep the propagator runnable on the exact scalar.
impl Angular for i32 {
    open spec fn pi_spec() -> Self {
        3
    }

    open spec fn sin_spec(self) -> Self {
        0
    }

    open spec fn cos_spec(self) -> Self {
        1
    }

    open spec fn tan_spec(self) -> Self {
        0
    }

    open spec fn acos_spec(self) -> Self {
        0
    }

    open spec fn atan_spec(self) -> Self {
        0
    }

    open spec fn atan2_spec(self, rhs: Self) -> Self {
        0
    }

    fn pi() -> (r: Self) {
        3
    }

    fn sin(self) -> (r: Self) {
        0
    }

    fn cos(self) -> (r: Self) {
        1
    }

    fn tan(self) -> (r: Self) {
        0
    }

    fn acos(self) -> (r: Self) {
        0
    }

    fn atan(self) -> (r: Self) {
        0
    }

    fn atan2(self, rhs: Self) -> (r: Self) {
        0
    }
}

} // verus!
