//! Capability traits for the component type of a [`Vector2`](crate::Vector2),
//! and implementations for plain integer components.
//!
//! Each capability pairs every executable operation with a `spec` mirror, so
//! the vector-level contracts can state results componentwise, whatever the
//! component type is.
use vstd::prelude::*;

verus! {

/// The five componentwise arithmetic operations.
///
/// `*_req` says on which operands the operation is defined (for a machine
/// integer, where it neither overflows nor divides by zero); each executable
/// method returns exactly its `spec_*` mirror.
pub trait Arith: Sized + Copy {
    /// When `self + rhs` is defined.
    spec fn add_req(self, rhs: Self) -> bool;

    /// The value of `self + rhs`.
    spec fn add_spec(self, rhs: Self) -> Self;

    /// When `self - rhs` is defined.
    spec fn sub_req(self, rhs: Self) -> bool;

    /// The value of `self - rhs`.
    spec fn sub_spec(self, rhs: Self) -> Self;

    /// When `self * rhs` is defined.
    spec fn mul_req(self, rhs: Self) -> bool;

    /// The value of `self * rhs`.
    spec fn mul_spec(self, rhs: Self) -> Self;

    /// When `self / rhs` is defined.
    spec fn div_req(self, rhs: Self) -> bool;

    /// The value of `self / rhs`.
    spec fn div_spec(self, rhs: Self) -> Self;

    /// When `self % rhs` is defined.
    spec fn rem_req(self, rhs: Self) -> bool;

    /// The value of `self % rhs`.
    spec fn rem_spec(self, rhs: Self) -> Self;

    /// Addition.
    fn add(self, rhs: Self) -> (r: Self)
        requires
            self.add_req(rhs),
        ensures
            r == self.add_spec(rhs),
    ;

    /// Subtraction.
    fn sub(self, rhs: Self) -> (r: Self)
        requires
            self.sub_req(rhs),
        ensures
            r == self.sub_spec(rhs),
    ;

    /// Multiplication.
    fn mul(self, rhs: Self) -> (r: Self)
        requires
            self.mul_req(rhs),
        ensures
            r == self.mul_spec(rhs),
    ;

    /// Division.
    fn div(self, rhs: Self) -> (r: Self)
        requires
            self.div_req(rhs),
        ensures
            r == self.div_spec(rhs),
    ;

    /// Remainder.
    fn rem(self, rhs: Self) -> (r: Self)
        requires
            self.rem_req(rhs),
        ensures
            r == self.rem_spec(rhs),
    ;

    /// Law: subtracting an addend undoes the addition. Every implementation
    /// must prove it, so vector-level cancellation holds for any component.
    proof fn add_sub_cancel(self, rhs: Self)
        requires
            self.add_req(rhs),
        ensures
            self.add_spec(rhs).sub_req(rhs),
            self.add_spec(rhs).sub_spec(rhs) == self,
    ;
}

/// Unary negation, a capability of its own: a vector can be negated or turned
/// by a right angle whenever its component supports negation alone.
pub trait Negate: Sized + Copy {
    /// When `-self` is defined.
    spec fn neg_req(self) -> bool;

    /// The value of `-self`.
    spec fn neg_spec(self) -> Self;

    /// Negation.
    fn neg(self) -> (r: Self)
        requires
            self.neg_req(),
        ensures
            r == self.neg_spec(),
    ;

    /// Law: negation is an involution, and negating never leaves the domain
    /// of negation.
    proof fn neg_involutive(self)
        requires
            self.neg_req(),
        ensures
            self.neg_spec().neg_req(),
            self.neg_spec().neg_spec() == self,
    ;
}

/// The floating-point-like capability: trigonometry, square root, absolute
/// value, ordering, and representable zero and one values, on top of total
/// arithmetic.
///
/// The numeric results (a cosine, a square root) have no closed form here;
/// each is pinned only to its `*_spec` mirror, so a vector-level contract can
/// state the exact formula a method computes over the component operations.
/// The two laws state the little that every implementation must guarantee:
/// the arithmetic is total (a float operation never panics), and the zero
/// value is inert under the operations the degenerate-case guards rely on.
pub trait Real: Arith {
    /// The value of `self.cos()`.
    spec fn cos_spec(self) -> Self;

    /// The value of `self.sin()`.
    spec fn sin_spec(self) -> Self;

    /// The value of `self.atan2(x)`.
    spec fn atan2_spec(self, x: Self) -> Self;

    /// The value of `self.sqrt()`.
    spec fn sqrt_spec(self) -> Self;

    /// The value of `self.abs()`.
    spec fn abs_spec(self) -> Self;

    /// The zero value.
    spec fn zero_spec() -> Self;

    /// The one value.
    spec fn one_spec() -> Self;

    /// Whether `self < rhs` under the type's own (possibly partial) order.
    spec fn lt_spec(self, rhs: Self) -> bool;

    /// Whether `self == rhs` under the type's own equivalence (for a float,
    /// IEEE equality, not structural equality).
    spec fn eq_val_spec(self, rhs: Self) -> bool;

    /// Cosine, in radians.
    fn cos(self) -> (r: Self)
        ensures
            r == self.cos_spec(),
    ;

    /// Sine, in radians.
    fn sin(self) -> (r: Self)
        ensures
            r == self.sin_spec(),
    ;

    /// The angle of the point `(x, self)` from the positive X axis.
    fn atan2(self, x: Self) -> (r: Self)
        ensures
            r == self.atan2_spec(x),
    ;

    /// Square root.
    fn sqrt(self) -> (r: Self)
        ensures
            r == self.sqrt_spec(),
    ;

    /// Absolute value.
    fn abs(self) -> (r: Self)
        ensures
            r == self.abs_spec(),
    ;

    /// The zero value.
    fn zero() -> (r: Self)
        ensures
            r == Self::zero_spec(),
    ;

    /// The one value.
    fn one() -> (r: Self)
        ensures
            r == Self::one_spec(),
    ;

    /// Strict comparison.
    fn lt(self, rhs: Self) -> (r: bool)
        ensures
            r == self.lt_spec(rhs),
    ;

    /// Value equality.
    fn eq_val(self, rhs: Self) -> (r: bool)
        ensures
            r == self.eq_val_spec(rhs),
    ;

    /// Law: the arithmetic of a floating-point-like type is total; no operand
    /// is outside the domain of the five operations.
    proof fn arith_total(self, rhs: Self)
        ensures
            self.add_req(rhs),
            self.sub_req(rhs),
            self.mul_req(rhs),
            self.div_req(rhs),
            self.rem_req(rhs),
    ;

    /// Law: zero is inert. Squaring it, adding it to itself or taking its
    /// square root gives zero again; it equals itself and is not below
    /// itself. The degenerate-case guards of normalization and
    /// length-limiting rest on these facts.
    proof fn zero_props()
        ensures
            Self::zero_spec().mul_spec(Self::zero_spec()) == Self::zero_spec(),
            Self::zero_spec().add_spec(Self::zero_spec()) == Self::zero_spec(),
            Self::zero_spec().sqrt_spec() == Self::zero_spec(),
            Self::zero_spec().eq_val_spec(Self::zero_spec()),
            !Self::zero_spec().lt_spec(Self::zero_spec()),
    ;
}

/// The rounding capability: componentwise `ceil` and `floor` ask only for
/// this, not for the full [`Real`] capability.
pub trait Rounding: Sized + Copy {
    /// The value of `self.ceil()`.
    spec fn ceil_spec(self) -> Self;

    /// The value of `self.floor()`.
    spec fn floor_spec(self) -> Self;

    /// Rounding toward positive infinity.
    fn ceil(self) -> (r: Self)
        ensures
            r == self.ceil_spec(),
    ;

    /// Rounding toward negative infinity.
    fn floor(self) -> (r: Self)
        ensures
            r == self.floor_spec(),
    ;
}

/// Rust's truncating (round toward zero) integer division, written over the
/// Euclidean `/` of specification arithmetic.
pub open spec fn trunc_div(x: int, d: int) -> int {
    if x == 0 {
        0
    } else if x > 0 && d > 0 {
        x / d
    } else if x < 0 && d < 0 {
        (x * -1) / (d * -1)
    } else if x < 0 {
        ((x * -1) / d) * -1
    } else {
        (x / (d * -1)) * -1
    }
}

/// Rust's truncating integer remainder: the counterpart of [`trunc_div`],
/// with the sign of the dividend.
pub open spec fn trunc_rem(x: int, d: int) -> int {
    if x == 0 {
        0
    } else if x > 0 && d > 0 {
        x % d
    } else if x < 0 && d < 0 {
        ((x * -1) % (d * -1)) * -1
    } else if x < 0 {
        ((x * -1) % d) * -1
    } else {
        x % (d * -1)
    }
}

proof fn lemma_trunc_div_fits(x: int, d: int)
    requires
        i64::MIN <= x <= i64::MAX,
        i64::MIN <= d <= i64::MAX,
        d != 0,
        !(x == i64::MIN && d == -1),
    ensures
        i64::MIN <= trunc_div(x, d) <= i64::MAX,
{
    assert(i64::MIN <= trunc_div(x, d) <= i64::MAX) by (nonlinear_arith)
        requires
            i64::MIN <= x <= i64::MAX,
            i64::MIN <= d <= i64::MAX,
            d != 0,
            !(x == i64::MIN && d == -1),
    ;
}

proof fn lemma_trunc_rem_fits(x: int, d: int)
    requires
        i64::MIN <= x <= i64::MAX,
        i64::MIN <= d <= i64::MAX,
        d != 0,
        !(x == i64::MIN && d == -1),
    ensures
        i64::MIN <= trunc_rem(x, d) <= i64::MAX,
{
    assert(i64::MIN <= trunc_rem(x, d) <= i64::MAX) by (nonlinear_arith)
        requires
            i64::MIN <= x <= i64::MAX,
            i64::MIN <= d <= i64::MAX,
            d != 0,
            !(x == i64::MIN && d == -1),
    ;
}

impl Arith for i64 {
    open spec fn add_req(self, rhs: Self) -> bool {
        i64::MIN <= self + rhs <= i64::MAX
    }

    open spec fn add_spec(self, rhs: Self) -> Self {
        (self + rhs) as i64
    }

    open spec fn sub_req(self, rhs: Self) -> bool {
        i64::MIN <= self - rhs <= i64::MAX
    }

    open spec fn sub_spec(self, rhs: Self) -> Self {
        (self - rhs) as i64
    }

    open spec fn mul_req(self, rhs: Self) -> bool {
        i64::MIN <= self * rhs <= i64::MAX
    }

    open spec fn mul_spec(self, rhs: Self) -> Self {
        (self * rhs) as i64
    }

    open spec fn div_req(self, rhs: Self) -> bool {
        rhs != 0 && !(self == i64::MIN && rhs == -1)
    }

    open spec fn div_spec(self, rhs: Self) -> Self {
        trunc_div(self as int, rhs as int) as i64
    }

    open spec fn rem_req(self, rhs: Self) -> bool {
        rhs != 0 && !(self == i64::MIN && rhs == -1)
    }

    open spec fn rem_spec(self, rhs: Self) -> Self {
        trunc_rem(self as int, rhs as int) as i64
    }

    fn add(self, rhs: Self) -> (r: Self) {
        self + rhs
    }

    fn sub(self, rhs: Self) -> (r: Self) {
        self - rhs
    }

    fn mul(self, rhs: Self) -> (r: Self) {
        self * rhs
    }

    fn div(self, rhs: Self) -> (r: Self) {
        proof {
            lemma_trunc_div_fits(self as int, rhs as int);
        }
        self.checked_div(rhs).unwrap()
    }

    fn rem(self, rhs: Self) -> (r: Self) {
        proof {
            lemma_trunc_rem_fits(self as int, rhs as int);
        }
        self.checked_rem(rhs).unwrap()
    }

    proof fn add_sub_cancel(self, rhs: Self) {
    }
}

impl Negate for i64 {
    open spec fn neg_req(self) -> bool {
        self != i64::MIN
    }

    open spec fn neg_spec(self) -> Self {
        (-self) as i64
    }

    fn neg(self) -> (r: Self) {
        -self
    }

    proof fn neg_involutive(self) {
    }
}

} // verus!
