//! A generic 2D vector: a pair of components with componentwise arithmetic,
//! geometric helpers (length, normalization, rotation, angle, cross and dot
//! products), conversions to and from tuples, arrays and slices, and an
//! approximate-equality capability for tolerance-based comparison.
//!
//! The component type is generic. Plain arithmetic asks only for the
//! [`Arith`](scalar::Arith) capability, which integer types satisfy; the
//! geometric methods ask for the richer [`Real`](scalar::Real) capability
//! (trigonometry, square root, a zero value), which a caller supplies for a
//! floating-point-like component type.
use crate::scalar::{Arith, Negate, Real, Rounding};
use vstd::prelude::*;

pub mod from;
pub mod ops;
pub mod scalar;

verus! {

/// A 2-component vector over a generic component type `T`.
#[derive(Copy, Clone, PartialEq, Eq, PartialOrd, Ord, Hash, Default, Debug)]
pub struct Vector2<T> {
    /// The vector's X component.
    pub x: T,
    /// The vector's Y component.
    pub y: T,
}

impl<T> Vector2<T> {
    /// Construct a new [`Vector2`] from its two components.
    pub fn new(x: T, y: T) -> (r: Self)
        ensures
            r == (Vector2 { x, y }),
    {
        Vector2 { x, y }
    }
}

impl<T: Copy> Vector2<T> {
    /// Construct a new [`Vector2`] with both components set to the given value.
    pub fn splat(x: T) -> (r: Self)
        ensures
            r == (Vector2 { x, y: x }),
    {
        Vector2 { x, y: x }
    }
}

/// The approximate-equality capability: `kinda_eq` compares two values under
/// a caller-chosen tolerance, and `approx_eq` is `kinda_eq` under the type's
/// small default tolerance. Meant for tolerance-based comparison of
/// floating-point-like values and of vectors of them.
pub trait Kinda: Sized + Copy {
    /// The type a tolerance is given in: the component type, for a vector.
    type Tol: Copy;

    /// The default tolerance that [`Kinda::approx_eq`] compares under.
    spec fn default_tol_spec() -> Self::Tol;

    /// Whether `self` counts as equal to `other` under `tolerance`.
    spec fn kinda_eq_spec(self, other: Self, tolerance: Self::Tol) -> bool;

    /// The default tolerance that [`Kinda::approx_eq`] compares under.
    fn default_tol() -> (r: Self::Tol)
        ensures
            r == Self::default_tol_spec(),
    ;

    /// Whether `self` counts as equal to `other` under `tolerance`.
    fn kinda_eq(self, other: Self, tolerance: Self::Tol) -> (r: bool)
        ensures
            r == self.kinda_eq_spec(other, tolerance),
    ;

    /// [`Kinda::kinda_eq`] under the default tolerance.
    fn approx_eq(self, other: Self) -> (r: bool)
        ensures
            r == self.kinda_eq_spec(other, Self::default_tol_spec()),
    ;
}

impl<T: Kinda<Tol = T>> Kinda for Vector2<T> {
    /// A vector's tolerance is given in its component type.
    type Tol = T;

    open spec fn default_tol_spec() -> T {
        T::default_tol_spec()
    }

    open spec fn kinda_eq_spec(self, other: Self, tolerance: T) -> bool {
        self.x.kinda_eq_spec(other.x, tolerance) && self.y.kinda_eq_spec(other.y, tolerance)
    }

    fn default_tol() -> (r: T) {
        T::default_tol()
    }

    /// Both components must independently satisfy the component-level
    /// predicate under the same tolerance.
    fn kinda_eq(self, other: Self, tolerance: T) -> (r: bool) {
        self.x.kinda_eq(other.x, tolerance) && self.y.kinda_eq(other.y, tolerance)
    }

    fn approx_eq(self, other: Self) -> (r: bool) {
        self.kinda_eq(other, T::default_tol())
    }
}

/// The component-level approximate-equality test a [`Real`] type can ground
/// its [`Kinda`] implementation in: `a` and `b` count as equal when they are
/// equal outright, or when `|a - b| < tolerance`.
pub fn kinda_eq_scalar<T: Real>(a: T, b: T, tolerance: T) -> (r: bool)
    ensures
        r == (a.eq_val_spec(b) || a.sub_spec(b).abs_spec().lt_spec(tolerance)),
{
    if a.eq_val(b) {
        true
    } else {
        proof {
            a.arith_total(b);
        }
        a.sub(b).abs().lt(tolerance)
    }
}

/// The squared length of `v`: `x·x + y·y`, over the component operations.
pub open spec fn len_sq_spec<T: Real>(v: Vector2<T>) -> T {
    v.x.mul_spec(v.x).add_spec(v.y.mul_spec(v.y))
}

/// The length of `v`: the square root of [`len_sq_spec`].
pub open spec fn length_spec<T: Real>(v: Vector2<T>) -> T {
    len_sq_spec(v).sqrt_spec()
}

/// What normalization returns: `v` scaled by the reciprocal of its length,
/// unless the squared length equals zero, in which case `v` itself (the
/// degenerate case passes through unchanged).
pub open spec fn normalized_spec<T: Real>(v: Vector2<T>) -> Vector2<T> {
    if !len_sq_spec(v).eq_val_spec(T::zero_spec()) {
        Vector2 { x: v.x.div_spec(len_sq_spec(v).sqrt_spec()), y: v.y.div_spec(len_sq_spec(v).sqrt_spec()) }
    } else {
        v
    }
}

/// What length-limiting returns: `v` rescaled to length `len` when `v` has
/// positive length greater than `len`, and `v` itself otherwise.
pub open spec fn limit_length_spec<T: Real>(v: Vector2<T>, len: T) -> Vector2<T> {
    if T::zero_spec().lt_spec(length_spec(v)) && len.lt_spec(length_spec(v)) {
        Vector2 {
            x: v.x.div_spec(length_spec(v)).mul_spec(len),
            y: v.y.div_spec(length_spec(v)).mul_spec(len),
        }
    } else {
        v
    }
}

/// What rotation by `angle` returns: the standard 2D rotation matrix applied
/// to `v`, over the component operations.
pub open spec fn rotated_spec<T: Real>(v: Vector2<T>, angle: T) -> Vector2<T> {
    Vector2 {
        x: v.x.mul_spec(angle.cos_spec()).sub_spec(v.y.mul_spec(angle.sin_spec())),
        y: v.x.mul_spec(angle.sin_spec()).add_spec(v.y.mul_spec(angle.cos_spec())),
    }
}

impl<T: Negate> Vector2<T> {
    /// Returns a perpendicular vector, rotated 90 degrees counter-clockwise,
    /// with the same length.
    pub fn orthogonal(self) -> (r: Self)
        requires
            self.x.neg_req(),
        ensures
            r == (Vector2 { x: self.y, y: self.x.neg_spec() }),
    {
        let nx = self.x.neg();
        Vector2 { x: self.y, y: nx }
    }
}

impl<T: Real> Vector2<T> {
    /// Construct the zero vector `(0, 0)`.
    pub fn zero() -> (r: Self)
        ensures
            r == (Vector2 { x: T::zero_spec(), y: T::zero_spec() }),
    {
        Vector2 { x: T::zero(), y: T::zero() }
    }

    /// Construct the right unit vector `(1, 0)`.
    pub fn right() -> (r: Self)
        ensures
            r == (Vector2 { x: T::one_spec(), y: T::zero_spec() }),
    {
        Vector2 { x: T::one(), y: T::zero() }
    }

    /// Creates a unit [`Vector2`] rotated to the given angle (radians):
    /// `(cos angle, sin angle)`.
    pub fn from_angle(angle: T) -> (r: Self)
        ensures
            r == (Vector2 { x: angle.cos_spec(), y: angle.sin_spec() }),
    {
        Vector2 { x: angle.cos(), y: angle.sin() }
    }

    /// Returns a new vector with both components in absolute value.
    pub fn abs(self) -> (r: Self)
        ensures
            r == (Vector2 { x: self.x.abs_spec(), y: self.y.abs_spec() }),
    {
        Vector2 { x: self.x.abs(), y: self.y.abs() }
    }

    /// Returns this vector's signed angle with respect to the positive X
    /// axis, in radians: `atan2(y, x)`.
    pub fn angle(&self) -> (r: T)
        ensures
            r == self.y.atan2_spec(self.x),
    {
        self.y.atan2(self.x)
    }

    /// Returns the 2D cross product of `self` and `with`:
    /// `x·with.y − y·with.x`.
    pub fn cross(&self, with: &Self) -> (r: T)
        ensures
            r == self.x.mul_spec(with.y).sub_spec(self.y.mul_spec(with.x)),
    {
        proof {
            self.x.arith_total(with.y);
            self.y.arith_total(with.x);
            self.x.mul_spec(with.y).arith_total(self.y.mul_spec(with.x));
        }
        self.x.mul(with.y).sub(self.y.mul(with.x))
    }

    /// Returns the Euclidean distance from `self` to `to`: the length of the
    /// componentwise difference.
    pub fn distance_to(&self, to: &Self) -> (r: T)
        ensures
            r == length_spec(Vector2 { x: self.x.sub_spec(to.x), y: self.y.sub_spec(to.y) }),
    {
        proof {
            self.x.arith_total(to.x);
            self.y.arith_total(to.y);
            let dx = self.x.sub_spec(to.x);
            let dy = self.y.sub_spec(to.y);
            dx.arith_total(dx);
            dy.arith_total(dy);
            dx.mul_spec(dx).arith_total(dy.mul_spec(dy));
        }
        let dx = self.x.sub(to.x);
        let dy = self.y.sub(to.y);
        dx.mul(dx).add(dy.mul(dy)).sqrt()
    }

    /// Returns the dot product of `self` and `with`:
    /// `x·with.x + y·with.y`.
    pub fn dot(&self, with: &Self) -> (r: T)
        ensures
            r == self.x.mul_spec(with.x).add_spec(self.y.mul_spec(with.y)),
    {
        proof {
            self.x.arith_total(with.x);
            self.y.arith_total(with.y);
            self.x.mul_spec(with.x).arith_total(self.y.mul_spec(with.y));
        }
        self.x.mul(with.x).add(self.y.mul(with.y))
    }

    /// Returns the length (magnitude) of `self`: `sqrt(x² + y²)`.
    pub fn length(&self) -> (r: T)
        ensures
            r == length_spec(*self),
    {
        proof {
            self.x.arith_total(self.x);
            self.y.arith_total(self.y);
            self.x.mul_spec(self.x).arith_total(self.y.mul_spec(self.y));
        }
        self.x.mul(self.x).add(self.y.mul(self.y)).sqrt()
    }

    /// Returns the squared length of `self`: `x² + y²`. Faster than
    /// [`Self::length`], which takes a square root of this value.
    pub fn length_squared(&self) -> (r: T)
        ensures
            r == len_sq_spec(*self),
    {
        proof {
            self.x.arith_total(self.x);
            self.y.arith_total(self.y);
            self.x.mul_spec(self.x).arith_total(self.y.mul_spec(self.y));
        }
        self.x.mul(self.x).add(self.y.mul(self.y))
    }

    /// Returns the vector, rescaled to length `len` when its own length
    /// exceeds both zero and `len`; a vector no longer than `len`, and the
    /// zero vector, come back unchanged.
    pub fn limit_length(self, len: T) -> (r: Self)
        ensures
            r == limit_length_spec(self, len),
    {
        let l = self.length();
        if T::zero().lt(l) && len.lt(l) {
            proof {
                self.x.arith_total(l);
                self.y.arith_total(l);
                self.x.div_spec(l).arith_total(len);
                self.y.div_spec(l).arith_total(len);
            }
            Vector2 { x: self.x.div(l).mul(len), y: self.y.div(l).mul(len) }
        } else {
            self
        }
    }

    /// Returns the result of scaling the vector to unit length: `v` divided
    /// by its length. The zero vector passes through unchanged rather than
    /// producing a division by zero.
    pub fn normalized(self) -> (r: Self)
        ensures
            r == normalized_spec(self),
    {
        let l = self.length_squared();
        if !l.eq_val(T::zero()) {
            let s = l.sqrt();
            proof {
                self.x.arith_total(s);
                self.y.arith_total(s);
            }
            Vector2 { x: self.x.div(s), y: self.y.div(s) }
        } else {
            self
        }
    }

    /// Rotates this vector by `angle` radians:
    /// `(x·cos a − y·sin a, x·sin a + y·cos a)`.
    pub fn rotated(self, angle: T) -> (r: Self)
        ensures
            r == rotated_spec(self, angle),
    {
        let c = angle.cos();
        let s = angle.sin();
        proof {
            self.x.arith_total(c);
            self.x.arith_total(s);
            self.y.arith_total(c);
            self.y.arith_total(s);
            self.x.mul_spec(c).arith_total(self.y.mul_spec(s));
            self.x.mul_spec(s).arith_total(self.y.mul_spec(c));
        }
        Vector2 { x: self.x.mul(c).sub(self.y.mul(s)), y: self.x.mul(s).add(self.y.mul(c)) }
    }
}

impl<T: Real + Negate> Vector2<T> {
    /// Construct the left unit vector `(-1, 0)`.
    pub fn left() -> (r: Self)
        requires
            T::one_spec().neg_req(),
        ensures
            r == (Vector2 { x: T::one_spec().neg_spec(), y: T::zero_spec() }),
    {
        let o = T::one();
        Vector2 { x: o.neg(), y: T::zero() }
    }

    /// Construct the up unit vector `(0, -1)`: the Y axis points down, so up
    /// is negative Y.
    pub fn up() -> (r: Self)
        requires
            T::one_spec().neg_req(),
        ensures
            r == (Vector2 { x: T::zero_spec(), y: T::one_spec().neg_spec() }),
    {
        let o = T::one();
        Vector2 { x: T::zero(), y: o.neg() }
    }

    /// Construct the down unit vector `(0, 1)`: the Y axis points down.
    pub fn down() -> (r: Self)
        ensures
            r == (Vector2 { x: T::zero_spec(), y: T::one_spec() }),
    {
        Vector2 { x: T::zero(), y: T::one() }
    }
}

impl<T: Rounding> Vector2<T> {
    /// Returns a new vector with both components rounded up (toward positive
    /// infinity).
    pub fn ceil(self) -> (r: Self)
        ensures
            r == (Vector2 { x: self.x.ceil_spec(), y: self.y.ceil_spec() }),
    {
        Vector2 { x: self.x.ceil(), y: self.y.ceil() }
    }

    /// Returns a new vector with both components rounded down (toward
    /// negative infinity).
    pub fn floor(self) -> (r: Self)
        ensures
            r == (Vector2 { x: self.x.floor_spec(), y: self.y.floor_spec() }),
    {
        Vector2 { x: self.x.floor(), y: self.y.floor() }
    }
}

/// Law: normalizing the zero vector gives back the zero vector unchanged; the
/// degenerate case raises no division by zero.
pub proof fn lemma_normalized_zero<T: Real>()
    ensures
        normalized_spec(Vector2 { x: T::zero_spec(), y: T::zero_spec() })
            == (Vector2 { x: T::zero_spec(), y: T::zero_spec() }),
{
    T::zero_props();
}

/// Law: limiting the length of the zero vector, by any bound at all, gives
/// back the zero vector unchanged.
pub proof fn lemma_limit_length_zero<T: Real>(len: T)
    ensures
        limit_length_spec(Vector2 { x: T::zero_spec(), y: T::zero_spec() }, len)
            == (Vector2 { x: T::zero_spec(), y: T::zero_spec() }),
{
    T::zero_props();
}

} // verus!
