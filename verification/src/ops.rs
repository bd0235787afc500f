//! Componentwise arithmetic on [`Vector2`]: for each of the five operations
//! (add, subtract, multiply, divide, remainder) a vector-vector form, a
//! vector-scalar broadcast form, and the two in-place counterparts; and unary
//! negation. All forms are defined by one rule: apply the component operation
//! to `x` and to `y` independently.
use crate::scalar::{Arith, Negate};
use crate::Vector2;
use vstd::prelude::*;

verus! {

/// The componentwise sum of `a` and `b`.
pub open spec fn vec_add_spec<T: Arith>(a: Vector2<T>, b: Vector2<T>) -> Vector2<T> {
    Vector2 { x: a.x.add_spec(b.x), y: a.y.add_spec(b.y) }
}

/// The componentwise difference of `a` and `b`.
pub open spec fn vec_sub_spec<T: Arith>(a: Vector2<T>, b: Vector2<T>) -> Vector2<T> {
    Vector2 { x: a.x.sub_spec(b.x), y: a.y.sub_spec(b.y) }
}

/// The componentwise product of `a` and `b`.
pub open spec fn vec_mul_spec<T: Arith>(a: Vector2<T>, b: Vector2<T>) -> Vector2<T> {
    Vector2 { x: a.x.mul_spec(b.x), y: a.y.mul_spec(b.y) }
}

/// The componentwise quotient of `a` and `b`.
pub open spec fn vec_div_spec<T: Arith>(a: Vector2<T>, b: Vector2<T>) -> Vector2<T> {
    Vector2 { x: a.x.div_spec(b.x), y: a.y.div_spec(b.y) }
}

/// The componentwise remainder of `a` and `b`.
pub open spec fn vec_rem_spec<T: Arith>(a: Vector2<T>, b: Vector2<T>) -> Vector2<T> {
    Vector2 { x: a.x.rem_spec(b.x), y: a.y.rem_spec(b.y) }
}

/// The componentwise negation of `a`.
pub open spec fn vec_neg_spec<T: Negate>(a: Vector2<T>) -> Vector2<T> {
    Vector2 { x: a.x.neg_spec(), y: a.y.neg_spec() }
}

impl<T: Arith> Vector2<T> {
    /// Componentwise addition.
    pub fn add(self, rhs: Self) -> (r: Self)
        requires
            self.x.add_req(rhs.x),
            self.y.add_req(rhs.y),
        ensures
            r == vec_add_spec(self, rhs),
    {
        Vector2 { x: self.x.add(rhs.x), y: self.y.add(rhs.y) }
    }

    /// Adds the scalar to both components.
    pub fn add_scalar(self, rhs: T) -> (r: Self)
        requires
            self.x.add_req(rhs),
            self.y.add_req(rhs),
        ensures
            r == vec_add_spec(self, Vector2 { x: rhs, y: rhs }),
    {
        Vector2 { x: self.x.add(rhs), y: self.y.add(rhs) }
    }

    /// In-place componentwise addition.
    pub fn add_assign(&mut self, rhs: Self)
        requires
            old(self).x.add_req(rhs.x),
            old(self).y.add_req(rhs.y),
        ensures
            *final(self) == vec_add_spec(*old(self), rhs),
    {
        self.x = self.x.add(rhs.x);
        self.y = self.y.add(rhs.y);
    }

    /// In-place addition of the scalar to both components.
    pub fn add_assign_scalar(&mut self, rhs: T)
        requires
            old(self).x.add_req(rhs),
            old(self).y.add_req(rhs),
        ensures
            *final(self) == vec_add_spec(*old(self), Vector2 { x: rhs, y: rhs }),
    {
        self.x = self.x.add(rhs);
        self.y = self.y.add(rhs);
    }

    /// Componentwise subtraction.
    pub fn sub(self, rhs: Self) -> (r: Self)
        requires
            self.x.sub_req(rhs.x),
            self.y.sub_req(rhs.y),
        ensures
            r == vec_sub_spec(self, rhs),
    {
        Vector2 { x: self.x.sub(rhs.x), y: self.y.sub(rhs.y) }
    }

    /// Subtracts the scalar from both components.
    pub fn sub_scalar(self, rhs: T) -> (r: Self)
        requires
            self.x.sub_req(rhs),
            self.y.sub_req(rhs),
        ensures
            r == vec_sub_spec(self, Vector2 { x: rhs, y: rhs }),
    {
        Vector2 { x: self.x.sub(rhs), y: self.y.sub(rhs) }
    }

    /// In-place componentwise subtraction.
    pub fn sub_assign(&mut self, rhs: Self)
        requires
            old(self).x.sub_req(rhs.x),
            old(self).y.sub_req(rhs.y),
        ensures
            *final(self) == vec_sub_spec(*old(self), rhs),
    {
        self.x = self.x.sub(rhs.x);
        self.y = self.y.sub(rhs.y);
    }

    /// In-place subtraction of the scalar from both components.
    pub fn sub_assign_scalar(&mut self, rhs: T)
        requires
            old(self).x.sub_req(rhs),
            old(self).y.sub_req(rhs),
        ensures
            *final(self) == vec_sub_spec(*old(self), Vector2 { x: rhs, y: rhs }),
    {
        self.x = self.x.sub(rhs);
        self.y = self.y.sub(rhs);
    }

    /// Componentwise multiplication.
    pub fn mul(self, rhs: Self) -> (r: Self)
        requires
            self.x.mul_req(rhs.x),
            self.y.mul_req(rhs.y),
        ensures
            r == vec_mul_spec(self, rhs),
    {
        Vector2 { x: self.x.mul(rhs.x), y: self.y.mul(rhs.y) }
    }

    /// Multiplies both components by the scalar.
    pub fn mul_scalar(self, rhs: T) -> (r: Self)
        requires
            self.x.mul_req(rhs),
            self.y.mul_req(rhs),
        ensures
            r == vec_mul_spec(self, Vector2 { x: rhs, y: rhs }),
    {
        Vector2 { x: self.x.mul(rhs), y: self.y.mul(rhs) }
    }

    /// In-place componentwise multiplication.
    pub fn mul_assign(&mut self, rhs: Self)
        requires
            old(self).x.mul_req(rhs.x),
            old(self).y.mul_req(rhs.y),
        ensures
            *final(self) == vec_mul_spec(*old(self), rhs),
    {
        self.x = self.x.mul(rhs.x);
        self.y = self.y.mul(rhs.y);
    }

    /// In-place multiplication of both components by the scalar.
    pub fn mul_assign_scalar(&mut self, rhs: T)
        requires
            old(self).x.mul_req(rhs),
            old(self).y.mul_req(rhs),
        ensures
            *final(self) == vec_mul_spec(*old(self), Vector2 { x: rhs, y: rhs }),
    {
        self.x = self.x.mul(rhs);
        self.y = self.y.mul(rhs);
    }

    /// Componentwise division.
    pub fn div(self, rhs: Self) -> (r: Self)
        requires
            self.x.div_req(rhs.x),
            self.y.div_req(rhs.y),
        ensures
            r == vec_div_spec(self, rhs),
    {
        Vector2 { x: self.x.div(rhs.x), y: self.y.div(rhs.y) }
    }

    /// Divides both components by the scalar.
    pub fn div_scalar(self, rhs: T) -> (r: Self)
        requires
            self.x.div_req(rhs),
            self.y.div_req(rhs),
        ensures
            r == vec_div_spec(self, Vector2 { x: rhs, y: rhs }),
    {
        Vector2 { x: self.x.div(rhs), y: self.y.div(rhs) }
    }

    /// In-place componentwise division.
    pub fn div_assign(&mut self, rhs: Self)
        requires
            old(self).x.div_req(rhs.x),
            old(self).y.div_req(rhs.y),
        ensures
            *final(self) == vec_div_spec(*old(self), rhs),
    {
        self.x = self.x.div(rhs.x);
        self.y = self.y.div(rhs.y);
    }

    /// In-place division of both components by the scalar.
    pub fn div_assign_scalar(&mut self, rhs: T)
        requires
            old(self).x.div_req(rhs),
            old(self).y.div_req(rhs),
        ensures
            *final(self) == vec_div_spec(*old(self), Vector2 { x: rhs, y: rhs }),
    {
        self.x = self.x.div(rhs);
        self.y = self.y.div(rhs);
    }

    /// Componentwise remainder.
    pub fn rem(self, rhs: Self) -> (r: Self)
        requires
            self.x.rem_req(rhs.x),
            self.y.rem_req(rhs.y),
        ensures
            r == vec_rem_spec(self, rhs),
    {
        Vector2 { x: self.x.rem(rhs.x), y: self.y.rem(rhs.y) }
    }

    /// The remainder of both components by the scalar.
    pub fn rem_scalar(self, rhs: T) -> (r: Self)
        requires
            self.x.rem_req(rhs),
            self.y.rem_req(rhs),
        ensures
            r == vec_rem_spec(self, Vector2 { x: rhs, y: rhs }),
    {
        Vector2 { x: self.x.rem(rhs), y: self.y.rem(rhs) }
    }

    /// In-place componentwise remainder.
    pub fn rem_assign(&mut self, rhs: Self)
        requires
            old(self).x.rem_req(rhs.x),
            old(self).y.rem_req(rhs.y),
        ensures
            *final(self) == vec_rem_spec(*old(self), rhs),
    {
        self.x = self.x.rem(rhs.x);
        self.y = self.y.rem(rhs.y);
    }

    /// In-place remainder of both components by the scalar.
    pub fn rem_assign_scalar(&mut self, rhs: T)
        requires
            old(self).x.rem_req(rhs),
            old(self).y.rem_req(rhs),
        ensures
            *final(self) == vec_rem_spec(*old(self), Vector2 { x: rhs, y: rhs }),
    {
        self.x = self.x.rem(rhs);
        self.y = self.y.rem(rhs);
    }
}

impl<T: Negate> Vector2<T> {
    /// Componentwise negation.
    pub fn neg(self) -> (r: Self)
        requires
            self.x.neg_req(),
            self.y.neg_req(),
        ensures
            r == vec_neg_spec(self),
    {
        Vector2 { x: self.x.neg(), y: self.y.neg() }
    }
}

/// Law: double negation is the identity. Negating a vector keeps its
/// components in the domain of negation, and negating the result gives the
/// original vector back.
pub proof fn lemma_neg_involutive<T: Negate>(v: Vector2<T>)
    requires
        v.x.neg_req(),
        v.y.neg_req(),
    ensures
        vec_neg_spec(v).x.neg_req(),
        vec_neg_spec(v).y.neg_req(),
        vec_neg_spec(vec_neg_spec(v)) == v,
{
    v.x.neg_involutive();
    v.y.neg_involutive();
}

/// Law: subtracting an addend undoes the addition. Whenever `a + b` is
/// defined, `(a + b) - b` is defined too and equals `a`.
pub proof fn lemma_add_sub_cancel<T: Arith>(a: Vector2<T>, b: Vector2<T>)
    requires
        a.x.add_req(b.x),
        a.y.add_req(b.y),
    ensures
        vec_add_spec(a, b).x.sub_req(b.x),
        vec_add_spec(a, b).y.sub_req(b.y),
        vec_sub_spec(vec_add_spec(a, b), b) == a,
{
    a.x.add_sub_cancel(b.x);
    a.y.add_sub_cancel(b.y);
}

} // verus!
