//! Floating-point geometry through a component newtype that supplies the
//! library's capability traits for `f32`.
use std::f32::consts::{FRAC_PI_2, FRAC_PI_4, PI, TAU};
use vecto::scalar::{Arith, Negate, Real, Rounding};
use vecto::{Kinda, Vector2};

#[derive(Copy, Clone, Debug, PartialEq, PartialOrd)]
struct R32(f32);

type Vec2 = Vector2<R32>;

fn vec2(x: f32, y: f32) -> Vec2 {
    Vector2::new(R32(x), R32(y))
}

impl Arith for R32 {
    // The specification mirrors and proof obligations of the capability
    // traits are required trait items; outside the verified library they
    // are ordinary functions with no runtime callers, satisfied here by
    // the executable operations themselves.

    fn add_req(self, _rhs: Self) -> bool {
        true
    }

    fn add_spec(self, rhs: Self) -> Self {
        self.add(rhs)
    }

    fn sub_req(self, _rhs: Self) -> bool {
        true
    }

    fn sub_spec(self, rhs: Self) -> Self {
        self.sub(rhs)
    }

    fn mul_req(self, _rhs: Self) -> bool {
        true
    }

    fn mul_spec(self, rhs: Self) -> Self {
        self.mul(rhs)
    }

    fn div_req(self, _rhs: Self) -> bool {
        true
    }

    fn div_spec(self, rhs: Self) -> Self {
        self.div(rhs)
    }

    fn rem_req(self, _rhs: Self) -> bool {
        true
    }

    fn rem_spec(self, rhs: Self) -> Self {
        self.rem(rhs)
    }

    fn add_sub_cancel(self, _rhs: Self) {}

    fn add(self, rhs: Self) -> Self {
        R32(self.0 + rhs.0)
    }

    fn sub(self, rhs: Self) -> Self {
        R32(self.0 - rhs.0)
    }

    fn mul(self, rhs: Self) -> Self {
        R32(self.0 * rhs.0)
    }

    fn div(self, rhs: Self) -> Self {
        R32(self.0 / rhs.0)
    }

    fn rem(self, rhs: Self) -> Self {
        R32(self.0 % rhs.0)
    }
}

impl Negate for R32 {
    // The specification mirrors and proof obligations of the capability
    // traits are required trait items; outside the verified library they
    // are ordinary functions with no runtime callers, satisfied here by
    // the executable operations themselves.

    fn neg_req(self) -> bool {
        true
    }

    fn neg_spec(self) -> Self {
        self.neg()
    }

    fn neg_involutive(self) {}

    fn neg(self) -> Self {
        R32(-self.0)
    }
}

impl Real for R32 {
    // The specification mirrors and proof obligations of the capability
    // traits are required trait items; outside the verified library they
    // are ordinary functions with no runtime callers, satisfied here by
    // the executable operations themselves.

    fn cos_spec(self) -> Self {
        self.cos()
    }

    fn sin_spec(self) -> Self {
        self.sin()
    }

    fn atan2_spec(self, x: Self) -> Self {
        self.atan2(x)
    }

    fn sqrt_spec(self) -> Self {
        self.sqrt()
    }

    fn abs_spec(self) -> Self {
        self.abs()
    }

    fn zero_spec() -> Self {
        Self::zero()
    }

    fn one_spec() -> Self {
        Self::one()
    }

    fn lt_spec(self, rhs: Self) -> bool {
        self.lt(rhs)
    }

    fn eq_val_spec(self, rhs: Self) -> bool {
        self.eq_val(rhs)
    }

    fn arith_total(self, _rhs: Self) {}

    fn zero_props() {}

    fn cos(self) -> Self {
        R32(self.0.cos())
    }

    fn sin(self) -> Self {
        R32(self.0.sin())
    }

    fn atan2(self, x: Self) -> Self {
        R32(self.0.atan2(x.0))
    }

    fn sqrt(self) -> Self {
        R32(self.0.sqrt())
    }

    fn abs(self) -> Self {
        R32(self.0.abs())
    }

    fn zero() -> Self {
        R32(0.0)
    }

    fn one() -> Self {
        R32(1.0)
    }

    fn lt(self, rhs: Self) -> bool {
        self.0 < rhs.0
    }

    fn eq_val(self, rhs: Self) -> bool {
        self.0 == rhs.0
    }
}

impl Rounding for R32 {
    // The specification mirrors and proof obligations of the capability
    // traits are required trait items; outside the verified library they
    // are ordinary functions with no runtime callers, satisfied here by
    // the executable operations themselves.

    fn ceil_spec(self) -> Self {
        self.ceil()
    }

    fn floor_spec(self) -> Self {
        self.floor()
    }

    fn ceil(self) -> Self {
        R32(self.0.ceil())
    }

    fn floor(self) -> Self {
        R32(self.0.floor())
    }
}

impl Kinda for R32 {
    // The specification mirrors and proof obligations of the capability
    // traits are required trait items; outside the verified library they
    // are ordinary functions with no runtime callers, satisfied here by
    // the executable operations themselves.

    fn default_tol_spec() -> Self::Tol {
        Self::default_tol()
    }

    fn kinda_eq_spec(self, other: Self, tolerance: Self::Tol) -> bool {
        self.kinda_eq(other, tolerance)
    }

    type Tol = R32;

    fn default_tol() -> R32 {
        R32(0.00001)
    }

    fn kinda_eq(self, other: Self, tolerance: R32) -> bool {
        vecto::kinda_eq_scalar(self, other, tolerance)
    }

    fn approx_eq(self, other: Self) -> bool {
        self.kinda_eq(other, R32::default_tol())
    }
}

#[test]
fn from_angle_zero_is_right() {
    assert_eq!(Vec2::from_angle(R32(0.0)), Vec2::right());
    assert_eq!(Vec2::right(), vec2(1.0, 0.0));
}

#[test]
fn right_angle_is_zero() {
    assert_eq!(Vec2::right().angle(), R32(0.0));
}

#[test]
fn from_angle_quarter_turn_points_down() {
    assert!(Vec2::from_angle(R32(PI / 2.0)).approx_eq(vec2(0.0, 1.0)));
}

#[test]
fn down_angle_is_quarter_turn() {
    assert_eq!(Vec2::down().angle(), R32(FRAC_PI_2));
    assert_eq!(Vec2::down(), vec2(0.0, 1.0));
}

#[test]
fn diagonal_angle_is_negative_eighth_turn() {
    assert_eq!(vec2(1.0, -1.0).angle(), R32(-FRAC_PI_4));
}

#[test]
fn direction_constants() {
    assert_eq!(Vec2::zero(), vec2(0.0, 0.0));
    assert_eq!(Vec2::left(), vec2(-1.0, 0.0));
    assert_eq!(Vec2::up(), vec2(0.0, -1.0));
}

#[test]
fn splat_length_is_diagonal() {
    assert_eq!(Vec2::splat(R32(10.0)).length(), R32(10.0 * 2.0f32.sqrt()));
}

#[test]
fn splat_length_squared_is_two_hundred() {
    assert_eq!(Vec2::splat(R32(10.0)).length_squared(), R32(200.0));
}

#[test]
fn zero_normalized_is_zero() {
    assert_eq!(Vec2::zero().normalized(), Vec2::zero());
}

#[test]
fn zero_limit_length_is_zero() {
    assert_eq!(Vec2::zero().limit_length(R32(1.0)), Vec2::zero());
    assert_eq!(Vec2::zero().limit_length(R32(-3.0)), Vec2::zero());
    assert_eq!(Vec2::zero().limit_length(R32(0.0)), Vec2::zero());
}

#[test]
fn limit_length_scales_to_bound() {
    let limited = Vec2::splat(R32(10.0)).limit_length(R32(1.0));
    assert!(limited.approx_eq(Vec2::splat(R32(1.0 / 2.0f32.sqrt()))));
    let limited = Vec2::splat(R32(10.0)).limit_length(R32(5.0));
    assert!(limited.approx_eq(Vec2::splat(R32(1.0 / 2.0f32.sqrt() * 5.0))));
}

#[test]
fn limit_length_keeps_short_vectors() {
    let v = vec2(3.0, 4.0);
    assert_eq!(v.limit_length(R32(5.0)), v);
    assert_eq!(v.limit_length(R32(6.0)), v);
}

#[test]
fn normalized_has_unit_length() {
    assert!(Vec2::right().normalized().approx_eq(Vec2::right()));
    let n = Vec2::splat(R32(1.0)).normalized();
    assert!(n.approx_eq(Vec2::splat(R32(0.5f32.sqrt()))));
    assert!(vec2(3.0, 4.0).normalized().length().approx_eq(R32(1.0)));
}

#[test]
fn full_turn_rotation_is_identity() {
    let v = vec2(1.2, 3.4);
    assert!(v.rotated(R32(TAU)).approx_eq(v));
}

#[test]
fn quarter_turn_rotation() {
    let v = vec2(1.2, 3.4);
    assert!(v.rotated(R32(TAU / 4.0)).approx_eq(vec2(-3.4, 1.2)));
    assert!(v.rotated(R32(TAU / 2.0)).approx_eq(v.rotated(R32(TAU / -2.0))));
}

#[test]
fn dot_and_cross_products() {
    let a = vec2(1.0, 2.0);
    let b = vec2(3.0, 4.0);
    assert_eq!(a.dot(&b), R32(1.0 * 3.0 + 2.0 * 4.0));
    assert_eq!(a.cross(&b), R32(1.0 * 4.0 - 2.0 * 3.0));
}

#[test]
fn distance_to_is_euclidean() {
    let a = vec2(1.0, 2.0);
    let b = vec2(4.0, 6.0);
    assert_eq!(a.distance_to(&b), R32(5.0));
}

#[test]
fn abs_is_componentwise() {
    assert_eq!(vec2(-1.5, 2.5).abs(), vec2(1.5, 2.5));
}

#[test]
fn ceil_and_floor_are_componentwise() {
    assert_eq!(vec2(1.2, -1.2).ceil(), vec2(2.0, -1.0));
    assert_eq!(vec2(1.2, -1.2).floor(), vec2(1.0, -2.0));
}

#[test]
fn float_ops_are_componentwise() {
    let a = vec2(1.5, -2.0);
    let b = vec2(2.0, 4.0);
    assert_eq!(a.add(b), vec2(1.5 + 2.0, -2.0 + 4.0));
    assert_eq!(a.sub(b), vec2(1.5 - 2.0, -2.0 - 4.0));
    assert_eq!(a.mul(b), vec2(1.5 * 2.0, -2.0 * 4.0));
    assert_eq!(a.div(b), vec2(1.5 / 2.0, -2.0 / 4.0));
    assert_eq!(a.rem(b), vec2(1.5 % 2.0, -2.0 % 4.0));
    let mut c = a;
    c.mul_assign_scalar(R32(2.0));
    assert_eq!(c, a.mul_scalar(R32(2.0)));
}

#[test]
fn scale_then_unscale_is_approximately_identity() {
    let a = vec2(1.2, -3.4);
    let s = R32(7.3);
    assert!(a.mul_scalar(s).div_scalar(s).approx_eq(a));
}

#[test]
fn kinda_eq_uses_the_tolerance() {
    assert!(R32(1.0).kinda_eq(R32(1.0), R32(0.0)));
    assert!(R32(1.0).kinda_eq(R32(1.004), R32(0.005)));
    assert!(!R32(1.0).kinda_eq(R32(1.01), R32(0.005)));
    assert!(vec2(1.0, 2.0).kinda_eq(vec2(1.004, 2.004), R32(0.005)));
    assert!(!vec2(1.0, 2.0).kinda_eq(vec2(1.004, 2.01), R32(0.005)));
    assert!(vec2(1.0, 2.0).approx_eq(vec2(1.0, 2.0)));
    assert!(!vec2(1.0, 2.0).approx_eq(vec2(1.0, 2.1)));
}

#[test]
fn float_double_negation_and_orthogonal() {
    let v = vec2(1.25, -2.5);
    assert_eq!(v.neg().neg(), v);
    assert_eq!(v.orthogonal(), vec2(-2.5, -1.25));
}
