//! The damped pendulum: a bob on a string of length `l` under gravity `g`,
//! slowed by a drag `b` in proportion to its angular velocity.
//!
//! Its state is the pair of its angle from the vertical and its angular
//! velocity, and its equation of motion is
//! `d2_theta = -g / l * sin(theta) - b * d_theta`.
use vstd::prelude::*;
use vstd::std_specs::ops::{DivSpec, MulSpec, NegSpec, SubSpec};
use vstd::std_specs::convert::FromSpec;
use core::ops::{Div, Mul, Neg, Sub};
use crate::scalar::constant;

verus! {

/// The angular acceleration of the pendulum, given the sine of its angle:
/// `-g / l * sin_theta - b * d_theta`, where the sign is applied to `g`
/// first and the quotient is formed before the product.
pub open spec fn angular_acceleration<T>(sin_theta: T, d_theta: T, l: T, g: T, b: T) -> T where
    T: Sub<Output = T> + Mul<Output = T> + Div<Output = T> + Neg<Output = T>,
 {
    g.neg_spec().div_spec(l).mul_spec(sin_theta).sub_spec(b.mul_spec(d_theta))
}

/// Each operation in [`angular_acceleration`] is allowed on its operands.
pub open spec fn angular_acceleration_defined<T>(sin_theta: T, d_theta: T, l: T, g: T, b: T) -> bool where
    T: Sub<Output = T> + Mul<Output = T> + Div<Output = T> + Neg<Output = T>,
 {
    &&& g.neg_req()
    &&& g.neg_spec().div_req(l)
    &&& g.neg_spec().div_spec(l).mul_req(sin_theta)
    &&& b.mul_req(d_theta)
    &&& g.neg_spec().div_spec(l).mul_spec(sin_theta).sub_req(b.mul_spec(d_theta))
}

/// The four operators of the equation of motion compute their specified
/// results.
pub open spec fn exact_pendulum<T>() -> bool where
    T: Sub<Output = T> + Mul<Output = T> + Div<Output = T> + Neg<Output = T>,
 {
    T::obeys_sub_spec() && T::obeys_mul_spec() && T::obeys_div_spec() && T::obeys_neg_spec()
}

/// The whole of [`pendulum_rate`] is allowed on the state `x`: `sin` may be
/// called on the angle, and the acceleration can be formed from whatever
/// sine it returns.
pub open spec fn pendulum_rate_defined<T, S>(x: Seq<T>, l: T, g: T, b: T, sin: S) -> bool where
    T: Sub<Output = T> + Mul<Output = T> + Div<Output = T> + Neg<Output = T>,
    S: Fn(T) -> T,
 {
    &&& call_requires(sin, (x[0],))
    &&& forall|s: T| #[trigger]
        call_ensures(sin, (x[0],), s) ==> angular_acceleration_defined(s, x[1], l, g, b)
}

/// The rate of change of the state `[theta, d_theta]` of the pendulum:
/// the angular velocity and the angular acceleration, where `sin` computes
/// the sine of the angle.
pub fn pendulum_rate<T, S>(x: &Vec<T>, l: T, g: T, b: T, sin: S) -> (rate: Vec<T>) where
    T: Sub<Output = T> + Mul<Output = T> + Div<Output = T> + Neg<Output = T> + Copy,
    S: Fn(T) -> T,

    requires
        x.len() >= 2,
        exact_pendulum::<T>(),
        pendulum_rate_defined(x@, l, g, b, sin),
    ensures
        exists|s: T| #[trigger]
            call_ensures(sin, (x[0],), s) && rate@ == seq![
                x[1],
                angular_acceleration(s, x[1], l, g, b),
            ],
{
    let theta: T = x[0];
    let d_theta: T = x[1];
    let s: T = sin(theta);
    let d2_theta: T = g.neg() / l * s - b * d_theta;
    let mut rate: Vec<T> = Vec::with_capacity(2);
    rate.push(d_theta);
    rate.push(d2_theta);
    assert(rate@ =~= seq![x[1], angular_acceleration(s, x[1], l, g, b)]);
    rate
}

/// The position of a pendulum bob on a string of length `r` that hangs from
/// `(0, 0, r)` and swings in the plane of x and z, given the sine and the
/// cosine of its angle from the vertical: `(r sin, 0, r - r cos)`.
pub open spec fn bob_position_value<T>(r: T, sin_theta: T, cos_theta: T) -> Seq<T> where
    T: Sub<Output = T> + Mul<Output = T> + From<i8>,
 {
    seq![r.mul_spec(sin_theta), constant::<T>(0), r.sub_spec(r.mul_spec(cos_theta))]
}

/// Each operation in [`bob_position_value`] is allowed on its operands.
pub open spec fn bob_position_defined<T>(r: T, sin_theta: T, cos_theta: T) -> bool where
    T: Sub<Output = T> + Mul<Output = T> + From<i8>,
 {
    r.mul_req(sin_theta) && r.mul_req(cos_theta) && r.sub_req(r.mul_spec(cos_theta))
}

/// Where the bob of a pendulum is, given the sine and the cosine of its
/// angle.
pub fn bob_position<T>(r: T, sin_theta: T, cos_theta: T) -> (p: [T; 3]) where
    T: Sub<Output = T> + Mul<Output = T> + From<i8> + Copy,

    requires
        T::obeys_sub_spec(),
        T::obeys_mul_spec(),
        T::obeys_from_spec(),
        bob_position_defined(r, sin_theta, cos_theta),
    ensures
        p@ == bob_position_value(r, sin_theta, cos_theta),
{
    let x: T = r * sin_theta;
    let z: T = r - r * cos_theta;
    let p: [T; 3] = [x, T::from(0i8), z];
    assert(p@ =~= bob_position_value(r, sin_theta, cos_theta));
    p
}

} // verus!
