//! Points on a sphere and the vectors of three components that describe
//! them.
use vstd::prelude::*;
use vstd::std_specs::ops::{AddSpec, SubSpec, MulSpec, DivSpec, NegSpec};
use core::ops::{Add, Sub, Mul, Div, Neg};
use vstd::std_specs::cmp::{PartialEqSpec, PartialOrdSpec};
use vstd::std_specs::convert::FromSpec;
use crate::scalar::{
    above, below, commutative_mul, constant, exact_field, reflexive_eq, symmetric_eq,
};

verus! {

/// The cross product of two vectors of three components.
pub open spec fn cross_value<T>(a: Seq<T>, b: Seq<T>) -> Seq<T> where
    T: Sub<Output = T> + Mul<Output = T>,
 {
    seq![
        a[1].mul_spec(b[2]).sub_spec(a[2].mul_spec(b[1])),
        a[2].mul_spec(b[0]).sub_spec(a[0].mul_spec(b[2])),
        a[0].mul_spec(b[1]).sub_spec(a[1].mul_spec(b[0])),
    ]
}

/// Each operation in [`cross_value`] is allowed on its operands.
pub open spec fn cross_defined<T>(a: Seq<T>, b: Seq<T>) -> bool where
    T: Sub<Output = T> + Mul<Output = T>,
 {
    &&& a[1].mul_req(b[2]) && a[2].mul_req(b[1]) && a[1].mul_spec(b[2]).sub_req(
        a[2].mul_spec(b[1]),
    )
    &&& a[2].mul_req(b[0]) && a[0].mul_req(b[2]) && a[2].mul_spec(b[0]).sub_req(
        a[0].mul_spec(b[2]),
    )
    &&& a[0].mul_req(b[1]) && a[1].mul_req(b[0]) && a[0].mul_spec(b[1]).sub_req(
        a[1].mul_spec(b[0]),
    )
}

/// The cross product `a x b`.
pub fn cross<T>(a: &[T; 3], b: &[T; 3]) -> (c: [T; 3]) where
    T: Sub<Output = T> + Mul<Output = T> + Copy,

    requires
        T::obeys_sub_spec(),
        T::obeys_mul_spec(),
        cross_defined(a@, b@),
    ensures
        c@ == cross_value(a@, b@),
{
    let c: [T; 3] = [
        a[1] * b[2] - a[2] * b[1],
        a[2] * b[0] - a[0] * b[2],
        a[0] * b[1] - a[1] * b[0],
    ];
    assert(c@ =~= cross_value(a@, b@));
    c
}

/// The dot product of two vectors of three components, added from left to
/// right.
pub open spec fn dot_value<T>(a: Seq<T>, b: Seq<T>) -> T where
    T: Add<Output = T> + Mul<Output = T>,
 {
    a[0].mul_spec(b[0]).add_spec(a[1].mul_spec(b[1])).add_spec(a[2].mul_spec(b[2]))
}

/// Each operation in [`dot_value`] is allowed on its operands.
pub open spec fn dot_defined<T>(a: Seq<T>, b: Seq<T>) -> bool where
    T: Add<Output = T> + Mul<Output = T>,
 {
    &&& a[0].mul_req(b[0]) && a[1].mul_req(b[1]) && a[2].mul_req(b[2])
    &&& a[0].mul_spec(b[0]).add_req(a[1].mul_spec(b[1]))
    &&& a[0].mul_spec(b[0]).add_spec(a[1].mul_spec(b[1])).add_req(a[2].mul_spec(b[2]))
}

/// The dot product `a . b`.
pub fn dot<T>(a: &[T; 3], b: &[T; 3]) -> (d: T) where T: Add<Output = T> + Mul<Output = T> + Copy
    requires
        T::obeys_add_spec(),
        T::obeys_mul_spec(),
        dot_defined(a@, b@),
    ensures
        d == dot_value(a@, b@),
{
    a[0] * b[0] + a[1] * b[1] + a[2] * b[2]
}

/// The vector `a` with each component multiplied by `s` from the left.
pub open spec fn scaled<T>(s: T, a: Seq<T>) -> Seq<T> where T: Mul<Output = T> {
    seq![s.mul_spec(a[0]), s.mul_spec(a[1]), s.mul_spec(a[2])]
}

/// Each operation in [`scaled`] is allowed on its operands.
pub open spec fn scale_defined<T>(s: T, a: Seq<T>) -> bool where T: Mul<Output = T> {
    s.mul_req(a[0]) && s.mul_req(a[1]) && s.mul_req(a[2])
}

/// The vector `s * a`.
pub fn scale<T>(s: T, a: &[T; 3]) -> (r: [T; 3]) where T: Mul<Output = T> + Copy
    requires
        T::obeys_mul_spec(),
        scale_defined(s, a@),
    ensures
        r@ == scaled(s, a@),
{
    let r: [T; 3] = [s * a[0], s * a[1], s * a[2]];
    assert(r@ =~= scaled(s, a@));
    r
}

/// The vector `a` with each component divided by `n`.
pub open spec fn divided<T>(a: Seq<T>, n: T) -> Seq<T> where T: Div<Output = T> {
    seq![a[0].div_spec(n), a[1].div_spec(n), a[2].div_spec(n)]
}

/// Each operation in [`divided`] is allowed on its operands.
pub open spec fn divide_defined<T>(a: Seq<T>, n: T) -> bool where T: Div<Output = T> {
    a[0].div_req(n) && a[1].div_req(n) && a[2].div_req(n)
}

/// The vector `a / n`.
pub fn divide<T>(a: &[T; 3], n: T) -> (r: [T; 3]) where T: Div<Output = T> + Copy
    requires
        T::obeys_div_spec(),
        divide_defined(a@, n),
    ensures
        r@ == divided(a@, n),
{
    let r: [T; 3] = [a[0] / n, a[1] / n, a[2] / n];
    assert(r@ =~= divided(a@, n));
    r
}

/// The length of `a`: what `sqrt` returns for `a . a`.
pub fn norm<T, S>(a: &[T; 3], sqrt: S) -> (n: T) where
    T: Add<Output = T> + Mul<Output = T> + Copy,
    S: Fn(T) -> T,

    requires
        T::obeys_add_spec(),
        T::obeys_mul_spec(),
        dot_defined(a@, a@),
        call_requires(sqrt, (dot_value(a@, a@),)),
    ensures
        call_ensures(sqrt, (dot_value(a@, a@),), n),
{
    sqrt(dot(a, a))
}

/// The division of `a` by a length that `sqrt` may return for it is
/// allowed, and `sqrt` may be called for that length.
pub open spec fn normalize_defined<T, S>(a: Seq<T>, sqrt: S) -> bool where
    T: Add<Output = T> + Mul<Output = T> + Div<Output = T>,
    S: Fn(T) -> T,
 {
    &&& dot_defined(a, a)
    &&& call_requires(sqrt, (dot_value(a, a),))
    &&& forall|n: T| #[trigger] call_ensures(sqrt, (dot_value(a, a),), n) ==> divide_defined(a, n)
}

/// The vector `a` divided by its length, where `sqrt` computes the length
/// from `a . a`.
pub fn normalize<T, S>(a: &[T; 3], sqrt: S) -> (u: [T; 3]) where
    T: Add<Output = T> + Mul<Output = T> + Div<Output = T> + Copy,
    S: Fn(T) -> T,

    requires
        T::obeys_add_spec(),
        T::obeys_mul_spec(),
        T::obeys_div_spec(),
        normalize_defined(a@, sqrt),
    ensures
        exists|n: T| #[trigger]
            call_ensures(sqrt, (dot_value(a@, a@),), n) && u@ == divided(a@, n),
{
    let n: T = norm(a, sqrt);
    divide(a, n)
}

/// Two vectors of three components compare equal in every component.
pub open spec fn same_vector<T: PartialEq>(a: Seq<T>, b: Seq<T>) -> bool {
    a[0].eq_spec(&b[0]) && a[1].eq_spec(&b[1]) && a[2].eq_spec(&b[2])
}

/// `d` brought into the range from -1 to 1: a value below -1 becomes -1, a
/// value above 1 becomes 1, any other value stays.
pub open spec fn clamped_unit<T: PartialOrd + From<i8>>(d: T) -> T {
    if below(d, constant::<T>(-1i8)) {
        constant::<T>(-1i8)
    } else if above(d, constant::<T>(1i8)) {
        constant::<T>(1i8)
    } else {
        d
    }
}

/// Brings a cosine that rounding may have pushed out of range back into
/// the range from -1 to 1.
pub fn clamp_unit<T>(d: T) -> (c: T) where T: PartialOrd + From<i8> + Copy
    requires
        T::obeys_partial_cmp_spec(),
        T::obeys_from_spec(),
    ensures
        c == clamped_unit(d),
{
    let low: T = T::from(-1i8);
    let high: T = T::from(1i8);
    if d < low {
        low
    } else if d > high {
        high
    } else {
        d
    }
}

/// A point on a sphere, held as the radius of the sphere and the sines and
/// cosines of the point's two angles.
///
/// The polar angle `theta` is measured from the z axis, the azimuth `phi`
/// from the x axis around the z axis. The point does no trigonometry: the
/// four values are handed in, or computed once by the functions handed to
/// [`SphericalPoint::new`].
#[derive(Debug, Clone, Copy, PartialEq)]
pub struct SphericalPoint<T> {
    r: T,
    sin_theta: T,
    cos_theta: T,
    sin_phi: T,
    cos_phi: T,
}

impl<T> SphericalPoint<T> where
    T: Add<Output = T> + Sub<Output = T> + Mul<Output = T> + Div<Output = T> + Neg<Output = T>
        + From<i8> + PartialOrd + Copy,
 {
    /// The radius of the sphere.
    pub closed spec fn radius(&self) -> T {
        self.r
    }

    /// The sine of the polar angle.
    pub closed spec fn sin_theta(&self) -> T {
        self.sin_theta
    }

    /// The cosine of the polar angle.
    pub closed spec fn cos_theta(&self) -> T {
        self.cos_theta
    }

    /// The sine of the azimuth.
    pub closed spec fn sin_phi(&self) -> T {
        self.sin_phi
    }

    /// The cosine of the azimuth.
    pub closed spec fn cos_phi(&self) -> T {
        self.cos_phi
    }

    /// The outward normal at the point:
    /// `(sin theta cos phi, sin theta sin phi, cos theta)`.
    pub open spec fn radial(&self) -> Seq<T> {
        seq![
            self.sin_theta().mul_spec(self.cos_phi()),
            self.sin_theta().mul_spec(self.sin_phi()),
            self.cos_theta(),
        ]
    }

    /// Each operation in [`Self::radial`] is allowed on its operands.
    pub open spec fn radial_defined(&self) -> bool {
        self.sin_theta().mul_req(self.cos_phi()) && self.sin_theta().mul_req(self.sin_phi())
    }

    /// The tangent in the direction of growing polar angle:
    /// `(cos theta cos phi, cos theta sin phi, -sin theta)`.
    pub open spec fn polar_tangent(&self) -> Seq<T> {
        seq![
            self.cos_theta().mul_spec(self.cos_phi()),
            self.cos_theta().mul_spec(self.sin_phi()),
            self.sin_theta().neg_spec(),
        ]
    }

    /// Each operation in [`Self::polar_tangent`] is allowed on its operands.
    pub open spec fn polar_tangent_defined(&self) -> bool {
        &&& self.cos_theta().mul_req(self.cos_phi())
        &&& self.cos_theta().mul_req(self.sin_phi())
        &&& self.sin_theta().neg_req()
    }

    /// The tangent in the direction of growing azimuth:
    /// `(-sin phi, cos phi, 0)`.
    pub open spec fn azimuthal_tangent(&self) -> Seq<T> {
        seq![self.sin_phi().neg_spec(), self.cos_phi(), constant::<T>(0)]
    }

    /// Each operation in [`Self::azimuthal_tangent`] is allowed on its
    /// operand.
    pub open spec fn azimuthal_tangent_defined(&self) -> bool {
        self.sin_phi().neg_req()
    }

    /// The position of the point in space: the radius times the outward
    /// normal.
    pub open spec fn position(&self) -> Seq<T> {
        scaled(self.radius(), self.radial())
    }

    /// Each operation in [`Self::position`] is allowed on its operands.
    pub open spec fn position_defined(&self) -> bool {
        self.radial_defined() && scale_defined(self.radius(), self.radial())
    }

    /// The point on the sphere of radius `r` whose angles have the given
    /// sines and cosines.
    pub fn from_trig(r: T, sin_theta: T, cos_theta: T, sin_phi: T, cos_phi: T) -> (p: Self)
        ensures
            p.radius() == r,
            p.sin_theta() == sin_theta,
            p.cos_theta() == cos_theta,
            p.sin_phi() == sin_phi,
            p.cos_phi() == cos_phi,
    {
        SphericalPoint { r, sin_theta, cos_theta, sin_phi, cos_phi }
    }

    /// The point on the sphere of radius `r` at polar angle `theta` and
    /// azimuth `phi`, where `sin` and `cos` compute the sine and the cosine
    /// of an angle. Each is called once for each angle.
    pub fn new<S, C>(r: T, theta: T, phi: T, sin: S, cos: C) -> (p: Self) where
        S: Fn(T) -> T,
        C: Fn(T) -> T,

        requires
            call_requires(sin, (theta,)),
            call_requires(cos, (theta,)),
            call_requires(sin, (phi,)),
            call_requires(cos, (phi,)),
        ensures
            p.radius() == r,
            call_ensures(sin, (theta,), p.sin_theta()),
            call_ensures(cos, (theta,), p.cos_theta()),
            call_ensures(sin, (phi,), p.sin_phi()),
            call_ensures(cos, (phi,), p.cos_phi()),
    {
        let sin_theta: T = sin(theta);
        let cos_theta: T = cos(theta);
        let sin_phi: T = sin(phi);
        let cos_phi: T = cos(phi);
        SphericalPoint { r, sin_theta, cos_theta, sin_phi, cos_phi }
    }

    /// The outward normal at the point.
    pub fn e_r(&self) -> (v: [T; 3])
        requires
            exact_field::<T>(),
            self.radial_defined(),
        ensures
            v@ == self.radial(),
    {
        let x: T = self.sin_theta * self.cos_phi;
        let y: T = self.sin_theta * self.sin_phi;
        let z: T = self.cos_theta;
        let v: [T; 3] = [x, y, z];
        assert(v@ =~= self.radial());
        v
    }

    /// The tangent in the direction of growing polar angle.
    pub fn e_theta(&self) -> (v: [T; 3])
        requires
            exact_field::<T>(),
            self.polar_tangent_defined(),
        ensures
            v@ == self.polar_tangent(),
    {
        let x: T = self.cos_theta * self.cos_phi;
        let y: T = self.cos_theta * self.sin_phi;
        let z: T = self.sin_theta.neg();
        let v: [T; 3] = [x, y, z];
        assert(v@ =~= self.polar_tangent());
        v
    }

    /// The tangent in the direction of growing azimuth.
    pub fn e_phi(&self) -> (v: [T; 3])
        requires
            exact_field::<T>(),
            self.azimuthal_tangent_defined(),
        ensures
            v@ == self.azimuthal_tangent(),
    {
        let x: T = self.sin_phi.neg();
        let y: T = self.cos_phi;
        let z: T = T::from(0i8);
        let v: [T; 3] = [x, y, z];
        assert(v@ =~= self.azimuthal_tangent());
        v
    }

    /// The position of the point in space.
    pub fn xyz(&self) -> (v: [T; 3])
        requires
            exact_field::<T>(),
            self.position_defined(),
        ensures
            v@ == self.position(),
    {
        let e: [T; 3] = self.e_r();
        scale(self.r, &e)
    }

    /// The two points have the same outward normal, so that no single axis
    /// turns one into the other.
    pub open spec fn coincides(&self, other: &Self) -> bool {
        same_vector(self.radial(), other.radial())
    }

    /// The cross product of the two outward normals: orthogonal to both,
    /// and as long as the sine of the angle between them.
    pub open spec fn raw_axis(&self, other: &Self) -> Seq<T> {
        cross_value(self.radial(), other.radial())
    }

    /// The cosine of the angle between the two outward normals, brought
    /// into the range from -1 to 1.
    pub open spec fn cosine_to(&self, other: &Self) -> T {
        clamped_unit(dot_value(self.radial(), other.radial()))
    }

    /// The arithmetic of [`Self::axis_cosine`] is allowed: both outward
    /// normals can be formed and, unless they coincide, so can their cross
    /// product and their dot product.
    pub open spec fn pair_defined(&self, other: &Self) -> bool {
        &&& self.radial_defined()
        &&& other.radial_defined()
        &&& !self.coincides(other) ==> {
            &&& cross_defined(self.radial(), other.radial())
            &&& dot_defined(self.radial(), other.radial())
        }
    }

    /// What [`Self::axis_cosine`] returns.
    pub open spec fn axis_cosine_value(&self, other: &Self) -> Option<(Seq<T>, T)> {
        if self.coincides(other) {
            None
        } else {
            Some((self.raw_axis(other), self.cosine_to(other)))
        }
    }

    /// The rotation from this point to `other`, before any root or inverse
    /// cosine is taken: the cross product of the two outward normals and
    /// the clamped cosine of the angle between them.
    ///
    /// There is no result when the two outward normals coincide.
    pub fn axis_cosine(&self, other: &Self) -> (r: Option<([T; 3], T)>)
        requires
            exact_field::<T>(),
            self.pair_defined(other),
        ensures
            match r {
                None => self.axis_cosine_value(other) is None,
                Some((axis, c)) => self.axis_cosine_value(other) == Some((axis@, c)),
            },
    {
        let v1: [T; 3] = self.e_r();
        let v2: [T; 3] = other.e_r();
        if v1[0] == v2[0] && v1[1] == v2[1] && v1[2] == v2[2] {
            return None;
        }
        let axis: [T; 3] = cross(&v1, &v2);
        let c: T = clamp_unit(dot(&v1, &v2));
        Some((axis, c))
    }

    /// The length of the arc that the angle `angle` spans on the sphere.
    pub fn arc(&self, angle: T) -> (a: T)
        requires
            T::obeys_mul_spec(),
            self.radius().mul_req(angle),
        ensures
            a == self.radius().mul_spec(angle),
    {
        self.r * angle
    }

    /// The whole of [`Self::axis_angle_arc`] is allowed: the arithmetic on
    /// the two outward normals, the calls of `sqrt` and `acos`, the
    /// division by whatever length `sqrt` returns and the multiplication by
    /// whatever angle `acos` returns.
    pub open spec fn arc_defined<S: Fn(T) -> T, A: Fn(T) -> T>(
        &self,
        other: &Self,
        sqrt: S,
        acos: A,
    ) -> bool {
        &&& self.pair_defined(other)
        &&& !self.coincides(other) ==> {
            &&& normalize_defined(self.raw_axis(other), sqrt)
            &&& call_requires(acos, (self.cosine_to(other),))
            &&& forall|angle: T| #[trigger]
                call_ensures(acos, (self.cosine_to(other),), angle) ==> self.radius().mul_req(
                    angle,
                )
        }
    }

    /// `(axis, angle, arc)` is a rotation from this point to `other` as
    /// `sqrt` and `acos` allow it: the axis is the cross product of the two
    /// outward normals divided by a length that `sqrt` may return for it,
    /// the angle is one that `acos` may return for the clamped cosine
    /// between the normals, and the arc is the radius times the angle.
    pub open spec fn is_rotation<S: Fn(T) -> T, A: Fn(T) -> T>(
        &self,
        other: &Self,
        sqrt: S,
        acos: A,
        axis: Seq<T>,
        angle: T,
        arc: T,
    ) -> bool {
        &&& exists|n: T| #[trigger]
            call_ensures(sqrt, (dot_value(self.raw_axis(other), self.raw_axis(other)),), n)
                && axis == divided(self.raw_axis(other), n)
        &&& call_ensures(acos, (self.cosine_to(other),), angle)
        &&& arc == self.radius().mul_spec(angle)
    }

    /// The rotation that takes this point to `other` on their common
    /// sphere: the unit axis, the angle, and the length of the arc between
    /// the two points.
    ///
    /// The axis is the cross product of the two outward normals divided by
    /// its length, where `sqrt` computes the length. The angle is what
    /// `acos` returns for the clamped cosine of the angle between the
    /// normals, and the arc is the radius times the angle. There is no
    /// result when the two outward normals coincide.
    pub fn axis_angle_arc<S, A>(&self, other: &Self, sqrt: S, acos: A) -> (r: Option<
        ([T; 3], T, T),
    >) where S: Fn(T) -> T, A: Fn(T) -> T
        requires
            exact_field::<T>(),
            self.arc_defined(other, sqrt, acos),
        ensures
            r is None <==> self.coincides(other),
            match r {
                None => true,
                Some((axis, angle, arc)) => self.is_rotation(other, sqrt, acos, axis@, angle, arc),
            },
    {
        match self.axis_cosine(other) {
            None => None,
            Some((raw, c)) => {
                let axis: [T; 3] = normalize(&raw, sqrt);
                let angle: T = acos(c);
                let arc: T = self.arc(angle);
                Some((axis, angle, arc))
            },
        }
    }

    /// A point has no rotation axis to itself, where equality of the scalar
    /// type is reflexive.
    pub proof fn lemma_no_axis_to_itself(&self)
        requires
            reflexive_eq::<T>(),
        ensures
            self.coincides(self),
            self.axis_cosine_value(self) is None,
    {
    }

    /// Whether two points coincide, and the cosine of the angle between
    /// them, do not depend on the order of the points, where equality and
    /// multiplication of the scalar type do not depend on the order of their
    /// operands. So both orders hand the same cosine to the inverse cosine,
    /// and on a common sphere multiply its result by the same radius.
    pub proof fn lemma_cosine_is_symmetric(&self, other: &Self)
        requires
            symmetric_eq::<T>(),
            commutative_mul::<T>(),
        ensures
            self.coincides(other) == other.coincides(self),
            self.cosine_to(other) == other.cosine_to(self),
    {
        let a = self.radial();
        let b = other.radial();
        assert(a[0].eq_spec(&b[0]) == b[0].eq_spec(&a[0]));
        assert(a[1].eq_spec(&b[1]) == b[1].eq_spec(&a[1]));
        assert(a[2].eq_spec(&b[2]) == b[2].eq_spec(&a[2]));
        assert(a[0].mul_spec(b[0]) == b[0].mul_spec(a[0]));
        assert(a[1].mul_spec(b[1]) == b[1].mul_spec(a[1]));
        assert(a[2].mul_spec(b[2]) == b[2].mul_spec(a[2]));
    }

    /// On a common sphere the angle and the arc between two points do not
    /// depend on the order of the points, where equality and multiplication
    /// of the scalar type do not depend on the order of their operands and
    /// `acos` returns one angle for each cosine.
    pub proof fn lemma_arc_is_symmetric<S: Fn(T) -> T, A: Fn(T) -> T>(
        &self,
        other: &Self,
        sqrt: S,
        acos: A,
        there: (Seq<T>, T, T),
        back: (Seq<T>, T, T),
    )
        requires
            symmetric_eq::<T>(),
            commutative_mul::<T>(),
            self.radius() == other.radius(),
            forall|c: T, a: T, b: T|
                #![trigger call_ensures(acos, (c,), a), call_ensures(acos, (c,), b)]
                call_ensures(acos, (c,), a) && call_ensures(acos, (c,), b) ==> a == b,
            self.is_rotation(other, sqrt, acos, there.0, there.1, there.2),
            other.is_rotation(self, sqrt, acos, back.0, back.1, back.2),
        ensures
            there.1 == back.1,
            there.2 == back.2,
    {
        self.lemma_cosine_is_symmetric(other);
    }

    /// The local frame at the point: the outward normal and the two
    /// tangents, in this order.
    pub fn rotation_matrix(&self) -> (m: [[T; 3]; 3])
        requires
            exact_field::<T>(),
            self.radial_defined(),
            self.polar_tangent_defined(),
            self.azimuthal_tangent_defined(),
        ensures
            m@[0]@ == self.radial(),
            m@[1]@ == self.polar_tangent(),
            m@[2]@ == self.azimuthal_tangent(),
    {
        [self.e_r(), self.e_theta(), self.e_phi()]
    }
}

} // verus!
