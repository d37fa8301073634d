//! The equations of motion of bodies that slide on a sphere and pull at
//! each other.
//!
//! Each body has four state components: its polar angle, its azimuth and
//! their two rates of change. The force on a body is the sum of the pulls of
//! all the other bodies, each projected on the two tangents at the body,
//! less a drag in proportion to its velocity.
use vstd::prelude::*;
use vstd::std_specs::ops::{AddSpec, SubSpec, MulSpec, DivSpec, NegSpec};
use vstd::std_specs::cmp::PartialOrdSpec;
use vstd::std_specs::convert::FromSpec;
use core::ops::{Add, Sub, Mul, Div, Neg};
use crate::geometry::{
    cross, cross_defined, cross_value, divide_defined, divided, dot, dot_defined, dot_value,
    normalize, normalize_defined, SphericalPoint,
};
use crate::scalar::{above, below, constant, exact_field};

verus! {

/// The sum of the first `n` pulls, each a pair of a polar and an azimuthal
/// component, added from the first on to `(0, 0)`.
pub open spec fn total_pull<T>(pulls: Seq<(T, T)>, n: nat) -> (T, T) where
    T: Add<Output = T> + From<i8>,

    decreases n,
{
    if n == 0 {
        (constant::<T>(0), constant::<T>(0))
    } else {
        let before = total_pull(pulls, (n - 1) as nat);
        (before.0.add_spec(pulls[n - 1].0), before.1.add_spec(pulls[n - 1].1))
    }
}

/// Each addition in [`total_pull`] is allowed on its operands.
pub open spec fn total_pull_defined<T>(pulls: Seq<(T, T)>, n: nat) -> bool where
    T: Add<Output = T> + From<i8>,

    decreases n,
{
    n > 0 ==> {
        let before = total_pull(pulls, (n - 1) as nat);
        &&& total_pull_defined(pulls, (n - 1) as nat)
        &&& before.0.add_req(pulls[n - 1].0)
        &&& before.1.add_req(pulls[n - 1].1)
    }
}

/// Adds up the pulls on one body.
pub fn sum_pulls<T>(pulls: &Vec<(T, T)>) -> (total: (T, T)) where
    T: Add<Output = T> + From<i8> + Copy,

    requires
        T::obeys_add_spec(),
        T::obeys_from_spec(),
        total_pull_defined(pulls@, pulls@.len()),
    ensures
        total == total_pull(pulls@, pulls@.len()),
{
    let mut polar: T = T::from(0i8);
    let mut azimuthal: T = T::from(0i8);
    let mut j: usize = 0;
    while j < pulls.len()
        invariant
            j <= pulls.len(),
            T::obeys_add_spec(),
            total_pull_defined(pulls@, pulls@.len()),
            (polar, azimuthal) == total_pull(pulls@, j as nat),
        decreases pulls.len() - j,
    {
        proof {
            lemma_total_pull_defined_prefix(pulls@, pulls@.len(), (j + 1) as nat);
        }
        let pull: (T, T) = pulls[j];
        polar = polar + pull.0;
        azimuthal = azimuthal + pull.1;
        j += 1;
    }
    (polar, azimuthal)
}

/// Where the sum of `n` pulls is allowed, so is the sum of fewer.
pub proof fn lemma_total_pull_defined_prefix<T>(pulls: Seq<(T, T)>, n: nat, m: nat) where
    T: Add<Output = T> + From<i8>,

    requires
        total_pull_defined(pulls, n),
        m <= n,
    ensures
        total_pull_defined(pulls, m),
    decreases n,
{
    if m < n {
        lemma_total_pull_defined_prefix(pulls, (n - 1) as nat, m);
    }
}

/// The reciprocal of `d`, held within `ceiling` in magnitude: above
/// `ceiling` it becomes `ceiling`, below `-ceiling` it becomes `-ceiling`.
///
/// This is what stands for `1 / d` where `d` is the sine of a polar angle
/// times the radius, which vanishes at the poles. The bound is an
/// expedient: near a pole the motion it yields is not that of the physical
/// system.
pub open spec fn pole_reciprocal_value<T>(d: T, ceiling: T) -> T where
    T: Div<Output = T> + Neg<Output = T> + From<i8> + PartialOrd,
 {
    let q = constant::<T>(1).div_spec(d);
    if above(q, ceiling) {
        ceiling
    } else if below(q, ceiling.neg_spec()) {
        ceiling.neg_spec()
    } else {
        q
    }
}

/// Each operation in [`pole_reciprocal_value`] is allowed on its operands.
pub open spec fn pole_reciprocal_defined<T>(d: T, ceiling: T) -> bool where
    T: Div<Output = T> + Neg<Output = T> + From<i8> + PartialOrd,
 {
    constant::<T>(1).div_req(d) && ceiling.neg_req()
}

/// The reciprocal of `d`, held within `ceiling` in magnitude.
pub fn pole_reciprocal<T>(d: T, ceiling: T) -> (q: T) where
    T: Div<Output = T> + Neg<Output = T> + From<i8> + PartialOrd + Copy,

    requires
        T::obeys_div_spec(),
        T::obeys_neg_spec(),
        T::obeys_from_spec(),
        T::obeys_partial_cmp_spec(),
        pole_reciprocal_defined(d, ceiling),
    ensures
        q == pole_reciprocal_value(d, ceiling),
{
    let q: T = T::from(1i8) / d;
    let floor: T = ceiling.neg();
    if q > ceiling {
        ceiling
    } else if q < floor {
        floor
    } else {
        q
    }
}

/// The constants of a body that slides on the sphere.
#[derive(Debug, Clone, Copy, PartialEq)]
pub struct BodyConstants<T> {
    /// The mass of the body.
    pub mass: T,
    /// The drag on the body for each unit of velocity.
    pub damping: T,
    /// The bound on the magnitude of the reciprocal that replaces the
    /// division by the sine of the polar angle.
    pub pole_ceiling: T,
}

/// The state of one body beside its position: the rates of change of its
/// two angles.
#[derive(Debug, Clone, Copy, PartialEq)]
pub struct AngularRates<T> {
    /// The rate of change of the polar angle.
    pub theta_dot: T,
    /// The rate of change of the azimuth.
    pub phi_dot: T,
}

/// The polar force that is left of `pull` after the drag on the polar
/// velocity `r * theta_dot`.
pub open spec fn polar_force<T>(r: T, c: BodyConstants<T>, v: AngularRates<T>, pull: T) -> T where
    T: Sub<Output = T> + Mul<Output = T>,
 {
    pull.sub_spec(c.damping.mul_spec(r.mul_spec(v.theta_dot)))
}

/// The azimuthal force that is left of `pull` after the drag on the
/// azimuthal velocity `r * sin theta * phi_dot`.
pub open spec fn azimuthal_force<T>(
    r: T,
    sin_theta: T,
    c: BodyConstants<T>,
    v: AngularRates<T>,
    pull: T,
) -> T where T: Sub<Output = T> + Mul<Output = T> {
    pull.sub_spec(c.damping.mul_spec(r.mul_spec(sin_theta).mul_spec(v.phi_dot)))
}

/// The centrifugal term of the polar equation:
/// `r * phi_dot * phi_dot * sin theta * cos theta`.
pub open spec fn centrifugal_term<T>(r: T, sin_theta: T, cos_theta: T, v: AngularRates<T>) -> T where
    T: Mul<Output = T>,
 {
    r.mul_spec(v.phi_dot.mul_spec(v.phi_dot)).mul_spec(sin_theta).mul_spec(cos_theta)
}

/// The Coriolis term of the azimuthal equation:
/// `2 * r * theta_dot * phi_dot * cos theta`.
pub open spec fn coriolis_term<T>(r: T, cos_theta: T, v: AngularRates<T>) -> T where
    T: Mul<Output = T> + From<i8>,
 {
    constant::<T>(2).mul_spec(r).mul_spec(v.theta_dot).mul_spec(v.phi_dot).mul_spec(cos_theta)
}

/// The second derivative of the polar angle:
/// `(force / mass + centrifugal term) / r`.
pub open spec fn polar_acceleration<T>(
    r: T,
    sin_theta: T,
    cos_theta: T,
    c: BodyConstants<T>,
    v: AngularRates<T>,
    pull: T,
) -> T where T: Add<Output = T> + Sub<Output = T> + Mul<Output = T> + Div<Output = T> {
    polar_force(r, c, v, pull).div_spec(c.mass).add_spec(
        centrifugal_term(r, sin_theta, cos_theta, v),
    ).div_spec(r)
}

/// Each operation in [`polar_acceleration`] is allowed on its operands.
pub open spec fn polar_acceleration_defined<T>(
    r: T,
    sin_theta: T,
    cos_theta: T,
    c: BodyConstants<T>,
    v: AngularRates<T>,
    pull: T,
) -> bool where T: Add<Output = T> + Sub<Output = T> + Mul<Output = T> + Div<Output = T> {
    &&& r.mul_req(v.theta_dot)
    &&& c.damping.mul_req(r.mul_spec(v.theta_dot))
    &&& pull.sub_req(c.damping.mul_spec(r.mul_spec(v.theta_dot)))
    &&& polar_force(r, c, v, pull).div_req(c.mass)
    &&& v.phi_dot.mul_req(v.phi_dot)
    &&& r.mul_req(v.phi_dot.mul_spec(v.phi_dot))
    &&& r.mul_spec(v.phi_dot.mul_spec(v.phi_dot)).mul_req(sin_theta)
    &&& r.mul_spec(v.phi_dot.mul_spec(v.phi_dot)).mul_spec(sin_theta).mul_req(cos_theta)
    &&& polar_force(r, c, v, pull).div_spec(c.mass).add_req(
        centrifugal_term(r, sin_theta, cos_theta, v),
    )
    &&& polar_force(r, c, v, pull).div_spec(c.mass).add_spec(
        centrifugal_term(r, sin_theta, cos_theta, v),
    ).div_req(r)
}

/// The second derivative of the azimuth:
/// `(force / mass - Coriolis term) * q`, where `q` is the bounded
/// reciprocal of `r * sin theta`.
pub open spec fn azimuthal_acceleration<T>(
    r: T,
    sin_theta: T,
    cos_theta: T,
    c: BodyConstants<T>,
    v: AngularRates<T>,
    pull: T,
) -> T where
    T: Add<Output = T> + Sub<Output = T> + Mul<Output = T> + Div<Output = T> + Neg<Output = T>
        + From<i8> + PartialOrd,
 {
    azimuthal_force(r, sin_theta, c, v, pull).div_spec(c.mass).sub_spec(
        coriolis_term(r, cos_theta, v),
    ).mul_spec(pole_reciprocal_value(r.mul_spec(sin_theta), c.pole_ceiling))
}

/// Each operation in [`azimuthal_acceleration`] is allowed on its
/// operands.
pub open spec fn azimuthal_acceleration_defined<T>(
    r: T,
    sin_theta: T,
    cos_theta: T,
    c: BodyConstants<T>,
    v: AngularRates<T>,
    pull: T,
) -> bool where
    T: Add<Output = T> + Sub<Output = T> + Mul<Output = T> + Div<Output = T> + Neg<Output = T>
        + From<i8> + PartialOrd,
 {
    &&& r.mul_req(sin_theta)
    &&& r.mul_spec(sin_theta).mul_req(v.phi_dot)
    &&& c.damping.mul_req(r.mul_spec(sin_theta).mul_spec(v.phi_dot))
    &&& pull.sub_req(c.damping.mul_spec(r.mul_spec(sin_theta).mul_spec(v.phi_dot)))
    &&& azimuthal_force(r, sin_theta, c, v, pull).div_req(c.mass)
    &&& constant::<T>(2).mul_req(r)
    &&& constant::<T>(2).mul_spec(r).mul_req(v.theta_dot)
    &&& constant::<T>(2).mul_spec(r).mul_spec(v.theta_dot).mul_req(v.phi_dot)
    &&& constant::<T>(2).mul_spec(r).mul_spec(v.theta_dot).mul_spec(v.phi_dot).mul_req(cos_theta)
    &&& azimuthal_force(r, sin_theta, c, v, pull).div_spec(c.mass).sub_req(
        coriolis_term(r, cos_theta, v),
    )
    &&& pole_reciprocal_defined(r.mul_spec(sin_theta), c.pole_ceiling)
    &&& azimuthal_force(r, sin_theta, c, v, pull).div_spec(c.mass).sub_spec(
        coriolis_term(r, cos_theta, v),
    ).mul_req(pole_reciprocal_value(r.mul_spec(sin_theta), c.pole_ceiling))
}

/// The rate of change of the four state components of one body: the two
/// angular rates as they are, and the two accelerations that the equations
/// of motion on a sphere of radius `r` give for the pull `(polar,
/// azimuthal)` on the body.
pub open spec fn body_rate_value<T>(
    r: T,
    sin_theta: T,
    cos_theta: T,
    c: BodyConstants<T>,
    v: AngularRates<T>,
    pull: (T, T),
) -> Seq<T> where
    T: Add<Output = T> + Sub<Output = T> + Mul<Output = T> + Div<Output = T> + Neg<Output = T>
        + From<i8> + PartialOrd,
 {
    seq![
        v.theta_dot,
        v.phi_dot,
        polar_acceleration(r, sin_theta, cos_theta, c, v, pull.0),
        azimuthal_acceleration(r, sin_theta, cos_theta, c, v, pull.1),
    ]
}

/// The rate of change of the state of one body at polar angle `theta`,
/// given the sine and the cosine of that angle.
pub fn body_rate<T>(
    r: T,
    sin_theta: T,
    cos_theta: T,
    c: &BodyConstants<T>,
    v: &AngularRates<T>,
    pull: (T, T),
) -> (rate: [T; 4]) where
    T: Add<Output = T> + Sub<Output = T> + Mul<Output = T> + Div<Output = T> + Neg<Output = T>
        + From<i8> + PartialOrd + Copy,

    requires
        exact_field::<T>(),
        polar_acceleration_defined(r, sin_theta, cos_theta, *c, *v, pull.0),
        azimuthal_acceleration_defined(r, sin_theta, cos_theta, *c, *v, pull.1),
    ensures
        rate@ == body_rate_value(r, sin_theta, cos_theta, *c, *v, pull),
{
    let v_theta: T = r * v.theta_dot;
    let v_phi: T = r * sin_theta * v.phi_dot;
    let f_theta: T = pull.0 - c.damping * v_theta;
    let f_phi: T = pull.1 - c.damping * v_phi;
    let theta_ddot: T = (f_theta / c.mass + r * (v.phi_dot * v.phi_dot) * sin_theta * cos_theta)
        / r;
    let q: T = pole_reciprocal(r * sin_theta, c.pole_ceiling);
    let phi_ddot: T = (f_phi / c.mass - T::from(2i8) * r * v.theta_dot * v.phi_dot * cos_theta)
        * q;
    let rate: [T; 4] = [v.theta_dot, v.phi_dot, theta_ddot, phi_ddot];
    assert(rate@ =~= body_rate_value(r, sin_theta, cos_theta, *c, *v, pull));
    rate
}

/// A force of size `magnitude` along the tangent `axis x unit_r`, as its
/// components along the polar and the azimuthal tangent at `point`.
pub open spec fn projected<T>(
    point: SphericalPoint<T>,
    axis: Seq<T>,
    magnitude: T,
    unit_r: Seq<T>,
) -> (T, T) where
    T: Add<Output = T> + Sub<Output = T> + Mul<Output = T> + Div<Output = T> + Neg<Output = T>
        + From<i8> + PartialOrd + Copy,
 {
    let tangent = cross_value(axis, unit_r);
    (
        magnitude.mul_spec(dot_value(tangent, point.polar_tangent())),
        magnitude.mul_spec(dot_value(tangent, point.azimuthal_tangent())),
    )
}

/// Each operation in [`projected`] is allowed on its operands.
pub open spec fn projected_defined<T>(
    point: SphericalPoint<T>,
    axis: Seq<T>,
    magnitude: T,
    unit_r: Seq<T>,
) -> bool where
    T: Add<Output = T> + Sub<Output = T> + Mul<Output = T> + Div<Output = T> + Neg<Output = T>
        + From<i8> + PartialOrd + Copy,
 {
    let tangent = cross_value(axis, unit_r);
    &&& cross_defined(axis, unit_r)
    &&& dot_defined(tangent, point.polar_tangent())
    &&& dot_defined(tangent, point.azimuthal_tangent())
    &&& magnitude.mul_req(dot_value(tangent, point.polar_tangent()))
    &&& magnitude.mul_req(dot_value(tangent, point.azimuthal_tangent()))
}

/// The whole of [`project`] is allowed: the frame at `point` can be
/// formed, its outward normal can be divided by whatever length `sqrt`
/// returns for it, and the projection is allowed on the result.
pub open spec fn project_defined<T, S>(
    point: SphericalPoint<T>,
    axis: Seq<T>,
    magnitude: T,
    sqrt: S,
) -> bool where
    T: Add<Output = T> + Sub<Output = T> + Mul<Output = T> + Div<Output = T> + Neg<Output = T>
        + From<i8> + PartialOrd + Copy,
    S: Fn(T) -> T,
 {
    &&& point.radial_defined()
    &&& point.polar_tangent_defined()
    &&& point.azimuthal_tangent_defined()
    &&& normalize_defined(point.radial(), sqrt)
    &&& forall|n: T| #[trigger]
        call_ensures(sqrt, (dot_value(point.radial(), point.radial()),), n) ==> projected_defined(
            point,
            axis,
            magnitude,
            divided(point.radial(), n),
        )
}

/// The pull of size `magnitude` that turns `point` about `axis`, as its
/// components along the polar and the azimuthal tangent at `point`.
///
/// The pull acts along `axis x e`, where `e` is the outward normal at
/// `point` divided by its length, and `sqrt` computes that length.
pub fn project<T, S>(point: &SphericalPoint<T>, axis: &[T; 3], magnitude: T, sqrt: S) -> (f: (
    T,
    T,
)) where
    T: Add<Output = T> + Sub<Output = T> + Mul<Output = T> + Div<Output = T> + Neg<Output = T>
        + From<i8> + PartialOrd + Copy,
    S: Fn(T) -> T,

    requires
        exact_field::<T>(),
        project_defined(*point, axis@, magnitude, sqrt),
    ensures
        exists|n: T| #[trigger]
            call_ensures(sqrt, (dot_value(point.radial(), point.radial()),), n) && f == projected(
                *point,
                axis@,
                magnitude,
                divided(point.radial(), n),
            ),
{
    let e_r: [T; 3] = point.e_r();
    let unit_r: [T; 3] = normalize(&e_r, sqrt);
    let tangent: [T; 3] = cross(axis, &unit_r);
    let e_theta: [T; 3] = point.e_theta();
    let e_phi: [T; 3] = point.e_phi();
    (magnitude * dot(&tangent, &e_theta), magnitude * dot(&tangent, &e_phi))
}

/// `f` is the pull that [`pull_between`] returns for two points that do
/// not coincide, when `sqrt` returns `axis_length` for the cross product of
/// their outward normals and `unit_length` for the outward normal of `from`,
/// `acos` returns `angle`, and `magnitude` returns `size`.
pub open spec fn is_pull<T, S, A, M>(
    from: SphericalPoint<T>,
    to: SphericalPoint<T>,
    sqrt: S,
    acos: A,
    magnitude: M,
    axis_length: T,
    angle: T,
    size: T,
    unit_length: T,
    f: (T, T),
) -> bool where
    T: Add<Output = T> + Sub<Output = T> + Mul<Output = T> + Div<Output = T> + Neg<Output = T>
        + From<i8> + PartialOrd + Copy,
    S: Fn(T) -> T,
    A: Fn(T) -> T,
    M: Fn(T, T) -> T,
 {
    let raw = from.raw_axis(&to);
    &&& call_ensures(sqrt, (dot_value(raw, raw),), axis_length)
    &&& call_ensures(acos, (from.cosine_to(&to),), angle)
    &&& call_ensures(magnitude, (angle, from.radius().mul_spec(angle)), size)
    &&& call_ensures(sqrt, (dot_value(from.radial(), from.radial()),), unit_length)
    &&& f == projected(from, divided(raw, axis_length), size, divided(from.radial(), unit_length))
}

/// `f` is a pull that [`pull_between`] may return for `from` and `to`:
/// nothing when the two coincide, and otherwise the projection of a pull
/// whose size `magnitude` returned for the rotation between them.
pub open spec fn may_pull<T, S, A, M>(
    from: SphericalPoint<T>,
    to: SphericalPoint<T>,
    sqrt: S,
    acos: A,
    magnitude: M,
    f: (T, T),
) -> bool where
    T: Add<Output = T> + Sub<Output = T> + Mul<Output = T> + Div<Output = T> + Neg<Output = T>
        + From<i8> + PartialOrd + Copy,
    S: Fn(T) -> T,
    A: Fn(T) -> T,
    M: Fn(T, T) -> T,
 {
    if from.coincides(&to) {
        f == (constant::<T>(0), constant::<T>(0))
    } else {
        exists|axis_length: T, angle: T, size: T, unit_length: T| #[trigger]
            is_pull(from, to, sqrt, acos, magnitude, axis_length, angle, size, unit_length, f)
    }
}

/// The whole of [`pull_between`] is allowed: the rotation from `from` to
/// `to` can be computed, `magnitude` may be called on whatever angle and
/// arc come out, and the pull of whatever size it returns can be projected
/// on the tangents at `from`.
pub open spec fn pull_defined<T, S, A, M>(
    from: SphericalPoint<T>,
    to: SphericalPoint<T>,
    sqrt: S,
    acos: A,
    magnitude: M,
) -> bool where
    T: Add<Output = T> + Sub<Output = T> + Mul<Output = T> + Div<Output = T> + Neg<Output = T>
        + From<i8> + PartialOrd + Copy,
    S: Fn(T) -> T,
    A: Fn(T) -> T,
    M: Fn(T, T) -> T,
 {
    let raw = from.raw_axis(&to);
    &&& from.arc_defined(&to, sqrt, acos)
    &&& !from.coincides(&to) ==> forall|axis_length: T, angle: T|
        #![trigger
            call_ensures(sqrt, (dot_value(raw, raw),), axis_length),
            call_ensures(acos, (from.cosine_to(&to),), angle),
        ]
        call_ensures(sqrt, (dot_value(raw, raw),), axis_length) && call_ensures(
            acos,
            (from.cosine_to(&to),),
            angle,
        ) ==> {
            &&& call_requires(magnitude, (angle, from.radius().mul_spec(angle)))
            &&& forall|size: T| #[trigger]
                call_ensures(magnitude, (angle, from.radius().mul_spec(angle)), size)
                    ==> project_defined(from, divided(raw, axis_length), size, sqrt)
        }
}

/// The pull of the body at `to` on the body at `from`, as its components
/// along the polar and the azimuthal tangent at `from`.
///
/// The pull turns `from` about the axis of the rotation that takes it to
/// `to`; its size is what `magnitude` returns for the angle and the arc of
/// that rotation. Two bodies at the same place do not pull at each other.
pub fn pull_between<T, S, A, M>(
    from: &SphericalPoint<T>,
    to: &SphericalPoint<T>,
    sqrt: S,
    acos: A,
    magnitude: M,
) -> (f: (T, T)) where
    T: Add<Output = T> + Sub<Output = T> + Mul<Output = T> + Div<Output = T> + Neg<Output = T>
        + From<i8> + PartialOrd + Copy,
    S: Fn(T) -> T + Copy,
    A: Fn(T) -> T,
    M: Fn(T, T) -> T,

    requires
        exact_field::<T>(),
        pull_defined(*from, *to, sqrt, acos, magnitude),
    ensures
        may_pull(*from, *to, sqrt, acos, magnitude, f),
{
    match from.axis_angle_arc(to, sqrt, acos) {
        None => (T::from(0i8), T::from(0i8)),
        Some((axis, angle, arc)) => {
            let ghost raw = from.raw_axis(to);
            let ghost axis_length = choose|n: T| #[trigger]
                call_ensures(sqrt, (dot_value(raw, raw),), n) && axis@ == divided(raw, n);
            let size: T = magnitude(angle, arc);
            let f: (T, T) = project(from, &axis, size, sqrt);
            proof {
                let unit_length = choose|n: T| #[trigger]
                    call_ensures(sqrt, (dot_value(from.radial(), from.radial()),), n) && f
                        == projected(*from, axis@, size, divided(from.radial(), n));
                assert(is_pull(
                    *from,
                    *to,
                    sqrt,
                    acos,
                    magnitude,
                    axis_length,
                    angle,
                    size,
                    unit_length,
                    f,
                ));
            }
            f
        },
    }
}

/// The index of the body whose pull on body `i` stands at place `k` of
/// what [`pulls_on`] returns: the bodies in their order, without body `i`.
pub open spec fn other_body(i: int, k: int) -> int {
    if k < i {
        k
    } else {
        k + 1
    }
}

/// The pulls of all the other bodies on body `i`, in the order of the
/// bodies.
pub fn pulls_on<T, S, A, M>(
    i: usize,
    points: &Vec<SphericalPoint<T>>,
    sqrt: S,
    acos: A,
    magnitude: M,
) -> (pulls: Vec<(T, T)>) where
    T: Add<Output = T> + Sub<Output = T> + Mul<Output = T> + Div<Output = T> + Neg<Output = T>
        + From<i8> + PartialOrd + Copy,
    S: Fn(T) -> T + Copy,
    A: Fn(T) -> T + Copy,
    M: Fn(T, T) -> T + Copy,

    requires
        exact_field::<T>(),
        i < points.len(),
        forall|j: int|
            0 <= j < points.len() && j != i ==> pull_defined(
                points[i as int],
                #[trigger] points[j],
                sqrt,
                acos,
                magnitude,
            ),
    ensures
        pulls.len() == points.len() - 1,
        forall|k: int|
            0 <= k < pulls.len() ==> may_pull(
                points[i as int],
                points[other_body(i as int, k)],
                sqrt,
                acos,
                magnitude,
                #[trigger] pulls[k],
            ),
{
    let n: usize = points.len();
    let mut pulls: Vec<(T, T)> = Vec::with_capacity(n - 1);
    let mut j: usize = 0;
    while j < n
        invariant
            j <= n,
            n == points.len(),
            i < n,
            exact_field::<T>(),
            forall|j: int|
                0 <= j < points.len() && j != i ==> pull_defined(
                    points[i as int],
                    #[trigger] points[j],
                    sqrt,
                    acos,
                    magnitude,
                ),
            pulls.len() == (if j <= i {
                j as int
            } else {
                j - 1
            }),
            forall|k: int|
                0 <= k < pulls.len() ==> may_pull(
                    points[i as int],
                    points[other_body(i as int, k)],
                    sqrt,
                    acos,
                    magnitude,
                    #[trigger] pulls[k],
                ),
        decreases n - j,
    {
        if j != i {
            let f: (T, T) = pull_between(&points[i], &points[j], sqrt, acos, magnitude);
            assert(other_body(i as int, pulls.len() as int) == j);
            pulls.push(f);
        }
        j += 1;
    }
    pulls
}

} // verus!
