use sphere_springs::geometry::{
    clamp_unit, cross, divide, dot, norm, normalize, scale, SphericalPoint,
};
use std::f64::consts::PI;

fn close(a: f64, b: f64) -> bool {
    (a - b).abs() < 1e-12
}

fn close3(a: [f64; 3], b: [f64; 3]) -> bool {
    close(a[0], b[0]) && close(a[1], b[1]) && close(a[2], b[2])
}

fn point(r: f64, theta: f64, phi: f64) -> SphericalPoint<f64> {
    SphericalPoint::new(r, theta, phi, f64::sin, f64::cos)
}

#[test]
fn cross_of_axes() {
    assert_eq!(cross(&[1i64, 0, 0], &[0, 1, 0]), [0, 0, 1]);
    assert_eq!(cross(&[0i64, 1, 0], &[1, 0, 0]), [0, 0, -1]);
    assert_eq!(cross(&[1.0f64, 2.0, 3.0], &[4.0, 5.0, 6.0]), [-3.0, 6.0, -3.0]);
    assert_eq!(cross(&[2i64, 3, 4], &[2, 3, 4]), [0, 0, 0]);
}

#[test]
fn dot_sums_the_products() {
    assert_eq!(dot(&[1i64, 2, 3], &[4, 5, 6]), 32);
    assert_eq!(dot(&[1.0f64, 0.0, 0.0], &[0.0, 1.0, 0.0]), 0.0);
}

#[test]
fn scale_and_divide_act_on_each_component() {
    assert_eq!(scale(3i64, &[1, -2, 4]), [3, -6, 12]);
    assert_eq!(divide(&[3i64, -6, 12], 3), [1, -2, 4]);
    assert_eq!(divide(&[1.0f64, 2.0, 4.0], 2.0), [0.5, 1.0, 2.0]);
}

#[test]
fn norm_is_root_of_self_product() {
    assert_eq!(norm(&[3.0f64, 0.0, 4.0], f64::sqrt), 5.0);
    assert_eq!(norm(&[0.0f64, 0.0, 0.0], f64::sqrt), 0.0);
    // The root is whatever the given function returns for 9 + 0 + 16.
    assert_eq!(norm(&[3i64, 0, 4], |q: i64| q + 1), 26);
}

#[test]
fn normalize_gives_unit_length() {
    assert_eq!(normalize(&[3.0f64, 0.0, 4.0], f64::sqrt), [0.6, 0.0, 0.8]);
    let u = normalize(&[1.0f64, -2.0, 2.5], f64::sqrt);
    assert!(close(norm(&u, f64::sqrt), 1.0));
}

#[test]
fn clamp_unit_keeps_range() {
    assert_eq!(clamp_unit(0.25f64), 0.25);
    assert_eq!(clamp_unit(1.0f64), 1.0);
    assert_eq!(clamp_unit(-1.0f64), -1.0);
    assert_eq!(clamp_unit(1.0000000000000002f64), 1.0);
    assert_eq!(clamp_unit(-1.5f64), -1.0);
    assert_eq!(clamp_unit(7i64), 1);
    assert_eq!(clamp_unit(-7i64), -1);
    assert_eq!(clamp_unit(0i64), 0);
}

#[test]
fn frame_from_given_sines_and_cosines() {
    // theta = 0: the pole. phi = 0.
    let p = SphericalPoint::from_trig(2i64, 0, 1, 0, 1);
    assert_eq!(p.e_r(), [0, 0, 1]);
    assert_eq!(p.e_theta(), [1, 0, 0]);
    assert_eq!(p.e_phi(), [0, 1, 0]);
    assert_eq!(p.xyz(), [0, 0, 2]);
    // theta = pi / 2, phi = pi / 2: on the y axis.
    let q = SphericalPoint::from_trig(3i64, 1, 0, 1, 0);
    assert_eq!(q.e_r(), [0, 1, 0]);
    assert_eq!(q.e_theta(), [0, 0, -1]);
    assert_eq!(q.e_phi(), [-1, 0, 0]);
    assert_eq!(q.xyz(), [0, 3, 0]);
    assert_eq!(q.rotation_matrix(), [[0, 1, 0], [0, 0, -1], [-1, 0, 0]]);
}

#[test]
fn new_takes_sines_and_cosines_of_both_angles() {
    let p = point(2.0, PI / 3.0, PI / 6.0);
    let st = (PI / 3.0).sin();
    let ct = (PI / 3.0).cos();
    let sp = (PI / 6.0).sin();
    let cp = (PI / 6.0).cos();
    assert_eq!(p, SphericalPoint::from_trig(2.0, st, ct, sp, cp));
    assert_eq!(p.e_r(), [st * cp, st * sp, ct]);
    assert_eq!(p.e_theta(), [ct * cp, ct * sp, -st]);
    assert_eq!(p.e_phi(), [-sp, cp, 0.0]);
    assert_eq!(p.xyz(), [2.0 * (st * cp), 2.0 * (st * sp), 2.0 * ct]);
}

#[test]
fn frame_is_orthonormal() {
    for &(theta, phi) in &[(0.3, 1.2), (PI / 2.0, -2.0), (2.9, 0.0), (1.0, 3.0)] {
        let p = point(1.5, theta, phi);
        let m = p.rotation_matrix();
        for i in 0..3 {
            for j in 0..3 {
                let expected = if i == j { 1.0 } else { 0.0 };
                assert!(close(dot(&m[i], &m[j]), expected));
            }
        }
        assert!(close3(cross(&m[0], &m[1]), m[2]));
        assert!(close(norm(&p.xyz(), f64::sqrt), 1.5));
    }
}

#[test]
fn axis_angle_arc_between_two_axes() {
    let a = point(2.0, PI / 2.0, 0.0);
    let b = point(2.0, PI / 2.0, PI / 2.0);
    let (axis, angle, arc) = a.axis_angle_arc(&b, f64::sqrt, f64::acos).unwrap();
    assert!(close3(axis, [0.0, 0.0, 1.0]));
    assert!(close(angle, PI / 2.0));
    assert!(close(arc, PI));
}

#[test]
fn axis_is_a_unit_vector_orthogonal_to_both_points() {
    let a = point(1.0, 0.4, 0.3);
    let b = point(1.0, 1.9, -2.2);
    let (axis, angle, _) = a.axis_angle_arc(&b, f64::sqrt, f64::acos).unwrap();
    assert!(close(norm(&axis, f64::sqrt), 1.0));
    assert!(close(dot(&axis, &a.e_r()), 0.0));
    assert!(close(dot(&axis, &b.e_r()), 0.0));
    assert!(0.0 <= angle && angle <= PI);
}

#[test]
fn axis_cosine_gives_cross_product_and_clamped_cosine() {
    let a = SphericalPoint::from_trig(1i64, 1, 0, 0, 1);
    let b = SphericalPoint::from_trig(1i64, 1, 0, 1, 0);
    assert_eq!(a.axis_cosine(&b), Some(([0, 0, 1], 0)));
    assert_eq!(b.axis_cosine(&a), Some(([0, 0, -1], 0)));
    // Values that are no sines and cosines: the product 2 * 3 is clamped.
    let c = SphericalPoint::from_trig(1i64, 0, 2, 0, 1);
    let d = SphericalPoint::from_trig(1i64, 0, 3, 0, 1);
    assert_eq!(c.axis_cosine(&d), Some(([0, 0, 0], 1)));
}

#[test]
fn arc_is_symmetric() {
    let pairs = [((0.4, 0.3), (1.9, -2.2)), ((2.0, 1.0), (0.1, 3.0)), ((1.0, 0.0), (1.0, 0.5))];
    for &((t1, p1), (t2, p2)) in &pairs {
        let a = point(2.0, t1, p1);
        let b = point(2.0, t2, p2);
        let (_, angle_ab, arc_ab) = a.axis_angle_arc(&b, f64::sqrt, f64::acos).unwrap();
        let (_, angle_ba, arc_ba) = b.axis_angle_arc(&a, f64::sqrt, f64::acos).unwrap();
        assert_eq!(angle_ab, angle_ba);
        assert_eq!(arc_ab, arc_ba);
    }
}

#[test]
fn point_has_no_axis_to_itself() {
    let p = point(2.0, 0.7, -1.1);
    assert_eq!(p.axis_angle_arc(&p, f64::sqrt, f64::acos), None);
    assert_eq!(p.axis_cosine(&p), None);
    // Another radius, the same direction.
    let q = point(5.0, 0.7, -1.1);
    assert_eq!(p.axis_angle_arc(&q, f64::sqrt, f64::acos), None);
    let i = SphericalPoint::from_trig(1i64, 1, 0, 0, 1);
    assert_eq!(i.axis_cosine(&i), None);
}

#[test]
fn arc_is_radius_times_angle() {
    let p = point(2.5, 0.7, -1.1);
    assert_eq!(p.arc(0.5), 1.25);
    let i = SphericalPoint::from_trig(3i64, 1, 0, 0, 1);
    assert_eq!(i.arc(7), 21);
}

#[test]
fn nearly_parallel_points_give_an_angle_not_a_nan() {
    let a = point(1.0, 1.0, 1.0);
    let b = point(1.0, 1.0, 1.0 + 1e-9);
    let (_, angle, arc) = a.axis_angle_arc(&b, f64::sqrt, f64::acos).unwrap();
    assert!(!angle.is_nan());
    assert!(!arc.is_nan());
    assert!(angle < 1e-8);
}
