use sphere_springs::forces::{
    body_rate, pole_reciprocal, project, pull_between, pulls_on, sum_pulls, AngularRates,
    BodyConstants,
};
use sphere_springs::geometry::SphericalPoint;
use std::f64::consts::PI;

fn point(r: f64, theta: f64, phi: f64) -> SphericalPoint<f64> {
    SphericalPoint::new(r, theta, phi, f64::sin, f64::cos)
}

#[test]
fn sum_pulls_adds_each_component() {
    assert_eq!(sum_pulls(&vec![(1i64, 2i64), (3, 4), (5, 6)]), (9, 12));
    assert_eq!(sum_pulls(&Vec::<(i64, i64)>::new()), (0, 0));
    assert_eq!(sum_pulls(&vec![(0.5f64, -1.0f64), (0.25, 1.0)]), (0.75, 0.0));
}

#[test]
fn pole_reciprocal_is_the_reciprocal_away_from_the_pole() {
    assert_eq!(pole_reciprocal(0.5f64, 1000.0), 2.0);
    assert_eq!(pole_reciprocal(-4.0f64, 1000.0), -0.25);
    assert_eq!(pole_reciprocal(1i64, 1000), 1);
}

#[test]
fn pole_reciprocal_is_bounded_near_the_pole() {
    assert_eq!(pole_reciprocal(1.0e-6f64, 1000.0), 1000.0);
    assert_eq!(pole_reciprocal(-1.0e-6f64, 1000.0), -1000.0);
    assert_eq!(pole_reciprocal(0.0f64, 1000.0), 1000.0);
    assert_eq!(pole_reciprocal(-0.0f64, 1000.0), -1000.0);
    assert_eq!(pole_reciprocal(0.001f64, 1000.0), 1000.0);
}

#[test]
fn body_rate_on_integers() {
    let c = BodyConstants { mass: 2i64, damping: 1, pole_ceiling: 1000 };
    let v = AngularRates { theta_dot: 3i64, phi_dot: 4 };
    // polar: ((10 - 1 * (2 * 3)) / 2 + 2 * 16 * 1 * 0) / 2 = 1
    // azimuthal: ((20 - 1 * (2 * 1 * 4)) / 2 - 2 * 2 * 3 * 4 * 0) * (1 / (2 * 1)) = 6 * 0
    assert_eq!(body_rate(2, 1, 0, &c, &v, (10, 20)), [3, 4, 1, 0]);
    // Radius 1: the reciprocal is 1, and the Coriolis term 2 * 1 * 3 * 4 * 1 = 24 counts.
    // polar: ((10 - 3) / 2 + 1 * 16 * 1 * 1) / 1 = 3 + 16
    // azimuthal: ((20 - 4) / 2 - 24) * 1 = -16
    assert_eq!(body_rate(1, 1, 1, &c, &v, (10, 20)), [3, 4, 19, -16]);
}

#[test]
fn body_rate_follows_the_equations_of_motion() {
    let r = 2.0f64;
    let m = 1.5f64;
    let damping = 0.7f64;
    let theta = 1.1f64;
    let theta_dot = 0.3f64;
    let phi_dot = -0.8f64;
    let (pull_theta, pull_phi) = (0.9f64, -0.4f64);
    let c = BodyConstants { mass: m, damping, pole_ceiling: 1000.0 };
    let v = AngularRates { theta_dot, phi_dot };
    let rate = body_rate(r, theta.sin(), theta.cos(), &c, &v, (pull_theta, pull_phi));

    let f_theta = pull_theta - damping * (r * theta_dot);
    let f_phi = pull_phi - damping * (r * theta.sin() * phi_dot);
    let theta_ddot = (f_theta / m + r * phi_dot.powi(2) * theta.sin() * theta.cos()) / r;
    let phi_ddot = (f_phi / m - 2.0 * r * theta_dot * phi_dot * theta.cos()) / (r * theta.sin());
    assert_eq!(rate[0], theta_dot);
    assert_eq!(rate[1], phi_dot);
    assert!((rate[2] - theta_ddot).abs() < 1e-12);
    assert!((rate[3] - phi_ddot).abs() < 1e-12);
}

#[test]
fn body_rate_stays_finite_at_the_pole() {
    let c = BodyConstants { mass: 1.0f64, damping: 1.0, pole_ceiling: 1000.0 };
    let v = AngularRates { theta_dot: 0.1f64, phi_dot: 0.2 };
    let rate = body_rate(2.0, 0.0, 1.0, &c, &v, (0.5, 0.5));
    assert!(rate.iter().all(|x| x.is_finite()));
    // (0.5 / 1 - 2 * 2 * 0.1 * 0.2 * 1) * 1000
    assert!((rate[3] - 420.0).abs() < 1e-9);
}

#[test]
fn project_on_integer_frame() {
    // theta = pi / 2, phi = 0: e_r = x, e_theta = -z, e_phi = y.
    let p = SphericalPoint::from_trig(1i64, 1, 0, 0, 1);
    // z x x = y, which is e_phi.
    assert_eq!(project(&p, &[0, 0, 1], 5, |_q: i64| 1), (0, 5));
    // y x x = -z, which is e_theta.
    assert_eq!(project(&p, &[0, 1, 0], 5, |_q: i64| 1), (5, 0));
}

#[test]
fn project_divides_the_normal_by_its_length() {
    let p = SphericalPoint::from_trig(1i64, 2, 0, 0, 2);
    // e_r = (4, 0, 0), e_r . e_r = 16; with length 4 the unit normal is x.
    assert_eq!(project(&p, &[0, 0, 1], 3, |q: i64| q / 4), (0, 6));
}

#[test]
fn pull_between_points_on_the_equator() {
    let a = point(2.0, PI / 2.0, 0.0);
    let b = point(2.0, PI / 2.0, PI / 2.0);
    let (f_theta, f_phi) = pull_between(&a, &b, f64::sqrt, f64::acos, |angle: f64, _arc: f64| {
        3.0 * angle
    });
    assert!(f_theta.abs() < 1e-12);
    assert!((f_phi - 3.0 * PI / 2.0).abs() < 1e-12);
    let (b_theta, b_phi) = pull_between(&b, &a, f64::sqrt, f64::acos, |angle: f64, _arc: f64| {
        3.0 * angle
    });
    assert!(b_theta.abs() < 1e-12);
    assert!((b_phi + 3.0 * PI / 2.0).abs() < 1e-12);
}

#[test]
fn pull_between_hands_angle_and_arc_to_the_magnitude() {
    let a = point(2.0, PI / 2.0, 0.0);
    let b = point(2.0, PI / 2.0, PI / 2.0);
    let (_, f_phi) = pull_between(&a, &b, f64::sqrt, f64::acos, |angle: f64, arc: f64| {
        assert!((angle - PI / 2.0).abs() < 1e-12);
        assert!((arc - PI).abs() < 1e-12);
        arc
    });
    assert!((f_phi - PI).abs() < 1e-12);
}

#[test]
fn pull_between_coincident_points_is_zero() {
    let a = point(2.0, 0.7, 0.3);
    let f = pull_between(&a, &a, f64::sqrt, f64::acos, |_angle: f64, _arc: f64| 1.0e9);
    assert_eq!(f, (0.0, 0.0));
}

#[test]
fn pulls_on_lists_every_other_body_in_order() {
    let points = vec![
        point(2.0, PI / 2.0, 0.0),
        point(2.0, PI / 2.0, PI / 2.0),
        point(2.0, PI / 2.0, 0.0),
        point(2.0, PI / 4.0, 1.0),
    ];
    let size = |angle: f64, _arc: f64| 3.0 * angle;
    for i in 0..points.len() {
        let pulls = pulls_on(i, &points, f64::sqrt, f64::acos, size);
        let others: Vec<usize> = (0..points.len()).filter(|&j| j != i).collect();
        assert_eq!(pulls.len(), others.len());
        for (k, &j) in others.iter().enumerate() {
            let single = pull_between(&points[i], &points[j], f64::sqrt, f64::acos, size);
            assert_eq!(pulls[k], single);
        }
    }
    // Bodies 0 and 2 are at the same place and do not pull at each other.
    let on_first = pulls_on(0, &points, f64::sqrt, f64::acos, size);
    assert_eq!(on_first[1], (0.0, 0.0));
}

#[test]
fn pulls_on_a_lone_body_is_empty() {
    let points = vec![point(2.0, 1.0, 1.0)];
    let pulls = pulls_on(0, &points, f64::sqrt, f64::acos, |angle: f64, _arc: f64| angle);
    assert!(pulls.is_empty());
}
