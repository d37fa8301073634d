use sphere_springs::integrate::{advance, combine, Euler, ShapeError, RK4};

fn pendulum_rate(x: &Vec<f64>, l: f64, g: f64, b: f64) -> Vec<f64> {
    sphere_springs::pendulum::pendulum_rate(x, l, g, b, f64::sin)
}

#[test]
fn test_propogate_euler() {
    let l = 1.0;
    let g = 9.81;
    let dt = 0.01;
    let b = 1.0;
    let mut x_k = vec![std::f64::consts::FRAC_2_PI, 0.0];
    //we have a stable system, test that after 10 seconds we are close to the origin

    let propogate = Euler::new(dt, |x: &Vec<f64>| pendulum_rate(x, l, g, b));

    for _ in 0..1000 {
        x_k = propogate.propogate(&x_k).unwrap();
    }
    //assert that we are close to the origin
    assert!(x_k[0].abs() < 0.01);
    assert!(x_k[1].abs() < 0.01);
}

#[test]
fn math_test_propogate_euler() {
    let l = 1.0;
    let g = 9.81;
    let dt = 0.01;
    let b = 1.0;
    let mut x_k = vec![std::f64::consts::FRAC_2_PI, 0.0];

    let propogate = Euler::new(dt, |x: &Vec<f64>| pendulum_rate(x, l, g, b));

    for _ in 0..1000 {
        x_k = propogate.propogate(&x_k).unwrap();
    }
    assert!(x_k[0].abs() < 0.01);
    assert!(x_k[1].abs() < 0.01);
}

#[test]
fn test_propogate_rk4() {
    let l = 1.0;
    let g = 9.81;
    let dt = 0.01;
    let b = 1.0;

    let mut t = 0.0;
    let mut x_k = vec![std::f64::consts::FRAC_2_PI, 0.0];
    //we have a stable system, test that after 10 seconds we are close to the origin

    let propogate = RK4::new(dt, |_t: f64, x: &Vec<f64>| pendulum_rate(x, l, g, b));

    for _ in 0..1000 {
        t += dt;
        x_k = propogate.propogate(t, &x_k).unwrap();
    }
    assert_eq!(x_k.len(), 2);
    assert!(x_k[0].abs() < 0.01);
    assert!(x_k[1].abs() < 0.01);
}

#[test]
fn euler_step_matches_hand_computation() {
    let l = 1.0f64;
    let g = 9.81f64;
    let dt = 0.01f64;
    let b = 1.0f64;
    let x = vec![0.5f64, -0.25];
    let euler = Euler::new(dt, |x: &Vec<f64>| pendulum_rate(x, l, g, b));
    let next = euler.propogate(&x).unwrap();
    let d2 = -g / l * 0.5f64.sin() - b * -0.25;
    assert_eq!(next, vec![0.5 + dt * -0.25, -0.25 + dt * d2]);
}

#[test]
fn euler_and_rk4_agree_to_first_order() {
    let l = 1.0;
    let g = 9.81;
    let b = 1.0;
    let horizon = 2.0f64;
    let mut gaps = Vec::new();
    for dt in [0.01f64, 0.005, 0.0025] {
        let euler = Euler::new(dt, |x: &Vec<f64>| pendulum_rate(x, l, g, b));
        let rk4 = RK4::new(dt, |_t: f64, x: &Vec<f64>| pendulum_rate(x, l, g, b));
        let mut x_e = vec![std::f64::consts::FRAC_2_PI, 0.0];
        let mut x_r = x_e.clone();
        let mut t = 0.0;
        let steps = (horizon / dt).round() as usize;
        let mut gap = 0.0f64;
        for _ in 0..steps {
            t += dt;
            x_e = euler.propogate(&x_e).unwrap();
            x_r = rk4.propogate(t, &x_r).unwrap();
            gap = gap.max((x_e[0] - x_r[0]).abs());
        }
        gaps.push(gap);
    }
    // The gap shrinks with the step, roughly in proportion to it.
    assert!(gaps[0] < 0.05);
    assert!(gaps[1] < 0.65 * gaps[0]);
    assert!(gaps[2] < 0.65 * gaps[1]);
}

#[test]
fn rk4_is_exact_on_integers() {
    // dx/dt = x with step 6: half step 3, sixth of step 1.
    let rk4 = RK4::new(6i64, |_t: i64, x: &Vec<i64>| x.clone());
    assert_eq!(rk4.propogate(0, &vec![6, 12]), Ok(vec![690, 1380]));
}

#[test]
fn rk4_passes_stage_times_to_the_rate() {
    // dx/dt = t, step 6 from t = 10: k1 = 10, k2 = k3 = 13, k4 = 16.
    let rk4 = RK4::new(6i64, |t: i64, x: &Vec<i64>| vec![t; x.len()]);
    // 1 + 6 / 6 * (10 + 2 * 13 + 2 * 13 + 16)
    assert_eq!(rk4.propogate(10, &vec![1]), Ok(vec![79]));
}

#[test]
fn rk4_is_repeatable() {
    let rk4 = RK4::new(0.01f64, |_t: f64, x: &Vec<f64>| pendulum_rate(x, 1.0, 9.81, 1.0));
    let x = vec![0.3, -0.1];
    assert_eq!(rk4.propogate(0.5, &x), rk4.propogate(0.5, &x));
}

#[test]
fn rk4_keeps_the_dimension_of_the_state() {
    let rk4 = RK4::new(0.5f64, |_t: f64, x: &Vec<f64>| x.iter().map(|v| -v).collect());
    for n in [0usize, 1, 4, 16] {
        let x = vec![1.0f64; n];
        assert_eq!(rk4.propogate(0.0, &x).unwrap().len(), n);
    }
}

#[test]
fn euler_rejects_rate_of_wrong_dimension() {
    let euler = Euler::new(1i64, |_x: &Vec<i64>| vec![0i64; 3]);
    assert_eq!(euler.propogate(&vec![1, 2]), Err(ShapeError { expected: 2, found: 3 }));
}

#[test]
fn rk4_rejects_rate_of_wrong_dimension() {
    let rk4 = RK4::new(0.1f64, |_t: f64, _x: &Vec<f64>| vec![0.0f64]);
    assert_eq!(rk4.propogate(0.0, &vec![1.0, 2.0]), Err(ShapeError { expected: 2, found: 1 }));
    let longer = RK4::new(0.1f64, |_t: f64, _x: &Vec<f64>| vec![0.0f64; 5]);
    assert_eq!(longer.propogate(0.0, &vec![1.0, 2.0]), Err(ShapeError { expected: 2, found: 5 }));
}

#[test]
fn rk4_rejects_wrong_dimension_at_a_later_stage() {
    // Right at the start time, wrong from the middle time on.
    let at_mid = RK4::new(6i64, |t: i64, x: &Vec<i64>| {
        if t == 0 { x.clone() } else { vec![0; x.len() + 1] }
    });
    assert_eq!(at_mid.propogate(0, &vec![1, 2]), Err(ShapeError { expected: 2, found: 3 }));
    // Right until the end time.
    let at_end = RK4::new(6i64, |t: i64, x: &Vec<i64>| {
        if t < 6 { x.clone() } else { Vec::new() }
    });
    assert_eq!(at_end.propogate(0, &vec![1, 2]), Err(ShapeError { expected: 2, found: 0 }));
}

#[test]
fn advance_adds_the_scaled_rate() {
    assert_eq!(advance(&vec![1i64, 2, 3], 10, &vec![4, 5, 6]), Ok(vec![41, 52, 63]));
    assert_eq!(advance(&vec![1.0f64], 0.5, &vec![3.0]), Ok(vec![2.5]));
    assert_eq!(advance(&Vec::<i64>::new(), 10, &Vec::new()), Ok(Vec::new()));
}

#[test]
fn advance_rejects_rate_of_wrong_dimension() {
    assert_eq!(
        advance(&vec![1i64, 2, 3], 10, &vec![4, 5]),
        Err(ShapeError { expected: 3, found: 2 })
    );
}

#[test]
fn combine_weights_the_stages() {
    // 100 + 12 / 6 * (1 + 2 * 2 + 2 * 3 + 4)
    let r = combine(&vec![100i64], 12, &vec![1], &vec![2], &vec![3], &vec![4]);
    assert_eq!(r, Ok(vec![130]));
}

#[test]
fn combine_reports_the_first_misshapen_stage() {
    let x = vec![0i64, 0];
    let good = vec![1i64, 1];
    assert_eq!(
        combine(&x, 6, &good, &vec![1], &vec![1, 2, 3], &good),
        Err(ShapeError { expected: 2, found: 1 })
    );
    assert_eq!(
        combine(&x, 6, &good, &good, &good, &vec![]),
        Err(ShapeError { expected: 2, found: 0 })
    );
}
