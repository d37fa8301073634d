use sphere_springs::interpolate::{is_ascending, lerp1d, on_segment, sample, search_bracket, SeriesError};

#[test]
fn test_lerp1d() {
    let x_vec = vec![0.0, 1.0, 2.0, 3.0];
    let y_vec = vec![3.0, 2.0, 1.0, 0.0];
    let x = 0.5;
    let y = lerp1d(x, &x_vec, &y_vec);
    assert!(y == 2.5);
}

#[test]
fn math_test_lerp1d() {
    let x_vec = vec![0.0, 1.0, 2.0, 3.0];
    let y_vec = vec![3.0, 2.0, 1.0, 0.0];
    let x = 0.5;
    let y = lerp1d(x, &x_vec, &y_vec);
    assert!(y == 2.5);
}

#[test]
fn lerp1d_returns_stored_value_at_every_key() {
    let keys = vec![0.0f64, 1.0, 2.0, 3.0];
    let values = vec![3.0f64, 2.0, 1.0, 0.0];
    for i in 0..keys.len() {
        let y = lerp1d(keys[i], &keys, &values);
        assert!((y - values[i]).abs() < 1e-12, "key {} gave {}", i, y);
    }
}

#[test]
fn lerp1d_at_first_key_is_first_value() {
    let keys = vec![-2i64, 0, 4];
    let values = vec![7i64, 9, 1];
    assert_eq!(lerp1d(-2, &keys, &values), 7);
}

#[test]
fn lerp1d_at_last_key_uses_last_segment() {
    let keys = vec![0i64, 10, 20];
    let values = vec![0i64, 100, 300];
    assert_eq!(lerp1d(20, &keys, &values), 300);
}

#[test]
fn lerp1d_clamps_before_first_key() {
    let keys = vec![0.0f64, 1.0, 2.0, 3.0];
    let values = vec![3.0f64, 2.0, 1.0, 0.0];
    assert_eq!(lerp1d(-0.25, &keys, &values), 3.0);
    assert_eq!(lerp1d(-1.0e9, &keys, &values), 3.0);
}

#[test]
fn lerp1d_clamps_after_last_key() {
    let keys = vec![0.0f64, 1.0, 2.0, 3.0];
    let values = vec![3.0f64, 2.0, 1.0, 0.0];
    assert_eq!(lerp1d(3.5, &keys, &values), 0.0);
    assert_eq!(lerp1d(1.0e9, &keys, &values), 0.0);
}

#[test]
fn lerp1d_interpolates_on_integers() {
    let keys = vec![0i64, 10, 20];
    let values = vec![0i64, 100, 300];
    assert_eq!(lerp1d(5, &keys, &values), 50);
    assert_eq!(lerp1d(10, &keys, &values), 100);
    assert_eq!(lerp1d(15, &keys, &values), 200);
}

#[test]
fn lerp1d_rounded_quotient_misses_the_upper_value() {
    // 0 + 3 / 2 * 2 is 2 in integer arithmetic, not 3.
    let keys = vec![0i64, 2];
    let values = vec![0i64, 3];
    assert_eq!(lerp1d(2, &keys, &values), 2);
}

#[test]
fn lerp1d_works_on_single_precision() {
    let keys = vec![0.0f32, 2.0, 4.0];
    let values = vec![1.0f32, 5.0, 5.0];
    assert_eq!(lerp1d(1.0f32, &keys, &values), 3.0);
    assert_eq!(lerp1d(3.0f32, &keys, &values), 5.0);
}

#[test]
fn on_segment_follows_the_formula() {
    assert_eq!(on_segment(0.5f64, 0.0, 1.0, 3.0, 2.0), 2.5);
    assert_eq!(on_segment(7i32, 4, 8, 10, 30), 25);
    assert_eq!(on_segment(4i32, 4, 8, 10, 30), 10);
}

#[test]
fn search_bracket_finds_first_key_not_below() {
    let keys = vec![0i64, 10, 20, 30, 40];
    assert_eq!(search_bracket(1, &keys), 1);
    assert_eq!(search_bracket(10, &keys), 1);
    assert_eq!(search_bracket(11, &keys), 2);
    assert_eq!(search_bracket(30, &keys), 3);
    assert_eq!(search_bracket(31, &keys), 4);
    assert_eq!(search_bracket(40, &keys), 4);
}

#[test]
fn search_bracket_stays_in_range_for_any_query() {
    let keys = vec![0.0f64, 1.0, 2.0];
    for x in [f64::NAN, f64::NEG_INFINITY, f64::INFINITY, -1.0, 5.0] {
        let i = search_bracket(x, &keys);
        assert!(1 <= i && i < keys.len());
    }
}

#[test]
fn is_ascending_tells_strict_order() {
    assert!(is_ascending(&vec![1i64, 2, 3]));
    assert!(is_ascending(&vec![1.0f64, 1.5]));
    assert!(!is_ascending(&vec![1i64, 1, 3]));
    assert!(!is_ascending(&vec![1i64, 3, 2]));
    assert!(is_ascending(&Vec::<i64>::new()));
    assert!(is_ascending(&vec![5i64]));
}

#[test]
fn sample_accepts_a_series() {
    let keys = vec![0.0f64, 1.0, 2.0, 3.0];
    let values = vec![3.0f64, 2.0, 1.0, 0.0];
    assert_eq!(sample(0.5, &keys, &values), Ok(2.5));
    assert_eq!(sample(-4.0, &keys, &values), Ok(3.0));
    assert_eq!(sample(4.0, &keys, &values), Ok(0.0));
}

#[test]
fn sample_rejects_short_series() {
    assert_eq!(sample(0i64, &vec![], &vec![]), Err(SeriesError::TooShort));
    assert_eq!(sample(0i64, &vec![1], &vec![1]), Err(SeriesError::TooShort));
    assert_eq!(sample(0i64, &vec![1], &vec![1, 2]), Err(SeriesError::TooShort));
}

#[test]
fn sample_rejects_mismatched_lengths() {
    assert_eq!(sample(0i64, &vec![1, 2, 3], &vec![1, 2]), Err(SeriesError::LengthMismatch));
    assert_eq!(sample(0i64, &vec![3, 2], &vec![1, 2, 3]), Err(SeriesError::LengthMismatch));
}

#[test]
fn sample_rejects_keys_out_of_order() {
    assert_eq!(sample(0i64, &vec![1, 3, 2], &vec![1, 2, 3]), Err(SeriesError::NotAscending));
    assert_eq!(sample(0i64, &vec![1, 1], &vec![1, 2]), Err(SeriesError::NotAscending));
}
