//! Piecewise-linear resampling of a time series.
//!
//! A series is a pair of parallel sequences: strictly ascending keys and one
//! value per key. Sampling it at a query returns the first value below the
//! first key, the last value above the last key, and in between the point on
//! the straight line through the two samples that bracket the query.
//!
//! The scalar type is a parameter. Contracts speak of its arithmetic and its
//! order through the `spec` functions that vstd attaches to the
//! operator traits, so they say something exactly for the types whose
//! operators are known to follow those functions.
use vstd::prelude::*;
use vstd::std_specs::ops::{AddSpec, SubSpec, MulSpec, DivSpec};
use vstd::laws_cmp::obeys_partial_cmp_spec_properties;
use core::ops::{Add, Sub, Mul, Div};
use crate::scalar::{at_most, below, exact_ops, ordered};

verus! {

/// Every key comes strictly before every later key.
pub open spec fn ascending<T: PartialOrd>(keys: Seq<T>) -> bool {
    forall|i: int, j: int| 0 <= i < j < keys.len() ==> below(#[trigger] keys[i], #[trigger] keys[j])
}

/// Every key comes strictly before its successor.
pub open spec fn stepwise_ascending<T: PartialOrd>(keys: Seq<T>) -> bool {
    forall|i: int| 0 < i < keys.len() ==> below(#[trigger] keys[i - 1], keys[i])
}

/// A series that can be sampled: at least two keys, in strictly ascending
/// order, and as many values as keys.
pub open spec fn is_series<T: PartialOrd>(keys: Seq<T>, values: Seq<T>) -> bool {
    keys.len() >= 2 && values.len() == keys.len() && ascending(keys)
}

/// Index of the upper sample of the segment that holds `x`, searched from
/// `from` on: the first key at or after `from` that is not below `x`, and the
/// last key when there is none.
pub open spec fn upper_bracket<T: PartialOrd>(x: T, keys: Seq<T>, from: int) -> int
    decreases keys.len() - from,
{
    if from + 1 >= keys.len() || !below(keys[from], x) {
        from
    } else {
        upper_bracket(x, keys, from + 1)
    }
}

/// The point at `x` on the line through `(x0, y0)` and `(x1, y1)`:
/// `y0 + (y1 - y0) / (x1 - x0) * (x - x0)`, evaluated in that order.
pub open spec fn segment_value<T>(x: T, x0: T, x1: T, y0: T, y1: T) -> T where
    T: Add<Output = T> + Sub<Output = T> + Mul<Output = T> + Div<Output = T>,
 {
    y0.add_spec(y1.sub_spec(y0).div_spec(x1.sub_spec(x0)).mul_spec(x.sub_spec(x0)))
}

/// Each operation in [`segment_value`] is allowed on its operands.
pub open spec fn segment_defined<T>(x: T, x0: T, x1: T, y0: T, y1: T) -> bool where
    T: Add<Output = T> + Sub<Output = T> + Mul<Output = T> + Div<Output = T>,
 {
    &&& y1.sub_req(y0)
    &&& x1.sub_req(x0)
    &&& y1.sub_spec(y0).div_req(x1.sub_spec(x0))
    &&& x.sub_req(x0)
    &&& y1.sub_spec(y0).div_spec(x1.sub_spec(x0)).mul_req(x.sub_spec(x0))
    &&& y0.add_req(y1.sub_spec(y0).div_spec(x1.sub_spec(x0)).mul_spec(x.sub_spec(x0)))
}

/// `x` lies after the first key and not after the last one, so that its
/// value is interpolated rather than clamped.
pub open spec fn interior<T: PartialOrd>(x: T, keys: Seq<T>) -> bool {
    !at_most(x, keys[0]) && !below(keys[keys.len() - 1], x)
}

/// The value of the series at `x`.
pub open spec fn lerp_value<T>(x: T, keys: Seq<T>, values: Seq<T>) -> T where
    T: Add<Output = T> + Sub<Output = T> + Mul<Output = T> + Div<Output = T> + PartialOrd,
 {
    if at_most(x, keys[0]) {
        values[0]
    } else if below(keys[keys.len() - 1], x) {
        values[keys.len() - 1]
    } else {
        let i = upper_bracket(x, keys, 1);
        segment_value(x, keys[i - 1], keys[i], values[i - 1], values[i])
    }
}

/// The arithmetic that [`lerp_value`] performs for `x` is allowed: nothing
/// is asked where the value is clamped.
pub open spec fn lerp_defined<T>(x: T, keys: Seq<T>, values: Seq<T>) -> bool where
    T: Add<Output = T> + Sub<Output = T> + Mul<Output = T> + Div<Output = T> + PartialOrd,
 {
    interior(x, keys) ==> {
        let i = upper_bracket(x, keys, 1);
        segment_defined(x, keys[i - 1], keys[i], values[i - 1], values[i])
    }
}

/// What [`upper_bracket`] returns lies between `from` and the last index,
/// every key passed over is below `x`, and the search stopped only at a key
/// that is not below `x` or at the last key.
pub proof fn lemma_upper_bracket<T: PartialOrd>(x: T, keys: Seq<T>, from: int)
    requires
        0 <= from < keys.len(),
    ensures
        from <= upper_bracket(x, keys, from) < keys.len(),
        forall|j: int| from <= j < upper_bracket(x, keys, from) ==> below(#[trigger] keys[j], x),
        upper_bracket(x, keys, from) + 1 == keys.len() || !below(
            keys[upper_bracket(x, keys, from)],
            x,
        ),
    decreases keys.len() - from,
{
    if from + 1 >= keys.len() || !below(keys[from], x) {
    } else {
        lemma_upper_bracket(x, keys, from + 1);
    }
}

/// The segment that a query is interpolated on encloses the query: its
/// upper key is not below `x`, its lower key is below `x` or, for the first
/// segment, is a key that `x` is not at or before. Every key before the
/// lower one is below `x` too.
pub proof fn lemma_bracket_encloses<T: PartialOrd>(x: T, keys: Seq<T>)
    requires
        keys.len() >= 2,
        interior(x, keys),
    ensures
        1 <= upper_bracket(x, keys, 1) < keys.len(),
        !below(keys[upper_bracket(x, keys, 1)], x),
        upper_bracket(x, keys, 1) > 1 ==> below(keys[upper_bracket(x, keys, 1) - 1], x),
        upper_bracket(x, keys, 1) == 1 ==> !at_most(x, keys[0]),
        forall|j: int| 1 <= j < upper_bracket(x, keys, 1) ==> below(#[trigger] keys[j], x),
{
    lemma_upper_bracket(x, keys, 1);
}

/// An index with the properties that [`lemma_upper_bracket`] lists is the
/// one that [`upper_bracket`] returns.
pub proof fn lemma_upper_bracket_unique<T: PartialOrd>(x: T, keys: Seq<T>, from: int, i: int)
    requires
        0 <= from <= i < keys.len(),
        forall|j: int| from <= j < i ==> below(#[trigger] keys[j], x),
        i + 1 == keys.len() || !below(keys[i], x),
    ensures
        upper_bracket(x, keys, from) == i,
    decreases i - from,
{
    if from < i {
        assert(below(keys[from], x));
        lemma_upper_bracket_unique(x, keys, from + 1, i);
    }
}

/// In a lawful order, keys that ascend step by step ascend throughout.
pub proof fn lemma_stepwise_ascending<T: PartialOrd>(keys: Seq<T>)
    requires
        ordered::<T>(),
        stepwise_ascending(keys),
    ensures
        ascending(keys),
{
    assert forall|i: int, j: int| 0 <= i < j < keys.len() implies below(
        #[trigger] keys[i],
        #[trigger] keys[j],
    ) by {
        lemma_stepwise_reaches(keys, i, j);
    }
}

proof fn lemma_stepwise_reaches<T: PartialOrd>(keys: Seq<T>, i: int, j: int)
    requires
        ordered::<T>(),
        stepwise_ascending(keys),
        0 <= i < j < keys.len(),
    ensures
        below(keys[i], keys[j]),
    decreases j - i,
{
    reveal(obeys_partial_cmp_spec_properties);
    assert(below(keys[j - 1], keys[j]));
    if i < j - 1 {
        lemma_stepwise_reaches(keys, i, j - 1);
        assert(below(keys[i], keys[j]));
    }
}

/// In a lawful order, a key below `x` has only keys below `x` before it.
pub proof fn lemma_below_is_downward_closed<T: PartialOrd>(x: T, keys: Seq<T>, i: int, j: int)
    requires
        ordered::<T>(),
        ascending(keys),
        0 <= i <= j < keys.len(),
        below(keys[j], x),
    ensures
        below(keys[i], x),
{
    reveal(obeys_partial_cmp_spec_properties);
    if i < j {
        assert(below(keys[i], keys[j]));
    }
}

/// Before the first key the series has its first value.
pub proof fn lemma_clamped_before<T>(x: T, keys: Seq<T>, values: Seq<T>) where
    T: Add<Output = T> + Sub<Output = T> + Mul<Output = T> + Div<Output = T> + PartialOrd,

    requires
        is_series(keys, values),
        below(x, keys[0]),
    ensures
        lerp_value(x, keys, values) == values[0],
{
}

/// After the last key the series has its last value.
pub proof fn lemma_clamped_after<T>(x: T, keys: Seq<T>, values: Seq<T>) where
    T: Add<Output = T> + Sub<Output = T> + Mul<Output = T> + Div<Output = T> + PartialOrd,

    requires
        is_series(keys, values),
        ordered::<T>(),
        below(keys[keys.len() - 1], x),
    ensures
        lerp_value(x, keys, values) == values[keys.len() - 1],
{
    reveal(obeys_partial_cmp_spec_properties);
    assert(below(keys[0], keys[keys.len() - 1]));
    assert(below(keys[0], x));
}

/// A query that equals key `i` is resolved to the segment that ends at that
/// key, for every key but the first.
pub proof fn lemma_key_is_upper_bracket<T: PartialOrd>(keys: Seq<T>, i: int)
    requires
        ordered::<T>(),
        ascending(keys),
        0 < i < keys.len(),
    ensures
        interior(keys[i], keys),
        upper_bracket(keys[i], keys, 1) == i,
{
    reveal(obeys_partial_cmp_spec_properties);
    assert(below(keys[0], keys[i]));
    if i + 1 < keys.len() {
        assert(below(keys[i], keys[keys.len() - 1]));
    }
    assert forall|j: int| 1 <= j < i implies below(#[trigger] keys[j], keys[i]) by {}
    lemma_upper_bracket_unique(keys[i], keys, 1, i);
}

/// Evaluating the segment at its upper key gives back the upper value. This
/// holds where the arithmetic of `T` is exact on these four numbers, and can
/// fail where a quotient is rounded.
pub open spec fn reproduces_upper<T>(x0: T, x1: T, y0: T, y1: T) -> bool where
    T: Add<Output = T> + Sub<Output = T> + Mul<Output = T> + Div<Output = T>,
 {
    segment_value(x1, x0, x1, y0, y1) == y1
}

/// Sampling a series at one of its keys returns the value stored for that
/// key: at the first key when the key compares equal to itself, at a later
/// key when the segment that ends there reproduces its upper value.
pub proof fn lemma_exact_at_keys<T>(keys: Seq<T>, values: Seq<T>, i: int) where
    T: Add<Output = T> + Sub<Output = T> + Mul<Output = T> + Div<Output = T> + PartialOrd,

    requires
        is_series(keys, values),
        ordered::<T>(),
        0 <= i < keys.len(),
        i == 0 ==> at_most(keys[0], keys[0]),
        i > 0 ==> reproduces_upper(keys[i - 1], keys[i], values[i - 1], values[i]),
    ensures
        lerp_value(keys[i], keys, values) == values[i],
{
    if i > 0 {
        lemma_key_is_upper_bracket(keys, i);
    }
}

/// Why a pair of sequences cannot be sampled.
#[derive(Debug, Clone, Copy, PartialEq, Eq)]
pub enum SeriesError {
    /// Fewer than two keys: there is no segment to interpolate on.
    TooShort,
    /// The number of values differs from the number of keys.
    LengthMismatch,
    /// Some key does not come strictly before its successor.
    NotAscending,
}

/// What [`sample`] returns: the error for the first defect of the series in
/// the order length, matching length, ascent; the sampled value when there is
/// none.
pub open spec fn sample_result<T>(x: T, keys: Seq<T>, values: Seq<T>) -> Result<
    T,
    SeriesError,
> where T: Add<Output = T> + Sub<Output = T> + Mul<Output = T> + Div<Output = T> + PartialOrd {
    if keys.len() < 2 {
        Err(SeriesError::TooShort)
    } else if values.len() != keys.len() {
        Err(SeriesError::LengthMismatch)
    } else if !ascending(keys) {
        Err(SeriesError::NotAscending)
    } else {
        Ok(lerp_value(x, keys, values))
    }
}

/// Tells whether the keys are in strictly ascending order.
pub fn is_ascending<T>(keys: &Vec<T>) -> (b: bool) where T: PartialOrd + Copy
    requires
        ordered::<T>(),
    ensures
        b == ascending(keys@),
{
    let mut i: usize = 1;
    while i < keys.len()
        invariant
            1 <= i,
            ordered::<T>(),
            forall|j: int| 0 < j < i && j < keys.len() ==> below(#[trigger] keys[j - 1], keys[j]),
        decreases keys.len() - i,
    {
        if !(keys[i - 1] < keys[i]) {
            assert(!ascending(keys@)) by {
                if ascending(keys@) {
                    assert(below(keys[i - 1], keys[i as int]));
                }
            }
            return false;
        }
        i += 1;
    }
    proof {
        lemma_stepwise_ascending(keys@);
    }
    true
}

/// Samples the series `(keys, values)` at `x` after checking that it is one.
///
/// A malformed series is rejected with the error that names its first
/// defect; a well-formed one is sampled as [`lerp1d`] does.
pub fn sample<T>(x: T, keys: &Vec<T>, values: &Vec<T>) -> (r: Result<T, SeriesError>) where
    T: Add<Output = T> + Sub<Output = T> + Div<Output = T> + Mul<Output = T> + PartialOrd + Copy,

    requires
        ordered::<T>(),
        exact_ops::<T>(),
        is_series(keys@, values@) ==> lerp_defined(x, keys@, values@),
    ensures
        r == sample_result(x, keys@, values@),
{
    if keys.len() < 2 {
        return Err(SeriesError::TooShort);
    }
    if values.len() != keys.len() {
        return Err(SeriesError::LengthMismatch);
    }
    if !is_ascending(keys) {
        return Err(SeriesError::NotAscending);
    }
    Ok(lerp1d(x, keys, values))
}

/// Samples the series `(x_vec, y_vec)` at `x`.
///
/// At or before the first key the first value is returned, after the last key
/// the last value. In between, the result is interpolated on the segment
/// whose upper sample is the first key that is not below `x`.
pub fn lerp1d<T>(x: T, x_vec: &Vec<T>, y_vec: &Vec<T>) -> (y: T) where
    T: Add<Output = T> + Sub<Output = T> + Div<Output = T> + Mul<Output = T> + PartialOrd + Copy,

    requires
        is_series(x_vec@, y_vec@),
        ordered::<T>(),
        exact_ops::<T>(),
        lerp_defined(x, x_vec@, y_vec@),
    ensures
        y == lerp_value(x, x_vec@, y_vec@),
        below(x, x_vec[0]) ==> y == y_vec[0],
        below(x_vec[x_vec.len() - 1], x) ==> y == y_vec[y_vec.len() - 1],
{
    proof {
        if below(x_vec[x_vec.len() - 1], x) {
            lemma_clamped_after(x, x_vec@, y_vec@);
        }
    }
    let last: usize = x_vec.len() - 1;
    if x <= x_vec[0] {
        return y_vec[0];
    }
    if x_vec[last] < x {
        return y_vec[last];
    }
    let i: usize = search_bracket(x, x_vec);
    on_segment(x, x_vec[i - 1], x_vec[i], y_vec[i - 1], y_vec[i])
}

/// Evaluates the line through `(x0, y0)` and `(x1, y1)` at `x`.
pub fn on_segment<T>(x: T, x0: T, x1: T, y0: T, y1: T) -> (y: T) where
    T: Add<Output = T> + Sub<Output = T> + Div<Output = T> + Mul<Output = T> + Copy,

    requires
        exact_ops::<T>(),
        segment_defined(x, x0, x1, y0, y1),
    ensures
        y == segment_value(x, x0, x1, y0, y1),
{
    y0 + (y1 - y0) / (x1 - x0) * (x - x0)
}

/// Binary search for the upper sample of the segment that holds `x`.
///
/// The result is a valid upper index whatever the comparisons answer; it is
/// the one that [`upper_bracket`] names when the keys ascend in a lawful
/// order and the last key is not below `x`.
pub fn search_bracket<T>(x: T, keys: &Vec<T>) -> (i: usize) where T: PartialOrd + Copy
    requires
        keys.len() >= 2,
    ensures
        1 <= i < keys.len(),
        ordered::<T>() && ascending(keys@) && !below(keys[keys.len() - 1], x) ==> i
            == upper_bracket(x, keys@, 1),
{
    let mut lo: usize = 1;
    let mut hi: usize = keys.len() - 1;
    while lo < hi
        invariant
            1 <= lo <= hi < keys.len(),
            ordered::<T>() && ascending(keys@) ==> forall|j: int|
                1 <= j < lo ==> below(#[trigger] keys[j], x),
            ordered::<T>() && !below(keys[keys.len() - 1], x) ==> !below(keys[hi as int], x),
        decreases hi - lo,
    {
        let mid: usize = lo + (hi - lo) / 2;
        if keys[mid] < x {
            proof {
                if ordered::<T>() && ascending(keys@) {
                    assert forall|j: int| 1 <= j < mid + 1 implies below(#[trigger] keys[j], x) by {
                        lemma_below_is_downward_closed(x, keys@, j, mid as int);
                    }
                }
            }
            lo = mid + 1;
        } else {
            hi = mid;
        }
    }
    proof {
        if ordered::<T>() && ascending(keys@) && !below(keys[keys.len() - 1], x) {
            lemma_upper_bracket_unique(x, keys@, 1, lo as int);
        }
    }
    lo
}

} // verus!
