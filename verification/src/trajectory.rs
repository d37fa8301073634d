//! Recorded trajectories: the positions of several bodies over time, and
//! their resampling at the time of an animation frame.
use vstd::prelude::*;
use core::ops::{Add, Sub, Mul, Div};
use crate::integrate::ShapeError;
use crate::interpolate::{is_series, lerp1d, lerp_defined, lerp_value};
use crate::scalar::{exact_ops, ordered};

verus! {

/// The positions of one body at successive times, one vector for each
/// coordinate.
#[derive(Debug, Clone, Default, PartialEq)]
pub struct XyzHistory<T> {
    pub x: Vec<T>,
    pub y: Vec<T>,
    pub z: Vec<T>,
}

impl<T> XyzHistory<T> {
    /// The three coordinate vectors have the same length.
    pub open spec fn well_formed(&self) -> bool {
        self.x.len() == self.y.len() && self.y.len() == self.z.len()
    }

    /// The number of recorded times.
    pub open spec fn length(&self) -> nat {
        self.x@.len()
    }

    /// The position at the recorded time of index `k`.
    pub open spec fn at(&self, k: int) -> Seq<T> {
        seq![self.x[k], self.y[k], self.z[k]]
    }

}

/// The number of bodies in a record that lists, for each time, the
/// position of each body: the number of positions at the first time, and
/// zero for an empty record.
pub open spec fn body_count<T>(points_by_time: Seq<Vec<[T; 3]>>) -> nat {
    if points_by_time.len() == 0 {
        0
    } else {
        points_by_time[0]@.len()
    }
}

/// Every time of the record lists as many positions as the first.
pub open spec fn rectangular<T>(points_by_time: Seq<Vec<[T; 3]>>) -> bool {
    forall|k: int|
        0 <= k < points_by_time.len() ==> (#[trigger] points_by_time[k])@.len() == body_count(
            points_by_time,
        )
}

/// Index of the first time that lists another number of positions than the
/// first time, searched from `from` on; the length of the record when there
/// is none.
pub open spec fn first_ragged<T>(points_by_time: Seq<Vec<[T; 3]>>, from: int) -> int
    decreases points_by_time.len() - from,
{
    if from >= points_by_time.len() || points_by_time[from]@.len() != body_count(points_by_time) {
        from
    } else {
        first_ragged(points_by_time, from + 1)
    }
}

/// `histories` holds the record `points_by_time` body by body: one history
/// for each body, as long as the record, with the same coordinates.
pub open spec fn is_transposed<T>(
    histories: Seq<XyzHistory<T>>,
    points_by_time: Seq<Vec<[T; 3]>>,
) -> bool {
    &&& histories.len() == body_count(points_by_time)
    &&& forall|i: int|
        0 <= i < histories.len() ==> {
            &&& (#[trigger] histories[i]).well_formed()
            &&& histories[i].length() == points_by_time.len()
        }
    &&& forall|i: int, k: int|
        0 <= i < histories.len() && 0 <= k < points_by_time.len() ==> (#[trigger] histories[i].at(
            k,
        )) == points_by_time[k]@[i]@
}

/// What [`first_ragged`] returns is an index of the record or its length,
/// every time before it lists as many positions as the first, and the time
/// at it, if there is one, does not.
pub proof fn lemma_first_ragged<T>(points_by_time: Seq<Vec<[T; 3]>>, from: int)
    requires
        0 <= from <= points_by_time.len(),
    ensures
        from <= first_ragged(points_by_time, from) <= points_by_time.len(),
        forall|k: int|
            from <= k < first_ragged(points_by_time, from) ==> (#[trigger] points_by_time[k])@.len()
                == body_count(points_by_time),
        first_ragged(points_by_time, from) < points_by_time.len() ==> points_by_time[first_ragged(
            points_by_time,
            from,
        )]@.len() != body_count(points_by_time),
    decreases points_by_time.len() - from,
{
    if from >= points_by_time.len() || points_by_time[from]@.len() != body_count(points_by_time) {
    } else {
        lemma_first_ragged(points_by_time, from + 1);
    }
}

/// A record is rectangular exactly when no time of it is ragged.
pub proof fn lemma_rectangular_iff_no_ragged<T>(points_by_time: Seq<Vec<[T; 3]>>)
    ensures
        rectangular(points_by_time) <==> first_ragged(points_by_time, 0) == points_by_time.len(),
{
    lemma_first_ragged(points_by_time, 0);
}

/// Checks that every time of the record lists as many positions as the
/// first, and reports the first time that does not.
pub fn check_rectangular<T>(points_by_time: &Vec<Vec<[T; 3]>>) -> (r: Result<(), ShapeError>)
    ensures
        rectangular(points_by_time@) <==> r is Ok,
        r is Err ==> r->Err_0 == (ShapeError {
            expected: body_count(points_by_time@) as usize,
            found: points_by_time[first_ragged(points_by_time@, 0)].len(),
        }),
{
    let n: usize = points_by_time.len();
    if n == 0 {
        return Ok(());
    }
    let m: usize = points_by_time[0].len();
    let mut k: usize = 0;
    while k < n
        invariant
            k <= n,
            n == points_by_time.len(),
            m == body_count(points_by_time@),
            first_ragged(points_by_time@, 0) == first_ragged(points_by_time@, k as int),
            forall|j: int| 0 <= j < k ==> (#[trigger] points_by_time[j])@.len() == m,
        decreases n - k,
    {
        if points_by_time[k].len() != m {
            proof {
                lemma_rectangular_iff_no_ragged(points_by_time@);
            }
            return Err(ShapeError { expected: m, found: points_by_time[k].len() });
        }
        k += 1;
    }
    Ok(())
}

/// The history of body `i` in a rectangular record.
pub fn history_of<T: Copy>(points_by_time: &Vec<Vec<[T; 3]>>, i: usize) -> (h: XyzHistory<T>)
    requires
        rectangular(points_by_time@),
        i < body_count(points_by_time@),
    ensures
        h.well_formed(),
        h.length() == points_by_time.len(),
        forall|k: int| 0 <= k < points_by_time.len() ==> #[trigger] h.at(k) == points_by_time[k]@[i as int]@,
{
    let n: usize = points_by_time.len();
    let mut x: Vec<T> = Vec::with_capacity(n);
    let mut y: Vec<T> = Vec::with_capacity(n);
    let mut z: Vec<T> = Vec::with_capacity(n);
    let mut k: usize = 0;
    while k < n
        invariant
            k <= n,
            n == points_by_time.len(),
            rectangular(points_by_time@),
            i < body_count(points_by_time@),
            x.len() == k,
            y.len() == k,
            z.len() == k,
            forall|j: int|
                0 <= j < k ==> {
                    &&& #[trigger] x[j] == points_by_time[j]@[i as int]@[0]
                    &&& y[j] == points_by_time[j]@[i as int]@[1]
                    &&& z[j] == points_by_time[j]@[i as int]@[2]
                },
        decreases n - k,
    {
        assert(points_by_time[k as int]@.len() == body_count(points_by_time@));
        let p: &[T; 3] = &points_by_time[k][i];
        x.push(p[0]);
        y.push(p[1]);
        z.push(p[2]);
        k += 1;
    }
    let h = XyzHistory { x, y, z };
    assert forall|k: int| 0 <= k < points_by_time.len() implies #[trigger] h.at(k)
        == points_by_time[k]@[i as int]@ by {
        assert(h.x[k] == points_by_time[k]@[i as int]@[0]);
        assert(h.at(k) =~= points_by_time[k]@[i as int]@);
    }
    h
}

/// Turns a record that lists, for each time, the position of each body
/// into one history for each body.
///
/// Fails when some time lists another number of positions than the first,
/// and reports the first such time. An empty record has no bodies.
pub fn transpose<T: Copy>(points_by_time: &Vec<Vec<[T; 3]>>) -> (r: Result<
    Vec<XyzHistory<T>>,
    ShapeError,
>)
    ensures
        rectangular(points_by_time@) <==> r is Ok,
        r is Ok ==> is_transposed(r->Ok_0@, points_by_time@),
        r is Err ==> r->Err_0 == (ShapeError {
            expected: body_count(points_by_time@) as usize,
            found: points_by_time[first_ragged(points_by_time@, 0)].len(),
        }),
{
    match check_rectangular(points_by_time) {
        Err(e) => {
            return Err(e);
        },
        Ok(()) => {},
    }
    let m: usize = if points_by_time.len() == 0 {
        0
    } else {
        points_by_time[0].len()
    };
    let mut histories: Vec<XyzHistory<T>> = Vec::with_capacity(m);
    let mut i: usize = 0;
    while i < m
        invariant
            i <= m,
            m == body_count(points_by_time@),
            rectangular(points_by_time@),
            histories.len() == i,
            forall|j: int|
                0 <= j < i ==> {
                    &&& (#[trigger] histories[j]).well_formed()
                    &&& histories[j].length() == points_by_time.len()
                },
            forall|j: int, k: int|
                0 <= j < i && 0 <= k < points_by_time.len() ==> (#[trigger] histories[j].at(k))
                    == points_by_time[k]@[j]@,
        decreases m - i,
    {
        let h: XyzHistory<T> = history_of(points_by_time, i);
        histories.push(h);
        i += 1;
    }
    Ok(histories)
}

/// The position of a body at `time`: each coordinate of its history
/// sampled on its own over the common `timestamps`.
pub open spec fn location_at<T>(time: T, timestamps: Seq<T>, history: XyzHistory<T>) -> Seq<T> where
    T: Add<Output = T> + Sub<Output = T> + Mul<Output = T> + Div<Output = T> + PartialOrd,
 {
    seq![
        lerp_value(time, timestamps, history.x@),
        lerp_value(time, timestamps, history.y@),
        lerp_value(time, timestamps, history.z@),
    ]
}

/// The arithmetic of [`location_at`] is allowed for each coordinate.
pub open spec fn location_defined<T>(time: T, timestamps: Seq<T>, history: XyzHistory<T>) -> bool where
    T: Add<Output = T> + Sub<Output = T> + Mul<Output = T> + Div<Output = T> + PartialOrd,
 {
    &&& lerp_defined(time, timestamps, history.x@)
    &&& lerp_defined(time, timestamps, history.y@)
    &&& lerp_defined(time, timestamps, history.z@)
}

/// Where a body is at `time`, interpolated between the recorded positions
/// before and after it.
pub fn interp_location<T>(time: T, timestamps: &Vec<T>, history: &XyzHistory<T>) -> (p: [T; 3]) where
    T: Add<Output = T> + Sub<Output = T> + Div<Output = T> + Mul<Output = T> + PartialOrd + Copy,

    requires
        is_series(timestamps@, history.x@),
        history.well_formed(),
        ordered::<T>(),
        exact_ops::<T>(),
        location_defined(time, timestamps@, *history),
    ensures
        p@ == location_at(time, timestamps@, *history),
{
    let x: T = lerp1d(time, timestamps, &history.x);
    let y: T = lerp1d(time, timestamps, &history.y);
    let z: T = lerp1d(time, timestamps, &history.z);
    let p: [T; 3] = [x, y, z];
    assert(p@ =~= location_at(time, timestamps@, *history));
    p
}

/// Tells whether every series has the length `n`.
pub fn all_of_length<T>(series: &Vec<Vec<T>>, n: usize) -> (b: bool)
    ensures
        b <==> forall|i: int| 0 <= i < series.len() ==> (#[trigger] series[i]).len() == n,
{
    let mut i: usize = 0;
    while i < series.len()
        invariant
            i <= series.len(),
            forall|j: int| 0 <= j < i ==> (#[trigger] series[j]).len() == n,
        decreases series.len() - i,
    {
        if series[i].len() != n {
            return false;
        }
        i += 1;
    }
    true
}

} // verus!
