//! Fixed-step integration of ordinary differential equations.
//!
//! A state is a vector of scalars of fixed dimension. A derivative function
//! maps a state (and, for the Runge-Kutta method, a time) to the rate of
//! change of that state, a vector of the same dimension. The integrators
//! treat it as opaque: they call it, check the dimension of what it returns,
//! and combine the results.
//!
//! The scalar type is a parameter, and so is the derivative function. What a
//! step returns is stated over the vectors that the derivative function may
//! return, and over the specified arithmetic of the scalar type.
use vstd::prelude::*;
use vstd::std_specs::ops::{AddSpec, MulSpec, DivSpec};
use core::ops::{Add, Mul, Div};
use crate::scalar::{constant, exact_linear, exact_scalar};

verus! {

/// A derivative function returned a vector of the wrong dimension.
#[derive(Debug, Clone, Copy, PartialEq, Eq)]
pub struct ShapeError {
    /// Dimension of the state that was handed to the derivative function.
    pub expected: usize,
    /// Dimension of the vector that it returned.
    pub found: usize,
}

/// The state `x + h * k`, component by component.
pub open spec fn advanced<T>(x: Seq<T>, h: T, k: Seq<T>) -> Seq<T> where
    T: Add<Output = T> + Mul<Output = T>,
 {
    Seq::new(x.len(), |i: int| x[i].add_spec(h.mul_spec(k[i])))
}

/// Each operation in [`advanced`] is allowed on its operands.
pub open spec fn advance_defined<T>(x: Seq<T>, h: T, k: Seq<T>) -> bool where
    T: Add<Output = T> + Mul<Output = T>,
 {
    forall|i: int|
        0 <= i < x.len() ==> h.mul_req(#[trigger] k[i]) && x[i].add_req(h.mul_spec(k[i]))
}

/// Moves the state `x` by the step `h` along the rate `k`.
///
/// Fails when `k` has not the dimension of `x`.
pub fn advance<T>(x: &Vec<T>, h: T, k: &Vec<T>) -> (r: Result<Vec<T>, ShapeError>) where
    T: Add<Output = T> + Mul<Output = T> + Copy,

    requires
        exact_linear::<T>(),
        k.len() == x.len() ==> advance_defined(x@, h, k@),
    ensures
        k.len() == x.len() ==> r is Ok && r->Ok_0@ == advanced(x@, h, k@),
        k.len() != x.len() ==> r == Err::<Vec<T>, ShapeError>(
            ShapeError { expected: x.len(), found: k.len() },
        ),
{
    let n: usize = x.len();
    if k.len() != n {
        return Err(ShapeError { expected: n, found: k.len() });
    }
    let mut next: Vec<T> = Vec::with_capacity(n);
    let mut i: usize = 0;
    while i < n
        invariant
            i <= n,
            n == x.len(),
            n == k.len(),
            exact_linear::<T>(),
            advance_defined(x@, h, k@),
            next.len() == i,
            forall|j: int| 0 <= j < i ==> next[j] == x[j].add_spec(h.mul_spec(k[j])),
        decreases n - i,
    {
        assert(h.mul_req(k@[i as int]));
        next.push(x[i] + h * k[i]);
        i += 1;
    }
    assert(next@ =~= advanced(x@, h, k@));
    Ok(next)
}

/// The autonomous derivative function `f` may be called on every vector
/// that holds `v`.
pub open spec fn accepts_state<T, F: Fn(&Vec<T>) -> Vec<T>>(f: F, v: Seq<T>) -> bool {
    forall|w: Vec<T>| w@ == v ==> #[trigger] call_requires(f, (&w,))
}

/// `k` is among the rates that the autonomous derivative function `f` may
/// return for the state `v`.
pub open spec fn may_rate<T, F: Fn(&Vec<T>) -> Vec<T>>(f: F, v: Seq<T>, k: Seq<T>) -> bool {
    exists|w: Vec<T>, r: Vec<T>| w@ == v && r@ == k && #[trigger] call_ensures(f, (&w,), r)
}

/// The explicit Euler method for an autonomous system: one evaluation of the
/// derivative function per step, `x + dt * f(x)`.
pub struct Euler<T, F> {
    dt: T,
    f: F,
}

impl<T, F> Euler<T, F> where T: Add<Output = T> + Mul<Output = T> + Copy, F: Fn(&Vec<T>) -> Vec<T> {
    /// The step size.
    pub closed spec fn step(&self) -> T {
        self.dt
    }

    /// The derivative function.
    pub closed spec fn rate(&self) -> F {
        self.f
    }

    /// The arithmetic of one step from `x` is allowed, whatever rate of the
    /// right dimension the derivative function returns, and the derivative
    /// function may be called on `x`.
    pub open spec fn defined_at(&self, x: Seq<T>) -> bool {
        &&& accepts_state(self.rate(), x)
        &&& forall|k: Seq<T>| #[trigger]
            may_rate(self.rate(), x, k) && k.len() == x.len() ==> advance_defined(
                x,
                self.step(),
                k,
            )
    }

    /// An integrator with step size `dt` for the system `f`.
    pub fn new(dt: T, f: F) -> (e: Self)
        ensures
            e.step() == dt,
            e.rate() == f,
    {
        Euler { dt, f }
    }

    /// Advances the state `x` by one step.
    ///
    /// The result is `x + dt * k` for a rate `k` that the derivative function
    /// returned for `x`. When that rate has not the dimension of `x`, the
    /// step fails and reports both dimensions.
    pub fn propogate(&self, x: &Vec<T>) -> (r: Result<Vec<T>, ShapeError>)
        requires
            exact_linear::<T>(),
            self.defined_at(x@),
        ensures
            match r {
                Ok(next) => exists|k: Seq<T>|
                    {
                        &&& #[trigger] may_rate(self.rate(), x@, k)
                        &&& k.len() == x.len()
                        &&& next@ == advanced(x@, self.step(), k)
                    },
                Err(e) => exists|k: Seq<T>|
                    {
                        &&& #[trigger] may_rate(self.rate(), x@, k)
                        &&& k.len() != x.len()
                        &&& e == (ShapeError { expected: x.len(), found: k.len() as usize })
                    },
            },
            (forall|k: Seq<T>| #[trigger] may_rate(self.rate(), x@, k) ==> k.len() == x.len())
                ==> r is Ok,
            (forall|k: Seq<T>| #[trigger] may_rate(self.rate(), x@, k) ==> k.len() != x.len())
                ==> r is Err,
    {
        let k: Vec<T> = (self.f)(x);
        assert(may_rate(self.rate(), x@, k@));
        advance(x, self.dt, &k)
    }
}

/// Half the step `dt`.
pub open spec fn half_step<T>(dt: T) -> T where T: Div<Output = T> + From<i8> {
    dt.div_spec(constant::<T>(2))
}

/// A sixth of the step `dt`.
pub open spec fn sixth_step<T>(dt: T) -> T where T: Div<Output = T> + From<i8> {
    dt.div_spec(constant::<T>(6))
}

/// The weighted sum of the four stage rates for one component:
/// `k1 + 2 * k2 + 2 * k3 + k4`, added from left to right.
pub open spec fn weighted_rate<T>(k1: T, k2: T, k3: T, k4: T) -> T where
    T: Add<Output = T> + Mul<Output = T> + From<i8>,
 {
    k1.add_spec(constant::<T>(2).mul_spec(k2)).add_spec(constant::<T>(2).mul_spec(k3)).add_spec(
        k4,
    )
}

/// Each operation in [`weighted_rate`] is allowed on its operands.
pub open spec fn weighted_rate_defined<T>(k1: T, k2: T, k3: T, k4: T) -> bool where
    T: Add<Output = T> + Mul<Output = T> + From<i8>,
 {
    &&& constant::<T>(2).mul_req(k2)
    &&& k1.add_req(constant::<T>(2).mul_spec(k2))
    &&& constant::<T>(2).mul_req(k3)
    &&& k1.add_spec(constant::<T>(2).mul_spec(k2)).add_req(constant::<T>(2).mul_spec(k3))
    &&& k1.add_spec(constant::<T>(2).mul_spec(k2)).add_spec(
        constant::<T>(2).mul_spec(k3),
    ).add_req(k4)
}

/// The state after one step of the classical Runge-Kutta method from `x`,
/// given the four stage rates:
/// `x + dt / 6 * (k1 + 2 * k2 + 2 * k3 + k4)`, component by component.
pub open spec fn combined<T>(x: Seq<T>, dt: T, k1: Seq<T>, k2: Seq<T>, k3: Seq<T>, k4: Seq<T>) -> Seq<
    T,
> where T: Add<Output = T> + Mul<Output = T> + Div<Output = T> + From<i8> {
    Seq::new(
        x.len(),
        |i: int|
            x[i].add_spec(sixth_step(dt).mul_spec(weighted_rate(k1[i], k2[i], k3[i], k4[i]))),
    )
}

/// Each operation in [`combined`] is allowed on its operands.
pub open spec fn combine_defined<T>(
    x: Seq<T>,
    dt: T,
    k1: Seq<T>,
    k2: Seq<T>,
    k3: Seq<T>,
    k4: Seq<T>,
) -> bool where T: Add<Output = T> + Mul<Output = T> + Div<Output = T> + From<i8> {
    &&& dt.div_req(constant::<T>(6))
    &&& forall|i: int|
        0 <= i < x.len() ==> {
            &&& weighted_rate_defined(k1[i], k2[i], k3[i], #[trigger] k4[i])
            &&& sixth_step(dt).mul_req(weighted_rate(k1[i], k2[i], k3[i], k4[i]))
            &&& x[i].add_req(sixth_step(dt).mul_spec(weighted_rate(k1[i], k2[i], k3[i], k4[i])))
        }
}

/// The first of the four stage rates that has not the dimension `n`, if
/// there is one, as the error that reports it.
pub open spec fn first_misshapen<T>(n: usize, k1: Seq<T>, k2: Seq<T>, k3: Seq<T>, k4: Seq<T>) -> Option<
    ShapeError,
> {
    if k1.len() != n {
        Some(ShapeError { expected: n, found: k1.len() as usize })
    } else if k2.len() != n {
        Some(ShapeError { expected: n, found: k2.len() as usize })
    } else if k3.len() != n {
        Some(ShapeError { expected: n, found: k3.len() as usize })
    } else if k4.len() != n {
        Some(ShapeError { expected: n, found: k4.len() as usize })
    } else {
        None
    }
}

/// Combines the four stage rates of the classical Runge-Kutta method into
/// the next state.
///
/// Fails when a rate has not the dimension of `x`, and reports the first
/// such rate.
pub fn combine<T>(x: &Vec<T>, dt: T, k1: &Vec<T>, k2: &Vec<T>, k3: &Vec<T>, k4: &Vec<T>) -> (r:
    Result<Vec<T>, ShapeError>) where
    T: Add<Output = T> + Mul<Output = T> + Div<Output = T> + From<i8> + Copy,

    requires
        exact_scalar::<T>(),
        first_misshapen(x.len(), k1@, k2@, k3@, k4@) is None ==> combine_defined(
            x@,
            dt,
            k1@,
            k2@,
            k3@,
            k4@,
        ),
    ensures
        match first_misshapen(x.len(), k1@, k2@, k3@, k4@) {
            Some(e) => r == Err::<Vec<T>, ShapeError>(e),
            None => r is Ok && r->Ok_0@ == combined(x@, dt, k1@, k2@, k3@, k4@),
        },
{
    let n: usize = x.len();
    if k1.len() != n {
        return Err(ShapeError { expected: n, found: k1.len() });
    }
    if k2.len() != n {
        return Err(ShapeError { expected: n, found: k2.len() });
    }
    if k3.len() != n {
        return Err(ShapeError { expected: n, found: k3.len() });
    }
    if k4.len() != n {
        return Err(ShapeError { expected: n, found: k4.len() });
    }
    let two: T = T::from(2i8);
    let sixth: T = dt / T::from(6i8);
    let mut next: Vec<T> = Vec::with_capacity(n);
    let mut i: usize = 0;
    while i < n
        invariant
            i <= n,
            n == x.len(),
            n == k1.len(),
            n == k2.len(),
            n == k3.len(),
            n == k4.len(),
            exact_scalar::<T>(),
            combine_defined(x@, dt, k1@, k2@, k3@, k4@),
            two == constant::<T>(2),
            sixth == sixth_step(dt),
            next.len() == i,
            forall|j: int|
                0 <= j < i ==> next[j] == x[j].add_spec(
                    sixth_step(dt).mul_spec(weighted_rate(k1[j], k2[j], k3[j], k4[j])),
                ),
        decreases n - i,
    {
        assert(weighted_rate_defined(k1@[i as int], k2@[i as int], k3@[i as int], k4@[i as int]));
        let w: T = k1[i] + two * k2[i] + two * k3[i] + k4[i];
        next.push(x[i] + sixth * w);
        i += 1;
    }
    assert(next@ =~= combined(x@, dt, k1@, k2@, k3@, k4@));
    Ok(next)
}

/// The derivative function `f` may be called at time `s` on every vector
/// that holds `v`.
pub open spec fn accepts<T, F: Fn(T, &Vec<T>) -> Vec<T>>(f: F, s: T, v: Seq<T>) -> bool {
    forall|w: Vec<T>| w@ == v ==> #[trigger] call_requires(f, (s, &w))
}

/// `k` is among the rates that the derivative function `f` may return at
/// time `s` for the state `v`.
pub open spec fn may_yield<T, F: Fn(T, &Vec<T>) -> Vec<T>>(f: F, s: T, v: Seq<T>, k: Seq<T>) -> bool {
    exists|w: Vec<T>, r: Vec<T>| w@ == v && r@ == k && #[trigger] call_ensures(f, (s, &w), r)
}

/// The derivative function `f` returns one rate for each time and state:
/// whatever it may return for the same arguments is the same vector.
pub open spec fn deterministic<T, F: Fn(T, &Vec<T>) -> Vec<T>>(f: F) -> bool {
    forall|s: T, v: Seq<T>, k: Seq<T>, j: Seq<T>|
        #![trigger may_yield(f, s, v, k), may_yield(f, s, v, j)]
        may_yield(f, s, v, k) && may_yield(f, s, v, j) ==> k == j
}

/// The classical four-stage Runge-Kutta method: four evaluations of the
/// derivative function per step.
pub struct RK4<T, F> {
    dt: T,
    f: F,
}

impl<T, F> RK4<T, F> where
    T: Add<Output = T> + Mul<Output = T> + Div<Output = T> + From<i8> + Copy,
    F: Fn(T, &Vec<T>) -> Vec<T>,
 {
    /// The step size.
    pub closed spec fn step(&self) -> T {
        self.dt
    }

    /// The derivative function.
    pub closed spec fn rate(&self) -> F {
        self.f
    }

    /// The time of the two middle stages of a step that starts at `t`.
    pub open spec fn mid_time(&self, t: T) -> T {
        t.add_spec(half_step(self.step()))
    }

    /// The time of the last stage of a step that starts at `t`.
    pub open spec fn end_time(&self, t: T) -> T {
        t.add_spec(self.step())
    }

    /// `k1` may be the rate of the first stage of a step from `(t, x)`.
    pub open spec fn first_stage(&self, t: T, x: Seq<T>, k1: Seq<T>) -> bool {
        may_yield(self.rate(), t, x, k1)
    }

    /// `k2` may be the rate of the second stage, after the first stage
    /// returned `k1`.
    pub open spec fn second_stage(&self, t: T, x: Seq<T>, k1: Seq<T>, k2: Seq<T>) -> bool {
        may_yield(self.rate(), self.mid_time(t), advanced(x, half_step(self.step()), k1), k2)
    }

    /// `k3` may be the rate of the third stage, after the second stage
    /// returned `k2`.
    pub open spec fn third_stage(&self, t: T, x: Seq<T>, k2: Seq<T>, k3: Seq<T>) -> bool {
        may_yield(self.rate(), self.mid_time(t), advanced(x, half_step(self.step()), k2), k3)
    }

    /// `k4` may be the rate of the fourth stage, after the third stage
    /// returned `k3`.
    pub open spec fn fourth_stage(&self, t: T, x: Seq<T>, k3: Seq<T>, k4: Seq<T>) -> bool {
        may_yield(self.rate(), self.end_time(t), advanced(x, self.step(), k3), k4)
    }

    /// Once the first three stages returned `k1`, `k2` and `k3`, the rest of
    /// the step is allowed: the fourth state can be formed and handed to the
    /// derivative function, and whatever rate of the right dimension comes
    /// back can be combined with the others.
    pub open spec fn defined_after_third(
        &self,
        t: T,
        x: Seq<T>,
        k1: Seq<T>,
        k2: Seq<T>,
        k3: Seq<T>,
    ) -> bool {
        &&& advance_defined(x, self.step(), k3)
        &&& accepts(self.rate(), self.end_time(t), advanced(x, self.step(), k3))
        &&& forall|k4: Seq<T>| #[trigger]
            self.fourth_stage(t, x, k3, k4) && k4.len() == x.len() ==> combine_defined(
                x,
                self.step(),
                k1,
                k2,
                k3,
                k4,
            )
    }

    /// Once the first two stages returned `k1` and `k2`, the rest of the
    /// step is allowed.
    pub open spec fn defined_after_second(&self, t: T, x: Seq<T>, k1: Seq<T>, k2: Seq<T>) -> bool {
        &&& advance_defined(x, half_step(self.step()), k2)
        &&& accepts(self.rate(), self.mid_time(t), advanced(x, half_step(self.step()), k2))
        &&& forall|k3: Seq<T>| #[trigger]
            self.third_stage(t, x, k2, k3) && k3.len() == x.len() ==> self.defined_after_third(
                t,
                x,
                k1,
                k2,
                k3,
            )
    }

    /// Once the first stage returned `k1`, the rest of the step is allowed.
    pub open spec fn defined_after_first(&self, t: T, x: Seq<T>, k1: Seq<T>) -> bool {
        &&& advance_defined(x, half_step(self.step()), k1)
        &&& accepts(self.rate(), self.mid_time(t), advanced(x, half_step(self.step()), k1))
        &&& forall|k2: Seq<T>| #[trigger]
            self.second_stage(t, x, k1, k2) && k2.len() == x.len() ==> self.defined_after_second(
                t,
                x,
                k1,
                k2,
            )
    }

    /// A step from `(t, x)` is allowed: the two stage times can be formed,
    /// the derivative function may be called at each stage, and the
    /// arithmetic on the states is allowed, whatever rates of the right
    /// dimension the derivative function returns.
    pub open spec fn defined_at(&self, t: T, x: Seq<T>) -> bool {
        &&& self.step().div_req(constant::<T>(2))
        &&& t.add_req(half_step(self.step()))
        &&& t.add_req(self.step())
        &&& accepts(self.rate(), t, x)
        &&& forall|k1: Seq<T>| #[trigger]
            self.first_stage(t, x, k1) && k1.len() == x.len() ==> self.defined_after_first(
                t,
                x,
                k1,
            )
    }

    /// The four rates are what the four stages of a step from `(t, x)` may
    /// return, each stage starting from the state that the one before led
    /// to, and each has the dimension of `x`.
    pub open spec fn is_trace(
        &self,
        t: T,
        x: Seq<T>,
        k1: Seq<T>,
        k2: Seq<T>,
        k3: Seq<T>,
        k4: Seq<T>,
    ) -> bool {
        &&& self.first_stage(t, x, k1) && k1.len() == x.len()
        &&& self.second_stage(t, x, k1, k2) && k2.len() == x.len()
        &&& self.third_stage(t, x, k2, k3) && k3.len() == x.len()
        &&& self.fourth_stage(t, x, k3, k4) && k4.len() == x.len()
    }

    /// Some stage of a step from `(t, x)` may return a rate of dimension
    /// `found`, which is not that of `x`, after all stages before it
    /// returned rates of the right dimension.
    pub open spec fn is_fault(&self, t: T, x: Seq<T>, found: nat) -> bool {
        &&& found != x.len()
        &&& exists|k1: Seq<T>| #[trigger]
            self.first_stage(t, x, k1) && {
                ||| k1.len() == found
                ||| k1.len() == x.len() && exists|k2: Seq<T>| #[trigger]
                    self.second_stage(t, x, k1, k2) && {
                        ||| k2.len() == found
                        ||| k2.len() == x.len() && exists|k3: Seq<T>| #[trigger]
                            self.third_stage(t, x, k2, k3) && {
                                ||| k3.len() == found
                                ||| k3.len() == x.len() && exists|k4: Seq<T>| #[trigger]
                                    self.fourth_stage(t, x, k3, k4) && k4.len() == found
                            }
                    }
            }
    }

    /// With a derivative function that returns one rate for each time and
    /// state, a step is a function of the time and the state: two runs from
    /// the same `(t, x)` pass through the same four rates and end in the
    /// same state.
    pub proof fn lemma_step_is_repeatable(
        &self,
        t: T,
        x: Seq<T>,
        k1: Seq<T>,
        k2: Seq<T>,
        k3: Seq<T>,
        k4: Seq<T>,
        j1: Seq<T>,
        j2: Seq<T>,
        j3: Seq<T>,
        j4: Seq<T>,
    )
        requires
            deterministic(self.rate()),
            self.is_trace(t, x, k1, k2, k3, k4),
            self.is_trace(t, x, j1, j2, j3, j4),
        ensures
            k1 == j1,
            k2 == j2,
            k3 == j3,
            k4 == j4,
            combined(x, self.step(), k1, k2, k3, k4) == combined(x, self.step(), j1, j2, j3, j4),
    {
        assert(k1 == j1);
        assert(k2 == j2);
        assert(k3 == j3);
        assert(k4 == j4);
    }

    /// An integrator with step size `dt` for the system `f`.
    pub fn new(dt: T, f: F) -> (rk4: Self)
        ensures
            rk4.step() == dt,
            rk4.rate() == f,
    {
        RK4 { dt, f }
    }

    /// Advances the state `x` at time `t` by one step.
    ///
    /// The derivative function is called at `(t, x)`, twice at the middle
    /// time and once at the end time, each time on `x` moved along the rate
    /// of the stage before. The result combines the four rates. When a stage
    /// returns a rate that has not the dimension of `x`, the step fails at
    /// that stage and reports both dimensions.
    pub fn propogate(&self, t: T, x: &Vec<T>) -> (r: Result<Vec<T>, ShapeError>)
        requires
            exact_scalar::<T>(),
            self.defined_at(t, x@),
        ensures
            match r {
                Ok(next) => exists|k1: Seq<T>, k2: Seq<T>, k3: Seq<T>, k4: Seq<T>|
                    {
                        &&& #[trigger] self.is_trace(t, x@, k1, k2, k3, k4)
                        &&& next@ == combined(x@, self.step(), k1, k2, k3, k4)
                    },
                Err(e) => e.expected == x.len() && self.is_fault(t, x@, e.found as nat),
            },
            (forall|s: T, v: Seq<T>, k: Seq<T>| #[trigger]
                may_yield(self.rate(), s, v, k) ==> k.len() == v.len()) ==> r is Ok,
            (forall|k: Seq<T>| #[trigger] self.first_stage(t, x@, k) ==> k.len() != x.len())
                ==> r is Err,
    {
        let half: T = self.dt / T::from(2i8);
        let k1: Vec<T> = (self.f)(t, x);
        assert(self.first_stage(t, x@, k1@));
        let x2: Vec<T> = match advance(x, half, &k1) {
            Ok(v) => v,
            Err(e) => {
                return Err(e);
            },
        };
        let k2: Vec<T> = (self.f)(t + half, &x2);
        assert(self.second_stage(t, x@, k1@, k2@));
        let x3: Vec<T> = match advance(x, half, &k2) {
            Ok(v) => v,
            Err(e) => {
                return Err(e);
            },
        };
        let k3: Vec<T> = (self.f)(t + half, &x3);
        assert(self.third_stage(t, x@, k2@, k3@));
        let x4: Vec<T> = match advance(x, self.dt, &k3) {
            Ok(v) => v,
            Err(e) => {
                return Err(e);
            },
        };
        let k4: Vec<T> = (self.f)(t + self.dt, &x4);
        assert(self.fourth_stage(t, x@, k3@, k4@));
        let r = combine(x, self.dt, &k1, &k2, &k3, &k4);
        proof {
            if k4.len() == x.len() {
                assert(self.is_trace(t, x@, k1@, k2@, k3@, k4@));
            } else {
                assert(first_misshapen(x.len(), k1@, k2@, k3@, k4@) == Some(
                    ShapeError { expected: x.len(), found: k4.len() },
                ));
                assert(self.is_fault(t, x@, k4.len() as nat));
            }
        }
        r
    }
}

} // verus!
