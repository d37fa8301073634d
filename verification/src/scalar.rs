//! What the library asks of a scalar type.
//!
//! The library computes with any type that has the arithmetic operators, an
//! order and a conversion from small integers. Its contracts speak of such a
//! type through the `spec` functions that vstd attaches to the
//! operator traits: `add_spec` for what `+` returns, `add_req` for when `+`
//! may be applied, and so on. The predicates here collect the assumptions
//! that the operators of `T` really compute those functions; they hold of
//! the integer types, and nothing is known of a type for which vstd does not
//! state them.
use vstd::prelude::*;
use vstd::std_specs::ops::{AddSpec, SubSpec, MulSpec, DivSpec, NegSpec};
use vstd::std_specs::cmp::{PartialEqSpec, PartialOrdSpec};
use vstd::std_specs::convert::FromSpec;
use vstd::laws_cmp::obeys_partial_cmp_spec_properties;
use core::cmp::Ordering;
use core::ops::{Add, Sub, Mul, Div, Neg};

verus! {

/// `a` comes strictly before `b`.
pub open spec fn below<T: PartialOrd>(a: T, b: T) -> bool {
    a.partial_cmp_spec(&b) == Some(Ordering::Less)
}

/// `a` comes strictly after `b`.
pub open spec fn above<T: PartialOrd>(a: T, b: T) -> bool {
    a.partial_cmp_spec(&b) == Some(Ordering::Greater)
}

/// `a` comes before `b` or compares equal to it.
pub open spec fn at_most<T: PartialOrd>(a: T, b: T) -> bool {
    a.partial_cmp_spec(&b) == Some(Ordering::Less) || a.partial_cmp_spec(&b) == Some(
        Ordering::Equal,
    )
}

/// The comparison operators of `T` compute its specified order, and that
/// order is transitive and antisymmetric.
pub open spec fn ordered<T: PartialOrd>() -> bool {
    T::obeys_partial_cmp_spec() && obeys_partial_cmp_spec_properties::<T>()
}

/// The scalar that stands for the small integer `c`.
pub open spec fn constant<T: From<i8>>(c: i8) -> T {
    T::from_spec(c)
}

/// Addition and multiplication of `T` compute their specified results.
pub open spec fn exact_linear<T>() -> bool where T: Add<Output = T> + Mul<Output = T> {
    T::obeys_add_spec() && T::obeys_mul_spec()
}

/// The four arithmetic operators of `T` compute their specified results.
pub open spec fn exact_ops<T>() -> bool where
    T: Add<Output = T> + Sub<Output = T> + Mul<Output = T> + Div<Output = T>,
 {
    T::obeys_add_spec() && T::obeys_sub_spec() && T::obeys_mul_spec() && T::obeys_div_spec()
}

/// Addition, multiplication and division of `T` and its conversion from
/// small integers compute their specified results.
pub open spec fn exact_scalar<T>() -> bool where
    T: Add<Output = T> + Mul<Output = T> + Div<Output = T> + From<i8>,
 {
    T::obeys_add_spec() && T::obeys_mul_spec() && T::obeys_div_spec() && T::obeys_from_spec()
}

/// Every operator that the geometry uses computes its specified result: the
/// four arithmetic operators, negation, the conversion from small integers,
/// equality and the order.
pub open spec fn exact_field<T>() -> bool where
    T: Add<Output = T> + Sub<Output = T> + Mul<Output = T> + Div<Output = T> + Neg<Output = T>
        + From<i8> + PartialOrd,
 {
    &&& exact_ops::<T>()
    &&& T::obeys_neg_spec()
    &&& T::obeys_from_spec()
    &&& T::obeys_eq_spec()
    &&& T::obeys_partial_cmp_spec()
}

/// Every value of `T` compares equal to itself.
pub open spec fn reflexive_eq<T: PartialEq>() -> bool {
    forall|a: T| #[trigger] a.eq_spec(&a)
}

/// Equality of `T` does not depend on the order of its operands.
pub open spec fn symmetric_eq<T: PartialEq>() -> bool {
    forall|a: T, b: T| #[trigger] a.eq_spec(&b) == b.eq_spec(&a)
}

/// Multiplication of `T` does not depend on the order of its operands.
pub open spec fn commutative_mul<T: Mul<Output = T>>() -> bool {
    forall|a: T, b: T| #[trigger] a.mul_spec(b) == b.mul_spec(a)
}

} // verus!
