//! Laws that hold between the operations on computable reals, each proved
//! from the contracts of the operations that it relates.
//!
//! A law speaks of the operations through `call_ensures`: `call_ensures(f,
//! args, result)` says that `result` is something that `f` may return for
//! `args`.

use crate::computable::Real;
use crate::expression::{distance, tolerance};
use crate::rational::{integer_value, rational_value};
use num::bigint::BigInt;
use num::rational::BigRational;
use std::ops::{Add, Neg};
use vstd::prelude::*;

verus! {

/// Constant fidelity: the number made from the integer `k` evaluates to
/// exactly `k`, at every precision.
pub proof fn lemma_constant_fidelity(k: i32, constant: Real, n: BigInt, of_constant: BigRational)
    requires
        call_ensures(<Real as From<i32>>::from, (k,), constant),
        call_ensures(Real::approx, (constant, n), of_constant),
    ensures
        rational_value(of_constant) == k as real,
        constant@.value() == k as real,
{
}

/// Negation accuracy: the negation of a number evaluates to exactly the
/// negated evaluation of the number at the same precision.
pub proof fn lemma_negation_exact(
    x: Real,
    negation: Real,
    n: BigInt,
    of_x: BigRational,
    of_negation: BigRational,
)
    requires
        call_ensures(<Real as Neg>::neg, (x,), negation),
        call_ensures(Real::approx, (x, n), of_x),
        call_ensures(Real::approx, (negation, n), of_negation),
    ensures
        rational_value(of_negation) == -rational_value(of_x),
        negation@.value() == -x@.value(),
{
}

/// Addition rule: a sum evaluates, at precision `n`, to the sum of what its
/// operands evaluate to at the operand precision of `n`, which is `2 * n`.
pub proof fn lemma_sum_doubles_precision(
    x: Real,
    y: Real,
    sum: Real,
    n: BigInt,
    doubled: BigInt,
    of_x: BigRational,
    of_y: BigRational,
    of_sum: BigRational,
)
    requires
        call_ensures(<Real as Add<Real>>::add, (x, y), sum),
        call_ensures(Real::operand_precision, (&n,), doubled),
        call_ensures(Real::approx, (x, doubled), of_x),
        call_ensures(Real::approx, (y, doubled), of_y),
        call_ensures(Real::approx, (sum, n), of_sum),
    ensures
        integer_value(doubled) == 2 * integer_value(n),
        rational_value(of_sum) == rational_value(of_x) + rational_value(of_y),
{
}

/// Addition error bound: at every precision `n >= 1`, the sum of two numbers
/// evaluates to within `1 / n` of the sum of their exact values.
pub proof fn lemma_sum_error_bound(x: Real, y: Real, sum: Real, n: BigInt, of_sum: BigRational)
    requires
        integer_value(n) >= 1,
        call_ensures(<Real as Add<Real>>::add, (x, y), sum),
        call_ensures(Real::approx, (sum, n), of_sum),
    ensures
        distance(rational_value(of_sum), x@.value() + y@.value()) <= tolerance(integer_value(n)),
{
}

/// Repetition: evaluating the same number twice at the same precision gives
/// the same rational.
pub proof fn lemma_evaluation_repeatable(
    x: Real,
    n: BigInt,
    first: BigRational,
    second: BigRational,
)
    requires
        call_ensures(Real::approx, (x, n), first),
        call_ensures(Real::approx, (x, n), second),
    ensures
        rational_value(second) == rational_value(first),
{
}

/// Duplication: a copy evaluates, at every precision, to the rational that
/// the number it was made from evaluates to.
pub proof fn lemma_copy_evaluates_alike(
    number: Real,
    copy: Real,
    n: BigInt,
    of_number: BigRational,
    of_copy: BigRational,
)
    requires
        cloned(number, copy),
        call_ensures(Real::approx, (number, n), of_number),
        call_ensures(Real::approx, (copy, n), of_copy),
    ensures
        rational_value(of_copy) == rational_value(of_number),
        copy@.value() == number@.value(),
{
}

/// Negation by reference: whether a number is negated itself, through a shared
/// reference or through an exclusive one, the result evaluates to the same
/// rational at every precision.
pub proof fn lemma_negation_by_reference(
    x: Real,
    shared: &Real,
    exclusive: &mut Real,
    owned: Real,
    borrowed: Real,
    n: BigInt,
    of_owned: BigRational,
    of_borrowed: BigRational,
)
    requires
        shared@ == x@,
        old(exclusive)@ == x@,
        call_ensures(<Real as Neg>::neg, (x,), owned),
        ({
            ||| call_ensures(<&Real as Neg>::neg, (shared,), borrowed)
            ||| call_ensures(<&mut Real as Neg>::neg, (old(exclusive),), borrowed)
        }),
        call_ensures(Real::approx, (owned, n), of_owned),
        call_ensures(Real::approx, (borrowed, n), of_borrowed),
    ensures
        rational_value(of_borrowed) == rational_value(of_owned),
{
}

/// Addition by reference: a sum built with either operand, or both, behind a
/// shared or an exclusive reference evaluates, at every precision, to the
/// rational that the sum of the operands themselves evaluates to.
pub proof fn lemma_sum_by_reference(
    x: Real,
    y: Real,
    x_shared: &Real,
    y_shared: &Real,
    x_exclusive: &mut Real,
    y_exclusive: &mut Real,
    owned: Real,
    borrowed: Real,
    n: BigInt,
    of_owned: BigRational,
    of_borrowed: BigRational,
)
    requires
        x_shared@ == x@,
        y_shared@ == y@,
        old(x_exclusive)@ == x@,
        old(y_exclusive)@ == y@,
        call_ensures(<Real as Add<Real>>::add, (x, y), owned),
        ({
            ||| call_ensures(<Real as Add<&Real>>::add, (x, y_shared), borrowed)
            ||| call_ensures(<Real as Add<&mut Real>>::add, (x, old(y_exclusive)), borrowed)
            ||| call_ensures(<&Real as Add<Real>>::add, (x_shared, y), borrowed)
            ||| call_ensures(<&Real as Add<&Real>>::add, (x_shared, y_shared), borrowed)
            ||| call_ensures(<&Real as Add<&mut Real>>::add, (x_shared, old(y_exclusive)), borrowed)
            ||| call_ensures(<&mut Real as Add<Real>>::add, (old(x_exclusive), y), borrowed)
            ||| call_ensures(<&mut Real as Add<&Real>>::add, (old(x_exclusive), y_shared), borrowed)
            ||| call_ensures(
                <&mut Real as Add<&mut Real>>::add,
                (old(x_exclusive), old(y_exclusive)),
                borrowed,
            )
        }),
        call_ensures(Real::approx, (owned, n), of_owned),
        call_ensures(Real::approx, (borrowed, n), of_borrowed),
    ensures
        rational_value(of_borrowed) == rational_value(of_owned),
{
}

} // verus!
