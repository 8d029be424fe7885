//! The arbitrary-precision integers and rationals of the `num` crate.
//!
//! The verifier cannot look inside a `BigInt` or a `BigRational`. This module
//! names what such a value holds and wraps each operation of `num` that the
//! library calls in a function whose contract states, over those names, what
//! the operation does. These contracts are taken on trust from `num`; the two
//! lemmas at the end are proved from the definition of `rational_value`.

use num::bigint::BigInt;
use num::rational::BigRational;
use vstd::prelude::*;

verus! {

/// `num::bigint::BigInt`, an integer of any size.
#[verifier::external_type_specification]
#[verifier::external_body]
pub struct ExBigInt(num::bigint::BigInt);

/// `num::rational::Ratio`, a numerator over a denominator.
#[verifier::external_type_specification]
#[verifier::external_body]
#[verifier::reject_recursive_types(T)]
pub struct ExRatio<T>(num::rational::Ratio<T>);

/// The mathematical integer that a `BigInt` holds.
pub uninterp spec fn integer_value(i: BigInt) -> int;

/// The numerator that a `BigRational` holds, as `Ratio::numer` gives it.
pub uninterp spec fn numer_of(q: BigRational) -> int;

/// The denominator that a `BigRational` holds, as `Ratio::denom` gives it.
pub uninterp spec fn denom_of(q: BigRational) -> int;

/// The rational number that a `BigRational` denotes: its numerator over its
/// denominator. It is meaningful only where the denominator is not zero.
pub open spec fn rational_value(q: BigRational) -> real {
    numer_of(q) as real / denom_of(q) as real
}

/// `From<i32> for BigInt`: the big integer equal to `n`.
#[verifier::external_body]
pub(crate) fn integer_from_i32(n: i32) -> (i: BigInt)
    ensures
        integer_value(i) == n,
{
    BigInt::from(n)
}

/// `Mul<&BigInt> for BigInt`, written `a * b`: the exact product, whatever
/// its size.
#[verifier::external_body]
pub(crate) fn integer_product(a: BigInt, b: &BigInt) -> (product: BigInt)
    ensures
        integer_value(product) == integer_value(a) * integer_value(*b),
{
    a * b
}

/// `From<BigInt> for Ratio<BigInt>`, which is `Ratio::from_integer`: the
/// rational with numerator `i` and denominator one.
#[verifier::external_body]
pub(crate) fn rational_from_integer(i: BigInt) -> (q: BigRational)
    ensures
        numer_of(q) == integer_value(i),
        denom_of(q) == 1,
{
    BigRational::from(i)
}

/// `Clone for Ratio<BigInt>`: a copy with the same numerator and denominator.
#[verifier::external_body]
pub(crate) fn rational_clone(q: &BigRational) -> (copy: BigRational)
    ensures
        numer_of(copy) == numer_of(*q),
        denom_of(copy) == denom_of(*q),
{
    q.clone()
}

/// `Neg for Ratio<BigInt>`, written `-q`: the numerator is negated and the
/// denominator is kept.
#[verifier::external_body]
pub(crate) fn rational_negation(q: BigRational) -> (negated: BigRational)
    ensures
        numer_of(negated) == -numer_of(q),
        denom_of(negated) == denom_of(q),
{
    -q
}

/// `Add for Ratio<BigInt>`, written `a + b`: the exact sum, which `num` hands
/// back with a positive denominator. `num` panics when it meets a zero
/// denominator, which the precondition rules out.
#[verifier::external_body]
pub(crate) fn rational_sum(a: BigRational, b: BigRational) -> (sum: BigRational)
    requires
        denom_of(a) != 0,
        denom_of(b) != 0,
    ensures
        denom_of(sum) > 0,
        rational_value(sum) == rational_value(a) + rational_value(b),
{
    a + b
}

/// A fraction with denominator one is its numerator.
pub proof fn lemma_unit_denominator(q: BigRational)
    requires
        denom_of(q) == 1,
    ensures
        rational_value(q) == numer_of(q) as real,
{
    let n = numer_of(q);
    assert(n as real / 1int as real == n as real) by (nonlinear_arith);
}

/// Negating the numerator of a fraction negates the fraction.
pub proof fn lemma_negated_numerator(q: BigRational, negated: BigRational)
    requires
        numer_of(negated) == -numer_of(q),
        denom_of(negated) == denom_of(q),
        denom_of(q) != 0,
    ensures
        rational_value(negated) == -rational_value(q),
{
    let n = numer_of(q);
    let d = denom_of(q);
    assert((-n) as real / d as real == -(n as real / d as real)) by (nonlinear_arith)
        requires
            d != 0,
    ;
}

} // verus!
