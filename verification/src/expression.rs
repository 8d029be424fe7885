//! The mathematical model of a computable real: the expression it was built
//! from, the exact number that the expression denotes, and the rational that
//! evaluation returns for it at a given precision.

use vstd::prelude::*;

verus! {

/// An expression over exact rational constants.
pub enum Expression {
    /// A fixed rational number.
    Constant(real),
    /// The negation of an expression.
    Negation(Box<Expression>),
    /// The sum of two expressions.
    Sum(Box<Expression>, Box<Expression>),
}

/// The largest error allowed at precision `n`: `1 / n`.
pub open spec fn tolerance(n: int) -> real {
    1real / (n as real)
}

/// The distance `|a - b|` between two numbers.
pub open spec fn distance(a: real, b: real) -> real {
    if a >= b {
        a - b
    } else {
        b - a
    }
}

impl Expression {
    /// The exact number that the expression denotes.
    pub open spec fn value(self) -> real
        decreases self,
    {
        match self {
            Expression::Constant(q) => q,
            Expression::Negation(x) => -x.value(),
            Expression::Sum(x, y) => x.value() + y.value(),
        }
    }

    /// The rational that evaluation at precision `n` returns. A constant is
    /// returned as it is, a negation negates what its operand returns at the
    /// same precision, and a sum adds what its operands return at precision
    /// `2 * n`, so that their two errors together stay within `1 / n`.
    pub open spec fn approx(self, n: int) -> real
        decreases self,
    {
        match self {
            Expression::Constant(q) => q,
            Expression::Negation(x) => -x.approx(n),
            Expression::Sum(x, y) => x.approx(2 * n) + y.approx(2 * n),
        }
    }
}

/// The tolerance of a positive precision is positive and at most one.
pub proof fn lemma_tolerance_bounds(n: int)
    requires
        n >= 1,
    ensures
        0real < tolerance(n) <= 1real,
{
    assert(0real < 1real / (n as real) <= 1real) by (nonlinear_arith)
        requires
            n >= 1,
    ;
}

/// Two errors of at most `1 / (2 * n)` each add up to at most `1 / n`.
pub proof fn lemma_half_tolerances(n: int)
    requires
        n >= 1,
    ensures
        tolerance(2 * n) + tolerance(2 * n) == tolerance(n),
{
    assert(1real / ((2 * n) as real) + 1real / ((2 * n) as real) == 1real / (n as real))
        by (nonlinear_arith)
        requires
            n >= 1,
    ;
}

/// The accuracy contract: at every precision `n >= 1`, evaluation returns a
/// rational within `1 / n` of the exact value of the expression. Negation
/// keeps the error of its operand; a sum asks each operand for half the
/// error that it may make itself.
pub proof fn lemma_accuracy(x: Expression, n: int)
    requires
        n >= 1,
    ensures
        distance(x.approx(n), x.value()) <= tolerance(n),
    decreases x,
{
    match x {
        Expression::Constant(q) => {
            lemma_tolerance_bounds(n);
        },
        Expression::Negation(a) => {
            lemma_accuracy(*a, n);
        },
        Expression::Sum(a, b) => {
            lemma_accuracy(*a, 2 * n);
            lemma_accuracy(*b, 2 * n);
            lemma_half_tolerances(n);
        },
    }
}

} // verus!
