//! Computable real numbers as expression trees that are evaluated on demand.
//!
//! A `Real` is built once, from an integer constant or from other numbers by
//! negation and addition, and never changes afterwards. It owns its operands:
//! an operation applied to a reference works on a copy and leaves the
//! referenced number as it was. Asking for an approximation walks the whole
//! tree again each time.
//!
//! Construction, negation and addition are specified through the view of
//! their result, the `Expression` that it stands for. Nothing is said about
//! `==` between two `Real`s, so the `obeys_*_spec` functions that `vstd` adds
//! to `From`, `Neg` and `Add` are false here.

use crate::expression::{distance, lemma_accuracy, tolerance, Expression};
use crate::rational::{
    denom_of, integer_from_i32, integer_product, integer_value, lemma_negated_numerator,
    lemma_unit_denominator, rational_clone, rational_from_integer, rational_negation,
    rational_sum, rational_value,
};
use num::bigint::BigInt;
use num::rational::BigRational;
use std::ops::{Add, Neg};
use vstd::prelude::*;
use vstd::std_specs::convert::FromSpecImpl;
use vstd::std_specs::ops::{AddSpecImpl, NegSpecImpl};

verus! {

/// What a node of the tree holds: its operation, with the constant or the
/// operands that the operation works on.
enum Node {
    Constant(BigRational),
    Negation(Box<Real>),
    Sum(Box<Real>, Box<Real>),
}

/// A computable real number.
pub struct Real {
    node: Node,
}

impl View for Real {
    type V = Expression;

    /// The expression that the number was built from.
    open spec fn view(&self) -> Expression {
        self.expression()
    }
}

impl Real {
    /// The expression that the number was built from, also written `self@`.
    pub closed spec fn expression(self) -> Expression
        decreases self,
    {
        match self.node {
            Node::Constant(q) => Expression::Constant(rational_value(q)),
            Node::Negation(x) => Expression::Negation(Box::new(x.expression())),
            Node::Sum(x, y) => Expression::Sum(
                Box::new(x.expression()),
                Box::new(y.expression()),
            ),
        }
    }

    /// Every constant in the tree has a positive denominator.
    #[verifier::type_invariant]
    spec fn well_formed(self) -> bool {
        match self.node {
            Node::Constant(q) => denom_of(q) > 0,
            Node::Negation(_) => true,
            Node::Sum(_, _) => true,
        }
    }

    /// The precision at which the operands of a sum are evaluated when the sum
    /// is evaluated at precision `n`: twice `n`.
    pub fn operand_precision(n: &BigInt) -> (doubled: BigInt)
        ensures
            integer_value(doubled) == 2 * integer_value(*n),
    {
        integer_product(integer_from_i32(2), n)
    }

    /// Evaluates the number at precision `n`: the result is the rational that
    /// `Expression::approx` defines, and for `n >= 1` it lies within `1 / n` of
    /// the exact value. Nothing is remembered between calls.
    pub fn approx(self, n: BigInt) -> (q: BigRational)
        ensures
            denom_of(q) > 0,
            rational_value(q) == self@.approx(integer_value(n)),
            integer_value(n) >= 1 ==> distance(rational_value(q), self@.value()) <= tolerance(
                integer_value(n),
            ),
        decreases self,
    {
        proof {
            use_type_invariant(&self);
            if integer_value(n) >= 1 {
                lemma_accuracy(self@, integer_value(n));
            }
        }
        match self.node {
            Node::Constant(q) => q,
            Node::Negation(x) => {
                let operand = (*x).approx(n);
                let negated = rational_negation(operand);
                proof {
                    lemma_negated_numerator(operand, negated);
                }
                negated
            },
            Node::Sum(x, y) => {
                let left = Self::operand_precision(&n);
                let right = Self::operand_precision(&n);
                rational_sum((*x).approx(left), (*y).approx(right))
            },
        }
    }
}

impl Clone for Real {
    /// An independent copy that stands for the same expression.
    fn clone(&self) -> (copy: Real)
        ensures
            copy@ == self@,
        decreases self,
    {
        proof {
            use_type_invariant(self);
        }
        match &self.node {
            Node::Constant(q) => Real { node: Node::Constant(rational_clone(q)) },
            Node::Negation(x) => Real { node: Node::Negation(Box::new((**x).clone())) },
            Node::Sum(x, y) => Real {
                node: Node::Sum(Box::new((**x).clone()), Box::new((**y).clone())),
            },
        }
    }
}

impl From<i32> for Real {
    /// The constant `n`.
    fn from(n: i32) -> (constant: Real)
        ensures
            constant@ == Expression::Constant(n as real),
    {
        let q = rational_from_integer(integer_from_i32(n));
        proof {
            lemma_unit_denominator(q);
        }
        Real { node: Node::Constant(q) }
    }
}

impl FromSpecImpl<i32> for Real {
    open spec fn obeys_from_spec() -> bool {
        false
    }

    open spec fn from_spec(n: i32) -> Real {
        arbitrary()
    }
}

impl Neg for Real {
    type Output = Real;

    /// The negation of the number, which becomes its operand.
    fn neg(self) -> (negation: Real)
        ensures
            negation@ == Expression::Negation(Box::new(self@)),
    {
        Real { node: Node::Negation(Box::new(self)) }
    }
}

impl NegSpecImpl for Real {
    open spec fn obeys_neg_spec() -> bool {
        false
    }

    open spec fn neg_req(self) -> bool {
        true
    }

    open spec fn neg_spec(self) -> Real {
        arbitrary()
    }
}

impl<'a> Neg for &'a Real {
    type Output = Real;

    /// The negation of a copy of the number.
    fn neg(self) -> (negation: Real)
        ensures
            negation@ == Expression::Negation(Box::new(self@)),
    {
        Real { node: Node::Negation(Box::new(self.clone())) }
    }
}

impl<'a> NegSpecImpl for &'a Real {
    open spec fn obeys_neg_spec() -> bool {
        false
    }

    open spec fn neg_req(self) -> bool {
        true
    }

    open spec fn neg_spec(self) -> Real {
        arbitrary()
    }
}

impl<'a> Neg for &'a mut Real {
    type Output = Real;

    /// The negation of a copy of the number, which is left as it was.
    fn neg(self) -> (negation: Real)
        ensures
            negation@ == Expression::Negation(Box::new(old(self)@)),
            *final(self) == *old(self),
    {
        Real { node: Node::Negation(Box::new(self.clone())) }
    }
}

impl<'a> NegSpecImpl for &'a mut Real {
    open spec fn obeys_neg_spec() -> bool {
        false
    }

    open spec fn neg_req(self) -> bool {
        true
    }

    open spec fn neg_spec(self) -> Real {
        arbitrary()
    }
}

impl Add<Real> for Real {
    type Output = Real;

    /// The sum of the number and `b`, which become its operands.
    fn add(self, b: Real) -> (sum: Real)
        ensures
            sum@ == Expression::Sum(Box::new(self@), Box::new(b@)),
    {
        Real { node: Node::Sum(Box::new(self), Box::new(b)) }
    }
}

impl AddSpecImpl<Real> for Real {
    open spec fn obeys_add_spec() -> bool {
        false
    }

    open spec fn add_req(self, b: Real) -> bool {
        true
    }

    open spec fn add_spec(self, b: Real) -> Real {
        arbitrary()
    }
}

impl<'a> Add<&'a Real> for Real {
    type Output = Real;

    /// The sum of the number and a copy of `b`.
    fn add(self, b: &'a Real) -> (sum: Real)
        ensures
            sum@ == Expression::Sum(Box::new(self@), Box::new(b@)),
    {
        Real { node: Node::Sum(Box::new(self), Box::new(b.clone())) }
    }
}

impl<'a> AddSpecImpl<&'a Real> for Real {
    open spec fn obeys_add_spec() -> bool {
        false
    }

    open spec fn add_req(self, b: &'a Real) -> bool {
        true
    }

    open spec fn add_spec(self, b: &'a Real) -> Real {
        arbitrary()
    }
}

impl<'a> Add<&'a mut Real> for Real {
    type Output = Real;

    /// The sum of the number and a copy of `b`, which is left as it was.
    fn add(self, b: &'a mut Real) -> (sum: Real)
        ensures
            sum@ == Expression::Sum(Box::new(self@), Box::new(old(b)@)),
            *final(b) == *old(b),
    {
        Real { node: Node::Sum(Box::new(self), Box::new(b.clone())) }
    }
}

impl<'a> AddSpecImpl<&'a mut Real> for Real {
    open spec fn obeys_add_spec() -> bool {
        false
    }

    open spec fn add_req(self, b: &'a mut Real) -> bool {
        true
    }

    open spec fn add_spec(self, b: &'a mut Real) -> Real {
        arbitrary()
    }
}

impl<'a> Add<Real> for &'a Real {
    type Output = Real;

    /// The sum of a copy of the number and `b`.
    fn add(self, b: Real) -> (sum: Real)
        ensures
            sum@ == Expression::Sum(Box::new(self@), Box::new(b@)),
    {
        Real { node: Node::Sum(Box::new(self.clone()), Box::new(b)) }
    }
}

impl<'a> AddSpecImpl<Real> for &'a Real {
    open spec fn obeys_add_spec() -> bool {
        false
    }

    open spec fn add_req(self, b: Real) -> bool {
        true
    }

    open spec fn add_spec(self, b: Real) -> Real {
        arbitrary()
    }
}

impl<'a, 'b> Add<&'a Real> for &'b Real {
    type Output = Real;

    /// The sum of a copy of the number and a copy of `b`.
    fn add(self, b: &'a Real) -> (sum: Real)
        ensures
            sum@ == Expression::Sum(Box::new(self@), Box::new(b@)),
    {
        Real { node: Node::Sum(Box::new(self.clone()), Box::new(b.clone())) }
    }
}

impl<'a, 'b> AddSpecImpl<&'a Real> for &'b Real {
    open spec fn obeys_add_spec() -> bool {
        false
    }

    open spec fn add_req(self, b: &'a Real) -> bool {
        true
    }

    open spec fn add_spec(self, b: &'a Real) -> Real {
        arbitrary()
    }
}

impl<'a, 'b> Add<&'a mut Real> for &'b Real {
    type Output = Real;

    /// The sum of a copy of the number and a copy of `b`, which is left as it
    /// was.
    fn add(self, b: &'a mut Real) -> (sum: Real)
        ensures
            sum@ == Expression::Sum(Box::new(self@), Box::new(old(b)@)),
            *final(b) == *old(b),
    {
        Real { node: Node::Sum(Box::new(self.clone()), Box::new(b.clone())) }
    }
}

impl<'a, 'b> AddSpecImpl<&'a mut Real> for &'b Real {
    open spec fn obeys_add_spec() -> bool {
        false
    }

    open spec fn add_req(self, b: &'a mut Real) -> bool {
        true
    }

    open spec fn add_spec(self, b: &'a mut Real) -> Real {
        arbitrary()
    }
}

impl<'a> Add<Real> for &'a mut Real {
    type Output = Real;

    /// The sum of a copy of the number and `b`. The number is left as it was.
    fn add(self, b: Real) -> (sum: Real)
        ensures
            sum@ == Expression::Sum(Box::new(old(self)@), Box::new(b@)),
            *final(self) == *old(self),
    {
        Real { node: Node::Sum(Box::new(self.clone()), Box::new(b)) }
    }
}

impl<'a> AddSpecImpl<Real> for &'a mut Real {
    open spec fn obeys_add_spec() -> bool {
        false
    }

    open spec fn add_req(self, b: Real) -> bool {
        true
    }

    open spec fn add_spec(self, b: Real) -> Real {
        arbitrary()
    }
}

impl<'a, 'b> Add<&'a Real> for &'b mut Real {
    type Output = Real;

    /// The sum of a copy of the number and a copy of `b`. The number is left
    /// as it was.
    fn add(self, b: &'a Real) -> (sum: Real)
        ensures
            sum@ == Expression::Sum(Box::new(old(self)@), Box::new(b@)),
            *final(self) == *old(self),
    {
        Real { node: Node::Sum(Box::new(self.clone()), Box::new(b.clone())) }
    }
}

impl<'a, 'b> AddSpecImpl<&'a Real> for &'b mut Real {
    open spec fn obeys_add_spec() -> bool {
        false
    }

    open spec fn add_req(self, b: &'a Real) -> bool {
        true
    }

    open spec fn add_spec(self, b: &'a Real) -> Real {
        arbitrary()
    }
}

impl<'a, 'b> Add<&'a mut Real> for &'b mut Real {
    type Output = Real;

    /// The sum of a copy of the number and a copy of `b`. Both are left as
    /// they were.
    fn add(self, b: &'a mut Real) -> (sum: Real)
        ensures
            sum@ == Expression::Sum(Box::new(old(self)@), Box::new(old(b)@)),
            *final(self) == *old(self),
            *final(b) == *old(b),
    {
        Real { node: Node::Sum(Box::new(self.clone()), Box::new(b.clone())) }
    }
}

impl<'a, 'b> AddSpecImpl<&'a mut Real> for &'b mut Real {
    open spec fn obeys_add_spec() -> bool {
        false
    }

    open spec fn add_req(self, b: &'a mut Real) -> bool {
        true
    }

    open spec fn add_spec(self, b: &'a mut Real) -> Real {
        arbitrary()
    }
}

} // verus!
