use computable_real::Real;
use num::bigint::BigInt;
use num::rational::BigRational;

fn rational(n: i64) -> BigRational {
    BigRational::from(BigInt::from(n))
}

fn precision(n: i64) -> BigInt {
    BigInt::from(n)
}

#[test]
fn neg() {
    let r0 = Real::from(0);
    let r1 = Real::from(1);
    let q0 = BigRational::from(BigInt::from(0));
    let q1 = BigRational::from(BigInt::from(1));
    assert_eq!(-q1, (-r1).approx(BigInt::from(0)));
    assert_eq!(q0, (-r0).approx(BigInt::from(0)));
}

#[test]
fn add() {
    let r0 = Real::from(0);
    let r1 = Real::from(1);
    let r2 = Real::from(2);
    let q0 = BigRational::from(BigInt::from(0));
    let q1 = BigRational::from(BigInt::from(1));
    let q2 = BigRational::from(BigInt::from(2));
    let q3 = BigRational::from(BigInt::from(3));
    let q4 = BigRational::from(BigInt::from(4));
    assert_eq!(q2, (&r1 + &r1).approx(BigInt::from(0)));
    assert_eq!(q1, (&r0 + &r1).approx(BigInt::from(0)));
    assert_eq!(q3, (&r1 + &r2).approx(BigInt::from(0)));
    assert_eq!(q4, (&r2 + &r2).approx(BigInt::from(0)));
    assert_eq!(q0, (&r0 + &r0).approx(BigInt::from(0)));
}

#[test]
fn constant_is_returned_at_every_precision() {
    for k in [0, 1, -1, 7, -42, i32::MAX, i32::MIN] {
        for n in [1, 2, 3, 10, 1_000_000] {
            assert_eq!(rational(k as i64), Real::from(k).approx(precision(n)));
        }
    }
}

#[test]
fn constant_ignores_precisions_outside_the_domain() {
    assert_eq!(rational(5), Real::from(5).approx(precision(0)));
    assert_eq!(rational(5), Real::from(5).approx(precision(-3)));
}

#[test]
fn operations_accept_precisions_below_one() {
    let x = Real::from(1) + -Real::from(4);
    assert_eq!(rational(-3), x.clone().approx(precision(0)));
    assert_eq!(rational(-3), x.approx(precision(-4)));
}

#[test]
fn negation_negates_the_operand_evaluation() {
    let x = Real::from(3) + Real::from(-8);
    for n in [1, 2, 5, 64] {
        let expected = -(x.clone().approx(precision(n)));
        assert_eq!(expected, (-&x).approx(precision(n)));
    }
    assert_eq!(rational(5), (-x).approx(precision(1)));
}

#[test]
fn double_negation_gives_the_number_back() {
    let x = Real::from(9);
    assert_eq!(rational(9), (-(-x)).approx(precision(4)));
}

#[test]
fn sum_is_within_the_tolerance_of_the_exact_sum() {
    let pairs = [(0, 0), (1, 2), (-5, 5), (1000, -1), (i32::MAX, i32::MAX), (i32::MIN, i32::MIN)];
    for (a, b) in pairs {
        for n in [1i64, 2, 7, 1_000] {
            let got = (Real::from(a) + Real::from(b)).approx(precision(n));
            let exact = rational(a as i64 + b as i64);
            let error = if got >= exact { &got - &exact } else { &exact - &got };
            let tolerance = BigRational::new(BigInt::from(1), BigInt::from(n));
            assert!(error <= tolerance);
        }
    }
}

#[test]
fn sum_of_large_constants_does_not_overflow() {
    let got = (Real::from(i32::MAX) + Real::from(i32::MAX)).approx(precision(1));
    assert_eq!(rational(4_294_967_294), got);
    let got = (Real::from(i32::MIN) + Real::from(i32::MIN)).approx(precision(1));
    assert_eq!(rational(-4_294_967_296), got);
}

#[test]
fn nested_expression_evaluates_exactly() {
    let x = (Real::from(1) + Real::from(2)) + -(Real::from(3) + -Real::from(10));
    assert_eq!(rational(10), x.approx(precision(3)));
}

#[test]
fn deep_chain_of_sums() {
    let mut total = Real::from(0);
    for k in 1..=12 {
        total = total + Real::from(k);
    }
    assert_eq!(rational(78), total.approx(precision(2)));
}

#[test]
fn differently_shaped_sums_agree_on_constants() {
    let left = (Real::from(1) + Real::from(2)) + Real::from(3);
    let right = Real::from(1) + (Real::from(2) + Real::from(3));
    assert_eq!(left.approx(precision(5)), right.approx(precision(5)));
}

#[test]
fn evaluation_is_repeatable() {
    let x = Real::from(4) + -Real::from(6);
    let first = x.clone().approx(precision(8));
    let second = x.clone().approx(precision(8));
    let third = x.approx(precision(8));
    assert_eq!(first, second);
    assert_eq!(second, third);
    assert_eq!(rational(-2), third);
}

#[test]
fn clone_evaluates_like_its_source() {
    let source = Real::from(6) + -Real::from(2);
    let copy = source.clone();
    for n in [1, 3, 9] {
        assert_eq!(
            source.clone().approx(precision(n)),
            copy.clone().approx(precision(n))
        );
    }
    assert_eq!(rational(4), source.approx(precision(1)));
    assert_eq!(rational(4), copy.approx(precision(1)));
}

#[test]
fn clone_survives_its_source() {
    let source = Real::from(11);
    let copy = source.clone();
    let negated = -source;
    assert_eq!(rational(-11), negated.approx(precision(1)));
    assert_eq!(rational(11), copy.approx(precision(1)));
}

#[test]
fn negation_by_reference_matches_negation_by_value() {
    let x = Real::from(7) + Real::from(1);
    let mut y = x.clone();
    for n in [1, 2, 16] {
        let by_value = (-x.clone()).approx(precision(n));
        let by_shared = (-&x).approx(precision(n));
        let by_exclusive = (-&mut y).approx(precision(n));
        assert_eq!(by_value, by_shared);
        assert_eq!(by_value, by_exclusive);
        assert_eq!(rational(-8), by_value);
    }
}

#[test]
fn sum_by_reference_matches_sum_by_value() {
    let a = Real::from(2) + Real::from(3);
    let b = -Real::from(4);
    let mut a_mut = a.clone();
    let mut b_mut = b.clone();
    for n in [1, 2, 16] {
        let expected = rational(1);
        assert_eq!(expected, (a.clone() + b.clone()).approx(precision(n)));
        assert_eq!(expected, (a.clone() + &b).approx(precision(n)));
        assert_eq!(expected, (a.clone() + &mut b_mut).approx(precision(n)));
        assert_eq!(expected, (&a + b.clone()).approx(precision(n)));
        assert_eq!(expected, (&a + &b).approx(precision(n)));
        assert_eq!(expected, (&a + &mut b_mut).approx(precision(n)));
        assert_eq!(expected, (&mut a_mut + b.clone()).approx(precision(n)));
        assert_eq!(expected, (&mut a_mut + &b).approx(precision(n)));
        assert_eq!(expected, (&mut a_mut + &mut b_mut).approx(precision(n)));
    }
}

#[test]
fn borrowed_operands_stay_usable() {
    let mut a = Real::from(5);
    let mut b = Real::from(6);
    let sum = &mut a + &mut b;
    let negation = -&mut a;
    assert_eq!(rational(11), sum.approx(precision(1)));
    assert_eq!(rational(-5), negation.approx(precision(1)));
    assert_eq!(rational(5), a.approx(precision(1)));
    assert_eq!(rational(6), b.approx(precision(1)));
}

#[test]
fn operands_of_a_sum_are_asked_for_twice_the_precision() {
    assert_eq!(BigInt::from(6), Real::operand_precision(&BigInt::from(3)));
    assert_eq!(BigInt::from(2), Real::operand_precision(&BigInt::from(1)));
    assert_eq!(BigInt::from(0), Real::operand_precision(&BigInt::from(0)));
    assert_eq!(BigInt::from(-10), Real::operand_precision(&BigInt::from(-5)));
}

#[test]
fn operand_precision_has_no_upper_limit() {
    let huge = BigInt::from(u64::MAX) * BigInt::from(u64::MAX);
    let doubled = Real::operand_precision(&huge);
    assert_eq!(&huge + &huge, doubled);
}

#[test]
fn evaluation_at_a_huge_precision() {
    let n = BigInt::from(u64::MAX) * BigInt::from(u64::MAX);
    let x = Real::from(1) + (Real::from(2) + Real::from(3));
    assert_eq!(rational(6), x.approx(n));
}
