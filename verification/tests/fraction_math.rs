//! Exact fraction arithmetic: reduction, scale invariance, operations,
//! comparison, and the guarded division.

use cubatrice_core::Fraction;

#[test]
fn new_reduces_to_lowest_terms() {
    let f = Fraction::new(4, 8);
    assert_eq!(f.numerator(), 1);
    assert_eq!(f.denominator(), 2);
    let g = Fraction::new(6, 4);
    assert_eq!(g.numerator(), 3);
    assert_eq!(g.denominator(), 2);
}

#[test]
fn new_normalizes_denominator_sign() {
    let f = Fraction::new(1, -2);
    assert_eq!(f.numerator(), -1);
    assert_eq!(f.denominator(), 2);
    let g = Fraction::new(-3, -6);
    assert_eq!(g.numerator(), 1);
    assert_eq!(g.denominator(), 2);
}

#[test]
fn scaled_pairs_reduce_to_the_same_fraction() {
    // Rational(n, d) == Rational(k*n, k*d) for nonzero k
    assert_eq!(Fraction::new(2, 3), Fraction::new(10, 15));
    assert_eq!(Fraction::new(-7, 5), Fraction::new(21, -15));
    assert_eq!(Fraction::new(0, 4), Fraction::new(0, 9));
}

#[test]
fn addition_is_exact() {
    let a = Fraction::new(1, 2);
    let b = Fraction::new(1, 3);
    let c = a.add(b);
    assert_eq!(c.numerator(), 5);
    assert_eq!(c.denominator(), 6);
}

#[test]
fn subtraction_and_negation() {
    let a = Fraction::new(1, 2);
    let b = Fraction::new(1, 3);
    let c = a.sub(b);
    assert_eq!(c.numerator(), 1);
    assert_eq!(c.denominator(), 6);
    let n = a.neg();
    assert_eq!(n.numerator(), -1);
    assert_eq!(n.denominator(), 2);
}

#[test]
fn multiplication_and_division() {
    let a = Fraction::new(2, 3);
    let b = Fraction::new(9, 4);
    let p = a.mul(b);
    assert_eq!(p.numerator(), 3);
    assert_eq!(p.denominator(), 2);
    let q = a.div(b);
    assert_eq!(q.numerator(), 8);
    assert_eq!(q.denominator(), 27);
}

#[test]
fn integer_scalar_operations() {
    let a = Fraction::new(3, 2);
    let s = a.add_int(2);
    assert_eq!(s.numerator(), 7);
    assert_eq!(s.denominator(), 2);
    let d = a.sub_int(1);
    assert_eq!(d.numerator(), 1);
    assert_eq!(d.denominator(), 2);
    let m = a.mul_int(4);
    assert_eq!(m.numerator(), 6);
    assert_eq!(m.denominator(), 1);
    let v = a.div_int(3);
    assert_eq!(v.numerator(), 1);
    assert_eq!(v.denominator(), 2);
}

#[test]
fn reciprocal_swaps_and_renormalizes() {
    let a = Fraction::new(2, 6);
    let r = a.reciprocal();
    assert_eq!(r.numerator(), 3);
    assert_eq!(r.denominator(), 1);
    let b = Fraction::new(-2, 3);
    let rb = b.reciprocal();
    assert_eq!(rb.numerator(), -3);
    assert_eq!(rb.denominator(), 2);
}

#[test]
fn integer_and_remainder_truncate_toward_zero() {
    let a = Fraction::new(7, 2);
    assert_eq!(a.integer(), 3);
    assert_eq!(a.remainder(), 1);
    let b = Fraction::new(-7, 2);
    assert_eq!(b.integer(), -3);
    assert_eq!(b.remainder(), -1);
}

#[test]
fn comparison_by_cross_multiplication() {
    let a = Fraction::new(1, 3);
    let b = Fraction::new(2, 5);
    assert!(a.lt(&b));
    assert!(!b.lt(&a));
    assert!(a.le(&b));
    assert!(a.le(&a));
    let n = Fraction::new(-1, 2);
    assert!(n.lt(&a));
}

#[test]
fn checked_division_rejects_zero_divisor() {
    let a = Fraction::new(1, 2);
    let z = Fraction::new(0, 5);
    assert!(a.checked_div(z).is_none());
    let ok = a.checked_div(Fraction::new(2, 1)).unwrap();
    assert_eq!(ok.numerator(), 1);
    assert_eq!(ok.denominator(), 4);
}
