//! Exact fraction arithmetic over signed integers. Every constructor and
//! operation reduces its result via the greatest common divisor and
//! normalizes the denominator to be positive, so a `Fraction` is always in
//! lowest terms. Comparison is by cross-multiplication; no floating point.

use vstd::arithmetic::div_mod::{
    lemma_div_multiples_vanish_quotient, lemma_div_nonincreasing, lemma_fundamental_div_mod,
    lemma_fundamental_div_mod_converse, lemma_mod_self_0, lemma_mul_mod_noop_left,
    lemma_small_mod,
};
use vstd::arithmetic::mul::lemma_mul_strictly_positive;
use vstd::prelude::*;

verus! {

/// Absolute value of an integer, as a natural number.
pub open spec fn nabs(x: int) -> nat {
    if x < 0 {
        (-x) as nat
    } else {
        x as nat
    }
}

/// Greatest common divisor, by Euclid's algorithm. `gcd(a, 0) == a`.
pub open spec fn gcd(a: nat, b: nat) -> nat
    decreases b,
{
    if b == 0 {
        a
    } else {
        gcd(b, a % b)
    }
}

/// The gcd of two numbers, not both zero, is positive and divides both.
pub proof fn lemma_gcd_divides(a: nat, b: nat)
    requires
        a > 0 || b > 0,
    ensures
        gcd(a, b) > 0,
        a % gcd(a, b) == 0,
        b % gcd(a, b) == 0,
    decreases b,
{
    let g = gcd(a, b);
    if b == 0 {
        lemma_mod_self_0(a as int);
        lemma_small_mod(0, a);
    } else {
        lemma_gcd_divides(b, a % b);
        let q = a as int / b as int;
        let r = a % b;
        lemma_fundamental_div_mod(a as int, b as int);
        assert(a as int == b as int * q + r);
        lemma_mul_mod_noop_left(b as int, q, g as int);
        assert((b as int * q) % (g as int) == ((b % g) as int * q) % (g as int));
        lemma_mul_mod_noop_left(0, q, g as int);
        lemma_small_mod(0, g);
        assert((b as int * q) % (g as int) == 0);
        vstd::arithmetic::div_mod::lemma_add_mod_noop(b as int * q, r as int, g as int);
        assert(a % g == 0);
    }
}

/// Multiplying both arguments by a positive factor scales the gcd by
/// the same factor.
pub proof fn lemma_gcd_scale(a: nat, b: nat, k: nat)
    requires
        k > 0,
    ensures
        gcd(k * a, k * b) == k * gcd(a, b),
    decreases b,
{
    if b == 0 {
    } else {
        let q = a as int / b as int;
        let r = a % b;
        lemma_fundamental_div_mod(a as int, b as int);
        assert(a as int == b as int * q + r);
        assert(k as int * a as int == q * (k as int * b as int) + k as int * r as int)
            by (nonlinear_arith)
            requires
                a as int == b as int * q + r,
        ;
        assert(0 <= (k as int) * (r as int) && (k as int) * (r as int) < (k as int) * (b
            as int)) by (nonlinear_arith)
            requires
                k > 0,
                0 <= r < b,
        ;
        lemma_fundamental_div_mod_converse(
            k as int * a as int,
            k as int * b as int,
            q,
            k as int * r as int,
        );
        assert((k * a) % (k * b) == k * r);
        lemma_gcd_scale(b, r, k);
        assert(gcd(k * a, k * b) == gcd(k * b, (k * a) % (k * b)));
    }
}

/// The gcd is symmetric in its arguments.
pub proof fn lemma_gcd_comm(a: nat, b: nat)
    ensures
        gcd(a, b) == gcd(b, a),
{
    if a == b {
    } else if a < b {
        lemma_small_mod(a, b);
        assert(gcd(a, b) == gcd(b, a % b));
    } else {
        if b == 0 {
            lemma_small_mod(0, a);
            assert(gcd(b, a) == gcd(a, (0nat) % a));
        } else {
            lemma_small_mod(b, a);
            assert(gcd(b, a) == gcd(a, b % a));
        }
    }
}

/// A numerator/denominator pair reduced to lowest terms with a positive
/// denominator: the unique canonical representative of the rational
/// `p.0 / p.1`.
pub open spec fn norm_pair(p: (int, int)) -> (int, int)
    recommends
        p.1 != 0,
{
    let g = gcd(nabs(p.0), nabs(p.1)) as int;
    let an = nabs(p.0) as int / g;
    let dn = nabs(p.1) as int / g;
    if (p.0 < 0) == (p.1 < 0) {
        (an, dn)
    } else {
        (-an, dn)
    }
}

/// The canonical form of a pair with nonzero denominator has a positive
/// denominator, is in lowest terms, represents the same rational, and its
/// components are no larger in magnitude than the originals.
pub proof fn lemma_norm_wf(p: (int, int))
    requires
        p.1 != 0,
    ensures
        norm_pair(p).1 > 0,
        gcd(nabs(norm_pair(p).0), nabs(norm_pair(p).1)) == 1,
        norm_pair(p).0 * p.1 == p.0 * norm_pair(p).1,
        nabs(norm_pair(p).0) <= nabs(p.0),
        nabs(norm_pair(p).1) <= nabs(p.1),
        p.0 == 0 ==> norm_pair(p).0 == 0,
{
    let a = nabs(p.0);
    let b = nabs(p.1);
    lemma_gcd_divides(a, b);
    let g = gcd(a, b);
    let x = a as int / g as int;
    let y = b as int / g as int;
    lemma_fundamental_div_mod(a as int, g as int);
    lemma_fundamental_div_mod(b as int, g as int);
    assert(a as int == g as int * x);
    assert(b as int == g as int * y);
    lemma_div_nonincreasing(a as int, g as int);
    lemma_div_nonincreasing(b as int, g as int);
    vstd::arithmetic::div_mod::lemma_div_pos_is_pos(a as int, g as int);
    vstd::arithmetic::div_mod::lemma_div_pos_is_pos(b as int, g as int);
    assert(y > 0) by (nonlinear_arith)
        requires
            b as int == g as int * y,
            b > 0,
            y >= 0,
    ;
    // lowest terms: g * gcd(x, y) == gcd(a, b) == g, so gcd(x, y) == 1
    lemma_gcd_scale(x as nat, y as nat, g);
    assert(g * gcd(x as nat, y as nat) == g * 1);
    assert(gcd(x as nat, y as nat) == 1) by (nonlinear_arith)
        requires
            g as int * gcd(x as nat, y as nat) as int == g as int * 1,
            g > 0,
    ;
    // same rational: x * b == a * y, then fix signs case by case
    assert(x * b as int == a as int * y) by (nonlinear_arith)
        requires
            a as int == g as int * x,
            b as int == g as int * y,
    ;
    if (p.0 < 0) == (p.1 < 0) {
        if p.0 < 0 {
            assert(x * p.1 == p.0 * y) by (nonlinear_arith)
                requires
                    x * (-p.1) == (-p.0) * y,
            ;
        }
    } else {
        if p.0 < 0 {
            assert((-x) * p.1 == p.0 * y) by (nonlinear_arith)
                requires
                    x * p.1 == (-p.0) * y,
            ;
        } else {
            assert((-x) * p.1 == p.0 * y) by (nonlinear_arith)
                requires
                    x * (-p.1) == p.0 * y,
            ;
        }
    }
    if p.0 == 0 {
        assert(x == 0) by (nonlinear_arith)
            requires
                0 == g as int * x,
                g > 0,
        ;
    }
}

/// Scaling numerator and denominator by a common nonzero factor does not
/// change the canonical form: the reduced fraction of `(k*n, k*d)` is the
/// reduced fraction of `(n, d)`.
pub proof fn lemma_norm_scale(p: (int, int), k: int)
    requires
        p.1 != 0,
        k != 0,
    ensures
        norm_pair((k * p.0, k * p.1)) == norm_pair(p),
{
    let a = nabs(p.0);
    let b = nabs(p.1);
    let ka = nabs(k * p.0);
    let kb = nabs(k * p.1);
    assert(k * p.1 != 0 && ka == nabs(k) * a && kb == nabs(k) * b) by (nonlinear_arith)
        requires
            k != 0,
            p.1 != 0,
            ka == nabs(k * p.0),
            kb == nabs(k * p.1),
            a == nabs(p.0),
            b == nabs(p.1),
    ;
    lemma_gcd_scale(a, b, nabs(k));
    let g = gcd(a, b);
    lemma_gcd_divides(a, b);
    let m = nabs(k) as int;
    assert(gcd(ka, kb) == nabs(k) * g);
    lemma_div_multiples_vanish_quotient(m, a as int, g as int);
    lemma_div_multiples_vanish_quotient(m, b as int, g as int);
    assert(ka as int == m * a as int && kb as int == m * b as int);
    assert(nabs(k) as int * g as int == m * g as int);
    assert(ka as int / (gcd(ka, kb) as int) == a as int / g as int);
    assert(kb as int / (gcd(ka, kb) as int) == b as int / g as int);
    if p.0 == 0 {
        // both numerators are zero, so the sign branch is immaterial
        assert(k * p.0 == 0) by (nonlinear_arith)
            requires
                p.0 == 0,
        ;
        assert(ka as int / (gcd(ka, kb) as int) == 0) by {
            vstd::arithmetic::div_mod::lemma_div_of0(gcd(ka, kb) as int);
            lemma_gcd_divides(ka, kb);
        }
    } else {
        // neither product is zero, so scaling flips both signs or neither
        assert(((k * p.0 < 0) == (k * p.1 < 0)) == ((p.0 < 0) == (p.1 < 0)))
            by (nonlinear_arith)
            requires
                k != 0,
                p.0 != 0,
                p.1 != 0,
        ;
    }
}

/// A pair already in lowest terms with positive denominator is its own
/// canonical form.
pub proof fn lemma_norm_already_reduced(p: (int, int))
    requires
        p.1 > 0,
        gcd(nabs(p.0), nabs(p.1)) == 1,
    ensures
        norm_pair(p) == p,
{
    assert(nabs(p.0) as int / 1 == nabs(p.0) as int) by {
        vstd::arithmetic::div_mod::lemma_basic_div_specific_divisor(1);
    }
    assert(nabs(p.1) as int / 1 == nabs(p.1) as int) by {
        vstd::arithmetic::div_mod::lemma_basic_div_specific_divisor(1);
    }
}

/// The pair for the number one is its own canonical form.
pub proof fn lemma_norm_one()
    ensures
        norm_pair((1int, 1int)) == (1int, 1int),
{
    assert((1nat) % (1nat) == 0) by {
        lemma_mod_self_0(1);
    }
    assert(gcd(1, 1) == gcd(1, 0));
    lemma_norm_already_reduced((1int, 1int));
}

/// Constructing a fraction from any common nonzero scaling of a pair
/// yields the very same reduced fraction: the canonical forms of
/// `(k*n, k*d)` and `(n, d)` coincide, and both are in lowest terms.
pub proof fn lemma_new_scale_invariant(n: int, d: int, k: int)
    requires
        d != 0,
        k != 0,
    ensures
        norm_pair((k * n, k * d)) == norm_pair((n, d)),
        gcd(nabs(norm_pair((n, d)).0), nabs(norm_pair((n, d)).1)) == 1,
{
    lemma_norm_scale((n, d), k);
    lemma_norm_wf((n, d));
}

/// The numerator of an exact sum of two pairs, before reduction.
pub open spec fn rat_add(a: (int, int), b: (int, int)) -> (int, int) {
    (a.0 * b.1 + b.0 * a.1, a.1 * b.1)
}

/// The exact difference of two pairs, before reduction.
pub open spec fn rat_sub(a: (int, int), b: (int, int)) -> (int, int) {
    (a.0 * b.1 - b.0 * a.1, a.1 * b.1)
}

/// The exact product of two pairs, before reduction.
pub open spec fn rat_mul(a: (int, int), b: (int, int)) -> (int, int) {
    (a.0 * b.0, a.1 * b.1)
}

/// The exact quotient of two pairs, before reduction.
pub open spec fn rat_div(a: (int, int), b: (int, int)) -> (int, int) {
    (a.0 * b.1, a.1 * b.0)
}

/// Whether an exact (unreduced) pair is small enough for its reduced form
/// to be representable in 64-bit components.
pub open spec fn in_range(p: (int, int)) -> bool {
    i64::MIN < p.0 <= i64::MAX && i64::MIN < p.1 <= i64::MAX
}

/// Truncating integer division (rounds toward zero), for a positive divisor.
pub open spec fn trunc_div(n: int, d: int) -> int
    recommends
        d > 0,
{
    if n >= 0 {
        n / d
    } else {
        -((-n) / d)
    }
}

/// Remainder of truncating division, for a positive divisor.
pub open spec fn trunc_rem(n: int, d: int) -> int
    recommends
        d > 0,
{
    if n >= 0 {
        n % d
    } else {
        -((-n) % d)
    }
}

/// Common number type to represent exact fractional values where floating
/// point would lose precision. Always stored in lowest terms with a
/// positive denominator.
#[derive(Clone, Copy, Debug, PartialEq, Eq, Hash, Structural)]
pub struct Fraction {
    n: i64,
    d: i64,
}

impl View for Fraction {
    type V = (int, int);

    closed spec fn view(&self) -> (int, int) {
        (self.n as int, self.d as int)
    }
}

impl Fraction {
    /// Well-formed: positive denominator, in lowest terms, and the
    /// numerator's magnitude is strictly below 2^63 so negation is safe.
    pub open spec fn wf(self) -> bool {
        self@.1 > 0 && self@.0 > i64::MIN && gcd(nabs(self@.0), nabs(self@.1)) == 1
    }

    /// Creates the fraction n/d, reduced to lowest terms with a positive
    /// denominator.
    pub fn new(n: i64, d: i64) -> (r: Fraction)
        requires
            d != 0,
            n != i64::MIN,
            d != i64::MIN,
        ensures
            r@ == norm_pair((n as int, d as int)),
            r.wf(),
    {
        proof {
            lemma_norm_wf((n as int, d as int));
        }
        let a = abs64(n);
        let b = abs64(d);
        let g = gcd_u64(a, b);
        proof {
            lemma_gcd_divides(a as nat, b as nat);
            lemma_div_nonincreasing(a as int, g as int);
            lemma_div_nonincreasing(b as int, g as int);
        }
        let an = a / g;
        let dn = b / g;
        let num: i64 = if (n < 0) != (d < 0) {
            -(an as i64)
        } else {
            an as i64
        };
        Fraction { n: num, d: dn as i64 }
    }

    /// Numerator of the fraction (in lowest terms).
    pub fn numerator(&self) -> (r: i64)
        ensures
            r == self@.0,
    {
        self.n
    }

    /// Denominator of the fraction (in lowest terms, always positive for a
    /// well-formed fraction).
    pub fn denominator(&self) -> (r: i64)
        ensures
            r == self@.1,
    {
        self.d
    }

    /// Adds two fractions exactly, reducing the result.
    pub fn add(self, rhs: Fraction) -> (r: Fraction)
        requires
            self.wf(),
            rhs.wf(),
            in_range(rat_add(self@, rhs@)),
        ensures
            r@ == norm_pair(rat_add(self@, rhs@)),
            r.wf(),
    {
        proof {
            lemma_i128_products_fit(self@.0, rhs@.1, rhs@.0, self@.1);
            lemma_mul_strictly_positive(self@.1, rhs@.1);
        }
        let n = (self.n as i128) * (rhs.d as i128) + (rhs.n as i128) * (self.d as i128);
        let d = (self.d as i128) * (rhs.d as i128);
        Fraction::new(n as i64, d as i64)
    }

    /// Subtracts `rhs` from `self` exactly, reducing the result.
    pub fn sub(self, rhs: Fraction) -> (r: Fraction)
        requires
            self.wf(),
            rhs.wf(),
            in_range(rat_sub(self@, rhs@)),
        ensures
            r@ == norm_pair(rat_sub(self@, rhs@)),
            r.wf(),
    {
        proof {
            lemma_i128_products_fit(self@.0, rhs@.1, rhs@.0, self@.1);
            lemma_mul_strictly_positive(self@.1, rhs@.1);
        }
        let n = (self.n as i128) * (rhs.d as i128) - (rhs.n as i128) * (self.d as i128);
        let d = (self.d as i128) * (rhs.d as i128);
        Fraction::new(n as i64, d as i64)
    }

    /// Negates the fraction; the result is still in lowest terms.
    pub fn neg(self) -> (r: Fraction)
        requires
            self.wf(),
        ensures
            r@ == (-self@.0, self@.1),
            r.wf(),
    {
        Fraction { n: -self.n, d: self.d }
    }

    /// Multiplies two fractions exactly, reducing the result.
    pub fn mul(self, rhs: Fraction) -> (r: Fraction)
        requires
            self.wf(),
            rhs.wf(),
            in_range(rat_mul(self@, rhs@)),
        ensures
            r@ == norm_pair(rat_mul(self@, rhs@)),
            r.wf(),
    {
        proof {
            lemma_i128_products_fit(self@.0, rhs@.0, self@.1, rhs@.1);
            lemma_mul_strictly_positive(self@.1, rhs@.1);
        }
        let n = (self.n as i128) * (rhs.n as i128);
        let d = (self.d as i128) * (rhs.d as i128);
        Fraction::new(n as i64, d as i64)
    }

    /// Divides `self` by `rhs` exactly, reducing the result. Division by a
    /// zero-valued fraction is rejected by the precondition; use
    /// `checked_div` when the divisor is not known to be nonzero.
    pub fn div(self, rhs: Fraction) -> (r: Fraction)
        requires
            self.wf(),
            rhs.wf(),
            rhs@.0 != 0,
            in_range(rat_div(self@, rhs@)),
        ensures
            r@ == norm_pair(rat_div(self@, rhs@)),
            r.wf(),
    {
        proof {
            lemma_i128_products_fit(self@.0, rhs@.1, self@.1, rhs@.0);
            assert(self@.1 * rhs@.0 != 0) by (nonlinear_arith)
                requires
                    self@.1 > 0,
                    rhs@.0 != 0,
            ;
        }
        let n = (self.n as i128) * (rhs.d as i128);
        let d = (self.d as i128) * (rhs.n as i128);
        Fraction::new(n as i64, d as i64)
    }

    /// Divides, failing loudly (with `None`) on a zero divisor instead of
    /// producing an invalid fraction.
    pub fn checked_div(self, rhs: Fraction) -> (r: Option<Fraction>)
        requires
            self.wf(),
            rhs.wf(),
            in_range(rat_div(self@, rhs@)),
        ensures
            rhs@.0 != 0 ==> (r matches Some(f) && f@ == norm_pair(rat_div(self@, rhs@))
                && f.wf()),
            rhs@.0 == 0 ==> r is None,
    {
        if rhs.n == 0 {
            None
        } else {
            Some(self.div(rhs))
        }
    }

    /// Adds an integer to the fraction.
    pub fn add_int(self, rhs: i64) -> (r: Fraction)
        requires
            self.wf(),
            rhs != i64::MIN,
            in_range((self@.0 + self@.1 * rhs, self@.1)),
        ensures
            r@ == norm_pair((self@.0 + self@.1 * rhs, self@.1)),
            r.wf(),
    {
        proof {
            lemma_i128_products_fit(self@.1, rhs as int, 0, 0);
        }
        let n = (self.n as i128) + (self.d as i128) * (rhs as i128);
        Fraction::new(n as i64, self.d)
    }

    /// Subtracts an integer from the fraction.
    pub fn sub_int(self, rhs: i64) -> (r: Fraction)
        requires
            self.wf(),
            rhs != i64::MIN,
            in_range((self@.0 - self@.1 * rhs, self@.1)),
        ensures
            r@ == norm_pair((self@.0 - self@.1 * rhs, self@.1)),
            r.wf(),
    {
        proof {
            lemma_i128_products_fit(self@.1, rhs as int, 0, 0);
        }
        let n = (self.n as i128) - (self.d as i128) * (rhs as i128);
        Fraction::new(n as i64, self.d)
    }

    /// Multiplies the fraction by an integer.
    pub fn mul_int(self, rhs: i64) -> (r: Fraction)
        requires
            self.wf(),
            rhs != i64::MIN,
            in_range((self@.0 * rhs, self@.1)),
        ensures
            r@ == norm_pair((self@.0 * rhs, self@.1)),
            r.wf(),
    {
        proof {
            lemma_i128_products_fit(self@.0, rhs as int, 0, 0);
        }
        let n = (self.n as i128) * (rhs as i128);
        Fraction::new(n as i64, self.d)
    }

    /// Divides the fraction by a nonzero integer.
    pub fn div_int(self, rhs: i64) -> (r: Fraction)
        requires
            self.wf(),
            rhs != 0,
            rhs != i64::MIN,
            in_range((self@.0, self@.1 * rhs)),
        ensures
            r@ == norm_pair((self@.0, self@.1 * rhs)),
            r.wf(),
    {
        proof {
            lemma_i128_products_fit(self@.1, rhs as int, 0, 0);
            assert(self@.1 * rhs != 0) by (nonlinear_arith)
                requires
                    self@.1 > 0,
                    rhs != 0,
            ;
        }
        let d = (self.d as i128) * (rhs as i128);
        Fraction::new(self.n, d as i64)
    }

    /// Creates a new fraction with numerator and denominator swapped,
    /// renormalized so the denominator stays positive.
    pub fn reciprocal(&self) -> (r: Fraction)
        requires
            self.wf(),
            self@.0 != 0,
        ensures
            r@ == norm_pair((self@.1, self@.0)),
            r.wf(),
    {
        proof {
            lemma_gcd_comm(nabs(self@.0), nabs(self@.1));
            lemma_norm_wf((self@.1, self@.0));
            lemma_norm_already_reduced(
                (
                    if self@.0 < 0 {
                        -self@.1
                    } else {
                        self@.1
                    },
                    if self@.0 < 0 {
                        -self@.0
                    } else {
                        self@.0
                    },
                ),
            );
            lemma_norm_scale((self@.1, self@.0), -1);
        }
        if self.n < 0 {
            Fraction { n: -self.d, d: -self.n }
        } else {
            Fraction { n: self.d, d: self.n }
        }
    }

    /// The integer component of the fraction (truncated toward zero).
    pub fn integer(&self) -> (r: i64)
        requires
            self.wf(),
        ensures
            r == trunc_div(self@.0, self@.1),
    {
        let q = abs64(self.n) / (self.d as u64);
        proof {
            lemma_div_nonincreasing(nabs(self@.0) as int, self@.1);
        }
        if self.n >= 0 {
            q as i64
        } else {
            -(q as i64)
        }
    }

    /// The remainder of the fraction after the integer component is
    /// removed, as a numerator over the same denominator.
    pub fn remainder(&self) -> (r: i64)
        requires
            self.wf(),
        ensures
            r == trunc_rem(self@.0, self@.1),
    {
        let m = abs64(self.n) % (self.d as u64);
        if self.n >= 0 {
            m as i64
        } else {
            -(m as i64)
        }
    }

    /// Strict comparison by cross-multiplication: true iff `self` is a
    /// strictly smaller rational than `rhs`.
    pub fn lt(&self, rhs: &Fraction) -> (r: bool)
        requires
            self.wf(),
            rhs.wf(),
        ensures
            r == (self@.0 * rhs@.1 < rhs@.0 * self@.1),
    {
        proof {
            lemma_i128_products_fit(self@.0, rhs@.1, rhs@.0, self@.1);
        }
        (self.n as i128) * (rhs.d as i128) < (rhs.n as i128) * (self.d as i128)
    }

    /// Comparison by cross-multiplication: true iff `self` is a rational
    /// no larger than `rhs`.
    pub fn le(&self, rhs: &Fraction) -> (r: bool)
        requires
            self.wf(),
            rhs.wf(),
        ensures
            r == (self@.0 * rhs@.1 <= rhs@.0 * self@.1),
    {
        proof {
            lemma_i128_products_fit(self@.0, rhs@.1, rhs@.0, self@.1);
        }
        (self.n as i128) * (rhs.d as i128) <= (rhs.n as i128) * (self.d as i128)
    }
}

/// Products of 64-bit components stay far inside the 128-bit range, and so
/// do sums and differences of two such products.
proof fn lemma_i128_products_fit(a: int, b: int, c: int, d: int)
    requires
        i64::MIN < a <= i64::MAX,
        i64::MIN < b <= i64::MAX,
        i64::MIN < c <= i64::MAX,
        i64::MIN < d <= i64::MAX,
    ensures
        i128::MIN < a * b < i128::MAX,
        i128::MIN < c * d < i128::MAX,
        i128::MIN <= a * b + c * d <= i128::MAX,
        i128::MIN <= a * b - c * d <= i128::MAX,
{
    assert(-0x4000_0000_0000_0000_0000_0000_0000_0000 < a * b
        < 0x4000_0000_0000_0000_0000_0000_0000_0000) by (nonlinear_arith)
        requires
            -0x8000_0000_0000_0000 < a < 0x8000_0000_0000_0000,
            -0x8000_0000_0000_0000 < b < 0x8000_0000_0000_0000,
    ;
    assert(-0x4000_0000_0000_0000_0000_0000_0000_0000 < c * d
        < 0x4000_0000_0000_0000_0000_0000_0000_0000) by (nonlinear_arith)
        requires
            -0x8000_0000_0000_0000 < c < 0x8000_0000_0000_0000,
            -0x8000_0000_0000_0000 < d < 0x8000_0000_0000_0000,
    ;
}

/// The magnitude of a 64-bit integer, computed without overflow.
fn abs64(x: i64) -> (r: u64)
    ensures
        r as nat == nabs(x as int),
{
    if x >= 0 {
        x as u64
    } else {
        (-(x as i128)) as u64
    }
}

/// Euclid's algorithm on machine integers, mirroring the `gcd` spec.
fn gcd_u64(a: u64, b: u64) -> (g: u64)
    ensures
        g as nat == gcd(a as nat, b as nat),
    decreases b,
{
    if b == 0 {
        a
    } else {
        gcd_u64(b, a % b)
    }
}

} // verus!
