//! Exact rational arithmetic over the pitch lattice.  A `Ratio` is a pair of
//! positive integers; multiplication always reduces by the greatest common
//! divisor, so evaluated frequency ratios stay in lowest terms.

use vstd::prelude::*;
use crate::arith::{
    spec_gcd, divides, gcd_u128, lemma_coprime_quotients, lemma_gcd_divides, lemma_gcd_pos,
    lemma_divides_mod_zero, lemma_unique_reduced,
};
use vstd::arithmetic::mul::{
    lemma_mul_strictly_positive, lemma_mul_upper_bound, lemma_mul_is_commutative,
    lemma_mul_is_associative, lemma_mul_nonnegative,
};
use vstd::arithmetic::div_mod::lemma_div_is_ordered_by_denominator;
use vstd::arithmetic::power::{pow, lemma_pow0, lemma_pow1, lemma_pow_adds, lemma_pow_positive};

verus! {

/// The numerator of the fraction `n / d` brought to lowest terms.
pub open spec fn canon_num(n: int, d: int) -> int {
    n / spec_gcd(n, d)
}

/// The denominator of the fraction `n / d` brought to lowest terms.
pub open spec fn canon_den(n: int, d: int) -> int {
    d / spec_gcd(n, d)
}

/// An exact frequency multiplier: `dividend / divisor`, both positive.
#[derive(Debug, Clone, Copy, PartialEq, Eq, Structural)]
pub struct Ratio {
    pub dividend: u64,
    pub divisor: u64,
}

/// The reduced fraction of positive `n / d`, in bounds and in lowest terms.
pub proof fn lemma_canon(n: int, d: int)
    requires
        n > 0,
        d > 0,
    ensures
        spec_gcd(n, d) > 0,
        0 < canon_num(n, d) <= n,
        0 < canon_den(n, d) <= d,
        spec_gcd(canon_num(n, d), canon_den(n, d)) == 1,
        canon_num(n, d) * d == n * canon_den(n, d),
        n == spec_gcd(n, d) * canon_num(n, d),
        d == spec_gcd(n, d) * canon_den(n, d),
{
    let g = spec_gcd(n, d);
    lemma_coprime_quotients(n, d);
    lemma_gcd_divides(n, d);
    lemma_divides_mod_zero(g, n);
    lemma_divides_mod_zero(g, d);
    assert(canon_num(n, d) <= n) by {
        lemma_div_is_ordered_by_denominator(n, 1, g);
    }
    assert(canon_den(n, d) <= d) by {
        lemma_div_is_ordered_by_denominator(d, 1, g);
    }
    assert((n / g) * d == n * (d / g)) by {
        assert((n / g) * (g * (d / g)) == ((n / g) * g) * (d / g)) by {
            lemma_mul_is_associative(n / g, g, d / g);
        }
        assert((n / g) * g == g * (n / g)) by {
            lemma_mul_is_commutative(n / g, g);
        }
    }
}

/// Fractions with equal values have equal reduced forms.
pub proof fn lemma_canon_equivalent(n1: int, d1: int, n2: int, d2: int)
    requires
        n1 > 0,
        d1 > 0,
        n2 > 0,
        d2 > 0,
        n1 * d2 == n2 * d1,
    ensures
        canon_num(n1, d1) == canon_num(n2, d2),
        canon_den(n1, d1) == canon_den(n2, d2),
{
    lemma_canon(n1, d1);
    lemma_canon(n2, d2);
    let g1 = spec_gcd(n1, d1);
    let g2 = spec_gcd(n2, d2);
    let a1 = canon_num(n1, d1);
    let b1 = canon_den(n1, d1);
    let a2 = canon_num(n2, d2);
    let b2 = canon_den(n2, d2);
    assert(a1 * b2 == a2 * b1) by (nonlinear_arith)
        requires
            n1 == g1 * a1,
            d1 == g1 * b1,
            n2 == g2 * a2,
            d2 == g2 * b2,
            n1 * d2 == n2 * d1,
            g1 > 0,
            g2 > 0,
    {}
    lemma_unique_reduced(a1, b1, a2, b2);
}

impl Ratio {
    /// The numerator, as a mathematical integer.
    pub open spec fn n(self) -> int {
        self.dividend as int
    }

    /// The denominator, as a mathematical integer.
    pub open spec fn d(self) -> int {
        self.divisor as int
    }

    /// Both parts of the fraction are positive.
    pub open spec fn wf(self) -> bool {
        self.dividend >= 1 && self.divisor >= 1
    }

    /// The fraction is in lowest terms.
    pub open spec fn reduced(self) -> bool {
        spec_gcd(self.n(), self.d()) == 1
    }

    /// The numerator.
    pub fn dividend(&self) -> (r: u64)
        ensures
            r == self.n(),
    {
        self.dividend
    }

    /// The denominator.
    pub fn divisor(&self) -> (r: u64)
        ensures
            r == self.d(),
    {
        self.divisor
    }

    /// The multiplicative identity.
    pub fn one() -> (r: Ratio)
        ensures
            r.n() == 1,
            r.d() == 1,
            r.wf(),
    {
        Ratio { dividend: 1, divisor: 1 }
    }

    /// Whether this ratio is the multiplicative identity.
    pub fn is_one(&self) -> (r: bool)
        ensures
            r == (self.n() == 1 && self.d() == 1),
    {
        self.dividend == 1 && self.divisor == 1
    }

    /// The reciprocal.
    pub fn flip(self) -> (r: Ratio)
        ensures
            r.n() == self.d(),
            r.d() == self.n(),
    {
        Ratio { dividend: self.divisor, divisor: self.dividend }
    }

    /// The product of two fractions, reduced to lowest terms.
    pub fn multiply(self, rhs: Ratio) -> (r: Ratio)
        requires
            self.wf(),
            rhs.wf(),
            canon_num(self.n() * rhs.n(), self.d() * rhs.d()) <= u64::MAX,
            canon_den(self.n() * rhs.n(), self.d() * rhs.d()) <= u64::MAX,
        ensures
            r.n() == canon_num(self.n() * rhs.n(), self.d() * rhs.d()),
            r.d() == canon_den(self.n() * rhs.n(), self.d() * rhs.d()),
            r.wf(),
            r.reduced(),
            r.n() * (self.d() * rhs.d()) == (self.n() * rhs.n()) * r.d(),
    {
        proof {
            lemma_mul_upper_bound(self.n(), u64::MAX as int, rhs.n(), u64::MAX as int);
            lemma_mul_upper_bound(self.d(), u64::MAX as int, rhs.d(), u64::MAX as int);
            lemma_mul_strictly_positive(self.n(), rhs.n());
            lemma_mul_strictly_positive(self.d(), rhs.d());
        }
        let p: u128 = (self.dividend as u128) * (rhs.dividend as u128);
        let q: u128 = (self.divisor as u128) * (rhs.divisor as u128);
        let g: u128 = gcd_u128(p, q);
        proof {
            lemma_canon(p as int, q as int);
            assert(g >= 1);
        }
        let rn: u128 = p / g;
        let rd: u128 = q / g;
        Ratio { dividend: rn as u64, divisor: rd as u64 }
    }
}

/// Every reduced power of `r` up to exponent `e` fits in a machine word.
pub open spec fn pow_fits(r: Ratio, e: nat) -> bool {
    forall|i: nat|
        1 <= i <= e ==> #[trigger] canon_num(pow(r.n(), i), pow(r.d(), i)) <= u64::MAX
            && canon_den(pow(r.n(), i), pow(r.d(), i)) <= u64::MAX
}

impl Ratio {
    /// The `e`-th power of the fraction, by repeated reducing multiplication.
    pub fn pow(self, e: u32) -> (r: Ratio)
        requires
            self.wf(),
            pow_fits(self, e as nat),
        ensures
            r.n() == canon_num(pow(self.n(), e as nat), pow(self.d(), e as nat)),
            r.d() == canon_den(pow(self.n(), e as nat), pow(self.d(), e as nat)),
            r.wf(),
            r.reduced(),
    {
        let mut acc = Ratio::one();
        let mut j: u32 = 0;
        proof {
            assert(pow(self.n(), 0) == 1) by {
                lemma_pow0(self.n());
            }
            assert(pow(self.d(), 0) == 1) by {
                lemma_pow0(self.d());
            }
            assert(spec_gcd(1, 1) == 1) by {
                reveal_with_fuel(spec_gcd, 3);
            }
        }
        while j < e
            invariant
                self.wf(),
                pow_fits(self, e as nat),
                j <= e,
                acc.wf(),
                acc.n() == canon_num(pow(self.n(), j as nat), pow(self.d(), j as nat)),
                acc.d() == canon_den(pow(self.n(), j as nat), pow(self.d(), j as nat)),
                acc.reduced(),
            decreases e - j,
        {
            proof {
                lemma_pow_positive(self.n(), j as nat);
                lemma_pow_positive(self.d(), j as nat);
                lemma_pow_positive(self.n(), (j + 1) as nat);
                lemma_pow_positive(self.d(), (j + 1) as nat);
                let pn0 = pow(self.n(), j as nat);
                let pd0 = pow(self.d(), j as nat);
                let pn1 = pow(self.n(), (j + 1) as nat);
                let pd1 = pow(self.d(), (j + 1) as nat);
                assert(pn1 == self.n() * pn0 && pd1 == self.d() * pd0) by {
                    lemma_pow_adds(self.n(), 1, j as nat);
                    lemma_pow_adds(self.d(), 1, j as nat);
                    lemma_pow1(self.n());
                    lemma_pow1(self.d());
                }
                lemma_canon(pn0, pd0);
                let g = spec_gcd(pn0, pd0);
                assert((acc.n() * self.n()) * pd1 == pn1 * (acc.d() * self.d()))
                    by (nonlinear_arith)
                    requires
                        pn0 == g * acc.n(),
                        pd0 == g * acc.d(),
                        pn1 == self.n() * pn0,
                        pd1 == self.d() * pd0,
                        g > 0,
                {}
                lemma_mul_strictly_positive(acc.n(), self.n());
                lemma_mul_strictly_positive(acc.d(), self.d());
                lemma_canon_equivalent(acc.n() * self.n(), acc.d() * self.d(), pn1, pd1);
                assert(canon_num(pn1, pd1) <= u64::MAX && canon_den(pn1, pd1) <= u64::MAX) by {
                    assert(1 <= (j + 1) as nat <= e as nat);
                }
            }
            acc = acc.multiply(self);
            j = j + 1;
        }
        acc
    }
}

impl From<(u32, u32)> for Ratio {
    /// Builds the fraction `value.0 / value.1`, exactly as given.
    fn from(value: (u32, u32)) -> (r: Ratio) {
        Ratio { dividend: value.0 as u64, divisor: value.1 as u64 }
    }
}

impl vstd::std_specs::convert::FromSpecImpl<(u32, u32)> for Ratio {
    open spec fn obeys_from_spec() -> bool {
        true
    }

    open spec fn from_spec(value: (u32, u32)) -> Ratio {
        Ratio { dividend: value.0 as u64, divisor: value.1 as u64 }
    }
}

} // verus!
