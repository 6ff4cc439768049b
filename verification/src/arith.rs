//! Divisibility, greatest common divisors, and the uniqueness of reduced
//! fractions.  These facts carry the ratio arithmetic of the pitch lattice.

use vstd::prelude::*;
use vstd::arithmetic::div_mod::{
    lemma_fundamental_div_mod, lemma_fundamental_div_mod_converse,
};
use vstd::arithmetic::mul::{
    lemma_mul_is_distributive_add, lemma_mul_is_distributive_sub, lemma_mul_is_associative,
    lemma_mul_is_commutative, lemma_mul_inequality, lemma_mul_strictly_positive,
};

verus! {

/// `d` divides `n`.
pub open spec fn divides(d: int, n: int) -> bool {
    exists|k: int| n == #[trigger] (d * k)
}

/// The greatest common divisor, by Euclid's algorithm.
pub open spec fn spec_gcd(a: int, b: int) -> int
    recommends
        a >= 0,
        b >= 0,
    decreases b,
{
    if b <= 0 {
        a
    } else {
        spec_gcd(b, a % b)
    }
}

/// The greatest common divisor divides both of its arguments.
pub proof fn lemma_gcd_divides(a: int, b: int)
    requires
        a >= 0,
        b >= 0,
    ensures
        divides(spec_gcd(a, b), a),
        divides(spec_gcd(a, b), b),
    decreases b,
{
    if b == 0 {
        assert(a == spec_gcd(a, b) * 1);
        assert(0int == spec_gcd(a, b) * 0);
    } else {
        lemma_gcd_divides(b, a % b);
        let g = spec_gcd(b, a % b);
        let k1 = choose|k: int| b == #[trigger] (g * k);
        let k2 = choose|k: int| a % b == #[trigger] (g * k);
        lemma_fundamental_div_mod(a, b);
        assert(a == b * (a / b) + a % b);
        assert(a == g * (k1 * (a / b)) + g * k2) by {
            lemma_mul_is_associative(g, k1, a / b);
        }
        assert(a == g * (k1 * (a / b) + k2)) by {
            lemma_mul_is_distributive_add(g, k1 * (a / b), k2);
        }
    }
}

/// The greatest common divisor of two numbers, not both zero, is positive.
pub proof fn lemma_gcd_pos(a: int, b: int)
    requires
        a >= 0,
        b >= 0,
        a > 0 || b > 0,
    ensures
        spec_gcd(a, b) > 0,
    decreases b,
{
    if b > 0 {
        lemma_gcd_pos(b, a % b);
    }
}

/// Every common divisor of `a` and `b` divides their greatest common divisor.
pub proof fn lemma_divides_gcd(c: int, a: int, b: int)
    requires
        a >= 0,
        b >= 0,
        divides(c, a),
        divides(c, b),
    ensures
        divides(c, spec_gcd(a, b)),
    decreases b,
{
    if b == 0 {
    } else {
        let k1 = choose|k: int| a == #[trigger] (c * k);
        let k2 = choose|k: int| b == #[trigger] (c * k);
        lemma_fundamental_div_mod(a, b);
        assert(a % b == a - b * (a / b));
        assert(b * (a / b) == c * (k2 * (a / b))) by {
            lemma_mul_is_associative(c, k2, a / b);
        }
        assert(a % b == c * k1 - c * (k2 * (a / b)));
        assert(a % b == c * (k1 - k2 * (a / b))) by {
            lemma_mul_is_distributive_sub(c, k1, k2 * (a / b));
        }
        assert(divides(c, a % b));
        lemma_divides_gcd(c, b, a % b);
    }
}

/// A positive divisor of a positive number is no larger than it.
pub proof fn lemma_divides_le(d: int, n: int)
    requires
        d > 0,
        n > 0,
        divides(d, n),
    ensures
        d <= n,
{
    let k = choose|k: int| n == #[trigger] (d * k);
    if k <= 0 {
        assert(d * k <= d * 0) by {
            lemma_mul_inequality(k, 0, d);
            lemma_mul_is_commutative(d, k);
        }
    } else {
        assert(d * 1 <= d * k) by {
            lemma_mul_inequality(1, k, d);
            lemma_mul_is_commutative(d, 1);
            lemma_mul_is_commutative(d, k);
        }
    }
}

/// Scaling both operands of a Euclidean remainder scales the remainder.
pub proof fn lemma_mod_scale(a: int, b: int, k: int)
    requires
        a >= 0,
        b > 0,
        k > 0,
    ensures
        (k * a) % (k * b) == k * (a % b),
{
    lemma_fundamental_div_mod(a, b);
    assert(a == b * (a / b) + a % b);
    assert(k * a == k * (b * (a / b)) + k * (a % b)) by {
        lemma_mul_is_distributive_add(k, b * (a / b), a % b);
    }
    assert(k * (b * (a / b)) == (k * b) * (a / b)) by {
        lemma_mul_is_associative(k, b, a / b);
    }
    assert(k * b > 0) by {
        lemma_mul_strictly_positive(k, b);
    }
    assert(k * (a % b) < k * b) by {
        lemma_mul_strict_inequality_helper(a % b, b, k);
    }
    assert(k * (a % b) >= 0) by {
        vstd::arithmetic::mul::lemma_mul_nonnegative(k, a % b);
    }
    lemma_fundamental_div_mod_converse(k * a, k * b, a / b, k * (a % b));
}

proof fn lemma_mul_strict_inequality_helper(x: int, y: int, k: int)
    requires
        x < y,
        k > 0,
    ensures
        k * x < k * y,
{
    vstd::arithmetic::mul::lemma_mul_strict_inequality(x, y, k);
    lemma_mul_is_commutative(k, x);
    lemma_mul_is_commutative(k, y);
}

/// Scaling both arguments of the greatest common divisor scales the result.
pub proof fn lemma_gcd_scale(a: int, b: int, k: int)
    requires
        a >= 0,
        b >= 0,
        k > 0,
    ensures
        spec_gcd(k * a, k * b) == k * spec_gcd(a, b),
    decreases b,
{
    if b == 0 {
        assert(k * b == 0);
    } else {
        assert(k * b > 0) by {
            lemma_mul_strictly_positive(k, b);
        }
        lemma_mod_scale(a, b, k);
        assert(spec_gcd(k * a, k * b) == spec_gcd(k * b, (k * a) % (k * b)));
        assert((k * a) % (k * b) == k * (a % b));
        lemma_gcd_scale(b, a % b, k);
    }
}

/// Euclid's lemma: a number coprime to `b` that divides `b * c` divides `c`.
pub proof fn lemma_euclid(a: int, b: int, c: int)
    requires
        a > 0,
        b >= 0,
        c >= 0,
        spec_gcd(a, b) == 1,
        divides(a, b * c),
    ensures
        divides(a, c),
{
    if c == 0 {
        assert(0int == a * 0);
    } else {
        assert(divides(a, a * c)) by {
            assert(a * c == a * c);
        }
        assert(divides(a, c * a)) by {
            lemma_mul_is_commutative(a, c);
        }
        assert(divides(a, c * b)) by {
            lemma_mul_is_commutative(b, c);
        }
        assert(c * a >= 0 && c * b >= 0) by {
            vstd::arithmetic::mul::lemma_mul_nonnegative(c, a);
            vstd::arithmetic::mul::lemma_mul_nonnegative(c, b);
        }
        lemma_divides_gcd(a, c * a, c * b);
        lemma_gcd_scale(a, b, c);
        assert(spec_gcd(c * a, c * b) == c * spec_gcd(a, b));
        assert(c * spec_gcd(a, b) == c);
    }
}

/// Dividing two positive numbers by their greatest common divisor leaves
/// coprime quotients.
pub proof fn lemma_coprime_quotients(a: int, b: int)
    requires
        a > 0,
        b > 0,
    ensures
        spec_gcd(a, b) > 0,
        a % spec_gcd(a, b) == 0,
        b % spec_gcd(a, b) == 0,
        a / spec_gcd(a, b) > 0,
        b / spec_gcd(a, b) > 0,
        spec_gcd(a / spec_gcd(a, b), b / spec_gcd(a, b)) == 1,
{
    let g = spec_gcd(a, b);
    lemma_gcd_pos(a, b);
    lemma_gcd_divides(a, b);
    lemma_divides_mod_zero(g, a);
    lemma_divides_mod_zero(g, b);
    let a1 = a / g;
    let b1 = b / g;
    assert(a == g * a1);
    assert(b == g * b1);
    assert(a1 > 0) by {
        if a1 <= 0 {
            assert(g * a1 <= g * 0) by {
                lemma_mul_inequality(a1, 0, g);
                lemma_mul_is_commutative(g, a1);
                lemma_mul_is_commutative(g, 0);
            }
        }
    }
    assert(b1 > 0) by {
        if b1 <= 0 {
            assert(g * b1 <= g * 0) by {
                lemma_mul_inequality(b1, 0, g);
                lemma_mul_is_commutative(g, b1);
                lemma_mul_is_commutative(g, 0);
            }
        }
    }
    let d = spec_gcd(a1, b1);
    lemma_gcd_pos(a1, b1);
    lemma_gcd_divides(a1, b1);
    let k1 = choose|k: int| a1 == #[trigger] (d * k);
    let k2 = choose|k: int| b1 == #[trigger] (d * k);
    assert(a == (g * d) * k1) by {
        lemma_mul_is_associative(g, d, k1);
    }
    assert(b == (g * d) * k2) by {
        lemma_mul_is_associative(g, d, k2);
    }
    lemma_divides_gcd(g * d, a, b);
    assert(g * d > 0) by {
        lemma_mul_strictly_positive(g, d);
    }
    lemma_divides_le(g * d, g);
    assert(d <= 1) by {
        if d > 1 {
            assert(g * d > g * 1) by {
                lemma_mul_strict_inequality_helper(1, d, g);
            }
        }
    }
}

/// A divisor of `n` leaves no remainder.
pub proof fn lemma_divides_mod_zero(d: int, n: int)
    requires
        d > 0,
        n >= 0,
        divides(d, n),
    ensures
        n % d == 0,
        n == d * (n / d),
{
    let k = choose|k: int| n == #[trigger] (d * k);
    assert(k >= 0) by {
        if k < 0 {
            assert(d * k <= d * (-1)) by {
                lemma_mul_inequality(k, -1, d);
                lemma_mul_is_commutative(d, k);
                lemma_mul_is_commutative(d, -1);
            }
        }
    }
    lemma_fundamental_div_mod_converse(n, d, k, 0);
    lemma_fundamental_div_mod(n, d);
}

/// A fraction in lowest terms is determined by its value: equal cross
/// products together with coprimality force equal parts.
pub proof fn lemma_unique_reduced(a: int, b: int, c: int, d: int)
    requires
        a > 0,
        b > 0,
        c > 0,
        d > 0,
        a * d == c * b,
        spec_gcd(a, b) == 1,
        spec_gcd(c, d) == 1,
    ensures
        a == c,
        b == d,
{
    assert(divides(a, b * c)) by {
        lemma_mul_is_commutative(c, b);
        lemma_mul_is_commutative(b, c);
        assert(b * c == a * d);
    }
    lemma_euclid(a, b, c);
    assert(divides(c, d * a)) by {
        lemma_mul_is_commutative(c, b);
        assert(a * d == b * c);
        lemma_mul_is_commutative(a, d);
        lemma_mul_is_commutative(b, c);
    }
    lemma_euclid(c, d, a);
    lemma_divides_le(a, c);
    lemma_divides_le(c, a);
    assert(a == c);
    assert(a * d == a * b) by {
        lemma_mul_is_commutative(c, b);
    }
    assert(d == b) by {
        if d < b {
            assert(a * d < a * b) by {
                lemma_mul_strict_inequality_helper(d, b, a);
            }
        }
        if b < d {
            assert(a * b < a * d) by {
                lemma_mul_strict_inequality_helper(b, d, a);
            }
        }
    }
}

/// Euclid's algorithm, executed on machine integers.
pub fn gcd_u128(a: u128, b: u128) -> (r: u128)
    ensures
        r == spec_gcd(a as int, b as int),
{
    let mut x = a;
    let mut y = b;
    while y != 0
        invariant
            spec_gcd(x as int, y as int) == spec_gcd(a as int, b as int),
        decreases y,
    {
        let t = x % y;
        x = y;
        y = t;
    }
    x
}

} // verus!
