//! Divisibility and the greatest common divisor on natural numbers.

use vstd::arithmetic::div_mod::{
    lemma_fundamental_div_mod, lemma_mod_multiples_basic, lemma_truncate_middle,
};
use vstd::arithmetic::power2::{lemma_pow2_unfold, pow2};
use vstd::prelude::*;

verus! {

/// Whether `d` divides `n`. Zero divides only zero.
pub open spec fn divides(d: nat, n: nat) -> bool {
    if d == 0 {
        n == 0
    } else {
        n % d == 0
    }
}

/// The greatest common divisor, by Euclid's recursion. `spec_gcd(0, 0)` is 0.
pub open spec fn spec_gcd(a: nat, b: nat) -> nat
    decreases b,
{
    if b == 0 {
        a
    } else {
        spec_gcd(b, a % b)
    }
}

/// `g` divides both `a` and `b`, and every common divisor of the two divides `g`.
pub open spec fn is_gcd(a: nat, b: nat, g: nat) -> bool {
    &&& divides(g, a)
    &&& divides(g, b)
    &&& forall|d: nat| divides(d, a) && divides(d, b) ==> #[trigger] divides(d, g)
}

/// Every multiple of `d` is divisible by `d`.
pub proof fn lemma_divides_multiple(d: nat, k: nat)
    ensures
        divides(d, d * k),
{
    if d == 0 {
        assert(d * k == 0) by (nonlinear_arith)
            requires
                d == 0,
        ;
    } else {
        lemma_mod_multiples_basic(k as int, d as int);
        assert(d * k == k * d) by (nonlinear_arith);
    }
}

/// A number that `d` divides is `d` times the quotient.
pub proof fn lemma_divides_quotient(d: nat, n: nat)
    requires
        divides(d, n),
    ensures
        n == d * (n / d),
{
    if d == 0 {
        assert(d * (n / d) == 0) by (nonlinear_arith)
            requires
                d == 0,
        ;
    } else {
        lemma_fundamental_div_mod(n as int, d as int);
    }
}

/// A divisor of two numbers divides their sum.
pub proof fn lemma_divides_add(d: nat, a: nat, b: nat)
    requires
        divides(d, a),
        divides(d, b),
    ensures
        divides(d, a + b),
{
    lemma_divides_quotient(d, a);
    lemma_divides_quotient(d, b);
    let k = a / d + b / d;
    assert(a + b == d * k) by (nonlinear_arith)
        requires
            a == d * (a / d),
            b == d * (b / d),
            k == a / d + b / d,
    ;
    lemma_divides_multiple(d, k);
}

/// A divisor of two numbers divides their difference.
pub proof fn lemma_divides_sub(d: nat, a: nat, b: nat)
    requires
        divides(d, a),
        divides(d, b),
        b <= a,
    ensures
        divides(d, (a - b) as nat),
{
    lemma_divides_quotient(d, a);
    lemma_divides_quotient(d, b);
    if d != 0 {
        let ka = a / d;
        let kb = b / d;
        assert(kb <= ka) by (nonlinear_arith)
            requires
                d > 0,
                d * kb <= d * ka,
        ;
        let k = (ka - kb) as nat;
        assert(a - b == d * k) by (nonlinear_arith)
            requires
                a == d * ka,
                b == d * kb,
                k == ka - kb,
        ;
        lemma_divides_multiple(d, k);
    }
}

/// Divisibility is transitive.
pub proof fn lemma_divides_trans(a: nat, b: nat, c: nat)
    requires
        divides(a, b),
        divides(b, c),
    ensures
        divides(a, c),
{
    lemma_divides_quotient(a, b);
    lemma_divides_quotient(b, c);
    let k = (b / a) * (c / b);
    assert(c == a * k) by (nonlinear_arith)
        requires
            b == a * (b / a),
            c == b * (c / b),
            k == (b / a) * (c / b),
    ;
    lemma_divides_multiple(a, k);
}

/// A divisor of a positive number is positive and no larger than it.
pub proof fn lemma_divides_le(d: nat, n: nat)
    requires
        divides(d, n),
        n > 0,
    ensures
        0 < d <= n,
{
    lemma_divides_quotient(d, n);
    let k = n / d;
    assert(0 < d && d <= n) by (nonlinear_arith)
        requires
            n == d * k,
            n > 0,
            d >= 0,
            k >= 0,
    ;
}

/// Two numbers that divide each other are the same.
pub proof fn lemma_divides_antisym(a: nat, b: nat)
    requires
        divides(a, b),
        divides(b, a),
    ensures
        a == b,
{
    if a != 0 {
        lemma_divides_le(b, a);
        lemma_divides_le(a, b);
    }
}

/// Every number divides itself and zero.
pub proof fn lemma_divides_self_and_zero(a: nat)
    ensures
        divides(a, a),
        divides(a, 0),
{
    lemma_divides_multiple(a, 1);
    lemma_divides_multiple(a, 0);
    assert(a * 1 == a && a * 0 == 0) by (nonlinear_arith);
}

/// `spec_gcd(a, b)` divides both `a` and `b`.
pub proof fn lemma_gcd_divides(a: nat, b: nat)
    ensures
        divides(spec_gcd(a, b), a),
        divides(spec_gcd(a, b), b),
    decreases b,
{
    if b == 0 {
        lemma_divides_self_and_zero(a);
    } else {
        let g = spec_gcd(b, a % b);
        lemma_gcd_divides(b, a % b);
        lemma_fundamental_div_mod(a as int, b as int);
        lemma_divides_multiple(b, a / b);
        lemma_divides_trans(g, b, b * (a / b));
        lemma_divides_add(g, b * (a / b), a % b);
    }
}

/// Every common divisor of `a` and `b` divides `spec_gcd(a, b)`.
pub proof fn lemma_gcd_greatest(a: nat, b: nat, d: nat)
    requires
        divides(d, a),
        divides(d, b),
    ensures
        divides(d, spec_gcd(a, b)),
    decreases b,
{
    if b != 0 {
        lemma_fundamental_div_mod(a as int, b as int);
        lemma_divides_multiple(b, a / b);
        lemma_divides_trans(d, b, b * (a / b));
        lemma_divides_sub(d, a, b * (a / b));
        lemma_gcd_greatest(b, a % b, d);
    }
}

/// `spec_gcd(a, b)` is a greatest common divisor of `a` and `b`.
pub proof fn lemma_gcd_is_gcd(a: nat, b: nat)
    ensures
        is_gcd(a, b, spec_gcd(a, b)),
{
    lemma_gcd_divides(a, b);
    assert forall|d: nat| divides(d, a) && divides(d, b) implies #[trigger] divides(
        d,
        spec_gcd(a, b),
    ) by {
        lemma_gcd_greatest(a, b, d);
    }
}

/// A greatest common divisor of `a` and `b` is `spec_gcd(a, b)`: there is only one.
pub proof fn lemma_gcd_unique(a: nat, b: nat, g: nat)
    requires
        is_gcd(a, b, g),
    ensures
        g == spec_gcd(a, b),
{
    lemma_gcd_divides(a, b);
    lemma_gcd_greatest(a, b, g);
    assert(divides(spec_gcd(a, b), g));
    lemma_divides_antisym(g, spec_gcd(a, b));
}

/// The greatest common divisor does not depend on the order of its arguments.
pub proof fn lemma_gcd_symmetric(a: nat, b: nat)
    ensures
        spec_gcd(a, b) == spec_gcd(b, a),
{
    lemma_gcd_is_gcd(a, b);
    let g = spec_gcd(a, b);
    assert(is_gcd(b, a, g));
    lemma_gcd_unique(b, a, g);
}

/// With zero the greatest common divisor is the other number, and of a number
/// with itself it is that number.
pub proof fn lemma_gcd_base(n: nat)
    ensures
        spec_gcd(0, n) == n,
        spec_gcd(n, 0) == n,
        spec_gcd(n, n) == n,
{
    lemma_gcd_symmetric(0, n);
    lemma_divides_self_and_zero(n);
    assert(is_gcd(n, n, n));
    lemma_gcd_unique(n, n, n);
}

/// Beside a number that is not zero the greatest common divisor is not zero.
pub proof fn lemma_gcd_positive(a: nat, b: nat)
    requires
        a != 0 || b != 0,
    ensures
        spec_gcd(a, b) > 0,
{
    lemma_gcd_divides(a, b);
}

/// Where two numbers are not both zero, no common divisor is larger than their
/// greatest common divisor.
pub proof fn lemma_gcd_largest(a: nat, b: nat, d: nat)
    requires
        a != 0 || b != 0,
        divides(d, a),
        divides(d, b),
    ensures
        d <= spec_gcd(a, b),
{
    lemma_gcd_positive(a, b);
    lemma_gcd_greatest(a, b, d);
    lemma_divides_le(d, spec_gcd(a, b));
}

/// The greatest common divisor of a number and one of its divisors is the
/// divisor.
pub proof fn lemma_gcd_of_multiple(n: nat, d: nat)
    requires
        divides(d, n),
    ensures
        spec_gcd(n, d) == d,
{
    if d != 0 {
        assert(spec_gcd(n, d) == spec_gcd(d, n % d));
        assert(spec_gcd(d, 0) == d);
    }
}

/// A common factor can be taken out of the greatest common divisor.
pub proof fn lemma_gcd_scale(c: nat, a: nat, b: nat)
    ensures
        spec_gcd(c * a, c * b) == c * spec_gcd(a, b),
    decreases b,
{
    if b == 0 {
        assert(c * b == 0) by (nonlinear_arith)
            requires
                b == 0,
        ;
    } else if c == 0 {
        assert(c * a == 0 && c * b == 0 && c * spec_gcd(a, b) == 0) by (nonlinear_arith)
            requires
                c == 0,
        ;
    } else {
        assert(c * b > 0) by (nonlinear_arith)
            requires
                c > 0,
                b > 0,
        ;
        lemma_truncate_middle(a as int, c as int, b as int);
        lemma_gcd_scale(c, b, a % b);
    }
}

/// Subtracting the smaller number from the larger keeps the greatest common
/// divisor.
pub proof fn lemma_gcd_sub(n: nat, m: nat)
    requires
        n <= m,
    ensures
        spec_gcd(n, (m - n) as nat) == spec_gcd(n, m),
{
    let r = (m - n) as nat;
    let g = spec_gcd(n, r);
    lemma_gcd_is_gcd(n, r);
    lemma_divides_add(g, n, r);
    assert forall|d: nat| divides(d, n) && divides(d, m) implies #[trigger] divides(d, g) by {
        lemma_divides_sub(d, m, n);
    }
    lemma_gcd_unique(n, m, g);
}

/// An odd divisor of twice a number divides the number.
pub proof fn lemma_odd_divides_half(d: nat, v: nat)
    requires
        d % 2 == 1,
        divides(d, 2 * v),
    ensures
        divides(d, v),
{
    lemma_divides_quotient(d, 2 * v);
    let k = (2 * v) / d;
    let e = d / 2;
    let f = k / 2;
    if k % 2 == 1 {
        assert(d * k == 2 * (2 * e * f + e + f) + 1) by (nonlinear_arith)
            requires
                d == 2 * e + 1,
                k == 2 * f + 1,
        ;
        assert(false);
    }
    assert(v == d * f) by (nonlinear_arith)
        requires
            2 * v == d * k,
            k == 2 * f,
    ;
    lemma_divides_multiple(d, f);
}

/// A divisor of an odd number is odd.
pub proof fn lemma_divisor_of_odd(d: nat, n: nat)
    requires
        n % 2 == 1,
        divides(d, n),
    ensures
        d % 2 == 1,
{
    lemma_divides_quotient(d, n);
    let k = n / d;
    let e = d / 2;
    if d % 2 == 0 {
        assert(n == 2 * (e * k)) by (nonlinear_arith)
            requires
                n == d * k,
                d == 2 * e,
        ;
        assert(false);
    }
}

/// Beside an odd number, a factor of two in the other number does not change the
/// greatest common divisor.
pub proof fn lemma_gcd_strip_two(n: nat, v: nat)
    requires
        n % 2 == 1,
    ensures
        spec_gcd(n, 2 * v) == spec_gcd(n, v),
{
    let g = spec_gcd(n, v);
    lemma_gcd_is_gcd(n, v);
    lemma_divides_multiple(v, 2);
    assert(v * 2 == 2 * v);
    lemma_divides_trans(g, v, 2 * v);
    assert forall|d: nat| divides(d, n) && divides(d, 2 * v) implies #[trigger] divides(d, g) by {
        lemma_divisor_of_odd(d, n);
        lemma_odd_divides_half(d, v);
    }
    lemma_gcd_unique(n, 2 * v, g);
}

/// Beside an odd number, a power of two in the other number does not change the
/// greatest common divisor.
pub proof fn lemma_gcd_strip_pow2(n: nat, v: nat, t: nat)
    requires
        n % 2 == 1,
    ensures
        spec_gcd(n, pow2(t) * v) == spec_gcd(n, v),
    decreases t,
{
    if t == 0 {
        vstd::arithmetic::power2::lemma2_to64();
        assert(1 * v == v);
    } else {
        lemma_pow2_unfold(t);
        let p = pow2((t - 1) as nat);
        assert(pow2(t) * v == 2 * (p * v)) by (nonlinear_arith)
            requires
                pow2(t) == 2 * p,
        ;
        lemma_gcd_strip_two(n, p * v);
        lemma_gcd_strip_pow2(n, v, (t - 1) as nat);
    }
}

/// Of two odd numbers times powers of two, the greatest common divisor is that
/// of the odd numbers times the smaller power of two.
pub proof fn lemma_gcd_pow2_factors(u: nat, v: nat, i: nat, j: nat)
    requires
        u % 2 == 1,
        v % 2 == 1,
    ensures
        spec_gcd(pow2(i) * u, pow2(j) * v) == pow2(if i <= j { i } else { j }) * spec_gcd(u, v),
{
    if i <= j {
        let t = (j - i) as nat;
        vstd::arithmetic::power2::lemma_pow2_adds(i, t);
        assert(pow2(j) * v == pow2(i) * (pow2(t) * v)) by (nonlinear_arith)
            requires
                pow2(j) == pow2(i) * pow2(t),
        ;
        lemma_gcd_scale(pow2(i), u, pow2(t) * v);
        lemma_gcd_strip_pow2(u, v, t);
    } else {
        let t = (i - j) as nat;
        vstd::arithmetic::power2::lemma_pow2_adds(j, t);
        assert(pow2(i) * u == pow2(j) * (pow2(t) * u)) by (nonlinear_arith)
            requires
                pow2(i) == pow2(j) * pow2(t),
        ;
        lemma_gcd_scale(pow2(j), pow2(t) * u, v);
        lemma_gcd_symmetric(pow2(t) * u, v);
        lemma_gcd_strip_pow2(v, u, t);
        lemma_gcd_symmetric(v, u);
    }
}

/// Dividing two numbers by their greatest common divisor leaves two numbers
/// whose greatest common divisor is one.
pub proof fn lemma_reduced_coprime(n: nat, d: nat)
    requires
        d > 0,
    ensures
        spec_gcd(n, d) > 0,
        n == spec_gcd(n, d) * (n / spec_gcd(n, d)),
        d == spec_gcd(n, d) * (d / spec_gcd(n, d)),
        d / spec_gcd(n, d) > 0,
        spec_gcd(n / spec_gcd(n, d), d / spec_gcd(n, d)) == 1,
{
    let g = spec_gcd(n, d);
    let x = n / g;
    let y = d / g;
    lemma_gcd_positive(n, d);
    lemma_gcd_divides(n, d);
    lemma_divides_quotient(g, n);
    lemma_divides_quotient(g, d);
    lemma_gcd_scale(g, x, y);
    let c = spec_gcd(x, y);
    assert(c == 1) by (nonlinear_arith)
        requires
            g == g * c,
            g > 0,
    ;
    assert(y > 0) by (nonlinear_arith)
        requires
            d == g * y,
            d > 0,
            g > 0,
    ;
}

/// A number that divides a product and has no factor in common with one of the
/// factors divides the other.
pub proof fn lemma_coprime_divides(x: nat, y: nat, z: nat)
    requires
        spec_gcd(x, y) == 1,
        divides(x, y * z),
    ensures
        divides(x, z),
{
    lemma_divides_multiple(x, z);
    assert(x * z == z * x && y * z == z * y) by (nonlinear_arith);
    lemma_gcd_greatest(z * x, z * y, x);
    lemma_gcd_scale(z, x, y);
    assert(z * 1 == z);
}

/// Two fractions in lowest terms with equal cross products are the same pair
/// of numbers.
pub proof fn lemma_lowest_terms_unique(x1: nat, y1: nat, x2: nat, y2: nat)
    requires
        spec_gcd(x1, y1) == 1,
        spec_gcd(x2, y2) == 1,
        x1 * y2 == x2 * y1,
    ensures
        x1 == x2,
        y1 == y2,
{
    assert(x1 * y2 == y2 * x1 && x2 * y1 == y1 * x2) by (nonlinear_arith);
    lemma_divides_multiple(x1, y2);
    lemma_coprime_divides(x1, y1, x2);
    lemma_divides_multiple(x2, y1);
    lemma_coprime_divides(x2, y2, x1);
    lemma_divides_antisym(x1, x2);
    lemma_gcd_symmetric(x1, y1);
    lemma_gcd_symmetric(x2, y2);
    lemma_divides_multiple(y1, x2);
    lemma_coprime_divides(y1, x1, y2);
    lemma_divides_multiple(y2, x1);
    lemma_coprime_divides(y2, x2, y1);
    lemma_divides_antisym(y1, y2);
}

} // verus!
