//! What holds of rational values in general: of equality, order, arithmetic,
//! reduction, the reciprocal and the integer and fractional parts.
//!
//! Each statement is over the model of a value, [`Ratio`], in which the
//! contracts of the operations are written.

use crate::divisibility::{lemma_lowest_terms_unique, lemma_reduced_coprime, spec_gcd};
use crate::ratio::{lemma_eqv_by_magnitudes, lemma_from_int_num, Ratio};
use crate::rounding::{Ceil, Floor, RoundingDirectionDecider, TowardNearest};
use vstd::arithmetic::div_mod::lemma_fundamental_div_mod;
use vstd::prelude::*;

verus! {

/// Equality is reflexive and symmetric.
pub proof fn law_eq_reflexive_symmetric(a: Ratio, b: Ratio)
    ensures
        a.eqv(a),
        a.eqv(b) == b.eqv(a),
{
}

/// Equality is transitive.
pub proof fn law_eq_transitive(a: Ratio, b: Ratio, c: Ratio)
    requires
        a.wf(),
        b.wf(),
        c.wf(),
        a.eqv(b),
        b.eqv(c),
    ensures
        a.eqv(c),
{
    let (x, y, z) = (a.num(), b.num(), c.num());
    let (d1, d2, d3) = (a.denom as int, b.denom as int, c.denom as int);
    assert(x * d3 == z * d1) by (nonlinear_arith)
        requires
            x * d2 == y * d1,
            y * d3 == z * d2,
            d2 > 0,
    {
        assert((x * d3) * d2 == (x * d2) * d3);
        assert((z * d1) * d2 == (z * d2) * d1);
        assert((y * d1) * d3 == (y * d3) * d1);
    }
}

/// Two values with a zero numerator are equal, whatever their signs and
/// denominators.
pub proof fn law_zeros_equal(a: Ratio, b: Ratio)
    requires
        a.is_zero(),
        b.is_zero(),
    ensures
        a.eqv(b),
{
    assert(a.sign.unit() * 0 == 0 && b.sign.unit() * 0 == 0);
    assert(0 * (b.denom as int) == 0 && 0 * (a.denom as int) == 0);
}

/// Reduction keeps the value.
pub proof fn law_reduced_equal(a: Ratio)
    requires
        a.wf(),
    ensures
        a.reduced().wf(),
        a.reduced().eqv(a),
{
    lemma_reduced_coprime(a.numer, a.denom);
    let g = spec_gcd(a.numer, a.denom) as int;
    let (x, y) = (a.reduced().numer as int, a.reduced().denom as int);
    let s = a.sign.unit();
    assert((s * x) * (g * y) == (s * (g * x)) * y) by (nonlinear_arith);
}

/// Two values with the same sign and the same lowest terms are equal: equality
/// does not depend on the representation.
pub proof fn law_same_lowest_terms_equal(a: Ratio, b: Ratio)
    requires
        a.wf(),
        b.wf(),
        a.reduced() == b.reduced(),
    ensures
        a.eqv(b),
{
    law_reduced_equal(a);
    law_reduced_equal(b);
    law_eq_reflexive_symmetric(a.reduced(), a);
    law_eq_transitive(a, a.reduced(), b);
}

/// Equal values have the same canonical representation, which is what is
/// hashed: equal values hash alike.
pub proof fn law_equal_same_canonical(a: Ratio, b: Ratio)
    requires
        a.wf(),
        b.wf(),
        a.eqv(b),
    ensures
        a.canonical() == b.canonical(),
{
    lemma_eqv_by_magnitudes(a, b);
    lemma_reduced_coprime(a.numer, a.denom);
    lemma_reduced_coprime(b.numer, b.denom);
    let (g1, g2) = (spec_gcd(a.numer, a.denom), spec_gcd(b.numer, b.denom));
    let (x1, y1) = (a.numer / g1, a.denom / g1);
    let (x2, y2) = (b.numer / g2, b.denom / g2);
    assert(a.numer * b.denom == b.numer * a.denom) by (nonlinear_arith)
        requires
            (a.numer == 0 && b.numer == 0) || a.numer * b.denom == b.numer * a.denom,
    ;
    assert(x1 * y2 == x2 * y1) by (nonlinear_arith)
        requires
            (g1 * x1) * (g2 * y2) == (g2 * x2) * (g1 * y1),
            g1 > 0,
            g2 > 0,
    {
        assert((g1 * x1) * (g2 * y2) == (g1 * g2) * (x1 * y2));
        assert((g2 * x2) * (g1 * y1) == (g1 * g2) * (x2 * y1));
        assert(g1 * g2 > 0);
    }
    lemma_lowest_terms_unique(x1, y1, x2, y2);
    assert(x1 == 0 <==> a.numer == 0) by (nonlinear_arith)
        requires
            a.numer == g1 * x1,
            g1 > 0,
    ;
}

/// Of two values exactly one holds: the first comes before the second, they
/// are equal, or the second comes before the first. So the order is strict,
/// total and in agreement with equality.
pub proof fn law_order_trichotomy(a: Ratio, b: Ratio)
    requires
        a.wf(),
        b.wf(),
    ensures
        a.precedes(b) || a.eqv(b) || b.precedes(a),
        !(a.precedes(b) && a.eqv(b)),
        !(b.precedes(a) && a.eqv(b)),
        !(a.precedes(b) && b.precedes(a)),
{
    lemma_eqv_by_magnitudes(a, b);
    let (n1, d1) = (a.numer as int, a.denom as int);
    let (n2, d2) = (b.numer as int, b.denom as int);
    assert(n1 == 0 ==> n1 * d2 == 0) by (nonlinear_arith);
    assert(n2 == 0 ==> n2 * d1 == 0) by (nonlinear_arith);
    assert(n1 > 0 ==> n1 * d2 > 0) by (nonlinear_arith)
        requires
            d2 > 0,
    ;
    assert(n2 > 0 ==> n2 * d1 > 0) by (nonlinear_arith)
        requires
            d1 > 0,
    ;
}

/// No value comes before itself.
pub proof fn law_order_irreflexive(a: Ratio)
    ensures
        !a.precedes(a),
{
}

/// The order is transitive.
pub proof fn law_order_transitive(a: Ratio, b: Ratio, c: Ratio)
    requires
        a.wf(),
        b.wf(),
        c.wf(),
        a.precedes(b),
        b.precedes(c),
    ensures
        a.precedes(c),
{
    if a.class() == b.class() && b.class() == c.class() {
        let (n1, d1) = (a.numer as int, a.denom as int);
        let (n2, d2) = (b.numer as int, b.denom as int);
        let (n3, d3) = (c.numer as int, c.denom as int);
        assert(n1 * d3 < n3 * d1) by (nonlinear_arith)
            requires
                n1 * d2 < n2 * d1,
                n2 * d3 < n3 * d2,
                d1 > 0,
                d2 > 0,
                d3 > 0,
        {
            assert((n1 * d2) * d3 < (n2 * d1) * d3);
            assert((n2 * d3) * d1 < (n3 * d2) * d1);
            assert((n1 * d3) * d2 == (n1 * d2) * d3);
            assert((n2 * d1) * d3 == (n2 * d3) * d1);
            assert((n3 * d2) * d1 == (n3 * d1) * d2);
            assert((n1 * d3) * d2 < (n3 * d1) * d2);
        }
    }
}

/// Equal values stand at the same place in the order.
pub proof fn law_order_respects_eq(a: Ratio, b: Ratio, c: Ratio)
    requires
        a.wf(),
        b.wf(),
        c.wf(),
        a.eqv(b),
    ensures
        a.precedes(c) == b.precedes(c),
        c.precedes(a) == c.precedes(b),
{
    law_order_trichotomy(a, b);
    law_order_trichotomy(a, c);
    law_order_trichotomy(b, c);
    law_eq_reflexive_symmetric(a, b);
    law_eq_reflexive_symmetric(a, c);
    law_eq_reflexive_symmetric(b, c);
    if a.precedes(c) && !b.precedes(c) {
        if b.eqv(c) {
            law_eq_transitive(a, b, c);
        } else {
            law_order_transitive(a, c, b);
        }
    }
    if b.precedes(c) && !a.precedes(c) {
        if a.eqv(c) {
            law_eq_transitive(b, a, c);
        } else {
            law_order_transitive(b, c, a);
        }
    }
    if c.precedes(a) && !c.precedes(b) {
        if b.eqv(c) {
            law_eq_transitive(a, b, c);
        } else {
            law_order_transitive(b, c, a);
        }
    }
    if c.precedes(b) && !c.precedes(a) {
        if a.eqv(c) {
            law_eq_transitive(b, a, c);
        } else {
            law_order_transitive(a, c, b);
        }
    }
}

/// Every negative value comes before every zero, and every zero before every
/// positive value.
pub proof fn law_order_by_class(a: Ratio, b: Ratio)
    ensures
        a.is_negative() && b.is_zero() ==> a.precedes(b),
        a.is_zero() && b.is_positive() ==> a.precedes(b),
        a.is_negative() && b.is_positive() ==> a.precedes(b),
{
}

/// Adding a value and subtracting it again gives the first value back.
pub proof fn law_add_then_sub(a: Ratio, b: Ratio)
    requires
        a.wf(),
        b.wf(),
    ensures
        a.sum(b).difference(b).wf(),
        a.sum(b).difference(b).eqv(a),
{
    let (x, y) = (a.num(), b.num());
    let (d1, d2) = (a.denom as int, b.denom as int);
    let t = a.sum(b);
    lemma_from_int_num(x * d2 + y * d1, a.denom * b.denom);
    lemma_from_int_num(t.num() * d2 - y * t.denom, t.denom * b.denom);
    assert(d1 * d2 > 0 && (d1 * d2) * d2 > 0) by (nonlinear_arith)
        requires
            d1 > 0,
            d2 > 0,
    ;
    assert(((x * d2 + y * d1) * d2 - y * (d1 * d2)) * d1 == x * ((d1 * d2) * d2))
        by (nonlinear_arith);
}

/// Adding a value in place gives the same value as the sum.
pub proof fn law_sum_in_place_is_sum(a: Ratio, b: Ratio)
    ensures
        a.sum_in_place(b).num() == a.sum(b).num(),
        a.sum_in_place(b).denom == a.sum(b).denom,
{
    let (s1, n1, d1) = (a.sign.unit(), a.numer as int, a.denom as int);
    let (s2, n2, d2) = (b.sign.unit(), b.numer as int, b.denom as int);
    lemma_from_int_num(a.num() * d2 + b.num() * d1, a.denom * b.denom);
    let scaled = n1 * d2;
    let delta = n2 * d1;
    assert((s1 * n1) * d2 == s1 * scaled) by (nonlinear_arith)
        requires
            scaled == n1 * d2,
    ;
    assert((s2 * n2) * d1 == s2 * delta) by (nonlinear_arith)
        requires
            delta == n2 * d1,
    ;
    assert(s1 * (scaled + delta) == s1 * scaled + s1 * delta) by (nonlinear_arith);
    assert(s1 * (scaled - delta) == s1 * scaled - s1 * delta) by (nonlinear_arith);
    assert((-s1) * (delta - scaled) == s1 * scaled - s1 * delta) by (nonlinear_arith);
    assert(s2 == -s1 ==> s2 * delta == -(s1 * delta)) by (nonlinear_arith);
}

/// Multiplying by a value other than zero and dividing by it again gives the
/// first value back.
pub proof fn law_mul_then_div(a: Ratio, b: Ratio)
    requires
        a.wf(),
        b.wf(),
        !b.is_zero(),
    ensures
        a.product(b).quotient(b).wf(),
        a.product(b).quotient(b).eqv(a),
{
    let (s1, n1, d1) = (a.sign.unit(), a.numer as int, a.denom as int);
    let (n2, d2) = (b.numer as int, b.denom as int);
    let r = a.product(b).quotient(b);
    assert(r.sign == a.sign);
    assert((d1 * d2) * n2 > 0) by (nonlinear_arith)
        requires
            d1 > 0,
            d2 > 0,
            n2 > 0,
    ;
    assert((s1 * ((n1 * n2) * d2)) * d1 == (s1 * n1) * ((d1 * d2) * n2)) by (nonlinear_arith);
}

/// The reciprocal of the reciprocal is the value itself, representation
/// included.
pub proof fn law_recip_involution(a: Ratio)
    ensures
        a.reciprocal().reciprocal() == a,
{
}

/// The integer part and the fractional part of a value add up to the value.
pub proof fn law_trunc_plus_fract(a: Ratio)
    requires
        a.wf(),
    ensures
        a.trunc().sum(a.fract()).wf(),
        a.trunc().sum(a.fract()).eqv(a),
{
    let (s, n, d) = (a.sign.unit(), a.numer as int, a.denom as int);
    let q = n / d;
    let m = n % d;
    lemma_fundamental_div_mod(n, d);
    lemma_from_int_num(s * q, 1);
    let t = a.trunc();
    let f = a.fract();
    assert(t.num() == s * q);
    assert(f.num() == s * m);
    lemma_from_int_num(t.num() * d + f.num() * 1, 1 * a.denom);
    assert((s * q) * d + (s * m) * 1 == s * n) by (nonlinear_arith)
        requires
            n == d * q + m,
    ;
    assert(1 * a.denom == a.denom);
}

/// Rounding the magnitude towards zero gives the largest integer that is not
/// above it, and rounding it away from zero the smallest that is not below it.
pub proof fn law_abs_rounding_bounds(a: Ratio)
    requires
        a.wf(),
    ensures
        a.abs_floor() * a.denom <= a.numer < (a.abs_floor() + 1) * a.denom,
        (a.abs_ceil() - 1) * a.denom < a.numer <= a.abs_ceil() * a.denom,
{
    let (n, d) = (a.numer as int, a.denom as int);
    let q = n / d;
    let m = n % d;
    lemma_fundamental_div_mod(n, d);
    assert(q * d == d * q && (q + 1) * d == d * q + d && (q - 1) * d == d * q - d)
        by (nonlinear_arith);
}

/// Rounding with `Floor` gives the largest integer that is not above the value.
pub proof fn law_floor_is_largest_below(a: Ratio)
    requires
        a.wf(),
    ensures
        a.rounded(Floor.decision(a)) * a.denom <= a.num() < (a.rounded(Floor.decision(a)) + 1)
            * a.denom,
{
    law_abs_rounding_bounds(a);
    let (s, n, d) = (a.sign.unit(), a.numer as int, a.denom as int);
    let (f, c) = (a.abs_floor() as int, a.abs_ceil() as int);
    assert(s * n == n || s * n == -n) by (nonlinear_arith)
        requires
            s == 1 || s == -1,
    ;
    if a.is_negative() {
        assert(s * c == -c) by (nonlinear_arith)
            requires
                s == -1,
        ;
        assert((-c) * d == -(c * d) && (-c + 1) * d == -((c - 1) * d)) by (nonlinear_arith);
    } else if a.numer == 0 {
        assert(s * 0 == 0);
    } else {
        assert(s * f == f) by (nonlinear_arith)
            requires
                s == 1,
        ;
    }
}

/// Rounding with `Ceil` gives the smallest integer that is not below the
/// value.
pub proof fn law_ceil_is_smallest_above(a: Ratio)
    requires
        a.wf(),
    ensures
        (a.rounded(Ceil.decision(a)) - 1) * a.denom < a.num() <= a.rounded(Ceil.decision(a))
            * a.denom,
{
    law_abs_rounding_bounds(a);
    let (s, n, d) = (a.sign.unit(), a.numer as int, a.denom as int);
    let (f, c) = (a.abs_floor() as int, a.abs_ceil() as int);
    assert(s * n == n || s * n == -n) by (nonlinear_arith)
        requires
            s == 1 || s == -1,
    ;
    if a.is_positive() {
        assert(s * c == c) by (nonlinear_arith)
            requires
                s == 1,
        ;
    } else if a.numer == 0 {
        assert(s * 0 == 0);
        assert((0 - 1) * d == -d) by (nonlinear_arith);
    } else {
        assert(s * f == -f) by (nonlinear_arith)
            requires
                s == -1,
        ;
        assert((-f) * d == -(f * d) && (-f - 1) * d == -((f + 1) * d)) by (nonlinear_arith);
    }
}

/// Rounding to the nearest integer, whatever the tie breaker, gives an integer
/// that is no more than a half away from the value.
pub proof fn law_nearest_within_half<T: RoundingDirectionDecider>(t: TowardNearest<T>, a: Ratio)
    requires
        a.wf(),
    ensures
        -a.denom <= 2 * (a.rounded(t.decision(a)) * a.denom - a.num()) <= a.denom,
{
    let (s, n, d) = (a.sign.unit(), a.numer as int, a.denom as int);
    let q = n / d;
    let m = n % d;
    lemma_fundamental_div_mod(n, d);
    let r = a.abs_rounded(t.decision(a)) as int;
    assert(r == q || (r == q + 1 && m != 0));
    assert(2 * m > d ==> r == q + 1);
    assert(2 * m < d ==> r == q);
    assert(-d <= 2 * (r * d - n) <= d) by (nonlinear_arith)
        requires
            n == d * q + m,
            0 <= m < d,
            r == q || (r == q + 1 && m != 0),
            2 * m > d ==> r == q + 1,
            2 * m < d ==> r == q,
    {
        assert(q * d == d * q && (q + 1) * d == d * q + d);
    }
    assert((s * r) * d - s * n == s * (r * d - n)) by (nonlinear_arith);
    assert(s * (r * d - n) == r * d - n || s * (r * d - n) == -(r * d - n)) by (nonlinear_arith)
        requires
            s == 1 || s == -1,
    ;
}

} // verus!
