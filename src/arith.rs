//! Facts about integer division that the curve's proofs rest on.
use vstd::arithmetic::div_mod::{
    lemma_div_is_ordered, lemma_div_is_ordered_by_denominator, lemma_div_multiples_vanish,
    lemma_fundamental_div_mod, lemma_mod_pos_bound,
};
use vstd::arithmetic::mul::lemma_mul_is_commutative;
use vstd::prelude::*;

verus! {

/// A fixed numerator divided by a larger denominator gives a smaller quotient.
pub proof fn lemma_quotient_antitone(k: int, m1: int, m2: int)
    requires
        0 <= k,
        1 <= m1 <= m2,
    ensures
        k / m2 <= k / m1,
{
    lemma_div_is_ordered_by_denominator(k, m1, m2);
}

/// The quotient times its divisor never exceeds the numerator, and the remainder is below the
/// divisor.
pub proof fn lemma_quotient_bounds(k: int, m: int)
    requires
        0 <= k,
        1 <= m,
    ensures
        m * (k / m) <= k,
        k < m * (k / m) + m,
        0 <= k / m,
{
    lemma_fundamental_div_mod(k, m);
    lemma_mod_pos_bound(k, m);
    lemma_div_is_ordered(0, k, m);
}

/// Dividing the numerator back by a positive quotient never undershoots the divisor:
/// `k / (k / m) >= m`.
pub proof fn lemma_quotient_of_quotient(k: int, m: int)
    requires
        0 <= k,
        1 <= m,
        1 <= k / m,
    ensures
        k / (k / m) >= m,
{
    let q = k / m;
    lemma_quotient_bounds(k, m);
    lemma_mul_is_commutative(m, q);
    lemma_div_is_ordered(q * m, k, q);
    lemma_div_multiples_vanish(m, q);
}

/// Where `k * (m2 - m1) >= m1 * m2`, the quotients `k / m1` and `k / m2` differ by at least one.
pub proof fn lemma_quotient_gap(k: int, m1: int, m2: int)
    requires
        0 <= k,
        1 <= m1 < m2,
        k * (m2 - m1) >= m1 * m2,
    ensures
        k / m1 >= k / m2 + 1,
{
    let q2 = k / m2;
    lemma_quotient_bounds(k, m2);
    assert(m2 * (m1 * q2 + m1) <= m2 * k) by (nonlinear_arith)
        requires
            m2 * q2 <= k,
            k * (m2 - m1) >= m1 * m2,
            1 <= m1 < m2,
    ;
    assert(m1 * (q2 + 1) <= k) by (nonlinear_arith)
        requires
            m2 * (m1 * q2 + m1) <= m2 * k,
            1 <= m2,
    ;
    lemma_div_is_ordered(m1 * (q2 + 1), k, m1);
    lemma_div_multiples_vanish(q2 + 1, m1);
}

/// The drop of `k / d` over a step of `v` shrinks as `d` grows, up to the one unit that the two
/// floors can add: for `1 <= p1 <= p2`,
/// `k / p2 - k / (p2 + v) <= k / p1 - k / (p1 + v) + 1`.
pub proof fn lemma_quotient_drop_shrinks(k: int, p1: int, p2: int, v: int)
    requires
        0 <= k,
        1 <= p1 <= p2,
        0 <= v,
    ensures
        k / p2 - k / (p2 + v) <= k / p1 - k / (p1 + v) + 1,
{
    let n1 = p1 + v;
    let n2 = p2 + v;
    let a1 = k / p1;
    let b1 = k / n1;
    let a2 = k / p2;
    let b2 = k / n2;
    lemma_quotient_bounds(k, p1);
    lemma_quotient_bounds(k, n1);
    lemma_quotient_bounds(k, p2);
    lemma_quotient_bounds(k, n2);
    // The exact drop at p2 is k * v / (p2 * n2); the floored one exceeds it by less than one.
    assert(a2 * p2 * n2 <= k * n2) by (nonlinear_arith)
        requires
            p2 * a2 <= k,
            n2 >= 1,
    ;
    assert((b2 + 1) * n2 * p2 > k * p2) by (nonlinear_arith)
        requires
            k < n2 * b2 + n2,
            p2 >= 1,
    ;
    let y = p2 * n2;
    assert((a2 - b2 - 1) * y < k * v) by (nonlinear_arith)
        requires
            a2 * p2 * n2 <= k * n2,
            (b2 + 1) * n2 * p2 > k * p2,
            n2 == p2 + v,
            y == p2 * n2,
    ;
    // The exact drop at p1 is k * v / (p1 * n1); the floored one falls short by less than one.
    assert((a1 + 1) * p1 * n1 > k * n1) by (nonlinear_arith)
        requires
            k < p1 * a1 + p1,
            n1 >= 1,
    ;
    assert(b1 * n1 * p1 <= k * p1) by (nonlinear_arith)
        requires
            n1 * b1 <= k,
            p1 >= 1,
    ;
    let x = p1 * n1;
    assert((a1 - b1 + 1) * x > k * v) by (nonlinear_arith)
        requires
            (a1 + 1) * p1 * n1 > k * n1,
            b1 * n1 * p1 <= k * p1,
            n1 == p1 + v,
            x == p1 * n1,
    ;
    assert(0 < x <= y) by (nonlinear_arith)
        requires
            1 <= p1 <= p2,
            1 <= n1 <= n2,
            x == p1 * n1,
            y == p2 * n2,
    ;
    let w = k * v;
    assert(w >= 0) by (nonlinear_arith)
        requires
            k >= 0,
            v >= 0,
            w == k * v,
    ;
    let t = a2 - b2 - 1;
    let u = a1 - b1 + 1;
    assert(t < u) by (nonlinear_arith)
        requires
            t * y < w,
            u * x > w,
            0 < x <= y,
            w >= 0,
    ;
}

} // verus!
