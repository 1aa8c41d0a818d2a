//! Integer division helpers with explicit rounding, proved against the
//! mathematical (Euclidean) operators of specifications.

use vstd::arithmetic::div_mod::{
    lemma_fundamental_div_mod, lemma_fundamental_div_mod_converse, lemma_mod_pos_bound,
};
use vstd::prelude::*;

verus! {

/// Quotient of `x` by a positive `d`, rounded toward zero.
pub open spec fn trunc_div(x: int, d: int) -> int {
    if x >= 0 {
        x / d
    } else {
        -((-x) / d)
    }
}

/// Remainder matching `trunc_div`: it has the sign of `x`.
pub open spec fn trunc_rem(x: int, d: int) -> int {
    x - trunc_div(x, d) * d
}

/// Facts on the quotient and remainder of a natural `m` by a positive `d`.
proof fn lemma_div_rem_nat(m: int, d: int)
    requires
        m >= 0,
        d > 0,
    ensures
        m == (m / d) * d + m % d,
        0 <= m % d < d,
        0 <= m / d <= m,
{
    lemma_fundamental_div_mod(m, d);
    lemma_mod_pos_bound(m, d);
    let q = m / d;
    let r = m % d;
    assert(0 <= q <= m) by (nonlinear_arith)
        requires
            m == d * q + r,
            0 <= r < d,
            m >= 0,
    ;
    assert(d * q == q * d) by (nonlinear_arith);
}

/// Splits `x` into `(x / d, x % d)` rounding toward negative infinity.
pub fn floor_div_rem(x: i128, d: u64) -> (r: (i128, i128))
    requires
        d > 0,
    ensures
        r.0 == (x as int) / (d as int),
        r.1 == (x as int) % (d as int),
        0 <= r.1 < d,
{
    if x >= 0 {
        let m: u128 = x as u128;
        let q: u128 = m / (d as u128);
        let rem: u128 = m % (d as u128);
        proof {
            lemma_div_rem_nat(m as int, d as int);
        }
        (q as i128, rem as i128)
    } else {
        // x == -m - 1 with m >= 0; this avoids negating i128::MIN.
        let m: u128 = (-(x + 1)) as u128;
        let q0: u128 = m / (d as u128);
        let r0: u128 = m % (d as u128);
        proof {
            lemma_div_rem_nat(m as int, d as int);
        }
        let q: i128 = -(q0 as i128) - 1;
        let rem: i128 = (d as i128) - 1 - (r0 as i128);
        proof {
            assert(x as int == (q as int) * d + rem) by (nonlinear_arith)
                requires
                    x == -(m as int) - 1,
                    m as int == q0 * d + r0,
                    q == -(q0 as int) - 1,
                    rem == d - 1 - r0,
            ;
            lemma_fundamental_div_mod_converse(x as int, d as int, q as int, rem as int);
        }
        (q, rem)
    }
}

/// Splits `x` into quotient and remainder rounding toward zero.
pub fn trunc_div_rem(x: i128, d: u64) -> (r: (i128, i128))
    requires
        d > 0,
        x > i128::MIN,
    ensures
        r.0 == trunc_div(x as int, d as int),
        r.1 == trunc_rem(x as int, d as int),
        -(d as int) < r.1 < d,
{
    let m: u128 = if x >= 0 {
        x as u128
    } else {
        (-x) as u128
    };
    let q0: u128 = m / (d as u128);
    let r0: u128 = m % (d as u128);
    proof {
        lemma_div_rem_nat(m as int, d as int);
    }
    if x >= 0 {
        (q0 as i128, r0 as i128)
    } else {
        assert((-(q0 as int)) * d == -(q0 * d)) by (nonlinear_arith);
        (-(q0 as i128), -(r0 as i128))
    }
}

} // verus!
