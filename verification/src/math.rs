//! Exact integer arithmetic helpers: a multiply-then-divide that keeps full
//! precision through a 256-bit intermediate product, and an integer square
//! root.  The pricing formulas are built on these.

use vstd::prelude::*;

verus! {

use vstd::arithmetic::div_mod::{
    lemma_fundamental_div_mod, lemma_fundamental_div_mod_converse_div,
};

/// The split point used to halve a 64-bit factor: 2^32.
pub const SPLIT: u128 = 0x1_0000_0000;

/// Largest divisor `mul_div` accepts: 2^95.  Keeps every intermediate sum
/// below 2^128.
pub const MUL_DIV_DIVISOR_LIMIT: u128 = 0x8000_0000_0000_0000_0000_0000;

/// Largest second factor `mul_div` accepts: 2^64.
pub const MUL_DIV_FACTOR_LIMIT: u128 = 0x1_0000_0000_0000_0000;

/// Recombines the partial quotients of the split computation into the
/// quotient-and-remainder form of the full product.
proof fn lemma_mul_div_combine(
    a: int,
    b: int,
    d: int,
    q1: int,
    r1: int,
    s1: int,
    s0: int,
    q2: int,
    r2: int,
    q3: int,
    r3: int,
)
    by (nonlinear_arith)
    requires
        d >= 1,
        a == q1 * d + r1,
        0 <= r1 < d,
        b == s1 * 0x1_0000_0000 + s0,
        0 <= s0 < 0x1_0000_0000,
        0 <= s1,
        r1 * s1 == q2 * d + r2,
        0 <= r2 < d,
        r2 * 0x1_0000_0000 + r1 * s0 == q3 * d + r3,
        0 <= r3 < d,
    ensures
        a * b == (q1 * b + q2 * 0x1_0000_0000 + q3) * d + r3,
{
}

/// Computes `a * b / d` (floor) exactly, carrying the product at full
/// precision, or reports that the quotient does not fit a `u128`.
pub fn mul_div(a: u128, b: u128, d: u128) -> (r: Option<u128>)
    requires
        1 <= d < MUL_DIV_DIVISOR_LIMIT,
        b < MUL_DIV_FACTOR_LIMIT,
    ensures
        match r {
            Some(q) => q == a as int * b as int / (d as int),
            None => a as int * b as int / (d as int) > u128::MAX,
        },
{
    let q1 = a / d;
    let r1 = a % d;
    let s1 = b / SPLIT;
    let s0 = b % SPLIT;
    assert(r1 * s1 < 0x8000_0000_0000_0000_0000_0000_0000_0000) by (nonlinear_arith)
        requires
            r1 < 0x8000_0000_0000_0000_0000_0000,
            s1 < 0x1_0000_0000,
            0 <= r1,
            0 <= s1;
    let p = r1 * s1;
    let q2 = p / d;
    let r2 = p % d;
    assert(r2 * 0x1_0000_0000 + r1 * s0 <= u128::MAX) by (nonlinear_arith)
        requires
            r2 < 0x8000_0000_0000_0000_0000_0000,
            r1 < 0x8000_0000_0000_0000_0000_0000,
            0 <= r2,
            0 <= r1,
            0 <= s0 < 0x1_0000_0000;
    let rest = r2 * SPLIT + r1 * s0;
    let q3 = rest / d;
    let r3 = rest % d;
    let ghost quotient: int = q1 as int * b as int + q2 as int * 0x1_0000_0000 + q3 as int;
    proof {
        lemma_fundamental_div_mod(a as int, d as int);
        lemma_fundamental_div_mod(b as int, 0x1_0000_0000);
        lemma_fundamental_div_mod(p as int, d as int);
        lemma_fundamental_div_mod(rest as int, d as int);
        lemma_mul_div_combine(
            a as int,
            b as int,
            d as int,
            q1 as int,
            r1 as int,
            s1 as int,
            s0 as int,
            q2 as int,
            r2 as int,
            q3 as int,
            r3 as int,
        );
        assert(0 <= q1 as int * b as int) by (nonlinear_arith)
            requires
                0 <= q1,
                0 <= b;
        lemma_fundamental_div_mod_converse_div(
            a as int * b as int,
            d as int,
            quotient,
            r3 as int,
        );
    }
    let t1 = match q1.checked_mul(b) {
        Some(v) => v,
        None => {
            return None;
        },
    };
    let t2 = match q2.checked_mul(SPLIT) {
        Some(v) => v,
        None => {
            return None;
        },
    };
    let t3 = match t1.checked_add(t2) {
        Some(v) => v,
        None => {
            return None;
        },
    };
    let t4 = match t3.checked_add(q3) {
        Some(v) => v,
        None => {
            return None;
        },
    };
    Some(t4)
}

/// Largest `r` with `r * r <= n`.  Since `n` is below 2^128 the root always
/// fits 64 bits.
pub fn isqrt(n: u128) -> (r: u64)
    ensures
        r as int * r as int <= n as int,
        (r as int + 1) * (r as int + 1) > n as int,
{
    let mut lo: u64 = 0;
    let mut hi: u64 = u64::MAX;
    proof {
        assert((hi as int + 1) * (hi as int + 1) > n as int) by (nonlinear_arith)
            requires
                hi as int == 0xffff_ffff_ffff_ffff,
                n as int <= u128::MAX;
    }
    while lo < hi
        invariant
            lo as int * lo as int <= n as int,
            (hi as int + 1) * (hi as int + 1) > n as int,
            lo <= hi,
        decreases hi - lo,
    {
        let mid = hi - (hi - lo) / 2;
        assert(mid as int * mid as int <= u128::MAX) by (nonlinear_arith)
            requires
                0 <= mid as int <= 0xffff_ffff_ffff_ffff;
        let sq = (mid as u128) * (mid as u128);
        if sq <= n {
            lo = mid;
        } else {
            hi = mid - 1;
        }
    }
    lo
}

/// Division keeps order: a quotient never exceeds what the cross products
/// allow.  Used to compare two floored ratios.
pub proof fn lemma_div_le_cross(n1: int, d1: int, n2: int, d2: int)
    requires
        0 <= n1,
        0 <= n2,
        1 <= d1,
        1 <= d2,
        n1 * d2 <= n2 * d1,
    ensures
        n1 / d1 <= n2 / d2,
{
    lemma_fundamental_div_mod(n1, d1);
    lemma_fundamental_div_mod(n2, d2);
    assert(n1 / d1 <= n2 / d2) by (nonlinear_arith)
        requires
            n1 == d1 * (n1 / d1) + n1 % d1,
            n2 == d2 * (n2 / d2) + n2 % d2,
            0 <= n1 % d1 < d1,
            0 <= n2 % d2 < d2,
            0 <= n1,
            0 <= n2,
            1 <= d1,
            1 <= d2,
            n1 * d2 <= n2 * d1;
}

/// A floored quotient stays below `b` whenever the numerator stays below
/// `b * d`.
pub proof fn lemma_div_below(n: int, d: int, b: int)
    requires
        0 <= n,
        1 <= d,
        n < b * d,
    ensures
        n / d < b,
{
    lemma_fundamental_div_mod(n, d);
    assert(n / d < b) by (nonlinear_arith)
        requires
            n == d * (n / d) + n % d,
            0 <= n % d < d,
            0 <= n,
            1 <= d,
            n < b * d;
}

/// A floored quotient reaches `b` whenever the numerator reaches `b * d`.
pub proof fn lemma_div_at_least(n: int, d: int, b: int)
    requires
        0 <= n,
        1 <= d,
        b * d <= n,
    ensures
        b <= n / d,
{
    lemma_fundamental_div_mod(n, d);
    assert(b <= n / d) by (nonlinear_arith)
        requires
            n == d * (n / d) + n % d,
            0 <= n % d < d,
            0 <= n,
            1 <= d,
            b * d <= n;
}

} // verus!
