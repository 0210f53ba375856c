//! The pricing engine: pure functions that turn reserve levels and an input
//! (or desired output) amount into the amount the pool owes or demands.
//! Every function is total over its machine inputs and its result is pinned
//! to the exact integer formula it implements.

use vstd::prelude::*;

verus! {

use crate::errors::AmmError;
use crate::math::{lemma_div_below, mul_div};

/// Basis of all fee percentages: parts per hundred thousand.
pub const FEE_DENOMINATOR: u64 = 100_000;

/// The input amount once the total swap fee is taken, scaled by
/// `FEE_DENOMINATOR`.
pub open spec fn spec_amount_in_after_fee(amount_in: int, total_fee_percent: int) -> int {
    amount_in * ((FEE_DENOMINATOR as int) - total_fee_percent)
}

/// Proportional value of `amount_a` of the first asset in units of the
/// second, floor division.
pub open spec fn spec_quote(amount_a: int, reserve_a: int, reserve_b: int) -> int {
    amount_a * reserve_b / reserve_a
}

/// Output owed for a fixed input under the constant-product rule, the fee
/// deducted from the input side, floor division.
pub open spec fn spec_amount_out(
    amount_in: int,
    reserve_in: int,
    reserve_out: int,
    total_fee_percent: int,
) -> int {
    spec_amount_in_after_fee(amount_in, total_fee_percent) * reserve_out / (
    reserve_in * (FEE_DENOMINATOR as int) + spec_amount_in_after_fee(amount_in, total_fee_percent))
}

/// Input demanded for a fixed output, rounded up by one whole unit so the
/// pool never under-charges.
pub open spec fn spec_amount_in(
    amount_out: int,
    reserve_in: int,
    reserve_out: int,
    total_fee_percent: int,
) -> int {
    reserve_in * amount_out * (FEE_DENOMINATOR as int) / (
    (reserve_out - amount_out) * ((FEE_DENOMINATOR as int) - total_fee_percent)) + 1
}

/// The slice of a swap input earmarked for the protocol fee destinations.
pub open spec fn spec_special_fee_amount(amount_in: int, special_fee_percent: int) -> int {
    amount_in * special_fee_percent / (FEE_DENOMINATOR as int)
}

/// `quote` computes the proportional pairing amount; it fails exactly when
/// one of the reserves is empty.
pub fn quote(amount_a: u64, reserve_a: u64, reserve_b: u64) -> (r: Result<u128, AmmError>)
    ensures
        reserve_a > 0 && reserve_b > 0 ==> r == Ok::<u128, AmmError>(
            spec_quote(amount_a as int, reserve_a as int, reserve_b as int) as u128,
        ),
        reserve_a > 0 && reserve_b > 0 ==> spec_quote(
            amount_a as int,
            reserve_a as int,
            reserve_b as int,
        ) <= u128::MAX,
        reserve_a == 0 || reserve_b == 0 ==> r == Err::<u128, AmmError>(
            AmmError::InsufficientLiquidity,
        ),
{
    if reserve_a == 0 || reserve_b == 0 {
        return Err(AmmError::InsufficientLiquidity);
    }
    assert(amount_a as int * reserve_b as int <= u128::MAX) by (nonlinear_arith)
        requires
            0 <= amount_a as int <= u64::MAX,
            0 <= reserve_b as int <= u64::MAX;
    let product = (amount_a as u128) * (reserve_b as u128);
    let q = product / (reserve_a as u128);
    proof {
        let pi = product as int;
        let ra = reserve_a as int;
        assert(pi < (pi + 1) * ra) by (nonlinear_arith)
            requires
                1 <= ra,
                0 <= pi;
        lemma_div_below(pi, ra, pi + 1);
    }
    Ok(q)
}

/// `get_amount_out` prices a fixed-input swap.  It fails on a zero input or
/// an empty reserve and otherwise returns the exact formula value, which
/// always stays below the outgoing reserve.
pub fn get_amount_out(
    amount_in: u64,
    reserve_in: u64,
    reserve_out: u64,
    total_fee_percent: u64,
) -> (r: Result<u64, AmmError>)
    requires
        total_fee_percent < FEE_DENOMINATOR,
    ensures
        amount_in == 0 ==> r == Err::<u64, AmmError>(AmmError::BadPayment),
        amount_in > 0 && (reserve_in == 0 || reserve_out == 0) ==> r == Err::<u64, AmmError>(
            AmmError::InsufficientLiquidity,
        ),
        amount_in > 0 && reserve_in > 0 && reserve_out > 0 ==> {
            &&& r == Ok::<u64, AmmError>(
                spec_amount_out(
                    amount_in as int,
                    reserve_in as int,
                    reserve_out as int,
                    total_fee_percent as int,
                ) as u64,
            )
            &&& 0 <= spec_amount_out(
                amount_in as int,
                reserve_in as int,
                reserve_out as int,
                total_fee_percent as int,
            ) < reserve_out
        },
{
    if amount_in == 0 {
        return Err(AmmError::BadPayment);
    }
    if reserve_in == 0 || reserve_out == 0 {
        return Err(AmmError::InsufficientLiquidity);
    }
    assert(amount_in as int * (FEE_DENOMINATOR - total_fee_percent) < 0x400_0000_0000_0000_0000_0000)
        by (nonlinear_arith)
        requires
            0 < amount_in as int <= u64::MAX,
            0 < FEE_DENOMINATOR - total_fee_percent <= 100_000;
    let after_fee: u128 = (amount_in as u128) * ((FEE_DENOMINATOR - total_fee_percent) as u128);
    assert(reserve_in as int * FEE_DENOMINATOR < 0x400_0000_0000_0000_0000_0000) by (nonlinear_arith)
        requires
            0 < reserve_in as int <= u64::MAX;
    assert(reserve_in as int * FEE_DENOMINATOR >= 100_000) by (nonlinear_arith)
        requires
            1 <= reserve_in as int;
    let denominator: u128 = (reserve_in as u128) * (FEE_DENOMINATOR as u128) + after_fee;
    proof {
        let af = after_fee as int;
        let ro = reserve_out as int;
        let dn = denominator as int;
        assert(1 <= af) by (nonlinear_arith)
            requires
                af == (amount_in as int) * ((FEE_DENOMINATOR - total_fee_percent) as int),
                1 <= amount_in as int,
                1 <= (FEE_DENOMINATOR - total_fee_percent) as int;
        assert(af * ro < ro * dn) by (nonlinear_arith)
            requires
                0 < af < dn,
                0 < ro;
        lemma_div_below(af * ro, dn, ro);
    }
    match mul_div(after_fee, reserve_out as u128, denominator) {
        Some(v) => Ok(v as u64),
        None => {
            proof {
                assert(false);
            }
            Err(AmmError::InsufficientLiquidity)
        },
    }
}

/// `get_amount_in` prices a fixed-output swap.  It fails when the requested
/// output would drain the outgoing reserve, and reports an overflow when
/// the exact required input exceeds the amount range.
pub fn get_amount_in(
    amount_out: u64,
    reserve_in: u64,
    reserve_out: u64,
    total_fee_percent: u64,
) -> (r: Result<u128, AmmError>)
    requires
        total_fee_percent < FEE_DENOMINATOR,
    ensures
        amount_out >= reserve_out ==> r == Err::<u128, AmmError>(AmmError::InsufficientLiquidity),
        amount_out < reserve_out && spec_amount_in(
            amount_out as int,
            reserve_in as int,
            reserve_out as int,
            total_fee_percent as int,
        ) <= u128::MAX ==> r == Ok::<u128, AmmError>(
            spec_amount_in(
                amount_out as int,
                reserve_in as int,
                reserve_out as int,
                total_fee_percent as int,
            ) as u128,
        ),
        amount_out < reserve_out && spec_amount_in(
            amount_out as int,
            reserve_in as int,
            reserve_out as int,
            total_fee_percent as int,
        ) > u128::MAX ==> r == Err::<u128, AmmError>(AmmError::AmountOverflow),
        amount_out < reserve_out ==> spec_amount_in(
            amount_out as int,
            reserve_in as int,
            reserve_out as int,
            total_fee_percent as int,
        ) >= 1,
{
    if amount_out >= reserve_out {
        return Err(AmmError::InsufficientLiquidity);
    }
    proof {
        let fd = FEE_DENOMINATOR as int;
        let num = reserve_in as int * (amount_out as int) * fd;
        let d2 = (reserve_out as int - amount_out as int) * (fd - total_fee_percent as int);
        assert(1 <= d2) by (nonlinear_arith)
            requires
                d2 == (reserve_out as int - amount_out as int) * (fd - total_fee_percent as int),
                1 <= reserve_out as int - amount_out as int,
                1 <= fd - total_fee_percent as int;
        assert(0 <= num) by (nonlinear_arith)
            requires
                num == reserve_in as int * (amount_out as int) * fd,
                0 <= reserve_in as int,
                0 <= amount_out as int,
                0 <= fd;
        vstd::arithmetic::div_mod::lemma_div_pos_is_pos(num, d2);
    }
    assert(reserve_in as int * amount_out as int <= u128::MAX) by (nonlinear_arith)
        requires
            0 <= reserve_in as int <= u64::MAX,
            0 <= amount_out as int <= u64::MAX;
    let numerator: u128 = (reserve_in as u128) * (amount_out as u128);
    assert(((reserve_out - amount_out) as int) * ((FEE_DENOMINATOR - total_fee_percent) as int)
        < 0x400_0000_0000_0000_0000_0000) by (nonlinear_arith)
        requires
            0 < (reserve_out - amount_out) as int <= u64::MAX,
            0 < (FEE_DENOMINATOR - total_fee_percent) as int <= 100_000;
    assert(1 <= ((reserve_out - amount_out) as int) * ((FEE_DENOMINATOR - total_fee_percent) as int))
        by (nonlinear_arith)
        requires
            1 <= (reserve_out - amount_out) as int,
            1 <= (FEE_DENOMINATOR - total_fee_percent) as int;
    let denominator: u128 = ((reserve_out - amount_out) as u128) * ((FEE_DENOMINATOR
        - total_fee_percent) as u128);
    match mul_div(numerator, FEE_DENOMINATOR as u128, denominator) {
        Some(q) => {
            if q == u128::MAX {
                Err(AmmError::AmountOverflow)
            } else {
                Ok(q + 1)
            }
        },
        None => Err(AmmError::AmountOverflow),
    }
}

/// The protocol's cut of a swap input: `amount_in * special_fee_percent /
/// FEE_DENOMINATOR`, never more than the input itself.
pub fn get_special_fee_from_input(amount_in: u64, special_fee_percent: u64) -> (r: u64)
    requires
        special_fee_percent < FEE_DENOMINATOR,
    ensures
        r == spec_special_fee_amount(amount_in as int, special_fee_percent as int),
        r <= amount_in,
{
    assert(amount_in as int * special_fee_percent as int <= u128::MAX) by (nonlinear_arith)
        requires
            0 <= amount_in as int <= u64::MAX,
            0 <= special_fee_percent as int <= 100_000;
    let scaled = (amount_in as u128) * (special_fee_percent as u128);
    let q = scaled / (FEE_DENOMINATOR as u128);
    proof {
        let si = scaled as int;
        let ai = amount_in as int;
        assert(si < (ai + 1) * 100_000) by (nonlinear_arith)
            requires
                0 <= ai,
                0 <= (special_fee_percent as int) < 100_000,
                si == ai * (special_fee_percent as int);
        lemma_div_below(si, FEE_DENOMINATOR as int, ai + 1);
    }
    q as u64
}

} // verus!
