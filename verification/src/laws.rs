//! The laws of the pool, stated and proved over the same spec functions the
//! operation contracts use: the constant product never decreases across a
//! swap, a deposit-then-withdraw round trip never pays out more than went
//! in, the ceiling-rounded required input is never an under-charge, and an
//! even fee split never distributes more than the fee.

use vstd::prelude::*;

verus! {

use crate::amm::{
    spec_amount_in, spec_amount_in_after_fee, spec_amount_out, FEE_DENOMINATOR,
};
use crate::errors::AmmError;
use crate::fee::{
    spec_credit_reserve, spec_distribute_fee, spec_send_fee, spec_send_fee_slice, FeeAction,
    FeeDestination, TrustedSwapPair,
};
use crate::liquidity_pool::{
    spec_add_liquidity, spec_remove_liquidity, spec_swap_safe_no_fee, MINIMUM_LIQUIDITY,
};
use crate::math::{lemma_div_at_least, lemma_div_below};
use crate::storage_cache::StorageCache;
use crate::types::{AccountId, TokenId};

/// The constant product never decreases across a fixed-input swap: what
/// the pool keeps of the input (the input minus the protocol's fee cut,
/// which is bounded by the total fee) outweighs what the formula pays
/// out.  This is the law for the amounts themselves; the pool-level swap
/// composes it with the fee-distribution law below.
pub proof fn lemma_swap_fixed_input_preserves_k(
    amount_in: int,
    reserve_in: int,
    reserve_out: int,
    total_fee: int,
    fee_amount: int,
)
    requires
        1 <= amount_in,
        1 <= reserve_in,
        1 <= reserve_out,
        0 <= total_fee < FEE_DENOMINATOR,
        0 <= fee_amount <= amount_in,
        fee_amount * (FEE_DENOMINATOR as int) <= amount_in * total_fee,
    ensures
        (reserve_in + amount_in - fee_amount) * (reserve_out - spec_amount_out(
            amount_in,
            reserve_in,
            reserve_out,
            total_fee,
        )) >= reserve_in * reserve_out,
        0 <= spec_amount_out(amount_in, reserve_in, reserve_out, total_fee) < reserve_out,
{
    let fd = FEE_DENOMINATOR as int;
    let af = spec_amount_in_after_fee(amount_in, total_fee);
    let den = reserve_in * fd + af;
    let out = spec_amount_out(amount_in, reserve_in, reserve_out, total_fee);
    let keep = amount_in - fee_amount;
    assert(1 <= af && af < den && 1 <= den) by (nonlinear_arith)
        requires
            af == amount_in * (fd - total_fee),
            den == reserve_in * fd + af,
            1 <= amount_in,
            1 <= reserve_in,
            0 < fd - total_fee,
            0 < fd;
    assert(af * reserve_out < reserve_out * den) by (nonlinear_arith)
        requires
            0 < af < den,
            0 < reserve_out;
    lemma_div_below(af * reserve_out, den, reserve_out);
    assert(0 <= out) by {
        vstd::arithmetic::div_mod::lemma_div_pos_is_pos(af * reserve_out, den);
        assert(0 <= af * reserve_out) by (nonlinear_arith)
            requires
                0 <= af,
                0 <= reserve_out;
    }
    vstd::arithmetic::div_mod::lemma_fundamental_div_mod(af * reserve_out, den);
    assert(out * den <= af * reserve_out) by (nonlinear_arith)
        requires
            af * reserve_out == den * out + (af * reserve_out) % den,
            0 <= (af * reserve_out) % den;
    assert(af <= keep * fd) by (nonlinear_arith)
        requires
            af == amount_in * (fd - total_fee),
            keep == amount_in - fee_amount,
            fee_amount * fd <= amount_in * total_fee,
            0 <= total_fee,
            0 < fd;
    assert((reserve_in + keep) * (reserve_out - out) >= reserve_in * reserve_out)
        by (nonlinear_arith)
        requires
            out * den <= af * reserve_out,
            den == reserve_in * fd + af,
            af <= keep * fd,
            0 <= out <= reserve_out,
            0 < fd,
            0 <= keep,
            0 <= reserve_in,
            0 <= reserve_out,
            0 <= af;
}

/// The constant product never decreases across a fixed-output swap: the
/// ceiling-rounded required input, less the protocol's fee cut, outweighs
/// the requested output.
pub proof fn lemma_swap_fixed_output_preserves_k(
    amount_out: int,
    reserve_in: int,
    reserve_out: int,
    total_fee: int,
    fee_amount: int,
)
    requires
        1 <= reserve_in,
        0 <= amount_out < reserve_out,
        0 <= total_fee < FEE_DENOMINATOR,
        0 <= fee_amount,
        fee_amount * (FEE_DENOMINATOR as int) <= spec_amount_in(
            amount_out,
            reserve_in,
            reserve_out,
            total_fee,
        ) * total_fee,
    ensures
        (reserve_in + spec_amount_in(amount_out, reserve_in, reserve_out, total_fee) - fee_amount)
            * (reserve_out - amount_out) >= reserve_in * reserve_out,
        spec_amount_in(amount_out, reserve_in, reserve_out, total_fee) >= 1,
{
    let fd = FEE_DENOMINATOR as int;
    let num = reserve_in * amount_out * fd;
    let d2 = (reserve_out - amount_out) * (fd - total_fee);
    let req = spec_amount_in(amount_out, reserve_in, reserve_out, total_fee);
    assert(1 <= d2) by (nonlinear_arith)
        requires
            d2 == (reserve_out - amount_out) * (fd - total_fee),
            1 <= reserve_out - amount_out,
            1 <= fd - total_fee;
    assert(0 <= num) by (nonlinear_arith)
        requires
            num == reserve_in * amount_out * fd,
            0 <= reserve_in,
            0 <= amount_out,
            0 <= fd;
    assert(0 <= num / d2) by {
        vstd::arithmetic::div_mod::lemma_div_pos_is_pos(num, d2);
    }
    vstd::arithmetic::div_mod::lemma_fundamental_div_mod(num, d2);
    assert(req * d2 > num) by (nonlinear_arith)
        requires
            num == d2 * (num / d2) + num % d2,
            0 <= num % d2 < d2,
            req == num / d2 + 1;
    let keep = req - fee_amount;
    assert(req * (fd - total_fee) <= keep * fd) by (nonlinear_arith)
        requires
            keep == req - fee_amount,
            fee_amount * fd <= req * total_fee,
            0 <= total_fee,
            0 < fd;
    assert((reserve_in + req - fee_amount) * (reserve_out - amount_out) >= reserve_in
        * reserve_out) by (nonlinear_arith)
        requires
            req * d2 > num,
            num == reserve_in * amount_out * fd,
            d2 == (reserve_out - amount_out) * (fd - total_fee),
            req * (fd - total_fee) <= keep * fd,
            keep == req - fee_amount,
            0 <= amount_out < reserve_out,
            0 < fd,
            0 <= reserve_in,
            1 <= req;
}

/// The internal no-fee swap never decreases the constant product.
pub proof fn lemma_swap_safe_no_fee_preserves_k(c: StorageCache, token_in: TokenId, amount_in: u64)
    requires
        spec_swap_safe_no_fee(c, token_in, amount_in) is Ok,
    ensures
        (spec_swap_safe_no_fee(c, token_in, amount_in)->Ok_0).0.spec_k() >= c.spec_k(),
{
    let first_in = token_in == c.first_token_id;
    let ri = if first_in {
        c.first_token_reserve as int
    } else {
        c.second_token_reserve as int
    };
    let ro = if first_in {
        c.second_token_reserve as int
    } else {
        c.first_token_reserve as int
    };
    lemma_swap_fixed_input_preserves_k(amount_in as int, ri, ro, 0, 0);
    let out = spec_amount_out(amount_in as int, ri, ro, 0);
    assert((ri + amount_in) * (ro - out) == (ro - out) * (ri + amount_in)) by (nonlinear_arith);
    assert(ri * ro == ro * ri) by (nonlinear_arith);
}

/// One resolved fee slice never decreases the constant product: a direct
/// burn and an external forward leave the reserves alone, and the local
/// swap is the no-fee swap above.
pub proof fn lemma_send_fee_slice_preserves_k(
    pairs: Seq<TrustedSwapPair>,
    cache: StorageCache,
    fee_token: TokenId,
    fee_slice: u64,
    fee_address: AccountId,
    requested: TokenId,
)
    requires
        spec_send_fee_slice(pairs, cache, fee_token, fee_slice, fee_address, requested) is Ok,
    ensures
        (spec_send_fee_slice(pairs, cache, fee_token, fee_slice, fee_address, requested)->Ok_0)
            .0.spec_k() >= cache.spec_k(),
{
    if spec_swap_safe_no_fee(cache, fee_token, fee_slice) is Ok {
        lemma_swap_safe_no_fee_preserves_k(cache, fee_token, fee_slice);
    }
}

/// A whole fee distribution never decreases the constant product.
pub proof fn lemma_distribute_fee_preserves_k(
    pairs: Seq<TrustedSwapPair>,
    dests: Seq<FeeDestination>,
    cache: StorageCache,
    fee_token: TokenId,
    fee_slice: u64,
    i: int,
)
    requires
        spec_distribute_fee(pairs, dests, cache, fee_token, fee_slice, i) is Ok,
    ensures
        (spec_distribute_fee(pairs, dests, cache, fee_token, fee_slice, i)->Ok_0).0.spec_k()
            >= cache.spec_k(),
    decreases dests.len() - i,
{
    if i < 0 || i >= dests.len() {
    } else {
        let step = spec_send_fee_slice(
            pairs,
            cache,
            fee_token,
            fee_slice,
            dests[i].address,
            dests[i].token_id,
        );
        lemma_send_fee_slice_preserves_k(
            pairs,
            cache,
            fee_token,
            fee_slice,
            dests[i].address,
            dests[i].token_id,
        );
        lemma_distribute_fee_preserves_k(pairs, dests, step->Ok_0.0, fee_token, fee_slice, i + 1);
    }
}

/// Crediting a remainder back to a reserve never decreases the constant
/// product.
pub proof fn lemma_credit_reserve_preserves_k(c: StorageCache, token: TokenId, amount: int)
    requires
        0 <= amount,
        spec_credit_reserve(c, token, amount) is Ok,
    ensures
        (spec_credit_reserve(c, token, amount)->Ok_0).spec_k() >= c.spec_k(),
{
    let rf = c.first_token_reserve as int;
    let rs = c.second_token_reserve as int;
    assert((rf + amount) * rs >= rf * rs) by (nonlinear_arith)
        requires
            0 <= amount,
            0 <= rf,
            0 <= rs;
    assert(rf * (rs + amount) >= rf * rs) by (nonlinear_arith)
        requires
            0 <= amount,
            0 <= rf,
            0 <= rs;
}

/// The whole fee routine never decreases the constant product.
pub proof fn lemma_send_fee_preserves_k(
    pairs: Seq<TrustedSwapPair>,
    dests: Seq<FeeDestination>,
    cache: StorageCache,
    fee_token: TokenId,
    fee_amount: u64,
)
    requires
        spec_send_fee(pairs, dests, cache, fee_token, fee_amount) is Ok,
    ensures
        (spec_send_fee(pairs, dests, cache, fee_token, fee_amount)->Ok_0).0.spec_k()
            >= cache.spec_k(),
{
    if fee_amount == 0 || dests.len() == 0 {
    } else {
        let fee_slice = fee_amount as int / dests.len() as int;
        vstd::arithmetic::div_mod::lemma_div_pos_is_pos(fee_amount as int, dests.len() as int);
        if fee_slice == 0 {
            lemma_credit_reserve_preserves_k(cache, fee_token, fee_amount as int);
        } else {
            let p = spec_distribute_fee(pairs, dests, cache, fee_token, fee_slice as u64, 0)->Ok_0;
            lemma_distribute_fee_preserves_k(pairs, dests, cache, fee_token, fee_slice as u64, 0);
            let remainder = fee_amount - dests.len() * fee_slice;
            vstd::arithmetic::div_mod::lemma_fundamental_div_mod(
                fee_amount as int,
                dests.len() as int,
            );
            assert(0 <= remainder) by (nonlinear_arith)
                requires
                    fee_amount as int == (dests.len() as int) * fee_slice + (fee_amount as int) % (
                    dests.len() as int),
                    remainder == fee_amount - dests.len() * fee_slice,
                    0 <= (fee_amount as int) % (dests.len() as int);
            lemma_credit_reserve_preserves_k(p.0, fee_token, remainder);
        }
    }
}

/// An even fee split is sound: every destination's slice is the floored
/// quotient, the distributed total never exceeds the fee, and the
/// remainder left to the reserve stays below the destination count.
pub proof fn lemma_fee_split_sound(fee_amount: int, destination_count: int)
    requires
        0 <= fee_amount,
        1 <= destination_count,
    ensures
        0 <= destination_count * (fee_amount / destination_count) <= fee_amount,
        fee_amount - destination_count * (fee_amount / destination_count) < destination_count,
{
    vstd::arithmetic::div_mod::lemma_fundamental_div_mod(fee_amount, destination_count);
    vstd::arithmetic::div_mod::lemma_div_pos_is_pos(fee_amount, destination_count);
    assert(0 <= destination_count * (fee_amount / destination_count) <= fee_amount
        && fee_amount - destination_count * (fee_amount / destination_count)
        < destination_count) by (nonlinear_arith)
        requires
            fee_amount == destination_count * (fee_amount / destination_count) + fee_amount
                % destination_count,
            0 <= fee_amount % destination_count < destination_count,
            0 <= fee_amount / destination_count;
}

/// Depositing liquidity and at once redeeming the minted shares never
/// returns more of either asset than the deposit paired in: rounding can
/// only lose to the pool, never win against it.
pub proof fn lemma_add_remove_round_trip(
    c: StorageCache,
    first_desired: u64,
    second_desired: u64,
    first_min: u64,
    second_min: u64,
)
    requires
        c.well_formed(),
        spec_add_liquidity(c, first_desired, second_desired, first_min, second_min) is Ok,
    ensures
        ({
            let p = spec_add_liquidity(c, first_desired, second_desired, first_min, second_min)->Ok_0;
            spec_remove_liquidity(p.0, p.1.lp_shares, 0, 0) matches Ok(q) ==> q.1.0
                <= p.1.first_used && q.1.1 <= p.1.second_used
        }),
{
    let p = spec_add_liquidity(c, first_desired, second_desired, first_min, second_min)->Ok_0;
    let c2 = p.0;
    let outcome = p.1;
    let shares = outcome.lp_shares as int;
    if spec_remove_liquidity(c2, outcome.lp_shares, 0, 0) is Ok {
        let rf2 = c2.first_token_reserve as int;
        let rs2 = c2.second_token_reserve as int;
        let s2 = c2.lp_token_supply as int;
        if c.lp_token_supply == 0 {
            assert(shares <= s2);
            assert(shares * rf2 <= rf2 * s2) by (nonlinear_arith)
                requires
                    0 <= shares <= s2,
                    0 <= rf2;
            assert(shares * rf2 < (rf2 + 1) * s2) by (nonlinear_arith)
                requires
                    shares * rf2 <= rf2 * s2,
                    1 <= s2,
                    0 <= rf2;
            lemma_div_below(shares * rf2, s2, rf2 + 1);
            assert(shares * rs2 <= rs2 * s2) by (nonlinear_arith)
                requires
                    0 <= shares <= s2,
                    0 <= rs2;
            assert(shares * rs2 < (rs2 + 1) * s2) by (nonlinear_arith)
                requires
                    shares * rs2 <= rs2 * s2,
                    1 <= s2,
                    0 <= rs2;
            lemma_div_below(shares * rs2, s2, rs2 + 1);
        } else {
            let rf = c.first_token_reserve as int;
            let rs = c.second_token_reserve as int;
            let s = c.lp_token_supply as int;
            let fu = outcome.first_used as int;
            let su = outcome.second_used as int;
            vstd::arithmetic::div_mod::lemma_fundamental_div_mod(fu * s, rf);
            vstd::arithmetic::div_mod::lemma_fundamental_div_mod(su * s, rs);
            assert(shares * rf <= fu * s) by (nonlinear_arith)
                requires
                    shares <= fu * s / rf,
                    fu * s == rf * (fu * s / rf) + (fu * s) % rf,
                    0 <= (fu * s) % rf,
                    0 <= shares,
                    1 <= rf;
            assert(shares * rs <= su * s) by (nonlinear_arith)
                requires
                    shares <= su * s / rs,
                    su * s == rs * (su * s / rs) + (su * s) % rs,
                    0 <= (su * s) % rs,
                    0 <= shares,
                    1 <= rs;
            assert(shares * rf2 < (fu + 1) * s2) by (nonlinear_arith)
                requires
                    shares * rf <= fu * s,
                    rf2 == rf + fu,
                    s2 == s + shares,
                    0 <= shares,
                    0 <= fu,
                    1 <= s;
            lemma_div_below(shares * rf2, s2, fu + 1);
            assert(shares * rs2 < (su + 1) * s2) by (nonlinear_arith)
                requires
                    shares * rs <= su * s,
                    rs2 == rs + su,
                    s2 == s + shares,
                    0 <= shares,
                    0 <= su,
                    1 <= s;
            lemma_div_below(shares * rs2, s2, su + 1);
        }
    }
}

/// The priced output only grows with the input.
pub proof fn lemma_amount_out_monotone(
    amount_1: int,
    amount_2: int,
    reserve_in: int,
    reserve_out: int,
    total_fee: int,
)
    requires
        0 <= amount_1 <= amount_2,
        1 <= reserve_in,
        0 <= reserve_out,
        0 <= total_fee < FEE_DENOMINATOR,
    ensures
        spec_amount_out(amount_1, reserve_in, reserve_out, total_fee) <= spec_amount_out(
            amount_2,
            reserve_in,
            reserve_out,
            total_fee,
        ),
{
    let fd = FEE_DENOMINATOR as int;
    let af1 = spec_amount_in_after_fee(amount_1, total_fee);
    let af2 = spec_amount_in_after_fee(amount_2, total_fee);
    let den1 = reserve_in * fd + af1;
    let den2 = reserve_in * fd + af2;
    assert(0 <= af1 && af1 <= af2 && 1 <= den1 && 1 <= den2) by (nonlinear_arith)
        requires
            af1 == amount_1 * (fd - total_fee),
            af2 == amount_2 * (fd - total_fee),
            den1 == reserve_in * fd + af1,
            den2 == reserve_in * fd + af2,
            0 <= amount_1 <= amount_2,
            0 < fd - total_fee,
            1 <= reserve_in,
            0 < fd;
    assert((af1 * reserve_out) * den2 <= (af2 * reserve_out) * den1) by (nonlinear_arith)
        requires
            0 <= af1 <= af2,
            den1 == reserve_in * fd + af1,
            den2 == reserve_in * fd + af2,
            0 <= reserve_out,
            0 <= reserve_in * fd;
    crate::math::lemma_div_le_cross(af1 * reserve_out, den1, af2 * reserve_out, den2);
    assert(0 <= af1 * reserve_out) by (nonlinear_arith)
        requires
            0 <= af1,
            0 <= reserve_out;
    assert(0 <= af2 * reserve_out) by (nonlinear_arith)
        requires
            0 <= af2,
            0 <= reserve_out;
}

/// Paying the ceiling-rounded required input always obtains at least the
/// requested output: the pool never under-charges.
pub proof fn lemma_amount_in_covers_out(
    amount_out: int,
    reserve_in: int,
    reserve_out: int,
    total_fee: int,
)
    requires
        0 <= amount_out < reserve_out,
        1 <= reserve_in,
        0 <= total_fee < FEE_DENOMINATOR,
    ensures
        spec_amount_out(
            spec_amount_in(amount_out, reserve_in, reserve_out, total_fee),
            reserve_in,
            reserve_out,
            total_fee,
        ) >= amount_out,
{
    let fd = FEE_DENOMINATOR as int;
    let num = reserve_in * amount_out * fd;
    let d2 = (reserve_out - amount_out) * (fd - total_fee);
    let req = spec_amount_in(amount_out, reserve_in, reserve_out, total_fee);
    assert(1 <= d2) by (nonlinear_arith)
        requires
            d2 == (reserve_out - amount_out) * (fd - total_fee),
            1 <= reserve_out - amount_out,
            1 <= fd - total_fee;
    assert(0 <= num) by (nonlinear_arith)
        requires
            num == reserve_in * amount_out * fd,
            0 <= reserve_in,
            0 <= amount_out,
            0 <= fd;
    vstd::arithmetic::div_mod::lemma_fundamental_div_mod(num, d2);
    vstd::arithmetic::div_mod::lemma_div_pos_is_pos(num, d2);
    assert(req * d2 > num) by (nonlinear_arith)
        requires
            num == d2 * (num / d2) + num % d2,
            0 <= num % d2 < d2,
            req == num / d2 + 1;
    let af = spec_amount_in_after_fee(req, total_fee);
    let den = reserve_in * fd + af;
    assert(af * (reserve_out - amount_out) > reserve_in * amount_out * fd) by (nonlinear_arith)
        requires
            af == req * (fd - total_fee),
            req * d2 > num,
            num == reserve_in * amount_out * fd,
            d2 == (reserve_out - amount_out) * (fd - total_fee);
    assert(af * reserve_out >= amount_out * den) by (nonlinear_arith)
        requires
            af * (reserve_out - amount_out) > reserve_in * amount_out * fd,
            den == reserve_in * fd + af,
            0 <= amount_out,
            0 <= af,
            0 <= reserve_in,
            0 < fd;
    assert(1 <= den) by (nonlinear_arith)
        requires
            den == reserve_in * fd + af,
            1 <= reserve_in,
            0 < fd,
            0 <= af;
    lemma_div_at_least(af * reserve_out, den, amount_out);
    assert(0 <= af * reserve_out) by (nonlinear_arith)
        requires
            0 <= af,
            0 <= reserve_out;
    assert(amount_out * den <= af * reserve_out) by (nonlinear_arith)
        requires
            af * reserve_out >= amount_out * den;
}

/// Quoting the required input for a swap's own output never comes out
/// cheaper than the input paid, whenever that input was the smallest one
/// producing its output.  (For an input whose last unit bought no extra
/// output a smaller input obtains the same output, so the round trip
/// legitimately quotes less.)
pub proof fn lemma_amount_in_after_out_round_trip(
    amount_in: int,
    reserve_in: int,
    reserve_out: int,
    total_fee: int,
)
    requires
        1 <= amount_in,
        1 <= reserve_in,
        1 <= reserve_out,
        0 <= total_fee < FEE_DENOMINATOR,
        spec_amount_out(amount_in - 1, reserve_in, reserve_out, total_fee) < spec_amount_out(
            amount_in,
            reserve_in,
            reserve_out,
            total_fee,
        ),
    ensures
        spec_amount_in(
            spec_amount_out(amount_in, reserve_in, reserve_out, total_fee),
            reserve_in,
            reserve_out,
            total_fee,
        ) >= amount_in,
{
    let y = spec_amount_out(amount_in, reserve_in, reserve_out, total_fee);
    lemma_swap_fixed_input_preserves_k(amount_in, reserve_in, reserve_out, total_fee, 0);
    assert(0 <= y < reserve_out);
    let v = spec_amount_in(y, reserve_in, reserve_out, total_fee);
    lemma_amount_in_covers_out(y, reserve_in, reserve_out, total_fee);
    if v <= amount_in - 1 {
        let fd = FEE_DENOMINATOR as int;
        let num = reserve_in * y * fd;
        let d2 = (reserve_out - y) * (fd - total_fee);
        assert(1 <= d2) by (nonlinear_arith)
            requires
                d2 == (reserve_out - y) * (fd - total_fee),
                1 <= reserve_out - y,
                1 <= fd - total_fee;
        assert(0 <= num) by (nonlinear_arith)
            requires
                num == reserve_in * y * fd,
                0 <= reserve_in,
                0 <= y,
                0 <= fd;
        vstd::arithmetic::div_mod::lemma_div_pos_is_pos(num, d2);
        lemma_amount_out_monotone(v, amount_in - 1, reserve_in, reserve_out, total_fee);
        assert(false);
    }
}

/// Every nonnegative integer has an integer square root.
proof fn lemma_isqrt_exists(n: int)
    requires
        0 <= n,
    ensures
        exists|r: int| #[trigger] crate::liquidity_pool::spec_is_isqrt(r, n),
    decreases n,
{
    if n == 0 {
        assert(crate::liquidity_pool::spec_is_isqrt(0, 0)) by (nonlinear_arith);
    } else {
        lemma_isqrt_exists(n - 1);
        let r = choose|r: int| #[trigger] crate::liquidity_pool::spec_is_isqrt(r, n - 1);
        if (r + 1) * (r + 1) > n {
            assert(crate::liquidity_pool::spec_is_isqrt(r, n));
        } else {
            assert((r + 2) * (r + 2) > n) by (nonlinear_arith)
                requires
                    0 <= r,
                    (r + 1) * (r + 1) <= n,
                    (r + 1) * (r + 1) > n - 1;
            assert(crate::liquidity_pool::spec_is_isqrt(r + 1, n));
        }
    }
}

/// Shares minted on the first deposit are the integer square root of the
/// deposited product, less the permanently locked floor; the reserves
/// become exactly the deposited amounts.
pub proof fn lemma_first_deposit_shares(
    c: StorageCache,
    first_desired: u64,
    second_desired: u64,
    first_min: u64,
    second_min: u64,
)
    requires
        c.lp_token_supply == 0,
        spec_add_liquidity(c, first_desired, second_desired, first_min, second_min) is Ok,
    ensures
        ({
            let p = spec_add_liquidity(c, first_desired, second_desired, first_min, second_min)->Ok_0;
            &&& crate::liquidity_pool::spec_is_isqrt(
                p.1.lp_shares + MINIMUM_LIQUIDITY,
                first_desired as int * second_desired as int,
            )
            &&& p.0.first_token_reserve == first_desired
            &&& p.0.second_token_reserve == second_desired
        }),
{
    let n = first_desired as int * second_desired as int;
    assert(0 <= n) by (nonlinear_arith)
        requires
            n == first_desired as int * (second_desired as int),
            0 <= first_desired as int,
            0 <= second_desired as int;
    lemma_isqrt_exists(n);
    let st = crate::liquidity_pool::spec_isqrt(n);
    assert(crate::liquidity_pool::spec_is_isqrt(st, n));
    assert(n <= (u64::MAX as int) * (u64::MAX as int)) by (nonlinear_arith)
        requires
            n == first_desired as int * (second_desired as int),
            0 <= first_desired as int <= u64::MAX,
            0 <= second_desired as int <= u64::MAX;
    assert(st <= u64::MAX) by (nonlinear_arith)
        requires
            0 <= st,
            st * st <= n,
            n <= (u64::MAX as int) * (u64::MAX as int);
}

} // verus!
