//! Minting and burning of the liquidity-share token against the reserves:
//! the first deposit seeds the permanently locked minimum-liquidity floor,
//! later deposits pair their amounts at the pool ratio, and removal pays
//! out the proportional share of both reserves.

use vstd::prelude::*;

verus! {

use crate::amm::{quote, spec_amount_out, spec_quote};
use crate::errors::AmmError;
use crate::math::{isqrt, lemma_div_below};
use crate::storage_cache::StorageCache;
use crate::types::TokenId;

/// Share amount permanently locked on the first deposit, so the supply can
/// never round-trip to zero while reserves remain.
pub const MINIMUM_LIQUIDITY: u64 = 1_000;

/// `r` is the integer square root of `n`.
pub open spec fn spec_is_isqrt(r: int, n: int) -> bool {
    &&& 0 <= r
    &&& r * r <= n
    &&& (r + 1) * (r + 1) > n
}

/// The integer square root of `n`.
pub open spec fn spec_isqrt(n: int) -> int {
    choose|r: int| spec_is_isqrt(r, n)
}

/// The integer square root is unique, so any witness pins `spec_isqrt`.
pub proof fn lemma_isqrt_unique(r: int, n: int)
    requires
        spec_is_isqrt(r, n),
    ensures
        spec_isqrt(n) == r,
{
    let c = spec_isqrt(n);
    assert(spec_is_isqrt(c, n)) by {
        assert(spec_is_isqrt(r, n));
    }
    assert(c == r) by (nonlinear_arith)
        requires
            0 <= r,
            0 <= c,
            r * r <= n,
            (r + 1) * (r + 1) > n,
            c * c <= n,
            (c + 1) * (c + 1) > n;
}

/// What a successful liquidity addition hands back: the minted shares, the
/// amounts actually paired into the reserves, and the unused remainders to
/// refund.
#[derive(Clone, Copy, Debug, PartialEq, Eq, Structural)]
pub struct AddLiquidityOutcome {
    pub lp_shares: u64,
    pub first_used: u64,
    pub second_used: u64,
    pub first_refund: u64,
    pub second_refund: u64,
}

/// The whole behaviour of a liquidity addition on the cached state:
/// which error each input class is rejected with, and the exact reserve,
/// supply and outcome figures of a success.
pub open spec fn spec_add_liquidity(
    c: StorageCache,
    first_desired: u64,
    second_desired: u64,
    first_min: u64,
    second_min: u64,
) -> Result<(StorageCache, AddLiquidityOutcome), AmmError> {
    let fd = first_desired as int;
    let sd = second_desired as int;
    let rf = c.first_token_reserve as int;
    let rs = c.second_token_reserve as int;
    let s = c.lp_token_supply as int;
    if first_desired == 0 || second_desired == 0 {
        Err(AmmError::BadPayment)
    } else if s == 0 {
        let shares_total = spec_isqrt(fd * sd);
        if first_desired < first_min || second_desired < second_min {
            Err(AmmError::SlippageExceeded)
        } else if shares_total <= MINIMUM_LIQUIDITY {
            Err(AmmError::InsufficientLiquidity)
        } else {
            Ok(
                (
                    StorageCache {
                        first_token_reserve: first_desired,
                        second_token_reserve: second_desired,
                        lp_token_supply: shares_total as u64,
                        ..c
                    },
                    AddLiquidityOutcome {
                        lp_shares: (shares_total - MINIMUM_LIQUIDITY) as u64,
                        first_used: first_desired,
                        second_used: second_desired,
                        first_refund: 0,
                        second_refund: 0,
                    },
                ),
            )
        }
    } else {
        let so = spec_quote(fd, rf, rs);
        let fo = spec_quote(sd, rs, rf);
        let fu = if so <= sd {
            fd
        } else {
            fo
        };
        let su = if so <= sd {
            so
        } else {
            sd
        };
        if so <= sd && so < second_min {
            Err(AmmError::SlippageExceeded)
        } else if so > sd && fo < first_min {
            Err(AmmError::SlippageExceeded)
        } else {
            let first_ratio = fu * s / rf;
            let second_ratio = su * s / rs;
            let shares = if first_ratio <= second_ratio {
                first_ratio
            } else {
                second_ratio
            };
            if shares == 0 {
                Err(AmmError::InsufficientLiquidity)
            } else if shares > u64::MAX || s + shares > u64::MAX || rf + fu > u64::MAX || rs + su
                > u64::MAX {
                Err(AmmError::AmountOverflow)
            } else {
                Ok(
                    (
                        StorageCache {
                            first_token_reserve: (rf + fu) as u64,
                            second_token_reserve: (rs + su) as u64,
                            lp_token_supply: (s + shares) as u64,
                            ..c
                        },
                        AddLiquidityOutcome {
                            lp_shares: shares as u64,
                            first_used: fu as u64,
                            second_used: su as u64,
                            first_refund: (fd - fu) as u64,
                            second_refund: (sd - su) as u64,
                        },
                    ),
                )
            }
        }
    }
}

/// The whole behaviour of a liquidity removal on the cached state.
pub open spec fn spec_remove_liquidity(
    c: StorageCache,
    share_amount: u64,
    first_min: u64,
    second_min: u64,
) -> Result<(StorageCache, (u64, u64)), AmmError> {
    let rf = c.first_token_reserve as int;
    let rs = c.second_token_reserve as int;
    let s = c.lp_token_supply as int;
    if share_amount == 0 {
        Err(AmmError::BadPayment)
    } else if share_amount > c.lp_token_supply {
        Err(AmmError::InsufficientLiquidity)
    } else {
        let first_out = share_amount * rf / s;
        let second_out = share_amount * rs / s;
        if first_out == 0 || second_out == 0 {
            Err(AmmError::InsufficientLiquidity)
        } else if first_out < first_min || second_out < second_min {
            Err(AmmError::SlippageExceeded)
        } else {
            Ok(
                (
                    StorageCache {
                        first_token_reserve: (rf - first_out) as u64,
                        second_token_reserve: (rs - second_out) as u64,
                        lp_token_supply: (s - share_amount) as u64,
                        ..c
                    },
                    (first_out as u64, second_out as u64),
                ),
            )
        }
    }
}

/// The whole behaviour of the internal no-fee swap used during fee
/// resolution: the fee slice enters the reserve of its own asset and the
/// computed zero-fee output leaves the opposite reserve.
pub open spec fn spec_swap_safe_no_fee(c: StorageCache, token_in: TokenId, amount_in: u64) -> Result<
    (StorageCache, u64),
    AmmError,
> {
    if !c.spec_is_pair_token(token_in) {
        Err(AmmError::BadPayment)
    } else if amount_in == 0 {
        Err(AmmError::BadPayment)
    } else {
        let first_in = token_in == c.first_token_id;
        let ri = if first_in {
            c.first_token_reserve as int
        } else {
            c.second_token_reserve as int
        };
        let ro = if first_in {
            c.second_token_reserve as int
        } else {
            c.first_token_reserve as int
        };
        if ri == 0 || ro == 0 {
            Err(AmmError::InsufficientLiquidity)
        } else if ri + amount_in > u64::MAX {
            Err(AmmError::AmountOverflow)
        } else {
            let out = spec_amount_out(amount_in as int, ri, ro, 0);
            if first_in {
                Ok(
                    (
                        StorageCache {
                            first_token_reserve: (ri + amount_in) as u64,
                            second_token_reserve: (ro - out) as u64,
                            ..c
                        },
                        out as u64,
                    ),
                )
            } else {
                Ok(
                    (
                        StorageCache {
                            first_token_reserve: (ro - out) as u64,
                            second_token_reserve: (ri + amount_in) as u64,
                            ..c
                        },
                        out as u64,
                    ),
                )
            }
        }
    }
}

/// Adds liquidity to the cached state: pairs the desired amounts at the
/// pool ratio (or seeds the pool on the first deposit), mints shares, and
/// reports the used and refunded amounts.
pub fn pool_add_liquidity(
    cache: &mut StorageCache,
    first_desired: u64,
    second_desired: u64,
    first_min: u64,
    second_min: u64,
) -> (r: Result<AddLiquidityOutcome, AmmError>)
    requires
        old(cache).well_formed(),
    ensures
        (spec_add_liquidity(*old(cache), first_desired, second_desired, first_min, second_min)
            matches Ok(p) ==> r == Ok::<AddLiquidityOutcome, AmmError>(p.1) && *final(cache)
            == p.0),
        (spec_add_liquidity(*old(cache), first_desired, second_desired, first_min, second_min)
            matches Err(e) ==> r == Err::<AddLiquidityOutcome, AmmError>(e) && *final(cache)
            == *old(cache)),
        r is Ok ==> final(cache).well_formed(),
        final(cache).first_token_id == old(cache).first_token_id,
        final(cache).second_token_id == old(cache).second_token_id,
        final(cache).lp_token_id == old(cache).lp_token_id,
        final(cache).contract_state == old(cache).contract_state,
{
    if first_desired == 0 || second_desired == 0 {
        return Err(AmmError::BadPayment);
    }
    if cache.lp_token_supply == 0 {
        assert(first_desired as int * (second_desired as int) <= u128::MAX) by (nonlinear_arith)
            requires
                0 <= first_desired as int <= u64::MAX,
                0 <= second_desired as int <= u64::MAX;
        let product = (first_desired as u128) * (second_desired as u128);
        let shares_total = isqrt(product);
        proof {
            lemma_isqrt_unique(shares_total as int, product as int);
        }
        if first_desired < first_min || second_desired < second_min {
            return Err(AmmError::SlippageExceeded);
        }
        if shares_total <= MINIMUM_LIQUIDITY {
            return Err(AmmError::InsufficientLiquidity);
        }
        let outcome = AddLiquidityOutcome {
            lp_shares: shares_total - MINIMUM_LIQUIDITY,
            first_used: first_desired,
            second_used: second_desired,
            first_refund: 0,
            second_refund: 0,
        };
        cache.first_token_reserve = first_desired;
        cache.second_token_reserve = second_desired;
        cache.lp_token_supply = shares_total;
        return Ok(outcome);
    }
    let rf = cache.first_token_reserve;
    let rs = cache.second_token_reserve;
    let s = cache.lp_token_supply;
    let second_optimal = match quote(first_desired, rf, rs) {
        Ok(v) => v,
        Err(e) => {
            proof {
                assert(false);
            }
            return Err(e);
        },
    };
    let first_used: u64;
    let second_used: u64;
    if second_optimal <= second_desired as u128 {
        if second_optimal < second_min as u128 {
            return Err(AmmError::SlippageExceeded);
        }
        first_used = first_desired;
        second_used = second_optimal as u64;
    } else {
        let first_optimal = match quote(second_desired, rs, rf) {
            Ok(v) => v,
            Err(e) => {
                proof {
                    assert(false);
                }
                return Err(e);
            },
        };
        proof {
            let fd = first_desired as int;
            let sd = second_desired as int;
            let rfi = rf as int;
            let rsi = rs as int;
            assert(fd * rsi >= (sd + 1) * rfi) by {
                lemma_div_at_least_converse(fd * rsi, rfi, sd + 1);
            }
            assert(sd * rfi < fd * rsi) by (nonlinear_arith)
                requires
                    fd * rsi >= (sd + 1) * rfi,
                    0 <= sd,
                    1 <= rfi;
            lemma_div_below(sd * rfi, rsi, fd);
        }
        if first_optimal < first_min as u128 {
            return Err(AmmError::SlippageExceeded);
        }
        first_used = first_optimal as u64;
        second_used = second_desired;
    }
    proof {
        assert(first_used as int * (s as int) <= u128::MAX) by (nonlinear_arith)
            requires
                0 <= first_used as int <= u64::MAX,
                0 <= s as int <= u64::MAX;
        assert(second_used as int * (s as int) <= u128::MAX) by (nonlinear_arith)
            requires
                0 <= second_used as int <= u64::MAX,
                0 <= s as int <= u64::MAX;
    }
    let first_ratio = (first_used as u128) * (s as u128) / (rf as u128);
    let second_ratio = (second_used as u128) * (s as u128) / (rs as u128);
    let shares = if first_ratio <= second_ratio {
        first_ratio
    } else {
        second_ratio
    };
    if shares == 0 {
        return Err(AmmError::InsufficientLiquidity);
    }
    if shares > u64::MAX as u128 {
        return Err(AmmError::AmountOverflow);
    }
    let new_supply = match s.checked_add(shares as u64) {
        Some(v) => v,
        None => {
            return Err(AmmError::AmountOverflow);
        },
    };
    let new_rf = match rf.checked_add(first_used) {
        Some(v) => v,
        None => {
            return Err(AmmError::AmountOverflow);
        },
    };
    let new_rs = match rs.checked_add(second_used) {
        Some(v) => v,
        None => {
            return Err(AmmError::AmountOverflow);
        },
    };
    let outcome = AddLiquidityOutcome {
        lp_shares: shares as u64,
        first_used,
        second_used,
        first_refund: first_desired - first_used,
        second_refund: second_desired - second_used,
    };
    cache.first_token_reserve = new_rf;
    cache.second_token_reserve = new_rs;
    cache.lp_token_supply = new_supply;
    Ok(outcome)
}

/// `floor(n / d) >= b` forces `n >= b * d`.
proof fn lemma_div_at_least_converse(n: int, d: int, b: int)
    requires
        0 <= n,
        1 <= d,
        n / d >= b,
    ensures
        n >= b * d,
{
    vstd::arithmetic::div_mod::lemma_fundamental_div_mod(n, d);
    assert(n >= b * d) by (nonlinear_arith)
        requires
            n == d * (n / d) + n % d,
            0 <= n % d < d,
            1 <= d,
            n / d >= b;
}

/// Removes liquidity from the cached state: burns the shares and pays out
/// the proportional part of each reserve.
pub fn pool_remove_liquidity(
    cache: &mut StorageCache,
    share_amount: u64,
    first_min: u64,
    second_min: u64,
) -> (r: Result<(u64, u64), AmmError>)
    requires
        old(cache).well_formed(),
    ensures
        (spec_remove_liquidity(*old(cache), share_amount, first_min, second_min) matches Ok(p)
            ==> r == Ok::<(u64, u64), AmmError>(p.1) && *final(cache) == p.0),
        (spec_remove_liquidity(*old(cache), share_amount, first_min, second_min) matches Err(e)
            ==> r == Err::<(u64, u64), AmmError>(e) && *final(cache) == *old(cache)),
        (r matches Ok(v) ==> {
            &&& v.0 <= old(cache).first_token_reserve
            &&& v.1 <= old(cache).second_token_reserve
            &&& share_amount <= old(cache).lp_token_supply
            &&& final(cache).first_token_reserve == old(cache).first_token_reserve - v.0
            &&& final(cache).second_token_reserve == old(cache).second_token_reserve - v.1
            &&& final(cache).lp_token_supply == old(cache).lp_token_supply - share_amount
        }),
        r is Ok ==> final(cache).well_formed(),
        final(cache).first_token_id == old(cache).first_token_id,
        final(cache).second_token_id == old(cache).second_token_id,
        final(cache).lp_token_id == old(cache).lp_token_id,
        final(cache).contract_state == old(cache).contract_state,
{
    if share_amount == 0 {
        return Err(AmmError::BadPayment);
    }
    if share_amount > cache.lp_token_supply {
        return Err(AmmError::InsufficientLiquidity);
    }
    let rf = cache.first_token_reserve;
    let rs = cache.second_token_reserve;
    let s = cache.lp_token_supply;
    proof {
        assert(share_amount as int * (rf as int) <= u128::MAX) by (nonlinear_arith)
            requires
                0 <= share_amount as int <= u64::MAX,
                0 <= rf as int <= u64::MAX;
        assert(share_amount as int * (rs as int) <= u128::MAX) by (nonlinear_arith)
            requires
                0 <= share_amount as int <= u64::MAX,
                0 <= rs as int <= u64::MAX;
        assert(share_amount as int * (rf as int) <= (rf as int) * (s as int)) by (nonlinear_arith)
            requires
                0 < share_amount as int <= s as int,
                0 <= rf as int;
        assert(share_amount as int * (rs as int) <= (rs as int) * (s as int)) by (nonlinear_arith)
            requires
                0 < share_amount as int <= s as int,
                0 <= rs as int;
        assert(share_amount as int * (rf as int) < (rf as int + 1) * (s as int))
            by (nonlinear_arith)
            requires
                share_amount as int * (rf as int) <= (rf as int) * (s as int),
                1 <= s as int,
                0 <= rf as int;
        lemma_div_below(share_amount as int * (rf as int), s as int, rf as int + 1);
        assert(share_amount as int * (rs as int) < (rs as int + 1) * (s as int))
            by (nonlinear_arith)
            requires
                share_amount as int * (rs as int) <= (rs as int) * (s as int),
                1 <= s as int,
                0 <= rs as int;
        lemma_div_below(share_amount as int * (rs as int), s as int, rs as int + 1);
    }
    let first_out = ((share_amount as u128) * (rf as u128) / (s as u128)) as u64;
    let second_out = ((share_amount as u128) * (rs as u128) / (s as u128)) as u64;
    if first_out == 0 || second_out == 0 {
        return Err(AmmError::InsufficientLiquidity);
    }
    if first_out < first_min || second_out < second_min {
        return Err(AmmError::SlippageExceeded);
    }
    proof {
        if share_amount < s {
            assert(share_amount as int * (rf as int) < (rf as int) * (s as int))
                by (nonlinear_arith)
                requires
                    0 < (share_amount as int) < s as int,
                    0 < rf as int;
            lemma_div_below(share_amount as int * (rf as int), s as int, rf as int);
            assert(share_amount as int * (rs as int) < (rs as int) * (s as int))
                by (nonlinear_arith)
                requires
                    0 < (share_amount as int) < s as int,
                    0 < rs as int;
            lemma_div_below(share_amount as int * (rs as int), s as int, rs as int);
        }
    }
    cache.first_token_reserve = rf - first_out;
    cache.second_token_reserve = rs - second_out;
    cache.lp_token_supply = s - share_amount;
    Ok((first_out, second_out))
}

/// The internal no-fee swap used only by fee resolution: trades a fee
/// slice held in one pool asset into the other at the zero-fee price.
pub fn swap_safe_no_fee(cache: &mut StorageCache, token_in: TokenId, amount_in: u64) -> (r: Result<
    u64,
    AmmError,
>)
    requires
        old(cache).well_formed(),
    ensures
        (spec_swap_safe_no_fee(*old(cache), token_in, amount_in) matches Ok(p) ==> r == Ok::<
            u64,
            AmmError,
        >(p.1) && *final(cache) == p.0),
        (spec_swap_safe_no_fee(*old(cache), token_in, amount_in) matches Err(e) ==> r == Err::<
            u64,
            AmmError,
        >(e) && *final(cache) == *old(cache)),
        final(cache).well_formed(),
        final(cache).first_token_id == old(cache).first_token_id,
        final(cache).second_token_id == old(cache).second_token_id,
        final(cache).lp_token_id == old(cache).lp_token_id,
        final(cache).contract_state == old(cache).contract_state,
        final(cache).lp_token_supply == old(cache).lp_token_supply,
{
    if !cache.is_pair_token(token_in) {
        return Err(AmmError::BadPayment);
    }
    if amount_in == 0 {
        return Err(AmmError::BadPayment);
    }
    let first_in = token_in == cache.first_token_id;
    let ri = if first_in {
        cache.first_token_reserve
    } else {
        cache.second_token_reserve
    };
    let ro = if first_in {
        cache.second_token_reserve
    } else {
        cache.first_token_reserve
    };
    if ri == 0 || ro == 0 {
        return Err(AmmError::InsufficientLiquidity);
    }
    let new_ri = match ri.checked_add(amount_in) {
        Some(v) => v,
        None => {
            return Err(AmmError::AmountOverflow);
        },
    };
    let out = match crate::amm::get_amount_out(amount_in, ri, ro, 0) {
        Ok(v) => v,
        Err(e) => {
            proof {
                assert(false);
            }
            return Err(e);
        },
    };
    if first_in {
        cache.first_token_reserve = new_ri;
        cache.second_token_reserve = ro - out;
    } else {
        cache.second_token_reserve = new_ri;
        cache.first_token_reserve = ro - out;
    }
    Ok(out)
}

} // verus!
