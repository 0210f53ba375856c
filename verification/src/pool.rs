//! The pool service: one instance per asset pair, composing the persisted
//! configuration, the fee configuration, the storage cache and the pricing
//! engine into the public entry points.  Every operation loads the cache
//! once, works on it, and commits it only on success: an error leaves the
//! pool exactly as it was.

use vstd::prelude::*;

verus! {

use crate::amm::{
    get_amount_in, get_amount_out, get_special_fee_from_input, spec_amount_in, spec_amount_out,
    spec_special_fee_amount,
};
use crate::config::{ConfigModule, State};
use crate::errors::AmmError;
use crate::fee::{
    spec_burn, spec_send_fee, FeeAction, FeeDestination, FeeModule, TrustedSwapPair,
    spec_is_whitelisted,
};
use crate::liquidity_pool::{
    pool_add_liquidity, pool_remove_liquidity, spec_add_liquidity, spec_remove_liquidity,
    spec_swap_safe_no_fee, swap_safe_no_fee,
};
use crate::remove_liquidity::{
    RemoveLiquidityArgs, RemoveLiquidityContext, RemoveLiquidityPayments, RemoveLiquidityTxInput,
};
use crate::storage_cache::{spec_cache_of, spec_commit, StorageCache};
use crate::types::{AccountId, TokenId, TokenPayment};

/// What a successful liquidity addition returns to the caller: the minted
/// share payment and the unused parts of both deposits.
#[derive(Clone, Copy, Debug, PartialEq, Eq, Structural)]
pub struct AddLiquidityResult {
    pub lp_payment: TokenPayment,
    pub first_refund: TokenPayment,
    pub second_refund: TokenPayment,
}

/// One pool instance: its persisted configuration and its fee
/// configuration.
pub struct Pool {
    pub config: ConfigModule,
    pub fee: FeeModule,
}

/// The whole behaviour of a fixed-input swap on the cached state: the
/// rejected input classes with their errors, and on success the final
/// cache, the output amount, and the fee actions to perform.
pub open spec fn spec_swap_fixed_input(
    trusted: Seq<TrustedSwapPair>,
    dests: Seq<FeeDestination>,
    cache: StorageCache,
    total_fee: u64,
    special_fee: u64,
    payment: TokenPayment,
    token_out: TokenId,
    amount_out_min: u64,
) -> Result<(StorageCache, u64, Seq<FeeAction>), AmmError> {
    let token_in = payment.token_id;
    if cache.contract_state != State::Active {
        Err(AmmError::InvalidState)
    } else if !cache.spec_is_pair_token(token_in) || !cache.spec_is_pair_token(token_out)
        || token_in == token_out {
        Err(AmmError::BadPayment)
    } else if payment.token_nonce != 0 || payment.amount == 0 {
        Err(AmmError::BadPayment)
    } else {
        let first_in = token_in == cache.first_token_id;
        let ri = if first_in {
            cache.first_token_reserve as int
        } else {
            cache.second_token_reserve as int
        };
        let ro = if first_in {
            cache.second_token_reserve as int
        } else {
            cache.first_token_reserve as int
        };
        if ri == 0 || ro == 0 {
            Err(AmmError::InsufficientLiquidity)
        } else {
            let out = spec_amount_out(payment.amount as int, ri, ro, total_fee as int);
            if out < amount_out_min {
                Err(AmmError::SlippageExceeded)
            } else if ri + payment.amount > u64::MAX {
                Err(AmmError::AmountOverflow)
            } else {
                let fee_amount = if dests.len() > 0 {
                    spec_special_fee_amount(payment.amount as int, special_fee as int)
                } else {
                    0
                };
                let new_ri = (ri + payment.amount - fee_amount) as u64;
                let new_ro = (ro - out) as u64;
                let c2 = if first_in {
                    StorageCache {
                        first_token_reserve: new_ri,
                        second_token_reserve: new_ro,
                        ..cache
                    }
                } else {
                    StorageCache {
                        first_token_reserve: new_ro,
                        second_token_reserve: new_ri,
                        ..cache
                    }
                };
                match spec_send_fee(trusted, dests, c2, token_in, fee_amount as u64) {
                    Ok(p) => Ok((p.0, out as u64, p.1)),
                    Err(e) => Err(e),
                }
            }
        }
    }
}

/// The whole behaviour of a fixed-output swap on the cached state: on
/// success the final cache, the charged input, the refunded excess, and
/// the fee actions.
pub open spec fn spec_swap_fixed_output(
    trusted: Seq<TrustedSwapPair>,
    dests: Seq<FeeDestination>,
    cache: StorageCache,
    total_fee: u64,
    special_fee: u64,
    payment: TokenPayment,
    token_out: TokenId,
    amount_out_wanted: u64,
) -> Result<(StorageCache, u64, u64, Seq<FeeAction>), AmmError> {
    let token_in = payment.token_id;
    if cache.contract_state != State::Active {
        Err(AmmError::InvalidState)
    } else if !cache.spec_is_pair_token(token_in) || !cache.spec_is_pair_token(token_out)
        || token_in == token_out {
        Err(AmmError::BadPayment)
    } else if payment.token_nonce != 0 || payment.amount == 0 {
        Err(AmmError::BadPayment)
    } else if amount_out_wanted == 0 {
        Err(AmmError::InvalidArguments)
    } else {
        let first_in = token_in == cache.first_token_id;
        let ri = if first_in {
            cache.first_token_reserve as int
        } else {
            cache.second_token_reserve as int
        };
        let ro = if first_in {
            cache.second_token_reserve as int
        } else {
            cache.first_token_reserve as int
        };
        if amount_out_wanted >= ro {
            Err(AmmError::InsufficientLiquidity)
        } else {
            let required = spec_amount_in(amount_out_wanted as int, ri, ro, total_fee as int);
            if required > payment.amount {
                Err(AmmError::SlippageExceeded)
            } else if ri + required > u64::MAX {
                Err(AmmError::AmountOverflow)
            } else {
                let fee_amount = if dests.len() > 0 {
                    spec_special_fee_amount(required, special_fee as int)
                } else {
                    0
                };
                let new_ri = (ri + required - fee_amount) as u64;
                let new_ro = (ro - amount_out_wanted) as u64;
                let c2 = if first_in {
                    StorageCache {
                        first_token_reserve: new_ri,
                        second_token_reserve: new_ro,
                        ..cache
                    }
                } else {
                    StorageCache {
                        first_token_reserve: new_ro,
                        second_token_reserve: new_ri,
                        ..cache
                    }
                };
                match spec_send_fee(trusted, dests, c2, token_in, fee_amount as u64) {
                    Ok(p) => Ok(
                        (p.0, required as u64, (payment.amount - required) as u64, p.1),
                    ),
                    Err(e) => Err(e),
                }
            }
        }
    }
}

/// The whole behaviour of the privileged no-fee swap entry point.
pub open spec fn spec_swap_no_fee(
    whitelist: Seq<AccountId>,
    cache: StorageCache,
    caller: AccountId,
    payment: TokenPayment,
    token_out: TokenId,
) -> Result<(StorageCache, Option<FeeAction>), AmmError> {
    if !spec_is_whitelisted(whitelist, caller) {
        Err(AmmError::PermissionDenied)
    } else if cache.contract_state != State::Active {
        Err(AmmError::InvalidState)
    } else if !cache.spec_is_pair_token(token_out) || token_out == payment.token_id
        || payment.token_nonce != 0 {
        Err(AmmError::BadPayment)
    } else {
        match spec_swap_safe_no_fee(cache, payment.token_id, payment.amount) {
            Ok(p) => Ok((p.0, spec_burn(token_out, p.1))),
            Err(e) => Err(e),
        }
    }
}

impl Pool {
    /// Structural soundness of the pool: its persisted configuration is
    /// well formed.  Every operation preserves it.
    pub open spec fn well_formed(self) -> bool {
        self.config.well_formed()
    }

    /// Creates a pool over a distinct asset pair with validated fee
    /// percentages.  The pool starts `Inactive`, with nothing in reserve,
    /// no share supply, and fees turned off.
    pub fn new(
        first_token_id: TokenId,
        second_token_id: TokenId,
        router_address: AccountId,
        router_owner_address: AccountId,
        total_fee_percent: u64,
        special_fee_percent: u64,
        initial_liquidity_adder: Option<AccountId>,
    ) -> (r: Result<Pool, AmmError>)
        ensures
            (ConfigModule::spec_new_result(
                first_token_id,
                second_token_id,
                router_address,
                router_owner_address,
                total_fee_percent,
                special_fee_percent,
                initial_liquidity_adder,
            ) matches Ok(c) ==> r matches Ok(p) && p.config == c && p.fee.destinations@
                == Seq::<FeeDestination>::empty() && p.fee.trusted_swap_pairs@
                == Seq::<TrustedSwapPair>::empty() && p.fee.whitelist@
                == Seq::<AccountId>::empty() && p.well_formed()),
            (ConfigModule::spec_new_result(
                first_token_id,
                second_token_id,
                router_address,
                router_owner_address,
                total_fee_percent,
                special_fee_percent,
                initial_liquidity_adder,
            ) matches Err(e) ==> r matches Err(e2) && e2 == e),
    {
        let config = match ConfigModule::new(
            first_token_id,
            second_token_id,
            router_address,
            router_owner_address,
            total_fee_percent,
            special_fee_percent,
            initial_liquidity_adder,
        ) {
            Ok(c) => c,
            Err(e) => {
                return Err(e);
            },
        };
        Ok(Pool { config, fee: FeeModule::new() })
    }

    /// Supplies both assets against newly minted shares.  The two payments
    /// must be the pool's assets in pool order; the unused remainder of
    /// each is refunded.
    pub fn add_liquidity(
        &mut self,
        first_token_amount_min: u64,
        second_token_amount_min: u64,
        payments: &Vec<TokenPayment>,
    ) -> (r: Result<AddLiquidityResult, AmmError>)
        requires
            old(self).well_formed(),
        ensures
            final(self).well_formed(),
            final(self).fee.destinations@ == old(self).fee.destinations@,
            final(self).fee.trusted_swap_pairs@ == old(self).fee.trusted_swap_pairs@,
            final(self).fee.whitelist@ == old(self).fee.whitelist@,
            r is Err ==> final(self).config == old(self).config,
            old(self).config.state != State::Active ==> r == Err::<AddLiquidityResult, AmmError>(
                AmmError::InvalidState,
            ),
            old(self).config.state == State::Active && payments@.len() != 2 ==> r == Err::<
                AddLiquidityResult,
                AmmError,
            >(AmmError::BadPayment),
            old(self).config.state == State::Active && payments@.len() == 2 && !(payments@[0].token_id
                == old(self).config.first_token_id && payments@[0].token_nonce == 0
                && payments@[1].token_id == old(self).config.second_token_id
                && payments@[1].token_nonce == 0) ==> r == Err::<AddLiquidityResult, AmmError>(
                AmmError::BadPayment,
            ),
            old(self).config.state == State::Active && payments@.len() == 2 && payments@[0].token_id
                == old(self).config.first_token_id && payments@[0].token_nonce == 0
                && payments@[1].token_id == old(self).config.second_token_id
                && payments@[1].token_nonce == 0 && (first_token_amount_min == 0
                || second_token_amount_min == 0) ==> r == Err::<AddLiquidityResult, AmmError>(
                AmmError::InvalidArguments,
            ),
            old(self).config.state == State::Active && payments@.len() == 2 && payments@[0].token_id
                == old(self).config.first_token_id && payments@[0].token_nonce == 0
                && payments@[1].token_id == old(self).config.second_token_id
                && payments@[1].token_nonce == 0 && first_token_amount_min != 0
                && second_token_amount_min != 0 ==> {
                let math = spec_add_liquidity(
                    spec_cache_of(old(self).config),
                    payments@[0].amount,
                    payments@[1].amount,
                    first_token_amount_min,
                    second_token_amount_min,
                );
                &&& (math matches Ok(p) ==> r matches Ok(v) && v == (AddLiquidityResult {
                    lp_payment: TokenPayment {
                        token_id: old(self).config.lp_token_identifier,
                        token_nonce: 0,
                        amount: p.1.lp_shares,
                    },
                    first_refund: TokenPayment {
                        token_id: old(self).config.first_token_id,
                        token_nonce: 0,
                        amount: p.1.first_refund,
                    },
                    second_refund: TokenPayment {
                        token_id: old(self).config.second_token_id,
                        token_nonce: 0,
                        amount: p.1.second_refund,
                    },
                }) && final(self).config == spec_commit(p.0, old(self).config))
                &&& (math matches Err(e) ==> r == Err::<AddLiquidityResult, AmmError>(e))
            },
    {
        let mut cache = StorageCache::load(&self.config);
        if cache.contract_state != State::Active {
            return Err(AmmError::InvalidState);
        }
        if payments.len() != 2 {
            return Err(AmmError::BadPayment);
        }
        let first_payment = payments[0];
        let second_payment = payments[1];
        if !(first_payment.token_id == cache.first_token_id && first_payment.token_nonce == 0
            && second_payment.token_id == cache.second_token_id && second_payment.token_nonce
            == 0) {
            return Err(AmmError::BadPayment);
        }
        if first_token_amount_min == 0 || second_token_amount_min == 0 {
            return Err(AmmError::InvalidArguments);
        }
        let supply_before = cache.lp_token_supply;
        let initial_k = cache.k();
        let outcome = match pool_add_liquidity(
            &mut cache,
            first_payment.amount,
            second_payment.amount,
            first_token_amount_min,
            second_token_amount_min,
        ) {
            Ok(v) => v,
            Err(e) => {
                return Err(e);
            },
        };
        let new_k = cache.k();
        if supply_before > 0 && new_k < initial_k {
            proof {
                let c0 = spec_cache_of(old(self).config);
                assert((c0.first_token_reserve as int + outcome.first_used)
                    * (c0.second_token_reserve as int + outcome.second_used) >= c0.spec_k())
                    by (nonlinear_arith)
                    requires
                        0 <= c0.first_token_reserve as int,
                        0 <= c0.second_token_reserve as int,
                        0 <= outcome.first_used,
                        0 <= outcome.second_used;
                assert(false);
            }
            return Err(AmmError::InvariantViolation);
        }
        let lp_payment = TokenPayment::new(cache.lp_token_id, 0, outcome.lp_shares);
        let first_refund = TokenPayment::new(cache.first_token_id, 0, outcome.first_refund);
        let second_refund = TokenPayment::new(cache.second_token_id, 0, outcome.second_refund);
        cache.commit(&mut self.config);
        Ok(AddLiquidityResult { lp_payment, first_refund, second_refund })
    }

    /// Redeems share tokens against both reserves.  The context carries the
    /// call's input and intermediate figures; the cache commits only on
    /// success.
    pub fn remove_liquidity(
        &mut self,
        caller: AccountId,
        first_token_amount_min: u64,
        second_token_amount_min: u64,
        payment: TokenPayment,
        opt_accept_funds_func: Option<Vec<u8>>,
    ) -> (r: Result<(TokenPayment, TokenPayment), AmmError>)
        requires
            old(self).well_formed(),
        ensures
            final(self).well_formed(),
            final(self).fee.destinations@ == old(self).fee.destinations@,
            final(self).fee.trusted_swap_pairs@ == old(self).fee.trusted_swap_pairs@,
            final(self).fee.whitelist@ == old(self).fee.whitelist@,
            r is Err ==> final(self).config == old(self).config,
            old(self).config.state == State::Inactive ==> r == Err::<
                (TokenPayment, TokenPayment),
                AmmError,
            >(AmmError::InvalidState),
            old(self).config.state != State::Inactive && (first_token_amount_min == 0
                || second_token_amount_min == 0) ==> r == Err::<
                (TokenPayment, TokenPayment),
                AmmError,
            >(AmmError::InvalidArguments),
            old(self).config.state != State::Inactive && first_token_amount_min != 0
                && second_token_amount_min != 0 && (payment.amount == 0 || payment.token_nonce
                != 0) ==> r == Err::<(TokenPayment, TokenPayment), AmmError>(AmmError::BadPayment),
            old(self).config.state != State::Inactive && first_token_amount_min != 0
                && second_token_amount_min != 0 && payment.amount != 0 && payment.token_nonce == 0
                && payment.token_id != old(self).config.lp_token_identifier ==> r == Err::<
                (TokenPayment, TokenPayment),
                AmmError,
            >(AmmError::BadPayment),
            old(self).config.state != State::Inactive && first_token_amount_min != 0
                && second_token_amount_min != 0 && payment.amount != 0 && payment.token_nonce == 0
                && payment.token_id == old(self).config.lp_token_identifier ==> {
                let math = spec_remove_liquidity(
                    spec_cache_of(old(self).config),
                    payment.amount,
                    first_token_amount_min,
                    second_token_amount_min,
                );
                &&& (math matches Ok(p) ==> r == Ok::<(TokenPayment, TokenPayment), AmmError>(
                    (
                        TokenPayment {
                            token_id: old(self).config.first_token_id,
                            token_nonce: 0,
                            amount: p.1.0,
                        },
                        TokenPayment {
                            token_id: old(self).config.second_token_id,
                            token_nonce: 0,
                            amount: p.1.1,
                        },
                    ),
                ) && final(self).config == spec_commit(p.0, old(self).config))
                &&& (math matches Err(e) ==> r == Err::<(TokenPayment, TokenPayment), AmmError>(e))
            },
    {
        let args = RemoveLiquidityArgs::new(
            first_token_amount_min,
            second_token_amount_min,
            opt_accept_funds_func,
        );
        let lp_payment = payment;
        let payments_in = RemoveLiquidityPayments::new(lp_payment);
        let tx_input = RemoveLiquidityTxInput::new(args, payments_in);
        let mut context = RemoveLiquidityContext::new(tx_input, caller);
        context.set_storage_cache(StorageCache::load(&self.config));
        if context.get_contract_state() == State::Inactive {
            return Err(AmmError::InvalidState);
        }
        if !context.get_tx_input().get_args().are_valid() {
            return Err(AmmError::InvalidArguments);
        }
        if !context.get_tx_input().get_payments().are_valid() {
            return Err(AmmError::BadPayment);
        }
        if payment.token_id != context.get_lp_token_id() {
            return Err(AmmError::BadPayment);
        }
        let initial_k = (&context.storage_cache).k();
        context.set_initial_k(initial_k);
        let mut work = context.storage_cache;
        let amounts = match pool_remove_liquidity(
            &mut work,
            payment.amount,
            first_token_amount_min,
            second_token_amount_min,
        ) {
            Ok(v) => v,
            Err(e) => {
                return Err(e);
            },
        };
        context.set_first_token_amount_removed(amounts.0);
        context.set_second_token_amount_removed(amounts.1);
        context.decrease_lp_token_supply();
        context.decrease_reserves();
        proof {
            assert(context.storage_cache == work);
        }
        let new_k = (&context.storage_cache).k();
        if new_k > context.get_initial_k() {
            proof {
                let c0 = spec_cache_of(old(self).config);
                assert(context.storage_cache.spec_k() <= c0.spec_k()) by (nonlinear_arith)
                    requires
                        context.storage_cache.first_token_reserve
                            <= c0.first_token_reserve,
                        context.storage_cache.second_token_reserve
                            <= c0.second_token_reserve,
                        0 <= context.storage_cache.first_token_reserve as int,
                        0 <= context.storage_cache.second_token_reserve as int,
                        context.storage_cache.spec_k()
                            == context.storage_cache.first_token_reserve as int
                            * (context.storage_cache.second_token_reserve as int),
                        c0.spec_k() == c0.first_token_reserve as int * (
                        c0.second_token_reserve as int);
                assert(false);
            }
            return Err(AmmError::InvariantViolation);
        }
        let first_out = TokenPayment::new(context.get_first_token_id(), 0, amounts.0);
        let second_out = TokenPayment::new(context.get_second_token_id(), 0, amounts.1);
        let mut outputs: Vec<TokenPayment> = Vec::new();
        outputs.push(first_out);
        outputs.push(second_out);
        context.set_output_payments(outputs);
        (&context.storage_cache).commit(&mut self.config);
        Ok((first_out, second_out))
    }

    /// Swaps a fixed input of one pool asset for the other: the total fee
    /// stays on the input side, the protocol's special-fee cut is routed
    /// to the registered destinations, and the rest of the fee remains in
    /// the reserve.  Returns the output payment and the fee actions the
    /// host must perform.
    pub fn swap_tokens_fixed_input(
        &mut self,
        payment: TokenPayment,
        token_out: TokenId,
        amount_out_min: u64,
    ) -> (r: Result<(TokenPayment, Vec<FeeAction>), AmmError>)
        requires
            old(self).well_formed(),
        ensures
            final(self).well_formed(),
            final(self).fee.destinations@ == old(self).fee.destinations@,
            final(self).fee.trusted_swap_pairs@ == old(self).fee.trusted_swap_pairs@,
            final(self).fee.whitelist@ == old(self).fee.whitelist@,
            r is Err ==> final(self).config == old(self).config,
            ({
                let s = spec_swap_fixed_input(
                    old(self).fee.trusted_swap_pairs@,
                    old(self).fee.destinations@,
                    spec_cache_of(old(self).config),
                    old(self).config.total_fee_percent,
                    old(self).config.special_fee_percent,
                    payment,
                    token_out,
                    amount_out_min,
                );
                &&& (s matches Ok(p) ==> r matches Ok(v) && v.0 == (TokenPayment {
                    token_id: token_out,
                    token_nonce: 0,
                    amount: p.1,
                }) && v.1@ == p.2 && final(self).config == spec_commit(p.0, old(self).config))
                &&& (s matches Err(e) ==> r == Err::<(TokenPayment, Vec<FeeAction>), AmmError>(e))
            }),
            r is Ok ==> final(self).config.pair_reserve_first as int * (final(self).config.pair_reserve_second as int) >= old(self).config.pair_reserve_first as int * (
            old(self).config.pair_reserve_second as int),
    {
        let mut cache = StorageCache::load(&self.config);
        if cache.contract_state != State::Active {
            return Err(AmmError::InvalidState);
        }
        let token_in = payment.token_id;
        if !cache.is_pair_token(token_in) || !cache.is_pair_token(token_out) || token_in
            == token_out {
            return Err(AmmError::BadPayment);
        }
        if payment.token_nonce != 0 || payment.amount == 0 {
            return Err(AmmError::BadPayment);
        }
        let first_in = token_in == cache.first_token_id;
        let ri = if first_in {
            cache.first_token_reserve
        } else {
            cache.second_token_reserve
        };
        let ro = if first_in {
            cache.second_token_reserve
        } else {
            cache.first_token_reserve
        };
        let initial_k = cache.k();
        let out = match get_amount_out(payment.amount, ri, ro, self.config.total_fee_percent) {
            Ok(v) => v,
            Err(e) => {
                return Err(e);
            },
        };
        if out < amount_out_min {
            return Err(AmmError::SlippageExceeded);
        }
        if ri > u64::MAX - payment.amount {
            return Err(AmmError::AmountOverflow);
        }
        let fee_amount = if self.fee.is_fee_enabled() {
            get_special_fee_from_input(payment.amount, self.config.special_fee_percent)
        } else {
            0
        };
        if first_in {
            cache.first_token_reserve = ri + (payment.amount - fee_amount);
            cache.second_token_reserve = ro - out;
        } else {
            cache.second_token_reserve = ri + (payment.amount - fee_amount);
            cache.first_token_reserve = ro - out;
        }
        let ghost mid_cache = cache;
        let actions = match self.fee.send_fee(&mut cache, token_in, fee_amount) {
            Ok(v) => v,
            Err(e) => {
                return Err(e);
            },
        };
        let new_k = cache.k();
        if new_k < initial_k {
            proof {
                swap_fixed_input_k_holds(
                    spec_cache_of(old(self).config),
                    mid_cache,
                    first_in,
                    payment.amount,
                    ri,
                    ro,
                    out,
                    self.config.total_fee_percent,
                    self.config.special_fee_percent,
                    fee_amount,
                );
                crate::laws::lemma_send_fee_preserves_k(
                    self.fee.trusted_swap_pairs@,
                    self.fee.destinations@,
                    mid_cache,
                    token_in,
                    fee_amount,
                );
                assert(false);
            }
            return Err(AmmError::InvariantViolation);
        }
        cache.commit(&mut self.config);
        Ok((TokenPayment::new(token_out, 0, out), actions))
    }

    /// Swaps for a fixed output of one pool asset: the caller's payment
    /// must cover the ceiling-rounded required input; the excess is
    /// refunded.  Returns the output payment, the refund payment, and the
    /// fee actions the host must perform.
    pub fn swap_tokens_fixed_output(
        &mut self,
        payment: TokenPayment,
        token_out: TokenId,
        amount_out_wanted: u64,
    ) -> (r: Result<(TokenPayment, TokenPayment, Vec<FeeAction>), AmmError>)
        requires
            old(self).well_formed(),
        ensures
            final(self).well_formed(),
            final(self).fee.destinations@ == old(self).fee.destinations@,
            final(self).fee.trusted_swap_pairs@ == old(self).fee.trusted_swap_pairs@,
            final(self).fee.whitelist@ == old(self).fee.whitelist@,
            r is Err ==> final(self).config == old(self).config,
            ({
                let s = spec_swap_fixed_output(
                    old(self).fee.trusted_swap_pairs@,
                    old(self).fee.destinations@,
                    spec_cache_of(old(self).config),
                    old(self).config.total_fee_percent,
                    old(self).config.special_fee_percent,
                    payment,
                    token_out,
                    amount_out_wanted,
                );
                &&& (s matches Ok(p) ==> r matches Ok(v) && v.0 == (TokenPayment {
                    token_id: token_out,
                    token_nonce: 0,
                    amount: amount_out_wanted,
                }) && v.1 == (TokenPayment {
                    token_id: payment.token_id,
                    token_nonce: 0,
                    amount: p.2,
                }) && v.2@ == p.3 && final(self).config == spec_commit(p.0, old(self).config))
                &&& (s matches Err(e) ==> r == Err::<
                    (TokenPayment, TokenPayment, Vec<FeeAction>),
                    AmmError,
                >(e))
            }),
            r is Ok ==> final(self).config.pair_reserve_first as int * (final(self).config.pair_reserve_second as int) >= old(self).config.pair_reserve_first as int * (
            old(self).config.pair_reserve_second as int),
    {
        let mut cache = StorageCache::load(&self.config);
        if cache.contract_state != State::Active {
            return Err(AmmError::InvalidState);
        }
        let token_in = payment.token_id;
        if !cache.is_pair_token(token_in) || !cache.is_pair_token(token_out) || token_in
            == token_out {
            return Err(AmmError::BadPayment);
        }
        if payment.token_nonce != 0 || payment.amount == 0 {
            return Err(AmmError::BadPayment);
        }
        if amount_out_wanted == 0 {
            return Err(AmmError::InvalidArguments);
        }
        let first_in = token_in == cache.first_token_id;
        let ri = if first_in {
            cache.first_token_reserve
        } else {
            cache.second_token_reserve
        };
        let ro = if first_in {
            cache.second_token_reserve
        } else {
            cache.first_token_reserve
        };
        let initial_k = cache.k();
        let required_wide = match get_amount_in(
            amount_out_wanted,
            ri,
            ro,
            self.config.total_fee_percent,
        ) {
            Ok(v) => v,
            Err(e) => {
                if e == AmmError::AmountOverflow {
                    return Err(AmmError::SlippageExceeded);
                }
                return Err(e);
            },
        };
        if required_wide > payment.amount as u128 {
            return Err(AmmError::SlippageExceeded);
        }
        let required = required_wide as u64;
        if ri > u64::MAX - required {
            return Err(AmmError::AmountOverflow);
        }
        let fee_amount = if self.fee.is_fee_enabled() {
            get_special_fee_from_input(required, self.config.special_fee_percent)
        } else {
            0
        };
        if first_in {
            cache.first_token_reserve = ri + (required - fee_amount);
            cache.second_token_reserve = ro - amount_out_wanted;
        } else {
            cache.second_token_reserve = ri + (required - fee_amount);
            cache.first_token_reserve = ro - amount_out_wanted;
        }
        let ghost mid_cache = cache;
        let actions = match self.fee.send_fee(&mut cache, token_in, fee_amount) {
            Ok(v) => v,
            Err(e) => {
                return Err(e);
            },
        };
        let new_k = cache.k();
        if new_k < initial_k {
            proof {
                swap_fixed_output_k_holds(
                    spec_cache_of(old(self).config),
                    mid_cache,
                    first_in,
                    amount_out_wanted,
                    ri,
                    ro,
                    required,
                    self.config.total_fee_percent,
                    self.config.special_fee_percent,
                    fee_amount,
                );
                crate::laws::lemma_send_fee_preserves_k(
                    self.fee.trusted_swap_pairs@,
                    self.fee.destinations@,
                    mid_cache,
                    token_in,
                    fee_amount,
                );
                assert(false);
            }
            return Err(AmmError::InvariantViolation);
        }
        let refund = TokenPayment::new(token_in, 0, payment.amount - required);
        cache.commit(&mut self.config);
        Ok((TokenPayment::new(token_out, 0, amount_out_wanted), refund, actions))
    }

    /// The privileged no-fee swap used during fee resolution: callable
    /// only by a whitelisted counterpart pool.  The obtained output is
    /// burned; the destination of the forwarded payload travels with the
    /// caller's request.
    pub fn swap_no_fee(
        &mut self,
        caller: AccountId,
        payment: TokenPayment,
        token_out: TokenId,
        destination_address: AccountId,
    ) -> (r: Result<Option<FeeAction>, AmmError>)
        requires
            old(self).well_formed(),
        ensures
            final(self).well_formed(),
            final(self).fee.destinations@ == old(self).fee.destinations@,
            final(self).fee.trusted_swap_pairs@ == old(self).fee.trusted_swap_pairs@,
            final(self).fee.whitelist@ == old(self).fee.whitelist@,
            r is Err ==> final(self).config == old(self).config,
            ({
                let s = spec_swap_no_fee(
                    old(self).fee.whitelist@,
                    spec_cache_of(old(self).config),
                    caller,
                    payment,
                    token_out,
                );
                &&& (s matches Ok(p) ==> r == Ok::<Option<FeeAction>, AmmError>(p.1) && final(self).config == spec_commit(p.0, old(self).config))
                &&& (s matches Err(e) ==> r == Err::<Option<FeeAction>, AmmError>(e))
            }),
            r is Ok ==> final(self).config.pair_reserve_first as int * (final(self).config.pair_reserve_second as int) >= old(self).config.pair_reserve_first as int * (
            old(self).config.pair_reserve_second as int),
    {
        let _ = destination_address;
        if !self.fee.is_whitelisted(caller) {
            return Err(AmmError::PermissionDenied);
        }
        let mut cache = StorageCache::load(&self.config);
        if cache.contract_state != State::Active {
            return Err(AmmError::InvalidState);
        }
        if !cache.is_pair_token(token_out) || token_out == payment.token_id || payment.token_nonce
            != 0 {
            return Err(AmmError::BadPayment);
        }
        let out = match swap_safe_no_fee(&mut cache, payment.token_id, payment.amount) {
            Ok(v) => v,
            Err(e) => {
                return Err(e);
            },
        };
        proof {
            crate::laws::lemma_swap_safe_no_fee_preserves_k(
                spec_cache_of(old(self).config),
                payment.token_id,
                payment.amount,
            );
        }
        let action = crate::fee::burn(token_out, out);
        cache.commit(&mut self.config);
        Ok(action)
    }
}

/// The updated reserves of a fixed-input swap keep the constant product:
/// the bridge from the endpoint's cache update to the arithmetic law.
proof fn swap_fixed_input_k_holds(
    c0: StorageCache,
    mid: StorageCache,
    first_in: bool,
    amount_in: u64,
    ri: u64,
    ro: u64,
    out: u64,
    total_fee: u64,
    special_fee: u64,
    fee_amount: u64,
)
    requires
        total_fee < crate::amm::FEE_DENOMINATOR,
        special_fee <= total_fee,
        1 <= amount_in,
        1 <= ri,
        1 <= ro,
        ri == if first_in {
            c0.first_token_reserve
        } else {
            c0.second_token_reserve
        },
        ro == if first_in {
            c0.second_token_reserve
        } else {
            c0.first_token_reserve
        },
        out as int == spec_amount_out(amount_in as int, ri as int, ro as int, total_fee as int),
        fee_amount as int == if fee_amount == 0 {
            0
        } else {
            spec_special_fee_amount(amount_in as int, special_fee as int)
        },
        fee_amount <= amount_in,
        ri + amount_in <= u64::MAX,
        mid == if first_in {
            (StorageCache {
                first_token_reserve: (ri + amount_in - fee_amount) as u64,
                second_token_reserve: (ro - out) as u64,
                ..c0
            })
        } else {
            (StorageCache {
                first_token_reserve: (ro - out) as u64,
                second_token_reserve: (ri + amount_in - fee_amount) as u64,
                ..c0
            })
        },
        out < ro,
    ensures
        mid.spec_k() >= c0.spec_k(),
{
    let fd = crate::amm::FEE_DENOMINATOR as int;
    let a = amount_in as int;
    assert(fee_amount as int * fd <= a * (total_fee as int)) by {
        if fee_amount == 0 {
            assert(0 <= a * (total_fee as int)) by (nonlinear_arith)
                requires
                    0 <= a,
                    0 <= total_fee as int;
        } else {
            vstd::arithmetic::div_mod::lemma_fundamental_div_mod(a * (special_fee as int), fd);
            assert(fee_amount as int * fd <= a * (special_fee as int)) by (nonlinear_arith)
                requires
                    fee_amount as int == a * (special_fee as int) / fd,
                    a * (special_fee as int) == fd * (a * (special_fee as int) / fd) + (a * (
                    special_fee as int)) % fd,
                    0 <= (a * (special_fee as int)) % fd;
            assert(a * (special_fee as int) <= a * (total_fee as int)) by (nonlinear_arith)
                requires
                    0 <= a,
                    special_fee as int <= total_fee as int;
        }
    }
    crate::laws::lemma_swap_fixed_input_preserves_k(
        a,
        ri as int,
        ro as int,
        total_fee as int,
        fee_amount as int,
    );
    assert(mid.spec_k() >= c0.spec_k()) by (nonlinear_arith)
        requires
            (ri as int + a - fee_amount) * (ro as int - out) >= ri as int * (ro as int),
            mid.spec_k() == if first_in {
                (ri as int + a - fee_amount) * (ro as int - out)
            } else {
                (ro as int - out) * (ri as int + a - fee_amount)
            },
            c0.spec_k() == if first_in {
                ri as int * (ro as int)
            } else {
                (ro as int) * (ri as int)
            };
}

/// The updated reserves of a fixed-output swap keep the constant product.
proof fn swap_fixed_output_k_holds(
    c0: StorageCache,
    mid: StorageCache,
    first_in: bool,
    amount_out: u64,
    ri: u64,
    ro: u64,
    required: u64,
    total_fee: u64,
    special_fee: u64,
    fee_amount: u64,
)
    requires
        total_fee < crate::amm::FEE_DENOMINATOR,
        special_fee <= total_fee,
        1 <= ri,
        amount_out < ro,
        ri == if first_in {
            c0.first_token_reserve
        } else {
            c0.second_token_reserve
        },
        ro == if first_in {
            c0.second_token_reserve
        } else {
            c0.first_token_reserve
        },
        required as int == spec_amount_in(
            amount_out as int,
            ri as int,
            ro as int,
            total_fee as int,
        ),
        fee_amount as int == if fee_amount == 0 {
            0
        } else {
            spec_special_fee_amount(required as int, special_fee as int)
        },
        fee_amount <= required,
        ri + required <= u64::MAX,
        mid == if first_in {
            (StorageCache {
                first_token_reserve: (ri + required - fee_amount) as u64,
                second_token_reserve: (ro - amount_out) as u64,
                ..c0
            })
        } else {
            (StorageCache {
                first_token_reserve: (ro - amount_out) as u64,
                second_token_reserve: (ri + required - fee_amount) as u64,
                ..c0
            })
        },
    ensures
        mid.spec_k() >= c0.spec_k(),
{
    let fd = crate::amm::FEE_DENOMINATOR as int;
    let req = required as int;
    assert(fee_amount as int * fd <= req * (total_fee as int)) by {
        if fee_amount == 0 {
            assert(0 <= req * (total_fee as int)) by (nonlinear_arith)
                requires
                    0 <= req,
                    0 <= total_fee as int;
        } else {
            vstd::arithmetic::div_mod::lemma_fundamental_div_mod(req * (special_fee as int), fd);
            assert(fee_amount as int * fd <= req * (special_fee as int)) by (nonlinear_arith)
                requires
                    fee_amount as int == req * (special_fee as int) / fd,
                    req * (special_fee as int) == fd * (req * (special_fee as int) / fd) + (req * (
                    special_fee as int)) % fd,
                    0 <= (req * (special_fee as int)) % fd;
            assert(req * (special_fee as int) <= req * (total_fee as int)) by (nonlinear_arith)
                requires
                    0 <= req,
                    special_fee as int <= total_fee as int;
        }
    }
    crate::laws::lemma_swap_fixed_output_preserves_k(
        amount_out as int,
        ri as int,
        ro as int,
        total_fee as int,
        fee_amount as int,
    );
    assert(mid.spec_k() >= c0.spec_k()) by (nonlinear_arith)
        requires
            (ri as int + req - fee_amount) * (ro as int - amount_out) >= ri as int * (ro as int),
            mid.spec_k() == if first_in {
                (ri as int + req - fee_amount) * (ro as int - amount_out)
            } else {
                (ro as int - amount_out) * (ri as int + req - fee_amount)
            },
            c0.spec_k() == if first_in {
                ri as int * (ro as int)
            } else {
                (ro as int) * (ri as int)
            };
}

} // verus!
