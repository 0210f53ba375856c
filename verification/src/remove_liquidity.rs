//! The per-call workspace of a remove-liquidity operation: the caller, the
//! validated arguments and payment, the storage cache snapshot, and the
//! amounts computed along the way.  A context lives for exactly one call
//! and is dropped with it.

use vstd::prelude::*;

verus! {

use crate::config::State;
use crate::storage_cache::StorageCache;
use crate::types::{AccountId, TokenId, TokenPayment};

/// Arguments of a remove-liquidity call: the slippage minima and the
/// optional callback name the caller asked the transfer to carry.
pub struct RemoveLiquidityArgs {
    pub first_token_amount_min: u64,
    pub second_token_amount_min: u64,
    pub opt_accept_funds_func: Option<Vec<u8>>,
}

/// The single payment of a remove-liquidity call: the share tokens being
/// redeemed.
pub struct RemoveLiquidityPayments {
    pub lp_token_payment: TokenPayment,
}

/// Validated input of one remove-liquidity call.
pub struct RemoveLiquidityTxInput {
    pub args: RemoveLiquidityArgs,
    pub payments: RemoveLiquidityPayments,
}

/// The full per-call workspace.  The fields are exposed so that contracts
/// can speak about them; operations go through the methods below.
pub struct RemoveLiquidityContext {
    pub caller: AccountId,
    pub tx_input: RemoveLiquidityTxInput,
    pub storage_cache: StorageCache,
    pub initial_k: u128,
    pub first_token_amount_removed: u64,
    pub second_token_amount_removed: u64,
    pub output_payments: Vec<TokenPayment>,
}

impl RemoveLiquidityArgs {
    pub fn new(
        first_token_amount_min: u64,
        second_token_amount_min: u64,
        opt_accept_funds_func: Option<Vec<u8>>,
    ) -> (a: RemoveLiquidityArgs)
        ensures
            a.first_token_amount_min == first_token_amount_min,
            a.second_token_amount_min == second_token_amount_min,
            a.opt_accept_funds_func == opt_accept_funds_func,
    {
        RemoveLiquidityArgs { first_token_amount_min, second_token_amount_min, opt_accept_funds_func }
    }

    /// The arguments pass validation: both slippage minima are nonzero.
    pub open spec fn spec_are_valid(self) -> bool {
        self.first_token_amount_min != 0 && self.second_token_amount_min != 0
    }

    pub fn are_valid(&self) -> (r: bool)
        ensures
            r == self.spec_are_valid(),
    {
        self.first_token_amount_min != 0 && self.second_token_amount_min != 0
    }
}

impl RemoveLiquidityPayments {
    pub fn new(lp_token_payment: TokenPayment) -> (p: RemoveLiquidityPayments)
        ensures
            p.lp_token_payment == lp_token_payment,
    {
        RemoveLiquidityPayments { lp_token_payment }
    }

    /// A payment passes validation: a nonzero amount of a fungible token,
    /// so its nonce must be zero.
    pub open spec fn spec_is_valid_payment(self, payment: TokenPayment) -> bool {
        payment.amount != 0 && payment.token_nonce == 0
    }

    pub fn is_valid_payment(&self, payment: &TokenPayment) -> (r: bool)
        ensures
            r == self.spec_is_valid_payment(*payment),
    {
        payment.amount != 0 && payment.token_nonce == 0
    }

    /// All payments of the call pass validation.
    pub open spec fn spec_are_valid(self) -> bool {
        self.spec_is_valid_payment(self.lp_token_payment)
    }

    pub fn are_valid(&self) -> (r: bool)
        ensures
            r == self.spec_are_valid(),
    {
        let payment = self.lp_token_payment;
        self.is_valid_payment(&payment)
    }
}

impl RemoveLiquidityTxInput {
    pub fn new(args: RemoveLiquidityArgs, payments: RemoveLiquidityPayments) -> (t:
        RemoveLiquidityTxInput)
        ensures
            t.args == args,
            t.payments == payments,
    {
        RemoveLiquidityTxInput { args, payments }
    }

    pub fn get_args(&self) -> (r: &RemoveLiquidityArgs)
        ensures
            r == self.args,
    {
        &self.args
    }

    pub fn get_payments(&self) -> (r: &RemoveLiquidityPayments)
        ensures
            r == self.payments,
    {
        &self.payments
    }

    /// Arguments and payments need no cross-validation for this operation.
    pub open spec fn spec_is_valid(self) -> bool {
        true
    }

    pub fn is_valid(&self) -> (r: bool)
        ensures
            r == self.spec_is_valid(),
    {
        true
    }
}

impl RemoveLiquidityContext {
    /// Opens the workspace for one call: the cache starts empty and every
    /// accumulator at zero.
    pub fn new(tx_input: RemoveLiquidityTxInput, caller: AccountId) -> (c: RemoveLiquidityContext)
        ensures
            c.caller == caller,
            c.tx_input == tx_input,
            c.storage_cache == (StorageCache {
                contract_state: State::Inactive,
                lp_token_id: TokenId(0),
                first_token_id: TokenId(0),
                second_token_id: TokenId(0),
                first_token_reserve: 0,
                second_token_reserve: 0,
                lp_token_supply: 0,
            }),
            c.initial_k == 0,
            c.first_token_amount_removed == 0,
            c.second_token_amount_removed == 0,
            c.output_payments@ == Seq::<TokenPayment>::empty(),
    {
        RemoveLiquidityContext {
            caller,
            tx_input,
            storage_cache: StorageCache::default(),
            initial_k: 0,
            first_token_amount_removed: 0,
            second_token_amount_removed: 0,
            output_payments: Vec::new(),
        }
    }

    pub fn set_contract_state(&mut self, contract_state: State)
        ensures
            *final(self) == (RemoveLiquidityContext {
                storage_cache: (StorageCache { contract_state, ..old(self).storage_cache }),
                ..*old(self)
            }),
    {
        self.storage_cache.contract_state = contract_state;
    }

    pub fn get_contract_state(&self) -> (r: State)
        ensures
            r == self.storage_cache.contract_state,
    {
        self.storage_cache.contract_state
    }

    /// Replaces the whole cache snapshot: used right after loading the
    /// store.
    pub fn set_storage_cache(&mut self, cache: StorageCache)
        ensures
            *final(self) == (RemoveLiquidityContext { storage_cache: cache, ..*old(self) }),
    {
        self.storage_cache = cache;
    }

    pub fn set_lp_token_id(&mut self, lp_token_id: TokenId)
        ensures
            *final(self) == (RemoveLiquidityContext {
                storage_cache: (StorageCache { lp_token_id, ..old(self).storage_cache }),
                ..*old(self)
            }),
    {
        self.storage_cache.lp_token_id = lp_token_id;
    }

    pub fn get_lp_token_id(&self) -> (r: TokenId)
        ensures
            r == self.storage_cache.lp_token_id,
    {
        self.storage_cache.lp_token_id
    }

    pub fn set_first_token_id(&mut self, token_id: TokenId)
        ensures
            *final(self) == (RemoveLiquidityContext {
                storage_cache: (StorageCache {
                    first_token_id: token_id,
                    ..old(self).storage_cache
                }),
                ..*old(self)
            }),
    {
        self.storage_cache.first_token_id = token_id;
    }

    pub fn get_first_token_id(&self) -> (r: TokenId)
        ensures
            r == self.storage_cache.first_token_id,
    {
        self.storage_cache.first_token_id
    }

    pub fn set_second_token_id(&mut self, token_id: TokenId)
        ensures
            *final(self) == (RemoveLiquidityContext {
                storage_cache: (StorageCache {
                    second_token_id: token_id,
                    ..old(self).storage_cache
                }),
                ..*old(self)
            }),
    {
        self.storage_cache.second_token_id = token_id;
    }

    pub fn get_second_token_id(&self) -> (r: TokenId)
        ensures
            r == self.storage_cache.second_token_id,
    {
        self.storage_cache.second_token_id
    }

    pub fn set_first_token_reserve(&mut self, amount: u64)
        ensures
            *final(self) == (RemoveLiquidityContext {
                storage_cache: (StorageCache {
                    first_token_reserve: amount,
                    ..old(self).storage_cache
                }),
                ..*old(self)
            }),
    {
        self.storage_cache.first_token_reserve = amount;
    }

    pub fn get_first_token_reserve(&self) -> (r: u64)
        ensures
            r == self.storage_cache.first_token_reserve,
    {
        self.storage_cache.first_token_reserve
    }

    pub fn set_second_token_reserve(&mut self, amount: u64)
        ensures
            *final(self) == (RemoveLiquidityContext {
                storage_cache: (StorageCache {
                    second_token_reserve: amount,
                    ..old(self).storage_cache
                }),
                ..*old(self)
            }),
    {
        self.storage_cache.second_token_reserve = amount;
    }

    pub fn get_second_token_reserve(&self) -> (r: u64)
        ensures
            r == self.storage_cache.second_token_reserve,
    {
        self.storage_cache.second_token_reserve
    }

    pub fn set_lp_token_supply(&mut self, amount: u64)
        ensures
            *final(self) == (RemoveLiquidityContext {
                storage_cache: (StorageCache {
                    lp_token_supply: amount,
                    ..old(self).storage_cache
                }),
                ..*old(self)
            }),
    {
        self.storage_cache.lp_token_supply = amount;
    }

    pub fn get_lp_token_supply(&self) -> (r: u64)
        ensures
            r == self.storage_cache.lp_token_supply,
    {
        self.storage_cache.lp_token_supply
    }

    /// Records the constant-product value captured on entry, before any
    /// mutation.
    pub fn set_initial_k(&mut self, k: u128)
        ensures
            *final(self) == (RemoveLiquidityContext { initial_k: k, ..*old(self) }),
    {
        self.initial_k = k;
    }

    pub fn get_initial_k(&self) -> (r: u128)
        ensures
            r == self.initial_k,
    {
        self.initial_k
    }

    pub fn get_caller(&self) -> (r: AccountId)
        ensures
            r == self.caller,
    {
        self.caller
    }

    pub fn set_output_payments(&mut self, payments: Vec<TokenPayment>)
        ensures
            *final(self) == (RemoveLiquidityContext { output_payments: payments, ..*old(self) }),
    {
        self.output_payments = payments;
    }

    pub fn get_output_payments(&self) -> (r: &Vec<TokenPayment>)
        ensures
            r == self.output_payments,
    {
        &self.output_payments
    }

    pub fn get_opt_accept_funds_func(&self) -> (r: &Option<Vec<u8>>)
        ensures
            r == self.tx_input.args.opt_accept_funds_func,
    {
        &self.tx_input.args.opt_accept_funds_func
    }

    pub fn get_tx_input(&self) -> (r: &RemoveLiquidityTxInput)
        ensures
            r == self.tx_input,
    {
        &self.tx_input
    }

    pub fn get_lp_token_payment(&self) -> (r: TokenPayment)
        ensures
            r == self.tx_input.payments.lp_token_payment,
    {
        self.tx_input.payments.lp_token_payment
    }

    pub fn get_first_token_amount_min(&self) -> (r: u64)
        ensures
            r == self.tx_input.args.first_token_amount_min,
    {
        self.tx_input.args.first_token_amount_min
    }

    pub fn get_second_token_amount_min(&self) -> (r: u64)
        ensures
            r == self.tx_input.args.second_token_amount_min,
    {
        self.tx_input.args.second_token_amount_min
    }

    pub fn set_first_token_amount_removed(&mut self, amount: u64)
        ensures
            *final(self) == (RemoveLiquidityContext {
                first_token_amount_removed: amount,
                ..*old(self)
            }),
    {
        self.first_token_amount_removed = amount;
    }

    pub fn get_first_token_amount_removed(&self) -> (r: u64)
        ensures
            r == self.first_token_amount_removed,
    {
        self.first_token_amount_removed
    }

    pub fn set_second_token_amount_removed(&mut self, amount: u64)
        ensures
            *final(self) == (RemoveLiquidityContext {
                second_token_amount_removed: amount,
                ..*old(self)
            }),
    {
        self.second_token_amount_removed = amount;
    }

    pub fn get_second_token_amount_removed(&self) -> (r: u64)
        ensures
            r == self.second_token_amount_removed,
    {
        self.second_token_amount_removed
    }

    /// Burns the redeemed shares out of the cached supply.
    pub fn decrease_lp_token_supply(&mut self)
        requires
            old(self).tx_input.payments.lp_token_payment.amount <= old(
                self,
            ).storage_cache.lp_token_supply,
        ensures
            *final(self) == (RemoveLiquidityContext {
                storage_cache: (StorageCache {
                    lp_token_supply: (old(self).storage_cache.lp_token_supply - old(
                        self,
                    ).tx_input.payments.lp_token_payment.amount) as u64,
                    ..old(self).storage_cache
                }),
                ..*old(self)
            }),
    {
        self.storage_cache.lp_token_supply = self.storage_cache.lp_token_supply
            - self.tx_input.payments.lp_token_payment.amount;
    }

    /// Pays the removed amounts out of the cached reserves.
    pub fn decrease_reserves(&mut self)
        requires
            old(self).first_token_amount_removed <= old(self).storage_cache.first_token_reserve,
            old(self).second_token_amount_removed <= old(self).storage_cache.second_token_reserve,
        ensures
            *final(self) == (RemoveLiquidityContext {
                storage_cache: (StorageCache {
                    first_token_reserve: (old(self).storage_cache.first_token_reserve - old(
                        self,
                    ).first_token_amount_removed) as u64,
                    second_token_reserve: (old(self).storage_cache.second_token_reserve - old(
                        self,
                    ).second_token_amount_removed) as u64,
                    ..old(self).storage_cache
                }),
                ..*old(self)
            }),
    {
        self.storage_cache.first_token_reserve = self.storage_cache.first_token_reserve
            - self.first_token_amount_removed;
        self.storage_cache.second_token_reserve = self.storage_cache.second_token_reserve
            - self.second_token_amount_removed;
    }
}

} // verus!
