//! Persisted configuration and lifecycle state of one pool instance: the
//! asset pair, fee percentages, authority addresses, gas limits, the share
//! token, and the reserve and supply figures the storage cache works on.

use vstd::prelude::*;

verus! {

use crate::amm::FEE_DENOMINATOR;
use crate::errors::AmmError;
use crate::types::{AccountId, TokenId};

/// Lifecycle state of the pool.  `Inactive` blocks liquidity and swap
/// operations, `ActiveNoSwaps` permits liquidity changes but blocks swaps,
/// `Active` permits everything.
#[derive(Clone, Copy, Debug, PartialEq, Eq, Structural)]
pub enum State {
    Inactive,
    Active,
    ActiveNoSwaps,
}

/// The persisted store of one pool.  Each field is independently read by
/// the storage cache at the start of an operation and written back at its
/// successful end.
#[derive(Clone, Copy, Debug, PartialEq, Eq, Structural)]
pub struct ConfigModule {
    pub state: State,
    pub first_token_id: TokenId,
    pub second_token_id: TokenId,
    pub lp_token_identifier: TokenId,
    pub router_address: AccountId,
    pub router_owner_address: AccountId,
    pub total_fee_percent: u64,
    pub special_fee_percent: u64,
    pub transfer_exec_gas_limit: u64,
    pub extern_swap_gas_limit: u64,
    pub lp_token_supply: u64,
    pub pair_reserve_first: u64,
    pub pair_reserve_second: u64,
    pub initial_liquidity_adder: Option<AccountId>,
}

impl ConfigModule {
    /// The caller may change permissioned settings: it is the router or the
    /// router's owner.
    pub open spec fn spec_has_permission(self, caller: AccountId) -> bool {
        caller == self.router_owner_address || caller == self.router_address
    }

    /// The fee percentages are in range: the protocol's sub-portion never
    /// exceeds the total, and the total stays below the denominator.
    pub open spec fn spec_valid_fees(self) -> bool {
        self.special_fee_percent <= self.total_fee_percent && self.total_fee_percent
            < FEE_DENOMINATOR
    }

    /// Structural soundness of the store: distinct pair assets, fees in
    /// range, and no share supply backed by an empty reserve.
    pub open spec fn well_formed(self) -> bool {
        &&& self.first_token_id != self.second_token_id
        &&& self.spec_valid_fees()
        &&& (self.lp_token_supply > 0 ==> self.pair_reserve_first > 0 && self.pair_reserve_second
            > 0)
    }

    /// What `new` returns for each input: the store of a fresh pool, or
    /// the rejection of an invalid pair or fee setting.
    pub open spec fn spec_new_result(
        first_token_id: TokenId,
        second_token_id: TokenId,
        router_address: AccountId,
        router_owner_address: AccountId,
        total_fee_percent: u64,
        special_fee_percent: u64,
        initial_liquidity_adder: Option<AccountId>,
    ) -> Result<ConfigModule, AmmError> {
        if first_token_id == second_token_id {
            Err(AmmError::InvalidArguments)
        } else if !(special_fee_percent <= total_fee_percent && total_fee_percent
            < FEE_DENOMINATOR) {
            Err(AmmError::InvalidArguments)
        } else {
            Ok(
                ConfigModule {
                    state: State::Inactive,
                    first_token_id,
                    second_token_id,
                    lp_token_identifier: TokenId(0),
                    router_address,
                    router_owner_address,
                    total_fee_percent,
                    special_fee_percent,
                    transfer_exec_gas_limit: 0,
                    extern_swap_gas_limit: 0,
                    lp_token_supply: 0,
                    pair_reserve_first: 0,
                    pair_reserve_second: 0,
                    initial_liquidity_adder,
                },
            )
        }
    }

    /// Creates the store for a fresh pool: distinct assets, validated fee
    /// percentages, no reserves, no supply, state `Inactive`.
    pub fn new(
        first_token_id: TokenId,
        second_token_id: TokenId,
        router_address: AccountId,
        router_owner_address: AccountId,
        total_fee_percent: u64,
        special_fee_percent: u64,
        initial_liquidity_adder: Option<AccountId>,
    ) -> (r: Result<ConfigModule, AmmError>)
        ensures
            first_token_id == second_token_id ==> r == Err::<ConfigModule, AmmError>(
                AmmError::InvalidArguments,
            ),
            first_token_id != second_token_id && !(special_fee_percent <= total_fee_percent
                && total_fee_percent < FEE_DENOMINATOR) ==> r == Err::<ConfigModule, AmmError>(
                AmmError::InvalidArguments,
            ),
            first_token_id != second_token_id && special_fee_percent <= total_fee_percent
                && total_fee_percent < FEE_DENOMINATOR ==> r == Ok::<ConfigModule, AmmError>(
                ConfigModule {
                    state: State::Inactive,
                    first_token_id,
                    second_token_id,
                    lp_token_identifier: TokenId(0),
                    router_address,
                    router_owner_address,
                    total_fee_percent,
                    special_fee_percent,
                    transfer_exec_gas_limit: 0,
                    extern_swap_gas_limit: 0,
                    lp_token_supply: 0,
                    pair_reserve_first: 0,
                    pair_reserve_second: 0,
                    initial_liquidity_adder,
                },
            ),
            r matches Ok(c) ==> c.well_formed(),
            r == ConfigModule::spec_new_result(
                first_token_id,
                second_token_id,
                router_address,
                router_owner_address,
                total_fee_percent,
                special_fee_percent,
                initial_liquidity_adder,
            ),
    {
        if first_token_id == second_token_id {
            return Err(AmmError::InvalidArguments);
        }
        if !(special_fee_percent <= total_fee_percent && total_fee_percent < FEE_DENOMINATOR) {
            return Err(AmmError::InvalidArguments);
        }
        Ok(
            ConfigModule {
                state: State::Inactive,
                first_token_id,
                second_token_id,
                lp_token_identifier: TokenId(0),
                router_address,
                router_owner_address,
                total_fee_percent,
                special_fee_percent,
                transfer_exec_gas_limit: 0,
                extern_swap_gas_limit: 0,
                lp_token_supply: 0,
                pair_reserve_first: 0,
                pair_reserve_second: 0,
                initial_liquidity_adder,
            },
        )
    }

    /// Rejects a caller that is neither the router nor the router's owner.
    pub fn require_permissions(&self, caller: AccountId) -> (r: Result<(), AmmError>)
        ensures
            self.spec_has_permission(caller) ==> r == Ok::<(), AmmError>(()),
            !self.spec_has_permission(caller) ==> r == Err::<(), AmmError>(
                AmmError::PermissionDenied,
            ),
    {
        if caller == self.router_owner_address || caller == self.router_address {
            Ok(())
        } else {
            Err(AmmError::PermissionDenied)
        }
    }

    /// Permissioned setter of the gas limit used when forwarding transfers.
    pub fn set_transfer_exec_gas_limit(&mut self, caller: AccountId, gas_limit: u64) -> (r: Result<
        (),
        AmmError,
    >)
        ensures
            old(self).spec_has_permission(caller) ==> r == Ok::<(), AmmError>(()) && *final(self)
                == (ConfigModule { transfer_exec_gas_limit: gas_limit, ..*old(self) }),
            !old(self).spec_has_permission(caller) ==> r == Err::<(), AmmError>(
                AmmError::PermissionDenied,
            ) && *final(self) == *old(self),
    {
        match self.require_permissions(caller) {
            Ok(()) => {
                self.transfer_exec_gas_limit = gas_limit;
                Ok(())
            },
            Err(e) => Err(e),
        }
    }

    /// Permissioned setter of the gas limit used for trusted cross-pool
    /// swaps.
    pub fn set_extern_swap_gas_limit(&mut self, caller: AccountId, gas_limit: u64) -> (r: Result<
        (),
        AmmError,
    >)
        ensures
            old(self).spec_has_permission(caller) ==> r == Ok::<(), AmmError>(()) && *final(self)
                == (ConfigModule { extern_swap_gas_limit: gas_limit, ..*old(self) }),
            !old(self).spec_has_permission(caller) ==> r == Err::<(), AmmError>(
                AmmError::PermissionDenied,
            ) && *final(self) == *old(self),
    {
        match self.require_permissions(caller) {
            Ok(()) => {
                self.extern_swap_gas_limit = gas_limit;
                Ok(())
            },
            Err(e) => Err(e),
        }
    }

    /// Permissioned setter of the share-token identifier.
    pub fn set_lp_token_identifier(&mut self, caller: AccountId, token_id: TokenId) -> (r: Result<
        (),
        AmmError,
    >)
        ensures
            old(self).spec_has_permission(caller) ==> r == Ok::<(), AmmError>(()) && *final(self)
                == (ConfigModule { lp_token_identifier: token_id, ..*old(self) }),
            !old(self).spec_has_permission(caller) ==> r == Err::<(), AmmError>(
                AmmError::PermissionDenied,
            ) && *final(self) == *old(self),
    {
        match self.require_permissions(caller) {
            Ok(()) => {
                self.lp_token_identifier = token_id;
                Ok(())
            },
            Err(e) => Err(e),
        }
    }

    /// Permissioned transition to `Inactive`: blocks every liquidity and
    /// swap operation.
    pub fn pause(&mut self, caller: AccountId) -> (r: Result<(), AmmError>)
        ensures
            old(self).spec_has_permission(caller) ==> r == Ok::<(), AmmError>(()) && *final(self)
                == (ConfigModule { state: State::Inactive, ..*old(self) }),
            !old(self).spec_has_permission(caller) ==> r == Err::<(), AmmError>(
                AmmError::PermissionDenied,
            ) && *final(self) == *old(self),
    {
        match self.require_permissions(caller) {
            Ok(()) => {
                self.state = State::Inactive;
                Ok(())
            },
            Err(e) => Err(e),
        }
    }

    /// Permissioned transition to `Active`: permits every operation.
    pub fn resume(&mut self, caller: AccountId) -> (r: Result<(), AmmError>)
        ensures
            old(self).spec_has_permission(caller) ==> r == Ok::<(), AmmError>(()) && *final(self)
                == (ConfigModule { state: State::Active, ..*old(self) }),
            !old(self).spec_has_permission(caller) ==> r == Err::<(), AmmError>(
                AmmError::PermissionDenied,
            ) && *final(self) == *old(self),
    {
        match self.require_permissions(caller) {
            Ok(()) => {
                self.state = State::Active;
                Ok(())
            },
            Err(e) => Err(e),
        }
    }

    /// Permissioned transition to `ActiveNoSwaps`: liquidity may still be
    /// added or removed, swaps are blocked.
    pub fn set_state_active_no_swaps(&mut self, caller: AccountId) -> (r: Result<(), AmmError>)
        ensures
            old(self).spec_has_permission(caller) ==> r == Ok::<(), AmmError>(()) && *final(self)
                == (ConfigModule { state: State::ActiveNoSwaps, ..*old(self) }),
            !old(self).spec_has_permission(caller) ==> r == Err::<(), AmmError>(
                AmmError::PermissionDenied,
            ) && *final(self) == *old(self),
    {
        match self.require_permissions(caller) {
            Ok(()) => {
                self.state = State::ActiveNoSwaps;
                Ok(())
            },
            Err(e) => Err(e),
        }
    }

    /// The identifier of the liquidity-share token.
    pub fn get_lp_token_identifier(&self) -> (r: TokenId)
        ensures
            r == self.lp_token_identifier,
    {
        self.lp_token_identifier
    }

    /// The reserve custodied for one asset of the pair, by its
    /// identifier; nothing for an asset the pool does not hold.
    pub fn pair_reserve(&self, token_id: TokenId) -> (r: Option<u64>)
        ensures
            token_id == self.first_token_id ==> r == Some(self.pair_reserve_first),
            token_id != self.first_token_id && token_id == self.second_token_id ==> r == Some(
                self.pair_reserve_second,
            ),
            token_id != self.first_token_id && token_id != self.second_token_id ==> r == None::<
                u64,
            >,
    {
        if token_id == self.first_token_id {
            Some(self.pair_reserve_first)
        } else if token_id == self.second_token_id {
            Some(self.pair_reserve_second)
        } else {
            None
        }
    }

    /// Permissioned setter of both fee percentages.
    pub fn set_fee_percent(&mut self, caller: AccountId, total_fee_percent: u64, special_fee_percent: u64) -> (r:
        Result<(), AmmError>)
        ensures
            !old(self).spec_has_permission(caller) ==> r == Err::<(), AmmError>(
                AmmError::PermissionDenied,
            ) && *final(self) == *old(self),
            old(self).spec_has_permission(caller) && total_fee_percent >= special_fee_percent
                && total_fee_percent < FEE_DENOMINATOR ==> r == Ok::<(), AmmError>(()) && *final(self)
                == (ConfigModule { total_fee_percent, special_fee_percent, ..*old(self) }),
            old(self).spec_has_permission(caller) && !(total_fee_percent >= special_fee_percent
                && total_fee_percent < FEE_DENOMINATOR) ==> r == Err::<(), AmmError>(
                AmmError::InvalidArguments,
            ) && *final(self) == *old(self),
    {
        match self.require_permissions(caller) {
            Ok(()) => self.set_fee_percents(total_fee_percent, special_fee_percent),
            Err(e) => Err(e),
        }
    }

    /// Validates and stores the fee percentages: the total must cover the
    /// protocol's sub-portion and stay below the denominator.
    pub fn set_fee_percents(&mut self, total_fee_percent: u64, special_fee_percent: u64) -> (r:
        Result<(), AmmError>)
        ensures
            total_fee_percent >= special_fee_percent && total_fee_percent < FEE_DENOMINATOR ==> r
                == Ok::<(), AmmError>(()) && *final(self) == (ConfigModule {
                total_fee_percent,
                special_fee_percent,
                ..*old(self)
            }),
            !(total_fee_percent >= special_fee_percent && total_fee_percent < FEE_DENOMINATOR)
                ==> r == Err::<(), AmmError>(AmmError::InvalidArguments) && *final(self) == *old(
                self,
            ),
    {
        if total_fee_percent >= special_fee_percent && total_fee_percent < FEE_DENOMINATOR {
            self.total_fee_percent = total_fee_percent;
            self.special_fee_percent = special_fee_percent;
            Ok(())
        } else {
            Err(AmmError::InvalidArguments)
        }
    }
}

} // verus!
