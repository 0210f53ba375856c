//! Distribution of the protocol's fee cut.  A fee amount in a known asset
//! is split evenly across the registered destinations; each slice is
//! resolved independently: burned directly, swapped in-pool at the
//! zero-fee price and burned, or forwarded to a trusted counterpart pool.
//! A slice with no resolution path aborts the whole distribution.
//!
//! The pool itself cannot move tokens: each resolved slice becomes a
//! `FeeAction` that the host performs after the operation commits.

use vstd::prelude::*;

verus! {

use crate::config::ConfigModule;
use crate::errors::AmmError;
use crate::liquidity_pool::{spec_swap_safe_no_fee, swap_safe_no_fee};
use crate::storage_cache::StorageCache;
use crate::types::{AccountId, TokenId};

/// An ordered pair of assets, the key of the trusted-pair registry.
#[derive(Clone, Copy, Debug, PartialEq, Eq, Structural)]
pub struct TokenPair {
    pub first_token: TokenId,
    pub second_token: TokenId,
}

/// One registered fee destination: who receives the slice and in which
/// asset it asked to receive it.
#[derive(Clone, Copy, Debug, PartialEq, Eq, Structural)]
pub struct FeeDestination {
    pub address: AccountId,
    pub token_id: TokenId,
}

/// One entry of the trusted-pair registry: a counterpart pool authorized
/// for no-fee swaps over the given asset pair.
#[derive(Clone, Copy, Debug, PartialEq, Eq, Structural)]
pub struct TrustedSwapPair {
    pub token_pair: TokenPair,
    pub pair_address: AccountId,
}

/// A token movement the host must perform on the pool's behalf once the
/// operation commits.
#[derive(Clone, Copy, Debug, PartialEq, Eq, Structural)]
pub enum FeeAction {
    /// Remove the amount from circulating supply.
    Burn { token_id: TokenId, amount: u64 },
    /// Forward the amount to a trusted counterpart pool's no-fee-swap
    /// entry point, destined for the fee destination.
    ExternSwap {
        pair_address: AccountId,
        token_in: TokenId,
        token_nonce: u64,
        amount_in: u64,
        token_out: TokenId,
        destination: AccountId,
    },
}

/// Builder of the privileged call into a trusted counterpart pool.  The
/// core only describes the call; the host transport performs it.
pub struct PairProxy {
    pub pair_address: AccountId,
}

impl PairProxy {
    /// Describes one forwarded no-fee swap: the payment carried and the
    /// asset and destination requested from the counterpart pool.
    pub fn swap_no_fee(
        &self,
        token_in: TokenId,
        nonce: u64,
        amount_in: u64,
        token_out: TokenId,
        destination_address: AccountId,
    ) -> (a: FeeAction)
        ensures
            a == (FeeAction::ExternSwap {
                pair_address: self.pair_address,
                token_in,
                token_nonce: nonce,
                amount_in,
                token_out,
                destination: destination_address,
            }),
    {
        FeeAction::ExternSwap {
            pair_address: self.pair_address,
            token_in,
            token_nonce: nonce,
            amount_in,
            token_out,
            destination: destination_address,
        }
    }
}

/// The fee configuration of one pool: its destinations, its trusted-pair
/// registry, and the addresses allowed to call the no-fee-swap entry
/// point.
pub struct FeeModule {
    pub destinations: Vec<FeeDestination>,
    pub trusted_swap_pairs: Vec<TrustedSwapPair>,
    pub whitelist: Vec<AccountId>,
}

/// Index of the first destination registered under `address`, from
/// position `i` on; the sequence length when there is none.
pub open spec fn spec_dest_index_from(
    dests: Seq<FeeDestination>,
    address: AccountId,
    i: int,
) -> int
    decreases dests.len() - i,
{
    if i < 0 || i >= dests.len() {
        dests.len() as int
    } else if dests[i].address == address {
        i
    } else {
        spec_dest_index_from(dests, address, i + 1)
    }
}

/// `address` is a registered fee destination.
pub open spec fn spec_is_fee_dest(dests: Seq<FeeDestination>, address: AccountId) -> bool {
    spec_dest_index_from(dests, address, 0) < dests.len()
}

/// Index of the first whitelist entry equal to `account`, from position
/// `i` on; the sequence length when there is none.
pub open spec fn spec_account_index_from(wl: Seq<AccountId>, account: AccountId, i: int) -> int
    decreases wl.len() - i,
{
    if i < 0 || i >= wl.len() {
        wl.len() as int
    } else if wl[i] == account {
        i
    } else {
        spec_account_index_from(wl, account, i + 1)
    }
}

/// `account` may call the privileged no-fee-swap entry point.
pub open spec fn spec_is_whitelisted(wl: Seq<AccountId>, account: AccountId) -> bool {
    spec_account_index_from(wl, account, 0) < wl.len()
}

/// Index of the first registry entry whose pair is exactly `(first,
/// second)` in that order, from position `i` on; the sequence length when
/// there is none.
pub open spec fn spec_trusted_index_from(
    pairs: Seq<TrustedSwapPair>,
    first: TokenId,
    second: TokenId,
    i: int,
) -> int
    decreases pairs.len() - i,
{
    if i < 0 || i >= pairs.len() {
        pairs.len() as int
    } else if pairs[i].token_pair.first_token == first && pairs[i].token_pair.second_token
        == second {
        i
    } else {
        spec_trusted_index_from(pairs, first, second, i + 1)
    }
}

/// The counterpart pool registered under the exact ordering `(first,
/// second)`, if any.
pub open spec fn spec_find_trusted(
    pairs: Seq<TrustedSwapPair>,
    first: TokenId,
    second: TokenId,
) -> Option<AccountId> {
    let i = spec_trusted_index_from(pairs, first, second, 0);
    if i < pairs.len() {
        Some(pairs[i].pair_address)
    } else {
        None
    }
}

/// The counterpart pool for the unordered pair: the exact ordering is
/// looked up first, then the reversed one.
pub open spec fn spec_extern_swap_pair_address(
    pairs: Seq<TrustedSwapPair>,
    first: TokenId,
    second: TokenId,
) -> Option<AccountId> {
    if spec_find_trusted(pairs, first, second) is Some {
        spec_find_trusted(pairs, first, second)
    } else {
        spec_find_trusted(pairs, second, first)
    }
}

/// The fee slice already matches the requested asset: it is burned as it
/// stands.
pub open spec fn spec_can_send_fee_directly(fee_token: TokenId, requested: TokenId) -> bool {
    fee_token == requested
}

/// The fee asset and the requested asset are exactly the pool's own pair:
/// an in-pool zero-fee swap resolves the slice.
pub open spec fn spec_can_resolve_swap_locally(
    fee_token: TokenId,
    requested: TokenId,
    pool_first: TokenId,
    pool_second: TokenId,
) -> bool {
    (requested == pool_first && fee_token == pool_second) || (requested == pool_second
        && fee_token == pool_first)
}

/// A trusted counterpart handles `(fee asset, requested asset)` directly.
pub open spec fn spec_can_extern_swap_directly(
    pairs: Seq<TrustedSwapPair>,
    fee_token: TokenId,
    requested: TokenId,
) -> bool {
    spec_extern_swap_pair_address(pairs, fee_token, requested) is Some
}

/// The fee asset is one pool asset and a trusted counterpart handles the
/// *other* pool asset against the requested one: swap locally first, then
/// forward.
pub open spec fn spec_can_extern_swap_after_local_swap(
    pairs: Seq<TrustedSwapPair>,
    pool_first: TokenId,
    pool_second: TokenId,
    fee_token: TokenId,
    requested: TokenId,
) -> bool {
    if fee_token == pool_first {
        spec_extern_swap_pair_address(pairs, pool_second, requested) is Some
    } else if fee_token == pool_second {
        spec_extern_swap_pair_address(pairs, pool_first, requested) is Some
    } else {
        false
    }
}

/// A burn action, skipped for a zero amount.
pub open spec fn spec_burn(token_id: TokenId, amount: u64) -> Option<FeeAction> {
    if amount > 0 {
        Some(FeeAction::Burn { token_id, amount })
    } else {
        None
    }
}

/// Resolution of one fee slice for one destination: the five cases of the
/// state machine, tried strictly in this order, first match wins.
pub open spec fn spec_send_fee_slice(
    pairs: Seq<TrustedSwapPair>,
    cache: StorageCache,
    fee_token: TokenId,
    fee_slice: u64,
    fee_address: AccountId,
    requested: TokenId,
) -> Result<(StorageCache, Option<FeeAction>), AmmError> {
    if spec_can_send_fee_directly(fee_token, requested) {
        Ok((cache, spec_burn(fee_token, fee_slice)))
    } else if spec_can_resolve_swap_locally(
        fee_token,
        requested,
        cache.first_token_id,
        cache.second_token_id,
    ) {
        match spec_swap_safe_no_fee(cache, fee_token, fee_slice) {
            Ok(p) => Ok((p.0, spec_burn(requested, p.1))),
            Err(e) => Err(e),
        }
    } else if spec_can_extern_swap_directly(pairs, fee_token, requested) {
        Ok(
            (
                cache,
                Some(
                    FeeAction::ExternSwap {
                        pair_address: spec_extern_swap_pair_address(
                            pairs,
                            fee_token,
                            requested,
                        )->Some_0,
                        token_in: fee_token,
                        token_nonce: 0,
                        amount_in: fee_slice,
                        token_out: requested,
                        destination: fee_address,
                    },
                ),
            ),
        )
    } else if spec_can_extern_swap_after_local_swap(
        pairs,
        cache.first_token_id,
        cache.second_token_id,
        fee_token,
        requested,
    ) {
        match spec_swap_safe_no_fee(cache, fee_token, fee_slice) {
            Ok(p) => {
                let to_send_token = if fee_token == cache.first_token_id {
                    cache.second_token_id
                } else {
                    cache.first_token_id
                };
                Ok(
                    (
                        p.0,
                        Some(
                            FeeAction::ExternSwap {
                                pair_address: spec_extern_swap_pair_address(
                                    pairs,
                                    to_send_token,
                                    requested,
                                )->Some_0,
                                token_in: to_send_token,
                                token_nonce: 0,
                                amount_in: p.1,
                                token_out: requested,
                                destination: fee_address,
                            },
                        ),
                    ),
                )
            },
            Err(e) => Err(e),
        }
    } else {
        Err(AmmError::FeeUnresolvable)
    }
}

/// Resolution of the slices of the destinations from index `i` on, each
/// against the state the previous one left.
pub open spec fn spec_distribute_fee(
    pairs: Seq<TrustedSwapPair>,
    dests: Seq<FeeDestination>,
    cache: StorageCache,
    fee_token: TokenId,
    fee_slice: u64,
    i: int,
) -> Result<(StorageCache, Seq<FeeAction>), AmmError>
    decreases dests.len() - i,
{
    if i < 0 || i >= dests.len() {
        Ok((cache, Seq::empty()))
    } else {
        match spec_send_fee_slice(
            pairs,
            cache,
            fee_token,
            fee_slice,
            dests[i].address,
            dests[i].token_id,
        ) {
            Ok(p) => {
                match spec_distribute_fee(pairs, dests, p.0, fee_token, fee_slice, i + 1) {
                    Ok(q) => Ok(
                        (
                            q.0,
                            match p.1 {
                                Some(a) => seq![a] + q.1,
                                None => q.1,
                            },
                        ),
                    ),
                    Err(e) => Err(e),
                }
            },
            Err(e) => Err(e),
        }
    }
}

/// Returns the undistributed remainder to the reserve of its own asset.
/// An amount in an asset the pool does not hold stays custodied outside
/// the reserves, so the cache is unchanged for it.
pub open spec fn spec_credit_reserve(c: StorageCache, token: TokenId, amount: int) -> Result<
    StorageCache,
    AmmError,
> {
    if token == c.first_token_id {
        if c.first_token_reserve + amount > u64::MAX {
            Err(AmmError::AmountOverflow)
        } else {
            Ok(StorageCache { first_token_reserve: (c.first_token_reserve + amount) as u64, ..c })
        }
    } else if token == c.second_token_id {
        if c.second_token_reserve + amount > u64::MAX {
            Err(AmmError::AmountOverflow)
        } else {
            Ok(StorageCache { second_token_reserve: (c.second_token_reserve + amount) as u64, ..c })
        }
    } else {
        Ok(c)
    }
}

/// The whole fee distribution: an even split by floor division, one slice
/// per destination, the division remainder credited back to the reserve.
pub open spec fn spec_send_fee(
    pairs: Seq<TrustedSwapPair>,
    dests: Seq<FeeDestination>,
    cache: StorageCache,
    fee_token: TokenId,
    fee_amount: u64,
) -> Result<(StorageCache, Seq<FeeAction>), AmmError> {
    if fee_amount == 0 || dests.len() == 0 {
        Ok((cache, Seq::empty()))
    } else {
        let fee_slice = fee_amount as int / dests.len() as int;
        if fee_slice == 0 {
            match spec_credit_reserve(cache, fee_token, fee_amount as int) {
                Ok(c2) => Ok((c2, Seq::empty())),
                Err(e) => Err(e),
            }
        } else {
            match spec_distribute_fee(pairs, dests, cache, fee_token, fee_slice as u64, 0) {
                Ok(p) => {
                    let remainder = fee_amount - dests.len() * fee_slice;
                    match spec_credit_reserve(p.0, fee_token, remainder) {
                        Ok(c3) => Ok((c3, p.1)),
                        Err(e) => Err(e),
                    }
                },
                Err(e) => Err(e),
            }
        }
    }
}

impl FeeModule {
    /// A fee configuration with no destinations, no trusted pairs and an
    /// empty whitelist.
    pub fn new() -> (f: FeeModule)
        ensures
            f.destinations@ == Seq::<FeeDestination>::empty(),
            f.trusted_swap_pairs@ == Seq::<TrustedSwapPair>::empty(),
            f.whitelist@ == Seq::<AccountId>::empty(),
    {
        FeeModule { destinations: Vec::new(), trusted_swap_pairs: Vec::new(), whitelist: Vec::new() }
    }

    /// Fees are distributed at all only while at least one destination is
    /// registered.
    pub fn is_fee_enabled(&self) -> (r: bool)
        ensures
            r == (self.destinations@.len() != 0),
    {
        self.destinations.len() != 0
    }

    /// Index of the first destination registered under `address`, or the
    /// number of destinations when there is none.
    fn dest_index(&self, address: AccountId) -> (i: usize)
        ensures
            i as int == spec_dest_index_from(self.destinations@, address, 0),
            i <= self.destinations@.len(),
    {
        let n = self.destinations.len();
        let mut i: usize = 0;
        while i < n
            invariant
                0 <= i <= n,
                n == self.destinations@.len(),
                spec_dest_index_from(self.destinations@, address, 0) == spec_dest_index_from(
                    self.destinations@,
                    address,
                    i as int,
                ),
            decreases n - i,
        {
            if self.destinations[i].address == address {
                return i;
            }
            i = i + 1;
        }
        i
    }

    /// Index of the first whitelist entry equal to `account`, or the
    /// whitelist length when there is none.
    fn whitelist_index(&self, account: AccountId) -> (i: usize)
        ensures
            i as int == spec_account_index_from(self.whitelist@, account, 0),
            i <= self.whitelist@.len(),
    {
        let n = self.whitelist.len();
        let mut i: usize = 0;
        while i < n
            invariant
                0 <= i <= n,
                n == self.whitelist@.len(),
                spec_account_index_from(self.whitelist@, account, 0) == spec_account_index_from(
                    self.whitelist@,
                    account,
                    i as int,
                ),
            decreases n - i,
        {
            if self.whitelist[i] == account {
                return i;
            }
            i = i + 1;
        }
        i
    }

    /// Index of the first registry entry holding exactly `(first, second)`
    /// in that order, or the registry length when there is none.
    fn trusted_index(&self, first: TokenId, second: TokenId) -> (i: usize)
        ensures
            i as int == spec_trusted_index_from(self.trusted_swap_pairs@, first, second, 0),
            i <= self.trusted_swap_pairs@.len(),
    {
        let n = self.trusted_swap_pairs.len();
        let mut i: usize = 0;
        while i < n
            invariant
                0 <= i <= n,
                n == self.trusted_swap_pairs@.len(),
                spec_trusted_index_from(self.trusted_swap_pairs@, first, second, 0)
                    == spec_trusted_index_from(self.trusted_swap_pairs@, first, second, i as int),
            decreases n - i,
        {
            let entry = self.trusted_swap_pairs[i];
            if entry.token_pair.first_token == first && entry.token_pair.second_token == second {
                return i;
            }
            i = i + 1;
        }
        i
    }

    /// Whether `account` may call the privileged no-fee-swap entry point.
    pub fn is_whitelisted(&self, account: AccountId) -> (r: bool)
        ensures
            r == spec_is_whitelisted(self.whitelist@, account),
    {
        let i = self.whitelist_index(account);
        i < self.whitelist.len()
    }

    /// Permissioned: adds `address` to the no-fee-swap whitelist; rejects
    /// an address already present.
    pub fn whitelist_endpoint(&mut self, config: &ConfigModule, caller: AccountId, address: AccountId) -> (r:
        Result<(), AmmError>)
        ensures
            !config.spec_has_permission(caller) ==> r == Err::<(), AmmError>(
                AmmError::PermissionDenied,
            ) && *final(self) == *old(self),
            config.spec_has_permission(caller) && spec_is_whitelisted(old(self).whitelist@, address)
                ==> r == Err::<(), AmmError>(AmmError::InvalidArguments) && *final(self) == *old(
                self,
            ),
            config.spec_has_permission(caller) && !spec_is_whitelisted(
                old(self).whitelist@,
                address,
            ) ==> r == Ok::<(), AmmError>(()) && final(self).whitelist@ == old(
                self,
            ).whitelist@.push(address) && final(self).destinations@ == old(self).destinations@
                && final(self).trusted_swap_pairs@ == old(self).trusted_swap_pairs@,
    {
        match config.require_permissions(caller) {
            Ok(()) => {
                if self.is_whitelisted(address) {
                    Err(AmmError::InvalidArguments)
                } else {
                    self.whitelist.push(address);
                    Ok(())
                }
            },
            Err(e) => Err(e),
        }
    }

    /// Permissioned: removes `address` from the no-fee-swap whitelist;
    /// rejects an address not present.
    pub fn remove_whitelist(&mut self, config: &ConfigModule, caller: AccountId, address: AccountId) -> (r:
        Result<(), AmmError>)
        ensures
            !config.spec_has_permission(caller) ==> r == Err::<(), AmmError>(
                AmmError::PermissionDenied,
            ) && *final(self) == *old(self),
            config.spec_has_permission(caller) && !spec_is_whitelisted(
                old(self).whitelist@,
                address,
            ) ==> r == Err::<(), AmmError>(AmmError::InvalidArguments) && *final(self) == *old(
                self,
            ),
            config.spec_has_permission(caller) && spec_is_whitelisted(old(self).whitelist@, address)
                ==> r == Ok::<(), AmmError>(()) && final(self).whitelist@ == old(
                self,
            ).whitelist@.remove(spec_account_index_from(old(self).whitelist@, address, 0)) && final(self).destinations@ == old(self).destinations@ && final(self).trusted_swap_pairs@ == old(
                self,
            ).trusted_swap_pairs@,
    {
        match config.require_permissions(caller) {
            Ok(()) => {
                let i = self.whitelist_index(address);
                if i < self.whitelist.len() {
                    self.whitelist.remove(i);
                    Ok(())
                } else {
                    Err(AmmError::InvalidArguments)
                }
            },
            Err(e) => Err(e),
        }
    }

    /// Permissioned: registers a trusted counterpart pool for an asset
    /// pair; rejects identical assets and a pair already registered in
    /// that order.
    pub fn add_trusted_swap_pair(
        &mut self,
        config: &ConfigModule,
        caller: AccountId,
        pair_address: AccountId,
        first_token: TokenId,
        second_token: TokenId,
    ) -> (r: Result<(), AmmError>)
        ensures
            !config.spec_has_permission(caller) ==> r == Err::<(), AmmError>(
                AmmError::PermissionDenied,
            ) && *final(self) == *old(self),
            config.spec_has_permission(caller) && first_token == second_token ==> r == Err::<
                (),
                AmmError,
            >(AmmError::InvalidArguments) && *final(self) == *old(self),
            config.spec_has_permission(caller) && first_token != second_token && spec_find_trusted(
                old(self).trusted_swap_pairs@,
                first_token,
                second_token,
            ) is Some ==> r == Err::<(), AmmError>(AmmError::InvalidArguments) && *final(self)
                == *old(self),
            config.spec_has_permission(caller) && first_token != second_token && spec_find_trusted(
                old(self).trusted_swap_pairs@,
                first_token,
                second_token,
            ) is None ==> r == Ok::<(), AmmError>(()) && final(self).trusted_swap_pairs@ == old(
                self,
            ).trusted_swap_pairs@.push(
                TrustedSwapPair {
                    token_pair: TokenPair { first_token, second_token },
                    pair_address,
                },
            ) && final(self).destinations@ == old(self).destinations@ && final(self).whitelist@
                == old(self).whitelist@,
    {
        match config.require_permissions(caller) {
            Ok(()) => {
                if first_token == second_token {
                    return Err(AmmError::InvalidArguments);
                }
                let i = self.trusted_index(first_token, second_token);
                if i < self.trusted_swap_pairs.len() {
                    return Err(AmmError::InvalidArguments);
                }
                self.trusted_swap_pairs.push(
                    TrustedSwapPair {
                        token_pair: TokenPair { first_token, second_token },
                        pair_address,
                    },
                );
                Ok(())
            },
            Err(e) => Err(e),
        }
    }

    /// Permissioned: removes the registry entry of an asset pair, trying
    /// the exact ordering first and the reversed one second; rejects a
    /// pair not registered either way.
    pub fn remove_trusted_swap_pair(
        &mut self,
        config: &ConfigModule,
        caller: AccountId,
        first_token: TokenId,
        second_token: TokenId,
    ) -> (r: Result<(), AmmError>)
        ensures
            !config.spec_has_permission(caller) ==> r == Err::<(), AmmError>(
                AmmError::PermissionDenied,
            ) && *final(self) == *old(self),
            config.spec_has_permission(caller) && spec_find_trusted(
                old(self).trusted_swap_pairs@,
                first_token,
                second_token,
            ) is Some ==> r == Ok::<(), AmmError>(()) && final(self).trusted_swap_pairs@ == old(
                self,
            ).trusted_swap_pairs@.remove(
                spec_trusted_index_from(old(self).trusted_swap_pairs@, first_token, second_token, 0),
            ),
            config.spec_has_permission(caller) && spec_find_trusted(
                old(self).trusted_swap_pairs@,
                first_token,
                second_token,
            ) is None && spec_find_trusted(
                old(self).trusted_swap_pairs@,
                second_token,
                first_token,
            ) is Some ==> r == Ok::<(), AmmError>(()) && final(self).trusted_swap_pairs@ == old(
                self,
            ).trusted_swap_pairs@.remove(
                spec_trusted_index_from(old(self).trusted_swap_pairs@, second_token, first_token, 0),
            ),
            config.spec_has_permission(caller) && spec_find_trusted(
                old(self).trusted_swap_pairs@,
                first_token,
                second_token,
            ) is None && spec_find_trusted(
                old(self).trusted_swap_pairs@,
                second_token,
                first_token,
            ) is None ==> r == Err::<(), AmmError>(AmmError::InvalidArguments) && *final(self)
                == *old(self),
            final(self).destinations@ == old(self).destinations@,
            final(self).whitelist@ == old(self).whitelist@,
    {
        match config.require_permissions(caller) {
            Ok(()) => {
                let i = self.trusted_index(first_token, second_token);
                if i < self.trusted_swap_pairs.len() {
                    self.trusted_swap_pairs.remove(i);
                    return Ok(());
                }
                let j = self.trusted_index(second_token, first_token);
                if j < self.trusted_swap_pairs.len() {
                    self.trusted_swap_pairs.remove(j);
                    return Ok(());
                }
                Err(AmmError::InvalidArguments)
            },
            Err(e) => Err(e),
        }
    }

    /// Permissioned: registers (`enabled`) or removes (`!enabled`) a fee
    /// destination.  Removal demands the registered asset be named
    /// exactly.
    pub fn set_fee_on(
        &mut self,
        config: &ConfigModule,
        caller: AccountId,
        enabled: bool,
        fee_to_address: AccountId,
        fee_token: TokenId,
    ) -> (r: Result<(), AmmError>)
        ensures
            !config.spec_has_permission(caller) ==> r == Err::<(), AmmError>(
                AmmError::PermissionDenied,
            ) && *final(self) == *old(self),
            config.spec_has_permission(caller) && enabled && spec_is_fee_dest(
                old(self).destinations@,
                fee_to_address,
            ) ==> r == Err::<(), AmmError>(AmmError::InvalidArguments) && *final(self) == *old(
                self,
            ),
            config.spec_has_permission(caller) && enabled && !spec_is_fee_dest(
                old(self).destinations@,
                fee_to_address,
            ) ==> r == Ok::<(), AmmError>(()) && final(self).destinations@ == old(
                self,
            ).destinations@.push(
                FeeDestination { address: fee_to_address, token_id: fee_token },
            ),
            config.spec_has_permission(caller) && !enabled && !spec_is_fee_dest(
                old(self).destinations@,
                fee_to_address,
            ) ==> r == Err::<(), AmmError>(AmmError::InvalidArguments) && *final(self) == *old(
                self,
            ),
            config.spec_has_permission(caller) && !enabled && spec_is_fee_dest(
                old(self).destinations@,
                fee_to_address,
            ) && old(self).destinations@[spec_dest_index_from(
                old(self).destinations@,
                fee_to_address,
                0,
            )].token_id != fee_token ==> r == Err::<(), AmmError>(AmmError::InvalidArguments)
                && *final(self) == *old(self),
            config.spec_has_permission(caller) && !enabled && spec_is_fee_dest(
                old(self).destinations@,
                fee_to_address,
            ) && old(self).destinations@[spec_dest_index_from(
                old(self).destinations@,
                fee_to_address,
                0,
            )].token_id == fee_token ==> r == Ok::<(), AmmError>(()) && final(self).destinations@
                == old(self).destinations@.remove(
                spec_dest_index_from(old(self).destinations@, fee_to_address, 0),
            ),
            final(self).trusted_swap_pairs@ == old(self).trusted_swap_pairs@,
            final(self).whitelist@ == old(self).whitelist@,
    {
        match config.require_permissions(caller) {
            Ok(()) => {
                let i = self.dest_index(fee_to_address);
                let is_dest = i < self.destinations.len();
                if enabled {
                    if is_dest {
                        return Err(AmmError::InvalidArguments);
                    }
                    self.destinations.push(
                        FeeDestination { address: fee_to_address, token_id: fee_token },
                    );
                    Ok(())
                } else {
                    if !is_dest {
                        return Err(AmmError::InvalidArguments);
                    }
                    if self.destinations[i].token_id != fee_token {
                        return Err(AmmError::InvalidArguments);
                    }
                    self.destinations.remove(i);
                    Ok(())
                }
            },
            Err(e) => Err(e),
        }
    }

    /// The registered fee destinations, in registration order.
    pub fn get_fee_destinations(&self) -> (r: Vec<FeeDestination>)
        ensures
            r@ == self.destinations@,
    {
        let n = self.destinations.len();
        let mut out: Vec<FeeDestination> = Vec::new();
        let mut i: usize = 0;
        while i < n
            invariant
                0 <= i <= n,
                n == self.destinations@.len(),
                out@ == self.destinations@.subrange(0, i as int),
            decreases n - i,
        {
            out.push(self.destinations[i]);
            proof {
                assert(out@ =~= self.destinations@.subrange(0, i as int + 1));
            }
            i = i + 1;
        }
        proof {
            assert(out@ =~= self.destinations@);
        }
        out
    }

    /// The trusted-pair registry, in registration order.
    pub fn get_trusted_swap_pairs(&self) -> (r: Vec<TrustedSwapPair>)
        ensures
            r@ == self.trusted_swap_pairs@,
    {
        let n = self.trusted_swap_pairs.len();
        let mut out: Vec<TrustedSwapPair> = Vec::new();
        let mut i: usize = 0;
        while i < n
            invariant
                0 <= i <= n,
                n == self.trusted_swap_pairs@.len(),
                out@ == self.trusted_swap_pairs@.subrange(0, i as int),
            decreases n - i,
        {
            out.push(self.trusted_swap_pairs[i]);
            proof {
                assert(out@ =~= self.trusted_swap_pairs@.subrange(0, i as int + 1));
            }
            i = i + 1;
        }
        proof {
            assert(out@ =~= self.trusted_swap_pairs@);
        }
        out
    }

    /// The whitelisted addresses, in insertion order.
    pub fn get_whitelisted_managed_addresses(&self) -> (r: Vec<AccountId>)
        ensures
            r@ == self.whitelist@,
    {
        let n = self.whitelist.len();
        let mut out: Vec<AccountId> = Vec::new();
        let mut i: usize = 0;
        while i < n
            invariant
                0 <= i <= n,
                n == self.whitelist@.len(),
                out@ == self.whitelist@.subrange(0, i as int),
            decreases n - i,
        {
            out.push(self.whitelist[i]);
            proof {
                assert(out@ =~= self.whitelist@.subrange(0, i as int + 1));
            }
            i = i + 1;
        }
        proof {
            assert(out@ =~= self.whitelist@);
        }
        out
    }

    /// First case of the resolution machine: the slice already is the
    /// requested asset.
    pub fn can_send_fee_directly(&self, fee_token: TokenId, requested_fee_token: TokenId) -> (r:
        bool)
        ensures
            r == spec_can_send_fee_directly(fee_token, requested_fee_token),
    {
        fee_token == requested_fee_token
    }

    /// Second case: fee and requested assets are exactly the pool's own
    /// pair.
    pub fn can_resolve_swap_locally(
        &self,
        fee_token: TokenId,
        requested_fee_token: TokenId,
        pool_first_token_id: TokenId,
        pool_second_token_id: TokenId,
    ) -> (r: bool)
        ensures
            r == spec_can_resolve_swap_locally(
                fee_token,
                requested_fee_token,
                pool_first_token_id,
                pool_second_token_id,
            ),
    {
        (requested_fee_token == pool_first_token_id && fee_token == pool_second_token_id)
            || (requested_fee_token == pool_second_token_id && fee_token == pool_first_token_id)
    }

    /// Third case: a trusted counterpart handles the pair directly.
    pub fn can_extern_swap_directly(&self, fee_token: TokenId, requested_fee_token: TokenId) -> (r:
        bool)
        ensures
            r == spec_can_extern_swap_directly(
                self.trusted_swap_pairs@,
                fee_token,
                requested_fee_token,
            ),
    {
        let addr = self.get_extern_swap_pair_address(fee_token, requested_fee_token);
        addr.is_some()
    }

    /// Fourth case: the slice is one pool asset and a trusted counterpart
    /// handles the other pool asset against the requested one.
    pub fn can_extern_swap_after_local_swap(
        &self,
        first_token: TokenId,
        second_token: TokenId,
        fee_token: TokenId,
        requested_fee_token: TokenId,
    ) -> (r: bool)
        ensures
            r == spec_can_extern_swap_after_local_swap(
                self.trusted_swap_pairs@,
                first_token,
                second_token,
                fee_token,
                requested_fee_token,
            ),
    {
        if fee_token == first_token {
            let addr = self.get_extern_swap_pair_address(second_token, requested_fee_token);
            addr.is_some()
        } else if fee_token == second_token {
            let addr = self.get_extern_swap_pair_address(first_token, requested_fee_token);
            addr.is_some()
        } else {
            false
        }
    }

    /// The counterpart pool registered for the unordered pair, trying the
    /// exact ordering first.
    pub fn get_extern_swap_pair_address(&self, first_token: TokenId, second_token: TokenId) -> (r:
        Option<AccountId>)
        ensures
            r == spec_extern_swap_pair_address(self.trusted_swap_pairs@, first_token, second_token),
    {
        let i = self.trusted_index(first_token, second_token);
        if i < self.trusted_swap_pairs.len() {
            return Some(self.trusted_swap_pairs[i].pair_address);
        }
        let j = self.trusted_index(second_token, first_token);
        if j < self.trusted_swap_pairs.len() {
            return Some(self.trusted_swap_pairs[j].pair_address);
        }
        None
    }

    /// Builds the forwarded no-fee-swap call for an asset pair a trusted
    /// counterpart handles.
    pub fn extern_swap_and_forward(
        &self,
        available_token: TokenId,
        available_amount: u64,
        requested_token: TokenId,
        destination_address: AccountId,
    ) -> (a: FeeAction)
        requires
            spec_extern_swap_pair_address(
                self.trusted_swap_pairs@,
                available_token,
                requested_token,
            ) is Some,
        ensures
            a == (FeeAction::ExternSwap {
                pair_address: spec_extern_swap_pair_address(
                    self.trusted_swap_pairs@,
                    available_token,
                    requested_token,
                )->Some_0,
                token_in: available_token,
                token_nonce: 0,
                amount_in: available_amount,
                token_out: requested_token,
                destination: destination_address,
            }),
    {
        let pair_address = match self.get_extern_swap_pair_address(
            available_token,
            requested_token,
        ) {
            Some(a) => a,
            None => {
                proof {
                    assert(false);
                }
                AccountId(0)
            },
        };
        let proxy = PairProxy { pair_address };
        proxy.swap_no_fee(available_token, 0, available_amount, requested_token, destination_address)
    }

    /// Resolves one fee slice for one destination through the five-case
    /// state machine; a local swap mutates the cached reserves.
    pub fn send_fee_slice(
        &self,
        cache: &mut StorageCache,
        fee_token: TokenId,
        fee_slice: u64,
        fee_address: AccountId,
        requested_fee_token: TokenId,
    ) -> (r: Result<Option<FeeAction>, AmmError>)
        requires
            old(cache).well_formed(),
        ensures
            (spec_send_fee_slice(
                self.trusted_swap_pairs@,
                *old(cache),
                fee_token,
                fee_slice,
                fee_address,
                requested_fee_token,
            ) matches Ok(p) ==> r == Ok::<Option<FeeAction>, AmmError>(p.1) && *final(cache)
                == p.0),
            (spec_send_fee_slice(
                self.trusted_swap_pairs@,
                *old(cache),
                fee_token,
                fee_slice,
                fee_address,
                requested_fee_token,
            ) matches Err(e) ==> r == Err::<Option<FeeAction>, AmmError>(e) && *final(cache)
                == *old(cache)),
            final(cache).well_formed(),
            final(cache).first_token_id == old(cache).first_token_id,
            final(cache).second_token_id == old(cache).second_token_id,
            final(cache).lp_token_id == old(cache).lp_token_id,
            final(cache).contract_state == old(cache).contract_state,
            final(cache).lp_token_supply == old(cache).lp_token_supply,
    {
        if self.can_send_fee_directly(fee_token, requested_fee_token) {
            return Ok(burn(fee_token, fee_slice));
        }
        let first_token_id = cache.first_token_id;
        let second_token_id = cache.second_token_id;
        if self.can_resolve_swap_locally(
            fee_token,
            requested_fee_token,
            first_token_id,
            second_token_id,
        ) {
            let to_burn = match swap_safe_no_fee(cache, fee_token, fee_slice) {
                Ok(v) => v,
                Err(e) => {
                    return Err(e);
                },
            };
            return Ok(burn(requested_fee_token, to_burn));
        }
        if self.can_extern_swap_directly(fee_token, requested_fee_token) {
            let a = self.extern_swap_and_forward(
                fee_token,
                fee_slice,
                requested_fee_token,
                fee_address,
            );
            return Ok(Some(a));
        }
        if self.can_extern_swap_after_local_swap(
            first_token_id,
            second_token_id,
            fee_token,
            requested_fee_token,
        ) {
            let to_send = match swap_safe_no_fee(cache, fee_token, fee_slice) {
                Ok(v) => v,
                Err(e) => {
                    return Err(e);
                },
            };
            let to_send_token = if fee_token == first_token_id {
                second_token_id
            } else {
                first_token_id
            };
            let a = self.extern_swap_and_forward(
                to_send_token,
                to_send,
                requested_fee_token,
                fee_address,
            );
            return Ok(Some(a));
        }
        Err(AmmError::FeeUnresolvable)
    }

    /// Splits a fee amount evenly across the destinations and resolves
    /// each slice; the division remainder returns to the reserve.  A
    /// single unresolvable slice fails the whole distribution, leaving
    /// the cache untouched.
    pub fn send_fee(&self, cache: &mut StorageCache, fee_token: TokenId, fee_amount: u64) -> (r:
        Result<Vec<FeeAction>, AmmError>)
        requires
            old(cache).well_formed(),
        ensures
            (spec_send_fee(
                self.trusted_swap_pairs@,
                self.destinations@,
                *old(cache),
                fee_token,
                fee_amount,
            ) matches Ok(p) ==> r matches Ok(v) && v@ == p.1 && *final(cache) == p.0),
            (spec_send_fee(
                self.trusted_swap_pairs@,
                self.destinations@,
                *old(cache),
                fee_token,
                fee_amount,
            ) matches Err(e) ==> r == Err::<Vec<FeeAction>, AmmError>(e) && *final(cache) == *old(
                cache,
            )),
            final(cache).well_formed(),
            final(cache).first_token_id == old(cache).first_token_id,
            final(cache).second_token_id == old(cache).second_token_id,
            final(cache).lp_token_id == old(cache).lp_token_id,
            final(cache).contract_state == old(cache).contract_state,
            final(cache).lp_token_supply == old(cache).lp_token_supply,
    {
        if fee_amount == 0 {
            return Ok(Vec::new());
        }
        let n = self.destinations.len();
        if n == 0 {
            return Ok(Vec::new());
        }
        let fee_slice = fee_amount / (n as u64);
        if fee_slice == 0 {
            let mut work = *cache;
            match credit_reserve(&mut work, fee_token, fee_amount) {
                Ok(()) => {
                    *cache = work;
                    return Ok(Vec::new());
                },
                Err(e) => {
                    return Err(e);
                },
            }
        }
        let ghost orig = *cache;
        let mut work = *cache;
        let mut actions: Vec<FeeAction> = Vec::new();
        let mut i: usize = 0;
        while i < n
            invariant
                0 <= i <= n,
                1 <= n,
                orig == *old(cache),
                *cache == orig,
                n == self.destinations@.len(),
                fee_amount > 0,
                fee_slice > 0,
                fee_slice as int == fee_amount as int / (n as int),
                orig.well_formed(),
                work.well_formed(),
                work.first_token_id == orig.first_token_id,
                work.second_token_id == orig.second_token_id,
                work.lp_token_id == orig.lp_token_id,
                work.contract_state == orig.contract_state,
                work.lp_token_supply == orig.lp_token_supply,
                (spec_distribute_fee(
                    self.trusted_swap_pairs@,
                    self.destinations@,
                    work,
                    fee_token,
                    fee_slice,
                    i as int,
                ) matches Ok(q) ==> spec_distribute_fee(
                    self.trusted_swap_pairs@,
                    self.destinations@,
                    orig,
                    fee_token,
                    fee_slice,
                    0,
                ) == Ok::<(StorageCache, Seq<FeeAction>), AmmError>((q.0, actions@ + q.1))),
                (spec_distribute_fee(
                    self.trusted_swap_pairs@,
                    self.destinations@,
                    work,
                    fee_token,
                    fee_slice,
                    i as int,
                ) matches Err(e) ==> spec_distribute_fee(
                    self.trusted_swap_pairs@,
                    self.destinations@,
                    orig,
                    fee_token,
                    fee_slice,
                    0,
                ) == Err::<(StorageCache, Seq<FeeAction>), AmmError>(e)),
            decreases n - i,
        {
            let dest = self.destinations[i];
            let ghost work_before = work;
            let ghost actions_before = actions@;
            let step = self.send_fee_slice(
                &mut work,
                fee_token,
                fee_slice,
                dest.address,
                dest.token_id,
            );
            match step {
                Ok(Some(a)) => {
                    actions.push(a);
                },
                Ok(None) => {},
                Err(e) => {
                    proof {
                        let tr = self.trusted_swap_pairs@;
                        let ds = self.destinations@;
                        assert(spec_distribute_fee(tr, ds, work_before, fee_token, fee_slice, i as int)
                            == Err::<(StorageCache, Seq<FeeAction>), AmmError>(e));
                        assert(spec_send_fee(tr, ds, orig, fee_token, fee_amount) == Err::<
                            (StorageCache, Seq<FeeAction>),
                            AmmError,
                        >(e));
                    }
                    return Err(e);
                },
            }
            proof {
                let tr = self.trusted_swap_pairs@;
                let ds = self.destinations@;
                let slice_res = spec_send_fee_slice(
                    tr,
                    work_before,
                    fee_token,
                    fee_slice,
                    ds[i as int].address,
                    ds[i as int].token_id,
                );
                let act = slice_res->Ok_0.1;
                let next = spec_distribute_fee(tr, ds, work, fee_token, fee_slice, i as int + 1);
                match next {
                    Ok(q) => {
                        assert(spec_distribute_fee(tr, ds, work_before, fee_token, fee_slice, i as int)
                            == Ok::<(StorageCache, Seq<FeeAction>), AmmError>(
                            (
                                q.0,
                                match act {
                                    Some(a) => seq![a] + q.1,
                                    None => q.1,
                                },
                            ),
                        ));
                        match act {
                            Some(a) => {
                                assert(actions_before + (seq![a] + q.1) =~= actions_before.push(a)
                                    + q.1);
                                assert(actions@ == actions_before.push(a));
                            },
                            None => {
                                assert(actions@ == actions_before);
                            },
                        }
                    },
                    Err(e) => {
                        assert(spec_distribute_fee(tr, ds, work_before, fee_token, fee_slice, i as int)
                            == Err::<(StorageCache, Seq<FeeAction>), AmmError>(e));
                    },
                }
            }
            i = i + 1;
        }
        proof {
            assert(spec_distribute_fee(
                self.trusted_swap_pairs@,
                self.destinations@,
                work,
                fee_token,
                fee_slice,
                n as int,
            ) == Ok::<(StorageCache, Seq<FeeAction>), AmmError>((work, Seq::empty())));
            assert(actions@ + Seq::<FeeAction>::empty() =~= actions@);
        }
        proof {
            vstd::arithmetic::div_mod::lemma_fundamental_div_mod(
                fee_amount as int,
                n as int,
            );
            assert((n as int) * (fee_slice as int) <= fee_amount as int);
            assert(fee_slice as int * (n as int) == (n as int) * (fee_slice as int))
                by (nonlinear_arith);
        }
        let distributed = fee_slice * (n as u64);
        let remainder = fee_amount - distributed;
        match credit_reserve(&mut work, fee_token, remainder) {
            Ok(()) => {
                *cache = work;
                Ok(actions)
            },
            Err(e) => Err(e),
        }
    }
}

/// A burn action for a positive amount; nothing for zero.
pub fn burn(token_id: TokenId, amount: u64) -> (r: Option<FeeAction>)
    ensures
        r == spec_burn(token_id, amount),
{
    if amount > 0 {
        Some(FeeAction::Burn { token_id, amount })
    } else {
        None
    }
}

/// Credits an amount back to the reserve of its own asset; an asset the
/// pool does not hold stays custodied outside the reserves.
pub fn credit_reserve(cache: &mut StorageCache, token: TokenId, amount: u64) -> (r: Result<
    (),
    AmmError,
>)
    ensures
        (spec_credit_reserve(*old(cache), token, amount as int) matches Ok(c2) ==> r == Ok::<
            (),
            AmmError,
        >(()) && *final(cache) == c2),
        (spec_credit_reserve(*old(cache), token, amount as int) matches Err(e) ==> r == Err::<
            (),
            AmmError,
        >(e) && *final(cache) == *old(cache)),
        old(cache).well_formed() ==> final(cache).well_formed(),
        final(cache).first_token_id == old(cache).first_token_id,
        final(cache).second_token_id == old(cache).second_token_id,
        final(cache).lp_token_id == old(cache).lp_token_id,
        final(cache).contract_state == old(cache).contract_state,
        final(cache).lp_token_supply == old(cache).lp_token_supply,
{
    if token == cache.first_token_id {
        match cache.first_token_reserve.checked_add(amount) {
            Some(v) => {
                cache.first_token_reserve = v;
                Ok(())
            },
            None => Err(AmmError::AmountOverflow),
        }
    } else if token == cache.second_token_id {
        match cache.second_token_reserve.checked_add(amount) {
            Some(v) => {
                cache.second_token_reserve = v;
                Ok(())
            },
            None => Err(AmmError::AmountOverflow),
        }
    } else {
        Ok(())
    }
}

} // verus!
