//! The per-operation snapshot of the persisted pool state: loaded once when
//! an operation starts, mutated in place as it progresses, and committed
//! back once at its successful end.  An aborted operation simply drops the
//! cache, so nothing partial is ever persisted.

use vstd::prelude::*;

verus! {

use crate::config::{ConfigModule, State};
use crate::types::TokenId;

/// The cache a load of `store` produces.
pub open spec fn spec_cache_of(store: ConfigModule) -> StorageCache {
    StorageCache {
        contract_state: store.state,
        lp_token_id: store.lp_token_identifier,
        first_token_id: store.first_token_id,
        second_token_id: store.second_token_id,
        first_token_reserve: store.pair_reserve_first,
        second_token_reserve: store.pair_reserve_second,
        lp_token_supply: store.lp_token_supply,
    }
}

/// The store a commit of `cache` leaves behind: the cached fields written
/// back, everything else kept.
pub open spec fn spec_commit(cache: StorageCache, store: ConfigModule) -> ConfigModule {
    ConfigModule {
        state: cache.contract_state,
        lp_token_identifier: cache.lp_token_id,
        first_token_id: cache.first_token_id,
        second_token_id: cache.second_token_id,
        pair_reserve_first: cache.first_token_reserve,
        pair_reserve_second: cache.second_token_reserve,
        lp_token_supply: cache.lp_token_supply,
        ..store
    }
}

/// In-memory copy of the fields an operation reads and writes.
#[derive(Clone, Copy, Debug, PartialEq, Eq, Structural)]
pub struct StorageCache {
    pub contract_state: State,
    pub lp_token_id: TokenId,
    pub first_token_id: TokenId,
    pub second_token_id: TokenId,
    pub first_token_reserve: u64,
    pub second_token_reserve: u64,
    pub lp_token_supply: u64,
}

impl StorageCache {
    /// Structural soundness: the pair assets differ and no share supply is
    /// backed by an empty reserve.
    pub open spec fn well_formed(self) -> bool {
        &&& self.first_token_id != self.second_token_id
        &&& (self.lp_token_supply > 0 ==> self.first_token_reserve > 0 && self.second_token_reserve
            > 0)
    }

    /// The constant-product invariant value `k`.
    pub open spec fn spec_k(self) -> int {
        self.first_token_reserve * self.second_token_reserve
    }

    /// Whether `token` is one of the pool's two assets.
    pub open spec fn spec_is_pair_token(self, token: TokenId) -> bool {
        token == self.first_token_id || token == self.second_token_id
    }

    /// Reads every cached field out of the persisted store, exactly once
    /// per operation.
    pub fn load(store: &ConfigModule) -> (c: StorageCache)
        ensures
            c.contract_state == store.state,
            c.lp_token_id == store.lp_token_identifier,
            c.first_token_id == store.first_token_id,
            c.second_token_id == store.second_token_id,
            c.first_token_reserve == store.pair_reserve_first,
            c.second_token_reserve == store.pair_reserve_second,
            c.lp_token_supply == store.lp_token_supply,
            c == spec_cache_of(*store),
            store.well_formed() ==> c.well_formed(),
    {
        StorageCache {
            contract_state: store.state,
            lp_token_id: store.lp_token_identifier,
            first_token_id: store.first_token_id,
            second_token_id: store.second_token_id,
            first_token_reserve: store.pair_reserve_first,
            second_token_reserve: store.pair_reserve_second,
            lp_token_supply: store.lp_token_supply,
        }
    }

    /// Writes every cached field back into the persisted store, exactly
    /// once, at the successful end of an operation.  Fields the cache does
    /// not hold are untouched.
    pub fn commit(&self, store: &mut ConfigModule)
        ensures
            *final(store) == (ConfigModule {
                state: self.contract_state,
                lp_token_identifier: self.lp_token_id,
                first_token_id: self.first_token_id,
                second_token_id: self.second_token_id,
                pair_reserve_first: self.first_token_reserve,
                pair_reserve_second: self.second_token_reserve,
                lp_token_supply: self.lp_token_supply,
                ..*old(store)
            }),
            *final(store) == spec_commit(*self, *old(store)),
    {
        store.state = self.contract_state;
        store.lp_token_identifier = self.lp_token_id;
        store.first_token_id = self.first_token_id;
        store.second_token_id = self.second_token_id;
        store.pair_reserve_first = self.first_token_reserve;
        store.pair_reserve_second = self.second_token_reserve;
        store.lp_token_supply = self.lp_token_supply;
    }

    /// The current constant-product value, `reserve_first *
    /// reserve_second`.
    pub fn k(&self) -> (k: u128)
        ensures
            k == self.spec_k(),
    {
        assert(self.first_token_reserve as int * (self.second_token_reserve as int) <= u128::MAX)
            by (nonlinear_arith)
            requires
                0 <= self.first_token_reserve as int <= u64::MAX,
                0 <= self.second_token_reserve as int <= u64::MAX;
        (self.first_token_reserve as u128) * (self.second_token_reserve as u128)
    }

    /// Whether `token` is one of the pool's two assets.
    pub fn is_pair_token(&self, token: TokenId) -> (r: bool)
        ensures
            r == self.spec_is_pair_token(token),
    {
        token == self.first_token_id || token == self.second_token_id
    }
}

impl Default for StorageCache {
    /// The empty cache a context starts from before the store is loaded.
    fn default() -> (d: StorageCache)
        ensures
            d == (StorageCache {
                contract_state: State::Inactive,
                lp_token_id: TokenId(0),
                first_token_id: TokenId(0),
                second_token_id: TokenId(0),
                first_token_reserve: 0,
                second_token_reserve: 0,
                lp_token_supply: 0,
            }),
    {
        StorageCache {
            contract_state: State::Inactive,
            lp_token_id: TokenId(0),
            first_token_id: TokenId(0),
            second_token_id: TokenId(0),
            first_token_reserve: 0,
            second_token_reserve: 0,
            lp_token_supply: 0,
        }
    }
}

} // verus!
