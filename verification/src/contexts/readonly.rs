//! A read-only storage snapshot for queries.
//!
//! It captures the same fields as the mutable session cache but offers no
//! commit, so a query can never write persisted state back, even if it makes
//! local copies of the fields.

use vstd::prelude::*;

verus! {

use crate::Pool;
use crate::liquidity_pool::State;

/// Read-only snapshot of the persisted pool fields.
pub struct ReadOnlyStorageCache {
    /// Lifecycle state at the time the snapshot was taken.
    pub contract_state: State,
    /// Outstanding share supply.
    pub ls_token_supply: u64,
    /// Underlying reserve.
    pub virtual_xoxno_reserve: u64,
    /// Aggregate of unredeemed claim amounts.
    pub total_unstaked_xoxno: u64,
}

impl ReadOnlyStorageCache {
    /// Snapshots the persisted fields of `pool` for a query.
    pub fn new(pool: &Pool) -> (cache: ReadOnlyStorageCache)
        ensures
            cache.contract_state == pool.state,
            cache.ls_token_supply == pool.ls_token_supply,
            cache.virtual_xoxno_reserve == pool.virtual_xoxno_reserve,
            cache.total_unstaked_xoxno == pool.total_unstaked_xoxno,
    {
        ReadOnlyStorageCache {
            contract_state: pool.state,
            ls_token_supply: pool.ls_token_supply,
            virtual_xoxno_reserve: pool.virtual_xoxno_reserve,
            total_unstaked_xoxno: pool.total_unstaked_xoxno,
        }
    }
}

} // verus!
