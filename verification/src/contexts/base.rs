//! The mutable storage snapshot used by every value-moving operation.
//!
//! An operation opens a session by snapshotting the persisted fields into a
//! `StorageCache`, mutates only the snapshot, and writes the snapshot back
//! with an explicit [`StorageCache::commit`] once — and only once — it has
//! succeeded.  Abandoning the cache on a failure path leaves the persisted
//! state untouched, so every operation is all-or-nothing.

use vstd::prelude::*;

verus! {

use crate::Pool;
use crate::liquidity_pool::State;

/// In-memory snapshot of the persisted pool fields.
///
/// `contract_state` is read-only context; the three amount fields are the
/// working copies that `commit` writes back.
pub struct StorageCache {
    /// Lifecycle state at the time the session opened (never written back).
    pub contract_state: State,
    /// Working copy of the outstanding share supply.
    pub ls_token_supply: u64,
    /// Working copy of the underlying reserve.
    pub virtual_xoxno_reserve: u64,
    /// Working copy of the aggregate of unredeemed claim amounts.
    pub total_unstaked_xoxno: u64,
}

impl StorageCache {
    /// The share supply never exceeds the underlying reserve; carried over
    /// from [`Pool::valid`] into each session.
    pub open spec fn valid(&self) -> bool {
        self.ls_token_supply <= self.virtual_xoxno_reserve
    }

    /// Opens a session: snapshots the persisted fields of `pool`.
    pub fn new(pool: &Pool) -> (cache: StorageCache)
        ensures
            cache.contract_state == pool.state,
            cache.ls_token_supply == pool.ls_token_supply,
            cache.virtual_xoxno_reserve == pool.virtual_xoxno_reserve,
            cache.total_unstaked_xoxno == pool.total_unstaked_xoxno,
            cache.valid() == pool.valid(),
    {
        StorageCache {
            contract_state: pool.state,
            ls_token_supply: pool.ls_token_supply,
            virtual_xoxno_reserve: pool.virtual_xoxno_reserve,
            total_unstaked_xoxno: pool.total_unstaked_xoxno,
        }
    }

    /// Closes a successful session: writes the three mutable snapshot fields
    /// back to the persisted state in one step.  The lifecycle state and the
    /// staked-token identifier are never written by a session.
    pub fn commit(&self, pool: &mut Pool)
        ensures
            final(pool).ls_token_supply == self.ls_token_supply,
            final(pool).virtual_xoxno_reserve == self.virtual_xoxno_reserve,
            final(pool).total_unstaked_xoxno == self.total_unstaked_xoxno,
            final(pool).state == old(pool).state,
            final(pool).main_token == old(pool).main_token,
    {
        pool.ls_token_supply = self.ls_token_supply;
        pool.virtual_xoxno_reserve = self.virtual_xoxno_reserve;
        pool.total_unstaked_xoxno = self.total_unstaked_xoxno;
    }
}

} // verus!
