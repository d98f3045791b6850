//! Event records describing completed pool operations.
//!
//! The engine only builds the records; handing them to the host's event log
//! is left to the surrounding contract code, together with the blockchain
//! context (caller, token identifier, block, epoch, timestamp) that the
//! records carry.

use vstd::prelude::*;

verus! {

use crate::config::{ConfigModule, UnstakeTokenAttributes};
use crate::contexts::base::StorageCache;

/// Record of a completed deposit.
#[derive(Clone, Copy, Debug, PartialEq, Eq, Structural)]
pub struct AddLiquidityEvent {
    /// Identity of the depositor.
    pub caller: u64,
    /// Identifier of the derivative share token.
    pub ls_token_id: u64,
    /// Shares minted by this deposit.
    pub ls_token_amount: u64,
    /// Share supply after this deposit.
    pub ls_token_supply: u64,
    /// Underlying tokens paid in.
    pub original_amount: u64,
    /// Underlying reserve after this deposit.
    pub virtual_xoxno_reserve: u64,
    /// Block at which the deposit completed.
    pub block: u64,
    /// Epoch at which the deposit completed.
    pub epoch: u64,
    /// Timestamp at which the deposit completed.
    pub timestamp: u64,
}

/// Record of a completed withdrawal (share burn and ticket issuance).
#[derive(Clone, Copy, Debug, PartialEq, Eq, Structural)]
pub struct RemoveLiquidityEvent {
    /// Identity of the withdrawer.
    pub caller: u64,
    /// Identifier of the derivative share token.
    pub ls_token_id: u64,
    /// Shares burned by this withdrawal.
    pub ls_token_amount: u64,
    /// Share supply after this withdrawal.
    pub ls_token_supply: u64,
    /// Underlying tokens owed for the burned shares.
    pub original_amount: u64,
    /// Underlying reserve after this withdrawal.
    pub virtual_xoxno_reserve: u64,
    /// The claim ticket issued for the amount owed.
    pub unbound_nft: UnstakeTokenAttributes,
    /// Block at which the withdrawal completed.
    pub block: u64,
    /// Epoch at which the withdrawal completed.
    pub epoch: u64,
    /// Timestamp at which the withdrawal completed.
    pub timestamp: u64,
}

/// Record of a completed yield injection.
#[derive(Clone, Copy, Debug, PartialEq, Eq, Structural)]
pub struct AddRewardsEvent {
    /// Identity of the rewards payer.
    pub caller: u64,
    /// Identifier of the derivative share token.
    pub ls_token_id: u64,
    /// Share supply at the time of the injection (unchanged by it).
    pub ls_token_supply: u64,
    /// Underlying reserve after the injection.
    pub virtual_xoxno_reserve: u64,
    /// Underlying tokens injected as yield.
    pub rewards_amount: u64,
    /// Block at which the injection completed.
    pub block: u64,
    /// Epoch at which the injection completed.
    pub epoch: u64,
    /// Timestamp at which the injection completed.
    pub timestamp: u64,
}

/// Builders for the event records of the three value-moving operations.
///
/// Each builder reads the operation's closing session snapshot and takes the
/// blockchain context as plain arguments.
pub trait EventsModule: ConfigModule {
    /// Builds the record of a completed deposit from the closing snapshot.
    fn emit_delegate_event(
        &self,
        storage_cache: &StorageCache,
        caller: u64,
        ls_token_id: u64,
        ls_token_amount: u64,
        original_amount: u64,
        block: u64,
        epoch: u64,
        timestamp: u64,
    ) -> (e: AddLiquidityEvent)
        ensures
            e.caller == caller,
            e.ls_token_id == ls_token_id,
            e.ls_token_amount == ls_token_amount,
            e.ls_token_supply == storage_cache.ls_token_supply,
            e.original_amount == original_amount,
            e.virtual_xoxno_reserve == storage_cache.virtual_xoxno_reserve,
            e.block == block,
            e.epoch == epoch,
            e.timestamp == timestamp,
    ;

    /// Builds the record of a completed withdrawal from the closing snapshot
    /// and the issued claim ticket.
    fn emit_remove_liquidity_event(
        &self,
        storage_cache: &StorageCache,
        unbound_nft: UnstakeTokenAttributes,
        caller: u64,
        ls_token_id: u64,
        ls_token_amount: u64,
        unstake_token_amount: u64,
        block: u64,
        epoch: u64,
        timestamp: u64,
    ) -> (e: RemoveLiquidityEvent)
        ensures
            e.caller == caller,
            e.ls_token_id == ls_token_id,
            e.ls_token_amount == ls_token_amount,
            e.ls_token_supply == storage_cache.ls_token_supply,
            e.original_amount == unstake_token_amount,
            e.virtual_xoxno_reserve == storage_cache.virtual_xoxno_reserve,
            e.unbound_nft == unbound_nft,
            e.block == block,
            e.epoch == epoch,
            e.timestamp == timestamp,
    ;

    /// Builds the record of a completed yield injection from the closing
    /// snapshot.
    fn emit_add_rewards_event(
        &self,
        storage_cache: &StorageCache,
        caller: u64,
        ls_token_id: u64,
        reward_amount: u64,
        block: u64,
        epoch: u64,
        timestamp: u64,
    ) -> (e: AddRewardsEvent)
        ensures
            e.caller == caller,
            e.ls_token_id == ls_token_id,
            e.ls_token_supply == storage_cache.ls_token_supply,
            e.virtual_xoxno_reserve == storage_cache.virtual_xoxno_reserve,
            e.rewards_amount == reward_amount,
            e.block == block,
            e.epoch == epoch,
            e.timestamp == timestamp,
    ;
}

} // verus!
