//! Pool configuration: lifecycle control, persisted-field accessors, and the
//! claim-ticket attribute record.

use vstd::prelude::*;

verus! {

use crate::liquidity_pool::State;

/// Number of epochs a claim ticket must wait before it can be redeemed.
pub const UNBOND_PERIOD: u64 = 10;

/// Fixed-point scale of the displayed exchange rate; also the rate shown for
/// an empty pool (a 1:1 ratio at this scale).
pub const INITIAL_EXCHANGE_RATE: u64 = 1_000_000_000_000_000_000;

/// Attribute record of one claim ticket, fixed at issuance.
#[derive(Clone, Copy, Debug, PartialEq, Eq, Structural)]
pub struct UnstakeTokenAttributes {
    /// Underlying tokens owed at redemption, computed when the ticket was
    /// issued and never recomputed.
    pub original_amount: u64,
    /// Shares that were burned to create this ticket.
    pub share_amount: u64,
    /// Epoch at which the ticket was issued.
    pub unstake_epoch: u64,
    /// First epoch at which the ticket may be redeemed:
    /// `unstake_epoch + UNBOND_PERIOD`.
    pub unbond_epoch: u64,
}

/// Lifecycle control and read access to the persisted pool fields.
pub trait ConfigModule: Sized {
    /// Lifecycle state, as seen by contracts.
    spec fn spec_state(&self) -> State;

    /// Identifier of the staked base asset, as seen by contracts.
    spec fn spec_main_token(&self) -> u64;

    /// Outstanding share supply, as seen by contracts.
    spec fn spec_ls_token_supply(&self) -> u64;

    /// Underlying reserve, as seen by contracts.
    spec fn spec_virtual_xoxno_reserve(&self) -> u64;

    /// Aggregate of unredeemed claim amounts, as seen by contracts.
    spec fn spec_total_unstaked_xoxno(&self) -> u64;

    /// Opens the pool for value-moving operations.
    fn set_state_active(&mut self)
        ensures
            final(self).spec_state() == State::Active,
            final(self).spec_main_token() == old(self).spec_main_token(),
            final(self).spec_ls_token_supply() == old(self).spec_ls_token_supply(),
            final(self).spec_virtual_xoxno_reserve() == old(self).spec_virtual_xoxno_reserve(),
            final(self).spec_total_unstaked_xoxno() == old(self).spec_total_unstaked_xoxno(),
    ;

    /// Closes the pool: value-moving operations fail until reactivated.
    fn set_state_inactive(&mut self)
        ensures
            final(self).spec_state() == State::Inactive,
            final(self).spec_main_token() == old(self).spec_main_token(),
            final(self).spec_ls_token_supply() == old(self).spec_ls_token_supply(),
            final(self).spec_virtual_xoxno_reserve() == old(self).spec_virtual_xoxno_reserve(),
            final(self).spec_total_unstaked_xoxno() == old(self).spec_total_unstaked_xoxno(),
    ;

    /// True exactly when `state` is the active lifecycle state.
    fn is_state_active(&self, state: State) -> (r: bool)
        ensures
            r == (state == State::Active),
    ;

    /// Current lifecycle state.
    fn state(&self) -> (r: State)
        ensures
            r == self.spec_state(),
    ;

    /// Identifier of the staked base asset.
    fn main_token(&self) -> (r: u64)
        ensures
            r == self.spec_main_token(),
    ;

    /// Outstanding share supply.
    fn ls_token_supply(&self) -> (r: u64)
        ensures
            r == self.spec_ls_token_supply(),
    ;

    /// Underlying reserve, rewards included.
    fn virtual_xoxno_reserve(&self) -> (r: u64)
        ensures
            r == self.spec_virtual_xoxno_reserve(),
    ;

    /// Aggregate of the original amounts of all unredeemed claim tickets.
    fn unstake_token_supply(&self) -> (r: u64)
        ensures
            r == self.spec_total_unstaked_xoxno(),
    ;
}

} // verus!
