//! Share-accounting engine for a liquid-staking pool.
//!
//! Users deposit a base asset and receive derivative share tokens that
//! represent a proportional claim on the pool.  The pool's underlying value
//! grows through externally injected rewards; withdrawing burns shares and
//! issues a time-locked claim ticket that becomes redeemable after a fixed
//! unbonding period.

pub mod config;
pub mod contexts;
pub mod errors;
pub mod events;
pub mod liquidity_pool;

use vstd::prelude::*;

verus! {

use crate::config::{ConfigModule, UnstakeTokenAttributes, INITIAL_EXCHANGE_RATE, UNBOND_PERIOD};
use crate::contexts::base::StorageCache;
use crate::contexts::readonly::ReadOnlyStorageCache;
use crate::errors::PoolError;
use crate::events::{AddLiquidityEvent, AddRewardsEvent, EventsModule, RemoveLiquidityEvent};
use crate::liquidity_pool::{
    display_rate,
    lemma_deposit_bounds,
    lemma_withdraw_bounds,
    shares_for_deposit,
    underlying_for_shares,
    LiquidityPoolModule,
    State,
};
use vstd::arithmetic::mul::lemma_mul_upper_bound;

/// Sum of the underlying amounts owed by a batch of claim tickets.
pub open spec fn total_original_amount(tickets: Seq<UnstakeTokenAttributes>) -> int
    decreases tickets.len(),
{
    if tickets.len() == 0 {
        0
    } else {
        tickets[0].original_amount + total_original_amount(tickets.skip(1))
    }
}

/// True when every ticket in the batch has reached its unbonding epoch.
pub open spec fn all_unbonded(tickets: Seq<UnstakeTokenAttributes>, current_epoch: u64) -> bool {
    forall|i: int|
        0 <= i < tickets.len() ==> current_epoch >= #[trigger] tickets[i].unbond_epoch
}

/// One clamped redemption: the pending-claims aggregate loses `amount`, but
/// never goes below zero.
pub open spec fn pending_minus_claim(pending: int, amount: int) -> int {
    if amount > pending {
        0
    } else {
        pending - amount
    }
}

/// The pending-claims aggregate after redeeming a batch of tickets in order,
/// each subtraction clamped at zero independently.
pub open spec fn pending_after_redeem(pending: int, tickets: Seq<UnstakeTokenAttributes>) -> int
    decreases tickets.len(),
{
    if tickets.len() == 0 {
        pending
    } else {
        pending_after_redeem(
            pending_minus_claim(pending, tickets[0].original_amount as int),
            tickets.skip(1),
        )
    }
}

/// A claim ticket is redeemable exactly from its unbonding epoch onward: a
/// single-ticket batch passes the lock check if and only if the current
/// epoch has reached the ticket's `unbond_epoch`.
pub proof fn lemma_lock_enforcement(ticket: UnstakeTokenAttributes, current_epoch: u64)
    ensures
        all_unbonded(seq![ticket], current_epoch) <==> current_epoch >= ticket.unbond_epoch,
{
    assert(seq![ticket][0] == ticket);
}

/// A batch of tickets never owes a negative amount.
proof fn lemma_total_nonneg(tickets: Seq<UnstakeTokenAttributes>)
    ensures
        total_original_amount(tickets) >= 0,
    decreases tickets.len(),
{
    if tickets.len() > 0 {
        lemma_total_nonneg(tickets.skip(1));
    }
}

/// Appending a ticket to a batch adds its amount to the batch's total.
proof fn lemma_total_push(tickets: Seq<UnstakeTokenAttributes>, ticket: UnstakeTokenAttributes)
    ensures
        total_original_amount(tickets.push(ticket)) == total_original_amount(tickets)
            + ticket.original_amount,
    decreases tickets.len(),
{
    if tickets.len() == 0 {
        assert(tickets.push(ticket).skip(1) =~= Seq::<UnstakeTokenAttributes>::empty());
        assert(total_original_amount(Seq::<UnstakeTokenAttributes>::empty()) == 0);
        assert(tickets =~= Seq::<UnstakeTokenAttributes>::empty());
        assert(tickets.push(ticket)[0] == ticket);
    } else {
        lemma_total_push(tickets.skip(1), ticket);
        assert(tickets.push(ticket).skip(1) =~= tickets.skip(1).push(ticket));
        assert(tickets.push(ticket)[0] == tickets[0]);
    }
}

/// Appending a ticket to a batch applies one more clamped subtraction to the
/// redeemed aggregate.
proof fn lemma_pending_push(
    pending: int,
    tickets: Seq<UnstakeTokenAttributes>,
    ticket: UnstakeTokenAttributes,
)
    ensures
        pending_after_redeem(pending, tickets.push(ticket)) == pending_minus_claim(
            pending_after_redeem(pending, tickets),
            ticket.original_amount as int,
        ),
    decreases tickets.len(),
{
    if tickets.len() == 0 {
        assert(tickets.push(ticket).skip(1) =~= Seq::<UnstakeTokenAttributes>::empty());
        assert(tickets.push(ticket)[0] == ticket);
        assert(pending_after_redeem(
            pending_minus_claim(pending, ticket.original_amount as int),
            Seq::<UnstakeTokenAttributes>::empty(),
        ) == pending_minus_claim(pending, ticket.original_amount as int));
        assert(tickets =~= Seq::<UnstakeTokenAttributes>::empty());
    } else {
        lemma_pending_push(
            pending_minus_claim(pending, tickets[0].original_amount as int),
            tickets.skip(1),
            ticket,
        );
        assert(tickets.push(ticket).skip(1) =~= tickets.skip(1).push(ticket));
        assert(tickets.push(ticket)[0] == tickets[0]);
    }
}

/// The total owed by a prefix of a batch never exceeds the total owed by the
/// whole batch.
proof fn lemma_total_prefix_le(tickets: Seq<UnstakeTokenAttributes>, i: int)
    requires
        0 <= i <= tickets.len(),
    ensures
        total_original_amount(tickets.take(i)) <= total_original_amount(tickets),
    decreases tickets.len(),
{
    if i == 0 {
        assert(tickets.take(0) =~= Seq::<UnstakeTokenAttributes>::empty());
        lemma_total_nonneg(tickets);
    } else {
        lemma_total_prefix_le(tickets.skip(1), i - 1);
        assert(tickets.take(i).skip(1) =~= tickets.skip(1).take(i - 1));
        assert(tickets.take(i)[0] == tickets[0]);
    }
}

/// Persisted state of one pool instance.
pub struct Pool {
    /// Lifecycle gate for all value-moving operations.
    pub state: State,
    /// Identifier of the base asset this pool stakes.
    pub main_token: u64,
    /// Outstanding derivative share tokens.
    pub ls_token_supply: u64,
    /// The pool's claimed underlying value, including injected rewards.
    pub virtual_xoxno_reserve: u64,
    /// Sum of the original amounts of all unredeemed claim tickets.
    pub total_unstaked_xoxno: u64,
}

impl Pool {
    /// The share supply never exceeds the underlying reserve: the exchange
    /// rate starts at 1:1 and only ever rises.
    pub open spec fn valid(&self) -> bool {
        self.ls_token_supply <= self.virtual_xoxno_reserve
    }

    /// Creates a pool at deployment: empty, inactive, staking `main_token`.
    pub fn init(main_token: u64) -> (pool: Pool)
        ensures
            pool.state == State::Inactive,
            pool.main_token == main_token,
            pool.ls_token_supply == 0,
            pool.virtual_xoxno_reserve == 0,
            pool.total_unstaked_xoxno == 0,
            pool.valid(),
    {
        Pool {
            state: State::Inactive,
            main_token,
            ls_token_supply: 0,
            virtual_xoxno_reserve: 0,
            total_unstaked_xoxno: 0,
        }
    }

    /// Deposits `staked_amount` underlying tokens and mints the shares they
    /// buy at the current rate, returning the minted share amount.
    ///
    /// Fails while the pool is inactive, on a zero deposit, and on a dust
    /// deposit whose share amount would round down to nothing; any failure
    /// leaves the pool untouched.
    pub fn delegate(&mut self, staked_amount: u64) -> (r: Result<u64, PoolError>)
        requires
            old(self).valid(),
            old(self).virtual_xoxno_reserve + staked_amount <= u64::MAX,
        ensures
            ({
                let s = shares_for_deposit(
                    staked_amount as int,
                    old(self).ls_token_supply as int,
                    old(self).virtual_xoxno_reserve as int,
                );
                &&& r is Err ==> *final(self) == *old(self)
                &&& old(self).state != State::Active ==> r == Err::<u64, PoolError>(
                    PoolError::PoolInactive,
                )
                &&& old(self).state == State::Active && staked_amount == 0 ==> r == Err::<
                    u64,
                    PoolError,
                >(PoolError::InvalidAmount)
                &&& old(self).state == State::Active && staked_amount > 0 && s == 0 ==> r == Err::<
                    u64,
                    PoolError,
                >(PoolError::InsufficientResult)
                &&& old(self).state == State::Active && staked_amount > 0 && s > 0 ==> {
                    &&& r == Ok::<u64, PoolError>(s as u64)
                    &&& final(self).ls_token_supply == old(self).ls_token_supply + s
                    &&& final(self).virtual_xoxno_reserve == old(self).virtual_xoxno_reserve
                        + staked_amount
                    &&& final(self).total_unstaked_xoxno == old(self).total_unstaked_xoxno
                    &&& final(self).state == old(self).state
                    &&& final(self).main_token == old(self).main_token
                    &&& final(self).valid()
                }
            }),
    {
        let mut storage_cache = StorageCache::new(self);
        if !self.is_state_active(storage_cache.contract_state) {
            return Err(PoolError::PoolInactive);
        }
        let ls_token_amount = match self.pool_add_liquidity(staked_amount, &mut storage_cache) {
            Ok(a) => a,
            Err(e) => {
                return Err(e);
            },
        };
        storage_cache.commit(self);
        Ok(ls_token_amount)
    }

    /// Burns `payment_amount` shares and issues the time-locked claim ticket
    /// for the underlying tokens they redeem at the current rate.  The
    /// ticket's amount is fixed here and never recomputed; it becomes
    /// redeemable `UNBOND_PERIOD` epochs after `current_epoch`.
    ///
    /// Fails while the pool is inactive, on a zero share amount, when more
    /// shares are presented than exist, and when the payout would round down
    /// to nothing; any failure leaves the pool untouched.
    pub fn un_delegate(&mut self, payment_amount: u64, current_epoch: u64) -> (r: Result<
        UnstakeTokenAttributes,
        PoolError,
    >)
        requires
            old(self).valid(),
            current_epoch + UNBOND_PERIOD <= u64::MAX,
            old(self).total_unstaked_xoxno + old(self).virtual_xoxno_reserve <= u64::MAX,
        ensures
            ({
                let u = underlying_for_shares(
                    payment_amount as int,
                    old(self).ls_token_supply as int,
                    old(self).virtual_xoxno_reserve as int,
                );
                &&& r is Err ==> *final(self) == *old(self)
                &&& old(self).state != State::Active ==> r == Err::<
                    UnstakeTokenAttributes,
                    PoolError,
                >(PoolError::PoolInactive)
                &&& old(self).state == State::Active && payment_amount == 0 ==> r == Err::<
                    UnstakeTokenAttributes,
                    PoolError,
                >(PoolError::InvalidAmount)
                &&& old(self).state == State::Active && payment_amount > 0 && payment_amount > old(
                    self,
                ).ls_token_supply ==> r == Err::<UnstakeTokenAttributes, PoolError>(
                    PoolError::InsufficientSupply,
                )
                &&& old(self).state == State::Active && 0 < payment_amount <= old(
                    self,
                ).ls_token_supply && u == 0 ==> r == Err::<UnstakeTokenAttributes, PoolError>(
                    PoolError::InsufficientResult,
                )
                &&& old(self).state == State::Active && 0 < payment_amount <= old(
                    self,
                ).ls_token_supply && u > 0 ==> {
                    &&& r == Ok::<UnstakeTokenAttributes, PoolError>(
                        UnstakeTokenAttributes {
                            original_amount: u as u64,
                            share_amount: payment_amount,
                            unstake_epoch: current_epoch,
                            unbond_epoch: (current_epoch + UNBOND_PERIOD) as u64,
                        },
                    )
                    &&& final(self).ls_token_supply == old(self).ls_token_supply - payment_amount
                    &&& final(self).virtual_xoxno_reserve == old(self).virtual_xoxno_reserve - u
                    &&& final(self).total_unstaked_xoxno == old(self).total_unstaked_xoxno + u
                    &&& final(self).state == old(self).state
                    &&& final(self).main_token == old(self).main_token
                    &&& final(self).valid()
                }
            }),
    {
        let mut storage_cache = StorageCache::new(self);
        if !self.is_state_active(storage_cache.contract_state) {
            return Err(PoolError::PoolInactive);
        }
        if payment_amount == 0 {
            return Err(PoolError::InvalidAmount);
        }
        let xoxno_to_unstake = match self.pool_remove_liquidity(
            payment_amount,
            &mut storage_cache,
        ) {
            Ok(a) => a,
            Err(e) => {
                return Err(e);
            },
        };
        let unbond_epoch = current_epoch + UNBOND_PERIOD;
        storage_cache.total_unstaked_xoxno = storage_cache.total_unstaked_xoxno + xoxno_to_unstake;
        let virtual_position = UnstakeTokenAttributes {
            original_amount: xoxno_to_unstake,
            share_amount: payment_amount,
            unstake_epoch: current_epoch,
            unbond_epoch,
        };
        storage_cache.commit(self);
        Ok(virtual_position)
    }

    /// Redeems a batch of claim tickets: pays out the sum of their fixed
    /// original amounts and removes them from the pending-claims aggregate,
    /// clamping each subtraction at zero.
    ///
    /// A single ticket still inside its unbonding period aborts the whole
    /// batch; any failure leaves the pool untouched.
    pub fn withdraw(&mut self, payments: &Vec<UnstakeTokenAttributes>, current_epoch: u64) -> (r:
        Result<u64, PoolError>)
        requires
            old(self).valid(),
            total_original_amount(payments@) <= u64::MAX,
        ensures
            r is Err ==> *final(self) == *old(self),
            old(self).state != State::Active ==> r == Err::<u64, PoolError>(
                PoolError::PoolInactive,
            ),
            old(self).state == State::Active && !all_unbonded(payments@, current_epoch) ==> r
                == Err::<u64, PoolError>(PoolError::LockActive),
            old(self).state == State::Active && all_unbonded(payments@, current_epoch) ==> {
                &&& r == Ok::<u64, PoolError>(total_original_amount(payments@) as u64)
                &&& final(self).total_unstaked_xoxno == pending_after_redeem(
                    old(self).total_unstaked_xoxno as int,
                    payments@,
                )
                &&& final(self).ls_token_supply == old(self).ls_token_supply
                &&& final(self).virtual_xoxno_reserve == old(self).virtual_xoxno_reserve
                &&& final(self).state == old(self).state
                &&& final(self).main_token == old(self).main_token
                &&& final(self).valid()
            },
    {
        let mut storage_cache = StorageCache::new(self);
        if !self.is_state_active(storage_cache.contract_state) {
            return Err(PoolError::PoolInactive);
        }
        let mut total_unstaked: u64 = 0;
        let mut i: usize = 0;
        proof {
            assert(payments@.take(0) =~= Seq::<UnstakeTokenAttributes>::empty());
        }
        while i < payments.len()
            invariant
                0 <= i <= payments@.len(),
                old(self).state == State::Active,
                total_original_amount(payments@) <= u64::MAX,
                forall|j: int|
                    0 <= j < i ==> current_epoch >= #[trigger] payments@[j].unbond_epoch,
                total_unstaked as int == total_original_amount(payments@.take(i as int)),
                storage_cache.total_unstaked_xoxno as int == pending_after_redeem(
                    old(self).total_unstaked_xoxno as int,
                    payments@.take(i as int),
                ),
                storage_cache.ls_token_supply == old(self).ls_token_supply,
                storage_cache.virtual_xoxno_reserve == old(self).virtual_xoxno_reserve,
                storage_cache.contract_state == old(self).state,
                *self == *old(self),
            decreases payments@.len() - i,
        {
            let attrs = payments[i];
            if current_epoch < attrs.unbond_epoch {
                return Err(PoolError::LockActive);
            }
            proof {
                lemma_total_push(payments@.take(i as int), attrs);
                lemma_pending_push(
                    old(self).total_unstaked_xoxno as int,
                    payments@.take(i as int),
                    attrs,
                );
                lemma_total_prefix_le(payments@, i + 1);
                lemma_total_nonneg(payments@.take(i as int));
                assert(payments@.take(i + 1) =~= payments@.take(i as int).push(attrs));
            }
            if attrs.original_amount > storage_cache.total_unstaked_xoxno {
                storage_cache.total_unstaked_xoxno = 0;
            } else {
                storage_cache.total_unstaked_xoxno = storage_cache.total_unstaked_xoxno
                    - attrs.original_amount;
            }
            total_unstaked = total_unstaked + attrs.original_amount;
            i = i + 1;
        }
        proof {
            assert(payments@.take(payments@.len() as int) =~= payments@);
        }
        storage_cache.commit(self);
        Ok(total_unstaked)
    }

    /// Injects `rewards_amount` underlying tokens as yield: the reserve
    /// grows, the share supply does not, so the exchange rate rises.  This
    /// is the only operation that raises the rate.
    ///
    /// Fails while the pool is inactive and on a zero amount; any failure
    /// leaves the pool untouched.
    pub fn add_rewards(&mut self, rewards_amount: u64) -> (r: Result<(), PoolError>)
        requires
            old(self).valid(),
            old(self).virtual_xoxno_reserve + rewards_amount <= u64::MAX,
        ensures
            r is Err ==> *final(self) == *old(self),
            old(self).state != State::Active ==> r == Err::<(), PoolError>(PoolError::PoolInactive),
            old(self).state == State::Active && rewards_amount == 0 ==> r == Err::<(), PoolError>(
                PoolError::InvalidAmount,
            ),
            old(self).state == State::Active && rewards_amount > 0 ==> {
                &&& r == Ok::<(), PoolError>(())
                &&& final(self).virtual_xoxno_reserve == old(self).virtual_xoxno_reserve
                    + rewards_amount
                &&& final(self).ls_token_supply == old(self).ls_token_supply
                &&& final(self).total_unstaked_xoxno == old(self).total_unstaked_xoxno
                &&& final(self).state == old(self).state
                &&& final(self).main_token == old(self).main_token
                &&& final(self).valid()
            },
    {
        let mut storage_cache = StorageCache::new(self);
        if !self.is_state_active(storage_cache.contract_state) {
            return Err(PoolError::PoolInactive);
        }
        if rewards_amount == 0 {
            return Err(PoolError::InvalidAmount);
        }
        storage_cache.virtual_xoxno_reserve = storage_cache.virtual_xoxno_reserve + rewards_amount;
        storage_cache.commit(self);
        Ok(())
    }

    /// Quotes the underlying tokens a holder of `ls_token_amount` shares
    /// could redeem right now.  A query: never mutates the pool.
    pub fn get_ls_value_for_position(&self, ls_token_amount: u64) -> (r: Result<u64, PoolError>)
        requires
            self.valid(),
        ensures
            ({
                let u = underlying_for_shares(
                    ls_token_amount as int,
                    self.ls_token_supply as int,
                    self.virtual_xoxno_reserve as int,
                );
                &&& ls_token_amount > self.ls_token_supply ==> r == Err::<u64, PoolError>(
                    PoolError::InsufficientSupply,
                )
                &&& ls_token_amount <= self.ls_token_supply && (self.ls_token_supply == 0 || u
                    == 0) ==> r == Err::<u64, PoolError>(PoolError::InsufficientResult)
                &&& ls_token_amount <= self.ls_token_supply && self.ls_token_supply > 0 && u > 0
                    ==> r == Ok::<u64, PoolError>(u as u64)
            }),
    {
        let storage_cache = StorageCache::new(self);
        self.get_xoxno_amount(ls_token_amount, &storage_cache)
    }

    /// Quotes the shares a deposit of `main_token_amount` underlying tokens
    /// would mint right now.  A query: never mutates the pool.
    pub fn get_ls_amount_for_position(&self, main_token_amount: u64) -> (r: Result<u64, PoolError>)
        requires
            self.valid(),
        ensures
            ({
                let s = shares_for_deposit(
                    main_token_amount as int,
                    self.ls_token_supply as int,
                    self.virtual_xoxno_reserve as int,
                );
                &&& main_token_amount == 0 ==> r == Err::<u64, PoolError>(PoolError::InvalidAmount)
                &&& main_token_amount > 0 && s == 0 ==> r == Err::<u64, PoolError>(
                    PoolError::InsufficientResult,
                )
                &&& main_token_amount > 0 && s > 0 ==> r == Ok::<u64, PoolError>(s as u64)
            }),
    {
        let storage_cache = StorageCache::new(self);
        self.get_ls_token_amount(main_token_amount, &storage_cache)
    }

    /// The current exchange rate at the fixed-point scale of
    /// [`INITIAL_EXCHANGE_RATE`]: that constant itself while no shares
    /// exist, else `floor(reserve * scale / supply)`.
    pub fn get_exchange_rate(&self) -> (r: u128)
        ensures
            r as int == display_rate(self.ls_token_supply as int, self.virtual_xoxno_reserve as int),
    {
        let storage_cache = ReadOnlyStorageCache::new(self);
        if storage_cache.ls_token_supply == 0 {
            return INITIAL_EXCHANGE_RATE as u128;
        }
        proof {
            lemma_mul_upper_bound(
                storage_cache.virtual_xoxno_reserve as int,
                u64::MAX as int,
                INITIAL_EXCHANGE_RATE as int,
                u64::MAX as int,
            );
        }
        (storage_cache.virtual_xoxno_reserve as u128) * (INITIAL_EXCHANGE_RATE as u128) / (
        storage_cache.ls_token_supply as u128)
    }
}

impl ConfigModule for Pool {
    open spec fn spec_state(&self) -> State {
        self.state
    }

    open spec fn spec_main_token(&self) -> u64 {
        self.main_token
    }

    open spec fn spec_ls_token_supply(&self) -> u64 {
        self.ls_token_supply
    }

    open spec fn spec_virtual_xoxno_reserve(&self) -> u64 {
        self.virtual_xoxno_reserve
    }

    open spec fn spec_total_unstaked_xoxno(&self) -> u64 {
        self.total_unstaked_xoxno
    }

    fn set_state_active(&mut self) {
        self.state = State::Active;
    }

    fn set_state_inactive(&mut self) {
        self.state = State::Inactive;
    }

    fn is_state_active(&self, state: State) -> (r: bool) {
        state == State::Active
    }

    fn state(&self) -> (r: State) {
        self.state
    }

    fn main_token(&self) -> (r: u64) {
        self.main_token
    }

    fn ls_token_supply(&self) -> (r: u64) {
        self.ls_token_supply
    }

    fn virtual_xoxno_reserve(&self) -> (r: u64) {
        self.virtual_xoxno_reserve
    }

    fn unstake_token_supply(&self) -> (r: u64) {
        self.total_unstaked_xoxno
    }
}

impl LiquidityPoolModule for Pool {
    fn get_ls_token_amount(&self, token_amount: u64, storage_cache: &StorageCache) -> (r: Result<
        u64,
        PoolError,
    >) {
        if token_amount == 0 {
            return Err(PoolError::InvalidAmount);
        }
        let supply = storage_cache.ls_token_supply;
        let reserve = storage_cache.virtual_xoxno_reserve;
        let ls_token_amount: u64;
        if reserve > 0 {
            proof {
                lemma_deposit_bounds(token_amount as int, supply as int, reserve as int);
                lemma_mul_upper_bound(
                    token_amount as int,
                    u64::MAX as int,
                    supply as int,
                    u64::MAX as int,
                );
            }
            let wide: u128 = (token_amount as u128) * (supply as u128) / (reserve as u128);
            ls_token_amount = wide as u64;
        } else {
            ls_token_amount = token_amount;
        }
        if ls_token_amount == 0 {
            return Err(PoolError::InsufficientResult);
        }
        Ok(ls_token_amount)
    }

    fn get_xoxno_amount(&self, ls_token_amount: u64, storage_cache: &StorageCache) -> (r: Result<
        u64,
        PoolError,
    >) {
        let supply = storage_cache.ls_token_supply;
        let reserve = storage_cache.virtual_xoxno_reserve;
        if ls_token_amount > supply {
            return Err(PoolError::InsufficientSupply);
        }
        if supply == 0 {
            return Err(PoolError::InsufficientResult);
        }
        proof {
            lemma_withdraw_bounds(ls_token_amount as int, supply as int, reserve as int);
            lemma_mul_upper_bound(
                ls_token_amount as int,
                u64::MAX as int,
                reserve as int,
                u64::MAX as int,
            );
        }
        let wide: u128 = (ls_token_amount as u128) * (reserve as u128) / (supply as u128);
        let xoxno_amount: u64 = wide as u64;
        if xoxno_amount == 0 {
            return Err(PoolError::InsufficientResult);
        }
        Ok(xoxno_amount)
    }

    fn pool_add_liquidity(&self, token_amount: u64, storage_cache: &mut StorageCache) -> (r:
        Result<u64, PoolError>) {
        let ls_amount = match self.get_ls_token_amount(token_amount, storage_cache) {
            Ok(a) => a,
            Err(e) => {
                return Err(e);
            },
        };
        proof {
            lemma_deposit_bounds(
                token_amount as int,
                storage_cache.ls_token_supply as int,
                storage_cache.virtual_xoxno_reserve as int,
            );
        }
        storage_cache.ls_token_supply = storage_cache.ls_token_supply + ls_amount;
        storage_cache.virtual_xoxno_reserve = storage_cache.virtual_xoxno_reserve + token_amount;
        Ok(ls_amount)
    }

    fn pool_remove_liquidity(&self, token_amount: u64, storage_cache: &mut StorageCache) -> (r:
        Result<u64, PoolError>) {
        let xoxno_amount = match self.get_xoxno_amount(token_amount, storage_cache) {
            Ok(a) => a,
            Err(e) => {
                return Err(e);
            },
        };
        proof {
            lemma_withdraw_bounds(
                token_amount as int,
                storage_cache.ls_token_supply as int,
                storage_cache.virtual_xoxno_reserve as int,
            );
        }
        storage_cache.ls_token_supply = storage_cache.ls_token_supply - token_amount;
        storage_cache.virtual_xoxno_reserve = storage_cache.virtual_xoxno_reserve - xoxno_amount;
        Ok(xoxno_amount)
    }
}

impl EventsModule for Pool {
    fn emit_delegate_event(
        &self,
        storage_cache: &StorageCache,
        caller: u64,
        ls_token_id: u64,
        ls_token_amount: u64,
        original_amount: u64,
        block: u64,
        epoch: u64,
        timestamp: u64,
    ) -> (e: AddLiquidityEvent) {
        AddLiquidityEvent {
            caller,
            ls_token_id,
            ls_token_amount,
            ls_token_supply: storage_cache.ls_token_supply,
            original_amount,
            virtual_xoxno_reserve: storage_cache.virtual_xoxno_reserve,
            block,
            epoch,
            timestamp,
        }
    }

    fn emit_remove_liquidity_event(
        &self,
        storage_cache: &StorageCache,
        unbound_nft: UnstakeTokenAttributes,
        caller: u64,
        ls_token_id: u64,
        ls_token_amount: u64,
        unstake_token_amount: u64,
        block: u64,
        epoch: u64,
        timestamp: u64,
    ) -> (e: RemoveLiquidityEvent) {
        RemoveLiquidityEvent {
            caller,
            ls_token_id,
            ls_token_amount,
            ls_token_supply: storage_cache.ls_token_supply,
            original_amount: unstake_token_amount,
            virtual_xoxno_reserve: storage_cache.virtual_xoxno_reserve,
            unbound_nft,
            block,
            epoch,
            timestamp,
        }
    }

    fn emit_add_rewards_event(
        &self,
        storage_cache: &StorageCache,
        caller: u64,
        ls_token_id: u64,
        reward_amount: u64,
        block: u64,
        epoch: u64,
        timestamp: u64,
    ) -> (e: AddRewardsEvent) {
        AddRewardsEvent {
            caller,
            ls_token_id,
            ls_token_supply: storage_cache.ls_token_supply,
            virtual_xoxno_reserve: storage_cache.virtual_xoxno_reserve,
            rewards_amount: reward_amount,
            block,
            epoch,
            timestamp,
        }
    }
}

} // verus!
