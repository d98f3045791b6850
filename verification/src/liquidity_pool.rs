//! Exchange-rate mathematics of the liquidity pool.
//!
//! The pool's only price is its own ratio of underlying reserve to share
//! supply.  All conversions floor toward zero, so no operation can mint or
//! return more value than is mathematically backed.

use vstd::prelude::*;

verus! {

use vstd::arithmetic::div_mod::{
    lemma_div_is_ordered,
    lemma_div_multiples_vanish,
    lemma_div_plus_one,
    lemma_div_pos_is_pos,
    lemma_fundamental_div_mod,
    lemma_mod_bound,
};
use vstd::arithmetic::mul::{
    lemma_mul_inequality,
    lemma_mul_is_commutative,
    lemma_mul_is_distributive_add,
    lemma_mul_nonnegative,
};

use crate::config::{ConfigModule, INITIAL_EXCHANGE_RATE};
use crate::contexts::base::StorageCache;
use crate::errors::PoolError;

/// Lifecycle state of the pool; all value-moving operations require `Active`.
#[derive(Clone, Copy, Debug, PartialEq, Eq, Structural)]
pub enum State {
    Inactive,
    Active,
}

/// Shares minted for a deposit of `amount` underlying tokens into a pool with
/// `supply` outstanding shares and `reserve` underlying tokens.
///
/// An empty reserve bootstraps at a 1:1 rate; otherwise the deposit buys
/// `floor(amount * supply / reserve)` shares.
pub open spec fn shares_for_deposit(amount: int, supply: int, reserve: int) -> int {
    if reserve > 0 {
        amount * supply / reserve
    } else {
        amount
    }
}

/// Underlying tokens owed for burning `shares` shares of a pool with `supply`
/// outstanding shares and `reserve` underlying tokens:
/// `floor(shares * reserve / supply)`.
pub open spec fn underlying_for_shares(shares: int, supply: int, reserve: int) -> int {
    shares * reserve / supply
}

/// The exchange rate shown to callers, at the fixed-point scale of
/// [`INITIAL_EXCHANGE_RATE`]: that constant itself while no shares exist,
/// else `floor(reserve * scale / supply)`.
pub open spec fn display_rate(supply: int, reserve: int) -> int {
    if supply == 0 {
        INITIAL_EXCHANGE_RATE as int
    } else {
        reserve * (INITIAL_EXCHANGE_RATE as int) / supply
    }
}

/// A deposit at a rate no better than 1:1 never mints more shares than the
/// underlying amount paid in.
pub proof fn lemma_deposit_bounds(amount: int, supply: int, reserve: int)
    requires
        0 <= amount,
        0 <= supply <= reserve,
    ensures
        0 <= shares_for_deposit(amount, supply, reserve) <= amount,
{
    if reserve > 0 {
        lemma_mul_nonnegative(amount, supply);
        lemma_div_pos_is_pos(amount * supply, reserve);
        lemma_mul_inequality(supply, reserve, amount);
        lemma_mul_is_commutative(supply, amount);
        lemma_mul_is_commutative(reserve, amount);
        lemma_div_is_ordered(amount * supply, amount * reserve, reserve);
        lemma_mul_is_commutative(amount, reserve);
        lemma_div_multiples_vanish(amount, reserve);
    }
}

/// Burning at most the whole supply never pays out more than the reserve,
/// and what remains still backs the remaining shares: the reserve drops by
/// no more than the supply does.
pub proof fn lemma_withdraw_bounds(shares: int, supply: int, reserve: int)
    requires
        0 < supply,
        0 <= shares <= supply,
        supply <= reserve,
    ensures
        0 <= underlying_for_shares(shares, supply, reserve) <= reserve,
        reserve - underlying_for_shares(shares, supply, reserve) >= supply - shares,
{
    lemma_mul_nonnegative(shares, reserve);
    lemma_div_pos_is_pos(shares * reserve, supply);
    lemma_mul_inequality(shares, supply, reserve);
    lemma_div_is_ordered(shares * reserve, supply * reserve, supply);
    lemma_mul_is_commutative(supply, reserve);
    lemma_div_multiples_vanish(reserve, supply);
    assert(shares * reserve <= (reserve - supply + shares) * supply) by (nonlinear_arith)
        requires
            0 < supply,
            0 <= shares <= supply,
            supply <= reserve,
    {
    }
    lemma_div_is_ordered(shares * reserve, (reserve - supply + shares) * supply, supply);
    lemma_mul_is_commutative(reserve - supply + shares, supply);
    lemma_div_multiples_vanish(reserve - supply + shares, supply);
}

/// A deposit into a pool with no shares and no reserve mints shares one for
/// one with the underlying amount paid in.
pub proof fn lemma_bootstrap_rate(amount: int, supply: int, reserve: int)
    requires
        supply == 0,
        reserve == 0,
    ensures
        shares_for_deposit(amount, supply, reserve) == amount,
{
}

/// Depositing `amount` and immediately withdrawing the minted shares, with
/// no yield in between, returns at most `amount`: both conversions floor, so
/// a round trip can never drain value from the pool.  It returns exactly
/// `amount` when the deposit divides evenly at the pool's rate, and always
/// in the bootstrap case.
pub proof fn lemma_round_trip(amount: int, supply: int, reserve: int)
    requires
        0 < amount,
        0 <= supply <= reserve,
        shares_for_deposit(amount, supply, reserve) > 0,
    ensures
        ({
            let m = shares_for_deposit(amount, supply, reserve);
            let back = underlying_for_shares(m, supply + m, reserve + amount);
            &&& back <= amount
            &&& reserve == 0 ==> back == amount
            &&& reserve > 0 && (amount * supply) % reserve == 0 ==> back == amount
        }),
{
    let m = shares_for_deposit(amount, supply, reserve);
    let s2 = supply + m;
    let r2 = reserve + amount;
    if reserve == 0 {
        assert(m == amount);
        lemma_mul_is_commutative(amount, amount);
        lemma_div_multiples_vanish(amount, amount);
        assert(underlying_for_shares(m, s2, r2) == amount * amount / amount);
    } else {
        lemma_fundamental_div_mod(amount * supply, reserve);
        lemma_mod_bound(amount * supply, reserve);
        assert(reserve * m <= amount * supply);
        lemma_mul_is_distributive_add(m, reserve, amount);
        assert(m * r2 == m * reserve + m * amount);
        lemma_mul_is_commutative(m, reserve);
        lemma_mul_is_distributive_add(amount, supply, m);
        assert(amount * s2 == amount * supply + amount * m);
        lemma_mul_is_commutative(m, amount);
        assert(m * r2 <= amount * s2);
        lemma_div_is_ordered(m * r2, amount * s2, s2);
        lemma_mul_is_commutative(amount, s2);
        lemma_div_multiples_vanish(amount, s2);
        assert(underlying_for_shares(m, s2, r2) <= amount);
        if (amount * supply) % reserve == 0 {
            assert(reserve * m == amount * supply);
            assert(m * r2 == amount * s2);
            assert(underlying_for_shares(m, s2, r2) == amount);
        }
    }
}

/// Injected yield raises the displayed exchange rate and never lowers it;
/// the rise is strict as soon as the yield is at least one share's worth of
/// the fixed-point scale.  (The share supply is untouched by yield: see
/// `Pool::add_rewards`.)
pub proof fn lemma_yield_raises_rate(supply: int, reserve: int, amount: int)
    requires
        0 < supply,
        0 <= reserve,
        0 <= amount,
    ensures
        display_rate(supply, reserve + amount) >= display_rate(supply, reserve),
        amount * (INITIAL_EXCHANGE_RATE as int) >= supply ==> display_rate(supply, reserve + amount)
            > display_rate(supply, reserve),
{
    let scale = INITIAL_EXCHANGE_RATE as int;
    lemma_mul_is_commutative(reserve + amount, scale);
    lemma_mul_is_distributive_add(scale, reserve, amount);
    lemma_mul_is_commutative(scale, reserve);
    lemma_mul_is_commutative(scale, amount);
    assert((reserve + amount) * scale == reserve * scale + amount * scale);
    lemma_mul_nonnegative(amount, scale);
    lemma_div_is_ordered(reserve * scale, (reserve + amount) * scale, supply);
    if amount * scale >= supply {
        lemma_div_plus_one(reserve * scale, supply);
        lemma_div_is_ordered(reserve * scale + supply, (reserve + amount) * scale, supply);
    }
}

/// The share-accounting core: conversions between underlying amounts and
/// share amounts, and the two pool mutations built on them.
///
/// Every method works on a [`StorageCache`] session snapshot; a failure
/// leaves the snapshot untouched, so the enclosing operation can abort
/// without committing anything.
pub trait LiquidityPoolModule: ConfigModule {
    /// Converts a deposit of `token_amount` underlying tokens into the
    /// shares it buys at the snapshot's rate.  Rejects a zero deposit, and a
    /// dust deposit whose share amount would round down to nothing.
    fn get_ls_token_amount(&self, token_amount: u64, storage_cache: &StorageCache) -> (r: Result<
        u64,
        PoolError,
    >)
        requires
            storage_cache.valid(),
        ensures
            ({
                let s = shares_for_deposit(
                    token_amount as int,
                    storage_cache.ls_token_supply as int,
                    storage_cache.virtual_xoxno_reserve as int,
                );
                &&& token_amount == 0 ==> r == Err::<u64, PoolError>(PoolError::InvalidAmount)
                &&& token_amount > 0 && s == 0 ==> r == Err::<u64, PoolError>(
                    PoolError::InsufficientResult,
                )
                &&& token_amount > 0 && s > 0 ==> r == Ok::<u64, PoolError>(s as u64)
            }),
    ;

    /// Converts `ls_token_amount` shares into the underlying tokens they
    /// redeem at the snapshot's rate.  Rejects a request for more shares
    /// than exist, and one whose payout would round down to nothing.
    fn get_xoxno_amount(&self, ls_token_amount: u64, storage_cache: &StorageCache) -> (r: Result<
        u64,
        PoolError,
    >)
        requires
            storage_cache.valid(),
        ensures
            ({
                let u = underlying_for_shares(
                    ls_token_amount as int,
                    storage_cache.ls_token_supply as int,
                    storage_cache.virtual_xoxno_reserve as int,
                );
                &&& ls_token_amount > storage_cache.ls_token_supply ==> r == Err::<u64, PoolError>(
                    PoolError::InsufficientSupply,
                )
                &&& ls_token_amount <= storage_cache.ls_token_supply
                    && (storage_cache.ls_token_supply == 0 || u == 0) ==> r == Err::<u64, PoolError>(
                    PoolError::InsufficientResult,
                )
                &&& ls_token_amount <= storage_cache.ls_token_supply
                    && storage_cache.ls_token_supply > 0 && u > 0 ==> r == Ok::<u64, PoolError>(
                    u as u64,
                )
            }),
    ;

    /// Applies a deposit to the snapshot: mints the shares the deposit buys
    /// and adds the deposit to the reserve.  On failure the snapshot is
    /// unchanged.
    fn pool_add_liquidity(&self, token_amount: u64, storage_cache: &mut StorageCache) -> (r:
        Result<u64, PoolError>)
        requires
            old(storage_cache).valid(),
            old(storage_cache).virtual_xoxno_reserve + token_amount <= u64::MAX,
        ensures
            ({
                let s = shares_for_deposit(
                    token_amount as int,
                    old(storage_cache).ls_token_supply as int,
                    old(storage_cache).virtual_xoxno_reserve as int,
                );
                &&& r is Err ==> *final(storage_cache) == *old(storage_cache)
                &&& token_amount == 0 ==> r == Err::<u64, PoolError>(PoolError::InvalidAmount)
                &&& token_amount > 0 && s == 0 ==> r == Err::<u64, PoolError>(
                    PoolError::InsufficientResult,
                )
                &&& token_amount > 0 && s > 0 ==> {
                    &&& r == Ok::<u64, PoolError>(s as u64)
                    &&& final(storage_cache).ls_token_supply == old(
                        storage_cache,
                    ).ls_token_supply + s
                    &&& final(storage_cache).virtual_xoxno_reserve == old(
                        storage_cache,
                    ).virtual_xoxno_reserve + token_amount
                    &&& final(storage_cache).total_unstaked_xoxno == old(
                        storage_cache,
                    ).total_unstaked_xoxno
                    &&& final(storage_cache).contract_state == old(storage_cache).contract_state
                    &&& final(storage_cache).valid()
                }
            }),
    ;

    /// Applies a withdrawal to the snapshot: burns `token_amount` shares and
    /// removes the underlying tokens they redeem from the reserve.  On
    /// failure the snapshot is unchanged.
    fn pool_remove_liquidity(&self, token_amount: u64, storage_cache: &mut StorageCache) -> (r:
        Result<u64, PoolError>)
        requires
            old(storage_cache).valid(),
        ensures
            ({
                let u = underlying_for_shares(
                    token_amount as int,
                    old(storage_cache).ls_token_supply as int,
                    old(storage_cache).virtual_xoxno_reserve as int,
                );
                &&& r is Err ==> *final(storage_cache) == *old(storage_cache)
                &&& token_amount > old(storage_cache).ls_token_supply ==> r == Err::<
                    u64,
                    PoolError,
                >(PoolError::InsufficientSupply)
                &&& token_amount <= old(storage_cache).ls_token_supply && (old(
                    storage_cache,
                ).ls_token_supply == 0 || u == 0) ==> r == Err::<u64, PoolError>(
                    PoolError::InsufficientResult,
                )
                &&& token_amount <= old(storage_cache).ls_token_supply && old(
                    storage_cache,
                ).ls_token_supply > 0 && u > 0 ==> {
                    &&& r == Ok::<u64, PoolError>(u as u64)
                    &&& final(storage_cache).ls_token_supply == old(
                        storage_cache,
                    ).ls_token_supply - token_amount
                    &&& final(storage_cache).virtual_xoxno_reserve == old(
                        storage_cache,
                    ).virtual_xoxno_reserve - u
                    &&& final(storage_cache).total_unstaked_xoxno == old(
                        storage_cache,
                    ).total_unstaked_xoxno
                    &&& final(storage_cache).contract_state == old(storage_cache).contract_state
                    &&& final(storage_cache).valid()
                }
            }),
    ;
}

} // verus!
