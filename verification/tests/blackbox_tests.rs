use rs_liquid_xoxno::config::{ConfigModule, UnstakeTokenAttributes};
use rs_liquid_xoxno::errors::PoolError;
use rs_liquid_xoxno::liquidity_pool::State;
use rs_liquid_xoxno::Pool;

const MAIN_TOKEN_ID: u64 = 1;

fn deploy_contract() -> Pool {
    Pool::init(MAIN_TOKEN_ID)
}

fn deploy_active_contract() -> Pool {
    let mut pool = deploy_contract();
    pool.set_state_active();
    pool
}

fn add_liquidity(pool: &mut Pool, token_amount: u64) -> u64 {
    pool.delegate(token_amount).expect("delegate failed")
}

fn remove_liquidity(pool: &mut Pool, token_amount: u64) -> UnstakeTokenAttributes {
    pool.un_delegate(token_amount, 1).expect("un_delegate failed")
}

fn add_rewards(pool: &mut Pool, token_amount: u64) {
    pool.add_rewards(token_amount).expect("add_rewards failed");
}

#[test]
fn rs_liquid_xoxno_initialization() {
    let pool = deploy_contract();

    // Query the main token to check initialization
    assert_eq!(pool.main_token(), MAIN_TOKEN_ID);
}

#[test]
fn test_set_contract_state() {
    let mut pool = deploy_contract();

    // Check initial state (inactive)
    assert_eq!(pool.state(), State::Inactive);

    // Set the contract state to active
    pool.set_state_active();
    assert_eq!(pool.state(), State::Active);

    // Set the contract state to inactive
    pool.set_state_inactive();
    assert_eq!(pool.state(), State::Inactive);
}

#[test]
fn test_add_initial_liquidity() {
    let mut pool = deploy_active_contract();

    let token_amount = 1000u64;
    add_liquidity(&mut pool, token_amount);

    // Check the LS token supply and the original token staked amount
    assert_eq!(pool.ls_token_supply(), token_amount);
    assert_eq!(pool.virtual_xoxno_reserve(), token_amount);
}

#[test]
fn test_remove_liquidity() {
    let mut pool = deploy_active_contract();

    let token_amount = 1000u64;
    add_liquidity(&mut pool, token_amount);
    assert_eq!(pool.ls_token_supply(), token_amount);

    let amount_to_remove = 500u64;
    remove_liquidity(&mut pool, amount_to_remove);

    // Check the original token staked amount after withdraw
    assert_eq!(pool.virtual_xoxno_reserve(), token_amount - amount_to_remove);
}

#[test]
fn test_add_rewards() {
    let mut pool = deploy_active_contract();

    let token_amount = 500u64;
    let mut minted = add_liquidity(&mut pool, token_amount);
    assert_eq!(pool.ls_token_supply(), token_amount);
    assert_eq!(minted, 500u64);

    let rewards = 500u64;
    add_rewards(&mut pool, rewards);

    // Add more liquidity after rewards: 500 * 500 / 1000 = 250 new shares
    minted += add_liquidity(&mut pool, token_amount);
    assert_eq!(minted, 750u64);
    assert_eq!(pool.ls_token_supply(), 750u64);

    let amount_to_remove = 50u64;
    let ticket = remove_liquidity(&mut pool, amount_to_remove);
    assert_eq!(ticket.original_amount, 100u64);

    assert_eq!(pool.virtual_xoxno_reserve(), 1400u64);
    assert_eq!(pool.unstake_token_supply(), 100u64);
    assert_eq!(pool.ls_token_supply(), 700u64);
}

#[test]
fn test_withdraw() {
    let mut pool = deploy_active_contract();

    let token_amount = 1000u64;
    add_liquidity(&mut pool, token_amount);

    let amount_to_remove = 550u64;
    let ticket = remove_liquidity(&mut pool, amount_to_remove);

    // Attempt to withdraw before the unstake period has passed
    let early = pool.withdraw(&vec![ticket], 1);
    assert_eq!(early, Err(PoolError::LockActive));
    assert_eq!(
        early.unwrap_err().message(),
        "The unstake period has not passed"
    );

    // Withdraw the tokens after the unstake period has passed
    let paid = pool.withdraw(&vec![ticket], 11).expect("withdraw failed");
    assert_eq!(paid, 550u64);
}

#[test]
fn test_state_transitions() {
    let mut pool = deploy_contract();

    // Try adding liquidity in inactive state (should fail)
    let token_amount = 1000u64;
    let result = pool.delegate(token_amount);
    assert_eq!(result, Err(PoolError::PoolInactive));
    assert_eq!(result.unwrap_err().message(), "Not active");
}

#[test]
fn test_remove_exact_liquidity() {
    let mut pool = deploy_active_contract();

    let token_amount = 1000u64;
    add_liquidity(&mut pool, token_amount);
    assert_eq!(pool.ls_token_supply(), token_amount);

    // Remove exactly the same amount of liquidity
    remove_liquidity(&mut pool, token_amount);

    assert_eq!(pool.ls_token_supply(), 0u64);
    assert_eq!(pool.virtual_xoxno_reserve(), 0u64);
}

#[test]
fn test_add_minimum_liquidity() {
    let mut pool = deploy_active_contract();

    let token_amount = 1u64;
    add_liquidity(&mut pool, token_amount);

    assert_eq!(pool.ls_token_supply(), token_amount);
    assert_eq!(pool.virtual_xoxno_reserve(), token_amount);
}

#[test]
fn test_remove_excess_liquidity() {
    let mut pool = deploy_active_contract();

    let token_amount = 1000u64;
    add_liquidity(&mut pool, token_amount);
    assert_eq!(pool.ls_token_supply(), token_amount);

    // Attempt to remove more liquidity than available
    let excess_amount = 1500u64;
    let result = pool.un_delegate(excess_amount, 1);
    assert_eq!(result, Err(PoolError::InsufficientSupply));
    assert_eq!(result.unwrap_err().message(), "Not enough LP token supply");
}

#[test]
fn test_add_liquidity_various_amounts() {
    let mut pool = deploy_active_contract();

    // Test adding a very small amount of tokens
    let small_amount = 1u64;
    add_liquidity(&mut pool, small_amount);
    assert_eq!(pool.ls_token_supply(), small_amount);
    assert_eq!(pool.virtual_xoxno_reserve(), small_amount);

    // Test adding a very large amount of tokens
    let large_amount = 1_000_000_000u64;
    add_liquidity(&mut pool, large_amount);
    assert_eq!(pool.ls_token_supply(), small_amount + large_amount);
    assert_eq!(pool.virtual_xoxno_reserve(), small_amount + large_amount);

    // Add a medium amount of tokens
    let medium_amount = 500_000u64;
    add_liquidity(&mut pool, medium_amount);
    assert_eq!(
        pool.ls_token_supply(),
        small_amount + large_amount + medium_amount
    );
    assert_eq!(
        pool.virtual_xoxno_reserve(),
        small_amount + large_amount + medium_amount
    );
}

#[test]
fn test_remove_liquidity_various_amounts() {
    let mut pool = deploy_active_contract();

    let initial_amount = 1_000_000u64;
    add_liquidity(&mut pool, initial_amount);
    assert_eq!(pool.ls_token_supply(), initial_amount);
    assert_eq!(pool.virtual_xoxno_reserve(), initial_amount);

    // Test removing a very small amount of LS tokens
    let small_remove_amount = 1u64;
    remove_liquidity(&mut pool, small_remove_amount);
    assert_eq!(pool.ls_token_supply(), initial_amount - small_remove_amount);
    assert_eq!(
        pool.virtual_xoxno_reserve(),
        initial_amount - small_remove_amount
    );

    // Test removing a very large amount of LS tokens
    let large_remove_amount = 999_999u64;
    remove_liquidity(&mut pool, large_remove_amount);
    assert_eq!(
        pool.ls_token_supply(),
        initial_amount - small_remove_amount - large_remove_amount
    );
    assert_eq!(
        pool.virtual_xoxno_reserve(),
        initial_amount - small_remove_amount - large_remove_amount
    );
}

#[test]
fn test_add_rewards_various_amounts() {
    let mut pool = deploy_active_contract();

    let initial_amount = 1_000_000u64;
    add_liquidity(&mut pool, initial_amount);
    assert_eq!(pool.ls_token_supply(), initial_amount);
    assert_eq!(pool.virtual_xoxno_reserve(), initial_amount);

    // Add a small reward
    let small_reward = 1u64;
    add_rewards(&mut pool, small_reward);
    assert_eq!(pool.virtual_xoxno_reserve(), initial_amount + small_reward);

    // Add a large reward
    let large_reward = 1_000_000u64;
    add_rewards(&mut pool, large_reward);
    assert_eq!(
        pool.virtual_xoxno_reserve(),
        initial_amount + small_reward + large_reward
    );

    // Add a medium reward
    let medium_reward = 500_000u64;
    add_rewards(&mut pool, medium_reward);
    assert_eq!(
        pool.virtual_xoxno_reserve(),
        initial_amount + small_reward + large_reward + medium_reward
    );
}

#[test]
fn test_add_rewards_and_observe_changes() {
    let mut pool = deploy_active_contract();

    let initial_amount = 1_000_000u64;
    add_liquidity(&mut pool, initial_amount);
    assert_eq!(pool.ls_token_supply(), initial_amount);
    assert_eq!(pool.virtual_xoxno_reserve(), initial_amount);

    // Add rewards and observe the changes
    let rewards = 500_000u64;
    add_rewards(&mut pool, rewards);
    assert_eq!(pool.virtual_xoxno_reserve(), initial_amount + rewards);

    // Add more liquidity after rewards have been added
    let additional_amount = 1_000_000u64;
    add_liquidity(&mut pool, additional_amount);

    // Calculate expected LP amount
    let total_xoxno = initial_amount + rewards;
    let expected_lp_amount = additional_amount * initial_amount / total_xoxno;

    assert_eq!(pool.ls_token_supply(), initial_amount + expected_lp_amount);
    assert_eq!(
        pool.virtual_xoxno_reserve(),
        initial_amount + rewards + additional_amount
    );

    // Add another small reward
    let small_reward = 100_000u64;
    add_rewards(&mut pool, small_reward);
    assert_eq!(
        pool.virtual_xoxno_reserve(),
        initial_amount + rewards + additional_amount + small_reward
    );

    // Add more liquidity after the small reward
    let small_liquidity = 100_000u64;
    add_liquidity(&mut pool, small_liquidity);

    // Calculate expected LP amount for the small liquidity addition
    let total_xoxno_after_rewards = initial_amount + rewards + additional_amount + small_reward;
    let expected_lp_amount_small =
        small_liquidity * (initial_amount + expected_lp_amount) / total_xoxno_after_rewards;

    assert_eq!(
        pool.ls_token_supply(),
        initial_amount + expected_lp_amount + expected_lp_amount_small
    );
    assert_eq!(
        pool.virtual_xoxno_reserve(),
        initial_amount + rewards + additional_amount + small_reward + small_liquidity
    );
}
