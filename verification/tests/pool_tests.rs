use pool_odds::errors::PoolOddsError;
use pool_odds::state::address::Address;
use pool_odds::state::market::MarketOutcome;
use pool_odds::state::pool::Pool;

fn pool_with(base_reserves: u64, share_reserves: u64, lp_token_supply: u64, fee_rate: u16) -> Pool {
    let key = Address::default_address();
    let current_price = if share_reserves == 0 {
        1_000_000
    } else {
        ((base_reserves as u128) * 1_000_000 / (share_reserves as u128)).min(u64::MAX as u128) as u64
    };
    Pool {
        market: key,
        outcome: MarketOutcome::Yes,
        base_token_mint: key,
        share_token_mint: key,
        base_token_vault: key,
        share_token_vault: key,
        lp_token_mint: key,
        base_reserves,
        share_reserves,
        lp_token_supply,
        current_price,
        volume: 0,
        fees_collected: 0,
        fee_rate,
        last_update: 0,
        bump: 0,
    }
}

#[test]
fn price_of_an_empty_pool_is_one() {
    assert_eq!(pool_with(0, 0, 0, 30).calculate_price(), Ok(1_000_000));
    assert_eq!(pool_with(5, 0, 0, 30).calculate_price(), Ok(1_000_000));
}

#[test]
fn price_is_the_ratio_of_the_reserves() {
    assert_eq!(pool_with(1_000_000, 1_000_000, 0, 30).calculate_price(), Ok(1_000_000));
    assert_eq!(pool_with(1_100_000, 909_339, 0, 30).calculate_price(), Ok(1_209_669));
    assert_eq!(pool_with(1, 3, 0, 30).calculate_price(), Ok(333_333));
    assert_eq!(pool_with(0, 3, 0, 30).calculate_price(), Ok(0));
}

#[test]
fn price_overflows_on_huge_base_reserves() {
    assert_eq!(
        pool_with(u64::MAX / 1_000_000 + 1, 1, 0, 30).calculate_price(),
        Err(PoolOddsError::MathOverflow)
    );
    assert_eq!(
        pool_with(u64::MAX / 1_000_000, 1, 0, 30).calculate_price(),
        Ok(u64::MAX / 1_000_000 * 1_000_000)
    );
}

#[test]
fn first_deposit_mints_the_geometric_mean() {
    let pool = pool_with(0, 0, 0, 30);
    assert_eq!(pool.calculate_lp_tokens(1_000_000, 1_000_000), Ok(1_000_000));
    assert_eq!(pool.calculate_lp_tokens(4, 9), Ok(6));
    assert_eq!(pool.calculate_lp_tokens(2, 3), Ok(2));
    assert_eq!(pool.calculate_lp_tokens(u64::MAX, u64::MAX), Ok(u64::MAX));
}

#[test]
fn first_deposit_too_small_mints_nothing() {
    let pool = pool_with(0, 0, 0, 30);
    assert_eq!(pool.calculate_lp_tokens(0, 0), Err(PoolOddsError::InsufficientLiquidityMinted));
    assert_eq!(
        pool.calculate_lp_tokens(0, 1_000_000),
        Err(PoolOddsError::InsufficientLiquidityMinted)
    );
    assert_eq!(pool.calculate_lp_tokens(1, 1), Ok(1));
}

#[test]
fn later_deposits_mint_by_the_limiting_side() {
    let pool = pool_with(1_000, 2_000, 500, 30);
    assert_eq!(pool.calculate_lp_tokens(100, 200), Ok(50));
    assert_eq!(pool.calculate_lp_tokens(100, 1_000), Ok(50));
    assert_eq!(pool.calculate_lp_tokens(1_000, 200), Ok(50));
    assert_eq!(pool.calculate_lp_tokens(1, 1), Ok(0));
}

#[test]
fn later_deposits_report_overflow_and_empty_reserves() {
    let pool = pool_with(1_000, 2_000, u64::MAX, 30);
    assert_eq!(pool.calculate_lp_tokens(2, 1), Err(PoolOddsError::MathOverflow));
    assert_eq!(pool.calculate_lp_tokens(1, 2), Err(PoolOddsError::MathOverflow));
    let drained = pool_with(0, 2_000, 500, 30);
    assert_eq!(drained.calculate_lp_tokens(1, 1), Err(PoolOddsError::DivisionByZero));
    let no_shares = pool_with(1_000, 0, 500, 30);
    assert_eq!(no_shares.calculate_lp_tokens(1, 1), Err(PoolOddsError::DivisionByZero));
}

#[test]
fn swap_quote_takes_the_fee_off_the_input() {
    let pool = pool_with(1_000_000, 1_000_000, 1_000_000, 30);
    assert_eq!(pool.calculate_swap_output(100_000, true), Ok(90_661));
    assert_eq!(pool.calculate_swap_output(100_000, false), Ok(90_661));
    assert_eq!(pool.calculate_swap_output(0, true), Ok(0));
}

#[test]
fn swap_quote_selects_reserves_by_direction() {
    let pool = pool_with(1_000, 4_000, 1, 0);
    assert_eq!(pool.calculate_swap_output(1_000, true), Ok(2_000));
    assert_eq!(pool.calculate_swap_output(4_000, false), Ok(500));
}

#[test]
fn swap_quote_needs_both_reserves() {
    assert_eq!(
        pool_with(0, 1_000, 1, 30).calculate_swap_output(10, true),
        Err(PoolOddsError::InsufficientLiquidity)
    );
    assert_eq!(
        pool_with(1_000, 0, 1, 30).calculate_swap_output(10, true),
        Err(PoolOddsError::InsufficientLiquidity)
    );
    assert_eq!(
        pool_with(0, 0, 0, 30).calculate_swap_output(10, false),
        Err(PoolOddsError::InsufficientLiquidity)
    );
}

#[test]
fn swap_quote_does_not_overflow_on_large_products() {
    let pool = pool_with(1_000_000_000_000, 1_000_000_000_000, 1, 30);
    assert_eq!(pool.calculate_swap_output(100_000_000, true), Ok(99_690_060));
    let deep = pool_with(1, u64::MAX, 1, 0);
    assert_eq!(deep.calculate_swap_output(u64::MAX - 1, true), Ok(u64::MAX - 1));
}

#[test]
fn swap_quote_reports_overflow() {
    let pool = pool_with(u64::MAX, 1_000, 1, 0);
    assert_eq!(pool.calculate_swap_output(1, true), Err(PoolOddsError::MathOverflow));
    let greedy = pool_with(1_000, 1_000, 1, 20_000);
    assert_eq!(greedy.calculate_swap_output(10, true), Err(PoolOddsError::MathOverflow));
    assert_eq!(greedy.calculate_swap_output(0, true), Ok(0));
}

#[test]
fn update_books_a_buy() {
    let mut pool = pool_with(1_000_000, 1_000_000, 1_000_000, 30);
    assert_eq!(pool.update_reserves_after_swap(100_000, 90_661, 300, true, 77), Ok(()));
    assert_eq!(pool.base_reserves, 1_100_000);
    assert_eq!(pool.share_reserves, 909_339);
    assert_eq!(pool.fees_collected, 300);
    assert_eq!(pool.volume, 100_000);
    assert_eq!(pool.current_price, 1_209_669);
    assert_eq!(pool.last_update, 77);
    assert_eq!(pool.lp_token_supply, 1_000_000);
}

#[test]
fn update_books_a_sell() {
    let mut pool = pool_with(1_000_000, 1_000_000, 1_000_000, 30);
    assert_eq!(pool.update_reserves_after_swap(100_000, 90_390, 271, false, 78), Ok(()));
    assert_eq!(pool.share_reserves, 1_100_000);
    assert_eq!(pool.base_reserves, 909_610);
    assert_eq!(pool.fees_collected, 271);
    assert_eq!(pool.volume, 100_000);
    assert_eq!(pool.current_price, 826_918);
    assert_eq!(pool.last_update, 78);
}

#[test]
fn update_refuses_to_pay_out_more_than_the_reserve() {
    let mut pool = pool_with(1_000, 1_000, 1, 30);
    assert_eq!(
        pool.update_reserves_after_swap(10, 1_001, 0, true, 5),
        Err(PoolOddsError::InsufficientLiquidity)
    );
    assert_eq!(pool.base_reserves, 1_000);
    assert_eq!(pool.share_reserves, 1_000);
    assert_eq!(pool.volume, 0);
    assert_eq!(pool.last_update, 0);
    assert_eq!(
        pool.update_reserves_after_swap(u64::MAX, 1_001, 0, false, 5),
        Err(PoolOddsError::InsufficientLiquidity)
    );
    assert_eq!(pool.base_reserves, 1_000);
    assert_eq!(pool.share_reserves, 1_000);
}

#[test]
fn update_reports_overflow_and_changes_nothing() {
    let mut pool = pool_with(1_000, 1_000, 1, 30);
    assert_eq!(
        pool.update_reserves_after_swap(u64::MAX, 1, 0, true, 5),
        Err(PoolOddsError::MathOverflow)
    );
    pool.fees_collected = u64::MAX;
    assert_eq!(
        pool.update_reserves_after_swap(1, 1, 1, true, 5),
        Err(PoolOddsError::MathOverflow)
    );
    pool.fees_collected = 0;
    pool.volume = u64::MAX;
    assert_eq!(
        pool.update_reserves_after_swap(1, 1, 1, true, 5),
        Err(PoolOddsError::MathOverflow)
    );
    assert_eq!(pool.base_reserves, 1_000);
    assert_eq!(pool.share_reserves, 1_000);
    assert_eq!(pool.current_price, 1_000_000);
    assert_eq!(pool.last_update, 0);
}

#[test]
fn update_can_drain_the_output_reserve() {
    let mut pool = pool_with(1_000, 1_000, 1, 30);
    assert_eq!(pool.update_reserves_after_swap(10, 1_000, 0, true, 9), Ok(()));
    assert_eq!(pool.share_reserves, 0);
    assert_eq!(pool.current_price, 1_000_000);
}

#[test]
fn swaps_never_lower_the_product_of_the_reserves() {
    let cases: [(u64, u64, u16, u64, bool); 6] = [
        (1_000_000, 1_000_000, 30, 100_000, true),
        (1_000_000, 1_000_000, 30, 100_000, false),
        (7, 13, 0, 5, true),
        (123_456_789, 987_654_321, 1000, 55_555, false),
        (1, 1, 10_000, 1_000, true),
        (3, 1_000_000_000, 1, 2, true),
    ];
    for (base, share, fee_rate, input, input_is_base) in cases {
        let mut pool = pool_with(base, share, 1, fee_rate);
        let before = (base as u128) * (share as u128);
        let output = pool.calculate_swap_output(input, input_is_base).unwrap();
        pool.update_reserves_after_swap(input, output, 0, input_is_base, 1).unwrap();
        let after = (pool.base_reserves as u128) * (pool.share_reserves as u128);
        assert!(after >= before);
    }
}
