use amm::{
    add_liquidity, get_quote, get_swap_quote, initialize, quote, remove_liquidity, swap,
    tokens_to_return_while_remove_liquidity, DataAccount, GeneralErrors, LiquidityDeposit, Pubkey,
};

fn key(b: u8) -> Pubkey {
    Pubkey::new([b; 32])
}

fn pool_with(balance_1: u64, balance_2: u64) -> DataAccount {
    let mut pool = initialize(254, key(1), key(2));
    pool.token_1_balance = balance_1;
    pool.token_2_balance = balance_2;
    pool
}

fn same_record(a: &DataAccount, b: &DataAccount) -> bool {
    a.bump == b.bump
        && a.token_1_mint.to_bytes() == b.token_1_mint.to_bytes()
        && a.token_2_mint.to_bytes() == b.token_2_mint.to_bytes()
        && a.token_1_balance == b.token_1_balance
        && a.token_2_balance == b.token_2_balance
}

#[test]
fn initialize_starts_empty() {
    let pool = initialize(7, key(1), key(2));
    assert_eq!(pool.bump, 7);
    assert_eq!(pool.token_1_mint.to_bytes(), [1u8; 32]);
    assert_eq!(pool.token_2_mint.to_bytes(), [2u8; 32]);
    assert_eq!(pool.token_1_balance, 0);
    assert_eq!(pool.token_2_balance, 0);
}

#[test]
fn pubkey_equality_is_bytewise() {
    let mut bytes = [9u8; 32];
    assert!(Pubkey::new(bytes) == Pubkey::new(bytes));
    bytes[31] = 8;
    assert!(Pubkey::new(bytes) != Pubkey::new([9u8; 32]));
    let pool = pool_with(0, 0);
    assert!(pool.is_token_1(&key(1)));
    assert!(!pool.is_token_1(&key(2)));
    assert!(!pool.is_token_1(&key(3)));
}

#[test]
fn first_deposit_mints_square_root() {
    let mut pool = initialize(1, key(1), key(2));
    let d = add_liquidity(&mut pool, 1000, 4000, 0).unwrap();
    assert_eq!(d, LiquidityDeposit { amount_1: 1000, amount_2: 4000, lp_minted: 2000 });
    assert_eq!((pool.token_1_balance, pool.token_2_balance), (1000, 4000));
}

#[test]
fn second_deposit_keeps_ratio() {
    let mut pool = pool_with(1000, 4000);
    let d = add_liquidity(&mut pool, 500, 3000, 2000).unwrap();
    assert_eq!(d, LiquidityDeposit { amount_1: 500, amount_2: 2000, lp_minted: 1000 });
    assert_eq!((pool.token_1_balance, pool.token_2_balance), (1500, 6000));
}

#[test]
fn deposit_with_insufficient_ratio_fails() {
    let mut pool = pool_with(1000, 4000);
    let before = pool;
    assert_eq!(add_liquidity(&mut pool, 500, 1000, 2000), Err(GeneralErrors::InsufficientAmount));
    assert!(same_record(&pool, &before));
}

#[test]
fn deposit_of_zero_fails() {
    let mut pool = pool_with(1000, 4000);
    let before = pool;
    assert_eq!(add_liquidity(&mut pool, 0, 4000, 2000), Err(GeneralErrors::InsufficientAmount));
    assert_eq!(add_liquidity(&mut pool, 1000, 0, 2000), Err(GeneralErrors::InsufficientAmount));
    let mut empty = initialize(1, key(1), key(2));
    assert_eq!(add_liquidity(&mut empty, 0, 0, 0), Err(GeneralErrors::InsufficientAmount));
    assert!(same_record(&pool, &before));
}

#[test]
fn deposit_overflow_leaves_pool_unchanged() {
    let mut empty = initialize(1, key(1), key(2));
    let before = empty;
    assert_eq!(add_liquidity(&mut empty, u64::MAX, 2, 0), Err(GeneralErrors::MathOverflow));
    assert!(same_record(&empty, &before));

    let mut pool = pool_with(1000, 4000);
    let before = pool;
    assert_eq!(add_liquidity(&mut pool, 1000, 4000, u64::MAX), Err(GeneralErrors::MathOverflow));
    assert_eq!(add_liquidity(&mut pool, u64::MAX / 2, u64::MAX, 1), Err(GeneralErrors::MathOverflow));
    assert!(same_record(&pool, &before));

    let mut full = pool_with(u64::MAX, 1);
    let before = full;
    assert_eq!(add_liquidity(&mut full, 1, 1, 1), Err(GeneralErrors::MathOverflow));
    assert!(same_record(&full, &before));
}

#[test]
fn deposit_into_one_sided_pool_divides_by_zero() {
    let mut pool = pool_with(11, 0);
    let before = pool;
    assert_eq!(add_liquidity(&mut pool, 5, 5, 10), Err(GeneralErrors::MathDivisionByZero));
    assert!(same_record(&pool, &before));
}

#[test]
fn remove_liquidity_pays_proportional_share() {
    let mut pool = pool_with(1500, 6000);
    assert_eq!(remove_liquidity(&mut pool, 1000, 3000), Ok((500, 2000)));
    assert_eq!((pool.token_1_balance, pool.token_2_balance), (1000, 4000));
}

#[test]
fn remove_all_liquidity_empties_pool() {
    let mut pool = pool_with(1500, 6000);
    assert_eq!(remove_liquidity(&mut pool, 3000, 3000), Ok((1500, 6000)));
    assert_eq!((pool.token_1_balance, pool.token_2_balance), (0, 0));
}

#[test]
fn remove_liquidity_failures_leave_pool_unchanged() {
    let mut pool = pool_with(1500, 6000);
    let before = pool;
    assert_eq!(remove_liquidity(&mut pool, 10, 0), Err(GeneralErrors::MathDivisionByZero));
    assert_eq!(remove_liquidity(&mut pool, 4000, 3000), Err(GeneralErrors::MathUnderflow));
    assert_eq!(remove_liquidity(&mut pool, u64::MAX, 3000), Err(GeneralErrors::MathOverflow));
    assert!(same_record(&pool, &before));
}

#[test]
fn tokens_to_return_exact_values() {
    assert_eq!(tokens_to_return_while_remove_liquidity(1000, 3000, 1500, 6000), Ok((500, 2000)));
    assert_eq!(tokens_to_return_while_remove_liquidity(1, 3, 10, 20), Ok((3, 6)));
    assert_eq!(tokens_to_return_while_remove_liquidity(1, 0, 10, 20), Err(GeneralErrors::MathDivisionByZero));
    assert_eq!(tokens_to_return_while_remove_liquidity(2, 1, 10, u64::MAX), Err(GeneralErrors::MathOverflow));
}

#[test]
fn swap_first_asset_in() {
    let mut pool = pool_with(1000, 4000);
    assert_eq!(swap(&mut pool, 100, key(1)), Ok(364));
    assert_eq!((pool.token_1_balance, pool.token_2_balance), (1100, 3636));
}

#[test]
fn swap_second_asset_in() {
    let mut pool = pool_with(1000, 4000);
    assert_eq!(swap(&mut pool, 400, key(2)), Ok(91));
    assert_eq!((pool.token_1_balance, pool.token_2_balance), (909, 4400));
}

#[test]
fn swap_keeps_fee_in_reserve() {
    let mut pool = pool_with(1_000_000, 1_000_000);
    // 10_000 in, fee 30, priced on 9_970: 10^12 / 1_009_970 = 990_128.
    assert_eq!(swap(&mut pool, 10_000, key(1)), Ok(9_872));
    assert_eq!((pool.token_1_balance, pool.token_2_balance), (1_010_000, 990_128));
    assert!((pool.token_1_balance as u128) * (pool.token_2_balance as u128) > 1_000_000_000_000);
}

#[test]
fn swap_failures_leave_pool_unchanged() {
    let mut pool = pool_with(u64::MAX, 2);
    let before = pool;
    assert_eq!(swap(&mut pool, 10, key(1)), Err(GeneralErrors::MathOverflow));
    assert!(same_record(&pool, &before));

    let mut empty = pool_with(0, 0);
    let before = empty;
    assert_eq!(swap(&mut empty, 0, key(1)), Err(GeneralErrors::MathDivisionByZero));
    assert!(same_record(&empty, &before));

    let mut pool = pool_with(1000, 4000);
    let before = pool;
    assert_eq!(swap(&mut pool, u64::MAX, key(2)), Err(GeneralErrors::MathOverflow));
    assert!(same_record(&pool, &before));
}

#[test]
fn swap_gross_amount_overflows_reserve_where_net_does_not() {
    // The net amount fits beside the reserve; the gross amount does not.
    let mut pool = pool_with(u64::MAX - 1000, 0);
    let before = pool;
    assert_eq!(quote(&pool, key(1), 1002), Ok(0));
    assert_eq!(swap(&mut pool, 1002, key(1)), Err(GeneralErrors::MathOverflow));
    assert!(same_record(&pool, &before));
}

#[test]
fn swap_quote_prices_net_amount() {
    assert_eq!(get_swap_quote(1000, 4000, key(1), 100, key(1)), Ok(364));
    assert_eq!(get_swap_quote(1000, 4000, key(1), 400, key(2)), Ok(91));
    assert_eq!(get_swap_quote(0, 0, key(1), 0, key(1)), Err(GeneralErrors::MathDivisionByZero));
    assert_eq!(get_swap_quote(u64::MAX, 2, key(1), 1, key(1)), Err(GeneralErrors::MathOverflow));
    assert_eq!(get_swap_quote(1, u64::MAX, key(1), 1, key(2)), Err(GeneralErrors::MathOverflow));
}

#[test]
fn quote_charges_fee_first() {
    assert_eq!(get_quote(1_000_000, 1_000_000, key(1), 10_000, key(1)), Ok(9_872));
    assert_eq!(get_swap_quote(1_000_000, 1_000_000, key(1), 10_000, key(1)), Ok(9_901));
    assert_eq!(get_quote(1000, 4000, key(1), u64::MAX, key(1)), Err(GeneralErrors::MathOverflow));
}

#[test]
fn quote_matches_swap() {
    let reserves = [(1000u64, 4000u64), (1_000_000, 1_000_000), (7, 3), (0, 0), (123_456, 789)];
    let amounts = [0u64, 1, 100, 333, 334, 10_000, 999_999];
    for (b1, b2) in reserves {
        for amount in amounts {
            for k in [key(1), key(2)] {
                let pool = pool_with(b1, b2);
                let q = quote(&pool, k, amount);
                let mut after = pool;
                let s = swap(&mut after, amount, k);
                assert_eq!(q, s, "reserves ({}, {}), amount {}", b1, b2, amount);
                assert_eq!(q, get_quote(b1, b2, key(1), amount, k));
            }
        }
    }
}

#[test]
fn quote_leaves_pool_unchanged() {
    let pool = pool_with(1000, 4000);
    let before = pool;
    assert_eq!(quote(&pool, key(1), 100), Ok(364));
    assert!(same_record(&pool, &before));
}
