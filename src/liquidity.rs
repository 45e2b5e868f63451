use vstd::prelude::*;
use crate::errors::GeneralErrors;
use crate::math::{floor_sqrt, integer_sqrt};
use crate::pool::DataAccount;

verus! {

/// What one deposit takes from the caller and the shares it mints.
#[derive(Debug, Clone, Copy, PartialEq, Eq, Structural)]
pub struct LiquidityDeposit {
    /// Amount of the first asset moved into the pool.
    pub amount_1: u64,
    /// Amount of the second asset moved into the pool.
    pub amount_2: u64,
    /// Liquidity shares minted to the caller.
    pub lp_minted: u64,
}

/// The smaller of two integers.
pub open spec fn min_int(a: int, b: int) -> int {
    if a <= b {
        a
    } else {
        b
    }
}

/// The outcome of depositing `amount_1` and `amount_2` into `pool` while the
/// share token's supply is `lp_supply`: on success, the record after the
/// deposit and what the deposit takes and mints.
///
/// An empty first reserve takes both amounts and mints the floor square root
/// of their product. Otherwise the second amount taken is the one that keeps
/// the pool's ratio, `amount_1 * balance_2 / balance_1`, which the caller must
/// cover, and the shares are the smaller of the two proportional claims.
pub open spec fn deposit_spec(pool: DataAccount, amount_1: u64, amount_2: u64, lp_supply: u64) -> Result<
    (DataAccount, LiquidityDeposit),
    GeneralErrors,
> {
    let b1 = pool.token_1_balance;
    let b2 = pool.token_2_balance;
    if amount_1 == 0 || amount_2 == 0 {
        Err(GeneralErrors::InsufficientAmount)
    } else if b1 == 0 {
        if amount_1 * amount_2 > u64::MAX {
            Err(GeneralErrors::MathOverflow)
        } else if b1 + amount_1 > u64::MAX || b2 + amount_2 > u64::MAX {
            Err(GeneralErrors::MathOverflow)
        } else {
            Ok(
                (
                    pool.with_balances((b1 + amount_1) as u64, (b2 + amount_2) as u64),
                    LiquidityDeposit {
                        amount_1,
                        amount_2,
                        lp_minted: floor_sqrt(amount_1 * amount_2) as u64,
                    },
                ),
            )
        }
    } else if amount_1 * b2 > u64::MAX {
        Err(GeneralErrors::MathOverflow)
    } else {
        let required = amount_1 * b2 / b1 as int;
        if required > amount_2 {
            Err(GeneralErrors::InsufficientAmount)
        } else if amount_1 * lp_supply > u64::MAX || required * lp_supply > u64::MAX {
            Err(GeneralErrors::MathOverflow)
        } else if b2 == 0 {
            Err(GeneralErrors::MathDivisionByZero)
        } else if b1 + amount_1 > u64::MAX || b2 + required > u64::MAX {
            Err(GeneralErrors::MathOverflow)
        } else {
            Ok(
                (
                    pool.with_balances((b1 + amount_1) as u64, (b2 + required) as u64),
                    LiquidityDeposit {
                        amount_1,
                        amount_2: required as u64,
                        lp_minted: min_int(
                            amount_1 * lp_supply / b1 as int,
                            required * lp_supply / b2 as int,
                        ) as u64,
                    },
                ),
            )
        }
    }
}

/// The share of one reserve that `lp_amount` of `lp_supply` shares claims:
/// `lp_amount * reserve / lp_supply`.
pub open spec fn share_spec(lp_amount: u64, reserve: u64, lp_supply: u64) -> Result<u64, GeneralErrors> {
    if lp_amount * reserve > u64::MAX {
        Err(GeneralErrors::MathOverflow)
    } else if lp_supply == 0 {
        Err(GeneralErrors::MathDivisionByZero)
    } else {
        Ok((lp_amount * reserve / lp_supply as int) as u64)
    }
}

/// The amounts of both assets that `lp_amount` shares claim, first asset
/// first.
pub open spec fn withdrawal_spec(lp_amount: u64, lp_supply: u64, balance_1: u64, balance_2: u64) -> Result<
    (u64, u64),
    GeneralErrors,
> {
    match share_spec(lp_amount, balance_1, lp_supply) {
        Err(e) => Err(e),
        Ok(out_1) => match share_spec(lp_amount, balance_2, lp_supply) {
            Err(e) => Err(e),
            Ok(out_2) => Ok((out_1, out_2)),
        },
    }
}

/// The outcome of burning `lp_amount` shares of `lp_supply` against `pool`:
/// on success, the record after the withdrawal and the two amounts paid out.
pub open spec fn remove_spec(pool: DataAccount, lp_amount: u64, lp_supply: u64) -> Result<
    (DataAccount, (u64, u64)),
    GeneralErrors,
> {
    let b1 = pool.token_1_balance;
    let b2 = pool.token_2_balance;
    match withdrawal_spec(lp_amount, lp_supply, b1, b2) {
        Err(e) => Err(e),
        Ok((out_1, out_2)) => if out_1 > b1 || out_2 > b2 {
            Err(GeneralErrors::MathUnderflow)
        } else {
            Ok((pool.with_balances((b1 - out_1) as u64, (b2 - out_2) as u64), (out_1, out_2)))
        },
    }
}

/// Shares minted by the first deposit: the floor square root of the product
/// of the two amounts.
pub fn calc_first_lp_mint(token1_amount: u64, token2_amount: u64) -> (r: u64)
    requires
        token1_amount * token2_amount <= u64::MAX,
    ensures
        r as int == floor_sqrt(token1_amount * token2_amount),
{
    let product = token1_amount * token2_amount;
    integer_sqrt(product)
}

/// Shares minted by a later deposit: the smaller of the claims that each
/// deposited amount makes on the existing supply.
pub fn calc_subsequent_lp_mint(
    new_token1_amount: u64,
    new_token2_amount: u64,
    old_token1_reserve: u64,
    old_token2_reserve: u64,
    old_total_lp_supply: u64,
) -> (r: u64)
    requires
        old_token1_reserve > 0,
        old_token2_reserve > 0,
        new_token1_amount * old_total_lp_supply <= u64::MAX,
        new_token2_amount * old_total_lp_supply <= u64::MAX,
    ensures
        r == min_int(
            new_token1_amount * old_total_lp_supply / old_token1_reserve as int,
            new_token2_amount * old_total_lp_supply / old_token2_reserve as int,
        ),
{
    let lp_from_token1 = new_token1_amount * old_total_lp_supply / old_token1_reserve;
    let lp_from_token2 = new_token2_amount * old_total_lp_supply / old_token2_reserve;
    if lp_from_token1 <= lp_from_token2 {
        lp_from_token1
    } else {
        lp_from_token2
    }
}

/// The amounts of both assets that `lp_token_to_burn` shares of
/// `total_lp_tokens` claim from the given reserves.
pub fn tokens_to_return_while_remove_liquidity(
    lp_token_to_burn: u64,
    total_lp_tokens: u64,
    token_1_balance_in_pool: u64,
    token_2_balance_in_pool: u64,
) -> (r: Result<(u64, u64), GeneralErrors>)
    ensures
        r == withdrawal_spec(
            lp_token_to_burn,
            total_lp_tokens,
            token_1_balance_in_pool,
            token_2_balance_in_pool,
        ),
{
    let token1_return = match lp_token_to_burn.checked_mul(token_1_balance_in_pool) {
        Some(v) => match v.checked_div(total_lp_tokens) {
            Some(q) => q,
            None => return Err(GeneralErrors::MathDivisionByZero),
        },
        None => return Err(GeneralErrors::MathOverflow),
    };
    let token2_return = match lp_token_to_burn.checked_mul(token_2_balance_in_pool) {
        Some(v) => match v.checked_div(total_lp_tokens) {
            Some(q) => q,
            None => return Err(GeneralErrors::MathDivisionByZero),
        },
        None => return Err(GeneralErrors::MathOverflow),
    };
    Ok((token1_return, token2_return))
}

/// Deposits `token1_amount` of the first asset and up to `token2_amount` of
/// the second into `pool`, given the share token's supply `lp_supply`, and
/// returns what is taken and minted. On failure the record is left as it was.
pub fn add_liquidity(pool: &mut DataAccount, token1_amount: u64, token2_amount: u64, lp_supply: u64) -> (r:
    Result<LiquidityDeposit, GeneralErrors>)
    ensures
        match r {
            Ok(d) => deposit_spec(*old(pool), token1_amount, token2_amount, lp_supply) == Ok::<
                (DataAccount, LiquidityDeposit),
                GeneralErrors,
            >((*final(pool), d)),
            Err(e) => deposit_spec(*old(pool), token1_amount, token2_amount, lp_supply) == Err::<
                (DataAccount, LiquidityDeposit),
                GeneralErrors,
            >(e) && *final(pool) == *old(pool),
        },
{
    if token1_amount == 0 || token2_amount == 0 {
        return Err(GeneralErrors::InsufficientAmount);
    }
    let balance_1 = pool.token_1_balance;
    let balance_2 = pool.token_2_balance;
    let token2_amount_to_add: u64;
    let amount_to_mint: u64;
    if balance_1 == 0 {
        if token1_amount.checked_mul(token2_amount).is_none() {
            return Err(GeneralErrors::MathOverflow);
        }
        token2_amount_to_add = token2_amount;
        amount_to_mint = calc_first_lp_mint(token1_amount, token2_amount);
    } else {
        let required = match token1_amount.checked_mul(balance_2) {
            Some(v) => v / balance_1,
            None => return Err(GeneralErrors::MathOverflow),
        };
        if required > token2_amount {
            return Err(GeneralErrors::InsufficientAmount);
        }
        if token1_amount.checked_mul(lp_supply).is_none() || required.checked_mul(
            lp_supply,
        ).is_none() {
            return Err(GeneralErrors::MathOverflow);
        }
        if balance_2 == 0 {
            return Err(GeneralErrors::MathDivisionByZero);
        }
        token2_amount_to_add = required;
        amount_to_mint = calc_subsequent_lp_mint(
            token1_amount,
            required,
            balance_1,
            balance_2,
            lp_supply,
        );
    }
    let new_balance_1 = match balance_1.checked_add(token1_amount) {
        Some(v) => v,
        None => return Err(GeneralErrors::MathOverflow),
    };
    let new_balance_2 = match balance_2.checked_add(token2_amount_to_add) {
        Some(v) => v,
        None => return Err(GeneralErrors::MathOverflow),
    };
    pool.token_1_balance = new_balance_1;
    pool.token_2_balance = new_balance_2;
    Ok(
        LiquidityDeposit {
            amount_1: token1_amount,
            amount_2: token2_amount_to_add,
            lp_minted: amount_to_mint,
        },
    )
}

/// Burns `lp_amount` shares of a supply of `lp_supply` against `pool` and
/// returns the amounts of both assets paid out. On failure the record is left
/// as it was.
pub fn remove_liquidity(pool: &mut DataAccount, lp_amount: u64, lp_supply: u64) -> (r: Result<
    (u64, u64),
    GeneralErrors,
>)
    ensures
        match r {
            Ok(outs) => remove_spec(*old(pool), lp_amount, lp_supply) == Ok::<
                (DataAccount, (u64, u64)),
                GeneralErrors,
            >((*final(pool), outs)),
            Err(e) => remove_spec(*old(pool), lp_amount, lp_supply) == Err::<
                (DataAccount, (u64, u64)),
                GeneralErrors,
            >(e) && *final(pool) == *old(pool),
        },
{
    let (token1_to_return, token2_to_return) = match tokens_to_return_while_remove_liquidity(
        lp_amount,
        lp_supply,
        pool.token_1_balance,
        pool.token_2_balance,
    ) {
        Ok(outs) => outs,
        Err(e) => return Err(e),
    };
    let new_balance_1 = match pool.token_1_balance.checked_sub(token1_to_return) {
        Some(v) => v,
        None => return Err(GeneralErrors::MathUnderflow),
    };
    let new_balance_2 = match pool.token_2_balance.checked_sub(token2_to_return) {
        Some(v) => v,
        None => return Err(GeneralErrors::MathUnderflow),
    };
    pool.token_1_balance = new_balance_1;
    pool.token_2_balance = new_balance_2;
    Ok((token1_to_return, token2_to_return))
}

/// A successful deposit leaves both reserves positive: the pool leaves the
/// empty state on its first deposit and a later deposit keeps it seeded.
pub proof fn lemma_deposit_seeds_pool(pool: DataAccount, amount_1: u64, amount_2: u64, lp_supply: u64)
    requires
        deposit_spec(pool, amount_1, amount_2, lp_supply) is Ok,
    ensures
        deposit_spec(pool, amount_1, amount_2, lp_supply)->Ok_0.0.token_1_balance > 0,
        deposit_spec(pool, amount_1, amount_2, lp_supply)->Ok_0.0.token_2_balance > 0,
{
}

/// Burning the whole share supply pays out both reserves in full and leaves
/// the pool empty.
pub proof fn lemma_full_withdrawal_empties_pool(pool: DataAccount, lp_supply: u64)
    requires
        lp_supply > 0,
        lp_supply * pool.token_1_balance <= u64::MAX,
        lp_supply * pool.token_2_balance <= u64::MAX,
    ensures
        remove_spec(pool, lp_supply, lp_supply) == Ok::<(DataAccount, (u64, u64)), GeneralErrors>(
            (pool.with_balances(0, 0), (pool.token_1_balance, pool.token_2_balance)),
        ),
{
    let s = lp_supply as int;
    let b1 = pool.token_1_balance as int;
    let b2 = pool.token_2_balance as int;
    assert(s * b1 / s == b1) by (nonlinear_arith)
        requires
            s > 0,
    ;
    assert(s * b2 / s == b2) by (nonlinear_arith)
        requires
            s > 0,
    ;
}

} // verus!
