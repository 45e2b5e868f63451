use vstd::prelude::*;
use crate::errors::GeneralErrors;
use crate::fee::{after_fee, after_fee_spec};
use crate::pool::{DataAccount, Pubkey};

verus! {

/// Constant-product pricing of a net input `amount` against reserves
/// `(balance_1, balance_2)`, where `into_1` says that the input is the first
/// asset: `k = balance_1 * balance_2`, the input side's reserve grows by
/// `amount`, and the output is what the other side gives up so that the
/// product does not exceed `k`.
pub open spec fn swap_quote_spec(balance_1: u64, balance_2: u64, into_1: bool, amount: u64) -> Result<
    u64,
    GeneralErrors,
> {
    let k = balance_1 * balance_2;
    let reserve_in = if into_1 {
        balance_1
    } else {
        balance_2
    };
    let reserve_out = if into_1 {
        balance_2
    } else {
        balance_1
    };
    if k > u64::MAX {
        Err(GeneralErrors::MathOverflow)
    } else if reserve_in + amount > u64::MAX {
        Err(GeneralErrors::MathOverflow)
    } else if reserve_in + amount == 0 {
        Err(GeneralErrors::MathDivisionByZero)
    } else if k / (reserve_in + amount) > reserve_out {
        Err(GeneralErrors::PoolInsufficient)
    } else {
        Ok((reserve_out - k / (reserve_in + amount)) as u64)
    }
}

/// Pricing of a gross input `amount`: the fee comes off first, then the net
/// amount is priced.
pub open spec fn quote_spec(balance_1: u64, balance_2: u64, into_1: bool, amount: u64) -> Result<
    u64,
    GeneralErrors,
> {
    match after_fee_spec(amount) {
        Err(e) => Err(e),
        Ok(net) => swap_quote_spec(balance_1, balance_2, into_1, net),
    }
}

/// What a quote on `pool` for a gross input `amount` of `token` returns.
pub open spec fn pool_quote_spec(pool: DataAccount, token: Pubkey, amount: u64) -> Result<
    u64,
    GeneralErrors,
> {
    quote_spec(pool.token_1_balance, pool.token_2_balance, pool.is_token_1_spec(token), amount)
}

/// The outcome of a swap of a gross input `amount` of `token` on `pool`: the
/// output is priced on the net amount, while the input side's reserve takes
/// the gross amount, so the fee stays in the pool. On success, the record
/// after the swap and the amount paid out.
pub open spec fn swap_spec(pool: DataAccount, amount: u64, token: Pubkey) -> Result<
    (DataAccount, u64),
    GeneralErrors,
> {
    let b1 = pool.token_1_balance;
    let b2 = pool.token_2_balance;
    let into_1 = pool.is_token_1_spec(token);
    match after_fee_spec(amount) {
        Err(e) => Err(e),
        Ok(net) => match swap_quote_spec(b1, b2, into_1, net) {
            Err(e) => Err(e),
            Ok(out) => if into_1 {
                if b1 + amount > u64::MAX {
                    Err(GeneralErrors::MathOverflow)
                } else {
                    Ok((pool.with_balances((b1 + amount) as u64, (b2 - out) as u64), out))
                }
            } else {
                if b2 + amount > u64::MAX {
                    Err(GeneralErrors::MathOverflow)
                } else {
                    Ok((pool.with_balances((b1 - out) as u64, (b2 + amount) as u64), out))
                }
            },
        },
    }
}

/// Output for a net input `amount_to_put_into_the_pool` of
/// `token_to_put_into_the_pool` against reserves `(token1_balance,
/// token2_balance)`; any identifier other than `token1_mint` is taken as the
/// second asset. No fee is charged here.
pub fn get_swap_quote(
    token1_balance: u64,
    token2_balance: u64,
    token1_mint: Pubkey,
    amount_to_put_into_the_pool: u64,
    token_to_put_into_the_pool: Pubkey,
) -> (r: Result<u64, GeneralErrors>)
    ensures
        r == swap_quote_spec(
            token1_balance,
            token2_balance,
            token_to_put_into_the_pool.bytes@ == token1_mint.bytes@,
            amount_to_put_into_the_pool,
        ),
{
    let k = match token1_balance.checked_mul(token2_balance) {
        Some(v) => v,
        None => return Err(GeneralErrors::MathOverflow),
    };
    let into_1 = token_to_put_into_the_pool == token1_mint;
    let reserve_in = if into_1 {
        token1_balance
    } else {
        token2_balance
    };
    let reserve_out = if into_1 {
        token2_balance
    } else {
        token1_balance
    };
    let new_reserve_in = match reserve_in.checked_add(amount_to_put_into_the_pool) {
        Some(v) => v,
        None => return Err(GeneralErrors::MathOverflow),
    };
    let new_reserve_out = match k.checked_div(new_reserve_in) {
        Some(v) => v,
        None => return Err(GeneralErrors::MathDivisionByZero),
    };
    if new_reserve_out > reserve_out {
        return Err(GeneralErrors::PoolInsufficient);
    }
    Ok(reserve_out - new_reserve_out)
}

/// Output for a gross input `amount_to_put_into_the_pool`: the fee comes off
/// first, then the net amount is priced as in [`get_swap_quote`].
pub fn get_quote(
    token1_balance: u64,
    token2_balance: u64,
    token1_mint: Pubkey,
    amount_to_put_into_the_pool: u64,
    token_to_put_into_the_pool: Pubkey,
) -> (r: Result<u64, GeneralErrors>)
    ensures
        r == quote_spec(
            token1_balance,
            token2_balance,
            token_to_put_into_the_pool.bytes@ == token1_mint.bytes@,
            amount_to_put_into_the_pool,
        ),
{
    let amount_after_fees = match after_fee(amount_to_put_into_the_pool) {
        Ok(v) => v,
        Err(e) => return Err(e),
    };
    get_swap_quote(
        token1_balance,
        token2_balance,
        token1_mint,
        amount_after_fees,
        token_to_put_into_the_pool,
    )
}

/// Read-only preview of a swap of `amount` of `token` on `pool`.
pub fn quote(pool: &DataAccount, token: Pubkey, amount: u64) -> (r: Result<u64, GeneralErrors>)
    ensures
        r == pool_quote_spec(*pool, token, amount),
{
    get_quote(pool.token_1_balance, pool.token_2_balance, pool.token_1_mint, amount, token)
}

/// Swaps a gross input `amount_adding_to_pool` of `token_putting_to_pool`
/// for the other asset and returns the amount paid out. Every amount is
/// computed and checked before the record changes; on failure the record is
/// left as it was.
pub fn swap(pool: &mut DataAccount, amount_adding_to_pool: u64, token_putting_to_pool: Pubkey) -> (r:
    Result<u64, GeneralErrors>)
    ensures
        match r {
            Ok(out) => swap_spec(*old(pool), amount_adding_to_pool, token_putting_to_pool) == Ok::<
                (DataAccount, u64),
                GeneralErrors,
            >((*final(pool), out)),
            Err(e) => swap_spec(*old(pool), amount_adding_to_pool, token_putting_to_pool) == Err::<
                (DataAccount, u64),
                GeneralErrors,
            >(e) && *final(pool) == *old(pool),
        },
{
    let amount_after_fee = match after_fee(amount_adding_to_pool) {
        Ok(v) => v,
        Err(e) => return Err(e),
    };
    let amount_to_send_to_user = match get_swap_quote(
        pool.token_1_balance,
        pool.token_2_balance,
        pool.token_1_mint,
        amount_after_fee,
        token_putting_to_pool,
    ) {
        Ok(v) => v,
        Err(e) => return Err(e),
    };
    if pool.is_token_1(&token_putting_to_pool) {
        let new_balance_1 = match pool.token_1_balance.checked_add(amount_adding_to_pool) {
            Some(v) => v,
            None => return Err(GeneralErrors::MathOverflow),
        };
        pool.token_1_balance = new_balance_1;
        pool.token_2_balance = pool.token_2_balance - amount_to_send_to_user;
    } else {
        let new_balance_2 = match pool.token_2_balance.checked_add(amount_adding_to_pool) {
            Some(v) => v,
            None => return Err(GeneralErrors::MathOverflow),
        };
        pool.token_2_balance = new_balance_2;
        pool.token_1_balance = pool.token_1_balance - amount_to_send_to_user;
    }
    Ok(amount_to_send_to_user)
}

/// The output of pricing never exceeds the reserve it comes from: the
/// `PoolInsufficient` guard does not fire on any input.
pub proof fn lemma_pricing_within_reserve(balance_1: u64, balance_2: u64, into_1: bool, amount: u64)
    ensures
        swap_quote_spec(balance_1, balance_2, into_1, amount) != Err::<u64, GeneralErrors>(
            GeneralErrors::PoolInsufficient,
        ),
{
    let reserve_in = if into_1 {
        balance_1
    } else {
        balance_2
    } as int;
    let reserve_out = if into_1 {
        balance_2
    } else {
        balance_1
    } as int;
    let d = reserve_in + amount;
    if d > 0 {
        assert(reserve_in * reserve_out / d <= reserve_out) by (nonlinear_arith)
            requires
                0 <= reserve_in <= d,
                0 <= reserve_out,
                0 < d,
        ;
        assert(balance_1 * balance_2 == reserve_in * reserve_out) by (nonlinear_arith)
            requires
                reserve_in == (if into_1 {
                    balance_1
                } else {
                    balance_2
                }),
                reserve_out == (if into_1 {
                    balance_2
                } else {
                    balance_1
                }),
        ;
    }
}

/// A quote returns exactly the amount that a swap with the same record and
/// inputs pays out, and where the quote fails the swap fails with the same
/// error.
pub proof fn lemma_quote_agrees_with_swap(pool: DataAccount, token: Pubkey, amount: u64)
    ensures
        swap_spec(pool, amount, token) is Ok ==> pool_quote_spec(pool, token, amount) == Ok::<
            u64,
            GeneralErrors,
        >(swap_spec(pool, amount, token)->Ok_0.1),
        pool_quote_spec(pool, token, amount) is Err ==> swap_spec(pool, amount, token) == Err::<
            (DataAccount, u64),
            GeneralErrors,
        >(pool_quote_spec(pool, token, amount)->Err_0),
{
}

} // verus!
