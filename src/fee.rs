use vstd::prelude::*;
use crate::errors::GeneralErrors;

verus! {

/// Numerator of the fixed swap fee rate.
pub const FEE_NUMERATOR: u64 = 3;

/// Denominator of the fixed swap fee rate.
pub const FEE_DENOMINATOR: u64 = 1000;

/// The fee kept from a gross `amount`: `floor(amount * 3 / 1000)`.
pub open spec fn fee_of(amount: int) -> int {
    amount * FEE_NUMERATOR / FEE_DENOMINATOR as int
}

/// The outcome of charging the fee on `amount`: an overflow of
/// `amount * 3`, or the net amount `amount - fee_of(amount)`.
pub open spec fn after_fee_spec(amount: u64) -> Result<u64, GeneralErrors> {
    if amount * FEE_NUMERATOR > u64::MAX {
        Err(GeneralErrors::MathOverflow)
    } else {
        Ok((amount - fee_of(amount as int)) as u64)
    }
}

/// Net amount of a swap input once the fixed 3/1000 fee is taken out.
/// Integer truncation makes the fee zero below 334.
pub fn after_fee(amount: u64) -> (r: Result<u64, GeneralErrors>)
    ensures
        r == after_fee_spec(amount),
        r is Ok ==> r->Ok_0 as int == amount - fee_of(amount as int),
        (amount as int) * 3 > u64::MAX <==> r == Err::<u64, GeneralErrors>(
            GeneralErrors::MathOverflow,
        ),
{
    let scaled = match amount.checked_mul(FEE_NUMERATOR) {
        Some(v) => v,
        None => return Err(GeneralErrors::MathOverflow),
    };
    let fee_amount = match scaled.checked_div(FEE_DENOMINATOR) {
        Some(v) => v,
        None => return Err(GeneralErrors::MathDivisionByZero),
    };
    match amount.checked_sub(fee_amount) {
        Some(v) => Ok(v),
        None => Err(GeneralErrors::MathUnderflow),
    }
}

/// Amounts below 334 pay no fee: the truncated fee is zero.
pub proof fn lemma_small_amounts_fee_free(amount: u64)
    requires
        amount < 334,
    ensures
        after_fee_spec(amount) == Ok::<u64, GeneralErrors>(amount),
{
}

} // verus!
