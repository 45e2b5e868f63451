//! Accounting and pricing core of a two-asset constant-product liquidity pool.
//!
//! Every quantity is an unsigned 64-bit integer and every arithmetic step is
//! checked: a failure is reported as a [`GeneralErrors`] value and leaves the
//! pool record untouched.
use vstd::prelude::*;

pub mod errors;
pub mod fee;
pub mod liquidity;
pub mod math;
pub mod pool;
pub mod swap;

pub use errors::GeneralErrors;
pub use fee::after_fee;
pub use liquidity::{
    add_liquidity, calc_first_lp_mint, calc_subsequent_lp_mint, remove_liquidity,
    tokens_to_return_while_remove_liquidity, LiquidityDeposit,
};
pub use math::integer_sqrt;
pub use pool::{initialize, DataAccount, Pubkey};
pub use swap::{get_quote, get_swap_quote, quote, swap};
