//! Fee arithmetic of the Tipz ledger.
//!
//! A withdrawal pays a fee in basis points of the amount withdrawn: none when
//! the rate is 0, otherwise `amount * fee_bps / 10_000` but at least one
//! stroop, so dust withdrawals cannot round the fee away. The fee and the
//! net amount always add up to the amount withdrawn.

use vstd::prelude::*;

use crate::errors::ContractError;

verus! {

/// Basis points in a whole.
pub const BPS_DENOMINATOR: i128 = 10_000;

/// Integer division rounding toward zero, as `i128` division does.
pub open spec fn trunc_div(x: int, d: int) -> int {
    if x >= 0 {
        x / d
    } else {
        -((-x) / d)
    }
}

/// `x` fits in an `i128`.
pub open spec fn fits_i128(x: int) -> bool {
    i128::MIN <= x <= i128::MAX
}

/// `amount * fee_bps / 10_000`, rounded toward zero (`None` on overflow).
pub open spec fn bps_share(amount: i128, fee_bps: u32) -> Option<i128> {
    if fits_i128(amount * fee_bps) {
        Some(trunc_div(amount * fee_bps, 10_000) as i128)
    } else {
        None
    }
}

/// `amount * fee_bps / 10_000`, rounded toward zero; `OverflowError` when
/// the product does not fit.
pub fn bps_of(amount: i128, fee_bps: u32) -> (r: Result<i128, ContractError>)
    ensures
        match bps_share(amount, fee_bps) {
            Some(f) => r == Ok::<i128, ContractError>(f),
            None => r == Err::<i128, ContractError>(ContractError::OverflowError),
        },
{
    let product = match amount.checked_mul(fee_bps as i128) {
        Some(p) => p,
        None => {
            return Err(ContractError::OverflowError);
        },
    };
    match product.checked_div(BPS_DENOMINATOR) {
        Some(f) => Ok(f),
        None => Err(ContractError::OverflowError),
    }
}

/// The withdrawal fee and net amount for `amount` at `fee_bps`
/// (`None`: the arithmetic overflows).
pub open spec fn withdrawal_split(amount: i128, fee_bps: u32) -> Option<(i128, i128)> {
    if fee_bps == 0 {
        Some((0, amount))
    } else {
        match bps_share(amount, fee_bps) {
            Some(share) => {
                let fee: i128 = if share < 1 { 1 } else { share };
                if fits_i128(amount - fee) {
                    Some((fee, (amount - fee) as i128))
                } else {
                    None
                }
            },
            None => None,
        }
    }
}

/// Split a withdrawal of `amount` into `(fee, net)`: no fee at a rate of 0,
/// else `max(amount * fee_bps / 10_000, 1)`; `OverflowError` when the
/// arithmetic does not fit.
pub fn calculate_fee(amount: i128, fee_bps: u32) -> (r: Result<(i128, i128), ContractError>)
    ensures
        match withdrawal_split(amount, fee_bps) {
            Some(split) => r == Ok::<(i128, i128), ContractError>(split),
            None => r == Err::<(i128, i128), ContractError>(ContractError::OverflowError),
        },
{
    if fee_bps == 0 {
        return Ok((0, amount));
    }
    let share = bps_of(amount, fee_bps)?;
    let fee: i128 = if share < 1 { 1 } else { share };
    match amount.checked_sub(fee) {
        Some(net) => Ok((fee, net)),
        None => Err(ContractError::OverflowError),
    }
}

/// Law: a withdrawal split is exact (`fee + net == amount`); for a positive
/// amount and a rate of at most 100% whose product fits, the split exists,
/// the fee is at least one stroop when the rate is positive, and the fee
/// never exceeds the amount.
pub proof fn lemma_withdrawal_split_exact(amount: i128, fee_bps: u32)
    ensures
        withdrawal_split(amount, fee_bps) matches Some((fee, net)) ==> fee + net == amount,
        amount > 0 && fee_bps <= 10_000 && fits_i128(amount * fee_bps) ==> {
            &&& withdrawal_split(amount, fee_bps) matches Some((fee, net))
            &&& fee_bps > 0 ==> fee >= 1
            &&& 0 <= fee <= amount
            &&& net >= 0
        },
{
    if amount > 0 && fee_bps <= 10_000 && fits_i128(amount * fee_bps) && fee_bps > 0 {
        assert(amount * fee_bps <= amount * 10_000) by (nonlinear_arith)
            requires
                amount > 0,
                fee_bps <= 10_000,
        ;
        assert(amount * fee_bps >= 0) by (nonlinear_arith)
            requires
                amount > 0,
        ;
        assert((amount * fee_bps) / 10_000 <= amount) by (nonlinear_arith)
            requires
                0 <= amount * fee_bps <= amount * 10_000,
        ;
    }
}

} // verus!
