//! Burning LP tokens to withdraw SOL from the pool.

use vstd::prelude::*;
use crate::errors::FateSwapError;
use crate::math::{available_balance, available_liquidity, pricing_supply, MINIMUM_LIQUIDITY};
use crate::pubkey::Pubkey;
use crate::state::ClearingHouseState;

verus! {

/// What a withdrawal reads from the instruction's accounts, besides the clearing house.
#[derive(Clone, Copy, Debug)]
pub struct WithdrawSol {
    /// The withdrawer (signer)
    pub withdrawer: Pubkey,
    /// The vault's balance before the withdrawal
    pub vault_lamports: u64,
    /// The LP mint's supply before the withdrawal
    pub lp_supply: u64,
    /// The vault's rent-exempt minimum
    pub rent_exempt: u64,
}

/// What `withdraw_sol` decides: the lamports for `lp_amount` LP tokens,
/// their share of the available liquidity in the pricing supply (which
/// counts the burned `MINIMUM_LIQUIDITY`),
/// `lp_amount * available / (lp_supply + MINIMUM_LIQUIDITY)` rounded down,
/// or why it refuses (with no LP tokens in circulation there is nothing to redeem).
pub open spec fn withdraw_result(ch: ClearingHouseState, acc: WithdrawSol, lp_amount: u64) -> Result<u64, FateSwapError> {
    let available = available_balance(acc.vault_lamports as int, acc.rent_exempt as int, ch.total_liability as int);
    let sol = lp_amount * available / pricing_supply(acc.lp_supply as int);
    if ch.paused {
        Err(FateSwapError::Paused)
    } else if lp_amount == 0 {
        Err(FateSwapError::ZeroAmount)
    } else if acc.lp_supply == 0 {
        Err(FateSwapError::MathOverflow)
    } else if sol > u64::MAX {
        Err(FateSwapError::MathOverflow)
    } else if sol == 0 {
        Err(FateSwapError::WithdrawTooSmall)
    } else if sol > available {
        Err(FateSwapError::InsufficientLiquidity)
    } else if ch.total_withdrawn + sol > u64::MAX || ch.lp_withdrawals_count + 1 > u64::MAX {
        Err(FateSwapError::MathOverflow)
    } else {
        Ok(sol as u64)
    }
}

/// The clearing house after a withdrawal of `sol` lamports.
pub open spec fn withdrawn_clearing_house(ch: ClearingHouseState, sol: u64) -> ClearingHouseState {
    ClearingHouseState {
        total_withdrawn: (ch.total_withdrawn + sol) as u64,
        lp_withdrawals_count: (ch.lp_withdrawals_count + 1) as u64,
        ..ch
    }
}

/// Withdraws the lamports that `lp_amount` LP tokens stand for (the burned
/// `MINIMUM_LIQUIDITY` keeps its share in the vault): refuses when
/// paused, when the amount is zero, when it would pay nothing or more than
/// the available liquidity. On success it records the withdrawal and
/// returns the lamports; the program then burns the LP tokens and moves the
/// lamports from the vault to the withdrawer. When it refuses, nothing changes.
pub fn handler(clearing_house: &mut ClearingHouseState, accounts: &WithdrawSol, lp_amount: u64) -> (r: Result<
    u64,
    FateSwapError,
>)
    ensures
        r == withdraw_result(*old(clearing_house), *accounts, lp_amount),
        r matches Ok(sol) ==> *final(clearing_house) == withdrawn_clearing_house(*old(clearing_house), sol),
        r is Err ==> *final(clearing_house) == *old(clearing_house),
{
    if clearing_house.paused {
        return Err(FateSwapError::Paused);
    }
    if lp_amount == 0 {
        return Err(FateSwapError::ZeroAmount);
    }
    let available = available_liquidity(accounts.vault_lamports, accounts.rent_exempt, clearing_house.total_liability);
    let l = lp_amount as u128;
    let a = available as u128;
    assert(l * a <= u128::MAX) by (nonlinear_arith)
        requires
            l <= u64::MAX,
            a <= u64::MAX,
    ;
    if accounts.lp_supply == 0 {
        return Err(FateSwapError::MathOverflow);
    }
    let sol_u128 = (l * a) / (accounts.lp_supply as u128 + MINIMUM_LIQUIDITY as u128);
    if sol_u128 > u64::MAX as u128 {
        return Err(FateSwapError::MathOverflow);
    }
    let sol_amount = sol_u128 as u64;
    if sol_amount == 0 {
        return Err(FateSwapError::WithdrawTooSmall);
    }
    if sol_amount > available {
        return Err(FateSwapError::InsufficientLiquidity);
    }
    let total_withdrawn = match clearing_house.total_withdrawn.checked_add(sol_amount) {
        Some(v) => v,
        None => return Err(FateSwapError::MathOverflow),
    };
    let count = match clearing_house.lp_withdrawals_count.checked_add(1) {
        Some(v) => v,
        None => return Err(FateSwapError::MathOverflow),
    };
    clearing_house.total_withdrawn = total_withdrawn;
    clearing_house.lp_withdrawals_count = count;
    Ok(sol_amount)
}

} // verus!
