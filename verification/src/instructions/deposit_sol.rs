//! Depositing SOL into the pool for LP tokens.

use vstd::prelude::*;
use crate::errors::FateSwapError;
use crate::math::{available_balance, available_liquidity, pricing_supply, MINIMUM_LIQUIDITY};
use crate::pubkey::Pubkey;
use crate::state::ClearingHouseState;

verus! {

/// What a deposit reads from the instruction's accounts, besides the clearing house.
#[derive(Clone, Copy, Debug)]
pub struct DepositSol {
    /// The depositor (signer)
    pub depositor: Pubkey,
    /// The vault's balance before the deposit
    pub vault_lamports: u64,
    /// The LP mint's supply before the deposit
    pub lp_supply: u64,
    /// The vault's rent-exempt minimum
    pub rent_exempt: u64,
}

/// LP tokens minted for a deposit: on the first deposit (no LP supply),
/// the amount less the `MINIMUM_LIQUIDITY` that is burned; afterwards the
/// depositor's share of the pricing supply (which counts the burned tokens),
/// `amount * (lp_supply + MINIMUM_LIQUIDITY) / effective_balance`, rounded down.
pub open spec fn lp_to_mint_result(amount: int, lp_supply: int, effective: int) -> Result<u64, FateSwapError> {
    if lp_supply == 0 {
        if amount <= MINIMUM_LIQUIDITY {
            Err(FateSwapError::DepositTooSmall)
        } else {
            Ok((amount - MINIMUM_LIQUIDITY) as u64)
        }
    } else if effective == 0 {
        Err(FateSwapError::MathOverflow)
    } else if amount * pricing_supply(lp_supply) > u128::MAX {
        Err(FateSwapError::MathOverflow)
    } else if amount * pricing_supply(lp_supply) / effective > u64::MAX {
        Err(FateSwapError::MathOverflow)
    } else {
        Ok((amount * pricing_supply(lp_supply) / effective) as u64)
    }
}

/// What `deposit_sol` decides: the LP tokens to mint, or why it refuses.
pub open spec fn deposit_result(ch: ClearingHouseState, acc: DepositSol, amount: u64) -> Result<u64, FateSwapError> {
    let effective = available_balance(acc.vault_lamports as int, acc.rent_exempt as int, ch.total_liability as int);
    if ch.paused {
        Err(FateSwapError::Paused)
    } else if amount == 0 {
        Err(FateSwapError::ZeroAmount)
    } else {
        match lp_to_mint_result(amount as int, acc.lp_supply as int, effective) {
            Err(e) => Err(e),
            Ok(lp) => if lp == 0 {
                Err(FateSwapError::DepositTooSmall)
            } else if ch.total_deposited + amount > u64::MAX || ch.lp_deposits_count + 1 > u64::MAX {
                Err(FateSwapError::MathOverflow)
            } else {
                Ok(lp)
            },
        }
    }
}

/// The clearing house after a deposit: the amount joins the lifetime
/// deposits and the deposit count grows by one.
pub open spec fn deposited_clearing_house(ch: ClearingHouseState, amount: u64) -> ClearingHouseState {
    ClearingHouseState {
        total_deposited: (ch.total_deposited + amount) as u64,
        lp_deposits_count: (ch.lp_deposits_count + 1) as u64,
        ..ch
    }
}

fn lp_to_mint(amount: u64, lp_supply: u64, effective: u64) -> (r: Result<u64, FateSwapError>)
    ensures
        r == lp_to_mint_result(amount as int, lp_supply as int, effective as int),
{
    if lp_supply == 0 {
        if amount <= MINIMUM_LIQUIDITY {
            return Err(FateSwapError::DepositTooSmall);
        }
        return Ok(amount - MINIMUM_LIQUIDITY);
    }
    if effective == 0 {
        return Err(FateSwapError::MathOverflow);
    }
    let a = amount as u128;
    let s = lp_supply as u128 + MINIMUM_LIQUIDITY as u128;
    let product = match a.checked_mul(s) {
        Some(p) => p,
        None => return Err(FateSwapError::MathOverflow),
    };
    let lp = product / (effective as u128);
    if lp > u64::MAX as u128 {
        return Err(FateSwapError::MathOverflow);
    }
    Ok(lp as u64)
}

/// Deposits `amount` lamports: refuses when paused, when the amount is zero,
/// or when it would mint no LP tokens (on the first deposit, when it is not
/// above the `MINIMUM_LIQUIDITY` that it burns). On success it records the deposit and
/// returns the LP tokens to mint; the program then moves `amount` lamports
/// from the depositor to the vault and mints the LP tokens to the depositor.
/// When it refuses, nothing changes.
pub fn handler(clearing_house: &mut ClearingHouseState, accounts: &DepositSol, amount: u64) -> (r: Result<
    u64,
    FateSwapError,
>)
    ensures
        r == deposit_result(*old(clearing_house), *accounts, amount),
        r is Ok ==> *final(clearing_house) == deposited_clearing_house(*old(clearing_house), amount),
        r is Err ==> *final(clearing_house) == *old(clearing_house),
{
    if clearing_house.paused {
        return Err(FateSwapError::Paused);
    }
    if amount == 0 {
        return Err(FateSwapError::ZeroAmount);
    }
    let effective = available_liquidity(accounts.vault_lamports, accounts.rent_exempt, clearing_house.total_liability);
    let lp = lp_to_mint(amount, accounts.lp_supply, effective)?;
    if lp == 0 {
        return Err(FateSwapError::DepositTooSmall);
    }
    let total_deposited = match clearing_house.total_deposited.checked_add(amount) {
        Some(v) => v,
        None => return Err(FateSwapError::MathOverflow),
    };
    let count = match clearing_house.lp_deposits_count.checked_add(1) {
        Some(v) => v,
        None => return Err(FateSwapError::MathOverflow),
    };
    clearing_house.total_deposited = total_deposited;
    clearing_house.lp_deposits_count = count;
    Ok(lp)
}

} // verus!
