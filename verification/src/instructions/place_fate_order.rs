//! Placing a fate order against the player's pending commitment.

use vstd::prelude::*;
use crate::errors::FateSwapError;
use crate::events::FateOrderPlaced;
use crate::math::{
    available_balance, bps_share, bps_share_result, calculate_max_bet, calculate_payout,
    is_valid_multiplier, max_bet_result, payout_result, valid_multiplier,
};
use crate::pubkey::{bytes_is_zero, zero_bytes, Pubkey};
use crate::state::{ClearingHouseState, FateOrder, FateOrderStatus, PlayerState};
use crate::state::fate_order::zero_reserved_45;

verus! {

/// What placing an order reads from the instruction's accounts, besides the
/// clearing house and the player state.
#[derive(Clone, Copy, Debug)]
pub struct PlaceFateOrder {
    /// The player (signer and payer)
    pub player: Pubkey,
    /// Address of the new order account
    pub fate_order: Pubkey,
    /// Bump of the new order account's address
    pub fate_order_bump: u8,
    /// The vault's balance before the wager is transferred
    pub vault_lamports: u64,
    /// The vault's rent-exempt minimum
    pub rent_exempt: u64,
}

/// The largest bet the pool accepts at a multiplier: `max_bet_bps` of the
/// net balance at 2x, scaled inversely with the multiplier.
pub open spec fn max_bet_for(ch: ClearingHouseState, net: int, multiplier_bps: int) -> Result<u64, FateSwapError> {
    match bps_share_result(net, ch.max_bet_bps as int) {
        Err(e) => Err(e),
        Ok(base) => max_bet_result(base as int, multiplier_bps),
    }
}

/// The outcome of the checks of `place_fate_order`, in order: the potential
/// payout of the order when they all pass.
pub open spec fn place_check(
    ch: ClearingHouseState,
    ps: PlayerState,
    acc: PlaceFateOrder,
    nonce: u64,
    amount: u64,
    multiplier_bps: u32,
) -> Result<u64, FateSwapError> {
    let net = available_balance(acc.vault_lamports as int, acc.rent_exempt as int, ch.total_liability as int);
    if ch.paused {
        Err(FateSwapError::Paused)
    } else if !valid_multiplier(multiplier_bps as int) {
        Err(FateSwapError::InvalidMultiplier)
    } else if nonce != ps.pending_nonce {
        Err(FateSwapError::NonceMismatch)
    } else if ps.pending_commitment == zero_bytes() {
        Err(FateSwapError::NoCommitment)
    } else if ps.has_active_order {
        Err(FateSwapError::ActiveOrderExists)
    } else if amount < ch.min_bet {
        Err(FateSwapError::BetTooSmall)
    } else {
        match payout_result(amount as int, multiplier_bps as int) {
            Err(e) => Err(e),
            Ok(payout) => match max_bet_for(ch, net, multiplier_bps as int) {
                Err(e) => Err(e),
                Ok(max_bet) => if amount > max_bet {
                    Err(FateSwapError::BetTooLarge)
                } else if net < payout {
                    Err(FateSwapError::InsufficientVaultBalance)
                } else if ch.total_liability + payout > u64::MAX || ch.unsettled_count + 1 > u64::MAX
                    || ps.nonce + 1 > u64::MAX {
                    Err(FateSwapError::MathOverflow)
                } else {
                    Ok(payout)
                },
            },
        }
    }
}

/// The new order account.
pub open spec fn placed_order(
    ps: PlayerState,
    acc: PlaceFateOrder,
    nonce: u64,
    amount: u64,
    multiplier_bps: u32,
    payout: u64,
    token_mint: Pubkey,
    token_amount: u64,
    now: i64,
) -> FateOrder {
    FateOrder {
        player: acc.player,
        amount,
        multiplier_bps,
        potential_payout: payout,
        commitment_hash: ps.pending_commitment,
        nonce,
        status: FateOrderStatus::Pending,
        timestamp: now,
        token_mint,
        token_amount,
        bump: acc.fate_order_bump,
        _reserved: zero_reserved_45(),
    }
}

/// The clearing house after an order is placed: its payout joins the
/// liability, it joins the unsettled orders, and it may be the largest bet.
pub open spec fn placed_clearing_house(ch: ClearingHouseState, amount: u64, payout: u64) -> ClearingHouseState {
    ClearingHouseState {
        total_liability: (ch.total_liability + payout) as u64,
        unsettled_count: (ch.unsettled_count + 1) as u64,
        largest_bet: if amount > ch.largest_bet {
            amount
        } else {
            ch.largest_bet
        },
        ..ch
    }
}

/// The player's state after an order is placed: the order is active, the
/// nonce advances and the pending commitment is used up.
pub open spec fn placed_player_state(ps: PlayerState, acc: PlaceFateOrder) -> PlayerState {
    PlayerState {
        has_active_order: true,
        active_order: acc.fate_order,
        nonce: (ps.nonce + 1) as u64,
        pending_commitment: zero_bytes(),
        ..ps
    }
}

/// Places a fate order of `amount` lamports at `multiplier_bps`.
///
/// Refuses when the protocol is paused, the multiplier is not one of the
/// allowed values, the nonce is not the pending one, there is no pending
/// commitment, the player has an active order, the bet is under the minimum
/// or over the maximum for its multiplier, or the net balance cannot cover
/// the potential payout. On success it fills the new order account, updates
/// the clearing house and the player's state, and returns the event; the
/// program then moves `amount` lamports from the player to the vault.
/// When it refuses, nothing changes.
pub fn handler(
    clearing_house: &mut ClearingHouseState,
    player_state: &mut PlayerState,
    fate_order: &mut FateOrder,
    accounts: &PlaceFateOrder,
    nonce: u64,
    amount: u64,
    multiplier_bps: u32,
    token_mint: Pubkey,
    token_amount: u64,
    now: i64,
) -> (r: Result<FateOrderPlaced, FateSwapError>)
    ensures
        match place_check(*old(clearing_house), *old(player_state), *accounts, nonce, amount, multiplier_bps) {
            Err(e) => {
                &&& r == Err::<FateOrderPlaced, FateSwapError>(e)
                &&& *final(clearing_house) == *old(clearing_house)
                &&& *final(player_state) == *old(player_state)
                &&& *final(fate_order) == *old(fate_order)
            },
            Ok(payout) => {
                &&& *final(fate_order) == placed_order(
                    *old(player_state),
                    *accounts,
                    nonce,
                    amount,
                    multiplier_bps,
                    payout,
                    token_mint,
                    token_amount,
                    now,
                )
                &&& *final(clearing_house) == placed_clearing_house(*old(clearing_house), amount, payout)
                &&& *final(player_state) == placed_player_state(*old(player_state), *accounts)
                &&& r == Ok::<FateOrderPlaced, FateSwapError>(
                    FateOrderPlaced {
                        player: accounts.player,
                        order: accounts.fate_order,
                        amount,
                        multiplier_bps,
                        potential_payout: payout,
                        commitment_hash: old(player_state).pending_commitment,
                        nonce,
                        token_mint,
                        token_amount,
                        timestamp: now,
                    },
                )
            },
        },
{
    if clearing_house.paused {
        return Err(FateSwapError::Paused);
    }
    if !is_valid_multiplier(multiplier_bps) {
        return Err(FateSwapError::InvalidMultiplier);
    }
    if nonce != player_state.pending_nonce {
        return Err(FateSwapError::NonceMismatch);
    }
    if bytes_is_zero(&player_state.pending_commitment) {
        return Err(FateSwapError::NoCommitment);
    }
    if player_state.has_active_order {
        return Err(FateSwapError::ActiveOrderExists);
    }
    if amount < clearing_house.min_bet {
        return Err(FateSwapError::BetTooSmall);
    }
    let potential_payout = calculate_payout(amount, multiplier_bps)?;
    let net_balance = clearing_house.net_balance(accounts.vault_lamports, accounts.rent_exempt);
    let base_max = bps_share(net_balance, clearing_house.max_bet_bps as u64)?;
    let max_bet = calculate_max_bet(base_max, multiplier_bps)?;
    if amount > max_bet {
        return Err(FateSwapError::BetTooLarge);
    }
    if net_balance < potential_payout {
        return Err(FateSwapError::InsufficientVaultBalance);
    }
    let total_liability = match clearing_house.total_liability.checked_add(potential_payout) {
        Some(v) => v,
        None => return Err(FateSwapError::MathOverflow),
    };
    let unsettled_count = match clearing_house.unsettled_count.checked_add(1) {
        Some(v) => v,
        None => return Err(FateSwapError::MathOverflow),
    };
    let next_nonce = match player_state.nonce.checked_add(1) {
        Some(v) => v,
        None => return Err(FateSwapError::MathOverflow),
    };
    let commitment_hash = player_state.pending_commitment;
    *fate_order = FateOrder {
        player: accounts.player,
        amount,
        multiplier_bps,
        potential_payout,
        commitment_hash,
        nonce,
        status: FateOrderStatus::Pending,
        timestamp: now,
        token_mint,
        token_amount,
        bump: accounts.fate_order_bump,
        _reserved: [0u8; 45],
    };
    clearing_house.total_liability = total_liability;
    clearing_house.unsettled_count = unsettled_count;
    if amount > clearing_house.largest_bet {
        clearing_house.largest_bet = amount;
    }
    player_state.has_active_order = true;
    player_state.active_order = accounts.fate_order;
    player_state.nonce = next_nonce;
    player_state.pending_commitment = [0u8; 32];
    Ok(
        FateOrderPlaced {
            player: accounts.player,
            order: accounts.fate_order,
            amount,
            multiplier_bps,
            potential_payout,
            commitment_hash,
            nonce,
            token_mint,
            token_amount,
            timestamp: now,
        },
    )
}

} // verus!
