//! A player taking back the wager of an order that was not settled in time.

use vstd::prelude::*;
use crate::errors::FateSwapError;
use crate::events::FateOrderReclaimed;
use crate::pubkey::{zero_key, Pubkey};
use crate::state::{ClearingHouseState, FateOrder, FateOrderStatus, PlayerState};

verus! {

/// What reclaiming reads from the instruction's accounts, besides the
/// clearing house, the player state and the order.
#[derive(Clone, Copy, Debug)]
pub struct ReclaimExpiredOrder {
    /// The player (signer, the order's owner)
    pub player: Pubkey,
    /// Address of the order account
    pub order: Pubkey,
}

/// What `reclaim_expired_order` decides: nothing when the order can be
/// reclaimed, or why it refuses.
pub open spec fn reclaim_check(ch: ClearingHouseState, order: FateOrder, now: i64) -> Option<FateSwapError> {
    if order.status != FateOrderStatus::Pending {
        Some(FateSwapError::OrderNotPending)
    } else if now - order.timestamp <= ch.bet_timeout {
        Some(FateSwapError::OrderNotExpired)
    } else if ch.total_liability < order.potential_payout || ch.unsettled_count < 1 {
        Some(FateSwapError::MathOverflow)
    } else {
        None
    }
}

/// The clearing house after an order is reclaimed: its payout leaves the
/// liability and it leaves the unsettled orders; it is not counted as a bet.
pub open spec fn reclaimed_clearing_house(ch: ClearingHouseState, order: FateOrder) -> ClearingHouseState {
    ClearingHouseState {
        total_liability: (ch.total_liability - order.potential_payout) as u64,
        unsettled_count: (ch.unsettled_count - 1) as u64,
        ..ch
    }
}

/// Reclaims a pending order whose timeout has passed (strictly). On success
/// the order's payout leaves the liability, the order leaves the unsettled
/// orders (but is not counted as a bet), the player has no active order,
/// the order is marked expired (no longer pending, so it cannot be settled
/// or reclaimed again; the program then closes its account), and the event
/// names the refund: the wager, which the program then moves from the vault
/// back to the player. When it refuses, nothing changes.
pub fn handler(
    clearing_house: &mut ClearingHouseState,
    player_state: &mut PlayerState,
    fate_order: &mut FateOrder,
    accounts: &ReclaimExpiredOrder,
    now: i64,
) -> (r: Result<FateOrderReclaimed, FateSwapError>)
    requires
        old(fate_order).status == FateOrderStatus::Pending ==> i64::MIN <= now - old(fate_order).timestamp
            <= i64::MAX,
    ensures
        match reclaim_check(*old(clearing_house), *old(fate_order), now) {
            Some(e) => {
                &&& r == Err::<FateOrderReclaimed, FateSwapError>(e)
                &&& *final(clearing_house) == *old(clearing_house)
                &&& *final(player_state) == *old(player_state)
                &&& *final(fate_order) == *old(fate_order)
            },
            None => {
                &&& *final(clearing_house) == reclaimed_clearing_house(*old(clearing_house), *old(fate_order))
                &&& *final(player_state) == (PlayerState {
                    has_active_order: false,
                    active_order: zero_key(),
                    ..*old(player_state)
                })
                &&& *final(fate_order) == (FateOrder { status: FateOrderStatus::Expired, ..*old(fate_order) })
                &&& r == Ok::<FateOrderReclaimed, FateSwapError>(
                    FateOrderReclaimed {
                        player: accounts.player,
                        order: accounts.order,
                        refund_amount: old(fate_order).amount,
                        timestamp: now,
                    },
                )
            },
        },
{
    if fate_order.status != FateOrderStatus::Pending {
        return Err(FateSwapError::OrderNotPending);
    }
    let elapsed = now - fate_order.timestamp;
    if elapsed <= clearing_house.bet_timeout {
        return Err(FateSwapError::OrderNotExpired);
    }
    let total_liability = match clearing_house.total_liability.checked_sub(fate_order.potential_payout) {
        Some(v) => v,
        None => return Err(FateSwapError::MathOverflow),
    };
    let unsettled_count = match clearing_house.unsettled_count.checked_sub(1) {
        Some(v) => v,
        None => return Err(FateSwapError::MathOverflow),
    };
    clearing_house.total_liability = total_liability;
    clearing_house.unsettled_count = unsettled_count;
    player_state.has_active_order = false;
    player_state.active_order = Pubkey::zero();
    let refund_amount = fate_order.amount;
    fate_order.status = FateOrderStatus::Expired;
    Ok(
        FateOrderReclaimed {
            player: accounts.player,
            order: accounts.order,
            refund_amount,
            timestamp: now,
        },
    )
}

} // verus!
