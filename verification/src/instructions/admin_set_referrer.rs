//! The settler naming a player's referrer on the player's behalf.

use vstd::prelude::*;
use crate::errors::FateSwapError;
use crate::events::ReferrerSet;
use crate::instructions::set_referrer::{
    claim_referral_state, claimed_referral_state, resolve_tier2, tier2_for,
};
use crate::instructions::submit_commitment::{claim_player_state, claimed_player_state};
use crate::pubkey::{zero_key, Pubkey};
use crate::state::{ClearingHouseState, PlayerState, ReferralState};

verus! {

/// What `admin_set_referrer` reads from the instruction's accounts, besides
/// the clearing house, the player state and the referral state.
#[derive(Clone, Copy, Debug)]
pub struct AdminSetReferrer {
    /// The signer
    pub settler: Pubkey,
    /// Bump of the player state's address
    pub player_state_bump: u8,
    /// Bump of the referral state's address
    pub referral_state_bump: u8,
    /// The referrer recorded in the referrer's own player state, when that
    /// account is passed
    pub referrer_player_state: Option<Pubkey>,
}

/// What `admin_set_referrer` decides: nothing when it goes ahead, or why it refuses.
pub open spec fn admin_set_referrer_check(
    ch: ClearingHouseState,
    ps: PlayerState,
    rs: ReferralState,
    acc: AdminSetReferrer,
    player_key: Pubkey,
    referrer_key: Pubkey,
) -> Option<FateSwapError> {
    if acc.settler != ch.settler {
        Some(FateSwapError::UnauthorizedSettler)
    } else if player_key == referrer_key {
        Some(FateSwapError::SelfReferral)
    } else if claimed_player_state(ps, player_key, acc.player_state_bump).referrer != zero_key() {
        Some(FateSwapError::ReferrerAlreadySet)
    } else if claimed_referral_state(rs, referrer_key, acc.referral_state_bump).total_referrals + 1 > u64::MAX {
        Some(FateSwapError::MathOverflow)
    } else {
        None
    }
}

/// The settler's version of `set_referrer`: sets the player state up if it
/// is new, then records `referrer_key` as the player's referrer and the
/// referrer's referrer as the tier-2 referrer (unless that is the player),
/// and counts the referral. Refuses when the signer is not the
/// settler, on self-referral and on a second referrer; then nothing changes.
pub fn handler(
    clearing_house: &ClearingHouseState,
    player_state: &mut PlayerState,
    referral_state: &mut ReferralState,
    accounts: &AdminSetReferrer,
    player_key: Pubkey,
    referrer_key: Pubkey,
    now: i64,
) -> (r: Result<ReferrerSet, FateSwapError>)
    ensures
        match admin_set_referrer_check(
            *clearing_house,
            *old(player_state),
            *old(referral_state),
            *accounts,
            player_key,
            referrer_key,
        ) {
            Some(e) => {
                &&& r == Err::<ReferrerSet, FateSwapError>(e)
                &&& *final(player_state) == *old(player_state)
                &&& *final(referral_state) == *old(referral_state)
            },
            None => {
                let claimed = claimed_referral_state(*old(referral_state), referrer_key, accounts.referral_state_bump);
                &&& *final(referral_state) == (ReferralState {
                    total_referrals: (claimed.total_referrals + 1) as u64,
                    ..claimed
                })
                &&& *final(player_state) == (PlayerState {
                    referrer: referrer_key,
                    tier2_referrer: tier2_for(accounts.referrer_player_state, player_key),
                    ..claimed_player_state(*old(player_state), player_key, accounts.player_state_bump)
                })
                &&& r == Ok::<ReferrerSet, FateSwapError>(
                    ReferrerSet {
                        player: player_key,
                        referrer: referrer_key,
                        tier2_referrer: tier2_for(accounts.referrer_player_state, player_key),
                        timestamp: now,
                    },
                )
            },
        },
{
    if !accounts.settler.equals(&clearing_house.settler) {
        return Err(FateSwapError::UnauthorizedSettler);
    }
    if player_key.equals(&referrer_key) {
        return Err(FateSwapError::SelfReferral);
    }
    let mut ps = *player_state;
    claim_player_state(&mut ps, player_key, accounts.player_state_bump);
    if !ps.referrer.is_zero() {
        return Err(FateSwapError::ReferrerAlreadySet);
    }
    let mut rs = *referral_state;
    claim_referral_state(&mut rs, referrer_key, accounts.referral_state_bump);
    let total_referrals = match rs.total_referrals.checked_add(1) {
        Some(v) => v,
        None => return Err(FateSwapError::MathOverflow),
    };
    rs.total_referrals = total_referrals;
    let tier2_referrer = resolve_tier2(&accounts.referrer_player_state, &player_key);
    ps.referrer = referrer_key;
    ps.tier2_referrer = tier2_referrer;
    *referral_state = rs;
    *player_state = ps;
    Ok(ReferrerSet { player: player_key, referrer: referrer_key, tier2_referrer, timestamp: now })
}

} // verus!
