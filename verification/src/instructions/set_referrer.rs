//! A player naming their referrer, once.

use vstd::prelude::*;
use crate::errors::FateSwapError;
use crate::events::ReferrerSet;
use crate::pubkey::{zero_key, Pubkey};
use crate::state::{PlayerState, ReferralState};
use crate::state::referral_state::zero_reserved_23;

verus! {

/// What `set_referrer` reads from the instruction's accounts, besides the
/// player state and the referral state.
#[derive(Clone, Copy, Debug)]
pub struct SetReferrer {
    /// The player (signer)
    pub player: Pubkey,
    /// Bump of the referral state's address
    pub referral_state_bump: u8,
    /// The referrer recorded in the referrer's own player state, when that
    /// account is passed
    pub referrer_player_state: Option<Pubkey>,
}

/// A referral state that has no referrer yet gets the referrer, its bump
/// and zero counts.
pub open spec fn claimed_referral_state(rs: ReferralState, referrer: Pubkey, bump: u8) -> ReferralState {
    if rs.referrer == zero_key() {
        ReferralState {
            referrer,
            bump,
            total_referrals: 0,
            total_earnings: 0,
            _reserved: zero_reserved_23(),
        }
    } else {
        rs
    }
}

/// The tier-2 referrer: the referrer's own referrer, or none.
pub open spec fn resolved_tier2(referrer_player_state: Option<Pubkey>) -> Pubkey {
    match referrer_player_state {
        Some(k) => k,
        None => zero_key(),
    }
}

pub(crate) fn claim_referral_state(rs: &mut ReferralState, referrer: Pubkey, bump: u8)
    ensures
        *final(rs) == claimed_referral_state(*old(rs), referrer, bump),
{
    if rs.referrer.is_zero() {
        rs.referrer = referrer;
        rs.bump = bump;
        rs.total_referrals = 0;
        rs.total_earnings = 0;
        rs._reserved = [0u8; 23];
    }
}

/// The tier-2 referrer to record for `player`: the referrer's own referrer,
/// unless that is the player (no circular referral).
pub open spec fn tier2_for(referrer_player_state: Option<Pubkey>, player: Pubkey) -> Pubkey {
    if resolved_tier2(referrer_player_state) == player {
        zero_key()
    } else {
        resolved_tier2(referrer_player_state)
    }
}

pub(crate) fn resolve_tier2(referrer_player_state: &Option<Pubkey>, player: &Pubkey) -> (r: Pubkey)
    ensures
        r == tier2_for(*referrer_player_state, *player),
{
    let resolved = match referrer_player_state {
        Some(k) => {
            if !k.is_zero() {
                *k
            } else {
                Pubkey::zero()
            }
        },
        None => Pubkey::zero(),
    };
    if resolved.equals(player) {
        Pubkey::zero()
    } else {
        resolved
    }
}

/// What `set_referrer` decides: nothing when it goes ahead, or why it refuses.
pub open spec fn set_referrer_check(ps: PlayerState, rs: ReferralState, acc: SetReferrer, referrer_key: Pubkey) -> Option<
    FateSwapError,
> {
    if acc.player == referrer_key {
        Some(FateSwapError::SelfReferral)
    } else if ps.referrer != zero_key() {
        Some(FateSwapError::ReferrerAlreadySet)
    } else if claimed_referral_state(rs, referrer_key, acc.referral_state_bump).total_referrals + 1 > u64::MAX {
        Some(FateSwapError::MathOverflow)
    } else {
        None
    }
}

/// Makes `referrer_key` the player's referrer and the referrer's referrer
/// (unless it is the player) the tier-2 referrer, and counts the referral.
/// Refuses self-referral and a second referrer; then nothing changes.
pub fn handler(
    player_state: &mut PlayerState,
    referral_state: &mut ReferralState,
    accounts: &SetReferrer,
    referrer_key: Pubkey,
    now: i64,
) -> (r: Result<ReferrerSet, FateSwapError>)
    ensures
        match set_referrer_check(*old(player_state), *old(referral_state), *accounts, referrer_key) {
            Some(e) => {
                &&& r == Err::<ReferrerSet, FateSwapError>(e)
                &&& *final(player_state) == *old(player_state)
                &&& *final(referral_state) == *old(referral_state)
            },
            None => {
                let claimed = claimed_referral_state(*old(referral_state), referrer_key, accounts.referral_state_bump);
                &&& *final(referral_state) == (ReferralState {
                    total_referrals: (claimed.total_referrals + 1) as u64,
                    ..claimed
                })
                &&& *final(player_state) == (PlayerState {
                    referrer: referrer_key,
                    tier2_referrer: tier2_for(accounts.referrer_player_state, accounts.player),
                    ..*old(player_state)
                })
                &&& r == Ok::<ReferrerSet, FateSwapError>(
                    ReferrerSet {
                        player: accounts.player,
                        referrer: referrer_key,
                        tier2_referrer: tier2_for(accounts.referrer_player_state, accounts.player),
                        timestamp: now,
                    },
                )
            },
        },
{
    if accounts.player.equals(&referrer_key) {
        return Err(FateSwapError::SelfReferral);
    }
    if !player_state.referrer.is_zero() {
        return Err(FateSwapError::ReferrerAlreadySet);
    }
    let mut rs = *referral_state;
    claim_referral_state(&mut rs, referrer_key, accounts.referral_state_bump);
    let total_referrals = match rs.total_referrals.checked_add(1) {
        Some(v) => v,
        None => return Err(FateSwapError::MathOverflow),
    };
    rs.total_referrals = total_referrals;
    *referral_state = rs;
    player_state.referrer = referrer_key;
    let tier2_referrer = resolve_tier2(&accounts.referrer_player_state, &accounts.player);
    player_state.tier2_referrer = tier2_referrer;
    Ok(ReferrerSet { player: accounts.player, referrer: referrer_key, tier2_referrer, timestamp: now })
}

} // verus!
