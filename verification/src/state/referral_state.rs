//! Per-referrer statistics.

use vstd::prelude::*;
use crate::pubkey::{zero_key, Pubkey};

verus! {

/// ReferralState account (80 bytes including the 8-byte discriminator).
#[derive(Clone, Copy, Debug)]
pub struct ReferralState {
    /// The referrer wallet
    pub referrer: Pubkey,
    /// Number of players who set this wallet as their referrer
    pub total_referrals: u64,
    /// Total earnings from referral rewards (cumulative)
    pub total_earnings: u64,
    /// PDA bump
    pub bump: u8,
    /// Reserved space for future fields
    pub _reserved: [u8; 23],
}

/// The all-zero 23-byte reserved area.
pub open spec fn zero_reserved_23() -> [u8; 23] {
    vstd::array::spec_array_fill_for_copy_type::<u8, 23>(0u8)
}

impl ReferralState {
    /// Size of the account in bytes, including the 8-byte discriminator.
    pub const LEN: usize = 8 + 32 + 8 + 8 + 1 + 23;

    /// The account with every field zero.
    pub open spec fn zeroed() -> ReferralState {
        ReferralState {
            referrer: zero_key(),
            total_referrals: 0,
            total_earnings: 0,
            bump: 0,
            _reserved: zero_reserved_23(),
        }
    }
}

impl Default for ReferralState {
    fn default() -> (s: ReferralState)
        ensures
            s == ReferralState::zeroed(),
    {
        ReferralState {
            referrer: Pubkey::zero(),
            total_referrals: 0,
            total_earnings: 0,
            bump: 0,
            _reserved: [0u8; 23],
        }
    }
}

} // verus!
