//! Per-player state: the pending commitment, the active order, referrers and statistics.

use vstd::prelude::*;
use crate::pubkey::{zero_bytes, zero_key, Pubkey};

verus! {

/// PlayerState account (249 bytes including the 8-byte discriminator).
#[derive(Clone, Copy, Debug)]
pub struct PlayerState {
    /// Player wallet
    pub player: Pubkey,
    /// Pending commitment hash (SHA256 of server seed)
    pub pending_commitment: [u8; 32],
    /// Pending nonce
    pub pending_nonce: u64,
    /// Next nonce to use
    pub nonce: u64,
    /// Has active order flag
    pub has_active_order: bool,
    /// Active order PDA
    pub active_order: Pubkey,
    /// Tier-1 referrer (one-time set)
    pub referrer: Pubkey,
    /// Tier-2 referrer (the referrer's referrer, resolved when the referrer is set)
    pub tier2_referrer: Pubkey,
    /// Number of settled orders
    pub total_orders: u64,
    /// Lamports wagered on settled orders
    pub total_wagered: u64,
    /// Profit on filled orders (not total payouts)
    pub total_won: u64,
    /// Net profit and loss (can be negative)
    pub net_pnl: i64,
    /// PDA bump
    pub bump: u8,
    /// Reserved space for future fields
    pub _reserved: [u8; 31],
}

/// The all-zero 31-byte reserved area.
pub open spec fn zero_reserved_31() -> [u8; 31] {
    vstd::array::spec_array_fill_for_copy_type::<u8, 31>(0u8)
}

impl PlayerState {
    /// Size of the account in bytes, including the 8-byte discriminator.
    pub const LEN: usize = 8 + 32 + 32 + 8 + 8 + 1 + 32 + 32 + 32 + 8 + 8 + 8 + 8 + 1 + 31;

    /// The account with every field zero.
    pub open spec fn zeroed() -> PlayerState {
        PlayerState {
            player: zero_key(),
            pending_commitment: zero_bytes(),
            pending_nonce: 0,
            nonce: 0,
            has_active_order: false,
            active_order: zero_key(),
            referrer: zero_key(),
            tier2_referrer: zero_key(),
            total_orders: 0,
            total_wagered: 0,
            total_won: 0,
            net_pnl: 0,
            bump: 0,
            _reserved: zero_reserved_31(),
        }
    }
}

impl Default for PlayerState {
    fn default() -> (s: PlayerState)
        ensures
            s == PlayerState::zeroed(),
    {
        PlayerState {
            player: Pubkey::zero(),
            pending_commitment: [0u8; 32],
            pending_nonce: 0,
            nonce: 0,
            has_active_order: false,
            active_order: Pubkey::zero(),
            referrer: Pubkey::zero(),
            tier2_referrer: Pubkey::zero(),
            total_orders: 0,
            total_wagered: 0,
            total_won: 0,
            net_pnl: 0,
            bump: 0,
            _reserved: [0u8; 31],
        }
    }
}

} // verus!
