//! A single prediction market order.

use vstd::prelude::*;
use crate::pubkey::{zero_bytes, zero_key, Pubkey};

verus! {

/// Status of a FateOrder
#[derive(Clone, Copy, Debug, PartialEq, Eq, Structural)]
pub enum FateOrderStatus {
    Pending,
    Filled,
    NotFilled,
    Expired,
}

impl Default for FateOrderStatus {
    fn default() -> (s: FateOrderStatus)
        ensures
            s == FateOrderStatus::Pending,
    {
        FateOrderStatus::Pending
    }
}

/// FateOrder state account (195 bytes including the 8-byte discriminator).
#[derive(Clone, Copy, Debug)]
pub struct FateOrder {
    /// Player who placed the order
    pub player: Pubkey,
    /// Wager amount in lamports
    pub amount: u64,
    /// Multiplier in basis points (101000 = 1.01x, 1000000 = 10.0x)
    pub multiplier_bps: u32,
    /// Potential payout if filled (amount * multiplier_bps / 100000)
    pub potential_payout: u64,
    /// Commitment hash (SHA256 of server seed)
    pub commitment_hash: [u8; 32],
    /// Nonce for this order
    pub nonce: u64,
    /// Order status
    pub status: FateOrderStatus,
    /// Timestamp when the order was placed
    pub timestamp: i64,
    /// Token mint (metadata only)
    pub token_mint: Pubkey,
    /// Token amount (metadata only)
    pub token_amount: u64,
    /// PDA bump
    pub bump: u8,
    /// Reserved space for future fields
    pub _reserved: [u8; 45],
}

/// The all-zero 45-byte reserved area.
pub open spec fn zero_reserved_45() -> [u8; 45] {
    vstd::array::spec_array_fill_for_copy_type::<u8, 45>(0u8)
}

impl FateOrder {
    /// Size of the account in bytes, including the 8-byte discriminator.
    pub const LEN: usize = 8 + 32 + 8 + 4 + 8 + 32 + 8 + 1 + 8 + 32 + 8 + 1 + 45;

    /// The order with every field zero (status `Pending`).
    pub open spec fn zeroed() -> FateOrder {
        FateOrder {
            player: zero_key(),
            amount: 0,
            multiplier_bps: 0,
            potential_payout: 0,
            commitment_hash: zero_bytes(),
            nonce: 0,
            status: FateOrderStatus::Pending,
            timestamp: 0,
            token_mint: zero_key(),
            token_amount: 0,
            bump: 0,
            _reserved: zero_reserved_45(),
        }
    }
}

impl Default for FateOrder {
    fn default() -> (o: FateOrder)
        ensures
            o == FateOrder::zeroed(),
    {
        FateOrder {
            player: Pubkey::zero(),
            amount: 0,
            multiplier_bps: 0,
            potential_payout: 0,
            commitment_hash: [0u8; 32],
            nonce: 0,
            status: FateOrderStatus::default(),
            timestamp: 0,
            token_mint: Pubkey::zero(),
            token_amount: 0,
            bump: 0,
            _reserved: [0u8; 45],
        }
    }
}

} // verus!
