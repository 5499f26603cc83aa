//! The events that instructions emit, as plain data. The handlers return
//! them; the program around the library logs them.

use vstd::prelude::*;
use crate::pubkey::Pubkey;

verus! {

/// Emitted by `initialize`.
#[derive(Clone, Copy, Debug, PartialEq, Eq)]
pub struct ClearingHouseInitialized {
    pub authority: Pubkey,
    pub settler: Pubkey,
    pub vault: Pubkey,
    pub lp_mint: Pubkey,
    pub fate_fee_bps: u16,
    pub max_bet_bps: u16,
    pub min_bet: u64,
    pub bet_timeout: i64,
    pub platform_wallet: Pubkey,
    pub bonus_wallet: Pubkey,
    pub nft_rewarder: Pubkey,
    pub timestamp: i64,
}

/// Emitted by `deposit_sol`, with the vault balance and LP supply after the deposit.
#[derive(Clone, Copy, Debug, PartialEq, Eq)]
pub struct LiquidityDeposited {
    pub depositor: Pubkey,
    pub sol_amount: u64,
    pub lp_amount: u64,
    pub vault_balance: u64,
    pub lp_supply: u64,
    pub timestamp: i64,
}

/// Emitted by `withdraw_sol`, with the vault balance and LP supply after the withdrawal.
#[derive(Clone, Copy, Debug, PartialEq, Eq)]
pub struct LiquidityWithdrawn {
    pub withdrawer: Pubkey,
    pub lp_amount: u64,
    pub sol_amount: u64,
    pub vault_balance: u64,
    pub lp_supply: u64,
    pub timestamp: i64,
}

/// Emitted by `pause`.
#[derive(Clone, Copy, Debug, PartialEq, Eq)]
pub struct Paused {
    pub authority: Pubkey,
    pub paused: bool,
    pub timestamp: i64,
}

/// Emitted by `submit_commitment`.
#[derive(Clone, Copy, Debug, PartialEq, Eq)]
pub struct CommitmentSubmitted {
    pub player: Pubkey,
    pub commitment_hash: [u8; 32],
    pub nonce: u64,
    pub timestamp: i64,
}

/// Emitted by `place_fate_order`.
#[derive(Clone, Copy, Debug, PartialEq, Eq)]
pub struct FateOrderPlaced {
    pub player: Pubkey,
    pub order: Pubkey,
    pub amount: u64,
    pub multiplier_bps: u32,
    pub potential_payout: u64,
    pub commitment_hash: [u8; 32],
    pub nonce: u64,
    pub token_mint: Pubkey,
    pub token_amount: u64,
    pub timestamp: i64,
}

/// Emitted by `settle_fate_order`.
#[derive(Clone, Copy, Debug, PartialEq, Eq)]
pub struct FateOrderSettled {
    pub player: Pubkey,
    pub order: Pubkey,
    pub filled: bool,
    pub amount: u64,
    pub multiplier_bps: u32,
    pub payout: u64,
    pub server_seed: [u8; 32],
    pub commitment_hash: [u8; 32],
    pub nonce: u64,
    pub timestamp: i64,
}

/// Emitted by `reclaim_expired_order`.
#[derive(Clone, Copy, Debug, PartialEq, Eq)]
pub struct FateOrderReclaimed {
    pub player: Pubkey,
    pub order: Pubkey,
    pub refund_amount: u64,
    pub timestamp: i64,
}

/// Emitted by `set_referrer` and `admin_set_referrer`.
#[derive(Clone, Copy, Debug, PartialEq, Eq)]
pub struct ReferrerSet {
    pub player: Pubkey,
    pub referrer: Pubkey,
    pub tier2_referrer: Pubkey,
    pub timestamp: i64,
}

/// Emitted for each reward of a settlement that was paid.
/// `reward_type`: 0 = tier-1 referral, 1 = tier-2 referral, 2 = NFT reward,
/// 3 = platform fee, 4 = bonus.
#[derive(Clone, Copy, Debug, PartialEq, Eq)]
pub struct RewardPaid {
    pub reward_type: u8,
    pub recipient: Pubkey,
    pub amount: u64,
    pub order: Pubkey,
    pub timestamp: i64,
}

/// Emitted for each best-effort referral reward whose transfer failed.
#[derive(Clone, Copy, Debug, PartialEq, Eq)]
pub struct RewardFailed {
    pub reward_type: u8,
    pub recipient: Pubkey,
    pub amount: u64,
    pub order: Pubkey,
    pub timestamp: i64,
}

/// Emitted by `update_config` for each field it changes.
/// `field_id`: 0 = fate_fee_bps, 1 = max_bet_bps, 2 = min_bet, 3 = bet_timeout,
/// 4 = referral_bps, 5 = tier2_referral_bps, 6 = nft_reward_bps,
/// 7 = platform_fee_bps, 8 = bonus_bps.
#[derive(Clone, Copy, Debug, PartialEq, Eq)]
pub struct ConfigUpdated {
    pub field_id: u8,
    pub old_value: u64,
    pub new_value: u64,
    pub authority: Pubkey,
    pub timestamp: i64,
}

/// Emitted by `update_settler`.
#[derive(Clone, Copy, Debug, PartialEq, Eq)]
pub struct SettlerUpdated {
    pub old_settler: Pubkey,
    pub new_settler: Pubkey,
    pub authority: Pubkey,
    pub timestamp: i64,
}

} // verus!
