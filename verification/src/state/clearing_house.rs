//! The clearing house: the LP pool, its vault and the protocol's configuration.

use vstd::prelude::*;
use crate::math::{available_balance, available_liquidity};
use crate::pubkey::{zero_key, Pubkey};

verus! {

/// ClearingHouse state account (546 bytes including the 8-byte discriminator).
/// Manages the LP pool, vault, and configuration for the protocol.
#[derive(Clone, Copy, Debug)]
pub struct ClearingHouseState {
    /// Authority that can update config and pause
    pub authority: Pubkey,
    /// Authorized settler wallet
    pub settler: Pubkey,
    /// Vault PDA that holds SOL
    pub vault: Pubkey,
    /// LP token mint PDA
    pub lp_mint: Pubkey,
    /// LP mint authority PDA
    pub lp_authority: Pubkey,
    /// PDA bumps
    pub vault_bump: u8,
    pub lp_mint_bump: u8,
    pub lp_authority_bump: u8,
    /// Protocol paused flag
    pub paused: bool,
    /// House edge in basis points (max 1000 = 10%)
    pub fate_fee_bps: u16,
    /// Max bet as basis points of the net balance (max 500 = 5%)
    pub max_bet_bps: u16,
    /// Minimum bet in lamports
    pub min_bet: u64,
    /// Timeout in seconds (min 60)
    pub bet_timeout: i64,
    /// Tier-1 referrer reward in basis points (max 100 = 1%)
    pub referral_bps: u16,
    /// Tier-2 referrer reward in basis points (max 100 = 1%)
    pub tier2_referral_bps: u16,
    /// NFT holder rewards in basis points (max 100 = 1%)
    pub nft_reward_bps: u16,
    /// Platform fee in basis points (max 100 = 1%)
    pub platform_fee_bps: u16,
    /// Bonus pool in basis points (max 100 = 1%)
    pub bonus_bps: u16,
    /// Wallets for revenue split
    pub platform_wallet: Pubkey,
    pub bonus_wallet: Pubkey,
    pub nft_rewarder: Pubkey,
    /// Total potential payouts of pending orders
    pub total_liability: u64,
    /// Number of unsettled orders
    pub unsettled_count: u64,
    /// Lifetime total bets settled
    pub total_bets: u64,
    /// Lifetime filled (won) bets
    pub total_filled: u64,
    /// Lifetime not-filled (lost) bets
    pub total_not_filled: u64,
    /// Lifetime volume wagered (lamports)
    pub total_volume: u64,
    /// Cumulative house P&L (can be negative)
    pub house_profit: i64,
    /// Gross SOL paid out to winners
    pub total_payout: u64,
    /// Biggest single bet ever
    pub largest_bet: u64,
    /// Biggest single payout ever
    pub largest_payout: u64,
    /// Tier-1 and tier-2 referral rewards paid
    pub total_referral_paid: u64,
    /// NFT holder rewards paid
    pub total_nft_rewards_paid: u64,
    /// Platform fees paid
    pub total_platform_fees_paid: u64,
    /// Bonus pool contributions paid
    pub total_bonus_paid: u64,
    /// Lifetime SOL deposited by LPs
    pub total_deposited: u64,
    /// Lifetime SOL withdrawn by LPs
    pub total_withdrawn: u64,
    /// Number of LP deposits
    pub lp_deposits_count: u64,
    /// Number of LP withdrawals
    pub lp_withdrawals_count: u64,
    /// Reserved space for future fields
    pub _reserved: [u8; 104],
}

/// The all-zero 104-byte reserved area.
pub open spec fn zero_reserved_104() -> [u8; 104] {
    vstd::array::spec_array_fill_for_copy_type::<u8, 104>(0u8)
}

impl ClearingHouseState {
    /// Size of the account in bytes, including the 8-byte discriminator.
    pub const LEN: usize = 8 + 32 + 32 + 32 + 32 + 32 + 1 + 1 + 1 + 1 + 2 + 2 + 8 + 8 + 2 + 2 + 2
        + 2 + 2 + 32 + 32 + 32 + 8 + 8 + 8 + 8 + 8 + 8 + 8 + 8 + 8 + 8 + 8 + 8 + 8 + 8 + 8 + 8
        + 8 + 8 + 104;

    /// The account with every field zero.
    pub open spec fn zeroed() -> ClearingHouseState {
        ClearingHouseState {
            authority: zero_key(),
            settler: zero_key(),
            vault: zero_key(),
            lp_mint: zero_key(),
            lp_authority: zero_key(),
            vault_bump: 0,
            lp_mint_bump: 0,
            lp_authority_bump: 0,
            paused: false,
            fate_fee_bps: 0,
            max_bet_bps: 0,
            min_bet: 0,
            bet_timeout: 0,
            referral_bps: 0,
            tier2_referral_bps: 0,
            nft_reward_bps: 0,
            platform_fee_bps: 0,
            bonus_bps: 0,
            platform_wallet: zero_key(),
            bonus_wallet: zero_key(),
            nft_rewarder: zero_key(),
            total_liability: 0,
            unsettled_count: 0,
            total_bets: 0,
            total_filled: 0,
            total_not_filled: 0,
            total_volume: 0,
            house_profit: 0,
            total_payout: 0,
            largest_bet: 0,
            largest_payout: 0,
            total_referral_paid: 0,
            total_nft_rewards_paid: 0,
            total_platform_fees_paid: 0,
            total_bonus_paid: 0,
            total_deposited: 0,
            total_withdrawn: 0,
            lp_deposits_count: 0,
            lp_withdrawals_count: 0,
            _reserved: zero_reserved_104(),
        }
    }

    /// Sum of the five revenue-split rates, in basis points.
    pub open spec fn split_total(&self) -> int {
        self.referral_bps + self.tier2_referral_bps + self.nft_reward_bps + self.platform_fee_bps
            + self.bonus_bps
    }

    /// The configuration bounds that `initialize` and `update_config` enforce:
    /// house edge at most 10%, max bet at most 5% of the net balance, a
    /// positive minimum bet, a timeout of at least 60 seconds, each split rate
    /// at most 1% and the whole split at most 5%.
    pub open spec fn config_valid(&self) -> bool {
        &&& self.fate_fee_bps <= 1000
        &&& self.max_bet_bps <= 500
        &&& self.min_bet > 0
        &&& self.bet_timeout >= 60
        &&& self.referral_bps <= 100
        &&& self.tier2_referral_bps <= 100
        &&& self.nft_reward_bps <= 100
        &&& self.platform_fee_bps <= 100
        &&& self.bonus_bps <= 100
        &&& self.split_total() <= 500
    }

    /// Net balance available for betting: the vault's lamports less the
    /// vault's rent-exempt reserve and the total liability, saturating at zero.
    pub fn net_balance(&self, vault_lamports: u64, rent_exempt: u64) -> (r: u64)
        ensures
            r == available_balance(vault_lamports as int, rent_exempt as int, self.total_liability as int),
    {
        available_liquidity(vault_lamports, rent_exempt, self.total_liability)
    }
}

impl Default for ClearingHouseState {
    fn default() -> (s: ClearingHouseState)
        ensures
            s == ClearingHouseState::zeroed(),
    {
        ClearingHouseState {
            authority: Pubkey::zero(),
            settler: Pubkey::zero(),
            vault: Pubkey::zero(),
            lp_mint: Pubkey::zero(),
            lp_authority: Pubkey::zero(),
            vault_bump: 0,
            lp_mint_bump: 0,
            lp_authority_bump: 0,
            paused: false,
            fate_fee_bps: 0,
            max_bet_bps: 0,
            min_bet: 0,
            bet_timeout: 0,
            referral_bps: 0,
            tier2_referral_bps: 0,
            nft_reward_bps: 0,
            platform_fee_bps: 0,
            bonus_bps: 0,
            platform_wallet: Pubkey::zero(),
            bonus_wallet: Pubkey::zero(),
            nft_rewarder: Pubkey::zero(),
            total_liability: 0,
            unsettled_count: 0,
            total_bets: 0,
            total_filled: 0,
            total_not_filled: 0,
            total_volume: 0,
            house_profit: 0,
            total_payout: 0,
            largest_bet: 0,
            largest_payout: 0,
            total_referral_paid: 0,
            total_nft_rewards_paid: 0,
            total_platform_fees_paid: 0,
            total_bonus_paid: 0,
            total_deposited: 0,
            total_withdrawn: 0,
            lp_deposits_count: 0,
            lp_withdrawals_count: 0,
            _reserved: [0u8; 104],
        }
    }
}

} // verus!
