//! Creating the clearing house.

use vstd::prelude::*;
use crate::errors::FateSwapError;
use crate::events::ClearingHouseInitialized;
use crate::pubkey::Pubkey;
use crate::state::ClearingHouseState;
use crate::state::clearing_house::zero_reserved_104;

verus! {

/// What `initialize` reads from the instruction's accounts: their addresses
/// and the bumps of the program-derived ones.
#[derive(Clone, Copy, Debug)]
pub struct Initialize {
    pub authority: Pubkey,
    pub settler: Pubkey,
    pub vault: Pubkey,
    pub lp_mint: Pubkey,
    pub lp_authority: Pubkey,
    pub platform_wallet: Pubkey,
    pub bonus_wallet: Pubkey,
    pub nft_rewarder: Pubkey,
    pub vault_bump: u8,
    pub lp_mint_bump: u8,
    pub lp_authority_bump: u8,
}

/// The accepted starting configuration: house edge at most 10%, max bet at
/// most 5%, a positive minimum bet and a timeout of at least 60 seconds.
pub open spec fn initial_config_valid(fate_fee_bps: u16, max_bet_bps: u16, min_bet: u64, bet_timeout: i64) -> bool {
    fate_fee_bps <= 1000 && max_bet_bps <= 500 && min_bet > 0 && bet_timeout >= 60
}

/// The new clearing house: the given accounts and configuration, unpaused,
/// no revenue split, and every statistic zero.
pub open spec fn initial_state(
    acc: Initialize,
    fate_fee_bps: u16,
    max_bet_bps: u16,
    min_bet: u64,
    bet_timeout: i64,
) -> ClearingHouseState {
    ClearingHouseState {
        authority: acc.authority,
        settler: acc.settler,
        vault: acc.vault,
        lp_mint: acc.lp_mint,
        lp_authority: acc.lp_authority,
        vault_bump: acc.vault_bump,
        lp_mint_bump: acc.lp_mint_bump,
        lp_authority_bump: acc.lp_authority_bump,
        paused: false,
        fate_fee_bps,
        max_bet_bps,
        min_bet,
        bet_timeout,
        referral_bps: 0,
        tier2_referral_bps: 0,
        nft_reward_bps: 0,
        platform_fee_bps: 0,
        bonus_bps: 0,
        platform_wallet: acc.platform_wallet,
        bonus_wallet: acc.bonus_wallet,
        nft_rewarder: acc.nft_rewarder,
        total_liability: 0,
        unsettled_count: 0,
        total_bets: 0,
        total_filled: 0,
        total_not_filled: 0,
        total_volume: 0,
        house_profit: 0,
        total_payout: 0,
        largest_bet: 0,
        largest_payout: 0,
        total_referral_paid: 0,
        total_nft_rewards_paid: 0,
        total_platform_fees_paid: 0,
        total_bonus_paid: 0,
        total_deposited: 0,
        total_withdrawn: 0,
        lp_deposits_count: 0,
        lp_withdrawals_count: 0,
        _reserved: zero_reserved_104(),
    }
}

/// Initializes the clearing house with the given configuration, refusing
/// with `InvalidConfig` when it is out of bounds (then nothing changes).
pub fn handler(
    clearing_house: &mut ClearingHouseState,
    accounts: &Initialize,
    fate_fee_bps: u16,
    max_bet_bps: u16,
    min_bet: u64,
    bet_timeout: i64,
    now: i64,
) -> (r: Result<ClearingHouseInitialized, FateSwapError>)
    ensures
        if initial_config_valid(fate_fee_bps, max_bet_bps, min_bet, bet_timeout) {
            &&& *final(clearing_house) == initial_state(*accounts, fate_fee_bps, max_bet_bps, min_bet, bet_timeout)
            &&& r == Ok::<ClearingHouseInitialized, FateSwapError>(
                ClearingHouseInitialized {
                    authority: accounts.authority,
                    settler: accounts.settler,
                    vault: accounts.vault,
                    lp_mint: accounts.lp_mint,
                    fate_fee_bps,
                    max_bet_bps,
                    min_bet,
                    bet_timeout,
                    platform_wallet: accounts.platform_wallet,
                    bonus_wallet: accounts.bonus_wallet,
                    nft_rewarder: accounts.nft_rewarder,
                    timestamp: now,
                },
            )
        } else {
            &&& r == Err::<ClearingHouseInitialized, FateSwapError>(FateSwapError::InvalidConfig)
            &&& *final(clearing_house) == *old(clearing_house)
        },
{
    if fate_fee_bps > 1000 || max_bet_bps > 500 || min_bet == 0 || bet_timeout < 60 {
        return Err(FateSwapError::InvalidConfig);
    }
    *clearing_house = ClearingHouseState {
        authority: accounts.authority,
        settler: accounts.settler,
        vault: accounts.vault,
        lp_mint: accounts.lp_mint,
        lp_authority: accounts.lp_authority,
        vault_bump: accounts.vault_bump,
        lp_mint_bump: accounts.lp_mint_bump,
        lp_authority_bump: accounts.lp_authority_bump,
        paused: false,
        fate_fee_bps,
        max_bet_bps,
        min_bet,
        bet_timeout,
        referral_bps: 0,
        tier2_referral_bps: 0,
        nft_reward_bps: 0,
        platform_fee_bps: 0,
        bonus_bps: 0,
        platform_wallet: accounts.platform_wallet,
        bonus_wallet: accounts.bonus_wallet,
        nft_rewarder: accounts.nft_rewarder,
        total_liability: 0,
        unsettled_count: 0,
        total_bets: 0,
        total_filled: 0,
        total_not_filled: 0,
        total_volume: 0,
        house_profit: 0,
        total_payout: 0,
        largest_bet: 0,
        largest_payout: 0,
        total_referral_paid: 0,
        total_nft_rewards_paid: 0,
        total_platform_fees_paid: 0,
        total_bonus_paid: 0,
        total_deposited: 0,
        total_withdrawn: 0,
        lp_deposits_count: 0,
        lp_withdrawals_count: 0,
        _reserved: [0u8; 104],
    };
    Ok(
        ClearingHouseInitialized {
            authority: accounts.authority,
            settler: accounts.settler,
            vault: accounts.vault,
            lp_mint: accounts.lp_mint,
            fate_fee_bps,
            max_bet_bps,
            min_bet,
            bet_timeout,
            platform_wallet: accounts.platform_wallet,
            bonus_wallet: accounts.bonus_wallet,
            nft_rewarder: accounts.nft_rewarder,
            timestamp: now,
        },
    )
}

} // verus!
