use fateswap::errors::FateSwapError;
use fateswap::instructions::admin_set_referrer::{self, AdminSetReferrer};
use fateswap::instructions::deposit_sol::{self, DepositSol};
use fateswap::instructions::initialize::{self, Initialize};
use fateswap::instructions::pause;
use fateswap::instructions::place_fate_order::{self, PlaceFateOrder};
use fateswap::instructions::reclaim_expired_order::{self, ReclaimExpiredOrder};
use fateswap::instructions::set_referrer::{self, SetReferrer};
use fateswap::instructions::settle_fate_order::{self, RewardEvent, SettleFateOrder};
use fateswap::instructions::submit_commitment::{self, SubmitCommitment};
use fateswap::instructions::update_config;
use fateswap::instructions::update_lp_metadata;
use fateswap::instructions::update_settler;
use fateswap::instructions::withdraw_sol::{self, WithdrawSol};
use fateswap::instructions::Transfer;
use fateswap::pubkey::Pubkey;
use fateswap::state::{ClearingHouseState, FateOrder, FateOrderStatus, PlayerState, ReferralState};

const RENT: u64 = 890_880;

/// SHA-256 of 32 zero bytes.
const DIGEST_OF_ZERO_SEED: [u8; 32] = [
    0x66, 0x68, 0x7a, 0xad, 0xf8, 0x62, 0xbd, 0x77, 0x6c, 0x8f, 0xc1, 0x8b, 0x8e, 0x9f, 0x8e, 0x20,
    0x08, 0x97, 0x14, 0x85, 0x6e, 0xe2, 0x33, 0xb3, 0x90, 0x2a, 0x59, 0x1d, 0x0d, 0x5f, 0x29, 0x25,
];

fn key(b: u8) -> Pubkey {
    Pubkey::new_from_array([b; 32])
}

fn accounts() -> Initialize {
    Initialize {
        authority: key(1),
        settler: key(2),
        vault: key(3),
        lp_mint: key(4),
        lp_authority: key(5),
        platform_wallet: key(6),
        bonus_wallet: key(7),
        nft_rewarder: key(8),
        vault_bump: 250,
        lp_mint_bump: 251,
        lp_authority_bump: 252,
    }
}

fn clearing_house() -> ClearingHouseState {
    let mut ch = ClearingHouseState::default();
    initialize::handler(&mut ch, &accounts(), 100, 500, 1_000, 60, 1_000).unwrap();
    ch
}

fn configured_house() -> ClearingHouseState {
    let mut ch = clearing_house();
    update_config::handler(
        &mut ch, key(1), None, None, None, None, Some(50), Some(25), Some(20), Some(30), Some(10), None, None,
        None, 1_001,
    )
    .unwrap();
    ch
}

fn committed_player(ch: &ClearingHouseState, commitment: [u8; 32], nonce: u64) -> PlayerState {
    let mut ps = PlayerState::default();
    let acc = SubmitCommitment { settler: key(2), player: key(9), player_state_bump: 200 };
    submit_commitment::handler(ch, &mut ps, &acc, commitment, nonce, 1_002).unwrap();
    ps
}

fn place_accounts(vault: u64) -> PlaceFateOrder {
    PlaceFateOrder { player: key(9), fate_order: key(10), fate_order_bump: 199, vault_lamports: vault, rent_exempt: RENT }
}

fn settle_accounts(tier1: Option<Pubkey>, tier2: Option<Pubkey>) -> SettleFateOrder {
    SettleFateOrder {
        player: key(9),
        order: key(10),
        settler: key(2),
        tier1_referrer: tier1,
        tier2_referrer: tier2,
        nft_rewarder: key(8),
        platform_wallet: key(6),
        bonus_wallet: key(7),
    }
}

/// A clearing house, player and order placed at 2x for 10,000,000 lamports
/// at time 2,000, with the vault holding 1 SOL above rent.
fn placed() -> (ClearingHouseState, PlayerState, FateOrder) {
    let mut ch = configured_house();
    let mut ps = committed_player(&ch, DIGEST_OF_ZERO_SEED, 0);
    let mut order = FateOrder::default();
    place_fate_order::handler(
        &mut ch, &mut ps, &mut order, &place_accounts(RENT + 1_000_000_000), 0, 10_000_000, 200_000, key(11), 5,
        2_000,
    )
    .unwrap();
    (ch, ps, order)
}

#[test]
fn initialize_sets_everything() {
    let ch = clearing_house();
    assert_eq!(ch.authority, key(1));
    assert_eq!(ch.settler, key(2));
    assert_eq!(ch.vault_bump, 250);
    assert_eq!(ch.fate_fee_bps, 100);
    assert_eq!(ch.min_bet, 1_000);
    assert_eq!(ch.bet_timeout, 60);
    assert_eq!(ch.referral_bps, 0);
    assert!(!ch.paused);
    assert_eq!(ch.nft_rewarder, key(8));
}

#[test]
fn initialize_rejects_bad_config() {
    for (fee, max, min, timeout) in [(1001u16, 500u16, 1u64, 60i64), (0, 501, 1, 60), (0, 0, 0, 60), (0, 0, 1, 59)] {
        let mut ch = ClearingHouseState::default();
        let before = ch;
        assert_eq!(
            initialize::handler(&mut ch, &accounts(), fee, max, min, timeout, 0),
            Err(FateSwapError::InvalidConfig)
        );
        assert_eq!(ch.authority, before.authority);
    }
    let mut ch = ClearingHouseState::default();
    let ev = initialize::handler(&mut ch, &accounts(), 1000, 500, 1, 60, 77).unwrap();
    assert_eq!(ev.timestamp, 77);
    assert_eq!(ev.lp_mint, key(4));
}

#[test]
fn deposit_first_and_proportional() {
    let mut ch = clearing_house();
    let acc = DepositSol { depositor: key(12), vault_lamports: RENT, lp_supply: 0, rent_exempt: RENT };
    assert_eq!(deposit_sol::handler(&mut ch, &acc, 10_000), Err(FateSwapError::DepositTooSmall));
    assert_eq!(deposit_sol::handler(&mut ch, &acc, 1_000_000), Ok(990_000));
    assert_eq!(ch.total_deposited, 1_000_000);
    assert_eq!(ch.lp_deposits_count, 1);
    // pool of 1,000,000 lamports backing 990,000 LP tokens
    let acc = DepositSol { depositor: key(13), vault_lamports: RENT + 1_000_000, lp_supply: 990_000, rent_exempt: RENT };
    // the pricing supply counts the 10,000 burned tokens: 500,000 * 1,000,000 / 1,000,000
    assert_eq!(deposit_sol::handler(&mut ch, &acc, 500_000), Ok(500_000));
    let rich = DepositSol { depositor: key(13), vault_lamports: RENT + 1_000_000_000, lp_supply: 990_000, rent_exempt: RENT };
    assert_eq!(deposit_sol::handler(&mut ch, &rich, 999), Err(FateSwapError::DepositTooSmall));
    assert_eq!(deposit_sol::handler(&mut ch, &acc, 0), Err(FateSwapError::ZeroAmount));
    // no backing balance with LP outstanding: division by zero
    let empty = DepositSol { depositor: key(13), vault_lamports: RENT, lp_supply: 5, rent_exempt: RENT };
    assert_eq!(deposit_sol::handler(&mut ch, &empty, 500_000), Err(FateSwapError::MathOverflow));
    assert_eq!(ch.total_deposited, 1_500_000);
    assert_eq!(ch.lp_deposits_count, 2);
}

#[test]
fn deposit_and_withdraw_refused_when_paused() {
    let mut ch = clearing_house();
    pause::handler(&mut ch, key(1), true, 5);
    let acc = DepositSol { depositor: key(12), vault_lamports: RENT, lp_supply: 0, rent_exempt: RENT };
    assert_eq!(deposit_sol::handler(&mut ch, &acc, 1_000_000), Err(FateSwapError::Paused));
    let wacc = WithdrawSol { withdrawer: key(12), vault_lamports: RENT + 1_000, lp_supply: 1_000, rent_exempt: RENT };
    assert_eq!(withdraw_sol::handler(&mut ch, &wacc, 10), Err(FateSwapError::Paused));
    assert_eq!(ch.total_deposited, 0);
}

#[test]
fn withdraw_pays_share_of_available_liquidity() {
    let mut ch = clearing_house();
    ch.total_liability = 100_000;
    let wacc = WithdrawSol {
        withdrawer: key(12),
        vault_lamports: RENT + 1_100_000,
        lp_supply: 2_000_000,
        rent_exempt: RENT,
    };
    // available = 1,000,000; 500,000 of 2,000,000 LP plus 10,000 burned → 248,756
    assert_eq!(withdraw_sol::handler(&mut ch, &wacc, 500_000), Ok(248_756));
    assert_eq!(ch.total_withdrawn, 248_756);
    assert_eq!(ch.lp_withdrawals_count, 1);
    assert_eq!(withdraw_sol::handler(&mut ch, &wacc, 0), Err(FateSwapError::ZeroAmount));
    assert_eq!(withdraw_sol::handler(&mut ch, &wacc, 1), Err(FateSwapError::WithdrawTooSmall));
    // more LP than the supply would pay more than is available
    assert_eq!(withdraw_sol::handler(&mut ch, &wacc, 4_000_000), Err(FateSwapError::InsufficientLiquidity));
    let nosupply = WithdrawSol { lp_supply: 0, ..wacc };
    assert_eq!(withdraw_sol::handler(&mut ch, &nosupply, 5), Err(FateSwapError::MathOverflow));
    assert_eq!(ch.total_withdrawn, 248_756);
}

#[test]
fn minimum_liquidity_stays_locked() {
    let mut ch = clearing_house();
    let acc = DepositSol { depositor: key(12), vault_lamports: RENT, lp_supply: 0, rent_exempt: RENT };
    let minted = deposit_sol::handler(&mut ch, &acc, 1_000_000).unwrap();
    assert_eq!(minted, 990_000);
    // withdrawing every circulating token leaves the burned share in the vault
    let wacc = WithdrawSol { withdrawer: key(12), vault_lamports: RENT + 1_000_000, lp_supply: minted, rent_exempt: RENT };
    assert_eq!(withdraw_sol::handler(&mut ch, &wacc, minted), Ok(990_000));
    // in several steps the total is no more
    let mut vault = RENT + 1_000_000;
    let mut supply = minted;
    let mut paid = 0u64;
    for lp in [330_000u64, 330_000, 330_000] {
        let w = WithdrawSol { withdrawer: key(12), vault_lamports: vault, lp_supply: supply, rent_exempt: RENT };
        let sol = withdraw_sol::handler(&mut ch, &w, lp).unwrap();
        vault -= sol;
        supply -= lp;
        paid += sol;
    }
    assert!(paid <= 1_000_000 - 10_000);
    assert!(vault - RENT >= 10_000);
}

#[test]
fn deposit_then_withdraw_returns_at_most_the_deposit() {
    let mut ch = clearing_house();
    let vault = RENT + 1_000_003;
    let supply = 999_999;
    let acc = DepositSol { depositor: key(12), vault_lamports: vault, lp_supply: supply, rent_exempt: RENT };
    let minted = deposit_sol::handler(&mut ch, &acc, 333_333).unwrap();
    let wacc = WithdrawSol {
        withdrawer: key(12),
        vault_lamports: vault + 333_333,
        lp_supply: supply + minted,
        rent_exempt: RENT,
    };
    let back = withdraw_sol::handler(&mut ch, &wacc, minted).unwrap();
    assert!(back <= 333_333);
    assert_eq!(minted, 336_664);
    assert_eq!(back, 333_332);
}

#[test]
fn submit_commitment_sets_pending() {
    let ch = clearing_house();
    let ps = committed_player(&ch, [5u8; 32], 7);
    assert_eq!(ps.player, key(9));
    assert_eq!(ps.bump, 200);
    assert_eq!(ps.pending_commitment, [5u8; 32]);
    assert_eq!(ps.pending_nonce, 7);
    let mut ps2 = ps;
    let wrong = SubmitCommitment { settler: key(3), player: key(9), player_state_bump: 1 };
    assert_eq!(
        submit_commitment::handler(&ch, &mut ps2, &wrong, [1u8; 32], 1, 0),
        Err(FateSwapError::UnauthorizedSettler)
    );
    let mut paused = ch;
    pause::handler(&mut paused, key(1), true, 0);
    let right = SubmitCommitment { settler: key(2), player: key(9), player_state_bump: 1 };
    assert_eq!(
        submit_commitment::handler(&paused, &mut ps2, &right, [1u8; 32], 1, 0),
        Err(FateSwapError::Paused)
    );
    assert_eq!(ps2.pending_commitment, [5u8; 32]);
    // an existing player state keeps its player and statistics
    ps2.total_orders = 3;
    let ev = submit_commitment::handler(&ch, &mut ps2, &right, [1u8; 32], 8, 9).unwrap();
    assert_eq!(ps2.total_orders, 3);
    assert_eq!(ps2.bump, 200);
    assert_eq!(ev.nonce, 8);
    assert_eq!(ev.player, key(9));
}

#[test]
fn place_fate_order_records_order() {
    let (ch, ps, order) = placed();
    assert_eq!(order.player, key(9));
    assert_eq!(order.amount, 10_000_000);
    assert_eq!(order.potential_payout, 20_000_000);
    assert_eq!(order.commitment_hash, DIGEST_OF_ZERO_SEED);
    assert_eq!(order.status, FateOrderStatus::Pending);
    assert_eq!(order.timestamp, 2_000);
    assert_eq!(order.bump, 199);
    assert_eq!(ch.total_liability, 20_000_000);
    assert_eq!(ch.unsettled_count, 1);
    assert_eq!(ch.largest_bet, 10_000_000);
    assert!(ps.has_active_order);
    assert_eq!(ps.active_order, key(10));
    assert_eq!(ps.nonce, 1);
    assert_eq!(ps.pending_commitment, [0u8; 32]);
}

#[test]
fn place_fate_order_errors() {
    let base = configured_house();
    let ps0 = committed_player(&base, DIGEST_OF_ZERO_SEED, 0);
    let acc = place_accounts(RENT + 1_000_000_000);
    let try_place = |ch: &ClearingHouseState, ps: &PlayerState, acc: &PlaceFateOrder, nonce: u64, amount: u64, m: u32| {
        let mut ch = *ch;
        let mut ps = *ps;
        let mut order = FateOrder::default();
        place_fate_order::handler(&mut ch, &mut ps, &mut order, acc, nonce, amount, m, key(11), 0, 0)
    };
    let mut paused = base;
    paused.paused = true;
    assert_eq!(try_place(&paused, &ps0, &acc, 0, 10_000, 200_000).unwrap_err(), FateSwapError::Paused);
    assert_eq!(try_place(&base, &ps0, &acc, 0, 10_000, 201_000).unwrap_err(), FateSwapError::InvalidMultiplier);
    assert_eq!(try_place(&base, &ps0, &acc, 1, 10_000, 200_000).unwrap_err(), FateSwapError::NonceMismatch);
    let mut nocommit = ps0;
    nocommit.pending_commitment = [0u8; 32];
    assert_eq!(try_place(&base, &nocommit, &acc, 0, 10_000, 200_000).unwrap_err(), FateSwapError::NoCommitment);
    let mut active = ps0;
    active.has_active_order = true;
    assert_eq!(try_place(&base, &active, &acc, 0, 10_000, 200_000).unwrap_err(), FateSwapError::ActiveOrderExists);
    assert_eq!(try_place(&base, &ps0, &acc, 0, 999, 200_000).unwrap_err(), FateSwapError::BetTooSmall);
    // 5% of 1 SOL at 2x is 50,000,000; at 10x it is 10,000,000
    assert!(try_place(&base, &ps0, &acc, 0, 50_000_000, 200_000).is_ok());
    assert_eq!(try_place(&base, &ps0, &acc, 0, 50_000_001, 200_000).unwrap_err(), FateSwapError::BetTooLarge);
    assert_eq!(try_place(&base, &ps0, &acc, 0, 10_000_001, 1_000_000).unwrap_err(), FateSwapError::BetTooLarge);
    // max bet 5% but payout larger than the net balance
    let mut wide = base;
    wide.max_bet_bps = 500;
    let small_vault = place_accounts(RENT + 100_000);
    assert_eq!(try_place(&wide, &ps0, &small_vault, 0, 1_000, 200_000).map(|e| e.potential_payout), Ok(2_000));
    let mut liable = base;
    liable.total_liability = 999_990_000;
    assert_eq!(
        try_place(&liable, &ps0, &acc, 0, 1_000, 200_000).unwrap_err(),
        FateSwapError::BetTooLarge
    );
    let mut full = base;
    full.max_bet_bps = 500;
    full.total_liability = 999_998_000;
    // net 2,000: max bet at 1.01x is 198; bet 1000 too large
    assert_eq!(try_place(&full, &ps0, &acc, 0, 1_000, 101_000).unwrap_err(), FateSwapError::BetTooLarge);
    let mut ps_overflow = ps0;
    ps_overflow.nonce = u64::MAX;
    assert_eq!(try_place(&base, &ps_overflow, &acc, 0, 10_000, 200_000).unwrap_err(), FateSwapError::MathOverflow);
}

#[test]
fn place_needs_vault_to_cover_payout() {
    let mut ch = configured_house();
    ch.min_bet = 1;
    let ps = committed_player(&ch, DIGEST_OF_ZERO_SEED, 0);
    // net balance 100: max bet at 1.01x is 100*500/10000*200000/101000 = 9; payout of 9 at 1.01x is 9
    let acc = place_accounts(RENT + 100);
    let mut order = FateOrder::default();
    let mut c = ch;
    let mut p = ps;
    let ev = place_fate_order::handler(&mut c, &mut p, &mut order, &acc, 0, 9, 101_000, key(11), 0, 0).unwrap();
    assert_eq!(ev.potential_payout, 9);
    assert_eq!(ev.order, key(10));
    // with max bet at 5% a payout above the net balance is impossible; an empty vault refuses any bet
    let mut c = ch;
    let mut p = ps;
    let empty = place_accounts(RENT);
    assert_eq!(
        place_fate_order::handler(&mut c, &mut p, &mut order, &empty, 0, 1, 101_000, key(11), 0, 0),
        Err(FateSwapError::BetTooLarge)
    );
    let mut c = ch;
    c.max_bet_bps = 0;
    let mut p = ps;
    assert_eq!(
        place_fate_order::handler(&mut c, &mut p, &mut order, &acc, 0, 1, 101_000, key(11), 0, 0),
        Err(FateSwapError::BetTooLarge)
    );
}

#[test]
fn place_refuses_payout_above_net_balance() {
    // only reachable with a max bet above the configured bound
    let mut ch = configured_house();
    ch.max_bet_bps = 10_000;
    let mut ps = committed_player(&ch, DIGEST_OF_ZERO_SEED, 0);
    let mut order = FateOrder::default();
    let acc = place_accounts(RENT + 1_000);
    let before = ch;
    assert_eq!(
        place_fate_order::handler(&mut ch, &mut ps, &mut order, &acc, 0, 1_000, 200_000, key(11), 0, 0),
        Err(FateSwapError::InsufficientVaultBalance)
    );
    assert_eq!(ch.total_liability, before.total_liability);
    assert_eq!(order.amount, 0);
}

#[test]
fn commitment_is_used_once() {
    let (mut ch, mut ps, _) = placed();
    ps.has_active_order = false;
    let mut order = FateOrder::default();
    assert_eq!(
        place_fate_order::handler(
            &mut ch, &mut ps, &mut order, &place_accounts(RENT + 1_000_000_000), 0, 10_000, 200_000, key(11), 0, 0
        ),
        Err(FateSwapError::NoCommitment)
    );
}

#[test]
fn settle_filled_pays_out() {
    let (mut ch, mut ps, mut order) = placed();
    let acc = settle_accounts(None, None);
    let plan = settle_fate_order::plan(&ch, &ps, &order, &acc, &None, &None, true, &[0u8; 32], 2_030).unwrap();
    assert_eq!(plan.payout, Some(Transfer { recipient: key(9), lamports: 20_000_000 }));
    assert_eq!(plan.nft_reward, None);
    let mut t1 = None;
    let mut t2 = None;
    let ev = settle_fate_order::handler(
        &mut ch, &mut ps, &mut t1, &mut t2, &mut order, &acc, true, [0u8; 32], false, false, 2_030,
    )
    .unwrap();
    assert_eq!(order.status, FateOrderStatus::Filled);
    assert!(ev.rewards.is_empty());
    assert_eq!(ev.settled.payout, 20_000_000);
    assert!(ev.settled.filled);
    assert_eq!(ev.settled.commitment_hash, DIGEST_OF_ZERO_SEED);
    assert_eq!(ch.total_liability, 0);
    assert_eq!(ch.unsettled_count, 0);
    assert_eq!(ch.total_bets, 1);
    assert_eq!(ch.total_filled, 1);
    assert_eq!(ch.total_volume, 10_000_000);
    assert_eq!(ch.house_profit, -10_000_000);
    assert_eq!(ch.total_payout, 20_000_000);
    assert_eq!(ch.largest_payout, 20_000_000);
    assert_eq!(ps.total_orders, 1);
    assert_eq!(ps.total_wagered, 10_000_000);
    assert_eq!(ps.total_won, 10_000_000);
    assert_eq!(ps.net_pnl, 10_000_000);
    assert!(!ps.has_active_order);
    assert!(ps.active_order.is_zero());
    // zero sum between house and player
    assert_eq!(ch.house_profit + ps.net_pnl, 0);
    // paid at most once
    let again = settle_fate_order::handler(
        &mut ch, &mut ps, &mut t1, &mut t2, &mut order, &acc, true, [0u8; 32], false, false, 2_031,
    );
    assert_eq!(again.map(|_| ()), Err(FateSwapError::OrderNotPending));
    assert_eq!(
        reclaim_expired_order::handler(&mut ch, &mut ps, &mut order, &ReclaimExpiredOrder { player: key(9), order: key(10) }, 9_999),
        Err(FateSwapError::OrderNotPending)
    );
}

#[test]
fn settle_not_filled_splits_revenue() {
    let (mut ch, mut ps, mut order) = placed();
    ps.referrer = key(20);
    ps.tier2_referrer = key(21);
    let acc = settle_accounts(Some(key(20)), Some(key(21)));
    let mut t1 = Some(ReferralState { referrer: key(20), ..ReferralState::default() });
    let mut t2 = Some(ReferralState { referrer: key(21), ..ReferralState::default() });
    let plan = settle_fate_order::plan(&ch, &ps, &order, &acc, &t1, &t2, false, &[0u8; 32], 2_060).unwrap();
    assert_eq!(plan.payout, None);
    assert_eq!(plan.tier1_reward, Some(Transfer { recipient: key(20), lamports: 50_000 }));
    assert_eq!(plan.tier2_reward, Some(Transfer { recipient: key(21), lamports: 25_000 }));
    assert_eq!(plan.nft_reward, Some(Transfer { recipient: key(8), lamports: 20_000 }));
    assert_eq!(plan.platform_fee, Some(Transfer { recipient: key(6), lamports: 30_000 }));
    assert_eq!(plan.bonus, Some(Transfer { recipient: key(7), lamports: 10_000 }));
    // the tier-2 transfer fails: it is reported, not credited
    let ev = settle_fate_order::handler(
        &mut ch, &mut ps, &mut t1, &mut t2, &mut order, &acc, false, [0u8; 32], true, false, 2_060,
    )
    .unwrap();
    assert_eq!(order.status, FateOrderStatus::NotFilled);
    assert_eq!(ev.rewards.len(), 5);
    match ev.rewards[0] {
        RewardEvent::Paid(p) => {
            assert_eq!(p.reward_type, 0);
            assert_eq!(p.amount, 50_000);
            assert_eq!(p.order, key(10));
        }
        _ => panic!("tier-1 reward should be paid"),
    }
    match ev.rewards[1] {
        RewardEvent::Failed(f) => assert_eq!((f.reward_type, f.amount), (1, 25_000)),
        _ => panic!("tier-2 reward should have failed"),
    }
    match ev.rewards[4] {
        RewardEvent::Paid(p) => assert_eq!((p.reward_type, p.recipient, p.amount), (4, key(7), 10_000)),
        _ => panic!("bonus should be paid"),
    }
    assert_eq!(t1.unwrap().total_earnings, 50_000);
    assert_eq!(t2.unwrap().total_earnings, 0);
    assert_eq!(ch.total_referral_paid, 50_000);
    assert_eq!(ch.total_nft_rewards_paid, 20_000);
    assert_eq!(ch.total_platform_fees_paid, 30_000);
    assert_eq!(ch.total_bonus_paid, 10_000);
    assert_eq!(ch.total_not_filled, 1);
    assert_eq!(ch.house_profit, 10_000_000);
    assert_eq!(ps.net_pnl, -10_000_000);
    assert_eq!(ps.total_won, 0);
    assert_eq!(ch.total_liability, 0);
    assert!(!ev.settled.filled);
    assert_eq!(ev.settled.payout, 0);
    // the split took at most 5% of the wager
    assert!(20 * (50_000 + 25_000 + 20_000 + 30_000 + 10_000) <= 10_000_000);
}

#[test]
fn referral_rewards_only_to_recorded_referrers() {
    let (ch, ps, order) = placed();
    // no referrer recorded: wallets and states passed earn nothing
    let acc = settle_accounts(Some(key(20)), Some(key(21)));
    let t1 = Some(ReferralState { referrer: key(20), ..ReferralState::default() });
    let t2 = Some(ReferralState { referrer: key(21), ..ReferralState::default() });
    let plan = settle_fate_order::plan(&ch, &ps, &order, &acc, &t1, &t2, false, &[0u8; 32], 2_001).unwrap();
    assert_eq!(plan.tier1_reward, None);
    assert_eq!(plan.tier2_reward, None);
    // a referral state that belongs to someone else is refused
    let mut with_ref = ps;
    with_ref.referrer = key(20);
    let other = Some(ReferralState { referrer: key(30), ..ReferralState::default() });
    assert_eq!(
        settle_fate_order::plan(&ch, &with_ref, &order, &settle_accounts(Some(key(20)), None), &other, &None, false, &[0u8; 32], 2_001),
        Err(FateSwapError::InvalidReferrer)
    );
    let mut with_ref2 = ps;
    with_ref2.tier2_referrer = key(21);
    assert_eq!(
        settle_fate_order::plan(&ch, &with_ref2, &order, &settle_accounts(None, Some(key(21))), &None, &other, false, &[0u8; 32], 2_001),
        Err(FateSwapError::InvalidReferrer)
    );
    // the recorded referrer with its own referral state is paid
    let plan = settle_fate_order::plan(&ch, &with_ref, &order, &settle_accounts(Some(key(20)), None), &t1, &None, false, &[0u8; 32], 2_001)
        .unwrap();
    assert_eq!(plan.tier1_reward, Some(Transfer { recipient: key(20), lamports: 50_000 }));
}

#[test]
fn settle_without_referral_state_skips_referral() {
    let (ch, ps, order) = placed();
    let acc = settle_accounts(Some(key(20)), None);
    let plan = settle_fate_order::plan(&ch, &ps, &order, &acc, &None, &None, false, &[0u8; 32], 2_001).unwrap();
    assert_eq!(plan.tier1_reward, None);
    assert_eq!(plan.tier2_reward, None);
    assert!(plan.nft_reward.is_some());
}

#[test]
fn settle_errors() {
    let (ch, ps, order) = placed();
    let acc = settle_accounts(None, None);
    let run = |ch: &ClearingHouseState, ps: &PlayerState, order: &FateOrder, acc: &SettleFateOrder, seed: [u8; 32], now: i64| {
        let mut ch = *ch;
        let mut ps = *ps;
        let mut order = *order;
        let before = (ch.total_liability, ps.has_active_order);
        let r = settle_fate_order::handler(&mut ch, &mut ps, &mut None, &mut None, &mut order, acc, false, seed, true, true, now)
            .map(|_| ());
        if r.is_err() {
            assert_eq!(before, (ch.total_liability, ps.has_active_order));
        }
        r
    };
    assert_eq!(run(&ch, &ps, &order, &SettleFateOrder { nft_rewarder: key(30), ..acc }, [0u8; 32], 2_001), Err(FateSwapError::InvalidNFTRewarder));
    assert_eq!(run(&ch, &ps, &order, &SettleFateOrder { platform_wallet: key(30), ..acc }, [0u8; 32], 2_001), Err(FateSwapError::InvalidPlatformWallet));
    assert_eq!(run(&ch, &ps, &order, &SettleFateOrder { bonus_wallet: key(30), ..acc }, [0u8; 32], 2_001), Err(FateSwapError::InvalidBonusWallet));
    assert_eq!(run(&ch, &ps, &order, &SettleFateOrder { settler: key(30), ..acc }, [0u8; 32], 2_001), Err(FateSwapError::UnauthorizedSettler));
    let mut done = order;
    done.status = FateOrderStatus::Filled;
    assert_eq!(run(&ch, &ps, &done, &acc, [0u8; 32], 2_001), Err(FateSwapError::OrderNotPending));
    // a seed that does not hash to the commitment (the commitment itself, say)
    assert_eq!(run(&ch, &ps, &order, &acc, DIGEST_OF_ZERO_SEED, 2_001), Err(FateSwapError::InvalidServerSeed));
    assert_eq!(run(&ch, &ps, &order, &acc, [7u8; 32], 2_001), Err(FateSwapError::InvalidServerSeed));
    assert_eq!(run(&ch, &ps, &order, &acc, [0u8; 32], 2_061), Err(FateSwapError::OrderExpired));
    assert_eq!(run(&ch, &ps, &order, &acc, [0u8; 32], 2_060), Ok(()));
    let mut old_order = order;
    old_order.timestamp = i64::MAX;
    assert_eq!(run(&ch, &ps, &old_order, &acc, [0u8; 32], -10), Err(FateSwapError::MathOverflow));
    let mut with_ref = ps;
    with_ref.referrer = key(20);
    assert_eq!(run(&ch, &with_ref, &order, &settle_accounts(Some(key(21)), None), [0u8; 32], 2_001), Err(FateSwapError::InvalidReferrer));
    assert_eq!(run(&ch, &with_ref, &order, &settle_accounts(Some(key(20)), None), [0u8; 32], 2_001), Ok(()));
    let mut with_ref2 = ps;
    with_ref2.tier2_referrer = key(21);
    assert_eq!(run(&ch, &with_ref2, &order, &settle_accounts(None, Some(key(22))), [0u8; 32], 2_001), Err(FateSwapError::InvalidReferrer));
    // no recorded referrer: any referrer wallet passes the check
    assert_eq!(run(&ch, &ps, &order, &settle_accounts(Some(key(23)), Some(key(24))), [0u8; 32], 2_001), Ok(()));
    let mut broke = ch;
    broke.total_liability = 0;
    assert_eq!(run(&broke, &ps, &order, &acc, [0u8; 32], 2_001), Err(FateSwapError::MathOverflow));
}

#[test]
fn reclaim_after_timeout_only() {
    let (ch, ps, order) = placed();
    let acc = ReclaimExpiredOrder { player: key(9), order: key(10) };
    let mut c = ch;
    let mut p = ps;
    assert_eq!(
        reclaim_expired_order::handler(&mut c, &mut p, &mut order.clone(), &acc, 2_060),
        Err(FateSwapError::OrderNotExpired)
    );
    assert_eq!(c.total_liability, 20_000_000);
    let mut reclaimed = order;
    let ev = reclaim_expired_order::handler(&mut c, &mut p, &mut reclaimed, &acc, 2_061).unwrap();
    assert_eq!(reclaimed.status, FateOrderStatus::Expired);
    assert_eq!(
        reclaim_expired_order::handler(&mut c, &mut p, &mut reclaimed, &acc, 2_062),
        Err(FateSwapError::OrderNotPending)
    );
    assert_eq!(ev.refund_amount, 10_000_000);
    assert_eq!(c.total_liability, 0);
    assert_eq!(c.unsettled_count, 0);
    assert_eq!(c.total_bets, 0);
    assert!(!p.has_active_order);
    // the same time cannot both settle and reclaim
    let s = settle_fate_order::plan(&ch, &ps, &order, &settle_accounts(None, None), &None, &None, true, &[0u8; 32], 2_061);
    assert_eq!(s, Err(FateSwapError::OrderExpired));
    let mut settled = order;
    settled.status = FateOrderStatus::NotFilled;
    let mut c = ch;
    let mut p = ps;
    assert_eq!(
        reclaim_expired_order::handler(&mut c, &mut p, &mut settled, &acc, 5_000),
        Err(FateSwapError::OrderNotPending)
    );
    let mut c = ch;
    c.unsettled_count = 0;
    assert_eq!(
        reclaim_expired_order::handler(&mut c, &mut p, &mut order.clone(), &acc, 5_000),
        Err(FateSwapError::MathOverflow)
    );
}

#[test]
fn set_referrer_once_with_tier2() {
    let mut ps = PlayerState::default();
    ps.player = key(9);
    let mut rs = ReferralState::default();
    let acc = SetReferrer { player: key(9), referral_state_bump: 33, referrer_player_state: Some(key(40)) };
    let ev = set_referrer::handler(&mut ps, &mut rs, &acc, key(41), 3).unwrap();
    assert_eq!(ps.referrer, key(41));
    assert_eq!(ps.tier2_referrer, key(40));
    assert_eq!(rs.referrer, key(41));
    assert_eq!(rs.total_referrals, 1);
    assert_eq!(rs.bump, 33);
    assert_eq!(ev.tier2_referrer, key(40));
    assert_eq!(set_referrer::handler(&mut ps, &mut rs, &acc, key(42), 4), Err(FateSwapError::ReferrerAlreadySet));
    assert_eq!(rs.total_referrals, 1);
    let mut fresh = PlayerState::default();
    assert_eq!(set_referrer::handler(&mut fresh, &mut rs, &acc, key(9), 4), Err(FateSwapError::SelfReferral));
    // an existing referral state keeps counting
    let acc2 = SetReferrer { player: key(50), referral_state_bump: 1, referrer_player_state: None };
    let mut other = PlayerState::default();
    set_referrer::handler(&mut other, &mut rs, &acc2, key(41), 5).unwrap();
    assert_eq!(rs.total_referrals, 2);
    assert_eq!(rs.bump, 33);
    assert!(other.tier2_referrer.is_zero());
    let mut full = ReferralState::default();
    full.referrer = key(41);
    full.total_referrals = u64::MAX;
    let mut p3 = PlayerState::default();
    assert_eq!(set_referrer::handler(&mut p3, &mut full, &acc2, key(41), 5), Err(FateSwapError::MathOverflow));
}

#[test]
fn set_referrer_blocks_circular_tier2() {
    let mut ps = PlayerState::default();
    let mut rs = ReferralState::default();
    // the referrer's referrer is the player
    let acc = SetReferrer { player: key(9), referral_state_bump: 1, referrer_player_state: Some(key(9)) };
    let ev = set_referrer::handler(&mut ps, &mut rs, &acc, key(41), 3).unwrap();
    assert!(ps.tier2_referrer.is_zero());
    assert!(ev.tier2_referrer.is_zero());
}

#[test]
fn admin_set_referrer_initializes_player() {
    let ch = clearing_house();
    let mut ps = PlayerState::default();
    let mut rs = ReferralState::default();
    let acc = AdminSetReferrer { settler: key(2), player_state_bump: 7, referral_state_bump: 8, referrer_player_state: Some(key(9)) };
    let ev = admin_set_referrer::handler(&ch, &mut ps, &mut rs, &acc, key(9), key(41), 3).unwrap();
    assert_eq!(ps.player, key(9));
    assert_eq!(ps.bump, 7);
    assert_eq!(ps.referrer, key(41));
    // like set_referrer, a circular tier-2 referrer is not recorded
    assert!(ps.tier2_referrer.is_zero());
    assert!(ev.tier2_referrer.is_zero());
    assert_eq!(ev.player, key(9));
    assert_eq!(rs.total_referrals, 1);
    assert_eq!(
        admin_set_referrer::handler(&ch, &mut ps, &mut rs, &acc, key(9), key(42), 3),
        Err(FateSwapError::ReferrerAlreadySet)
    );
    let bad = AdminSetReferrer { settler: key(3), ..acc };
    assert_eq!(
        admin_set_referrer::handler(&ch, &mut ps, &mut rs, &bad, key(9), key(42), 3),
        Err(FateSwapError::UnauthorizedSettler)
    );
    assert_eq!(
        admin_set_referrer::handler(&ch, &mut ps, &mut rs, &acc, key(42), key(42), 3),
        Err(FateSwapError::SelfReferral)
    );
}

#[test]
fn update_config_checks_bounds_and_split() {
    let mut ch = clearing_house();
    let events = update_config::handler(
        &mut ch, key(1), Some(200), Some(300), Some(5), Some(120), Some(100), Some(100), Some(100), Some(100),
        Some(100), Some(key(60)), None, Some(key(61)), 9,
    )
    .unwrap();
    assert_eq!(events.len(), 9);
    assert_eq!((events[0].field_id, events[0].old_value, events[0].new_value), (0, 100, 200));
    assert_eq!((events[3].field_id, events[3].old_value, events[3].new_value), (3, 60, 120));
    assert_eq!(events[8].timestamp, 9);
    assert_eq!(ch.platform_wallet, key(60));
    assert_eq!(ch.bonus_wallet, key(7));
    assert_eq!(ch.nft_rewarder, key(61));
    assert_eq!(ch.bet_timeout, 120);
    let before = ch;
    let none = update_config::handler(&mut ch, key(1), None, None, None, None, None, None, None, None, None, None, None, None, 9).unwrap();
    assert!(none.is_empty());
    // over a bound
    for r in [
        update_config::handler(&mut ch, key(1), Some(1001), None, None, None, None, None, None, None, None, None, None, None, 9),
        update_config::handler(&mut ch, key(1), None, Some(501), None, None, None, None, None, None, None, None, None, None, 9),
        update_config::handler(&mut ch, key(1), None, None, Some(0), None, None, None, None, None, None, None, None, None, 9),
        update_config::handler(&mut ch, key(1), None, None, None, Some(59), None, None, None, None, None, None, None, None, 9),
        update_config::handler(&mut ch, key(1), None, None, None, None, Some(101), None, None, None, None, None, None, None, 9),
        update_config::handler(&mut ch, key(1), Some(5), None, None, None, None, None, None, None, Some(101), Some(key(70)), None, None, 9),
    ] {
        assert_eq!(r, Err(FateSwapError::InvalidConfig));
    }
    assert_eq!(ch.fate_fee_bps, before.fate_fee_bps);
    assert_eq!(ch.platform_wallet, key(60));
    // the split together: 100 * 5 = 500 is the most; one more refuses
    let mut c2 = clearing_house();
    update_config::handler(&mut c2, key(1), None, None, None, None, Some(100), Some(100), Some(100), Some(100), Some(100), None, None, None, 0).unwrap();
    assert_eq!(
        c2.referral_bps + c2.tier2_referral_bps + c2.nft_reward_bps + c2.platform_fee_bps + c2.bonus_bps,
        500
    );
}

#[test]
fn pause_and_update_settler() {
    let mut ch = clearing_house();
    let ev = pause::handler(&mut ch, key(1), true, 12);
    assert!(ch.paused);
    assert!(ev.paused);
    assert_eq!(ev.timestamp, 12);
    pause::handler(&mut ch, key(1), false, 13);
    assert!(!ch.paused);
    let ev = update_settler::handler(&mut ch, key(1), key(90), 14);
    assert_eq!(ch.settler, key(90));
    assert_eq!(ev.old_settler, key(2));
    assert_eq!(ev.new_settler, key(90));
}

#[test]
fn lp_metadata_instruction_data() {
    let data = update_lp_metadata::handler("fSOL".to_string(), "FSOL".to_string(), "https://x.io/a.json".to_string()).unwrap();
    let mut expected = vec![15u8, 1];
    for s in ["fSOL", "FSOL", "https://x.io/a.json"] {
        expected.extend_from_slice(&(s.len() as u32).to_le_bytes());
        expected.extend_from_slice(s.as_bytes());
    }
    expected.extend_from_slice(&[0, 0, 0, 0, 0, 0, 0, 1, 1]);
    assert_eq!(data, expected);
    assert_eq!(
        update_lp_metadata::handler("x".repeat(33), "S".to_string(), "u".to_string()),
        Err(FateSwapError::InvalidConfig)
    );
    assert_eq!(
        update_lp_metadata::handler("n".to_string(), "s".repeat(11), "u".to_string()),
        Err(FateSwapError::InvalidConfig)
    );
    assert_eq!(
        update_lp_metadata::handler("n".to_string(), "s".to_string(), "u".repeat(201)),
        Err(FateSwapError::InvalidConfig)
    );
    assert!(update_lp_metadata::handler("é".repeat(16), "s".to_string(), "u".repeat(200)).is_ok());
    assert_eq!(
        update_lp_metadata::handler("é".repeat(17), "s".to_string(), "u".to_string()),
        Err(FateSwapError::InvalidConfig)
    );
}

#[test]
fn vault_keeps_covering_pending_payouts() {
    let vault_before = RENT + 1_000_000_000;
    let (ch, ps, order) = placed();
    // after the wager arrives the vault covers rent and the new liability
    let vault = vault_before + order.amount;
    assert!(vault >= RENT + ch.total_liability);
    assert!(order.potential_payout >= order.amount);
    // not filled: the split leaves far less than the released payout
    let mut c = ch;
    let mut p = ps;
    let acc = settle_accounts(None, None);
    let plan = settle_fate_order::plan(&c, &p, &order, &acc, &None, &None, false, &[0u8; 32], 2_010).unwrap();
    let outflow: u64 = [plan.nft_reward, plan.platform_fee, plan.bonus].iter().flatten().map(|t| t.lamports).sum();
    settle_fate_order::handler(&mut c, &mut p, &mut None, &mut None, &mut order.clone(), &acc, false, [0u8; 32], false, false, 2_010)
        .unwrap();
    assert!(vault - outflow >= RENT + c.total_liability);
    // reclaim: the refund is below the released payout
    let mut c = ch;
    let mut p = ps;
    let ev = reclaim_expired_order::handler(&mut c, &mut p, &mut order.clone(), &ReclaimExpiredOrder { player: key(9), order: key(10) }, 3_000)
        .unwrap();
    assert!(vault - ev.refund_amount >= RENT + c.total_liability);
}

#[test]
fn liability_is_sum_of_pending_payouts() {
    let (mut ch, mut ps, first) = placed();
    // a second player's order
    let mut ps2 = committed_player(&ch, [9u8; 32], 4);
    let mut second = FateOrder::default();
    let acc2 = PlaceFateOrder { player: key(14), fate_order: key(15), ..place_accounts(RENT + 1_010_000_000) };
    place_fate_order::handler(&mut ch, &mut ps2, &mut second, &acc2, 4, 3_000_000, 1_000_000, key(11), 0, 2_005).unwrap();
    assert_eq!(ch.total_liability, first.potential_payout + second.potential_payout);
    assert_eq!(ch.unsettled_count, 2);
    let acc = settle_accounts(None, None);
    settle_fate_order::handler(&mut ch, &mut ps, &mut None, &mut None, &mut first.clone(), &acc, true, [0u8; 32], false, false, 2_010)
        .unwrap();
    assert_eq!(ch.total_liability, second.potential_payout);
    assert_eq!(ch.unsettled_count, 1);
    reclaim_expired_order::handler(&mut ch, &mut ps2, &mut second.clone(), &ReclaimExpiredOrder { player: key(14), order: key(15) }, 2_100)
        .unwrap();
    assert_eq!(ch.total_liability, 0);
    assert_eq!(ch.unsettled_count, 0);
}

#[test]
fn each_order_needs_its_own_commitment() {
    let (mut ch, mut ps, mut order) = placed();
    let acc = settle_accounts(None, None);
    settle_fate_order::handler(&mut ch, &mut ps, &mut None, &mut None, &mut order, &acc, false, [0u8; 32], false, false, 2_010)
        .unwrap();
    // settled, no active order, but the commitment was used up
    assert!(!ps.has_active_order);
    let mut next = FateOrder::default();
    assert_eq!(
        place_fate_order::handler(&mut ch, &mut ps, &mut next, &place_accounts(RENT + 1_000_000_000), 0, 10_000, 200_000, key(11), 0, 2_020),
        Err(FateSwapError::NoCommitment)
    );
    // a new commitment for the next nonce allows the next order
    let commit = SubmitCommitment { settler: key(2), player: key(9), player_state_bump: 200 };
    submit_commitment::handler(&ch, &mut ps, &commit, [4u8; 32], 1, 2_030).unwrap();
    assert!(place_fate_order::handler(&mut ch, &mut ps, &mut next, &place_accounts(RENT + 1_000_000_000), 1, 10_000, 200_000, key(11), 0, 2_040).is_ok());
    assert_eq!(next.commitment_hash, [4u8; 32]);
}

#[test]
fn referrer_stays_set_across_instructions() {
    let ch = clearing_house();
    let mut ps = committed_player(&ch, [5u8; 32], 0);
    let mut rs = ReferralState::default();
    let acc = SetReferrer { player: key(9), referral_state_bump: 1, referrer_player_state: None };
    set_referrer::handler(&mut ps, &mut rs, &acc, key(41), 3).unwrap();
    let commit = SubmitCommitment { settler: key(2), player: key(9), player_state_bump: 200 };
    submit_commitment::handler(&ch, &mut ps, &commit, [6u8; 32], 1, 4).unwrap();
    assert_eq!(ps.referrer, key(41));
    let admin = AdminSetReferrer { settler: key(2), player_state_bump: 7, referral_state_bump: 8, referrer_player_state: None };
    assert_eq!(
        admin_set_referrer::handler(&ch, &mut ps, &mut rs, &admin, key(9), key(42), 5),
        Err(FateSwapError::ReferrerAlreadySet)
    );
    assert_eq!(set_referrer::handler(&mut ps, &mut rs, &acc, key(43), 6), Err(FateSwapError::ReferrerAlreadySet));
    assert_eq!(ps.referrer, key(41));
}
