use fateswap::pubkey::{bytes_eq, bytes_is_zero, Pubkey};
use fateswap::state::{ClearingHouseState, FateOrder, FateOrderStatus, PlayerState, ReferralState};

#[test]
fn test_clearing_house_size() {
    assert_eq!(ClearingHouseState::LEN, 546);
}

#[test]
fn test_fate_order_size() {
    assert_eq!(FateOrder::LEN, 195);
}

#[test]
fn test_player_state_size() {
    assert_eq!(PlayerState::LEN, 249);
}

#[test]
fn test_referral_state_size() {
    assert_eq!(ReferralState::LEN, 80);
}

#[test]
fn defaults_are_zero() {
    let ch = ClearingHouseState::default();
    assert!(ch.authority.is_zero());
    assert!(!ch.paused);
    assert_eq!(ch.total_liability, 0);
    assert_eq!(ch.house_profit, 0);
    assert_eq!(ch._reserved, [0u8; 104]);
    let o = FateOrder::default();
    assert_eq!(o.status, FateOrderStatus::Pending);
    assert_eq!(FateOrderStatus::default(), FateOrderStatus::Pending);
    assert_eq!(o.commitment_hash, [0u8; 32]);
    let p = PlayerState::default();
    assert!(!p.has_active_order);
    assert!(p.referrer.is_zero());
    let r = ReferralState::default();
    assert_eq!(r.total_referrals, 0);
    assert_eq!(Pubkey::default(), Pubkey::zero());
}

#[test]
fn key_comparison() {
    let a = Pubkey::new_from_array([3u8; 32]);
    let mut bytes = [3u8; 32];
    assert!(a.equals(&Pubkey::new_from_array(bytes)));
    bytes[31] = 4;
    assert!(!a.equals(&Pubkey::new_from_array(bytes)));
    assert!(!a.is_zero());
    assert!(Pubkey::zero().is_zero());
    assert!(bytes_is_zero(&[0u8; 32]));
    let mut z = [0u8; 32];
    z[0] = 1;
    assert!(!bytes_is_zero(&z));
    assert!(bytes_eq(&z, &z));
}

#[test]
fn net_balance_of_clearing_house() {
    let mut ch = ClearingHouseState::default();
    ch.total_liability = 100;
    assert_eq!(ch.net_balance(1_000, 400), 500);
    assert_eq!(ch.net_balance(450, 400), 0);
    assert_eq!(ch.net_balance(100, 400), 0);
}
