//! Settling a pending order: the payout when it is filled, the five-way
//! revenue split when it is not.

use vstd::prelude::*;
use crate::errors::FateSwapError;
use crate::events::{FateOrderSettled, RewardFailed, RewardPaid};
use crate::instructions::Transfer;
use crate::math::{bps_share, sat_add, u64_as_i64, wrap_i64};
use crate::pubkey::{bytes_eq, zero_key, Pubkey};
use crate::state::{ClearingHouseState, FateOrder, FateOrderStatus, PlayerState, ReferralState};

verus! {

/// The SHA-256 digest of a byte string.
pub uninterp spec fn sha256_digest(data: Seq<u8>) -> Seq<u8>;

/// SHA-256 of the revealed server seed, computed by the runtime's
/// `solana_program::hash::hashv` over the single slice `seed`. The contract
/// names the digest and claims nothing else of it.
#[verifier::external_body]
fn hash_server_seed(seed: &[u8; 32]) -> (digest: [u8; 32])
    ensures
        digest@ == sha256_digest(seed@),
{
    anchor_lang::solana_program::hash::hashv(&[seed.as_slice()]).to_bytes()
}

/// What settlement reads from the instruction's accounts, besides the
/// clearing house, the player state and the order.
#[derive(Clone, Copy, Debug)]
pub struct SettleFateOrder {
    /// The player's wallet (the order's owner)
    pub player: Pubkey,
    /// Address of the order account
    pub order: Pubkey,
    /// The signer
    pub settler: Pubkey,
    /// Tier-1 referrer wallet, when passed
    pub tier1_referrer: Option<Pubkey>,
    /// Tier-2 referrer wallet, when passed
    pub tier2_referrer: Option<Pubkey>,
    /// NFT rewarder account passed
    pub nft_rewarder: Pubkey,
    /// Platform wallet passed
    pub platform_wallet: Pubkey,
    /// Bonus wallet passed
    pub bonus_wallet: Pubkey,
}

/// The lamports a settlement moves out of the vault. The payout and the
/// NFT, platform and bonus transfers must succeed; the two referral rewards
/// are best effort.
#[derive(Clone, Copy, Debug, PartialEq, Eq)]
pub struct SettlementPlan {
    pub filled: bool,
    pub payout: Option<Transfer>,
    pub tier1_reward: Option<Transfer>,
    pub tier2_reward: Option<Transfer>,
    pub nft_reward: Option<Transfer>,
    pub platform_fee: Option<Transfer>,
    pub bonus: Option<Transfer>,
}

/// A reward event of a settlement.
#[derive(Clone, Copy, Debug, PartialEq, Eq)]
pub enum RewardEvent {
    Paid(RewardPaid),
    Failed(RewardFailed),
}

/// The events of a settlement, in the order they are emitted.
#[derive(Debug)]
pub struct SettlementEvents {
    pub rewards: Vec<RewardEvent>,
    pub settled: FateOrderSettled,
}

/// A passed referrer wallet must match the one recorded for the player,
/// unless none is recorded.
pub open spec fn referrer_matches(passed: Option<Pubkey>, recorded: Pubkey) -> bool {
    match passed {
        None => true,
        Some(k) => recorded == zero_key() || k == recorded,
    }
}

/// A passed referral state must belong to the passed referrer wallet when
/// the player has a referrer recorded.
pub open spec fn referral_state_matches(
    passed: Option<Pubkey>,
    state: Option<ReferralState>,
    recorded: Pubkey,
) -> bool {
    match (passed, state) {
        (Some(k), Some(rs)) => recorded == zero_key() || rs.referrer == k,
        _ => true,
    }
}

/// A referral reward applies when the player has a referrer recorded and
/// both its wallet and its referral state are passed (the checks have
/// already matched them to the recorded referrer).
pub open spec fn referral_reward_applies(passed: Option<Pubkey>, state: Option<ReferralState>, recorded: Pubkey) -> bool {
    passed is Some && state is Some && recorded != zero_key()
}

/// One reward of the split: `amount * bps / 10000` to `recipient`, when the
/// reward applies (`active`), its rate is positive and the amount is positive.
pub open spec fn reward_transfer(active: bool, amount: u64, bps: u16, recipient: Pubkey) -> Result<
    Option<Transfer>,
    FateSwapError,
> {
    if !active || bps == 0 {
        Ok(None)
    } else if amount * bps > u64::MAX {
        Err(FateSwapError::MathOverflow)
    } else if amount * bps / 10_000 == 0 {
        Ok(None)
    } else {
        Ok(Some(Transfer { recipient, lamports: (amount * bps / 10_000) as u64 }))
    }
}

/// The checks settlement makes before it moves any lamports, in order.
pub open spec fn settlement_check(
    ch: ClearingHouseState,
    ps: PlayerState,
    order: FateOrder,
    acc: SettleFateOrder,
    tier1_state: Option<ReferralState>,
    tier2_state: Option<ReferralState>,
    digest: Seq<u8>,
    now: i64,
) -> Option<FateSwapError> {
    if acc.nft_rewarder != ch.nft_rewarder {
        Some(FateSwapError::InvalidNFTRewarder)
    } else if acc.platform_wallet != ch.platform_wallet {
        Some(FateSwapError::InvalidPlatformWallet)
    } else if acc.bonus_wallet != ch.bonus_wallet {
        Some(FateSwapError::InvalidBonusWallet)
    } else if acc.settler != ch.settler {
        Some(FateSwapError::UnauthorizedSettler)
    } else if order.status != FateOrderStatus::Pending {
        Some(FateSwapError::OrderNotPending)
    } else if digest != order.commitment_hash@ {
        Some(FateSwapError::InvalidServerSeed)
    } else if now - order.timestamp < i64::MIN || now - order.timestamp > i64::MAX {
        Some(FateSwapError::MathOverflow)
    } else if now - order.timestamp > ch.bet_timeout {
        Some(FateSwapError::OrderExpired)
    } else if !referrer_matches(acc.tier1_referrer, ps.referrer) {
        Some(FateSwapError::InvalidReferrer)
    } else if !referrer_matches(acc.tier2_referrer, ps.tier2_referrer) {
        Some(FateSwapError::InvalidReferrer)
    } else if !referral_state_matches(acc.tier1_referrer, tier1_state, ps.referrer) {
        Some(FateSwapError::InvalidReferrer)
    } else if !referral_state_matches(acc.tier2_referrer, tier2_state, ps.tier2_referrer) {
        Some(FateSwapError::InvalidReferrer)
    } else {
        None
    }
}

/// The transfers of a settlement, once its checks pass: the potential payout
/// to the player when filled; otherwise the tier-1 and tier-2 referral
/// rewards (to the player's recorded referrers, when their wallets and
/// referral states are passed), the NFT reward, the platform fee and the
/// bonus, each at its rate in basis points of the wagered amount.
pub open spec fn settlement_transfers(
    ch: ClearingHouseState,
    ps: PlayerState,
    order: FateOrder,
    acc: SettleFateOrder,
    tier1_state: Option<ReferralState>,
    tier2_state: Option<ReferralState>,
    filled: bool,
) -> Result<SettlementPlan, FateSwapError> {
    if filled {
        Ok(
            SettlementPlan {
                filled: true,
                payout: Some(Transfer { recipient: acc.player, lamports: order.potential_payout }),
                tier1_reward: None,
                tier2_reward: None,
                nft_reward: None,
                platform_fee: None,
                bonus: None,
            },
        )
    } else {
        let t1 = reward_transfer(
            referral_reward_applies(acc.tier1_referrer, tier1_state, ps.referrer),
            order.amount,
            ch.referral_bps,
            ps.referrer,
        );
        let t2 = reward_transfer(
            referral_reward_applies(acc.tier2_referrer, tier2_state, ps.tier2_referrer),
            order.amount,
            ch.tier2_referral_bps,
            ps.tier2_referrer,
        );
        let nft = reward_transfer(true, order.amount, ch.nft_reward_bps, ch.nft_rewarder);
        let platform = reward_transfer(true, order.amount, ch.platform_fee_bps, ch.platform_wallet);
        let bonus = reward_transfer(true, order.amount, ch.bonus_bps, ch.bonus_wallet);
        if t1 is Err || t2 is Err || nft is Err || platform is Err || bonus is Err {
            Err(FateSwapError::MathOverflow)
        } else {
            Ok(
                SettlementPlan {
                    filled: false,
                    payout: None,
                    tier1_reward: t1->Ok_0,
                    tier2_reward: t2->Ok_0,
                    nft_reward: nft->Ok_0,
                    platform_fee: platform->Ok_0,
                    bonus: bonus->Ok_0,
                },
            )
        }
    }
}

/// What settlement plans, given the digest of the revealed seed.
pub open spec fn settlement_plan(
    ch: ClearingHouseState,
    ps: PlayerState,
    order: FateOrder,
    acc: SettleFateOrder,
    tier1_state: Option<ReferralState>,
    tier2_state: Option<ReferralState>,
    filled: bool,
    digest: Seq<u8>,
    now: i64,
) -> Result<SettlementPlan, FateSwapError> {
    match settlement_check(ch, ps, order, acc, tier1_state, tier2_state, digest, now) {
        Some(e) => Err(e),
        None => settlement_transfers(ch, ps, order, acc, tier1_state, tier2_state, filled),
    }
}

fn referrer_matches_exec(passed: &Option<Pubkey>, recorded: &Pubkey) -> (r: bool)
    ensures
        r == referrer_matches(*passed, *recorded),
{
    match passed {
        None => true,
        Some(k) => recorded.is_zero() || k.equals(recorded),
    }
}

fn referral_state_matches_exec(passed: &Option<Pubkey>, state: &Option<ReferralState>, recorded: &Pubkey) -> (r: bool)
    ensures
        r == referral_state_matches(*passed, *state, *recorded),
{
    match (passed, state) {
        (Some(k), Some(rs)) => recorded.is_zero() || rs.referrer.equals(k),
        _ => true,
    }
}

fn reward_transfer_exec(active: bool, amount: u64, bps: u16, recipient: Pubkey) -> (r: Result<
    Option<Transfer>,
    FateSwapError,
>)
    ensures
        r == reward_transfer(active, amount, bps, recipient),
{
    if !active || bps == 0 {
        return Ok(None);
    }
    let reward = bps_share(amount, bps as u64)?;
    if reward == 0 {
        Ok(None)
    } else {
        Ok(Some(Transfer { recipient, lamports: reward }))
    }
}

/// Plans a settlement once the digest of the revealed seed is known: runs
/// every check and computes every transfer. Changes nothing.
pub fn plan_with_digest(
    clearing_house: &ClearingHouseState,
    player_state: &PlayerState,
    fate_order: &FateOrder,
    accounts: &SettleFateOrder,
    tier1_referral_state: &Option<ReferralState>,
    tier2_referral_state: &Option<ReferralState>,
    filled: bool,
    digest: &[u8; 32],
    now: i64,
) -> (r: Result<SettlementPlan, FateSwapError>)
    ensures
        r == settlement_plan(
            *clearing_house,
            *player_state,
            *fate_order,
            *accounts,
            *tier1_referral_state,
            *tier2_referral_state,
            filled,
            digest@,
            now,
        ),
{
    broadcast use vstd::array::group_array_axioms;
    if !accounts.nft_rewarder.equals(&clearing_house.nft_rewarder) {
        return Err(FateSwapError::InvalidNFTRewarder);
    }
    if !accounts.platform_wallet.equals(&clearing_house.platform_wallet) {
        return Err(FateSwapError::InvalidPlatformWallet);
    }
    if !accounts.bonus_wallet.equals(&clearing_house.bonus_wallet) {
        return Err(FateSwapError::InvalidBonusWallet);
    }
    if !accounts.settler.equals(&clearing_house.settler) {
        return Err(FateSwapError::UnauthorizedSettler);
    }
    if fate_order.status != FateOrderStatus::Pending {
        return Err(FateSwapError::OrderNotPending);
    }
    let same = bytes_eq(digest, &fate_order.commitment_hash);
    proof {
        if digest@ == fate_order.commitment_hash@ {
            assert(*digest =~= fate_order.commitment_hash);
        }
    }
    if !same {
        return Err(FateSwapError::InvalidServerSeed);
    }
    let elapsed = match now.checked_sub(fate_order.timestamp) {
        None => return Err(FateSwapError::MathOverflow),
        Some(e) => e,
    };
    if elapsed > clearing_house.bet_timeout {
        return Err(FateSwapError::OrderExpired);
    }
    if !referrer_matches_exec(&accounts.tier1_referrer, &player_state.referrer) {
        return Err(FateSwapError::InvalidReferrer);
    }
    if !referrer_matches_exec(&accounts.tier2_referrer, &player_state.tier2_referrer) {
        return Err(FateSwapError::InvalidReferrer);
    }
    if !referral_state_matches_exec(&accounts.tier1_referrer, tier1_referral_state, &player_state.referrer) {
        return Err(FateSwapError::InvalidReferrer);
    }
    if !referral_state_matches_exec(&accounts.tier2_referrer, tier2_referral_state, &player_state.tier2_referrer) {
        return Err(FateSwapError::InvalidReferrer);
    }
    if filled {
        return Ok(
            SettlementPlan {
                filled: true,
                payout: Some(Transfer { recipient: accounts.player, lamports: fate_order.potential_payout }),
                tier1_reward: None,
                tier2_reward: None,
                nft_reward: None,
                platform_fee: None,
                bonus: None,
            },
        );
    }
    let t1_active = accounts.tier1_referrer.is_some() && tier1_referral_state.is_some()
        && !player_state.referrer.is_zero();
    let t2_active = accounts.tier2_referrer.is_some() && tier2_referral_state.is_some()
        && !player_state.tier2_referrer.is_zero();
    let t1_recipient = player_state.referrer;
    let t2_recipient = player_state.tier2_referrer;
    let amount = fate_order.amount;
    let t1 = reward_transfer_exec(t1_active, amount, clearing_house.referral_bps, t1_recipient);
    let t2 = reward_transfer_exec(t2_active, amount, clearing_house.tier2_referral_bps, t2_recipient);
    let nft = reward_transfer_exec(true, amount, clearing_house.nft_reward_bps, clearing_house.nft_rewarder);
    let platform = reward_transfer_exec(
        true,
        amount,
        clearing_house.platform_fee_bps,
        clearing_house.platform_wallet,
    );
    let bonus = reward_transfer_exec(true, amount, clearing_house.bonus_bps, clearing_house.bonus_wallet);
    match (t1, t2, nft, platform, bonus) {
        (Ok(t1), Ok(t2), Ok(nft), Ok(platform), Ok(bonus)) => Ok(
            SettlementPlan {
                filled: false,
                payout: None,
                tier1_reward: t1,
                tier2_reward: t2,
                nft_reward: nft,
                platform_fee: platform,
                bonus,
            },
        ),
        _ => Err(FateSwapError::MathOverflow),
    }
}

/// Plans the settlement of a pending order: checks the settler, the order's
/// status, that the revealed seed hashes to the order's commitment, that the
/// order has not expired, that the referrer wallets passed are the player's
/// recorded referrers and that the referral states passed belong to them;
/// then computes the transfers (referral rewards only to recorded
/// referrers). Changes nothing.
pub fn plan(
    clearing_house: &ClearingHouseState,
    player_state: &PlayerState,
    fate_order: &FateOrder,
    accounts: &SettleFateOrder,
    tier1_referral_state: &Option<ReferralState>,
    tier2_referral_state: &Option<ReferralState>,
    filled: bool,
    server_seed: &[u8; 32],
    now: i64,
) -> (r: Result<SettlementPlan, FateSwapError>)
    ensures
        r == settlement_plan(
            *clearing_house,
            *player_state,
            *fate_order,
            *accounts,
            *tier1_referral_state,
            *tier2_referral_state,
            filled,
            sha256_digest(server_seed@),
            now,
        ),
{
    let digest = hash_server_seed(server_seed);
    plan_with_digest(
        clearing_house,
        player_state,
        fate_order,
        accounts,
        tier1_referral_state,
        tier2_referral_state,
        filled,
        &digest,
        now,
    )
}


/// The lamports of an optional transfer.
pub open spec fn transfer_lamports(t: Option<Transfer>) -> int {
    match t {
        Some(t) => t.lamports as int,
        None => 0,
    }
}

/// The lamports a best-effort reward actually paid.
pub open spec fn paid_lamports(t: Option<Transfer>, paid: bool) -> int {
    if paid {
        transfer_lamports(t)
    } else {
        0
    }
}

/// Whether every counter that a settlement updates stays in range.
pub open spec fn settlement_in_range(
    ch: ClearingHouseState,
    ps: PlayerState,
    order: FateOrder,
    plan: SettlementPlan,
) -> bool {
    let amount = order.amount as int;
    let payout = order.potential_payout as int;
    &&& ch.total_bets + 1 <= u64::MAX
    &&& ch.total_volume + amount <= u64::MAX
    &&& ps.total_orders + 1 <= u64::MAX
    &&& ps.total_wagered + amount <= u64::MAX
    &&& ch.total_liability >= payout
    &&& ch.unsettled_count >= 1
    &&& if plan.filled {
        let profit_change = wrap_i64(payout) - wrap_i64(amount);
        &&& ch.total_filled + 1 <= u64::MAX
        &&& i64::MIN <= profit_change <= i64::MAX
        &&& i64::MIN <= ch.house_profit - profit_change <= i64::MAX
        &&& ch.total_payout + payout <= u64::MAX
        &&& payout >= amount
        &&& ps.total_won + (payout - amount) <= u64::MAX
        &&& i64::MIN <= ps.net_pnl + wrap_i64(payout - amount) <= i64::MAX
    } else {
        &&& ch.total_nft_rewards_paid + transfer_lamports(plan.nft_reward) <= u64::MAX
        &&& ch.total_platform_fees_paid + transfer_lamports(plan.platform_fee) <= u64::MAX
        &&& ch.total_bonus_paid + transfer_lamports(plan.bonus) <= u64::MAX
        &&& ch.total_not_filled + 1 <= u64::MAX
        &&& i64::MIN <= ch.house_profit + wrap_i64(amount) <= i64::MAX
        &&& i64::MIN <= ps.net_pnl - wrap_i64(amount) <= i64::MAX
    }
}

/// The clearing house after a settlement: the order's payout leaves the
/// liability and the order leaves the unsettled count; a filled order is
/// counted as filled, its payout as paid and its net gain as the house's
/// loss; an order that is not filled is counted as not filled, its wager as
/// the house's gain, and the rewards paid are added to their totals.
pub open spec fn settled_clearing_house(
    ch: ClearingHouseState,
    order: FateOrder,
    plan: SettlementPlan,
    tier1_paid: bool,
    tier2_paid: bool,
) -> ClearingHouseState {
    let amount = order.amount as int;
    let payout = order.potential_payout as int;
    if plan.filled {
        ClearingHouseState {
            total_bets: (ch.total_bets + 1) as u64,
            total_filled: (ch.total_filled + 1) as u64,
            total_volume: (ch.total_volume + amount) as u64,
            house_profit: (ch.house_profit - (wrap_i64(payout) - wrap_i64(amount))) as i64,
            total_payout: (ch.total_payout + payout) as u64,
            largest_payout: if payout > ch.largest_payout {
                payout as u64
            } else {
                ch.largest_payout
            },
            total_liability: (ch.total_liability - payout) as u64,
            unsettled_count: (ch.unsettled_count - 1) as u64,
            ..ch
        }
    } else {
        ClearingHouseState {
            total_referral_paid: sat_add(
                sat_add(ch.total_referral_paid as int, paid_lamports(plan.tier1_reward, tier1_paid)),
                paid_lamports(plan.tier2_reward, tier2_paid),
            ) as u64,
            total_nft_rewards_paid: (ch.total_nft_rewards_paid + transfer_lamports(plan.nft_reward)) as u64,
            total_platform_fees_paid: (ch.total_platform_fees_paid + transfer_lamports(plan.platform_fee)) as u64,
            total_bonus_paid: (ch.total_bonus_paid + transfer_lamports(plan.bonus)) as u64,
            total_bets: (ch.total_bets + 1) as u64,
            total_not_filled: (ch.total_not_filled + 1) as u64,
            total_volume: (ch.total_volume + amount) as u64,
            house_profit: (ch.house_profit + wrap_i64(amount)) as i64,
            total_liability: (ch.total_liability - payout) as u64,
            unsettled_count: (ch.unsettled_count - 1) as u64,
            ..ch
        }
    }
}

/// The player's state after a settlement: one more order, its wager added,
/// its gain or loss added to the net P&L (and a gain to the total won), and
/// no active order.
pub open spec fn settled_player_state(ps: PlayerState, order: FateOrder, filled: bool) -> PlayerState {
    let amount = order.amount as int;
    let payout = order.potential_payout as int;
    PlayerState {
        total_orders: (ps.total_orders + 1) as u64,
        total_wagered: (ps.total_wagered + amount) as u64,
        total_won: if filled {
            (ps.total_won + (payout - amount)) as u64
        } else {
            ps.total_won
        },
        net_pnl: if filled {
            (ps.net_pnl + wrap_i64(payout - amount)) as i64
        } else {
            (ps.net_pnl - wrap_i64(amount)) as i64
        },
        has_active_order: false,
        active_order: zero_key(),
        ..ps
    }
}

/// A referral state credited with a paid reward (saturating).
pub open spec fn credited(rs: Option<ReferralState>, lamports: int) -> Option<ReferralState> {
    match rs {
        Some(s) => Some(
            ReferralState { total_earnings: sat_add(s.total_earnings as int, lamports) as u64, ..s },
        ),
        None => None,
    }
}

/// The event of a best-effort reward: paid or failed, when there was one.
pub open spec fn best_effort_event(
    reward_type: u8,
    t: Option<Transfer>,
    paid: bool,
    order_key: Pubkey,
    now: i64,
) -> Seq<RewardEvent> {
    match t {
        None => seq![],
        Some(t) => if paid {
            seq![
                RewardEvent::Paid(
                    RewardPaid {
                        reward_type,
                        recipient: t.recipient,
                        amount: t.lamports,
                        order: order_key,
                        timestamp: now,
                    },
                ),
            ]
        } else {
            seq![
                RewardEvent::Failed(
                    RewardFailed {
                        reward_type,
                        recipient: t.recipient,
                        amount: t.lamports,
                        order: order_key,
                        timestamp: now,
                    },
                ),
            ]
        },
    }
}

/// The reward events of a settlement, in order: tier-1, tier-2, NFT,
/// platform, bonus.
pub open spec fn reward_events(
    plan: SettlementPlan,
    tier1_paid: bool,
    tier2_paid: bool,
    order_key: Pubkey,
    now: i64,
) -> Seq<RewardEvent> {
    best_effort_event(0, plan.tier1_reward, tier1_paid, order_key, now) + best_effort_event(
        1,
        plan.tier2_reward,
        tier2_paid,
        order_key,
        now,
    ) + best_effort_event(2, plan.nft_reward, true, order_key, now) + best_effort_event(
        3,
        plan.platform_fee,
        true,
        order_key,
        now,
    ) + best_effort_event(4, plan.bonus, true, order_key, now)
}

/// The order once settled: filled or not filled, no longer pending.
pub open spec fn settled_order(order: FateOrder, filled: bool) -> FateOrder {
    FateOrder {
        status: if filled {
            FateOrderStatus::Filled
        } else {
            FateOrderStatus::NotFilled
        },
        ..order
    }
}

/// The closing event of a settlement.
pub open spec fn settled_event(
    order: FateOrder,
    acc: SettleFateOrder,
    filled: bool,
    server_seed: [u8; 32],
    now: i64,
) -> FateOrderSettled {
    FateOrderSettled {
        player: acc.player,
        order: acc.order,
        filled,
        amount: order.amount,
        multiplier_bps: order.multiplier_bps,
        payout: if filled {
            order.potential_payout
        } else {
            0
        },
        server_seed,
        commitment_hash: order.commitment_hash,
        nonce: order.nonce,
        timestamp: now,
    }
}

fn best_effort_event_exec(
    events: &mut Vec<RewardEvent>,
    reward_type: u8,
    t: Option<Transfer>,
    paid: bool,
    order_key: Pubkey,
    now: i64,
)
    ensures
        final(events)@ == old(events)@ + best_effort_event(reward_type, t, paid, order_key, now),
{
    match t {
        None => {
            assert(old(events)@ + seq![] =~= old(events)@);
        },
        Some(t) => {
            if paid {
                events.push(
                    RewardEvent::Paid(
                        RewardPaid {
                            reward_type,
                            recipient: t.recipient,
                            amount: t.lamports,
                            order: order_key,
                            timestamp: now,
                        },
                    ),
                );
            } else {
                events.push(
                    RewardEvent::Failed(
                        RewardFailed {
                            reward_type,
                            recipient: t.recipient,
                            amount: t.lamports,
                            order: order_key,
                            timestamp: now,
                        },
                    ),
                );
            }
        },
    }
}

fn lamports_of(t: &Option<Transfer>) -> (r: u64)
    ensures
        r == transfer_lamports(*t),
{
    match t {
        Some(t) => t.lamports,
        None => 0,
    }
}

fn checked_add_u64(x: u64, y: u64) -> (r: Result<u64, FateSwapError>)
    ensures
        match r {
            Ok(v) => x + y <= u64::MAX && v == x + y,
            Err(e) => x + y > u64::MAX && e == FateSwapError::MathOverflow,
        },
{
    match x.checked_add(y) {
        Some(v) => Ok(v),
        None => Err(FateSwapError::MathOverflow),
    }
}

fn checked_sub_u64(x: u64, y: u64) -> (r: Result<u64, FateSwapError>)
    ensures
        match r {
            Ok(v) => x >= y && v == x - y,
            Err(e) => x < y && e == FateSwapError::MathOverflow,
        },
{
    match x.checked_sub(y) {
        Some(v) => Ok(v),
        None => Err(FateSwapError::MathOverflow),
    }
}

fn checked_add_i64(x: i64, y: i64) -> (r: Result<i64, FateSwapError>)
    ensures
        match r {
            Ok(v) => i64::MIN <= x + y <= i64::MAX && v == x + y,
            Err(e) => (x + y < i64::MIN || x + y > i64::MAX) && e == FateSwapError::MathOverflow,
        },
{
    match x.checked_add(y) {
        Some(v) => Ok(v),
        None => Err(FateSwapError::MathOverflow),
    }
}

fn checked_sub_i64(x: i64, y: i64) -> (r: Result<i64, FateSwapError>)
    ensures
        match r {
            Ok(v) => i64::MIN <= x - y <= i64::MAX && v == x - y,
            Err(e) => (x - y < i64::MIN || x - y > i64::MAX) && e == FateSwapError::MathOverflow,
        },
{
    match x.checked_sub(y) {
        Some(v) => Ok(v),
        None => Err(FateSwapError::MathOverflow),
    }
}

fn apply_filled(
    ch: &ClearingHouseState,
    ps: &PlayerState,
    order: &FateOrder,
    plan: &SettlementPlan,
) -> (r: Result<(ClearingHouseState, PlayerState), FateSwapError>)
    requires
        plan.filled,
    ensures
        match r {
            Ok((c, p)) => settlement_in_range(*ch, *ps, *order, *plan) && c == settled_clearing_house(
                *ch,
                *order,
                *plan,
                false,
                false,
            ) && p == settled_player_state(*ps, *order, true),
            Err(e) => !settlement_in_range(*ch, *ps, *order, *plan) && e == FateSwapError::MathOverflow,
        },
{
    let amount = order.amount;
    let payout = order.potential_payout;
    let total_bets = checked_add_u64(ch.total_bets, 1)?;
    let total_filled = checked_add_u64(ch.total_filled, 1)?;
    let total_volume = checked_add_u64(ch.total_volume, amount)?;
    let profit_change = checked_sub_i64(u64_as_i64(payout), u64_as_i64(amount))?;
    let house_profit = checked_sub_i64(ch.house_profit, profit_change)?;
    let total_payout = checked_add_u64(ch.total_payout, payout)?;
    let largest_payout = if payout > ch.largest_payout {
        payout
    } else {
        ch.largest_payout
    };
    let total_orders = checked_add_u64(ps.total_orders, 1)?;
    let total_wagered = checked_add_u64(ps.total_wagered, amount)?;
    let player_profit = checked_sub_u64(payout, amount)?;
    let total_won = checked_add_u64(ps.total_won, player_profit)?;
    let net_pnl = checked_add_i64(ps.net_pnl, u64_as_i64(player_profit))?;
    let total_liability = checked_sub_u64(ch.total_liability, payout)?;
    let unsettled_count = checked_sub_u64(ch.unsettled_count, 1)?;
    let c = ClearingHouseState {
        total_bets,
        total_filled,
        total_volume,
        house_profit,
        total_payout,
        largest_payout,
        total_liability,
        unsettled_count,
        ..*ch
    };
    let p = PlayerState {
        total_orders,
        total_wagered,
        total_won,
        net_pnl,
        has_active_order: false,
        active_order: Pubkey::zero(),
        ..*ps
    };
    Ok((c, p))
}

fn apply_not_filled(
    ch: &ClearingHouseState,
    ps: &PlayerState,
    order: &FateOrder,
    plan: &SettlementPlan,
    tier1_paid: bool,
    tier2_paid: bool,
) -> (r: Result<(ClearingHouseState, PlayerState), FateSwapError>)
    requires
        !plan.filled,
    ensures
        match r {
            Ok((c, p)) => settlement_in_range(*ch, *ps, *order, *plan) && c == settled_clearing_house(
                *ch,
                *order,
                *plan,
                tier1_paid,
                tier2_paid,
            ) && p == settled_player_state(*ps, *order, false),
            Err(e) => !settlement_in_range(*ch, *ps, *order, *plan) && e == FateSwapError::MathOverflow,
        },
{
    let amount = order.amount;
    let payout = order.potential_payout;
    let paid1: u64 = if tier1_paid { lamports_of(&plan.tier1_reward) } else { 0 };
    let paid2: u64 = if tier2_paid { lamports_of(&plan.tier2_reward) } else { 0 };
    let total_referral_paid = ch.total_referral_paid.saturating_add(paid1).saturating_add(paid2);
    let total_nft = checked_add_u64(ch.total_nft_rewards_paid, lamports_of(&plan.nft_reward))?;
    let total_platform = checked_add_u64(ch.total_platform_fees_paid, lamports_of(&plan.platform_fee))?;
    let total_bonus = checked_add_u64(ch.total_bonus_paid, lamports_of(&plan.bonus))?;
    let total_bets = checked_add_u64(ch.total_bets, 1)?;
    let total_not_filled = checked_add_u64(ch.total_not_filled, 1)?;
    let total_volume = checked_add_u64(ch.total_volume, amount)?;
    let house_profit = checked_add_i64(ch.house_profit, u64_as_i64(amount))?;
    let total_orders = checked_add_u64(ps.total_orders, 1)?;
    let total_wagered = checked_add_u64(ps.total_wagered, amount)?;
    let net_pnl = checked_sub_i64(ps.net_pnl, u64_as_i64(amount))?;
    let total_liability = checked_sub_u64(ch.total_liability, payout)?;
    let unsettled_count = checked_sub_u64(ch.unsettled_count, 1)?;
    let c = ClearingHouseState {
        total_referral_paid,
        total_nft_rewards_paid: total_nft,
        total_platform_fees_paid: total_platform,
        total_bonus_paid: total_bonus,
        total_bets,
        total_not_filled,
        total_volume,
        house_profit,
        total_liability,
        unsettled_count,
        ..*ch
    };
    let p = PlayerState {
        total_orders,
        total_wagered,
        net_pnl,
        has_active_order: false,
        active_order: Pubkey::zero(),
        ..*ps
    };
    Ok((c, p))
}

fn credit(rs: Option<ReferralState>, lamports: u64) -> (r: Option<ReferralState>)
    ensures
        r == credited(rs, lamports as int),
{
    match rs {
        Some(s) => Some(ReferralState { total_earnings: s.total_earnings.saturating_add(lamports), ..s }),
        None => None,
    }
}

/// Settles a pending order, given whether the best-effort tier-1 and tier-2
/// referral transfers of its plan went through: the program calls `plan`,
/// makes the transfers the plan lists, then calls this handler.
///
/// The checks of `plan` come first and refuse with the same errors. Then,
/// when a counter would overflow, it refuses with `MathOverflow`. Otherwise
/// it updates the clearing house, the player's state and the credited
/// referral states, marks the order filled or not filled (it is no longer
/// pending, so it cannot be settled or reclaimed again; the program then
/// closes its account), and returns the reward events and the settlement event.
/// When it refuses, nothing changes.
pub fn handler(
    clearing_house: &mut ClearingHouseState,
    player_state: &mut PlayerState,
    tier1_referral_state: &mut Option<ReferralState>,
    tier2_referral_state: &mut Option<ReferralState>,
    fate_order: &mut FateOrder,
    accounts: &SettleFateOrder,
    filled: bool,
    server_seed: [u8; 32],
    tier1_paid: bool,
    tier2_paid: bool,
    now: i64,
) -> (r: Result<SettlementEvents, FateSwapError>)
    ensures
        match settlement_plan(
            *old(clearing_house),
            *old(player_state),
            *old(fate_order),
            *accounts,
            *old(tier1_referral_state),
            *old(tier2_referral_state),
            filled,
            sha256_digest(server_seed@),
            now,
        ) {
            Err(e) => {
                &&& r == Err::<SettlementEvents, FateSwapError>(e)
                &&& *final(clearing_house) == *old(clearing_house)
                &&& *final(player_state) == *old(player_state)
                &&& *final(tier1_referral_state) == *old(tier1_referral_state)
                &&& *final(tier2_referral_state) == *old(tier2_referral_state)
                &&& *final(fate_order) == *old(fate_order)
            },
            Ok(p) => if settlement_in_range(*old(clearing_house), *old(player_state), *old(fate_order), p) {
                &&& r is Ok
                &&& *final(clearing_house) == settled_clearing_house(
                    *old(clearing_house),
                    *old(fate_order),
                    p,
                    tier1_paid,
                    tier2_paid,
                )
                &&& *final(player_state) == settled_player_state(*old(player_state), *old(fate_order), filled)
                &&& *final(tier1_referral_state) == if filled {
                    *old(tier1_referral_state)
                } else {
                    credited(*old(tier1_referral_state), paid_lamports(p.tier1_reward, tier1_paid))
                }
                &&& *final(tier2_referral_state) == if filled {
                    *old(tier2_referral_state)
                } else {
                    credited(*old(tier2_referral_state), paid_lamports(p.tier2_reward, tier2_paid))
                }
                &&& *final(fate_order) == settled_order(*old(fate_order), filled)
                &&& r->Ok_0.rewards@ == reward_events(p, tier1_paid, tier2_paid, accounts.order, now)
                &&& r->Ok_0.settled == settled_event(*old(fate_order), *accounts, filled, server_seed, now)
            } else {
                &&& r == Err::<SettlementEvents, FateSwapError>(FateSwapError::MathOverflow)
                &&& *final(clearing_house) == *old(clearing_house)
                &&& *final(player_state) == *old(player_state)
                &&& *final(tier1_referral_state) == *old(tier1_referral_state)
                &&& *final(tier2_referral_state) == *old(tier2_referral_state)
                &&& *final(fate_order) == *old(fate_order)
            },
        },
{
    let plan = plan(
        clearing_house,
        player_state,
        fate_order,
        accounts,
        tier1_referral_state,
        tier2_referral_state,
        filled,
        &server_seed,
        now,
    )?;
    let mut rewards: Vec<RewardEvent> = Vec::new();
    if filled {
        let (c, p) = apply_filled(clearing_house, player_state, fate_order, &plan)?;
        *clearing_house = c;
        *player_state = p;
        assert(rewards@ =~= reward_events(plan, tier1_paid, tier2_paid, accounts.order, now));
    } else {
        let (c, p) = apply_not_filled(clearing_house, player_state, fate_order, &plan, tier1_paid, tier2_paid)?;
        let paid1: u64 = if tier1_paid { lamports_of(&plan.tier1_reward) } else { 0 };
        let paid2: u64 = if tier2_paid { lamports_of(&plan.tier2_reward) } else { 0 };
        *tier1_referral_state = credit(*tier1_referral_state, paid1);
        *tier2_referral_state = credit(*tier2_referral_state, paid2);
        *clearing_house = c;
        *player_state = p;
        best_effort_event_exec(&mut rewards, 0, plan.tier1_reward, tier1_paid, accounts.order, now);
        best_effort_event_exec(&mut rewards, 1, plan.tier2_reward, tier2_paid, accounts.order, now);
        best_effort_event_exec(&mut rewards, 2, plan.nft_reward, true, accounts.order, now);
        best_effort_event_exec(&mut rewards, 3, plan.platform_fee, true, accounts.order, now);
        best_effort_event_exec(&mut rewards, 4, plan.bonus, true, accounts.order, now);
        assert(rewards@ =~= reward_events(plan, tier1_paid, tier2_paid, accounts.order, now));
    }
    fate_order.status = if filled { FateOrderStatus::Filled } else { FateOrderStatus::NotFilled };
    let settled = FateOrderSettled {
        player: accounts.player,
        order: accounts.order,
        filled,
        amount: fate_order.amount,
        multiplier_bps: fate_order.multiplier_bps,
        payout: if filled { fate_order.potential_payout } else { 0 },
        server_seed,
        commitment_hash: fate_order.commitment_hash,
        nonce: fate_order.nonce,
        timestamp: now,
    };
    Ok(SettlementEvents { rewards, settled })
}

} // verus!
