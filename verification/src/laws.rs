//! Properties of the protocol that span instructions: the vault stays
//! solvent and its liability tracks the pending orders, an order is paid out
//! at most once, settlement and reclaim exclude each other, commitments and
//! referrers are used once across any sequence of instructions, the
//! configuration stays within bounds, and LP shares are never diluted while
//! the burned minimum liquidity stays locked. The last section states, with
//! the arithmetic written out, what each instruction computes and records:
//! when it goes ahead, what it pays and mints, and what it writes.

use vstd::prelude::*;
use crate::errors::FateSwapError;
use crate::events::{ConfigUpdated, RewardFailed, RewardPaid};
use crate::instructions::Transfer;
use crate::instructions::admin_set_referrer::{admin_set_referrer_check, AdminSetReferrer};
use crate::instructions::deposit_sol::{deposit_result, deposited_clearing_house, DepositSol};
use crate::instructions::initialize::{initial_config_valid, initial_state, Initialize};
use crate::instructions::place_fate_order::{
    place_check, placed_clearing_house, placed_order, placed_player_state, PlaceFateOrder,
};
use crate::instructions::reclaim_expired_order::{reclaim_check, reclaimed_clearing_house};
use crate::instructions::set_referrer::{claimed_referral_state, set_referrer_check, tier2_for, SetReferrer};
use crate::instructions::settle_fate_order::{
    credited, paid_lamports, referral_reward_applies, reward_events, RewardEvent, reward_transfer, settled_clearing_house, settled_order, settled_player_state,
    settlement_check, settlement_in_range, settlement_plan, settlement_transfers, sha256_digest,
    transfer_lamports, SettleFateOrder, SettlementPlan,
};
use crate::instructions::submit_commitment::{claimed_player_state, SubmitCommitment};
use crate::instructions::update_config::{
    changes_accepted, config_events, configured, field_event, opt_u16, ConfigChanges,
};
use crate::instructions::withdraw_sol::{withdraw_result, withdrawn_clearing_house, WithdrawSol};
use crate::math::{available_balance, pricing_supply, valid_multiplier, wrap_u64, MINIMUM_LIQUIDITY};
use crate::pubkey::{zero_bytes, zero_key, Pubkey};
use crate::state::{ClearingHouseState, FateOrder, FateOrderStatus, PlayerState, ReferralState};

verus! {

// ---------------------------------------------------------------------------
// Solvency and liability bookkeeping
// ---------------------------------------------------------------------------

/// The sum of the potential payouts of a sequence of orders.
pub open spec fn pending_liability(pending: Seq<FateOrder>) -> int
    decreases pending.len(),
{
    if pending.len() == 0 {
        0
    } else {
        pending_liability(pending.drop_last()) + pending.last().potential_payout
    }
}

/// The pool's invariant, given the orders that are pending: the vault holds
/// its rent-exempt reserve plus the payouts owed to them, the liability is
/// the sum of those payouts, the unsettled count is their number, and each
/// is pending with a payout at least its wager.
pub open spec fn pool_invariant(ch: ClearingHouseState, vault_lamports: int, rent_exempt: int, pending: Seq<FateOrder>) -> bool {
    &&& vault_lamports >= rent_exempt + ch.total_liability
    &&& ch.total_liability == pending_liability(pending)
    &&& ch.unsettled_count == pending.len()
    &&& forall|i: int|
        0 <= i < pending.len() ==> (#[trigger] pending[i]).potential_payout >= pending[i].amount
            && pending[i].status == FateOrderStatus::Pending
}

/// The lamports a settlement moves out of the vault, given which of the
/// best-effort referral transfers went through.
pub open spec fn settlement_outflow(p: SettlementPlan, tier1_paid: bool, tier2_paid: bool) -> int {
    transfer_lamports(p.payout) + paid_lamports(p.tier1_reward, tier1_paid) + paid_lamports(
        p.tier2_reward,
        tier2_paid,
    ) + transfer_lamports(p.nft_reward) + transfer_lamports(p.platform_fee) + transfer_lamports(p.bonus)
}

proof fn lemma_pending_liability_remove(s: Seq<FateOrder>, i: int)
    requires
        0 <= i < s.len(),
    ensures
        pending_liability(s.remove(i)) == pending_liability(s) - s[i].potential_payout,
    decreases s.len(),
{
    if i == s.len() - 1 {
        assert(s.remove(i) =~= s.drop_last());
    } else {
        lemma_pending_liability_remove(s.drop_last(), i);
        assert(s.remove(i).drop_last() =~= s.drop_last().remove(i));
        assert(s.remove(i).last() == s.last());
    }
}

proof fn lemma_remove_keeps_orders_valid(s: Seq<FateOrder>, i: int)
    requires
        0 <= i < s.len(),
        forall|j: int|
            0 <= j < s.len() ==> (#[trigger] s[j]).potential_payout >= s[j].amount && s[j].status
                == FateOrderStatus::Pending,
    ensures
        forall|j: int|
            0 <= j < s.remove(i).len() ==> (#[trigger] s.remove(i)[j]).potential_payout >= s.remove(i)[j].amount
                && s.remove(i)[j].status == FateOrderStatus::Pending,
{
    assert forall|j: int| 0 <= j < s.remove(i).len() implies (#[trigger] s.remove(i)[j]).potential_payout
        >= s.remove(i)[j].amount && s.remove(i)[j].status == FateOrderStatus::Pending by {
        if j < i {
            assert(s.remove(i)[j] == s[j]);
        } else {
            assert(s.remove(i)[j] == s[j + 1]);
        }
    }
}

/// Placing an order keeps the pool's invariant, with the wager added to the
/// vault and the new order (whose payout is at least its wager) pending.
pub proof fn lemma_place_keeps_pool_invariant(
    ch: ClearingHouseState,
    ps: PlayerState,
    acc: PlaceFateOrder,
    nonce: u64,
    amount: u64,
    multiplier_bps: u32,
    token_mint: Pubkey,
    token_amount: u64,
    now: i64,
    pending: Seq<FateOrder>,
)
    requires
        pool_invariant(ch, acc.vault_lamports as int, acc.rent_exempt as int, pending),
        place_check(ch, ps, acc, nonce, amount, multiplier_bps) is Ok,
    ensures
        ({
            let payout = place_check(ch, ps, acc, nonce, amount, multiplier_bps)->Ok_0;
            let order = placed_order(ps, acc, nonce, amount, multiplier_bps, payout, token_mint, token_amount, now);
            &&& payout >= amount
            &&& pool_invariant(
                placed_clearing_house(ch, amount, payout),
                acc.vault_lamports + amount,
                acc.rent_exempt as int,
                pending.push(order),
            )
        }),
{
    let payout = place_check(ch, ps, acc, nonce, amount, multiplier_bps)->Ok_0;
    let order = placed_order(ps, acc, nonce, amount, multiplier_bps, payout, token_mint, token_amount, now);
    assert(valid_multiplier(multiplier_bps as int));
    assert((amount as int) * (multiplier_bps as int) / 100_000 >= amount as int) by (nonlinear_arith)
        requires
            multiplier_bps >= 101_000,
    ;
    let np = pending.push(order);
    assert(np.drop_last() =~= pending);
    assert forall|i: int| 0 <= i < np.len() implies (#[trigger] np[i]).potential_payout >= np[i].amount
        && np[i].status == FateOrderStatus::Pending by {
        if i < pending.len() {
            assert(np[i] == pending[i]);
        }
    }
}

/// One reward of the split is at most its rate of the wager.
pub proof fn lemma_reward_at_most_rate(active: bool, amount: u64, bps: u16, recipient: Pubkey)
    requires
        reward_transfer(active, amount, bps, recipient) is Ok,
    ensures
        10_000 * transfer_lamports(reward_transfer(active, amount, bps, recipient)->Ok_0) <= amount * bps,
{
    if active && bps != 0 && amount * bps <= u64::MAX {
        let x = amount * bps;
        assert(10_000 * (x / 10_000) <= x) by (nonlinear_arith)
            requires
                x >= 0,
        ;
    }
}

/// The revenue split of an order that is not filled takes at most the sum
/// of the five rates of the wager; when those rates add up to at most 500
/// basis points, at most 5% of the wager.
pub proof fn lemma_split_bounded(
    ch: ClearingHouseState,
    ps: PlayerState,
    order: FateOrder,
    acc: SettleFateOrder,
    tier1_state: Option<ReferralState>,
    tier2_state: Option<ReferralState>,
)
    requires
        settlement_transfers(ch, ps, order, acc, tier1_state, tier2_state, false) is Ok,
    ensures
        ({
            let p = settlement_transfers(ch, ps, order, acc, tier1_state, tier2_state, false)->Ok_0;
            let total = transfer_lamports(p.tier1_reward) + transfer_lamports(p.tier2_reward)
                + transfer_lamports(p.nft_reward) + transfer_lamports(p.platform_fee) + transfer_lamports(
                p.bonus,
            );
            &&& 10_000 * total <= order.amount * ch.split_total()
            &&& ch.split_total() <= 500 ==> 20 * total <= order.amount
            &&& transfer_lamports(p.payout) == 0
        }),
{
    let p = settlement_transfers(ch, ps, order, acc, tier1_state, tier2_state, false)->Ok_0;
    lemma_reward_at_most_rate(
        referral_reward_applies(acc.tier1_referrer, tier1_state, ps.referrer),
        order.amount,
        ch.referral_bps,
        ps.referrer,
    );
    lemma_reward_at_most_rate(
        referral_reward_applies(
            acc.tier2_referrer,
            tier2_state,
            ps.tier2_referrer,
        ),
        order.amount,
        ch.tier2_referral_bps,
        ps.tier2_referrer,
    );
    lemma_reward_at_most_rate(true, order.amount, ch.nft_reward_bps, ch.nft_rewarder);
    lemma_reward_at_most_rate(true, order.amount, ch.platform_fee_bps, ch.platform_wallet);
    lemma_reward_at_most_rate(true, order.amount, ch.bonus_bps, ch.bonus_wallet);
    let a = order.amount as int;
    assert(a * ch.referral_bps + a * ch.tier2_referral_bps + a * ch.nft_reward_bps + a * ch.platform_fee_bps
        + a * ch.bonus_bps == a * ch.split_total()) by (nonlinear_arith);
    if ch.split_total() <= 500 {
        assert(a * ch.split_total() <= a * 500) by (nonlinear_arith)
            requires
                a >= 0,
                ch.split_total() <= 500,
        ;
    }
}

/// Settling one of the pending orders keeps the pool's invariant when the
/// five split rates add up to at most 500 basis points: a filled order's
/// payout leaves the vault and the liability together; an order that is
/// not filled pays out at most 5% of its wager while its whole payout
/// leaves the liability.
pub proof fn lemma_settle_keeps_pool_invariant(
    ch: ClearingHouseState,
    ps: PlayerState,
    acc: SettleFateOrder,
    tier1_state: Option<ReferralState>,
    tier2_state: Option<ReferralState>,
    filled: bool,
    digest: Seq<u8>,
    now: i64,
    tier1_paid: bool,
    tier2_paid: bool,
    vault_lamports: int,
    rent_exempt: int,
    pending: Seq<FateOrder>,
    i: int,
)
    requires
        pool_invariant(ch, vault_lamports, rent_exempt, pending),
        ch.split_total() <= 500,
        0 <= i < pending.len(),
        settlement_plan(ch, ps, pending[i], acc, tier1_state, tier2_state, filled, digest, now) is Ok,
        settlement_in_range(
            ch,
            ps,
            pending[i],
            settlement_plan(ch, ps, pending[i], acc, tier1_state, tier2_state, filled, digest, now)->Ok_0,
        ),
    ensures
        ({
            let p = settlement_plan(ch, ps, pending[i], acc, tier1_state, tier2_state, filled, digest, now)->Ok_0;
            pool_invariant(
                settled_clearing_house(ch, pending[i], p, tier1_paid, tier2_paid),
                vault_lamports - settlement_outflow(p, tier1_paid, tier2_paid),
                rent_exempt,
                pending.remove(i),
            )
        }),
{
    let order = pending[i];
    assert(order.potential_payout >= order.amount);
    if !filled {
        lemma_split_bounded(ch, ps, order, acc, tier1_state, tier2_state);
    }
    lemma_pending_liability_remove(pending, i);
    lemma_remove_keeps_orders_valid(pending, i);
}

/// Reclaiming one of the pending orders keeps the pool's invariant: its
/// wager leaves the vault and its (larger) payout leaves the liability.
pub proof fn lemma_reclaim_keeps_pool_invariant(
    ch: ClearingHouseState,
    now: i64,
    vault_lamports: int,
    rent_exempt: int,
    pending: Seq<FateOrder>,
    i: int,
)
    requires
        pool_invariant(ch, vault_lamports, rent_exempt, pending),
        0 <= i < pending.len(),
        reclaim_check(ch, pending[i], now) is None,
    ensures
        pool_invariant(
            reclaimed_clearing_house(ch, pending[i]),
            vault_lamports - pending[i].amount,
            rent_exempt,
            pending.remove(i),
        ),
{
    assert(pending[i].potential_payout >= pending[i].amount);
    lemma_pending_liability_remove(pending, i);
    lemma_remove_keeps_orders_valid(pending, i);
}

/// Deposits and withdrawals keep the pool's invariant: a deposit only adds
/// to the vault, and a withdrawal pays at most the available liquidity.
pub proof fn lemma_lp_flows_keep_pool_invariant(
    ch: ClearingHouseState,
    wacc: WithdrawSol,
    lp_amount: u64,
    dacc: DepositSol,
    amount: u64,
    pending: Seq<FateOrder>,
)
    ensures
        pool_invariant(ch, wacc.vault_lamports as int, wacc.rent_exempt as int, pending) && withdraw_result(
            ch,
            wacc,
            lp_amount,
        ) is Ok ==> pool_invariant(
            withdrawn_clearing_house(ch, withdraw_result(ch, wacc, lp_amount)->Ok_0),
            wacc.vault_lamports - withdraw_result(ch, wacc, lp_amount)->Ok_0,
            wacc.rent_exempt as int,
            pending,
        ),
        pool_invariant(ch, dacc.vault_lamports as int, dacc.rent_exempt as int, pending) && deposit_result(
            ch,
            dacc,
            amount,
        ) is Ok ==> pool_invariant(
            deposited_clearing_house(ch, amount),
            dacc.vault_lamports + amount,
            dacc.rent_exempt as int,
            pending,
        ),
{
}

/// The administrative instructions leave the pool's invariant as it is.
pub proof fn lemma_admin_keeps_pool_invariant(
    ch: ClearingHouseState,
    c: ConfigChanges,
    paused: bool,
    new_settler: Pubkey,
    vault_lamports: int,
    rent_exempt: int,
    pending: Seq<FateOrder>,
)
    requires
        pool_invariant(ch, vault_lamports, rent_exempt, pending),
    ensures
        pool_invariant(configured(ch, c), vault_lamports, rent_exempt, pending),
        pool_invariant(ClearingHouseState { paused, ..ch }, vault_lamports, rent_exempt, pending),
        pool_invariant(ClearingHouseState { settler: new_settler, ..ch }, vault_lamports, rent_exempt, pending),
{
}

// ---------------------------------------------------------------------------
// Orders
// ---------------------------------------------------------------------------

/// An order is paid out or refunded at most once: once settled or
/// reclaimed it is no longer pending, and every later settlement or
/// reclaim of it is refused.
pub proof fn lemma_order_paid_at_most_once(
    order: FateOrder,
    filled: bool,
    ch: ClearingHouseState,
    ps: PlayerState,
    acc: SettleFateOrder,
    tier1_state: Option<ReferralState>,
    tier2_state: Option<ReferralState>,
    filled2: bool,
    digest: Seq<u8>,
    now: i64,
)
    ensures
        settlement_plan(ch, ps, settled_order(order, filled), acc, tier1_state, tier2_state, filled2, digest, now) is Err,
        reclaim_check(ch, settled_order(order, filled), now) == Some(FateSwapError::OrderNotPending),
        settlement_plan(
            ch,
            ps,
            FateOrder { status: FateOrderStatus::Expired, ..order },
            acc,
            tier1_state,
            tier2_state,
            filled2,
            digest,
            now,
        ) is Err,
        reclaim_check(ch, FateOrder { status: FateOrderStatus::Expired, ..order }, now) == Some(
            FateSwapError::OrderNotPending,
        ),
{
}

/// An order can be settled only while its timeout has not passed and
/// reclaimed only after it has: at no time can both go ahead.
pub proof fn lemma_settle_and_reclaim_exclusive(
    ch: ClearingHouseState,
    ps: PlayerState,
    order: FateOrder,
    acc: SettleFateOrder,
    tier1_state: Option<ReferralState>,
    tier2_state: Option<ReferralState>,
    digest: Seq<u8>,
    now: i64,
)
    requires
        i64::MIN <= now - order.timestamp <= i64::MAX,
    ensures
        settlement_check(ch, ps, order, acc, tier1_state, tier2_state, digest, now) is None ==> reclaim_check(
            ch,
            order,
            now,
        ) == Some(FateSwapError::OrderNotExpired),
        reclaim_check(ch, order, now) is None ==> settlement_check(
            ch,
            ps,
            order,
            acc,
            tier1_state,
            tier2_state,
            digest,
            now,
        ) is Some,
{
}

/// A settlement goes ahead only for a pending order whose commitment is the
/// hash of the revealed seed, signed by the settler, within the timeout.
pub proof fn lemma_settlement_reveals_commitment(
    ch: ClearingHouseState,
    ps: PlayerState,
    order: FateOrder,
    acc: SettleFateOrder,
    tier1_state: Option<ReferralState>,
    tier2_state: Option<ReferralState>,
    filled: bool,
    digest: Seq<u8>,
    now: i64,
)
    requires
        settlement_plan(ch, ps, order, acc, tier1_state, tier2_state, filled, digest, now) is Ok,
    ensures
        digest == order.commitment_hash@,
        order.status == FateOrderStatus::Pending,
        acc.settler == ch.settler,
        now - order.timestamp <= ch.bet_timeout,
{
}

/// Referral rewards go only to the player's recorded referrers: a tier-1
/// (tier-2) reward is planned only when the player has a tier-1 (tier-2)
/// referrer recorded, the wallet passed is that referrer and the referral
/// state passed belongs to it.
pub proof fn lemma_rewards_go_to_recorded_referrers(
    ch: ClearingHouseState,
    ps: PlayerState,
    order: FateOrder,
    acc: SettleFateOrder,
    tier1_state: Option<ReferralState>,
    tier2_state: Option<ReferralState>,
    filled: bool,
    digest: Seq<u8>,
    now: i64,
)
    requires
        settlement_plan(ch, ps, order, acc, tier1_state, tier2_state, filled, digest, now) is Ok,
    ensures
        ({
            let p = settlement_plan(ch, ps, order, acc, tier1_state, tier2_state, filled, digest, now)->Ok_0;
            &&& p.tier1_reward is Some ==> {
                &&& ps.referrer != zero_key()
                &&& acc.tier1_referrer == Some(ps.referrer)
                &&& tier1_state matches Some(rs) && rs.referrer == ps.referrer
                &&& p.tier1_reward->0.recipient == ps.referrer
            }
            &&& p.tier2_reward is Some ==> {
                &&& ps.tier2_referrer != zero_key()
                &&& acc.tier2_referrer == Some(ps.tier2_referrer)
                &&& tier2_state matches Some(rs) && rs.referrer == ps.tier2_referrer
                &&& p.tier2_reward->0.recipient == ps.tier2_referrer
            }
        }),
{
}

// ---------------------------------------------------------------------------
// Sequences of instructions on a player's state
// ---------------------------------------------------------------------------

/// An instruction that reads or writes a player's state, with the other
/// accounts and arguments it is given.
pub enum PlayerInstruction {
    SubmitCommitment { ch: ClearingHouseState, acc: SubmitCommitment, commitment_hash: [u8; 32], nonce: u64 },
    Place { ch: ClearingHouseState, acc: PlaceFateOrder, nonce: u64, amount: u64, multiplier_bps: u32 },
    Settle {
        ch: ClearingHouseState,
        order: FateOrder,
        acc: SettleFateOrder,
        tier1_state: Option<ReferralState>,
        tier2_state: Option<ReferralState>,
        filled: bool,
        server_seed: [u8; 32],
        now: i64,
    },
    Reclaim { ch: ClearingHouseState, order: FateOrder, now: i64 },
    SetReferrer { rs: ReferralState, acc: SetReferrer, referrer_key: Pubkey },
    AdminSetReferrer {
        ch: ClearingHouseState,
        rs: ReferralState,
        acc: AdminSetReferrer,
        player_key: Pubkey,
        referrer_key: Pubkey,
    },
}

/// The player's state after an instruction, whether it goes ahead or is
/// refused (a refused instruction changes nothing), as each handler states.
pub open spec fn player_after(ps: PlayerState, instr: PlayerInstruction) -> PlayerState {
    match instr {
        PlayerInstruction::SubmitCommitment { ch, acc, commitment_hash, nonce } => {
            if acc.settler != ch.settler || ch.paused {
                ps
            } else {
                PlayerState {
                    pending_commitment: commitment_hash,
                    pending_nonce: nonce,
                    ..claimed_player_state(ps, acc.player, acc.player_state_bump)
                }
            }
        },
        PlayerInstruction::Place { ch, acc, nonce, amount, multiplier_bps } => {
            match place_check(ch, ps, acc, nonce, amount, multiplier_bps) {
                Ok(_) => placed_player_state(ps, acc),
                Err(_) => ps,
            }
        },
        PlayerInstruction::Settle { ch, order, acc, tier1_state, tier2_state, filled, server_seed, now } => {
            match settlement_plan(ch, ps, order, acc, tier1_state, tier2_state, filled, sha256_digest(server_seed@), now) {
                Ok(p) => if settlement_in_range(ch, ps, order, p) {
                    settled_player_state(ps, order, filled)
                } else {
                    ps
                },
                Err(_) => ps,
            }
        },
        PlayerInstruction::Reclaim { ch, order, now } => {
            if reclaim_check(ch, order, now) is None {
                PlayerState { has_active_order: false, active_order: zero_key(), ..ps }
            } else {
                ps
            }
        },
        PlayerInstruction::SetReferrer { rs, acc, referrer_key } => {
            if set_referrer_check(ps, rs, acc, referrer_key) is None {
                PlayerState {
                    referrer: referrer_key,
                    tier2_referrer: tier2_for(acc.referrer_player_state, acc.player),
                    ..ps
                }
            } else {
                ps
            }
        },
        PlayerInstruction::AdminSetReferrer { ch, rs, acc, player_key, referrer_key } => {
            if admin_set_referrer_check(ch, ps, rs, acc, player_key, referrer_key) is None {
                PlayerState {
                    referrer: referrer_key,
                    tier2_referrer: tier2_for(acc.referrer_player_state, player_key),
                    ..claimed_player_state(ps, player_key, acc.player_state_bump)
                }
            } else {
                ps
            }
        },
    }
}

/// The player's state after a sequence of instructions.
pub open spec fn player_after_all(ps: PlayerState, instrs: Seq<PlayerInstruction>) -> PlayerState
    decreases instrs.len(),
{
    if instrs.len() == 0 {
        ps
    } else {
        player_after(player_after_all(ps, instrs.drop_last()), instrs.last())
    }
}

/// Whether a sequence holds no `submit_commitment`.
pub open spec fn no_new_commitment(instrs: Seq<PlayerInstruction>) -> bool {
    forall|i: int| 0 <= i < instrs.len() ==> !(#[trigger] instrs[i] is SubmitCommitment)
}

proof fn lemma_commitment_stays_cleared(ps: PlayerState, instrs: Seq<PlayerInstruction>)
    requires
        ps.pending_commitment == zero_bytes(),
        no_new_commitment(instrs),
    ensures
        player_after_all(ps, instrs).pending_commitment == zero_bytes(),
    decreases instrs.len(),
{
    if instrs.len() > 0 {
        assert(!(instrs[instrs.len() - 1] is SubmitCommitment));
        assert(no_new_commitment(instrs.drop_last())) by {
            assert forall|i: int| 0 <= i < instrs.drop_last().len() implies !(
            #[trigger] instrs.drop_last()[i] is SubmitCommitment) by {
                assert(instrs.drop_last()[i] == instrs[i]);
            }
        }
        lemma_commitment_stays_cleared(ps, instrs.drop_last());
    }
}

/// Each order needs its own commitment: after an order is placed, as long
/// as the settler submits no new commitment, every further order is refused
/// whatever else happens (settlement, reclaim, referrals), and the pending
/// commitment stays cleared.
pub proof fn lemma_commitment_used_once(
    ch: ClearingHouseState,
    ps: PlayerState,
    acc: PlaceFateOrder,
    nonce: u64,
    amount: u64,
    multiplier_bps: u32,
    token_mint: Pubkey,
    token_amount: u64,
    now: i64,
    instrs: Seq<PlayerInstruction>,
    ch2: ClearingHouseState,
    acc2: PlaceFateOrder,
    nonce2: u64,
    amount2: u64,
    multiplier_bps2: u32,
)
    requires
        place_check(ch, ps, acc, nonce, amount, multiplier_bps) is Ok,
        no_new_commitment(instrs),
    ensures
        ({
            let payout = place_check(ch, ps, acc, nonce, amount, multiplier_bps)->Ok_0;
            let order = placed_order(ps, acc, nonce, amount, multiplier_bps, payout, token_mint, token_amount, now);
            let later = player_after_all(placed_player_state(ps, acc), instrs);
            &&& order.commitment_hash == ps.pending_commitment
            &&& order.commitment_hash != zero_bytes()
            &&& order.nonce == ps.pending_nonce
            &&& later.pending_commitment == zero_bytes()
            &&& place_check(ch2, later, acc2, nonce2, amount2, multiplier_bps2) is Err
        }),
{
    lemma_commitment_stays_cleared(placed_player_state(ps, acc), instrs);
}

proof fn lemma_referrer_stays(ps: PlayerState, k: Pubkey, instrs: Seq<PlayerInstruction>)
    requires
        ps.referrer == k,
        k != zero_key(),
        ps.player != zero_key(),
    ensures
        player_after_all(ps, instrs).referrer == k,
        player_after_all(ps, instrs).player != zero_key(),
    decreases instrs.len(),
{
    if instrs.len() > 0 {
        lemma_referrer_stays(ps, k, instrs.drop_last());
    }
}

/// A referrer is set once: after `set_referrer` records a (non-zero)
/// referrer for a player state that has a player, it stays the referrer
/// through any sequence of instructions, and every later `set_referrer` or
/// `admin_set_referrer` on that state is refused.
pub proof fn lemma_referrer_set_once(
    ps: PlayerState,
    rs: ReferralState,
    acc: SetReferrer,
    referrer_key: Pubkey,
    instrs: Seq<PlayerInstruction>,
    ch2: ClearingHouseState,
    rs2: ReferralState,
    acc2: SetReferrer,
    referrer_key2: Pubkey,
    admin_acc: AdminSetReferrer,
    player_key: Pubkey,
)
    requires
        set_referrer_check(ps, rs, acc, referrer_key) is None,
        referrer_key != zero_key(),
        ps.player != zero_key(),
    ensures
        ({
            let ps1 = player_after(ps, PlayerInstruction::SetReferrer { rs, acc, referrer_key });
            let later = player_after_all(ps1, instrs);
            &&& later.referrer == referrer_key
            &&& set_referrer_check(later, rs2, acc2, referrer_key2) is Some
            &&& admin_set_referrer_check(ch2, later, rs2, admin_acc, player_key, referrer_key2) is Some
        }),
{
    let ps1 = player_after(ps, PlayerInstruction::SetReferrer { rs, acc, referrer_key });
    lemma_referrer_stays(ps1, referrer_key, instrs);
}

/// The same holds after `admin_set_referrer` records a (non-zero) referrer
/// for a (non-zero) player.
pub proof fn lemma_admin_referrer_set_once(
    ch: ClearingHouseState,
    ps: PlayerState,
    rs: ReferralState,
    acc: AdminSetReferrer,
    player_key: Pubkey,
    referrer_key: Pubkey,
    instrs: Seq<PlayerInstruction>,
    ch2: ClearingHouseState,
    rs2: ReferralState,
    acc2: AdminSetReferrer,
    referrer_key2: Pubkey,
    player_acc: SetReferrer,
)
    requires
        admin_set_referrer_check(ch, ps, rs, acc, player_key, referrer_key) is None,
        referrer_key != zero_key(),
        player_key != zero_key(),
    ensures
        ({
            let ps1 = player_after(
                ps,
                PlayerInstruction::AdminSetReferrer { ch, rs, acc, player_key, referrer_key },
            );
            let later = player_after_all(ps1, instrs);
            &&& later.referrer == referrer_key
            &&& admin_set_referrer_check(ch2, later, rs2, acc2, player_key, referrer_key2) is Some
            &&& set_referrer_check(later, rs2, player_acc, referrer_key2) is Some
        }),
{
    let ps1 = player_after(ps, PlayerInstruction::AdminSetReferrer { ch, rs, acc, player_key, referrer_key });
    lemma_referrer_stays(ps1, referrer_key, instrs);
}

/// Neither `set_referrer` nor `admin_set_referrer` makes a (non-zero)
/// player its own tier-2 referrer.
pub proof fn lemma_no_circular_tier2(referrer_player_state: Option<Pubkey>, player: Pubkey)
    requires
        player != zero_key(),
    ensures
        tier2_for(referrer_player_state, player) != player,
{
}

// ---------------------------------------------------------------------------
// Configuration
// ---------------------------------------------------------------------------

/// Initialization produces a valid configuration, with no revenue split.
pub proof fn lemma_initialize_config_valid(
    acc: Initialize,
    fate_fee_bps: u16,
    max_bet_bps: u16,
    min_bet: u64,
    bet_timeout: i64,
)
    requires
        initial_config_valid(fate_fee_bps, max_bet_bps, min_bet, bet_timeout),
    ensures
        initial_state(acc, fate_fee_bps, max_bet_bps, min_bet, bet_timeout).config_valid(),
        initial_state(acc, fate_fee_bps, max_bet_bps, min_bet, bet_timeout).split_total() == 0,
{
}

/// An accepted configuration update keeps the split at most 500 basis
/// points, and keeps a valid configuration valid.
pub proof fn lemma_update_config_keeps_config_valid(ch: ClearingHouseState, c: ConfigChanges)
    requires
        changes_accepted(ch, c),
    ensures
        configured(ch, c).split_total() <= 500,
        ch.config_valid() ==> configured(ch, c).config_valid(),
{
}

/// Trading, liquidity, pause and settler changes leave the configuration
/// as it is, so a valid configuration stays valid.
pub proof fn lemma_operations_keep_config_valid(
    ch: ClearingHouseState,
    order: FateOrder,
    p: SettlementPlan,
    tier1_paid: bool,
    tier2_paid: bool,
    amount: u64,
    payout: u64,
    sol: u64,
    paused: bool,
    new_settler: Pubkey,
)
    requires
        ch.config_valid(),
    ensures
        placed_clearing_house(ch, amount, payout).config_valid(),
        settled_clearing_house(ch, order, p, tier1_paid, tier2_paid).config_valid(),
        deposited_clearing_house(ch, amount).config_valid(),
        withdrawn_clearing_house(ch, sol).config_valid(),
        reclaimed_clearing_house(ch, order).config_valid(),
        (ClearingHouseState { paused, ..ch }).config_valid(),
        (ClearingHouseState { settler: new_settler, ..ch }).config_valid(),
{
}

// ---------------------------------------------------------------------------
// LP shares
// ---------------------------------------------------------------------------

/// A deposit into a pool that already has LP tokens never lowers the value
/// of an LP token: the balance backing the pool grows by the deposit, and
/// `E * (P + m) <= (E + amount) * P` for balance `E`, pricing supply `P`
/// (circulating plus burned tokens) and minted `m`.
pub proof fn lemma_deposit_does_not_dilute(ch: ClearingHouseState, acc: DepositSol, amount: u64)
    requires
        deposit_result(ch, acc, amount) is Ok,
        acc.lp_supply > 0,
    ensures
        ({
            let e = available_balance(acc.vault_lamports as int, acc.rent_exempt as int, ch.total_liability as int);
            let e2 = available_balance(acc.vault_lamports + amount, acc.rent_exempt as int, ch.total_liability as int);
            let p = pricing_supply(acc.lp_supply as int);
            let m = deposit_result(ch, acc, amount)->Ok_0;
            &&& e > 0
            &&& e2 == e + amount
            &&& e * (p + m) <= e2 * p
        }),
{
    let e = available_balance(acc.vault_lamports as int, acc.rent_exempt as int, ch.total_liability as int);
    let a = amount as int;
    let p = pricing_supply(acc.lp_supply as int);
    let m = deposit_result(ch, acc, amount)->Ok_0 as int;
    assert(m == a * p / e);
    assert(e * (p + m) <= (e + a) * p) by (nonlinear_arith)
        requires
            e > 0,
            p > 0,
            a >= 0,
            m == a * p / e,
    ;
}

/// Depositing into a pool that already has LP tokens and withdrawing the
/// minted tokens right away never returns more than was deposited.
pub proof fn lemma_deposit_then_withdraw_no_profit(
    ch: ClearingHouseState,
    acc: DepositSol,
    amount: u64,
    wacc: WithdrawSol,
)
    requires
        deposit_result(ch, acc, amount) is Ok,
        acc.lp_supply > 0,
        wacc.vault_lamports == acc.vault_lamports + amount,
        wacc.rent_exempt == acc.rent_exempt,
        wacc.lp_supply == acc.lp_supply + deposit_result(ch, acc, amount)->Ok_0,
        withdraw_result(
            deposited_clearing_house(ch, amount),
            wacc,
            deposit_result(ch, acc, amount)->Ok_0,
        ) is Ok,
    ensures
        withdraw_result(
            deposited_clearing_house(ch, amount),
            wacc,
            deposit_result(ch, acc, amount)->Ok_0,
        )->Ok_0 <= amount,
{
    lemma_deposit_does_not_dilute(ch, acc, amount);
    let e = available_balance(acc.vault_lamports as int, acc.rent_exempt as int, ch.total_liability as int);
    let a = amount as int;
    let p = pricing_supply(acc.lp_supply as int);
    let m = deposit_result(ch, acc, amount)->Ok_0 as int;
    assert(m * (e + a) / (p + m) <= a) by (nonlinear_arith)
        requires
            e > 0,
            p > 0,
            a >= 0,
            m >= 0,
            m == a * p / e,
    ;
}

/// A withdrawal never lowers the value of the remaining LP tokens: it pays
/// at most the withdrawn tokens' share of the pricing supply,
/// `sol * P <= lp_amount * E`, so `(E - sol) * P >= E * (P - lp_amount)`.
pub proof fn lemma_withdraw_does_not_dilute(ch: ClearingHouseState, acc: WithdrawSol, lp_amount: u64)
    requires
        withdraw_result(ch, acc, lp_amount) is Ok,
    ensures
        ({
            let e = available_balance(acc.vault_lamports as int, acc.rent_exempt as int, ch.total_liability as int);
            let p = pricing_supply(acc.lp_supply as int);
            let sol = withdraw_result(ch, acc, lp_amount)->Ok_0 as int;
            &&& sol * p <= lp_amount * e
            &&& (e - sol) * p >= e * (p - lp_amount)
        }),
{
    let e = available_balance(acc.vault_lamports as int, acc.rent_exempt as int, ch.total_liability as int);
    let p = pricing_supply(acc.lp_supply as int);
    let l = lp_amount as int;
    let sol = withdraw_result(ch, acc, lp_amount)->Ok_0 as int;
    assert(sol == l * e / p);
    assert(sol * p <= l * e && (e - sol) * p >= e * (p - l)) by (nonlinear_arith)
        requires
            p > 0,
            e >= 0,
            l >= 0,
            sol == l * e / p,
    ;
}

/// The lamports a sequence of withdrawals pays, each of `lps[k]` LP tokens
/// in turn; a withdrawal that is refused, or that burns more tokens than
/// are in circulation (the burn fails), pays nothing and changes nothing.
pub open spec fn withdrawals_paid(ch: ClearingHouseState, acc: WithdrawSol, lps: Seq<u64>) -> int
    decreases lps.len(),
{
    if lps.len() == 0 {
        0
    } else {
        let lp = lps[0];
        let r = withdraw_result(ch, acc, lp);
        if r is Ok && lp <= acc.lp_supply {
            let sol = r->Ok_0;
            sol + withdrawals_paid(
                withdrawn_clearing_house(ch, sol),
                WithdrawSol {
                    vault_lamports: (acc.vault_lamports - sol) as u64,
                    lp_supply: (acc.lp_supply - lp) as u64,
                    ..acc
                },
                lps.drop_first(),
            )
        } else {
            withdrawals_paid(ch, acc, lps.drop_first())
        }
    }
}

proof fn lemma_withdrawals_leave_lock(ch: ClearingHouseState, acc: WithdrawSol, lps: Seq<u64>)
    requires
        acc.vault_lamports >= acc.rent_exempt + ch.total_liability,
        acc.vault_lamports - acc.rent_exempt - ch.total_liability >= pricing_supply(acc.lp_supply as int),
    ensures
        withdrawals_paid(ch, acc, lps) <= acc.vault_lamports - acc.rent_exempt - ch.total_liability
            - MINIMUM_LIQUIDITY,
    decreases lps.len(),
{
    if lps.len() > 0 {
        let lp = lps[0];
        let r = withdraw_result(ch, acc, lp);
        if r is Ok && lp <= acc.lp_supply {
            let sol = r->Ok_0 as int;
            let e = acc.vault_lamports - acc.rent_exempt - ch.total_liability;
            let p = pricing_supply(acc.lp_supply as int);
            let l = lp as int;
            assert(sol == l * e / p);
            assert(e - sol >= p - l) by (nonlinear_arith)
                requires
                    p > 0,
                    e >= p,
                    0 <= l <= p,
                    sol == l * e / p,
            ;
            let acc2 = WithdrawSol {
                vault_lamports: (acc.vault_lamports - sol) as u64,
                lp_supply: (acc.lp_supply - lp) as u64,
                ..acc
            };
            lemma_withdrawals_leave_lock(withdrawn_clearing_house(ch, r->Ok_0), acc2, lps.drop_first());
        } else {
            lemma_withdrawals_leave_lock(ch, acc, lps.drop_first());
        }
    }
}

/// The minimum liquidity burned on the first deposit stays locked: after
/// the first deposit of `amount` lamports into an empty pool, no sequence of
/// withdrawals of the circulating LP tokens ever pays out more than
/// `amount - MINIMUM_LIQUIDITY` in total.
pub proof fn lemma_minimum_liquidity_locked(
    ch: ClearingHouseState,
    dacc: DepositSol,
    amount: u64,
    wacc: WithdrawSol,
    lps: Seq<u64>,
)
    requires
        dacc.lp_supply == 0,
        dacc.vault_lamports == dacc.rent_exempt + ch.total_liability,
        deposit_result(ch, dacc, amount) is Ok,
        wacc.vault_lamports == dacc.vault_lamports + amount,
        wacc.rent_exempt == dacc.rent_exempt,
        wacc.lp_supply == deposit_result(ch, dacc, amount)->Ok_0,
    ensures
        deposit_result(ch, dacc, amount)->Ok_0 == amount - MINIMUM_LIQUIDITY,
        withdrawals_paid(deposited_clearing_house(ch, amount), wacc, lps) <= amount - MINIMUM_LIQUIDITY,
{
    lemma_withdrawals_leave_lock(deposited_clearing_house(ch, amount), wacc, lps);
}

// ---------------------------------------------------------------------------
// What each instruction computes
// ---------------------------------------------------------------------------

/// What a deposit mints, in full: into a pool that already has LP tokens,
/// with effective balance `E = vault - rent - liability` (zero when those
/// exceed the vault), a deposit of `amount` mints
/// `q = amount * (lp_supply + MINIMUM_LIQUIDITY) / E`, rounded down. It is
/// refused only when paused, for a zero amount, when `E` is zero or `q` does
/// not fit in a `u64` (`MathOverflow`), when `q` is zero (`DepositTooSmall`),
/// or when a deposit counter would overflow; never because the product
/// `amount * (lp_supply + MINIMUM_LIQUIDITY)` is large.
pub proof fn lemma_deposit_mints_pool_share(ch: ClearingHouseState, acc: DepositSol, amount: u64)
    requires
        acc.lp_supply > 0,
    ensures
        ({
            let e: int = if acc.vault_lamports >= acc.rent_exempt + ch.total_liability {
                acc.vault_lamports - acc.rent_exempt - ch.total_liability
            } else {
                0
            };
            let q: int = amount * (acc.lp_supply + MINIMUM_LIQUIDITY) / e;
            deposit_result(ch, acc, amount) == if ch.paused {
                Err::<u64, FateSwapError>(FateSwapError::Paused)
            } else if amount == 0 {
                Err(FateSwapError::ZeroAmount)
            } else if e == 0 || q > u64::MAX {
                Err(FateSwapError::MathOverflow)
            } else if q == 0 {
                Err(FateSwapError::DepositTooSmall)
            } else if ch.total_deposited + amount > u64::MAX || ch.lp_deposits_count + 1 > u64::MAX {
                Err(FateSwapError::MathOverflow)
            } else {
                Ok(q as u64)
            }
        }),
{
    let e: int = if acc.vault_lamports >= acc.rent_exempt + ch.total_liability {
        acc.vault_lamports - acc.rent_exempt - ch.total_liability
    } else {
        0
    };
    let s: int = acc.lp_supply + MINIMUM_LIQUIDITY;
    let p: int = amount * s;
    assert(p >= 0) by (nonlinear_arith)
        requires
            amount >= 0,
            s >= 0,
            p == amount * s,
    ;
    if e > 0 {
        let q: int = p / e;
        assert(p < (q + 1) * e) by (nonlinear_arith)
            requires
                e > 0,
                p >= 0,
                q == p / e,
        ;
        if q <= u64::MAX {
            assert((q + 1) * e <= 0x1_0000_0000_0000_0000 * 0xffff_ffff_ffff_ffff) by (nonlinear_arith)
                requires
                    0 <= q <= 0xffff_ffff_ffff_ffff,
                    0 < e <= 0xffff_ffff_ffff_ffff,
            ;
            assert(p <= u128::MAX);
        }
    }
}

/// The first deposit into an empty pool mints the amount less the
/// `MINIMUM_LIQUIDITY` that it burns, and is refused as too small when the
/// amount does not exceed it.
pub proof fn lemma_first_deposit_mints_amount_less_minimum(ch: ClearingHouseState, acc: DepositSol, amount: u64)
    requires
        !ch.paused,
        amount > 0,
        acc.lp_supply == 0,
    ensures
        amount <= MINIMUM_LIQUIDITY ==> deposit_result(ch, acc, amount) == Err::<u64, FateSwapError>(
            FateSwapError::DepositTooSmall,
        ),
        amount > MINIMUM_LIQUIDITY && ch.total_deposited + amount <= u64::MAX && ch.lp_deposits_count + 1 <= u64::MAX
            ==> deposit_result(ch, acc, amount) == Ok::<u64, FateSwapError>((amount - MINIMUM_LIQUIDITY) as u64),
{
}

/// An order is placed only when every check of `place_fate_order` passes: the
/// protocol is not paused, the multiplier is allowed, the nonce is the
/// pending one, a commitment is pending, the player has no active order
/// (whatever its recorded order address), the bet is at least the minimum
/// and at most `(net * max_bet_bps / 10000) * 200000 / multiplier` for the
/// net balance `net = vault - rent - liability` (zero when those exceed the
/// vault), and the net balance covers the potential payout, which is
/// `amount * multiplier / 100000` rounded down.
pub proof fn lemma_place_checks(
    ch: ClearingHouseState,
    ps: PlayerState,
    acc: PlaceFateOrder,
    nonce: u64,
    amount: u64,
    multiplier_bps: u32,
)
    requires
        place_check(ch, ps, acc, nonce, amount, multiplier_bps) is Ok,
    ensures
        ({
            let net: int = if acc.vault_lamports >= acc.rent_exempt + ch.total_liability {
                acc.vault_lamports - acc.rent_exempt - ch.total_liability
            } else {
                0
            };
            let payout = place_check(ch, ps, acc, nonce, amount, multiplier_bps)->Ok_0;
            &&& !ch.paused
            &&& valid_multiplier(multiplier_bps as int)
            &&& nonce == ps.pending_nonce
            &&& ps.pending_commitment != zero_bytes()
            &&& !ps.has_active_order
            &&& amount >= ch.min_bet
            &&& payout == amount * multiplier_bps / 100_000
            &&& net * ch.max_bet_bps <= u64::MAX
            &&& amount <= (net * ch.max_bet_bps / 10_000) * 200_000 / (multiplier_bps as int)
            &&& payout <= net
            &&& ch.total_liability + payout <= u64::MAX
        }),
{
}

/// A player with an active order cannot place another: once the protocol is
/// running, the multiplier is allowed, the nonce matches and a commitment is
/// pending, `place_fate_order` refuses with `ActiveOrderExists`.
pub proof fn lemma_place_refuses_second_order(
    ch: ClearingHouseState,
    ps: PlayerState,
    acc: PlaceFateOrder,
    nonce: u64,
    amount: u64,
    multiplier_bps: u32,
)
    requires
        !ch.paused,
        valid_multiplier(multiplier_bps as int),
        nonce == ps.pending_nonce,
        ps.pending_commitment != zero_bytes(),
        ps.has_active_order,
    ensures
        place_check(ch, ps, acc, nonce, amount, multiplier_bps) == Err::<u64, FateSwapError>(
            FateSwapError::ActiveOrderExists,
        ),
{
}

/// The transfer of one share of a lost wager: `amount * bps / 10000`
/// lamports to `recipient`, or none when that share is zero.
pub open spec fn share_transfer(amount: int, bps: int, recipient: Pubkey) -> Option<Transfer> {
    if amount * bps / 10_000 > 0 {
        Some(Transfer { recipient, lamports: (amount * bps / 10_000) as u64 })
    } else {
        None
    }
}

/// What a settlement pays. A filled order pays its potential payout to the
/// player and nothing else. An order that is not filled pays nothing to the
/// player; it pays the NFT reward, the platform fee and the bonus to the
/// configured wallets at their rates of the wager, whoever the player's
/// referrers are, and each referral reward only to the player's recorded
/// referrer at its rate.
pub proof fn lemma_settlement_pays(
    ch: ClearingHouseState,
    ps: PlayerState,
    order: FateOrder,
    acc: SettleFateOrder,
    tier1_state: Option<ReferralState>,
    tier2_state: Option<ReferralState>,
    filled: bool,
    digest: Seq<u8>,
    now: i64,
)
    requires
        settlement_plan(ch, ps, order, acc, tier1_state, tier2_state, filled, digest, now) is Ok,
    ensures
        ({
            let p = settlement_plan(ch, ps, order, acc, tier1_state, tier2_state, filled, digest, now)->Ok_0;
            let amount = order.amount as int;
            &&& p.filled == filled
            &&& filled ==> {
                &&& p.payout == Some(Transfer { recipient: acc.player, lamports: order.potential_payout })
                &&& p.tier1_reward is None && p.tier2_reward is None
                &&& p.nft_reward is None && p.platform_fee is None && p.bonus is None
            }
            &&& !filled ==> {
                &&& p.payout is None
                &&& p.nft_reward == share_transfer(amount, ch.nft_reward_bps as int, ch.nft_rewarder)
                &&& p.platform_fee == share_transfer(amount, ch.platform_fee_bps as int, ch.platform_wallet)
                &&& p.bonus == share_transfer(amount, ch.bonus_bps as int, ch.bonus_wallet)
                &&& p.tier1_reward == if acc.tier1_referrer is Some && tier1_state is Some && ps.referrer
                    != zero_key() {
                    share_transfer(amount, ch.referral_bps as int, ps.referrer)
                } else {
                    None
                }
                &&& p.tier2_reward == if acc.tier2_referrer is Some && tier2_state is Some
                    && ps.tier2_referrer != zero_key() {
                    share_transfer(amount, ch.tier2_referral_bps as int, ps.tier2_referrer)
                } else {
                    None
                }
            }
        }),
{
}

/// Once its checks pass, settling an order that is not filled succeeds
/// whenever no share of the wager overflows (`amount * bps` fits in a `u64`
/// for each rate), whether or not referrers are passed.
pub proof fn lemma_settlement_not_filled_succeeds(
    ch: ClearingHouseState,
    ps: PlayerState,
    order: FateOrder,
    acc: SettleFateOrder,
    tier1_state: Option<ReferralState>,
    tier2_state: Option<ReferralState>,
    digest: Seq<u8>,
    now: i64,
)
    requires
        settlement_check(ch, ps, order, acc, tier1_state, tier2_state, digest, now) is None,
        order.amount * ch.referral_bps <= u64::MAX,
        order.amount * ch.tier2_referral_bps <= u64::MAX,
        order.amount * ch.nft_reward_bps <= u64::MAX,
        order.amount * ch.platform_fee_bps <= u64::MAX,
        order.amount * ch.bonus_bps <= u64::MAX,
    ensures
        settlement_plan(ch, ps, order, acc, tier1_state, tier2_state, false, digest, now) is Ok,
{
}

/// The totals a settlement records: one more bet and its wager in the
/// volume; the order's payout leaves the liability and the order leaves the
/// unsettled count; a filled order adds its payout to the total paid out and
/// counts as filled; an order that is not filled counts as not filled and
/// adds its NFT reward, platform fee and bonus, `amount * bps / 10000` each,
/// to their totals.
pub proof fn lemma_settlement_totals(
    ch: ClearingHouseState,
    ps: PlayerState,
    order: FateOrder,
    acc: SettleFateOrder,
    tier1_state: Option<ReferralState>,
    tier2_state: Option<ReferralState>,
    filled: bool,
    digest: Seq<u8>,
    now: i64,
    tier1_paid: bool,
    tier2_paid: bool,
)
    requires
        settlement_plan(ch, ps, order, acc, tier1_state, tier2_state, filled, digest, now) is Ok,
        settlement_in_range(
            ch,
            ps,
            order,
            settlement_plan(ch, ps, order, acc, tier1_state, tier2_state, filled, digest, now)->Ok_0,
        ),
    ensures
        ({
            let p = settlement_plan(ch, ps, order, acc, tier1_state, tier2_state, filled, digest, now)->Ok_0;
            let ch2 = settled_clearing_house(ch, order, p, tier1_paid, tier2_paid);
            let amount = order.amount as int;
            &&& ch2.total_bets == ch.total_bets + 1
            &&& ch2.total_volume == ch.total_volume + amount
            &&& ch2.total_liability == ch.total_liability - order.potential_payout
            &&& ch2.unsettled_count == ch.unsettled_count - 1
            &&& filled ==> {
                &&& ch2.total_filled == ch.total_filled + 1
                &&& ch2.total_not_filled == ch.total_not_filled
                &&& ch2.total_payout == ch.total_payout + order.potential_payout
                &&& ch2.total_bonus_paid == ch.total_bonus_paid
            }
            &&& !filled ==> {
                &&& ch2.total_not_filled == ch.total_not_filled + 1
                &&& ch2.total_filled == ch.total_filled
                &&& ch2.total_payout == ch.total_payout
                &&& ch2.total_nft_rewards_paid == ch.total_nft_rewards_paid + amount * ch.nft_reward_bps / 10_000
                &&& ch2.total_platform_fees_paid == ch.total_platform_fees_paid + amount * ch.platform_fee_bps
                    / 10_000
                &&& ch2.total_bonus_paid == ch.total_bonus_paid + amount * ch.bonus_bps / 10_000
            }
        }),
{
}

/// An update writes every value it is given and keeps every other field:
/// for each configurable field, the value afterwards is the given one, or
/// the current one when none is given; the liability, the counters, the
/// authority, the settler and the pause flag are untouched.
pub proof fn lemma_update_config_writes_given_values(ch: ClearingHouseState, c: ConfigChanges)
    ensures
        ({
            let ch2 = configured(ch, c);
            &&& ch2.fate_fee_bps == match c.fate_fee_bps { Some(v) => v, None => ch.fate_fee_bps }
            &&& ch2.max_bet_bps == match c.max_bet_bps { Some(v) => v, None => ch.max_bet_bps }
            &&& ch2.min_bet == match c.min_bet { Some(v) => v, None => ch.min_bet }
            &&& ch2.bet_timeout == match c.bet_timeout { Some(v) => v, None => ch.bet_timeout }
            &&& ch2.referral_bps == match c.referral_bps { Some(v) => v, None => ch.referral_bps }
            &&& ch2.tier2_referral_bps == match c.tier2_referral_bps {
                Some(v) => v,
                None => ch.tier2_referral_bps,
            }
            &&& ch2.nft_reward_bps == match c.nft_reward_bps { Some(v) => v, None => ch.nft_reward_bps }
            &&& ch2.platform_fee_bps == match c.platform_fee_bps { Some(v) => v, None => ch.platform_fee_bps }
            &&& ch2.bonus_bps == match c.bonus_bps { Some(v) => v, None => ch.bonus_bps }
            &&& ch2.platform_wallet == match c.platform_wallet { Some(v) => v, None => ch.platform_wallet }
            &&& ch2.bonus_wallet == match c.bonus_wallet { Some(v) => v, None => ch.bonus_wallet }
            &&& ch2.nft_rewarder == match c.nft_rewarder { Some(v) => v, None => ch.nft_rewarder }
            &&& ch2.authority == ch.authority
            &&& ch2.settler == ch.settler
            &&& ch2.paused == ch.paused
            &&& ch2.total_liability == ch.total_liability
            &&& ch2.unsettled_count == ch.unsettled_count
            &&& ch2.total_bets == ch.total_bets
            &&& ch2.house_profit == ch.house_profit
            &&& ch2.total_deposited == ch.total_deposited
            &&& ch2.total_withdrawn == ch.total_withdrawn
        }),
{
}

/// What a withdrawal pays, in full: with effective balance
/// `E = vault - rent - liability` (zero when those exceed the vault),
/// `lp_amount` LP tokens pay `sol = lp_amount * E / (lp_supply + MINIMUM_LIQUIDITY)`,
/// rounded down. It is refused only when paused, for a zero amount, with no
/// LP tokens in circulation or when `sol` does not fit in a `u64`
/// (`MathOverflow`), when `sol` is zero (`WithdrawTooSmall`), when `sol`
/// exceeds `E` (`InsufficientLiquidity`), or when a withdrawal counter
/// would overflow.
pub proof fn lemma_withdraw_pays_pool_share(ch: ClearingHouseState, acc: WithdrawSol, lp_amount: u64)
    ensures
        ({
            let e: int = if acc.vault_lamports >= acc.rent_exempt + ch.total_liability {
                acc.vault_lamports - acc.rent_exempt - ch.total_liability
            } else {
                0
            };
            let sol: int = lp_amount * e / (acc.lp_supply + MINIMUM_LIQUIDITY);
            withdraw_result(ch, acc, lp_amount) == if ch.paused {
                Err::<u64, FateSwapError>(FateSwapError::Paused)
            } else if lp_amount == 0 {
                Err(FateSwapError::ZeroAmount)
            } else if acc.lp_supply == 0 || sol > u64::MAX {
                Err(FateSwapError::MathOverflow)
            } else if sol == 0 {
                Err(FateSwapError::WithdrawTooSmall)
            } else if sol > e {
                Err(FateSwapError::InsufficientLiquidity)
            } else if ch.total_withdrawn + sol > u64::MAX || ch.lp_withdrawals_count + 1 > u64::MAX {
                Err(FateSwapError::MathOverflow)
            } else {
                Ok(sol as u64)
            }
        }),
{
}

/// What placing an order writes: an order for the player's wager at its
/// multiplier, owed `amount * multiplier / 100000`, bound to the pending
/// commitment and nonce, pending since `now`; the clearing house owes that
/// payout on top of its liability, counts one more unsettled order and keeps
/// the larger of its largest bet and this one, with its settled counts
/// untouched; the player has this order active, the next nonce and no
/// pending commitment, with the rest of its state untouched.
pub proof fn lemma_place_effects(
    ch: ClearingHouseState,
    ps: PlayerState,
    acc: PlaceFateOrder,
    nonce: u64,
    amount: u64,
    multiplier_bps: u32,
    token_mint: Pubkey,
    token_amount: u64,
    now: i64,
)
    requires
        place_check(ch, ps, acc, nonce, amount, multiplier_bps) is Ok,
    ensures
        ({
            let payout = place_check(ch, ps, acc, nonce, amount, multiplier_bps)->Ok_0;
            let o = placed_order(ps, acc, nonce, amount, multiplier_bps, payout, token_mint, token_amount, now);
            let ch2 = placed_clearing_house(ch, amount, payout);
            let ps2 = placed_player_state(ps, acc);
            &&& o.player == acc.player
            &&& o.amount == amount
            &&& o.multiplier_bps == multiplier_bps
            &&& o.potential_payout == amount * multiplier_bps / 100_000
            &&& o.commitment_hash == ps.pending_commitment
            &&& o.nonce == nonce
            &&& o.status == FateOrderStatus::Pending
            &&& o.timestamp == now
            &&& ch2.total_liability == ch.total_liability + amount * multiplier_bps / 100_000
            &&& ch2.unsettled_count == ch.unsettled_count + 1
            &&& ch2.largest_bet == if amount > ch.largest_bet { amount } else { ch.largest_bet }
            &&& ch2.total_bets == ch.total_bets
            &&& ch2.total_volume == ch.total_volume
            &&& ch2.house_profit == ch.house_profit
            &&& ch2.total_deposited == ch.total_deposited
            &&& ch2.paused == ch.paused
            &&& ps2.has_active_order
            &&& ps2.active_order == acc.fate_order
            &&& ps2.nonce == ps.nonce + 1
            &&& ps2.pending_commitment == zero_bytes()
            &&& ps2.pending_nonce == ps.pending_nonce
            &&& ps2.referrer == ps.referrer
            &&& ps2.tier2_referrer == ps.tier2_referrer
            &&& ps2.total_orders == ps.total_orders
            &&& ps2.total_wagered == ps.total_wagered
        }),
{
}

/// A settlement goes ahead only with the configured NFT rewarder, platform
/// wallet and bonus wallet, and with referrer wallets that are the player's
/// recorded referrers (when one is recorded).
pub proof fn lemma_settlement_checks_accounts(
    ch: ClearingHouseState,
    ps: PlayerState,
    order: FateOrder,
    acc: SettleFateOrder,
    tier1_state: Option<ReferralState>,
    tier2_state: Option<ReferralState>,
    filled: bool,
    digest: Seq<u8>,
    now: i64,
)
    requires
        settlement_plan(ch, ps, order, acc, tier1_state, tier2_state, filled, digest, now) is Ok,
    ensures
        acc.nft_rewarder == ch.nft_rewarder,
        acc.platform_wallet == ch.platform_wallet,
        acc.bonus_wallet == ch.bonus_wallet,
        acc.tier1_referrer matches Some(k) ==> (ps.referrer != zero_key() ==> k == ps.referrer),
        acc.tier2_referrer matches Some(k) ==> (ps.tier2_referrer != zero_key() ==> k == ps.tier2_referrer),
        acc.tier1_referrer is Some && ps.referrer != zero_key() ==> (tier1_state matches Some(rs) ==> rs.referrer
            == ps.referrer),
        acc.tier2_referrer is Some && ps.tier2_referrer != zero_key() ==> (tier2_state matches Some(rs)
            ==> rs.referrer == ps.tier2_referrer),
{
}

/// What a settlement writes besides the clearing house: the order is marked
/// filled or not filled and is otherwise unchanged; the player counts one
/// more order and its wager, has no active order, and a filled order adds
/// its gain `payout - amount` to the player's winnings; the house gains the
/// wager of an order that is not filled and loses the gain of a filled one;
/// a paid referral reward is credited to its referral state; the lifetime
/// referral total grows by the referral rewards paid.
pub proof fn lemma_settlement_records(
    ch: ClearingHouseState,
    ps: PlayerState,
    order: FateOrder,
    acc: SettleFateOrder,
    tier1_state: Option<ReferralState>,
    tier2_state: Option<ReferralState>,
    filled: bool,
    digest: Seq<u8>,
    now: i64,
    tier1_paid: bool,
    tier2_paid: bool,
)
    requires
        settlement_plan(ch, ps, order, acc, tier1_state, tier2_state, filled, digest, now) is Ok,
        settlement_in_range(
            ch,
            ps,
            order,
            settlement_plan(ch, ps, order, acc, tier1_state, tier2_state, filled, digest, now)->Ok_0,
        ),
    ensures
        ({
            let p = settlement_plan(ch, ps, order, acc, tier1_state, tier2_state, filled, digest, now)->Ok_0;
            let ch2 = settled_clearing_house(ch, order, p, tier1_paid, tier2_paid);
            let ps2 = settled_player_state(ps, order, filled);
            let o2 = settled_order(order, filled);
            let amount = order.amount as int;
            let payout = order.potential_payout as int;
            let r1: int = if tier1_paid && p.tier1_reward is Some { p.tier1_reward->0.lamports as int } else { 0 };
            let r2: int = if tier2_paid && p.tier2_reward is Some { p.tier2_reward->0.lamports as int } else { 0 };
            &&& o2 == (FateOrder {
                status: if filled { FateOrderStatus::Filled } else { FateOrderStatus::NotFilled },
                ..order
            })
            &&& ps2.total_orders == ps.total_orders + 1
            &&& ps2.total_wagered == ps.total_wagered + amount
            &&& ps2.total_won == if filled { ps.total_won + payout - amount } else { ps.total_won as int }
            &&& !ps2.has_active_order
            &&& ps2.active_order == zero_key()
            &&& ps2.referrer == ps.referrer
            &&& ps2.nonce == ps.nonce
            &&& (!filled && amount <= i64::MAX ==> ps2.net_pnl == ps.net_pnl - amount)
            &&& (filled && payout - amount <= i64::MAX ==> ps2.net_pnl == ps.net_pnl + (payout - amount))
            &&& (!filled && amount <= i64::MAX ==> ch2.house_profit == ch.house_profit + amount)
            &&& (filled && payout <= i64::MAX ==> ch2.house_profit == ch.house_profit - (payout - amount))
            &&& (filled ==> ch2.total_referral_paid == ch.total_referral_paid)
            &&& (!filled && ch.total_referral_paid + r1 + r2 <= u64::MAX ==> ch2.total_referral_paid
                == ch.total_referral_paid + r1 + r2)
            &&& (!filled && tier1_state is Some && tier1_state->0.total_earnings + r1 <= u64::MAX ==> credited(
                tier1_state,
                paid_lamports(p.tier1_reward, tier1_paid),
            ) == Some(ReferralState { total_earnings: (tier1_state->0.total_earnings + r1) as u64, ..tier1_state->0 }))
            &&& (!filled && tier2_state is Some && tier2_state->0.total_earnings + r2 <= u64::MAX ==> credited(
                tier2_state,
                paid_lamports(p.tier2_reward, tier2_paid),
            ) == Some(ReferralState { total_earnings: (tier2_state->0.total_earnings + r2) as u64, ..tier2_state->0 }))
            &&& credited(None, r1) is None
        }),
{
}

/// One for a planned transfer, zero for none.
pub open spec fn planned(t: Option<Transfer>) -> int {
    if t is Some {
        1
    } else {
        0
    }
}

/// The reward events of a settlement: one per transfer planned, the
/// tier-1 reward's first when there is one (paid, or failed when its
/// transfer did not go through) and the bonus's last, as paid, with its
/// recipient and amount.
pub proof fn lemma_settlement_reward_events(p: SettlementPlan, tier1_paid: bool, tier2_paid: bool, key: Pubkey, now: i64)
    ensures
        ({
            let ev = reward_events(p, tier1_paid, tier2_paid, key, now);
            &&& ev.len() == planned(p.tier1_reward) + planned(p.tier2_reward) + planned(p.nft_reward) + planned(
                p.platform_fee,
            ) + planned(p.bonus)
            &&& p.tier1_reward matches Some(t) ==> ev[0] == if tier1_paid {
                RewardEvent::Paid(
                    RewardPaid { reward_type: 0, recipient: t.recipient, amount: t.lamports, order: key, timestamp: now },
                )
            } else {
                RewardEvent::Failed(
                    RewardFailed { reward_type: 0, recipient: t.recipient, amount: t.lamports, order: key, timestamp: now },
                )
            }
            &&& p.bonus matches Some(t) ==> ev[ev.len() - 1] == RewardEvent::Paid(
                RewardPaid { reward_type: 4, recipient: t.recipient, amount: t.lamports, order: key, timestamp: now },
            )
        }),
{
}

/// An expired order can be reclaimed exactly when it is pending, strictly
/// more than the timeout has passed since it was placed, and the clearing
/// house owes its payout; reclaiming releases that payout from the
/// liability and the order from the unsettled count, and counts no bet,
/// volume, fill or profit.
pub proof fn lemma_reclaim_effects(ch: ClearingHouseState, order: FateOrder, now: i64)
    ensures
        reclaim_check(ch, order, now) is None <==> (order.status == FateOrderStatus::Pending && now
            - order.timestamp > ch.bet_timeout && ch.total_liability >= order.potential_payout && ch.unsettled_count
            >= 1),
        reclaim_check(ch, order, now) is None ==> {
            let ch2 = reclaimed_clearing_house(ch, order);
            &&& ch2.total_liability == ch.total_liability - order.potential_payout
            &&& ch2.unsettled_count == ch.unsettled_count - 1
            &&& ch2.total_bets == ch.total_bets
            &&& ch2.total_not_filled == ch.total_not_filled
            &&& ch2.total_volume == ch.total_volume
            &&& ch2.house_profit == ch.house_profit
            &&& ch2.total_payout == ch.total_payout
        },
{
}

/// Setting a referrer goes ahead exactly when the referrer is not the
/// player, the player has none yet and the referral count fits; the player
/// then records the referrer, and as tier-2 referrer the referrer's own
/// referrer (none when it is not passed, or when it is the player), and the
/// referrer's count of referrals grows by one (to one for a new referral
/// state).
pub proof fn lemma_set_referrer_effects(ps: PlayerState, rs: ReferralState, acc: SetReferrer, referrer_key: Pubkey)
    ensures
        set_referrer_check(ps, rs, acc, referrer_key) is None <==> (acc.player != referrer_key && ps.referrer
            == zero_key() && (rs.referrer == zero_key() || rs.total_referrals + 1 <= u64::MAX)),
        acc.referrer_player_state matches Some(k) ==> tier2_for(acc.referrer_player_state, acc.player) == if k
            == acc.player {
            zero_key()
        } else {
            k
        },
        acc.referrer_player_state is None ==> tier2_for(acc.referrer_player_state, acc.player) == zero_key(),
        rs.referrer == zero_key() ==> {
            let c = claimed_referral_state(rs, referrer_key, acc.referral_state_bump);
            &&& c.referrer == referrer_key
            &&& c.total_referrals == 0
            &&& c.total_earnings == 0
        },
        rs.referrer != zero_key() ==> claimed_referral_state(rs, referrer_key, acc.referral_state_bump) == rs,
{
}

/// `initialize` accepts exactly the configurations that `update_config`
/// would accept as changes to the house it creates: a house edge of at most
/// 1000 bps, a maximum bet of at most 500 bps, a positive minimum bet and a
/// timeout of at least 60 seconds.
pub proof fn lemma_initialize_and_update_bounds_agree(
    acc: Initialize,
    fate_fee_bps: u16,
    max_bet_bps: u16,
    min_bet: u64,
    bet_timeout: i64,
)
    ensures
        initial_config_valid(fate_fee_bps, max_bet_bps, min_bet, bet_timeout) <==> changes_accepted(
            initial_state(acc, fate_fee_bps, max_bet_bps, min_bet, bet_timeout),
            ConfigChanges {
                fate_fee_bps: Some(fate_fee_bps),
                max_bet_bps: Some(max_bet_bps),
                min_bet: Some(min_bet),
                bet_timeout: Some(bet_timeout),
                referral_bps: None,
                tier2_referral_bps: None,
                nft_reward_bps: None,
                platform_fee_bps: None,
                bonus_bps: None,
                platform_wallet: None,
                bonus_wallet: None,
                nft_rewarder: None,
            },
        ),
        initial_config_valid(fate_fee_bps, max_bet_bps, min_bet, bet_timeout) <==> (fate_fee_bps <= 1000
            && max_bet_bps <= 500 && min_bet > 0 && bet_timeout >= 60),
{
}

/// Which updates are accepted, in full: each given house edge at most 1000
/// bps, each given maximum bet at most 500 bps, each given split rate at
/// most 100 bps, a given minimum bet positive, a given timeout at least 60
/// seconds, and the five split rates after the update (given or current)
/// at most 500 bps together.
pub proof fn lemma_update_config_accepts(ch: ClearingHouseState, c: ConfigChanges)
    ensures
        changes_accepted(ch, c) <==> {
            &&& (c.fate_fee_bps matches Some(v) ==> v <= 1000)
            &&& (c.max_bet_bps matches Some(v) ==> v <= 500)
            &&& (c.min_bet matches Some(v) ==> v > 0)
            &&& (c.bet_timeout matches Some(v) ==> v >= 60)
            &&& (c.referral_bps matches Some(v) ==> v <= 100)
            &&& (c.tier2_referral_bps matches Some(v) ==> v <= 100)
            &&& (c.nft_reward_bps matches Some(v) ==> v <= 100)
            &&& (c.platform_fee_bps matches Some(v) ==> v <= 100)
            &&& (c.bonus_bps matches Some(v) ==> v <= 100)
            &&& (match c.referral_bps { Some(v) => v, None => ch.referral_bps }) + (match c.tier2_referral_bps {
                Some(v) => v,
                None => ch.tier2_referral_bps,
            }) + (match c.nft_reward_bps { Some(v) => v, None => ch.nft_reward_bps }) + (match c.platform_fee_bps {
                Some(v) => v,
                None => ch.platform_fee_bps,
            }) + (match c.bonus_bps { Some(v) => v, None => ch.bonus_bps }) <= 500
        },
{
}

/// What an event of `update_config` reports: by the authority at `now`,
/// for the field its id names, the value given for that field and the
/// field's value before the update (the timeout as its value cast to `u64`).
pub open spec fn reports_change(
    e: ConfigUpdated,
    ch: ClearingHouseState,
    c: ConfigChanges,
    authority: Pubkey,
    now: i64,
) -> bool {
    &&& e.authority == authority
    &&& e.timestamp == now
    &&& match e.field_id {
        0 => c.fate_fee_bps matches Some(v) && e.new_value == v && e.old_value == ch.fate_fee_bps,
        1 => c.max_bet_bps matches Some(v) && e.new_value == v && e.old_value == ch.max_bet_bps,
        2 => c.min_bet matches Some(v) && e.new_value == v && e.old_value == ch.min_bet,
        3 => c.bet_timeout matches Some(v) && e.new_value == wrap_u64(v as int) && e.old_value == wrap_u64(
            ch.bet_timeout as int,
        ),
        4 => c.referral_bps matches Some(v) && e.new_value == v && e.old_value == ch.referral_bps,
        5 => c.tier2_referral_bps matches Some(v) && e.new_value == v && e.old_value == ch.tier2_referral_bps,
        6 => c.nft_reward_bps matches Some(v) && e.new_value == v && e.old_value == ch.nft_reward_bps,
        7 => c.platform_fee_bps matches Some(v) && e.new_value == v && e.old_value == ch.platform_fee_bps,
        8 => c.bonus_bps matches Some(v) && e.new_value == v && e.old_value == ch.bonus_bps,
        _ => false,
    }
}

/// The number of the nine numeric fields that an update is given.
pub open spec fn given_numeric_fields(c: ConfigChanges) -> int {
    (if c.fate_fee_bps is Some { 1int } else { 0int }) + (if c.max_bet_bps is Some { 1int } else { 0int }) + (if c.min_bet
        is Some { 1int } else { 0int }) + (if c.bet_timeout is Some { 1int } else { 0int }) + (if c.referral_bps is Some {
        1int
    } else {
        0int
    }) + (if c.tier2_referral_bps is Some { 1int } else { 0int }) + (if c.nft_reward_bps is Some { 1int } else { 0int })
        + (if c.platform_fee_bps is Some { 1int } else { 0int }) + (if c.bonus_bps is Some { 1int } else { 0int })
}

/// Events that each report a change, with field ids increasing and below `bound`.
#[verifier::opaque]
spec fn events_in_order(
    ev: Seq<ConfigUpdated>,
    bound: int,
    ch: ClearingHouseState,
    c: ConfigChanges,
    authority: Pubkey,
    now: i64,
) -> bool {
    &&& forall|i: int| 0 <= i < ev.len() ==> reports_change(#[trigger] ev[i], ch, c, authority, now) && ev[i].field_id < bound
    &&& forall|i: int, j: int| 0 <= i < j < ev.len() ==> #[trigger] ev[i].field_id < #[trigger] ev[j].field_id
}

proof fn lemma_append_field_event(
    a: Seq<ConfigUpdated>,
    b: Seq<ConfigUpdated>,
    k: int,
    ch: ClearingHouseState,
    c: ConfigChanges,
    authority: Pubkey,
    now: i64,
)
    requires
        events_in_order(a, k, ch, c, authority, now),
        b.len() <= 1,
        b.len() == 1 ==> reports_change(b[0], ch, c, authority, now) && b[0].field_id == k,
    ensures
        events_in_order(a + b, k + 1, ch, c, authority, now),
{
    reveal(events_in_order);
    let s = a + b;
    assert forall|i: int| 0 <= i < s.len() implies reports_change(#[trigger] s[i], ch, c, authority, now)
        && s[i].field_id < k + 1 by {
        if i >= a.len() {
            assert(s[i] == b[0]);
        } else {
            assert(s[i] == a[i]);
        }
    }
    assert forall|i: int, j: int| 0 <= i < j < s.len() implies #[trigger] s[i].field_id < #[trigger] s[j].field_id by {
        if j >= a.len() {
            assert(s[j] == b[0]);
            assert(s[i] == a[i]);
        } else {
            assert(s[i] == a[i] && s[j] == a[j]);
        }
    }
}

/// The events of an accepted update, in full: one for each numeric field
/// that is given, in field order, each by the authority at `now` and
/// reporting its field's given value and its value before the update.
pub proof fn lemma_update_config_events(ch: ClearingHouseState, c: ConfigChanges, authority: Pubkey, now: i64)
    ensures
        ({
            let ev = config_events(ch, c, authority, now);
            &&& ev.len() == given_numeric_fields(c)
            &&& forall|i: int| 0 <= i < ev.len() ==> reports_change(#[trigger] ev[i], ch, c, authority, now)
            &&& forall|i: int, j: int| 0 <= i < j < ev.len() ==> #[trigger] ev[i].field_id < #[trigger] ev[j].field_id
        }),
{
    let e0 = field_event(0, ch.fate_fee_bps as int, opt_u16(c.fate_fee_bps), authority, now);
    let e1 = field_event(1, ch.max_bet_bps as int, opt_u16(c.max_bet_bps), authority, now);
    let e2 = field_event(
        2,
        ch.min_bet as int,
        match c.min_bet {
            Some(v) => Some(v as int),
            None => None,
        },
        authority,
        now,
    );
    let e3 = field_event(
        3,
        wrap_u64(ch.bet_timeout as int),
        match c.bet_timeout {
            Some(v) => Some(wrap_u64(v as int)),
            None => None,
        },
        authority,
        now,
    );
    let e4 = field_event(4, ch.referral_bps as int, opt_u16(c.referral_bps), authority, now);
    let e5 = field_event(5, ch.tier2_referral_bps as int, opt_u16(c.tier2_referral_bps), authority, now);
    let e6 = field_event(6, ch.nft_reward_bps as int, opt_u16(c.nft_reward_bps), authority, now);
    let e7 = field_event(7, ch.platform_fee_bps as int, opt_u16(c.platform_fee_bps), authority, now);
    let e8 = field_event(8, ch.bonus_bps as int, opt_u16(c.bonus_bps), authority, now);
    assert(0 <= wrap_u64(ch.bet_timeout as int) <= u64::MAX);
    assert(c.bet_timeout matches Some(v) ==> 0 <= wrap_u64(v as int) <= u64::MAX);
    let empty = Seq::<ConfigUpdated>::empty();
    assert(events_in_order(empty, 0, ch, c, authority, now)) by {
        reveal(events_in_order);
    }
    lemma_append_field_event(empty, e0, 0, ch, c, authority, now);
    assert(empty + e0 =~= e0);
    lemma_append_field_event(e0, e1, 1, ch, c, authority, now);
    lemma_append_field_event(e0 + e1, e2, 2, ch, c, authority, now);
    lemma_append_field_event(e0 + e1 + e2, e3, 3, ch, c, authority, now);
    lemma_append_field_event(e0 + e1 + e2 + e3, e4, 4, ch, c, authority, now);
    lemma_append_field_event(e0 + e1 + e2 + e3 + e4, e5, 5, ch, c, authority, now);
    lemma_append_field_event(e0 + e1 + e2 + e3 + e4 + e5, e6, 6, ch, c, authority, now);
    lemma_append_field_event(e0 + e1 + e2 + e3 + e4 + e5 + e6, e7, 7, ch, c, authority, now);
    lemma_append_field_event(e0 + e1 + e2 + e3 + e4 + e5 + e6 + e7, e8, 8, ch, c, authority, now);
    assert(config_events(ch, c, authority, now) == e0 + e1 + e2 + e3 + e4 + e5 + e6 + e7 + e8);
    reveal(events_in_order);
}

/// An order that passes every rule is placed: when the protocol runs, the
/// multiplier is allowed, the nonce is the pending one, a commitment is
/// pending, the player has no active order, the bet is at least the minimum
/// and at most `(net * max_bet_bps / 10000) * 200000 / multiplier` for the
/// net balance `net`, the net balance covers the payout
/// `amount * multiplier / 100000`, and the counters stay in range, the
/// order is placed with that payout.
pub proof fn lemma_place_succeeds(
    ch: ClearingHouseState,
    ps: PlayerState,
    acc: PlaceFateOrder,
    nonce: u64,
    amount: u64,
    multiplier_bps: u32,
)
    requires
        !ch.paused,
        valid_multiplier(multiplier_bps as int),
        nonce == ps.pending_nonce,
        ps.pending_commitment != zero_bytes(),
        !ps.has_active_order,
        amount >= ch.min_bet,
        ({
            let net: int = if acc.vault_lamports >= acc.rent_exempt + ch.total_liability {
                acc.vault_lamports - acc.rent_exempt - ch.total_liability
            } else {
                0
            };
            &&& net * ch.max_bet_bps <= u64::MAX
            &&& amount <= (net * ch.max_bet_bps / 10_000) * 200_000 / (multiplier_bps as int)
            &&& amount * multiplier_bps / 100_000 <= net
        }),
        ch.total_liability + amount * multiplier_bps / 100_000 <= u64::MAX,
        ch.unsettled_count + 1 <= u64::MAX,
        ps.nonce + 1 <= u64::MAX,
    ensures
        place_check(ch, ps, acc, nonce, amount, multiplier_bps) == Ok::<u64, FateSwapError>(
            (amount * multiplier_bps / 100_000) as u64,
        ),
{
    let net: int = if acc.vault_lamports >= acc.rent_exempt + ch.total_liability {
        acc.vault_lamports - acc.rent_exempt - ch.total_liability
    } else {
        0
    };
    let base: int = net * ch.max_bet_bps / 10_000;
    assert(0 <= base <= u64::MAX / 10_000) by (nonlinear_arith)
        requires
            0 <= net * ch.max_bet_bps <= u64::MAX,
            base == net * ch.max_bet_bps / 10_000,
    ;
    assert(base * 200_000 / (multiplier_bps as int) <= 2 * base) by (nonlinear_arith)
        requires
            base >= 0,
            multiplier_bps >= 101_000,
    ;
}

/// A settlement whose accounts and seed are right goes through: with the
/// configured NFT rewarder, platform and bonus wallets, the settler's
/// signature, a pending order whose commitment is the digest of the seed,
/// placed no more than the timeout ago, and referrer wallets and referral
/// states (when passed) that are the player's recorded referrers, the order
/// is settled filled as asked; not filled too, when no share of the wager
/// overflows.
pub proof fn lemma_settlement_succeeds(
    ch: ClearingHouseState,
    ps: PlayerState,
    order: FateOrder,
    acc: SettleFateOrder,
    tier1_state: Option<ReferralState>,
    tier2_state: Option<ReferralState>,
    filled: bool,
    digest: Seq<u8>,
    now: i64,
)
    requires
        acc.nft_rewarder == ch.nft_rewarder,
        acc.platform_wallet == ch.platform_wallet,
        acc.bonus_wallet == ch.bonus_wallet,
        acc.settler == ch.settler,
        order.status == FateOrderStatus::Pending,
        digest == order.commitment_hash@,
        i64::MIN <= now - order.timestamp <= ch.bet_timeout,
        acc.tier1_referrer matches Some(k) ==> k == ps.referrer,
        acc.tier2_referrer matches Some(k) ==> k == ps.tier2_referrer,
        tier1_state matches Some(rs) ==> rs.referrer == ps.referrer,
        tier2_state matches Some(rs) ==> rs.referrer == ps.tier2_referrer,
        !filled ==> {
            &&& order.amount * ch.referral_bps <= u64::MAX
            &&& order.amount * ch.tier2_referral_bps <= u64::MAX
            &&& order.amount * ch.nft_reward_bps <= u64::MAX
            &&& order.amount * ch.platform_fee_bps <= u64::MAX
            &&& order.amount * ch.bonus_bps <= u64::MAX
        },
    ensures
        settlement_plan(ch, ps, order, acc, tier1_state, tier2_state, filled, digest, now) matches Ok(p)
            && p.filled == filled,
{
}

/// The settler names a referrer exactly when the signer is the settler,
/// the referrer is not the player, the player (set up if new) has none yet
/// and the referral count fits.
pub proof fn lemma_admin_set_referrer_check(
    ch: ClearingHouseState,
    ps: PlayerState,
    rs: ReferralState,
    acc: AdminSetReferrer,
    player_key: Pubkey,
    referrer_key: Pubkey,
)
    ensures
        admin_set_referrer_check(ch, ps, rs, acc, player_key, referrer_key) is None <==> {
            &&& acc.settler == ch.settler
            &&& player_key != referrer_key
            &&& (ps.player == zero_key() || ps.referrer == zero_key())
            &&& (rs.referrer == zero_key() || rs.total_referrals + 1 <= u64::MAX)
        },
        ps.player == zero_key() ==> {
            let c = claimed_player_state(ps, player_key, acc.player_state_bump);
            &&& c.player == player_key
            &&& c.referrer == zero_key()
            &&& c.nonce == 0
            &&& !c.has_active_order
            &&& c.total_orders == 0
            &&& c.pending_commitment == ps.pending_commitment
            &&& c.pending_nonce == ps.pending_nonce
        },
        ps.player != zero_key() ==> claimed_player_state(ps, player_key, acc.player_state_bump) == ps,
{
}

/// Settlement never overflows while the books are far from the limits of
/// their integers: when every lifetime counter is at most 2^62 in size,
/// the order's payout (at least its wager) is at most 2^60, and the house
/// owes that payout for one or more unsettled orders, every counter a
/// settlement updates stays in range.
pub proof fn lemma_settlement_in_range_when_books_small(
    ch: ClearingHouseState,
    ps: PlayerState,
    order: FateOrder,
    acc: SettleFateOrder,
    tier1_state: Option<ReferralState>,
    tier2_state: Option<ReferralState>,
    filled: bool,
    digest: Seq<u8>,
    now: i64,
)
    requires
        settlement_plan(ch, ps, order, acc, tier1_state, tier2_state, filled, digest, now) is Ok,
        order.amount <= order.potential_payout <= 0x1000_0000_0000_0000,
        ch.total_liability >= order.potential_payout,
        ch.unsettled_count >= 1,
        ch.total_bets <= 0x4000_0000_0000_0000,
        ch.total_filled <= 0x4000_0000_0000_0000,
        ch.total_not_filled <= 0x4000_0000_0000_0000,
        ch.total_volume <= 0x4000_0000_0000_0000,
        ch.total_payout <= 0x4000_0000_0000_0000,
        ch.total_nft_rewards_paid <= 0x4000_0000_0000_0000,
        ch.total_platform_fees_paid <= 0x4000_0000_0000_0000,
        ch.total_bonus_paid <= 0x4000_0000_0000_0000,
        -0x4000_0000_0000_0000 <= ch.house_profit <= 0x4000_0000_0000_0000,
        ps.total_orders <= 0x4000_0000_0000_0000,
        ps.total_wagered <= 0x4000_0000_0000_0000,
        ps.total_won <= 0x4000_0000_0000_0000,
        -0x4000_0000_0000_0000 <= ps.net_pnl <= 0x4000_0000_0000_0000,
    ensures
        settlement_in_range(
            ch,
            ps,
            order,
            settlement_plan(ch, ps, order, acc, tier1_state, tier2_state, filled, digest, now)->Ok_0,
        ),
{
    lemma_settlement_pays(ch, ps, order, acc, tier1_state, tier2_state, filled, digest, now);
    let a = order.amount as int;
    assert forall|bps: int| 0 <= bps <= 0xffff implies #[trigger] (a * bps / 10_000) <= 7 * a by {
        assert(a * bps / 10_000 <= 7 * a) by (nonlinear_arith)
            requires
                a >= 0,
                0 <= bps <= 0xffff,
        ;
    }
    assert(a * ch.nft_reward_bps / 10_000 <= 7 * a);
    assert(a * ch.platform_fee_bps / 10_000 <= 7 * a);
    assert(a * ch.bonus_bps / 10_000 <= 7 * a);
}

/// What the liquidity instructions record: a deposit adds its amount to
/// the lifetime deposits and counts one deposit; a withdrawal adds the
/// lamports paid to the lifetime withdrawals and counts one withdrawal;
/// neither touches the liability, the bets or the configuration.
pub proof fn lemma_lp_flows_record(ch: ClearingHouseState, amount: u64, sol: u64)
    requires
        ch.total_deposited + amount <= u64::MAX,
        ch.lp_deposits_count + 1 <= u64::MAX,
        ch.total_withdrawn + sol <= u64::MAX,
        ch.lp_withdrawals_count + 1 <= u64::MAX,
    ensures
        ({
            let d = deposited_clearing_house(ch, amount);
            &&& d.total_deposited == ch.total_deposited + amount
            &&& d.lp_deposits_count == ch.lp_deposits_count + 1
            &&& d.total_withdrawn == ch.total_withdrawn
            &&& d.lp_withdrawals_count == ch.lp_withdrawals_count
            &&& d.total_liability == ch.total_liability
            &&& d.unsettled_count == ch.unsettled_count
            &&& d.total_bets == ch.total_bets
            &&& d.max_bet_bps == ch.max_bet_bps
        }),
        ({
            let w = withdrawn_clearing_house(ch, sol);
            &&& w.total_withdrawn == ch.total_withdrawn + sol
            &&& w.lp_withdrawals_count == ch.lp_withdrawals_count + 1
            &&& w.total_deposited == ch.total_deposited
            &&& w.lp_deposits_count == ch.lp_deposits_count
            &&& w.total_liability == ch.total_liability
            &&& w.unsettled_count == ch.unsettled_count
            &&& w.total_bets == ch.total_bets
            &&& w.max_bet_bps == ch.max_bet_bps
        }),
{
}

/// A new clearing house runs unpaused with the given accounts and
/// configuration, no revenue split, nothing owed and every statistic zero.
pub proof fn lemma_initial_state(
    acc: Initialize,
    fate_fee_bps: u16,
    max_bet_bps: u16,
    min_bet: u64,
    bet_timeout: i64,
)
    ensures
        ({
            let ch = initial_state(acc, fate_fee_bps, max_bet_bps, min_bet, bet_timeout);
            &&& ch.authority == acc.authority
            &&& ch.settler == acc.settler
            &&& ch.platform_wallet == acc.platform_wallet
            &&& ch.bonus_wallet == acc.bonus_wallet
            &&& ch.nft_rewarder == acc.nft_rewarder
            &&& !ch.paused
            &&& ch.fate_fee_bps == fate_fee_bps
            &&& ch.max_bet_bps == max_bet_bps
            &&& ch.min_bet == min_bet
            &&& ch.bet_timeout == bet_timeout
            &&& ch.referral_bps == 0 && ch.tier2_referral_bps == 0 && ch.nft_reward_bps == 0
            &&& ch.platform_fee_bps == 0 && ch.bonus_bps == 0
            &&& ch.total_liability == 0 && ch.unsettled_count == 0
            &&& ch.total_bets == 0 && ch.total_filled == 0 && ch.total_not_filled == 0
            &&& ch.total_volume == 0 && ch.house_profit == 0 && ch.total_payout == 0
            &&& ch.largest_bet == 0 && ch.largest_payout == 0
            &&& ch.total_referral_paid == 0 && ch.total_nft_rewards_paid == 0
            &&& ch.total_platform_fees_paid == 0 && ch.total_bonus_paid == 0
            &&& ch.total_deposited == 0 && ch.total_withdrawn == 0
            &&& ch.lp_deposits_count == 0 && ch.lp_withdrawals_count == 0
        }),
{
}

} // verus!
