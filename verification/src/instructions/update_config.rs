//! Updating the protocol's configuration (authority only).

use vstd::prelude::*;
use crate::errors::FateSwapError;
use crate::events::ConfigUpdated;
use crate::math::{i64_as_u64, wrap_u64};
use crate::pubkey::Pubkey;
use crate::state::ClearingHouseState;

verus! {

/// The new values that `update_config` was given; `None` leaves a field as it is.
#[derive(Clone, Copy, Debug)]
pub struct ConfigChanges {
    pub fate_fee_bps: Option<u16>,
    pub max_bet_bps: Option<u16>,
    pub min_bet: Option<u64>,
    pub bet_timeout: Option<i64>,
    pub referral_bps: Option<u16>,
    pub tier2_referral_bps: Option<u16>,
    pub nft_reward_bps: Option<u16>,
    pub platform_fee_bps: Option<u16>,
    pub bonus_bps: Option<u16>,
    pub platform_wallet: Option<Pubkey>,
    pub bonus_wallet: Option<Pubkey>,
    pub nft_rewarder: Option<Pubkey>,
}

/// The given value, or the current one when none is given.
pub open spec fn or_current<T>(v: Option<T>, current: T) -> T {
    match v {
        Some(x) => x,
        None => current,
    }
}

/// A given value is within `[lo, hi]`, or no value is given.
pub open spec fn within(v: Option<int>, lo: int, hi: int) -> bool {
    match v {
        Some(x) => lo <= x <= hi,
        None => true,
    }
}

/// An optional `u16` as an optional integer.
pub open spec fn opt_u16(v: Option<u16>) -> Option<int> {
    match v {
        Some(x) => Some(x as int),
        None => None,
    }
}

/// The clearing house with every given value written.
pub open spec fn configured(ch: ClearingHouseState, c: ConfigChanges) -> ClearingHouseState {
    ClearingHouseState {
        fate_fee_bps: or_current(c.fate_fee_bps, ch.fate_fee_bps),
        max_bet_bps: or_current(c.max_bet_bps, ch.max_bet_bps),
        min_bet: or_current(c.min_bet, ch.min_bet),
        bet_timeout: or_current(c.bet_timeout, ch.bet_timeout),
        referral_bps: or_current(c.referral_bps, ch.referral_bps),
        tier2_referral_bps: or_current(c.tier2_referral_bps, ch.tier2_referral_bps),
        nft_reward_bps: or_current(c.nft_reward_bps, ch.nft_reward_bps),
        platform_fee_bps: or_current(c.platform_fee_bps, ch.platform_fee_bps),
        bonus_bps: or_current(c.bonus_bps, ch.bonus_bps),
        platform_wallet: or_current(c.platform_wallet, ch.platform_wallet),
        bonus_wallet: or_current(c.bonus_wallet, ch.bonus_wallet),
        nft_rewarder: or_current(c.nft_rewarder, ch.nft_rewarder),
        ..ch
    }
}

/// Whether `update_config` accepts the changes: each given rate within its
/// bound (house edge at most 1000, max bet at most 500, each split rate at
/// most 100), a given minimum bet positive, a given timeout at least 60
/// seconds, and the five split rates after the update at most 500 together.
pub open spec fn changes_accepted(ch: ClearingHouseState, c: ConfigChanges) -> bool {
    &&& within(opt_u16(c.fate_fee_bps), 0, 1000)
    &&& within(opt_u16(c.max_bet_bps), 0, 500)
    &&& (c.min_bet matches Some(v) ==> v > 0)
    &&& (c.bet_timeout matches Some(v) ==> v >= 60)
    &&& within(opt_u16(c.referral_bps), 0, 100)
    &&& within(opt_u16(c.tier2_referral_bps), 0, 100)
    &&& within(opt_u16(c.nft_reward_bps), 0, 100)
    &&& within(opt_u16(c.platform_fee_bps), 0, 100)
    &&& within(opt_u16(c.bonus_bps), 0, 100)
    &&& configured(ch, c).split_total() <= 500
}

/// The event of one field, when a value was given for it.
pub open spec fn field_event(
    field_id: u8,
    old_value: int,
    new_value: Option<int>,
    authority: Pubkey,
    now: i64,
) -> Seq<ConfigUpdated> {
    match new_value {
        None => seq![],
        Some(v) => seq![
            ConfigUpdated {
                field_id,
                old_value: old_value as u64,
                new_value: v as u64,
                authority,
                timestamp: now,
            },
        ],
    }
}

/// The events of an accepted update, in field order; the timeout is
/// reported as its value cast to `u64`.
pub open spec fn config_events(ch: ClearingHouseState, c: ConfigChanges, authority: Pubkey, now: i64) -> Seq<ConfigUpdated> {
    field_event(0, ch.fate_fee_bps as int, opt_u16(c.fate_fee_bps), authority, now)
        + field_event(1, ch.max_bet_bps as int, opt_u16(c.max_bet_bps), authority, now)
        + field_event(
            2,
            ch.min_bet as int,
            match c.min_bet {
                Some(v) => Some(v as int),
                None => None,
            },
            authority,
            now,
        ) + field_event(
            3,
            wrap_u64(ch.bet_timeout as int),
            match c.bet_timeout {
                Some(v) => Some(wrap_u64(v as int)),
                None => None,
            },
            authority,
            now,
        ) + field_event(4, ch.referral_bps as int, opt_u16(c.referral_bps), authority, now)
        + field_event(5, ch.tier2_referral_bps as int, opt_u16(c.tier2_referral_bps), authority, now)
        + field_event(6, ch.nft_reward_bps as int, opt_u16(c.nft_reward_bps), authority, now)
        + field_event(7, ch.platform_fee_bps as int, opt_u16(c.platform_fee_bps), authority, now)
        + field_event(8, ch.bonus_bps as int, opt_u16(c.bonus_bps), authority, now)
}

fn opt_u16_exec(v: Option<u16>) -> (r: Option<u64>)
    ensures
        match r {
            Some(x) => opt_u16(v) == Some(x as int),
            None => opt_u16(v) is None,
        },
{
    match v {
        Some(x) => Some(x as u64),
        None => None,
    }
}

fn push_field_event(
    events: &mut Vec<ConfigUpdated>,
    field_id: u8,
    old_value: u64,
    new_value: Option<u64>,
    spec_new: Ghost<Option<int>>,
    authority: Pubkey,
    now: i64,
)
    requires
        match new_value {
            Some(x) => spec_new@ == Some(x as int),
            None => spec_new@ is None,
        },
    ensures
        final(events)@ == old(events)@ + field_event(field_id, old_value as int, spec_new@, authority, now),
{
    match new_value {
        Some(v) => {
            events.push(ConfigUpdated { field_id, old_value, new_value: v, authority, timestamp: now });
        },
        None => {
            assert(old(events)@ + field_event(field_id, old_value as int, spec_new@, authority, now) =~= old(events)@);
        },
    }
}

fn build_events(ch: &ClearingHouseState, c: &ConfigChanges, authority: Pubkey, now: i64) -> (events: Vec<
    ConfigUpdated,
>)
    ensures
        events@ == config_events(*ch, *c, authority, now),
{
    let mut events: Vec<ConfigUpdated> = Vec::new();
    push_field_event(&mut events, 0, ch.fate_fee_bps as u64, opt_u16_exec(c.fate_fee_bps), Ghost(opt_u16(c.fate_fee_bps)), authority, now);
    push_field_event(&mut events, 1, ch.max_bet_bps as u64, opt_u16_exec(c.max_bet_bps), Ghost(opt_u16(c.max_bet_bps)), authority, now);
    push_field_event(
        &mut events,
        2,
        ch.min_bet,
        c.min_bet,
        Ghost(
            match c.min_bet {
                Some(v) => Some(v as int),
                None => None,
            },
        ),
        authority,
        now,
    );
    let timeout: Option<u64> = match c.bet_timeout {
        Some(v) => Some(i64_as_u64(v)),
        None => None,
    };
    push_field_event(
        &mut events,
        3,
        i64_as_u64(ch.bet_timeout),
        timeout,
        Ghost(
            match c.bet_timeout {
                Some(v) => Some(wrap_u64(v as int)),
                None => None,
            },
        ),
        authority,
        now,
    );
    push_field_event(&mut events, 4, ch.referral_bps as u64, opt_u16_exec(c.referral_bps), Ghost(opt_u16(c.referral_bps)), authority, now);
    push_field_event(
        &mut events,
        5,
        ch.tier2_referral_bps as u64,
        opt_u16_exec(c.tier2_referral_bps),
        Ghost(opt_u16(c.tier2_referral_bps)),
        authority,
        now,
    );
    push_field_event(&mut events, 6, ch.nft_reward_bps as u64, opt_u16_exec(c.nft_reward_bps), Ghost(opt_u16(c.nft_reward_bps)), authority, now);
    push_field_event(
        &mut events,
        7,
        ch.platform_fee_bps as u64,
        opt_u16_exec(c.platform_fee_bps),
        Ghost(opt_u16(c.platform_fee_bps)),
        authority,
        now,
    );
    push_field_event(&mut events, 8, ch.bonus_bps as u64, opt_u16_exec(c.bonus_bps), Ghost(opt_u16(c.bonus_bps)), authority, now);
    events
}

fn bps_within(v: Option<u16>, max: u16) -> (r: bool)
    ensures
        r == within(opt_u16(v), 0, max as int),
{
    match v {
        Some(x) => x <= max,
        None => true,
    }
}

fn pick<T: Copy>(v: Option<T>, current: T) -> (r: T)
    ensures
        r == or_current(v, current),
{
    match v {
        Some(x) => x,
        None => current,
    }
}

fn apply_changes(ch: &ClearingHouseState, c: &ConfigChanges) -> (r: ClearingHouseState)
    ensures
        r == configured(*ch, *c),
{
    ClearingHouseState {
        fate_fee_bps: pick(c.fate_fee_bps, ch.fate_fee_bps),
        max_bet_bps: pick(c.max_bet_bps, ch.max_bet_bps),
        min_bet: pick(c.min_bet, ch.min_bet),
        bet_timeout: pick(c.bet_timeout, ch.bet_timeout),
        referral_bps: pick(c.referral_bps, ch.referral_bps),
        tier2_referral_bps: pick(c.tier2_referral_bps, ch.tier2_referral_bps),
        nft_reward_bps: pick(c.nft_reward_bps, ch.nft_reward_bps),
        platform_fee_bps: pick(c.platform_fee_bps, ch.platform_fee_bps),
        bonus_bps: pick(c.bonus_bps, ch.bonus_bps),
        platform_wallet: pick(c.platform_wallet, ch.platform_wallet),
        bonus_wallet: pick(c.bonus_wallet, ch.bonus_wallet),
        nft_rewarder: pick(c.nft_rewarder, ch.nft_rewarder),
        ..*ch
    }
}

fn accepted(ch: &ClearingHouseState, c: &ConfigChanges) -> (r: bool)
    ensures
        r == changes_accepted(*ch, *c),
{
    if !bps_within(c.fate_fee_bps, 1000) || !bps_within(c.max_bet_bps, 500) {
        return false;
    }
    if let Some(v) = c.min_bet {
        if v == 0 {
            return false;
        }
    }
    if let Some(v) = c.bet_timeout {
        if v < 60 {
            return false;
        }
    }
    if !bps_within(c.referral_bps, 100) || !bps_within(c.tier2_referral_bps, 100) || !bps_within(
        c.nft_reward_bps,
        100,
    ) || !bps_within(c.platform_fee_bps, 100) || !bps_within(c.bonus_bps, 100) {
        return false;
    }
    let updated = apply_changes(ch, c);
    let total_split: u32 = updated.referral_bps as u32 + updated.tier2_referral_bps as u32
        + updated.nft_reward_bps as u32 + updated.platform_fee_bps as u32 + updated.bonus_bps as u32;
    total_split <= 500
}

/// Applies the given configuration changes: each given rate must be within
/// its bound, a given minimum bet positive, a given timeout at least 60
/// seconds, and the five split rates together at most 500 bps afterwards.
/// Returns one event per given field, in field order. When it refuses
/// (always with `InvalidConfig`), nothing changes.
pub fn handler(
    clearing_house: &mut ClearingHouseState,
    authority: Pubkey,
    fate_fee_bps: Option<u16>,
    max_bet_bps: Option<u16>,
    min_bet: Option<u64>,
    bet_timeout: Option<i64>,
    referral_bps: Option<u16>,
    tier2_referral_bps: Option<u16>,
    nft_reward_bps: Option<u16>,
    platform_fee_bps: Option<u16>,
    bonus_bps: Option<u16>,
    platform_wallet: Option<Pubkey>,
    bonus_wallet: Option<Pubkey>,
    nft_rewarder: Option<Pubkey>,
    now: i64,
) -> (r: Result<Vec<ConfigUpdated>, FateSwapError>)
    ensures
        ({
            let c = ConfigChanges {
                fate_fee_bps,
                max_bet_bps,
                min_bet,
                bet_timeout,
                referral_bps,
                tier2_referral_bps,
                nft_reward_bps,
                platform_fee_bps,
                bonus_bps,
                platform_wallet,
                bonus_wallet,
                nft_rewarder,
            };
            if changes_accepted(*old(clearing_house), c) {
                &&& r is Ok
                &&& *final(clearing_house) == configured(*old(clearing_house), c)
                &&& r->Ok_0@ == config_events(*old(clearing_house), c, authority, now)
            } else {
                &&& r == Err::<Vec<ConfigUpdated>, FateSwapError>(FateSwapError::InvalidConfig)
                &&& *final(clearing_house) == *old(clearing_house)
            }
        }),
{
    let c = ConfigChanges {
        fate_fee_bps,
        max_bet_bps,
        min_bet,
        bet_timeout,
        referral_bps,
        tier2_referral_bps,
        nft_reward_bps,
        platform_fee_bps,
        bonus_bps,
        platform_wallet,
        bonus_wallet,
        nft_rewarder,
    };
    if !accepted(clearing_house, &c) {
        return Err(FateSwapError::InvalidConfig);
    }
    let events = build_events(clearing_house, &c, authority, now);
    *clearing_house = apply_changes(clearing_house, &c);
    Ok(events)
}

} // verus!
