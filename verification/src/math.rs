//! Multiplier rules, bet limits and fixed-point helpers.

use vstd::prelude::*;
use crate::errors::FateSwapError;

verus! {

/// Smallest multiplier: 1.01x.
pub const MIN_MULTIPLIER: u32 = 101_000;
/// Largest multiplier: 10.0x.
pub const MAX_MULTIPLIER: u32 = 1_000_000;
/// Fixed-point base of multipliers: 1.0x = 100,000.
pub const MULTIPLIER_BASE: u32 = 100_000;
/// LP tokens burned on the first deposit (donation attack prevention): the
/// first depositor is minted that many fewer tokens than lamports deposited,
/// and the burned tokens stay counted in the supply that prices LP tokens
/// (see `pricing_supply`), so their share of the pool is locked for good.
pub const MINIMUM_LIQUIDITY: u64 = 10_000;

/// The supply that prices LP tokens in deposits and withdrawals: the tokens
/// in circulation plus the `MINIMUM_LIQUIDITY` burned on the first deposit.
pub open spec fn pricing_supply(lp_supply: int) -> int {
    lp_supply + MINIMUM_LIQUIDITY
}
/// The multiplier at which the maximum bet equals the base maximum: 2x.
pub const REFERENCE_MULTIPLIER: u32 = 200_000;
/// Basis points in 100%.
pub const BPS_DENOMINATOR: u64 = 10_000;

/// The discrete multipliers that orders may use, tier by tier:
/// 1.01x-1.99x in steps of 0.01x, 2.00x-2.98x in steps of 0.02x,
/// 3.00x-3.95x in steps of 0.05x, 4.0x-5.9x in steps of 0.1x,
/// 6.0x-9.8x in steps of 0.2x, and exactly 10.0x.
pub open spec fn valid_multiplier(m: int) -> bool {
    ||| (101_000 <= m < 200_000 && (m - 101_000) % 1_000 == 0)
    ||| (200_000 <= m < 300_000 && (m - 200_000) % 2_000 == 0)
    ||| (300_000 <= m < 400_000 && (m - 300_000) % 5_000 == 0)
    ||| (400_000 <= m < 600_000 && (m - 400_000) % 10_000 == 0)
    ||| (600_000 <= m < 1_000_000 && (m - 600_000) % 20_000 == 0)
    ||| m == 1_000_000
}

/// The `k`-th allowed multiplier in increasing order (`0 <= k < 210`).
pub open spec fn multiplier_at(k: int) -> int {
    if k < 99 {
        101_000 + 1_000 * k
    } else if k < 149 {
        200_000 + 2_000 * (k - 99)
    } else if k < 169 {
        300_000 + 5_000 * (k - 149)
    } else if k < 189 {
        400_000 + 10_000 * (k - 169)
    } else if k < 209 {
        600_000 + 20_000 * (k - 189)
    } else {
        1_000_000
    }
}

/// Number of allowed multipliers.
pub const NUM_MULTIPLIERS: u32 = 210;

/// The allowed multipliers listed in increasing order.
pub open spec fn allowed_multipliers() -> Seq<int> {
    Seq::new(210, |k: int| multiplier_at(k))
}

/// The listing is strictly increasing, so its 210 entries are distinct.
pub proof fn lemma_multiplier_at_increasing(i: int, j: int)
    requires
        0 <= i < j < 210,
    ensures
        multiplier_at(i) < multiplier_at(j),
{
}

/// Every listed value is a valid multiplier, and every valid multiplier is listed.
pub proof fn lemma_valid_multiplier_listed(m: int)
    ensures
        valid_multiplier(m) <==> (exists|k: int| 0 <= k < 210 && #[trigger] multiplier_at(k) == m),
{
    if valid_multiplier(m) {
        let k: int = if m < 200_000 {
            (m - 101_000) / 1_000
        } else if m < 300_000 {
            99 + (m - 200_000) / 2_000
        } else if m < 400_000 {
            149 + (m - 300_000) / 5_000
        } else if m < 600_000 {
            169 + (m - 400_000) / 10_000
        } else if m < 1_000_000 {
            189 + (m - 600_000) / 20_000
        } else {
            209
        };
        lemma_tier_index(m - 101_000, 1_000, 99);
        lemma_tier_index(m - 200_000, 2_000, 50);
        lemma_tier_index(m - 300_000, 5_000, 20);
        lemma_tier_index(m - 400_000, 10_000, 20);
        lemma_tier_index(m - 600_000, 20_000, 20);
        assert(multiplier_at(k) == m);
    }
    assert forall|k: int| 0 <= k < 210 && #[trigger] multiplier_at(k) == m implies valid_multiplier(m) by {
        lemma_listed_is_valid(k);
    }
}

proof fn lemma_tier_index(x: int, step: int, count: int)
    requires
        step > 0,
    ensures
        0 <= x < step * count && x % step == 0 ==> x == step * (x / step) && 0 <= x / step < count,
{
    if 0 <= x < step * count && x % step == 0 {
        assert(x == step * (x / step) && 0 <= x / step < count) by (nonlinear_arith)
            requires
                step > 0,
                0 <= x < step * count,
                x % step == 0,
        ;
    }
}

proof fn lemma_listed_is_valid(k: int)
    requires
        0 <= k < 210,
    ensures
        valid_multiplier(multiplier_at(k)),
{
    if k < 99 {
        assert((1_000 * k) % 1_000 == 0) by (nonlinear_arith);
    } else if k < 149 {
        assert((2_000 * (k - 99)) % 2_000 == 0) by (nonlinear_arith);
    } else if k < 169 {
        assert((5_000 * (k - 149)) % 5_000 == 0) by (nonlinear_arith);
    } else if k < 189 {
        assert((10_000 * (k - 169)) % 10_000 == 0) by (nonlinear_arith);
    } else if k < 209 {
        assert((20_000 * (k - 189)) % 20_000 == 0) by (nonlinear_arith);
    }
}

/// There are exactly 210 valid multipliers.
pub proof fn lemma_exactly_210_multipliers()
    ensures
        Set::new(|m: int| valid_multiplier(m)).len() == 210,
        Set::new(|m: int| valid_multiplier(m)) == allowed_multipliers().to_set(),
{
    let s = allowed_multipliers();
    assert(s.no_duplicates()) by {
        assert forall|i: int, j: int| 0 <= i < s.len() && 0 <= j < s.len() && i != j implies s[i] != s[j] by {
            if i < j {
                lemma_multiplier_at_increasing(i, j);
            } else {
                lemma_multiplier_at_increasing(j, i);
            }
        }
    }
    s.unique_seq_to_set();
    assert forall|m: int| #[trigger] valid_multiplier(m) <==> s.contains(m) by {
        lemma_valid_multiplier_listed(m);
        if s.contains(m) {
            let i = choose|i: int| 0 <= i < s.len() && s[i] == m;
            assert(multiplier_at(i) == m);
        }
        if valid_multiplier(m) {
            let k = choose|k: int| 0 <= k < 210 && #[trigger] multiplier_at(k) == m;
            assert(s[k] == m);
        }
    }
    assert(Set::new(|m: int| valid_multiplier(m)) =~= s.to_set());
}

/// Checks that a multiplier is one of the 210 allowed values.
pub fn is_valid_multiplier(multiplier_bps: u32) -> (r: bool)
    ensures
        r == valid_multiplier(multiplier_bps as int),
{
    if multiplier_bps < MIN_MULTIPLIER || multiplier_bps > MAX_MULTIPLIER {
        return false;
    }
    if multiplier_bps >= 101_000 && multiplier_bps < 200_000 {
        return (multiplier_bps - 101_000) % 1_000 == 0;
    }
    if multiplier_bps >= 200_000 && multiplier_bps < 300_000 {
        return (multiplier_bps - 200_000) % 2_000 == 0;
    }
    if multiplier_bps >= 300_000 && multiplier_bps < 400_000 {
        return (multiplier_bps - 300_000) % 5_000 == 0;
    }
    if multiplier_bps >= 400_000 && multiplier_bps < 600_000 {
        return (multiplier_bps - 400_000) % 10_000 == 0;
    }
    if multiplier_bps >= 600_000 && multiplier_bps < 1_000_000 {
        return (multiplier_bps - 600_000) % 20_000 == 0;
    }
    multiplier_bps == 1_000_000
}

/// What `calculate_max_bet` returns: `base_max * 200000 / multiplier_bps`,
/// rounded down, when the multiplier is not zero and the quotient fits in a `u64`.
pub open spec fn max_bet_result(base_max: int, multiplier_bps: int) -> Result<u64, FateSwapError> {
    if multiplier_bps == 0 {
        Err(FateSwapError::MathOverflow)
    } else if base_max * 200_000 / multiplier_bps > u64::MAX {
        Err(FateSwapError::MathOverflow)
    } else {
        Ok((base_max * 200_000 / multiplier_bps) as u64)
    }
}

/// Maximum bet for a multiplier, scaled inversely from the maximum at 2x:
/// `max_bet = base_max * 200000 / multiplier_bps`, so that
/// `max_bet * multiplier` stays about `base_max * 2x`.
pub fn calculate_max_bet(base_max: u64, multiplier_bps: u32) -> (r: Result<u64, FateSwapError>)
    ensures
        r == max_bet_result(base_max as int, multiplier_bps as int),
{
    let base_u128 = base_max as u128;
    let ref_u128 = REFERENCE_MULTIPLIER as u128;
    let mult_u128 = multiplier_bps as u128;
    assert(base_u128 * ref_u128 <= u128::MAX) by (nonlinear_arith)
        requires
            base_u128 <= u64::MAX,
            ref_u128 == 200_000,
    ;
    let product = base_u128 * ref_u128;
    if mult_u128 == 0 {
        return Err(FateSwapError::MathOverflow);
    }
    let max_bet_u128 = product / mult_u128;
    if max_bet_u128 > u64::MAX as u128 {
        return Err(FateSwapError::MathOverflow);
    }
    Ok(max_bet_u128 as u64)
}

/// At the reference multiplier 2x the maximum bet is the base maximum itself.
pub proof fn lemma_max_bet_at_reference(base_max: u64)
    ensures
        max_bet_result(base_max as int, REFERENCE_MULTIPLIER as int) == Ok::<u64, FateSwapError>(base_max),
{
    assert((base_max as int) * 200_000 / 200_000 == base_max as int) by (nonlinear_arith);
}

/// Inverse scaling: the maximum bet times the multiplier stays within one
/// multiplier step below `base_max * 200000`, so a larger multiplier never
/// allows a larger bet.
pub proof fn lemma_max_bet_inverse_scaling(base_max: u64, m1: u32, m2: u32)
    requires
        0 < m1 <= m2,
    ensures
        max_bet_result(base_max as int, m2 as int) matches Ok(v2) ==> {
            &&& v2 * m2 <= base_max * 200_000 < (v2 + 1) * m2
            &&& max_bet_result(base_max as int, m1 as int) matches Ok(v1) ==> v2 <= v1
        },
        max_bet_result(base_max as int, m1 as int) is Ok ==> max_bet_result(base_max as int, m2 as int) is Ok,
{
    let b = base_max * 200_000;
    assert(b / (m2 as int) <= b / (m1 as int)) by (nonlinear_arith)
        requires
            0 < m1 <= m2,
            b >= 0,
    ;
    let q = b / (m2 as int);
    assert(q * m2 <= b < (q + 1) * m2) by (nonlinear_arith)
        requires
            m2 > 0,
            q == b / (m2 as int),
    ;
}

/// `amount * bps / 10000`, rounded down, when the product fits in a `u64`.
pub open spec fn bps_share_result(amount: int, bps: int) -> Result<u64, FateSwapError> {
    if amount * bps > u64::MAX {
        Err(FateSwapError::MathOverflow)
    } else {
        Ok((amount * bps / 10_000) as u64)
    }
}

/// The share of `amount` given by `bps` basis points, computed in `u64`
/// as the protocol does (`checked_mul`, then division by 10000).
pub fn bps_share(amount: u64, bps: u64) -> (r: Result<u64, FateSwapError>)
    ensures
        r == bps_share_result(amount as int, bps as int),
{
    match amount.checked_mul(bps) {
        None => Err(FateSwapError::MathOverflow),
        Some(product) => Ok(product / BPS_DENOMINATOR),
    }
}

/// `amount * multiplier_bps / 100000`, rounded down, when it fits in a `u64`.
pub open spec fn payout_result(amount: int, multiplier_bps: int) -> Result<u64, FateSwapError> {
    if amount * multiplier_bps / 100_000 > u64::MAX {
        Err(FateSwapError::MathOverflow)
    } else {
        Ok((amount * multiplier_bps / 100_000) as u64)
    }
}

/// Potential payout of an order: `amount * multiplier_bps / 100000`.
pub fn calculate_payout(amount: u64, multiplier_bps: u32) -> (r: Result<u64, FateSwapError>)
    ensures
        r == payout_result(amount as int, multiplier_bps as int),
{
    let a = amount as u128;
    let m = multiplier_bps as u128;
    assert(a * m <= u128::MAX) by (nonlinear_arith)
        requires
            a <= u64::MAX,
            m <= u32::MAX,
    ;
    let payout_u128 = (a * m) / (MULTIPLIER_BASE as u128);
    if payout_u128 > u64::MAX as u128 {
        return Err(FateSwapError::MathOverflow);
    }
    Ok(payout_u128 as u64)
}

/// `x + y`, or `u64::MAX` when the sum exceeds it.
pub open spec fn sat_add(x: int, y: int) -> int {
    if x + y > u64::MAX {
        u64::MAX as int
    } else {
        x + y
    }
}

/// `x - y`, or 0 when `y > x`.
pub open spec fn sat_sub(x: int, y: int) -> int {
    if x >= y {
        x - y
    } else {
        0
    }
}

/// The lamports of the vault that back bets and LP shares: the vault's
/// balance less its rent-exempt reserve and the payouts owed to pending
/// orders, or zero when those exceed the balance.
pub open spec fn available_balance(vault_lamports: int, rent_exempt: int, liability: int) -> int {
    if vault_lamports >= rent_exempt + liability {
        vault_lamports - rent_exempt - liability
    } else {
        0
    }
}

/// `vault_lamports - rent_exempt - liability`, saturating at zero at each step.
pub fn available_liquidity(vault_lamports: u64, rent_exempt: u64, liability: u64) -> (r: u64)
    ensures
        r == available_balance(vault_lamports as int, rent_exempt as int, liability as int),
{
    vault_lamports.saturating_sub(rent_exempt).saturating_sub(liability)
}

/// `x` as an `i64`, wrapping as Rust's `as` does.
pub open spec fn wrap_i64(x: int) -> int {
    if x <= i64::MAX {
        x
    } else {
        x - 0x1_0000_0000_0000_0000
    }
}

/// `x` as a `u64`, wrapping as Rust's `as` does.
pub open spec fn wrap_u64(x: int) -> int {
    if x >= 0 {
        x
    } else {
        x + 0x1_0000_0000_0000_0000
    }
}

/// `x as i64` for a `u64`.
pub fn u64_as_i64(x: u64) -> (r: i64)
    ensures
        r == wrap_i64(x as int),
{
    assert(x > 0x7fff_ffff_ffff_ffffu64 ==> (x as i64) == (x as int) - 0x1_0000_0000_0000_0000)
        by (bit_vector);
    assert(x <= 0x7fff_ffff_ffff_ffffu64 ==> (x as i64) == (x as int)) by (bit_vector);
    x as i64
}

/// `x as u64` for an `i64`.
pub fn i64_as_u64(x: i64) -> (r: u64)
    ensures
        r == wrap_u64(x as int),
{
    assert(x < 0 ==> (x as u64) == (x as int) + 0x1_0000_0000_0000_0000) by (bit_vector);
    assert(x >= 0 ==> (x as u64) == (x as int)) by (bit_vector);
    x as u64
}

} // verus!
