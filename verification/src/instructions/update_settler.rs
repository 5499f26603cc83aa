//! Replacing the settler wallet (authority only).

use vstd::prelude::*;
use crate::events::SettlerUpdated;
use crate::pubkey::Pubkey;
use crate::state::ClearingHouseState;

verus! {

/// Makes `new_settler` the settler and returns the event naming the old
/// and the new settler. Nothing else changes.
pub fn handler(
    clearing_house: &mut ClearingHouseState,
    authority: Pubkey,
    new_settler: Pubkey,
    now: i64,
) -> (r: SettlerUpdated)
    ensures
        *final(clearing_house) == (ClearingHouseState { settler: new_settler, ..*old(clearing_house) }),
        r == (SettlerUpdated { old_settler: old(clearing_house).settler, new_settler, authority, timestamp: now }),
{
    let old_settler = clearing_house.settler;
    clearing_house.settler = new_settler;
    SettlerUpdated { old_settler, new_settler, authority, timestamp: now }
}

} // verus!
