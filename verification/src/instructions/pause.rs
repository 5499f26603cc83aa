//! Pausing and unpausing the protocol (authority only).

use vstd::prelude::*;
use crate::events::Paused;
use crate::pubkey::Pubkey;
use crate::state::ClearingHouseState;

verus! {

/// Sets the paused flag and returns the event. Nothing else changes.
pub fn handler(clearing_house: &mut ClearingHouseState, authority: Pubkey, paused: bool, now: i64) -> (r: Paused)
    ensures
        *final(clearing_house) == (ClearingHouseState { paused, ..*old(clearing_house) }),
        r == (Paused { authority, paused, timestamp: now }),
{
    clearing_house.paused = paused;
    Paused { authority, paused, timestamp: now }
}

} // verus!
