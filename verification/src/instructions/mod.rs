//! The protocol's instructions. Each handler takes the accounts it reads and
//! writes as plain data, checks the instruction's rules, and on success
//! updates the accounts and returns what the program must do next (lamports
//! to move, events to log). On failure the accounts are left as they were,
//! as the runtime reverts a failed instruction.

pub mod admin_set_referrer;
pub mod deposit_sol;
pub mod initialize;
pub mod pause;
pub mod place_fate_order;
pub mod reclaim_expired_order;
pub mod set_referrer;
pub mod settle_fate_order;
pub mod submit_commitment;
pub mod update_config;
pub mod update_lp_metadata;
pub mod update_settler;
pub mod withdraw_sol;

use vstd::prelude::*;
use crate::pubkey::Pubkey;

verus! {

/// A movement of lamports out of the vault that the program performs.
#[derive(Clone, Copy, Debug, PartialEq, Eq)]
pub struct Transfer {
    pub recipient: Pubkey,
    pub lamports: u64,
}

} // verus!
