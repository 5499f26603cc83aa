//! The settler committing to a server seed for a player's next order.

use vstd::prelude::*;
use crate::errors::FateSwapError;
use crate::events::CommitmentSubmitted;
use crate::pubkey::{zero_key, Pubkey};
use crate::state::{ClearingHouseState, PlayerState};
use crate::state::player_state::zero_reserved_31;

verus! {

/// What `submit_commitment` reads from the instruction's accounts, besides
/// the clearing house and the player state.
#[derive(Clone, Copy, Debug)]
pub struct SubmitCommitment {
    /// The signer
    pub settler: Pubkey,
    /// The player's wallet
    pub player: Pubkey,
    /// Bump of the player state's address
    pub player_state_bump: u8,
}

/// A player state that has no player yet gets the player, its bump and
/// fresh statistics; its pending commitment and nonce are kept.
pub open spec fn claimed_player_state(ps: PlayerState, player: Pubkey, bump: u8) -> PlayerState {
    if ps.player == zero_key() {
        PlayerState {
            player,
            bump,
            nonce: 0,
            has_active_order: false,
            active_order: zero_key(),
            referrer: zero_key(),
            tier2_referrer: zero_key(),
            total_orders: 0,
            total_wagered: 0,
            total_won: 0,
            net_pnl: 0,
            _reserved: zero_reserved_31(),
            ..ps
        }
    } else {
        ps
    }
}

pub(crate) fn claim_player_state(ps: &mut PlayerState, player: Pubkey, bump: u8)
    ensures
        *final(ps) == claimed_player_state(*old(ps), player, bump),
{
    if ps.player.is_zero() {
        ps.player = player;
        ps.bump = bump;
        ps.nonce = 0;
        ps.has_active_order = false;
        ps.active_order = Pubkey::zero();
        ps.referrer = Pubkey::zero();
        ps.tier2_referrer = Pubkey::zero();
        ps.total_orders = 0;
        ps.total_wagered = 0;
        ps.total_won = 0;
        ps.net_pnl = 0;
        ps._reserved = [0u8; 31];
    }
}

/// Records the settler's commitment (the SHA-256 of a server seed) and its
/// nonce as the player's pending commitment, first setting the player state
/// up if it is new. Refuses when the signer is not the settler, then when
/// the protocol is paused; then nothing changes.
pub fn handler(
    clearing_house: &ClearingHouseState,
    player_state: &mut PlayerState,
    accounts: &SubmitCommitment,
    commitment_hash: [u8; 32],
    nonce: u64,
    now: i64,
) -> (r: Result<CommitmentSubmitted, FateSwapError>)
    ensures
        accounts.settler != clearing_house.settler ==> r == Err::<CommitmentSubmitted, FateSwapError>(
            FateSwapError::UnauthorizedSettler,
        ),
        accounts.settler == clearing_house.settler && clearing_house.paused ==> r == Err::<
            CommitmentSubmitted,
            FateSwapError,
        >(FateSwapError::Paused),
        r is Err ==> *final(player_state) == *old(player_state),
        accounts.settler == clearing_house.settler && !clearing_house.paused ==> {
            &&& *final(player_state) == (PlayerState {
                pending_commitment: commitment_hash,
                pending_nonce: nonce,
                ..claimed_player_state(*old(player_state), accounts.player, accounts.player_state_bump)
            })
            &&& r == Ok::<CommitmentSubmitted, FateSwapError>(
                CommitmentSubmitted { player: accounts.player, commitment_hash, nonce, timestamp: now },
            )
        },
{
    if !accounts.settler.equals(&clearing_house.settler) {
        return Err(FateSwapError::UnauthorizedSettler);
    }
    if clearing_house.paused {
        return Err(FateSwapError::Paused);
    }
    claim_player_state(player_state, accounts.player, accounts.player_state_bump);
    player_state.pending_commitment = commitment_hash;
    player_state.pending_nonce = nonce;
    Ok(CommitmentSubmitted { player: accounts.player, commitment_hash, nonce, timestamp: now })
}

} // verus!
