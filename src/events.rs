use vstd::prelude::*;

use crate::address::Address;

verus! {

/// Announces a new round.
#[derive(Clone, Copy, Debug, PartialEq, Eq)]
pub struct RoundCreated {
    pub round_id: u64,
    pub entry_fee_lamports: u64,
    pub expires_at: i64,
    pub max_players: u32,
}

/// Announces a player's entry and the round's new pot and head count.
#[derive(Clone, Copy, Debug, PartialEq, Eq)]
pub struct PlayerEntered {
    pub round_id: u64,
    pub player: Address,
    pub pot_lamports: u64,
    pub player_count: u32,
}

/// Announces whether a submitted guess was the round's word.
#[derive(Clone, Copy, Debug, PartialEq, Eq)]
pub struct GuessResult {
    pub round_id: u64,
    pub player: Address,
    pub is_correct: bool,
}

/// Announces how a won pot was split between winner and operator.
#[derive(Clone, Copy, Debug, PartialEq, Eq)]
pub struct PotDistributed {
    pub round_id: u64,
    pub winner: Address,
    pub winner_amount: u64,
    pub fee_amount: u64,
}

/// Announces the collectible minted for a round's winner.
#[derive(Clone, Copy, Debug, PartialEq, Eq)]
pub struct NftMinted {
    pub round_id: u64,
    pub winner: Address,
    pub mint: Address,
}

/// Announces that a round was closed.
#[derive(Clone, Copy, Debug, PartialEq, Eq)]
pub struct RoundClosed {
    pub round_id: u64,
}

} // verus!
