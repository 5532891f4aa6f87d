use vstd::prelude::*;

use crate::address::Address;

verus! {

/// The largest fee rate an operator may set: 1000 basis points, 10%.
pub const MAX_FEE_BASIS_POINTS: u16 = 1000;

/// Basis points in a whole.
pub const BASIS_POINTS: u64 = 10000;

/// The operator's configuration of the game.
#[derive(Clone, Copy, Debug)]
pub struct GameConfig {
    pub authority: Address,
    pub round_count: u64,
    pub entry_fee_lamports: u64,
    pub fee_basis_points: u16,
    pub bump: u8,
}

impl GameConfig {
    pub open spec fn wf(&self) -> bool {
        self.fee_basis_points <= MAX_FEE_BASIS_POINTS
    }

    pub fn is_well_formed(&self) -> (r: bool)
        ensures
            r == self.wf(),
    {
        self.fee_basis_points <= MAX_FEE_BASIS_POINTS
    }
}

/// One round of the game and the pot it holds in escrow.
#[derive(Clone, Copy, Debug)]
pub struct Round {
    pub id: u64,
    pub game_config: Address,
    pub word_hash: [u8; 32],
    pub is_active: bool,
    pub winner: Address,
    pub has_winner: bool,
    pub pot_lamports: u64,
    pub pot_distributed: bool,
    pub nft_minted: bool,
    pub player_count: u32,
    pub max_players: u32,
    pub created_at: i64,
    pub expires_at: i64,
    pub entry_fee_lamports: u64,
    pub bump: u8,
}

impl Round {
    /// The invariant every operation keeps.
    pub open spec fn wf(&self) -> bool {
        &&& self.expires_at > self.created_at
        &&& self.player_count <= self.max_players
        &&& self.has_winner ==> !self.is_active
        &&& self.pot_distributed ==> self.has_winner && self.pot_lamports == 0
        &&& self.nft_minted ==> self.has_winner
    }

    pub fn is_well_formed(&self) -> (r: bool)
        ensures
            r == self.wf(),
    {
        self.expires_at > self.created_at && self.player_count <= self.max_players && (!self.has_winner || !self.is_active) && (
        !self.pot_distributed || (self.has_winner && self.pot_lamports == 0)) && (!self.nft_minted
            || self.has_winner)
    }

    /// What every operation may do to a round: a closed round never reopens, a
    /// winner once set stays, and the distribution and mint flags never clear.
    /// The identity, terms and word of the round never change.
    pub open spec fn may_become(&self, next: Round) -> bool {
        &&& !self.is_active ==> !next.is_active
        &&& self.has_winner ==> next.has_winner && next.winner == self.winner
        &&& self.pot_distributed ==> next.pot_distributed
        &&& self.nft_minted ==> next.nft_minted
        &&& next.id == self.id
        &&& next.game_config == self.game_config
        &&& next.word_hash == self.word_hash
        &&& next.max_players == self.max_players
        &&& next.created_at == self.created_at
        &&& next.expires_at == self.expires_at
        &&& next.entry_fee_lamports == self.entry_fee_lamports
        &&& next.bump == self.bump
    }

    /// Whether the round's time is over at `now`.
    pub open spec fn expired_at(&self, now: i64) -> bool {
        now >= self.expires_at
    }
}

/// Proof that a player joined a round.
#[derive(Clone, Copy, Debug)]
pub struct PlayerEntry {
    pub player: Address,
    pub round: Address,
    pub entered_at: i64,
    pub bump: u8,
}

/// Proof that a player has submitted their one guess in a round.
#[derive(Clone, Copy, Debug)]
pub struct GuessRecord {
    pub bump: u8,
}

} // verus!
