//! A wagering word-guessing game: rounds escrow entry fees, accept one
//! committed guess per player, and pay the pot to the first correct guesser.

pub mod address;
pub mod digest;
pub mod error;
pub mod events;
pub mod game;
pub mod laws;
pub mod leaderboard;
pub mod mint;
pub mod records;
pub mod state;

pub use address::Address;
pub use error::SolPotError;
pub use events::{GuessResult, NftMinted, PlayerEntered, PotDistributed, RoundClosed, RoundCreated};
pub use game::{
    apply_guess_digest, close_round, compute_fee, credit_lamports, create_round, distribute_pot, enter_round,
    initialize_game, mint_reward_nft, payable_amount, submit_guess,
};
pub use leaderboard::{Leaderboard, LeaderboardEntry};
pub use mint::{build_mint_request, encode_create_asset, mpl_core_program_id, AccountRef, MintRequest};
pub use records::{GuessMark, RecordBook};
pub use state::{GameConfig, GuessRecord, PlayerEntry, Round};
