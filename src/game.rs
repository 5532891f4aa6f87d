use vstd::prelude::*;

use crate::address::{bytes32_equal, Address};
use crate::digest::{lower_of, lowercase, sha256_of_text, sha256_text};
use crate::error::SolPotError;
use crate::events::{GuessResult, NftMinted, PlayerEntered, PotDistributed, RoundClosed, RoundCreated};
use crate::leaderboard::{board_after_win, win_overflows, Leaderboard};
use crate::mint::{asset_program_bytes, build_mint_request, create_asset_accounts, create_asset_data, MintRequest};
use crate::records::RecordBook;
use crate::state::{GameConfig, GuessRecord, PlayerEntry, Round, BASIS_POINTS, MAX_FEE_BASIS_POINTS};

verus! {

// ---------------------------------------------------------------------------
// Escrow arithmetic
// ---------------------------------------------------------------------------

/// What the escrow can pay out of a pot without going below its floor:
/// the pot, or the balance above the floor where that is less.
pub open spec fn payable(pot: u64, balance: u64, floor: u64) -> int {
    let available = balance - floor;
    if (pot as int) < available {
        pot as int
    } else {
        available
    }
}

/// The operator's share of `amount` at `rate` basis points, rounded down.
pub open spec fn fee_of(amount: int, rate: u16) -> int {
    amount * rate / (BASIS_POINTS as int)
}

/// The operator's share of `amount` at `rate` basis points, rounded down;
/// `None` when `amount * rate` does not fit in 64 bits.
pub fn compute_fee(amount: u64, rate: u16) -> (r: Option<u64>)
    ensures
        match r {
            Some(f) => {
                &&& amount * rate <= u64::MAX
                &&& f == fee_of(amount as int, rate)
                &&& rate <= BASIS_POINTS ==> f <= amount
            },
            None => amount * rate > u64::MAX,
        },
{
    match amount.checked_mul(rate as u64) {
        Some(p) => {
            let f = p / BASIS_POINTS;
            assert(rate <= 10000 ==> f <= amount) by (nonlinear_arith)
                requires
                    p == amount * rate,
                    f == p / 10000,
                    amount >= 0,
            ;
            Some(f)
        },
        None => None,
    }
}

/// The payable part of `pot`: `None` when the balance is below the floor.
pub fn payable_amount(pot: u64, balance: u64, floor: u64) -> (r: Option<u64>)
    ensures
        match r {
            Some(d) => balance >= floor && d == payable(pot, balance, floor),
            None => balance < floor,
        },
{
    match balance.checked_sub(floor) {
        Some(available) => if pot < available {
            Some(pot)
        } else {
            Some(available)
        },
        None => None,
    }
}

/// A balance after receiving `amount`; refuses a sum that does not fit.
pub fn credit_lamports(balance: u64, amount: u64) -> (r: Result<u64, SolPotError>)
    ensures
        match r {
            Ok(b) => b == balance + amount,
            Err(e) => balance + amount > u64::MAX && e == SolPotError::ArithmeticOverflow,
        },
{
    match balance.checked_add(amount) {
        Some(b) => Ok(b),
        None => Err(SolPotError::ArithmeticOverflow),
    }
}

// ---------------------------------------------------------------------------
// Registry
// ---------------------------------------------------------------------------

/// Sets up the game for the operator `authority`: a configuration with no
/// rounds yet, and an empty leaderboard tied to the configuration at
/// `config_key`. Refuses a fee rate above 1000 basis points.
pub fn initialize_game(
    authority: Address,
    config_key: Address,
    entry_fee_lamports: u64,
    fee_basis_points: u16,
    config_bump: u8,
    leaderboard_bump: u8,
) -> (r: Result<(GameConfig, Leaderboard), SolPotError>)
    ensures
        match r {
            Ok((config, board)) => {
                &&& fee_basis_points <= MAX_FEE_BASIS_POINTS
                &&& config == (GameConfig {
                    authority,
                    round_count: 0,
                    entry_fee_lamports,
                    fee_basis_points,
                    bump: config_bump,
                })
                &&& config.wf()
                &&& board.wf()
                &&& board.game_config == config_key
                &&& board.entries@.len() == 0
                &&& board.bump == leaderboard_bump
            },
            Err(e) => fee_basis_points > MAX_FEE_BASIS_POINTS && e
                == SolPotError::InvalidFeeBasisPoints,
        },
{
    if fee_basis_points > MAX_FEE_BASIS_POINTS {
        return Err(SolPotError::InvalidFeeBasisPoints);
    }
    let config = GameConfig {
        authority,
        round_count: 0,
        entry_fee_lamports,
        fee_basis_points,
        bump: config_bump,
    };
    Ok((config, Leaderboard::new(config_key, leaderboard_bump)))
}

/// Why `create_round` refuses, if it does.
pub open spec fn create_refusal(config: GameConfig, caller: Address, duration: i64, now: i64) -> Option<
    SolPotError,
> {
    if caller != config.authority {
        Some(SolPotError::Unauthorized)
    } else if now + duration < i64::MIN || now + duration > i64::MAX {
        Some(SolPotError::ArithmeticOverflow)
    } else if config.round_count == u64::MAX {
        Some(SolPotError::ArithmeticOverflow)
    } else if duration <= 0 {
        Some(SolPotError::RoundExpired)
    } else {
        None
    }
}

/// Opens the next round, numbered by the configuration's round counter, which
/// advances by one. The round is active, empty and open until `now + duration`,
/// and charges the configuration's current entry fee. Only the operator may
/// open a round. Where the end time or the counter would overflow, the call
/// fails with `ArithmeticOverflow`; otherwise a duration of zero or less is
/// refused with `RoundExpired`: no round is born expired.
pub fn create_round(
    config: &mut GameConfig,
    config_key: Address,
    caller: Address,
    word_hash: [u8; 32],
    max_players: u32,
    duration_seconds: i64,
    now: i64,
    bump: u8,
) -> (r: Result<(Round, RoundCreated), SolPotError>)
    requires
        old(config).wf(),
    ensures
        final(config).wf(),
        match r {
            Ok((round, event)) => {
                &&& create_refusal(*old(config), caller, duration_seconds, now) is None
                &&& *final(config) == (GameConfig {
                    round_count: (old(config).round_count + 1) as u64,
                    ..*old(config)
                })
                &&& round.wf()
                &&& round.id == old(config).round_count
                &&& round.game_config == config_key
                &&& round.word_hash == word_hash
                &&& round.is_active
                &&& !round.has_winner
                &&& round.pot_lamports == 0
                &&& !round.pot_distributed
                &&& !round.nft_minted
                &&& round.player_count == 0
                &&& round.max_players == max_players
                &&& round.created_at == now
                &&& round.expires_at == now + duration_seconds
                &&& round.entry_fee_lamports == old(config).entry_fee_lamports
                &&& round.bump == bump
                &&& round.winner.bytes@ == Seq::new(32, |i: int| 0u8)
                &&& event == (RoundCreated {
                    round_id: round.id,
                    entry_fee_lamports: round.entry_fee_lamports,
                    expires_at: round.expires_at,
                    max_players,
                })
            },
            Err(e) => {
                &&& create_refusal(*old(config), caller, duration_seconds, now) == Some(e)
                &&& *final(config) == *old(config)
            },
        },
{
    if caller != config.authority {
        return Err(SolPotError::Unauthorized);
    }
    let expires_at = match now.checked_add(duration_seconds) {
        Some(t) => t,
        None => {
            return Err(SolPotError::ArithmeticOverflow);
        },
    };
    let next_count = match config.round_count.checked_add(1) {
        Some(c) => c,
        None => {
            return Err(SolPotError::ArithmeticOverflow);
        },
    };
    if duration_seconds <= 0 {
        return Err(SolPotError::RoundExpired);
    }
    let round = Round {
        id: config.round_count,
        game_config: config_key,
        word_hash,
        is_active: true,
        winner: Address::zero(),
        has_winner: false,
        pot_lamports: 0,
        pot_distributed: false,
        nft_minted: false,
        player_count: 0,
        max_players,
        created_at: now,
        expires_at,
        entry_fee_lamports: config.entry_fee_lamports,
        bump,
    };
    config.round_count = next_count;
    let event = RoundCreated {
        round_id: round.id,
        entry_fee_lamports: round.entry_fee_lamports,
        expires_at: round.expires_at,
        max_players: round.max_players,
    };
    Ok((round, event))
}

// ---------------------------------------------------------------------------
// Entry and guesses
// ---------------------------------------------------------------------------

/// Why `enter_round` refuses, if it does: the first of these that holds.
pub open spec fn enter_refusal(
    round: Round,
    book: RecordBook,
    round_key: Address,
    player: Address,
    player_lamports: u64,
    escrow_lamports: u64,
    now: i64,
) -> Option<SolPotError> {
    if book.has_entry(round_key, player) {
        Some(SolPotError::AlreadyEntered)
    } else if !round.is_active {
        Some(SolPotError::RoundNotActive)
    } else if round.has_winner {
        Some(SolPotError::RoundAlreadyWon)
    } else if round.player_count >= round.max_players {
        Some(SolPotError::MaxPlayersReached)
    } else if now >= round.expires_at {
        Some(SolPotError::RoundExpired)
    } else if player_lamports < round.entry_fee_lamports {
        Some(SolPotError::InsufficientFunds)
    } else if escrow_lamports + round.entry_fee_lamports > u64::MAX || round.pot_lamports
        + round.entry_fee_lamports > u64::MAX {
        Some(SolPotError::ArithmeticOverflow)
    } else {
        None
    }
}

/// Lets `player` join the round at `round_key`: the entry fee moves from the
/// player's balance into the round's escrow, the pot and the head count grow,
/// and the player's entry record is created. A player joins a round at most
/// once.
pub fn enter_round(
    round: &mut Round,
    round_key: Address,
    book: &mut RecordBook,
    player: Address,
    player_lamports: &mut u64,
    escrow_lamports: &mut u64,
    now: i64,
    bump: u8,
) -> (r: Result<PlayerEntered, SolPotError>)
    requires
        old(round).wf(),
        old(book).wf(),
    ensures
        final(round).wf(),
        final(book).wf(),
        old(round).may_become(*final(round)),
        *old(escrow_lamports) >= old(round).pot_lamports ==> *final(escrow_lamports)
            >= final(round).pot_lamports,
        *old(player_lamports) + *old(escrow_lamports) == *final(player_lamports) + *final(
            escrow_lamports
        ),
        match r {
            Ok(event) => {
                &&& enter_refusal(
                    *old(round),
                    *old(book),
                    round_key,
                    player,
                    *old(player_lamports),
                    *old(escrow_lamports),
                    now,
                ) is None
                &&& *final(round) == (Round {
                    pot_lamports: (old(round).pot_lamports + old(round).entry_fee_lamports) as u64,
                    player_count: (old(round).player_count + 1) as u32,
                    ..*old(round)
                })
                &&& *final(player_lamports) == *old(player_lamports) - old(round).entry_fee_lamports
                &&& *final(escrow_lamports) == *old(escrow_lamports) + old(round).entry_fee_lamports
                &&& final(book).entries@ == old(book).entries@.push(
                    PlayerEntry { player, round: round_key, entered_at: now, bump },
                )
                &&& final(book).guesses@ == old(book).guesses@
                &&& final(book).has_entry(round_key, player)
                &&& event == (PlayerEntered {
                    round_id: old(round).id,
                    player,
                    pot_lamports: final(round).pot_lamports,
                    player_count: final(round).player_count,
                })
            },
            Err(e) => {
                &&& enter_refusal(
                    *old(round),
                    *old(book),
                    round_key,
                    player,
                    *old(player_lamports),
                    *old(escrow_lamports),
                    now,
                ) == Some(e)
                &&& *final(round) == *old(round)
                &&& *final(book) == *old(book)
                &&& *final(player_lamports) == *old(player_lamports)
                &&& *final(escrow_lamports) == *old(escrow_lamports)
            },
        },
{
    if book.contains_entry(&round_key, &player) {
        return Err(SolPotError::AlreadyEntered);
    }
    if !round.is_active {
        return Err(SolPotError::RoundNotActive);
    }
    if round.has_winner {
        return Err(SolPotError::RoundAlreadyWon);
    }
    if round.player_count >= round.max_players {
        return Err(SolPotError::MaxPlayersReached);
    }
    if now >= round.expires_at {
        return Err(SolPotError::RoundExpired);
    }
    let fee = round.entry_fee_lamports;
    if *player_lamports < fee {
        return Err(SolPotError::InsufficientFunds);
    }
    let escrow = match escrow_lamports.checked_add(fee) {
        Some(b) => b,
        None => {
            return Err(SolPotError::ArithmeticOverflow);
        },
    };
    let pot = match round.pot_lamports.checked_add(fee) {
        Some(p) => p,
        None => {
            return Err(SolPotError::ArithmeticOverflow);
        },
    };
    *player_lamports = *player_lamports - fee;
    *escrow_lamports = escrow;
    round.pot_lamports = pot;
    round.player_count = round.player_count + 1;
    book.add_entry(PlayerEntry { player, round: round_key, entered_at: now, bump });
    proof {
        let k = book.entries@.len() - 1;
        assert(book.entries@[k as int].round == round_key && book.entries@[k as int].player == player);
    }
    Ok(
        PlayerEntered {
            round_id: round.id,
            player,
            pot_lamports: round.pot_lamports,
            player_count: round.player_count,
        },
    )
}

/// The round after `player`'s guess: a guess whose digest is the round's word
/// hash makes the player the winner and closes the round; any other leaves it
/// as it was.
pub open spec fn after_guess(round: Round, player: Address, correct: bool) -> Round {
    if correct {
        Round { winner: player, has_winner: true, is_active: false, ..round }
    } else {
        round
    }
}

/// Judges a guess by its digest: it is correct exactly when the digest equals
/// the round's word hash, and a correct guess wins the round for `player`.
pub fn apply_guess_digest(round: &mut Round, player: Address, digest: &[u8; 32]) -> (r: bool)
    requires
        old(round).wf(),
        old(round).is_active,
        !old(round).has_winner,
    ensures
        r == (digest@ == old(round).word_hash@),
        *final(round) == after_guess(*old(round), player, r),
        final(round).wf(),
        old(round).may_become(*final(round)),
{
    let is_correct = bytes32_equal(digest, &round.word_hash);
    if is_correct {
        round.winner = player;
        round.has_winner = true;
        round.is_active = false;
    }
    is_correct
}

/// Why `submit_guess` refuses, if it does: the first of these that holds.
pub open spec fn guess_refusal(
    round: Round,
    book: RecordBook,
    round_key: Address,
    player: Address,
    now: i64,
) -> Option<SolPotError> {
    if !book.has_entry(round_key, player) {
        Some(SolPotError::Unauthorized)
    } else if book.has_guess(round_key, player) {
        Some(SolPotError::AlreadyGuessed)
    } else if !round.is_active {
        Some(SolPotError::RoundNotActive)
    } else if round.has_winner {
        Some(SolPotError::RoundAlreadyWon)
    } else if now >= round.expires_at {
        Some(SolPotError::RoundExpired)
    } else {
        None
    }
}

/// Takes the one guess that a member of the round at `round_key` may make.
/// The guess is lowercased and hashed; it is correct when the digest is the
/// round's word hash, and then `player` wins and the round closes. The guess
/// marker is created whether or not the guess is correct.
pub fn submit_guess(
    round: &mut Round,
    round_key: Address,
    book: &mut RecordBook,
    player: Address,
    guess: &str,
    now: i64,
    bump: u8,
) -> (r: Result<GuessResult, SolPotError>)
    requires
        old(round).wf(),
        old(book).wf(),
    ensures
        final(round).wf(),
        final(book).wf(),
        old(round).may_become(*final(round)),
        final(round).pot_lamports == old(round).pot_lamports,
        match r {
            Ok(event) => {
                let correct = sha256_of_text(lower_of(guess@)) == old(round).word_hash@;
                &&& guess_refusal(*old(round), *old(book), round_key, player, now) is None
                &&& event == (GuessResult { round_id: old(round).id, player, is_correct: correct })
                &&& *final(round) == after_guess(*old(round), player, correct)
                &&& final(book).guesses@ == old(book).guesses@.push(
                    crate::records::GuessMark { round: round_key, player, record: GuessRecord { bump } },
                )
                &&& final(book).entries@ == old(book).entries@
                &&& final(book).has_guess(round_key, player)
            },
            Err(e) => {
                &&& guess_refusal(*old(round), *old(book), round_key, player, now) == Some(e)
                &&& *final(round) == *old(round)
                &&& *final(book) == *old(book)
            },
        },
{
    if !book.contains_entry(&round_key, &player) {
        return Err(SolPotError::Unauthorized);
    }
    if book.contains_guess(&round_key, &player) {
        return Err(SolPotError::AlreadyGuessed);
    }
    if !round.is_active {
        return Err(SolPotError::RoundNotActive);
    }
    if round.has_winner {
        return Err(SolPotError::RoundAlreadyWon);
    }
    if now >= round.expires_at {
        return Err(SolPotError::RoundExpired);
    }
    book.add_guess(round_key, player, GuessRecord { bump });
    proof {
        let k = book.guesses@.len() - 1;
        assert(book.guesses@[k as int].round == round_key && book.guesses@[k as int].player == player);
    }
    let normalized = lowercase(guess);
    let digest = sha256_text(normalized.as_str());
    let is_correct = apply_guess_digest(round, player, &digest);
    Ok(GuessResult { round_id: round.id, player, is_correct })
}

// ---------------------------------------------------------------------------
// Payout and closing
// ---------------------------------------------------------------------------

/// Why `distribute_pot` refuses, if it does: the first of these that holds.
pub open spec fn distribute_refusal(
    config: GameConfig,
    round: Round,
    board: Leaderboard,
    winner_key: Address,
    fee_receiver_key: Address,
    escrow_lamports: u64,
    floor: u64,
) -> Option<SolPotError> {
    let d = payable(round.pot_lamports, escrow_lamports, floor);
    if !round.has_winner {
        Some(SolPotError::NoWinner)
    } else if round.pot_distributed {
        Some(SolPotError::PotAlreadyDistributed)
    } else if winner_key != round.winner {
        Some(SolPotError::Unauthorized)
    } else if fee_receiver_key != config.authority {
        Some(SolPotError::Unauthorized)
    } else if escrow_lamports < floor {
        Some(SolPotError::ArithmeticOverflow)
    } else if d * config.fee_basis_points > u64::MAX {
        Some(SolPotError::ArithmeticOverflow)
    } else if win_overflows(
        board.entries@,
        round.winner,
        (d - fee_of(d, config.fee_basis_points)) as u64,
    ) {
        Some(SolPotError::ArithmeticOverflow)
    } else {
        None
    }
}

/// Pays out a won round. Of the pot, as much as the escrow holds above its
/// rent floor `floor` is paid: the operator's fee at the configured rate,
/// rounded down, and the rest to the winner. The escrow gives up exactly that
/// amount; the pot is emptied and marked distributed; the leaderboard
/// records the win. The event carries the two shares, which the caller
/// credits to the winner and the operator.
pub fn distribute_pot(
    config: &GameConfig,
    round: &mut Round,
    leaderboard: &mut Leaderboard,
    winner_key: Address,
    fee_receiver_key: Address,
    escrow_lamports: &mut u64,
    floor: u64,
) -> (r: Result<PotDistributed, SolPotError>)
    requires
        config.wf(),
        old(round).wf(),
        old(leaderboard).wf(),
    ensures
        final(round).wf(),
        final(leaderboard).wf(),
        old(round).may_become(*final(round)),
        *old(escrow_lamports) >= old(round).pot_lamports ==> *final(escrow_lamports)
            >= final(round).pot_lamports,
        match r {
            Ok(event) => {
                let d = payable(old(round).pot_lamports, *old(escrow_lamports), floor);
                &&& distribute_refusal(
                    *config,
                    *old(round),
                    *old(leaderboard),
                    winner_key,
                    fee_receiver_key,
                    *old(escrow_lamports),
                    floor,
                ) is None
                &&& event.winner_amount + event.fee_amount == d
                &&& event.fee_amount == fee_of(d, config.fee_basis_points)
                &&& event.round_id == old(round).id
                &&& event.winner == old(round).winner
                &&& *final(escrow_lamports) == *old(escrow_lamports) - d
                &&& *final(escrow_lamports) >= floor
                &&& *final(round) == (Round {
                    pot_lamports: 0,
                    pot_distributed: true,
                    ..*old(round)
                })
                &&& final(leaderboard).entries@ == board_after_win(
                    old(leaderboard).entries@,
                    old(round).winner,
                    event.winner_amount,
                )
                &&& final(leaderboard).game_config == old(leaderboard).game_config
                &&& final(leaderboard).bump == old(leaderboard).bump
            },
            Err(e) => {
                &&& distribute_refusal(
                    *config,
                    *old(round),
                    *old(leaderboard),
                    winner_key,
                    fee_receiver_key,
                    *old(escrow_lamports),
                    floor,
                ) == Some(e)
                &&& *final(round) == *old(round)
                &&& *final(leaderboard) == *old(leaderboard)
                &&& *final(escrow_lamports) == *old(escrow_lamports)
            },
        },
{
    if !round.has_winner {
        return Err(SolPotError::NoWinner);
    }
    if round.pot_distributed {
        return Err(SolPotError::PotAlreadyDistributed);
    }
    if winner_key != round.winner {
        return Err(SolPotError::Unauthorized);
    }
    if fee_receiver_key != config.authority {
        return Err(SolPotError::Unauthorized);
    }
    let distributable = match payable_amount(round.pot_lamports, *escrow_lamports, floor) {
        Some(d) => d,
        None => {
            return Err(SolPotError::ArithmeticOverflow);
        },
    };
    let fee = match compute_fee(distributable, config.fee_basis_points) {
        Some(f) => f,
        None => {
            return Err(SolPotError::ArithmeticOverflow);
        },
    };
    let winner_amount = distributable - fee;
    let winner = round.winner;
    match leaderboard.record_win(winner, winner_amount) {
        Ok(()) => {},
        Err(e) => {
            return Err(e);
        },
    }
    *escrow_lamports = *escrow_lamports - distributable;
    round.pot_lamports = 0;
    round.pot_distributed = true;
    Ok(PotDistributed { round_id: round.id, winner, winner_amount, fee_amount: fee })
}

/// Why `mint_reward_nft` refuses, if it does: the first of these that holds.
pub open spec fn mint_refusal(round: Round, winner_key: Address) -> Option<SolPotError> {
    if !round.has_winner {
        Some(SolPotError::NoWinner)
    } else if round.nft_minted {
        Some(SolPotError::NftAlreadyMinted)
    } else if winner_key != round.winner {
        Some(SolPotError::Unauthorized)
    } else {
        None
    }
}

/// Marks a won round's reward as minted and returns the request that creates
/// the collectible `asset` for the winner, paid by `payer`. The caller sends
/// the request; should it fail, the whole operation is dropped. A round's
/// reward is minted at most once.
pub fn mint_reward_nft(
    round: &mut Round,
    winner_key: Address,
    asset: Address,
    payer: Address,
    system_program: Address,
    name: &[u8],
    uri: &[u8],
) -> (r: Result<(MintRequest, NftMinted), SolPotError>)
    requires
        old(round).wf(),
        name@.len() <= u32::MAX,
        uri@.len() <= u32::MAX,
    ensures
        final(round).wf(),
        old(round).may_become(*final(round)),
        match r {
            Ok((request, event)) => {
                &&& mint_refusal(*old(round), winner_key) is None
                &&& *final(round) == (Round { nft_minted: true, ..*old(round) })
                &&& request.program_id.bytes@ == asset_program_bytes()
                &&& request.accounts@ == create_asset_accounts(
                    asset,
                    payer,
                    old(round).winner,
                    system_program,
                    request.program_id,
                )
                &&& request.data@ == create_asset_data(name@, uri@)
                &&& event == (NftMinted { round_id: old(round).id, winner: old(round).winner, mint: asset })
            },
            Err(e) => {
                &&& mint_refusal(*old(round), winner_key) == Some(e)
                &&& *final(round) == *old(round)
            },
        },
{
    if !round.has_winner {
        return Err(SolPotError::NoWinner);
    }
    if round.nft_minted {
        return Err(SolPotError::NftAlreadyMinted);
    }
    if winner_key != round.winner {
        return Err(SolPotError::Unauthorized);
    }
    let request = build_mint_request(asset, payer, round.winner, system_program, name, uri);
    round.nft_minted = true;
    Ok((request, NftMinted { round_id: round.id, winner: round.winner, mint: asset }))
}

/// Whether a round may be closed at `now`: its time is over without a
/// winner, or it was won and paid out.
pub open spec fn closable(round: Round, now: i64) -> bool {
    (round.expired_at(now) && !round.has_winner) || (round.has_winner && round.pot_distributed)
}

/// Whether closing the round hands an unclaimed pot back to the operator.
pub open spec fn refunds(round: Round) -> bool {
    !round.has_winner && round.pot_lamports > 0
}

/// Why `close_round` refuses, if it does: the first of these that holds.
pub open spec fn close_refusal(
    config: GameConfig,
    round: Round,
    caller: Address,
    escrow_lamports: u64,
    floor: u64,
    now: i64,
) -> Option<SolPotError> {
    if caller != config.authority {
        Some(SolPotError::Unauthorized)
    } else if !closable(round, now) {
        Some(SolPotError::RoundStillActive)
    } else if refunds(round) && escrow_lamports < floor {
        Some(SolPotError::ArithmeticOverflow)
    } else {
        None
    }
}

/// Closes a round for good; only the operator may. An expired round that
/// nobody won gives its pot back to the operator, as far as the escrow holds
/// it above its rent floor `floor`. The pot is emptied and the round made
/// inactive. Returns the refund, which the caller credits to the operator.
pub fn close_round(
    config: &GameConfig,
    round: &mut Round,
    caller: Address,
    escrow_lamports: &mut u64,
    floor: u64,
    now: i64,
) -> (r: Result<(u64, RoundClosed), SolPotError>)
    requires
        old(round).wf(),
    ensures
        final(round).wf(),
        old(round).may_become(*final(round)),
        *old(escrow_lamports) >= old(round).pot_lamports ==> *final(escrow_lamports)
            >= final(round).pot_lamports,
        match r {
            Ok((refund, event)) => {
                &&& close_refusal(*config, *old(round), caller, *old(escrow_lamports), floor, now) is None
                &&& refund == if refunds(*old(round)) {
                    payable(old(round).pot_lamports, *old(escrow_lamports), floor)
                } else {
                    0
                }
                &&& *final(escrow_lamports) == *old(escrow_lamports) - refund
                &&& *final(round) == (Round { pot_lamports: 0, is_active: false, ..*old(round) })
                &&& event == (RoundClosed { round_id: old(round).id })
            },
            Err(e) => {
                &&& close_refusal(*config, *old(round), caller, *old(escrow_lamports), floor, now)
                    == Some(e)
                &&& *final(round) == *old(round)
                &&& *final(escrow_lamports) == *old(escrow_lamports)
            },
        },
{
    if caller != config.authority {
        return Err(SolPotError::Unauthorized);
    }
    let expired_no_winner = now >= round.expires_at && !round.has_winner;
    let won_and_distributed = round.has_winner && round.pot_distributed;
    if !(expired_no_winner || won_and_distributed) {
        return Err(SolPotError::RoundStillActive);
    }
    let mut refund: u64 = 0;
    if !round.has_winner && round.pot_lamports > 0 {
        refund = match payable_amount(round.pot_lamports, *escrow_lamports, floor) {
            Some(d) => d,
            None => {
                return Err(SolPotError::ArithmeticOverflow);
            },
        };
        *escrow_lamports = *escrow_lamports - refund;
    }
    round.pot_lamports = 0;
    round.is_active = false;
    Ok((refund, RoundClosed { round_id: round.id }))
}

} // verus!
