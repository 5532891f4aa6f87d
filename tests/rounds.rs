use solpot::{
    apply_guess_digest, close_round, compute_fee, credit_lamports, create_round, distribute_pot, enter_round,
    initialize_game, mint_reward_nft, payable_amount, submit_guess, Address, GameConfig,
    Leaderboard, RecordBook, Round, SolPotError,
};

fn addr(n: u8) -> Address {
    Address::new([n; 32])
}

fn hex32(s: &str) -> [u8; 32] {
    let mut out = [0u8; 32];
    for i in 0..32 {
        out[i] = u8::from_str_radix(&s[2 * i..2 * i + 2], 16).unwrap();
    }
    out
}

// SHA-256 of the UTF-8 text "apple".
const APPLE: &str = "3a7bd3e2360a3d29eea436fcfb7e44c735d117c42d1c1835420b6b9942dd4f1b";

const OPERATOR: u8 = 1;
const CONFIG: u8 = 2;
const ROUND_KEY: u8 = 3;

fn setup(entry_fee: u64, fee_rate: u16) -> (GameConfig, Leaderboard) {
    initialize_game(addr(OPERATOR), addr(CONFIG), entry_fee, fee_rate, 7, 8).unwrap()
}

fn open_round(config: &mut GameConfig, max_players: u32, duration: i64, now: i64) -> Round {
    let (round, event) = create_round(
        config,
        addr(CONFIG),
        addr(OPERATOR),
        hex32(APPLE),
        max_players,
        duration,
        now,
        9,
    )
    .unwrap();
    assert_eq!(event.round_id, round.id);
    round
}

fn join(round: &mut Round, book: &mut RecordBook, player: u8, escrow: &mut u64, now: i64) -> Result<(), SolPotError> {
    let mut wallet: u64 = 1_000_000;
    enter_round(round, addr(ROUND_KEY), book, addr(player), &mut wallet, escrow, now, 0).map(|_| ())
}

#[test]
fn initialize_rejects_fee_rate_over_ten_percent() {
    assert_eq!(
        initialize_game(addr(OPERATOR), addr(CONFIG), 1000, 1001, 0, 0).err(),
        Some(SolPotError::InvalidFeeBasisPoints)
    );
    let (config, board) = setup(1000, 1000);
    assert_eq!(config.round_count, 0);
    assert_eq!(config.fee_basis_points, 1000);
    assert_eq!(board.entries.len(), 0);
    assert!(board.game_config == addr(CONFIG));
}

#[test]
fn create_round_numbers_rounds_and_sets_expiry() {
    let (mut config, _) = setup(1000, 500);
    let first = open_round(&mut config, 5, 60, 100);
    let second = open_round(&mut config, 5, 60, 200);
    assert_eq!(first.id, 0);
    assert_eq!(second.id, 1);
    assert_eq!(config.round_count, 2);
    assert_eq!(first.expires_at, 160);
    assert_eq!(first.created_at, 100);
    assert_eq!(first.entry_fee_lamports, 1000);
    assert!(first.is_active && !first.has_winner);
    assert!(first.winner == Address::zero());
}

#[test]
fn create_round_refusals() {
    let (mut config, _) = setup(1000, 500);
    let r = create_round(&mut config, addr(CONFIG), addr(9), [0; 32], 5, 60, 0, 0);
    assert_eq!(r.err(), Some(SolPotError::Unauthorized));
    let r = create_round(&mut config, addr(CONFIG), addr(OPERATOR), [0; 32], 5, 0, 100, 0);
    assert_eq!(r.err(), Some(SolPotError::RoundExpired));
    let r = create_round(&mut config, addr(CONFIG), addr(OPERATOR), [0; 32], 5, -10, 100, 0);
    assert_eq!(r.err(), Some(SolPotError::RoundExpired));
    assert_eq!(config.round_count, 0);
    let r = create_round(&mut config, addr(CONFIG), addr(OPERATOR), [0; 32], 5, i64::MAX, 1, 0);
    assert_eq!(r.err(), Some(SolPotError::ArithmeticOverflow));
    let r = create_round(&mut config, addr(CONFIG), addr(OPERATOR), [0; 32], 5, -1, i64::MIN, 0);
    assert_eq!(r.err(), Some(SolPotError::ArithmeticOverflow));
    config.round_count = u64::MAX;
    let r = create_round(&mut config, addr(CONFIG), addr(OPERATOR), [0; 32], 5, 60, 0, 0);
    assert_eq!(r.err(), Some(SolPotError::ArithmeticOverflow));
    let r = create_round(&mut config, addr(CONFIG), addr(OPERATOR), [0; 32], 5, 0, 0, 0);
    assert_eq!(r.err(), Some(SolPotError::ArithmeticOverflow));
    assert_eq!(config.round_count, u64::MAX);
}

#[test]
fn three_players_win_and_distribute() {
    let (mut config, mut board) = setup(1000, 500);
    let mut round = open_round(&mut config, 10, 100, 0);
    let mut book = RecordBook::new();
    let mut escrow: u64 = 2000;
    for p in [10u8, 11, 12] {
        join(&mut round, &mut book, p, &mut escrow, 5).unwrap();
    }
    assert_eq!(round.pot_lamports, 3000);
    assert_eq!(round.player_count, 3);
    assert_eq!(escrow, 5000);

    let result = submit_guess(&mut round, addr(ROUND_KEY), &mut book, addr(11), "Apple", 6, 0).unwrap();
    assert!(result.is_correct);
    assert!(round.has_winner && !round.is_active);
    assert!(round.winner == addr(11));

    let paid = distribute_pot(&config, &mut round, &mut board, addr(11), addr(OPERATOR), &mut escrow, 2000).unwrap();
    assert_eq!(paid.fee_amount, 150);
    assert_eq!(paid.winner_amount, 2850);
    assert_eq!(round.pot_lamports, 0);
    assert!(round.pot_distributed);
    assert_eq!(escrow, 2000);
    assert_eq!(board.entries.len(), 1);
    assert_eq!(board.entries[0].wins, 1);
    assert_eq!(board.entries[0].total_winnings, 2850);
}

#[test]
fn empty_round_closes_without_refund() {
    let (mut config, _) = setup(1000, 500);
    let mut round = open_round(&mut config, 1, 10, 0);
    let mut escrow: u64 = 2000;
    let (refund, event) = close_round(&config, &mut round, addr(OPERATOR), &mut escrow, 2000, 10).unwrap();
    assert_eq!(refund, 0);
    assert_eq!(event.round_id, 0);
    assert_eq!(round.pot_lamports, 0);
    assert!(!round.is_active);
    assert_eq!(escrow, 2000);
}

#[test]
fn expired_round_refunds_operator() {
    let (mut config, _) = setup(1000, 500);
    let mut round = open_round(&mut config, 5, 10, 0);
    let mut book = RecordBook::new();
    let mut escrow: u64 = 2000;
    join(&mut round, &mut book, 10, &mut escrow, 1).unwrap();
    join(&mut round, &mut book, 11, &mut escrow, 2).unwrap();
    let wrong = submit_guess(&mut round, addr(ROUND_KEY), &mut book, addr(10), "pear", 3, 0).unwrap();
    assert!(!wrong.is_correct);
    assert_eq!(
        close_round(&config, &mut round, addr(OPERATOR), &mut escrow, 2000, 9).err(),
        Some(SolPotError::RoundStillActive)
    );
    let (refund, _) = close_round(&config, &mut round, addr(OPERATOR), &mut escrow, 2000, 10).unwrap();
    assert_eq!(refund, 2000);
    assert_eq!(round.pot_lamports, 0);
    assert_eq!(escrow, 2000);
    assert!(!round.is_active);
}

#[test]
fn expired_round_refund_is_limited_by_rent_floor() {
    let (mut config, _) = setup(1000, 500);
    let mut round = open_round(&mut config, 5, 10, 0);
    let mut book = RecordBook::new();
    let mut escrow: u64 = 0;
    join(&mut round, &mut book, 10, &mut escrow, 1).unwrap();
    join(&mut round, &mut book, 11, &mut escrow, 2).unwrap();
    let (refund, _) = close_round(&config, &mut round, addr(OPERATOR), &mut escrow, 500, 20).unwrap();
    assert_eq!(refund, 1500);
    assert_eq!(escrow, 500);
    assert_eq!(round.pot_lamports, 0);
    assert_eq!(
        close_round(&config, &mut round, addr(9), &mut escrow, 500, 20).err(),
        Some(SolPotError::Unauthorized)
    );
}

#[test]
fn close_below_rent_floor_overflows() {
    let (mut config, _) = setup(1000, 500);
    let mut round = open_round(&mut config, 5, 10, 0);
    let mut book = RecordBook::new();
    let mut escrow: u64 = 0;
    join(&mut round, &mut book, 10, &mut escrow, 1).unwrap();
    escrow = 10;
    assert_eq!(
        close_round(&config, &mut round, addr(OPERATOR), &mut escrow, 500, 20).err(),
        Some(SolPotError::ArithmeticOverflow)
    );
    assert_eq!(round.pot_lamports, 1000);
}

#[test]
fn second_distribution_fails() {
    let (mut config, mut board) = setup(1000, 500);
    let mut round = open_round(&mut config, 10, 100, 0);
    let mut book = RecordBook::new();
    let mut escrow: u64 = 0;
    join(&mut round, &mut book, 10, &mut escrow, 1).unwrap();
    submit_guess(&mut round, addr(ROUND_KEY), &mut book, addr(10), "APPLE", 2, 0).unwrap();
    distribute_pot(&config, &mut round, &mut board, addr(10), addr(OPERATOR), &mut escrow, 0).unwrap();
    let again = distribute_pot(&config, &mut round, &mut board, addr(10), addr(OPERATOR), &mut escrow, 0);
    assert_eq!(again.err(), Some(SolPotError::PotAlreadyDistributed));
    assert_eq!(board.entries[0].wins, 1);
}

#[test]
fn distribute_refusals() {
    let (mut config, mut board) = setup(1000, 500);
    let mut round = open_round(&mut config, 10, 100, 0);
    let mut escrow: u64 = 0;
    assert_eq!(
        distribute_pot(&config, &mut round, &mut board, addr(10), addr(OPERATOR), &mut escrow, 0).err(),
        Some(SolPotError::NoWinner)
    );
    let mut book = RecordBook::new();
    join(&mut round, &mut book, 10, &mut escrow, 1).unwrap();
    submit_guess(&mut round, addr(ROUND_KEY), &mut book, addr(10), "apple", 2, 0).unwrap();
    assert_eq!(
        distribute_pot(&config, &mut round, &mut board, addr(11), addr(OPERATOR), &mut escrow, 0).err(),
        Some(SolPotError::Unauthorized)
    );
    assert_eq!(
        distribute_pot(&config, &mut round, &mut board, addr(10), addr(12), &mut escrow, 0).err(),
        Some(SolPotError::Unauthorized)
    );
    assert_eq!(
        distribute_pot(&config, &mut round, &mut board, addr(10), addr(OPERATOR), &mut escrow, 5000).err(),
        Some(SolPotError::ArithmeticOverflow)
    );
    assert!(!round.pot_distributed);
    assert_eq!(round.pot_lamports, 1000);
}

#[test]
fn distribution_pays_only_above_rent_floor() {
    let (mut config, mut board) = setup(1000, 1000);
    let mut round = open_round(&mut config, 10, 100, 0);
    let mut book = RecordBook::new();
    let mut escrow: u64 = 0;
    join(&mut round, &mut book, 10, &mut escrow, 1).unwrap();
    join(&mut round, &mut book, 11, &mut escrow, 1).unwrap();
    submit_guess(&mut round, addr(ROUND_KEY), &mut book, addr(10), "apple", 2, 0).unwrap();
    let paid = distribute_pot(&config, &mut round, &mut board, addr(10), addr(OPERATOR), &mut escrow, 999).unwrap();
    assert_eq!(paid.fee_amount, 100);
    assert_eq!(paid.winner_amount, 901);
    assert_eq!(escrow, 999);
}

#[test]
fn second_entry_fails_already_entered() {
    let (mut config, _) = setup(1000, 500);
    let mut round = open_round(&mut config, 1, 100, 0);
    let mut book = RecordBook::new();
    let mut escrow: u64 = 0;
    join(&mut round, &mut book, 10, &mut escrow, 1).unwrap();
    assert_eq!(join(&mut round, &mut book, 10, &mut escrow, 2), Err(SolPotError::AlreadyEntered));
    assert_eq!(round.player_count, 1);
    assert_eq!(escrow, 1000);
}

#[test]
fn second_guess_fails_already_guessed() {
    let (mut config, _) = setup(1000, 500);
    let mut round = open_round(&mut config, 5, 100, 0);
    let mut book = RecordBook::new();
    let mut escrow: u64 = 0;
    join(&mut round, &mut book, 10, &mut escrow, 1).unwrap();
    let first = submit_guess(&mut round, addr(ROUND_KEY), &mut book, addr(10), "pear", 2, 0).unwrap();
    assert!(!first.is_correct);
    let second = submit_guess(&mut round, addr(ROUND_KEY), &mut book, addr(10), "apple", 3, 0);
    assert_eq!(second.err(), Some(SolPotError::AlreadyGuessed));
    assert!(!round.has_winner && round.is_active);
}

#[test]
fn guess_from_non_member_is_unauthorized() {
    let (mut config, _) = setup(1000, 500);
    let mut round = open_round(&mut config, 5, 100, 0);
    let mut book = RecordBook::new();
    let r = submit_guess(&mut round, addr(ROUND_KEY), &mut book, addr(10), "apple", 2, 0);
    assert_eq!(r.err(), Some(SolPotError::Unauthorized));
    assert!(book.guesses.is_empty());
    assert!(round.is_active && !round.has_winner);
}

#[test]
fn entry_and_guess_at_expiry_fail() {
    let (mut config, _) = setup(1000, 500);
    let mut round = open_round(&mut config, 5, 100, 0);
    let mut book = RecordBook::new();
    let mut escrow: u64 = 0;
    assert_eq!(join(&mut round, &mut book, 10, &mut escrow, 100), Err(SolPotError::RoundExpired));
    join(&mut round, &mut book, 10, &mut escrow, 99).unwrap();
    let r = submit_guess(&mut round, addr(ROUND_KEY), &mut book, addr(10), "apple", 100, 0);
    assert_eq!(r.err(), Some(SolPotError::RoundExpired));
    assert!(!book.guesses.iter().any(|g| g.player == addr(10)));
}

#[test]
fn entry_into_full_round_fails() {
    let (mut config, _) = setup(1000, 500);
    let mut round = open_round(&mut config, 2, 100, 0);
    let mut book = RecordBook::new();
    let mut escrow: u64 = 0;
    join(&mut round, &mut book, 10, &mut escrow, 1).unwrap();
    join(&mut round, &mut book, 11, &mut escrow, 1).unwrap();
    assert_eq!(join(&mut round, &mut book, 12, &mut escrow, 1), Err(SolPotError::MaxPlayersReached));
}

#[test]
fn entry_after_win_and_into_closed_round_fail() {
    let (mut config, _) = setup(1000, 500);
    let mut round = open_round(&mut config, 5, 100, 0);
    let mut book = RecordBook::new();
    let mut escrow: u64 = 0;
    join(&mut round, &mut book, 10, &mut escrow, 1).unwrap();
    submit_guess(&mut round, addr(ROUND_KEY), &mut book, addr(10), "apple", 2, 0).unwrap();
    assert_eq!(join(&mut round, &mut book, 11, &mut escrow, 3), Err(SolPotError::RoundNotActive));
    let mut won_open = round;
    won_open.is_active = true;
    assert_eq!(join(&mut won_open, &mut book, 11, &mut escrow, 3), Err(SolPotError::RoundAlreadyWon));
}

#[test]
fn entry_with_short_wallet_fails() {
    let (mut config, _) = setup(1000, 500);
    let mut round = open_round(&mut config, 5, 100, 0);
    let mut book = RecordBook::new();
    let mut escrow: u64 = 0;
    let mut wallet: u64 = 999;
    let r = enter_round(&mut round, addr(ROUND_KEY), &mut book, addr(10), &mut wallet, &mut escrow, 1, 0);
    assert_eq!(r.err(), Some(SolPotError::InsufficientFunds));
    let mut wallet: u64 = 1500;
    let event = enter_round(&mut round, addr(ROUND_KEY), &mut book, addr(10), &mut wallet, &mut escrow, 1, 0).unwrap();
    assert_eq!(wallet, 500);
    assert_eq!(event.pot_lamports, 1000);
    assert_eq!(event.player_count, 1);
    assert_eq!(book.entries[0].entered_at, 1);
}

#[test]
fn guess_is_lowercased_before_hashing() {
    let (mut config, _) = setup(1000, 500);
    let mut round = open_round(&mut config, 5, 100, 0);
    let mut book = RecordBook::new();
    let mut escrow: u64 = 0;
    join(&mut round, &mut book, 10, &mut escrow, 1).unwrap();
    let r = submit_guess(&mut round, addr(ROUND_KEY), &mut book, addr(10), "aPpLe", 2, 0).unwrap();
    assert!(r.is_correct);
    assert!(round.winner == addr(10));
}

#[test]
fn guess_digest_decides_win() {
    let (mut config, _) = setup(1000, 500);
    let mut round = open_round(&mut config, 5, 100, 0);
    assert!(!apply_guess_digest(&mut round, addr(4), &[0u8; 32]));
    assert!(round.is_active && !round.has_winner);
    assert!(apply_guess_digest(&mut round, addr(4), &hex32(APPLE)));
    assert!(!round.is_active && round.has_winner);
    assert!(round.winner == addr(4));
}

#[test]
fn mint_once_for_winner() {
    let (mut config, _) = setup(1000, 500);
    let mut round = open_round(&mut config, 5, 100, 0);
    assert_eq!(
        mint_reward_nft(&mut round, addr(10), addr(20), addr(21), addr(0), b"Pot", b"u").err(),
        Some(SolPotError::NoWinner)
    );
    let mut book = RecordBook::new();
    let mut escrow: u64 = 0;
    join(&mut round, &mut book, 10, &mut escrow, 1).unwrap();
    submit_guess(&mut round, addr(ROUND_KEY), &mut book, addr(10), "apple", 2, 0).unwrap();
    assert_eq!(
        mint_reward_nft(&mut round, addr(11), addr(20), addr(21), addr(0), b"Pot", b"u").err(),
        Some(SolPotError::Unauthorized)
    );
    let (request, event) =
        mint_reward_nft(&mut round, addr(10), addr(20), addr(21), addr(0), b"Pot", b"u").unwrap();
    assert!(round.nft_minted);
    assert!(event.mint == addr(20));
    assert!(event.winner == addr(10));
    assert_eq!(request.accounts.len(), 8);
    assert!(request.accounts[4].key == addr(10));
    assert_eq!(
        mint_reward_nft(&mut round, addr(10), addr(22), addr(21), addr(0), b"Pot", b"u").err(),
        Some(SolPotError::NftAlreadyMinted)
    );
}

#[test]
fn fee_and_payable_arithmetic() {
    assert_eq!(compute_fee(3000, 500), Some(150));
    assert_eq!(compute_fee(999, 1000), Some(99));
    assert_eq!(compute_fee(u64::MAX, 2), None);
    assert_eq!(payable_amount(3000, 5000, 1000), Some(3000));
    assert_eq!(payable_amount(3000, 3500, 1000), Some(2500));
    assert_eq!(payable_amount(3000, 500, 1000), None);
    assert_eq!(credit_lamports(5, 7), Ok(12));
    assert_eq!(credit_lamports(u64::MAX, 1), Err(SolPotError::ArithmeticOverflow));
}

#[test]
fn closing_twice_refunds_once() {
    let (mut config, _) = setup(1000, 500);
    let mut round = open_round(&mut config, 5, 10, 0);
    let mut book = RecordBook::new();
    let mut escrow: u64 = 100;
    join(&mut round, &mut book, 10, &mut escrow, 1).unwrap();
    let (first, _) = close_round(&config, &mut round, addr(OPERATOR), &mut escrow, 100, 10).unwrap();
    let after_first = round;
    let (second, _) = close_round(&config, &mut round, addr(OPERATOR), &mut escrow, 100, 11).unwrap();
    assert_eq!(first, 1000);
    assert_eq!(second, 0);
    assert_eq!(escrow, 100);
    assert_eq!(round.pot_lamports, after_first.pot_lamports);
    assert_eq!(round.is_active, after_first.is_active);
}

#[test]
fn won_round_closes_only_after_distribution() {
    let (mut config, mut board) = setup(1000, 500);
    let mut round = open_round(&mut config, 5, 100, 0);
    let mut book = RecordBook::new();
    let mut escrow: u64 = 0;
    join(&mut round, &mut book, 10, &mut escrow, 1).unwrap();
    submit_guess(&mut round, addr(ROUND_KEY), &mut book, addr(10), "apple", 2, 0).unwrap();
    assert_eq!(
        close_round(&config, &mut round, addr(OPERATOR), &mut escrow, 0, 500).err(),
        Some(SolPotError::RoundStillActive)
    );
    distribute_pot(&config, &mut round, &mut board, addr(10), addr(OPERATOR), &mut escrow, 0).unwrap();
    let (refund, _) = close_round(&config, &mut round, addr(OPERATOR), &mut escrow, 0, 3).unwrap();
    assert_eq!(refund, 0);
    assert!(!round.is_active && round.pot_distributed);
}

#[test]
fn error_messages() {
    assert_eq!(SolPotError::RoundExpired.message(), "Round has expired");
    assert_eq!(SolPotError::InvalidFeeBasisPoints.message(), "Fee basis points must be <= 1000 (10%)");
    assert_eq!(
        SolPotError::AlreadyGuessed.message(),
        "Player has already submitted a guess for this round"
    );
}
