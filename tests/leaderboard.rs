use solpot::{Address, Leaderboard};

fn player(n: u32) -> Address {
    let mut b = [0u8; 32];
    b[0..4].copy_from_slice(&n.to_le_bytes());
    b[31] = 1;
    Address::new(b)
}

#[test]
fn board_caps_at_fifty_distinct_winners() {
    let mut board = Leaderboard::new(Address::zero(), 0);
    for n in 0..51u32 {
        board.record_win(player(n), 100).unwrap();
    }
    assert_eq!(board.entries.len(), 50);
    assert!(!board.entries.iter().any(|e| e.player == player(50)));
    board.record_win(player(51), 100).unwrap();
    assert_eq!(board.entries.len(), 50);
    board.record_win(player(7), 40).unwrap();
    assert_eq!(board.entries.len(), 50);
    assert!(board.entries[0].player == player(7));
    assert_eq!(board.entries[0].wins, 2);
    assert_eq!(board.entries[0].total_winnings, 140);
}

#[test]
fn repeat_winner_moves_up_keeping_tie_order() {
    let mut board = Leaderboard::new(Address::zero(), 0);
    board.record_win(player(1), 10).unwrap();
    board.record_win(player(2), 10).unwrap();
    board.record_win(player(3), 10).unwrap();
    board.record_win(player(3), 5).unwrap();
    let order: Vec<Address> = board.entries.iter().map(|e| e.player).collect();
    assert!(order == vec![player(3), player(1), player(2)]);
    board.record_win(player(2), 1).unwrap();
    let order: Vec<Address> = board.entries.iter().map(|e| e.player).collect();
    assert!(order == vec![player(3), player(2), player(1)]);
    assert_eq!(board.entries[1].total_winnings, 11);
}

#[test]
fn win_counter_overflow_changes_nothing() {
    let mut board = Leaderboard::new(Address::zero(), 0);
    board.record_win(player(1), u64::MAX).unwrap();
    let r = board.record_win(player(1), 1);
    assert_eq!(r, Err(solpot::SolPotError::ArithmeticOverflow));
    assert_eq!(board.entries[0].wins, 1);
    assert_eq!(board.entries[0].total_winnings, u64::MAX);
}
