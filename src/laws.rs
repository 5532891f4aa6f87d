use vstd::prelude::*;

use crate::address::Address;
use crate::error::SolPotError;
use crate::game::{
    close_refusal, closable, distribute_refusal, enter_refusal, fee_of, guess_refusal, payable, refunds,
};
use crate::leaderboard::{win_overflows, Leaderboard};
use crate::state::GameConfig;
use crate::leaderboard::{
    board_after_win, holds_player, moved_up, players_unique, position_of, slot, sorted_by_wins,
    MAX_ENTRIES, LeaderboardEntry,
};
use crate::records::RecordBook;
use crate::state::{Round, BASIS_POINTS};

verus! {

/// Over any history of a round in which each step is one the operations
/// allow, a round once inactive stays inactive, and a winner once set stays
/// set and the same: a round is won at most once.
pub proof fn lemma_round_history(history: Seq<Round>, i: int, j: int)
    requires
        0 <= i <= j < history.len(),
        forall|k: int| 0 <= k < history.len() - 1 ==> history[k].may_become(#[trigger] history[k + 1]),
    ensures
        !history[i].is_active ==> !history[j].is_active,
        history[i].has_winner ==> history[j].has_winner && history[j].winner == history[i].winner,
        history[i].pot_distributed ==> history[j].pot_distributed,
        history[i].nft_minted ==> history[j].nft_minted,
    decreases j - i,
{
    if i < j {
        lemma_round_history(history, i, j - 1);
        assert(history[j - 1].may_become(history[j - 1 + 1]));
    }
}

/// The payout of a pot splits it exactly: the winner's share and the fee add
/// up to the amount paid, the fee is the rate's share rounded down and never
/// more than the amount, and the escrow keeps its floor.
pub proof fn lemma_payout_conserves(pot: u64, balance: u64, floor: u64, rate: u16)
    requires
        balance >= floor,
        rate <= BASIS_POINTS,
    ensures
        ({
            let d = payable(pot, balance, floor);
            let fee = fee_of(d, rate);
            &&& 0 <= fee <= d
            &&& (d - fee) + fee == d
            &&& d <= pot
            &&& balance - d >= floor
        }),
{
    let d = payable(pot, balance, floor);
    assert(0 <= d * rate / 10000 <= d) by (nonlinear_arith)
        requires
            0 <= d,
            0 <= rate <= 10000,
    ;
}

/// A player who has joined a round is refused with `AlreadyEntered` on any
/// later attempt to join it, whatever else holds.
pub proof fn lemma_entry_once(
    round: Round,
    book: RecordBook,
    round_key: Address,
    player: Address,
    player_lamports: u64,
    escrow_lamports: u64,
    now: i64,
)
    requires
        book.has_entry(round_key, player),
    ensures
        enter_refusal(round, book, round_key, player, player_lamports, escrow_lamports, now)
            == Some(SolPotError::AlreadyEntered),
{
}

/// A member who has guessed in a round is refused with `AlreadyGuessed` on
/// any later guess in it, whether either guess is correct or not.
pub proof fn lemma_guess_once(
    round: Round,
    book: RecordBook,
    round_key: Address,
    player: Address,
    now: i64,
)
    requires
        book.has_entry(round_key, player),
        book.has_guess(round_key, player),
    ensures
        guess_refusal(round, book, round_key, player, now) == Some(SolPotError::AlreadyGuessed),
{
}

/// Joining or guessing at the very second the round expires is refused with
/// `RoundExpired`; joining a full round is refused with `MaxPlayersReached`.
pub proof fn lemma_entry_boundaries(
    round: Round,
    book: RecordBook,
    round_key: Address,
    player: Address,
    player_lamports: u64,
    escrow_lamports: u64,
)
    requires
        round.is_active,
        !round.has_winner,
        !book.has_entry(round_key, player),
    ensures
        round.player_count < round.max_players ==> enter_refusal(
            round,
            book,
            round_key,
            player,
            player_lamports,
            escrow_lamports,
            round.expires_at,
        ) == Some(SolPotError::RoundExpired),
        round.player_count == round.max_players ==> forall|now: i64|
            enter_refusal(round, book, round_key, player, player_lamports, escrow_lamports, now)
                == Some(SolPotError::MaxPlayersReached),
{
}

/// A member's guess at the very second the round expires is refused with
/// `RoundExpired`.
pub proof fn lemma_guess_boundary(round: Round, book: RecordBook, round_key: Address, player: Address)
    requires
        round.is_active,
        !round.has_winner,
        book.has_entry(round_key, player),
        !book.has_guess(round_key, player),
    ensures
        guess_refusal(round, book, round_key, player, round.expires_at) == Some(
            SolPotError::RoundExpired,
        ),
{
}

/// Recording a win never grows a board past `MAX_ENTRIES`: a new winner is
/// added only while there is room, so a full board keeps its size, while a
/// tracked winner keeps one entry whose wins and winnings grow by the win.
pub proof fn lemma_board_bound(s: Seq<LeaderboardEntry>, winner: Address, amount: u64)
    requires
        s.len() <= MAX_ENTRIES,
        players_unique(s),
        sorted_by_wins(s),
        holds_player(s, winner) ==> s[position_of(s, winner)].wins < u32::MAX && s[position_of(
            s,
            winner,
        )].total_winnings + amount <= u64::MAX,
    ensures
        ({
            let r = board_after_win(s, winner, amount);
            &&& r.len() <= MAX_ENTRIES
            &&& holds_player(s, winner) ==> r.len() == s.len() && holds_player(r, winner) && r[position_of(
                r,
                winner,
            )].wins == s[position_of(s, winner)].wins + 1 && r[position_of(r, winner)].total_winnings
                == s[position_of(s, winner)].total_winnings + amount
            &&& !holds_player(s, winner) && s.len() < MAX_ENTRIES ==> r.len() == s.len() + 1
            &&& !holds_player(s, winner) && s.len() == MAX_ENTRIES ==> r == s
            &&& forall|k: int|
                0 <= k < s.len() && s[k].player != winner ==> holds_player(r, s[k].player) && r[position_of(
                    r,
                    s[k].player,
                )] == s[k]
        }),
{
    if holds_player(s, winner) {
        let i = position_of(s, winner);
        let e = crate::leaderboard::credited(s[i], amount);
        let j = slot(s, i, e.wins);
        crate::leaderboard::lemma_slot(s, i, e.wins);
        crate::leaderboard::lemma_credit_keeps_order(s, i, amount);
        let r = moved_up(s, i, j, e);
        assert(r[j].player == winner);
        assert(holds_player(r, winner));
        let p = position_of(r, winner);
        assert(p == j);
        assert forall|k: int| 0 <= k < s.len() && s[k].player != winner implies holds_player(
            r,
            s[k].player,
        ) && r[position_of(r, s[k].player)] == s[k] by {
            let m = if k < j { k } else if k < i { k + 1 } else { k };
            assert(k != i);
            assert(r[m] == s[k]);
            assert(holds_player(r, s[k].player));
            let q = position_of(r, s[k].player);
            assert(r[q].player == s[k].player);
            assert(q == m);
        }
    } else if s.len() < MAX_ENTRIES {
        let r = board_after_win(s, winner, amount);
        assert forall|k: int| 0 <= k < s.len() && s[k].player != winner implies holds_player(
            r,
            s[k].player,
        ) && r[position_of(r, s[k].player)] == s[k] by {
            assert(r[k] == s[k]);
            assert(holds_player(r, s[k].player));
            let q = position_of(r, s[k].player);
            assert(q == k || q == s.len());
        }
    } else {
        assert forall|k: int| 0 <= k < s.len() && s[k].player != winner implies holds_player(
            s,
            s[k].player,
        ) && s[position_of(s, s[k].player)] == s[k] by {
            assert(holds_player(s, s[k].player));
            let q = position_of(s, s[k].player);
            assert(q == k);
        }
    }
}

/// Closing is idempotent in effect: a closed round that may be closed again
/// refunds nothing the second time and is left as it was.
pub proof fn lemma_close_idempotent(
    config: GameConfig,
    round: Round,
    caller: Address,
    escrow_lamports: u64,
    floor: u64,
    now: i64,
)
    requires
        closable(round, now),
        round.pot_lamports == 0,
        !round.is_active,
        caller == config.authority,
    ensures
        !refunds(round),
        close_refusal(config, round, caller, escrow_lamports, floor, now) is None,
        (Round { pot_lamports: 0, is_active: false, ..round }) == round,
{
}

/// A payout is owed to a won, undistributed round when it is asked for by
/// its winner and the operator, the escrow holds its rent floor, and neither
/// the fee product nor the winner's leaderboard counters overflow. The winner's
/// share and the fee then add up to exactly the amount paid, and the fee is the
/// configured share of it, rounded down.
pub proof fn lemma_distribution_owed(
    config: GameConfig,
    round: Round,
    board: Leaderboard,
    winner_key: Address,
    fee_receiver_key: Address,
    escrow_lamports: u64,
    floor: u64,
)
    requires
        config.wf(),
        round.has_winner,
        !round.pot_distributed,
        winner_key == round.winner,
        fee_receiver_key == config.authority,
        escrow_lamports >= floor,
        payable(round.pot_lamports, escrow_lamports, floor) * config.fee_basis_points <= u64::MAX,
        !win_overflows(
            board.entries@,
            round.winner,
            (payable(round.pot_lamports, escrow_lamports, floor) - fee_of(
                payable(round.pot_lamports, escrow_lamports, floor),
                config.fee_basis_points,
            )) as u64,
        ),
    ensures
        distribute_refusal(config, round, board, winner_key, fee_receiver_key, escrow_lamports, floor)
            is None,
        ({
            let d = payable(round.pot_lamports, escrow_lamports, floor);
            let fee = fee_of(d, config.fee_basis_points);
            &&& 0 <= fee <= d
            &&& (d - fee) + fee == d
            &&& escrow_lamports - d >= floor
        }),
{
    lemma_payout_conserves(round.pot_lamports, escrow_lamports, floor, config.fee_basis_points);
}

/// Wins by distinct players, recorded one after another on an empty board,
/// fill it up to `MAX_ENTRIES` and no further: after `n` such wins the board
/// holds `min(n, MAX_ENTRIES)` entries, every one of them an earlier winner.
pub proof fn lemma_distinct_winners_fill(
    winners: Seq<Address>,
    amounts: Seq<u64>,
    boards: Seq<Seq<LeaderboardEntry>>,
    n: int,
)
    requires
        0 <= n < boards.len(),
        boards.len() == winners.len() + 1,
        amounts.len() == winners.len(),
        boards[0].len() == 0,
        forall|a: int, b: int| 0 <= a < b < winners.len() ==> winners[a] != winners[b],
        forall|k: int|
            0 <= k < winners.len() ==> #[trigger] boards[k + 1] == board_after_win(
                boards[k],
                winners[k],
                amounts[k],
            ),
    ensures
        boards[n].len() == if n < MAX_ENTRIES {
            n
        } else {
            MAX_ENTRIES as int
        },
        forall|m: int|
            0 <= m < boards[n].len() ==> exists|t: int|
                0 <= t < n && winners[t] == #[trigger] boards[n][m].player,
    decreases n,
{
    if n > 0 {
        let k = n - 1;
        lemma_distinct_winners_fill(winners, amounts, boards, k);
        let s = boards[k];
        let w = winners[k];
        assert(boards[k + 1] == board_after_win(s, w, amounts[k]));
        if holds_player(s, w) {
            let m = choose|m: int| 0 <= m < s.len() && s[m].player == w;
            assert(exists|t: int| 0 <= t < k && winners[t] == #[trigger] s[m].player);
            let t = choose|t: int| 0 <= t < k && winners[t] == #[trigger] s[m].player;
            assert(winners[t] != winners[k]);
        }
        assert(!holds_player(s, w));
        let r = boards[n];
        assert forall|m: int| 0 <= m < r.len() implies exists|t: int|
            0 <= t < n && winners[t] == #[trigger] r[m].player by {
            if m < s.len() {
                assert(r[m] == s[m]);
                let t = choose|t: int| 0 <= t < k && winners[t] == #[trigger] s[m].player;
                assert(winners[t] == r[m].player);
            } else {
                assert(r[m].player == winners[k]);
            }
        }
    }
}

} // verus!
