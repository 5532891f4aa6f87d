use vstd::prelude::*;

use crate::address::Address;
use crate::error::SolPotError;

verus! {

/// The most players the leaderboard tracks; later new winners are not added.
pub const MAX_ENTRIES: usize = 50;

/// One player's standing: rounds won and lamports won in all.
#[derive(Clone, Copy, Debug)]
pub struct LeaderboardEntry {
    pub player: Address,
    pub wins: u32,
    pub total_winnings: u64,
}

/// The shared ranking of winners, kept sorted by wins, most wins first.
#[derive(Clone, Debug)]
pub struct Leaderboard {
    pub game_config: Address,
    pub entries: Vec<LeaderboardEntry>,
    pub bump: u8,
}

/// No player appears twice.
pub open spec fn players_unique(s: Seq<LeaderboardEntry>) -> bool {
    forall|a: int, b: int| 0 <= a < b < s.len() ==> s[a].player != s[b].player
}

/// Wins never increase from one position to the next.
pub open spec fn sorted_by_wins(s: Seq<LeaderboardEntry>) -> bool {
    forall|a: int, b: int| 0 <= a < b < s.len() ==> s[a].wins >= s[b].wins
}

pub open spec fn holds_player(s: Seq<LeaderboardEntry>, p: Address) -> bool {
    exists|k: int| 0 <= k < s.len() && s[k].player == p
}

/// The position of `p` in a board that holds it.
pub open spec fn position_of(s: Seq<LeaderboardEntry>, p: Address) -> int {
    choose|k: int| 0 <= k < s.len() && s[k].player == p
}

/// Where an entry now at position `i` with `w` wins lands when a stable sort
/// moves it ahead of every entry before it that has fewer wins.
pub open spec fn slot(s: Seq<LeaderboardEntry>, i: int, w: u32) -> int
    decreases i,
{
    if i > 0 && s[i - 1].wins < w {
        slot(s, i - 1, w)
    } else {
        i
    }
}

/// `s` with its entry at `i` replaced by `e` and moved to position `j <= i`;
/// the entries from `j` up to `i` shift one place back.
pub open spec fn moved_up(s: Seq<LeaderboardEntry>, i: int, j: int, e: LeaderboardEntry) -> Seq<
    LeaderboardEntry,
> {
    Seq::new(
        s.len(),
        |k: int|
            if k < j {
                s[k]
            } else if k == j {
                e
            } else if k <= i {
                s[k - 1]
            } else {
                s[k]
            },
    )
}

/// The entry of a player after one more win worth `amount`.
pub open spec fn credited(e: LeaderboardEntry, amount: u64) -> LeaderboardEntry {
    LeaderboardEntry {
        player: e.player,
        wins: (e.wins + 1) as u32,
        total_winnings: (e.total_winnings + amount) as u64,
    }
}

/// Whether recording a win of `amount` for `winner` would overflow a counter.
pub open spec fn win_overflows(s: Seq<LeaderboardEntry>, winner: Address, amount: u64) -> bool {
    holds_player(s, winner) && {
        let e = s[position_of(s, winner)];
        e.wins == u32::MAX || e.total_winnings + amount > u64::MAX
    }
}

/// The board after `winner` wins `amount`: a tracked player's entry is credited
/// and moved up past those with fewer wins; a new player is appended while
/// there is room and left out once the board is full.
pub open spec fn board_after_win(s: Seq<LeaderboardEntry>, winner: Address, amount: u64) -> Seq<
    LeaderboardEntry,
> {
    if holds_player(s, winner) {
        let i = position_of(s, winner);
        let e = credited(s[i], amount);
        moved_up(s, i, slot(s, i, e.wins), e)
    } else if s.len() < MAX_ENTRIES {
        s.push(LeaderboardEntry { player: winner, wins: 1, total_winnings: amount })
    } else {
        s
    }
}

pub(crate) proof fn lemma_slot(s: Seq<LeaderboardEntry>, i: int, w: u32)
    requires
        0 <= i <= s.len(),
    ensures
        0 <= slot(s, i, w) <= i,
        forall|k: int| slot(s, i, w) <= k < i ==> s[k].wins < w,
        slot(s, i, w) > 0 ==> s[slot(s, i, w) - 1].wins >= w,
    decreases i,
{
    if i > 0 && s[i - 1].wins < w {
        lemma_slot(s, i - 1, w);
    }
}

pub(crate) proof fn lemma_credit_keeps_order(s: Seq<LeaderboardEntry>, i: int, amount: u64)
    requires
        0 <= i < s.len(),
        sorted_by_wins(s),
        players_unique(s),
        s[i].wins < u32::MAX,
        s[i].total_winnings + amount <= u64::MAX,
    ensures
        ({
            let e = credited(s[i], amount);
            let r = moved_up(s, i, slot(s, i, e.wins), e);
            sorted_by_wins(r) && players_unique(r) && r.len() == s.len()
        }),
{
    let e = credited(s[i], amount);
    let w = e.wins;
    let j = slot(s, i, w);
    lemma_slot(s, i, w);
    let r = moved_up(s, i, j, e);
    assert forall|k: int| 0 <= k < j implies s[k].wins >= w by {
        assert(s[k].wins >= s[j - 1].wins);
    }
    assert forall|k: int| j <= k < i implies s[k].wins == s[i].wins by {
        assert(s[k].wins >= s[i].wins);
    }
    assert forall|a: int, b: int| 0 <= a < b < r.len() implies r[a].wins >= r[b].wins by {
        if b > i {
            assert(s[b].wins <= s[i].wins);
        }
        if a > i {
            assert(s[a].wins >= s[b].wins);
        }
        if a > j && a <= i && b > i {
            assert(s[a - 1].wins >= s[b].wins);
        }
        if a > j && b <= i {
            assert(s[a - 1].wins >= s[b - 1].wins);
        }
    }
    assert forall|a: int, b: int| 0 <= a < b < r.len() implies r[a].player != r[b].player by {
        let sa = if a < j { a } else if a == j { i } else if a <= i { a - 1 } else { a };
        let sb = if b < j { b } else if b == j { i } else if b <= i { b - 1 } else { b };
        assert(r[a].player == s[sa].player);
        assert(r[b].player == s[sb].player);
        assert(sa != sb);
    }
}

impl LeaderboardEntry {
    /// The entry of a player on their first win.
    pub fn first_win(player: Address, amount: u64) -> (r: LeaderboardEntry)
        ensures
            r == (LeaderboardEntry { player, wins: 1, total_winnings: amount }),
    {
        LeaderboardEntry { player, wins: 1, total_winnings: amount }
    }
}

impl Leaderboard {
    /// Entries are at most `MAX_ENTRIES`, one per player, every one with a
    /// win, and ordered by wins, most first.
    pub open spec fn wf(&self) -> bool {
        &&& self.entries@.len() <= MAX_ENTRIES
        &&& players_unique(self.entries@)
        &&& sorted_by_wins(self.entries@)
        &&& forall|k: int| 0 <= k < self.entries@.len() ==> self.entries@[k].wins >= 1
    }

    pub fn is_well_formed(&self) -> (r: bool)
        ensures
            r == self.wf(),
    {
        let n = self.entries.len();
        if n > MAX_ENTRIES {
            return false;
        }
        let mut a: usize = 0;
        while a < n
            invariant
                n == self.entries@.len(),
                a <= n,
                forall|x: int, y: int|
                    0 <= x < a && x < y < n ==> self.entries@[x].player != self.entries@[y].player
                        && self.entries@[x].wins >= self.entries@[y].wins,
                forall|x: int| 0 <= x < a ==> self.entries@[x].wins >= 1,
            decreases n - a,
        {
            if self.entries[a].wins < 1 {
                return false;
            }
            let mut b: usize = a + 1;
            while b < n
                invariant
                    n == self.entries@.len(),
                    a < n,
                    a + 1 <= b <= n,
                    forall|y: int|
                        a < y < b ==> self.entries@[a as int].player != self.entries@[y].player
                            && self.entries@[a as int].wins >= self.entries@[y].wins,
                decreases n - b,
            {
                if self.entries[a].player == self.entries[b].player || self.entries[a].wins
                    < self.entries[b].wins {
                    return false;
                }
                b = b + 1;
            }
            a = a + 1;
        }
        true
    }

    /// An empty board for the game whose registry is `game_config`.
    pub fn new(game_config: Address, bump: u8) -> (r: Leaderboard)
        ensures
            r.wf(),
            r.game_config == game_config,
            r.bump == bump,
            r.entries@.len() == 0,
    {
        Leaderboard { game_config, entries: Vec::new(), bump }
    }

    /// The position of `player`, if the board tracks them.
    pub fn find(&self, player: &Address) -> (r: Option<usize>)
        requires
            self.wf(),
        ensures
            match r {
                Some(i) => holds_player(self.entries@, *player) && i == position_of(
                    self.entries@,
                    *player,
                ),
                None => !holds_player(self.entries@, *player),
            },
    {
        let mut i: usize = 0;
        while i < self.entries.len()
            invariant
                i <= self.entries@.len(),
                players_unique(self.entries@),
                forall|k: int| 0 <= k < i ==> self.entries@[k].player != *player,
            decreases self.entries@.len() - i,
        {
            if self.entries[i].player == *player {
                let ghost s = self.entries@;
                proof {
                    let p = position_of(s, *player);
                    assert(0 <= p < s.len() && s[p].player == *player);
                    assert(p == i as int);
                }
                return Some(i);
            }
            i = i + 1;
        }
        None
    }

    /// Records that `winner` won `amount`: their entry is credited and moved
    /// ahead of entries with fewer wins, keeping the earlier order among equal
    /// wins; a player not yet on the board is appended while it holds fewer
    /// than `MAX_ENTRIES`. Fails, changing nothing, when a counter would
    /// overflow.
    pub fn record_win(&mut self, winner: Address, amount: u64) -> (r: Result<(), SolPotError>)
        requires
            old(self).wf(),
        ensures
            final(self).wf(),
            final(self).game_config == old(self).game_config,
            final(self).bump == old(self).bump,
            r is Err <==> win_overflows(old(self).entries@, winner, amount),
            r is Err ==> r == Err::<(), SolPotError>(SolPotError::ArithmeticOverflow),
            r is Err ==> *final(self) == *old(self),
            r is Ok ==> final(self).entries@ == board_after_win(old(self).entries@, winner, amount),
    {
        let ghost s = self.entries@;
        match self.find(&winner) {
            Some(i) => {
                let old_entry = self.entries[i];
                if old_entry.wins == u32::MAX {
                    return Err(SolPotError::ArithmeticOverflow);
                }
                let total = match old_entry.total_winnings.checked_add(amount) {
                    Some(t) => t,
                    None => {
                        return Err(SolPotError::ArithmeticOverflow);
                    },
                };
                let e = LeaderboardEntry {
                    player: old_entry.player,
                    wins: old_entry.wins + 1,
                    total_winnings: total,
                };
                assert(e == credited(s[i as int], amount));
                proof {
                    lemma_slot(s, i as int, e.wins);
                    lemma_credit_keeps_order(s, i as int, amount);
                }
                let mut j: usize = i;
                while j > 0 && self.entries[j - 1].wins < e.wins
                    invariant
                        0 <= j <= i < s.len(),
                        self.entries@.len() == s.len(),
                        slot(s, i as int, e.wins) == slot(s, j as int, e.wins),
                        forall|k: int| 0 <= k < j ==> self.entries@[k] == s[k],
                        forall|k: int| j < k <= i ==> self.entries@[k] == s[k - 1],
                        forall|k: int| i < k < s.len() ==> self.entries@[k] == s[k],
                        self.game_config == old(self).game_config,
                        self.bump == old(self).bump,
                    decreases j,
                {
                    let prev = self.entries[j - 1];
                    self.entries.set(j, prev);
                    j = j - 1;
                }
                self.entries.set(j, e);
                assert(self.entries@ =~= moved_up(s, i as int, j as int, e));
                Ok(())
            },
            None => {
                if self.entries.len() < MAX_ENTRIES {
                    self.entries.push(LeaderboardEntry::first_win(winner, amount));
                    assert(self.entries@ =~= board_after_win(s, winner, amount));
                }
                Ok(())
            },
        }
    }
}

} // verus!
