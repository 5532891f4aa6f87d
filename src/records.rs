use vstd::prelude::*;

use crate::address::Address;
use crate::state::{GuessRecord, PlayerEntry};

verus! {

/// A guess marker together with the round and player it belongs to.
#[derive(Clone, Copy, Debug)]
pub struct GuessMark {
    pub round: Address,
    pub player: Address,
    pub record: GuessRecord,
}

/// The per-player records of all rounds, each keyed by (round, player): a
/// record can be created once for its key and is never replaced.
#[derive(Clone, Debug)]
pub struct RecordBook {
    pub entries: Vec<PlayerEntry>,
    pub guesses: Vec<GuessMark>,
}

impl RecordBook {
    /// Each key holds at most one entry and at most one guess marker, and a
    /// guess marker exists only for a player who entered that round.
    pub open spec fn wf(&self) -> bool {
        &&& forall|a: int, b: int|
            0 <= a < b < self.entries@.len() ==> !(self.entries@[a].round
                == self.entries@[b].round && self.entries@[a].player == self.entries@[b].player)
        &&& forall|a: int, b: int|
            0 <= a < b < self.guesses@.len() ==> !(self.guesses@[a].round
                == self.guesses@[b].round && self.guesses@[a].player == self.guesses@[b].player)
        &&& forall|g: int|
            0 <= g < self.guesses@.len() ==> self.has_entry(
                #[trigger] self.guesses@[g].round,
                self.guesses@[g].player,
            )
    }

    /// Whether `player` has joined the round at `round`.
    pub open spec fn has_entry(&self, round: Address, player: Address) -> bool {
        exists|k: int|
            0 <= k < self.entries@.len() && self.entries@[k].round == round
                && self.entries@[k].player == player
    }

    /// Whether `player` has guessed in the round at `round`.
    pub open spec fn has_guess(&self, round: Address, player: Address) -> bool {
        exists|k: int|
            0 <= k < self.guesses@.len() && self.guesses@[k].round == round
                && self.guesses@[k].player == player
    }

    pub fn new() -> (r: RecordBook)
        ensures
            r.wf(),
            r.entries@.len() == 0,
            r.guesses@.len() == 0,
    {
        RecordBook { entries: Vec::new(), guesses: Vec::new() }
    }

    pub fn contains_entry(&self, round: &Address, player: &Address) -> (r: bool)
        ensures
            r == self.has_entry(*round, *player),
    {
        let mut i: usize = 0;
        while i < self.entries.len()
            invariant
                i <= self.entries@.len(),
                forall|k: int|
                    0 <= k < i ==> !(self.entries@[k].round == *round && self.entries@[k].player
                        == *player),
            decreases self.entries@.len() - i,
        {
            if self.entries[i].round == *round && self.entries[i].player == *player {
                return true;
            }
            i = i + 1;
        }
        false
    }

    pub fn contains_guess(&self, round: &Address, player: &Address) -> (r: bool)
        ensures
            r == self.has_guess(*round, *player),
    {
        let mut i: usize = 0;
        while i < self.guesses.len()
            invariant
                i <= self.guesses@.len(),
                forall|k: int|
                    0 <= k < i ==> !(self.guesses@[k].round == *round && self.guesses@[k].player
                        == *player),
            decreases self.guesses@.len() - i,
        {
            if self.guesses[i].round == *round && self.guesses[i].player == *player {
                return true;
            }
            i = i + 1;
        }
        false
    }

    /// Adds `entry` under its own key, which must be free.
    pub fn add_entry(&mut self, entry: PlayerEntry)
        requires
            old(self).wf(),
            !old(self).has_entry(entry.round, entry.player),
        ensures
            final(self).wf(),
            final(self).entries@ == old(self).entries@.push(entry),
            final(self).guesses@ == old(self).guesses@,
    {
        let ghost before = self.entries@;
        self.entries.push(entry);
        assert forall|g: int| 0 <= g < self.guesses@.len() implies self.has_entry(
            #[trigger] self.guesses@[g].round,
            self.guesses@[g].player,
        ) by {
            let k = choose|k: int|
                0 <= k < before.len() && before[k].round == self.guesses@[g].round
                    && before[k].player == self.guesses@[g].player;
            assert(self.entries@[k] == before[k]);
        }
    }

    /// Adds a guess marker for `player` in the round at `round`, who must have
    /// entered it and whose key must be free.
    pub fn add_guess(&mut self, round: Address, player: Address, record: GuessRecord)
        requires
            old(self).wf(),
            old(self).has_entry(round, player),
            !old(self).has_guess(round, player),
        ensures
            final(self).wf(),
            final(self).guesses@ == old(self).guesses@.push(GuessMark { round, player, record }),
            final(self).entries@ == old(self).entries@,
    {
        let ghost before = self.guesses@;
        self.guesses.push(GuessMark { round, player, record });
        assert forall|g: int| 0 <= g < self.guesses@.len() implies self.has_entry(
            #[trigger] self.guesses@[g].round,
            self.guesses@[g].player,
        ) by {
            let r = self.guesses@[g].round;
            let p = self.guesses@[g].player;
            if g < before.len() {
                assert(self.guesses@[g] == before[g]);
                assert(old(self).has_entry(before[g].round, before[g].player));
            }
            assert(old(self).has_entry(r, p));
            let k = choose|k: int|
                0 <= k < old(self).entries@.len() && old(self).entries@[k].round == r
                    && old(self).entries@[k].player == p;
            assert(self.entries@[k] == old(self).entries@[k]);
        }
    }
}

} // verus!
