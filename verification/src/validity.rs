//! Checking at run time that a state is consistent: for states that were
//! put together by hand or came from elsewhere.

use vstd::prelude::*;
use crate::events::MatchState;
use crate::ids::{Key, UserId};
use crate::registry::distinct;
use crate::state::Contract;
use crate::table::Table;

verus! {

impl<K: Key, V> Table<K, V> {
    /// Whether the keys ascend strictly.
    pub fn is_wf(&self) -> (r: bool)
        ensures
            r == self.wf(),
    {
        if self.entries.len() < 2 {
            return true;
        }
        let mut i: usize = 1;
        while i < self.entries.len()
            invariant
                1 <= i <= self.entries@.len(),
                forall|a: int, b: int|
                    0 <= a < b < i ==> (#[trigger] self.entries@[a]).0.rank() < (
                    #[trigger] self.entries@[b]).0.rank(),
            decreases self.entries@.len() - i,
        {
            if !self.entries[i - 1].0.before(&self.entries[i].0) {
                assert(!(self.entries@[i - 1].0.rank() < self.entries@[i as int].0.rank()));
                return false;
            }
            i += 1;
        }
        true
    }

    /// Whether every key of this table is a key of `other`.
    pub fn keys_within<W>(&self, other: &Table<K, W>) -> (r: bool)
        requires
            self.wf(),
            other.wf(),
        ensures
            r == (forall|k: K| self@.contains_key(k) ==> other@.contains_key(k)),
    {
        let mut i: usize = 0;
        while i < self.entries.len()
            invariant
                self.wf(),
                other.wf(),
                i <= self.entries@.len(),
                forall|j: int|
                    0 <= j < i ==> other@.contains_key((#[trigger] self.entries@[j]).0),
            decreases self.entries@.len() - i,
        {
            if !other.contains_key(&self.entries[i].0) {
                return false;
            }
            i += 1;
        }
        true
    }
}

impl Contract {
    /// Whether no match in progress has a second player.
    fn running_unpaired(&self) -> (r: bool)
        ensures
            r == self@.running_unpaired(),
    {
        let mut g: usize = 0;
        while g < self.games.len()
            invariant
                g <= self.games@.len(),
                forall|k: int|
                    0 <= k < g && (#[trigger] self.games@[k]).match_state is InProgress
                        ==> self.games@[k].user_2 is None,
            decreases self.games@.len() - g,
        {
            let running = match self.games[g].match_state {
                MatchState::InProgress => true,
                _ => false,
            };
            if running && self.games[g].user_2.is_some() {
                return false;
            }
            g += 1;
        }
        true
    }

    /// Whether the match queued at position `i` exists, waits for its second
    /// player, is the current match of its first player, and is not queued
    /// at an earlier position.
    fn queued_well(&self, i: usize) -> (r: bool)
        requires
            self.tables_wf(),
            i < self.games_waiting@.len(),
        ensures
            r == ({
                let g = self.games_waiting@[i as int];
                &&& g < self@.games.len()
                &&& self@.games[g as int].is_open()
                &&& self@.waits_in(g)
                &&& forall|j: int| 0 <= j < i ==> self.games_waiting@[j] != g
            }),
    {
        let g = self.games_waiting[i];
        if g >= self.games.len() {
            return false;
        }
        let open = match self.games[g].match_state {
            MatchState::InProgress => self.games[g].user_2.is_none(),
            _ => false,
        };
        if !open {
            return false;
        }
        let waits = match self.games_information_by_user.get(&self.games[g].user_1.user_id) {
            None => false,
            Some(account) => match account.current_game {
                Some(current) => current == g,
                None => false,
            },
        };
        if !waits {
            return false;
        }
        let mut j: usize = 0;
        while j < i
            invariant
                j <= i,
                i < self.games_waiting@.len(),
                g == self.games_waiting@[i as int],
                forall|k: int| 0 <= k < j ==> self.games_waiting@[k] != g,
            decreases i - j,
        {
            if self.games_waiting[j] == g {
                return false;
            }
            j += 1;
        }
        true
    }

    /// Whether the waiting queue is in order.
    fn queue_ok(&self) -> (r: bool)
        requires
            self.tables_wf(),
        ensures
            r == (self@.queue_open() && self@.queue_distinct()),
    {
        let mut i: usize = 0;
        while i < self.games_waiting.len()
            invariant
                self.tables_wf(),
                i <= self.games_waiting@.len(),
                forall|k: int|
                    0 <= k < i ==> {
                        &&& (#[trigger] self@.games_waiting[k]) < self@.games.len()
                        &&& self@.games[self@.games_waiting[k] as int].is_open()
                        &&& self@.waits_in(self@.games_waiting[k])
                    },
                forall|a: int, b: int|
                    0 <= a < b < i ==> (#[trigger] self@.games_waiting[a]) != (
                    #[trigger] self@.games_waiting[b]),
            decreases self.games_waiting@.len() - i,
        {
            if !self.queued_well(i) {
                proof {
                    let g = self@.games_waiting[i as int];
                    if g < self@.games.len() && self@.games[g as int].is_open() && self@.waits_in(
                        g,
                    ) {
                        let j = choose|j: int| 0 <= j < i && self.games_waiting@[j] == g;
                        assert(self@.games_waiting[j] == self@.games_waiting[i as int]);
                    }
                }
                return false;
            }
            i += 1;
        }
        true
    }

    /// Whether each user is in no match, or in one that is in progress and
    /// lists them.
    fn currents_ok(&self) -> (r: bool)
        requires
            self.tables_wf(),
        ensures
            r == self@.currents_ok(),
    {
        let mut i: usize = 0;
        while i < self.games_information_by_user.entries.len()
            invariant
                self.tables_wf(),
                i <= self.games_information_by_user.entries@.len(),
                forall|k: int|
                    0 <= k < i ==> self@.current_match_ok(
                        (#[trigger] self.games_information_by_user.entries@[k]).0,
                    ),
            decreases self.games_information_by_user.entries@.len() - i,
        {
            let user: UserId = self.games_information_by_user.entries[i].0;
            let fine = match self.games_information_by_user.entries[i].1.current_game {
                None => true,
                Some(g) => {
                    if g >= self.games.len() {
                        false
                    } else {
                        let running = match self.games[g].match_state {
                            MatchState::InProgress => true,
                            _ => false,
                        };
                        let second = match self.games[g].user_2 {
                            Some(player) => player.user_id == user,
                            None => false,
                        };
                        running && (self.games[g].user_1.user_id == user || second)
                    }
                },
            };
            if !fine {
                assert(self@.users.contains_key(user));
                assert(!self@.current_match_ok(user));
                return false;
            }
            i += 1;
        }
        true
    }

    /// Whether nobody stands twice among the approved minters.
    fn minters_distinct(&self) -> (r: bool)
        ensures
            r == distinct(self@.approved_minters),
    {
        let mut j: usize = 0;
        while j < self.approved_minters.len()
            invariant
                j <= self.approved_minters@.len(),
                forall|a: int, b: int|
                    0 <= a < b < j ==> self.approved_minters@[a] != self.approved_minters@[b],
            decreases self.approved_minters@.len() - j,
        {
            let mut i: usize = 0;
            while i < j
                invariant
                    i <= j < self.approved_minters@.len(),
                    forall|a: int|
                        0 <= a < i ==> self.approved_minters@[a] != self.approved_minters@[j as int],
                decreases j - i,
            {
                if self.approved_minters[i] == self.approved_minters[j] {
                    return false;
                }
                i += 1;
            }
            j += 1;
        }
        true
    }

    /// Whether the state is consistent.
    pub fn is_wf(&self) -> (r: bool)
        ensures
            r == self.wf(),
    {
        if !(self.games_information_by_user.is_wf() && self.nfts_for_sale.is_wf() && self.default_tokens_minted_by_id.is_wf()
            && self.pending_transfers.is_wf()) {
            return false;
        }
        let paired = self.games_information_by_user.keys_within(
            &self.default_tokens_minted_by_id,
        ) && self.default_tokens_minted_by_id.keys_within(&self.games_information_by_user);
        proof {
            if paired {
                assert(self@.records_paired());
            }
            if self@.records_paired() {
                assert forall|u: UserId|
                    self.games_information_by_user@.contains_key(u)
                        <==> self.default_tokens_minted_by_id@.contains_key(u) by {
                    assert(self@.users.contains_key(u) <==> self@.mints.contains_key(u));
                }
            }
        }
        paired && self.game_id == self.games.len() && self.queue_ok() && self.running_unpaired()
            && self.currents_ok() && self.minters_distinct()
    }
}

} // verus!
