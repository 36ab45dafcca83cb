//! The account registry: who is known, which match each user is in, and
//! which matches they have played.

use vstd::prelude::*;
use crate::events::RutzoEvent;
use crate::ids::{ActorId, GameId, UserId};
use crate::state::{Account, Contract, Ledger, Mints, UserDefaultMints, UserGameData, lemma_views_insert};

verus! {

/// Whether `i` is the first position of `user` in `list`.
pub open spec fn is_first(list: Seq<UserId>, user: UserId, i: int) -> bool {
    &&& 0 <= i < list.len()
    &&& list[i] == user
    &&& forall|j: int| 0 <= j < i ==> list[j] != user
}

/// The first position of `user` in `list`, which holds them.
pub open spec fn first_position(list: Seq<UserId>, user: UserId) -> int {
    choose|i: int| is_first(list, user, i)
}

/// A list names one first position for a user at most.
pub proof fn lemma_first_position(list: Seq<UserId>, user: UserId, i: int)
    requires
        is_first(list, user, i),
    ensures
        first_position(list, user) == i,
{
}

/// The position of `user` in `list`, if it holds them: the first one.
pub fn find_minter(list: &Vec<UserId>, user: &UserId) -> (r: Option<usize>)
    ensures
        match r {
            Some(i) => is_first(list@, *user, i as int),
            None => !list@.contains(*user),
        },
{
    let mut i: usize = 0;
    while i < list.len()
        invariant
            i <= list@.len(),
            forall|j: int| 0 <= j < i ==> list@[j] != *user,
        decreases list@.len() - i,
    {
        if list[i] == *user {
            return Some(i);
        }
        i += 1;
    }
    None
}

/// Whether no user stands twice in `list`.
pub open spec fn distinct(list: Seq<UserId>) -> bool {
    forall|i: int, j: int| 0 <= i < j < list.len() ==> list[i] != list[j]
}

/// In a list without doubles, a user it holds has a first position, where
/// they stand.
pub proof fn lemma_first_exists(list: Seq<UserId>, user: UserId)
    requires
        distinct(list),
        list.contains(user),
    ensures
        is_first(list, user, first_position(list, user)),
{
    let i = choose|i: int| 0 <= i < list.len() && list[i] == user;
    assert(is_first(list, user, i));
}

/// Taking one user off a list without doubles, by putting the last in
/// their place, leaves a list without doubles that does not hold them.
pub proof fn lemma_swap_remove_distinct(list: Seq<UserId>, i: int)
    requires
        distinct(list),
        0 <= i < list.len(),
    ensures
        distinct(list.update(i, list.last()).drop_last()),
        !list.update(i, list.last()).drop_last().contains(list[i]),
{
}

impl Ledger {
    /// The books after `user` got a fresh account and a fresh mint record.
    pub open spec fn register(self, user: UserId) -> Ledger {
        Ledger {
            users: self.users.insert(user, Account::fresh()),
            mints: self.mints.insert(user, Mints::fresh()),
            ..self
        }
    }

    /// The books after the current match of `user` was set to `game`;
    /// unchanged where `user` has no account.
    pub open spec fn with_current(self, user: UserId, game: Option<GameId>) -> Ledger {
        if self.users.contains_key(user) {
            Ledger {
                users: self.users.insert(
                    user,
                    Account { current_game: game, ..self.users[user] },
                ),
                ..self
            }
        } else {
            self
        }
    }

    /// The books after `game` was appended to the history of `user`;
    /// unchanged where `user` has no account.
    pub open spec fn with_past(self, user: UserId, game: GameId) -> Ledger {
        if self.users.contains_key(user) {
            Ledger {
                users: self.users.insert(
                    user,
                    Account {
                        past_games: self.users[user].past_games.push(game),
                        ..self.users[user]
                    },
                ),
                ..self
            }
        } else {
            self
        }
    }

    /// What the owner's request to let `user` mint for sale does: the user
    /// joins the approved minters, unless they are one already; either way
    /// the answer is that they are approved. Anybody else is turned away.
    pub open spec fn approve_minter(self, source: ActorId, user: UserId) -> (Ledger, RutzoEvent) {
        if source != self.owner {
            (self, RutzoEvent::UserIsNotTheOwner(source))
        } else if self.approved_minters.contains(user) {
            (self, RutzoEvent::Approved(user))
        } else {
            (
                Ledger { approved_minters: self.approved_minters.push(user), ..self },
                RutzoEvent::Approved(user),
            )
        }
    }

    /// Whether `user` may mint tokens for sale: the owner, or an approved
    /// minter.
    pub open spec fn may_mint(self, user: UserId) -> bool {
        self.owner == user || self.approved_minters.contains(user)
    }
}

impl Contract {
    /// Whether `user_id` has an account.
    pub fn is_register(&self, user_id: &UserId) -> (r: bool)
        requires
            self.tables_wf(),
        ensures
            r == self@.is_register(*user_id),
    {
        self.games_information_by_user.contains_key(user_id)
    }

    /// Opens an account for `user_id`, unless they have one: then nothing
    /// changes and the answer says so.
    pub fn register_user(&mut self, user_id: UserId) -> (r: RutzoEvent)
        requires
            old(self).wf(),
        ensures
            final(self).wf(),
            old(self)@.is_register(user_id) ==> r == RutzoEvent::AccountAlreadyExist(user_id)
                && final(self)@ == old(self)@,
            !old(self)@.is_register(user_id) ==> r == RutzoEvent::RegisterSucces && final(self)@
                == old(self)@.register(user_id),
    {
        if self.is_register(&user_id) {
            return RutzoEvent::AccountAlreadyExist(user_id);
        }
        let ghost before = *self;
        let account = UserGameData::default();
        let mints = UserDefaultMints::default();
        self.games_information_by_user.insert(user_id, account);
        self.default_tokens_minted_by_id.insert(user_id, mints);
        proof {
            lemma_views_insert(before.games_information_by_user@, user_id, account);
            lemma_views_insert(before.default_tokens_minted_by_id@, user_id, mints);
            let after = self@;
            assert(after == before@.register(user_id));
        }
        RutzoEvent::RegisterSucces
    }

    /// Lets `user_id` mint tokens for sale, if `caller` owns the program:
    /// see [`Ledger::approve_minter`].
    pub fn add_minter(&mut self, caller: ActorId, user_id: ActorId) -> (r: RutzoEvent)
        ensures
            (final(self)@, r) == old(self)@.approve_minter(caller, user_id),
            caller != old(self).owner ==> *final(self) == *old(self),
            old(self).tables_wf() ==> final(self).tables_wf(),
            old(self).wf() ==> final(self).wf(),
    {
        if !(caller == self.owner) {
            return RutzoEvent::UserIsNotTheOwner(caller);
        }
        if find_minter(&self.approved_minters, &user_id).is_none() {
            self.approved_minters.push(user_id);
        }
        RutzoEvent::Approved(user_id)
    }

    /// Sets the current match of `user_id` to `game_id`; does nothing where
    /// `user_id` has no account.
    pub fn set_player_in_current_game(&mut self, user_id: ActorId, game_id: usize)
        requires
            old(self).tables_wf(),
        ensures
            final(self).tables_wf(),
            final(self)@ == old(self)@.with_current(user_id, Some(game_id)),
    {
        let ghost before = *self;
        match self.games_information_by_user.find(&user_id) {
            Some(i) => {
                self.games_information_by_user.entries[i].1.current_game = Some(game_id);
                proof {
                    self.games_information_by_user.lemma_value_replaced(
                        before.games_information_by_user,
                        i as int,
                    );
                    lemma_views_insert(
                        before.games_information_by_user@,
                        user_id,
                        self.games_information_by_user.entries@[i as int].1,
                    );
                }
            },
            None => {},
        }
    }

    /// Appends `game_id` to the history of `user_id`; does nothing where
    /// `user_id` has no account.
    pub fn add_past_game_to_player(&mut self, user_id: ActorId, game_id: usize)
        requires
            old(self).tables_wf(),
        ensures
            final(self).tables_wf(),
            final(self)@ == old(self)@.with_past(user_id, game_id),
    {
        let ghost before = *self;
        match self.games_information_by_user.find(&user_id) {
            Some(i) => {
                self.games_information_by_user.entries[i].1.past_games.push(game_id);
                proof {
                    self.games_information_by_user.lemma_value_replaced(
                        before.games_information_by_user,
                        i as int,
                    );
                    lemma_views_insert(
                        before.games_information_by_user@,
                        user_id,
                        self.games_information_by_user.entries@[i as int].1,
                    );
                }
            },
            None => {},
        }
    }

    /// Takes `user_id` out of their current match; does nothing where
    /// `user_id` has no account.
    pub fn delete_player_current_game(&mut self, user_id: ActorId)
        requires
            old(self).tables_wf(),
        ensures
            final(self).tables_wf(),
            final(self)@ == old(self)@.with_current(user_id, None),
    {
        let ghost before = *self;
        match self.games_information_by_user.find(&user_id) {
            Some(i) => {
                self.games_information_by_user.entries[i].1.current_game = None;
                proof {
                    self.games_information_by_user.lemma_value_replaced(
                        before.games_information_by_user,
                        i as int,
                    );
                    lemma_views_insert(
                        before.games_information_by_user@,
                        user_id,
                        self.games_information_by_user.entries@[i as int].1,
                    );
                }
            },
            None => {},
        }
    }
}

} // verus!
