//! The matchmaking engine: pairing a player with the match that has waited
//! the shortest, deciding who wins, and keeping track of rewards that could
//! not be delivered.

use vstd::prelude::*;
use crate::escrow::Outbound;
use crate::events::{MatchInformation, MatchState, RutzoEvent, Step, Task, UserData};
use crate::ids::{ActorId, GameId, TokenId, UserId};
use crate::nft::{Fault, NFTAction, ServiceReply, approval_reading, transfer_reading, read_approval, read_transfer};
use crate::state::{Contract, Ledger};

verus! {

/// Who wins when `second` joins the match that `first` opened, as
/// (winner, loser, reward): the first player wins only with strictly more
/// power, and the reward is the token that the loser staked.
pub open spec fn outcome(first: UserData, second: UserData) -> (UserId, UserId, TokenId) {
    if first.power > second.power {
        (first.user_id, second.user_id, second.chosen_nft)
    } else {
        (second.user_id, first.user_id, first.chosen_nft)
    }
}

/// The counter value that follows `id`: one more, and at the largest value
/// it stays.
pub open spec fn following(id: u64) -> u64 {
    if id == u64::MAX {
        id
    } else {
        (id + 1) as u64
    }
}

impl Ledger {
    /// The books after one more tagged request went out.
    pub open spec fn issued(self) -> Ledger {
        Ledger { transaction_id: following(self.transaction_id), ..self }
    }

    /// The books after `player` opened a match of their own and started to
    /// wait in it.
    pub open spec fn open_match(self, player: UserData) -> Ledger {
        Ledger {
            games: self.games.push(
                MatchInformation {
                    user_1: player,
                    user_2: None,
                    match_state: MatchState::InProgress,
                },
            ),
            games_waiting: self.games_waiting.push(self.game_id),
            game_id: (self.game_id + 1) as usize,
            ..self
        }.with_current(player.user_id, Some(self.game_id))
    }

    /// The match that a joining player is paired with: the one queued last.
    pub open spec fn paired_match(self) -> GameId {
        self.games_waiting.last()
    }

    /// The books after `player` joined the match queued last: the match is
    /// finished with its outcome, it has left the queue, both players have
    /// it in their history and neither is in a match any more.
    pub open spec fn join_match(self, player: UserData) -> Ledger {
        let g = self.paired_match();
        let first = self.games[g as int].user_1;
        let (winner, loser, _reward) = outcome(first, player);
        Ledger {
            games: self.games.update(
                g as int,
                MatchInformation {
                    user_1: first,
                    user_2: Some(player),
                    match_state: MatchState::Finished { winner, loser },
                },
            ),
            games_waiting: self.games_waiting.drop_last(),
            ..self
        }.with_past(player.user_id, g).with_past(first.user_id, g).with_current(
            winner,
            None,
        ).with_current(loser, None)
    }

    /// What a request to enter a match does first: a caller without an
    /// account is turned away, and otherwise the token service is asked
    /// whether `main_contract` may move the stake.
    pub open spec fn begin_entry(
        self,
        user: UserId,
        token_id: TokenId,
        power: u8,
        main_contract: ActorId,
    ) -> Step {
        if !self.users.contains_key(user) {
            Step::Reply { event: RutzoEvent::AccountNotExists(user), value: 0 }
        } else {
            match self.nft_contract {
                None => Step::Abort { fault: Fault::NoService },
                Some(service) => Step::Call {
                    service,
                    action: NFTAction::IsApproved { to: main_contract, token_id },
                    task: Task::Approval { user_id: user, token_id, power },
                },
            }
        }
    }

    /// What the reply to the approval check does: a malformed reply
    /// abandons the request; a stake that is not approved, or a check that
    /// did not complete, turns the caller away; with an approved stake the
    /// caller enters as [`Ledger::enter`] says.
    pub open spec fn approved_entry(self, player: UserData, reply: ServiceReply) -> (Ledger, Step) {
        match approval_reading(reply) {
            Err(fault) => (self, Step::Abort { fault }),
            Ok(false) => (
                self,
                Step::Reply {
                    event: RutzoEvent::NFTIsNotApprovedByMainContract(player.chosen_nft),
                    value: 0,
                },
            ),
            Ok(true) => self.enter(player),
        }
    }

    /// What entering a match does once the stake is known to be approved,
    /// as the books afterwards and the step taken:
    /// a caller without an account is turned away;
    /// a caller who owes a reward has the transfer sent again, and nothing
    /// else happens;
    /// a caller who is in a match is turned away;
    /// with nobody waiting the caller opens a match;
    /// otherwise the caller joins the match queued last, the outcome is
    /// recorded and the reward is sent to the winner.
    pub open spec fn enter(self, player: UserData) -> (Ledger, Step) {
        let user = player.user_id;
        if !self.users.contains_key(user) {
            (self, Step::Reply { event: RutzoEvent::AccountNotExists(user), value: 0 })
        } else if self.pending_transfers.contains_key(user) {
            let (owed_to, token_id) = self.pending_transfers[user];
            match self.nft_contract {
                None => (self, Step::Abort { fault: Fault::NoService }),
                Some(service) => (
                    self.issued(),
                    Step::Call {
                        service,
                        action: NFTAction::Transfer {
                            transaction_id: self.transaction_id,
                            to: owed_to,
                            token_id,
                        },
                        task: Task::Retry { owed_by: user, token_id },
                    },
                ),
            }
        } else if self.users[user].current_game is Some {
            (
                self,
                Step::Reply {
                    event: RutzoEvent::UserIsAlreadyInAGame(
                        self.users[user].current_game->0 as u64,
                    ),
                    value: 0,
                },
            )
        } else if self.games_waiting.len() == 0 {
            (self.open_match(player), Step::Reply { event: RutzoEvent::MatchCreated, value: 0 })
        } else {
            let first = self.games[self.paired_match() as int].user_1;
            let (winner, loser, reward) = outcome(first, player);
            match self.nft_contract {
                None => (self, Step::Abort { fault: Fault::NoService }),
                Some(service) => (
                    self.join_match(player).issued(),
                    Step::Call {
                        service,
                        action: NFTAction::Transfer {
                            transaction_id: self.transaction_id,
                            to: winner,
                            token_id: reward,
                        },
                        task: Task::Reward { winner, loser, token_id: reward },
                    },
                ),
            }
        }
    }

    /// What the reply to a retried transfer does: on success the entry of
    /// `owed_by` is cleared; a refusal leaves the books as they are; a
    /// malformed reply abandons the request.
    pub open spec fn settle_retry(self, owed_by: UserId, token_id: TokenId, reply: ServiceReply) -> (
        Ledger,
        Step,
    ) {
        match transfer_reading(reply) {
            Ok(_) => (
                Ledger { pending_transfers: self.pending_transfers.remove(owed_by), ..self },
                Step::Reply { event: RutzoEvent::TransferSuccess(token_id), value: 0 },
            ),
            Err(Fault::TransferFailed) => (
                self,
                Step::Reply { event: RutzoEvent::PendingTransfer(token_id), value: 0 },
            ),
            Err(fault) => (self, Step::Abort { fault }),
        }
    }

    /// What the reply to a reward transfer does: on success the match is
    /// reported finished; on refusal the reward is recorded as owed by the
    /// loser to the winner; a malformed reply abandons the request.
    pub open spec fn settle_reward(
        self,
        winner: UserId,
        loser: UserId,
        token_id: TokenId,
        reply: ServiceReply,
    ) -> (Ledger, Step) {
        match transfer_reading(reply) {
            Ok(_) => (self, Step::Reply { event: RutzoEvent::MatchFinished, value: 0 }),
            Err(Fault::TransferFailed) => (
                Ledger {
                    pending_transfers: self.pending_transfers.insert(loser, (winner, token_id)),
                    ..self
                },
                Step::Reply { event: RutzoEvent::PendingTransfer(token_id), value: 0 },
            ),
            Err(fault) => (self, Step::Abort { fault }),
        }
    }

    /// A change to the owed rewards alone keeps the books consistent.
    pub proof fn lemma_pending_wf(self, pending: Map<UserId, (UserId, TokenId)>)
        requires
            self.wf(),
        ensures
            (Ledger { pending_transfers: pending, ..self }).wf(),
    {
    }
}

impl Contract {
    /// Begins a match entry for `user_id`, who stakes `token_id` and
    /// declares `power`: see [`Ledger::begin_entry`]. Nothing changes yet.
    pub fn play_game(&self, user_id: ActorId, token_id: TokenId, power: u8, main_contract: ActorId) -> (step: Step)
        requires
            self.tables_wf(),
        ensures
            step == self@.begin_entry(user_id, token_id, power, main_contract),
    {
        if !self.is_register(&user_id) {
            return Step::Reply { event: RutzoEvent::AccountNotExists(user_id), value: 0 };
        }
        match self.nft_contract {
            None => Step::Abort { fault: Fault::NoService },
            Some(service) => {
                let Outbound { service, action } = Contract::main_contract_is_approved(
                    service,
                    main_contract,
                    token_id,
                );
                Step::Call { service, action, task: Task::Approval { user_id, token_id, power } }
            },
        }
    }

    /// Goes on with a match entry once the approval check has come back:
    /// see [`Ledger::approved_entry`].
    pub fn resume_play_game(
        &mut self,
        user_id: ActorId,
        token_id: TokenId,
        power: u8,
        reply: &ServiceReply,
    ) -> (step: Step)
        requires
            old(self).wf(),
        ensures
            final(self).wf(),
            (final(self)@, step) == old(self)@.approved_entry(
                UserData { user_id, chosen_nft: token_id, power },
                *reply,
            ),
    {
        match read_approval(reply) {
            Err(fault) => Step::Abort { fault },
            Ok(false) => Step::Reply {
                event: RutzoEvent::NFTIsNotApprovedByMainContract(token_id),
                value: 0,
            },
            Ok(true) => self.enter_match(UserData { user_id, chosen_nft: token_id, power }),
        }
    }

    /// Enters `player` into the game, the stake being approved: see
    /// [`Ledger::enter`].
    pub fn enter_match(&mut self, player: UserData) -> (step: Step)
        requires
            old(self).wf(),
        ensures
            final(self).wf(),
            (final(self)@, step) == old(self)@.enter(player),
    {
        let user_id = player.user_id;
        let ghost before = self@;
        let current = match self.games_information_by_user.get(&user_id) {
            None => {
                return Step::Reply { event: RutzoEvent::AccountNotExists(user_id), value: 0 };
            },
            Some(account) => account.current_game,
        };
        assert(current == before.users[user_id].current_game);
        match self.retry_pending(user_id) {
            Some(step) => {
                return step;
            },
            None => {},
        }
        if let Some(game) = current {
            return Step::Reply {
                event: RutzoEvent::UserIsAlreadyInAGame(game as u64),
                value: 0,
            };
        }
        if self.games_waiting.len() == 0 {
            self.games.push(
                MatchInformation {
                    user_1: player,
                    user_2: None,
                    match_state: MatchState::InProgress,
                },
            );
            let game = self.game_id;
            self.game_id = self.games.len();
            self.games_waiting.push(game);
            self.set_player_in_current_game(user_id, game);
            return Step::Reply { event: RutzoEvent::MatchCreated, value: 0 };
        }
        let service = match self.nft_contract {
            None => {
                return Step::Abort { fault: Fault::NoService };
            },
            Some(service) => service,
        };
        let game = self.games_waiting.pop().unwrap();
        let first = self.games[game].user_1;
        let (winner, loser, reward) = if first.power > player.power {
            (first.user_id, user_id, player.chosen_nft)
        } else {
            (user_id, first.user_id, first.chosen_nft)
        };
        self.games[game].user_2 = Some(player);
        self.games[game].match_state = MatchState::Finished { winner, loser };
        proof {
            assert(self.games_waiting@ =~= before.games_waiting.drop_last());
            assert(self.games@ =~= before.games.update(
                game as int,
                MatchInformation {
                    user_1: first,
                    user_2: Some(player),
                    match_state: MatchState::Finished { winner, loser },
                },
            ));
        }
        self.add_past_game_to_player(user_id, game);
        self.add_past_game_to_player(first.user_id, game);
        self.delete_player_current_game(winner);
        self.delete_player_current_game(loser);
        let transaction_id = self.next_transaction();
        let Outbound { service, action } = Contract::transfer_nft(
            service,
            winner,
            reward,
            transaction_id,
        );
        Step::Call { service, action, task: Task::Reward { winner, loser, token_id: reward } }
    }

    /// Sends the reward that `owed_by` owes once more, if they owe one:
    /// the transfer goes out under the next tag and the entry stays until
    /// the reply is in. Returns nothing, and changes nothing, where
    /// `owed_by` owes no reward.
    pub fn retry_pending(&mut self, owed_by: UserId) -> (step: Option<Step>)
        requires
            old(self).wf(),
        ensures
            final(self).wf(),
            !old(self)@.pending_transfers.contains_key(owed_by) ==> step is None && final(self)@
                == old(self)@,
            old(self)@.pending_transfers.contains_key(owed_by) && old(self).nft_contract is None
                ==> step == Some(Step::Abort { fault: Fault::NoService }) && final(self)@ == old(
                self,
            )@,
            old(self)@.pending_transfers.contains_key(owed_by) && old(self).nft_contract is Some
                ==> final(self)@ == old(self)@.issued() && step == Some(
                Step::Call {
                    service: old(self).nft_contract->0,
                    action: NFTAction::Transfer {
                        transaction_id: old(self).transaction_id,
                        to: old(self)@.pending_transfers[owed_by].0,
                        token_id: old(self)@.pending_transfers[owed_by].1,
                    },
                    task: Task::Retry {
                        owed_by,
                        token_id: old(self)@.pending_transfers[owed_by].1,
                    },
                },
            ),
    {
        let (owed_to, token_id) = match self.pending_transfers.get(&owed_by) {
            None => {
                return None;
            },
            Some(entry) => *entry,
        };
        let service = match self.nft_contract {
            None => {
                return Some(Step::Abort { fault: Fault::NoService });
            },
            Some(service) => service,
        };
        let transaction_id = self.next_transaction();
        let Outbound { service, action } = Contract::transfer_nft(
            service,
            owed_to,
            token_id,
            transaction_id,
        );
        Some(Step::Call { service, action, task: Task::Retry { owed_by, token_id } })
    }

    /// Takes in the reply to a retried transfer: see
    /// [`Ledger::settle_retry`].
    pub fn settle_retry(&mut self, owed_by: UserId, token_id: TokenId, reply: &ServiceReply) -> (step:
        Step)
        requires
            old(self).wf(),
        ensures
            final(self).wf(),
            (final(self)@, step) == old(self)@.settle_retry(owed_by, token_id, *reply),
    {
        match read_transfer(reply) {
            Ok(_) => {
                proof {
                    self@.lemma_pending_wf(self@.pending_transfers.remove(owed_by));
                }
                self.pending_transfers.remove(&owed_by);
                Step::Reply { event: RutzoEvent::TransferSuccess(token_id), value: 0 }
            },
            Err(Fault::TransferFailed) => Step::Reply {
                event: RutzoEvent::PendingTransfer(token_id),
                value: 0,
            },
            Err(fault) => Step::Abort { fault },
        }
    }

    /// Takes in the reply to a reward transfer: see
    /// [`Ledger::settle_reward`].
    pub fn settle_reward(
        &mut self,
        winner: UserId,
        loser: UserId,
        token_id: TokenId,
        reply: &ServiceReply,
    ) -> (step: Step)
        requires
            old(self).wf(),
        ensures
            final(self).wf(),
            (final(self)@, step) == old(self)@.settle_reward(winner, loser, token_id, *reply),
    {
        match read_transfer(reply) {
            Ok(_) => Step::Reply { event: RutzoEvent::MatchFinished, value: 0 },
            Err(Fault::TransferFailed) => {
                proof {
                    self@.lemma_pending_wf(
                        self@.pending_transfers.insert(loser, (winner, token_id)),
                    );
                }
                self.pending_transfers.insert(loser, (winner, token_id));
                Step::Reply { event: RutzoEvent::PendingTransfer(token_id), value: 0 }
            },
            Err(fault) => Step::Abort { fault },
        }
    }
}

} // verus!
