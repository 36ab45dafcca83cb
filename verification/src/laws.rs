//! What holds of the game as a whole: stated over the model, and proved
//! from the definitions of the steps.

use vstd::prelude::*;
use crate::events::{MatchState, RutzoAction, RutzoEvent, Step, Task, UserData};
use crate::ids::{ActorId, TokenId, UserId};
use crate::matchmaking::{following, outcome};
use crate::nft::{Fault, NFTAction, ServiceReply, transfer_reading};
use crate::registry::{distinct, first_position, lemma_first_exists, lemma_swap_remove_distinct};
use crate::state::{Ledger, Mints};

verus! {

/// One thing that reaches the program: a caller's request, or the token
/// service's reply to a request that went out earlier.
pub enum Input {
    Request { source: ActorId, main_contract: ActorId, value: u128, action: RutzoAction },
    Reply { task: Task, reply: ServiceReply },
}

impl Ledger {
    /// What one input does to the books, and the step it ends in.
    pub open spec fn step(self, input: Input) -> (Ledger, Step) {
        match input {
            Input::Request { source, main_contract, value, action } => self.handle(
                source,
                main_contract,
                value,
                action,
            ),
            Input::Reply { task, reply } => self.resume(task, reply),
        }
    }

    /// The books after the inputs came in, one after the other.
    pub open spec fn after(self, inputs: Seq<Input>) -> Ledger
        decreases inputs.len(),
    {
        if inputs.len() == 0 {
            self
        } else {
            self.after(inputs.drop_last()).step(inputs.last()).0
        }
    }

    /// The step in which input number `i` ended.
    pub open spec fn step_at(self, inputs: Seq<Input>, i: int) -> Step {
        self.after(inputs.take(i)).step(inputs[i]).1
    }
}

/// The tag under which a step sends a request that changes the token
/// service's books, if it sends one.
pub open spec fn tag_of(step: Step) -> Option<u64> {
    match step {
        Step::Call { action: NFTAction::Mint { transaction_id, .. }, .. } => Some(transaction_id),
        Step::Call { action: NFTAction::Transfer { transaction_id, .. }, .. } => Some(
            transaction_id,
        ),
        _ => None,
    }
}

/// In consistent books a user is in no match, or in a match that is in
/// progress and has them as a player.
pub proof fn law_current_match(ledger: Ledger, user: UserId)
    requires
        ledger.wf(),
        ledger.users.contains_key(user),
    ensures
        match ledger.users[user].current_game {
            None => true,
            Some(g) => g < ledger.games.len() && ledger.games[g as int].match_state is InProgress
                && ledger.games[g as int].has_player(user),
        },
{
}

/// Opening an account keeps the books consistent.
pub proof fn law_register_wf(ledger: Ledger, user: UserId)
    requires
        ledger.wf(),
        !ledger.users.contains_key(user),
    ensures
        ledger.register(user).wf(),
{
}

/// Entering a match keeps the books consistent, and adds one match at
/// most.
pub proof fn law_enter_wf(ledger: Ledger, player: UserData)
    requires
        ledger.wf(),
        ledger.games.len() < usize::MAX,
    ensures
        ledger.enter(player).0.wf(),
        ledger.enter(player).0.games.len() <= ledger.games.len() + 1,
{
}

/// Every request keeps the books consistent, and adds no match.
pub proof fn law_handle_wf(
    ledger: Ledger,
    source: ActorId,
    main_contract: ActorId,
    value: u128,
    action: RutzoAction,
)
    requires
        ledger.wf(),
    ensures
        ledger.handle(source, main_contract, value, action).0.wf(),
        ledger.handle(source, main_contract, value, action).0.games == ledger.games,
{
    if let RutzoAction::DelegateApprovedUser(user) = action {
        if ledger.approved_minters.contains(user) {
            lemma_first_exists(ledger.approved_minters, user);
            lemma_swap_remove_distinct(
                ledger.approved_minters,
                first_position(ledger.approved_minters, user),
            );
        }
    }
}

/// Once the owner has taken a user off the approved minters, the user is
/// not among them, however often they had been approved.
pub proof fn law_revoked_is_gone(ledger: Ledger, user: UserId)
    requires
        ledger.wf(),
    ensures
        !ledger.revoke_minter(ledger.owner, user).0.approved_minters.contains(user),
        ledger.revoke_minter(ledger.owner, user).0.may_mint(user) == (user == ledger.owner),
{
    if ledger.approved_minters.contains(user) {
        lemma_first_exists(ledger.approved_minters, user);
        lemma_swap_remove_distinct(
            ledger.approved_minters,
            first_position(ledger.approved_minters, user),
        );
    }
}

/// Approving a user who is approved already changes nothing, and nobody
/// stands twice among the approved minters afterwards.
pub proof fn law_approved_once(ledger: Ledger, user: UserId)
    requires
        ledger.wf(),
    ensures
        ledger.approved_minters.contains(user) ==> ledger.approve_minter(ledger.owner, user).0
            == ledger,
        ledger.approve_minter(ledger.owner, user).0.approved_minters.contains(user),
        distinct(ledger.approve_minter(ledger.owner, user).0.approved_minters),
{
    let after = ledger.approve_minter(ledger.owner, user).0.approved_minters;
    if !ledger.approved_minters.contains(user) {
        assert(after[after.len() - 1] == user);
    }
}

/// Every reply keeps the books consistent, and adds one match at most.
pub proof fn law_resume_wf(ledger: Ledger, task: Task, reply: ServiceReply)
    requires
        ledger.wf(),
        ledger.games.len() < usize::MAX,
    ensures
        ledger.resume(task, reply).0.wf(),
        ledger.resume(task, reply).0.games.len() <= ledger.games.len() + 1,
{
}

/// Whatever comes in, in whatever order, the books stay consistent: so at
/// every moment each user is in no match, or in one that is in progress
/// and has them as a player. (As long as the number of matches fits the
/// machine's index type.)
pub proof fn law_always_wf(ledger: Ledger, inputs: Seq<Input>)
    requires
        ledger.wf(),
        ledger.games.len() + inputs.len() < usize::MAX,
    ensures
        ledger.after(inputs).wf(),
        ledger.after(inputs).games.len() <= ledger.games.len() + inputs.len(),
    decreases inputs.len(),
{
    if inputs.len() > 0 {
        law_always_wf(ledger, inputs.drop_last());
        let before = ledger.after(inputs.drop_last());
        match inputs.last() {
            Input::Request { source, main_contract, value, action } => {
                law_handle_wf(before, source, main_contract, value, action);
            },
            Input::Reply { task, reply } => {
                law_resume_wf(before, task, reply);
            },
        }
    }
}

/// The reward of a match is the token that its loser staked, and it goes
/// to the other player: either the first player wins the second one's
/// stake, or the second player wins the first one's.
pub proof fn law_reward_is_losers_stake(first: UserData, second: UserData)
    ensures
        ({
            let (winner, loser, reward) = outcome(first, second);
            ||| winner == first.user_id && loser == second.user_id && reward == second.chosen_nft
            ||| winner == second.user_id && loser == first.user_id && reward == first.chosen_nft
        }),
{
}

/// With equal powers the player who joined wins, and the player who waited
/// loses their stake.
pub proof fn law_tie_favours_joiner(first: UserData, second: UserData)
    requires
        first.power == second.power,
    ensures
        outcome(first, second) == (second.user_id, first.user_id, first.chosen_nft),
{
}

/// The first player wins exactly with strictly more power.
pub proof fn law_winner(first: UserData, second: UserData)
    ensures
        outcome(first, second).0 == first.user_id && outcome(first, second).1 == second.user_id
            <== first.power > second.power,
        outcome(first, second).0 == second.user_id && outcome(first, second).1 == first.user_id
            <== first.power <= second.power,
{
}

/// What a pairing comes to. A player with an account, who owes nothing and
/// is in no match, enters while somebody waits. Then the transfer of the
/// loser's stake to the winner goes out under the current tag; the match
/// is finished with that outcome; both players are in no match and have
/// the match as the last entry of their history; and when the reply to the
/// transfer is in, the caller is told that the match is finished, or that
/// the transfer is pending, never both, and neither the accounts nor the
/// matches change any more.
pub proof fn law_pairing(ledger: Ledger, player: UserData, reply: ServiceReply)
    requires
        ledger.wf(),
        ledger.users.contains_key(player.user_id),
        !ledger.pending_transfers.contains_key(player.user_id),
        ledger.users[player.user_id].current_game is None,
        ledger.games_waiting.len() > 0,
        ledger.nft_contract is Some,
        transfer_reading(reply) != Err::<(), Fault>(Fault::UnexpectedReply),
    ensures
        ({
            let g = ledger.paired_match();
            let first = ledger.games[g as int].user_1;
            let (winner, loser, reward) = outcome(first, player);
            let (paired, sent) = ledger.enter(player);
            let (settled, answer) = paired.settle_reward(winner, loser, reward, reply);
            let finished = Step::Reply { event: RutzoEvent::MatchFinished, value: 0 };
            let pending = Step::Reply { event: RutzoEvent::PendingTransfer(reward), value: 0 };
            &&& sent == Step::Call {
                service: ledger.nft_contract->0,
                action: NFTAction::Transfer {
                    transaction_id: ledger.transaction_id,
                    to: winner,
                    token_id: reward,
                },
                task: Task::Reward { winner, loser, token_id: reward },
            }
            &&& first.user_id != player.user_id
            &&& ledger.users.contains_key(first.user_id)
            &&& paired.games[g as int].match_state == MatchState::Finished { winner, loser }
            &&& paired.games[g as int].user_1 == first
            &&& paired.games[g as int].user_2 == Some(player)
            &&& paired.users[player.user_id].current_game is None
            &&& paired.users[first.user_id].current_game is None
            &&& paired.users[player.user_id].past_games
                == ledger.users[player.user_id].past_games.push(g)
            &&& paired.users[first.user_id].past_games
                == ledger.users[first.user_id].past_games.push(g)
            &&& settled.users == paired.users
            &&& settled.games == paired.games
            &&& (answer == finished) != (answer == pending)
            &&& answer == finished <==> transfer_reading(reply) is Ok
            &&& answer == pending ==> settled.pending_transfers[loser] == (winner, reward)
        }),
{
}

/// An owed reward stays on the books through every input but the reply
/// that confirms its retried transfer; and it stays as it is, unless the
/// same user has just lost another match whose reward could not be
/// delivered either.
pub proof fn law_pending_kept(ledger: Ledger, input: Input, owing: UserId)
    requires
        ledger.pending_transfers.contains_key(owing),
        !(input matches Input::Reply { task: Task::Retry { owed_by, .. }, reply } && owed_by
            == owing && transfer_reading(reply) is Ok),
    ensures
        ledger.step(input).0.pending_transfers.contains_key(owing),
        !(input matches Input::Reply { task: Task::Reward { loser, .. }, reply } && loser
            == owing && transfer_reading(reply) == Err::<(), Fault>(Fault::TransferFailed))
            ==> ledger.step(input).0.pending_transfers[owing] == ledger.pending_transfers[owing],
{
}

/// A retried transfer that is not confirmed changes nothing at all.
pub proof fn law_failed_retry(ledger: Ledger, owed_by: UserId, token_id: TokenId, reply: ServiceReply)
    requires
        !(transfer_reading(reply) is Ok),
    ensures
        ledger.resume(Task::Retry { owed_by, token_id }, reply).0 == ledger,
{
}

/// A retried transfer that is confirmed clears the entry of the user who
/// owed, and no other.
pub proof fn law_confirmed_retry(
    ledger: Ledger,
    owed_by: UserId,
    token_id: TokenId,
    reply: ServiceReply,
)
    requires
        transfer_reading(reply) is Ok,
    ensures
        ledger.resume(Task::Retry { owed_by, token_id }, reply) == (
            Ledger { pending_transfers: ledger.pending_transfers.remove(owed_by), ..ledger },
            Step::Reply { event: RutzoEvent::TransferSuccess(token_id), value: 0 },
        ),
{
}

/// The counter never goes back, and a tagged request carries the counter's
/// value and moves the counter on.
pub proof fn law_step_tag(ledger: Ledger, input: Input)
    ensures
        ledger.step(input).0.transaction_id >= ledger.transaction_id,
        tag_of(ledger.step(input).1) is Some ==> tag_of(ledger.step(input).1) == Some(
            ledger.transaction_id,
        ) && ledger.step(input).0.transaction_id == following(ledger.transaction_id),
{
}

/// The counter after more inputs is at least the counter after fewer.
pub proof fn law_counter_grows(ledger: Ledger, inputs: Seq<Input>, a: int, b: int)
    requires
        0 <= a <= b <= inputs.len(),
    ensures
        ledger.after(inputs.take(a)).transaction_id <= ledger.after(
            inputs.take(b),
        ).transaction_id,
    decreases b - a,
{
    if a < b {
        law_counter_grows(ledger, inputs, a, b - 1);
        assert(inputs.take(b).drop_last() =~= inputs.take(b - 1));
        assert(inputs.take(b).last() == inputs[b - 1]);
        law_step_tag(ledger.after(inputs.take(b - 1)), inputs[b - 1]);
    }
}

/// No two tagged requests of one run carry the same tag: of two of them
/// the later one carries the greater tag, as long as the counter has not
/// reached its largest value when the later one goes out.
pub proof fn law_tags_never_repeat(ledger: Ledger, inputs: Seq<Input>, i: int, j: int)
    requires
        0 <= i < j < inputs.len(),
        tag_of(ledger.step_at(inputs, i)) is Some,
        tag_of(ledger.step_at(inputs, j)) is Some,
        ledger.after(inputs.take(j)).transaction_id < u64::MAX,
    ensures
        tag_of(ledger.step_at(inputs, i))->0 < tag_of(ledger.step_at(inputs, j))->0,
{
    law_step_tag(ledger.after(inputs.take(i)), inputs[i]);
    law_step_tag(ledger.after(inputs.take(j)), inputs[j]);
    assert(inputs.take(i + 1).drop_last() =~= inputs.take(i));
    assert(inputs.take(i + 1).last() == inputs[i]);
    law_counter_grows(ledger, inputs, i + 1, j);
}

/// Matches are never taken off the books, and a finished match stays as
/// it is.
pub proof fn law_finished_stays(ledger: Ledger, input: Input, g: int)
    requires
        ledger.wf(),
        0 <= g < ledger.games.len(),
        ledger.games[g].match_state is Finished,
    ensures
        ledger.step(input).0.games.len() >= ledger.games.len(),
        ledger.step(input).0.games[g] == ledger.games[g],
{
}

/// A request to enter a match from a caller without an account is turned
/// away, and the books stay as they are.
pub proof fn law_stranger_turned_away(
    ledger: Ledger,
    source: ActorId,
    main_contract: ActorId,
    token_id: TokenId,
    power: u8,
)
    requires
        !ledger.users.contains_key(source),
    ensures
        ledger.begin_entry(source, token_id, power, main_contract) == (Step::Reply {
            event: RutzoEvent::AccountNotExists(source),
            value: 0,
        }),
        ledger.enter(UserData { user_id: source, chosen_nft: token_id, power }) == (
            ledger,
            Step::Reply { event: RutzoEvent::AccountNotExists(source), value: 0 },
        ),
{
}

impl Ledger {
    /// Whether match `g` is finished, with `loser` having lost the stake
    /// `token_id` to `winner` in it.
    pub open spec fn lost_in(self, g: int, winner: UserId, loser: UserId, token_id: TokenId) -> bool {
        &&& 0 <= g < self.games.len()
        &&& self.games[g].match_state == MatchState::Finished { winner, loser }
        &&& self.games[g].user_2 is Some
        &&& outcome(self.games[g].user_1, self.games[g].user_2->0) == (winner, loser, token_id)
    }

    /// Whether some finished match has `loser` owing `token_id` to `winner`.
    pub open spec fn owed_from_a_match(self, winner: UserId, loser: UserId, token_id: TokenId) -> bool {
        exists|g: int| self.lost_in(g, winner, loser, token_id)
    }

    /// Every owed reward is the stake that its debtor lost to its creditor
    /// in a finished match.
    pub open spec fn debts_backed(self) -> bool {
        forall|u: UserId| #[trigger]
            self.pending_transfers.contains_key(u) ==> self.owed_from_a_match(
                self.pending_transfers[u].0,
                u,
                self.pending_transfers[u].1,
            )
    }

    /// Whether `input`, if it is the reply to a reward transfer, speaks of
    /// a reward that a finished match gave rise to.
    pub open spec fn genuine(self, input: Input) -> bool {
        match input {
            Input::Reply { task: Task::Reward { winner, loser, token_id }, .. } => {
                self.owed_from_a_match(winner, loser, token_id)
            },
            _ => true,
        }
    }
}

/// The reward transfer that a pairing sends out speaks of the match that
/// has just finished.
pub proof fn law_reward_task_is_genuine(ledger: Ledger, player: UserData)
    requires
        ledger.wf(),
        ledger.users.contains_key(player.user_id),
        !ledger.pending_transfers.contains_key(player.user_id),
        ledger.users[player.user_id].current_game is None,
        ledger.games_waiting.len() > 0,
        ledger.nft_contract is Some,
    ensures
        ({
            let first = ledger.games[ledger.paired_match() as int].user_1;
            let (winner, loser, reward) = outcome(first, player);
            &&& ledger.enter(player).1 matches Step::Call { task, .. } && task == (Task::Reward {
                winner,
                loser,
                token_id: reward,
            })
            &&& ledger.enter(player).0.owed_from_a_match(winner, loser, reward)
        }),
{
    let g = ledger.paired_match();
    assert(ledger.games_waiting[ledger.games_waiting.len() - 1] == g);
    let first = ledger.games[g as int].user_1;
    let (winner, loser, reward) = outcome(first, player);
    assert(ledger.enter(player).0.lost_in(g as int, winner, loser, reward));
}

/// What a finished match gave rise to, it gives rise to ever after.
pub proof fn law_genuine_stays(
    ledger: Ledger,
    input: Input,
    winner: UserId,
    loser: UserId,
    token_id: TokenId,
)
    requires
        ledger.wf(),
        ledger.owed_from_a_match(winner, loser, token_id),
    ensures
        ledger.step(input).0.owed_from_a_match(winner, loser, token_id),
{
    let g = choose|g: int| ledger.lost_in(g, winner, loser, token_id);
    law_finished_stays(ledger, input, g);
    assert(ledger.step(input).0.lost_in(g, winner, loser, token_id));
}

/// As long as the replies to reward transfers speak of rewards that
/// finished matches gave rise to, every owed reward on the books is the
/// stake that its debtor lost to its creditor in a finished match.
pub proof fn law_debts_backed(ledger: Ledger, input: Input)
    requires
        ledger.wf(),
        ledger.debts_backed(),
        ledger.genuine(input),
    ensures
        ledger.step(input).0.debts_backed(),
{
    let after = ledger.step(input).0;
    assert forall|u: UserId| #[trigger] after.pending_transfers.contains_key(u) implies after.owed_from_a_match(
        after.pending_transfers[u].0,
        u,
        after.pending_transfers[u].1,
    ) by {
        let (w, t) = after.pending_transfers[u];
        if ledger.pending_transfers.contains_key(u) && ledger.pending_transfers[u] == (w, t) {
            law_genuine_stays(ledger, input, w, u, t);
        } else {
            match input {
                Input::Reply { task: Task::Reward { winner, loser, token_id }, reply } => {
                    assert(loser == u && winner == w && token_id == t);
                    law_genuine_stays(ledger, input, w, u, t);
                },
                _ => {},
            }
        }
    }
}

/// A user who has three default tokens or more, or whose quota was marked
/// as reached, is refused the next one: no mint goes out, and nothing
/// changes but the mark.
pub proof fn law_quota_refuses(ledger: Ledger, user: UserId, index: u8)
    requires
        ledger.users.contains_key(user),
        ledger.mints[user].quota_gate || ledger.mints[user].nfts_minted.len() >= 3,
    ensures
        ledger.begin_card(user, index) == (
            Ledger {
                mints: ledger.mints.insert(
                    user,
                    Mints { quota_gate: true, ..ledger.mints[user] },
                ),
                ..ledger
            },
            Step::Reply { event: RutzoEvent::MaxMintsReached(user), value: 0 },
        ),
{
}

/// A used-up quota stays used up, whatever comes in.
pub proof fn law_quota_lasts(ledger: Ledger, input: Input, user: UserId)
    requires
        ledger.wf(),
        ledger.mints.contains_key(user),
        ledger.mints[user].exhausted(),
    ensures
        ledger.step(input).0.mints.contains_key(user),
        ledger.step(input).0.mints[user].exhausted(),
{
}

/// A default mint that runs from the request to the reply of the transfer,
/// with no other default mint of the same user in between, leaves the user
/// with three counted tokens at most: the mint goes out only for a user
/// with fewer than three, and the confirmed transfer counts one.
pub proof fn law_quota_bound(
    ledger: Ledger,
    user: UserId,
    index: u8,
    minted: ServiceReply,
    sent: ServiceReply,
)
    requires
        ledger.wf(),
        ledger.users.contains_key(user),
        ledger.mints[user].nfts_minted.len() <= 3,
    ensures
        ({
            let (asked, first) = ledger.begin_card(user, index);
            let (made, second) = asked.card_minted(user, index, minted);
            let (done, _last) = made.card_sent(user, index, sent);
            &&& asked.mints[user].nfts_minted.len() <= 3
            &&& first is Call ==> ledger.mints[user].nfts_minted.len() < 3 && made.mints[user]
                == ledger.mints[user]
            &&& first is Call && second is Call ==> done.mints[user].nfts_minted.len()
                <= ledger.mints[user].nfts_minted.len() + 1 <= 3
        }),
{
}

} // verus!
