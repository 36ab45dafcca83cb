//! The entry points: one request comes in and is carried to its first
//! step; one reply comes in and the work that waited for it goes on.

use vstd::prelude::*;
use vstd::utf8::encode_utf8;
use crate::events::{RutzoAction, RutzoEvent, Step, Task, UserData};
use crate::ids::{ActorId, UserId};
use crate::registry::{distinct, find_minter, first_position, lemma_first_position};
use crate::market::{purchase_step, resume_buy_nft};
use crate::nft::{Fault, ServiceReply};
use crate::power::{declared_power, parse_power};
use crate::state::{Contract, Ledger};

verus! {

impl Ledger {
    /// What the owner's request to use the token service at `address` does;
    /// anybody else is turned away.
    pub open spec fn set_service(self, source: ActorId, address: ActorId) -> (Ledger, RutzoEvent) {
        if source != self.owner {
            (self, RutzoEvent::UserIsNotApproved(source))
        } else {
            (Ledger { nft_contract: Some(address), ..self }, RutzoEvent::NFTContractSaved)
        }
    }

    /// What the owner's request to take `user` off the approved minters
    /// does: their first entry is overwritten by the last one, which is
    /// dropped. Anybody else is turned away, and so is a request about a
    /// user who is not on the list.
    pub open spec fn revoke_minter(self, source: ActorId, user: UserId) -> (Ledger, RutzoEvent) {
        if source != self.owner {
            (self, RutzoEvent::UserIsNotTheOwner(source))
        } else if !self.approved_minters.contains(user) {
            (self, RutzoEvent::UserApprovedNotExists(user))
        } else {
            (
                Ledger {
                    approved_minters: self.approved_minters.update(
                        first_position(self.approved_minters, user),
                        self.approved_minters.last(),
                    ).drop_last(),
                    ..self
                },
                RutzoEvent::ApprovedUserDeleted(user),
            )
        }
    }

    /// A change to the service address or to the approved minters keeps
    /// the books consistent.
    pub proof fn lemma_settings_wf(self, nft_contract: Option<ActorId>, approved_minters: Seq<UserId>)
        requires
            self.wf(),
            distinct(approved_minters),
        ensures
            (Ledger { nft_contract, approved_minters, ..self }).wf(),
    {
    }

    /// What a request does up to its first step, for the caller `source`
    /// who attached `value`, in the program `main_contract`.
    /// Without a token service address only the request that sets one is
    /// taken up, and a declared power that does not read as a number from
    /// 0 to 255 abandons the request.
    pub open spec fn handle(
        self,
        source: ActorId,
        main_contract: ActorId,
        value: u128,
        action: RutzoAction,
    ) -> (Ledger, Step) {
        if !(action is SetNFTAddress) && self.nft_contract is None {
            (self, Step::Abort { fault: Fault::NoService })
        } else {
            match action {
                RutzoAction::PlayGame { token_id, power } => match declared_power(
                    encode_utf8(power@),
                ) {
                    None => (self, Step::Abort { fault: Fault::BadPower }),
                    Some(power) => (
                        self,
                        self.begin_entry(source, token_id, power, main_contract),
                    ),
                },
                RutzoAction::MintCard { token_id } => self.begin_card(source, token_id),
                RutzoAction::SetNFTAddress(address) => {
                    let (after, event) = self.set_service(source, address);
                    (after, Step::Reply { event, value: 0 })
                },
                RutzoAction::Register => if self.users.contains_key(source) {
                    (
                        self,
                        Step::Reply { event: RutzoEvent::AccountAlreadyExist(source), value: 0 },
                    )
                } else {
                    (
                        self.register(source),
                        Step::Reply { event: RutzoEvent::RegisterSucces, value: 0 },
                    )
                },
                RutzoAction::AddNftForSale { token_metadata } => self.begin_sale(
                    source,
                    token_metadata,
                    value,
                ),
                RutzoAction::BuyNFT(token_id) => self.begin_purchase(source, token_id, value),
                RutzoAction::ApproveMinter(user) => {
                    let (after, event) = self.approve_minter(source, user);
                    (after, Step::Reply { event, value: 0 })
                },
                RutzoAction::DelegateApprovedUser(user) => {
                    let (after, event) = self.revoke_minter(source, user);
                    (after, Step::Reply { event, value: 0 })
                },
            }
        }
    }

    /// What the reply to the request that `task` waits for does.
    pub open spec fn resume(self, task: Task, reply: ServiceReply) -> (Ledger, Step) {
        match task {
            Task::Approval { user_id, token_id, power } => self.approved_entry(
                UserData { user_id, chosen_nft: token_id, power },
                reply,
            ),
            Task::Retry { owed_by, token_id } => self.settle_retry(owed_by, token_id, reply),
            Task::Reward { winner, loser, token_id } => self.settle_reward(
                winner,
                loser,
                token_id,
                reply,
            ),
            Task::SaleMint { price } => self.finish_sale(price, reply),
            Task::CardMint { user_id, token_id } => self.card_minted(user_id, token_id, reply),
            Task::CardTransfer { user_id, token_id } => self.card_sent(user_id, token_id, reply),
            Task::Purchase { refund } => (self, purchase_step(refund, reply)),
        }
    }
}

impl Contract {
    /// Sets the token service address on the owner's request: see
    /// [`Ledger::set_service`].
    pub fn set_nft_address(&mut self, source: ActorId, address: ActorId) -> (event: RutzoEvent)
        requires
            old(self).wf(),
        ensures
            final(self).wf(),
            (final(self)@, event) == old(self)@.set_service(source, address),
    {
        if !(source == self.owner) {
            return RutzoEvent::UserIsNotApproved(source);
        }
        proof {
            self@.lemma_settings_wf(Some(address), self@.approved_minters);
        }
        self.nft_contract = Some(address);
        RutzoEvent::NFTContractSaved
    }

    /// Takes a user off the approved minters on the owner's request: see
    /// [`Ledger::revoke_minter`].
    pub fn remove_minter(&mut self, source: ActorId, user_id: UserId) -> (event: RutzoEvent)
        requires
            old(self).wf(),
        ensures
            final(self).wf(),
            (final(self)@, event) == old(self)@.revoke_minter(source, user_id),
    {
        if !(source == self.owner) {
            return RutzoEvent::UserIsNotTheOwner(source);
        }
        let index = match find_minter(&self.approved_minters, &user_id) {
            Some(index) => index,
            None => {
                return RutzoEvent::UserApprovedNotExists(user_id);
            },
        };
        proof {
            lemma_first_position(self@.approved_minters, user_id, index as int);
            self@.lemma_settings_wf(
                self@.nft_contract,
                self@.approved_minters.update(index as int, self@.approved_minters.last())
                    .drop_last(),
            );
        }
        self.approved_minters.swap_remove(index);
        RutzoEvent::ApprovedUserDeleted(user_id)
    }

    /// Takes up the request `action` of the caller `source`, who attached
    /// `value`, and carries it to its first step: see [`Ledger::handle`].
    pub fn handle(&mut self, source: ActorId, main_contract: ActorId, value: u128, action: RutzoAction) -> (step: Step)
        requires
            old(self).wf(),
        ensures
            final(self).wf(),
            (final(self)@, step) == old(self)@.handle(source, main_contract, value, action),
    {
        let sets_address = match &action {
            RutzoAction::SetNFTAddress(_) => true,
            _ => false,
        };
        if !sets_address && self.nft_contract.is_none() {
            return Step::Abort { fault: Fault::NoService };
        }
        match action {
            RutzoAction::PlayGame { token_id, power } => match parse_power(power.as_str()) {
                None => Step::Abort { fault: Fault::BadPower },
                Some(power) => self.play_game(source, token_id, power, main_contract),
            },
            RutzoAction::MintCard { token_id } => self.mint_card(source, token_id),
            RutzoAction::SetNFTAddress(address) => Step::Reply {
                event: self.set_nft_address(source, address),
                value: 0,
            },
            RutzoAction::Register => Step::Reply { event: self.register_user(source), value: 0 },
            RutzoAction::AddNftForSale { token_metadata } => self.mint_nft_to_sale(
                source,
                token_metadata,
                value,
            ),
            RutzoAction::BuyNFT(token_id) => self.buy_nft(source, token_id, value),
            RutzoAction::ApproveMinter(user_id) => Step::Reply {
                event: self.add_minter(source, user_id),
                value: 0,
            },
            RutzoAction::DelegateApprovedUser(user_id) => Step::Reply {
                event: self.remove_minter(source, user_id),
                value: 0,
            },
        }
    }

    /// Goes on with the work that `task` stands for, now that `reply` has
    /// come back: see [`Ledger::resume`].
    pub fn resume(&mut self, task: Task, reply: &ServiceReply) -> (step: Step)
        requires
            old(self).wf(),
        ensures
            final(self).wf(),
            (final(self)@, step) == old(self)@.resume(task, *reply),
    {
        match task {
            Task::Approval { user_id, token_id, power } => self.resume_play_game(
                user_id,
                token_id,
                power,
                reply,
            ),
            Task::Retry { owed_by, token_id } => self.settle_retry(owed_by, token_id, reply),
            Task::Reward { winner, loser, token_id } => self.settle_reward(
                winner,
                loser,
                token_id,
                reply,
            ),
            Task::SaleMint { price } => self.resume_mint_nft_to_sale(price, reply),
            Task::CardMint { user_id, token_id } => self.resume_mint_card(
                user_id,
                token_id,
                reply,
            ),
            Task::CardTransfer { user_id, token_id } => self.finish_mint_card(
                user_id,
                token_id,
                reply,
            ),
            Task::Purchase { refund } => resume_buy_nft(refund, reply),
        }
    }
}

} // verus!
