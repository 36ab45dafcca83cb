//! The marketplace: minting tokens for sale, handing out the default
//! tokens under a quota, and selling what is listed.

use vstd::prelude::*;
use crate::escrow::Outbound;
use crate::events::{RutzoEvent, Step, Task};
use crate::ids::{ActorId, NFTPrice, TokenId, UserId};
use crate::nft::{Fault, NFTAction, ServiceReply, TokenMetadata, mint_reading, transfer_reading, read_mint, read_transfer};
use crate::state::{Contract, Ledger, Mints, lemma_views_insert};

verus! {

impl Ledger {
    /// A change to the listings alone keeps the books consistent.
    pub proof fn lemma_for_sale_wf(self, for_sale: Map<TokenId, NFTPrice>)
        requires
            self.wf(),
        ensures
            (Ledger { for_sale, ..self }).wf(),
    {
    }

    /// A new mint record for a user who has one keeps the books consistent.
    pub proof fn lemma_mints_wf(self, user: UserId, record: Mints)
        requires
            self.wf(),
            self.mints.contains_key(user),
        ensures
            (Ledger { mints: self.mints.insert(user, record), ..self }).wf(),
    {
    }

    /// What a request to mint a token for sale does: only the owner and the
    /// approved minters get through, and for them the mint goes out under
    /// the next tag.
    pub open spec fn begin_sale(self, user: UserId, token_metadata: TokenMetadata, price: NFTPrice) -> (
        Ledger,
        Step,
    ) {
        if !self.may_mint(user) {
            (self, Step::Reply { event: RutzoEvent::UserIsNotApproved(user), value: 0 })
        } else {
            match self.nft_contract {
                None => (self, Step::Abort { fault: Fault::NoService }),
                Some(service) => (
                    self.issued(),
                    Step::Call {
                        service,
                        action: NFTAction::Mint {
                            transaction_id: self.transaction_id,
                            token_metadata,
                        },
                        task: Task::SaleMint { price },
                    },
                ),
            }
        }
    }

    /// What the reply to a mint for sale does: the new token is listed at
    /// `price`; a mint that failed, or a malformed reply, abandons the
    /// request.
    pub open spec fn finish_sale(self, price: NFTPrice, reply: ServiceReply) -> (Ledger, Step) {
        match mint_reading(reply) {
            Ok(token_id) => (
                Ledger { for_sale: self.for_sale.insert(token_id, price), ..self },
                Step::Reply { event: RutzoEvent::Minted(token_id), value: 0 },
            ),
            Err(fault) => (self, Step::Abort { fault }),
        }
    }

    /// What a request for the default token `index` does:
    /// a caller without an account is turned away;
    /// a caller whose quota is used up is turned away, and the quota is
    /// marked as reached;
    /// an index without a template is refused;
    /// otherwise the mint goes out under the next tag.
    pub open spec fn begin_card(self, user: UserId, index: u8) -> (Ledger, Step) {
        if !self.users.contains_key(user) {
            (self, Step::Reply { event: RutzoEvent::AccountNotExists(user), value: 0 })
        } else if self.mints[user].exhausted() {
            (
                Ledger {
                    mints: self.mints.insert(
                        user,
                        Mints { quota_gate: true, ..self.mints[user] },
                    ),
                    ..self
                },
                Step::Reply { event: RutzoEvent::MaxMintsReached(user), value: 0 },
            )
        } else if !self.templates.contains_key(index) {
            (self, Step::Reply { event: RutzoEvent::NFTWithIdNotExists(index), value: 0 })
        } else {
            match self.nft_contract {
                None => (self, Step::Abort { fault: Fault::NoService }),
                Some(service) => (
                    self.issued(),
                    Step::Call {
                        service,
                        action: NFTAction::Mint {
                            transaction_id: self.transaction_id,
                            token_metadata: self.templates[index],
                        },
                        task: Task::CardMint { user_id: user, token_id: index },
                    },
                ),
            }
        }
    }

    /// What the reply to the mint of a default token does: the new token is
    /// sent on to `user` under the next tag; a mint that failed, or a
    /// malformed reply, abandons the request.
    pub open spec fn card_minted(self, user: UserId, index: u8, reply: ServiceReply) -> (
        Ledger,
        Step,
    ) {
        match mint_reading(reply) {
            Ok(token_id) => match self.nft_contract {
                None => (self, Step::Abort { fault: Fault::NoService }),
                Some(service) => (
                    self.issued(),
                    Step::Call {
                        service,
                        action: NFTAction::Transfer {
                            transaction_id: self.transaction_id,
                            to: user,
                            token_id,
                        },
                        task: Task::CardTransfer { user_id: user, token_id: index },
                    },
                ),
            },
            Err(fault) => (self, Step::Abort { fault }),
        }
    }

    /// The books after the default token `index` was counted against the
    /// quota of `user`; unchanged where `user` has no mint record.
    pub open spec fn with_minted(self, user: UserId, index: u8) -> Ledger {
        if self.mints.contains_key(user) {
            Ledger {
                mints: self.mints.insert(
                    user,
                    Mints {
                        nfts_minted: self.mints[user].nfts_minted.push(index),
                        ..self.mints[user]
                    },
                ),
                ..self
            }
        } else {
            self
        }
    }

    /// What the reply to the transfer of a default token does: on success
    /// the token counts against the quota of `user`; a refusal or a
    /// malformed reply abandons the request, and nothing is recorded as
    /// owed.
    pub open spec fn card_sent(self, user: UserId, index: u8, reply: ServiceReply) -> (
        Ledger,
        Step,
    ) {
        match transfer_reading(reply) {
            Ok(_) => (
                self.with_minted(user, index),
                Step::Reply { event: RutzoEvent::Minted(TokenId { hi: 0, lo: 0 }), value: 0 },
            ),
            Err(fault) => (self, Step::Abort { fault }),
        }
    }

    /// What a request to buy `token_id` for `paid` does. The books change
    /// only by the tag of the transfer that goes out. A caller without an
    /// account, a token that is not listed and a payment below the price
    /// are each refused with the whole payment returned; otherwise the
    /// token is sent to the buyer, and the overpayment is kept to be
    /// returned when the transfer is confirmed.
    pub open spec fn begin_purchase(self, user: UserId, token_id: TokenId, paid: NFTPrice) -> (
        Ledger,
        Step,
    ) {
        if !self.users.contains_key(user) {
            (self, Step::Reply { event: RutzoEvent::AccountNotExists(user), value: paid })
        } else if !self.for_sale.contains_key(token_id) {
            (
                self,
                Step::Reply {
                    event: RutzoEvent::NftWithTokenIdDoesNotExists(token_id),
                    value: paid,
                },
            )
        } else if paid < self.for_sale[token_id] {
            (self, Step::Reply { event: RutzoEvent::InsufficientFunds(paid), value: paid })
        } else {
            match self.nft_contract {
                None => (self, Step::Abort { fault: Fault::NoService }),
                Some(service) => (
                    self.issued(),
                    Step::Call {
                        service,
                        action: NFTAction::Transfer {
                            transaction_id: self.transaction_id,
                            to: user,
                            token_id,
                        },
                        task: Task::Purchase {
                            refund: (paid - self.for_sale[token_id]) as u128,
                        },
                    },
                ),
            }
        }
    }
}

/// What the reply to the transfer of a bought token does: on success the
/// buyer is answered with the overpayment attached; a refusal or a
/// malformed reply abandons the request.
pub open spec fn purchase_step(refund: u128, reply: ServiceReply) -> Step {
    match transfer_reading(reply) {
        Ok(_) => Step::Reply { event: RutzoEvent::NFTContractSaved, value: refund },
        Err(fault) => Step::Abort { fault },
    }
}

impl Contract {
    /// Whether `user_id` may mint tokens for sale.
    pub fn may_mint(&self, user_id: &UserId) -> (r: bool)
        ensures
            r == self@.may_mint(*user_id),
    {
        if self.owner == *user_id {
            return true;
        }
        let mut i: usize = 0;
        while i < self.approved_minters.len()
            invariant
                i <= self.approved_minters@.len(),
                forall|j: int| 0 <= j < i ==> self.approved_minters@[j] != *user_id,
            decreases self.approved_minters@.len() - i,
        {
            if self.approved_minters[i] == *user_id {
                return true;
            }
            i += 1;
        }
        false
    }

    /// Begins minting a token that will be listed at `value`: see
    /// [`Ledger::begin_sale`].
    pub fn mint_nft_to_sale(&mut self, user_id: ActorId, token_metadata: TokenMetadata, value: NFTPrice) -> (step: Step)
        requires
            old(self).wf(),
        ensures
            final(self).wf(),
            (final(self)@, step) == old(self)@.begin_sale(user_id, token_metadata, value),
    {
        if !self.may_mint(&user_id) {
            return Step::Reply { event: RutzoEvent::UserIsNotApproved(user_id), value: 0 };
        }
        let service = match self.nft_contract {
            None => {
                return Step::Abort { fault: Fault::NoService };
            },
            Some(service) => service,
        };
        let transaction_id = self.next_transaction();
        let Outbound { service, action } = Contract::mint_new_nft(
            service,
            token_metadata,
            transaction_id,
        );
        Step::Call { service, action, task: Task::SaleMint { price: value } }
    }

    /// Takes in the reply to a mint for sale: see [`Ledger::finish_sale`].
    pub fn resume_mint_nft_to_sale(&mut self, price: NFTPrice, reply: &ServiceReply) -> (step: Step)
        requires
            old(self).wf(),
        ensures
            final(self).wf(),
            (final(self)@, step) == old(self)@.finish_sale(price, *reply),
    {
        match read_mint(reply) {
            Ok(token_id) => {
                proof {
                    self@.lemma_for_sale_wf(self@.for_sale.insert(token_id, price));
                }
                self.nfts_for_sale.insert(token_id, price);
                Step::Reply { event: RutzoEvent::Minted(token_id), value: 0 }
            },
            Err(fault) => Step::Abort { fault },
        }
    }

    /// Begins handing the default token `token_id` to `user_id`: see
    /// [`Ledger::begin_card`].
    pub fn mint_card(&mut self, user_id: UserId, token_id: u8) -> (step: Step)
        requires
            old(self).wf(),
        ensures
            final(self).wf(),
            (final(self)@, step) == old(self)@.begin_card(user_id, token_id),
    {
        let ghost before = *self;
        if !self.is_register(&user_id) {
            return Step::Reply { event: RutzoEvent::AccountNotExists(user_id), value: 0 };
        }
        assert(before@.mints.contains_key(user_id));
        let slot = self.default_tokens_minted_by_id.find(&user_id).unwrap();
        if !self.default_tokens_minted_by_id.entries[slot].1.can_mint() {
            self.default_tokens_minted_by_id.entries[slot].1.quota_gate = true;
            proof {
                self.default_tokens_minted_by_id.lemma_value_replaced(
                    before.default_tokens_minted_by_id,
                    slot as int,
                );
                lemma_views_insert(
                    before.default_tokens_minted_by_id@,
                    user_id,
                    self.default_tokens_minted_by_id.entries@[slot as int].1,
                );
                before@.lemma_mints_wf(
                    user_id,
                    Mints { quota_gate: true, ..before@.mints[user_id] },
                );
            }
            return Step::Reply { event: RutzoEvent::MaxMintsReached(user_id), value: 0 };
        }
        let token_metadata = match self.tokens_metadata_default.get(&token_id) {
            None => {
                return Step::Reply { event: RutzoEvent::NFTWithIdNotExists(token_id), value: 0 };
            },
            Some(template) => template.duplicate(),
        };
        let service = match self.nft_contract {
            None => {
                return Step::Abort { fault: Fault::NoService };
            },
            Some(service) => service,
        };
        let transaction_id = self.next_transaction();
        let Outbound { service, action } = Contract::mint_new_nft(
            service,
            token_metadata,
            transaction_id,
        );
        Step::Call { service, action, task: Task::CardMint { user_id, token_id } }
    }

    /// Takes in the reply to the mint of a default token: see
    /// [`Ledger::card_minted`].
    pub fn resume_mint_card(&mut self, user_id: UserId, token_id: u8, reply: &ServiceReply) -> (step:
        Step)
        requires
            old(self).wf(),
        ensures
            final(self).wf(),
            (final(self)@, step) == old(self)@.card_minted(user_id, token_id, *reply),
    {
        let minted = match read_mint(reply) {
            Err(fault) => {
                return Step::Abort { fault };
            },
            Ok(minted) => minted,
        };
        let service = match self.nft_contract {
            None => {
                return Step::Abort { fault: Fault::NoService };
            },
            Some(service) => service,
        };
        let transaction_id = self.next_transaction();
        let Outbound { service, action } = Contract::transfer_nft(
            service,
            user_id,
            minted,
            transaction_id,
        );
        Step::Call { service, action, task: Task::CardTransfer { user_id, token_id } }
    }

    /// Takes in the reply to the transfer of a default token: see
    /// [`Ledger::card_sent`].
    pub fn finish_mint_card(&mut self, user_id: UserId, token_id: u8, reply: &ServiceReply) -> (step:
        Step)
        requires
            old(self).wf(),
        ensures
            final(self).wf(),
            (final(self)@, step) == old(self)@.card_sent(user_id, token_id, *reply),
    {
        let ghost before = *self;
        match read_transfer(reply) {
            Ok(_) => {
                match self.default_tokens_minted_by_id.find(&user_id) {
                    Some(slot) => {
                        self.default_tokens_minted_by_id.entries[slot].1.nfts_minted.push(
                            token_id,
                        );
                        proof {
                            self.default_tokens_minted_by_id.lemma_value_replaced(
                                before.default_tokens_minted_by_id,
                                slot as int,
                            );
                            lemma_views_insert(
                                before.default_tokens_minted_by_id@,
                                user_id,
                                self.default_tokens_minted_by_id.entries@[slot as int].1,
                            );
                            before@.lemma_mints_wf(
                                user_id,
                                Mints {
                                    nfts_minted: before@.mints[user_id].nfts_minted.push(token_id),
                                    ..before@.mints[user_id]
                                },
                            );
                        }
                    },
                    None => {},
                }
                Step::Reply { event: RutzoEvent::Minted(TokenId::zero()), value: 0 }
            },
            Err(fault) => Step::Abort { fault },
        }
    }

    /// Begins the sale of `token_id` to `user_id`, who paid `value`: see
    /// [`Ledger::begin_purchase`].
    pub fn buy_nft(&mut self, user_id: UserId, token_id: TokenId, value: NFTPrice) -> (step: Step)
        requires
            old(self).wf(),
        ensures
            final(self).wf(),
            (final(self)@, step) == old(self)@.begin_purchase(user_id, token_id, value),
    {
        if !self.is_register(&user_id) {
            return Step::Reply { event: RutzoEvent::AccountNotExists(user_id), value };
        }
        let price = match self.nfts_for_sale.get(&token_id) {
            None => {
                return Step::Reply {
                    event: RutzoEvent::NftWithTokenIdDoesNotExists(token_id),
                    value,
                };
            },
            Some(price) => *price,
        };
        if value < price {
            return Step::Reply { event: RutzoEvent::InsufficientFunds(value), value };
        }
        let service = match self.nft_contract {
            None => {
                return Step::Abort { fault: Fault::NoService };
            },
            Some(service) => service,
        };
        let transaction_id = self.next_transaction();
        let Outbound { service, action } = Contract::transfer_nft(
            service,
            user_id,
            token_id,
            transaction_id,
        );
        Step::Call { service, action, task: Task::Purchase { refund: value - price } }
    }
}

/// Takes in the reply to the transfer of a bought token: see
/// [`purchase_step`].
pub fn resume_buy_nft(refund: u128, reply: &ServiceReply) -> (step: Step)
    ensures
        step == purchase_step(refund, *reply),
{
    match read_transfer(reply) {
        Ok(_) => Step::Reply { event: RutzoEvent::NFTContractSaved, value: refund },
        Err(fault) => Step::Abort { fault },
    }
}

} // verus!
