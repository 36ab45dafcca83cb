use rutzo::events::{RutzoAction, RutzoEvent, Step, Task};
use rutzo::ids::{ActorId, TokenId};
use rutzo::market::resume_buy_nft;
use rutzo::nft::{Fault, NFTAction, NFTEvent, NFTTransfer, ServiceReply, TokenMetadata};
use rutzo::state::{Contract, InitContractData};

const OWNER: u64 = 1;
const SERVICE: u64 = 2;
const PROGRAM: u64 = 3;
const BUYER: u64 = 20;
const MINTER: u64 = 21;

fn actor(n: u64) -> ActorId {
    ActorId::new(n)
}

fn nft(n: u64) -> TokenId {
    TokenId::new(n)
}

fn card(name: &str) -> TokenMetadata {
    TokenMetadata {
        name: name.to_string(),
        description: "Water".to_string(),
        media: format!("https://example.org/{}.jpg", name),
        reference: "25".to_string(),
    }
}

fn shop() -> Contract {
    let mut contract = Contract::new(
        actor(OWNER),
        InitContractData {
            nft_contract: Some(actor(SERVICE)),
            tokens_metadata_default: vec![card("zero"), card("one"), card("two"), card("three")],
        },
    );
    assert_eq!(contract.register_user(actor(BUYER)), RutzoEvent::RegisterSucces);
    contract
}

fn minted(token_id: TokenId) -> ServiceReply {
    ServiceReply::Answer(NFTEvent::Transfer(NFTTransfer {
        from: ActorId::zero(),
        to: actor(PROGRAM),
        token_id,
    }))
}

fn moved(to: u64, token_id: TokenId) -> ServiceReply {
    ServiceReply::Answer(NFTEvent::Transfer(NFTTransfer {
        from: actor(PROGRAM),
        to: actor(to),
        token_id,
    }))
}

fn answer(event: RutzoEvent, value: u128) -> Step {
    Step::Reply { event, value }
}

/// Lists `token_id` at `price` by a mint for sale of the owner.
fn list(contract: &mut Contract, token_id: TokenId, price: u128) {
    let step = contract.mint_nft_to_sale(actor(OWNER), card("sale"), price);
    match step {
        Step::Call { task, .. } => {
            assert_eq!(task, Task::SaleMint { price });
            assert_eq!(
                contract.resume(task, &minted(token_id)),
                answer(RutzoEvent::Minted(token_id), 0)
            );
        },
        other => panic!("no mint went out: {:?}", other),
    }
}

/// Mints the default token `index` for the buyer, both calls succeeding.
fn mint_default(contract: &mut Contract, index: u8, token_id: TokenId) -> Step {
    let task = match contract.mint_card(actor(BUYER), index) {
        Step::Call { task, .. } => task,
        other => return other,
    };
    let task = match contract.resume(task, &minted(token_id)) {
        Step::Call { task, .. } => task,
        other => return other,
    };
    contract.resume(task, &moved(BUYER, token_id))
}

#[test]
fn overpayment_is_refunded_and_listing_stays() {
    let mut c = shop();
    list(&mut c, nft(5), 100);
    let before = c.transaction_id;
    let step = c.buy_nft(actor(BUYER), nft(5), 150);
    assert_eq!(
        step,
        Step::Call {
            service: actor(SERVICE),
            action: NFTAction::Transfer { transaction_id: before, to: actor(BUYER), token_id: nft(5) },
            task: Task::Purchase { refund: 50 },
        }
    );
    assert_eq!(
        c.resume(Task::Purchase { refund: 50 }, &moved(BUYER, nft(5))),
        answer(RutzoEvent::NFTContractSaved, 50)
    );
    assert_eq!(c.nfts_for_sale.get(&nft(5)), Some(&100));
    assert_eq!(c.transaction_id, before + 1);
}

#[test]
fn exact_payment_leaves_nothing_to_refund() {
    let mut c = shop();
    list(&mut c, nft(5), 100);
    match c.handle(actor(BUYER), actor(PROGRAM), 100, RutzoAction::BuyNFT(nft(5))) {
        Step::Call { task, .. } => assert_eq!(task, Task::Purchase { refund: 0 }),
        other => panic!("no transfer went out: {:?}", other),
    }
}

#[test]
fn purchase_is_refused_with_the_payment_returned() {
    let mut c = shop();
    list(&mut c, nft(5), 100);
    let before = format!("{:?}", c);
    assert_eq!(
        c.buy_nft(actor(99), nft(5), 150),
        answer(RutzoEvent::AccountNotExists(actor(99)), 150)
    );
    assert_eq!(
        c.buy_nft(actor(BUYER), nft(6), 150),
        answer(RutzoEvent::NftWithTokenIdDoesNotExists(nft(6)), 150)
    );
    assert_eq!(
        c.buy_nft(actor(BUYER), nft(5), 99),
        answer(RutzoEvent::InsufficientFunds(99), 99)
    );
    assert_eq!(format!("{:?}", c), before);
}

#[test]
fn refused_purchase_transfer_abandons_the_request() {
    assert_eq!(
        resume_buy_nft(50, &ServiceReply::Failed),
        Step::Abort { fault: Fault::TransferFailed }
    );
    assert_eq!(
        resume_buy_nft(50, &ServiceReply::Answer(NFTEvent::MinterAdded { minter_id: actor(1) })),
        Step::Abort { fault: Fault::UnexpectedReply }
    );
}

#[test]
fn fourth_default_mint_is_rejected() {
    let mut c = shop();
    for (index, token_id) in [(0u8, 30u64), (1, 31), (2, 32)] {
        assert_eq!(
            mint_default(&mut c, index, nft(token_id)),
            answer(RutzoEvent::Minted(TokenId::zero()), 0)
        );
    }
    let record = c.default_tokens_minted_by_id.get(&actor(BUYER)).unwrap();
    assert_eq!(record.nfts_minted, vec![0, 1, 2]);
    assert!(!record.quota_gate);
    assert!(!record.can_mint());
    let tag = c.transaction_id;
    assert_eq!(tag, 6);

    assert_eq!(
        mint_default(&mut c, 3, nft(33)),
        answer(RutzoEvent::MaxMintsReached(actor(BUYER)), 0)
    );
    let record = c.default_tokens_minted_by_id.get(&actor(BUYER)).unwrap();
    assert_eq!(record.nfts_minted, vec![0, 1, 2]);
    assert!(record.quota_gate);
    assert_eq!(c.transaction_id, tag);

    assert_eq!(
        mint_default(&mut c, 0, nft(34)),
        answer(RutzoEvent::MaxMintsReached(actor(BUYER)), 0)
    );
}

#[test]
fn default_mint_sends_mint_then_transfer() {
    let mut c = shop();
    let first = c.handle(actor(BUYER), actor(PROGRAM), 0, RutzoAction::MintCard { token_id: 1 });
    let task = Task::CardMint { user_id: actor(BUYER), token_id: 1 };
    assert_eq!(
        first,
        Step::Call {
            service: actor(SERVICE),
            action: NFTAction::Mint { transaction_id: 0, token_metadata: card("one") },
            task,
        }
    );
    let second = c.resume(task, &minted(nft(40)));
    let task = Task::CardTransfer { user_id: actor(BUYER), token_id: 1 };
    assert_eq!(
        second,
        Step::Call {
            service: actor(SERVICE),
            action: NFTAction::Transfer { transaction_id: 1, to: actor(BUYER), token_id: nft(40) },
            task,
        }
    );
    // Nothing counts against the quota before the token has arrived.
    assert!(c.default_tokens_minted_by_id.get(&actor(BUYER)).unwrap().nfts_minted.is_empty());
    assert_eq!(c.resume(task, &moved(BUYER, nft(40))), answer(RutzoEvent::Minted(TokenId::zero()), 0));
    assert_eq!(c.default_tokens_minted_by_id.get(&actor(BUYER)).unwrap().nfts_minted, vec![1]);
    assert_eq!(c.transaction_id, 2);
}

#[test]
fn default_mint_failures() {
    let mut c = shop();
    assert_eq!(
        c.mint_card(actor(99), 0),
        answer(RutzoEvent::AccountNotExists(actor(99)), 0)
    );
    assert_eq!(
        c.mint_card(actor(BUYER), 4),
        answer(RutzoEvent::NFTWithIdNotExists(4), 0)
    );
    assert_eq!(c.transaction_id, 0);
    assert_eq!(
        c.resume_mint_card(actor(BUYER), 0, &ServiceReply::Failed),
        Step::Abort { fault: Fault::ServiceUnavailable }
    );
    assert_eq!(
        c.resume_mint_card(
            actor(BUYER),
            0,
            &ServiceReply::Answer(NFTEvent::Owner { owner: actor(1), token_id: nft(1) })
        ),
        Step::Abort { fault: Fault::UnexpectedReply }
    );
    // A refused transfer ends the request; nothing is recorded as owed.
    assert_eq!(
        c.finish_mint_card(actor(BUYER), 0, &ServiceReply::Failed),
        Step::Abort { fault: Fault::TransferFailed }
    );
    assert!(c.pending_transfers.entries.is_empty());
    assert!(c.default_tokens_minted_by_id.get(&actor(BUYER)).unwrap().nfts_minted.is_empty());
}

#[test]
fn mint_for_sale_needs_owner_or_approved_minter() {
    let mut c = shop();
    assert_eq!(
        c.handle(
            actor(MINTER),
            actor(PROGRAM),
            70,
            RutzoAction::AddNftForSale { token_metadata: card("sale") }
        ),
        answer(RutzoEvent::UserIsNotApproved(actor(MINTER)), 0)
    );
    assert_eq!(c.transaction_id, 0);
    assert_eq!(c.add_minter(actor(OWNER), actor(MINTER)), RutzoEvent::Approved(actor(MINTER)));
    assert!(c.may_mint(&actor(MINTER)));
    assert!(c.may_mint(&actor(OWNER)));
    assert!(!c.may_mint(&actor(BUYER)));
    let step = c.handle(
        actor(MINTER),
        actor(PROGRAM),
        70,
        RutzoAction::AddNftForSale { token_metadata: card("sale") },
    );
    assert_eq!(
        step,
        Step::Call {
            service: actor(SERVICE),
            action: NFTAction::Mint { transaction_id: 0, token_metadata: card("sale") },
            task: Task::SaleMint { price: 70 },
        }
    );
    assert_eq!(
        c.resume(Task::SaleMint { price: 70 }, &minted(nft(8))),
        answer(RutzoEvent::Minted(nft(8)), 0)
    );
    assert_eq!(c.nfts_for_sale.entries, vec![(nft(8), 70)]);
    assert_eq!(c.transaction_id, 1);
}

#[test]
fn failed_mint_for_sale_lists_nothing() {
    let mut c = shop();
    assert_eq!(
        c.resume_mint_nft_to_sale(70, &ServiceReply::Failed),
        Step::Abort { fault: Fault::ServiceUnavailable }
    );
    assert_eq!(
        c.resume_mint_nft_to_sale(
            70,
            &ServiceReply::Answer(NFTEvent::IsApproved {
                to: actor(1),
                token_id: nft(1),
                approved: true
            })
        ),
        Step::Abort { fault: Fault::UnexpectedReply }
    );
    assert!(c.nfts_for_sale.entries.is_empty());
}

#[test]
fn more_than_three_counted_tokens_still_close_the_quota() {
    let mut c = shop();
    // Four mints of one user were under way together, and all four arrived.
    for index in 0..4u8 {
        assert_eq!(
            c.finish_mint_card(actor(BUYER), index, &moved(BUYER, nft(50 + index as u64))),
            answer(RutzoEvent::Minted(TokenId::zero()), 0)
        );
    }
    let record = c.default_tokens_minted_by_id.get(&actor(BUYER)).unwrap();
    assert_eq!(record.nfts_minted, vec![0, 1, 2, 3]);
    assert!(!record.quota_gate);
    assert!(!record.can_mint());
    let tag = c.transaction_id;
    assert_eq!(
        c.mint_card(actor(BUYER), 0),
        answer(RutzoEvent::MaxMintsReached(actor(BUYER)), 0)
    );
    assert_eq!(c.transaction_id, tag);
    assert!(c.default_tokens_minted_by_id.get(&actor(BUYER)).unwrap().quota_gate);
}
