use rutzo::registry::find_minter;
use rutzo::events::{RutzoAction, RutzoEvent, RutzoStateAction, Step, Task};
use rutzo::ids::{ActorId, TokenId};
use rutzo::nft::{read_approval, read_mint, read_transfer, Fault, NFTAction, NFTEvent, NFTTransfer, ServiceReply, TokenMetadata};
use rutzo::snapshot::{state, ContractState, RutzoStateEvent, UserDataState};
use rutzo::state::{Contract, InitContractData, UserDefaultMints, UserGameData};

const OWNER: u64 = 1;
const SERVICE: u64 = 2;
const PROGRAM: u64 = 3;

fn who(n: u64) -> ActorId {
    ActorId::new(n)
}

fn template(name: &str) -> TokenMetadata {
    TokenMetadata {
        name: name.to_string(),
        description: String::new(),
        media: String::new(),
        reference: String::new(),
    }
}

fn program(service: Option<u64>) -> Contract {
    Contract::new(
        who(OWNER),
        InitContractData { nft_contract: service.map(who), tokens_metadata_default: vec![] },
    )
}

fn said(event: RutzoEvent) -> Step {
    Step::Reply { event, value: 0 }
}

#[test]
fn new_program_is_empty() {
    let c = Contract::new(
        who(OWNER),
        InitContractData {
            nft_contract: Some(who(SERVICE)),
            tokens_metadata_default: vec![template("a"), template("b")],
        },
    );
    assert_eq!(c.owner, who(OWNER));
    assert_eq!(c.nft_contract, Some(who(SERVICE)));
    assert!(c.games.is_empty());
    assert!(c.games_waiting.is_empty());
    assert!(c.games_information_by_user.entries.is_empty());
    assert_eq!(c.game_id, 0);
    assert_eq!(
        c.tokens_metadata_default.clone().into_iter().collect::<Vec<_>>(),
        vec![(0, template("a")), (1, template("b"))]
    );
    assert!(c.nfts_for_sale.entries.is_empty());
    assert!(c.default_tokens_minted_by_id.entries.is_empty());
    assert!(c.approved_minters.is_empty());
    assert_eq!(c.transaction_id, 0);
    assert!(c.pending_transfers.entries.is_empty());
    let d = Contract::default();
    assert_eq!(d.owner, ActorId::zero());
    assert_eq!(d.nft_contract, None);
    assert!(d.tokens_metadata_default.is_empty());
}

#[test]
fn templates_beyond_256_replace_the_earlier_ones() {
    let templates: Vec<TokenMetadata> = (0..258).map(|i| template(&i.to_string())).collect();
    let c = Contract::new(
        who(OWNER),
        InitContractData { nft_contract: None, tokens_metadata_default: templates },
    );
    assert_eq!(c.tokens_metadata_default.len(), 256);
    assert_eq!(c.tokens_metadata_default.get(&0), Some(&template("256")));
    assert_eq!(c.tokens_metadata_default.get(&1), Some(&template("257")));
    assert_eq!(c.tokens_metadata_default.get(&2), Some(&template("2")));
    assert_eq!(c.tokens_metadata_default.get(&255), Some(&template("255")));
}

#[test]
fn registration_is_refused_the_second_time() {
    let mut c = program(Some(SERVICE));
    assert!(!c.is_register(&who(10)));
    assert_eq!(
        c.handle(who(10), who(PROGRAM), 0, RutzoAction::Register),
        said(RutzoEvent::RegisterSucces)
    );
    assert!(c.is_register(&who(10)));
    assert_eq!(
        c.games_information_by_user.get(&who(10)),
        Some(&UserGameData { current_game: None, past_games: vec![] })
    );
    assert_eq!(
        c.default_tokens_minted_by_id.get(&who(10)),
        Some(&UserDefaultMints { nfts_minted: vec![], quota_gate: false })
    );
    c.add_past_game_to_player(who(10), 4);
    assert_eq!(
        c.handle(who(10), who(PROGRAM), 0, RutzoAction::Register),
        said(RutzoEvent::AccountAlreadyExist(who(10)))
    );
    assert_eq!(c.games_information_by_user.get(&who(10)).unwrap().past_games, vec![4]);
    assert_eq!(c.games_information_by_user.entries.len(), 1);
}

#[test]
fn account_mutators_ignore_strangers() {
    let mut c = program(Some(SERVICE));
    assert_eq!(c.register_user(who(10)), RutzoEvent::RegisterSucces);
    c.set_player_in_current_game(who(10), 3);
    c.add_past_game_to_player(who(10), 1);
    c.add_past_game_to_player(who(10), 2);
    assert_eq!(
        c.games_information_by_user.get(&who(10)),
        Some(&UserGameData { current_game: Some(3), past_games: vec![1, 2] })
    );
    c.delete_player_current_game(who(10));
    assert_eq!(c.games_information_by_user.get(&who(10)).unwrap().current_game, None);
    c.set_player_in_current_game(who(11), 3);
    c.add_past_game_to_player(who(11), 1);
    c.delete_player_current_game(who(11));
    assert!(!c.is_register(&who(11)));
    assert_eq!(c.games_information_by_user.entries.len(), 1);
}

#[test]
fn only_the_owner_sets_the_service_address() {
    let mut c = program(None);
    assert_eq!(
        c.handle(who(9), who(PROGRAM), 0, RutzoAction::SetNFTAddress(who(SERVICE))),
        said(RutzoEvent::UserIsNotApproved(who(9)))
    );
    assert_eq!(c.nft_contract, None);
    assert_eq!(
        c.handle(who(OWNER), who(PROGRAM), 0, RutzoAction::SetNFTAddress(who(SERVICE))),
        said(RutzoEvent::NFTContractSaved)
    );
    assert_eq!(c.nft_contract, Some(who(SERVICE)));
}

#[test]
fn without_a_service_address_only_setting_one_is_taken_up() {
    let mut c = program(None);
    let actions = vec![
        RutzoAction::Register,
        RutzoAction::MintCard { token_id: 0 },
        RutzoAction::BuyNFT(TokenId::new(1)),
        RutzoAction::ApproveMinter(who(4)),
        RutzoAction::DelegateApprovedUser(who(4)),
        RutzoAction::AddNftForSale { token_metadata: template("x") },
        RutzoAction::PlayGame { token_id: TokenId::new(1), power: "nonsense".to_string() },
    ];
    for action in actions {
        assert_eq!(
            c.handle(who(OWNER), who(PROGRAM), 0, action),
            Step::Abort { fault: Fault::NoService }
        );
    }
    assert!(c.games_information_by_user.entries.is_empty());
    assert!(c.approved_minters.is_empty());
}

#[test]
fn declared_power_must_be_a_number() {
    let mut c = program(Some(SERVICE));
    assert_eq!(c.register_user(who(10)), RutzoEvent::RegisterSucces);
    for power in ["", "ten", "256", "-1"] {
        assert_eq!(
            c.handle(
                who(10),
                who(PROGRAM),
                0,
                RutzoAction::PlayGame { token_id: TokenId::new(7), power: power.to_string() }
            ),
            Step::Abort { fault: Fault::BadPower }
        );
    }
    assert_eq!(
        c.handle(
            who(10),
            who(PROGRAM),
            0,
            RutzoAction::PlayGame { token_id: TokenId::new(7), power: "+12".to_string() }
        ),
        Step::Call {
            service: who(SERVICE),
            action: NFTAction::IsApproved { to: who(PROGRAM), token_id: TokenId::new(7) },
            task: Task::Approval { user_id: who(10), token_id: TokenId::new(7), power: 12 },
        }
    );
}

#[test]
fn minters_are_approved_and_revoked_by_the_owner() {
    let mut c = program(Some(SERVICE));
    assert_eq!(
        c.handle(who(9), who(PROGRAM), 0, RutzoAction::ApproveMinter(who(20))),
        said(RutzoEvent::UserIsNotTheOwner(who(9)))
    );
    for m in [20, 21, 22, 21] {
        assert_eq!(
            c.handle(who(OWNER), who(PROGRAM), 0, RutzoAction::ApproveMinter(who(m))),
            said(RutzoEvent::Approved(who(m)))
        );
    }
    // A user who is approved already is not listed a second time.
    assert_eq!(c.approved_minters, vec![who(20), who(21), who(22)]);
    assert!(c.is_wf());
    assert_eq!(find_minter(&c.approved_minters, &who(21)), Some(1));
    assert_eq!(find_minter(&c.approved_minters, &who(23)), None);
    assert_eq!(
        c.handle(who(9), who(PROGRAM), 0, RutzoAction::DelegateApprovedUser(who(20))),
        said(RutzoEvent::UserIsNotTheOwner(who(9)))
    );
    assert_eq!(
        c.handle(who(OWNER), who(PROGRAM), 0, RutzoAction::DelegateApprovedUser(who(23))),
        said(RutzoEvent::UserApprovedNotExists(who(23)))
    );
    assert_eq!(
        c.handle(who(OWNER), who(PROGRAM), 0, RutzoAction::DelegateApprovedUser(who(20))),
        said(RutzoEvent::ApprovedUserDeleted(who(20)))
    );
    // The last entry has taken the place of the one that left.
    assert_eq!(c.approved_minters, vec![who(22), who(21)]);
    assert_eq!(c.remove_minter(who(OWNER), who(22)), RutzoEvent::ApprovedUserDeleted(who(22)));
    assert_eq!(c.approved_minters, vec![who(21)]);
    assert!(c.is_wf());
}

#[test]
fn one_revoke_ends_an_approval_given_twice() {
    let mut c = program(Some(SERVICE));
    assert_eq!(c.add_minter(who(OWNER), who(20)), RutzoEvent::Approved(who(20)));
    assert_eq!(c.add_minter(who(OWNER), who(20)), RutzoEvent::Approved(who(20)));
    assert_eq!(c.approved_minters, vec![who(20)]);
    assert!(c.may_mint(&who(20)));
    assert_eq!(c.remove_minter(who(OWNER), who(20)), RutzoEvent::ApprovedUserDeleted(who(20)));
    assert!(c.approved_minters.is_empty());
    assert!(!c.may_mint(&who(20)));
    assert_eq!(c.remove_minter(who(OWNER), who(20)), RutzoEvent::UserApprovedNotExists(who(20)));
}

#[test]
fn replies_are_read_by_their_shape() {
    let transfer = ServiceReply::Answer(NFTEvent::Transfer(NFTTransfer {
        from: who(1),
        to: who(2),
        token_id: TokenId::new(77),
    }));
    let verdict = |approved| {
        ServiceReply::Answer(NFTEvent::IsApproved { to: who(1), token_id: TokenId::new(77), approved })
    };
    let other = ServiceReply::Answer(NFTEvent::MinterAdded { minter_id: who(1) });

    assert_eq!(read_mint(&transfer), Ok(TokenId::new(77)));
    assert_eq!(read_mint(&other), Err(Fault::UnexpectedReply));
    assert_eq!(read_mint(&ServiceReply::Failed), Err(Fault::ServiceUnavailable));

    assert_eq!(read_transfer(&transfer), Ok(()));
    assert_eq!(read_transfer(&verdict(true)), Err(Fault::UnexpectedReply));
    assert_eq!(read_transfer(&ServiceReply::Failed), Err(Fault::TransferFailed));

    assert_eq!(read_approval(&verdict(true)), Ok(true));
    assert_eq!(read_approval(&verdict(false)), Ok(false));
    assert_eq!(read_approval(&transfer), Err(Fault::UnexpectedReply));
    assert_eq!(read_approval(&ServiceReply::Failed), Ok(false));
}

#[test]
fn template_copy_is_equal() {
    let t = TokenMetadata {
        name: "Chinampa".to_string(),
        description: "Water".to_string(),
        media: "https://example.org/chinampa.jpg".to_string(),
        reference: "25".to_string(),
    };
    assert_eq!(t.duplicate(), t);
}

#[test]
fn questions_are_answered() {
    let mut c = program(Some(SERVICE));
    for u in [30, 10, 20] {
        assert_eq!(c.register_user(who(u)), RutzoEvent::RegisterSucces);
    }
    c.set_player_in_current_game(who(10), 0);
    c.add_past_game_to_player(who(20), 5);
    c.games_waiting.push(0);
    let before = format!("{:?}", c);
    assert_eq!(state(&c, who(9), RutzoStateAction::GetId), RutzoStateEvent::Id(who(9)));
    assert_eq!(
        state(&c, who(9), RutzoStateAction::Story),
        RutzoStateEvent::StoryEvent("Story".to_string())
    );
    let shown = match state(&c, who(9), RutzoStateAction::All) {
        RutzoStateEvent::AllEvent(shown) => shown,
        other => panic!("not the whole state: {:?}", other),
    };
    // The state is still there, as it was.
    assert_eq!(format!("{:?}", c), before);
    assert_eq!(shown, ContractState::of(&c));
    assert_eq!(shown, ContractState::from(c));
    assert_eq!(shown.owner, who(OWNER));
    assert_eq!(shown.nft_contract, Some(who(SERVICE)));
    assert_eq!(shown.games_waiting, vec![0u64]);
    assert_eq!(
        shown.games_information_by_user,
        vec![
            (who(10), UserDataState { current_game: Some(0), past_games: vec![] }),
            (who(20), UserDataState { current_game: None, past_games: vec![5] }),
            (who(30), UserDataState { current_game: None, past_games: vec![] }),
        ]
    );
    assert_eq!(shown.default_tokens_minted_by_id.len(), 3);
    assert_eq!(shown.default_tokens_minted_by_id[0].0, who(10));
    assert_eq!(shown.game_id, 0);
    assert_eq!(shown.transaction_id, 0);
}

#[test]
fn templates_and_listings_are_shown_in_key_order() {
    let templates: Vec<TokenMetadata> = (0..258).map(|i| template(&i.to_string())).collect();
    let mut c = Contract::new(
        who(OWNER),
        InitContractData { nft_contract: Some(who(SERVICE)), tokens_metadata_default: templates },
    );
    for (token, price) in [(9u64, 90u128), (3, 30), (5, 50)] {
        assert_eq!(
            c.resume(
                Task::SaleMint { price },
                &ServiceReply::Answer(NFTEvent::Transfer(NFTTransfer {
                    from: ActorId::zero(),
                    to: who(PROGRAM),
                    token_id: TokenId::new(token),
                }))
            ),
            said(RutzoEvent::Minted(TokenId::new(token)))
        );
    }
    let shown = ContractState::of(&c);
    assert_eq!(shown.tokens_metadata_default.len(), 256);
    assert_eq!(shown.tokens_metadata_default[0], (0, template("256")));
    assert_eq!(shown.tokens_metadata_default[1], (1, template("257")));
    assert_eq!(shown.tokens_metadata_default[2], (2, template("2")));
    assert_eq!(shown.tokens_metadata_default[255], (255, template("255")));
    assert_eq!(
        shown.nfts_for_sale,
        vec![(TokenId::new(3), 30), (TokenId::new(5), 50), (TokenId::new(9), 90)]
    );
    assert_eq!(c.nfts_for_sale.entries, shown.nfts_for_sale);
}

#[test]
fn account_is_shown_with_wide_indices() {
    let shown = UserDataState::from(UserGameData { current_game: Some(7), past_games: vec![1, 2, 3] });
    assert_eq!(shown, UserDataState { current_game: Some(7), past_games: vec![1, 2, 3] });
    let idle = UserDataState::from(UserGameData::default());
    assert_eq!(idle, UserDataState { current_game: None, past_games: vec![] });
}
