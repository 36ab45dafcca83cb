use rutzo::events::{MatchInformation, MatchState, RutzoEvent, UserData};
use rutzo::ids::{ActorId, TokenId};
use rutzo::state::{Contract, InitContractData, UserDefaultMints, UserGameData};
use rutzo::table::Table;

fn user(n: u64) -> ActorId {
    ActorId::new(n)
}

fn stake(n: u64, power: u8) -> UserData {
    UserData { user_id: user(n), chosen_nft: TokenId::new(n), power }
}

fn waiting(n: u64) -> MatchInformation {
    MatchInformation { user_1: stake(n, 1), user_2: None, match_state: MatchState::InProgress }
}

/// Two accounts; the first waits in match 0, the second has played nothing.
fn sound() -> Contract {
    let mut c = Contract::new(
        user(1),
        InitContractData { nft_contract: Some(user(2)), tokens_metadata_default: vec![] },
    );
    assert_eq!(c.register_user(user(10)), RutzoEvent::RegisterSucces);
    assert_eq!(c.register_user(user(11)), RutzoEvent::RegisterSucces);
    c.games.push(waiting(10));
    c.games_waiting.push(0);
    c.game_id = 1;
    c.set_player_in_current_game(user(10), 0);
    c
}

#[test]
fn sound_states_pass() {
    assert!(Contract::default().is_wf());
    assert!(sound().is_wf());
}

#[test]
fn table_out_of_order_is_caught() {
    let mut t: Table<u8, u8> = Table::new();
    assert!(t.is_wf());
    t.entries = vec![(1, 0)];
    assert!(t.is_wf());
    t.entries = vec![(1, 0), (2, 0), (5, 0)];
    assert!(t.is_wf());
    t.entries = vec![(1, 0), (5, 0), (2, 0)];
    assert!(!t.is_wf());
    t.entries = vec![(1, 0), (1, 0)];
    assert!(!t.is_wf());
    let mut c = sound();
    c.nfts_for_sale.entries = vec![(TokenId::new(2), 1), (TokenId::new(1), 1)];
    assert!(!c.is_wf());
}

#[test]
fn keys_within_compares_key_sets() {
    let mut a: Table<u8, u8> = Table::new();
    let mut b: Table<u8, char> = Table::new();
    assert!(a.keys_within(&b));
    a.insert(3, 0);
    assert!(!a.keys_within(&b));
    assert!(b.keys_within(&a));
    b.insert(3, 'x');
    b.insert(4, 'y');
    assert!(a.keys_within(&b));
    assert!(!b.keys_within(&a));
}

#[test]
fn account_without_mint_record_is_caught() {
    let mut c = sound();
    c.default_tokens_minted_by_id.remove(&user(11));
    assert!(!c.is_wf());
    let mut c = sound();
    c.default_tokens_minted_by_id.insert(user(12), UserDefaultMints::default());
    assert!(!c.is_wf());
}

#[test]
fn wrong_next_index_is_caught() {
    let mut c = sound();
    c.game_id = 2;
    assert!(!c.is_wf());
}

#[test]
fn broken_queue_is_caught() {
    let mut c = sound();
    c.games_waiting = vec![1];
    assert!(!c.is_wf());
    let mut c = sound();
    c.games_waiting = vec![0, 0];
    assert!(!c.is_wf());
    // A finished match must not wait.
    let mut c = sound();
    c.games[0].match_state = MatchState::Finished { winner: user(10), loser: user(11) };
    assert!(!c.is_wf());
    // The player who waits must have the match as their current one.
    let mut c = sound();
    c.games_waiting = vec![];
    c.delete_player_current_game(user(10));
    assert!(c.is_wf());
    c.games_waiting = vec![0];
    assert!(!c.is_wf());
    // ... and must have an account.
    let mut c = sound();
    c.games.push(waiting(99));
    c.game_id = 2;
    assert!(c.is_wf());
    c.games_waiting.push(1);
    assert!(!c.is_wf());
}

#[test]
fn match_in_progress_with_two_players_is_caught() {
    let mut c = sound();
    c.games[0].user_2 = Some(stake(11, 3));
    assert!(!c.is_wf());
}

#[test]
fn wrong_current_match_is_caught() {
    // A match that does not exist.
    let mut c = sound();
    c.set_player_in_current_game(user(11), 5);
    assert!(!c.is_wf());
    // A match in which the user does not play.
    let mut c = sound();
    c.set_player_in_current_game(user(11), 0);
    assert!(!c.is_wf());
    // A match that is over.
    let mut c = sound();
    c.games.push(MatchInformation {
        user_1: stake(11, 1),
        user_2: Some(stake(10, 2)),
        match_state: MatchState::Finished { winner: user(10), loser: user(11) },
    });
    c.game_id = 2;
    assert!(c.is_wf());
    c.set_player_in_current_game(user(11), 1);
    assert!(!c.is_wf());
    assert_eq!(
        c.games_information_by_user.get(&user(11)),
        Some(&UserGameData { current_game: Some(1), past_games: vec![] })
    );
}

#[test]
fn minter_listed_twice_is_caught() {
    let mut c = sound();
    c.approved_minters = vec![user(20), user(21)];
    assert!(c.is_wf());
    c.approved_minters = vec![user(20), user(21), user(20)];
    assert!(!c.is_wf());
}
