//! The state as it is shown to a client: every table laid out as a list of
//! pairs in ascending order of the keys, every index as a 64-bit number.
//! Showing the state leaves it where it is.

use vstd::prelude::*;
use std::collections::BTreeMap;
use crate::events::{MatchInformation, RutzoStateAction};
use crate::ids::{ActorId, Key, NFTPrice, NftContractId, TokenId, TransactionId, UserId};
use crate::nft::TokenMetadata;
use crate::state::{Account, Contract, Ledger, Mints, UserDefaultMints, UserGameData, views};
use crate::table::{ascending, lists, Table};

verus! {

/// A user's place in the game, as shown to a client.
#[derive(Clone, Debug, PartialEq, Eq)]
pub struct UserDataState {
    pub current_game: Option<u64>,
    pub past_games: Vec<u64>,
}

impl UserDataState {
    /// Whether this is `account` with each match index widened to 64 bits.
    pub open spec fn shows(&self, account: Account) -> bool {
        &&& match account.current_game {
            Some(g) => self.current_game == Some(g as u64),
            None => self.current_game is None,
        }
        &&& widened(self.past_games@, account.past_games)
    }

    /// The account `value` as shown to a client.
    pub fn of(value: &UserGameData) -> (r: Self)
        ensures
            r.shows(value@),
    {
        let current_game = match value.current_game {
            Some(game_id) => Some(game_id as u64),
            None => None,
        };
        UserDataState { current_game, past_games: widen(&value.past_games) }
    }

    /// The account `value` as shown to a client.
    pub fn from(value: UserGameData) -> (r: Self)
        ensures
            r.shows(value@),
    {
        UserDataState::of(&value)
    }
}

/// Whether `wide` lists the indices of `narrow`, in order, as 64-bit
/// numbers.
pub open spec fn widened(wide: Seq<u64>, narrow: Seq<usize>) -> bool {
    &&& wide.len() == narrow.len()
    &&& forall|i: int| 0 <= i < narrow.len() ==> wide[i] == narrow[i] as u64
}

/// The indices in `list` as 64-bit numbers.
pub fn widen(list: &Vec<usize>) -> (r: Vec<u64>)
    ensures
        widened(r@, list@),
{
    let mut wide: Vec<u64> = Vec::new();
    let mut i: usize = 0;
    while i < list.len()
        invariant
            i <= list@.len(),
            wide@.len() == i,
            forall|j: int| 0 <= j < i ==> wide@[j] == list@[j] as u64,
        decreases list@.len() - i,
    {
        wide.push(list[i] as u64);
        i += 1;
    }
    wide
}

/// A list with the same items as `list`.
pub fn copy_list<T: Copy>(list: &Vec<T>) -> (r: Vec<T>)
    ensures
        r@ == list@,
{
    let mut copy: Vec<T> = Vec::new();
    let mut i: usize = 0;
    while i < list.len()
        invariant
            i <= list@.len(),
            copy@ == list@.take(i as int),
        decreases list@.len() - i,
    {
        copy.push(list[i]);
        assert(copy@ =~= list@.take(i + 1));
        i += 1;
    }
    assert(list@.take(list@.len() as int) =~= list@);
    copy
}

/// Whether `pairs` lists the accounts `map`: in ascending order of the
/// users, every listed user has the account shown beside them, and every
/// user with an account is listed.
pub open spec fn lists_accounts(pairs: Seq<(UserId, UserDataState)>, map: Map<UserId, Account>) -> bool {
    &&& ascending(pairs)
    &&& forall|i: int|
        0 <= i < pairs.len() ==> map.contains_key((#[trigger] pairs[i]).0) && pairs[i].1.shows(
            map[pairs[i].0],
        )
    &&& forall|k: UserId| #[trigger]
        map.contains_key(k) ==> exists|i: int| 0 <= i < pairs.len() && (#[trigger] pairs[i]).0 == k
}

/// Whether `pairs` lists the mint records `map`: in ascending order of the
/// users, every listed user has the record beside them, and every user with
/// a record is listed.
pub open spec fn lists_mints(pairs: Seq<(UserId, UserDefaultMints)>, map: Map<UserId, Mints>) -> bool {
    &&& ascending(pairs)
    &&& forall|i: int|
        0 <= i < pairs.len() ==> map.contains_key((#[trigger] pairs[i]).0) && pairs[i].1@
            == map[pairs[i].0]
    &&& forall|k: UserId| #[trigger]
        map.contains_key(k) ==> exists|i: int| 0 <= i < pairs.len() && (#[trigger] pairs[i]).0 == k
}

/// The accounts of `table`, each as shown to a client.
fn shown_accounts(table: &Table<UserId, UserGameData>) -> (r: Vec<(UserId, UserDataState)>)
    requires
        table.wf(),
    ensures
        lists_accounts(r@, views(table@)),
{
    let mut shown: Vec<(UserId, UserDataState)> = Vec::new();
    let mut i: usize = 0;
    while i < table.entries.len()
        invariant
            i <= table.entries@.len(),
            shown@.len() == i,
            forall|j: int|
                0 <= j < i ==> (#[trigger] shown@[j]).0 == table.entries@[j].0 && shown@[j].1.shows(
                    table.entries@[j].1@,
                ),
        decreases table.entries@.len() - i,
    {
        let account = UserDataState::of(&table.entries[i].1);
        shown.push((table.entries[i].0, account));
        i += 1;
    }
    proof {
        table.lemma_lists();
        assert forall|k: UserId| #[trigger] views(table@).contains_key(k) implies exists|j: int|
            0 <= j < shown@.len() && (#[trigger] shown@[j]).0 == k by {
            assert(table@.contains_key(k));
            let j = choose|j: int| 0 <= j < table.entries@.len() && (
            #[trigger] table.entries@[j]).0 == k;
            assert(shown@[j].0 == k);
        }
    }
    shown
}

/// The mint records of `table`, copied.
fn shown_mints(table: &Table<UserId, UserDefaultMints>) -> (r: Vec<(UserId, UserDefaultMints)>)
    requires
        table.wf(),
    ensures
        lists_mints(r@, views(table@)),
{
    let mut shown: Vec<(UserId, UserDefaultMints)> = Vec::new();
    let mut i: usize = 0;
    while i < table.entries.len()
        invariant
            i <= table.entries@.len(),
            shown@.len() == i,
            forall|j: int|
                0 <= j < i ==> (#[trigger] shown@[j]).0 == table.entries@[j].0 && shown@[j].1@
                    == table.entries@[j].1@,
        decreases table.entries@.len() - i,
    {
        let record = UserDefaultMints {
            nfts_minted: copy_list(&table.entries[i].1.nfts_minted),
            quota_gate: table.entries[i].1.quota_gate,
        };
        shown.push((table.entries[i].0, record));
        i += 1;
    }
    proof {
        table.lemma_lists();
        assert forall|k: UserId| #[trigger] views(table@).contains_key(k) implies exists|j: int|
            0 <= j < shown@.len() && (#[trigger] shown@[j]).0 == k by {
            assert(table@.contains_key(k));
            let j = choose|j: int| 0 <= j < table.entries@.len() && (
            #[trigger] table.entries@[j]).0 == k;
            assert(shown@[j].0 == k);
        }
    }
    shown
}

/// The pairs of `table`, copied.
fn shown_pairs<K: Key, V: Copy>(table: &Table<K, V>) -> (r: Vec<(K, V)>)
    requires
        table.wf(),
    ensures
        lists(r@, table@),
{
    copy_list(&table.entries)
}

/// The templates of `map` as a list, found by asking for each key in turn.
fn shown_templates(map: &BTreeMap<u8, TokenMetadata>) -> (r: Vec<(u8, TokenMetadata)>)
    ensures
        lists(r@, map@),
{
    let mut shown: Vec<(u8, TokenMetadata)> = Vec::new();
    let mut next: usize = 0;
    while next < 256
        invariant
            next <= 256,
            ascending(shown@),
            forall|i: int|
                0 <= i < shown@.len() ==> (#[trigger] shown@[i]).0 < next && map@.contains_key(
                    shown@[i].0,
                ) && map@[shown@[i].0] == shown@[i].1,
            forall|k: u8|
                k < next && #[trigger] map@.contains_key(k) ==> exists|i: int|
                    0 <= i < shown@.len() && (#[trigger] shown@[i]).0 == k,
        decreases 256 - next,
    {
        let key: u8 = next as u8;
        let ghost before = shown@;
        match map.get(&key) {
            Some(template) => {
                shown.push((key, template.duplicate()));
                proof {
                    assert forall|k: u8|
                        k < next + 1 && #[trigger] map@.contains_key(k) implies exists|i: int|
                        0 <= i < shown@.len() && (#[trigger] shown@[i]).0 == k by {
                        if k < next {
                            let i = choose|i: int|
                                0 <= i < before.len() && (#[trigger] before[i]).0 == k;
                            assert(shown@[i].0 == k);
                        } else {
                            assert(shown@[before.len() as int].0 == k);
                        }
                    }
                }
            },
            None => {},
        }
        next += 1;
    }
    shown
}

/// The whole state, as shown to a client.
#[derive(Clone, Debug, PartialEq, Eq)]
pub struct ContractState {
    pub owner: ActorId,
    pub nft_contract: Option<NftContractId>,
    pub games: Vec<MatchInformation>,
    pub games_waiting: Vec<u64>,
    pub games_information_by_user: Vec<(UserId, UserDataState)>,
    pub game_id: u64,
    pub tokens_metadata_default: Vec<(u8, TokenMetadata)>,
    pub nfts_for_sale: Vec<(TokenId, NFTPrice)>,
    pub default_tokens_minted_by_id: Vec<(UserId, UserDefaultMints)>,
    pub approved_minters: Vec<UserId>,
    pub transaction_id: TransactionId,
    pub pending_transfers: Vec<(UserId, (UserId, TokenId))>,
}

impl ContractState {
    /// Whether this shows the books `ledger`: the plain fields as they are,
    /// each index as a 64-bit number, and each map as the list of its pairs
    /// in ascending order of the keys.
    pub open spec fn shows(&self, ledger: Ledger) -> bool {
        &&& self.owner == ledger.owner
        &&& self.nft_contract == ledger.nft_contract
        &&& self.games@ == ledger.games
        &&& widened(self.games_waiting@, ledger.games_waiting)
        &&& lists_accounts(self.games_information_by_user@, ledger.users)
        &&& self.game_id == ledger.game_id as u64
        &&& lists(self.tokens_metadata_default@, ledger.templates)
        &&& lists(self.nfts_for_sale@, ledger.for_sale)
        &&& lists_mints(self.default_tokens_minted_by_id@, ledger.mints)
        &&& self.approved_minters@ == ledger.approved_minters
        &&& self.transaction_id == ledger.transaction_id
        &&& lists(self.pending_transfers@, ledger.pending_transfers)
    }

    /// The state `contract` as shown to a client; the state stays as it is.
    pub fn of(contract: &Contract) -> (r: Self)
        requires
            contract.tables_wf(),
        ensures
            r.shows(contract@),
    {
        ContractState {
            owner: contract.owner,
            nft_contract: contract.nft_contract,
            games: copy_list(&contract.games),
            games_waiting: widen(&contract.games_waiting),
            games_information_by_user: shown_accounts(&contract.games_information_by_user),
            game_id: contract.game_id as u64,
            tokens_metadata_default: shown_templates(&contract.tokens_metadata_default),
            nfts_for_sale: shown_pairs(&contract.nfts_for_sale),
            default_tokens_minted_by_id: shown_mints(&contract.default_tokens_minted_by_id),
            approved_minters: copy_list(&contract.approved_minters),
            transaction_id: contract.transaction_id,
            pending_transfers: shown_pairs(&contract.pending_transfers),
        }
    }

    /// The state `value` as shown to a client.
    pub fn from(value: Contract) -> (r: Self)
        requires
            value.tables_wf(),
        ensures
            r.shows(value@),
    {
        ContractState::of(&value)
    }
}

/// The answer to a read-only question.
#[derive(Clone, Debug, PartialEq, Eq)]
pub enum RutzoStateEvent {
    Id(UserId),
    StoryEvent(String),
    AllEvent(ContractState),
}

/// Answers the read-only question `action` that `source` asked about
/// `contract`: their own identity, the story, or the whole state. The state
/// is only read.
pub fn state(contract: &Contract, source: ActorId, action: RutzoStateAction) -> (r: RutzoStateEvent)
    requires
        contract.tables_wf(),
    ensures
        match action {
            RutzoStateAction::GetId => r == RutzoStateEvent::Id(source),
            RutzoStateAction::Story => r is StoryEvent && r->StoryEvent_0@ == "Story"@,
            RutzoStateAction::All => r is AllEvent && r->AllEvent_0.shows(contract@),
        },
{
    match action {
        RutzoStateAction::GetId => RutzoStateEvent::Id(source),
        RutzoStateAction::Story => RutzoStateEvent::StoryEvent("Story".to_owned()),
        RutzoStateAction::All => RutzoStateEvent::AllEvent(ContractState::of(contract)),
    }
}

} // verus!
