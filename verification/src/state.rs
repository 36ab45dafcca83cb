//! The program's books: accounts, matches, the waiting queue, listings,
//! owed rewards and the transaction counter, with the mathematical model
//! that the contracts speak of.

use vstd::prelude::*;
use std::collections::BTreeMap;
use crate::events::MatchInformation;
use crate::ids::{ActorId, GameId, NFTPrice, NftContractId, TokenId, TransactionId, UserId};
use crate::nft::TokenMetadata;
use crate::table::Table;

verus! {

/// A user's place in the game: the match being played and those played.
#[derive(Clone, Debug, PartialEq, Eq)]
pub struct UserGameData {
    pub current_game: Option<GameId>,
    pub past_games: Vec<GameId>,
}

/// The model of a [`UserGameData`].
pub struct Account {
    pub current_game: Option<GameId>,
    pub past_games: Seq<GameId>,
}

impl View for UserGameData {
    type V = Account;

    open spec fn view(&self) -> Account {
        Account { current_game: self.current_game, past_games: self.past_games@ }
    }
}

impl Default for UserGameData {
    /// The account of a user who has not played yet.
    fn default() -> (r: Self)
        ensures
            r@ == Account::fresh(),
    {
        UserGameData { current_game: None, past_games: Vec::new() }
    }
}

impl Account {
    /// The account of a user who has not played yet.
    pub open spec fn fresh() -> Account {
        Account { current_game: None, past_games: Seq::empty() }
    }
}

/// Which default tokens a user has minted, and whether their quota was
/// marked as reached.
#[derive(Clone, Debug, PartialEq, Eq)]
pub struct UserDefaultMints {
    pub nfts_minted: Vec<u8>,
    pub quota_gate: bool,
}

/// The model of a [`UserDefaultMints`].
pub struct Mints {
    pub nfts_minted: Seq<u8>,
    pub quota_gate: bool,
}

impl View for UserDefaultMints {
    type V = Mints;

    open spec fn view(&self) -> Mints {
        Mints { nfts_minted: self.nfts_minted@, quota_gate: self.quota_gate }
    }
}

impl Default for UserDefaultMints {
    /// The record of a user who has minted nothing.
    fn default() -> (r: Self)
        ensures
            r@ == Mints::fresh(),
    {
        UserDefaultMints { nfts_minted: Vec::new(), quota_gate: false }
    }
}

impl UserDefaultMints {
    /// Whether a further default mint would still be let through.
    pub fn can_mint(&self) -> (r: bool)
        ensures
            r == !self@.exhausted(),
    {
        !self.quota_gate && self.nfts_minted.len() < 3
    }
}

impl Mints {
    /// The record of a user who has minted nothing.
    pub open spec fn fresh() -> Mints {
        Mints { nfts_minted: Seq::empty(), quota_gate: false }
    }

    /// Whether the next default mint is refused: the quota was marked as
    /// reached, or three tokens or more have been minted and this attempt
    /// marks it.
    pub open spec fn exhausted(self) -> bool {
        self.quota_gate || self.nfts_minted.len() >= 3
    }
}

/// What a new program is set up with.
#[derive(Clone, Debug, PartialEq, Eq)]
pub struct InitContractData {
    pub nft_contract: Option<ActorId>,
    pub tokens_metadata_default: Vec<TokenMetadata>,
}

/// The whole state of the program.
#[derive(Clone, Debug)]
pub struct Contract {
    pub owner: ActorId,
    pub nft_contract: Option<NftContractId>,
    pub games: Vec<MatchInformation>,
    pub games_waiting: Vec<GameId>,
    pub games_information_by_user: Table<UserId, UserGameData>,
    pub game_id: GameId,
    pub tokens_metadata_default: BTreeMap<u8, TokenMetadata>,
    pub nfts_for_sale: Table<TokenId, NFTPrice>,
    pub default_tokens_minted_by_id: Table<UserId, UserDefaultMints>,
    pub approved_minters: Vec<UserId>,
    pub transaction_id: TransactionId,
    pub pending_transfers: Table<UserId, (UserId, TokenId)>,
}

/// The model of a [`Contract`]: sequences and finite maps of plain values.
pub struct Ledger {
    pub owner: ActorId,
    pub nft_contract: Option<NftContractId>,
    pub games: Seq<MatchInformation>,
    pub games_waiting: Seq<GameId>,
    pub users: Map<UserId, Account>,
    pub game_id: GameId,
    pub templates: Map<u8, TokenMetadata>,
    pub for_sale: Map<TokenId, NFTPrice>,
    pub mints: Map<UserId, Mints>,
    pub approved_minters: Seq<UserId>,
    pub transaction_id: TransactionId,
    pub pending_transfers: Map<UserId, (UserId, TokenId)>,
}

/// The map whose values are the views of the values of `m`.
pub open spec fn views<K, V: View>(m: Map<K, V>) -> Map<K, V::V> {
    Map::new(|k: K| m.contains_key(k), |k: K| m[k]@)
}

/// Storing a value stores its view.
pub proof fn lemma_views_insert<K, V: View>(m: Map<K, V>, k: K, v: V)
    ensures
        views(m.insert(k, v)) == views(m).insert(k, v@),
{
}

impl View for Contract {
    type V = Ledger;

    open spec fn view(&self) -> Ledger {
        Ledger {
            owner: self.owner,
            nft_contract: self.nft_contract,
            games: self.games@,
            games_waiting: self.games_waiting@,
            users: views(self.games_information_by_user@),
            game_id: self.game_id,
            templates: self.tokens_metadata_default@,
            for_sale: self.nfts_for_sale@,
            mints: views(self.default_tokens_minted_by_id@),
            approved_minters: self.approved_minters@,
            transaction_id: self.transaction_id,
            pending_transfers: self.pending_transfers@,
        }
    }
}

impl Ledger {
    /// Whether `user` has an account.
    pub open spec fn is_register(self, user: UserId) -> bool {
        self.users.contains_key(user)
    }

    /// The books are consistent:
    /// every account has a mint record and the other way round;
    /// the next match index is the number of matches;
    /// the waiting queue lists open matches, none twice, and the player who
    /// waits in one has an account whose current match it is;
    /// a match with a second player is finished;
    /// a user's current match is in progress with that user in it;
    /// and nobody stands twice among the approved minters.
    pub open spec fn wf(self) -> bool {
        &&& self.records_paired()
        &&& self.game_id == self.games.len()
        &&& self.queue_open()
        &&& self.queue_distinct()
        &&& self.running_unpaired()
        &&& self.currents_ok()
        &&& crate::registry::distinct(self.approved_minters)
    }

    /// Every account has a mint record and the other way round.
    pub open spec fn records_paired(self) -> bool {
        forall|u: UserId| self.users.contains_key(u) <==> self.mints.contains_key(u)
    }

    /// The waiting queue lists matches that exist and wait for their second
    /// player, and the first player of each has it as their current match.
    pub open spec fn queue_open(self) -> bool {
        forall|i: int|
            0 <= i < self.games_waiting.len() ==> {
                &&& (#[trigger] self.games_waiting[i]) < self.games.len()
                &&& self.games[self.games_waiting[i] as int].is_open()
                &&& self.waits_in(self.games_waiting[i])
            }
    }

    /// No match is queued twice.
    pub open spec fn queue_distinct(self) -> bool {
        forall|i: int, j: int|
            0 <= i < j < self.games_waiting.len() ==> (#[trigger] self.games_waiting[i]) != (
            #[trigger] self.games_waiting[j])
    }

    /// A match in progress has no second player yet.
    pub open spec fn running_unpaired(self) -> bool {
        forall|g: int|
            0 <= g < self.games.len() && (#[trigger] self.games[g]).match_state is InProgress
                ==> self.games[g].user_2 is None
    }

    /// Each user is in no match, or in one that is in progress and lists
    /// them.
    pub open spec fn currents_ok(self) -> bool {
        forall|u: UserId| #[trigger] self.users.contains_key(u) ==> self.current_match_ok(u)
    }

    /// The first player of match `g` has an account whose current match is
    /// `g`.
    pub open spec fn waits_in(self, g: GameId) -> bool {
        let first = self.games[g as int].user_1.user_id;
        self.users.contains_key(first) && self.users[first].current_game == Some(g)
    }

    /// `user` is in no match, or in one that is in progress and lists them.
    pub open spec fn current_match_ok(self, user: UserId) -> bool {
        match self.users[user].current_game {
            None => true,
            Some(g) => {
                &&& g < self.games.len()
                &&& self.games[g as int].match_state is InProgress
                &&& self.games[g as int].has_player(user)
            },
        }
    }
}

/// The templates a program starts with: each is stored under its position
/// reduced modulo 256, a later one replacing an earlier one of the same key.
pub open spec fn seeded(templates: Seq<TokenMetadata>) -> Map<u8, TokenMetadata>
    decreases templates.len(),
{
    if templates.len() == 0 {
        Map::empty()
    } else {
        seeded(templates.drop_last()).insert(
            ((templates.len() - 1) % 256) as u8,
            templates.last(),
        )
    }
}

impl Default for Contract {
    /// The state of a program without owner, service or templates.
    fn default() -> (c: Self)
        ensures
            c.wf(),
            c@ == (Ledger {
                owner: ActorId { hi: 0, lo: 0 },
                nft_contract: None,
                games: Seq::empty(),
                games_waiting: Seq::empty(),
                users: Map::empty(),
                game_id: 0,
                templates: Map::empty(),
                for_sale: Map::empty(),
                mints: Map::empty(),
                approved_minters: Seq::empty(),
                transaction_id: 0,
                pending_transfers: Map::empty(),
            }),
    {
        Contract::new(
            ActorId::zero(),
            InitContractData { nft_contract: None, tokens_metadata_default: Vec::new() },
        )
    }
}

impl Contract {
    /// Every table holds its keys in ascending order, each once.
    pub open spec fn tables_wf(&self) -> bool {
        &&& self.games_information_by_user.wf()
        &&& self.nfts_for_sale.wf()
        &&& self.default_tokens_minted_by_id.wf()
        &&& self.pending_transfers.wf()
    }

    /// The tables are in order, and the books they denote are consistent.
    pub open spec fn wf(&self) -> bool {
        &&& self.tables_wf()
        &&& self@.wf()
    }

    /// The state of a program that `owner` has just set up: no accounts, no
    /// matches, nothing listed or owed, the counter at zero.
    pub fn new(owner: ActorId, config: InitContractData) -> (c: Self)
        ensures
            c.wf(),
            c@ == (Ledger {
                owner,
                nft_contract: config.nft_contract,
                games: Seq::empty(),
                games_waiting: Seq::empty(),
                users: Map::empty(),
                game_id: 0,
                templates: seeded(config.tokens_metadata_default@),
                for_sale: Map::empty(),
                mints: Map::empty(),
                approved_minters: Seq::empty(),
                transaction_id: 0,
                pending_transfers: Map::empty(),
            }),
    {
        let mut templates: BTreeMap<u8, TokenMetadata> = BTreeMap::new();
        let mut i: usize = 0;
        while i < config.tokens_metadata_default.len()
            invariant
                i <= config.tokens_metadata_default@.len(),
                templates@ == seeded(config.tokens_metadata_default@.take(i as int)),
            decreases config.tokens_metadata_default@.len() - i,
        {
            let key: u8 = (i % 256) as u8;
            templates.insert(key, config.tokens_metadata_default[i].duplicate());
            proof {
                let all = config.tokens_metadata_default@;
                assert(all.take(i + 1).drop_last() =~= all.take(i as int));
            }
            i += 1;
        }
        proof {
            let all = config.tokens_metadata_default@;
            assert(all.take(all.len() as int) =~= all);
        }
        let c = Contract {
            owner,
            nft_contract: config.nft_contract,
            games: Vec::new(),
            games_waiting: Vec::new(),
            games_information_by_user: Table::new(),
            game_id: 0,
            tokens_metadata_default: templates,
            nfts_for_sale: Table::new(),
            default_tokens_minted_by_id: Table::new(),
            approved_minters: Vec::new(),
            transaction_id: 0,
            pending_transfers: Table::new(),
        };
        proof {
            assert(c@.users =~= Map::empty());
            assert(c@.mints =~= Map::empty());
        }
        c
    }
}

} // verus!
