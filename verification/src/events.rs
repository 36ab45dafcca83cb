//! What callers ask of the game and what it answers, and the record kept of
//! each match.

use vstd::prelude::*;
use crate::ids::{ActorId, MatchId, NFTPrice, TokenId, UserId};
use crate::nft::{NFTAction, TokenMetadata};

verus! {

/// A read-only question about the program.
#[derive(Clone, Copy, PartialEq, Eq, Structural, Debug)]
pub enum RutzoStateAction {
    GetId,
    Story,
    All,
}

/// A request that may change the program's state.
#[derive(Clone, PartialEq, Eq, Debug)]
pub enum RutzoAction {
    PlayGame { token_id: TokenId, power: String },
    MintCard { token_id: u8 },
    SetNFTAddress(ActorId),
    Register,
    AddNftForSale { token_metadata: TokenMetadata },
    BuyNFT(TokenId),
    ApproveMinter(ActorId),
    DelegateApprovedUser(ActorId),
}

/// The answer to a request.
#[derive(Clone, PartialEq, Eq, Debug)]
pub enum RutzoEvent {
    Minted(TokenId),
    NFTContractSaved,
    ErrorCallingNFTContract,
    UserIsNotApproved(UserId),
    UserIsNotTheOwner(UserId),
    Approved(UserId),
    UserApprovedNotExists(UserId),
    ApprovedUserDeleted(UserId),
    ErrorBuying(String),
    InsufficientFunds(NFTPrice),
    NftWithTokenIdDoesNotExists(TokenId),
    NFTWithIdNotExists(u8),
    AccountAlreadyExist(UserId),
    AccountNotExists(UserId),
    AccountAlreadyInMatch(UserId),
    QueryNotAllowed(String),
    RegisterSucces,
    LoginSucces,
    UserInMatch(MatchId),
    ErrorInJoiningMatch,
    PurchaseSucces,
    ReplySuccess,
    NewPlayer(UserId),
    MatchFinished,
    MatchCreated,
    UserIsAlreadyInAGame(u64),
    PendingTransfer(TokenId),
    TransferSuccess(TokenId),
    NFTIsNotApprovedByMainContract(TokenId),
    MaxMintsReached(UserId),
}

/// The phase of a game as shown to a client.
#[derive(Clone, Copy, PartialEq, Eq, Structural, Debug)]
pub enum GameState {
    WaitigForPlayer,
    GameInProgress,
}

/// What a player brings into a match.
#[derive(Clone, Copy, PartialEq, Eq, Structural, Debug)]
pub struct UserData {
    pub user_id: ActorId,
    pub chosen_nft: TokenId,
    pub power: u8,
}

/// Where a match stands.
#[derive(Clone, Copy, PartialEq, Eq, Structural, Debug)]
pub enum MatchState {
    Finished { winner: ActorId, loser: ActorId },
    InProgress,
    NotExists,
}

/// One match: its first player, its second once there is one, and its state.
#[derive(Clone, Copy, PartialEq, Eq, Structural, Debug)]
pub struct MatchInformation {
    pub user_1: UserData,
    pub user_2: Option<UserData>,
    pub match_state: MatchState,
}

impl MatchInformation {
    /// Whether `user` plays in this match.
    pub open spec fn has_player(&self, user: UserId) -> bool {
        self.user_1.user_id == user || (self.user_2 is Some && self.user_2->0.user_id == user)
    }

    /// Whether the match waits for its second player.
    pub open spec fn is_open(&self) -> bool {
        self.match_state is InProgress && self.user_2 is None
    }
}

/// What the work in hand waits for: the request that went out, and what to
/// do with its reply.
#[derive(Clone, Copy, PartialEq, Eq, Structural, Debug)]
pub enum Task {
    /// A player asked to enter a match; the approval check is under way.
    Approval { user_id: UserId, token_id: TokenId, power: u8 },
    /// An owed reward is being sent again on behalf of `owed_by`.
    Retry { owed_by: UserId, token_id: TokenId },
    /// The reward of a finished match is being sent to its winner.
    Reward { winner: UserId, loser: UserId, token_id: TokenId },
    /// A token is being minted to be listed at `price`.
    SaleMint { price: NFTPrice },
    /// A default token is being minted for `user_id`.
    CardMint { user_id: UserId, token_id: u8 },
    /// A freshly minted default token is being sent to `user_id`.
    CardTransfer { user_id: UserId, token_id: u8 },
    /// A bought token is being sent; `refund` is the overpayment.
    Purchase { refund: u128 },
}

/// How far a request got.
#[derive(Clone, PartialEq, Eq, Debug)]
pub enum Step {
    /// The request is done: answer the caller with `event`, attaching `value`.
    Reply { event: RutzoEvent, value: u128 },
    /// Send `action` to the token service at `service` and come back with
    /// its reply and `task`.
    Call { service: ActorId, action: NFTAction, task: Task },
    /// The request is abandoned.
    Abort { fault: crate::nft::Fault },
}

} // verus!
