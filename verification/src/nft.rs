//! The token service's protocol: the requests this program sends, the
//! replies it understands, and how a reply is read.

use vstd::prelude::*;
use crate::ids::{ActorId, TokenId};

verus! {

/// A 256-bit digest, as two 128-bit halves.
#[derive(Clone, Copy, PartialEq, Eq, Structural, Debug)]
pub struct H256 {
    pub hi: u128,
    pub lo: u128,
}

/// Descriptive strings attached to a token; carried, never inspected.
#[derive(Clone, PartialEq, Eq, Debug)]
pub struct TokenMetadata {
    pub name: String,
    pub description: String,
    pub media: String,
    pub reference: String,
}

impl TokenMetadata {
    /// A copy that is equal to this value, field for field.
    pub fn duplicate(&self) -> (r: TokenMetadata)
        ensures
            r == *self,
    {
        TokenMetadata {
            name: self.name.clone(),
            description: self.description.clone(),
            media: self.media.clone(),
            reference: self.reference.clone(),
        }
    }
}

/// Confirmation that a token moved (a freshly minted one moves from the
/// zero identity to its first owner).
#[derive(Clone, Copy, PartialEq, Eq, Structural, Debug)]
pub struct NFTTransfer {
    pub from: ActorId,
    pub to: ActorId,
    pub token_id: TokenId,
}

/// Confirmation of a transfer that also paid royalties.
#[derive(Clone, PartialEq, Eq, Debug)]
pub struct NFTTransferPayout {
    pub from: ActorId,
    pub to: ActorId,
    pub token_id: TokenId,
    pub payouts: Vec<(ActorId, u128)>,
}

/// Confirmation that an account was approved for a token.
#[derive(Clone, Copy, PartialEq, Eq, Structural, Debug)]
pub struct NFTApproval {
    pub owner: ActorId,
    pub approved_account: ActorId,
    pub token_id: TokenId,
}

/// The signed statement behind a delegated approval.
#[derive(Clone, Copy, PartialEq, Eq, Structural, Debug)]
pub struct DelegatedApproveMessage {
    pub token_owner_id: ActorId,
    pub approved_actor_id: ActorId,
    pub nft_program_id: ActorId,
    pub token_id: TokenId,
    pub expiration_timestamp: u64,
}

/// A request to the token service.
#[derive(Clone, PartialEq, Eq, Debug)]
pub enum NFTAction {
    Mint { transaction_id: u64, token_metadata: TokenMetadata },
    Burn { transaction_id: u64, token_id: TokenId },
    Transfer { transaction_id: u64, to: ActorId, token_id: TokenId },
    TransferPayout { transaction_id: u64, to: ActorId, token_id: TokenId, amount: u128 },
    NFTPayout { owner: ActorId, amount: u128 },
    Approve { transaction_id: u64, to: ActorId, token_id: TokenId },
    DelegatedApprove { transaction_id: u64, message: DelegatedApproveMessage, signature: [u8; 64] },
    Owner { token_id: TokenId },
    IsApproved { to: ActorId, token_id: TokenId },
    Clear { transaction_hash: H256 },
    AddMinter { transaction_id: u64, minter_id: ActorId },
}

/// A reply of the token service.
#[derive(Clone, PartialEq, Eq, Debug)]
pub enum NFTEvent {
    Transfer(NFTTransfer),
    TransferPayout(NFTTransferPayout),
    NFTPayout(Vec<(ActorId, u128)>),
    Approval(NFTApproval),
    Owner { owner: ActorId, token_id: TokenId },
    IsApproved { to: ActorId, token_id: TokenId, approved: bool },
    MinterAdded { minter_id: ActorId },
}

/// What came back from one round trip to the token service.
#[derive(Clone, PartialEq, Eq, Debug)]
pub enum ServiceReply {
    /// The service answered with an event.
    Answer(NFTEvent),
    /// The service reported an error, or the round trip did not complete.
    Failed,
}

/// Why the current request cannot go on.
#[derive(Clone, Copy, PartialEq, Eq, Structural, Debug)]
pub enum Fault {
    /// No token service address has been configured.
    NoService,
    /// The declared power is not a decimal number from 0 to 255.
    BadPower,
    /// A mint request could not be delivered or was refused.
    ServiceUnavailable,
    /// The service answered with an event of another shape than expected.
    UnexpectedReply,
    /// A transfer that has no compensation path was refused.
    TransferFailed,
}

/// How a mint reply reads: the new token, or the fault.
pub open spec fn mint_reading(reply: ServiceReply) -> Result<TokenId, Fault> {
    match reply {
        ServiceReply::Answer(NFTEvent::Transfer(t)) => Ok(t.token_id),
        ServiceReply::Answer(_) => Err(Fault::UnexpectedReply),
        ServiceReply::Failed => Err(Fault::ServiceUnavailable),
    }
}

/// How a transfer reply reads: done, refused (recoverable), or malformed.
pub open spec fn transfer_reading(reply: ServiceReply) -> Result<(), Fault> {
    match reply {
        ServiceReply::Answer(NFTEvent::Transfer(_)) => Ok(()),
        ServiceReply::Answer(_) => Err(Fault::UnexpectedReply),
        ServiceReply::Failed => Err(Fault::TransferFailed),
    }
}

/// How an approval reply reads: the verdict, with a round trip that did not
/// complete counted as "not approved", or malformed.
pub open spec fn approval_reading(reply: ServiceReply) -> Result<bool, Fault> {
    match reply {
        ServiceReply::Answer(NFTEvent::IsApproved { approved, .. }) => Ok(approved),
        ServiceReply::Answer(_) => Err(Fault::UnexpectedReply),
        ServiceReply::Failed => Ok(false),
    }
}

/// Reads the reply to a mint request.
pub fn read_mint(reply: &ServiceReply) -> (r: Result<TokenId, Fault>)
    ensures
        r == mint_reading(*reply),
{
    match reply {
        ServiceReply::Answer(NFTEvent::Transfer(t)) => Ok(t.token_id),
        ServiceReply::Answer(_) => Err(Fault::UnexpectedReply),
        ServiceReply::Failed => Err(Fault::ServiceUnavailable),
    }
}

/// Reads the reply to a transfer request.
pub fn read_transfer(reply: &ServiceReply) -> (r: Result<(), Fault>)
    ensures
        r == transfer_reading(*reply),
{
    match reply {
        ServiceReply::Answer(NFTEvent::Transfer(_)) => Ok(()),
        ServiceReply::Answer(_) => Err(Fault::UnexpectedReply),
        ServiceReply::Failed => Err(Fault::TransferFailed),
    }
}

/// Reads the reply to an approval check.
pub fn read_approval(reply: &ServiceReply) -> (r: Result<bool, Fault>)
    ensures
        r == approval_reading(*reply),
{
    match reply {
        ServiceReply::Answer(NFTEvent::IsApproved { approved, .. }) => Ok(*approved),
        ServiceReply::Answer(_) => Err(Fault::UnexpectedReply),
        ServiceReply::Failed => Ok(false),
    }
}

} // verus!
