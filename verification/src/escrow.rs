//! The transfer coordinator's requests: what goes out to the token service
//! for a mint, a transfer and an approval check.

use vstd::prelude::*;
use crate::ids::{ActorId, TokenId};
use crate::nft::{NFTAction, TokenMetadata};
use crate::state::Contract;

verus! {

/// A request on its way: what is asked, and of which program.
#[derive(Clone, PartialEq, Eq, Debug)]
pub struct Outbound {
    pub service: ActorId,
    pub action: NFTAction,
}

impl Contract {
    /// The request that has `nft_contract` mint a token described by
    /// `token_metadata`, under the tag `transaction_id`.
    pub fn mint_new_nft(nft_contract: ActorId, token_metadata: TokenMetadata, transaction_id: u64) -> (r:
        Outbound)
        ensures
            r == (Outbound {
                service: nft_contract,
                action: NFTAction::Mint { transaction_id, token_metadata },
            }),
    {
        Outbound { service: nft_contract, action: NFTAction::Mint { transaction_id, token_metadata } }
    }

    /// The request that has `nft_contract` move `token_id` to `to`, under
    /// the tag `transaction_id`.
    pub fn transfer_nft(nft_contract: ActorId, to: ActorId, token_id: TokenId, transaction_id: u64) -> (r:
        Outbound)
        ensures
            r == (Outbound {
                service: nft_contract,
                action: NFTAction::Transfer { transaction_id, to, token_id },
            }),
    {
        Outbound {
            service: nft_contract,
            action: NFTAction::Transfer { transaction_id, to, token_id },
        }
    }

    /// The request that asks `nft_contract` whether `main_contract` may move
    /// `token_id`. It changes nothing at the service and carries no tag.
    pub fn main_contract_is_approved(nft_contract: ActorId, main_contract: ActorId, token_id: TokenId) -> (r:
        Outbound)
        ensures
            r == (Outbound {
                service: nft_contract,
                action: NFTAction::IsApproved { to: main_contract, token_id },
            }),
    {
        Outbound {
            service: nft_contract,
            action: NFTAction::IsApproved { to: main_contract, token_id },
        }
    }

    /// Advances the counter past the tag that the request now going out
    /// carries, and returns that tag.
    pub fn next_transaction(&mut self) -> (tag: u64)
        ensures
            tag == old(self).transaction_id,
            final(self)@ == old(self)@.issued(),
            final(self).tables_wf() == old(self).tables_wf(),
    {
        let tag = self.transaction_id;
        self.transaction_id = self.transaction_id.saturating_add(1);
        tag
    }
}

} // verus!
