//! A wager-based matchmaking game and marketplace that keeps its books in one
//! owned state object and reaches the token service only through explicit,
//! resumable request/reply steps.

pub mod ids;
pub mod table;
pub mod nft;
pub mod events;
pub mod state;
pub mod registry;
pub mod escrow;
pub mod matchmaking;
pub mod market;
pub mod power;
pub mod snapshot;
pub mod dispatch;
pub mod laws;
pub mod validity;
