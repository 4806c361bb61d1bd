//! Host-side storage, asset registry, module router and fungible-token transfer
//! handler for the inter-blockchain packet protocol.

pub mod table;
pub mod error;
pub mod escrow;
pub mod assets;
pub mod router;
pub mod ledger;
pub mod packet;
pub mod context;
pub mod transfer;
pub mod handler;
pub mod runtime;
