//! The protocol of a client that trades on the Hyperliquid exchange over a WebSocket:
//! how actions are built, signed and numbered, and how responses find their requests.

pub mod base_url;
pub mod error;
pub mod exchange;
pub mod helpers;
pub mod meta;
pub mod signature;
