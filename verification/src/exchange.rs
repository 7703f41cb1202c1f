//! Requests to the exchange and the responses to them.

pub mod actions;
pub mod call_laws;
pub mod cancel;
pub mod client_laws;
pub mod connection;
pub mod delivery_laws;
pub mod laws;
pub mod messages;
pub mod modify;
pub mod order;
pub mod reader_laws;
pub mod requests;
pub mod ws_exchange;
