//! What a client can ask the exchange to do.

use vstd::prelude::*;

use crate::exchange::cancel::{CancelRequest, CancelRequestCloid};
use crate::exchange::order::OrderRequest;

verus! {

/// Who built an order for the client, and for what fee.
#[derive(Debug)]
pub struct BuilderInfo {
    pub builder: String,
    pub fee: u64,
}

/// Orders to place together.
#[derive(Debug)]
pub struct BulkOrder {
    pub orders: Vec<OrderRequest>,
    pub grouping: String,
    pub builder: Option<BuilderInfo>,
}

/// Orders to cancel together, by the exchange's numbers.
#[derive(Debug)]
pub struct BulkCancel {
    pub cancels: Vec<CancelRequest>,
}

/// Orders to cancel together, by the client's ids.
#[derive(Debug)]
pub struct BulkCancelCloid {
    pub cancels: Vec<CancelRequestCloid>,
}

/// An action that the exchange takes once it is signed.
#[derive(Debug)]
pub enum Actions {
    Order(BulkOrder),
    Cancel(BulkCancel),
    CancelByCloid(BulkCancelCloid),
}

} // verus!
