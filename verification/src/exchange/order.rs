//! Orders, as a client asks for them and as the exchange reads them.

use vstd::hash_map::StringHashMap;
use vstd::prelude::*;

use crate::error::Error;
use crate::helpers::{hex_text, hex_text_injective, uuid_text, uuid_to_hex_string, Uuid};

verus! {

/// A limit order and how long it stays in force.
#[derive(Debug, Clone)]
pub struct Limit {
    pub tif: String,
}

/// An order that waits for the price to reach `trigger_px`.
#[derive(Debug, Clone)]
pub struct Trigger {
    pub is_market: bool,
    pub trigger_px: String,
    pub tpsl: String,
}

/// The kind of an order.
#[derive(Debug, Clone)]
pub enum Order {
    Limit(Limit),
    Trigger(Trigger),
}

/// An order as a client asks for it. Prices and sizes are decimal numbers, as the
/// exchange expects to read them.
#[derive(Debug)]
pub struct ClientOrderRequest {
    pub asset: String,
    pub is_buy: bool,
    pub reduce_only: bool,
    pub limit_px: String,
    pub sz: String,
    pub cloid: Option<Uuid>,
    pub order_type: Order,
}

/// An order as the exchange reads it: the coin is named by its index.
#[derive(Debug, Clone)]
pub struct OrderRequest {
    pub asset: u32,
    pub is_buy: bool,
    pub limit_px: String,
    pub sz: String,
    pub reduce_only: bool,
    pub order_type: Order,
    pub cloid: Option<String>,
}

/// The text of a client order id, where there is one.
pub open spec fn cloid_text(cloid: Option<Uuid>) -> Option<Seq<char>> {
    match cloid {
        Some(cloid) => Some(uuid_text(cloid)),
        None => None,
    }
}

/// `wire` says what `order` says, for the coin of index `asset`.
pub open spec fn order_carried(order: ClientOrderRequest, asset: u32, wire: OrderRequest) -> bool {
    &&& wire.asset == asset
    &&& wire.is_buy == order.is_buy
    &&& wire.limit_px == order.limit_px
    &&& wire.sz == order.sz
    &&& wire.reduce_only == order.reduce_only
    &&& wire.order_type == order.order_type
    &&& match wire.cloid {
        Some(text) => Some(text@) == cloid_text(order.cloid),
        None => order.cloid is None,
    }
}

impl ClientOrderRequest {
    /// Names the coin by its index in `coin_to_asset`.
    pub fn convert(self, coin_to_asset: &StringHashMap<u32>) -> (wire: Result<OrderRequest, Error>)
        ensures
            match wire {
                Ok(wire) => coin_to_asset@.contains_key(self.asset@) && order_carried(
                    self,
                    coin_to_asset@[self.asset@],
                    wire,
                ),
                Err(error) => error == Error::AssetNotFound && !coin_to_asset@.contains_key(
                    self.asset@,
                ),
            },
    {
        let asset: u32 = match coin_to_asset.get(self.asset.as_str()) {
            Some(asset) => *asset,
            None => return Err(Error::AssetNotFound),
        };
        let cloid = match self.cloid {
            Some(cloid) => Some(uuid_to_hex_string(cloid)),
            None => None,
        };
        Ok(
            OrderRequest {
                asset,
                is_buy: self.is_buy,
                limit_px: self.limit_px,
                sz: self.sz,
                reduce_only: self.reduce_only,
                order_type: self.order_type,
                cloid,
            },
        )
    }
}

/// An order is sent as it was asked for: the same side, price, size, kind and
/// reduce-only mark, for the coin meant, and under the client's id, if it gave one.
pub proof fn law_order_is_sent_as_asked(order: ClientOrderRequest, asset: u32, wire: OrderRequest)
    requires
        order_carried(order, asset, wire),
    ensures
        wire.asset == asset,
        wire.is_buy == order.is_buy,
        wire.limit_px@ == order.limit_px@,
        wire.sz@ == order.sz@,
        wire.reduce_only == order.reduce_only,
        match (order.order_type, wire.order_type) {
            (Order::Limit(asked), Order::Limit(sent)) => sent.tif@ == asked.tif@,
            (Order::Trigger(asked), Order::Trigger(sent)) => {
                &&& sent.is_market == asked.is_market
                &&& sent.trigger_px@ == asked.trigger_px@
                &&& sent.tpsl@ == asked.tpsl@
            },
            _ => false,
        },
        match (order.cloid, wire.cloid) {
            (Some(cloid), Some(text)) => text@ == uuid_text(cloid),
            (None, None) => true,
            _ => false,
        },
{
}

/// Orders that are sent alike were asked for alike.
pub proof fn law_orders_stay_distinct(
    a: ClientOrderRequest,
    b: ClientOrderRequest,
    asset: u32,
    other_asset: u32,
    wire: OrderRequest,
)
    requires
        order_carried(a, asset, wire),
        order_carried(b, other_asset, wire),
    ensures
        asset == other_asset,
        a.is_buy == b.is_buy,
        a.limit_px@ == b.limit_px@,
        a.sz@ == b.sz@,
        a.reduce_only == b.reduce_only,
        a.order_type == b.order_type,
        a.cloid == b.cloid,
{
    if let (Some(x), Some(y)) = (a.cloid, b.cloid) {
        let (p, q) = (uuid_text(x), uuid_text(y));
        let n = "0x"@.len() as int;
        assert(p.skip(n) =~= hex_text(x.bytes@));
        assert(q.skip(n) =~= hex_text(y.bytes@));
        hex_text_injective(x.bytes@, y.bytes@);
        assert(x.bytes =~= y.bytes);
    }
}

} // verus!
