//! Cancels, as a client asks for them and as the exchange reads them.

use vstd::prelude::*;

use crate::helpers::{
    law_client_id_text_has_each_octet, law_client_id_text_is_hex, uuid_text, Uuid,
};

verus! {

/// Asks to cancel the order that the exchange numbered `oid`.
#[derive(Debug)]
pub struct ClientCancelRequest {
    pub asset: String,
    pub oid: u64,
}

/// A [`ClientCancelRequest`] as the exchange reads it: the coin is named by its index.
#[derive(Debug)]
pub struct CancelRequest {
    pub asset: u32,
    pub oid: u64,
}

/// Asks to cancel the order that the client called `cloid`.
#[derive(Debug)]
pub struct ClientCancelRequestCloid {
    pub asset: String,
    pub cloid: Uuid,
}

/// A [`ClientCancelRequestCloid`] as the exchange reads it.
#[derive(Debug)]
pub struct CancelRequestCloid {
    pub asset: u32,
    pub cloid: String,
}

/// `wire` says what `cancel` says, for the coin of index `asset`.
pub open spec fn cancel_carried(
    cancel: ClientCancelRequest,
    asset: u32,
    wire: CancelRequest,
) -> bool {
    &&& wire.asset == asset
    &&& wire.oid == cancel.oid
}

/// `wire` says what `cancel` says, for the coin of index `asset`.
pub open spec fn cancel_by_cloid_carried(
    cancel: ClientCancelRequestCloid,
    asset: u32,
    wire: CancelRequestCloid,
) -> bool {
    &&& wire.asset == asset
    &&& wire.cloid@ == uuid_text(cancel.cloid)
}

/// A cancel is sent for the order that was given: of the coin meant, under the number
/// given.
pub proof fn law_cancel_is_sent_as_asked(
    cancel: ClientCancelRequest,
    asset: u32,
    wire: CancelRequest,
)
    requires
        cancel_carried(cancel, asset, wire),
    ensures
        wire.asset == asset,
        wire.oid == cancel.oid,
{
}

/// Cancels of different orders are sent with different numbers.
pub proof fn law_cancels_stay_distinct(
    a: ClientCancelRequest,
    b: ClientCancelRequest,
    asset: u32,
    sent_a: CancelRequest,
    sent_b: CancelRequest,
)
    requires
        cancel_carried(a, asset, sent_a),
        cancel_carried(b, asset, sent_b),
    ensures
        a.oid != b.oid <==> sent_a.oid != sent_b.oid,
{
}

/// A cancel by the client's id is sent for the order that was given: of the coin meant,
/// under the text whose digits are those of the id's octets.
pub proof fn law_cancel_by_cloid_is_sent_as_asked(
    cancel: ClientCancelRequestCloid,
    asset: u32,
    wire: CancelRequestCloid,
    i: int,
)
    requires
        cancel_by_cloid_carried(cancel, asset, wire),
        0 <= i < 16,
    ensures
        wire.asset == asset,
        wire.cloid@.len() == 34,
        wire.cloid@.take(2) == "0x"@,
        wire.cloid@[2 + 2 * i] == "0123456789abcdef"@[cancel.cloid.bytes@[i] as int / 16],
        wire.cloid@[3 + 2 * i] == "0123456789abcdef"@[cancel.cloid.bytes@[i] as int % 16],
{
    law_client_id_text_is_hex(cancel.cloid);
    law_client_id_text_has_each_octet(cancel.cloid, i);
}

} // verus!
