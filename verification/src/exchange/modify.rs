//! Changes to orders that rest on the book.

use vstd::prelude::*;

use crate::exchange::order::{ClientOrderRequest, OrderRequest};
use crate::helpers::{hex_text, hex_text_injective, uuid_text, uuid_to_hex_string, Uuid};

verus! {

/// What a client calls an order: the number that the exchange gave it, or the id that
/// the client chose.
#[derive(Debug, Clone, Copy)]
pub enum ClientId {
    Oid(u64),
    Cloid(Uuid),
}

/// A [`ClientId`] as the exchange reads it.
#[derive(Debug, Clone)]
pub enum SerializedClientId {
    U64(u64),
    Str(String),
}

/// A [`SerializedClientId`] with its text taken as a sequence of characters.
#[verifier::ext_equal]
pub enum SerializedClientIdView {
    U64(u64),
    Str(Seq<char>),
}

impl View for SerializedClientId {
    type V = SerializedClientIdView;

    open spec fn view(&self) -> SerializedClientIdView {
        match self {
            SerializedClientId::U64(oid) => SerializedClientIdView::U64(*oid),
            SerializedClientId::Str(text) => SerializedClientIdView::Str(text@),
        }
    }
}

/// How the exchange reads `id`.
pub open spec fn serialized(id: ClientId) -> SerializedClientIdView {
    match id {
        ClientId::Oid(oid) => SerializedClientIdView::U64(oid),
        ClientId::Cloid(cloid) => SerializedClientIdView::Str(uuid_text(cloid)),
    }
}

// A `String` is known by its characters alone, so no value of the type can be named as the
// one that `from` returns. What it returns is said in its own contract, by its view.
impl vstd::std_specs::convert::FromSpecImpl<ClientId> for SerializedClientId {
    open spec fn obeys_from_spec() -> bool {
        false
    }

    open spec fn from_spec(client_id: ClientId) -> Self {
        arbitrary()
    }
}

impl From<ClientId> for SerializedClientId {
    fn from(client_id: ClientId) -> (serialized_id: Self)
        ensures
            serialized_id@ == serialized(client_id),
    {
        match client_id {
            ClientId::Oid(oid) => SerializedClientId::U64(oid),
            ClientId::Cloid(cloid) => SerializedClientId::Str(uuid_to_hex_string(cloid)),
        }
    }
}

/// A change to an order, as a client asks for it.
#[derive(Debug)]
pub struct ClientModifyRequest {
    pub oid: ClientId,
    pub order: ClientOrderRequest,
}

/// A change to an order, as the exchange reads it.
#[derive(Debug, Clone)]
pub struct ModifyRequest {
    pub oid: SerializedClientId,
    pub order: OrderRequest,
}

/// Two ids are the same to the exchange only if they are the same to the client.
pub proof fn law_client_ids_stay_distinct(a: ClientId, b: ClientId)
    requires
        serialized(a) == serialized(b),
    ensures
        a == b,
{
    if let (ClientId::Cloid(x), ClientId::Cloid(y)) = (a, b) {
        let (p, q) = (uuid_text(x), uuid_text(y));
        assert(p == q);
        let n = "0x"@.len() as int;
        assert(p.skip(n) =~= hex_text(x.bytes@));
        assert(q.skip(n) =~= hex_text(y.bytes@));
        hex_text_injective(x.bytes@, y.bytes@);
        assert(x.bytes =~= y.bytes);
    }
}

/// The exchange reads an order number as that number, and a client's id as its text.
pub proof fn law_client_id_is_read_as_given(id: ClientId, sent: SerializedClientId)
    requires
        sent@ == serialized(id),
    ensures
        match (id, sent) {
            (ClientId::Oid(oid), SerializedClientId::U64(number)) => number == oid,
            (ClientId::Cloid(cloid), SerializedClientId::Str(text)) => text@ == uuid_text(cloid),
            _ => false,
        },
{
}

} // verus!
