//! What comes of calling the client, in terms of what it is given.

use vstd::hash_map::StringHashMap;
use vstd::prelude::*;

use crate::base_url::{law_sockets_are_distinct, BaseUrl};
use crate::error::Error;
use crate::exchange::actions::Actions;
use crate::exchange::cancel::{ClientCancelRequest, ClientCancelRequestCloid};
use crate::exchange::modify::{ClientId, SerializedClientId};
use crate::exchange::order::{ClientOrderRequest, Order, OrderRequest};
use crate::exchange::requests::RequestTable;
use crate::exchange::ws_exchange::{
    meta_fetched, open, request_sent, response_received, ActionDraft, ConnectTarget, HashedAction,
    NumberedAction, OpeningStep, SignedAction, WsExchangeClient, WsPostRequest,
};
use crate::helpers::{uuid_text, H160};
use crate::meta::{law_last_coin_of_a_name_counts, law_only_listed_coins_are_found, Meta};
use crate::signature::{
    ecdsa_signature, hashed_octets, keccak256_digest, signed_hash, LocalWallet, Signature,
};

verus! {

/// An order is written as it is asked for, for the coin of the index under its name: the
/// same side, price, size, kind and reduce-only mark, and the text of its id, if it has
/// one. It is refused exactly if its coin has no index.
pub proof fn law_order_is_written_as_asked(
    order: ClientOrderRequest,
    coin_to_asset: StringHashMap<u32>,
    written: Result<OrderRequest, Error>,
)
    requires
        call_ensures(ClientOrderRequest::convert, (order, &coin_to_asset), written),
    ensures
        written is Ok <==> coin_to_asset@.contains_key(order.asset@),
        match written {
            Ok(wire) => {
                &&& wire.asset == coin_to_asset@[order.asset@]
                &&& wire.is_buy == order.is_buy
                &&& wire.limit_px@ == order.limit_px@
                &&& wire.sz@ == order.sz@
                &&& wire.reduce_only == order.reduce_only
                &&& match (order.order_type, wire.order_type) {
                    (Order::Limit(asked), Order::Limit(sent)) => sent.tif@ == asked.tif@,
                    (Order::Trigger(asked), Order::Trigger(sent)) => {
                        &&& sent.is_market == asked.is_market
                        &&& sent.trigger_px@ == asked.trigger_px@
                        &&& sent.tpsl@ == asked.tpsl@
                    },
                    _ => false,
                }
                &&& match (order.cloid, wire.cloid) {
                    (Some(cloid), Some(text)) => text@ == uuid_text(cloid),
                    (None, None) => true,
                    _ => false,
                }
            },
            Err(error) => error == Error::AssetNotFound,
        },
{
}

/// Orders that are placed together are sent one for one and in the order given, each as
/// it is asked for. They are refused exactly if a coin among theirs is not known.
pub proof fn law_orders_are_placed_one_for_one(
    client: WsExchangeClient,
    orders: Vec<ClientOrderRequest>,
    action: Result<Actions, Error>,
)
    requires
        call_ensures(WsExchangeClient::bulk_order, (&client, orders), action),
    ensures
        action is Ok <==> forall|i: int|
            0 <= i < orders@.len() ==> client.coin_to_asset@.contains_key(
                (#[trigger] orders@[i]).asset@,
            ),
        match action {
            Ok(Actions::Order(bulk)) => {
                &&& bulk.grouping@ == "na"@
                &&& bulk.builder is None
                &&& bulk.orders@.len() == orders@.len()
                &&& forall|i: int|
                    0 <= i < orders@.len() ==> {
                        let (asked, sent) = (orders@[i], #[trigger] bulk.orders@[i]);
                        &&& sent.asset == client.coin_to_asset@[asked.asset@]
                        &&& sent.is_buy == asked.is_buy
                        &&& sent.limit_px@ == asked.limit_px@
                        &&& sent.sz@ == asked.sz@
                        &&& sent.reduce_only == asked.reduce_only
                        &&& sent.order_type == asked.order_type
                        &&& match (asked.cloid, sent.cloid) {
                            (Some(cloid), Some(text)) => text@ == uuid_text(cloid),
                            (None, None) => true,
                            _ => false,
                        }
                    }
            },
            Ok(_) => false,
            Err(error) => error == Error::AssetNotFound,
        },
{
    if let Ok(Actions::Order(bulk)) = action {
        assert forall|i: int| 0 <= i < orders@.len() implies (
        #[trigger] bulk.orders@[i]).order_type == orders@[i].order_type by {
            assert(client.knows(orders@[i].asset@));
        }
    }
}

/// Cancels that are sent together are sent one for one and in the order given, each under
/// the number given. They are refused exactly if a coin among theirs is not known.
pub proof fn law_cancels_are_sent_one_for_one(
    client: WsExchangeClient,
    cancels: Vec<ClientCancelRequest>,
    action: Result<Actions, Error>,
)
    requires
        call_ensures(WsExchangeClient::bulk_cancel, (&client, cancels), action),
    ensures
        action is Ok <==> forall|i: int|
            0 <= i < cancels@.len() ==> client.coin_to_asset@.contains_key(
                (#[trigger] cancels@[i]).asset@,
            ),
        match action {
            Ok(Actions::Cancel(bulk)) => {
                &&& bulk.cancels@.len() == cancels@.len()
                &&& forall|i: int|
                    0 <= i < cancels@.len() ==> {
                        &&& (#[trigger] bulk.cancels@[i]).oid == cancels@[i].oid
                        &&& bulk.cancels@[i].asset == client.coin_to_asset@[cancels@[i].asset@]
                    }
            },
            Ok(_) => false,
            Err(error) => error == Error::AssetNotFound,
        },
{
}

/// Two cancels of different numbers are sent with different numbers.
pub proof fn law_cancelled_numbers_stay_apart(
    client: WsExchangeClient,
    cancels: Vec<ClientCancelRequest>,
    action: Result<Actions, Error>,
    i: int,
    j: int,
)
    requires
        call_ensures(WsExchangeClient::bulk_cancel, (&client, cancels), action),
        0 <= i < cancels@.len(),
        0 <= j < cancels@.len(),
    ensures
        action matches Ok(Actions::Cancel(bulk)) ==> (bulk.cancels@[i].oid == bulk.cancels@[j].oid
            <==> cancels@[i].oid == cancels@[j].oid),
{
    law_cancels_are_sent_one_for_one(client, cancels, action);
}

/// Cancels by the client's ids are sent one for one and in the order given, each under the
/// text of its id. They are refused exactly if a coin among theirs is not known.
pub proof fn law_cancels_by_cloid_are_sent_one_for_one(
    client: WsExchangeClient,
    cancels: Vec<ClientCancelRequestCloid>,
    action: Result<Actions, Error>,
)
    requires
        call_ensures(WsExchangeClient::bulk_cancel_by_cloid, (&client, cancels), action),
    ensures
        action is Ok <==> forall|i: int|
            0 <= i < cancels@.len() ==> client.coin_to_asset@.contains_key(
                (#[trigger] cancels@[i]).asset@,
            ),
        match action {
            Ok(Actions::CancelByCloid(bulk)) => {
                &&& bulk.cancels@.len() == cancels@.len()
                &&& forall|i: int|
                    0 <= i < cancels@.len() ==> {
                        &&& (#[trigger] bulk.cancels@[i]).cloid@ == uuid_text(cancels@[i].cloid)
                        &&& bulk.cancels@[i].asset == client.coin_to_asset@[cancels@[i].asset@]
                    }
            },
            Ok(_) => false,
            Err(error) => error == Error::AssetNotFound,
        },
{
}

/// What the client calls an order is written as the number or as the text that it is.
pub proof fn law_client_id_is_written_as_given(id: ClientId, written: SerializedClientId)
    requires
        call_ensures(<SerializedClientId as From<ClientId>>::from, (id,), written),
    ensures
        match (id, written) {
            (ClientId::Oid(oid), SerializedClientId::U64(number)) => number == oid,
            (ClientId::Cloid(cloid), SerializedClientId::Str(text)) => text@ == uuid_text(cloid),
            _ => false,
        },
{
}

/// A connection whose coins are known is opened at once, to the WebSocket of the network
/// given, or else of the main one. If they are not known, that network is asked for them.
pub proof fn law_connection_is_opened_to_the_network_given(
    base_url: Option<BaseUrl>,
    meta: Option<Meta>,
    step: OpeningStep,
)
    requires
        call_ensures(open, (base_url, meta), step),
    ensures
        ({
            let meant = if base_url is Some {
                base_url->0
            } else {
                BaseUrl::Mainnet
            };
            match (meta, step) {
                (None, OpeningStep::FetchMeta(asked)) => asked == meant,
                (Some(meta), OpeningStep::Connect(target)) => {
                    &&& target.ws_url@ == "ws"@ + meant.url().skip(4) + "/ws"@
                    &&& target.is_mainnet <==> meant == BaseUrl::Mainnet
                    &&& target.meta == meta
                },
                _ => false,
            }
        }),
{
}

/// It makes no difference to where a client connects whether it knew the coins or asked
/// for them, nor what the coins are: only the network does.
pub proof fn law_coins_do_not_change_the_network(
    base_url: BaseUrl,
    meta: Meta,
    step: OpeningStep,
    other_base_url: BaseUrl,
    fetched: Result<Meta, Error>,
    other: Result<ConnectTarget, Error>,
)
    requires
        call_ensures(open, (Some(base_url), Some(meta)), step),
        call_ensures(meta_fetched, (other_base_url, fetched), other),
    ensures
        match (fetched, other) {
            (Ok(fetched), Ok(other)) => {
                &&& other.meta == fetched
                &&& other.ws_url@ == "ws"@ + other_base_url.url().skip(4) + "/ws"@
                &&& other.is_mainnet <==> other_base_url == BaseUrl::Mainnet
                &&& step matches OpeningStep::Connect(target) && (target.ws_url@ == other.ws_url@
                    <==> base_url == other_base_url)
            },
            (Err(reason), Err(error)) => error == reason,
            _ => false,
        },
{
    law_sockets_are_distinct(base_url, other_base_url);
}

/// A client that could connect has the wallet and the vault that it was given and the
/// network of its target, and it knows the target's coins, each by the place of the last
/// of its name, and no others. No request waits yet. One that could not connect is refused
/// for that reason.
pub proof fn law_new_client_is_that_of_its_target<S>(
    wallet: LocalWallet,
    target: ConnectTarget,
    vault_address: Option<H160>,
    connected: Result<(), String>,
    opened: Result<(WsExchangeClient, RequestTable<S>), Error>,
    name: Seq<char>,
)
    requires
        call_ensures(
            WsExchangeClient::new::<S>,
            (wallet, target, vault_address, connected),
            opened,
        ),
    ensures
        match (connected, opened) {
            (Ok(_), Ok((client, table))) => {
                let coins = target.meta.universe@;
                &&& client.wallet == wallet
                &&& client.vault_address == vault_address
                &&& client.is_mainnet == target.is_mainnet
                &&& client.meta == target.meta
                &&& client.coin_to_asset@.contains_key(name) <==> exists|i: int|
                    0 <= i < coins.len() && (#[trigger] coins[i]).name@ == name
                &&& forall|i: int|
                    0 <= i < coins.len() && (#[trigger] coins[i]).name@ == name && (forall|j: int|
                        i < j < coins.len() ==> (#[trigger] coins[j]).name@ != name)
                        ==> client.coin_to_asset@[name] == i as u32
                &&& table@.next_req_id == 1
                &&& table@.pending == Map::<u64, S>::empty()
            },
            (Err(reason), Err(Error::Websocket(text))) => text@ == "Failed to connect: "@ + reason@,
            _ => false,
        },
{
    let coins = target.meta.universe@;
    law_only_listed_coins_are_found(coins, name);
    if let Ok((client, _)) = opened {
        assert forall|i: int|
            0 <= i < coins.len() && (#[trigger] coins[i]).name@ == name && (forall|j: int|
                i < j < coins.len() ==> (#[trigger] coins[j]).name@
                    != name) implies client.coin_to_asset@[name] == i as u32 by {
            law_last_coin_of_a_name_counts(coins, i);
        }
    }
}

/// From the call to the payload, an action stays the same: it is hashed whole, with the
/// nonce given and the client's vault, signed for the client's network with the wallet
/// given, or else with the client's own, and sent with that nonce, vault and signature,
/// under the next number. `octets` is the action as it was written for the hash.
pub proof fn law_action_is_sent_as_given<S>(
    client: WsExchangeClient,
    action: Actions,
    nonce: u64,
    wallet_override: Option<&LocalWallet>,
    wallet: &LocalWallet,
    draft: ActionDraft,
    octets: Vec<u8>,
    hashed: HashedAction,
    signed: SignedAction,
    table: &mut RequestTable<S>,
    numbered: NumberedAction,
)
    requires
        call_ensures(WsExchangeClient::signing_wallet, (&client, wallet_override), wallet),
        call_ensures(WsExchangeClient::draft_action, (&client, action, nonce), draft),
        call_ensures(ActionDraft::hash, (draft, Ok(octets)), Ok(hashed)),
        call_ensures(HashedAction::sign, (hashed, wallet), Ok(signed)),
        call_ensures(SignedAction::action_encoded::<S>, (signed, Ok(()), table), Ok(numbered)),
    ensures
        ({
            let payload = numbered.payload;
            let key = if wallet_override is Some {
                (wallet_override->0).key@
            } else {
                client.wallet.key@
            };
            &&& payload.action == action
            &&& payload.nonce == nonce
            &&& payload.vault_address == client.vault_address
            &&& ecdsa_signature(
                key,
                signed_hash(
                    keccak256_digest(hashed_octets(octets@, nonce, client.vault_address)),
                    client.is_mainnet,
                ),
            ) == Ok::<(Seq<u8>, Seq<u8>, u64), Seq<char>>(
                (payload.signature.r@, payload.signature.s@, payload.signature.v),
            )
            &&& numbered.id == old(table)@.next_req_id
            &&& final(table)@.next_req_id == old(table)@.next_req_id + 1
            &&& final(table)@.pending == old(table)@.pending
        }),
{
}

/// A step of sending fails exactly if what it was told of failed, and then for that
/// reason; no number is handed out for an action that cannot be written.
pub proof fn law_failed_step_says_why<S>(
    draft: ActionDraft,
    encoded: Result<Vec<u8>, String>,
    hashed: Result<HashedAction, Error>,
    hashed_action: HashedAction,
    signature: Result<Signature, Error>,
    signed: Result<SignedAction, Error>,
    signed_action: SignedAction,
    json: Result<(), String>,
    table: &mut RequestTable<S>,
    numbered: Result<NumberedAction, Error>,
)
    requires
        call_ensures(ActionDraft::hash, (draft, encoded), hashed),
        call_ensures(HashedAction::signed, (hashed_action, signature), signed),
        call_ensures(SignedAction::action_encoded::<S>, (signed_action, json, table), numbered),
    ensures
        match (encoded, hashed) {
            (Ok(_), Ok(hashed)) => hashed.draft == draft,
            (Err(reason), Err(Error::RmpParse(text))) => text@ == reason@,
            _ => false,
        },
        match (signature, signed) {
            (Ok(signature), Ok(signed)) => {
                signed.signature == signature && signed.draft == hashed_action.draft
            },
            (Err(reason), Err(error)) => error == reason,
            _ => false,
        },
        match (json, numbered) {
            (Ok(_), Ok(_)) => true,
            (Err(reason), Err(Error::JsonParse(text))) => {
                &&& text@ == reason@
                &&& final(table)@.next_req_id == old(table)@.next_req_id
                &&& final(table)@.pending == old(table)@.pending
            },
            _ => false,
        },
{
}

/// Signing gives the wallet's own signature, over what is to be signed for the action's
/// hash and network. It fails exactly if the wallet cannot sign that, and then for that
/// reason.
pub proof fn law_action_is_signed_by_its_wallet(
    hashed: HashedAction,
    wallet: LocalWallet,
    signed: Result<SignedAction, Error>,
)
    requires
        call_ensures(HashedAction::sign, (hashed, &wallet), signed),
    ensures
        match (
            ecdsa_signature(
                wallet.key@,
                signed_hash(hashed.connection_id@, hashed.draft.is_mainnet),
            ),
            signed,
        ) {
            (Ok((r, s, v)), Ok(signed)) => {
                &&& signed.draft == hashed.draft
                &&& signed.signature.r@ == r
                &&& signed.signature.s@ == s
                &&& signed.signature.v == v
            },
            (Err(reason), Err(Error::SignatureFailure(text))) => text@ == reason,
            _ => false,
        },
{
}

/// The request that is sent is a post of an action under the number of the action, and it
/// holds the payload as it was written. It waits under that number, at the sender given,
/// and no other request begins or ceases to wait.
pub proof fn law_request_waits_under_its_number<S, P>(
    numbered: NumberedAction,
    payload: P,
    request: WsPostRequest<P>,
    text: String,
    sender: S,
    table: &mut RequestTable<S>,
    sent: Result<String, Error>,
    other: u64,
)
    requires
        call_ensures(NumberedAction::payload_encoded::<P>, (numbered, Ok(payload)), Ok(request)),
        call_ensures(
            WsPostRequest::<P>::request_encoded::<S>,
            (request, Ok(text), sender, table),
            sent,
        ),
    ensures
        request.method@ == "post"@,
        request.id == numbered.id,
        request.request.req_type@ == "action"@,
        request.request.payload == payload,
        sent == Ok::<String, Error>(text),
        final(table)@.next_req_id == old(table)@.next_req_id,
        final(table)@.pending.contains_key(numbered.id),
        final(table)@.pending[numbered.id] == sender,
        other != numbered.id ==> {
            &&& final(table)@.pending.contains_key(other) == old(table)@.pending.contains_key(other)
            &&& old(table)@.pending.contains_key(other) ==> final(table)@.pending[other]
                == old(table)@.pending[other]
        },
{
}

/// A request that cannot be written is refused for that reason, and it does not wait.
pub proof fn law_unwritten_request_does_not_wait<S, P>(
    numbered: NumberedAction,
    encoded: Result<P, String>,
    next: Result<WsPostRequest<P>, Error>,
    request: WsPostRequest<P>,
    reason: String,
    sender: S,
    table: &mut RequestTable<S>,
    sent: Result<String, Error>,
)
    requires
        call_ensures(NumberedAction::payload_encoded::<P>, (numbered, encoded), next),
        call_ensures(
            WsPostRequest::<P>::request_encoded::<S>,
            (request, Err(reason), sender, table),
            sent,
        ),
    ensures
        match (encoded, next) {
            (Ok(_), Ok(_)) => true,
            (Err(reason), Err(Error::JsonParse(text))) => text@ == reason@,
            _ => false,
        },
        sent matches Err(Error::JsonParse(text)) && text@ == reason@,
        final(table)@.next_req_id == old(table)@.next_req_id,
        final(table)@.pending == old(table)@.pending,
{
}

/// What was delivered to a request is what the request comes to. Where sending failed, or
/// nothing could be delivered, the reason is said.
pub proof fn law_request_comes_to_its_reply<T>(
    sent: Result<(), String>,
    next: Result<(), Error>,
    received: Result<Result<T, Error>, String>,
    outcome: Result<T, Error>,
)
    requires
        call_ensures(request_sent, (sent,), next),
        call_ensures(response_received::<T>, (received,), outcome),
    ensures
        match (sent, next) {
            (Ok(_), Ok(_)) => true,
            (Err(reason), Err(Error::Websocket(text))) => text@ == "Send error: "@ + reason@,
            _ => false,
        },
        match received {
            Ok(reply) => outcome == reply,
            Err(reason) => outcome matches Err(Error::Websocket(text)) && text@
                == "Oneshot recv error: "@ + reason@,
        },
{
}

} // verus!
