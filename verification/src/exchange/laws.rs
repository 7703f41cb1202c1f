//! What holds of requests and responses over the life of a connection.

use vstd::prelude::*;

use crate::base_url::BaseUrl;
use crate::error::{outcome_view, ErrorView};
use crate::exchange::cancel::{
    cancel_by_cloid_carried, CancelRequestCloid, ClientCancelRequestCloid,
};
use crate::exchange::messages::{
    carries_status, handles, reply_of, response_in, table_after, Frame, Handled,
};
use crate::exchange::modify::{serialized, ClientId, SerializedClientIdView};
use crate::exchange::order::{order_carried, ClientOrderRequest, OrderRequest};
use crate::exchange::requests::{closes_all, Delivery, RequestTableView};
use crate::exchange::ws_exchange::{
    payload_of, targets, ConnectTarget, HashedAction, SignedAction, WsExchangeClient,
};
use crate::helpers::{uuid_text, Uuid};
use crate::meta::{last_place, listed, Meta};
use crate::signature::{
    ecdsa_signature, hashed_octets, keccak256_digest, signed_hash, signs_l1_action, LocalWallet,
};

verus! {

/// What can happen to a table of requests.
pub enum TableEvent<S> {
    /// A number is handed out.
    Issue,
    /// A request begins to wait.
    Register { id: u64, sender: S },
    /// A response to the request `id` arrives.
    Response { id: u64 },
    /// The connection ends.
    Close,
}

/// The table after one event.
pub open spec fn step<S>(table: RequestTableView<S>, event: TableEvent<S>) -> RequestTableView<S> {
    match event {
        TableEvent::Issue => table.issue(),
        TableEvent::Register { id, sender } => table.register(id, sender),
        TableEvent::Response { id } => table.take(id),
        TableEvent::Close => table.clear(),
    }
}

/// The table after several events, first to last.
pub open spec fn run<S>(
    table: RequestTableView<S>,
    events: Seq<TableEvent<S>>,
) -> RequestTableView<S>
    decreases events.len(),
{
    if events.len() == 0 {
        table
    } else {
        step(run(table, events.drop_last()), events.last())
    }
}

/// No event lets the request `id` begin to wait.
pub open spec fn never_registers<S>(events: Seq<TableEvent<S>>, id: u64) -> bool {
    forall|i: int|
        0 <= i < events.len() ==> !((#[trigger] events[i]) matches TableEvent::Register {
            id: registered,
            ..
        } && registered == id)
}

/// The event ends the wait of the request `id`, if it waits.
pub open spec fn ends_wait<S>(event: TableEvent<S>, id: u64) -> bool {
    match event {
        TableEvent::Response { id: answered } => answered == id,
        TableEvent::Close => true,
        _ => false,
    }
}

/// How many replies the request `id` gets over the events.
pub open spec fn replies_to<S>(
    table: RequestTableView<S>,
    events: Seq<TableEvent<S>>,
    id: u64,
) -> nat
    decreases events.len(),
{
    if events.len() == 0 {
        0
    } else {
        let before = events.drop_last();
        let last: nat = if run(table, before).pending.contains_key(id) && ends_wait(
            events.last(),
            id,
        ) {
            1
        } else {
            0
        };
        replies_to(table, before, id) + last
    }
}

/// Events that come in two parts do to the table what the parts do, one after the other.
pub proof fn run_of_both<S>(
    table: RequestTableView<S>,
    first: Seq<TableEvent<S>>,
    second: Seq<TableEvent<S>>,
)
    ensures
        run(table, first + second) == run(run(table, first), second),
    decreases second.len(),
{
    let both = first + second;
    if second.len() == 0 {
        assert(both =~= first);
    } else {
        run_of_both(table, first, second.drop_last());
        assert(both.drop_last() =~= first + second.drop_last());
        assert(both.last() == second.last());
    }
}

/// The replies to a request over events that come in two parts are those over each part.
pub proof fn replies_of_both<S>(
    table: RequestTableView<S>,
    first: Seq<TableEvent<S>>,
    second: Seq<TableEvent<S>>,
    id: u64,
)
    ensures
        replies_to(table, first + second, id) == replies_to(table, first, id) + replies_to(
            run(table, first),
            second,
            id,
        ),
    decreases second.len(),
{
    let both = first + second;
    if second.len() == 0 {
        assert(both =~= first);
    } else {
        replies_of_both(table, first, second.drop_last(), id);
        run_of_both(table, first, second.drop_last());
        assert(both.drop_last() =~= first + second.drop_last());
        assert(both.last() == second.last());
    }
}

/// Only handed-out numbers wait, and this stays so as long as only requests with
/// handed-out numbers begin to wait.
pub proof fn law_waiting_requests_are_numbered<S>(table: RequestTableView<S>, event: TableEvent<S>)
    requires
        table.wf(),
        event matches TableEvent::Register { id, .. } ==> 1 <= id < table.next_req_id,
    ensures
        RequestTableView::<S>::fresh().wf(),
        step(table, event).wf(),
{
}

proof fn never_registers_before_last<S>(events: Seq<TableEvent<S>>, id: u64)
    requires
        never_registers(events, id),
        events.len() > 0,
    ensures
        never_registers(events.drop_last(), id),
{
    let before = events.drop_last();
    assert forall|i: int| 0 <= i < before.len() implies !((
    #[trigger] before[i]) matches TableEvent::Register { id: registered, .. } && registered
        == id) by {
        assert(before[i] == events[i]);
    }
}

/// A number is handed out once: whatever happens afterwards, the next number is greater.
pub proof fn law_number_is_handed_out_once<S>(
    table: RequestTableView<S>,
    events: Seq<TableEvent<S>>,
)
    ensures
        run(table.issue(), events).next_req_id > table.next_req_id,
    decreases events.len(),
{
    if events.len() > 0 {
        law_number_is_handed_out_once(table, events.drop_last());
    }
}

/// No request waits under a number before the one that it was handed out for begins to.
pub proof fn law_number_is_free_until_used<S>(
    table: RequestTableView<S>,
    events: Seq<TableEvent<S>>,
    id: u64,
)
    requires
        table.wf(),
        id == table.next_req_id,
        never_registers(events, id),
    ensures
        !run(table.issue(), events).pending.contains_key(id),
    decreases events.len(),
{
    if events.len() > 0 {
        never_registers_before_last(events, id);
        law_number_is_free_until_used(table, events.drop_last(), id);
        assert(events.last() == events[events.len() - 1]);
    }
}

/// A request that waits goes on waiting, at the same sender, until a response to it
/// arrives or the connection ends. What happens to other requests does not touch it.
pub proof fn law_request_waits_for_its_own_response<S>(
    table: RequestTableView<S>,
    events: Seq<TableEvent<S>>,
    id: u64,
)
    requires
        table.pending.contains_key(id),
        never_registers(events, id),
        forall|i: int| 0 <= i < events.len() ==> !ends_wait(#[trigger] events[i], id),
    ensures
        run(table, events).pending.contains_key(id),
        run(table, events).pending[id] == table.pending[id],
    decreases events.len(),
{
    if events.len() > 0 {
        let before = events.drop_last();
        assert forall|i: int| 0 <= i < before.len() implies !ends_wait(
            #[trigger] before[i],
            id,
        ) by {
            assert(before[i] == events[i]);
        }
        never_registers_before_last(events, id);
        law_request_waits_for_its_own_response(table, before, id);
        assert(events.last() == events[events.len() - 1]);
    }
}

/// A request gets one reply if it waits and a response to it arrives or the connection
/// ends, and none otherwise. A second response is no second reply.
pub proof fn law_request_is_answered_once<S>(
    table: RequestTableView<S>,
    events: Seq<TableEvent<S>>,
    id: u64,
)
    requires
        never_registers(events, id),
    ensures
        replies_to(table, events, id) == (if table.pending.contains_key(id) && exists|i: int|
            0 <= i < events.len() && ends_wait(#[trigger] events[i], id) {
            1nat
        } else {
            0nat
        }),
        run(table, events).pending.contains_key(id) <==> table.pending.contains_key(id)
            && replies_to(table, events, id) == 0,
    decreases events.len(),
{
    if events.len() > 0 {
        let before = events.drop_last();
        never_registers_before_last(events, id);
        law_request_is_answered_once(table, before, id);
        let last = events[events.len() - 1];
        assert(events.last() == last);
        if exists|i: int| 0 <= i < before.len() && ends_wait(#[trigger] before[i], id) {
            let i = choose|i: int| 0 <= i < before.len() && ends_wait(#[trigger] before[i], id);
            assert(ends_wait(events[i], id));
        }
        if exists|i: int| 0 <= i < events.len() && ends_wait(#[trigger] events[i], id) {
            let i = choose|i: int| 0 <= i < events.len() && ends_wait(#[trigger] events[i], id);
            if i < before.len() {
                assert(ends_wait(before[i], id));
            }
        }
    }
}

/// A frame is delivered to the request `id` exactly if that request waits and the frame
/// holds the response to it.
pub proof fn law_frame_is_delivered_to_its_request<S, T>(
    table: RequestTableView<S>,
    frame: Frame<T>,
    handled: Handled<S, T>,
    id: u64,
)
    requires
        handles(table, frame, handled),
    ensures
        (handled.delivery matches Some(delivery) && delivery.id == id) <==> (
        table.pending.contains_key(id) && (response_in(frame) matches Some(data) && data.id == id)),
{
}

/// How many of `deliveries` go to the request `id`.
pub open spec fn deliveries_to<S, T>(deliveries: Seq<Delivery<S, T>>, id: u64) -> nat
    decreases deliveries.len(),
{
    if deliveries.len() == 0 {
        0
    } else {
        deliveries_to(deliveries.drop_last(), id) + if deliveries.last().id == id {
            1nat
        } else {
            0nat
        }
    }
}

/// The end of the connection is delivered to the request `id` exactly if that request
/// waits, and then once.
pub proof fn law_end_is_delivered_to_waiting_requests<S, T>(
    table: RequestTableView<S>,
    deliveries: Seq<Delivery<S, T>>,
    id: u64,
)
    requires
        closes_all(table.pending, deliveries),
    ensures
        deliveries_to(deliveries, id) == (if table.pending.contains_key(id) {
            1nat
        } else {
            0nat
        }),
{
    deliveries_to_distinct(deliveries, id);
}

proof fn deliveries_to_distinct<S, T>(deliveries: Seq<Delivery<S, T>>, id: u64)
    requires
        forall|i: int, j: int|
            0 <= i < j < deliveries.len() ==> (#[trigger] deliveries[i]).id != (
            #[trigger] deliveries[j]).id,
    ensures
        deliveries_to(deliveries, id) == (if exists|i: int|
            0 <= i < deliveries.len() && (#[trigger] deliveries[i]).id == id {
            1nat
        } else {
            0nat
        }),
    decreases deliveries.len(),
{
    if deliveries.len() > 0 {
        let before = deliveries.drop_last();
        assert forall|i: int, j: int| 0 <= i < j < before.len() implies (#[trigger] before[i]).id
            != (#[trigger] before[j]).id by {
            assert(before[i] == deliveries[i] && before[j] == deliveries[j]);
        }
        deliveries_to_distinct(before, id);
        assert(deliveries.last() == deliveries[deliveries.len() - 1]);
        assert forall|i: int| 0 <= i < before.len() implies #[trigger] before[i]
            == deliveries[i] by {}
        if exists|i: int| 0 <= i < before.len() && (#[trigger] before[i]).id == id {
            let i = choose|i: int| 0 <= i < before.len() && (#[trigger] before[i]).id == id;
            assert(deliveries[i].id == id);
        }
        if exists|i: int| 0 <= i < deliveries.len() && (#[trigger] deliveries[i]).id == id {
            let i = choose|i: int| 0 <= i < deliveries.len() && (#[trigger] deliveries[i]).id == id;
            if i < before.len() {
                assert(before[i].id == id);
            }
        }
    }
}

/// The first response under a request's number reaches that request, whatever happened
/// to the others in the meantime, and says to it what the response says.
pub proof fn law_response_reaches_its_request<S, T>(
    table: RequestTableView<S>,
    id: u64,
    sender: S,
    events: Seq<TableEvent<S>>,
    frame: Frame<T>,
    handled: Handled<S, T>,
)
    requires
        never_registers(events, id),
        forall|i: int| 0 <= i < events.len() ==> !ends_wait(#[trigger] events[i], id),
        response_in(frame) matches Some(data) && data.id == id,
        handles(run(table.register(id, sender), events), frame, handled),
    ensures
        handled.delivery matches Some(delivery) && {
            &&& delivery.id == id
            &&& delivery.sender == sender
            &&& outcome_view(delivery.reply) == reply_of(response_in(frame)->0.response)
        },
{
    law_request_waits_for_its_own_response(table.register(id, sender), events, id);
}

/// A response under a number that was answered already is delivered to no one.
pub proof fn law_second_response_is_ignored<S, T>(
    table: RequestTableView<S>,
    first: Frame<T>,
    second: Frame<T>,
    handled: Handled<S, T>,
)
    requires
        response_in(first) is Some,
        response_in(second) is Some,
        response_in(first)->0.id == response_in(second)->0.id,
        handles(table_after(table, first), second, handled),
    ensures
        handled.delivery is None,
        table_after(table_after(table, first), second) == table_after(table, first),
{
    assert(table_after(table_after(table, first), second).pending =~= table_after(
        table,
        first,
    ).pending);
}

/// A request that the exchange refuses is told the exchange's own words, whether or not
/// they could be read as a status.
pub proof fn law_refused_request_is_told_why<S, T>(
    table: RequestTableView<S>,
    frame: Frame<T>,
    handled: Handled<S, T>,
)
    requires
        response_in(frame) matches Some(data) && data.response.res_type@ == "error"@
            && table.pending.contains_key(data.id),
        handles(table, frame, handled),
    ensures
        handled.delivery matches Some(delivery) && outcome_view(delivery.reply) == Err::<
            T,
            ErrorView,
        >(ErrorView::JsonParse(response_in(frame)->0.response.payload.text@)),
{
    reveal_strlit("error");
    reveal_strlit("action");
    reveal_strlit("info");
    assert("error"@.len() != "action"@.len());
    assert("error"@.len() != "info"@.len());
    assert(!carries_status("error"@));
}

/// A frame that holds no response leaves every request waiting and is delivered to no
/// one.
pub proof fn law_other_frames_change_nothing<S, T>(
    table: RequestTableView<S>,
    frame: Frame<T>,
    handled: Handled<S, T>,
)
    requires
        response_in(frame) is None,
        handles(table, frame, handled),
    ensures
        table_after(table, frame) == table,
        handled.delivery is None,
{
}

/// A client that was opened on a network signs for the main network exactly if it is
/// that network, and knows exactly the coins that the network lists.
pub proof fn law_client_belongs_to_its_network(
    base_url: BaseUrl,
    meta: Meta,
    target: ConnectTarget,
    client: WsExchangeClient,
    name: Seq<char>,
)
    requires
        targets(target, base_url, meta),
        client.belongs_to(target),
    ensures
        client.is_mainnet <==> base_url == BaseUrl::Mainnet,
        client.knows(name) <==> listed(meta.universe@, name),
        client.knows(name) ==> client.coin_to_asset@[name] == last_place(
            meta.universe@,
            name,
        ) as u32,
{
}

/// What is sent is what was signed: the signature in a payload is the wallet's, over the
/// nonce and the vault in the same payload. `action` is the action as it was hashed.
pub proof fn law_what_is_sent_is_what_was_signed(
    wallet: LocalWallet,
    action: Seq<u8>,
    hashed: HashedAction,
    signed: SignedAction,
)
    requires
        hashed.connection_id@ == keccak256_digest(
            hashed_octets(action, hashed.draft.nonce, hashed.draft.vault_address),
        ),
        signed.draft == hashed.draft,
        signs_l1_action(
            wallet,
            hashed.connection_id@,
            hashed.draft.is_mainnet,
            Ok(signed.signature),
        ),
    ensures
        ({
            let payload = payload_of(signed);
            let connection_id = keccak256_digest(
                hashed_octets(action, payload.nonce, payload.vault_address),
            );
            &&& payload.action == hashed.draft.action
            &&& ecdsa_signature(
                wallet.key@,
                signed_hash(connection_id, hashed.draft.is_mainnet),
            ) == Ok::<(Seq<u8>, Seq<u8>, u64), Seq<char>>(
                (payload.signature.r@, payload.signature.s@, payload.signature.v),
            )
        }),
{
}

/// An order that a client calls `cloid` is placed, changed and cancelled under one text.
pub proof fn law_one_text_for_a_client_id(
    cloid: Uuid,
    order: ClientOrderRequest,
    placed: OrderRequest,
    cancel: ClientCancelRequestCloid,
    cancelled: CancelRequestCloid,
    asset: u32,
)
    requires
        order.cloid == Some(cloid),
        order_carried(order, asset, placed),
        cancel.cloid == cloid,
        cancel_by_cloid_carried(cancel, asset, cancelled),
    ensures
        placed.cloid matches Some(text) && text@ == uuid_text(cloid),
        serialized(ClientId::Cloid(cloid)) == SerializedClientIdView::Str(uuid_text(cloid)),
        cancelled.cloid@ == uuid_text(cloid),
{
}

} // verus!
