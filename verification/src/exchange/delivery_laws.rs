//! What comes of handling what the exchange sends, in terms of what it sent and of the
//! requests that wait.

use vstd::prelude::*;

use crate::error::Error;
use crate::exchange::connection::{
    after_read, before_read, next_ping, stopped_after_ping, Ping, PingOutcome, ReadOutcome,
    ReaderStep,
};
use crate::exchange::messages::{
    handle_message, law_failure_reaches_the_caller, law_frame_ends_only_its_own_wait,
    law_other_frames_are_reported, law_reply_says_what_the_response_says,
    law_status_reaches_the_caller, law_stray_response_is_dropped, Frame, Handled, Notice,
    WsMessage, WsPostResponseData, WsResponsePayload,
};
use crate::exchange::requests::{law_end_is_told_to_every_sender, Delivery, RequestTable};

verus! {

/// A response that can be read as a status is turned into that status, whatever its text.
/// One that cannot is turned into an error that says why; one that refuses the request,
/// into its text; one of a type that is not known, into an error that names the type.
pub proof fn law_response_is_turned_into_its_reply<T>(
    response: WsResponsePayload<T>,
    reply: Result<T, Error>,
)
    requires
        call_ensures(WsResponsePayload::<T>::into_reply, (response,), reply),
    ensures
        (response.res_type@ == "action"@ || response.res_type@ == "info"@) ==> match (
            response.payload.status,
            reply,
        ) {
            (Ok(status), Ok(given)) => given == status,
            (Err(reason), Err(Error::JsonParse(text))) => text@
                == "Failed to parse response payload: "@ + reason@,
            _ => false,
        },
        response.res_type@ == "error"@ ==> (reply matches Err(Error::JsonParse(text)) && text@
            == response.payload.text@),
        response.res_type@ != "action"@ && response.res_type@ != "info"@ && response.res_type@
            != "error"@ ==> (reply matches Err(Error::JsonParse(text)) && text@
            == "Unknown response type: "@ + response.res_type@),
{
    law_reply_says_what_the_response_says(response, reply);
}

/// A request that began to wait gets the status that the exchange sends under its number:
/// at its own sender, unchanged, whatever the texts of the frame and of the response. Then
/// it waits no longer.
pub proof fn law_waiting_request_gets_its_status<S, T>(
    before: &mut RequestTable<S>,
    id: u64,
    sender: S,
    table: &mut RequestTable<S>,
    text: String,
    response: WsResponsePayload<T>,
    status: T,
    handled: Handled<S, T>,
)
    requires
        call_ensures(RequestTable::<S>::register, (before, id, sender), ()),
        old(table)@ == final(before)@,
        call_ensures(
            handle_message::<S, T>,
            (
                Frame::Text {
                    text,
                    message: Ok(WsMessage::Post { data: WsPostResponseData { id, response } }),
                },
                table,
            ),
            handled,
        ),
        response.res_type@ == "action"@ || response.res_type@ == "info"@,
        response.payload.status == Ok::<T, String>(status),
    ensures
        handled.delivery matches Some(delivery) && {
            &&& delivery.id == id
            &&& delivery.sender == sender
            &&& delivery.reply == Ok::<T, Error>(status)
        },
        handled.notice == (Notice::Answered { id }),
        !final(table)@.pending.contains_key(id),
{
    law_status_reaches_the_caller(
        old(table)@,
        text,
        WsPostResponseData { id, response },
        status,
        handled,
    );
}

/// Whatever frame is handled, no number is handed out, and only the request under the
/// number of a response ceases to wait; the others keep their senders.
pub proof fn law_handling_ends_one_wait_at_most<S, T>(
    table: &mut RequestTable<S>,
    frame: Frame<T>,
    handled: Handled<S, T>,
    id: u64,
)
    requires
        call_ensures(handle_message::<S, T>, (frame, table), handled),
    ensures
        final(table)@.next_req_id == old(table)@.next_req_id,
        final(table)@.pending.contains_key(id) <==> old(table)@.pending.contains_key(id) && !(
        frame matches Frame::Text { message: Ok(WsMessage::Post { data }), .. } && data.id == id),
        final(table)@.pending.contains_key(id) ==> final(table)@.pending[id]
            == old(table)@.pending[id],
        handled.delivery is Some <==> (frame matches Frame::Text {
            message: Ok(WsMessage::Post { data }),
            ..
        } && old(table)@.pending.contains_key(data.id)),
{
    law_frame_ends_only_its_own_wait(old(table)@, frame, id);
}

/// A response without a status is delivered as the error that it is, to the sender that
/// waits for it; one that no request waits for is delivered to no one.
pub proof fn law_other_responses_are_told_apart<S, T>(
    table: &mut RequestTable<S>,
    text: String,
    data: WsPostResponseData<T>,
    handled: Handled<S, T>,
)
    requires
        call_ensures(
            handle_message::<S, T>,
            (Frame::Text { text, message: Ok(WsMessage::Post { data }) }, table),
            handled,
        ),
        !old(table)@.pending.contains_key(data.id) || (data.response.res_type@ != "action"@
            && data.response.res_type@ != "info"@) || data.response.payload.status is Err,
    ensures
        if !old(table)@.pending.contains_key(data.id) {
            handled.delivery is None && handled.notice == (Notice::UnknownRequest { id: data.id })
        } else {
            &&& handled.delivery matches Some(delivery)
            &&& delivery.id == data.id
            &&& delivery.sender == old(table)@.pending[data.id]
            &&& delivery.reply matches Err(Error::JsonParse(said))
            &&& if data.response.res_type@ == "action"@ || data.response.res_type@ == "info"@ {
                &&& data.response.payload.status matches Err(reason)
                &&& said@ == "Failed to parse response payload: "@ + reason@
                &&& handled.notice == (Notice::UnreadableStatus { id: data.id })
            } else if data.response.res_type@ == "error"@ {
                &&& said@ == data.response.payload.text@
                &&& handled.notice == (Notice::Refused { id: data.id })
            } else {
                &&& said@ == "Unknown response type: "@ + data.response.res_type@
                &&& handled.notice == (Notice::UnknownType { id: data.id })
            }
        },
{
    if old(table)@.pending.contains_key(data.id) {
        law_failure_reaches_the_caller(old(table)@, text, data, handled);
    } else {
        law_stray_response_is_dropped(old(table)@, text, data, handled);
    }
}

/// A frame without a response is reported for what it is.
pub proof fn law_frames_are_told_apart<S, T>(
    table: &mut RequestTable<S>,
    frame: Frame<T>,
    handled: Handled<S, T>,
)
    requires
        call_ensures(handle_message::<S, T>, (frame, table), handled),
        !(frame matches Frame::Text { message: Ok(WsMessage::Post { .. }), .. }),
    ensures
        handled.delivery is None,
        final(table)@ == old(table)@,
        handled.notice == match frame {
            Frame::Text { message: Ok(WsMessage::Pong), .. } => Notice::Pong,
            Frame::Text { message: Ok(_), .. } => Notice::UnhandledChannel,
            Frame::Text { text, message: Err(_) } => if text@.len() > 0 && (text@[0] == '{'
                || text@[0] == '[') {
                Notice::BadMessage
            } else {
                Notice::PlainText
            },
            Frame::Binary => Notice::UnexpectedBinary,
            Frame::Ping => Notice::PingFrame,
            Frame::Pong => Notice::PongFrame,
            Frame::Close => Notice::CloseFrame,
            Frame::Raw => Notice::UnexpectedFrame,
        },
{
    law_other_frames_are_reported(old(table)@, frame, handled);
}

/// Numbers that are handed out one after the other follow one another, and handing them
/// out changes nothing else. The first is one, as long as no other was handed out.
pub proof fn law_numbers_follow_one_another<S>(
    fresh: RequestTable<S>,
    first: &mut RequestTable<S>,
    id: u64,
    second: &mut RequestTable<S>,
    next_id: u64,
)
    requires
        call_ensures(RequestTable::<S>::new, (), fresh),
        call_ensures(RequestTable::<S>::generate_req_id, (first,), id),
        old(second)@ == final(first)@,
        call_ensures(RequestTable::<S>::generate_req_id, (second,), next_id),
    ensures
        next_id == id + 1,
        final(second)@.pending == old(first)@.pending,
        old(first)@ == fresh@ ==> id == 1,
        fresh@.pending == Map::<u64, S>::empty(),
{
}

/// Whether a number is left to hand out is told truly: as long as one is, the next one
/// fits.
pub proof fn law_number_left_can_be_handed_out<S>(table: &RequestTable<S>, left: bool)
    requires
        call_ensures(RequestTable::<S>::has_req_id, (table,), left),
    ensures
        left <==> table@.next_req_id < 0xffff_ffff_ffff_ffff,
{
}

/// A request that began to wait is taken out at its own sender, once; the others, among
/// them any that waits under another number, stay as they were.
pub proof fn law_request_is_taken_out_once<S>(
    before: &mut RequestTable<S>,
    id: u64,
    sender: S,
    table: &mut RequestTable<S>,
    taken: Option<S>,
    after: &mut RequestTable<S>,
    again: Option<S>,
    other: u64,
)
    requires
        call_ensures(RequestTable::<S>::register, (before, id, sender), ()),
        old(table)@ == final(before)@,
        call_ensures(RequestTable::<S>::take, (table, id), taken),
        old(after)@ == final(table)@,
        call_ensures(RequestTable::<S>::take, (after, id), again),
        other != id,
    ensures
        taken == Some(sender),
        again == None::<S>,
        final(after)@.next_req_id == old(before)@.next_req_id,
        final(after)@.pending.contains_key(other) == old(before)@.pending.contains_key(other),
        old(before)@.pending.contains_key(other) ==> final(after)@.pending[other] == old(
            before,
        )@.pending[other],
{
}

/// When the connection is closed, every request that waits is told so, at its own sender
/// and once, no one else is told, and no request waits any longer.
pub proof fn law_closing_tells_every_request<S, T>(
    table: &mut RequestTable<S>,
    deliveries: Vec<Delivery<S, T>>,
    id: u64,
)
    requires
        call_ensures(RequestTable::<S>::close::<T>, (table,), deliveries),
    ensures
        final(table)@.next_req_id == old(table)@.next_req_id,
        final(table)@.pending == Map::<u64, S>::empty(),
        old(table)@.pending.contains_key(id) <==> exists|i: int|
            0 <= i < deliveries@.len() && (#[trigger] deliveries@[i]).id == id,
        forall|i: int, j: int|
            0 <= i < j < deliveries@.len() ==> (#[trigger] deliveries@[i]).id != (
            #[trigger] deliveries@[j]).id,
        forall|i: int|
            0 <= i < deliveries@.len() ==> {
                &&& (#[trigger] deliveries@[i]).sender == old(table)@.pending[deliveries@[i].id]
                &&& deliveries@[i].reply matches Err(Error::Websocket(text)) && text@
                    == "Connection closed"@
            },
{
    assert forall|i: int| 0 <= i < deliveries@.len() implies {
        &&& (#[trigger] deliveries@[i]).sender == old(table)@.pending[deliveries@[i].id]
        &&& deliveries@[i].reply matches Err(Error::Websocket(text)) && text@
            == "Connection closed"@
    } by {
        law_end_is_told_to_every_sender(old(table)@.pending, deliveries@, id, i);
    }
}

/// A client that has stopped reads no more and tells every request so; one that has not
/// stopped reads on, and nothing changes.
pub proof fn law_stopped_client_reads_no_more<S, T>(
    stop_flag: bool,
    table: &mut RequestTable<S>,
    last: Option<Vec<Delivery<S, T>>>,
    id: u64,
)
    requires
        call_ensures(before_read::<S, T>, (stop_flag, table), last),
    ensures
        last is Some <==> stop_flag,
        final(table)@.next_req_id == old(table)@.next_req_id,
        match last {
            None => final(table)@.pending == old(table)@.pending,
            Some(deliveries) => {
                &&& final(table)@.pending == Map::<u64, S>::empty()
                &&& old(table)@.pending.contains_key(id) <==> exists|i: int|
                    0 <= i < deliveries@.len() && (#[trigger] deliveries@[i]).id == id
                &&& forall|i: int, j: int|
                    0 <= i < j < deliveries@.len() ==> (#[trigger] deliveries@[i]).id != (
                    #[trigger] deliveries@[j]).id
                &&& forall|i: int|
                    0 <= i < deliveries@.len() ==> {
                        &&& (#[trigger] deliveries@[i]).sender == old(
                            table,
                        )@.pending[deliveries@[i].id]
                        &&& deliveries@[i].reply matches Err(Error::Websocket(text)) && text@
                            == "Connection closed"@
                    }
            },
        },
{
    if let Some(deliveries) = last {
        assert forall|i: int| 0 <= i < deliveries@.len() implies {
            &&& (#[trigger] deliveries@[i]).sender == old(table)@.pending[deliveries@[i].id]
            &&& deliveries@[i].reply matches Err(Error::Websocket(text)) && text@
                == "Connection closed"@
        } by {
            law_end_is_told_to_every_sender(old(table)@.pending, deliveries@, id, i);
        }
    }
}

/// A status that is read is delivered to the request that waits for it, and the reading
/// goes on.
pub proof fn law_status_that_is_read_is_delivered<S, T>(
    table: &mut RequestTable<S>,
    text: String,
    data: WsPostResponseData<T>,
    status: T,
    step: ReaderStep<S, T>,
)
    requires
        call_ensures(
            after_read::<S, T>,
            (
                ReadOutcome::Message(
                    Frame::Text { text, message: Ok(WsMessage::Post { data }) },
                ),
                table,
            ),
            step,
        ),
        old(table)@.pending.contains_key(data.id),
        data.response.res_type@ == "action"@ || data.response.res_type@ == "info"@,
        data.response.payload.status == Ok::<T, String>(status),
    ensures
        step matches ReaderStep::Handled(handled) && handled.delivery matches Some(delivery) && {
            &&& delivery.id == data.id
            &&& delivery.sender == old(table)@.pending[data.id]
            &&& delivery.reply == Ok::<T, Error>(status)
        },
        final(table)@.next_req_id == old(table)@.next_req_id,
        final(table)@.pending == old(table)@.pending.remove(data.id),
{
    if let ReaderStep::Handled(handled) = step {
        law_status_reaches_the_caller(old(table)@, text, data, status, handled);
    }
}

/// Reading a frame comes to handling it. A failure, or the end of the connection, ends the
/// reading, and every request is told so.
pub proof fn law_reading_ends_with_the_connection<S, T>(
    table: &mut RequestTable<S>,
    outcome: ReadOutcome<T>,
    step: ReaderStep<S, T>,
    id: u64,
)
    requires
        call_ensures(after_read::<S, T>, (outcome, table), step),
    ensures
        final(table)@.next_req_id == old(table)@.next_req_id,
        step is Handled <==> outcome is Message,
        outcome matches ReadOutcome::Message(frame) ==> (final(table)@.pending.contains_key(id)
            <==> old(table)@.pending.contains_key(id) && !(frame matches Frame::Text {
            message: Ok(WsMessage::Post { data }),
            ..
        } && data.id == id)),
        step matches ReaderStep::Finished(deliveries) ==> {
            &&& final(table)@.pending == Map::<u64, S>::empty()
            &&& old(table)@.pending.contains_key(id) <==> exists|i: int|
                0 <= i < deliveries@.len() && (#[trigger] deliveries@[i]).id == id
            &&& forall|i: int, j: int|
                0 <= i < j < deliveries@.len() ==> (#[trigger] deliveries@[i]).id != (
                #[trigger] deliveries@[j]).id
            &&& forall|i: int|
                0 <= i < deliveries@.len() ==> {
                    &&& (#[trigger] deliveries@[i]).sender == old(
                        table,
                    )@.pending[deliveries@[i].id]
                    &&& deliveries@[i].reply matches Err(Error::Websocket(text)) && text@
                        == "Connection closed"@
                }
        },
{
    if let ReaderStep::Finished(deliveries) = step {
        assert forall|i: int| 0 <= i < deliveries@.len() implies {
            &&& (#[trigger] deliveries@[i]).sender == old(table)@.pending[deliveries@[i].id]
            &&& deliveries@[i].reply matches Err(Error::Websocket(text)) && text@
                == "Connection closed"@
        } by {
            law_end_is_told_to_every_sender(old(table)@.pending, deliveries@, id, i);
        }
    }
}

/// A client goes on sending pings until one cannot be sent or it is stopped, and a client
/// that has stopped sends none, whatever became of the last.
pub proof fn law_pings_go_on_until_one_fails(
    stop_flag: bool,
    outcome: PingOutcome,
    stop: bool,
    ping: Option<Ping>,
)
    requires
        call_ensures(stopped_after_ping, (stop_flag, outcome), stop),
        call_ensures(next_ping, (stop,), ping),
    ensures
        stop_flag ==> ping is None,
        outcome == PingOutcome::SendFailed ==> ping is None,
        !stop_flag && outcome != PingOutcome::SendFailed ==> (ping matches Some(ping)
            && ping.method@ == "ping"@),
{
}

} // verus!
