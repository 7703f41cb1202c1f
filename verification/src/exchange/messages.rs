//! What the exchange sends, and what becomes of it.

use vstd::prelude::*;

use crate::error::{outcome_view, Error, ErrorView};
use crate::exchange::requests::{Delivery, RequestTable, RequestTableView};

verus! {

/// The content of a response: its JSON text, and what it says when read as the status
/// of a request (`T`), or why it cannot be read so.
#[derive(Debug)]
pub struct ResponseContent<T> {
    pub text: String,
    pub status: Result<T, String>,
}

/// A response: `action`, `info` or `error`, and its content.
#[derive(Debug)]
pub struct WsResponsePayload<T> {
    pub res_type: String,
    pub payload: ResponseContent<T>,
}

/// A response and the number of the request that it answers.
#[derive(Debug)]
pub struct WsPostResponseData<T> {
    pub id: u64,
    pub response: WsResponsePayload<T>,
}

/// A message of the exchange, by its channel.
#[derive(Debug)]
pub enum WsMessage<T> {
    /// The channel `post`: a response.
    Post { data: WsPostResponseData<T> },
    /// The channel `pong`: the answer to a ping.
    Pong,
    /// Any other channel.
    Unknown,
}

/// A frame of the WebSocket. A text frame comes with the message in it, or with why the
/// text is no message.
#[derive(Debug)]
pub enum Frame<T> {
    Text { text: String, message: Result<WsMessage<T>, String> },
    Binary,
    Ping,
    Pong,
    Close,
    Raw,
}

/// What there is to report of a frame.
#[derive(Debug, Clone, Copy, PartialEq, Eq, Structural)]
pub enum Notice {
    /// The request `id` was answered with its status.
    Answered { id: u64 },
    /// The response to the request `id` could not be read as a status.
    UnreadableStatus { id: u64 },
    /// The exchange refused the request `id`.
    Refused { id: u64 },
    /// The response to the request `id` is of a type that is not known.
    UnknownType { id: u64 },
    /// No request `id` waits.
    UnknownRequest { id: u64 },
    /// A ping was answered.
    Pong,
    /// The message belongs to a channel that is not handled.
    UnhandledChannel,
    /// The text looks like JSON but is no message.
    BadMessage,
    /// The text does not look like JSON.
    PlainText,
    /// A binary frame, which the exchange does not send.
    UnexpectedBinary,
    /// A ping frame.
    PingFrame,
    /// A pong frame.
    PongFrame,
    /// A close frame.
    CloseFrame,
    /// A raw frame, which the WebSocket does not hand out.
    UnexpectedFrame,
}

/// What a frame leads to: a reply to deliver, if the frame answers a request that
/// waits, and a report.
#[verifier::reject_recursive_types(S)]
pub struct Handled<S, T> {
    pub delivery: Option<Delivery<S, T>>,
    pub notice: Notice,
}

/// The response in a frame, if there is one.
pub open spec fn response_in<T>(frame: Frame<T>) -> Option<WsPostResponseData<T>> {
    match frame {
        Frame::Text { message: Ok(WsMessage::Post { data }), .. } => Some(data),
        _ => None,
    }
}

/// The types under which a response carries the status of its request.
pub open spec fn carries_status(res_type: Seq<char>) -> bool {
    res_type == "action"@ || res_type == "info"@
}

/// The reply that a response makes to its request.
pub open spec fn reply_of<T>(response: WsResponsePayload<T>) -> Result<T, ErrorView> {
    if carries_status(response.res_type@) {
        match response.payload.status {
            Ok(status) => Ok(status),
            Err(error) => Err(
                ErrorView::JsonParse("Failed to parse response payload: "@ + error@),
            ),
        }
    } else if response.res_type@ == "error"@ {
        Err(ErrorView::JsonParse(response.payload.text@))
    } else {
        Err(ErrorView::JsonParse("Unknown response type: "@ + response.res_type@))
    }
}

/// What there is to report of a response to the waiting request `id`.
pub open spec fn notice_of<T>(id: u64, response: WsResponsePayload<T>) -> Notice {
    if carries_status(response.res_type@) {
        if response.payload.status is Ok {
            Notice::Answered { id }
        } else {
            Notice::UnreadableStatus { id }
        }
    } else if response.res_type@ == "error"@ {
        Notice::Refused { id }
    } else {
        Notice::UnknownType { id }
    }
}

/// Whether a text starts as JSON objects and arrays do.
pub open spec fn starts_as_json(text: Seq<char>) -> bool {
    text.len() > 0 && (text[0] == '{' || text[0] == '[')
}

/// The table after a frame was handled: the request that it answers waits no longer.
pub open spec fn table_after<S, T>(
    table: RequestTableView<S>,
    frame: Frame<T>,
) -> RequestTableView<S> {
    match response_in(frame) {
        Some(data) => table.take(data.id),
        None => table,
    }
}

/// `handled` is what `frame` leads to while the requests of `table` wait.
pub open spec fn handles<S, T>(
    table: RequestTableView<S>,
    frame: Frame<T>,
    handled: Handled<S, T>,
) -> bool {
    match frame {
        Frame::Text { message: Ok(WsMessage::Post { data }), .. } => {
            if table.pending.contains_key(data.id) {
                &&& handled.delivery matches Some(delivery)
                &&& delivery.id == data.id
                &&& delivery.sender == table.pending[data.id]
                &&& outcome_view(delivery.reply) == reply_of(data.response)
                &&& handled.notice == notice_of(data.id, data.response)
            } else {
                &&& handled.delivery is None
                &&& handled.notice == Notice::UnknownRequest { id: data.id }
            }
        },
        Frame::Text { message: Ok(WsMessage::Pong), .. } => {
            handled.delivery is None && handled.notice == Notice::Pong
        },
        Frame::Text { message: Ok(WsMessage::Unknown), .. } => {
            handled.delivery is None && handled.notice == Notice::UnhandledChannel
        },
        Frame::Text { text, message: Err(_) } => {
            handled.delivery is None && handled.notice == (if starts_as_json(text@) {
                Notice::BadMessage
            } else {
                Notice::PlainText
            })
        },
        Frame::Binary => handled.delivery is None && handled.notice == Notice::UnexpectedBinary,
        Frame::Ping => handled.delivery is None && handled.notice == Notice::PingFrame,
        Frame::Pong => handled.delivery is None && handled.notice == Notice::PongFrame,
        Frame::Close => handled.delivery is None && handled.notice == Notice::CloseFrame,
        Frame::Raw => handled.delivery is None && handled.notice == Notice::UnexpectedFrame,
    }
}

fn is_text(text: &String, literal: &str) -> (same: bool)
    ensures
        same == (text@ == literal@),
{
    *text == literal.to_owned()
}

fn looks_like_json(text: &str) -> (json: bool)
    ensures
        json == starts_as_json(text@),
{
    if text.is_empty() {
        return false;
    }
    let first = text.get_char(0);
    first == '{' || first == '['
}

impl<T> WsResponsePayload<T> {
    /// The reply that this response makes to its request.
    pub fn into_reply(self) -> (reply: Result<T, Error>)
        ensures
            outcome_view(reply) == reply_of(self),
    {
        if is_text(&self.res_type, "action") || is_text(&self.res_type, "info") {
            match self.payload.status {
                Ok(status) => Ok(status),
                Err(error) => Err(
                    Error::JsonParse(
                        "Failed to parse response payload: ".to_owned().concat(error.as_str()),
                    ),
                ),
            }
        } else if is_text(&self.res_type, "error") {
            Err(Error::JsonParse(self.payload.text))
        } else {
            Err(
                Error::JsonParse(
                    "Unknown response type: ".to_owned().concat(self.res_type.as_str()),
                ),
            )
        }
    }

    /// What there is to report of this response to the waiting request `id`.
    fn notice(&self, id: u64) -> (notice: Notice)
        ensures
            notice == notice_of(id, *self),
    {
        if is_text(&self.res_type, "action") || is_text(&self.res_type, "info") {
            if self.payload.status.is_ok() {
                Notice::Answered { id }
            } else {
                Notice::UnreadableStatus { id }
            }
        } else if is_text(&self.res_type, "error") {
            Notice::Refused { id }
        } else {
            Notice::UnknownType { id }
        }
    }
}

/// Handles a frame of the exchange. A response is taken to the request that waits under
/// its number; every other frame leaves the requests as they are.
pub fn handle_message<S, T>(frame: Frame<T>, table: &mut RequestTable<S>) -> (handled: Handled<
    S,
    T,
>)
    ensures
        final(table)@ == table_after(old(table)@, frame),
        handles(old(table)@, frame, handled),
{
    match frame {
        Frame::Text { text, message } => match message {
            Ok(WsMessage::Post { data }) => {
                let id: u64 = data.id;
                match table.take(id) {
                    Some(sender) => {
                        let notice = data.response.notice(id);
                        let reply = data.response.into_reply();
                        Handled { delivery: Some(Delivery { id, sender, reply }), notice }
                    },
                    None => Handled { delivery: None, notice: Notice::UnknownRequest { id } },
                }
            },
            Ok(WsMessage::Pong) => Handled { delivery: None, notice: Notice::Pong },
            Ok(WsMessage::Unknown) => {
                Handled { delivery: None, notice: Notice::UnhandledChannel }
            },
            Err(_) => {
                let notice = if looks_like_json(text.as_str()) {
                    Notice::BadMessage
                } else {
                    Notice::PlainText
                };
                Handled { delivery: None, notice }
            },
        },
        Frame::Binary => Handled { delivery: None, notice: Notice::UnexpectedBinary },
        Frame::Ping => Handled { delivery: None, notice: Notice::PingFrame },
        Frame::Pong => Handled { delivery: None, notice: Notice::PongFrame },
        Frame::Close => Handled { delivery: None, notice: Notice::CloseFrame },
        Frame::Raw => Handled { delivery: None, notice: Notice::UnexpectedFrame },
    }
}

/// A reply says what the response says. A response of the type `action` or `info` that
/// can be read as a status is answered with that status, whatever its text; one that
/// cannot is answered with the reason. A response of the type `error` is answered with
/// its text. Any other is answered with its type.
pub proof fn law_reply_says_what_the_response_says<T>(
    response: WsResponsePayload<T>,
    reply: Result<T, Error>,
)
    requires
        outcome_view(reply) == reply_of(response),
    ensures
        (response.res_type@ == "action"@ || response.res_type@ == "info"@) ==> match (
            response.payload.status,
            reply,
        ) {
            (Ok(status), Ok(given)) => given == status,
            (Err(reason), Err(Error::JsonParse(text))) => text@
                == "Failed to parse response payload: "@ + reason@,
            _ => false,
        },
        response.res_type@ == "error"@ ==> (reply matches Err(Error::JsonParse(text)) && text@
            == response.payload.text@),
        response.res_type@ != "action"@ && response.res_type@ != "info"@ && response.res_type@
            != "error"@ ==> (reply matches Err(Error::JsonParse(text)) && text@
            == "Unknown response type: "@ + response.res_type@),
{
    reveal_strlit("action");
    reveal_strlit("info");
    reveal_strlit("error");
    assert("error"@.len() != "action"@.len());
    assert("error"@.len() != "info"@.len());
}

/// A status reaches the request that waits under the response's number, at its sender and
/// unchanged, whatever the text of the frame and of the response.
pub proof fn law_status_reaches_the_caller<S, T>(
    table: RequestTableView<S>,
    text: String,
    data: WsPostResponseData<T>,
    status: T,
    handled: Handled<S, T>,
)
    requires
        handles(table, Frame::Text { text, message: Ok(WsMessage::Post { data }) }, handled),
        table.pending.contains_key(data.id),
        data.response.res_type@ == "action"@ || data.response.res_type@ == "info"@,
        data.response.payload.status == Ok::<T, String>(status),
    ensures
        handled.delivery matches Some(delivery) && {
            &&& delivery.id == data.id
            &&& delivery.sender == table.pending[data.id]
            &&& delivery.reply == Ok::<T, Error>(status)
        },
        handled.notice == (Notice::Answered { id: data.id }),
{
}

/// A response that carries no status reaches the request that waits under its number as
/// an error that says why, and it is reported for what it is.
pub proof fn law_failure_reaches_the_caller<S, T>(
    table: RequestTableView<S>,
    text: String,
    data: WsPostResponseData<T>,
    handled: Handled<S, T>,
)
    requires
        handles(table, Frame::Text { text, message: Ok(WsMessage::Post { data }) }, handled),
        table.pending.contains_key(data.id),
        (data.response.res_type@ == "action"@ || data.response.res_type@ == "info"@)
            ==> data.response.payload.status is Err,
    ensures
        handled.delivery matches Some(delivery) && {
            &&& delivery.id == data.id
            &&& delivery.sender == table.pending[data.id]
            &&& delivery.reply matches Err(Error::JsonParse(said))
            &&& if data.response.res_type@ == "action"@ || data.response.res_type@ == "info"@ {
                &&& data.response.payload.status matches Err(reason)
                &&& said@ == "Failed to parse response payload: "@ + reason@
                &&& handled.notice == (Notice::UnreadableStatus { id: data.id })
            } else if data.response.res_type@ == "error"@ {
                &&& said@ == data.response.payload.text@
                &&& handled.notice == (Notice::Refused { id: data.id })
            } else {
                &&& said@ == "Unknown response type: "@ + data.response.res_type@
                &&& handled.notice == (Notice::UnknownType { id: data.id })
            }
        },
{
}

/// A response under a number that no request waits under is delivered to no one.
pub proof fn law_stray_response_is_dropped<S, T>(
    table: RequestTableView<S>,
    text: String,
    data: WsPostResponseData<T>,
    handled: Handled<S, T>,
)
    requires
        handles(table, Frame::Text { text, message: Ok(WsMessage::Post { data }) }, handled),
        !table.pending.contains_key(data.id),
    ensures
        handled.delivery is None,
        handled.notice == (Notice::UnknownRequest { id: data.id }),
{
}

/// A frame that holds no response is delivered to no one, and it is reported for what it
/// is. A text that is no message is one to worry about exactly if it starts as JSON does.
pub proof fn law_other_frames_are_reported<S, T>(
    table: RequestTableView<S>,
    frame: Frame<T>,
    handled: Handled<S, T>,
)
    requires
        handles(table, frame, handled),
        !(frame matches Frame::Text { message: Ok(WsMessage::Post { .. }), .. }),
    ensures
        handled.delivery is None,
        handled.notice == match frame {
            Frame::Text { message: Ok(WsMessage::Pong), .. } => Notice::Pong,
            Frame::Text { message: Ok(_), .. } => Notice::UnhandledChannel,
            Frame::Text { text, message: Err(_) } => if text@.len() > 0 && (text@[0] == '{'
                || text@[0] == '[') {
                Notice::BadMessage
            } else {
                Notice::PlainText
            },
            Frame::Binary => Notice::UnexpectedBinary,
            Frame::Ping => Notice::PingFrame,
            Frame::Pong => Notice::PongFrame,
            Frame::Close => Notice::CloseFrame,
            Frame::Raw => Notice::UnexpectedFrame,
        },
{
}

/// A response ends the wait of the request under its number and of no other; any other
/// frame ends no wait.
pub proof fn law_frame_ends_only_its_own_wait<S, T>(
    table: RequestTableView<S>,
    frame: Frame<T>,
    id: u64,
)
    ensures
        table_after(table, frame).next_req_id == table.next_req_id,
        table_after(table, frame).pending.contains_key(id) <==> table.pending.contains_key(id) && !(
        frame matches Frame::Text { message: Ok(WsMessage::Post { data }), .. } && data.id == id),
        table_after(table, frame).pending.contains_key(id) ==> table_after(table, frame).pending[id]
            == table.pending[id],
{
}

} // verus!
