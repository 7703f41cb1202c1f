use hyperliquid_ws::error::Error;
use hyperliquid_ws::exchange::connection::{after_read, before_read, ReadOutcome, ReaderStep};
use hyperliquid_ws::exchange::messages::{
    handle_message, Frame, Handled, Notice, ResponseContent, WsMessage, WsPostResponseData,
    WsResponsePayload,
};
use hyperliquid_ws::exchange::requests::{Delivery, RequestTable};

/// A table in which the requests 1, 2 and 3 wait at the senders `a`, `b` and `c`.
fn table() -> RequestTable<char> {
    let mut table = RequestTable::new();
    for sender in ['a', 'b', 'c'] {
        let id = table.generate_req_id();
        table.register(id, sender);
    }
    table
}

fn response(id: u64, res_type: &str, text: &str, status: Result<u32, &str>) -> Frame<u32> {
    let payload = ResponseContent {
        text: text.to_string(),
        status: status.map_err(|error| error.to_string()),
    };
    let response = WsResponsePayload { res_type: res_type.to_string(), payload };
    let data = WsPostResponseData { id, response };
    Frame::Text { text: "{..}".to_string(), message: Ok(WsMessage::Post { data }) }
}

fn unreadable(text: &str) -> Frame<u32> {
    Frame::Text { text: text.to_string(), message: Err("expected value".to_string()) }
}

fn delivered(handled: Handled<char, u32>) -> Delivery<char, u32> {
    handled.delivery.expect("a request waits")
}

#[test]
fn numbers_start_from_one_and_go_up() {
    let mut table: RequestTable<char> = RequestTable::new();
    assert!(table.has_req_id());
    assert_eq!(table.generate_req_id(), 1);
    assert_eq!(table.generate_req_id(), 2);
    table.register(2, 'x');
    assert_eq!(table.generate_req_id(), 3);
    assert_eq!(table.take(2), Some('x'));
    assert_eq!(table.take(2), None);
    assert_eq!(table.generate_req_id(), 4);
}

#[test]
fn a_status_reaches_its_request() {
    let mut table = table();
    let handled = handle_message(response(2, "action", "{}", Ok(9)), &mut table);
    assert_eq!(handled.notice, Notice::Answered { id: 2 });
    let delivery = delivered(handled);
    assert_eq!((delivery.id, delivery.sender), (2, 'b'));
    assert!(matches!(delivery.reply, Ok(9)));
    assert_eq!(table.take(1), Some('a'));
    assert_eq!(table.take(2), None);
    assert_eq!(table.take(3), Some('c'));
}

#[test]
fn information_is_a_status_too() {
    let handled = handle_message(response(1, "info", "{}", Ok(5)), &mut table());
    assert!(matches!(delivered(handled).reply, Ok(5)));
}

#[test]
fn a_status_that_cannot_be_read() {
    let frame = response(1, "action", "[]", Err("missing field"));
    let handled = handle_message(frame, &mut table());
    assert_eq!(handled.notice, Notice::UnreadableStatus { id: 1 });
    match delivered(handled).reply {
        Err(Error::JsonParse(text)) => {
            assert_eq!(text, "Failed to parse response payload: missing field")
        }
        other => panic!("{:?}", other),
    }
}

#[test]
fn a_refused_request_is_told_why() {
    for status in [Ok(1), Err("invalid type")] {
        let frame = response(3, "error", "\"429 Too Many Requests\"", status);
        let handled = handle_message(frame, &mut table());
        assert_eq!(handled.notice, Notice::Refused { id: 3 });
        match delivered(handled).reply {
            Err(Error::JsonParse(text)) => assert_eq!(text, "\"429 Too Many Requests\""),
            other => panic!("{:?}", other),
        }
    }
}

#[test]
fn a_response_of_an_unknown_type() {
    let handled = handle_message(response(3, "Action", "{}", Ok(1)), &mut table());
    assert_eq!(handled.notice, Notice::UnknownType { id: 3 });
    match delivered(handled).reply {
        Err(Error::JsonParse(text)) => assert_eq!(text, "Unknown response type: Action"),
        other => panic!("{:?}", other),
    }
}

#[test]
fn a_response_that_no_one_waits_for() {
    let mut table = table();
    let handled = handle_message(response(4, "action", "{}", Ok(1)), &mut table);
    assert!(handled.delivery.is_none());
    assert_eq!(handled.notice, Notice::UnknownRequest { id: 4 });
    assert_eq!(table.close::<()>().len(), 3);
}

#[test]
fn a_second_response_is_ignored() {
    let mut table = table();
    delivered(handle_message(response(1, "action", "{}", Ok(1)), &mut table));
    let again = handle_message(response(1, "error", "{}", Ok(2)), &mut table);
    assert!(again.delivery.is_none());
    assert_eq!(again.notice, Notice::UnknownRequest { id: 1 });
}

#[test]
fn other_frames_change_nothing() {
    let frames = vec![
        (
            Frame::Text { text: String::new(), message: Ok(WsMessage::Pong) },
            Notice::Pong,
        ),
        (
            Frame::Text { text: String::new(), message: Ok(WsMessage::Unknown) },
            Notice::UnhandledChannel,
        ),
        (unreadable("{\"channel\":"), Notice::BadMessage),
        (unreadable("[1]"), Notice::BadMessage),
        (unreadable("Websocket connection established."), Notice::PlainText),
        (unreadable(" {}"), Notice::PlainText),
        (unreadable(""), Notice::PlainText),
        (Frame::Binary, Notice::UnexpectedBinary),
        (Frame::Ping, Notice::PingFrame),
        (Frame::Pong, Notice::PongFrame),
        (Frame::Close, Notice::CloseFrame),
        (Frame::Raw, Notice::UnexpectedFrame),
    ];
    let mut table = table();
    for (frame, notice) in frames {
        let handled: Handled<char, u32> = handle_message(frame, &mut table);
        assert!(handled.delivery.is_none());
        assert_eq!(handled.notice, notice);
    }
    assert_eq!(table.take(1), Some('a'));
    assert_eq!(table.take(2), Some('b'));
    assert_eq!(table.take(3), Some('c'));
}

fn told_that_it_closed(deliveries: Vec<Delivery<char, u32>>) -> Vec<(u64, char)> {
    let mut told = Vec::new();
    for delivery in deliveries {
        match delivery.reply {
            Err(Error::Websocket(text)) => assert_eq!(text, "Connection closed"),
            other => panic!("{:?}", other),
        }
        told.push((delivery.id, delivery.sender));
    }
    told.sort();
    told
}

#[test]
fn the_end_of_the_connection_reaches_every_request_once() {
    let mut table = table();
    delivered(handle_message(response(2, "action", "{}", Ok(1)), &mut table));
    assert_eq!(told_that_it_closed(table.close()), vec![(1, 'a'), (3, 'c')]);
    assert!(table.close::<u32>().is_empty());
    assert_eq!(table.generate_req_id(), 4);
}

#[test]
fn reading_goes_on_until_the_connection_ends() {
    let mut table = table();
    assert!(before_read::<char, u32>(false, &mut table).is_none());
    let frame = response(1, "action", "{}", Ok(7));
    match after_read(ReadOutcome::Message(frame), &mut table) {
        ReaderStep::Handled(handled) => assert_eq!(delivered(handled).sender, 'a'),
        ReaderStep::Finished(_) => panic!("the connection is open"),
    }
    match after_read::<char, u32>(ReadOutcome::Closed, &mut table) {
        ReaderStep::Finished(last) => {
            assert_eq!(told_that_it_closed(last), vec![(2, 'b'), (3, 'c')])
        }
        ReaderStep::Handled(_) => panic!("the connection is closed"),
    }
}

#[test]
fn a_read_error_ends_every_request() {
    match after_read::<char, u32>(ReadOutcome::Failed, &mut table()) {
        ReaderStep::Finished(last) => assert_eq!(told_that_it_closed(last).len(), 3),
        ReaderStep::Handled(_) => panic!("nothing was read"),
    }
}

#[test]
fn a_stopped_client_reads_no_more() {
    let mut table = table();
    let last = before_read(true, &mut table).expect("the client has stopped");
    assert_eq!(told_that_it_closed(last), vec![(1, 'a'), (2, 'b'), (3, 'c')]);
}

#[test]
fn a_whole_run_of_the_reader() {
    let mut table = table();
    let outcomes = vec![
        ReadOutcome::Message(unreadable("hello")),
        ReadOutcome::Message(response(2, "error", "\"no\"", Err("not a status"))),
        ReadOutcome::Message(Frame::Close),
        ReadOutcome::Message(response(2, "action", "{}", Ok(2))),
        ReadOutcome::Message(response(4, "action", "{}", Ok(4))),
        ReadOutcome::Closed,
        ReadOutcome::Message(response(1, "action", "{}", Ok(1))),
    ];
    let (mut notices, mut told, mut left) = (Vec::new(), Vec::new(), outcomes.len());
    for (turn, outcome) in outcomes.into_iter().enumerate() {
        if turn == 3 {
            let id = table.generate_req_id();
            table.register(id, 'd');
        }
        assert!(before_read::<char, u32>(false, &mut table).is_none());
        left -= 1;
        match after_read(outcome, &mut table) {
            ReaderStep::Handled(handled) => {
                notices.push(handled.notice);
                told.extend(handled.delivery.map(|delivery| (delivery.id, delivery.sender)));
            }
            ReaderStep::Finished(last) => {
                told.extend(told_that_it_closed(last));
                break;
            }
        }
    }
    assert_eq!(left, 1);
    assert_eq!(
        notices,
        vec![
            Notice::PlainText,
            Notice::Refused { id: 2 },
            Notice::CloseFrame,
            Notice::UnknownRequest { id: 2 },
            Notice::Answered { id: 4 },
        ]
    );
    assert_eq!(told, vec![(2, 'b'), (4, 'd'), (1, 'a'), (3, 'c')]);
    assert_eq!(table.generate_req_id(), 5);
}
