//! How long a connection is read and kept alive.

use vstd::prelude::*;

use crate::exchange::messages::{handle_message, handles, table_after, Frame, Handled};
use crate::exchange::requests::{closes_all, Delivery, RequestTable, RequestTableView};

verus! {

/// How many seconds pass between two pings.
pub const SEND_PING_INTERVAL: u64 = 50;

/// What keeps the connection alive.
#[derive(Debug)]
pub struct Ping {
    pub method: &'static str,
}

/// What became of a ping.
#[derive(Debug, Clone, Copy, PartialEq, Eq, Structural)]
pub enum PingOutcome {
    Sent,
    SendFailed,
    NotEncoded,
}

/// The ping to send, unless the client has stopped.
pub fn next_ping(stop_flag: bool) -> (ping: Option<Ping>)
    ensures
        match ping {
            Some(ping) => !stop_flag && ping.method@ == "ping"@,
            None => stop_flag,
        },
{
    if stop_flag {
        None
    } else {
        Some(Ping { method: "ping" })
    }
}

/// Whether the client has stopped after a ping: a ping that cannot be sent means that
/// the connection is dead, and nothing makes a stopped client go on.
pub fn stopped_after_ping(stop_flag: bool, outcome: PingOutcome) -> (stop: bool)
    ensures
        stop == (stop_flag || outcome == PingOutcome::SendFailed),
{
    stop_flag || outcome == PingOutcome::SendFailed
}

/// What reading from the connection gave.
pub enum ReadOutcome<T> {
    /// A frame.
    Message(Frame<T>),
    /// An error.
    Failed,
    /// The exchange closed the connection.
    Closed,
}

/// What reading leads to.
#[verifier::reject_recursive_types(S)]
pub enum ReaderStep<S, T> {
    /// A frame was handled: read on.
    Handled(Handled<S, T>),
    /// No more is read: deliver the last replies.
    Finished(Vec<Delivery<S, T>>),
}

/// `step` ends the reading while the requests of `table` wait.
pub open spec fn finishes<S, T>(table: RequestTableView<S>, step: ReaderStep<S, T>) -> bool {
    step matches ReaderStep::Finished(deliveries) && closes_all(table.pending, deliveries@)
}

/// `step` is what `outcome` leads to while the requests of `table` wait.
pub open spec fn reads<S, T>(
    table: RequestTableView<S>,
    outcome: ReadOutcome<T>,
    step: ReaderStep<S, T>,
) -> bool {
    match outcome {
        ReadOutcome::Message(frame) => step matches ReaderStep::Handled(handled) && handles(
            table,
            frame,
            handled,
        ),
        ReadOutcome::Failed | ReadOutcome::Closed => finishes(table, step),
    }
}

/// The table after what was read was dealt with.
pub open spec fn table_after_read<S, T>(
    table: RequestTableView<S>,
    outcome: ReadOutcome<T>,
) -> RequestTableView<S> {
    match outcome {
        ReadOutcome::Message(frame) => table_after(table, frame),
        ReadOutcome::Failed | ReadOutcome::Closed => table.clear(),
    }
}

/// Whether to read a frame (`None`), or to deliver the last replies because the client
/// has stopped.
pub fn before_read<S, T>(stop_flag: bool, table: &mut RequestTable<S>) -> (last: Option<
    Vec<Delivery<S, T>>,
>)
    ensures
        match last {
            None => !stop_flag && final(table)@ == old(table)@,
            Some(deliveries) => {
                &&& stop_flag
                &&& final(table)@ == old(table)@.clear()
                &&& closes_all(old(table)@.pending, deliveries@)
            },
        },
{
    if stop_flag {
        Some(table.close())
    } else {
        None
    }
}

/// What to do with what was read. A frame is handled; an error or the end of the
/// connection ends every request that waits.
pub fn after_read<S, T>(outcome: ReadOutcome<T>, table: &mut RequestTable<S>) -> (step: ReaderStep<
    S,
    T,
>)
    ensures
        reads(old(table)@, outcome, step),
        final(table)@ == table_after_read(old(table)@, outcome),
{
    match outcome {
        ReadOutcome::Message(frame) => ReaderStep::Handled(handle_message(frame, table)),
        ReadOutcome::Failed => ReaderStep::Finished(table.close()),
        ReadOutcome::Closed => ReaderStep::Finished(table.close()),
    }
}

/// A frame that was read is handled, and the reading goes on; a failure or the end of the
/// connection ends it, tells every sender, and leaves no request waiting. No number is
/// handed out by reading.
pub proof fn law_reading_goes_on_until_the_end<S, T>(
    table: RequestTableView<S>,
    outcome: ReadOutcome<T>,
    step: ReaderStep<S, T>,
)
    requires
        reads(table, outcome, step),
    ensures
        table_after_read(table, outcome).next_req_id == table.next_req_id,
        match (outcome, step) {
            (ReadOutcome::Message(frame), ReaderStep::Handled(handled)) => {
                &&& handles(table, frame, handled)
                &&& table_after_read(table, outcome) == table_after(table, frame)
            },
            (ReadOutcome::Failed, ReaderStep::Finished(last))
            | (ReadOutcome::Closed, ReaderStep::Finished(last)) => {
                &&& closes_all(table.pending, last@)
                &&& table_after_read(table, outcome).pending == Map::<u64, S>::empty()
            },
            _ => false,
        },
{
}

} // verus!
