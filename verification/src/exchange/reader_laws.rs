//! What holds of the reader from its start to its end, while other tasks send requests.

use vstd::prelude::*;

use crate::exchange::connection::{finishes, reads, table_after_read, ReadOutcome, ReaderStep};
use crate::exchange::laws::{
    deliveries_to, ends_wait, law_end_is_delivered_to_waiting_requests,
    law_frame_is_delivered_to_its_request, law_request_is_answered_once, never_registers,
    replies_of_both, replies_to, run, run_of_both, step, TableEvent,
};
use crate::exchange::messages::{handles, response_in, table_after, Frame};
use crate::exchange::requests::{closes_all, RequestTableView};

verus! {

/// One turn of the reader.
pub struct Turn<S, T> {
    /// What other tasks did to the table since the turn before.
    pub meanwhile: Seq<TableEvent<S>>,
    /// Whether the client has stopped, so that nothing is read.
    pub stop: bool,
    /// What is read, if something is.
    pub outcome: ReadOutcome<T>,
}

/// Whether the turn is the last one.
pub open spec fn is_last<S, T>(turn: Turn<S, T>) -> bool {
    turn.stop || !(turn.outcome is Message)
}

/// The only things that tasks other than the reader do to the table: they take numbers
/// and let requests wait.
pub open spec fn by_senders<S>(events: Seq<TableEvent<S>>) -> bool {
    forall|i: int|
        0 <= i < events.len() ==> (#[trigger] events[i] is Issue || events[i] is Register)
}

/// `made` is what the reader does in `turn` while the requests of `table` wait.
pub open spec fn takes_turn<S, T>(
    table: RequestTableView<S>,
    turn: Turn<S, T>,
    made: ReaderStep<S, T>,
) -> bool {
    if turn.stop {
        finishes(table, made)
    } else {
        reads(table, turn.outcome, made)
    }
}

/// What the reader itself does to the table in a turn.
pub open spec fn reader_events<S, T>(turn: Turn<S, T>) -> Seq<TableEvent<S>> {
    if is_last(turn) {
        seq![TableEvent::Close]
    } else {
        match response_in(turn.outcome->Message_0) {
            Some(data) => seq![TableEvent::Response { id: data.id }],
            None => seq![],
        }
    }
}

/// What happens to the table in the first `n` turns.
pub open spec fn events_of<S, T>(turns: Seq<Turn<S, T>>, n: nat) -> Seq<TableEvent<S>>
    decreases n,
{
    if n == 0 {
        seq![]
    } else {
        let turn = turns[n - 1];
        events_of(turns, (n - 1) as nat) + turn.meanwhile + reader_events(turn)
    }
}

/// The table as the reader finds it in the turn `i`.
pub open spec fn table_at<S, T>(
    table: RequestTableView<S>,
    turns: Seq<Turn<S, T>>,
    i: int,
) -> RequestTableView<S> {
    run(table, events_of(turns, i as nat) + turns[i].meanwhile)
}

/// `made` is what the reader does, turn by turn, from `table` on: it takes the turns in
/// order, goes on after a frame that it handled, and takes no turn after it finished.
pub open spec fn is_reader_run<S, T>(
    table: RequestTableView<S>,
    turns: Seq<Turn<S, T>>,
    made: Seq<ReaderStep<S, T>>,
) -> bool {
    &&& made.len() <= turns.len()
    &&& forall|i: int|
        0 <= i < made.len() ==> takes_turn(
            table_at(table, turns, i),
            turns[i],
            #[trigger] made[i],
        )
    &&& forall|i: int| 0 <= i < made.len() ==> by_senders((#[trigger] turns[i]).meanwhile)
    &&& forall|i: int| 0 <= i < made.len() - 1 ==> #[trigger] made[i] is Handled
    &&& made.len() < turns.len() ==> made.len() > 0 && made.last() is Finished
}

/// How many deliveries to the request `id` a step of the reader makes.
pub open spec fn step_deliveries_to<S, T>(made: ReaderStep<S, T>, id: u64) -> nat {
    match made {
        ReaderStep::Handled(handled) => match handled.delivery {
            Some(delivery) => if delivery.id == id {
                1
            } else {
                0
            },
            None => 0,
        },
        ReaderStep::Finished(deliveries) => deliveries_to(deliveries@, id),
    }
}

/// How many deliveries to the request `id` the steps of the reader make.
pub open spec fn run_deliveries_to<S, T>(made: Seq<ReaderStep<S, T>>, id: u64) -> nat
    decreases made.len(),
{
    if made.len() == 0 {
        0
    } else {
        run_deliveries_to(made.drop_last(), id) + step_deliveries_to(made.last(), id)
    }
}

/// The table after several frames were handled, first to last.
pub open spec fn after_frames<S, T>(
    table: RequestTableView<S>,
    frames: Seq<Frame<T>>,
) -> RequestTableView<S>
    decreases frames.len(),
{
    if frames.len() == 0 {
        table
    } else {
        table_after(after_frames(table, frames.drop_last()), frames.last())
    }
}

/// The turns read `frames`, first to last, and then come to an end: the connection fails
/// or is closed, or the client has stopped.
pub open spec fn turns_read<S, T>(turns: Seq<Turn<S, T>>, frames: Seq<Frame<T>>) -> bool {
    &&& turns.len() > frames.len()
    &&& forall|i: int|
        0 <= i < frames.len() ==> !(#[trigger] turns[i]).stop && turns[i].outcome
            == ReadOutcome::Message(frames[i])
    &&& is_last(turns[frames.len() as int])
}

/// What the reader does to the table in a turn is what handling the turn does to it.
pub proof fn law_turn_changes_the_table<S, T>(table: RequestTableView<S>, turn: Turn<S, T>)
    ensures
        run(table, reader_events(turn)) == (if turn.stop {
            table.clear()
        } else {
            table_after_read(table, turn.outcome)
        }),
{
    let events = reader_events(turn);
    if events.len() > 0 {
        assert(events.drop_last() =~= Seq::<TableEvent<S>>::empty());
        assert(run(table, events.drop_last()) == table);
        assert(run(table, events) == step(table, events.last()));
    }
}

/// Every frame is handled, once and in the order in which the frames came, on the
/// requests that wait at that time. No frame ends the reading: a text that is no message,
/// a refusal or a close frame does not. The end of the connection ends it, and so does a
/// stop; then every request that still waits is told so, none waits any longer, and
/// nothing more is read.
pub proof fn law_frames_are_handled_once_and_in_order<S, T>(
    table: RequestTableView<S>,
    frames: Seq<Frame<T>>,
    turns: Seq<Turn<S, T>>,
    made: Seq<ReaderStep<S, T>>,
)
    requires
        turns_read(turns, frames),
        is_reader_run(table, turns, made),
    ensures
        made.len() == frames.len() + 1,
        forall|i: int|
            0 <= i < frames.len() ==> (#[trigger] made[i] matches ReaderStep::Handled(handled)
                && handles(table_at(table, turns, i), frames[i], handled)),
        made[frames.len() as int] matches ReaderStep::Finished(deliveries) && closes_all(
            table_at(table, turns, frames.len() as int).pending,
            deliveries@,
        ),
        run(table, events_of(turns, made.len())).pending == Map::<u64, S>::empty(),
{
    let n = frames.len() as int;
    if made.len() > n + 1 {
        assert(made[n] is Handled);
        assert(takes_turn(table_at(table, turns, n), turns[n], made[n]));
        assert(false);
    }
    if made.len() < n + 1 {
        let last = made.len() - 1;
        assert(made[last] is Finished);
        assert(!turns[last].stop);
        assert(takes_turn(table_at(table, turns, last), turns[last], made[last]));
        assert(false);
    }
    assert forall|i: int| 0 <= i < n implies (#[trigger] made[i] matches ReaderStep::Handled(
        handled,
    ) && handles(table_at(table, turns, i), frames[i], handled)) by {
        assert(!turns[i].stop);
        assert(takes_turn(table_at(table, turns, i), turns[i], made[i]));
    }
    assert(takes_turn(table_at(table, turns, n), turns[n], made[n]));
    let before = events_of(turns, n as nat) + turns[n].meanwhile;
    let events = events_of(turns, (n + 1) as nat);
    assert(reader_events(turns[n]) == seq![TableEvent::<S>::Close]);
    assert(events.drop_last() =~= before);
    assert(run(table, events) == step(run(table, before), events.last()));
}

/// While no other task touches the table, the reader finds the requests as the frames
/// before have left them.
pub proof fn law_frames_alone_change_the_requests<S, T>(
    table: RequestTableView<S>,
    frames: Seq<Frame<T>>,
    turns: Seq<Turn<S, T>>,
    i: int,
)
    requires
        turns_read(turns, frames),
        forall|j: int| 0 <= j < turns.len() ==> (#[trigger] turns[j]).meanwhile.len() == 0,
        0 <= i <= frames.len(),
    ensures
        table_at(table, turns, i) == after_frames(table, frames.take(i)),
    decreases i,
{
    assert(turns[i].meanwhile =~= Seq::empty());
    let events = events_of(turns, i as nat);
    assert(events + turns[i].meanwhile =~= events);
    if i > 0 {
        law_frames_alone_change_the_requests(table, frames, turns, i - 1);
        let turn = turns[i - 1];
        let before = events_of(turns, (i - 1) as nat) + turn.meanwhile;
        assert(events == before + reader_events(turn));
        run_of_both(table, before, reader_events(turn));
        law_turn_changes_the_table(run(table, before), turn);
        assert(frames.take(i).drop_last() =~= frames.take(i - 1));
        assert(frames.take(i).last() == frames[i - 1]);
    } else {
        assert(frames.take(0) =~= Seq::empty());
    }
}

/// What the reader delivers to a request over its whole run is what the request is owed
/// by what happens to the table.
pub proof fn law_reader_delivers_what_is_owed<S, T>(
    table: RequestTableView<S>,
    turns: Seq<Turn<S, T>>,
    made: Seq<ReaderStep<S, T>>,
    id: u64,
)
    requires
        is_reader_run(table, turns, made),
    ensures
        run_deliveries_to(made, id) == replies_to(table, events_of(turns, made.len()), id),
{
    delivered_so_far(table, turns, made, made.len(), id);
    assert(made.take(made.len() as int) =~= made);
}

/// A request that waits when the reader starts, and whose number is not used again, is
/// answered exactly once before the reader ends; and nothing is delivered under a number
/// that no request waits under.
pub proof fn law_reader_answers_each_request_once<S, T>(
    table: RequestTableView<S>,
    turns: Seq<Turn<S, T>>,
    made: Seq<ReaderStep<S, T>>,
    id: u64,
)
    requires
        is_reader_run(table, turns, made),
        made.len() > 0,
        made.last() is Finished,
        never_registers(events_of(turns, made.len()), id),
    ensures
        run_deliveries_to(made, id) == (if table.pending.contains_key(id) {
            1nat
        } else {
            0nat
        }),
{
    let events = events_of(turns, made.len());
    law_reader_delivers_what_is_owed(table, turns, made, id);
    law_request_is_answered_once(table, events, id);
    let last = made.len() - 1;
    assert(takes_turn(table_at(table, turns, last), turns[last], made[last]));
    assert(is_last(turns[last]));
    assert(events.last() == TableEvent::<S>::Close);
    assert(ends_wait(events[events.len() - 1], id));
}

proof fn senders_reply_to_no_one<S>(
    table: RequestTableView<S>,
    events: Seq<TableEvent<S>>,
    id: u64,
)
    requires
        by_senders(events),
    ensures
        replies_to(table, events, id) == 0,
    decreases events.len(),
{
    if events.len() > 0 {
        let before = events.drop_last();
        assert forall|i: int| 0 <= i < before.len() implies (#[trigger] before[i] is Issue
            || before[i] is Register) by {
            assert(before[i] == events[i]);
        }
        senders_reply_to_no_one(table, before, id);
        assert(events.last() == events[events.len() - 1]);
    }
}

proof fn turn_delivers_what_is_owed<S, T>(
    table: RequestTableView<S>,
    turn: Turn<S, T>,
    made: ReaderStep<S, T>,
    id: u64,
)
    requires
        takes_turn(table, turn, made),
    ensures
        step_deliveries_to(made, id) == replies_to(table, reader_events(turn), id),
{
    let events = reader_events(turn);
    if events.len() > 0 {
        assert(events.drop_last() =~= Seq::<TableEvent<S>>::empty());
        assert(run(table, events.drop_last()) == table);
        assert(replies_to(table, events.drop_last(), id) == 0);
    }
    match made {
        ReaderStep::Handled(handled) => {
            law_frame_is_delivered_to_its_request(table, turn.outcome->Message_0, handled, id);
        },
        ReaderStep::Finished(deliveries) => {
            law_end_is_delivered_to_waiting_requests(table, deliveries@, id);
        },
    }
}

proof fn delivered_so_far<S, T>(
    table: RequestTableView<S>,
    turns: Seq<Turn<S, T>>,
    made: Seq<ReaderStep<S, T>>,
    n: nat,
    id: u64,
)
    requires
        is_reader_run(table, turns, made),
        n <= made.len(),
    ensures
        run_deliveries_to(made.take(n as int), id) == replies_to(table, events_of(turns, n), id),
    decreases n,
{
    if n > 0 {
        let i = n - 1;
        delivered_so_far(table, turns, made, i as nat, id);
        let turn = turns[i];
        let earlier = events_of(turns, i as nat);
        assert(by_senders(turn.meanwhile));
        replies_of_both(table, earlier, turn.meanwhile, id);
        senders_reply_to_no_one(run(table, earlier), turn.meanwhile, id);
        replies_of_both(table, earlier + turn.meanwhile, reader_events(turn), id);
        assert(takes_turn(table_at(table, turns, i), turn, made[i]));
        turn_delivers_what_is_owed(table_at(table, turns, i), turn, made[i], id);
        assert(made.take(n as int).drop_last() =~= made.take(i));
        assert(made.take(n as int).last() == made[i]);
    }
}

} // verus!
