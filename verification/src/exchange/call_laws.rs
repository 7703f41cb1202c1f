//! What holds of the calls that send requests, each under a number of its own.

use vstd::prelude::*;

use crate::error::outcome_view;
use crate::exchange::connection::ReaderStep;
use crate::exchange::laws::{
    ends_wait, law_number_is_handed_out_once, law_request_is_answered_once,
    law_response_reaches_its_request, never_registers, replies_of_both, run, run_of_both, step,
    TableEvent,
};
use crate::exchange::messages::{handles, reply_of, response_in, Frame, Handled};
use crate::exchange::reader_laws::{
    events_of, is_last, is_reader_run, law_reader_delivers_what_is_owed, reader_events,
    run_deliveries_to, table_at, takes_turn, Turn,
};
use crate::exchange::requests::RequestTableView;

verus! {

/// The number that is handed out by the event `i`, if it hands one out.
pub open spec fn number_at<S>(
    table: RequestTableView<S>,
    events: Seq<TableEvent<S>>,
    i: int,
) -> nat {
    run(table, events.take(i)).next_req_id
}

/// The events are those of calls, each of which takes a number and later lets its request
/// wait under it: the call whose request begins to wait at `j` took its number at
/// `origin[j]`, and no two calls are one.
pub open spec fn made_by_calls<S>(
    table: RequestTableView<S>,
    events: Seq<TableEvent<S>>,
    origin: Seq<int>,
) -> bool {
    &&& origin.len() == events.len()
    &&& forall|j: int|
        0 <= j < events.len() && #[trigger] events[j] is Register ==> {
            &&& 0 <= origin[j] < j
            &&& events[origin[j]] is Issue
            &&& events[j]->Register_id == number_at(table, events, origin[j])
        }
    &&& forall|j: int, k: int|
        0 <= j < k < events.len() && #[trigger] events[j] is Register
            && #[trigger] events[k] is Register ==> origin[j] != origin[k]
}

/// Numbers that are handed out at different times are different, the later one greater,
/// and none is smaller than the one that the table had next.
pub proof fn law_numbers_differ<S>(
    table: RequestTableView<S>,
    events: Seq<TableEvent<S>>,
    i: int,
    j: int,
)
    requires
        0 <= i < j <= events.len(),
        events[i] is Issue,
    ensures
        table.next_req_id <= number_at(table, events, i) < number_at(table, events, j),
{
    let first = events.take(i);
    let rest = events.subrange(i + 1, j);
    let at_issue = run(table, first);
    assert(events.take(i + 1).drop_last() =~= first);
    assert(events.take(i + 1).last() == events[i]);
    assert(run(table, events.take(i + 1)) == at_issue.issue());
    assert(events.take(j) =~= events.take(i + 1) + rest);
    run_of_both(table, events.take(i + 1), rest);
    law_number_is_handed_out_once(at_issue, rest);
    numbers_only_grow(table, first);
}

proof fn numbers_only_grow<S>(table: RequestTableView<S>, events: Seq<TableEvent<S>>)
    ensures
        table.next_req_id <= run(table, events).next_req_id,
    decreases events.len(),
{
    if events.len() > 0 {
        numbers_only_grow(table, events.drop_last());
    }
}

/// Calls do not collide. No two of them let a request wait under one number. When a
/// request begins to wait, no other waits under its number; none has before, and none
/// will afterwards.
pub proof fn law_calls_do_not_collide<S>(
    table: RequestTableView<S>,
    events: Seq<TableEvent<S>>,
    origin: Seq<int>,
    at: int,
)
    requires
        table.wf(),
        made_by_calls(table, events, origin),
        0 <= at < events.len(),
        events[at] is Register,
    ensures
        forall|j: int|
            0 <= j < events.len() && j != at && #[trigger] events[j] is Register
                ==> events[j]->Register_id != events[at]->Register_id,
        !table.pending.contains_key(events[at]->Register_id),
        never_registers(events.take(at), events[at]->Register_id),
        !run(table, events.take(at)).pending.contains_key(events[at]->Register_id),
        never_registers(events.skip(at + 1), events[at]->Register_id),
{
    let id = events[at]->Register_id;
    assert forall|j: int|
        0 <= j < events.len() && j != at
            && #[trigger] events[j] is Register implies events[j]->Register_id != id by {
        if origin[j] < origin[at] {
            law_numbers_differ(table, events, origin[j], origin[at]);
        } else {
            assert(origin[j] != origin[at]);
            law_numbers_differ(table, events, origin[at], origin[j]);
        }
    }
    law_numbers_differ(table, events, origin[at], at);
    let (before, after) = (events.take(at), events.skip(at + 1));
    assert forall|j: int| 0 <= j < before.len() implies !((
    #[trigger] before[j]) matches TableEvent::Register { id: registered, .. } && registered
        == id) by {
        assert(before[j] == events[j]);
    }
    assert forall|j: int| 0 <= j < after.len() implies !((
    #[trigger] after[j]) matches TableEvent::Register { id: registered, .. } && registered
        == id) by {
        assert(after[j] == events[at + 1 + j]);
    }
    law_request_is_answered_once(table, before, id);
}

/// Calls keep to the numbers that were handed out: no request waits under another.
pub proof fn law_calls_keep_requests_numbered<S>(
    table: RequestTableView<S>,
    events: Seq<TableEvent<S>>,
    origin: Seq<int>,
    n: int,
)
    requires
        table.wf(),
        made_by_calls(table, events, origin),
        0 <= n <= events.len(),
    ensures
        run(table, events.take(n)).wf(),
    decreases n,
{
    if n > 0 {
        let i = n - 1;
        law_calls_keep_requests_numbered(table, events, origin, i);
        assert(events.take(n).drop_last() =~= events.take(i));
        assert(events.take(n).last() == events[i]);
        if events[i] is Register {
            law_numbers_differ(table, events, origin[i], i);
        }
    }
}

/// The response to a call reaches the call's own sender, whatever other calls did in the
/// meantime, as long as it is the first under the call's number.
pub proof fn law_response_reaches_its_call<S, T>(
    table: RequestTableView<S>,
    events: Seq<TableEvent<S>>,
    origin: Seq<int>,
    at: int,
    frame: Frame<T>,
    handled: Handled<S, T>,
)
    requires
        table.wf(),
        made_by_calls(table, events, origin),
        0 <= at < events.len(),
        events[at] is Register,
        forall|i: int|
            at < i < events.len() ==> !ends_wait(#[trigger] events[i], events[at]->Register_id),
        response_in(frame) matches Some(data) && data.id == events[at]->Register_id,
        handles(run(table, events), frame, handled),
    ensures
        handled.delivery matches Some(delivery) && {
            &&& delivery.id == events[at]->Register_id
            &&& delivery.sender == events[at]->Register_sender
            &&& outcome_view(delivery.reply) == reply_of(response_in(frame)->0.response)
        },
{
    let (id, sender) = (events[at]->Register_id, events[at]->Register_sender);
    let after = events.skip(at + 1);
    law_calls_do_not_collide(table, events, origin, at);
    run_up_to_and_after(table, events, at);
    assert forall|i: int| 0 <= i < after.len() implies !ends_wait(#[trigger] after[i], id) by {
        assert(after[i] == events[at + 1 + i]);
    }
    law_response_reaches_its_request(
        run(table, events.take(at)),
        id,
        sender,
        after,
        frame,
        handled,
    );
}

/// A request that begins to wait while the reader runs, under a number that no other
/// request is given, is answered exactly once before the reader ends.
pub proof fn law_request_sent_meanwhile_is_answered_once<S, T>(
    table: RequestTableView<S>,
    turns: Seq<Turn<S, T>>,
    made: Seq<ReaderStep<S, T>>,
    id: u64,
    at: int,
)
    requires
        is_reader_run(table, turns, made),
        made.len() > 0,
        made.last() is Finished,
        !table.pending.contains_key(id),
        0 <= at < events_of(turns, made.len()).len(),
        events_of(turns, made.len())[at] matches TableEvent::Register { id: registered, .. }
            && registered == id,
        never_registers(events_of(turns, made.len()).take(at), id),
        never_registers(events_of(turns, made.len()).skip(at + 1), id),
    ensures
        run_deliveries_to(made, id) == 1,
{
    let events = events_of(turns, made.len());
    let (before, after) = (events.take(at), events.skip(at + 1));
    law_reader_delivers_what_is_owed(table, turns, made, id);
    run_up_to_and_after(table, events, at);
    assert(events.take(at + 1).drop_last() =~= before);
    assert(events =~= events.take(at + 1) + after);
    replies_of_both(table, events.take(at + 1), after, id);
    law_request_is_answered_once(table, before, id);
    law_request_is_answered_once(run(table, events.take(at + 1)), after, id);
    let last = made.len() - 1;
    assert(takes_turn(table_at(table, turns, last), turns[last], made[last]));
    assert(is_last(turns[last]));
    assert(events.last() == TableEvent::<S>::Close);
    assert(ends_wait(after[after.len() - 1], id));
}

/// Whatever the reader delivers in this step to the request `id` goes to `sender`.
pub open spec fn delivers_only_to<S, T>(made: ReaderStep<S, T>, id: u64, sender: S) -> bool {
    match made {
        ReaderStep::Handled(handled) => handled.delivery matches Some(delivery) ==> delivery.id
            == id ==> delivery.sender == sender,
        ReaderStep::Finished(deliveries) => forall|i: int|
            0 <= i < deliveries@.len() && (#[trigger] deliveries@[i]).id == id
                ==> deliveries@[i].sender == sender,
    }
}

/// Every call whose request begins to wait while the reader runs is answered exactly once
/// before the reader ends, and at its own sender. The reader starts on a table as it was
/// made, or on any other in which only handed-out numbers wait.
pub proof fn law_every_call_is_answered_once<S, T>(
    table: RequestTableView<S>,
    turns: Seq<Turn<S, T>>,
    made: Seq<ReaderStep<S, T>>,
    origin: Seq<int>,
    at: int,
)
    requires
        table.wf(),
        is_reader_run(table, turns, made),
        made.len() > 0,
        made.last() is Finished,
        made_by_calls(table, events_of(turns, made.len()), origin),
        0 <= at < events_of(turns, made.len()).len(),
        events_of(turns, made.len())[at] is Register,
    ensures
        run_deliveries_to(made, events_of(turns, made.len())[at]->Register_id) == 1,
        forall|i: int|
            0 <= i < made.len() ==> delivers_only_to(
                #[trigger] made[i],
                events_of(turns, made.len())[at]->Register_id,
                events_of(turns, made.len())[at]->Register_sender,
            ),
{
    let events = events_of(turns, made.len());
    let (id, sender) = (events[at]->Register_id, events[at]->Register_sender);
    law_calls_do_not_collide(table, events, origin, at);
    law_request_sent_meanwhile_is_answered_once(table, turns, made, id, at);
    assert forall|i: int| 0 <= i < made.len() implies delivers_only_to(
        #[trigger] made[i],
        id,
        sender,
    ) by {
        let n = events_of(turns, i as nat).len() + turns[i].meanwhile.len();
        earlier_events_come_first(turns, i, made.len());
        assert(table_at(table, turns, i) == run(table, events.take(n as int)));
        waits_at_its_sender(table, events, at, n as int);
        assert(takes_turn(table_at(table, turns, i), turns[i], made[i]));
    }
}

proof fn run_up_to_and_after<S>(
    table: RequestTableView<S>,
    events: Seq<TableEvent<S>>,
    at: int,
)
    requires
        0 <= at < events.len(),
    ensures
        run(table, events.take(at + 1)) == step(run(table, events.take(at)), events[at]),
        run(table, events) == run(
            step(run(table, events.take(at)), events[at]),
            events.skip(at + 1),
        ),
{
    assert(events.take(at + 1).drop_last() =~= events.take(at));
    assert(events.take(at + 1).last() == events[at]);
    assert(events =~= events.take(at + 1) + events.skip(at + 1));
    run_of_both(table, events.take(at + 1), events.skip(at + 1));
}

proof fn earlier_events_come_first<S, T>(turns: Seq<Turn<S, T>>, i: int, n: nat)
    requires
        0 <= i < n <= turns.len(),
    ensures
        ({
            let found = events_of(turns, i as nat) + turns[i].meanwhile;
            &&& found.len() <= events_of(turns, n).len()
            &&& events_of(turns, n).take(found.len() as int) == found
        }),
    decreases n,
{
    let found = events_of(turns, i as nat) + turns[i].meanwhile;
    let turn = turns[n - 1];
    let earlier = events_of(turns, (n - 1) as nat);
    assert(events_of(turns, n) == earlier + turn.meanwhile + reader_events(turn));
    if i < n - 1 {
        earlier_events_come_first(turns, i, (n - 1) as nat);
        assert(events_of(turns, n).take(found.len() as int) =~= earlier.take(found.len() as int));
    } else {
        assert(events_of(turns, n).take(found.len() as int) =~= found);
    }
}

proof fn waits_at_its_sender<S>(
    table: RequestTableView<S>,
    events: Seq<TableEvent<S>>,
    at: int,
    n: int,
)
    requires
        0 <= at < events.len(),
        events[at] is Register,
        !table.pending.contains_key(events[at]->Register_id),
        never_registers(events.take(at), events[at]->Register_id),
        never_registers(events.skip(at + 1), events[at]->Register_id),
        0 <= n <= events.len(),
    ensures
        run(table, events.take(n)).pending.contains_key(events[at]->Register_id) ==> run(
            table,
            events.take(n),
        ).pending[events[at]->Register_id] == events[at]->Register_sender,
    decreases n,
{
    if n > 0 {
        let i = n - 1;
        waits_at_its_sender(table, events, at, i);
        assert(events.take(n).drop_last() =~= events.take(i));
        assert(events.take(n).last() == events[i]);
        if i < at {
            assert(events.take(at)[i] == events[i]);
        } else if i > at {
            assert(events.skip(at + 1)[i - at - 1] == events[i]);
        }
    }
}

} // verus!
