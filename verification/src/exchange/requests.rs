//! The requests that wait for a response, each under its number.

use std::collections::HashMap;

use vstd::prelude::*;

use crate::error::{outcome_view, Error, ErrorView};

verus! {

/// The numbers handed out so far and the senders of the requests that still wait.
/// A sender (`S`) is where the response to its request goes.
#[verifier::reject_recursive_types(S)]
pub struct RequestTable<S> {
    next_req_id: u64,
    pending_requests: HashMap<u64, S>,
}

/// A [`RequestTable`] as plain mathematics.
#[verifier::ext_equal]
#[verifier::reject_recursive_types(S)]
pub struct RequestTableView<S> {
    pub next_req_id: nat,
    pub pending: Map<u64, S>,
}

/// A reply on its way to the request that waits for it.
#[verifier::reject_recursive_types(S)]
pub struct Delivery<S, T> {
    pub id: u64,
    pub sender: S,
    pub reply: Result<T, Error>,
}

impl<S> View for RequestTable<S> {
    type V = RequestTableView<S>;

    closed spec fn view(&self) -> RequestTableView<S> {
        RequestTableView { next_req_id: self.next_req_id as nat, pending: self.pending_requests@ }
    }
}

impl<S> RequestTableView<S> {
    /// The table of a new connection: no request waits, and numbers start from one.
    pub open spec fn fresh() -> RequestTableView<S> {
        RequestTableView { next_req_id: 1, pending: Map::empty() }
    }

    /// Every request that waits has a number that was handed out.
    pub open spec fn wf(self) -> bool {
        &&& 1 <= self.next_req_id
        &&& forall|id: u64| #[trigger]
            self.pending.contains_key(id) ==> 1 <= id < self.next_req_id
    }

    /// The table after the next number was handed out.
    pub open spec fn issue(self) -> RequestTableView<S> {
        RequestTableView { next_req_id: self.next_req_id + 1, pending: self.pending }
    }

    /// The table after the request `id` began to wait.
    pub open spec fn register(self, id: u64, sender: S) -> RequestTableView<S> {
        RequestTableView { next_req_id: self.next_req_id, pending: self.pending.insert(id, sender) }
    }

    /// The table after the request `id`, if it waited, was taken out.
    pub open spec fn take(self, id: u64) -> RequestTableView<S> {
        RequestTableView { next_req_id: self.next_req_id, pending: self.pending.remove(id) }
    }

    /// The table after every request that waited was taken out.
    pub open spec fn clear(self) -> RequestTableView<S> {
        RequestTableView { next_req_id: self.next_req_id, pending: Map::empty() }
    }
}

/// The reply that each waiting request gets when the connection ends.
pub open spec fn connection_closed() -> ErrorView {
    ErrorView::Websocket("Connection closed"@)
}

/// `deliveries` tells every request in `pending`, and each of them once, that the
/// connection has ended. The order is open.
pub open spec fn closes_all<S, T>(
    pending: Map<u64, S>,
    deliveries: Seq<Delivery<S, T>>,
) -> bool {
    &&& deliveries.len() == pending.dom().len()
    &&& forall|i: int|
        0 <= i < deliveries.len() ==> {
            let d = #[trigger] deliveries[i];
            &&& pending.contains_key(d.id)
            &&& pending[d.id] == d.sender
            &&& outcome_view(d.reply) == Err::<T, ErrorView>(connection_closed())
        }
    &&& forall|i: int, j: int|
        0 <= i < j < deliveries.len() ==> (#[trigger] deliveries[i]).id != (
        #[trigger] deliveries[j]).id
    &&& forall|id: u64| #[trigger]
        pending.contains_key(id) ==> exists|i: int|
            0 <= i < deliveries.len() && (#[trigger] deliveries[i]).id == id
}

impl<S> RequestTable<S> {
    /// The table of a new connection.
    pub fn new() -> (table: RequestTable<S>)
        ensures
            table@ == RequestTableView::<S>::fresh(),
    {
        RequestTable { next_req_id: 1, pending_requests: HashMap::new() }
    }

    /// Hands out the next number.
    pub fn generate_req_id(&mut self) -> (id: u64)
        requires
            old(self)@.next_req_id < u64::MAX,
        ensures
            id == old(self)@.next_req_id,
            final(self)@ == old(self)@.issue(),
    {
        let id: u64 = self.next_req_id;
        self.next_req_id = id + 1;
        id
    }

    /// Whether a number is left to hand out.
    pub fn has_req_id(&self) -> (left: bool)
        ensures
            left == (self@.next_req_id < u64::MAX),
    {
        self.next_req_id < u64::MAX
    }

    /// Lets the request `id` wait for its response.
    pub fn register(&mut self, id: u64, sender: S)
        ensures
            final(self)@ == old(self)@.register(id, sender),
    {
        self.pending_requests.insert(id, sender);
    }

    /// Takes the request `id` out, if it waits.
    pub fn take(&mut self, id: u64) -> (sender: Option<S>)
        ensures
            final(self)@ == old(self)@.take(id),
            sender == (if old(self)@.pending.contains_key(id) {
                Some(old(self)@.pending[id])
            } else {
                None
            }),
    {
        let sender = self.pending_requests.remove(&id);
        proof {
            assert(self@.pending == old(self)@.pending.remove(id));
        }
        sender
    }

    /// The numbers of the requests that wait, in no particular order.
    fn pending_ids(&self) -> (ids: Vec<u64>)
        ensures
            ids@.no_duplicates(),
            ids@.to_set() == self@.pending.dom(),
            ids@.len() == self@.pending.dom().len(),
    {
        let mut ids: Vec<u64> = Vec::new();
        let ghost all = vstd::std_specs::iter::IteratorSpec::remaining(
            &vstd::std_specs::hash::spec_keys_iter(&self.pending_requests),
        ).unref();
        for id in it: self.pending_requests.keys()
            invariant
                it.seq().unref() == all,
                ids@ == all.take(it.index()),
                it.seq().no_duplicates(),
        {
            ids.push(*id);
        }
        assert(ids@ == all);
        ids
    }

    /// Takes every request out and gives each the reply that the connection has ended.
    pub fn close<T>(&mut self) -> (deliveries: Vec<Delivery<S, T>>)
        ensures
            final(self)@ == old(self)@.clear(),
            closes_all(old(self)@.pending, deliveries@),
    {
        let ids = self.pending_ids();
        let mut deliveries: Vec<Delivery<S, T>> = Vec::new();
        let mut i: usize = 0;
        while i < ids.len()
            invariant
                i <= ids.len(),
                deliveries.len() == i,
                ids@.no_duplicates(),
                ids@.to_set() == old(self)@.pending.dom(),
                self@.next_req_id == old(self)@.next_req_id,
                forall|k: int|
                    0 <= k < i ==> {
                        let d = #[trigger] deliveries[k];
                        &&& d.id == ids[k]
                        &&& d.sender == old(self)@.pending[d.id]
                        &&& outcome_view(d.reply) == Err::<T, ErrorView>(connection_closed())
                    },
                forall|id: u64| #[trigger]
                    self@.pending.contains_key(id) <==> old(self)@.pending.contains_key(id)
                        && !ids@.take(i as int).contains(id),
                forall|id: u64| #[trigger]
                    self@.pending.contains_key(id) ==> self@.pending[id] == old(self)@.pending[id],
            decreases ids.len() - i,
        {
            let id: u64 = ids[i];
            proof {
                assert(ids@.contains(id));
                assert(ids@.to_set().contains(id));
                assert(!ids@.take(i as int).contains(id));
                assert(ids@.take(i + 1) == ids@.take(i as int).push(id));
                assert forall|other: u64| ids@.take(i + 1).contains(other) <==> (ids@.take(
                    i as int,
                ).contains(other) || other == id) by {
                    if other == id {
                        assert(ids@.take(i + 1)[i as int] == other);
                    } else if ids@.take(i as int).contains(other) {
                        let k = ids@.take(i as int).index_of(other);
                        assert(ids@.take(i + 1)[k] == other);
                    }
                }
            }
            if let Some(sender) = self.take(id) {
                let reply: Result<T, Error> = Err(Error::Websocket("Connection closed".to_owned()));
                deliveries.push(Delivery { id, sender, reply });
            }
            i += 1;
        }
        proof {
            assert(ids@.take(i as int) == ids@);
            assert forall|id: u64| !self@.pending.contains_key(id) by {
                if old(self)@.pending.contains_key(id) {
                    assert(ids@.to_set().contains(id));
                }
            }
            assert(self@.pending =~= Map::<u64, S>::empty());
            assert forall|k: int| 0 <= k < deliveries@.len() implies old(
                self,
            )@.pending.contains_key((#[trigger] deliveries@[k]).id) by {
                assert(ids@.to_set().contains(ids[k]));
            }
            assert forall|id: u64| #[trigger] old(self)@.pending.contains_key(id) implies exists|
                k: int,
            |
                0 <= k < deliveries@.len() && (#[trigger] deliveries@[k]).id == id by {
                assert(ids@.to_set().contains(id));
                let k = ids@.index_of(id);
                assert(deliveries@[k].id == id);
            }
        }
        deliveries
    }
}

/// What the operations on a table do to each number: numbers start from one and go up by
/// one, only the request that is meant begins or ceases to wait, and the senders of the
/// others stay.
pub proof fn law_operations_touch_only_their_request<S>(
    table: RequestTableView<S>,
    id: u64,
    sender: S,
    other: u64,
)
    requires
        other != id,
    ensures
        RequestTableView::<S>::fresh().next_req_id == 1,
        !RequestTableView::<S>::fresh().pending.contains_key(id),
        table.issue().next_req_id == table.next_req_id + 1,
        table.issue().pending == table.pending,
        table.register(id, sender).next_req_id == table.next_req_id,
        table.register(id, sender).pending.contains_key(id),
        table.register(id, sender).pending[id] == sender,
        table.register(id, sender).pending.contains_key(other) == table.pending.contains_key(other),
        table.pending.contains_key(other) ==> table.register(id, sender).pending[other]
            == table.pending[other],
        table.take(id).next_req_id == table.next_req_id,
        !table.take(id).pending.contains_key(id),
        table.take(id).pending.contains_key(other) == table.pending.contains_key(other),
        table.pending.contains_key(other) ==> table.take(id).pending[other]
            == table.pending[other],
        table.clear().next_req_id == table.next_req_id,
        !table.clear().pending.contains_key(id),
{
}

/// A request that begins to wait is found by its number, at its own sender, and taking it
/// out undoes that it began to wait.
pub proof fn law_request_that_waits_is_found<S>(table: RequestTableView<S>, id: u64, sender: S)
    requires
        !table.pending.contains_key(id),
    ensures
        table.register(id, sender).pending.contains_key(id),
        table.register(id, sender).pending[id] == sender,
        table.register(id, sender).take(id) == table,
{
    assert(table.register(id, sender).take(id).pending =~= table.pending);
}

/// The end of the connection is told to the sender of every request that waits, in so
/// many words, and to no one else.
pub proof fn law_end_is_told_to_every_sender<S, T>(
    pending: Map<u64, S>,
    deliveries: Seq<Delivery<S, T>>,
    id: u64,
    i: int,
)
    requires
        closes_all(pending, deliveries),
        0 <= i < deliveries.len(),
    ensures
        pending.contains_key(deliveries[i].id),
        deliveries[i].sender == pending[deliveries[i].id],
        deliveries[i].reply matches Err(Error::Websocket(text)) && text@ == "Connection closed"@,
        forall|j: int|
            0 <= j < deliveries.len() && j != i ==> (#[trigger] deliveries[j]).id
                != deliveries[i].id,
        pending.contains_key(id) ==> exists|j: int|
            0 <= j < deliveries.len() && (#[trigger] deliveries[j]).id == id,
        deliveries.len() == pending.dom().len(),
{
}

} // verus!
