//! Assigns each event to the lane of its client. A lane is opened on the
//! first event of a client and receives that client's events in input
//! order; the caller owns the queues and the workers behind the lanes.

use crate::model::{ClientId, TxEvent};
use crate::processor::{apply_all, State};
use vstd::prelude::*;

verus! {

/// Where an event goes.
#[derive(Clone, Copy, Debug, PartialEq, Eq, Structural)]
pub enum Route {
    /// The client is new: open lane `index`, start its worker, then send.
    Open(usize),
    /// Send to the existing lane `index`.
    Existing(usize),
}

impl Route {
    pub open spec fn index(self) -> usize {
        match self {
            Route::Open(i) => i,
            Route::Existing(i) => i,
        }
    }
}

/// Events are no longer accepted once shutdown has begun.
#[derive(Clone, Copy, Debug, PartialEq, Eq, Structural)]
pub enum DispatchError {
    ShutDown,
}

/// The events of `client` in `events`, in order.
pub open spec fn events_of(events: Seq<TxEvent>, client: ClientId) -> Seq<TxEvent> {
    events.filter(|e: TxEvent| e.client == client)
}

/// Routing one more event adds it to the events of its own client only.
pub proof fn lemma_events_of_push(events: Seq<TxEvent>, ev: TxEvent, client: ClientId)
    ensures
        events_of(events.push(ev), client) == (if ev.client == client {
            events_of(events, client).push(ev)
        } else {
            events_of(events, client)
        }),
{
    events.lemma_filter_push(ev, |e: TxEvent| e.client == client);
}

/// A client with no event in `events` has no events there.
pub proof fn lemma_events_of_absent(events: Seq<TxEvent>, client: ClientId)
    requires
        forall|k: int| 0 <= k < events.len() ==> (#[trigger] events[k]).client != client,
    ensures
        events_of(events, client).len() == 0,
    decreases events.len(),
{
    if events.len() > 0 {
        let init = events.drop_last();
        assert(events == init.push(events.last()));
        lemma_events_of_absent(init, client);
        lemma_events_of_push(init, events.last(), client);
    }
}

/// Where every event is of `client`, the events of `client` are all of
/// them, in order.
pub proof fn lemma_events_of_single_client(events: Seq<TxEvent>, client: ClientId)
    requires
        forall|k: int| 0 <= k < events.len() ==> (#[trigger] events[k]).client == client,
    ensures
        events_of(events, client) == events,
    decreases events.len(),
{
    if events.len() > 0 {
        let init = events.drop_last();
        assert(events == init.push(events.last()));
        lemma_events_of_single_client(init, client);
        lemma_events_of_push(init, events.last(), client);
    } else {
        assert(events_of(events, client) == events) by {
            reveal(Seq::filter);
        }
    }
}

pub struct Dispatcher {
    lanes: Vec<ClientId>,
    closed: bool,
    routed: Ghost<Seq<TxEvent>>,
}

impl Dispatcher {
    /// The client of each lane, by lane index.
    pub closed spec fn lane_clients(&self) -> Seq<ClientId> {
        self.lanes@
    }

    /// Every event routed so far, in order.
    pub closed spec fn history(&self) -> Seq<TxEvent> {
        self.routed@
    }

    pub closed spec fn is_closed(&self) -> bool {
        self.closed
    }

    /// The events sent to lane `i`: those of its client, in input order.
    pub open spec fn lane_events(&self, i: int) -> Seq<TxEvent> {
        events_of(self.history(), self.lane_clients()[i])
    }

    /// Some routed event is of `client`.
    pub open spec fn has_event_of(&self, client: ClientId) -> bool {
        exists|k: int| 0 <= k < self.history().len() && (#[trigger] self.history()[k]).client == client
    }

    /// Lanes belong to distinct clients, and each client seen has a lane.
    pub open spec fn wf(&self) -> bool {
        &&& forall|i: int, j: int|
            0 <= i < j < self.lane_clients().len() ==> self.lane_clients()[i]
                != self.lane_clients()[j]
        &&& forall|k: int|
            0 <= k < self.history().len() ==> self.lane_clients().contains(
                (#[trigger] self.history()[k]).client,
            )
        &&& forall|i: int|
            0 <= i < self.lane_clients().len() ==> self.has_event_of(
                #[trigger] self.lane_clients()[i],
            )
    }

    /// A dispatcher with no lanes, accepting events.
    pub fn new() -> (r: Dispatcher)
        ensures
            r.wf(),
            r.lane_clients().len() == 0,
            r.history().len() == 0,
            !r.is_closed(),
    {
        Dispatcher { lanes: Vec::new(), closed: false, routed: Ghost(Seq::empty()) }
    }

    /// The number of lanes opened.
    pub fn lane_count(&self) -> (r: usize)
        ensures
            r == self.lane_clients().len(),
    {
        self.lanes.len()
    }

    /// Assigns `ev` to the lane of its client, opening one where the client
    /// is new. Refused once shutdown has begun.
    pub fn route(&mut self, ev: &TxEvent) -> (r: Result<Route, DispatchError>)
        requires
            old(self).wf(),
        ensures
            final(self).wf(),
            final(self).is_closed() == old(self).is_closed(),
            old(self).is_closed() ==> r == Err::<Route, DispatchError>(DispatchError::ShutDown)
                && final(self).lane_clients() == old(self).lane_clients()
                && final(self).history() == old(self).history(),
            !old(self).is_closed() ==> final(self).history() == old(self).history().push(*ev),
            !old(self).is_closed() ==> match r {
                Ok(Route::Open(i)) => i == old(self).lane_clients().len() && final(self).lane_clients() == old(self).lane_clients().push(ev.client) && !old(self).lane_clients().contains(ev.client),
                Ok(Route::Existing(i)) => i < old(self).lane_clients().len() && old(self).lane_clients()[i as int] == ev.client && final(self).lane_clients() == old(self).lane_clients(),
                Err(_) => false,
            },
            r matches Ok(route) ==> forall|i: int|
                0 <= i < final(self).lane_clients().len() ==> #[trigger] final(self).lane_events(i)
                    == (if i == route.index() {
                    events_of(old(self).history(), ev.client).push(*ev)
                } else {
                    events_of(old(self).history(), final(self).lane_clients()[i])
                }),
            r matches Ok(Route::Open(_)) ==> events_of(old(self).history(), ev.client).len() == 0,
    {
        if self.closed {
            return Err(DispatchError::ShutDown);
        }
        let ghost old_hist = self.routed@;
        let ghost old_lanes = self.lanes@;
        let route = match self.find_lane(ev.client) {
            Some(i) => Route::Existing(i),
            None => {
                let i = self.lanes.len();
                self.lanes.push(ev.client);
                proof {
                    assert forall|k: int| 0 <= k < old_hist.len() implies (#[trigger] old_hist[k]).client
                        != ev.client by {
                        assert(old_lanes.contains(old_hist[k].client));
                    }
                    lemma_events_of_absent(old_hist, ev.client);
                }
                Route::Open(i)
            },
        };
        self.routed = Ghost(old_hist.push(*ev));
        proof {
            let h = self.routed@;
            let l = self.lanes@;
            assert(h[h.len() - 1] == *ev);
            assert forall|k: int| 0 <= k < h.len() implies l.contains((#[trigger] h[k]).client) by {
                if k < old_hist.len() {
                    assert(old_hist[k] == h[k]);
                    let j = choose|j: int| 0 <= j < old_lanes.len() && old_lanes[j] == old_hist[k].client;
                    assert(l[j] == old_lanes[j]);
                } else {
                    assert(l[route.index() as int] == ev.client);
                }
            }
            assert forall|i: int| 0 <= i < l.len() implies self.has_event_of(#[trigger] l[i]) by {
                if i < old_lanes.len() {
                    assert(l[i] == old_lanes[i]);
                    assert(old(self).has_event_of(old_lanes[i]));
                    let k = choose|k: int| 0 <= k < old_hist.len() && (#[trigger] old_hist[k]).client == old_lanes[i];
                    assert(h[k] == old_hist[k]);
                } else {
                    assert(h[h.len() - 1].client == l[i]);
                }
            }
            assert forall|i: int| 0 <= i < l.len() implies #[trigger] self.lane_events(i) == (if i
                == route.index() {
                events_of(old_hist, ev.client).push(*ev)
            } else {
                events_of(old_hist, l[i])
            }) by {
                lemma_events_of_push(old_hist, *ev, l[i]);
            }
        }
        Ok(route)
    }

    /// Begins shutdown: no event is accepted after this.
    pub fn close(&mut self)
        requires
            old(self).wf(),
        ensures
            final(self).wf(),
            final(self).is_closed(),
            final(self).lane_clients() == old(self).lane_clients(),
            final(self).history() == old(self).history(),
    {
        self.closed = true;
        assert(self.lane_clients() == old(self).lane_clients());
        assert(self.history() == old(self).history());
        assert forall|i: int| 0 <= i < self.lane_clients().len() implies self.has_event_of(
            #[trigger] self.lane_clients()[i],
        ) by {
            assert(old(self).has_event_of(old(self).lane_clients()[i]));
            let k = choose|k: int|
                0 <= k < old(self).history().len() && (#[trigger] old(self).history()[k]).client
                    == old(self).lane_clients()[i];
            assert(self.history()[k] == old(self).history()[k]);
        }
    }

    /// The lane of `client`, if it has one.
    fn find_lane(&self, client: ClientId) -> (r: Option<usize>)
        ensures
            match r {
                Some(i) => i < self.lane_clients().len() && self.lane_clients()[i as int] == client,
                None => !self.lane_clients().contains(client),
            },
    {
        let mut i: usize = 0;
        while i < self.lanes.len()
            invariant
                0 <= i <= self.lanes@.len(),
                forall|j: int| 0 <= j < i ==> self.lanes@[j] != client,
            decreases self.lanes@.len() - i,
        {
            if self.lanes[i] == client {
                return Some(i);
            }
            i = i + 1;
        }
        None
    }
}

/// Events of one client, routed in order, all reach a single lane in that
/// order; its worker, applying them one after another, reaches the state
/// that applying the input sequentially reaches.
pub proof fn lemma_single_client_matches_sequential(d: Dispatcher, s: State, client: ClientId)
    requires
        d.wf(),
        d.history().len() > 0,
        forall|k: int| 0 <= k < d.history().len() ==> (#[trigger] d.history()[k]).client == client,
    ensures
        d.lane_clients() == seq![client],
        d.lane_events(0) == d.history(),
        apply_all(s, d.lane_events(0)) == apply_all(s, d.history()),
{
    let l = d.lane_clients();
    let h = d.history();
    assert(h[0].client == client);
    assert(l.contains(client));
    assert forall|i: int| 0 <= i < l.len() implies l[i] == client by {
        assert(d.has_event_of(l[i]));
        let k = choose|k: int| 0 <= k < h.len() && (#[trigger] h[k]).client == l[i];
    }
    if l.len() > 1 {
        assert(l[0] != l[1]);
    }
    assert(l =~= seq![client]);
    lemma_events_of_single_client(h, client);
}

} // verus!
