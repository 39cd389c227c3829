//! The routing agent: the one owner of the canonical route.
//!
//! The agent keeps the set of connected subscribers and the last reading of
//! the navigation history. For every request it decides what has to be written
//! to the history and who is told about the outcome; the host makes the write,
//! reads the history again and hands the reading back.
use vstd::prelude::*;
use vstd::std_specs::hash::spec_hash_keys_iter;
use vstd::std_specs::iter::IteratorSpec;
use std::collections::HashSet;
use crate::route::{Route, is_payload_or_default};
use crate::service::{HistoryOp, RouteService, is_recovered_state};

verus! {

/// Internal message of the agent.
#[derive(Debug)]
pub enum Msg<T> {
    /// The browser moved to another history entry; the message carries the
    /// route string of the event and the payload decoded from it.
    BrowserNavigationRouteChanged((String, T)),
}

/// What a caller may ask of the agent.
#[derive(Debug)]
pub enum RouteRequest<T> {
    /// Replaces the current history entry and tells every subscriber.
    ReplaceRoute(Route<T>),
    /// Replaces the current history entry and tells nobody.
    ReplaceRouteNoBroadcast(Route<T>),
    /// Adds a history entry and tells every subscriber.
    ChangeRoute(Route<T>),
    /// Adds a history entry and tells nobody.
    ChangeRouteNoBroadcast(Route<T>),
    /// Asks for the current route; only the requester is answered.
    GetCurrentRoute,
}

/// The identity of one connection to the agent.
///
/// A connection that can be answered belongs to a subscriber. One that cannot
/// belongs to a sender that only writes: it is never registered and never
/// receives a route.
#[derive(Clone, Copy, Debug, PartialEq, Eq, Hash, Structural)]
pub struct HandlerId {
    /// The number of the connection, unique among the open connections.
    pub raw: u64,
    /// Whether routes can be sent to the connection.
    pub respondable: bool,
}

/// Who is told about the outcome of a request.
#[derive(Clone, Copy, Debug, PartialEq, Eq, Structural)]
pub enum Audience {
    /// No message is sent.
    Nobody,
    /// Only the sender of the request is answered.
    Requester,
    /// Every connected subscriber is told.
    Subscribers,
}

/// A write to the navigation history that a request asks for; the payload is
/// still to be encoded.
#[derive(Debug)]
pub struct PendingWrite<T> {
    pub op: HistoryOp,
    pub url: String,
    pub state: T,
}

/// What the agent decided for one request.
#[derive(Debug)]
pub struct Directive<T> {
    /// The write to make first, if any.
    pub write: Option<PendingWrite<T>>,
    /// Who is told afterwards.
    pub audience: Audience,
}

/// One route and the numbers of the connections that receive it, each once.
#[derive(Debug)]
pub struct Delivery<T> {
    pub recipients: Vec<u64>,
    pub route: Route<T>,
}

/// The operation that a request asks for and the route that it is made
/// with; nothing for a request that only reads.
pub open spec fn written_route<T>(request: RouteRequest<T>) -> Option<(HistoryOp, Route<T>)> {
    match request {
        RouteRequest::ReplaceRoute(r) => Some((HistoryOp::Replace, r)),
        RouteRequest::ReplaceRouteNoBroadcast(r) => Some((HistoryOp::Replace, r)),
        RouteRequest::ChangeRoute(r) => Some((HistoryOp::Push, r)),
        RouteRequest::ChangeRouteNoBroadcast(r) => Some((HistoryOp::Push, r)),
        RouteRequest::GetCurrentRoute => None,
    }
}

/// `write` is what a request asks to be written: nothing for a request that
/// only reads; else the request's operation, the string of its route, and
/// the payload of its route or a default value where the route has none.
pub open spec fn is_write_of<T: Default>(
    request: RouteRequest<T>,
    write: Option<PendingWrite<T>>,
) -> bool {
    match written_route(request) {
        None => write is None,
        Some((op, route)) => {
            &&& write is Some
            &&& write->Some_0.op == op
            &&& write->Some_0.url@ == route.path@
            &&& is_payload_or_default(route.state, write->Some_0.state)
        },
    }
}

/// Who is told about the outcome of a request.
pub open spec fn audience_of<T>(request: RouteRequest<T>) -> Audience {
    match request {
        RouteRequest::ReplaceRoute(_) => Audience::Subscribers,
        RouteRequest::ReplaceRouteNoBroadcast(_) => Audience::Nobody,
        RouteRequest::ChangeRoute(_) => Audience::Subscribers,
        RouteRequest::ChangeRouteNoBroadcast(_) => Audience::Nobody,
        RouteRequest::GetCurrentRoute => Audience::Requester,
    }
}

/// The connections that an audience stands for, by their numbers. A requester
/// that cannot be answered receives nothing.
pub open spec fn recipients_of(audience: Audience, who: HandlerId, subscribers: Set<u64>) -> Set<
    u64,
> {
    match audience {
        Audience::Nobody => Set::empty(),
        Audience::Requester => if who.respondable {
            set![who.raw]
        } else {
            Set::empty()
        },
        Audience::Subscribers => subscribers,
    }
}

/// The routing agent.
#[derive(Debug)]
pub struct RouteAgent {
    route_service: RouteService,
    subscribers: HashSet<u64>,
}

impl RouteAgent {
    /// The numbers of the connected subscribers.
    pub closed spec fn subscribers(&self) -> Set<u64> {
        self.subscribers@
    }

    /// The last reading of the navigation history.
    pub closed spec fn service(&self) -> RouteService {
        self.route_service
    }

    /// Creates the agent around a first reading, with no subscriber.
    pub fn new(route_service: RouteService) -> (agent: RouteAgent)
        ensures
            agent.subscribers() == Set::<u64>::empty(),
            agent.service() == route_service,
    {
        broadcast use vstd::std_specs::hash::group_hash_axioms;

        RouteAgent { route_service, subscribers: HashSet::new() }
    }

    /// Tells whether the connection is registered as a subscriber.
    pub fn is_connected(&self, id: HandlerId) -> (b: bool)
        ensures
            b == (id.respondable && self.subscribers().contains(id.raw)),
    {
        broadcast use vstd::std_specs::hash::group_hash_axioms;

        id.respondable && self.subscribers.contains(&id.raw)
    }

    /// The number of connected subscribers.
    pub fn subscriber_count(&self) -> (n: usize)
        ensures
            n == self.subscribers().len(),
    {
        broadcast use vstd::std_specs::hash::group_hash_axioms;

        self.subscribers.len()
    }

    /// Registers a connection that can be answered as a subscriber; one that
    /// is registered already stays registered once. A connection that cannot
    /// be answered is not registered.
    pub fn connected(&mut self, id: HandlerId)
        ensures
            final(self).subscribers() == subscribers_with(old(self).subscribers(), id),
            final(self).service() == old(self).service(),
    {
        broadcast use vstd::std_specs::hash::group_hash_axioms;

        if id.respondable {
            self.subscribers.insert(id.raw);
        }
    }

    /// Removes a subscriber. Removing a connection that is not registered
    /// changes nothing.
    pub fn disconnected(&mut self, id: HandlerId)
        ensures
            final(self).subscribers() == subscribers_without(old(self).subscribers(), id),
            final(self).service() == old(self).service(),
    {
        broadcast use vstd::std_specs::hash::group_hash_axioms;

        if id.respondable {
            self.subscribers.remove(&id.raw);
        }
    }

    /// The last reading of the navigation history.
    pub fn route_service(&self) -> (service: &RouteService)
        ensures
            *service == self.service(),
    {
        &self.route_service
    }

    /// Decides what a request asks for: the write to make to the navigation
    /// history, with the payload of the route or a default value where it has
    /// none, and who is told once the history has been read again.
    /// The agent does not change, and the decision does not depend on the
    /// sender: the sender matters only when the outcome is delivered.
    pub fn handle_input<T: Default>(&self, msg: RouteRequest<T>, _who: HandlerId) -> (d: Directive<
        T,
    >)
        ensures
            is_write_of(msg, d.write),
            d.audience == audience_of(msg),
    {
        match msg {
            RouteRequest::ReplaceRoute(route) => Directive {
                write: Some(Self::pending(HistoryOp::Replace, route)),
                audience: Audience::Subscribers,
            },
            RouteRequest::ReplaceRouteNoBroadcast(route) => Directive {
                write: Some(Self::pending(HistoryOp::Replace, route)),
                audience: Audience::Nobody,
            },
            RouteRequest::ChangeRoute(route) => Directive {
                write: Some(Self::pending(HistoryOp::Push, route)),
                audience: Audience::Subscribers,
            },
            RouteRequest::ChangeRouteNoBroadcast(route) => Directive {
                write: Some(Self::pending(HistoryOp::Push, route)),
                audience: Audience::Nobody,
            },
            RouteRequest::GetCurrentRoute => Directive { write: None, audience: Audience::Requester },
        }
    }

    fn pending<T: Default>(op: HistoryOp, route: Route<T>) -> (w: PendingWrite<T>)
        ensures
            w.op == op,
            w.url@ == route.path@,
            is_payload_or_default(route.state, w.state),
    {
        let url = route.to_string();
        PendingWrite { op, url, state: route.state_or_default() }
    }

    /// The numbers of all subscribers, each once, in no particular order.
    pub fn all_subscribers(&self) -> (ids: Vec<u64>)
        ensures
            ids@.no_duplicates(),
            ids@.to_set() == self.subscribers(),
    {
        broadcast use vstd::std_specs::hash::group_hash_axioms;

        let mut ids: Vec<u64> = Vec::new();
        for id in walk: self.subscribers.iter()
            invariant
                ids@.len() == walk.index(),
                walk.seq() == spec_hash_keys_iter(&self.subscribers).remaining(),
                forall|j: int| 0 <= j < ids@.len() ==> ids@[j] == *walk.seq()[j],
        {
            ids.push(*id);
        }
        assert(ids@ =~= spec_hash_keys_iter(&self.subscribers).remaining().unref());
        ids
    }

    /// The connections that an audience stands for, each once.
    pub fn recipients(&self, audience: Audience, who: HandlerId) -> (ids: Vec<u64>)
        ensures
            ids@.no_duplicates(),
            ids@.to_set() == recipients_of(audience, who, self.subscribers()),
    {
        match audience {
            Audience::Nobody => {
                let ids: Vec<u64> = Vec::new();
                assert(ids@.to_set() =~= Set::<u64>::empty());
                ids
            },
            Audience::Requester => {
                let mut ids: Vec<u64> = Vec::new();
                if who.respondable {
                    ids.push(who.raw);
                    assert(ids@ =~= seq![who.raw]);
                    assert(ids@.to_set() =~= set![who.raw]) by {
                        assert(ids@[0] == who.raw);
                    }
                } else {
                    assert(ids@.to_set() =~= Set::<u64>::empty());
                }
                ids
            },
            Audience::Subscribers => self.all_subscribers(),
        }
    }

    /// Answers a request once the navigation history has been read again:
    /// the agent keeps the new reading, and the route that it stands for goes
    /// to the audience that the request was given, to each recipient once.
    /// The route is taken from the reading, never from the request.
    ///
    /// `decoded` is what decoding the stored payload string gave, `None`
    /// where it failed; a default value then takes its place.
    pub fn deliver<T: Default>(
        &mut self,
        audience: Audience,
        who: HandlerId,
        reading: RouteService,
        decoded: Option<T>,
    ) -> (d: Delivery<T>)
        ensures
            final(self).service() == reading,
            final(self).subscribers() == old(self).subscribers(),
            d.recipients@.no_duplicates(),
            d.recipients@.to_set() == recipients_of(audience, who, old(self).subscribers()),
            d.route@.path == reading.location().route_string(),
            d.route@.state is Some,
            is_recovered_state(reading.history_state() is Some, decoded, d.route@.state->Some_0),
    {
        self.route_service = reading;
        let route = self.route_service.get_route(decoded);
        Delivery { recipients: self.recipients(audience, who), route }
    }

    /// Handles a navigation that the browser made by itself: the agent keeps
    /// the reading made when the event arrived, and every subscriber is
    /// told, each once, of the location of that reading together with the
    /// payload that the event carried. The route string of the event is not
    /// used.
    pub fn update<T>(&mut self, msg: Msg<T>, reading: RouteService) -> (d: Delivery<T>)
        ensures
            final(self).service() == reading,
            final(self).subscribers() == old(self).subscribers(),
            d.recipients@.no_duplicates(),
            d.recipients@.to_set() == old(self).subscribers(),
            d.route@.path == reading.location().route_string(),
            d.route@.state == Some(msg->BrowserNavigationRouteChanged_0.1),
    {
        self.route_service = reading;
        match msg {
            Msg::BrowserNavigationRouteChanged((_route_string, state)) => {
                let path = RouteService::get_route_from_location(
                    self.route_service.current_location(),
                );
                let route = Route { path, state: Some(state) };
                Delivery { recipients: self.all_subscribers(), route }
            },
        }
    }
}

/// One thing that happens to the agent.
pub enum AgentEvent<T> {
    /// A connection was opened.
    Connected(HandlerId),
    /// A connection was closed.
    Disconnected(HandlerId),
    /// A request arrived from the given sender.
    Input(RouteRequest<T>, HandlerId),
    /// The browser moved to another history entry by itself.
    BrowserNavigation,
}

/// The subscribers after a connection was opened: it is among them where it
/// can be answered.
pub open spec fn subscribers_with(subscribers: Set<u64>, id: HandlerId) -> Set<u64> {
    if id.respondable {
        subscribers.insert(id.raw)
    } else {
        subscribers
    }
}

/// The subscribers after a connection was closed.
pub open spec fn subscribers_without(subscribers: Set<u64>, id: HandlerId) -> Set<u64> {
    if id.respondable {
        subscribers.remove(id.raw)
    } else {
        subscribers
    }
}

/// The subscribers that are connected after a run of events.
pub open spec fn subscribers_after<T>(initial: Set<u64>, events: Seq<AgentEvent<T>>) -> Set<u64>
    decreases events.len(),
{
    if events.len() == 0 {
        initial
    } else {
        let before = subscribers_after(initial, events.drop_last());
        match events.last() {
            AgentEvent::Connected(id) => subscribers_with(before, id),
            AgentEvent::Disconnected(id) => subscribers_without(before, id),
            _ => before,
        }
    }
}

/// The connections that receive a route because of one event, given the
/// subscribers connected when it happens.
pub open spec fn notified<T>(subscribers: Set<u64>, event: AgentEvent<T>) -> Set<u64> {
    match event {
        AgentEvent::Input(request, who) => recipients_of(audience_of(request), who, subscribers),
        AgentEvent::BrowserNavigation => subscribers,
        _ => Set::empty(),
    }
}

/// The positions of the events that brought `id` a route, in the order in
/// which the routes arrive.
pub open spec fn inbox<T>(initial: Set<u64>, events: Seq<AgentEvent<T>>, id: u64) -> Seq<int>
    decreases events.len(),
{
    if events.len() == 0 {
        Seq::empty()
    } else {
        let earlier = events.drop_last();
        let before = inbox(initial, earlier, id);
        if notified(subscribers_after(initial, earlier), events.last()).contains(id) {
            before.push(events.len() - 1)
        } else {
            before
        }
    }
}

/// Routes arrive in the order in which their events happened, and no event
/// brings the same connection two routes.
pub proof fn lemma_inbox_in_order<T>(initial: Set<u64>, events: Seq<AgentEvent<T>>, id: u64)
    ensures
        forall|i: int|
            0 <= i < inbox(initial, events, id).len() ==> 0 <= #[trigger] inbox(
                initial,
                events,
                id,
            )[i] < events.len(),
        forall|i: int, j: int|
            0 <= i < j < inbox(initial, events, id).len() ==> inbox(initial, events, id)[i]
                < inbox(initial, events, id)[j],
    decreases events.len(),
{
    let now = inbox(initial, events, id);
    if events.len() > 0 {
        let earlier = events.drop_last();
        let before = inbox(initial, earlier, id);
        lemma_inbox_in_order(initial, earlier, id);
        assert forall|i: int| 0 <= i < now.len() implies 0 <= #[trigger] now[i] < events.len() by {
            if i < before.len() {
                assert(now[i] == before[i]);
            }
        }
        assert forall|i: int, j: int| 0 <= i < j < now.len() implies now[i] < now[j] by {
            assert(now[i] == before[i]);
            if j < before.len() {
                assert(now[j] == before[j]);
            }
        }
    }
}

/// An event brings `id` a route exactly where `id` is among those it
/// notifies, given the subscribers connected when it happens.
pub proof fn lemma_inbox_holds<T>(
    initial: Set<u64>,
    events: Seq<AgentEvent<T>>,
    id: u64,
    k: int,
)
    requires
        0 <= k < events.len(),
    ensures
        inbox(initial, events, id).contains(k) <==> notified(
            subscribers_after(initial, events.take(k)),
            events[k],
        ).contains(id),
    decreases events.len(),
{
    let earlier = events.drop_last();
    let before = inbox(initial, earlier, id);
    let now = inbox(initial, events, id);
    let last = events.len() - 1;
    lemma_inbox_in_order(initial, earlier, id);
    if k == last {
        assert(events.take(k) =~= earlier);
        if notified(subscribers_after(initial, earlier), events.last()).contains(id) {
            assert(now[before.len() as int] == k);
        } else {
            if now.contains(k) {
                let i = choose|i: int| 0 <= i < now.len() && now[i] == k;
                assert(before[i] < earlier.len());
            }
        }
    } else {
        lemma_inbox_holds(initial, earlier, id, k);
        assert(earlier.take(k) =~= events.take(k));
        assert(earlier[k] == events[k]);
        if before.contains(k) {
            let i = choose|i: int| 0 <= i < before.len() && before[i] == k;
            assert(now[i] == k);
        }
        if now.contains(k) {
            let i = choose|i: int| 0 <= i < now.len() && now[i] == k;
            assert(i < before.len());
            assert(before[i] == k);
        }
    }
}

/// Every subscriber that is connected when a `ChangeRoute` or `ReplaceRoute`
/// request arrives, or when the browser navigates by itself, receives the
/// route of that event, once and in its turn; nobody else receives it.
pub proof fn lemma_broadcast_reaches_subscribers<T>(
    initial: Set<u64>,
    events: Seq<AgentEvent<T>>,
    id: u64,
    k: int,
)
    requires
        0 <= k < events.len(),
        match events[k] {
            AgentEvent::Input(request, _) => request is ChangeRoute || request is ReplaceRoute,
            AgentEvent::BrowserNavigation => true,
            _ => false,
        },
    ensures
        inbox(initial, events, id).contains(k) <==> subscribers_after(
            initial,
            events.take(k),
        ).contains(id),
{
    lemma_inbox_holds(initial, events, id, k);
}

/// A request of a `NoBroadcast` kind brings nobody a route, and a request for
/// the current route brings one to its sender alone, where the sender can be
/// answered, and to nobody where it cannot.
pub proof fn lemma_silent_requests<T>(
    initial: Set<u64>,
    events: Seq<AgentEvent<T>>,
    id: u64,
    k: int,
)
    requires
        0 <= k < events.len(),
        events[k] is Input,
    ensures
        (events[k]->Input_0 is ChangeRouteNoBroadcast || events[k]->Input_0
            is ReplaceRouteNoBroadcast) ==> !inbox(initial, events, id).contains(k),
        events[k]->Input_0 is GetCurrentRoute ==> (inbox(initial, events, id).contains(k) <==> (
            events[k]->Input_1.respondable && id == events[k]->Input_1.raw)),
{
    lemma_inbox_holds(initial, events, id, k);
}

/// The event is a `ChangeRoute` or a `ReplaceRoute` request.
pub open spec fn is_broadcasting_request<T>(event: AgentEvent<T>) -> bool {
    event is Input && (event->Input_0 is ChangeRoute || event->Input_0 is ReplaceRoute)
}

/// The event is a `ChangeRouteNoBroadcast` or a `ReplaceRouteNoBroadcast`
/// request.
pub open spec fn is_silent_request<T>(event: AgentEvent<T>) -> bool {
    event is Input && (event->Input_0 is ChangeRouteNoBroadcast || event->Input_0
        is ReplaceRouteNoBroadcast)
}

/// A run of requests opens and closes no connection.
pub proof fn lemma_requests_keep_subscribers<T>(initial: Set<u64>, events: Seq<AgentEvent<T>>)
    requires
        forall|k: int| 0 <= k < events.len() ==> (#[trigger] events[k]) is Input,
    ensures
        subscribers_after(initial, events) == initial,
    decreases events.len(),
{
    if events.len() > 0 {
        let earlier = events.drop_last();
        assert forall|k: int| 0 <= k < earlier.len() implies (#[trigger] earlier[k]) is Input by {
            assert(earlier[k] == events[k]);
        }
        lemma_requests_keep_subscribers(initial, earlier);
        assert(events.last() == events[events.len() - 1]);
    }
}

/// Over any run of `ChangeRoute` and `ReplaceRoute` requests, a connected
/// subscriber receives exactly one route for each request, in the order in
/// which the requests were made.
pub proof fn lemma_one_route_per_broadcast<T>(
    initial: Set<u64>,
    events: Seq<AgentEvent<T>>,
    id: u64,
)
    requires
        initial.contains(id),
        forall|k: int| 0 <= k < events.len() ==> is_broadcasting_request(#[trigger] events[k]),
    ensures
        inbox(initial, events, id) == Seq::new(events.len(), |k: int| k),
    decreases events.len(),
{
    if events.len() > 0 {
        let earlier = events.drop_last();
        assert forall|k: int| 0 <= k < earlier.len() implies is_broadcasting_request(
            #[trigger] earlier[k],
        ) by {
            assert(earlier[k] == events[k]);
        }
        assert forall|k: int| 0 <= k < earlier.len() implies (#[trigger] earlier[k]) is Input by {
            assert(is_broadcasting_request(earlier[k]));
        }
        lemma_one_route_per_broadcast(initial, earlier, id);
        lemma_requests_keep_subscribers(initial, earlier);
        assert(is_broadcasting_request(events[events.len() - 1]));
        assert(inbox(initial, events, id) =~= Seq::new(events.len(), |k: int| k));
    } else {
        assert(inbox(initial, events, id) =~= Seq::new(events.len(), |k: int| k));
    }
}

/// Over any run of `ChangeRouteNoBroadcast` and `ReplaceRouteNoBroadcast`
/// requests, nobody receives a route.
pub proof fn lemma_silent_run<T>(initial: Set<u64>, events: Seq<AgentEvent<T>>, id: u64)
    requires
        forall|k: int| 0 <= k < events.len() ==> is_silent_request(#[trigger] events[k]),
    ensures
        inbox(initial, events, id) == Seq::<int>::empty(),
    decreases events.len(),
{
    if events.len() > 0 {
        let earlier = events.drop_last();
        assert forall|k: int| 0 <= k < earlier.len() implies is_silent_request(
            #[trigger] earlier[k],
        ) by {
            assert(earlier[k] == events[k]);
        }
        lemma_silent_run(initial, earlier, id);
        assert(is_silent_request(events[events.len() - 1]));
    }
}

} // verus!
