//! The navigation adapter as the library sees it.
//!
//! The service holds what was last read from the host's navigation history:
//! the three parts of the location and the string stored with the current
//! history entry. It computes the routes that follow from a reading and the
//! writes that have to be made; making them is left to the host.
use vstd::prelude::*;
use crate::route::{Route, format_route_string, is_default};

verus! {

/// The three parts of a location, each with its own separator.
#[derive(Clone, Debug, PartialEq, Eq)]
pub struct Location {
    pub path: String,
    pub query: String,
    pub fragment: String,
}

impl Location {
    /// The route string that the three parts make.
    pub open spec fn route_string(&self) -> Seq<char> {
        self.path@ + self.query@ + self.fragment@
    }
}

/// The two ways of writing to the navigation history.
#[derive(Clone, Copy, Debug, PartialEq, Eq, Structural)]
pub enum HistoryOp {
    /// Add a new entry after the current one.
    Push,
    /// Overwrite the current entry.
    Replace,
}

/// A write to the navigation history, ready to be made.
#[derive(Clone, Debug, PartialEq, Eq)]
pub struct HistoryWrite {
    pub op: HistoryOp,
    /// The route string to show.
    pub url: String,
    /// The encoded payload to store with the entry.
    pub state: String,
}

/// The encoded payload that is stored: the encoding where there is one, the
/// empty string where encoding failed.
pub open spec fn stored_state(encoded: Option<String>) -> Seq<char> {
    match encoded {
        Some(s) => s@,
        None => Seq::<char>::empty(),
    }
}

/// `value` is the payload that a reading yields: the decoded value where the
/// entry held a string and it could be decoded, a default value otherwise.
pub open spec fn is_recovered_state<T: Default>(stored: bool, decoded: Option<T>, value: T) -> bool {
    if stored && decoded is Some {
        value == decoded->Some_0
    } else {
        is_default(value)
    }
}

/// What was last read from the navigation history.
#[derive(Debug)]
pub struct RouteService {
    location: Location,
    history_state: Option<String>,
}

impl RouteService {
    /// The location that was read.
    pub closed spec fn location(&self) -> Location {
        self.location
    }

    /// The string stored with the current history entry, if any.
    pub closed spec fn history_state(&self) -> Option<String> {
        self.history_state
    }

    /// Creates the service from a reading of the navigation history.
    pub fn new(location: Location, history_state: Option<String>) -> (s: RouteService)
        ensures
            s.location() == location,
            s.history_state() == history_state,
    {
        RouteService { location, history_state }
    }

    /// The location that was read.
    pub fn current_location(&self) -> (l: &Location)
        ensures
            *l == self.location(),
    {
        &self.location
    }

    /// Joins the three parts of a location into a route string.
    pub fn get_route_from_location(location: &Location) -> (s: String)
        ensures
            s@ == location.route_string(),
    {
        format_route_string(
            location.path.as_str(),
            location.query.as_str(),
            location.fragment.as_str(),
        )
    }

    /// Gets the path name of the current url.
    pub fn get_path(&self) -> (s: String)
        ensures
            s@ == self.location().path@,
    {
        self.location.path.clone()
    }

    /// Gets the query string of the current url.
    pub fn get_query(&self) -> (s: String)
        ensures
            s@ == self.location().query@,
    {
        self.location.query.clone()
    }

    /// Gets the fragment of the current url.
    pub fn get_fragment(&self) -> (s: String)
        ensures
            s@ == self.location().fragment@,
    {
        self.location.fragment.clone()
    }

    /// The string stored with the current history entry, if any.
    pub fn get_history_state(&self) -> (s: Option<String>)
        ensures
            s is Some == self.history_state() is Some,
            s is Some ==> s->Some_0@ == self.history_state()->Some_0@,
    {
        match &self.history_state {
            Some(s) => Some(s.clone()),
            None => None,
        }
    }

    /// The write that shows `route` in a new history entry.
    ///
    /// `encoded` is the payload in its encoded form, or `None` where it could
    /// not be encoded; the entry then stores the empty string.
    pub fn set_route(route: &str, encoded: Option<String>) -> (w: HistoryWrite)
        ensures
            w.op == HistoryOp::Push,
            w.url@ == route@,
            w.state@ == stored_state(encoded),
    {
        HistoryWrite { op: HistoryOp::Push, url: route.to_owned(), state: state_string(encoded) }
    }

    /// The write that shows `route` in place of the current history entry.
    ///
    /// `encoded` is the payload in its encoded form, or `None` where it could
    /// not be encoded; the entry then stores the empty string.
    pub fn replace_route(route: &str, encoded: Option<String>) -> (w: HistoryWrite)
        ensures
            w.op == HistoryOp::Replace,
            w.url@ == route@,
            w.state@ == stored_state(encoded),
    {
        HistoryWrite { op: HistoryOp::Replace, url: route.to_owned(), state: state_string(encoded) }
    }

    /// The route that the reading stands for.
    ///
    /// `decoded` is what decoding the stored string gave, `None` where it
    /// failed or gave no payload. The route always carries a payload: the
    /// decoded one, or a default value where nothing was stored or nothing
    /// could be decoded.
    pub fn get_route<T: Default>(&self, decoded: Option<T>) -> (r: Route<T>)
        ensures
            r@.path == self.location().route_string(),
            r@.state is Some,
            is_recovered_state(self.history_state() is Some, decoded, r@.state->Some_0),
    {
        let path = Self::get_route_from_location(&self.location);
        let state = match (&self.history_state, decoded) {
            (Some(_), Some(s)) => s,
            _ => T::default(),
        };
        Route { path, state: Some(state) }
    }

    /// The route that a navigation event announces.
    ///
    /// The event carries a payload string only; the location is the one read
    /// afresh when the event arrives. `decoded` is what decoding the event's
    /// string gave, `None` where it failed, and then a default value takes
    /// its place.
    pub fn navigation_route<T: Default>(location: &Location, decoded: Option<T>) -> (r: Route<T>)
        ensures
            r@.path == location.route_string(),
            r@.state is Some,
            is_recovered_state(true, decoded, r@.state->Some_0),
    {
        let path = Self::get_route_from_location(location);
        let state = match decoded {
            Some(s) => s,
            None => T::default(),
        };
        Route { path, state: Some(state) }
    }
}

/// The string to store for a payload: its encoding, or the empty string where
/// it has none.
pub fn state_string(encoded: Option<String>) -> (s: String)
    ensures
        s@ == stored_state(encoded),
{
    match encoded {
        Some(s) => s,
        None => String::new(),
    }
}

} // verus!
