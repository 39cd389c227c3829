//! The route: a location string together with an optional typed payload.
use vstd::prelude::*;
use vstd::string::StringExecFns;

verus! {

/// `value` is a default value of the payload type: one that `T::default()`
/// may return.
pub open spec fn is_default<T: Default>(value: T) -> bool {
    call_ensures(T::default, (), value)
}

/// `value` is the payload, or a default value where there is no payload.
pub open spec fn is_payload_or_default<T: Default>(state: Option<T>, value: T) -> bool {
    match state {
        Some(s) => value == s,
        None => is_default(value),
    }
}

/// `same` is a possible outcome of comparing two routes: `false` where the
/// route strings differ or only one route has a payload, `true` where the
/// strings are equal and neither has a payload, and what the payloads' own
/// comparison gives where both have one.
pub open spec fn routes_compare<T: PartialEq>(a: &Route<T>, b: &Route<T>, same: bool) -> bool {
    if a.path@ != b.path@ {
        !same
    } else {
        match (a.state, b.state) {
            (None, None) => same,
            (Some(x), Some(y)) => call_ensures(T::eq, (&x, &y), same),
            _ => !same,
        }
    }
}

/// A location of the application: the route string and the payload stored
/// with the history entry, if any.
#[derive(Clone, Debug, PartialEq, Eq)]
pub struct Route<T> {
    /// Path, query and fragment in one string, each with its own separator.
    pub path: String,
    /// The payload of the history entry.
    pub state: Option<T>,
}

/// What a route says, as mathematical values.
pub struct RouteView<T> {
    pub path: Seq<char>,
    pub state: Option<T>,
}

impl<T> View for Route<T> {
    type V = RouteView<T>;

    open spec fn view(&self) -> RouteView<T> {
        RouteView { path: self.path@, state: self.state }
    }
}

impl<T> Route<T> {
    /// The route that is held before anything was read: an empty string and
    /// no payload.
    pub fn empty() -> (r: Route<T>)
        ensures
            r@.path == Seq::<char>::empty(),
            r@.state == Option::<T>::None,
    {
        Route { path: String::new(), state: None }
    }

    /// The route string, as it is handed to the navigation history.
    pub fn to_string(&self) -> (s: String)
        ensures
            s@ == self@.path,
    {
        self.path.clone()
    }
}

impl<T: PartialEq> Route<T> {
    /// Tells whether two routes have the same string and the same payload.
    pub fn same_route(&self, other: &Route<T>) -> (same: bool)
        ensures
            routes_compare(self, other, same),
    {
        if !(self.path == other.path) {
            return false;
        }
        match (&self.state, &other.state) {
            (None, None) => true,
            (Some(a), Some(b)) => a.eq(b),
            _ => false,
        }
    }
}

impl<T: Default> Route<T> {
    /// The payload of the route, or a default value where it has none.
    pub fn state_or_default(self) -> (s: T)
        ensures
            is_payload_or_default(self.state, s),
    {
        match self.state {
            Some(s) => s,
            None => T::default(),
        }
    }
}

/// Joins a path, a query and a fragment into one route string.
///
/// Each part is expected to carry its own separator (`?`, `#`); nothing is
/// inserted between them.
pub fn format_route_string(path: &str, query: &str, fragment: &str) -> (s: String)
    ensures
        s@ == path@ + query@ + fragment@,
{
    let mut s = String::from_str(path);
    s.append(query);
    s.append(fragment);
    s
}

} // verus!
