//! Route resolution: an ordered list of routing options, of which the first
//! that matches the route decides what is shown, and the view that hosts it.
use vstd::prelude::*;
use std::rc::Rc;
use crate::agent::RouteRequest;
use crate::route::{Route, routes_compare};

verus! {

/// Properties that can be derived from a route.
pub trait FromPath<T>: Sized {
    /// Derives the properties from a route, where it gives any.
    fn from_path(path: &Route<T>) -> Option<Self>;
}

/// One entry of the list: a way to turn a route into something to show, or
/// into nothing.
///
/// `P` maps a route to optional properties, `B` builds what is shown from
/// properties, `D` maps a route to an optional result directly, and `K` maps
/// every route to a result.
pub enum RouterOption<P, B, D, K> {
    /// Properties taken from the route by a condition, then built.
    Component { condition: P, build: B },
    /// Properties derived from the route by the property type itself, then
    /// built.
    ComponentFromPath(B),
    /// A result made from the route directly.
    Render(D),
    /// A result for every route. No option after this one is ever reached.
    Children(K),
}

/// The outcome of a resolution.
pub enum Resolution<R> {
    /// The option at `index` was the first to match and gave `view`.
    Matched { index: usize, view: R },
    /// No option matched: nothing is shown.
    NoMatch,
}

impl<P, B, D, K> RouterOption<P, B, D, K> {
    /// Takes a condition that extracts the properties of a component from the
    /// route, and the function that builds the component from them.
    pub fn component(routing_condition: P, build: B) -> (o: Self)
        ensures
            o == (RouterOption::<P, B, D, K>::Component { condition: routing_condition, build }),
    {
        RouterOption::Component { condition: routing_condition, build }
    }

    /// For properties that can be derived from a route by themselves: takes
    /// only the function that builds the component.
    pub fn component_from_path(build: B) -> (o: Self)
        ensures
            o == RouterOption::<P, B, D, K>::ComponentFromPath(build),
    {
        RouterOption::ComponentFromPath(build)
    }

    /// If the routing condition returns a result, that result is shown.
    pub fn render(routing_condition: D) -> (o: Self)
        ensures
            o == RouterOption::<P, B, D, K>::Render(routing_condition),
    {
        RouterOption::Render(routing_condition)
    }

    /// This option is shown whatever the route is. It prevents every option
    /// below it from matching.
    pub fn children(routing_condition: K) -> (o: Self)
        ensures
            o == RouterOption::<P, B, D, K>::Children(routing_condition),
    {
        RouterOption::Children(routing_condition)
    }

    /// The option can be evaluated on the route: each function it holds
    /// accepts what it is given.
    pub open spec fn accepts<T, R, Q>(&self, route: &Route<T>) -> bool where
        P: Fn(&Route<T>) -> Option<Q>,
        B: Fn(Q) -> R,
        D: Fn(&Route<T>) -> Option<R>,
        K: Fn(&Route<T>) -> R,
        Q: FromPath<T>,
     {
        match self {
            RouterOption::Component { condition, build } => {
                &&& call_requires(*condition, (route,))
                &&& forall|q: Q| #[trigger]
                    call_ensures(*condition, (route,), Some(q)) ==> call_requires(*build, (q,))
            },
            RouterOption::ComponentFromPath(build) => {
                &&& call_requires(Q::from_path, (route,))
                &&& forall|q: Q| #[trigger]
                    call_ensures(Q::from_path, (route,), Some(q)) ==> call_requires(*build, (q,))
            },
            RouterOption::Render(condition) => call_requires(*condition, (route,)),
            RouterOption::Children(condition) => call_requires(*condition, (route,)),
        }
    }

    /// `out` is a possible outcome of evaluating the option on the route.
    pub open spec fn yields<T, R, Q>(&self, route: &Route<T>, out: Option<R>) -> bool where
        P: Fn(&Route<T>) -> Option<Q>,
        B: Fn(Q) -> R,
        D: Fn(&Route<T>) -> Option<R>,
        K: Fn(&Route<T>) -> R,
        Q: FromPath<T>,
     {
        match self {
            RouterOption::Component { condition, build } => match out {
                Some(view) => exists|q: Q| #[trigger]
                    call_ensures(*condition, (route,), Some(q)) && call_ensures(
                        *build,
                        (q,),
                        view,
                    ),
                None => call_ensures(*condition, (route,), None),
            },
            RouterOption::ComponentFromPath(build) => match out {
                Some(view) => exists|q: Q| #[trigger]
                    call_ensures(Q::from_path, (route,), Some(q)) && call_ensures(
                        *build,
                        (q,),
                        view,
                    ),
                None => call_ensures(Q::from_path, (route,), None),
            },
            RouterOption::Render(condition) => call_ensures(*condition, (route,), out),
            RouterOption::Children(condition) => out is Some && call_ensures(
                *condition,
                (route,),
                out->Some_0,
            ),
        }
    }

    /// Evaluates the option on the route.
    pub fn resolve<T, R, Q>(&self, route: &Route<T>) -> (out: Option<R>) where
        P: Fn(&Route<T>) -> Option<Q>,
        B: Fn(Q) -> R,
        D: Fn(&Route<T>) -> Option<R>,
        K: Fn(&Route<T>) -> R,
        Q: FromPath<T>,

        requires
            self.accepts::<T, R, Q>(route),
        ensures
            self.yields::<T, R, Q>(route, out),
    {
        match self {
            RouterOption::Component { condition, build } => match condition(route) {
                Some(q) => Some(build(q)),
                None => None,
            },
            RouterOption::ComponentFromPath(build) => match Q::from_path(route) {
                Some(q) => Some(build(q)),
                None => None,
            },
            RouterOption::Render(condition) => condition(route),
            RouterOption::Children(condition) => Some(condition(route)),
        }
    }
}

/// `res` is a possible outcome of resolving the route over the options in
/// order: the winner gave its view and every option before it gave nothing;
/// or there is no winner and every option gave nothing.
pub open spec fn resolves<T, R, Q, P, B, D, K>(
    route_options: Seq<RouterOption<P, B, D, K>>,
    route: &Route<T>,
    res: Resolution<R>,
) -> bool where
    P: Fn(&Route<T>) -> Option<Q>,
    B: Fn(Q) -> R,
    D: Fn(&Route<T>) -> Option<R>,
    K: Fn(&Route<T>) -> R,
    Q: FromPath<T>,
 {
    match res {
        Resolution::Matched { index, view } => {
            &&& index < route_options.len()
            &&& route_options[index as int].yields::<T, R, Q>(route, Some(view))
            &&& forall|j: int|
                0 <= j < index ==> (#[trigger] route_options[j]).yields::<T, R, Q>(route, None)
        },
        Resolution::NoMatch => forall|j: int|
            0 <= j < route_options.len() ==> (#[trigger] route_options[j]).yields::<T, R, Q>(
                route,
                None,
            ),
    }
}

/// Routes the first option that matches. Options are evaluated in order, and
/// none is evaluated after the first that gave a result; where none gives
/// one, nothing is shown.
pub fn route_one_of<T, R, Q, P, B, D, K>(
    route_options: &[RouterOption<P, B, D, K>],
    route: &Route<T>,
) -> (res: Resolution<R>) where
    P: Fn(&Route<T>) -> Option<Q>,
    B: Fn(Q) -> R,
    D: Fn(&Route<T>) -> Option<R>,
    K: Fn(&Route<T>) -> R,
    Q: FromPath<T>,

    requires
        forall|i: int|
            0 <= i < route_options@.len() ==> (#[trigger] route_options@[i]).accepts::<T, R, Q>(
                route,
            ),
    ensures
        resolves::<T, R, Q, P, B, D, K>(route_options@, route, res),
{
    let mut i: usize = 0;
    while i < route_options.len()
        invariant
            i <= route_options@.len(),
            forall|k: int|
                0 <= k < route_options@.len() ==> (#[trigger] route_options@[k]).accepts::<
                    T,
                    R,
                    Q,
                >(route),
            forall|j: int|
                0 <= j < i ==> (#[trigger] route_options@[j]).yields::<T, R, Q>(route, None),
        decreases route_options@.len() - i,
    {
        match route_options[i].resolve::<T, R, Q>(route) {
            Some(view) => {
                return Resolution::Matched { index: i, view };
            },
            None => {},
        }
        i += 1;
    }
    Resolution::NoMatch
}

/// Over an empty list nothing matches.
pub proof fn lemma_empty_list_matches_nothing<T, R, Q, P, B, D, K>(
    route: &Route<T>,
    res: Resolution<R>,
) where
    P: Fn(&Route<T>) -> Option<Q>,
    B: Fn(Q) -> R,
    D: Fn(&Route<T>) -> Option<R>,
    K: Fn(&Route<T>) -> R,
    Q: FromPath<T>,

    requires
        resolves::<T, R, Q, P, B, D, K>(Seq::empty(), route, res),
    ensures
        res is NoMatch,
{
}

/// Where no option can give a result on the route, nothing matches.
pub proof fn lemma_no_option_matches<T, R, Q, P, B, D, K>(
    route_options: Seq<RouterOption<P, B, D, K>>,
    route: &Route<T>,
    res: Resolution<R>,
) where
    P: Fn(&Route<T>) -> Option<Q>,
    B: Fn(Q) -> R,
    D: Fn(&Route<T>) -> Option<R>,
    K: Fn(&Route<T>) -> R,
    Q: FromPath<T>,

    requires
        resolves::<T, R, Q, P, B, D, K>(route_options, route, res),
        forall|j: int, view: R|
            0 <= j < route_options.len() ==> !(#[trigger] route_options[j].yields::<T, R, Q>(
                route,
                Some(view),
            )),
    ensures
        res is NoMatch,
{
}

/// The first match wins: where the option at `first` can only give a result
/// on the route, the winner stands at `first` or before it, so that no option
/// after `first` decides. Where every option before `first` can only give
/// nothing, the winner is the option at `first`.
pub proof fn lemma_first_match_wins<T, R, Q, P, B, D, K>(
    route_options: Seq<RouterOption<P, B, D, K>>,
    route: &Route<T>,
    res: Resolution<R>,
    first: int,
) where
    P: Fn(&Route<T>) -> Option<Q>,
    B: Fn(Q) -> R,
    D: Fn(&Route<T>) -> Option<R>,
    K: Fn(&Route<T>) -> R,
    Q: FromPath<T>,

    requires
        resolves::<T, R, Q, P, B, D, K>(route_options, route, res),
        0 <= first < route_options.len(),
        !route_options[first].yields::<T, R, Q>(route, None),
    ensures
        res is Matched,
        res->index <= first,
        route_options[res->index as int].yields::<T, R, Q>(route, Some(res->view)),
        (forall|j: int, view: R|
            0 <= j < first ==> !(#[trigger] route_options[j].yields::<T, R, Q>(route, Some(view))))
            ==> res->index == first,
{
}

/// An option made by `children` always gives a result, so every option after
/// it is out of reach.
pub proof fn lemma_children_always_match<T, R, Q, P, B, D, K>(
    option: RouterOption<P, B, D, K>,
    route: &Route<T>,
) where
    P: Fn(&Route<T>) -> Option<Q>,
    B: Fn(Q) -> R,
    D: Fn(&Route<T>) -> Option<R>,
    K: Fn(&Route<T>) -> R,
    Q: FromPath<T>,

    requires
        option is Children,
    ensures
        !option.yields::<T, R, Q>(route, None),
{
}

/// What the hosting view is made with: the ordered list of options, shared
/// with whoever built it.
pub struct Props<P, B, D, K> {
    pub route_options: Rc<Vec<RouterOption<P, B, D, K>>>,
}

/// Message of the hosting view.
pub enum Msg<T> {
    /// The agent announced a route.
    UpdateRoute(Route<T>),
}

/// The hosting view: it mirrors the agent's route and shows what the first
/// matching option gives.
pub struct Router<T, P, B, D, K> {
    pub route: Route<T>,
    pub route_options: Rc<Vec<RouterOption<P, B, D, K>>>,
}

impl<T, P, B, D, K> Router<T, P, B, D, K> {
    /// Creates the view with an empty route, together with the request that
    /// is sent to the agent at once: the one for the current route.
    pub fn create(props: Props<P, B, D, K>) -> (made: (Self, RouteRequest<T>))
        ensures
            made.0.route@.path == Seq::<char>::empty(),
            made.0.route@.state == Option::<T>::None,
            made.0.route_options == props.route_options,
            made.1 is GetCurrentRoute,
    {
        (
            Router { route: Route::empty(), route_options: props.route_options },
            RouteRequest::GetCurrentRoute,
        )
    }

    /// Takes a route from the agent. The result says whether the view has to
    /// be drawn again: only where comparing the route held with the new one
    /// finds them different.
    pub fn update(&mut self, msg: Msg<T>) -> (should_render: bool) where T: PartialEq
        ensures
            final(self).route == msg->UpdateRoute_0,
            final(self).route_options == old(self).route_options,
            routes_compare(&old(self).route, &msg->UpdateRoute_0, !should_render),
    {
        match msg {
            Msg::UpdateRoute(route) => {
                let did_change = !self.route.same_route(&route);
                self.route = route;
                did_change
            },
        }
    }

    /// Takes a new list of options. The view is always drawn again.
    pub fn change(&mut self, props: Props<P, B, D, K>) -> (should_render: bool)
        ensures
            should_render,
            final(self).route == old(self).route,
            final(self).route_options == props.route_options,
    {
        self.route_options = props.route_options;
        true
    }

    /// What the view shows: the outcome of resolving its route over its
    /// options.
    pub fn view<R, Q>(&self) -> (res: Resolution<R>) where
        P: Fn(&Route<T>) -> Option<Q>,
        B: Fn(Q) -> R,
        D: Fn(&Route<T>) -> Option<R>,
        K: Fn(&Route<T>) -> R,
        Q: FromPath<T>,

        requires
            forall|i: int|
                0 <= i < self.route_options@.len() ==> (#[trigger] self.route_options@[i]).accepts::<
                    T,
                    R,
                    Q,
                >(&self.route),
        ensures
            resolves::<T, R, Q, P, B, D, K>(self.route_options@, &self.route, res),
    {
        let options: &Vec<RouterOption<P, B, D, K>> = &self.route_options;
        route_one_of::<T, R, Q, P, B, D, K>(options.as_slice(), &self.route)
    }
}

} // verus!
