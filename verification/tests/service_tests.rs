use route_agent::route::{format_route_string, Route};
use route_agent::service::{state_string, HistoryOp, Location, RouteService};

fn location(path: &str, query: &str, fragment: &str) -> Location {
    Location { path: path.to_string(), query: query.to_string(), fragment: fragment.to_string() }
}

#[test]
fn format_route_string_joins_parts_without_separators() {
    assert_eq!(format_route_string("/a/b", "?x=1", "#top"), "/a/b?x=1#top");
    assert_eq!(format_route_string("/a", "", ""), "/a");
    assert_eq!(format_route_string("", "", ""), "");
    assert_eq!(format_route_string("/", "", "#f"), "/#f");
}

#[test]
fn getters_return_the_parts_that_were_read() {
    let service = RouteService::new(location("/users", "?page=2", "#list"), None);
    assert_eq!(service.get_path(), "/users");
    assert_eq!(service.get_query(), "?page=2");
    assert_eq!(service.get_fragment(), "#list");
    assert_eq!(service.get_history_state(), None);
    assert_eq!(service.current_location(), &location("/users", "?page=2", "#list"));
}

#[test]
fn history_state_is_handed_out_unchanged() {
    let service = RouteService::new(location("/", "", ""), Some("41".to_string()));
    assert_eq!(service.get_history_state(), Some("41".to_string()));
}

#[test]
fn get_route_from_location_concatenates() {
    let l = location("/p", "?q", "#f");
    assert_eq!(RouteService::get_route_from_location(&l), "/p?q#f");
}

#[test]
fn set_route_pushes_with_encoded_state() {
    let w = RouteService::set_route("/b", Some("7".to_string()));
    assert_eq!(w.op, HistoryOp::Push);
    assert_eq!(w.url, "/b");
    assert_eq!(w.state, "7");
}

#[test]
fn set_route_stores_empty_string_when_encoding_failed() {
    let w = RouteService::set_route("/b", None);
    assert_eq!(w.op, HistoryOp::Push);
    assert_eq!(w.url, "/b");
    assert_eq!(w.state, "");
}

#[test]
fn replace_route_replaces_with_encoded_state() {
    let w = RouteService::replace_route("/c?x", Some("9".to_string()));
    assert_eq!(w.op, HistoryOp::Replace);
    assert_eq!(w.url, "/c?x");
    assert_eq!(w.state, "9");
    let failed = RouteService::replace_route("/c", None);
    assert_eq!(failed.op, HistoryOp::Replace);
    assert_eq!(failed.state, "");
}

#[test]
fn state_string_is_encoding_or_empty() {
    assert_eq!(state_string(Some("abc".to_string())), "abc");
    assert_eq!(state_string(None), "");
}

#[test]
fn get_route_uses_decoded_state() {
    let service = RouteService::new(location("/a", "?b", "#c"), Some("5".to_string()));
    let route: Route<u64> = service.get_route(Some(5));
    assert_eq!(route, Route { path: "/a?b#c".to_string(), state: Some(5) });
}

#[test]
fn get_route_defaults_when_decoding_failed() {
    let service = RouteService::new(location("/a", "", ""), Some("not a number".to_string()));
    let route: Route<u64> = service.get_route(None);
    assert_eq!(route, Route { path: "/a".to_string(), state: Some(0) });
}

#[test]
fn get_route_defaults_when_nothing_is_stored() {
    let service = RouteService::new(location("/a", "", ""), None);
    let route: Route<u64> = service.get_route(Some(3));
    assert_eq!(route, Route { path: "/a".to_string(), state: Some(0) });
    let unit: Route<()> = service.get_route(None);
    assert_eq!(unit, Route { path: "/a".to_string(), state: Some(()) });
}

#[test]
fn navigation_route_joins_fresh_location_and_payload() {
    let l = location("/back", "?k=v", "");
    let route: Route<u64> = RouteService::navigation_route(&l, Some(12));
    assert_eq!(route, Route { path: "/back?k=v".to_string(), state: Some(12) });
}

#[test]
fn navigation_route_defaults_on_malformed_payload() {
    let l = location("/back", "", "#x");
    let route: Route<bool> = RouteService::navigation_route(&l, None);
    assert_eq!(route, Route { path: "/back#x".to_string(), state: Some(false) });
}

#[test]
fn route_helpers() {
    let empty: Route<u64> = Route::empty();
    assert_eq!(empty, Route { path: String::new(), state: None });
    let r = Route { path: "/x".to_string(), state: Some(4u64) };
    assert_eq!(r.to_string(), "/x");
    assert!(r.same_route(&Route { path: "/x".to_string(), state: Some(4) }));
    assert!(!r.same_route(&Route { path: "/x".to_string(), state: Some(5) }));
    assert!(!r.same_route(&Route { path: "/y".to_string(), state: Some(4) }));
    assert!(!r.same_route(&Route { path: "/x".to_string(), state: None }));
    assert_eq!(r.state_or_default(), 4);
    let none: Route<u64> = Route { path: "/x".to_string(), state: None };
    assert_eq!(none.state_or_default(), 0);
}

#[test]
fn each_payload_type_has_its_own_default() {
    let service = RouteService::new(location("/d", "", ""), None);
    assert_eq!(service.get_route::<u64>(None).state, Some(0));
    assert_eq!(service.get_route::<i64>(None).state, Some(0));
    assert_eq!(service.get_route::<bool>(None).state, Some(false));
    assert_eq!(service.get_route::<()>(None).state, Some(()));
    assert_eq!(service.get_route::<String>(None).state, Some(String::new()));
    assert_eq!(service.get_route::<Option<u64>>(None).state, Some(None));
}

#[derive(Clone, Debug, Default, PartialEq)]
struct Session {
    user: u64,
}

#[test]
fn a_payload_type_of_the_application_defaults_too() {
    let service = RouteService::new(location("/s", "", ""), None);
    let route: Route<Session> = service.get_route(Some(Session { user: 4 }));
    assert_eq!(route.state, Some(Session { user: 0 }));
    let stored = RouteService::new(location("/s", "", ""), Some("x".to_string()));
    let route: Route<Session> = stored.get_route(Some(Session { user: 4 }));
    assert_eq!(route.state, Some(Session { user: 4 }));
    assert!(route.same_route(&Route { path: "/s".to_string(), state: Some(Session { user: 4 }) }));
    assert!(!route.same_route(&Route { path: "/s".to_string(), state: Some(Session { user: 5 }) }));
}
