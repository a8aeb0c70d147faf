use std::sync::Arc;
use std::sync::atomic::AtomicU64;
use std::sync::atomic::Ordering;

use router::Dispatch;
use router::Method;
use router::Router;
use router::not_found_body;
use router::not_found_status;
use router::path;

fn hello_handler() -> (u16, String) {
    (200, String::from("hello"))
}

fn other_handler() -> (u16, String) {
    (200, String::from("other"))
}

fn echo_id_handler(path: &str) -> String {
    match path.rsplit('/').next() {
        Some(tail) => String::from(tail),
        None => String::new(),
    }
}

struct Counter {
    hits: AtomicU64,
}

#[test]
fn get_hello_scenario() {
    let router: Router<(), fn() -> (u16, String)> =
        Router::new_with_state(Arc::new(())).get(path("/hello").unwrap(), hello_handler as fn() -> (u16, String));

    let hit = router.run(Method::Get, "https://example.com/hello").unwrap();
    assert_eq!(hit, Dispatch::Invoke(0));
    let Dispatch::Invoke(i) = hit else { panic!() };
    let (status, body) = (router.handler(i).unwrap())();
    assert_eq!(status, 200);
    assert_eq!(body, "hello");

    let miss = router.run(Method::Get, "https://example.com/goodbye").unwrap();
    assert_eq!(miss, Dispatch::NotFound);
    assert_eq!(not_found_status(), 404);
    assert_eq!(not_found_body(), "page not found");

    let wrong_method = router.run(Method::Post, "https://example.com/hello").unwrap();
    assert_eq!(wrong_method, Dispatch::NotFound);
}

#[test]
fn method_mismatch_is_not_found_regardless_of_path() {
    let router: Router<(), fn() -> (u16, String)> =
        Router::new_with_state(Arc::new(())).get(path("/hello").unwrap(), hello_handler as fn() -> (u16, String));

    for url in ["https://example.com/hello", "https://example.com/x", "https://example.com/"] {
        assert_eq!(router.run(Method::Delete, url).unwrap(), Dispatch::NotFound);
    }
}

#[test]
fn pattern_mismatch_among_same_method_routes_is_not_found() {
    let router: Router<(), fn() -> (u16, String)> = Router::new_with_state(Arc::new(()))
        .get(path("/a").unwrap(), hello_handler as fn() -> (u16, String))
        .get(path("/b").unwrap(), other_handler as fn() -> (u16, String));

    let miss = router.run(Method::Get, "https://example.com/c").unwrap();
    assert_eq!(miss, Dispatch::NotFound);
}

#[test]
fn first_match_wins_between_identical_routes() {
    let router: Router<(), fn() -> (u16, String)> = Router::new_with_state(Arc::new(()))
        .get(path("/a").unwrap(), hello_handler as fn() -> (u16, String))
        .get(path("/a").unwrap(), other_handler as fn() -> (u16, String));

    for _ in 0..3 {
        let decision = router.run(Method::Get, "https://example.com/a").unwrap();
        assert_eq!(decision, Dispatch::Invoke(0));
        let (_, body) = (router.handler(0).unwrap())();
        assert_eq!(body, "hello");
    }
}

#[test]
fn earlier_route_shadows_later_overlapping_route() {
    let router: Router<(), fn(&str) -> String> = Router::new_with_state(Arc::new(()))
        .get(path("/users/:id").unwrap(), (|p: &str| String::from(p)) as fn(&str) -> String)
        .get(path("/users/me").unwrap(), echo_id_handler as fn(&str) -> String);

    let decision = router.run(Method::Get, "https://example.com/users/me").unwrap();
    assert_eq!(decision, Dispatch::Invoke(0));
}

#[test]
fn parameter_route_invokes_handler_with_id() {
    let router: Router<(), fn(&str) -> String> = Router::new_with_state(Arc::new(()))
        .get(path("/users/:id").unwrap(), echo_id_handler as fn(&str) -> String);

    let url = "https://example.com/users/42";
    let decision = router.run(Method::Get, url).unwrap();
    assert_eq!(decision, Dispatch::Invoke(0));
    let Dispatch::Invoke(i) = decision else { panic!() };
    let seen = (router.handler(i).unwrap())("/users/42");
    assert_eq!(seen, "42");
}

#[test]
fn unparseable_url_is_a_dispatch_error_not_a_miss() {
    let router: Router<(), fn() -> (u16, String)> =
        Router::new_with_state(Arc::new(())).get(path("/hello").unwrap(), hello_handler as fn() -> (u16, String));

    assert!(router.run(Method::Get, "not a url").is_err());
    assert!(router.run(Method::Get, "/hello").is_err());
}

#[test]
fn empty_router_always_reports_not_found() {
    let router: Router<(), fn() -> (u16, String)> = Router::new_with_state(Arc::new(()));
    assert_eq!(router.route_count(), 0);
    let decision = router.run(Method::Get, "https://example.com/").unwrap();
    assert_eq!(decision, Dispatch::NotFound);
    assert!(router.handler(0).is_none());
}

#[test]
fn every_method_registers_and_dispatches() {
    let router: Router<(), fn() -> (u16, String)> = Router::new_with_state(Arc::new(()))
        .head(path("/h").unwrap(), hello_handler as fn() -> (u16, String))
        .get(path("/g").unwrap(), hello_handler as fn() -> (u16, String))
        .post(path("/po").unwrap(), hello_handler as fn() -> (u16, String))
        .put(path("/pu").unwrap(), hello_handler as fn() -> (u16, String))
        .patch(path("/pa").unwrap(), hello_handler as fn() -> (u16, String))
        .delete(path("/d").unwrap(), hello_handler as fn() -> (u16, String))
        .options(path("/o").unwrap(), hello_handler as fn() -> (u16, String))
        .connect(path("/c").unwrap(), hello_handler as fn() -> (u16, String))
        .trace(path("/t").unwrap(), hello_handler as fn() -> (u16, String));

    assert_eq!(router.route_count(), 9);
    let cases = [
        (Method::Head, "https://example.com/h", 0),
        (Method::Get, "https://example.com/g", 1),
        (Method::Post, "https://example.com/po", 2),
        (Method::Put, "https://example.com/pu", 3),
        (Method::Patch, "https://example.com/pa", 4),
        (Method::Delete, "https://example.com/d", 5),
        (Method::Options, "https://example.com/o", 6),
        (Method::Connect, "https://example.com/c", 7),
        (Method::Trace, "https://example.com/t", 8),
    ];
    for (method, url, index) in cases {
        assert_eq!(router.run(method, url).unwrap(), Dispatch::Invoke(index));
        assert_eq!(router.run(Method::Get, "https://example.com/none").unwrap(), Dispatch::NotFound);
    }
}

#[test]
fn handlers_observe_the_same_state_instance() {
    let state = Arc::new(Counter { hits: AtomicU64::new(0) });
    let router: Router<Counter, fn(&Counter)> = Router::new_with_state(Arc::clone(&state))
        .get(path("/count").unwrap(), (|c: &Counter| {
            c.hits.fetch_add(1, Ordering::SeqCst);
        }) as fn(&Counter));

    for _ in 0..2 {
        let decision = router.run(Method::Get, "https://example.com/count").unwrap();
        let Dispatch::Invoke(i) = decision else { panic!() };
        let shared = Arc::clone(router.state());
        (router.handler(i).unwrap())(&shared);
        assert!(Arc::ptr_eq(&shared, &state));
    }
    assert!(Arc::ptr_eq(router.state(), &state));
    assert_eq!(state.hits.load(Ordering::SeqCst), 2);
}
