//! Route registration and request dispatch.
//!
//! A router owns a shared application state and an ordered list of
//! routes. Registration appends; order is the match priority. Dispatch
//! scans the list in registration order and selects the first route
//! whose method and pattern both match the request — later routes are
//! never consulted, even when they would also match. When no route
//! matches, dispatch reports the router's fixed "not found" outcome.
//!
//! Handlers are opaque values of a caller-chosen type: the router never
//! inspects them, it only selects one and hands it back together with
//! the shared state. Running the selected handler (an asynchronous
//! action in the hosting environment) is the caller's part.
use vstd::prelude::*;

use std::sync::Arc;

use crate::method::Method;
use crate::pattern::Pattern;
use crate::pattern::pattern_match;
use crate::request_url::RequestUrl;
use crate::request_url::UrlParseError;
use crate::request_url::url_parses;

verus! {

/// One registered route: a method, a compiled pattern, and the handler
/// value registered for them.
pub struct Route<H> {
    pub method: Method,
    pub pattern: Pattern,
    pub handler: H,
}

/// The decision dispatch reaches for a request.
#[derive(Clone, Copy, PartialEq, Eq, Structural, Debug)]
pub enum Dispatch {
    /// The first matching route is the one at this position, in
    /// registration order; its handler is to be invoked.
    Invoke(usize),
    /// No route matches: the fixed "not found" response is to be
    /// returned.
    NotFound,
}

/// Whether a route is selected by a request: the methods are equal and
/// the route's pattern matches the request URL.
pub open spec fn spec_route_matches<H>(route: Route<H>, method: Method, url: Seq<char>) -> bool {
    route.method == method && pattern_match(route.pattern@, url)
}

/// The position of the first route matching the request, scanning in
/// registration order, or `None` when no route matches.
pub open spec fn spec_first_match<H>(
    routes: Seq<Route<H>>,
    method: Method,
    url: Seq<char>,
) -> Option<int>
    decreases routes.len(),
{
    if routes.len() == 0 {
        None
    } else if spec_route_matches(routes[0], method, url) {
        Some(0)
    } else {
        match spec_first_match(routes.drop_first(), method, url) {
            Some(i) => Some(i + 1),
            None => None,
        }
    }
}

/// What the selected position means: it carries a matching route, every
/// earlier route fails to match, and a `None` means no route matches at
/// all.
pub proof fn lemma_first_match_characterization<H>(
    routes: Seq<Route<H>>,
    method: Method,
    url: Seq<char>,
)
    ensures
        (match spec_first_match(routes, method, url) {
            Some(i) => {
                &&& 0 <= i < routes.len()
                &&& spec_route_matches(routes[i], method, url)
                &&& forall|j: int| 0 <= j < i ==> !spec_route_matches(routes[j], method, url)
            },
            None => forall|j: int|
                0 <= j < routes.len() ==> !spec_route_matches(routes[j], method, url),
        }),
    decreases routes.len(),
{
    if routes.len() == 0 {
    } else if spec_route_matches(routes[0], method, url) {
    } else {
        let rest = routes.drop_first();
        lemma_first_match_characterization(rest, method, url);
        if spec_first_match(rest, method, url) is Some {
            let i = spec_first_match(rest, method, url)->Some_0;
            assert(spec_first_match(routes, method, url) == Some(i + 1));
            assert(rest[i] == routes[i + 1]);
            assert forall|j: int| 0 <= j < i + 1 implies !spec_route_matches(
                routes[j],
                method,
                url,
            ) by {
                if j > 0 {
                    assert(rest[j - 1] == routes[j]);
                }
            }
        } else {
            assert forall|j: int| 0 <= j < routes.len() implies !spec_route_matches(
                routes[j],
                method,
                url,
            ) by {
                if j > 0 {
                    assert(rest[j - 1] == routes[j]);
                }
            }
        }
    }
}

/// An HTTP router: a shared application state handed to every handler,
/// and the registered routes in registration order.
pub struct Router<State, H> {
    state: Arc<State>,
    routes: Vec<Route<H>>,
}

impl<State, H> Router<State, H> {
    /// The registered routes, in registration order.
    pub closed spec fn spec_routes(&self) -> Seq<Route<H>> {
        self.routes@
    }

    /// The shared application state.
    pub closed spec fn spec_state(&self) -> Arc<State> {
        self.state
    }

    /// Create a new router with a shared `State` and no routes.
    ///
    /// The same state value is handed to every handler the router ever
    /// selects.
    pub fn new_with_state(state: Arc<State>) -> (r: Self)
        ensures
            r.spec_routes() == Seq::<Route<H>>::empty(),
            r.spec_state() == state,
    {
        Router { routes: Vec::new(), state }
    }

    /// Append a route. Registration never fails and performs no
    /// validation: a route shadowed by an earlier one is simply never
    /// selected.
    fn insert(self, method: Method, pattern: Pattern, handler: H) -> (r: Self)
        ensures
            r.spec_routes() == self.spec_routes().push(
                (Route { method, pattern, handler }),
            ),
            r.spec_state() == self.spec_state(),
    {
        let mut this = self;
        this.routes.push(Route { method, pattern, handler });
        this
    }

    /// Register a handler for `HEAD` requests matching `pattern`.
    pub fn head(self, pattern: Pattern, handler: H) -> (r: Self)
        ensures
            r.spec_routes() == self.spec_routes().push(
                (Route { method: Method::Head, pattern, handler }),
            ),
            r.spec_state() == self.spec_state(),
    {
        self.insert(Method::Head, pattern, handler)
    }

    /// Register a handler for `GET` requests matching `pattern`.
    pub fn get(self, pattern: Pattern, handler: H) -> (r: Self)
        ensures
            r.spec_routes() == self.spec_routes().push(
                (Route { method: Method::Get, pattern, handler }),
            ),
            r.spec_state() == self.spec_state(),
    {
        self.insert(Method::Get, pattern, handler)
    }

    /// Register a handler for `POST` requests matching `pattern`.
    pub fn post(self, pattern: Pattern, handler: H) -> (r: Self)
        ensures
            r.spec_routes() == self.spec_routes().push(
                (Route { method: Method::Post, pattern, handler }),
            ),
            r.spec_state() == self.spec_state(),
    {
        self.insert(Method::Post, pattern, handler)
    }

    /// Register a handler for `PUT` requests matching `pattern`.
    pub fn put(self, pattern: Pattern, handler: H) -> (r: Self)
        ensures
            r.spec_routes() == self.spec_routes().push(
                (Route { method: Method::Put, pattern, handler }),
            ),
            r.spec_state() == self.spec_state(),
    {
        self.insert(Method::Put, pattern, handler)
    }

    /// Register a handler for `PATCH` requests matching `pattern`.
    pub fn patch(self, pattern: Pattern, handler: H) -> (r: Self)
        ensures
            r.spec_routes() == self.spec_routes().push(
                (Route { method: Method::Patch, pattern, handler }),
            ),
            r.spec_state() == self.spec_state(),
    {
        self.insert(Method::Patch, pattern, handler)
    }

    /// Register a handler for `DELETE` requests matching `pattern`.
    pub fn delete(self, pattern: Pattern, handler: H) -> (r: Self)
        ensures
            r.spec_routes() == self.spec_routes().push(
                (Route { method: Method::Delete, pattern, handler }),
            ),
            r.spec_state() == self.spec_state(),
    {
        self.insert(Method::Delete, pattern, handler)
    }

    /// Register a handler for `OPTIONS` requests matching `pattern`.
    pub fn options(self, pattern: Pattern, handler: H) -> (r: Self)
        ensures
            r.spec_routes() == self.spec_routes().push(
                (Route { method: Method::Options, pattern, handler }),
            ),
            r.spec_state() == self.spec_state(),
    {
        self.insert(Method::Options, pattern, handler)
    }

    /// Register a handler for `CONNECT` requests matching `pattern`.
    pub fn connect(self, pattern: Pattern, handler: H) -> (r: Self)
        ensures
            r.spec_routes() == self.spec_routes().push(
                (Route { method: Method::Connect, pattern, handler }),
            ),
            r.spec_state() == self.spec_state(),
    {
        self.insert(Method::Connect, pattern, handler)
    }

    /// Register a handler for `TRACE` requests matching `pattern`.
    pub fn trace(self, pattern: Pattern, handler: H) -> (r: Self)
        ensures
            r.spec_routes() == self.spec_routes().push(
                (Route { method: Method::Trace, pattern, handler }),
            ),
            r.spec_state() == self.spec_state(),
    {
        self.insert(Method::Trace, pattern, handler)
    }

    /// Decide a request: scan the routes in registration order and
    /// select the first whose method and pattern both match.
    ///
    /// A request whose URL does not parse is a dispatch failure, never a
    /// "not found"; otherwise the decision is exactly the first match
    /// over the registered routes, or [`Dispatch::NotFound`] when no
    /// route matches.
    pub fn run(&self, method: Method, url: &str) -> (r: Result<Dispatch, UrlParseError>)
        ensures
            r is Ok <==> url_parses(url@),
            (r matches Ok(d) ==> match spec_first_match(self.spec_routes(), method, url@) {
                Some(i) => d matches Dispatch::Invoke(k) && k == i,
                None => d == Dispatch::NotFound,
            }),
    {
        let parsed = match RequestUrl::parse(url) {
            Ok(u) => u,
            Err(e) => return Err(e),
        };
        let mut i: usize = 0;
        while i < self.routes.len()
            invariant
                i <= self.routes@.len(),
                forall|j: int| 0 <= j < i ==> !spec_route_matches(self.routes@[j], method, url@),
                parsed@ == url@,
                url_parses(url@),
            decreases self.routes@.len() - i,
        {
            let route = &self.routes[i];
            if route.method == method {
                if route.pattern.matches(&parsed) {
                    proof {
                        lemma_first_match_characterization(self.routes@, method, url@);
                    }
                    return Ok(Dispatch::Invoke(i));
                }
            }
            i += 1;
        }
        proof {
            lemma_first_match_characterization(self.routes@, method, url@);
        }
        Ok(Dispatch::NotFound)
    }

    /// The handler of the route at a position, in registration order,
    /// or `None` past the end of the route list.
    pub fn handler(&self, i: usize) -> (r: Option<&H>)
        ensures
            r is Some <==> i < self.spec_routes().len(),
            (r matches Some(h) ==> *h == self.spec_routes()[i as int].handler),
    {
        if i < self.routes.len() {
            Some(&self.routes[i].handler)
        } else {
            None
        }
    }

    /// The shared state, as the handle every handler invocation is to
    /// receive: always the same value, never copied or reset by the
    /// router.
    pub fn state(&self) -> (r: &Arc<State>)
        ensures
            *r == self.spec_state(),
    {
        &self.state
    }

    /// How many routes are registered.
    pub fn route_count(&self) -> (r: usize)
        ensures
            r == self.spec_routes().len(),
    {
        self.routes.len()
    }
}

/// The HTTP status of the response synthesized when no route matches.
pub fn not_found_status() -> (r: u16)
    ensures
        r == 404u16,
{
    404
}

/// The body of the response synthesized when no route matches.
pub fn not_found_body() -> (r: &'static str)
    ensures
        r@ == "page not found"@,
{
    "page not found"
}

/// First-match-wins: when two registered routes both match a request,
/// dispatch selects a matching route no later than the earlier of the
/// two — the later route's handler is never the one invoked.
pub proof fn lemma_first_match_wins<H>(
    routes: Seq<Route<H>>,
    method: Method,
    url: Seq<char>,
    i: int,
    j: int,
)
    requires
        0 <= i < j < routes.len(),
        spec_route_matches(routes[i], method, url),
        spec_route_matches(routes[j], method, url),
    ensures
        (spec_first_match(routes, method, url) matches Some(k) && k <= i
            && spec_route_matches(routes[k], method, url)),
{
    lemma_first_match_characterization(routes, method, url);
    assert(spec_first_match(routes, method, url) is Some);
}

/// A request whose method no registered route carries matches no route,
/// whatever its path: dispatch reports "not found".
pub proof fn lemma_method_mismatch_not_found<H>(
    routes: Seq<Route<H>>,
    method: Method,
    url: Seq<char>,
)
    requires
        forall|j: int| 0 <= j < routes.len() ==> routes[j].method != method,
    ensures
        spec_first_match(routes, method, url) is None,
{
    lemma_first_match_characterization(routes, method, url);
}

/// A request whose path matches no pattern among the routes of its
/// method matches no route: dispatch reports "not found".
pub proof fn lemma_pattern_mismatch_not_found<H>(
    routes: Seq<Route<H>>,
    method: Method,
    url: Seq<char>,
)
    requires
        forall|j: int|
            0 <= j < routes.len() && routes[j].method == method ==> !pattern_match(
                routes[j].pattern@,
                url,
            ),
    ensures
        spec_first_match(routes, method, url) is None,
{
    lemma_first_match_characterization(routes, method, url);
}

} // verus!
