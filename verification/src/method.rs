//! The HTTP methods a route can be registered for.
use vstd::prelude::*;

verus! {

/// An HTTP request method.
///
/// Routes are keyed by one of the standard verbs; a route is considered for
/// a request only when the two methods are equal.
#[derive(Clone, Copy, PartialEq, Eq, Structural, Debug)]
pub enum Method {
    Head,
    Get,
    Post,
    Put,
    Patch,
    Delete,
    Options,
    Connect,
    Trace,
}

} // verus!
