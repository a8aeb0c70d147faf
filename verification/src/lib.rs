//! A minimal HTTP request router.
//!
//! Routes bind an HTTP method and a compiled URL path pattern to a handler
//! value. Dispatch scans the routes in registration order and selects the
//! first route whose method and pattern both match the incoming request;
//! when none matches, the router reports its fixed "not found" outcome.
pub mod method;
pub mod pattern;
pub mod request_url;
pub mod router;

pub use method::Method;
pub use pattern::Pattern;
pub use pattern::PatternError;
pub use pattern::path;
pub use request_url::RequestUrl;
pub use request_url::UrlParseError;
pub use router::Dispatch;
pub use router::Route;
pub use router::Router;
pub use router::not_found_body;
pub use router::not_found_status;
