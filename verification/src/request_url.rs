//! Parsed request URLs.
//!
//! Dispatch matches patterns against a full URL. The URL is parsed once,
//! before any route is tried; a request whose URL does not parse is a
//! dispatch failure, never a "no match". A [`RequestUrl`] pairs the
//! original URL text with the parsed form the `url` crate produced from
//! it; parsing is deterministic, so the text alone identifies the value.
use vstd::prelude::*;

verus! {

/// Whether the `url` crate accepts a string as an absolute URL.
///
/// Parsing is deterministic: acceptance depends on the input text alone.
pub uninterp spec fn url_parses(s: Seq<char>) -> bool;

#[verifier::external_type_specification]
#[verifier::external_body]
pub struct ExUrl(url::Url);

/// A request URL that has been parsed successfully.
pub struct RequestUrl {
    raw: String,
    parsed: url::Url,
}

impl View for RequestUrl {
    type V = Seq<char>;

    /// A parsed URL is identified by the text it was parsed from.
    closed spec fn view(&self) -> Seq<char> {
        self.raw@
    }
}

/// Failure to parse the URL of an incoming request.
#[derive(Debug)]
pub struct UrlParseError {
    pub message: String,
}

/// Relies on `url::Url::parse`: parsing succeeds exactly when the input
/// is a well-formed absolute URL, and depends on the input text alone.
#[verifier::external_body]
fn parse_raw(s: &str) -> (r: Result<RequestUrl, String>)
    ensures
        r is Ok <==> url_parses(s@),
        r matches Ok(u) ==> u@ == s@,
{
    match url::Url::parse(s) {
        Ok(parsed) => Ok(RequestUrl { raw: s.to_owned(), parsed }),
        Err(err) => Err(format!("failed to parse request url: {err}")),
    }
}

impl RequestUrl {
    /// Parse the URL of an incoming request.
    ///
    /// Succeeds exactly on the strings the underlying URL syntax accepts
    /// as absolute URLs.
    pub fn parse(s: &str) -> (r: Result<RequestUrl, UrlParseError>)
        ensures
            r is Ok <==> url_parses(s@),
            r matches Ok(u) ==> u@ == s@,
    {
        match parse_raw(s) {
            Ok(u) => Ok(u),
            Err(message) => Err(UrlParseError { message }),
        }
    }

    pub(crate) fn parsed_form(&self) -> &url::Url {
        &self.parsed
    }
}

} // verus!
