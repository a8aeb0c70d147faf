//! Compiled URL path patterns.
//!
//! A [`Pattern`] pairs the original template string with the matcher that
//! the `urlpattern` crate compiled from it. The template is the pattern's
//! mathematical identity: compilation and matching are deterministic, so
//! every fact the contracts state is a function of the template text and
//! of the request URL text alone.
use vstd::prelude::*;

verus! {

/// Whether the `urlpattern` crate accepts a path template.
///
/// Compilation is deterministic: acceptance depends on the template text
/// alone, so a template either always compiles or never does.
pub uninterp spec fn template_compiles(template: Seq<char>) -> bool;

/// Whether the pattern compiled from `template` matches the URL written
/// `url`.
///
/// Both compilation and matching in the `urlpattern` crate are pure
/// functions of their textual inputs, so the match outcome is fully
/// determined by the template text and the URL text.
pub uninterp spec fn pattern_match(template: Seq<char>, url: Seq<char>) -> bool;

/// The matcher the `urlpattern` crate compiled from a template, held
/// opaquely: its generic parameter carries an outside trait bound that a
/// type declaration cannot restate here, so nothing about the value is
/// visible to the contracts. Every fact about matching goes through the
/// trusted functions below instead.
#[verifier::external_body]
struct CompiledMatcher {
    inner: urlpattern::UrlPattern,
}

/// A compiled, immutable matcher over a URL path template.
pub struct Pattern {
    template: String,
    compiled: CompiledMatcher,
}

impl View for Pattern {
    type V = Seq<char>;

    /// A pattern is identified by the template it was compiled from.
    closed spec fn view(&self) -> Seq<char> {
        self.template@
    }
}

/// Rejection of a malformed path template at compile time.
#[derive(Debug)]
pub struct PatternError {
    pub message: String,
}

/// Relies on `urlpattern::UrlPattern::parse`: compiling an init that sets
/// only the pathname succeeds exactly when the template is well formed,
/// and the compiled matcher is a pure function of the template text.
#[verifier::external_body]
fn compile_raw(template: &str) -> (r: Result<Pattern, String>)
    ensures
        r is Ok <==> template_compiles(template@),
        r matches Ok(p) ==> p@ == template@,
{
    let init = urlpattern::UrlPatternInit {
        pathname: Some(template.to_owned()),
        ..Default::default()
    };
    match <urlpattern::UrlPattern>::parse(init, Default::default()) {
        Ok(compiled) => Ok(Pattern {
            template: template.to_owned(),
            compiled: CompiledMatcher { inner: compiled },
        }),
        Err(err) => Err(format!("failed to parse route pattern: {err}")),
    }
}

/// Compile a route pattern from a URL path template such as `/hello` or
/// `/users/:id`.
///
/// Succeeds exactly on the templates the underlying pattern syntax
/// accepts, and the returned pattern is identified by the template text,
/// so compiling the same template twice yields patterns with identical
/// match behaviour.
pub fn path(template: &str) -> (r: Result<Pattern, PatternError>)
    ensures
        r is Ok <==> template_compiles(template@),
        r matches Ok(p) ==> p@ == template@,
{
    match compile_raw(template) {
        Ok(p) => Ok(p),
        Err(message) => Err(PatternError { message }),
    }
}

/// Relies on `urlpattern::UrlPattern::test`: the outcome of matching an
/// already-parsed URL is a pure function of the template the pattern was
/// compiled from and of the URL text. In the version relied on, `test`
/// has no failing path for an already-parsed URL input — every component
/// matcher returns an outcome and the result is always `Ok` — so the
/// error arm below is unreachable and defensively reads as "no match".
#[verifier::external_body]
fn test_raw(p: &Pattern, url: &crate::request_url::RequestUrl) -> (r: bool)
    ensures
        r == pattern_match(p@, url@),
{
    let input = urlpattern::UrlPatternMatchInput::Url(url.parsed_form().clone());
    match p.compiled.inner.test(input) {
        Ok(matched) => matched,
        Err(_) => false,
    }
}

impl Pattern {
    /// Evaluate this pattern against a parsed request URL.
    ///
    /// Evaluation is pure: it never mutates the pattern, and the outcome
    /// depends only on the pattern's template and the URL.
    pub fn matches(&self, url: &crate::request_url::RequestUrl) -> (r: bool)
        ensures
            r == pattern_match(self@, url@),
    {
        test_raw(self, url)
    }
}

/// Compilation is deterministic and idempotent: two patterns compiled
/// from the same template text have identical match behaviour on every
/// URL.
pub proof fn lemma_pattern_deterministic(p: &Pattern, q: &Pattern)
    requires
        p@ == q@,
    ensures
        forall|url: Seq<char>| pattern_match(p@, url) == pattern_match(q@, url),
{
}

} // verus!
