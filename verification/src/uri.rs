//! What this library reads of a parsed URI, and the one call that parses.
//!
//! Parsing is done by `http::Uri`. Its grammar is not restated here: the
//! outcome of a parse is a function of the text alone, and [`uri_parts`] is the
//! name under which contracts speak of it.

use vstd::prelude::*;

verus! {

/// The two components of a parsed URI that relay rules look at.
pub struct UriParts {
    /// The scheme, where the URI has one (`wss` in `wss://host/path`).
    pub scheme: Option<String>,
    /// The host of the authority, where the URI has an authority.
    pub host: Option<String>,
}

/// [`UriParts`] as sequences of characters.
pub struct UriPartsView {
    pub scheme: Option<Seq<char>>,
    pub host: Option<Seq<char>>,
}

impl View for UriParts {
    type V = UriPartsView;

    open spec fn view(&self) -> UriPartsView {
        UriPartsView { scheme: self.scheme.deep_view(), host: self.host.deep_view() }
    }
}

impl DeepView for UriParts {
    type V = UriPartsView;

    open spec fn deep_view(&self) -> UriPartsView {
        self@
    }
}

/// The outcome of parsing `text` with `http::Uri`: `None` where the parser
/// rejects the text, else the scheme and the authority's host as it reports
/// them.
pub uninterp spec fn uri_parts(text: Seq<char>) -> Option<UriPartsView>;

/// Whether `text` is a URI, that is, whether `http::Uri` accepts it.
pub open spec fn is_uri(text: Seq<char>) -> bool {
    uri_parts(text) is Some
}

/// Parses `text` with `http::Uri::from_str` and, where that succeeds, reads
/// the scheme (`Uri::scheme`, `Scheme::as_str`) and the host of the authority
/// (`Uri::authority`, `Authority::host`). The parse depends on the bytes of
/// `text` and on nothing else, so the outcome is [`uri_parts`] of the text;
/// what that outcome is for a given text is not stated. The parser returns an
/// error for text it rejects, and the getters are only reached on a URI it
/// accepted, so no text makes this panic.
#[verifier::external_body]
pub(crate) fn parse_uri(text: &str) -> (parts: Option<UriParts>)
    ensures
        parts.deep_view() == uri_parts(text@),
{
    match text.parse::<http::Uri>() {
        Ok(uri) => Some(
            UriParts {
                scheme: uri.scheme().map(http::uri::Scheme::as_str).map(String::from),
                host: uri.authority().map(http::uri::Authority::host).map(String::from),
            },
        ),
        Err(_) => None,
    }
}

} // verus!
