//! The address type itself.

use vstd::prelude::*;
use crate::relay::{is_relay_endpoint, relay_endpoint};
use crate::text::{strip_trailing_slash, without_trailing_slash};
use crate::uri::{is_uri, parse_uri, uri_parts};

verus! {

/// A relay address. It holds the text it was made from, less one trailing
/// slash, and remembers whether that text is a URI. Malformed text is kept,
/// not refused: validity is something to ask, not a condition of existing.
///
/// The value is immutable, and the remembered answer always agrees with the
/// text. Seen from outside, a `Url` is its text: that is its view.
#[derive(Debug, Eq, Hash, PartialOrd, Ord)]
pub struct Url(String, bool);

impl View for Url {
    type V = Seq<char>;

    closed spec fn view(&self) -> Seq<char> {
        self.0@
    }
}

impl Url {
    #[verifier::type_invariant]
    spec fn flag_follows_text(self) -> bool {
        self.1 == is_uri(self.0@)
    }

    /// The text of the address that `new` makes of `raw`.
    pub open spec fn spec_new(raw: Seq<char>) -> Seq<char> {
        strip_trailing_slash(raw)
    }

    /// The scalar that `encode` emits for an address with the given text.
    pub open spec fn spec_encode(text: Seq<char>) -> Seq<char> {
        text
    }

    /// The text of the address that `decode` makes of `scalar`.
    pub open spec fn spec_decode(scalar: Seq<char>) -> Seq<char> {
        Url::spec_new(scalar)
    }

    /// Makes an address from any text. One trailing `/` is dropped; nothing
    /// else is changed. This never fails.
    pub fn new(s: &str) -> (url: Url)
        ensures
            url@ == Url::spec_new(s@),
    {
        let body = without_trailing_slash(s);
        let parsed = parse_uri(body);
        Url(body.to_owned(), parsed.is_some())
    }

    /// The normalised text.
    pub fn inner(&self) -> (text: &str)
        ensures
            text@ == self@,
    {
        self.0.as_str()
    }

    /// The normalised text as an owned string, with no decoration.
    pub fn to_string(&self) -> (text: String)
        ensures
            text@ == self@,
    {
        self.0.clone()
    }

    /// Whether the address can name a relay. The text is parsed afresh on
    /// every call; text that is no URI gives `false`.
    pub fn is_valid_relay_url(&self) -> (b: bool)
        ensures
            b == relay_endpoint(uri_parts(self@)),
    {
        let parsed = parse_uri(self.0.as_str());
        is_relay_endpoint(&parsed)
    }

    /// Whether the text is a URI, as found when the address was made.
    pub fn is_valid(&self) -> (b: bool)
        ensures
            b == is_uri(self@),
    {
        proof {
            use_type_invariant(self);
        }
        self.1
    }

    /// A fixed address for use in tests: the one made of `wss://example.com`.
    pub fn mock() -> (url: Url)
        ensures
            url@ == "wss://example.com"@,
    {
        proof {
            reveal_strlit("wss://example.com");
        }
        Url::new("wss://example.com")
    }

    /// The text form of the address for a codec: the normalised text, and
    /// nothing of the validity flag.
    pub fn encode(&self) -> (scalar: &str)
        ensures
            scalar@ == Url::spec_encode(self@),
    {
        self.0.as_str()
    }

    /// The address that a codec's string scalar stands for. Any string
    /// decodes; it is treated as `new` treats its argument.
    pub fn decode(scalar: &str) -> (url: Url)
        ensures
            url@ == Url::spec_decode(scalar@),
    {
        Url::new(scalar)
    }
}

impl core::ops::Deref for Url {
    type Target = str;

    fn deref(&self) -> (text: &str)
        ensures
            text@ == self@,
    {
        self.0.as_str()
    }
}

impl Clone for Url {
    fn clone(&self) -> (url: Url)
        ensures
            url@ == self@,
    {
        proof {
            use_type_invariant(self);
        }
        Url(self.0.clone(), self.1)
    }
}

impl PartialEq for Url {
    fn eq(&self, other: &Url) -> (r: bool) {
        proof {
            use_type_invariant(self);
            use_type_invariant(other);
        }
        self.0 == other.0 && self.1 == other.1
    }
}

impl vstd::std_specs::cmp::PartialEqSpecImpl for Url {
    open spec fn obeys_eq_spec() -> bool {
        true
    }

    /// Two addresses are equal exactly when their texts are.
    open spec fn eq_spec(&self, other: &Url) -> bool {
        self@ == other@
    }
}

} // verus!
