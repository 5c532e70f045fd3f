//! The rules a parsed URI must meet to name a relay: a WebSocket scheme and a
//! host that is not plainly this machine.
//!
//! The host rules compare prefixes of the host as text. They make no attempt
//! to recognise every loopback address.

use vstd::prelude::*;
use crate::text::{is_trimmed, same_text, starts_with, trim};
use crate::uri::{UriParts, UriPartsView};

verus! {

/// A relay speaks WebSocket: the scheme is `ws` or `wss`, in lower case.
pub open spec fn relay_scheme(scheme: Seq<char>) -> bool {
    scheme == "wss"@ || scheme == "ws"@
}

/// A relay's host carries no white space at either end and starts with none
/// of `localhost`, `127.`, `[::1/` and `[0:`.
pub open spec fn relay_host(host: Seq<char>) -> bool {
    &&& trim(host) == host
    &&& !"localhost"@.is_prefix_of(host)
    &&& !"127."@.is_prefix_of(host)
    &&& !"[::1/"@.is_prefix_of(host)
    &&& !"[0:"@.is_prefix_of(host)
}

/// A relay endpoint is a text that parsed, with a scheme and an authority,
/// whose scheme and host both pass.
pub open spec fn relay_endpoint(parts: Option<UriPartsView>) -> bool {
    match parts {
        Some(p) => match (p.scheme, p.host) {
            (Some(scheme), Some(host)) => relay_scheme(scheme) && relay_host(host),
            _ => false,
        },
        None => false,
    }
}

/// Whether `scheme` is one a relay may use.
pub fn is_relay_scheme(scheme: &str) -> (b: bool)
    ensures
        b == relay_scheme(scheme@),
{
    same_text(scheme, "wss") || same_text(scheme, "ws")
}

/// Whether `host` is one a relay may have.
pub fn is_relay_host(host: &str) -> (b: bool)
    ensures
        b == relay_host(host@),
{
    is_trimmed(host) && !starts_with(host, "localhost") && !starts_with(host, "127.")
        && !starts_with(host, "[::1/") && !starts_with(host, "[0:")
}

/// Whether the outcome of a parse names a relay endpoint. `None` stands for a
/// text that did not parse.
pub fn is_relay_endpoint(parts: &Option<UriParts>) -> (b: bool)
    ensures
        b == relay_endpoint(parts.deep_view()),
{
    match parts {
        Some(p) => match (&p.scheme, &p.host) {
            (Some(scheme), Some(host)) => {
                is_relay_scheme(scheme.as_str()) && is_relay_host(host.as_str())
            },
            _ => false,
        },
        None => false,
    }
}

} // verus!
