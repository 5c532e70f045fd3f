use relay_url::relay::{is_relay_endpoint, is_relay_host, is_relay_scheme};
use relay_url::text::{is_trimmed, same_text, starts_with, without_trailing_slash};
use relay_url::uri::UriParts;

fn parts(scheme: Option<&str>, host: Option<&str>) -> Option<UriParts> {
    Some(UriParts { scheme: scheme.map(String::from), host: host.map(String::from) })
}

#[test]
fn without_trailing_slash_drops_one() {
    assert_eq!(without_trailing_slash("a/"), "a");
    assert_eq!(without_trailing_slash("a//"), "a/");
    assert_eq!(without_trailing_slash("a"), "a");
    assert_eq!(without_trailing_slash("/a"), "/a");
    assert_eq!(without_trailing_slash("/"), "");
    assert_eq!(without_trailing_slash(""), "");
    assert_eq!(without_trailing_slash("é/"), "é");
    assert_eq!(without_trailing_slash("/é"), "/é");
}

#[test]
fn starts_with_compares_characters() {
    assert!(starts_with("localhost:80", "localhost"));
    assert!(starts_with("localhost", "localhost"));
    assert!(!starts_with("localhos", "localhost"));
    assert!(!starts_with("xlocalhost", "localhost"));
    assert!(starts_with("anything", ""));
    assert!(starts_with("", ""));
    assert!(!starts_with("", "a"));
    assert!(starts_with("日本語", "日本"));
    assert!(!starts_with("日本語", "本"));
}

#[test]
fn same_text_is_equality() {
    assert!(same_text("wss", "wss"));
    assert!(!same_text("wss", "ws"));
    assert!(!same_text("ws", "wss"));
    assert!(!same_text("wss", "wsx"));
    assert!(same_text("", ""));
    assert!(same_text("é", "é"));
}

#[test]
fn is_trimmed_matches_trim() {
    for s in ["", "a", " a", "a ", " a ", "\ta", "a\n", "a b", "\u{a0}a", "a\u{3000}", " ", "é", "a\u{200b}"] {
        assert_eq!(is_trimmed(s), s.trim() == s);
    }
    assert!(is_trimmed("relay.example.com"));
    assert!(!is_trimmed(" relay.example.com"));
    assert!(!is_trimmed("relay.example.com "));
    assert!(is_trimmed("relay example"));
}

#[test]
fn relay_scheme_is_ws_or_wss() {
    assert!(is_relay_scheme("ws"));
    assert!(is_relay_scheme("wss"));
    assert!(!is_relay_scheme("WSS"));
    assert!(!is_relay_scheme("Ws"));
    assert!(!is_relay_scheme("wsss"));
    assert!(!is_relay_scheme("w"));
    assert!(!is_relay_scheme(""));
    assert!(!is_relay_scheme("http"));
    assert!(!is_relay_scheme("https"));
}

#[test]
fn relay_host_accepts_ordinary_hosts() {
    assert!(is_relay_host("relay.example.com"));
    assert!(is_relay_host("192.168.1.1"));
    assert!(is_relay_host("[2001:db8::1]"));
    assert!(is_relay_host("[::1]"));
    assert!(is_relay_host("::1"));
    assert!(is_relay_host(""));
}

#[test]
fn relay_host_rejects_each_prefix() {
    assert!(!is_relay_host("localhost"));
    assert!(!is_relay_host("localhost.localdomain"));
    assert!(!is_relay_host("127."));
    assert!(!is_relay_host("127.0.0.1"));
    assert!(!is_relay_host("[::1/"));
    assert!(!is_relay_host("[::1/128]"));
    assert!(!is_relay_host("[0:"));
    assert!(!is_relay_host("[0:0:0:0:0:0:0:1]"));
}

#[test]
fn relay_host_prefixes_are_exact() {
    assert!(is_relay_host("localhos"));
    assert!(is_relay_host("Localhost"));
    assert!(is_relay_host("127"));
    assert!(is_relay_host("1270.0.0.1"));
    assert!(is_relay_host("[::1"));
    assert!(is_relay_host("[0"));
    assert!(is_relay_host("[00:"));
}

#[test]
fn relay_host_rejects_surrounding_white_space() {
    assert!(!is_relay_host(" relay.example.com"));
    assert!(!is_relay_host("relay.example.com "));
    assert!(!is_relay_host("\trelay.example.com"));
    assert!(!is_relay_host("relay.example.com\u{a0}"));
    assert!(is_relay_host("relay example.com"));
}

#[test]
fn endpoint_needs_a_parse() {
    assert!(!is_relay_endpoint(&None));
}

#[test]
fn endpoint_needs_scheme_and_host() {
    assert!(!is_relay_endpoint(&parts(None, None)));
    assert!(!is_relay_endpoint(&parts(Some("wss"), None)));
    assert!(!is_relay_endpoint(&parts(None, Some("relay.example.com"))));
    assert!(is_relay_endpoint(&parts(Some("wss"), Some("relay.example.com"))));
    assert!(is_relay_endpoint(&parts(Some("ws"), Some("relay.example.com"))));
}

#[test]
fn endpoint_applies_both_rules() {
    assert!(!is_relay_endpoint(&parts(Some("https"), Some("relay.example.com"))));
    assert!(!is_relay_endpoint(&parts(Some("wss"), Some("localhost"))));
    assert!(!is_relay_endpoint(&parts(Some("wss"), Some("127.0.0.1"))));
    assert!(!is_relay_endpoint(&parts(Some("wss"), Some(" relay.example.com"))));
    assert!(!is_relay_endpoint(&parts(Some("https"), Some("localhost"))));
}
