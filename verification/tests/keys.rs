//! Keys, URIs and texts.

use hyperdriver::client::pool::key::{Key, Token, TokenMap, UriError, UriKey};
use hyperdriver::client::{key_for, parse_key, KeyError};
use hyperdriver::counter::{Counter, Counter16};
use hyperdriver::patron;
use hyperdriver::text;
use hyperdriver::uri::{Authority, Scheme, Uri};

fn uri(text: &str) -> Uri {
    Uri::parse(text).unwrap()
}

fn authority(text: &str) -> Authority {
    Authority::parse(text).unwrap()
}

#[test]
fn key_key_from_uri() {
    let key = UriKey::try_from(uri("http://localhost:8080")).unwrap();
    assert_eq!(key.0, Scheme::http());
    assert_eq!(key.1, Some(authority("localhost:8080")));
}

#[test]
fn key_from_uri() {
    let key = patron::pool::Key::from_uri(uri("http://localhost:8080"));
    assert_eq!(key.0, Scheme::http());
    assert_eq!(key.1, authority("localhost:8080"));
}

#[test]
fn key_key_display() {
    let key = UriKey(Scheme::http(), Some(authority("localhost:8080")));
    assert_eq!(key.to_string(), "http://localhost:8080");
}

#[test]
fn key_display() {
    let key = patron::pool::Key(Scheme::http(), authority("localhost:8080"));
    assert_eq!(key.to_string(), "http://localhost:8080");
}

#[test]
fn key_key_from_tuple() {
    let key = UriKey::from((Scheme::http(), authority("localhost:8080")));
    assert_eq!(key.0, Scheme::http());
    assert_eq!(key.1, Some(authority("localhost:8080")));
}

#[test]
fn key_from_tuple() {
    let key = patron::pool::Key::from_parts((Scheme::http(), authority("localhost:8080")));
    assert_eq!(key.0, Scheme::http());
    assert_eq!(key.1, authority("localhost:8080"));
}

#[test]
fn key_key_debug() {
    let key = UriKey(Scheme::http(), Some(authority("localhost:8080")));
    assert_eq!(key.debug_text(), "UriKey(\"http\", Some(localhost:8080))");
}

#[test]
fn key_debug() {
    let key = patron::pool::Key(Scheme::http(), authority("localhost:8080"));
    assert_eq!(key.debug_text(), "Key(\"http\", localhost:8080)");
}

#[test]
fn mod_key_from_uri() {
    let key = key_for(uri("http://localhost:8080")).unwrap();
    assert_eq!(key.0, Scheme::http());
    assert_eq!(key.1, Some(authority("localhost:8080")));
}

#[test]
fn mod_key_display() {
    let key = UriKey(Scheme::http(), Some(authority("localhost:8080")));
    assert_eq!(key.to_string(), "http://localhost:8080");
}

#[test]
fn mod_key_from_tuple() {
    let key: UriKey = (Scheme::http(), authority("localhost:8080")).into();
    assert_eq!(key.0, Scheme::http());
    assert_eq!(key.1, Some(authority("localhost:8080")));
}

#[test]
fn mod_key_debug() {
    let key = UriKey(Scheme::http(), Some(authority("localhost:8080")));
    assert_eq!(key.debug_text(), "UriKey(\"http\", Some(localhost:8080))");
}

#[test]
fn token_wrap() {
    let mut map: TokenMap<&str> = TokenMap::starting_at(usize::MAX);
    let foo = map.insert("key");
    assert_eq!(foo.value(), Some(usize::MAX));

    let bar = map.insert("bar");
    assert_eq!(bar.value(), Some(1));

    assert_eq!(map.insert("bar"), bar);
    assert_ne!(map.insert("key"), bar);
}

#[test]
fn token_without_a_key() {
    assert!(Token::zero().is_zero());
    assert_eq!(Token::zero().value(), None);
    let mut map: TokenMap<&str> = TokenMap::default();
    let first = map.insert("key");
    assert!(!first.is_zero());
    assert_ne!(first, Token::zero());
    assert_eq!(first.value(), Some(1));
    let mut wrapped: TokenMap<&str> = TokenMap::starting_at(usize::MAX);
    for key in ["a", "b", "c", "a"] {
        assert_ne!(wrapped.insert(key), Token::zero());
    }
}

#[test]
fn known_keys_keep_their_tokens() {
    let mut map: TokenMap<UriKey> = TokenMap::default();
    let first = map.insert(UriKey::parse("http://a.example").unwrap());
    let second = map.insert(UriKey::parse("http://b.example").unwrap());
    let third = map.insert(UriKey::parse("http://c.example").unwrap());
    assert_eq!(map.insert(UriKey::parse("http://A.example").unwrap()), first);
    assert_eq!(map.insert(UriKey::parse("http://b.example").unwrap()), second);
    assert_eq!(map.insert(UriKey::parse("http://d.example").unwrap()).value(), Some(4));
    assert_eq!(map.insert(UriKey::parse("http://c.example").unwrap()), third);
}

#[test]
fn key_without_authority() {
    let key = UriKey(Scheme::http(), None);
    assert_eq!(key.to_string(), "http://");
    assert_eq!(key.debug_text(), "UriKey(\"http\", None)");
    assert!(key == key.clone());
    assert!(key != UriKey(Scheme::http(), Some(authority("localhost"))));
}

#[test]
fn key_needs_a_scheme() {
    let error = UriKey::build_key(&uri("/path?query")).unwrap_err();
    assert_eq!(error.to_string(), "missing scheme in uri: /path?query");
    let error = UriKey::parse("/path").unwrap_err();
    assert!(matches!(error, UriError::MissingScheme(_)));
    let error = key_for(uri("/path")).unwrap_err();
    assert_eq!(error.to_string(), "Missing scheme in URI: /path");
    let error = parse_key("example.com:80").unwrap_err();
    assert_eq!(error.to_string(), "Missing scheme in URI: example.com:80");
}

#[test]
fn key_needs_a_uri() {
    let error = UriKey::parse("http://a b").unwrap_err();
    assert_eq!(error.to_string(), "invalid uri: invalid uri character");
    let error = parse_key("http://a b").unwrap_err();
    assert_eq!(error.to_string(), "invalid uri character");
    assert_eq!(KeyError::new("told".to_owned()).to_string(), "told");
}

#[test]
fn keys_ignore_the_case_of_hosts() {
    let first = UriKey::parse("http://EXAMPLE.com").unwrap();
    let second = UriKey::parse("http://example.com").unwrap();
    assert!(first == second);
    let mut map: TokenMap<UriKey> = TokenMap::default();
    let token = map.insert(first);
    assert_eq!(map.insert(second), token);
    assert_ne!(map.insert(UriKey::parse("https://example.com").unwrap()), token);
}

#[test]
fn schemes_of_other_kinds_ignore_case() {
    assert!(Scheme::new("Svc".to_owned()) == Scheme::new("svc".to_owned()));
    assert!(Scheme::new("HTTP".to_owned()) != Scheme::http());
    assert_eq!(Scheme::https().as_str(), "https");
}

#[test]
fn uris_are_read_and_written() {
    let parsed = uri("https://user@example.com:8443/a/b?c=d");
    assert_eq!(parsed.scheme_str(), Some("https"));
    assert_eq!(parsed.host(), Some("example.com"));
    assert_eq!(parsed.port_u16(), Some(8443));
    assert_eq!(parsed.path, "/a/b");
    assert_eq!(parsed.query, Some("c=d".to_owned()));
    assert_eq!(parsed.authority.as_ref().unwrap().as_str(), "user@example.com:8443");
    assert_eq!(parsed.to_string(), "https://user@example.com:8443/a/b?c=d");
    assert!(Uri::parse("").is_err());
    assert!(Authority::parse("a/b").is_err());
}

#[test]
fn authorities_are_made_of_parts() {
    let made = Authority::from_parts("[::1]:80".to_owned(), "[::1]".to_owned(), Some(80));
    assert_eq!(made.as_str(), "[::1]:80");
    assert_eq!(made.host(), "[::1]");
    assert_eq!(made.port_u16(), Some(80));
    assert!(made == authority("[::1]:80"));
}

#[test]
fn numbers_are_written_and_read() {
    assert_eq!(text::decimal(0), "0");
    assert_eq!(text::decimal(1030), "1030");
    assert_eq!(text::decimal(u128::MAX), "340282366920938463463374607431768211455");
    assert_eq!(text::parse_i32("1030"), Some(1030));
    assert_eq!(text::parse_i32("-7"), Some(-7));
    assert_eq!(text::parse_i32("+7"), Some(7));
    assert_eq!(text::parse_i32("2147483647"), Some(i32::MAX));
    assert_eq!(text::parse_i32("-2147483648"), Some(i32::MIN));
    assert_eq!(text::parse_i32("2147483648"), None);
    assert_eq!(text::parse_i32("-2147483649"), None);
    assert_eq!(text::parse_i32("99999999999999999999"), None);
    assert_eq!(text::parse_i32(""), None);
    assert_eq!(text::parse_i32("-"), None);
    assert_eq!(text::parse_i32("+"), None);
    assert_eq!(text::parse_i32("12a"), None);
    assert_eq!(text::parse_i32("007"), Some(7));
}

#[test]
fn white_space_is_cut_off() {
    assert_eq!(text::trim("  12\n"), "12");
    assert_eq!(text::trim("\u{3000}\u{a0}a b\u{2003}\t"), "a b");
    assert_eq!(text::trim(" \r\n"), "");
    assert_eq!(text::trim(""), "");
    assert_eq!(text::trim("\u{200b}x"), "\u{200b}x");
    assert_eq!(text::trim_start("[[x]", '['), "x]");
    assert_eq!(text::trim_end("[x]]", ']'), "[x");
    assert_eq!(text::join("a", "b"), "ab");
}

#[test]
fn counters_start_over() {
    let mut ids = Counter16::new();
    assert_eq!(ids.take(), 1);
    for _ in 2..=u16::MAX {
        ids.take();
    }
    assert_eq!(ids.take(), 0);
    assert_eq!(ids.take(), 1);
    let mut ids = Counter::new();
    assert_eq!(ids.take(), 1);
    assert_eq!(ids.take(), 2);
}
