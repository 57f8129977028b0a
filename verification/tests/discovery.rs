//! Discovery preflight.

use oidc_stack::discovery::{
    answered_issuer, default_refresh_interval_seconds, discovered_issuer, discovery_url,
    issuer_if_url, DiscoveryAnswer, DiscoveryError,
};
use oidc_stack::text;

fn answered(status: u16, issuer: Result<&str, &str>) -> DiscoveryAnswer {
    DiscoveryAnswer {
        status,
        reason: format!("{status} said so"),
        refused: None,
        issuer: issuer.map(|i| i.to_string()).map_err(|e| e.to_string()),
    }
}

#[test]
fn only_a_2xx_answer_counts() {
    for status in [100, 199, 300, 304, 404, 500, 999] {
        match discovered_issuer(Ok(answered(status, Ok("https://a.example")))) {
            Err(DiscoveryError::Fetch(cause)) => {
                assert_eq!(cause, format!("HTTP status {status} said so"))
            }
            other => panic!("{other:?}"),
        }
        assert!(answered_issuer(answered(status, Ok("https://a.example"))).is_err());
    }
    // The words of the HTTP client, where it takes the answer for an error.
    let said = "HTTP status client error (404 Not Found) for url (https://a.example/)";
    let mut missing = answered(404, Ok("https://a.example"));
    missing.refused = Some(said.to_string());
    match discovered_issuer(Ok(missing)) {
        Err(DiscoveryError::Fetch(cause)) => assert_eq!(cause, said),
        other => panic!("{other:?}"),
    }
    for status in [200, 204, 299] {
        let issuer = discovered_issuer(Ok(answered(status, Ok("https://a.example"))));
        assert_eq!(issuer.unwrap(), "https://a.example");
    }
    match discovered_issuer(Ok(answered(200, Err("missing field `issuer`")))) {
        Err(DiscoveryError::Fetch(cause)) => assert_eq!(cause, "missing field `issuer`"),
        other => panic!("{other:?}"),
    }
}

#[test]
fn default_interval_is_a_minute() {
    assert_eq!(default_refresh_interval_seconds(), 60);
}

#[test]
fn discovery_url_ignores_trailing_slashes() {
    for issuer in [
        "https://auth.example.com/auth/v1",
        "https://auth.example.com/auth/v1/",
        "https://auth.example.com/auth/v1///",
    ] {
        assert_eq!(
            discovery_url(issuer),
            "https://auth.example.com/auth/v1/.well-known/openid-configuration"
        );
    }
    assert_ne!(
        discovery_url("https://auth.example.com/auth/v1"),
        discovery_url("https://auth.example.com/auth/v2")
    );
    assert_eq!(discovery_url("//"), "/.well-known/openid-configuration");
}

#[test]
fn advertised_issuer_is_kept_verbatim() {
    // A re-serialized URL would gain a slash and lose the default port.
    for issuer in ["https://auth.example.com", "https://AUTH.example.com:443/v1/"] {
        match discovered_issuer(Ok(answered(200, Ok(issuer)))) {
            Ok(kept) => assert_eq!(kept, issuer),
            Err(e) => panic!("{}", e.message()),
        }
    }
}

#[test]
fn an_issuer_that_is_no_url_is_refused() {
    match discovered_issuer(Ok(answered(200, Ok("auth.example.com")))) {
        Err(DiscoveryError::InvalidIssuer(cause)) => {
            assert_eq!(cause, "relative URL without a base")
        }
        other => panic!("{other:?}"),
    }
    match issuer_if_url("x".to_string(), Err("no".to_string())) {
        Err(e) => assert_eq!(e.message(), "invalid issuer in discovery document: no"),
        Ok(_) => panic!("refused"),
    }
}

#[test]
fn a_failed_fetch_is_reported() {
    match discovered_issuer(Err("connection refused".to_string())) {
        Err(e @ DiscoveryError::Fetch(_)) => {
            assert_eq!(e.message(), "failed to fetch OIDC discovery: connection refused")
        }
        other => panic!("{other:?}"),
    }
}

#[test]
fn trimming_takes_only_the_character() {
    assert_eq!(text::trim_end("a/b//", '/'), "a/b");
    assert_eq!(text::trim_end("///", '/'), "");
    assert_eq!(text::trim_end("ä/ö", 'ö'), "ä/");
    assert_eq!(text::strip_prefix("äbc", "ä"), Some("bc"));
    assert_eq!(text::strip_prefix("bc", "bcd"), None);
    assert!(text::str_eq("grüße", "grüße"));
    assert!(!text::str_eq("gruesse", "grüße"));
}
