//! Token validation against a key set, with tokens minted under the same
//! secret.

use std::time::{SystemTime, UNIX_EPOCH};

use jsonwebtoken::jwk::KeyAlgorithm;
use jsonwebtoken::{encode, Algorithm, DecodingKey, EncodingKey, Header};
use oidc_stack::discovery::{discovered_issuer, DiscoveryAnswer, DiscoveryError};
use oidc_stack::jwt::{DecodeError, TokenHeader};
use oidc_stack::validator::{
    jwks_source, report, Audience, Jwk, Jwks, TokenValidator, ValidatorConfig, ValidatorError,
};
use serde_json::Value;

const KID: &str = "itest-key";
const SECRET: &[u8] = b"integration-test-secret";
const CLIENT_ID: &str = "itest-client";
const ISSUER: &str = "http://127.0.0.1:4321";

fn entry(alg: Option<&str>, secret: &[u8]) -> Jwk {
    Jwk {
        alg: alg.map(|a| a.to_string()),
        decoding_key: DecodingKey::from_secret(secret),
    }
}

/// The key set that the provider serves, read from its JSON.
fn provider_keys() -> Jwks {
    let served: jsonwebtoken::jwk::Jwk = serde_json::from_str(
        r#"{"kty":"oct","kid":"itest-key","alg":"HS256","k":"aW50ZWdyYXRpb24tdGVzdC1zZWNyZXQ"}"#,
    )
    .unwrap();
    let read = jwks::JwkEntry::from_jsonwebkey_ref(&served).unwrap();
    let mut keys = Jwks::new();
    keys.insert(
        read.kid,
        Jwk {
            alg: read.jwk.alg.map(|a| a.to_string()),
            decoding_key: read.jwk.decoding_key,
        },
    );
    keys
}

fn config() -> ValidatorConfig {
    ValidatorConfig {
        issuer: ISSUER.to_string(),
        client_id: CLIENT_ID.to_string(),
        additional_audiences: vec![],
        discovery_refresh_interval_seconds: 0,
    }
}

fn connect_with(config: ValidatorConfig, keys: Jwks) -> TokenValidator {
    let discovered = discovered_issuer(Ok(DiscoveryAnswer {
        status: 200,
        reason: "200 OK".to_string(),
        refused: None,
        issuer: Ok(ISSUER.to_string()),
    }));
    match TokenValidator::connect(config, discovered, Ok(keys)) {
        Ok(validator) => validator,
        Err(e) => panic!("{}", e.message()),
    }
}

fn connect() -> TokenValidator {
    connect_with(config(), provider_keys())
}

fn now() -> i64 {
    SystemTime::now()
        .duration_since(UNIX_EPOCH)
        .unwrap()
        .as_secs() as i64
}

fn claims(aud: &str, expires_in_secs: i64) -> serde_json::Map<String, Value> {
    let mut claims = serde_json::Map::new();
    claims.insert("sub".to_string(), Value::from("user-1"));
    claims.insert("iss".to_string(), Value::from(ISSUER));
    claims.insert("aud".to_string(), Value::from(aud));
    claims.insert("exp".to_string(), Value::from(now() + expires_in_secs));
    claims.insert("groups".to_string(), Value::from(vec!["users"]));
    claims
}

fn mint_claims(kid: Option<&str>, alg: Algorithm, claims: serde_json::Map<String, Value>) -> String {
    let mut header = Header::new(alg);
    header.kid = kid.map(|k| k.to_string());
    encode(&header, &Value::Object(claims), &EncodingKey::from_secret(SECRET)).unwrap()
}

fn mint(kid: &str, aud: &str, expires_in_secs: i64) -> String {
    mint_claims(Some(kid), Algorithm::HS256, claims(aud, expires_in_secs))
}

/// Read the claims of a token, checking nothing.
fn read(token: &str) -> Result<Value, String> {
    jsonwebtoken::dangerous::insecure_decode::<Value>(token)
        .map(|data| data.claims)
        .map_err(|e| e.to_string())
}

fn failure(validator: &TokenValidator, token: &str) -> String {
    match validator.validate_token(token, read) {
        Err(e) => e.message(),
        Ok(claims) => panic!("accepted: {claims}"),
    }
}

#[test]
fn accepts_valid_token() {
    let validator = connect();
    let claims = validator
        .validate_token(&mint(KID, CLIENT_ID, 3600), read)
        .expect("valid token accepted");
    assert_eq!(claims["sub"], "user-1");
    assert_eq!(claims["groups"], Value::from(vec!["users"]));
}

#[test]
fn rejects_expired_token() {
    let validator = connect();
    let result = validator.validate_token(&mint(KID, CLIENT_ID, -3600), read);
    assert!(
        matches!(result, Err(ValidatorError::TokenExpired)),
        "{result:?}"
    );
}

#[test]
fn rejects_wrong_audience() {
    let validator = connect();
    let result = validator.validate_token(&mint(KID, "other-client", 3600), read);
    assert!(
        matches!(result, Err(ValidatorError::InvalidAudience)),
        "{result:?}"
    );
}

#[test]
fn rejects_unknown_key_id() {
    let validator = connect();
    let result = validator.validate_token(&mint("unknown-kid", CLIENT_ID, 3600), read);
    assert!(
        matches!(result, Err(ValidatorError::KeyNotFound(_))),
        "{result:?}"
    );
}

/// A token whose header `alg` disagrees with the algorithm the JWKS
/// key declares must be rejected by the alg pin, before any signature
/// check (classic algorithm-confusion hardening).
#[test]
fn rejects_token_alg_not_matching_jwk_alg() {
    let kid = "test-kid";
    let mut keys = Jwks::new();
    keys.insert(
        kid.to_string(),
        entry(Some(&KeyAlgorithm::EdDSA.to_string()), b"unused-on-this-path"),
    );
    let config = ValidatorConfig {
        issuer: "https://issuer.example".to_string(),
        client_id: "aud".to_string(),
        additional_audiences: vec![],
        discovery_refresh_interval_seconds: 0,
    };
    let validator =
        match TokenValidator::connect(config, Ok("https://issuer.example".to_string()), Ok(keys)) {
            Ok(validator) => validator,
            Err(e) => panic!("{}", e.message()),
        };
    assert_eq!(
        validator.jwks_url(),
        "https://issuer.example/.well-known/openid-configuration"
    );

    let mut header = Header::new(Algorithm::HS256);
    header.kid = Some(kid.to_string());
    let mut claims = serde_json::Map::new();
    claims.insert("sub".to_string(), Value::from("attacker"));
    let token = encode(
        &header,
        &Value::Object(claims),
        &EncodingKey::from_secret(b"forged"),
    )
    .expect("token encodes");

    match validator.validate_token(&token, read) {
        Err(ValidatorError::ValidationFailed(msg)) => {
            assert!(
                msg.contains("does not match key algorithm"),
                "expected alg-pin rejection, got: {msg}"
            );
            assert_eq!(msg, "token algorithm HS256 does not match key algorithm EdDSA");
        }
        other => panic!("expected ValidationFailed from alg pin, got {other:?}"),
    }
}

#[test]
fn a_key_without_a_declared_algorithm_takes_the_header_s() {
    let mut keys = Jwks::new();
    keys.insert(KID.to_string(), entry(None, SECRET));
    let validator = connect_with(config(), keys);
    let token = mint_claims(Some(KID), Algorithm::HS384, claims(CLIENT_ID, 3600));
    assert!(validator.validate_token(&token, read).is_ok());
}

#[test]
fn a_key_with_an_encryption_algorithm_validates_nothing() {
    let mut keys = Jwks::new();
    keys.insert(
        KID.to_string(),
        entry(Some(&KeyAlgorithm::RSA_OAEP.to_string()), SECRET),
    );
    let validator = connect_with(config(), keys);
    assert_eq!(
        failure(&validator, &mint(KID, CLIENT_ID, 3600)),
        "JWT validation failed: JWKS key declares unsupported alg RSA_OAEP"
    );
}

#[test]
fn rejects_a_token_that_is_no_token() {
    let validator = connect();
    match validator.validate_token("nonsense", read) {
        Err(ValidatorError::HeaderDecode(cause)) => assert_eq!(cause, "InvalidToken"),
        other => panic!("{other:?}"),
    }
}

#[test]
fn rejects_a_token_without_a_key_id() {
    let validator = connect();
    let token = mint_claims(None, Algorithm::HS256, claims(CLIENT_ID, 3600));
    assert!(matches!(
        validator.validate_token(&token, read),
        Err(ValidatorError::MissingKeyId)
    ));
}

#[test]
fn rejects_a_forged_signature() {
    let mut keys = Jwks::new();
    keys.insert(KID.to_string(), entry(Some("HS256"), b"another secret"));
    let validator = connect_with(config(), keys);
    assert_eq!(
        failure(&validator, &mint(KID, CLIENT_ID, 3600)),
        "JWT validation failed: InvalidSignature"
    );
}

#[test]
fn rejects_a_foreign_issuer() {
    let validator = connect();
    let mut claims = claims(CLIENT_ID, 3600);
    // Letter for letter: a trailing slash makes another issuer.
    claims.insert("iss".to_string(), Value::from("http://127.0.0.1:4321/"));
    assert_eq!(
        failure(&validator, &mint_claims(Some(KID), Algorithm::HS256, claims)),
        "JWT validation failed: InvalidIssuer"
    );
}

#[test]
fn rejects_a_token_from_the_future() {
    let validator = connect();
    let mut claims = claims(CLIENT_ID, 3600);
    claims.insert("nbf".to_string(), Value::from(now() + 600));
    assert_eq!(
        failure(&validator, &mint_claims(Some(KID), Algorithm::HS256, claims)),
        "JWT validation failed: ImmatureSignature"
    );
}

#[test]
fn rejects_an_unreadable_start_of_validity() {
    let validator = connect();
    let mut claims = claims(CLIENT_ID, -3600);
    claims.insert("nbf".to_string(), Value::from("soon"));
    assert_eq!(
        failure(&validator, &mint_claims(Some(KID), Algorithm::HS256, claims)),
        "JWT validation failed: Invalid format for claim: nbf"
    );
}

#[test]
fn rejects_a_token_without_an_expiry() {
    let validator = connect();
    for exp in [None, Some(Value::from("never"))] {
        let mut claims = claims(CLIENT_ID, 3600);
        claims.remove("exp");
        if let Some(exp) = exp {
            claims.insert("exp".to_string(), exp);
        }
        assert_eq!(
            failure(&validator, &mint_claims(Some(KID), Algorithm::HS256, claims)),
            "JWT validation failed: Missing required claim: exp"
        );
    }
}

#[test]
fn a_leeway_of_a_minute_is_granted() {
    let validator = connect();
    assert!(validator.validate_token(&mint(KID, CLIENT_ID, -30), read).is_ok());
    let mut early = claims(CLIENT_ID, 3600);
    early.insert("nbf".to_string(), Value::from(now() + 30));
    let token = mint_claims(Some(KID), Algorithm::HS256, early);
    assert!(validator.validate_token(&token, read).is_ok());
}

#[test]
fn expiry_is_reported_before_the_audience() {
    let validator = connect();
    assert!(matches!(
        validator.validate_token(&mint(KID, "other-client", -3600), read),
        Err(ValidatorError::TokenExpired)
    ));
}

#[test]
fn issuer_and_audience_count_only_where_present() {
    let validator = connect();
    let mut bare = claims(CLIENT_ID, 3600);
    bare.remove("aud");
    bare.remove("iss");
    let token = mint_claims(Some(KID), Algorithm::HS256, bare);
    assert!(validator.validate_token(&token, read).is_ok());
}

#[test]
fn additional_audiences_are_accepted_beside_the_client_id() {
    let mut config = config();
    config.additional_audiences = vec!["second".to_string(), "third".to_string()];
    let validator = connect_with(config, provider_keys());
    for aud in [CLIENT_ID, "second", "third"] {
        assert!(validator.validate_token(&mint(KID, aud, 3600), read).is_ok());
    }
    let mut many = claims("", 3600);
    many.insert("aud".to_string(), Value::from(vec!["else", "third"]));
    let token = mint_claims(Some(KID), Algorithm::HS256, many);
    assert!(validator.validate_token(&token, read).is_ok());
    assert!(matches!(
        validator.validate_token(&mint(KID, "fourth", 3600), read),
        Err(ValidatorError::InvalidAudience)
    ));
}

#[test]
fn a_refresh_swaps_the_keys_and_nothing_else() {
    let validator = connect();
    let token = mint(KID, CLIENT_ID, 3600);
    assert!(validator.validate_token(&token, read).is_ok());

    match validator.refresh_jwks(Err("timed out".to_string())) {
        Err(e) => assert_eq!(e.message(), "Failed to fetch JWKS: timed out"),
        Ok(_) => panic!("failed fetch reported as success"),
    }
    assert!(validator.validate_token(&token, read).is_ok());
    assert_eq!(validator.key_count(), 1);

    let mut rotated = Jwks::new();
    rotated.insert("a".to_string(), entry(Some("HS256"), SECRET));
    rotated.insert("b".to_string(), entry(None, SECRET));
    let validator = match validator.refresh_jwks(Ok(rotated)) {
        Ok(validator) => validator,
        Err(e) => panic!("{}", e.message()),
    };
    assert_eq!(validator.key_count(), 2);
    assert_eq!(validator.issuer(), ISSUER);
    assert_eq!(validator.audiences(), &vec![CLIENT_ID.to_string()]);
    assert!(matches!(
        validator.validate_token(&token, read),
        Err(ValidatorError::KeyNotFound(kid)) if kid == KID
    ));
    assert!(validator.validate_token(&mint("a", CLIENT_ID, 3600), read).is_ok());
    assert_eq!(
        validator.jwks_url(),
        "http://127.0.0.1:4321/.well-known/openid-configuration"
    );
}

#[test]
fn a_failed_key_fetch_fails_the_connection() {
    match TokenValidator::connect(config(), Ok(ISSUER.to_string()), Err("404".to_string())) {
        Err(ValidatorError::JwksFetch(cause)) => assert_eq!(cause, "404"),
        _ => panic!("connected without keys"),
    }
    let e = ValidatorError::from(DiscoveryError::Fetch("down".to_string()));
    assert_eq!(
        e.message(),
        "OIDC discovery failed: failed to fetch OIDC discovery: down"
    );
}

#[test]
fn a_failed_discovery_comes_before_the_keys() {
    let failed = || Err(DiscoveryError::Fetch("down".to_string()));
    for jwks in [Ok(provider_keys()), Err("404".to_string())] {
        match TokenValidator::connect(config(), failed(), jwks) {
            Err(e @ ValidatorError::Discovery(_)) => assert_eq!(
                e.message(),
                "OIDC discovery failed: failed to fetch OIDC discovery: down"
            ),
            _ => panic!("connected without an issuer"),
        }
    }
    assert_eq!(jwks_source(&config(), &failed()), None);
    assert_eq!(
        jwks_source(&config(), &Ok("https://elsewhere.example".to_string())).as_deref(),
        Some("http://127.0.0.1:4321/.well-known/openid-configuration")
    );
}

#[test]
fn the_configured_interval_decides_on_the_refresh() {
    assert_eq!(connect().refresh_task(), None);
    let mut config = config();
    config.discovery_refresh_interval_seconds = 90;
    let validator = connect_with(config, provider_keys());
    assert_eq!(validator.refresh_task().map(|t| t.period_seconds), Some(90));
    match validator.refresh_jwks(Ok(Jwks::new())) {
        Ok(next) => assert_eq!(next.refresh_task(), validator.refresh_task()),
        Err(e) => panic!("{}", e.message()),
    }
}

#[test]
fn keys_are_selected_by_the_header() {
    let validator = connect();
    let header = |alg: &str, kid: Option<&str>| TokenHeader {
        alg: alg.to_string(),
        kid: kid.map(|k| k.to_string()),
    };
    match validator.select_key(Ok(header("HS256", Some(KID)))) {
        Ok((jwk, alg)) => {
            assert_eq!(jwk.alg.as_deref(), Some("HS256"));
            assert_eq!(alg, "HS256");
        }
        Err(e) => panic!("{}", e.message()),
    }
    let message = |outcome: Result<(&Jwk, String), ValidatorError>| match outcome {
        Err(e) => e.message(),
        Ok(_) => panic!("selected"),
    };
    assert_eq!(
        message(validator.select_key(Err("garbled".to_string()))),
        "Failed to decode JWT header: garbled"
    );
    assert_eq!(
        message(validator.select_key(Ok(header("HS256", None)))),
        "JWT header missing Key ID (kid)"
    );
    assert_eq!(
        message(validator.select_key(Ok(header("HS256", Some("x"))))),
        "No matching key found for Key ID: x"
    );
    assert_eq!(
        message(validator.select_key(Ok(header("HS512", Some(KID))))),
        "JWT validation failed: token algorithm HS512 does not match key algorithm HS256"
    );
}

#[test]
fn decoding_outcomes_are_reported() {
    let fits = || Ok::<u8, String>(7);
    let misfit = || Err::<u8, String>("JSON error: no".to_string());
    assert_eq!(report(Ok(()), fits()).unwrap(), 7);
    let message = |e: DecodeError, read: Result<u8, String>| match report(Err(e), read) {
        Err(e) => e.message(),
        Ok(_) => panic!("accepted"),
    };
    assert_eq!(message(DecodeError::ExpiredSignature, fits()), "Token expired");
    assert_eq!(message(DecodeError::InvalidAudience, fits()), "Invalid audience");
    assert_eq!(
        message(DecodeError::Claims("why".to_string()), fits()),
        "JWT validation failed: why"
    );
    // The signature comes before the type, the type before the rules.
    assert_eq!(
        message(DecodeError::Signature("forged".to_string()), misfit()),
        "JWT validation failed: forged"
    );
    for e in [
        DecodeError::ExpiredSignature,
        DecodeError::InvalidAudience,
        DecodeError::Claims("why".to_string()),
    ] {
        assert_eq!(message(e, misfit()), "JWT validation failed: JSON error: no");
    }
    assert!(report(Ok(()), misfit()).is_err());
}

#[test]
fn claims_that_do_not_fit_are_reported_before_the_rules() {
    let validator = connect();
    let narrow = |token: &str| {
        jsonwebtoken::dangerous::insecure_decode::<Vec<u8>>(token)
            .map(|data| data.claims)
            .map_err(|e| e.to_string())
    };
    for (aud, expires_in_secs) in [(CLIENT_ID, 3600), (CLIENT_ID, -3600), ("other", 3600)] {
        let token = mint(KID, aud, expires_in_secs);
        match validator.validate_token(&token, narrow) {
            Err(ValidatorError::ValidationFailed(cause)) => assert_eq!(
                cause,
                "JSON error: invalid type: map, expected a sequence at line 1 column 0"
            ),
            other => panic!("{other:?}"),
        }
    }
    // A token that is refused unread is not read.
    let unread = |_: &str| -> Result<u8, String> { panic!("read") };
    assert!(matches!(
        validator.validate_token("nonsense", unread),
        Err(ValidatorError::HeaderDecode(_))
    ));
    let mut keys = Jwks::new();
    keys.insert(KID.to_string(), entry(Some("HS256"), b"another secret"));
    let other = connect_with(config(), keys);
    assert!(matches!(
        other.validate_token(&mint(KID, CLIENT_ID, 3600), unread),
        Err(ValidatorError::ValidationFailed(cause)) if cause == "InvalidSignature"
    ));
}

#[test]
fn signed_text_that_is_no_set_of_claims_is_refused() {
    let validator = connect();
    let mut header = Header::new(Algorithm::HS256);
    header.kid = Some(KID.to_string());
    let token = encode(&header, &Value::from(5), &EncodingKey::from_secret(SECRET)).unwrap();
    // It can be read as a value, so what is said of it comes from the check.
    match validator.validate_token(&token, read) {
        Err(ValidatorError::ValidationFailed(cause)) => {
            assert!(cause.starts_with("JSON error: invalid type: integer `5`"), "{cause}")
        }
        other => panic!("{other:?}"),
    }
}

#[test]
fn audience_membership() {
    assert!(Audience::Single("a".to_string()).contains("a"));
    assert!(!Audience::Single("a".to_string()).contains("b"));
    let many = Audience::Multiple(vec!["a".to_string(), "b".to_string()]);
    assert!(many.contains("b"));
    assert!(!many.contains("ab"));
    assert!(!Audience::default().contains(""));
    assert!(matches!(Audience::default(), Audience::Unspecified));
}
