//! Bearer-token authentication of requests.

use jsonwebtoken::{encode, Algorithm, DecodingKey, EncodingKey, Header};
use oidc_stack::dropshot::{answer, authenticate, bearer_token, unauthorized};
use oidc_stack::validator::{Jwk, Jwks, TokenValidator, ValidatorConfig, ValidatorError};
use serde_json::Value;

fn connected() -> (TokenValidator, String) {
    let mut keys = Jwks::new();
    keys.insert(
        "k".to_string(),
        Jwk {
            alg: None,
            decoding_key: DecodingKey::from_secret(b"secret"),
        },
    );
    let config = ValidatorConfig {
        issuer: "https://issuer.example".to_string(),
        client_id: "api".to_string(),
        additional_audiences: vec![],
        discovery_refresh_interval_seconds: 0,
    };
    let validator =
        match TokenValidator::connect(config, Ok("https://issuer.example".to_string()), Ok(keys)) {
            Ok(validator) => validator,
            Err(e) => panic!("{}", e.message()),
        };
    let mut claims = serde_json::Map::new();
    claims.insert("sub".to_string(), Value::from("user-1"));
    claims.insert("exp".to_string(), Value::from(4_000_000_000u64));
    let mut header = Header::new(Algorithm::HS256);
    header.kid = Some("k".to_string());
    let token = encode(
        &header,
        &Value::Object(claims),
        &EncodingKey::from_secret(b"secret"),
    )
    .unwrap();
    (validator, token)
}

/// Read the claims of a token, checking nothing.
fn read(token: &str) -> Result<Value, String> {
    jsonwebtoken::dangerous::insecure_decode::<Value>(token)
        .map(|data| data.claims)
        .map_err(|e| e.to_string())
}

#[test]
fn the_bearer_prefix_is_optional() {
    let (validator, token) = connected();
    for raw in [
        token.clone(),
        format!("Bearer {token}"),
        format!("bearer {token}"),
    ] {
        match authenticate(&validator, Some(raw.as_str()), read) {
            Ok((claims, seen)) => {
                assert_eq!(seen, token);
                assert_eq!(claims["sub"], "user-1");
            }
            Err(e) => panic!("{e:?}"),
        }
    }
}

#[test]
fn one_prefix_is_taken_off_and_no_other() {
    assert_eq!(bearer_token("Bearer abc"), "abc");
    assert_eq!(bearer_token("bearer abc"), "abc");
    assert_eq!(bearer_token("BEARER abc"), "BEARER abc");
    assert_eq!(bearer_token("Bearer Bearer abc"), "Bearer abc");
    assert_eq!(bearer_token("Bearer"), "Bearer");
    assert_eq!(bearer_token("Bearer "), "");
    assert_eq!(bearer_token(""), "");
}

#[test]
fn every_refusal_is_the_same_401() {
    let (validator, token) = connected();
    for raw in [None, Some(""), Some("Bearer nonsense"), Some(&token[1..])] {
        match authenticate(&validator, raw, read) {
            Err(rejection) => {
                let e = rejection.answer;
                assert_eq!(e.status_code, 401);
                assert_eq!(e.error_code, None);
                assert_eq!(e.external_message, "unauthorized");
                assert_eq!(e.internal_message, "unauthorized");
            }
            Ok(_) => panic!("{raw:?} accepted"),
        }
    }
    assert_eq!(unauthorized().status_code, 401);
    assert!(answer::<u8>(Err(ValidatorError::TokenExpired), "t").is_err());
    assert!(matches!(answer(Ok("{}".to_string()), "t"), Ok((c, "t")) if c == "{}"));
}

#[test]
fn the_reason_goes_to_the_log() {
    let (validator, _) = connected();
    let logged = |raw| authenticate(&validator, raw, read).unwrap_err().logged;
    assert_eq!(logged(None), "No Authorization header provided");
    assert_eq!(
        logged(Some("Bearer nonsense")),
        "OIDC token validation failed: Failed to decode JWT header: InvalidToken"
    );
    assert_eq!(
        answer::<u8>(Err(ValidatorError::TokenExpired), "t")
            .unwrap_err()
            .logged,
        "OIDC token validation failed: Token expired"
    );
}

#[test]
fn claims_that_do_not_fit_are_refused_and_logged() {
    let (validator, token) = connected();
    let misfit = |_: &str| Err::<u8, String>("JSON error: no".to_string());
    let rejection = authenticate(&validator, Some(token.as_str()), misfit).unwrap_err();
    assert_eq!(rejection.answer.status_code, 401);
    assert_eq!(
        rejection.logged,
        "OIDC token validation failed: JWT validation failed: JSON error: no"
    );
}
