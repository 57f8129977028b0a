//! Signing and verifying inter-service requests.

use oidc_stack::signed_request::{
    check_signature, sign, verify, verify_at, SignedRequestError, MAX_SKEW_SECS,
};
use oidc_stack::timestamp;
use secrecy::{ExposeSecret, SecretString};

const BODY: &[u8] = br#"{"email":"a@b.c"}"#;

fn now() -> i64 {
    chrono::Utc::now().timestamp()
}

#[test]
fn verify_round_trip() {
    let secret = SecretString::from("topsecret");
    let body = br#"{"email":"a@b.c"}"#;
    let ts = now().to_string();
    let sig = sign(secret.expose_secret(), &ts, body);
    assert!(verify(secret.expose_secret(), &ts, body, &sig).is_ok());
}

#[test]
fn rejects_wrong_signature() {
    let signer = SecretString::from("wrong-secret");
    let verifier = SecretString::from("topsecret");
    let body = br#"{"email":"a@b.c"}"#;
    let ts = now().to_string();
    let sig = sign(signer.expose_secret(), &ts, body);
    assert!(matches!(
        verify(verifier.expose_secret(), &ts, body, &sig),
        Err(SignedRequestError::SignatureMismatch)
    ));
}

#[test]
fn rejects_tampered_body() {
    let secret = SecretString::from("topsecret");
    let body = br#"{"email":"a@b.c"}"#;
    let ts = now().to_string();
    let sig = sign(secret.expose_secret(), &ts, body);
    let tampered = br#"{"email":"x@b.c"}"#;
    assert!(matches!(
        verify(secret.expose_secret(), &ts, tampered, &sig),
        Err(SignedRequestError::SignatureMismatch)
    ));
}

#[test]
fn rejects_stale_timestamp() {
    let secret = SecretString::from("topsecret");
    let body = br#"{"email":"a@b.c"}"#;
    let ts = (now() - 600).to_string();
    let sig = sign(secret.expose_secret(), &ts, body);
    assert!(matches!(
        verify(secret.expose_secret(), &ts, body, &sig),
        Err(SignedRequestError::Stale)
    ));
}

#[test]
fn rejects_bad_hex() {
    let secret = SecretString::from("topsecret");
    let body = b"x";
    let ts = now().to_string();
    assert!(matches!(
        verify(secret.expose_secret(), &ts, body, "not-hex-zz"),
        Err(SignedRequestError::BadSignatureEncoding)
    ));
}

#[test]
fn signature_of_a_known_request() {
    assert_eq!(
        sign("topsecret", "1700000000", BODY),
        "d391d316eb778f88181a7b3ed1a7ada4c5a928bb4e8683deb4616710702cfc6c"
    );
}

#[test]
fn rejects_a_timestamp_that_is_no_integer() {
    for ts in ["", "abc", "1.5", " 1", "1 ", "+", "-", "9223372036854775808", "١"] {
        let sig = sign("topsecret", ts, BODY);
        assert_eq!(
            verify("topsecret", ts, BODY, &sig),
            Err(SignedRequestError::BadTimestamp),
            "{ts:?}"
        );
    }
}

#[test]
fn replay_window_is_inclusive_on_both_sides() {
    let at: i64 = 1_700_000_000;
    let sig = sign("topsecret", "1700000000", BODY);
    for (now, expected) in [
        (at - MAX_SKEW_SECS, Ok(())),
        (at + MAX_SKEW_SECS, Ok(())),
        (at - MAX_SKEW_SECS - 1, Err(SignedRequestError::Stale)),
        (at + MAX_SKEW_SECS + 1, Err(SignedRequestError::Stale)),
    ] {
        assert_eq!(verify_at("topsecret", "1700000000", BODY, &sig, now), expected);
    }
}

#[test]
fn far_away_timestamps_are_stale() {
    for ts in ["-9223372036854775808", "9223372036854775807"] {
        let sig = sign("topsecret", ts, BODY);
        for now in [i64::MIN + 301, 0, i64::MAX - 301] {
            assert_eq!(
                verify_at("topsecret", ts, BODY, &sig, now).is_ok(),
                (now as i128 - ts.parse::<i128>().unwrap()).abs() <= 300
            );
        }
    }
}

#[test]
fn upper_case_signatures_are_accepted() {
    let sig = sign("topsecret", "1700000000", BODY).to_uppercase();
    assert_eq!(verify_at("topsecret", "1700000000", BODY, &sig, 1_700_000_000), Ok(()));
}

#[test]
fn a_shortened_signature_is_a_mismatch_or_no_hex() {
    let sig = sign("topsecret", "1700000000", BODY);
    assert_eq!(
        verify_at("topsecret", "1700000000", BODY, &sig[..62], 1_700_000_000),
        Err(SignedRequestError::SignatureMismatch)
    );
    assert_eq!(
        verify_at("topsecret", "1700000000", BODY, &sig[..63], 1_700_000_000),
        Err(SignedRequestError::BadSignatureEncoding)
    );
    assert_eq!(
        verify_at("topsecret", "1700000000", BODY, "", 1_700_000_000),
        Err(SignedRequestError::SignatureMismatch)
    );
}

#[test]
fn another_timestamp_is_a_mismatch() {
    let sig = sign("topsecret", "1700000000", BODY);
    assert_eq!(
        verify_at("topsecret", "1700000001", BODY, &sig, 1_700_000_000),
        Err(SignedRequestError::SignatureMismatch)
    );
}

#[test]
fn the_separator_keeps_timestamp_and_body_apart() {
    assert_ne!(sign("k", "12", b"3.x"), sign("k", "1", b"23.x"));
    assert_ne!(sign("k", "12", b""), sign("k", "1", b"2"));
}

#[test]
fn staleness_is_looked_at_before_the_signature() {
    assert_eq!(
        verify_at("topsecret", "0", BODY, "zz", 1_700_000_000),
        Err(SignedRequestError::Stale)
    );
}

#[test]
fn signed_request_error_messages() {
    assert_eq!(
        SignedRequestError::BadTimestamp.message(),
        "Timestamp is not a valid integer"
    );
    assert_eq!(
        SignedRequestError::Stale.message(),
        "Request timestamp is outside the allowed skew window"
    );
    assert_eq!(
        SignedRequestError::BadSignatureEncoding.message(),
        "Signature is not valid hex"
    );
    assert_eq!(
        SignedRequestError::SignatureMismatch.message(),
        "Signature mismatch"
    );
}

#[test]
fn timestamps_read_as_the_standard_library_reads_them() {
    for text in [
        "0",
        "-0",
        "+0",
        "007",
        "+7",
        "-7",
        "--7",
        "+-7",
        "7-",
        "1_000",
        "0x10",
        "1e3",
        "９",
        "9223372036854775807",
        "9223372036854775808",
        "-9223372036854775808",
        "-9223372036854775809",
        "00000000000000000000000000000000000000000001",
        "99999999999999999999999999999999999999999999",
        "",
        "+",
        "-",
        "\n1",
    ] {
        assert_eq!(timestamp::parse(text), text.parse::<i64>().ok(), "{text:?}");
    }
}

#[test]
fn signatures_are_held_against_the_code() {
    assert_eq!(check_signature(&[0, 0xab], "00aB"), Ok(()));
    assert_eq!(
        check_signature(&[0, 0xab], "00ac"),
        Err(SignedRequestError::SignatureMismatch)
    );
    assert_eq!(
        check_signature(&[0, 0xab], "00a"),
        Err(SignedRequestError::BadSignatureEncoding)
    );
    assert_eq!(
        check_signature(&[0, 0xab], "00ä"),
        Err(SignedRequestError::BadSignatureEncoding)
    );
    assert_eq!(check_signature(&[], ""), Ok(()));
}
