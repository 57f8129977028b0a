//! HMAC-SHA256 signed-request primitive for inter-service authentication.
//!
//! Recipe: the signature is the hex-encoded HMAC-SHA256 of `{timestamp}.{body}`
//! under a shared secret. The signer (e.g. a BFF) calls [`sign`]; the verifier
//! (e.g. an internal API endpoint) calls [`verify`].
//!
//! Replay window: +/-[`MAX_SKEW_SECS`] seconds. Comparison is constant-time.
//!
//! Header-presence errors (missing timestamp/signature header) are an
//! HTTP-layer concern and intentionally not modelled here; callers handle
//! their own header extraction. Callers that keep the secret in a
//! `secrecy::SecretString` pass what `expose_secret` gives.

use hmac::{KeyInit, Mac};
use subtle::ConstantTimeEq;
use vstd::prelude::*;

use crate::hexadecimal;
use crate::timestamp;

verus! {

/// Maximum allowed clock skew between signer and verifier, in seconds.
pub const MAX_SKEW_SECS: i64 = 300;

/// Errors returned by [`verify`].
#[derive(Debug, Clone, Copy, PartialEq, Eq, Structural)]
pub enum SignedRequestError {
    /// The timestamp is not a decimal integer that fits.
    BadTimestamp,
    /// The timestamp is further than [`MAX_SKEW_SECS`] from the clock.
    Stale,
    /// The signature is not hexadecimal text.
    BadSignatureEncoding,
    /// The signature belongs to another secret, timestamp or body.
    SignatureMismatch,
}

impl SignedRequestError {
    /// The text shown for the error.
    pub open spec fn spec_message(self) -> Seq<char> {
        match self {
            SignedRequestError::BadTimestamp => "Timestamp is not a valid integer"@,
            SignedRequestError::Stale => "Request timestamp is outside the allowed skew window"@,
            SignedRequestError::BadSignatureEncoding => "Signature is not valid hex"@,
            SignedRequestError::SignatureMismatch => "Signature mismatch"@,
        }
    }

    /// The text shown for the error.
    pub fn message(&self) -> (text: &'static str)
        ensures
            text@ == self.spec_message(),
    {
        match self {
            SignedRequestError::BadTimestamp => "Timestamp is not a valid integer",
            SignedRequestError::Stale => "Request timestamp is outside the allowed skew window",
            SignedRequestError::BadSignatureEncoding => "Signature is not valid hex",
            SignedRequestError::SignatureMismatch => "Signature mismatch",
        }
    }
}

/// The HMAC-SHA256 of `message` under `key`.
pub uninterp spec fn hmac_sha256(key: Seq<u8>, message: Seq<u8>) -> Seq<u8>;

/// The signed bytes: `{timestamp}.{body}`.
pub open spec fn signed_message(timestamp: Seq<char>, body: Seq<u8>) -> Seq<u8> {
    vstd::utf8::encode_utf8(timestamp) + seq!['.' as u8] + body
}

/// The authentication code of a request.
pub open spec fn request_mac(secret: Seq<char>, timestamp: Seq<char>, body: Seq<u8>) -> Seq<u8> {
    hmac_sha256(vstd::utf8::encode_utf8(secret), signed_message(timestamp, body))
}

/// The signature of a request: its authentication code in hexadecimal.
pub open spec fn signature(secret: Seq<char>, timestamp: Seq<char>, body: Seq<u8>) -> Seq<char> {
    hexadecimal::hex_encoded(request_mac(secret, timestamp, body))
}

/// Whether `ts` lies within the replay window around `now`.
pub open spec fn is_fresh(ts: i64, now: i64) -> bool {
    -MAX_SKEW_SECS <= now - ts <= MAX_SKEW_SECS
}

/// What a signature is worth against the expected authentication code.
pub open spec fn signature_verdict(expected: Seq<u8>, sig_hex: Seq<char>) -> Result<
    (),
    SignedRequestError,
> {
    match hexadecimal::hex_decoded(sig_hex) {
        None => Err(SignedRequestError::BadSignatureEncoding),
        Some(provided) => if provided == expected {
            Ok(())
        } else {
            Err(SignedRequestError::SignatureMismatch)
        },
    }
}

/// What verification decides when the clock shows `now`.
pub open spec fn verdict(
    secret: Seq<char>,
    timestamp: Seq<char>,
    body: Seq<u8>,
    sig_hex: Seq<char>,
    now: i64,
) -> Result<(), SignedRequestError> {
    match timestamp::parsed(timestamp) {
        None => Err(SignedRequestError::BadTimestamp),
        Some(ts) => if !is_fresh(ts, now) {
            Err(SignedRequestError::Stale)
        } else {
            signature_verdict(request_mac(secret, timestamp, body), sig_hex)
        },
    }
}

/// `hmac::Hmac<sha2::Sha256>` keyed by `new_from_slice`, fed by one `update`
/// and closed by `finalize`: the HMAC-SHA256, thirty-two bytes long. A key of
/// any length is taken.
#[verifier::external_body]
fn hmac_sha256_bytes(key: &[u8], message: &[u8]) -> (mac: Vec<u8>)
    ensures
        mac@ == hmac_sha256(key@, message@),
        mac@.len() == 32,
{
    let mut mac = hmac::Hmac::<sha2::Sha256>::new_from_slice(key).expect("any key size");
    mac.update(message);
    mac.finalize().into_bytes().to_vec()
}

/// `subtle::ConstantTimeEq::ct_eq` on byte slices: whether they are equal.
/// Slices of different lengths are not. That the time taken does not depend
/// on the bytes is left unsaid.
#[verifier::external_body]
fn ct_eq(a: &[u8], b: &[u8]) -> (equal: bool)
    ensures
        equal == (a@ == b@),
{
    a.ct_eq(b).into()
}

/// `chrono::Utc::now` as Unix seconds: whatever the clock shows.
#[verifier::external_body]
fn now_timestamp() -> (now: i64) {
    chrono::Utc::now().timestamp()
}

/// Whether the clock was read and showed `now`.
pub closed spec fn is_clock_reading(now: i64) -> bool {
    call_ensures(now_timestamp, (), now)
}

/// The authentication code of a request.
fn compute_mac(secret: &str, timestamp: &str, body: &[u8]) -> (mac: Vec<u8>)
    ensures
        mac@ == request_mac(secret@, timestamp@, body@),
        mac@.len() == 32,
{
    let mut message: Vec<u8> = Vec::new();
    message.extend_from_slice(timestamp.as_bytes());
    message.push('.' as u8);
    message.extend_from_slice(body);
    assert(message@ =~= signed_message(timestamp@, body@));
    hmac_sha256_bytes(secret.as_bytes(), &message)
}

/// Sign `{timestamp}.{body}` with `secret`, returning the hex-encoded
/// HMAC-SHA256 digest.
pub fn sign(secret: &str, timestamp: &str, body: &[u8]) -> (sig_hex: String)
    ensures
        sig_hex@ == signature(secret@, timestamp@, body@),
        sig_hex@ == hexadecimal::hex_encoded(
            hmac_sha256(
                vstd::utf8::encode_utf8(secret@),
                vstd::utf8::encode_utf8(timestamp@) + seq!['.' as u8] + body@,
            ),
        ),
        sig_hex@.len() == 64,
{
    let mac = compute_mac(secret, timestamp, body);
    hexadecimal::encode(&mac)
}

/// Verify a hex-encoded HMAC-SHA256 signature over `{timestamp}.{body}`
/// against `secret`, enforcing a +/-[`MAX_SKEW_SECS`] window on the timestamp.
pub fn verify(secret: &str, timestamp: &str, body: &[u8], sig_hex: &str) -> (outcome: Result<
    (),
    SignedRequestError,
>)
    ensures
        exists|now: i64|
            outcome == #[trigger] verdict(secret@, timestamp@, body@, sig_hex@, now)
                && is_clock_reading(now),
        outcome == Err::<(), _>(SignedRequestError::BadTimestamp) <==> timestamp::parsed(
            timestamp@,
        ) is None,
        outcome is Ok ==> hexadecimal::hex_decoded(sig_hex@) == Some(
            request_mac(secret@, timestamp@, body@),
        ),
        outcome is Ok ==> hexadecimal::hex_decoded(sig_hex@) == Some(
            hmac_sha256(
                vstd::utf8::encode_utf8(secret@),
                vstd::utf8::encode_utf8(timestamp@) + seq!['.' as u8] + body@,
            ),
        ),
{
    let now: i64 = now_timestamp();
    verify_at(secret, timestamp, body, sig_hex, now)
}

/// [`verify`] with the clock reading given.
pub fn verify_at(secret: &str, timestamp: &str, body: &[u8], sig_hex: &str, now: i64) -> (outcome:
    Result<(), SignedRequestError>)
    ensures
        outcome == verdict(secret@, timestamp@, body@, sig_hex@, now),
        outcome is Ok <==> {
            let ts = timestamp::parsed(timestamp@);
            &&& ts is Some
            &&& now - ts->0 <= 300
            &&& ts->0 - now <= 300
            &&& hexadecimal::hex_decoded(sig_hex@) == Some(
                hmac_sha256(
                    vstd::utf8::encode_utf8(secret@),
                    vstd::utf8::encode_utf8(timestamp@) + seq!['.' as u8] + body@,
                ),
            )
        },
{
    let ts: i64 = match timestamp::parse(timestamp) {
        Some(ts) => ts,
        None => return Err(SignedRequestError::BadTimestamp),
    };
    let skew: i128 = now as i128 - ts as i128;
    if skew > MAX_SKEW_SECS as i128 || skew < -(MAX_SKEW_SECS as i128) {
        return Err(SignedRequestError::Stale);
    }
    let expected = compute_mac(secret, timestamp, body);
    check_signature(&expected, sig_hex)
}

/// Hold a hex-encoded signature against the expected authentication code.
pub fn check_signature(expected: &[u8], sig_hex: &str) -> (outcome: Result<(), SignedRequestError>)
    ensures
        outcome == signature_verdict(expected@, sig_hex@),
{
    let provided = match hexadecimal::decode(sig_hex) {
        Ok(provided) => provided,
        Err(_) => return Err(SignedRequestError::BadSignatureEncoding),
    };
    if ct_eq(expected, &provided) {
        Ok(())
    } else {
        Err(SignedRequestError::SignatureMismatch)
    }
}

/// What [`sign`] signs, [`verify`] accepts, as long as the timestamp is within
/// the replay window.
pub proof fn law_sign_then_verify(secret: Seq<char>, timestamp: Seq<char>, body: Seq<u8>, now: i64)
    requires
        timestamp::parsed(timestamp) matches Some(ts) && is_fresh(ts, now),
    ensures
        verdict(secret, timestamp, body, signature(secret, timestamp, body), now) == Ok::<
            (),
            SignedRequestError,
        >(()),
{
    hexadecimal::lemma_decode_encoded(request_mac(secret, timestamp, body));
}

/// An accepted signature is the one [`sign`] gives for the same request, up to
/// the case of its letters, and its timestamp is within the replay window.
pub proof fn law_accepted_only_if_signed(
    secret: Seq<char>,
    timestamp: Seq<char>,
    body: Seq<u8>,
    sig_hex: Seq<char>,
    now: i64,
)
    requires
        verdict(secret, timestamp, body, sig_hex, now) is Ok,
    ensures
        sig_hex.map_values(|c: char| hexadecimal::lower_digit(c)) == signature(
            secret,
            timestamp,
            body,
        ),
        timestamp::parsed(timestamp) matches Some(ts) && is_fresh(ts, now),
{
    hexadecimal::lemma_decoded_text(sig_hex, request_mac(secret, timestamp, body));
}

/// A signature made for one request is refused for another whose
/// authentication code differs: with another secret, timestamp or body it
/// passes only where HMAC-SHA256 itself collides.
pub proof fn law_tampering_is_refused(
    signer: Seq<char>,
    verifier: Seq<char>,
    signed_timestamp: Seq<char>,
    timestamp: Seq<char>,
    signed_body: Seq<u8>,
    body: Seq<u8>,
    now: i64,
)
    requires
        request_mac(signer, signed_timestamp, signed_body) != request_mac(
            verifier,
            timestamp,
            body,
        ),
        timestamp::parsed(timestamp) matches Some(ts) && is_fresh(ts, now),
    ensures
        verdict(
            verifier,
            timestamp,
            body,
            signature(signer, signed_timestamp, signed_body),
            now,
        ) == Err::<(), _>(SignedRequestError::SignatureMismatch),
{
    hexadecimal::lemma_decode_encoded(request_mac(signer, signed_timestamp, signed_body));
}

/// No byte of a readable timestamp is the separator.
proof fn lemma_timestamp_has_no_dot(timestamp: Seq<char>)
    requires
        timestamp::parsed(timestamp) is Some,
    ensures
        !vstd::utf8::encode_utf8(timestamp).contains('.' as u8),
{
    let digits = timestamp::magnitude(timestamp);
    assert forall|i: int| 0 <= i < timestamp.len() implies '+' <= #[trigger] timestamp[i] <= '9'
        && timestamp[i] != '.' by {
        if timestamp::is_signed(timestamp) {
            if i > 0 {
                assert(digits[i - 1] == timestamp[i]);
            }
        } else {
            assert(digits[i] == timestamp[i]);
        }
    }
    assert(vstd::utf8::is_ascii_chars(timestamp));
    vstd::utf8::is_ascii_chars_encode_utf8(timestamp);
    let bytes = vstd::utf8::encode_utf8(timestamp);
    assert forall|i: int| 0 <= i < bytes.len() implies bytes[i] != '.' as u8 by {
        assert(timestamp[i] as u8 == bytes[i]);
        assert('+' <= timestamp[i] <= '9');
    }
}

/// The signed bytes leave no doubt about where the timestamp ends: requests
/// with readable timestamps sign the same bytes only if they are the same
/// request.
pub proof fn law_signed_message_is_unambiguous(
    timestamp: Seq<char>,
    body: Seq<u8>,
    other_timestamp: Seq<char>,
    other_body: Seq<u8>,
)
    requires
        timestamp::parsed(timestamp) is Some,
        timestamp::parsed(other_timestamp) is Some,
        signed_message(timestamp, body) == signed_message(other_timestamp, other_body),
    ensures
        timestamp == other_timestamp,
        body == other_body,
{
    let message = signed_message(timestamp, body);
    let a = vstd::utf8::encode_utf8(timestamp);
    let b = vstd::utf8::encode_utf8(other_timestamp);
    lemma_timestamp_has_no_dot(timestamp);
    lemma_timestamp_has_no_dot(other_timestamp);
    assert(message[a.len() as int] == '.' as u8);
    assert(message[b.len() as int] == '.' as u8);
    if a.len() < b.len() {
        assert(b[a.len() as int] == message[a.len() as int]);
    } else if b.len() < a.len() {
        assert(a[b.len() as int] == message[b.len() as int]);
    }
    assert(message.take(a.len() as int) =~= a);
    assert(message.take(b.len() as int) =~= b);
    vstd::utf8::encode_utf8_decode_utf8(timestamp);
    vstd::utf8::encode_utf8_decode_utf8(other_timestamp);
    assert(message.skip(a.len() as int + 1) =~= body);
    assert(message.skip(b.len() as int + 1) =~= other_body);
}

/// The code of a request is the HMAC-SHA256 under all of the secret over all of
/// the timestamp, a dot and all of the body, and the signature is that code in
/// hexadecimal.
pub proof fn law_signature_is_the_hmac_of_the_request(
    secret: Seq<char>,
    timestamp: Seq<char>,
    body: Seq<u8>,
)
    ensures
        request_mac(secret, timestamp, body) == hmac_sha256(
            vstd::utf8::encode_utf8(secret),
            vstd::utf8::encode_utf8(timestamp) + seq![46u8] + body,
        ),
        signature(secret, timestamp, body) == hexadecimal::hex_encoded(
            hmac_sha256(
                vstd::utf8::encode_utf8(secret),
                vstd::utf8::encode_utf8(timestamp) + seq![46u8] + body,
            ),
        ),
{
    assert('.' as u8 == 46u8);
}

/// Each outcome of a verification comes exactly when it should: first the
/// timestamp has to be readable, then it has to lie within three hundred
/// seconds of the clock on either side, then the signature has to be
/// hexadecimal, then it has to be the HMAC-SHA256 of this very request.
pub proof fn law_verification_outcomes(
    secret: Seq<char>,
    timestamp: Seq<char>,
    body: Seq<u8>,
    sig_hex: Seq<char>,
    now: i64,
)
    ensures
        ({
            let outcome = verdict(secret, timestamp, body, sig_hex, now);
            let ts = timestamp::parsed(timestamp);
            let fresh = ts is Some && now - ts->0 <= 300 && ts->0 - now <= 300;
            let given = hexadecimal::hex_decoded(sig_hex);
            let code = hmac_sha256(
                vstd::utf8::encode_utf8(secret),
                vstd::utf8::encode_utf8(timestamp) + seq![46u8] + body,
            );
            &&& outcome == Err::<(), _>(SignedRequestError::BadTimestamp) <==> ts is None
            &&& outcome == Err::<(), _>(SignedRequestError::Stale) <==> ts is Some && !fresh
            &&& outcome == Err::<(), _>(SignedRequestError::BadSignatureEncoding) <==> fresh
                && given is None
            &&& outcome == Err::<(), _>(SignedRequestError::SignatureMismatch) <==> fresh
                && given is Some && given->0 != code
            &&& outcome == Ok::<(), SignedRequestError>(()) <==> fresh && given == Some(code)
        }),
{
    law_signature_is_the_hmac_of_the_request(secret, timestamp, body);
}

/// A signature made for one request is refused for another wherever
/// HMAC-SHA256 tells the two apart by secret and signed bytes.
pub proof fn law_forged_requests_are_refused(
    signer: Seq<char>,
    verifier: Seq<char>,
    signed_timestamp: Seq<char>,
    timestamp: Seq<char>,
    signed_body: Seq<u8>,
    body: Seq<u8>,
    now: i64,
)
    requires
        hmac_sha256(
            vstd::utf8::encode_utf8(signer),
            vstd::utf8::encode_utf8(signed_timestamp) + seq![46u8] + signed_body,
        ) != hmac_sha256(
            vstd::utf8::encode_utf8(verifier),
            vstd::utf8::encode_utf8(timestamp) + seq![46u8] + body,
        ),
    ensures
        verdict(
            verifier,
            timestamp,
            body,
            signature(signer, signed_timestamp, signed_body),
            now,
        ) is Err,
{
    law_signature_is_the_hmac_of_the_request(signer, signed_timestamp, signed_body);
    law_verification_outcomes(
        verifier,
        timestamp,
        body,
        signature(signer, signed_timestamp, signed_body),
        now,
    );
    hexadecimal::lemma_decode_encoded(request_mac(signer, signed_timestamp, signed_body));
}

/// A signature is worth something only as the hexadecimal form of the expected
/// code.
pub proof fn law_signatures_are_compared_whole(expected: Seq<u8>, sig_hex: Seq<char>)
    ensures
        signature_verdict(expected, sig_hex) == Ok::<(), SignedRequestError>(())
            <==> hexadecimal::hex_decoded(sig_hex) == Some(expected),
        signature_verdict(expected, sig_hex) == Err::<(), _>(
            SignedRequestError::BadSignatureEncoding,
        ) <==> hexadecimal::hex_decoded(sig_hex) is None,
        signature_verdict(expected, sig_hex) == Err::<(), _>(SignedRequestError::SignatureMismatch)
            <==> hexadecimal::hex_decoded(sig_hex) is Some && hexadecimal::hex_decoded(sig_hex)->0
            != expected,
{
}

/// Each error has its own words.
pub proof fn law_signed_request_messages(e: SignedRequestError)
    ensures
        e is BadTimestamp ==> e.spec_message() == "Timestamp is not a valid integer"@,
        e is Stale ==> e.spec_message() == "Request timestamp is outside the allowed skew window"@,
        e is BadSignatureEncoding ==> e.spec_message() == "Signature is not valid hex"@,
        e is SignatureMismatch ==> e.spec_message() == "Signature mismatch"@,
{
}

} // verus!
