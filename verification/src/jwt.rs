//! JSON Web Tokens, as the `jsonwebtoken` crate reads and checks them.
//!
//! Algorithms appear here by their registered names (`"HS256"`, `"EdDSA"`). Of
//! the claims only the registered ones that validation looks at appear.

use jsonwebtoken::errors::ErrorKind;
use vstd::prelude::*;

use crate::text;

verus! {

/// `jsonwebtoken::DecodingKey`, carried through unopened.
#[verifier::external_type_specification]
#[verifier::external_body]
pub struct ExDecodingKey(jsonwebtoken::DecodingKey);

/// What a token's header says about how to check it.
#[derive(Debug)]
pub struct TokenHeader {
    /// Name of the signing algorithm.
    pub alg: String,
    /// Identifier of the signing key.
    pub kid: Option<String>,
}

/// A [`TokenHeader`] as characters.
pub struct HeaderClaims {
    pub alg: Seq<char>,
    pub kid: Option<Seq<char>>,
}

impl View for TokenHeader {
    type V = HeaderClaims;

    open spec fn view(&self) -> HeaderClaims {
        HeaderClaims { alg: self.alg@, kid: text::opt_chars(self.kid) }
    }
}

/// The checks a token has to pass besides its signature.
#[derive(Debug)]
pub struct Validation {
    /// The one algorithm that is allowed.
    pub alg: String,
    /// Whether an `exp` in the past is an error.
    pub validate_exp: bool,
    /// Whether an `nbf` in the future is an error.
    pub validate_nbf: bool,
    /// The one issuer that is allowed.
    pub issuer: String,
    /// The audiences that are allowed.
    pub audiences: Vec<String>,
}

/// A [`Validation`] as characters.
pub struct Rules {
    pub alg: Seq<char>,
    pub validate_exp: bool,
    pub validate_nbf: bool,
    pub issuer: Seq<char>,
    pub audiences: Seq<Seq<char>>,
}

impl View for Validation {
    type V = Rules;

    open spec fn view(&self) -> Rules {
        Rules {
            alg: self.alg@,
            validate_exp: self.validate_exp,
            validate_nbf: self.validate_nbf,
            issuer: self.issuer@,
            audiences: text::all_chars(self.audiences@),
        }
    }
}

/// Why a token did not pass.
#[derive(Debug)]
pub enum DecodeError {
    /// The token, its algorithm or its signature does not hold; its claims were
    /// not looked at.
    Signature(String),
    /// Its claims cannot be read, or break a rule that is not told apart.
    Claims(String),
    /// Its `exp` is in the past.
    ExpiredSignature,
    /// Its `aud` names none of the allowed audiences.
    InvalidAudience,
}

/// A [`DecodeError`] as characters.
pub enum DecodeFailure {
    Signature(Seq<char>),
    Claims(Seq<char>),
    ExpiredSignature,
    InvalidAudience,
}

impl View for DecodeError {
    type V = DecodeFailure;

    open spec fn view(&self) -> DecodeFailure {
        match self {
            DecodeError::Signature(cause) => DecodeFailure::Signature(cause@),
            DecodeError::Claims(cause) => DecodeFailure::Claims(cause@),
            DecodeError::ExpiredSignature => DecodeFailure::ExpiredSignature,
            DecodeError::InvalidAudience => DecodeFailure::InvalidAudience,
        }
    }
}

/// The outcome of reading a header, as characters.
pub open spec fn header_chars(outcome: Result<TokenHeader, String>) -> Result<
    HeaderClaims,
    Seq<char>,
> {
    match outcome {
        Ok(header) => Ok(header@),
        Err(cause) => Err(cause@),
    }
}

/// The outcome of decoding a token, as characters.
pub open spec fn decoded_chars(outcome: Result<(), DecodeError>) -> Result<(), DecodeFailure> {
    match outcome {
        Ok(_) => Ok(()),
        Err(e) => Err(e@),
    }
}

/// The names of the algorithms that tokens can be signed with.
pub open spec fn is_supported(alg: Seq<char>) -> bool {
    ||| alg == "HS256"@
    ||| alg == "HS384"@
    ||| alg == "HS512"@
    ||| alg == "ES256"@
    ||| alg == "ES384"@
    ||| alg == "RS256"@
    ||| alg == "RS384"@
    ||| alg == "RS512"@
    ||| alg == "PS256"@
    ||| alg == "PS384"@
    ||| alg == "PS512"@
    ||| alg == "EdDSA"@
}

/// A claim that holds a point in time.
pub enum TimeClaim {
    /// Not there.
    Absent,
    /// There, but no number of seconds.
    Malformed,
    /// Unix seconds.
    At(u64),
}

/// The registered claims that validation looks at.
pub struct RegisteredClaims {
    /// Expiry.
    pub exp: TimeClaim,
    /// Start of validity.
    pub nbf: TimeClaim,
    /// The issuer or issuers, where the claim is a string or a list of them.
    pub iss: Option<Set<Seq<char>>>,
    /// The audience or audiences, where the claim is a string or a list of them.
    pub aud: Option<Set<Seq<char>>>,
}

/// What a token whose signature holds says.
pub enum SignedPart {
    /// Nothing: it is not the JSON of a set of claims, for this reason.
    Unreadable(Seq<char>),
    /// These claims.
    Claims(RegisteredClaims),
}

/// Seconds by which `exp` and `nbf` may miss the clock.
pub const LEEWAY_SECS: u64 = 60;

/// Whether some of `names` is among `allowed`.
pub open spec fn overlap(names: Set<Seq<char>>, allowed: Seq<Seq<char>>) -> bool {
    exists|i: int| 0 <= i < allowed.len() && names.contains(#[trigger] allowed[i])
}

/// What the claims come to when the clock shows `now`: the first rule that
/// they break, if any. The expiry is required; an issuer or audience counts
/// only where present.
pub open spec fn judged(rules: Rules, claims: RegisteredClaims, now: u64) -> Result<
    (),
    DecodeFailure,
> {
    if !(claims.exp is At) {
        Err(DecodeFailure::Claims("Missing required claim: exp"@))
    } else if rules.validate_nbf && claims.nbf is Malformed {
        Err(DecodeFailure::Claims("Invalid format for claim: nbf"@))
    } else if rules.validate_exp && claims.exp->At_0 + LEEWAY_SECS < now {
        Err(DecodeFailure::ExpiredSignature)
    } else if rules.validate_nbf && claims.nbf is At && claims.nbf->At_0 > now + LEEWAY_SECS {
        Err(DecodeFailure::Claims("ImmatureSignature"@))
    } else if claims.iss is Some && !claims.iss->0.contains(rules.issuer) {
        Err(DecodeFailure::Claims("InvalidIssuer"@))
    } else if claims.aud is Some && !overlap(claims.aud->0, rules.audiences) {
        Err(DecodeFailure::InvalidAudience)
    } else {
        Ok(())
    }
}

/// What decoding comes to when the clock shows `now`, given what checking the
/// signature came to.
pub open spec fn decoded(rules: Rules, signed: Result<SignedPart, Seq<char>>, now: u64) -> Result<
    (),
    DecodeFailure,
> {
    match signed {
        Err(cause) => Err(DecodeFailure::Signature(cause)),
        Ok(SignedPart::Unreadable(cause)) => Err(DecodeFailure::Claims(cause)),
        Ok(SignedPart::Claims(claims)) => judged(rules, claims, now),
    }
}

/// The header of `token`, or why it cannot be read.
pub uninterp spec fn token_header(token: Seq<char>) -> Result<HeaderClaims, Seq<char>>;

/// What `token` says where its signature under `key` and `alg` holds, or why
/// the token is refused unread.
pub uninterp spec fn signed_claims(
    token: Seq<char>,
    key: jsonwebtoken::DecodingKey,
    alg: Seq<char>,
) -> Result<SignedPart, Seq<char>>;

/// `jsonwebtoken::Algorithm::from_str`, asked only whether it knows the name.
#[verifier::external_body]
pub(crate) fn supports(alg: &str) -> (known: bool)
    ensures
        known == is_supported(alg@),
{
    alg.parse::<jsonwebtoken::Algorithm>().is_ok()
}

/// `jsonwebtoken::decode_header`: the header is a function of the token, and
/// its algorithm one of those the crate knows. The algorithm is written by its
/// `Debug` name, which is the name `Algorithm::from_str` reads.
#[verifier::external_body]
pub(crate) fn decode_header(token: &str) -> (outcome: Result<TokenHeader, String>)
    ensures
        header_chars(outcome) == token_header(token@),
        outcome matches Ok(header) ==> is_supported(header.alg@),
{
    match jsonwebtoken::decode_header(token) {
        Ok(header) => Ok(TokenHeader { alg: format!("{:?}", header.alg), kid: header.kid }),
        Err(e) => Err(e.to_string()),
    }
}

/// `jsonwebtoken::decode`, asked whether the token passes, under a
/// `jsonwebtoken::Validation` made by `new` with `set_issuer` and
/// `set_audience`. Whether the signature holds and what the registered claims
/// are is a function of the token, the key and the algorithm; a token with a
/// part that is no JSON counts as unreadable. The claims are then held to the
/// rules in the order of `judged`, by the clock, which is read: such a
/// `Validation` requires `exp` and grants a leeway of sixty seconds. What the
/// clock shows is left unsaid.
#[verifier::external_body]
pub(crate) fn decode(
    token: &str,
    key: &jsonwebtoken::DecodingKey,
    validation: &Validation,
) -> (outcome: Result<(), DecodeError>)
    requires
        is_supported(validation.alg@),
    ensures
        exists|now: u64|
            decoded_chars(outcome) == #[trigger] decoded(
                validation@,
                signed_claims(token@, *key, validation.alg@),
                now,
            ),
{
    let mut rules = jsonwebtoken::Validation::new(validation.alg.parse().expect("known name"));
    rules.validate_exp = validation.validate_exp;
    rules.validate_nbf = validation.validate_nbf;
    rules.set_issuer(&[&validation.issuer]);
    rules.set_audience(&validation.audiences);
    let decoded = jsonwebtoken::decode::<serde::de::IgnoredAny>(token, key, &rules);
    decoded.map(|_| ()).map_err(|e| match e.kind() {
        ErrorKind::ExpiredSignature => DecodeError::ExpiredSignature,
        ErrorKind::InvalidAudience => DecodeError::InvalidAudience,
        ErrorKind::Json(_) | ErrorKind::MissingRequiredClaim(_) | ErrorKind::InvalidClaimFormat(_)
        | ErrorKind::ImmatureSignature | ErrorKind::InvalidIssuer => DecodeError::Claims(e.to_string()),
        _ => DecodeError::Signature(e.to_string()),
    })
}

/// Whether `token` was decoded with `key` under `validation`, with that outcome.
pub closed spec fn is_decoding(
    token: &str,
    key: jsonwebtoken::DecodingKey,
    validation: Validation,
    outcome: Result<(), DecodeError>,
) -> bool {
    call_ensures(decode, (token, &key, &validation), outcome)
}

/// Check the signature of a token, and its claims by the clock.
pub(crate) fn decode_token(
    token: &str,
    key: &jsonwebtoken::DecodingKey,
    validation: &Validation,
) -> (outcome: Result<(), DecodeError>)
    requires
        is_supported(validation.alg@),
    ensures
        is_decoding(token, *key, *validation, outcome),
        exists|now: u64|
            decoded_chars(outcome) == #[trigger] decoded(
                validation@,
                signed_claims(token@, *key, validation.alg@),
                now,
            ),
{
    decode(token, key, validation)
}

/// Exactly twelve algorithms are supported, by these names.
pub proof fn law_supported_algorithms(alg: Seq<char>)
    ensures
        is_supported(alg) <==> seq![
            "HS256"@,
            "HS384"@,
            "HS512"@,
            "RS256"@,
            "RS384"@,
            "RS512"@,
            "PS256"@,
            "PS384"@,
            "PS512"@,
            "ES256"@,
            "ES384"@,
            "EdDSA"@,
        ].contains(alg),
{
    let names = seq![
        "HS256"@,
        "HS384"@,
        "HS512"@,
        "RS256"@,
        "RS384"@,
        "RS512"@,
        "PS256"@,
        "PS384"@,
        "PS512"@,
        "ES256"@,
        "ES384"@,
        "EdDSA"@,
    ];
    assert(names[0] == "HS256"@ && names[1] == "HS384"@ && names[2] == "HS512"@);
    assert(names[3] == "RS256"@ && names[4] == "RS384"@ && names[5] == "RS512"@);
    assert(names[6] == "PS256"@ && names[7] == "PS384"@ && names[8] == "PS512"@);
    assert(names[9] == "ES256"@ && names[10] == "ES384"@ && names[11] == "EdDSA"@);
}

/// The claims pass exactly when there is an expiry not more than sixty seconds
/// past, a start of validity not more than sixty seconds ahead if any, the
/// expected issuer if any is named, and an allowed audience if any is named.
/// What is not asked for is not looked at.
pub proof fn law_passing_claims(rules: Rules, claims: RegisteredClaims, now: u64)
    ensures
        judged(rules, claims, now) == Ok::<(), DecodeFailure>(()) <==> {
            &&& claims.exp is At
            &&& rules.validate_exp ==> now <= claims.exp->At_0 + 60
            &&& rules.validate_nbf ==> !(claims.nbf is Malformed)
            &&& rules.validate_nbf && claims.nbf is At ==> claims.nbf->At_0 <= now + 60
            &&& claims.iss is None || claims.iss->0.contains(rules.issuer)
            &&& claims.aud is None || exists|i: int|
                0 <= i < rules.audiences.len() && claims.aud->0.contains(
                    #[trigger] rules.audiences[i],
                )
        },
{
}

/// Claims that do not pass are reported by the first of these that is wrong:
/// the expiry is missing, the start of validity cannot be read, the expiry is
/// past, the start is ahead, the issuer is another, the audience is another.
pub proof fn law_failing_claims(rules: Rules, claims: RegisteredClaims, now: u64)
    ensures
        ({
            let outcome = judged(rules, claims, now);
            let dated = claims.exp is At;
            let readable = rules.validate_nbf ==> !(claims.nbf is Malformed);
            let unexpired = rules.validate_exp ==> now <= claims.exp->At_0 + 60;
            let begun = rules.validate_nbf && claims.nbf is At ==> claims.nbf->At_0 <= now + 60;
            let issued = claims.iss is None || claims.iss->0.contains(rules.issuer);
            &&& !dated ==> outcome == Err::<(), _>(
                DecodeFailure::Claims("Missing required claim: exp"@),
            )
            &&& dated && !readable ==> outcome == Err::<(), _>(
                DecodeFailure::Claims("Invalid format for claim: nbf"@),
            )
            &&& dated && readable && !unexpired ==> outcome == Err::<(), _>(
                DecodeFailure::ExpiredSignature,
            )
            &&& dated && readable && unexpired && !begun ==> outcome == Err::<(), _>(
                DecodeFailure::Claims("ImmatureSignature"@),
            )
            &&& dated && readable && unexpired && begun && !issued ==> outcome == Err::<(), _>(
                DecodeFailure::Claims("InvalidIssuer"@),
            )
            &&& dated && readable && unexpired && begun && issued && outcome is Err ==> outcome
                == Err::<(), _>(DecodeFailure::InvalidAudience)
        }),
{
}

/// A token is judged by its claims exactly when its signature holds and they
/// can be read.
pub proof fn law_decoding_stages(
    rules: Rules,
    cause: Seq<char>,
    claims: RegisteredClaims,
    now: u64,
)
    ensures
        decoded(rules, Err(cause), now) == Err::<(), _>(DecodeFailure::Signature(cause)),
        decoded(rules, Ok(SignedPart::Unreadable(cause)), now) == Err::<(), _>(
            DecodeFailure::Claims(cause),
        ),
        decoded(rules, Ok(SignedPart::Claims(claims)), now) == judged(rules, claims, now),
{
}

/// Names overlap with what is allowed exactly when they share one.
pub proof fn law_overlap(names: Set<Seq<char>>, allowed: Seq<Seq<char>>)
    ensures
        overlap(names, allowed) <==> exists|name: Seq<char>| #[trigger]
            names.contains(name) && allowed.contains(name),
{
    if overlap(names, allowed) {
        let i = choose|i: int| 0 <= i < allowed.len() && names.contains(#[trigger] allowed[i]);
        assert(names.contains(allowed[i]) && allowed.contains(allowed[i]));
    }
    if exists|name: Seq<char>| #[trigger] names.contains(name) && allowed.contains(name) {
        let name = choose|name: Seq<char>| #[trigger]
            names.contains(name) && allowed.contains(name);
        let i = choose|i: int| 0 <= i < allowed.len() && allowed[i] == name;
        assert(names.contains(allowed[i]));
    }
}

/// What contracts say of a header, of rules or of an error is said of all of
/// its parts.
pub proof fn law_jwt_views(
    header: TokenHeader,
    validation: Validation,
    cause: String,
    e: DecodeError,
)
    ensures
        header@.alg == header.alg@,
        header.kid is None ==> header@.kid is None,
        header.kid is Some ==> header@.kid == Some(header.kid->0@),
        header_chars(Ok(header)) == Ok::<HeaderClaims, Seq<char>>(header@),
        header_chars(Err(cause)) == Err::<HeaderClaims, _>(cause@),
        validation@.alg == validation.alg@,
        validation@.validate_exp == validation.validate_exp,
        validation@.validate_nbf == validation.validate_nbf,
        validation@.issuer == validation.issuer@,
        validation@.audiences.len() == validation.audiences@.len(),
        forall|i: int|
            0 <= i < validation.audiences@.len() ==> #[trigger] validation@.audiences[i]
                == validation.audiences@[i]@,
        DecodeError::Signature(cause)@ == DecodeFailure::Signature(cause@),
        DecodeError::Claims(cause)@ == DecodeFailure::Claims(cause@),
        DecodeError::ExpiredSignature@ == DecodeFailure::ExpiredSignature,
        DecodeError::InvalidAudience@ == DecodeFailure::InvalidAudience,
        decoded_chars(Ok(())) == Ok::<(), DecodeFailure>(()),
        decoded_chars(Err(e)) == Err::<(), _>(e@),
{
}

/// A decoding that was made came to what the signature and the claims come to
/// at some reading of the clock.
pub proof fn law_decodings_follow_the_rules(
    token: &str,
    key: jsonwebtoken::DecodingKey,
    validation: Validation,
    outcome: Result<(), DecodeError>,
)
    requires
        is_decoding(token, key, validation, outcome),
    ensures
        exists|now: u64|
            decoded_chars(outcome) == #[trigger] decoded(
                validation@,
                signed_claims(token@, key, validation.alg@),
                now,
            ),
{
}

} // verus!
