//! Local JWT validation for OIDC resource servers.
//!
//! Validates bearer tokens against the provider's JWKS, held in memory and
//! replaced on refresh, so no per-request call to the provider is needed.

use vstd::hash_map::StringHashMap;
use vstd::prelude::*;

use crate::discovery;
use crate::discovery::{DiscoveryError, DiscoveryFailure};
use crate::jwt;
use crate::jwt::{DecodeError, TokenHeader, Validation};
use crate::refresh;
use crate::refresh::RefreshTask;
use crate::text;

verus! {

/// Configuration for [`TokenValidator`].
#[derive(Clone, Debug)]
pub struct ValidatorConfig {
    /// Issuer URL, e.g. `https://auth.example.com/auth/v1`.
    pub issuer: String,
    /// OAuth client id, accepted as token audience.
    pub client_id: String,
    /// Extra accepted audiences besides `client_id`.
    pub additional_audiences: Vec<String>,
    /// How often (seconds) to re-fetch the JWKS in the background so provider
    /// key rotation is picked up without a restart. 0 disables.
    pub discovery_refresh_interval_seconds: u64,
}

/// Errors from [`TokenValidator`].
#[derive(Debug)]
pub enum ValidatorError {
    /// Discovery did not settle on an issuer.
    Discovery(DiscoveryError),
    /// The token's header cannot be read.
    HeaderDecode(String),
    /// The token's header names no key.
    MissingKeyId,
    /// The JWKS could not be fetched.
    JwksFetch(String),
    /// The JWKS holds no key of that name.
    KeyNotFound(String),
    /// The token did not pass.
    ValidationFailed(String),
    /// The token's expiry is in the past.
    TokenExpired,
    /// The token is meant for somebody else.
    InvalidAudience,
}

/// A [`ValidatorError`] with its text as characters.
pub enum ValidatorFailure {
    Discovery(DiscoveryFailure),
    HeaderDecode(Seq<char>),
    MissingKeyId,
    JwksFetch(Seq<char>),
    KeyNotFound(Seq<char>),
    ValidationFailed(Seq<char>),
    TokenExpired,
    InvalidAudience,
}

impl View for ValidatorError {
    type V = ValidatorFailure;

    open spec fn view(&self) -> ValidatorFailure {
        match self {
            ValidatorError::Discovery(e) => ValidatorFailure::Discovery(e@),
            ValidatorError::HeaderDecode(cause) => ValidatorFailure::HeaderDecode(cause@),
            ValidatorError::MissingKeyId => ValidatorFailure::MissingKeyId,
            ValidatorError::JwksFetch(cause) => ValidatorFailure::JwksFetch(cause@),
            ValidatorError::KeyNotFound(kid) => ValidatorFailure::KeyNotFound(kid@),
            ValidatorError::ValidationFailed(cause) => ValidatorFailure::ValidationFailed(cause@),
            ValidatorError::TokenExpired => ValidatorFailure::TokenExpired,
            ValidatorError::InvalidAudience => ValidatorFailure::InvalidAudience,
        }
    }
}

impl ValidatorFailure {
    /// The text shown for the error.
    pub open spec fn message(self) -> Seq<char> {
        match self {
            ValidatorFailure::Discovery(e) => "OIDC discovery failed: "@ + e.message(),
            ValidatorFailure::HeaderDecode(cause) => "Failed to decode JWT header: "@ + cause,
            ValidatorFailure::MissingKeyId => "JWT header missing Key ID (kid)"@,
            ValidatorFailure::JwksFetch(cause) => "Failed to fetch JWKS: "@ + cause,
            ValidatorFailure::KeyNotFound(kid) => "No matching key found for Key ID: "@ + kid,
            ValidatorFailure::ValidationFailed(cause) => "JWT validation failed: "@ + cause,
            ValidatorFailure::TokenExpired => "Token expired"@,
            ValidatorFailure::InvalidAudience => "Invalid audience"@,
        }
    }
}

impl ValidatorError {
    /// The text shown for the error.
    pub fn message(&self) -> (shown: String)
        ensures
            shown@ == self@.message(),
    {
        match self {
            ValidatorError::Discovery(e) => text::joined("OIDC discovery failed: ", &e.message()),
            ValidatorError::HeaderDecode(cause) => text::joined(
                "Failed to decode JWT header: ",
                cause,
            ),
            ValidatorError::MissingKeyId => "JWT header missing Key ID (kid)".to_owned(),
            ValidatorError::JwksFetch(cause) => text::joined("Failed to fetch JWKS: ", cause),
            ValidatorError::KeyNotFound(kid) => text::joined(
                "No matching key found for Key ID: ",
                kid,
            ),
            ValidatorError::ValidationFailed(cause) => text::joined(
                "JWT validation failed: ",
                cause,
            ),
            ValidatorError::TokenExpired => "Token expired".to_owned(),
            ValidatorError::InvalidAudience => "Invalid audience".to_owned(),
        }
    }
}

/// Standard OIDC claims extracted from a validated access token.
#[derive(Debug)]
pub struct Claims {
    /// Subject identifier (unique user id from the OIDC provider).
    pub sub: String,
    /// Issuer.
    pub iss: Option<String>,
    /// Audience.
    pub aud: Audience,
    /// Expiration time (validated before the claims are handed out).
    pub exp: Option<u64>,
    /// Groups the user belongs to (commonly used for authorization).
    pub groups: Vec<String>,
    /// Email address.
    pub email: Option<String>,
    /// Given name.
    pub given_name: Option<String>,
    /// Family name.
    pub family_name: Option<String>,
}

/// Audience claim: a single string or an array of strings.
#[derive(Debug, Clone)]
pub enum Audience {
    /// Single audience string.
    Single(String),
    /// Multiple audiences.
    Multiple(Vec<String>),
    /// No audience specified.
    Unspecified,
}

impl Default for Audience {
    /// No audience specified.
    fn default() -> (aud: Self)
        ensures
            aud is Unspecified,
    {
        Audience::Unspecified
    }
}

impl Audience {
    /// The audiences named.
    pub open spec fn names(self) -> Seq<Seq<char>> {
        match self {
            Audience::Single(aud) => seq![aud@],
            Audience::Multiple(auds) => text::all_chars(auds@),
            Audience::Unspecified => Seq::empty(),
        }
    }

    /// Whether the audience contains `expected`.
    pub fn contains(&self, expected: &str) -> (found: bool)
        ensures
            found == self.names().contains(expected@),
    {
        match self {
            Audience::Single(aud) => {
                assert(seq![aud@][0] == aud@);
                text::str_eq(aud, expected)
            },
            Audience::Multiple(auds) => text::list_contains(auds, expected),
            Audience::Unspecified => false,
        }
    }
}

/// A key of the provider.
pub struct Jwk {
    /// Name of the algorithm the key is meant for, where it declares one.
    pub alg: Option<String>,
    /// The key itself.
    pub decoding_key: jsonwebtoken::DecodingKey,
}

/// A [`Jwk`] with its algorithm as characters.
pub struct KeyEntry {
    pub alg: Option<Seq<char>>,
    pub decoding_key: jsonwebtoken::DecodingKey,
}

impl View for Jwk {
    type V = KeyEntry;

    open spec fn view(&self) -> KeyEntry {
        KeyEntry { alg: text::opt_chars(self.alg), decoding_key: self.decoding_key }
    }
}

/// The provider's keys by their identifiers.
pub struct Jwks {
    keys: StringHashMap<Jwk>,
}

impl View for Jwks {
    type V = Map<Seq<char>, KeyEntry>;

    closed spec fn view(&self) -> Map<Seq<char>, KeyEntry> {
        self.keys@.map_values(|jwk: Jwk| jwk@)
    }
}

impl Jwks {
    /// No keys.
    pub fn new() -> (jwks: Self)
        ensures
            jwks@ == Map::<Seq<char>, KeyEntry>::empty(),
    {
        let jwks = Jwks { keys: StringHashMap::new() };
        assert(jwks@ =~= Map::<Seq<char>, KeyEntry>::empty());
        jwks
    }

    /// Put `jwk` under `kid`, in place of any key that was there.
    pub fn insert(&mut self, kid: String, jwk: Jwk)
        ensures
            final(self)@ == old(self)@.insert(kid@, jwk@),
    {
        self.keys.insert(kid, jwk);
        assert(self@ =~= old(self)@.insert(kid@, jwk@));
    }

    /// How many keys there are.
    pub fn len(&self) -> (n: usize)
        ensures
            n == self@.len(),
    {
        assert(self@.dom() =~= self.keys@.dom());
        self.keys.len()
    }

    /// The key under `kid`.
    pub fn get(&self, kid: &str) -> (jwk: Option<&Jwk>)
        ensures
            match jwk {
                Some(jwk) => self@.contains_key(kid@) && jwk@ == self@[kid@],
                None => !self@.contains_key(kid@),
            },
    {
        self.keys.get(kid)
    }
}

impl From<DiscoveryError> for ValidatorError {
    fn from(e: DiscoveryError) -> (wrapped: Self) {
        ValidatorError::Discovery(e)
    }
}

impl vstd::std_specs::convert::FromSpecImpl<DiscoveryError> for ValidatorError {
    open spec fn obeys_from_spec() -> bool {
        true
    }

    open spec fn from_spec(e: DiscoveryError) -> Self {
        ValidatorError::Discovery(e)
    }
}

/// Validates JWT access tokens against the provider's JWKS.
pub struct TokenValidator {
    /// JWKS public keys as of the last fetch.
    jwks: Jwks,
    /// Discovery URL used to (re-)fetch the JWKS.
    jwks_url: String,
    /// All accepted audience values (client_id + additional audiences).
    audiences: Vec<String>,
    /// The expected issuer URL for validation (as advertised by discovery).
    issuer: String,
    /// Background refresh of the JWKS, unless disabled.
    refresh: Option<RefreshTask>,
}

/// What a [`TokenValidator`] holds.
pub struct ValidatorState {
    pub keys: Map<Seq<char>, KeyEntry>,
    pub jwks_url: Seq<char>,
    pub audiences: Seq<Seq<char>>,
    pub issuer: Seq<char>,
    pub refresh: Option<RefreshTask>,
}

impl View for TokenValidator {
    type V = ValidatorState;

    closed spec fn view(&self) -> ValidatorState {
        ValidatorState {
            keys: self.jwks@,
            jwks_url: self.jwks_url@,
            audiences: text::all_chars(self.audiences@),
            issuer: self.issuer@,
            refresh: self.refresh,
        }
    }
}

/// The validator that a configuration, an advertised issuer and a set of keys
/// make up.
pub open spec fn configured(
    config: ValidatorConfig,
    issuer: Seq<char>,
    keys: Map<Seq<char>, KeyEntry>,
) -> ValidatorState {
    ValidatorState {
        keys,
        jwks_url: discovery::well_known_url(config.issuer@),
        audiences: seq![config.client_id@] + text::all_chars(config.additional_audiences@),
        issuer,
        refresh: refresh::spawned(config.discovery_refresh_interval_seconds),
    }
}

/// What connecting comes to, given what discovery and the JWKS fetch came to.
/// A failed discovery decides, whatever is said of a fetch.
pub open spec fn connected(
    config: ValidatorConfig,
    discovered: Result<Seq<char>, DiscoveryFailure>,
    jwks: Result<Map<Seq<char>, KeyEntry>, Seq<char>>,
) -> Result<ValidatorState, ValidatorFailure> {
    match discovered {
        Err(e) => Err(ValidatorFailure::Discovery(e)),
        Ok(issuer) => match jwks {
            Err(cause) => Err(ValidatorFailure::JwksFetch(cause)),
            Ok(keys) => Ok(configured(config, issuer, keys)),
        },
    }
}

/// The keys that a fetch brought, or why it brought none.
pub open spec fn fetched_keys(jwks: Result<Jwks, String>) -> Result<
    Map<Seq<char>, KeyEntry>,
    Seq<char>,
> {
    match jwks {
        Ok(jwks) => Ok(jwks@),
        Err(cause) => Err(cause@),
    }
}

/// The validator that a re-fetch of the JWKS leads to, or why there is none.
pub open spec fn refreshed(
    state: ValidatorState,
    fetched: Result<Map<Seq<char>, KeyEntry>, Seq<char>>,
) -> Result<ValidatorState, ValidatorFailure> {
    match fetched {
        Ok(keys) => Ok(ValidatorState { keys, ..state }),
        Err(cause) => Err(ValidatorFailure::JwksFetch(cause)),
    }
}

/// What a validator holds once the re-fetches of its JWKS have ended one after
/// another: a failed one changes nothing.
pub open spec fn after_refreshes(
    state: ValidatorState,
    fetches: Seq<Result<Map<Seq<char>, KeyEntry>, Seq<char>>>,
) -> ValidatorState
    decreases fetches.len(),
{
    if fetches.len() == 0 {
        state
    } else {
        let before = after_refreshes(state, fetches.drop_last());
        match refreshed(before, fetches.last()) {
            Ok(next) => next,
            Err(_) => before,
        }
    }
}

/// The key that a token's header selects, with the algorithm to check the
/// token under, or why the token is refused before its signature is looked at.
pub open spec fn selected(
    keys: Map<Seq<char>, KeyEntry>,
    header: Result<jwt::HeaderClaims, Seq<char>>,
) -> Result<(KeyEntry, Seq<char>), ValidatorFailure> {
    match header {
        Err(cause) => Err(ValidatorFailure::HeaderDecode(cause)),
        Ok(header) => match header.kid {
            None => Err(ValidatorFailure::MissingKeyId),
            Some(kid) => if !keys.contains_key(kid) {
                Err(ValidatorFailure::KeyNotFound(kid))
            } else {
                match keys[kid].alg {
                    None => Ok((keys[kid], header.alg)),
                    Some(alg) => if !jwt::is_supported(alg) {
                        Err(
                            ValidatorFailure::ValidationFailed(
                                "JWKS key declares unsupported alg "@ + alg,
                            ),
                        )
                    } else if header.alg != alg {
                        Err(
                            ValidatorFailure::ValidationFailed(
                                "token algorithm "@ + header.alg
                                    + " does not match key algorithm "@ + alg,
                            ),
                        )
                    } else {
                        Ok((keys[kid], header.alg))
                    },
                }
            },
        },
    }
}

/// The checks that a token has to pass under `alg`.
pub open spec fn rules_for(state: ValidatorState, alg: Seq<char>) -> jwt::Rules {
    jwt::Rules {
        alg,
        validate_exp: true,
        validate_nbf: true,
        issuer: state.issuer,
        audiences: state.audiences,
    }
}

/// How the outcome of decoding a token is reported, where `unread` says why its
/// claims do not fit the caller's type, if they do not. The signature comes
/// first, then the type, then the rules on the claims.
pub open spec fn settled(decoded: Result<(), jwt::DecodeFailure>, unread: Option<Seq<char>>) -> Result<
    (),
    ValidatorFailure,
> {
    match (decoded, unread) {
        (Err(jwt::DecodeFailure::Signature(cause)), _) => Err(
            ValidatorFailure::ValidationFailed(cause),
        ),
        (_, Some(cause)) => Err(ValidatorFailure::ValidationFailed(cause)),
        (Err(jwt::DecodeFailure::Claims(cause)), None) => Err(
            ValidatorFailure::ValidationFailed(cause),
        ),
        (Err(jwt::DecodeFailure::ExpiredSignature), None) => Err(ValidatorFailure::TokenExpired),
        (Err(jwt::DecodeFailure::InvalidAudience), None) => Err(ValidatorFailure::InvalidAudience),
        (Ok(_), None) => Ok(()),
    }
}

/// Why a token is refused before its claims are looked at, `None` when it is
/// not.
pub open spec fn refused_unread(state: ValidatorState, token: Seq<char>) -> Option<
    ValidatorFailure,
> {
    match selected(state.keys, jwt::token_header(token)) {
        Err(e) => Some(e),
        Ok((key, alg)) => match jwt::signed_claims(token, key.decoding_key, alg) {
            Err(cause) => Some(ValidatorFailure::ValidationFailed(cause)),
            Ok(_) => None,
        },
    }
}

/// What validation of `token` comes to when the clock shows `now`, where
/// `unread` says why its claims do not fit the caller's type, if they do not.
pub open spec fn validated(
    state: ValidatorState,
    token: Seq<char>,
    unread: Option<Seq<char>>,
    now: u64,
) -> Result<(), ValidatorFailure> {
    match selected(state.keys, jwt::token_header(token)) {
        Err(e) => Err(e),
        Ok((key, alg)) => settled(
            jwt::decoded(
                rules_for(state, alg),
                jwt::signed_claims(token, key.decoding_key, alg),
                now,
            ),
            unread,
        ),
    }
}

/// Why claims could not be read into the caller's type, if they could not.
pub open spec fn unread<C>(read: Result<C, String>) -> Option<Seq<char>> {
    match read {
        Ok(_) => None,
        Err(cause) => Some(cause@),
    }
}

/// Whether `outcome` is the claims that were read where the verdict is good,
/// and the verdict's error where it is not.
pub open spec fn follows<C>(
    outcome: Result<C, ValidatorError>,
    read: Result<C, String>,
    verdict: Result<(), ValidatorFailure>,
) -> bool {
    match verdict {
        Ok(_) => read is Ok && outcome == Ok::<C, ValidatorError>(read->Ok_0),
        Err(e) => outcome is Err && outcome->Err_0@ == e,
    }
}

/// Report the outcome of decoding a token and of reading its claims into the
/// caller's type.
pub fn report<C>(decoded: Result<(), DecodeError>, read: Result<C, String>) -> (outcome: Result<
    C,
    ValidatorError,
>)
    ensures
        follows(outcome, read, settled(jwt::decoded_chars(decoded), unread(read))),
{
    if let Err(DecodeError::Signature(cause)) = decoded {
        return Err(ValidatorError::ValidationFailed(cause));
    }
    let claims = match read {
        Ok(claims) => claims,
        Err(cause) => return Err(ValidatorError::ValidationFailed(cause)),
    };
    match decoded {
        Ok(_) => Ok(claims),
        Err(DecodeError::ExpiredSignature) => Err(ValidatorError::TokenExpired),
        Err(DecodeError::InvalidAudience) => Err(ValidatorError::InvalidAudience),
        Err(DecodeError::Signature(cause)) => Err(ValidatorError::ValidationFailed(cause)),
        Err(DecodeError::Claims(cause)) => Err(ValidatorError::ValidationFailed(cause)),
    }
}

/// Where to fetch the JWKS from once discovery has ended: nowhere when it
/// failed.
pub fn jwks_source(config: &ValidatorConfig, discovered: &Result<String, DiscoveryError>) -> (url:
    Option<String>)
    ensures
        text::opt_chars(url) == (match *discovered {
            Ok(_) => Some(discovery::well_known_url(config.issuer@)),
            Err(_) => None,
        }),
{
    match discovered {
        Ok(_) => Some(discovery::discovery_url(&config.issuer)),
        Err(_) => None,
    }
}

impl TokenValidator {
    /// Put a validator together once discovery has ended and, where that went
    /// well, the fetch from [`jwks_source`] too. The background refresh is the
    /// one of the configured interval.
    ///
    /// Tokens are validated against the *advertised* issuer; the configured
    /// `issuer` only locates the discovery endpoint.
    pub fn connect(
        config: ValidatorConfig,
        discovered: Result<String, DiscoveryError>,
        jwks: Result<Jwks, String>,
    ) -> (validator: Result<Self, ValidatorError>)
        ensures
            match connected(config, discovery::issuer_chars(discovered), fetched_keys(jwks)) {
                Ok(state) => validator is Ok && validator->Ok_0@ == state,
                Err(e) => validator is Err && validator->Err_0@ == e,
            },
    {
        let issuer = match discovered {
            Ok(issuer) => issuer,
            Err(e) => return Err(ValidatorError::from(e)),
        };
        let jwks = match jwks {
            Ok(jwks) => jwks,
            Err(cause) => return Err(ValidatorError::JwksFetch(cause)),
        };
        let jwks_url = discovery::discovery_url(&config.issuer);
        let refresh = RefreshTask::spawn(config.discovery_refresh_interval_seconds);
        let ghost extra = config.additional_audiences@;
        let mut audiences: Vec<String> = vec![config.client_id];
        let mut additional = config.additional_audiences;
        audiences.append(&mut additional);
        let validator = TokenValidator { jwks, jwks_url, audiences, issuer, refresh };
        assert(validator@.audiences =~= seq![config.client_id@] + text::all_chars(extra));
        Ok(validator)
    }

    /// The background refresh of the JWKS, unless disabled.
    pub fn refresh_task(&self) -> (task: Option<RefreshTask>)
        ensures
            task == self@.refresh,
    {
        self.refresh
    }

    /// Where the JWKS is (re-)fetched from.
    pub fn jwks_url(&self) -> (url: &str)
        ensures
            url@ == self@.jwks_url,
    {
        &self.jwks_url
    }

    /// How many keys the validator holds.
    pub fn key_count(&self) -> (n: usize)
        ensures
            n == self@.keys.len(),
    {
        self.jwks.len()
    }

    /// All accepted audience values.
    pub fn audiences(&self) -> (audiences: &Vec<String>)
        ensures
            text::all_chars(audiences@) == self@.audiences,
    {
        &self.audiences
    }

    /// The issuer that tokens are expected from.
    pub fn issuer(&self) -> (issuer: &str)
        ensures
            issuer@ == self@.issuer,
    {
        &self.issuer
    }

    /// The validator to swap in once a re-fetch of the JWKS has ended. A failed
    /// fetch gives none, so the present one stays.
    pub fn refresh_jwks(&self, fetched: Result<Jwks, String>) -> (outcome: Result<
        Self,
        ValidatorError,
    >)
        ensures
            match refreshed(self@, fetched_keys(fetched)) {
                Ok(state) => outcome is Ok && outcome->Ok_0@ == state,
                Err(e) => outcome is Err && outcome->Err_0@ == e,
            },
    {
        match fetched {
            Ok(jwks) => Ok(
                TokenValidator {
                    jwks,
                    jwks_url: self.jwks_url.clone(),
                    audiences: text::cloned_list(&self.audiences),
                    issuer: self.issuer.clone(),
                    refresh: self.refresh,
                },
            ),
            Err(cause) => Err(ValidatorError::JwksFetch(cause)),
        }
    }

    /// The key that a token's header selects, with the algorithm to check the
    /// token under.
    ///
    /// Defense in depth: when the JWKS entry declares an `alg` (RFC 7517 makes
    /// it optional), the token header has to match it, so a forged `alg`
    /// cannot select a different primitive.
    pub fn select_key(&self, header: Result<TokenHeader, String>) -> (selection: Result<
        (&Jwk, String),
        ValidatorError,
    >)
        ensures
            match selection {
                Ok((jwk, alg)) => selected(self@.keys, jwt::header_chars(header)) == Ok::<
                    (KeyEntry, Seq<char>),
                    ValidatorFailure,
                >((jwk@, alg@)),
                Err(e) => selected(self@.keys, jwt::header_chars(header)) == Err::<
                    (KeyEntry, Seq<char>),
                    _,
                >(e@),
            },
    {
        let header = match header {
            Ok(header) => header,
            Err(cause) => return Err(ValidatorError::HeaderDecode(cause)),
        };
        let kid = match header.kid {
            Some(kid) => kid,
            None => return Err(ValidatorError::MissingKeyId),
        };
        let jwk = match self.jwks.get(&kid) {
            Some(jwk) => jwk,
            None => return Err(ValidatorError::KeyNotFound(kid)),
        };
        if let Some(key_alg) = &jwk.alg {
            if !jwt::supports(key_alg) {
                return Err(
                    ValidatorError::ValidationFailed(
                        text::joined("JWKS key declares unsupported alg ", key_alg),
                    ),
                );
            }
            if !text::str_eq(&header.alg, key_alg) {
                let mut cause = text::joined("token algorithm ", &header.alg);
                cause.append(" does not match key algorithm ");
                cause.append(key_alg);
                return Err(ValidatorError::ValidationFailed(cause));
            }
        }
        Ok((jwk, header.alg))
    }

    /// The checks that a token has to pass under `alg`.
    pub fn validation(&self, alg: String) -> (validation: Validation)
        ensures
            validation@ == rules_for(self@, alg@),
    {
        let validation = Validation {
            alg,
            validate_exp: true,
            validate_nbf: true,
            issuer: self.issuer.clone(),
            audiences: text::cloned_list(&self.audiences),
        };
        validation
    }

    /// Validate a JWT access token (signature, exp/nbf, issuer, audience) and
    /// hand out its claims.
    ///
    /// `read` reads the claims of a token into the caller's type, or says why
    /// they do not fit it. It is asked only about a token whose signature holds,
    /// and what it says comes before the rules on the claims: an expired token
    /// whose claims do not fit is reported as one that does not fit.
    ///
    /// The outcome follows from one decoding of this token with the selected
    /// key under this validator's rules, and from nothing else.
    pub fn validate_token<C, F: FnOnce(&str) -> Result<C, String>>(
        &self,
        token: &str,
        read: F,
    ) -> (outcome: Result<C, ValidatorError>)
        requires
            call_requires(read, (token,)),
        ensures
            match refused_unread(self@, token@) {
                Some(e) => outcome is Err && outcome->Err_0@ == e,
                None => exists|claims: Result<C, String>, now: u64|
                    call_ensures(read, (token,), claims) && follows(
                        outcome,
                        claims,
                        #[trigger] validated(self@, token@, unread(claims), now),
                    ),
            },
            refused_unread(self@, token@) is None ==> exists|
                claims: Result<C, String>,
                validation: Validation,
                decoded: Result<(), DecodeError>,
            |
                {
                    &&& #[trigger] jwt::is_decoding(
                        token,
                        self@.keys[jwt::token_header(token@)->Ok_0.kid->0].decoding_key,
                        validation,
                        decoded,
                    )
                    &&& validation@ == rules_for(self@, jwt::token_header(token@)->Ok_0.alg)
                    &&& #[trigger] call_ensures(read, (token,), claims)
                    &&& follows(outcome, claims, settled(jwt::decoded_chars(decoded), unread(claims)))
                },
    {
        let header = jwt::decode_header(token);
        let (jwk, alg) = match self.select_key(header) {
            Ok(selection) => selection,
            Err(e) => return Err(e),
        };
        let validation = self.validation(alg);
        let decoded = jwt::decode_token(token, &jwk.decoding_key, &validation);
        if let Err(DecodeError::Signature(cause)) = decoded {
            return Err(ValidatorError::ValidationFailed(cause));
        }
        let claims = read(token);
        proof {
            let now = choose|now: u64|
                jwt::decoded_chars(decoded) == #[trigger] jwt::decoded(
                    validation@,
                    jwt::signed_claims(token@, jwk.decoding_key, validation.alg@),
                    now,
                );
            assert(validated(self@, token@, unread(claims), now) == settled(
                jwt::decoded_chars(decoded),
                unread(claims),
            ));
            let kid = jwt::token_header(token@)->Ok_0.kid->0;
            assert(jwt::is_decoding(token, self@.keys[kid].decoding_key, validation, decoded));
        }
        report(decoded, claims)
    }
}

/// A token whose header names another algorithm than the one its key declares
/// is refused by the name alone, whatever its signature, its claims and the
/// clock.
pub proof fn law_declared_algorithm_is_pinned(
    state: ValidatorState,
    token: Seq<char>,
    kid: Seq<char>,
)
    requires
        jwt::token_header(token) is Ok,
        jwt::token_header(token)->Ok_0.kid == Some(kid),
        state.keys.contains_key(kid),
        state.keys[kid].alg is Some,
        state.keys[kid].alg->0 != jwt::token_header(token)->Ok_0.alg,
    ensures
        refused_unread(state, token) is Some,
        refused_unread(state, token)->0 is ValidationFailed,
{
}

/// A token that is refused unread gets that answer whatever its claims are and
/// whatever the clock shows.
pub proof fn law_unread_refusals_come_first(
    state: ValidatorState,
    token: Seq<char>,
    unread: Option<Seq<char>>,
    now: u64,
)
    requires
        refused_unread(state, token) is Some,
    ensures
        validated(state, token, unread, now) == Err::<(), _>(refused_unread(state, token)->0),
{
}

/// A token whose signature holds but whose claims do not fit the caller's type
/// is reported as that, before any rule on its claims.
pub proof fn law_misfit_comes_before_the_rules(
    state: ValidatorState,
    token: Seq<char>,
    cause: Seq<char>,
    now: u64,
)
    requires
        refused_unread(state, token) is None,
    ensures
        validated(state, token, Some(cause), now) == Err::<(), _>(
            ValidatorFailure::ValidationFailed(cause),
        ),
{
}

/// The registered claims of a token under the key that its header selects,
/// `None` when the token is refused before they are looked at.
pub open spec fn signed_by_selected(state: ValidatorState, token: Seq<char>) -> Option<
    jwt::RegisteredClaims,
> {
    match selected(state.keys, jwt::token_header(token)) {
        Err(_) => None,
        Ok((key, alg)) => match jwt::signed_claims(token, key.decoding_key, alg) {
            Ok(jwt::SignedPart::Claims(claims)) => Some(claims),
            _ => None,
        },
    }
}

/// Whether claims are neither expired nor from the future, beyond the leeway.
pub open spec fn timely(claims: jwt::RegisteredClaims, now: u64) -> bool {
    &&& claims.exp is At && now <= claims.exp->At_0 + jwt::LEEWAY_SECS
    &&& claims.nbf is Absent || (claims.nbf is At && claims.nbf->At_0 <= now + jwt::LEEWAY_SECS)
}

/// What a validator accepts is signed by a key it holds, under the algorithm
/// that key declares if it declares one, is neither expired nor from the
/// future beyond the leeway, names the expected issuer and one of the accepted
/// audiences wherever it names any, and fits the caller's type.
pub proof fn law_accepted_tokens_pass_every_check(
    state: ValidatorState,
    token: Seq<char>,
    unread: Option<Seq<char>>,
    now: u64,
)
    requires
        validated(state, token, unread, now) is Ok,
    ensures
        ({
            let header = jwt::token_header(token)->Ok_0;
            let kid = header.kid->0;
            let claims = signed_by_selected(state, token)->0;
            &&& unread is None
            &&& jwt::token_header(token) is Ok
            &&& header.kid is Some
            &&& state.keys.contains_key(kid)
            &&& state.keys[kid].alg is Some ==> state.keys[kid].alg->0 == header.alg
            &&& jwt::signed_claims(token, state.keys[kid].decoding_key, header.alg) == Ok::<
                jwt::SignedPart,
                Seq<char>,
            >(jwt::SignedPart::Claims(claims))
            &&& timely(claims, now)
            &&& claims.iss is Some ==> claims.iss->0.contains(state.issuer)
            &&& claims.aud is Some ==> jwt::overlap(claims.aud->0, state.audiences)
        }),
{
}

/// A token is reported as expired exactly when its signature holds, its claims
/// fit, and its expiry lies more than the leeway in the past (and its start of
/// validity can be read).
pub proof fn law_expired_tokens(
    state: ValidatorState,
    token: Seq<char>,
    unread: Option<Seq<char>>,
    now: u64,
)
    ensures
        validated(state, token, unread, now) == Err::<(), _>(ValidatorFailure::TokenExpired)
            <==> ({
            let claims = signed_by_selected(state, token);
            &&& unread is None
            &&& claims is Some
            &&& claims->0.exp is At
            &&& !(claims->0.nbf is Malformed)
            &&& claims->0.exp->At_0 + jwt::LEEWAY_SECS < now
        }),
{
}

/// A token that is otherwise in order but meant for somebody else is reported
/// as such.
pub proof fn law_foreign_audience(state: ValidatorState, token: Seq<char>, now: u64)
    requires
        signed_by_selected(state, token) is Some,
        ({
            let claims = signed_by_selected(state, token)->0;
            &&& timely(claims, now)
            &&& claims.iss is Some ==> claims.iss->0.contains(state.issuer)
            &&& claims.aud is Some
            &&& !jwt::overlap(claims.aud->0, state.audiences)
        }),
    ensures
        validated(state, token, None, now) == Err::<(), _>(ValidatorFailure::InvalidAudience),
{
}

/// A token that passes every check is accepted.
pub proof fn law_sound_tokens_are_accepted(state: ValidatorState, token: Seq<char>, now: u64)
    requires
        signed_by_selected(state, token) is Some,
        ({
            let claims = signed_by_selected(state, token)->0;
            &&& timely(claims, now)
            &&& claims.iss is Some ==> claims.iss->0.contains(state.issuer)
            &&& claims.aud is Some ==> jwt::overlap(claims.aud->0, state.audiences)
        }),
    ensures
        validated(state, token, None, now) == Ok::<(), ValidatorFailure>(()),
{
}

/// A key that a refresh has taken away no longer validates anything: its
/// tokens are answered with the name of the missing key.
pub proof fn law_rotated_out_keys_are_refused(
    state: ValidatorState,
    fresh: Map<Seq<char>, KeyEntry>,
    token: Seq<char>,
    kid: Seq<char>,
)
    requires
        jwt::token_header(token) is Ok,
        jwt::token_header(token)->Ok_0.kid == Some(kid),
        !fresh.contains_key(kid),
    ensures
        refused_unread(ValidatorState { keys: fresh, ..state }, token) == Some(
            ValidatorFailure::KeyNotFound(kid),
        ),
{
}

/// A connection that failed in discovery says so, whatever the JWKS fetch would
/// have brought, and a failed fetch is reported only after discovery went well.
pub proof fn law_discovery_comes_before_the_keys(
    config: ValidatorConfig,
    discovered: Result<Seq<char>, DiscoveryFailure>,
    jwks: Result<Map<Seq<char>, KeyEntry>, Seq<char>>,
)
    ensures
        discovered is Err <==> connected(config, discovered, jwks) is Err && connected(
            config,
            discovered,
            jwks,
        )->Err_0 is Discovery,
        discovered is Ok && jwks is Err <==> connected(config, discovered, jwks) is Err
            && connected(config, discovered, jwks)->Err_0 is JwksFetch,
        discovered is Ok && jwks is Ok <==> connected(config, discovered, jwks) is Ok,
{
}

/// However many refreshes there were, the keys are exactly those of the last
/// one that succeeded (or the first ones, where none did); issuer, audiences,
/// URL and interval never change.
pub proof fn law_last_successful_refresh_decides(
    state: ValidatorState,
    fetches: Seq<Result<Map<Seq<char>, KeyEntry>, Seq<char>>>,
    last: int,
)
    requires
        -1 <= last < fetches.len(),
        last >= 0 ==> fetches[last] is Ok,
        forall|i: int| last < i < fetches.len() ==> fetches[i] is Err,
    ensures
        after_refreshes(state, fetches) == (ValidatorState {
            keys: if last >= 0 {
                fetches[last]->Ok_0
            } else {
                state.keys
            },
            ..state
        }),
    decreases fetches.len(),
{
    if fetches.len() > 0 {
        let earlier = fetches.drop_last();
        if last == fetches.len() - 1 {
            lemma_refreshes_change_only_keys(state, earlier);
        } else {
            law_last_successful_refresh_decides(state, earlier, last);
        }
    }
}

/// Refreshes leave everything but the keys as it is.
proof fn lemma_refreshes_change_only_keys(
    state: ValidatorState,
    fetches: Seq<Result<Map<Seq<char>, KeyEntry>, Seq<char>>>,
)
    ensures
        after_refreshes(state, fetches) == (ValidatorState {
            keys: after_refreshes(state, fetches).keys,
            ..state
        }),
    decreases fetches.len(),
{
    if fetches.len() > 0 {
        lemma_refreshes_change_only_keys(state, fetches.drop_last());
    }
}

/// The accepted audiences are the client id and the additional ones, nothing
/// else.
pub proof fn law_accepted_audiences(
    config: ValidatorConfig,
    issuer: Seq<char>,
    keys: Map<Seq<char>, KeyEntry>,
    aud: Seq<char>,
)
    ensures
        configured(config, issuer, keys).audiences.contains(aud) <==> (aud == config.client_id@
            || text::all_chars(config.additional_audiences@).contains(aud)),
{
    let extra = text::all_chars(config.additional_audiences@);
    let all = seq![config.client_id@] + extra;
    assert(all[0] == config.client_id@);
    if extra.contains(aud) {
        let i = choose|i: int| 0 <= i < extra.len() && extra[i] == aud;
        assert(all[i + 1] == aud);
    }
    if all.contains(aud) && aud != config.client_id@ {
        let i = choose|i: int| 0 <= i < all.len() && all[i] == aud;
        assert(extra[i - 1] == aud);
    }
}

/// Tokens are checked against the issuer that the discovery document
/// advertises, letter for letter; the configured one only says where the
/// document is.
pub proof fn law_advertised_issuer_is_expected(
    config: ValidatorConfig,
    answer: discovery::Answer,
    keys: Map<Seq<char>, KeyEntry>,
    alg: Seq<char>,
)
    requires
        discovery::advertised(Ok(answer)) is Ok,
    ensures
        ({
            let outcome = connected(config, discovery::advertised(Ok(answer)), Ok(keys));
            &&& outcome is Ok
            &&& answer.issuer == Ok::<Seq<char>, Seq<char>>(
                rules_for(outcome->Ok_0, alg).issuer,
            )
            &&& outcome->Ok_0.jwks_url == discovery::well_known_url(config.issuer@)
        }),
{
}

/// A key that is held is selected by every token that names it, unless it
/// declares an algorithm that is not supported or is not the token's. Nothing
/// but the signature then stands between the token and its claims.
pub proof fn law_held_keys_are_selected(
    state: ValidatorState,
    token: Seq<char>,
    header: jwt::HeaderClaims,
    kid: Seq<char>,
)
    requires
        jwt::token_header(token) == Ok::<jwt::HeaderClaims, Seq<char>>(header),
        header.kid == Some(kid),
        state.keys.contains_key(kid),
        state.keys[kid].alg is None || (state.keys[kid].alg == Some(header.alg)
            && jwt::is_supported(header.alg)),
    ensures
        selected(state.keys, jwt::token_header(token)) == Ok::<
            (KeyEntry, Seq<char>),
            ValidatorFailure,
        >((state.keys[kid], header.alg)),
        ({
            let signed = jwt::signed_claims(token, state.keys[kid].decoding_key, header.alg);
            &&& signed is Ok ==> refused_unread(state, token) is None
            &&& signed is Err ==> refused_unread(state, token) == Some(
                ValidatorFailure::ValidationFailed(signed->Err_0),
            )
        }),
{
}

/// Each refusal before the signature comes exactly when it should.
pub proof fn law_refusals_before_the_signature(
    keys: Map<Seq<char>, KeyEntry>,
    header: Result<jwt::HeaderClaims, Seq<char>>,
)
    ensures
        ({
            let outcome = selected(keys, header);
            let named = header is Ok && header->Ok_0.kid is Some;
            let kid = header->Ok_0.kid->0;
            let held = named && keys.contains_key(kid);
            let declares = held && keys[kid].alg is Some;
            let declared = keys[kid].alg->0;
            &&& header is Err ==> outcome == Err::<(KeyEntry, Seq<char>), _>(
                ValidatorFailure::HeaderDecode(header->Err_0),
            )
            &&& header is Ok && !named ==> outcome == Err::<(KeyEntry, Seq<char>), _>(
                ValidatorFailure::MissingKeyId,
            )
            &&& named && !held ==> outcome == Err::<(KeyEntry, Seq<char>), _>(
                ValidatorFailure::KeyNotFound(kid),
            )
            &&& declares && !jwt::is_supported(declared) ==> outcome == Err::<
                (KeyEntry, Seq<char>),
                _,
            >(
                ValidatorFailure::ValidationFailed(
                    "JWKS key declares unsupported alg "@ + declared,
                ),
            )
            &&& declares && jwt::is_supported(declared) && declared != header->Ok_0.alg
                ==> outcome == Err::<(KeyEntry, Seq<char>), _>(
                ValidatorFailure::ValidationFailed(
                    "token algorithm "@ + header->Ok_0.alg + " does not match key algorithm "@
                        + declared,
                ),
            )
            &&& outcome is Ok <==> held && (keys[kid].alg is None || (jwt::is_supported(declared)
                && declared == header->Ok_0.alg))
        }),
{
}

/// What is refused by the header alone is refused unread, with that reason.
pub proof fn law_header_refusals_are_final(state: ValidatorState, token: Seq<char>)
    ensures
        selected(state.keys, jwt::token_header(token)) is Err ==> refused_unread(state, token)
            == Some(selected(state.keys, jwt::token_header(token))->Err_0),
{
}

/// A token is accepted exactly when all of this holds: its header can be read
/// and names a key that is held; that key declares no algorithm, or a supported
/// one that is the header's; its signature by that key under that algorithm
/// holds; its claims fit the caller's type; it has an expiry not more than
/// sixty seconds past and no unreadable or more than sixty seconds distant
/// start of validity; and it names the expected issuer and an accepted audience
/// if it names any.
pub proof fn law_acceptance(
    state: ValidatorState,
    token: Seq<char>,
    unread: Option<Seq<char>>,
    now: u64,
)
    ensures
        validated(state, token, unread, now) == Ok::<(), ValidatorFailure>(()) <==> {
            let header = jwt::token_header(token)->Ok_0;
            let key = state.keys[header.kid->0];
            let signed = jwt::signed_claims(token, key.decoding_key, header.alg);
            let claims = signed->Ok_0->Claims_0;
            &&& jwt::token_header(token) is Ok
            &&& header.kid is Some
            &&& state.keys.contains_key(header.kid->0)
            &&& key.alg is None || (jwt::is_supported(key.alg->0) && key.alg->0 == header.alg)
            &&& signed is Ok && signed->Ok_0 is Claims
            &&& unread is None
            &&& claims.exp is At && now <= claims.exp->At_0 + 60
            &&& claims.nbf is Absent || (claims.nbf is At && claims.nbf->At_0 <= now + 60)
            &&& claims.iss is None || claims.iss->0.contains(state.issuer)
            &&& claims.aud is None || exists|i: int|
                0 <= i < state.audiences.len() && claims.aud->0.contains(
                    #[trigger] state.audiences[i],
                )
        },
{
}

/// A token whose signature by a held key holds and whose claims fit is refused
/// by the first rule that its claims break, and in the words of that rule.
pub proof fn law_refusals_after_the_signature(
    state: ValidatorState,
    token: Seq<char>,
    header: jwt::HeaderClaims,
    kid: Seq<char>,
    part: jwt::SignedPart,
    now: u64,
)
    requires
        jwt::token_header(token) == Ok::<jwt::HeaderClaims, Seq<char>>(header),
        header.kid == Some(kid),
        state.keys.contains_key(kid),
        state.keys[kid].alg is None || (state.keys[kid].alg == Some(header.alg)
            && jwt::is_supported(header.alg)),
        jwt::signed_claims(token, state.keys[kid].decoding_key, header.alg) == Ok::<
            jwt::SignedPart,
            Seq<char>,
        >(part),
    ensures
        ({
            let outcome = validated(state, token, None, now);
            let claims = part->Claims_0;
            let dated = part is Claims && claims.exp is At;
            let readable = dated && !(claims.nbf is Malformed);
            let unexpired = readable && now <= claims.exp->At_0 + 60;
            let begun = unexpired && (claims.nbf is Absent || claims.nbf->At_0 <= now + 60);
            let issued = begun && (claims.iss is None || claims.iss->0.contains(state.issuer));
            let meant = issued && (claims.aud is None || exists|i: int|
                0 <= i < state.audiences.len() && claims.aud->0.contains(
                    #[trigger] state.audiences[i],
                ));
            &&& part is Unreadable ==> outcome == Err::<(), _>(
                ValidatorFailure::ValidationFailed(part->Unreadable_0),
            )
            &&& part is Claims && !dated ==> outcome == Err::<(), _>(
                ValidatorFailure::ValidationFailed("Missing required claim: exp"@),
            )
            &&& dated && !readable ==> outcome == Err::<(), _>(
                ValidatorFailure::ValidationFailed("Invalid format for claim: nbf"@),
            )
            &&& readable && !unexpired ==> outcome == Err::<(), _>(ValidatorFailure::TokenExpired)
            &&& unexpired && !begun ==> outcome == Err::<(), _>(
                ValidatorFailure::ValidationFailed("ImmatureSignature"@),
            )
            &&& begun && !issued ==> outcome == Err::<(), _>(
                ValidatorFailure::ValidationFailed("InvalidIssuer"@),
            )
            &&& issued && !meant ==> outcome == Err::<(), _>(ValidatorFailure::InvalidAudience)
            &&& meant ==> outcome == Ok::<(), ValidatorFailure>(())
        }),
{
}

/// What decoding and reading came to is reported in this order: a bad
/// signature, a misfit, a broken rule, and only then success.
pub proof fn law_reporting_order(
    decoded: Result<(), jwt::DecodeFailure>,
    cause: Seq<char>,
    misfit: Option<Seq<char>>,
)
    ensures
        settled(Err(jwt::DecodeFailure::Signature(cause)), misfit) == Err::<(), _>(
            ValidatorFailure::ValidationFailed(cause),
        ),
        !(decoded is Err && decoded->Err_0 is Signature) && misfit is Some ==> settled(
            decoded,
            misfit,
        ) == Err::<(), _>(ValidatorFailure::ValidationFailed(misfit->0)),
        settled(Err(jwt::DecodeFailure::Claims(cause)), None) == Err::<(), _>(
            ValidatorFailure::ValidationFailed(cause),
        ),
        settled(Err(jwt::DecodeFailure::ExpiredSignature), None) == Err::<(), _>(
            ValidatorFailure::TokenExpired,
        ),
        settled(Err(jwt::DecodeFailure::InvalidAudience), None) == Err::<(), _>(
            ValidatorFailure::InvalidAudience,
        ),
        settled(Ok(()), None) == Ok::<(), ValidatorFailure>(()),
{
}

/// The claims that were read are handed out exactly on a good verdict, as they
/// are; a bad one is answered with its error.
pub proof fn law_claims_are_handed_out_on_a_good_verdict<C>(
    outcome: Result<C, ValidatorError>,
    read: Result<C, String>,
    e: ValidatorFailure,
)
    ensures
        follows(outcome, read, Ok(())) <==> outcome is Ok && read is Ok && outcome->Ok_0
            == read->Ok_0,
        follows(outcome, read, Err(e)) <==> outcome is Err && outcome->Err_0@ == e,
        read is Ok ==> unread(read) is None,
        read is Err ==> unread(read) == Some(read->Err_0@),
{
}

/// Tokens are checked under the algorithm asked for, with expiry and start of
/// validity, against the validator's issuer and audiences.
pub proof fn law_rules_of_a_validator(state: ValidatorState, alg: Seq<char>)
    ensures
        rules_for(state, alg).alg == alg,
        rules_for(state, alg).validate_exp,
        rules_for(state, alg).validate_nbf,
        rules_for(state, alg).issuer == state.issuer,
        rules_for(state, alg).audiences == state.audiences,
{
}

/// A connected validator holds the keys that were fetched, the issuer that was
/// discovered, the audiences and the interval that were configured, and the
/// place of the configured issuer's document.
pub proof fn law_connected_validator(
    config: ValidatorConfig,
    issuer: Seq<char>,
    keys: Map<Seq<char>, KeyEntry>,
)
    ensures
        ({
            let outcome = connected(config, Ok(issuer), Ok(keys));
            let state = outcome->Ok_0;
            &&& outcome is Ok
            &&& state.keys == keys
            &&& state.issuer == issuer
            &&& state.jwks_url == discovery::well_known_url(config.issuer@)
            &&& state.audiences.len() == config.additional_audiences@.len() + 1
            &&& state.audiences[0] == config.client_id@
            &&& forall|i: int|
                0 <= i < config.additional_audiences@.len() ==> state.audiences[i + 1]
                    == #[trigger] config.additional_audiences@[i]@
            &&& state.refresh is None <==> config.discovery_refresh_interval_seconds == 0
            &&& state.refresh is Some ==> state.refresh->0.period_seconds
                == config.discovery_refresh_interval_seconds && !state.refresh->0.started
        }),
{
}

/// A connection fails with the error of its first step that failed.
pub proof fn law_failed_connections(
    config: ValidatorConfig,
    e: DiscoveryFailure,
    issuer: Seq<char>,
    cause: Seq<char>,
    jwks: Result<Map<Seq<char>, KeyEntry>, Seq<char>>,
)
    ensures
        connected(config, Err(e), jwks) == Err::<ValidatorState, _>(ValidatorFailure::Discovery(e)),
        connected(config, Ok(issuer), Err(cause)) == Err::<ValidatorState, _>(
            ValidatorFailure::JwksFetch(cause),
        ),
{
}

/// A refresh replaces the keys and nothing else; a failed one gives its cause
/// and changes nothing.
pub proof fn law_refresh_replaces_only_the_keys(
    state: ValidatorState,
    keys: Map<Seq<char>, KeyEntry>,
    cause: Seq<char>,
)
    ensures
        refreshed(state, Ok(keys)) is Ok,
        refreshed(state, Ok(keys))->Ok_0.keys == keys,
        refreshed(state, Ok(keys))->Ok_0.jwks_url == state.jwks_url,
        refreshed(state, Ok(keys))->Ok_0.audiences == state.audiences,
        refreshed(state, Ok(keys))->Ok_0.issuer == state.issuer,
        refreshed(state, Ok(keys))->Ok_0.refresh == state.refresh,
        refreshed(state, Err(cause)) == Err::<ValidatorState, _>(ValidatorFailure::JwksFetch(cause)),
        after_refreshes(state, seq![Err(cause)]) == state,
{
    let failed: Seq<Result<Map<Seq<char>, KeyEntry>, Seq<char>>> = seq![Err(cause)];
    law_last_successful_refresh_decides(state, failed, -1);
}

/// A single audience names itself, a list names each of its members, and an
/// unspecified one names nobody.
pub proof fn law_named_audiences(single: String, list: Vec<String>, name: Seq<char>)
    ensures
        Audience::Single(single).names().contains(name) <==> single@ == name,
        Audience::Multiple(list).names().contains(name) <==> exists|i: int|
            0 <= i < list@.len() && #[trigger] list@[i]@ == name,
        !Audience::Unspecified.names().contains(name),
{
    assert(seq![single@][0] == single@);
    let all = text::all_chars(list@);
    if all.contains(name) {
        let i = choose|i: int| 0 <= i < all.len() && all[i] == name;
        assert(list@[i]@ == name);
    }
    if exists|i: int| 0 <= i < list@.len() && #[trigger] list@[i]@ == name {
        let i = choose|i: int| 0 <= i < list@.len() && #[trigger] list@[i]@ == name;
        assert(all[i] == name);
    }
}

/// An error shows what went wrong, in front of the cause where there is one.
pub proof fn law_validator_messages(e: DiscoveryFailure, cause: Seq<char>)
    ensures
        ValidatorFailure::Discovery(e).message() == "OIDC discovery failed: "@ + e.message(),
        ValidatorFailure::HeaderDecode(cause).message() == "Failed to decode JWT header: "@ + cause,
        ValidatorFailure::MissingKeyId.message() == "JWT header missing Key ID (kid)"@,
        ValidatorFailure::JwksFetch(cause).message() == "Failed to fetch JWKS: "@ + cause,
        ValidatorFailure::KeyNotFound(cause).message() == "No matching key found for Key ID: "@
            + cause,
        ValidatorFailure::ValidationFailed(cause).message() == "JWT validation failed: "@ + cause,
        ValidatorFailure::TokenExpired.message() == "Token expired"@,
        ValidatorFailure::InvalidAudience.message() == "Invalid audience"@,
{
}

/// What contracts say of a key, of fetched keys or of an error is said of all
/// of its parts.
pub proof fn law_validator_views(jwk: Jwk, jwks: Jwks, cause: String, e: DiscoveryError)
    ensures
        jwk.alg is None ==> jwk@.alg is None,
        jwk.alg is Some ==> jwk@.alg == Some(jwk.alg->0@),
        jwk@.decoding_key == jwk.decoding_key,
        fetched_keys(Ok(jwks)) == Ok::<Map<Seq<char>, KeyEntry>, Seq<char>>(jwks@),
        fetched_keys(Err(cause)) == Err::<Map<Seq<char>, KeyEntry>, _>(cause@),
        ValidatorError::Discovery(e)@ == ValidatorFailure::Discovery(e@),
        ValidatorError::HeaderDecode(cause)@ == ValidatorFailure::HeaderDecode(cause@),
        ValidatorError::MissingKeyId@ == ValidatorFailure::MissingKeyId,
        ValidatorError::JwksFetch(cause)@ == ValidatorFailure::JwksFetch(cause@),
        ValidatorError::KeyNotFound(cause)@ == ValidatorFailure::KeyNotFound(cause@),
        ValidatorError::ValidationFailed(cause)@ == ValidatorFailure::ValidationFailed(cause@),
        ValidatorError::TokenExpired@ == ValidatorFailure::TokenExpired,
        ValidatorError::InvalidAudience@ == ValidatorFailure::InvalidAudience,
{
}

} // verus!
