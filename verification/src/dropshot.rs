//! Bearer-token authentication for dropshot servers.
//!
//! A server extracts the `Authorization` header, calls [`authenticate`] and
//! either continues with the token's claims or answers with the error.

use vstd::prelude::*;

use crate::status::StatusCode;
use crate::text;
use crate::validator;
use crate::validator::{TokenValidator, ValidatorError};

verus! {

/// An error answer, as a dropshot server gives it.
#[derive(Debug)]
pub struct HttpError {
    /// HTTP status of the answer.
    pub status_code: u16,
    /// Machine-readable code for the client.
    pub error_code: Option<String>,
    /// Message for the client.
    pub external_message: String,
    /// Message for the log.
    pub internal_message: String,
}

/// An [`HttpError`] as characters.
pub struct HttpFailure {
    pub status_code: u16,
    pub error_code: Option<Seq<char>>,
    pub external_message: Seq<char>,
    pub internal_message: Seq<char>,
}

impl View for HttpError {
    type V = HttpFailure;

    open spec fn view(&self) -> HttpFailure {
        HttpFailure {
            status_code: self.status_code,
            error_code: text::opt_chars(self.error_code),
            external_message: self.external_message@,
            internal_message: self.internal_message@,
        }
    }
}

/// `dropshot::HttpError::for_client_error`, for the `ClientErrorStatusCode` of
/// a given number: the status and the error code are kept, and both the client
/// and the log get the message.
#[verifier::external_body]
fn for_client_error(error_code: Option<String>, status_code: u16, message: String) -> (e: HttpError)
    requires
        400 <= status_code <= 499,
    ensures
        e@ == (HttpFailure {
            status_code,
            error_code: text::opt_chars(error_code),
            external_message: message@,
            internal_message: message@,
        }),
{
    let status = dropshot::ClientErrorStatusCode::from_u16(status_code).expect("client error");
    let e = dropshot::HttpError::for_client_error(error_code, status, message);
    HttpError {
        status_code: e.status_code.as_u16(),
        error_code: e.error_code,
        external_message: e.external_message,
        internal_message: e.internal_message,
    }
}

/// The answer to every request that is not authenticated.
pub open spec fn refusal() -> HttpFailure {
    HttpFailure {
        status_code: StatusCode::Unauthorized.code(),
        error_code: None,
        external_message: "unauthorized"@,
        internal_message: "unauthorized"@,
    }
}

/// 401 response shared by all rejection paths (details are logged, not leaked).
pub fn unauthorized() -> (e: HttpError)
    ensures
        e@ == refusal(),
{
    for_client_error(None, StatusCode::Unauthorized.as_u16(), "unauthorized".to_owned())
}

/// The token in an `Authorization` header: what follows `Bearer ` or
/// `bearer `, or all of it when there is no such prefix.
pub open spec fn bearer(raw: Seq<char>) -> Seq<char> {
    if text::begins_with(raw, "Bearer "@) {
        raw.skip("Bearer "@.len() as int)
    } else if text::begins_with(raw, "bearer "@) {
        raw.skip("bearer "@.len() as int)
    } else {
        raw
    }
}

/// The token in an `Authorization` header, with or without the `Bearer `
/// prefix.
pub fn bearer_token(raw: &str) -> (token: &str)
    ensures
        token@ == bearer(raw@),
{
    match text::strip_prefix(raw, "Bearer ") {
        Some(token) => token,
        None => match text::strip_prefix(raw, "bearer ") {
            Some(token) => token,
            None => raw,
        },
    }
}

/// Why a request is refused: what the client gets, and what the log gets.
#[derive(Debug)]
pub struct Rejection {
    /// The answer to the client.
    pub answer: HttpError,
    /// The reason, for the log only.
    pub logged: String,
}

/// A [`Rejection`] as characters.
pub struct Refusal {
    pub answer: HttpFailure,
    pub logged: Seq<char>,
}

impl View for Rejection {
    type V = Refusal;

    open spec fn view(&self) -> Refusal {
        Refusal { answer: self.answer@, logged: self.logged@ }
    }
}

/// The refusal of a request without the header.
pub open spec fn missing_header() -> Refusal {
    Refusal { answer: refusal(), logged: "No Authorization header provided"@ }
}

/// The refusal of a request whose token does not validate.
pub open spec fn invalid_token(cause: validator::ValidatorFailure) -> Refusal {
    Refusal {
        answer: refusal(),
        logged: "OIDC token validation failed: "@ + cause.message(),
    }
}

/// What validation of a token means for its request: the claims and the token
/// go on, or the request is refused.
pub fn answer<'a, C>(outcome: Result<C, ValidatorError>, token: &'a str) -> (admitted: Result<
    (C, &'a str),
    Rejection,
>)
    ensures
        match outcome {
            Ok(claims) => admitted is Ok && admitted->Ok_0.0 == claims && admitted->Ok_0.1@
                == token@,
            Err(e) => admitted is Err && admitted->Err_0@ == invalid_token(e@),
        },
{
    match outcome {
        Ok(claims) => Ok((claims, token)),
        Err(e) => Err(
            Rejection {
                answer: unauthorized(),
                logged: text::joined("OIDC token validation failed: ", &e.message()),
            },
        ),
    }
}

/// What authentication comes to when the clock shows `now`, where `unread` says
/// why the claims do not fit the caller's type, if they do not: the token, or
/// the refusal.
pub open spec fn authenticated(
    state: validator::ValidatorState,
    authorization: Option<Seq<char>>,
    unread: Option<Seq<char>>,
    now: u64,
) -> Result<Seq<char>, Refusal> {
    match authorization {
        None => Err(missing_header()),
        Some(raw) => match validator::validated(state, bearer(raw), unread, now) {
            Ok(_) => Ok(bearer(raw)),
            Err(cause) => Err(invalid_token(cause)),
        },
    }
}

/// Why a request is refused before its token's claims are looked at, `None`
/// when it is not.
pub open spec fn turned_away(
    state: validator::ValidatorState,
    authorization: Option<Seq<char>>,
) -> Option<Refusal> {
    match authorization {
        None => Some(missing_header()),
        Some(raw) => match validator::refused_unread(state, bearer(raw)) {
            Some(cause) => Some(invalid_token(cause)),
            None => None,
        },
    }
}

/// Whether `admitted` is the claims that were read along with the token where
/// the verdict is good, and the verdict's refusal where it is not.
pub open spec fn follows<C>(
    admitted: Result<(C, &str), Rejection>,
    read: Result<C, String>,
    verdict: Result<Seq<char>, Refusal>,
) -> bool {
    match verdict {
        Ok(token) => {
            &&& read is Ok
            &&& admitted is Ok
            &&& admitted->Ok_0.0 == read->Ok_0
            &&& admitted->Ok_0.1@ == token
        },
        Err(e) => admitted is Err && admitted->Err_0@ == e,
    }
}

/// Authenticate a request by its `Authorization` header: the token's claims
/// along with the token, for flows that need it. `read` reads the claims of a
/// token, as for [`TokenValidator::validate_token`].
///
/// Rejects with 401 when the header is missing or the token does not validate.
pub fn authenticate<'a, C, F: FnOnce(&str) -> Result<C, String>>(
    token_validator: &TokenValidator,
    authorization: Option<&'a str>,
    read: F,
) -> (admitted: Result<(C, &'a str), Rejection>)
    requires
        forall|token: &str| call_requires(read, (token,)),
    ensures
        match turned_away(token_validator@, text::opt_str_chars(authorization)) {
            Some(refusal) => admitted is Err && admitted->Err_0@ == refusal,
            None => exists|token: &str, claims: Result<C, String>, now: u64|
                token@ == bearer(authorization->0@) && #[trigger] call_ensures(
                    read,
                    (token,),
                    claims,
                ) && follows(
                    admitted,
                    claims,
                    #[trigger] authenticated(
                        token_validator@,
                        text::opt_str_chars(authorization),
                        validator::unread(claims),
                        now,
                    ),
                ),
        },
        authorization is Some ==> exists|token: &str, outcome: Result<C, ValidatorError>|
            {
                &&& token@ == bearer(authorization->0@)
                &&& #[trigger] call_ensures(
                    TokenValidator::validate_token::<C, F>,
                    (token_validator, token, read),
                    outcome,
                )
                &&& match outcome {
                    Ok(claims) => admitted is Ok && admitted->Ok_0.0 == claims
                        && admitted->Ok_0.1@ == token@,
                    Err(e) => admitted is Err && admitted->Err_0@ == invalid_token(e@),
                }
            },
{
    let raw = match authorization {
        Some(raw) => raw,
        None => return Err(
            Rejection {
                answer: unauthorized(),
                logged: "No Authorization header provided".to_owned(),
            },
        ),
    };
    let token = bearer_token(raw);
    let outcome = token_validator.validate_token(token, read);
    proof {
        if validator::refused_unread(token_validator@, token@) is None {
            let (claims, now) = choose|claims: Result<C, String>, now: u64|
                call_ensures(read, (token,), claims) && validator::follows(
                    outcome,
                    claims,
                    #[trigger] validator::validated(
                        token_validator@,
                        token@,
                        validator::unread(claims),
                        now,
                    ),
                );
            let verdict = authenticated(
                token_validator@,
                Some(raw@),
                validator::unread(claims),
                now,
            );
            assert(call_ensures(read, (token,), claims));
        }
    }
    answer(outcome, token)
}

/// A request without the header, and one whose token does not validate for
/// whatever reason, get the same answer: the reason goes to the log and is not
/// leaked.
pub proof fn law_refusals_are_alike(
    state: validator::ValidatorState,
    authorization: Option<Seq<char>>,
    unread: Option<Seq<char>>,
    now: u64,
)
    ensures
        authenticated(state, authorization, unread, now) matches Err(e) ==> e.answer == refusal(),
        turned_away(state, authorization) matches Some(e) ==> e.answer == refusal() && authenticated(
            state,
            authorization,
            unread,
            now,
        ) == Err::<Seq<char>, _>(e),
        refusal().status_code == 401,
{
}

/// The prefix makes no difference: after `Bearer ` and after `bearer ` stands
/// the token, and so does without them, unless it starts like a prefix itself.
pub proof fn law_prefix_is_optional(token: Seq<char>)
    ensures
        bearer("Bearer "@ + token) == token,
        bearer("bearer "@ + token) == token,
        !text::begins_with(token, "Bearer "@) && !text::begins_with(token, "bearer "@)
            ==> bearer(token) == token,
{
    reveal_strlit("Bearer ");
    reveal_strlit("bearer ");
    let upper = "Bearer "@ + token;
    let lower = "bearer "@ + token;
    assert(upper.take(7) =~= "Bearer "@);
    assert(upper.skip(7) =~= token);
    assert(lower.take(7) =~= "bearer "@);
    assert(lower.skip(7) =~= token);
    assert(lower.take(7)[0] == 'b');
    assert("Bearer "@[0] == 'B');
}

/// The refusal tells the client nothing but that it is not authorized.
pub proof fn law_refusal_says_unauthorized()
    ensures
        refusal().status_code == 401,
        refusal().error_code is None,
        refusal().external_message == "unauthorized"@,
        refusal().internal_message == "unauthorized"@,
{
}

/// The token is what stands after one of the two prefixes, and all of the
/// header when it starts with neither.
pub proof fn law_token_of_a_header(raw: Seq<char>, token: Seq<char>)
    ensures
        raw == "Bearer "@ + token || raw == "bearer "@ + token ==> bearer(raw) == token,
        (forall|rest: Seq<char>| raw != #[trigger] "Bearer "@.add(rest)) && (forall|
            rest: Seq<char>,
        | raw != #[trigger] "bearer "@.add(rest)) ==> bearer(raw) == raw,
{
    law_prefix_is_optional(token);
    text::law_prefixes(raw, "Bearer "@, token);
    text::law_prefixes(raw, "bearer "@, token);
    if text::begins_with(raw, "Bearer "@) {
        assert(raw == "Bearer "@.add(raw.skip("Bearer "@.len() as int)));
    }
    if text::begins_with(raw, "bearer "@) {
        assert(raw == "bearer "@.add(raw.skip("bearer "@.len() as int)));
    }
}

/// A request is admitted exactly when it has the header and the token in it
/// validates, and then with that token. Otherwise the reason that the log gets
/// is the missing header, or the words of the validation's error.
pub proof fn law_authentication_outcomes(
    state: validator::ValidatorState,
    raw: Seq<char>,
    unread: Option<Seq<char>>,
    now: u64,
)
    ensures
        ({
            let missing = authenticated(state, None, unread, now);
            let outcome = authenticated(state, Some(raw), unread, now);
            let verdict = validator::validated(state, bearer(raw), unread, now);
            &&& missing is Err
            &&& missing->Err_0.logged == "No Authorization header provided"@
            &&& missing->Err_0.answer.status_code == 401
            &&& turned_away(state, None) == Some(missing->Err_0)
            &&& verdict is Ok ==> outcome == Ok::<Seq<char>, Refusal>(bearer(raw))
            &&& verdict is Err ==> outcome is Err && outcome->Err_0.logged
                == "OIDC token validation failed: "@ + verdict->Err_0.message()
            &&& verdict is Err ==> outcome->Err_0.answer.status_code == 401
        }),
{
}

/// A request is turned away with its token unread exactly when the validator
/// refuses the token so, and for that reason.
pub proof fn law_turned_away_requests(state: validator::ValidatorState, raw: Seq<char>)
    ensures
        ({
            let refused = validator::refused_unread(state, bearer(raw));
            let outcome = turned_away(state, Some(raw));
            &&& outcome is None <==> refused is None
            &&& refused is Some ==> outcome->0.logged == "OIDC token validation failed: "@
                + refused->0.message() && outcome->0.answer.status_code == 401
        }),
{
}

/// The claims go on with the token exactly on a good verdict; a bad one is
/// answered with its refusal.
pub proof fn law_claims_go_on_with_the_token<C>(
    admitted: Result<(C, &str), Rejection>,
    read: Result<C, String>,
    token: Seq<char>,
    e: Refusal,
)
    ensures
        follows(admitted, read, Ok(token)) <==> admitted is Ok && read is Ok && admitted->Ok_0.0
            == read->Ok_0 && admitted->Ok_0.1@ == token,
        follows(admitted, read, Err(e)) <==> admitted is Err && admitted->Err_0@ == e,
{
}

/// What contracts say of an answer or a rejection is said of all of its parts.
pub proof fn law_dropshot_views(e: HttpError, rejection: Rejection)
    ensures
        e@.status_code == e.status_code,
        e.error_code is None ==> e@.error_code is None,
        e.error_code is Some ==> e@.error_code == Some(e.error_code->0@),
        e@.external_message == e.external_message@,
        e@.internal_message == e.internal_message@,
        rejection@.answer == rejection.answer@,
        rejection@.logged == rejection.logged@,
{
}

} // verus!
