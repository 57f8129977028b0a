//! URLs, URIs and origins, as the `url` and `http` crates read them.

use vstd::prelude::*;

verus! {

/// Why `input` is no URL, `None` where it is one.
pub uninterp spec fn url_error(input: Seq<char>) -> Option<Seq<char>>;

/// The origin of the URL `input`, in its ASCII form.
pub uninterp spec fn url_origin(input: Seq<char>) -> Seq<char>;

/// Why `input` is no URI, `None` where it is one.
pub uninterp spec fn uri_error(input: Seq<char>) -> Option<Seq<char>>;

/// What a check that returns `error` on failure says about its input.
pub open spec fn check_result(outcome: Result<(), String>, error: Option<Seq<char>>) -> bool {
    match outcome {
        Ok(_) => error is None,
        Err(message) => error == Some(message@),
    }
}

/// `url::Url::parse`, asked only whether it succeeds: the message is that of
/// the `url::ParseError`.
#[verifier::external_body]
pub(crate) fn parse_url(input: &str) -> (outcome: Result<(), String>)
    ensures
        check_result(outcome, url_error(input@)),
{
    url::Url::parse(input).map(|_| ()).map_err(|e| e.to_string())
}

/// `url::Url::origin` of what `url::Url::parse` makes of `input`, written by
/// `ascii_serialization`. An error exactly where the parse fails, with the
/// message of the `url::ParseError`.
#[verifier::external_body]
pub(crate) fn parse_origin(input: &str) -> (origin: Result<String, String>)
    ensures
        match origin {
            Ok(text) => url_error(input@) is None && text@ == url_origin(input@),
            Err(message) => url_error(input@) == Some(message@),
        },
{
    let parsed = url::Url::parse(input).map_err(|e| e.to_string());
    parsed.map(|url| url.origin().ascii_serialization())
}

/// `openidconnect::IssuerUrl::new`, asked only whether it succeeds: it keeps
/// the text as it is and fails as `url::Url::parse` does.
#[verifier::external_body]
pub(crate) fn parse_issuer_url(input: &str) -> (outcome: Result<(), String>)
    ensures
        check_result(outcome, url_error(input@)),
{
    let parsed = axum_oidc::openidconnect::IssuerUrl::new(input.to_string());
    parsed.map(|_| ()).map_err(|e| e.to_string())
}

/// `http::Uri::from_str`, asked only whether it succeeds: the message is that
/// of the `http::uri::InvalidUri`.
#[verifier::external_body]
pub(crate) fn parse_uri(input: &str) -> (outcome: Result<(), String>)
    ensures
        check_result(outcome, uri_error(input@)),
{
    input.parse::<axum::http::Uri>().map(|_| ()).map_err(|e| e.to_string())
}

/// A check passes exactly when nothing is wrong with its input, and otherwise
/// says what is.
pub proof fn law_checks_say_what_is_wrong(message: String, error: Option<Seq<char>>)
    ensures
        check_result(Ok(()), error) <==> error is None,
        check_result(Err(message), error) <==> error == Some(message@),
{
}

} // verus!
