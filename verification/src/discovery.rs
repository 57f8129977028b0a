//! OIDC discovery preflight helpers.

use vstd::prelude::*;

use crate::location;
use crate::text;

verus! {

/// Default background discovery/JWKS refresh interval (seconds).
pub fn default_refresh_interval_seconds() -> (seconds: u64)
    ensures
        seconds == 60,
{
    60
}

/// Errors from [`discovered_issuer`].
#[derive(Debug)]
pub enum DiscoveryError {
    /// The discovery endpoint could not be reached or returned a non-2xx.
    Fetch(String),
    /// The `issuer` value in the discovery document is not a valid URL.
    InvalidIssuer(String),
}

/// A [`DiscoveryError`] with its text as characters.
pub enum DiscoveryFailure {
    Fetch(Seq<char>),
    InvalidIssuer(Seq<char>),
}

impl View for DiscoveryError {
    type V = DiscoveryFailure;

    open spec fn view(&self) -> DiscoveryFailure {
        match self {
            DiscoveryError::Fetch(cause) => DiscoveryFailure::Fetch(cause@),
            DiscoveryError::InvalidIssuer(cause) => DiscoveryFailure::InvalidIssuer(cause@),
        }
    }
}

impl DiscoveryFailure {
    /// The text shown for the error.
    pub open spec fn message(self) -> Seq<char> {
        match self {
            DiscoveryFailure::Fetch(cause) => "failed to fetch OIDC discovery: "@ + cause,
            DiscoveryFailure::InvalidIssuer(cause) => "invalid issuer in discovery document: "@
                + cause,
        }
    }
}

impl DiscoveryError {
    /// The text shown for the error.
    pub fn message(&self) -> (shown: String)
        ensures
            shown@ == self@.message(),
    {
        match self {
            DiscoveryError::Fetch(cause) => text::joined("failed to fetch OIDC discovery: ", cause),
            DiscoveryError::InvalidIssuer(cause) => text::joined(
                "invalid issuer in discovery document: ",
                cause,
            ),
        }
    }
}

/// Where `issuer` publishes its discovery document.
pub open spec fn well_known_url(issuer: Seq<char>) -> Seq<char> {
    text::trimmed_end(issuer, '/') + "/.well-known/openid-configuration"@
}

/// Well-known discovery document URL for `issuer`.
pub fn discovery_url(issuer: &str) -> (url: String)
    ensures
        url@ == well_known_url(issuer@),
{
    text::joined(text::trim_end(issuer, '/'), "/.well-known/openid-configuration")
}

/// An answer to a request for a discovery document.
#[derive(Debug)]
pub struct DiscoveryAnswer {
    /// HTTP status of the answer.
    pub status: u16,
    /// The status in words.
    pub reason: String,
    /// Why the HTTP client takes the answer for an error, where it does.
    pub refused: Option<String>,
    /// The `issuer` value of the document in the answer, or why there is none.
    pub issuer: Result<String, String>,
}

/// A [`DiscoveryAnswer`] as characters.
pub struct Answer {
    pub status: u16,
    pub reason: Seq<char>,
    pub refused: Option<Seq<char>>,
    pub issuer: Result<Seq<char>, Seq<char>>,
}

impl View for DiscoveryAnswer {
    type V = Answer;

    open spec fn view(&self) -> Answer {
        Answer {
            status: self.status,
            reason: self.reason@,
            refused: text::opt_chars(self.refused),
            issuer: text_chars(self.issuer),
        }
    }
}

/// What an answer says about the issuer. Only a 2xx answer says anything; any
/// other is an error in the words of the HTTP client, or by its status where
/// the client takes no offence (a redirect that leads nowhere).
pub open spec fn document_issuer(answer: Answer) -> Result<Seq<char>, Seq<char>> {
    if 200 <= answer.status <= 299 {
        answer.issuer
    } else {
        match answer.refused {
            Some(cause) => Err(cause),
            None => Err("HTTP status "@ + answer.reason),
        }
    }
}

/// The characters of an issuer, or of why there is none.
pub open spec fn text_chars(outcome: Result<String, String>) -> Result<Seq<char>, Seq<char>> {
    match outcome {
        Ok(t) => Ok(t@),
        Err(t) => Err(t@),
    }
}

/// What discovery settles on, given the answer or why there is none.
pub open spec fn advertised(fetched: Result<Answer, Seq<char>>) -> Result<
    Seq<char>,
    DiscoveryFailure,
> {
    match fetched {
        Err(cause) => Err(DiscoveryFailure::Fetch(cause)),
        Ok(answer) => match document_issuer(answer) {
            Err(cause) => Err(DiscoveryFailure::Fetch(cause)),
            Ok(issuer) => accepted_issuer(issuer, location::url_error(issuer)),
        },
    }
}

/// What discovery settles on, given whether the advertised issuer is a URL.
pub open spec fn accepted_issuer(issuer: Seq<char>, url_error: Option<Seq<char>>) -> Result<
    Seq<char>,
    DiscoveryFailure,
> {
    match url_error {
        None => Ok(issuer),
        Some(cause) => Err(DiscoveryFailure::InvalidIssuer(cause)),
    }
}

/// The characters of an answer, or of why there is none.
pub open spec fn fetched_chars(fetched: Result<DiscoveryAnswer, String>) -> Result<
    Answer,
    Seq<char>,
> {
    match fetched {
        Ok(answer) => Ok(answer@),
        Err(cause) => Err(cause@),
    }
}

/// The characters of an issuer, or the error in its place.
pub open spec fn issuer_chars(issuer: Result<String, DiscoveryError>) -> Result<
    Seq<char>,
    DiscoveryFailure,
> {
    match issuer {
        Ok(t) => Ok(t@),
        Err(e) => Err(e@),
    }
}

/// The `issuer` value of a discovery document, which only a 2xx answer holds.
pub fn answered_issuer(answer: DiscoveryAnswer) -> (issuer: Result<String, String>)
    ensures
        text_chars(issuer) == document_issuer(answer@),
{
    if 200 <= answer.status && answer.status <= 299 {
        answer.issuer
    } else {
        match answer.refused {
            Some(cause) => Err(cause),
            None => Err(text::joined("HTTP status ", &answer.reason)),
        }
    }
}

/// Settle on the *advertised* issuer rather than the configured one, given
/// the answer to the request for the discovery document (or why there is
/// none).
///
/// OIDC libraries commonly enforce byte-for-byte equality between the
/// expected issuer and the discovery document's `issuer` claim, so a provider
/// that starts advertising e.g. a trailing slash breaks any config that lacks
/// it. Validating tokens (or running `.discover()`) against the advertised
/// issuer makes such provider changes a no-op.
///
/// The returned string is the document's `issuer` value verbatim: it is
/// checked to parse as a URL but not re-serialized, to preserve equality.
pub fn discovered_issuer(fetched: Result<DiscoveryAnswer, String>) -> (issuer: Result<
    String,
    DiscoveryError,
>)
    ensures
        issuer_chars(issuer) == advertised(fetched_chars(fetched)),
{
    let answer = match fetched {
        Ok(answer) => answer,
        Err(cause) => return Err(DiscoveryError::Fetch(cause)),
    };
    match answered_issuer(answer) {
        Err(cause) => Err(DiscoveryError::Fetch(cause)),
        Ok(issuer) => {
            let parsed = location::parse_url(&issuer);
            issuer_if_url(issuer, parsed)
        },
    }
}

/// `issuer` unless the URL check refused it.
pub fn issuer_if_url(issuer: String, parsed: Result<(), String>) -> (checked: Result<
    String,
    DiscoveryError,
>)
    ensures
        match parsed {
            Ok(_) => checked == Ok::<String, DiscoveryError>(issuer),
            Err(cause) => checked == Err::<String, _>(DiscoveryError::InvalidIssuer(cause)),
        },
{
    match parsed {
        Ok(_) => Ok(issuer),
        Err(cause) => Err(DiscoveryError::InvalidIssuer(cause)),
    }
}

/// What discovery settles on is the `issuer` of a document in a 2xx answer,
/// letter for letter.
pub proof fn law_issuer_comes_from_a_successful_answer(fetched: Result<Answer, Seq<char>>)
    requires
        advertised(fetched) is Ok,
    ensures
        fetched is Ok,
        200 <= fetched->Ok_0.status <= 299,
        fetched->Ok_0.issuer == Ok::<Seq<char>, Seq<char>>(advertised(fetched)->Ok_0),
{
}

/// A trailing slash on the configured issuer makes no difference to where its
/// discovery document is looked for.
pub proof fn law_trailing_slash_is_ignored(issuer: Seq<char>)
    ensures
        well_known_url(issuer.push('/')) == well_known_url(issuer),
{
    text::lemma_trimmed_end_push(issuer, '/');
}

/// Issuers that differ in more than trailing slashes have their documents in
/// different places.
pub proof fn law_distinct_issuers_have_distinct_documents(issuer: Seq<char>, other: Seq<char>)
    ensures
        well_known_url(issuer) == well_known_url(other) <==> text::trimmed_end(issuer, '/')
            == text::trimmed_end(other, '/'),
{
    let a = text::trimmed_end(issuer, '/');
    let b = text::trimmed_end(other, '/');
    if well_known_url(issuer) == well_known_url(other) {
        let suffix = "/.well-known/openid-configuration"@;
        assert(well_known_url(issuer).len() == a.len() + suffix.len());
        assert(well_known_url(other).len() == b.len() + suffix.len());
        assert(well_known_url(issuer).take(a.len() as int) =~= a);
        assert(well_known_url(other).take(b.len() as int) =~= b);
    }
}

/// The discovery document lies at one fixed place below the issuer, however
/// many slashes the issuer ends in.
pub proof fn law_document_lies_below_the_issuer(base: Seq<char>, slashes: nat)
    requires
        base.len() == 0 || base.last() != '/',
    ensures
        well_known_url(base + Seq::new(slashes, |i: int| '/')) == base
            + "/.well-known/openid-configuration"@,
{
    text::law_trimming_undoes_appending(base, '/', slashes);
}

/// Each outcome of discovery comes exactly when it should. It settles on an
/// issuer when a 2xx answer holds one that is a URL, and then on that one as
/// it stands. The issuer is at fault when such an answer holds one that is no
/// URL. Otherwise the fetch is: because there was no answer, because it holds
/// no issuer, or because of its status.
pub proof fn law_discovery_outcomes(fetched: Result<Answer, Seq<char>>, issuer: Seq<char>)
    ensures
        ({
            let outcome = advertised(fetched);
            let answer = fetched->Ok_0;
            let good = fetched is Ok && 200 <= answer.status && answer.status <= 299;
            let held = good && answer.issuer is Ok;
            &&& outcome == Ok::<Seq<char>, DiscoveryFailure>(issuer) <==> good && answer.issuer
                == Ok::<Seq<char>, Seq<char>>(issuer) && location::url_error(issuer) is None
            &&& outcome is Err && outcome->Err_0 is InvalidIssuer <==> held && location::url_error(
                answer.issuer->Ok_0,
            ) is Some
            &&& outcome is Err && outcome->Err_0 is InvalidIssuer ==> outcome->Err_0
                == DiscoveryFailure::InvalidIssuer(location::url_error(answer.issuer->Ok_0)->0)
            &&& outcome is Err && outcome->Err_0 is Fetch <==> !held
            &&& fetched is Err ==> outcome == Err::<Seq<char>, _>(
                DiscoveryFailure::Fetch(fetched->Err_0),
            )
            &&& good && answer.issuer is Err ==> outcome == Err::<Seq<char>, _>(
                DiscoveryFailure::Fetch(answer.issuer->Err_0),
            )
            &&& fetched is Ok && !good && answer.refused is Some ==> outcome == Err::<Seq<char>, _>(
                DiscoveryFailure::Fetch(answer.refused->0),
            )
            &&& fetched is Ok && !good && answer.refused is None ==> outcome == Err::<Seq<char>, _>(
                DiscoveryFailure::Fetch("HTTP status "@ + answer.reason),
            )
        }),
{
}

/// What an answer says about the issuer depends on its status: a 2xx answer
/// says what it holds, any other says why it is none.
pub proof fn law_only_successful_answers_hold_an_issuer(answer: Answer)
    ensures
        200 <= answer.status && answer.status <= 299 ==> document_issuer(answer) == answer.issuer,
        answer.status < 200 || answer.status > 299 ==> document_issuer(answer) is Err,
        (answer.status < 200 || answer.status > 299) && answer.refused is Some ==> document_issuer(
            answer,
        )->Err_0 == answer.refused->0,
        (answer.status < 200 || answer.status > 299) && answer.refused is None ==> document_issuer(
            answer,
        )->Err_0 == "HTTP status "@ + answer.reason,
{
}

/// An error shows what went wrong, in front of the cause.
pub proof fn law_discovery_messages(cause: Seq<char>)
    ensures
        DiscoveryFailure::Fetch(cause).message() == "failed to fetch OIDC discovery: "@ + cause,
        DiscoveryFailure::InvalidIssuer(cause).message()
            == "invalid issuer in discovery document: "@ + cause,
{
}

/// What contracts say of an answer, an outcome or an error is said of all of
/// its parts.
pub proof fn law_discovery_views(
    answer: DiscoveryAnswer,
    text: String,
    outcome: Result<String, String>,
)
    ensures
        answer@.status == answer.status,
        answer@.reason == answer.reason@,
        answer.refused is None ==> answer@.refused is None,
        answer.refused is Some ==> answer@.refused == Some(answer.refused->0@),
        answer.issuer is Ok ==> answer@.issuer == Ok::<Seq<char>, Seq<char>>(
            answer.issuer->Ok_0@,
        ),
        answer.issuer is Err ==> answer@.issuer == Err::<Seq<char>, _>(answer.issuer->Err_0@),
        outcome is Ok ==> text_chars(outcome) == Ok::<Seq<char>, Seq<char>>(outcome->Ok_0@),
        outcome is Err ==> text_chars(outcome) == Err::<Seq<char>, _>(outcome->Err_0@),
        fetched_chars(Ok(answer)) == Ok::<Answer, Seq<char>>(answer@),
        fetched_chars(Err(text)) == Err::<Answer, _>(text@),
        DiscoveryError::Fetch(text)@ == DiscoveryFailure::Fetch(text@),
        DiscoveryError::InvalidIssuer(text)@ == DiscoveryFailure::InvalidIssuer(text@),
        issuer_chars(Ok(text)) == Ok::<Seq<char>, DiscoveryFailure>(text@),
        issuer_chars(Err(DiscoveryError::Fetch(text))) == Err::<Seq<char>, _>(
            DiscoveryFailure::Fetch(text@),
        ),
        issuer_chars(Err(DiscoveryError::InvalidIssuer(text))) == Err::<Seq<char>, _>(
            DiscoveryFailure::InvalidIssuer(text@),
        ),
{
}

} // verus!
