//! CSRF protection.
//!
//! Wraps tower-http's `CsrfLayer`, which enforces the cross-origin check from
//! the Go 1.25 scheme: mutating requests (POST/PUT/DELETE/PATCH) are rejected
//! with 403 unless `Sec-Fetch-Site` reports same-origin/none, or the request's
//! `Origin` matches the service. No per-request token state, so the frontend
//! needs no CSRF header.

use vstd::prelude::*;

use crate::location;

verus! {

/// `tower_http::csrf::CsrfLayer`, known by the origins it trusts.
#[verifier::external_type_specification]
#[verifier::external_body]
#[verifier::reject_recursive_types(T)]
pub struct ExCsrfLayer<T>(tower_http::csrf::CsrfLayer<T>);

/// `tower_http::csrf::DefaultResponseForProtectionError`, how such a layer
/// answers what it rejects.
#[verifier::external_type_specification]
#[verifier::external_body]
pub struct ExDefaultResponse(tower_http::csrf::DefaultResponseForProtectionError);

/// The origins that a layer lets mutating requests come from.
pub uninterp spec fn trusted_origins(layer: tower_http::csrf::CsrfLayer) -> Set<Seq<char>>;

/// Why a layer does not take `origin` for a trusted origin, `None` where it
/// does.
pub uninterp spec fn origin_error(origin: Seq<char>) -> Option<Seq<char>>;

/// Whether `origin` has the form that a layer takes for a trusted origin.
pub open spec fn is_origin(origin: Seq<char>) -> bool {
    origin_error(origin) is None
}

/// `tower_http::csrf::CsrfLayer::new`: a layer that trusts no origin.
#[verifier::external_body]
fn new_layer() -> (layer: tower_http::csrf::CsrfLayer)
    ensures
        trusted_origins(layer) == Set::<Seq<char>>::empty(),
{
    tower_http::csrf::CsrfLayer::new()
}

/// `tower_http::csrf::CsrfLayer::add_trusted_origin`: it depends on the origin
/// alone whether it is taken, and with which `ConfigError` it is refused. One
/// that is taken joins the trusted origins as it is written.
#[verifier::external_body]
fn add_trusted_origin(layer: tower_http::csrf::CsrfLayer, origin: &str) -> (added: Result<
    tower_http::csrf::CsrfLayer,
    String,
>)
    ensures
        match added {
            Ok(grown) => origin_error(origin@) is None && trusted_origins(grown)
                == trusted_origins(layer).insert(origin@),
            Err(message) => origin_error(origin@) == Some(message@),
        },
{
    layer.add_trusted_origin(origin).map_err(|e| e.to_string())
}

/// Why no origin is trusted, so that `Sec-Fetch-Site` alone is relied on.
#[derive(Debug)]
pub enum OriginProblem {
    /// The public URL cannot be parsed, for this reason.
    UnparsableUrl(String),
    /// The origin of the public URL is no usable one, for this reason.
    InvalidOrigin(String, String),
}

/// An [`OriginProblem`] as characters.
pub enum OriginFailure {
    UnparsableUrl(Seq<char>),
    InvalidOrigin(Seq<char>, Seq<char>),
}

impl View for OriginProblem {
    type V = OriginFailure;

    open spec fn view(&self) -> OriginFailure {
        match self {
            OriginProblem::UnparsableUrl(cause) => OriginFailure::UnparsableUrl(cause@),
            OriginProblem::InvalidOrigin(origin, cause) => OriginFailure::InvalidOrigin(
                origin@,
                cause@,
            ),
        }
    }
}

/// What stands in the way of trusting the origin of `public_url`.
pub open spec fn origin_failure(public_url: Seq<char>) -> Option<OriginFailure> {
    match location::url_error(public_url) {
        Some(cause) => Some(OriginFailure::UnparsableUrl(cause)),
        None => match origin_error(location::url_origin(public_url)) {
            Some(cause) => Some(
                OriginFailure::InvalidOrigin(location::url_origin(public_url), cause),
            ),
            None => None,
        },
    }
}

/// The origins to trust, given the service's own origin and whether it is a
/// usable one.
pub open spec fn own_origin(origin: Seq<char>, usable: bool) -> Set<Seq<char>> {
    if usable {
        set![origin]
    } else {
        Set::empty()
    }
}

/// The origins to trust for a service at `public_url`.
pub open spec fn service_origins(public_url: Seq<char>) -> Set<Seq<char>> {
    match location::url_error(public_url) {
        Some(_) => Set::empty(),
        None => own_origin(
            location::url_origin(public_url),
            is_origin(location::url_origin(public_url)),
        ),
    }
}

/// The layer that an origin was added to, or one that trusts nobody where the
/// origin was refused.
pub fn layer_or_untrusting(
    added: Result<tower_http::csrf::CsrfLayer, String>,
) -> (layer: tower_http::csrf::CsrfLayer)
    ensures
        match added {
            Ok(grown) => layer == grown,
            Err(_) => trusted_origins(layer) == Set::<Seq<char>>::empty(),
        },
{
    match added {
        Ok(layer) => layer,
        Err(_) => new_layer(),
    }
}

/// The layer that trusts `origin`, or nobody when there is none or it has not
/// the form of an origin.
pub fn layer_trusting(origin: Result<String, String>) -> (layer: tower_http::csrf::CsrfLayer)
    ensures
        trusted_origins(layer) == match origin {
            Ok(text) => own_origin(text@, is_origin(text@)),
            Err(_) => Set::empty(),
        },
{
    match origin {
        Err(_) => new_layer(),
        Ok(text) => {
            let added = add_trusted_origin(new_layer(), &text);
            assert(added matches Ok(layer) ==> trusted_origins(layer) =~= set![text@]);
            layer_or_untrusting(added)
        },
    }
}

/// Build the shared CSRF protection layer.
///
/// `public_url` is the service's own public URL. Its origin
/// (`scheme://host[:port]`) is registered as a trusted origin so same-origin
/// mutating requests still pass when a reverse proxy rewrites `Host`. Modern
/// browsers are covered by `Sec-Fetch-Site` regardless; a URL that cannot be
/// reduced to a usable origin is skipped, not treated as fatal;
/// [`origin_problem`] says why, for the log.
pub fn build_csrf_layer(public_url: &str) -> (layer: tower_http::csrf::CsrfLayer)
    ensures
        trusted_origins(layer) == service_origins(public_url@),
{
    layer_trusting(location::parse_origin(public_url))
}

/// Why the layer of [`build_csrf_layer`] trusts no origin, `None` when it
/// trusts the service's own.
pub fn origin_problem(public_url: &str) -> (problem: Option<OriginProblem>)
    ensures
        match origin_failure(public_url@) {
            Some(failure) => problem is Some && problem->0@ == failure,
            None => problem is None,
        },
{
    let origin = match location::parse_origin(public_url) {
        Ok(origin) => origin,
        Err(cause) => return Some(OriginProblem::UnparsableUrl(cause)),
    };
    match add_trusted_origin(new_layer(), &origin) {
        Ok(_) => None,
        Err(cause) => Some(OriginProblem::InvalidOrigin(origin, cause)),
    }
}

/// Whenever no origin is trusted there is a reason to log, and only then.
pub proof fn law_untrusting_layers_have_a_reason(public_url: Seq<char>)
    ensures
        origin_failure(public_url) is Some <==> service_origins(public_url) == Set::<
            Seq<char>,
        >::empty(),
{
    if origin_failure(public_url) is None {
        assert(service_origins(public_url).contains(location::url_origin(public_url)));
    }
}

/// No origin but the service's own is ever trusted.
pub proof fn law_no_foreign_origin_is_trusted(public_url: Seq<char>, origin: Seq<char>)
    requires
        service_origins(public_url).contains(origin),
    ensures
        location::url_error(public_url) is None,
        origin == location::url_origin(public_url),
        is_origin(origin),
{
}

/// The origin of a public URL that can be parsed is trusted, alone and as it is
/// written, unless the layer does not take it. Otherwise nothing is trusted.
pub proof fn law_trusted_origins(public_url: Seq<char>, origin: Seq<char>)
    ensures
        service_origins(public_url).contains(origin) <==> location::url_error(public_url) is None
            && origin == location::url_origin(public_url) && origin_error(origin) is None,
{
}

/// The reason for trusting nobody is the URL's where that cannot be parsed, and
/// else the origin's, with the origin.
pub proof fn law_reasons_for_trusting_nobody(public_url: Seq<char>)
    ensures
        ({
            let problem = origin_failure(public_url);
            let unparsable = location::url_error(public_url);
            let origin = location::url_origin(public_url);
            &&& unparsable is Some ==> problem == Some(OriginFailure::UnparsableUrl(unparsable->0))
            &&& unparsable is None && origin_error(origin) is Some ==> problem == Some(
                OriginFailure::InvalidOrigin(origin, origin_error(origin)->0),
            )
            &&& unparsable is None && origin_error(origin) is None ==> problem is None
        }),
{
}

/// An origin is trusted alone where it is usable, and not at all otherwise.
pub proof fn law_usable_origins(origin: Seq<char>, other: Seq<char>, usable: bool)
    ensures
        own_origin(origin, usable).contains(other) <==> usable && other == origin,
        is_origin(origin) <==> origin_error(origin) is None,
{
}

/// What contracts say of a problem is said of all of its parts.
pub proof fn law_csrf_views(origin: String, cause: String)
    ensures
        OriginProblem::UnparsableUrl(cause)@ == OriginFailure::UnparsableUrl(cause@),
        OriginProblem::InvalidOrigin(origin, cause)@ == OriginFailure::InvalidOrigin(
            origin@,
            cause@,
        ),
{
}

} // verus!
