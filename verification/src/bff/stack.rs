//! Turn-key assembly of the BFF auth stack.

use vstd::prelude::*;

use super::session;
use super::session::SessionLayer;
use super::{BffConfig, GroupsClaims};
use crate::discovery;
use crate::discovery::{DiscoveryError, DiscoveryFailure};
use crate::location;
use crate::refresh;
use crate::refresh::RefreshTask;
use crate::status::StatusCode;
use crate::text;

verus! {

/// Errors from [`BffAuth::connect`].
#[derive(Debug)]
pub enum BffError {
    /// Discovery did not settle on an issuer.
    Discovery(DiscoveryError),
    /// The advertised issuer cannot be used as an issuer URL.
    InvalidIssuer(String),
    /// The public URL cannot be used as a redirect target.
    PublicUrl(String),
    /// The OIDC client could not be set up.
    Oidc(String),
}

/// A [`BffError`] with its text as characters.
pub enum BffFailure {
    Discovery(DiscoveryFailure),
    InvalidIssuer(Seq<char>),
    PublicUrl(Seq<char>),
    Oidc(Seq<char>),
}

impl View for BffError {
    type V = BffFailure;

    open spec fn view(&self) -> BffFailure {
        match self {
            BffError::Discovery(e) => BffFailure::Discovery(e@),
            BffError::InvalidIssuer(cause) => BffFailure::InvalidIssuer(cause@),
            BffError::PublicUrl(cause) => BffFailure::PublicUrl(cause@),
            BffError::Oidc(cause) => BffFailure::Oidc(cause@),
        }
    }
}

impl BffFailure {
    /// The text shown for the error.
    pub open spec fn message(self) -> Seq<char> {
        match self {
            BffFailure::Discovery(e) => "OIDC discovery failed: "@ + e.message(),
            BffFailure::InvalidIssuer(cause) => "advertised issuer is not a valid issuer URL: "@
                + cause,
            BffFailure::PublicUrl(cause) => "public URL is not a valid URI: "@ + cause,
            BffFailure::Oidc(cause) => "OIDC client setup failed: "@ + cause,
        }
    }
}

impl BffError {
    /// The text shown for the error.
    pub fn message(&self) -> (shown: String)
        ensures
            shown@ == self@.message(),
    {
        match self {
            BffError::Discovery(e) => text::joined("OIDC discovery failed: ", &e.message()),
            BffError::InvalidIssuer(cause) => text::joined(
                "advertised issuer is not a valid issuer URL: ",
                cause,
            ),
            BffError::PublicUrl(cause) => text::joined("public URL is not a valid URI: ", cause),
            BffError::Oidc(cause) => text::joined("OIDC client setup failed: ", cause),
        }
    }
}

impl From<DiscoveryError> for BffError {
    fn from(e: DiscoveryError) -> (wrapped: Self) {
        BffError::Discovery(e)
    }
}

impl vstd::std_specs::convert::FromSpecImpl<DiscoveryError> for BffError {
    open spec fn obeys_from_spec() -> bool {
        true
    }

    open spec fn from_spec(e: DiscoveryError) -> Self {
        BffError::Discovery(e)
    }
}

/// Options for [`BffAuth::connect`]. Start from [`BffOptions::with_defaults`]
/// and override.
#[derive(Debug)]
pub struct BffOptions {
    /// Session cookie name; unique per service so simultaneous sessions work.
    pub cookie_name: &'static str,
    /// Where `/auth/login` redirects after a completed login.
    pub post_login_redirect: String,
    /// Where a failed `/auth/callback` redirects after flushing the session.
    pub callback_error_redirect: String,
    /// When set, every attached route and `/auth/me` require membership in
    /// this group: 401 without a session, 403 without the group.
    pub require_group: Option<String>,
    /// OIDC scopes to request. The `groups` claim usually needs a scope of
    /// its own.
    pub scopes: Vec<String>,
    /// `Secure` flag on the session cookie.
    pub secure_cookies: bool,
}

/// [`BffOptions`] as characters.
pub struct Options {
    pub cookie_name: Seq<char>,
    pub post_login_redirect: Seq<char>,
    pub callback_error_redirect: Seq<char>,
    pub require_group: Option<Seq<char>>,
    pub scopes: Seq<Seq<char>>,
    pub secure_cookies: bool,
}

impl View for BffOptions {
    type V = Options;

    open spec fn view(&self) -> Options {
        Options {
            cookie_name: self.cookie_name@,
            post_login_redirect: self.post_login_redirect@,
            callback_error_redirect: self.callback_error_redirect@,
            require_group: text::opt_chars(self.require_group),
            scopes: text::all_chars(self.scopes@),
            secure_cookies: self.secure_cookies,
        }
    }
}

impl BffOptions {
    /// The default options. Whether cookies are `Secure` by default is for the
    /// build to say: release builds want it, local HTTP development does not.
    pub fn with_defaults(secure_cookies: bool) -> (options: Self)
        ensures
            options@ == (Options {
                cookie_name: "sid"@,
                post_login_redirect: "/"@,
                callback_error_redirect: "/auth/clear"@,
                require_group: None,
                scopes: seq!["profile"@, "email"@, "groups"@],
                secure_cookies,
            }),
            path_of(Endpoint::Clear) == Some(options@.callback_error_redirect),
    {
        let options = BffOptions {
            cookie_name: "sid",
            post_login_redirect: "/".to_owned(),
            callback_error_redirect: "/auth/clear".to_owned(),
            require_group: None,
            scopes: vec!["profile".to_owned(), "email".to_owned(), "groups".to_owned()],
            secure_cookies,
        };
        assert(options@.scopes =~= seq!["profile"@, "email"@, "groups"@]);
        options
    }
}

/// What a session knows about its user.
#[derive(Debug)]
pub struct SessionClaims {
    /// OIDC subject identifier.
    pub sub: String,
    /// Email address.
    pub email: Option<String>,
    /// Full name.
    pub name: Option<String>,
    /// Given name.
    pub given_name: Option<String>,
    /// Family name.
    pub family_name: Option<String>,
    /// Group memberships.
    pub additional_claims: GroupsClaims,
}

/// [`SessionClaims`] as characters.
pub struct User {
    pub sub: Seq<char>,
    pub email: Option<Seq<char>>,
    pub name: Option<Seq<char>>,
    pub given_name: Option<Seq<char>>,
    pub family_name: Option<Seq<char>>,
    pub groups: Seq<Seq<char>>,
}

impl View for SessionClaims {
    type V = User;

    open spec fn view(&self) -> User {
        User {
            sub: self.sub@,
            email: text::opt_chars(self.email),
            name: text::opt_chars(self.name),
            given_name: text::opt_chars(self.given_name),
            family_name: text::opt_chars(self.family_name),
            groups: self.additional_claims@,
        }
    }
}

/// What an optional session knows about its user.
pub open spec fn opt_user(claims: Option<SessionClaims>) -> Option<User> {
    match claims {
        Some(claims) => Some(claims@),
        None => None,
    }
}

/// User info returned by `GET /auth/me`.
#[derive(Debug)]
pub struct AuthMeResponse {
    /// OIDC subject identifier.
    pub sub: String,
    /// Email address.
    pub email: Option<String>,
    /// Display name (`name` claim, falling back to given + family name).
    pub name: Option<String>,
    /// Group memberships.
    pub groups: Vec<String>,
}

/// An [`AuthMeResponse`] as characters.
pub struct Profile {
    pub sub: Seq<char>,
    pub email: Option<Seq<char>>,
    pub name: Option<Seq<char>>,
    pub groups: Seq<Seq<char>>,
}

impl View for AuthMeResponse {
    type V = Profile;

    open spec fn view(&self) -> Profile {
        Profile {
            sub: self.sub@,
            email: text::opt_chars(self.email),
            name: text::opt_chars(self.name),
            groups: text::all_chars(self.groups@),
        }
    }
}

/// Whether a user may pass: 401 without a session, 403 when `group` is set and
/// not held.
pub open spec fn passage(user: Option<User>, group: Option<Seq<char>>) -> Result<(), StatusCode> {
    match user {
        None => Err(StatusCode::Unauthorized),
        Some(user) => match group {
            Some(group) => if user.groups.contains(group) {
                Ok(())
            } else {
                Err(StatusCode::Forbidden)
            },
            None => Ok(()),
        },
    }
}

/// 401 without a session, 403 when `group` is set and not held.
pub fn check_group(claims: Option<&SessionClaims>, group: Option<&str>) -> (outcome: Result<
    (),
    StatusCode,
>)
    ensures
        outcome == passage(
            match claims {
                Some(claims) => Some(claims@),
                None => None,
            },
            text::opt_str_chars(group),
        ),
{
    let claims = match claims {
        Some(claims) => claims,
        None => return Err(StatusCode::Unauthorized),
    };
    match group {
        Some(group) => if claims.additional_claims.has_group(group) {
            Ok(())
        } else {
            Err(StatusCode::Forbidden)
        },
        None => Ok(()),
    }
}

/// The name to show for a user: `name`, then `given_name` + `family_name`.
pub open spec fn display_name(
    name: Option<Seq<char>>,
    given_name: Option<Seq<char>>,
    family_name: Option<Seq<char>>,
) -> Option<Seq<char>> {
    match name {
        Some(name) => Some(name),
        None => match (given_name, family_name) {
            (Some(given), Some(family)) => Some(given + " "@ + family),
            (Some(given), None) => Some(given),
            (None, Some(family)) => Some(family),
            (None, None) => None,
        },
    }
}

/// What `GET /auth/me` answers.
pub open spec fn profile(user: Option<User>, group: Option<Seq<char>>) -> Result<
    Profile,
    StatusCode,
> {
    match passage(user, group) {
        Err(status) => Err(status),
        Ok(_) => {
            let user = user->0;
            Ok(
                Profile {
                    sub: user.sub,
                    email: user.email,
                    name: display_name(user.name, user.given_name, user.family_name),
                    groups: user.groups,
                },
            )
        },
    }
}

/// The name to show for a user.
fn shown_name(
    name: Option<String>,
    given_name: Option<String>,
    family_name: Option<String>,
) -> (shown: Option<String>)
    ensures
        text::opt_chars(shown) == display_name(
            text::opt_chars(name),
            text::opt_chars(given_name),
            text::opt_chars(family_name),
        ),
{
    if name.is_some() {
        return name;
    }
    match (given_name, family_name) {
        (Some(given), Some(family)) => {
            let mut both = text::joined(&given, " ");
            both.append(&family);
            Some(both)
        },
        (Some(given), None) => Some(given),
        (None, Some(family)) => Some(family),
        (None, None) => None,
    }
}

/// Handler for `GET /auth/me`.
pub fn auth_me(claims: Option<SessionClaims>, require_group: Option<&str>) -> (answer: Result<
    AuthMeResponse,
    StatusCode,
>)
    ensures
        match profile(opt_user(claims), text::opt_str_chars(require_group)) {
            Ok(expected) => answer is Ok && answer->Ok_0@ == expected,
            Err(status) => answer == Err::<AuthMeResponse, _>(status),
        },
        answer matches Ok(me) ==> claims is Some && {
            let claims = claims->0;
            &&& me.sub@ == claims.sub@
            &&& me.email == claims.email
            &&& me.groups == claims.additional_claims.groups
            &&& claims.name is Some ==> me.name is Some && me.name->0@ == claims.name->0@
        },
{
    match check_group(claims.as_ref(), require_group) {
        Ok(_) => {},
        Err(status) => return Err(status),
    }
    match claims {
        None => Err(StatusCode::Unauthorized),
        Some(claims) => Ok(
            AuthMeResponse {
                sub: claims.sub,
                email: claims.email,
                name: shown_name(claims.name, claims.given_name, claims.family_name),
                groups: claims.additional_claims.groups,
            },
        ),
    }
}

/// What becomes of the response to an OIDC callback.
#[derive(Debug)]
pub enum CallbackAnswer {
    /// It goes out as it is.
    Forward,
    /// Nothing of it goes out: the session is flushed and the browser
    /// redirected there.
    FlushAndRedirect(String),
}

/// Rewrite a failed OIDC callback into a session-flushing redirect.
///
/// The callback handler renders its errors as a bare 500 (stale auth code,
/// PKCE/state mismatch, etc.). Without this the user sees a raw "internal
/// server error" and, with the broken session still set, retrying loops.
pub fn recover_oidc_callback_error(status: u16, redirect_to: &str) -> (answer: CallbackAnswer)
    ensures
        match answer {
            CallbackAnswer::Forward => !(500 <= status <= 599),
            CallbackAnswer::FlushAndRedirect(to) => 500 <= status <= 599 && to@ == redirect_to@,
        },
{
    if 500 <= status && status <= 599 {
        CallbackAnswer::FlushAndRedirect(redirect_to.to_owned())
    } else {
        CallbackAnswer::Forward
    }
}

/// What the OIDC client is set up with.
pub struct ClientSettings {
    /// The issuer to discover and to rediscover, as advertised.
    pub issuer: String,
    /// OIDC client id.
    pub client_id: String,
    /// OIDC client secret.
    pub client_secret: String,
    /// Where the provider redirects after a login.
    pub redirect_url: String,
    /// The scopes to request, in order.
    pub scopes: Vec<String>,
}

/// [`ClientSettings`] as characters.
pub struct Client {
    pub issuer: Seq<char>,
    pub client_id: Seq<char>,
    pub client_secret: Seq<char>,
    pub redirect_url: Seq<char>,
    pub scopes: Seq<Seq<char>>,
}

impl View for ClientSettings {
    type V = Client;

    open spec fn view(&self) -> Client {
        Client {
            issuer: self.issuer@,
            client_id: self.client_id@,
            client_secret: self.client_secret@,
            redirect_url: self.redirect_url@,
            scopes: text::all_chars(self.scopes@),
        }
    }
}

/// The connected BFF auth stack: client settings, redirect targets, session
/// and CSRF layers.
///
/// Build with [`BffAuth::connect`], then mount what [`BffAuth::attach`] lists.
pub struct BffAuth {
    /// What the OIDC client is set up with.
    pub client: ClientSettings,
    /// Where the provider redirects after an RP-initiated logout.
    pub post_logout_uri: String,
    /// Signed-cookie session layer.
    pub session_layer: SessionLayer,
    /// Cross-origin request rejection.
    pub csrf_layer: tower_http::csrf::CsrfLayer,
    /// Background rediscovery, unless disabled.
    pub rediscovery: Option<RefreshTask>,
    /// Behavior options.
    pub opts: BffOptions,
}

/// What a [`BffAuth`] holds.
pub struct BffState {
    pub client: Client,
    pub post_logout_uri: Seq<char>,
    pub session: session::SessionSettings,
    pub trusted_origins: Set<Seq<char>>,
    pub rediscovery: Option<RefreshTask>,
    pub opts: Options,
}

impl View for BffAuth {
    type V = BffState;

    open spec fn view(&self) -> BffState {
        BffState {
            client: self.client@,
            post_logout_uri: self.post_logout_uri@,
            session: self.session_layer@,
            trusted_origins: super::csrf::trusted_origins(self.csrf_layer),
            rediscovery: self.rediscovery,
            opts: self.opts@,
        }
    }
}

/// The public URL without trailing slashes.
pub open spec fn public_base(public_url: Seq<char>) -> Seq<char> {
    text::trimmed_end(public_url, '/')
}

/// The login callback below the public URL.
pub open spec fn callback_url(public_url: Seq<char>) -> Seq<char> {
    public_base(public_url) + "/auth/callback"@
}

/// The stack for an issuer that has been settled on.
pub open spec fn assembled(
    config: BffConfig,
    public_url: Seq<char>,
    opts: Options,
    issuer: Seq<char>,
) -> BffState {
    BffState {
        client: Client {
            issuer,
            client_id: config.client_id@,
            client_secret: config.client_secret@,
            redirect_url: callback_url(public_url),
            scopes: opts.scopes,
        },
        post_logout_uri: public_base(public_url),
        session: session::session_settings(opts.cookie_name, opts.secure_cookies),
        trusted_origins: super::csrf::service_origins(public_base(public_url)),
        rediscovery: refresh::spawned(config.discovery_refresh_interval_seconds),
        opts,
    }
}

/// The first thing that is wrong with an issuer and two redirect targets, in
/// the order in which they are looked at.
pub open spec fn first_failure(
    issuer_error: Option<Seq<char>>,
    redirect_error: Option<Seq<char>>,
    post_logout_error: Option<Seq<char>>,
) -> Option<BffFailure> {
    match issuer_error {
        Some(cause) => Some(BffFailure::InvalidIssuer(cause)),
        None => match redirect_error {
            Some(cause) => Some(BffFailure::PublicUrl(cause)),
            None => match post_logout_error {
                Some(cause) => Some(BffFailure::PublicUrl(cause)),
                None => None,
            },
        },
    }
}

/// What connecting comes to, given what discovery came to.
pub open spec fn connected(
    config: BffConfig,
    public_url: Seq<char>,
    opts: Options,
    discovered: Result<Seq<char>, DiscoveryFailure>,
) -> Result<BffState, BffFailure> {
    match discovered {
        Err(e) => Err(BffFailure::Discovery(e)),
        Ok(issuer) => match first_failure(
            location::url_error(issuer),
            location::uri_error(callback_url(public_url)),
            location::uri_error(public_base(public_url)),
        ) {
            Some(e) => Err(e),
            None => Ok(assembled(config, public_url, opts, issuer)),
        },
    }
}

/// The text of a failed check.
pub open spec fn check_error(outcome: Result<(), String>) -> Option<Seq<char>> {
    match outcome {
        Ok(_) => None,
        Err(cause) => Some(cause@),
    }
}

/// The first of three checks that failed: the issuer, the login callback, the
/// logout target.
pub fn first_error(
    issuer: Result<(), String>,
    redirect: Result<(), String>,
    post_logout: Result<(), String>,
) -> (outcome: Result<(), BffError>)
    ensures
        match first_failure(check_error(issuer), check_error(redirect), check_error(post_logout)) {
            Some(e) => outcome is Err && outcome->Err_0@ == e,
            None => outcome is Ok,
        },
{
    match issuer {
        Err(cause) => return Err(BffError::InvalidIssuer(cause)),
        Ok(_) => {},
    }
    match redirect {
        Err(cause) => return Err(BffError::PublicUrl(cause)),
        Ok(_) => {},
    }
    match post_logout {
        Err(cause) => Err(BffError::PublicUrl(cause)),
        Ok(_) => Ok(()),
    }
}

/// A layer around a route.
#[derive(Debug, Clone, Copy, PartialEq, Eq, Structural)]
pub enum Layer {
    /// Rejects cross-origin mutating requests.
    Csrf,
    /// Loads and saves the session.
    Session,
    /// Populates the claims; no redirect.
    OidcAuth,
    /// Forces a login (redirects to the provider when needed).
    OidcLogin,
    /// Rewrites a failed callback into a session-flushing redirect.
    CallbackRecovery,
    /// Requires membership in a group.
    GroupGate,
}

/// What is mounted.
#[derive(Debug, Clone, Copy, PartialEq, Eq, Structural)]
pub enum Endpoint {
    /// Says who is logged in.
    Me,
    /// Logs in.
    Login,
    /// Logs out.
    Logout,
    /// The application's own routes.
    Protected,
    /// Completes a login.
    Callback,
    /// Flushes the session.
    Clear,
}

/// Where an endpoint is mounted; the application's routes have paths of their
/// own.
pub open spec fn path_of(endpoint: Endpoint) -> Option<Seq<char>> {
    match endpoint {
        Endpoint::Me => Some("/auth/me"@),
        Endpoint::Login => Some("/auth/login"@),
        Endpoint::Logout => Some("/auth/logout"@),
        Endpoint::Protected => None,
        Endpoint::Callback => Some("/auth/callback"@),
        Endpoint::Clear => Some("/auth/clear"@),
    }
}

/// Which requests a route answers.
#[derive(Debug, Clone, Copy, PartialEq, Eq, Structural)]
pub enum Method {
    /// GET (and HEAD, as for every GET route).
    Get,
    /// Every method.
    Any,
}

/// Which requests an endpoint answers; the application's routes have methods
/// of their own.
pub open spec fn method_of(endpoint: Endpoint) -> Option<Method> {
    match endpoint {
        Endpoint::Me => Some(Method::Get),
        Endpoint::Login => Some(Method::Get),
        Endpoint::Logout => Some(Method::Get),
        Endpoint::Protected => None,
        Endpoint::Callback => Some(Method::Any),
        Endpoint::Clear => Some(Method::Get),
    }
}

/// The layers around an endpoint, outermost first, where `gated` says whether
/// a group is required.
pub open spec fn layers_of(endpoint: Endpoint, gated: bool) -> Seq<Layer> {
    match endpoint {
        Endpoint::Me => seq![Layer::Csrf, Layer::Session, Layer::OidcAuth],
        Endpoint::Login => seq![Layer::Csrf, Layer::Session, Layer::OidcAuth, Layer::OidcLogin],
        Endpoint::Logout => seq![Layer::Csrf, Layer::Session, Layer::OidcAuth, Layer::OidcLogin],
        Endpoint::Protected => if gated {
            seq![Layer::Csrf, Layer::Session, Layer::OidcAuth, Layer::GroupGate]
        } else {
            seq![Layer::Csrf, Layer::Session, Layer::OidcAuth]
        },
        Endpoint::Callback => seq![
            Layer::Csrf,
            Layer::Session,
            Layer::OidcAuth,
            Layer::CallbackRecovery,
        ],
        Endpoint::Clear => seq![Layer::Csrf, Layer::Session],
    }
}

/// An endpoint with its place and its layers.
#[derive(Debug)]
pub struct Mount {
    /// What is mounted.
    pub endpoint: Endpoint,
    /// Where, unless the routes have paths of their own.
    pub path: Option<String>,
    /// Which requests it answers, unless the routes have methods of their own.
    pub method: Option<Method>,
    /// The layers around it, outermost first.
    pub layers: Vec<Layer>,
}

impl Mount {
    /// Whether the mount is that of its endpoint.
    pub open spec fn is_proper(self, gated: bool) -> bool {
        &&& text::opt_chars(self.path) == path_of(self.endpoint)
        &&& self.method == method_of(self.endpoint)
        &&& self.layers@ == layers_of(self.endpoint, gated)
    }
}

/// Where an endpoint is mounted.
pub fn endpoint_path(endpoint: Endpoint) -> (path: Option<String>)
    ensures
        text::opt_chars(path) == path_of(endpoint),
{
    match endpoint {
        Endpoint::Me => Some("/auth/me".to_owned()),
        Endpoint::Login => Some("/auth/login".to_owned()),
        Endpoint::Logout => Some("/auth/logout".to_owned()),
        Endpoint::Protected => None,
        Endpoint::Callback => Some("/auth/callback".to_owned()),
        Endpoint::Clear => Some("/auth/clear".to_owned()),
    }
}

/// Which requests an endpoint answers.
pub fn endpoint_method(endpoint: Endpoint) -> (method: Option<Method>)
    ensures
        method == method_of(endpoint),
{
    match endpoint {
        Endpoint::Me => Some(Method::Get),
        Endpoint::Login => Some(Method::Get),
        Endpoint::Logout => Some(Method::Get),
        Endpoint::Protected => None,
        Endpoint::Callback => Some(Method::Any),
        Endpoint::Clear => Some(Method::Get),
    }
}

/// The mount of an endpoint.
fn mount(endpoint: Endpoint, gated: bool) -> (mount: Mount)
    ensures
        mount.endpoint == endpoint,
        mount.is_proper(gated),
{
    let mut layers: Vec<Layer> = vec![Layer::Csrf, Layer::Session];
    match endpoint {
        Endpoint::Clear => {},
        _ => layers.push(Layer::OidcAuth),
    }
    match endpoint {
        Endpoint::Login => layers.push(Layer::OidcLogin),
        Endpoint::Logout => layers.push(Layer::OidcLogin),
        Endpoint::Callback => layers.push(Layer::CallbackRecovery),
        Endpoint::Protected => if gated {
            layers.push(Layer::GroupGate);
        },
        _ => {},
    }
    assert(layers@ =~= layers_of(endpoint, gated));
    Mount {
        endpoint,
        path: endpoint_path(endpoint),
        method: endpoint_method(endpoint),
        layers,
    }
}

/// Everything that is mounted, in order.
pub open spec fn endpoints() -> Seq<Endpoint> {
    seq![
        Endpoint::Me,
        Endpoint::Login,
        Endpoint::Logout,
        Endpoint::Protected,
        Endpoint::Callback,
        Endpoint::Clear,
    ]
}

/// Where an endpoint sends the browser. Login: on, once logged in. Logout:
/// back, by way of the provider. Callback: away, when it failed. Clear: to
/// start over.
pub open spec fn redirect_target(state: BffState, endpoint: Endpoint) -> Option<Seq<char>> {
    match endpoint {
        Endpoint::Login => Some(state.opts.post_login_redirect),
        Endpoint::Logout => Some(state.post_logout_uri),
        Endpoint::Callback => Some(state.opts.callback_error_redirect),
        Endpoint::Clear => path_of(Endpoint::Login),
        Endpoint::Me => None,
        Endpoint::Protected => None,
    }
}

/// The group whose membership an endpoint demands.
pub open spec fn demanded_group(state: BffState, endpoint: Endpoint) -> Option<Seq<char>> {
    match endpoint {
        Endpoint::Me => state.opts.require_group,
        Endpoint::Protected => state.opts.require_group,
        _ => None,
    }
}

impl BffAuth {
    /// Settle everything that depends on the configuration, on the public URL
    /// and on what discovery came to: the advertised issuer, or why there is
    /// none.
    ///
    /// `public_url` is the service's own public base URL (no trailing
    /// slash needed): it derives the OIDC redirect URL
    /// (`{public_url}/auth/callback`), the post-logout redirect, and the
    /// CSRF trusted origin.
    pub fn connect(
        config: &BffConfig,
        public_url: &str,
        opts: BffOptions,
        discovered: Result<String, DiscoveryError>,
    ) -> (outcome: Result<Self, BffError>)
        ensures
            match connected(*config, public_url@, opts@, discovery::issuer_chars(discovered)) {
                Ok(state) => outcome is Ok && outcome->Ok_0@ == state,
                Err(e) => outcome is Err && outcome->Err_0@ == e,
            },
            outcome matches Ok(bff) ==> {
                &&& discovered is Ok && bff.client.issuer@ == discovered->Ok_0@
                &&& bff.client.client_id@ == config.client_id@
                &&& bff.client.client_secret@ == config.client_secret@
                &&& bff.session_layer.cookie.name@ == opts.cookie_name@
                &&& bff.session_layer.cookie.secure == opts.secure_cookies
                &&& bff.opts == opts
            },
    {
        let issuer = match discovered {
            Ok(issuer) => issuer,
            Err(e) => return Err(BffError::from(e)),
        };
        let base = text::trim_end(public_url, '/');
        let redirect_url = text::joined(base, "/auth/callback");
        let checked = first_error(
            location::parse_issuer_url(&issuer),
            location::parse_uri(&redirect_url),
            location::parse_uri(base),
        );
        match checked {
            Err(e) => return Err(e),
            Ok(_) => {},
        }
        let client = ClientSettings {
            issuer,
            client_id: config.client_id.clone(),
            client_secret: config.client_secret.clone(),
            redirect_url,
            scopes: text::cloned_list(&opts.scopes),
        };
        Ok(
            BffAuth {
                client,
                post_logout_uri: base.to_owned(),
                session_layer: session::build_session_layer(opts.cookie_name, opts.secure_cookies),
                csrf_layer: super::csrf::build_csrf_layer(base),
                rediscovery: RefreshTask::spawn(config.discovery_refresh_interval_seconds),
                opts,
            },
        )
    }

    /// Go on once the OIDC client has discovered the issuer, or has failed to.
    pub fn discovered(self, outcome: Result<(), String>) -> (stack: Result<Self, BffError>)
        ensures
            match outcome {
                Ok(_) => stack == Ok::<Self, BffError>(self),
                Err(cause) => stack == Err::<Self, _>(BffError::Oidc(cause)),
            },
    {
        match outcome {
            Ok(_) => Ok(self),
            Err(cause) => Err(BffError::Oidc(cause)),
        }
    }

    /// Where an endpoint sends the browser: `/auth/login` a user who is logged
    /// in, `/auth/logout` by way of the provider, `/auth/callback` after a
    /// failure, `/auth/clear` always. The other endpoints redirect nobody.
    pub fn redirect_of(&self, endpoint: Endpoint) -> (to: Option<String>)
        ensures
            text::opt_chars(to) == redirect_target(self@, endpoint),
    {
        match endpoint {
            Endpoint::Login => Some(self.opts.post_login_redirect.clone()),
            Endpoint::Logout => Some(self.post_logout_uri.clone()),
            Endpoint::Callback => Some(self.opts.callback_error_redirect.clone()),
            Endpoint::Clear => endpoint_path(Endpoint::Login),
            Endpoint::Me => None,
            Endpoint::Protected => None,
        }
    }

    /// The group whose membership an endpoint demands: the required one for
    /// `/auth/me` and the application's routes, none elsewhere.
    pub fn group_of(&self, endpoint: Endpoint) -> (group: Option<String>)
        ensures
            text::opt_chars(group) == demanded_group(self@, endpoint),
    {
        match endpoint {
            Endpoint::Me | Endpoint::Protected => match &self.opts.require_group {
                Some(group) => Some(group.clone()),
                None => None,
            },
            _ => None,
        }
    }

    /// What to mount around the application's routes: the `/auth/*` routes and
    /// the layers.
    ///
    /// Layers, outermost first: CSRF, sessions, `/auth/clear`, OIDC auth
    /// (populates claims; returns 401 via handlers/gate, no redirect), then
    /// `/auth/login`+`/auth/logout` (these force a login), `/auth/me`,
    /// `/auth/callback`, and the protected routes.
    pub fn attach(&self) -> (mounts: Vec<Mount>)
        ensures
            mounts@.len() == endpoints().len(),
            forall|i: int|
                0 <= i < mounts@.len() ==> (#[trigger] mounts@[i]).endpoint == endpoints()[i]
                    && mounts@[i].is_proper(self@.opts.require_group is Some),
    {
        let gated = self.opts.require_group.is_some();
        vec![
            mount(Endpoint::Me, gated),
            mount(Endpoint::Login, gated),
            mount(Endpoint::Logout, gated),
            mount(Endpoint::Protected, gated),
            mount(Endpoint::Callback, gated),
            mount(Endpoint::Clear, gated),
        ]
    }
}

/// No two endpoints are mounted in the same place.
pub proof fn law_paths_are_distinct(endpoint: Endpoint, other: Endpoint)
    requires
        path_of(endpoint) is Some,
        path_of(other) is Some,
        endpoint != other,
    ensures
        path_of(endpoint) != path_of(other),
{
    reveal_strlit("/auth/me");
    reveal_strlit("/auth/login");
    reveal_strlit("/auth/logout");
    reveal_strlit("/auth/callback");
    reveal_strlit("/auth/clear");
    let a = path_of(endpoint)->0;
    let b = path_of(other)->0;
    assert(a.len() != b.len() || a[6] != b[6]);
}

/// The pieces fit together: a failed callback goes to its redirect and nowhere
/// else, and with the default options that is the clear route, from where the
/// browser is sent on to the login route.
pub proof fn law_failed_callback_restarts_the_login(state: BffState)
    requires
        path_of(Endpoint::Clear) == Some(state.opts.callback_error_redirect),
    ensures
        redirect_target(state, Endpoint::Callback) == path_of(Endpoint::Clear),
        redirect_target(state, Endpoint::Clear) == path_of(Endpoint::Login),
{
}

/// A gate stands around a route exactly when a group is demanded there, apart
/// from `/auth/me`, which holds its users to the same group itself.
pub proof fn law_gate_demands_the_required_group(state: BffState, endpoint: Endpoint)
    ensures
        layers_of(endpoint, state.opts.require_group is Some).contains(Layer::GroupGate) <==> (
        endpoint != Endpoint::Me && demanded_group(state, endpoint) is Some),
        demanded_group(state, Endpoint::Me) == demanded_group(state, Endpoint::Protected),
{
    law_gate_follows_the_required_group(endpoint, state.opts.require_group is Some);
}

/// Every route stands behind the CSRF layer, with the session layer next.
pub proof fn law_csrf_and_session_are_outermost(endpoint: Endpoint, gated: bool)
    ensures
        layers_of(endpoint, gated).len() >= 2,
        layers_of(endpoint, gated)[0] == Layer::Csrf,
        layers_of(endpoint, gated)[1] == Layer::Session,
{
}

/// Login and logout force a login and nothing else does; in particular the
/// application's routes and `/auth/me` answer with a status, not a redirect.
pub proof fn law_only_login_routes_redirect_to_the_provider(endpoint: Endpoint, gated: bool)
    ensures
        layers_of(endpoint, gated).contains(Layer::OidcLogin) <==> (endpoint == Endpoint::Login
            || endpoint == Endpoint::Logout),
{
    let layers = layers_of(endpoint, gated);
    if endpoint == Endpoint::Login || endpoint == Endpoint::Logout {
        assert(layers[3] == Layer::OidcLogin);
    }
}

/// A route has a method exactly when it has a path, and the login callback is
/// the only one that answers more than GET.
pub proof fn law_only_the_callback_answers_every_method(endpoint: Endpoint)
    ensures
        method_of(endpoint) is Some <==> path_of(endpoint) is Some,
        method_of(endpoint) == Some(Method::Any) <==> endpoint == Endpoint::Callback,
{
}

/// The session can be cleared without any OIDC layer in the way, so that it
/// works even with a corrupt session; every other route has its claims
/// populated.
pub proof fn law_clearing_needs_no_oidc(endpoint: Endpoint, gated: bool)
    ensures
        layers_of(endpoint, gated).contains(Layer::OidcAuth) <==> endpoint != Endpoint::Clear,
{
    let layers = layers_of(endpoint, gated);
    if endpoint != Endpoint::Clear {
        assert(layers[2] == Layer::OidcAuth);
    }
}

/// The application's routes are gated exactly when a group is required, and
/// nothing else is gated there.
pub proof fn law_gate_follows_the_required_group(endpoint: Endpoint, gated: bool)
    ensures
        layers_of(endpoint, gated).contains(Layer::GroupGate) <==> (endpoint == Endpoint::Protected
            && gated),
{
    let layers = layers_of(endpoint, gated);
    if endpoint == Endpoint::Protected && gated {
        assert(layers[3] == Layer::GroupGate);
    }
}

/// `/auth/me` and gated routes decide alike: the same users are refused, with the
/// same status.
pub proof fn law_me_and_gate_agree(user: Option<User>, group: Option<Seq<char>>)
    ensures
        profile(user, group) is Ok <==> passage(user, group) is Ok,
        passage(user, group) matches Err(status) ==> profile(user, group) == Err::<Profile, _>(
            status,
        ),
{
}

/// A missing session is answered with 401 and a missing group with 403;
/// nothing else is refused.
pub proof fn law_refusals_of_the_gate(user: Option<User>, group: Option<Seq<char>>)
    ensures
        passage(user, group) == Err::<(), _>(StatusCode::Unauthorized) <==> user is None,
        passage(user, group) == Err::<(), _>(StatusCode::Forbidden) <==> (user is Some
            && group is Some && !user->0.groups.contains(group->0)),
        StatusCode::Unauthorized.code() == 401,
        StatusCode::Forbidden.code() == 403,
{
}

/// A trailing slash on the public URL makes no difference to what is set up.
pub proof fn law_public_url_slash_is_ignored(
    config: BffConfig,
    public_url: Seq<char>,
    opts: Options,
    discovered: Result<Seq<char>, DiscoveryFailure>,
)
    ensures
        connected(config, public_url.push('/'), opts, discovered) == connected(
            config,
            public_url,
            opts,
            discovered,
        ),
{
    text::lemma_trimmed_end_push(public_url, '/');
}

/// The provider redirects a login to where the callback route is mounted.
pub proof fn law_redirect_reaches_the_callback_route(public_url: Seq<char>)
    ensures
        callback_url(public_url) == public_base(public_url) + path_of(Endpoint::Callback)->0,
{
}

/// The OIDC client discovers the advertised issuer, letter for letter, with
/// the configured id and secret and the chosen scopes in order.
pub proof fn law_client_gets_the_advertised_issuer(
    config: BffConfig,
    public_url: Seq<char>,
    opts: Options,
    answer: discovery::Answer,
)
    requires
        connected(config, public_url, opts, discovery::advertised(Ok(answer))) is Ok,
    ensures
        ({
            let client = connected(
                config,
                public_url,
                opts,
                discovery::advertised(Ok(answer)),
            )->Ok_0.client;
            &&& answer.issuer == Ok::<Seq<char>, Seq<char>>(client.issuer)
            &&& client.client_id == config.client_id@
            &&& client.client_secret == config.client_secret@
            &&& client.scopes == opts.scopes
        }),
{
}

/// The public URL without however many slashes it ends in is where a logout
/// leads, and the login callback lies below it.
pub proof fn law_targets_below_the_public_url(base: Seq<char>, slashes: nat)
    requires
        base.len() == 0 || base.last() != '/',
    ensures
        public_base(base + Seq::new(slashes, |i: int| '/')) == base,
        callback_url(base + Seq::new(slashes, |i: int| '/')) == base + "/auth/callback"@,
{
    text::law_trimming_undoes_appending(base, '/', slashes);
}

/// A stack that connects has every part of what it was given in its place: the
/// discovered issuer, the configured id, secret and interval, the chosen
/// scopes, cookie name and `Secure` flag, the targets below the public URL, the
/// shared session defaults, and the options themselves.
pub proof fn law_connected_stack(
    config: BffConfig,
    public_url: Seq<char>,
    opts: Options,
    issuer: Seq<char>,
)
    requires
        location::url_error(issuer) is None,
        location::uri_error(public_base(public_url) + "/auth/callback"@) is None,
        location::uri_error(public_base(public_url)) is None,
    ensures
        ({
            let outcome = connected(config, public_url, opts, Ok(issuer));
            let state = outcome->Ok_0;
            &&& outcome is Ok
            &&& state.client.issuer == issuer
            &&& state.client.client_id == config.client_id@
            &&& state.client.client_secret == config.client_secret@
            &&& state.client.redirect_url == public_base(public_url) + "/auth/callback"@
            &&& state.client.scopes == opts.scopes
            &&& state.post_logout_uri == public_base(public_url)
            &&& state.session.cookie.name == opts.cookie_name
            &&& state.session.cookie.secure == opts.secure_cookies
            &&& state.session.cookie.path == "/"@
            &&& state.session.cookie.same_site == session::SameSite::Lax
            &&& state.session.cookie.http_only
            &&& state.session.signed
            &&& state.session.always_save
            &&& state.session.inactivity_seconds == 604_800
            &&& state.trusted_origins == super::csrf::service_origins(public_base(public_url))
            &&& state.rediscovery is None <==> config.discovery_refresh_interval_seconds == 0
            &&& state.rediscovery is Some ==> state.rediscovery->0.period_seconds
                == config.discovery_refresh_interval_seconds && !state.rediscovery->0.started
            &&& state.opts == opts
        }),
{
}

/// A connection fails by the first thing that is wrong: discovery, the issuer
/// as an issuer URL, the login callback, the logout target.
pub proof fn law_failed_stacks(
    config: BffConfig,
    public_url: Seq<char>,
    opts: Options,
    discovered: Result<Seq<char>, DiscoveryFailure>,
)
    ensures
        ({
            let outcome = connected(config, public_url, opts, discovered);
            let issuer = location::url_error(discovered->Ok_0);
            let callback = location::uri_error(public_base(public_url) + "/auth/callback"@);
            let logout = location::uri_error(public_base(public_url));
            &&& discovered is Err ==> outcome == Err::<BffState, _>(
                BffFailure::Discovery(discovered->Err_0),
            )
            &&& discovered is Ok && issuer is Some ==> outcome == Err::<BffState, _>(
                BffFailure::InvalidIssuer(issuer->0),
            )
            &&& discovered is Ok && issuer is None && callback is Some ==> outcome == Err::<
                BffState,
                _,
            >(BffFailure::PublicUrl(callback->0))
            &&& discovered is Ok && issuer is None && callback is None && logout is Some
                ==> outcome == Err::<BffState, _>(BffFailure::PublicUrl(logout->0))
            &&& discovered is Ok && issuer is None && callback is None && logout is None
                <==> outcome is Ok
        }),
{
}

/// Of three checks the first that failed is reported.
pub proof fn law_first_failure(
    issuer: Option<Seq<char>>,
    redirect: Option<Seq<char>>,
    post_logout: Option<Seq<char>>,
)
    ensures
        ({
            let failure = first_failure(issuer, redirect, post_logout);
            &&& failure is None <==> issuer is None && redirect is None && post_logout is None
            &&& issuer is Some ==> failure == Some(BffFailure::InvalidIssuer(issuer->0))
            &&& issuer is None && redirect is Some ==> failure == Some(
                BffFailure::PublicUrl(redirect->0),
            )
            &&& issuer is None && redirect is None && post_logout is Some ==> failure == Some(
                BffFailure::PublicUrl(post_logout->0),
            )
        }),
{
}

/// A user passes exactly when there is a session and, where a group is asked
/// for, it is among the user's.
pub proof fn law_passage(user: Option<User>, group: Option<Seq<char>>)
    ensures
        passage(user, group) == Ok::<(), StatusCode>(()) <==> user is Some && (group is None
            || user->0.groups.contains(group->0)),
        user is None ==> passage(user, group) == Err::<(), _>(StatusCode::Unauthorized),
        user is Some && group is Some && !user->0.groups.contains(group->0) ==> passage(user, group)
            == Err::<(), _>(StatusCode::Forbidden),
{
}

/// A user who passes is shown as they are: subject, email and groups of the
/// session; its name wherever it has one, whatever the other two names are;
/// without one the given and the family name with a blank between, or the one
/// of them that there is, or none.
pub proof fn law_profiles_show_the_session(user: User, group: Option<Seq<char>>)
    requires
        group is None || user.groups.contains(group->0),
    ensures
        ({
            let answer = profile(Some(user), group);
            let shown = answer->Ok_0;
            &&& answer is Ok
            &&& shown.sub == user.sub
            &&& shown.email == user.email
            &&& shown.groups == user.groups
            &&& user.name is Some ==> shown.name == user.name
            &&& user.name is None && user.given_name is Some && user.family_name is Some
                ==> shown.name == Some(user.given_name->0 + " "@ + user.family_name->0)
            &&& user.name is None && user.given_name is Some && user.family_name is None
                ==> shown.name == user.given_name
            &&& user.name is None && user.given_name is None ==> shown.name == user.family_name
        }),
{
}

/// A name that there is is shown, and the fallback depends on nothing but the
/// other two.
pub proof fn law_displayed_names(
    name: Seq<char>,
    given: Option<Seq<char>>,
    family: Option<Seq<char>>,
)
    ensures
        display_name(Some(name), given, family) == Some(name),
        given is Some && family is Some ==> display_name(None, given, family) == Some(
            given->0 + " "@ + family->0,
        ),
        given is None ==> display_name(None, given, family) == family,
        family is None ==> display_name(None, given, family) == given,
{
}

/// Nobody is shown a profile who may not pass.
pub proof fn law_refused_profiles(user: Option<User>, group: Option<Seq<char>>)
    ensures
        user is None ==> profile(user, group) == Err::<Profile, _>(StatusCode::Unauthorized),
        user is Some && group is Some && !user->0.groups.contains(group->0) ==> profile(user, group)
            == Err::<Profile, _>(StatusCode::Forbidden),
{
}

/// The layers around each endpoint, outermost first: the CSRF and the session
/// layer around all, the OIDC layer around all but the clear route, and inside
/// that one layer at most: login around the two login routes, recovery around
/// the callback, a gate around the application's routes where a group is
/// required.
pub proof fn law_layers_in_order(endpoint: Endpoint, gated: bool)
    ensures
        ({
            let layers = layers_of(endpoint, gated);
            let login = endpoint == Endpoint::Login || endpoint == Endpoint::Logout;
            let callback = endpoint == Endpoint::Callback;
            let gate = endpoint == Endpoint::Protected && gated;
            &&& layers[0] == Layer::Csrf
            &&& layers[1] == Layer::Session
            &&& layers.len() == 2 <==> endpoint == Endpoint::Clear
            &&& layers.len() == 4 <==> login || callback || gate
            &&& 2 <= layers.len() <= 4
            &&& layers.len() > 2 ==> layers[2] == Layer::OidcAuth
            &&& login ==> layers[3] == Layer::OidcLogin
            &&& callback ==> layers[3] == Layer::CallbackRecovery
            &&& gate ==> layers[3] == Layer::GroupGate
        }),
{
}

/// The routes are mounted where the documentation puts them.
pub proof fn law_mounted_paths()
    ensures
        path_of(Endpoint::Me) == Some("/auth/me"@),
        path_of(Endpoint::Login) == Some("/auth/login"@),
        path_of(Endpoint::Logout) == Some("/auth/logout"@),
        path_of(Endpoint::Callback) == Some("/auth/callback"@),
        path_of(Endpoint::Clear) == Some("/auth/clear"@),
        path_of(Endpoint::Protected) is None,
{
}

/// Every endpoint is mounted, and none twice.
pub proof fn law_every_endpoint_is_mounted_once(endpoint: Endpoint)
    ensures
        endpoints().contains(endpoint),
        endpoints().no_duplicates(),
        endpoints().len() == 6,
{
    let all = endpoints();
    assert(all[0] == Endpoint::Me && all[1] == Endpoint::Login && all[2] == Endpoint::Logout);
    assert(all[3] == Endpoint::Protected && all[4] == Endpoint::Callback);
    assert(all[5] == Endpoint::Clear);
}

/// A mount is proper exactly when its path, its method and its layers are those
/// of its endpoint.
pub proof fn law_proper_mounts(mount: Mount, gated: bool)
    ensures
        mount.is_proper(gated) <==> {
            &&& mount.path is None <==> path_of(mount.endpoint) is None
            &&& mount.path is Some ==> path_of(mount.endpoint) == Some(mount.path->0@)
            &&& mount.method == method_of(mount.endpoint)
            &&& mount.layers@ == layers_of(mount.endpoint, gated)
        },
{
}

/// All routes but the callback answer GET alone; the application's have methods
/// of their own.
pub proof fn law_route_methods()
    ensures
        method_of(Endpoint::Me) == Some(Method::Get),
        method_of(Endpoint::Login) == Some(Method::Get),
        method_of(Endpoint::Logout) == Some(Method::Get),
        method_of(Endpoint::Clear) == Some(Method::Get),
        method_of(Endpoint::Callback) == Some(Method::Any),
        method_of(Endpoint::Protected) is None,
{
}

/// Each endpoint redirects by its own option, whatever the others are; the
/// group is demanded of the application's routes and of `/auth/me` alone.
pub proof fn law_redirects_and_groups(state: BffState)
    ensures
        redirect_target(state, Endpoint::Login) == Some(state.opts.post_login_redirect),
        redirect_target(state, Endpoint::Logout) == Some(state.post_logout_uri),
        redirect_target(state, Endpoint::Callback) == Some(state.opts.callback_error_redirect),
        redirect_target(state, Endpoint::Clear) == Some("/auth/login"@),
        redirect_target(state, Endpoint::Me) is None,
        redirect_target(state, Endpoint::Protected) is None,
        demanded_group(state, Endpoint::Protected) == state.opts.require_group,
        demanded_group(state, Endpoint::Me) == state.opts.require_group,
        demanded_group(state, Endpoint::Login) is None,
        demanded_group(state, Endpoint::Logout) is None,
        demanded_group(state, Endpoint::Callback) is None,
        demanded_group(state, Endpoint::Clear) is None,
{
}

/// An error shows what went wrong, in front of the cause.
pub proof fn law_bff_messages(e: DiscoveryFailure, cause: Seq<char>)
    ensures
        BffFailure::Discovery(e).message() == "OIDC discovery failed: "@ + e.message(),
        BffFailure::InvalidIssuer(cause).message()
            == "advertised issuer is not a valid issuer URL: "@ + cause,
        BffFailure::PublicUrl(cause).message() == "public URL is not a valid URI: "@ + cause,
        BffFailure::Oidc(cause).message() == "OIDC client setup failed: "@ + cause,
{
}

/// What contracts say of options, of a user, of a profile or of client settings
/// is said of all of their parts.
pub proof fn law_stack_views(
    opts: BffOptions,
    claims: SessionClaims,
    me: AuthMeResponse,
    client: ClientSettings,
)
    ensures
        opts@.cookie_name == opts.cookie_name@,
        opts@.post_login_redirect == opts.post_login_redirect@,
        opts@.callback_error_redirect == opts.callback_error_redirect@,
        opts@.require_group == text::opt_chars(opts.require_group),
        opts@.scopes == text::all_chars(opts.scopes@),
        opts@.secure_cookies == opts.secure_cookies,
        claims@.sub == claims.sub@,
        claims@.email == text::opt_chars(claims.email),
        claims@.name == text::opt_chars(claims.name),
        claims@.given_name == text::opt_chars(claims.given_name),
        claims@.family_name == text::opt_chars(claims.family_name),
        claims@.groups == text::all_chars(claims.additional_claims.groups@),
        opt_user(Some(claims)) == Some(claims@),
        opt_user(None) is None,
        me@.sub == me.sub@,
        me@.email == text::opt_chars(me.email),
        me@.name == text::opt_chars(me.name),
        me@.groups == text::all_chars(me.groups@),
        client@.issuer == client.issuer@,
        client@.client_id == client.client_id@,
        client@.client_secret == client.client_secret@,
        client@.redirect_url == client.redirect_url@,
        client@.scopes == text::all_chars(client.scopes@),
{
}

/// What contracts say of a stack, of a check or of an error is said of all of
/// their parts.
pub proof fn law_stack_state_views(bff: BffAuth, cause: String, e: DiscoveryError)
    ensures
        bff@.client == bff.client@,
        bff@.post_logout_uri == bff.post_logout_uri@,
        bff@.session == bff.session_layer@,
        bff@.trusted_origins == super::csrf::trusted_origins(bff.csrf_layer),
        bff@.rediscovery == bff.rediscovery,
        bff@.opts == bff.opts@,
        check_error(Ok(())) is None,
        check_error(Err(cause)) == Some(cause@),
        BffError::Discovery(e)@ == BffFailure::Discovery(e@),
        BffError::InvalidIssuer(cause)@ == BffFailure::InvalidIssuer(cause@),
        BffError::PublicUrl(cause)@ == BffFailure::PublicUrl(cause@),
        BffError::Oidc(cause)@ == BffFailure::Oidc(cause@),
{
}

} // verus!
