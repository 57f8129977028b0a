//! Session cookie with shared defaults.

use vstd::prelude::*;

verus! {

/// Which requests from other sites a cookie goes along with.
#[derive(Debug, Clone, Copy, PartialEq, Eq, Structural)]
pub enum SameSite {
    /// None at all.
    Strict,
    /// Top-level navigations.
    Lax,
    /// Every one.
    Unrestricted,
}

impl SameSite {
    /// The value of the `SameSite` attribute.
    pub open spec fn attribute(self) -> Seq<char> {
        match self {
            SameSite::Strict => "Strict"@,
            SameSite::Lax => "Lax"@,
            SameSite::Unrestricted => "None"@,
        }
    }
}

/// The attributes by which a browser finds the session cookie again.
#[derive(Debug)]
pub struct SessionCookie {
    /// Name of the cookie.
    pub name: String,
    /// Paths the cookie is sent to.
    pub path: String,
    /// `SameSite` attribute.
    pub same_site: SameSite,
    /// `HttpOnly` attribute.
    pub http_only: bool,
    /// `Secure` attribute.
    pub secure: bool,
}

/// A [`SessionCookie`] as characters.
pub struct CookieAttributes {
    pub name: Seq<char>,
    pub path: Seq<char>,
    pub same_site: SameSite,
    pub http_only: bool,
    pub secure: bool,
}

impl View for SessionCookie {
    type V = CookieAttributes;

    open spec fn view(&self) -> CookieAttributes {
        CookieAttributes {
            name: self.name@,
            path: self.path@,
            same_site: self.same_site,
            http_only: self.http_only,
            secure: self.secure,
        }
    }
}

/// How sessions are kept.
#[derive(Debug)]
pub struct SessionLayer {
    /// The cookie that carries the session id.
    pub cookie: SessionCookie,
    /// Whether the cookie is signed.
    pub signed: bool,
    /// Seconds without a request after which a session ends.
    pub inactivity_seconds: i64,
    /// Whether a session is saved even if unchanged.
    pub always_save: bool,
}

/// A [`SessionLayer`] with its cookie as characters.
pub struct SessionSettings {
    pub cookie: CookieAttributes,
    pub signed: bool,
    pub inactivity_seconds: i64,
    pub always_save: bool,
}

impl View for SessionLayer {
    type V = SessionSettings;

    open spec fn view(&self) -> SessionSettings {
        SessionSettings {
            cookie: self.cookie@,
            signed: self.signed,
            inactivity_seconds: self.inactivity_seconds,
            always_save: self.always_save,
        }
    }
}

/// Seconds without a request after which a session ends (seven days).
pub const INACTIVITY_SECONDS: i64 = 7 * 24 * 60 * 60;

/// The shared attributes of a session cookie.
pub open spec fn cookie_attributes(cookie_name: Seq<char>, secure: bool) -> CookieAttributes {
    CookieAttributes {
        name: cookie_name,
        path: "/"@,
        same_site: SameSite::Lax,
        http_only: true,
        secure,
    }
}

/// The session cookie under a name.
fn session_cookie(cookie_name: &str, secure: bool) -> (cookie: SessionCookie)
    ensures
        cookie@ == cookie_attributes(cookie_name@, secure),
{
    SessionCookie {
        name: cookie_name.to_owned(),
        path: "/".to_owned(),
        same_site: SameSite::Lax,
        http_only: true,
        secure,
    }
}

/// The shared defaults for a session cookie's name and `Secure` flag.
pub open spec fn session_settings(cookie_name: Seq<char>, secure: bool) -> SessionSettings {
    SessionSettings {
        cookie: cookie_attributes(cookie_name, secure),
        signed: true,
        inactivity_seconds: INACTIVITY_SECONDS,
        always_save: true,
    }
}

/// Describe a session management layer with shared defaults:
///
/// - `SameSite::Lax`
/// - Signed cookies
/// - 7-day inactivity expiry
/// - Always save (even if unchanged)
///
/// `cookie_name` should be unique per service to allow simultaneous
/// sessions (e.g. `"myapp_sid"`, `"myadmin_sid"`).
pub fn build_session_layer(cookie_name: &str, secure: bool) -> (layer: SessionLayer)
    ensures
        layer@ == session_settings(cookie_name@, secure),
{
    SessionLayer {
        cookie: session_cookie(cookie_name, secure),
        signed: true,
        inactivity_seconds: INACTIVITY_SECONDS,
        always_save: true,
    }
}

/// The `Set-Cookie` value that removes a cookie with these attributes, with
/// `expires` for the date.
pub open spec fn removal(cookie: CookieAttributes, expires: Seq<char>) -> Seq<char> {
    cookie.name + "="@ + (if cookie.http_only {
        "; HttpOnly"@
    } else {
        Seq::empty()
    }) + "; SameSite="@ + cookie.same_site.attribute() + (if cookie.secure {
        "; Secure"@
    } else {
        Seq::empty()
    }) + "; Path="@ + cookie.path + "; Max-Age=0; Expires="@ + expires
}

/// Seconds by which the date of a removal lies in the past (a year of 365
/// days).
pub const REMOVAL_AGE_SECONDS: i64 = 365 * 24 * 60 * 60;

/// The second `seconds` after the Unix epoch, written as an HTTP date.
pub uninterp spec fn http_date(seconds: i64) -> Seq<char>;

/// Whether `header` is a removal of a cookie with these attributes made when
/// the clock shows `now`: dated a year back, to the second `expires` that is
/// written `date`. The date starts no further attribute.
pub open spec fn is_removal_at(
    header: Seq<char>,
    cookie: CookieAttributes,
    now: i64,
    expires: i64,
    date: Seq<char>,
) -> bool {
    &&& expires == now - REMOVAL_AGE_SECONDS
    &&& header == removal(cookie, date)
    &&& !date.contains(';')
}

/// Whether `header` removes a cookie with these attributes: its date is an
/// HTTP date a year before some reading of the clock.
pub open spec fn is_removal(header: Seq<char>, cookie: CookieAttributes) -> bool {
    exists|now: i64, expires: i64| #[trigger]
        is_removal_at(header, cookie, now, expires, http_date(expires))
}

/// `cookie::Cookie` with these attributes and an empty value, built by
/// `build`, put through `make_removal` and written by `Display`. The date it
/// expires on is a function of the second it falls in, which lies 365 days
/// before the clock, which is read; its text holds no semicolon. What the
/// clock shows, and how a date is written, is left unsaid.
#[verifier::external_body]
fn removal_cookie(cookie: &SessionCookie) -> (header: String)
    ensures
        exists|now: i64, expires: i64| #[trigger]
            is_removal_at(header@, cookie@, now, expires, http_date(expires)),
{
    let mut outside = tower_sessions::cookie::Cookie::build((cookie.name.as_str(), ""))
        .path(cookie.path.as_str())
        .same_site(match cookie.same_site {
            SameSite::Strict => tower_sessions::cookie::SameSite::Strict,
            SameSite::Lax => tower_sessions::cookie::SameSite::Lax,
            SameSite::Unrestricted => tower_sessions::cookie::SameSite::None,
        })
        .http_only(cookie.http_only)
        .secure(cookie.secure)
        .build();
    outside.make_removal();
    outside.to_string()
}

/// Format a `Set-Cookie` header value that removes a session cookie.
///
/// Mirrors the attributes set by [`build_session_layer`] (path `/`,
/// `SameSite::Lax`, `HttpOnly`) so the browser matches and deletes the right
/// cookie. Use it to drop a broken session immediately so the next request
/// doesn't loop on the same error.
pub fn clear_session_cookie_header(cookie_name: &str, secure: bool) -> (header: String)
    ensures
        is_removal(header@, session_settings(cookie_name@, secure).cookie),
{
    removal_cookie(&session_cookie(cookie_name, secure))
}

/// Whatever its name, the session cookie is sent to every path, to scripts of
/// no page, and from other sites on navigation only; sessions are signed, saved
/// on every request, and end after seven days without one. Name and `Secure`
/// flag are those asked for.
pub proof fn law_session_defaults(cookie_name: Seq<char>, secure: bool)
    ensures
        ({
            let settings = session_settings(cookie_name, secure);
            &&& settings.cookie.name == cookie_name
            &&& settings.cookie.path == "/"@
            &&& settings.cookie.same_site == SameSite::Lax
            &&& settings.cookie.http_only
            &&& settings.cookie.secure == secure
            &&& settings.signed
            &&& settings.always_save
            &&& settings.inactivity_seconds == 604_800
            &&& cookie_attributes(cookie_name, secure) == settings.cookie
        }),
{
}

/// The header that removes a session cookie is its name with an empty value,
/// the attributes that the session layer gives it, no age, and a date 365 days
/// before a reading of the clock.
pub proof fn law_removal_headers(header: Seq<char>, cookie_name: Seq<char>, secure: bool)
    requires
        is_removal(header, session_settings(cookie_name, secure).cookie),
    ensures
        exists|expires: i64|
            header == cookie_name + "="@ + "; HttpOnly"@ + "; SameSite="@ + "Lax"@ + (if secure {
                "; Secure"@
            } else {
                Seq::empty()
            }) + "; Path="@ + "/"@ + "; Max-Age=0; Expires="@ + #[trigger] http_date(expires)
                && !http_date(expires).contains(';'),
{
    let cookie = session_settings(cookie_name, secure).cookie;
    let (now, expires) = choose|now: i64, expires: i64| #[trigger]
        is_removal_at(header, cookie, now, expires, http_date(expires));
    assert(header == cookie_name + "="@ + "; HttpOnly"@ + "; SameSite="@ + "Lax"@ + (if secure {
        "; Secure"@
    } else {
        Seq::empty()
    }) + "; Path="@ + "/"@ + "; Max-Age=0; Expires="@ + http_date(expires));
}

/// A removal made at a reading of the clock is dated 31536000 seconds before
/// it.
pub proof fn law_removals_are_dated_back(
    header: Seq<char>,
    cookie: CookieAttributes,
    now: i64,
    expires: i64,
    date: Seq<char>,
)
    requires
        is_removal_at(header, cookie, now, expires, date),
    ensures
        expires == now - 31_536_000,
        header == cookie.name + "="@ + (if cookie.http_only {
            "; HttpOnly"@
        } else {
            Seq::empty()
        }) + "; SameSite="@ + (match cookie.same_site {
            SameSite::Strict => "Strict"@,
            SameSite::Lax => "Lax"@,
            SameSite::Unrestricted => "None"@,
        }) + (if cookie.secure {
            "; Secure"@
        } else {
            Seq::empty()
        }) + "; Path="@ + cookie.path + "; Max-Age=0; Expires="@ + date,
{
}

/// What contracts say of a cookie or of a layer is said of all of its parts.
pub proof fn law_session_views(cookie: SessionCookie, layer: SessionLayer)
    ensures
        cookie@.name == cookie.name@,
        cookie@.path == cookie.path@,
        cookie@.same_site == cookie.same_site,
        cookie@.http_only == cookie.http_only,
        cookie@.secure == cookie.secure,
        layer@.cookie == layer.cookie@,
        layer@.signed == layer.signed,
        layer@.inactivity_seconds == layer.inactivity_seconds,
        layer@.always_save == layer.always_save,
{
}

} // verus!
