//! Rules of a single sign-on stack for BFF-style web services.
//!
//! [`BffAuth::connect`] settles the issuer, the redirect targets, the session
//! cookie and the CSRF layer; [`BffAuth::attach`] says which routes are
//! mounted and which layers stand around each of them.

use vstd::prelude::*;

use crate::text;

pub mod csrf;
pub mod session;
pub mod stack;

pub use csrf::{build_csrf_layer, origin_problem};
pub use session::{build_session_layer, clear_session_cookie_header};
pub use stack::{AuthMeResponse, BffAuth, BffError, BffOptions};

verus! {

/// Additional OIDC claims carrying the provider's group memberships.
///
/// Requires requesting a scope that yields a `groups` claim (see
/// [`BffOptions::scopes`]).
#[derive(Clone, Debug)]
pub struct GroupsClaims {
    /// Group memberships from the provider.
    pub groups: Vec<String>,
}

impl View for GroupsClaims {
    type V = Seq<Seq<char>>;

    open spec fn view(&self) -> Seq<Seq<char>> {
        text::all_chars(self.groups@)
    }
}

impl Default for GroupsClaims {
    /// No groups.
    fn default() -> (claims: Self)
        ensures
            claims@ == Seq::<Seq<char>>::empty(),
    {
        let claims = GroupsClaims { groups: Vec::new() };
        assert(claims@ =~= Seq::<Seq<char>>::empty());
        claims
    }
}

impl GroupsClaims {
    /// Whether `group` is among the user's groups.
    pub fn has_group(&self, group: &str) -> (held: bool)
        ensures
            held == self@.contains(group@),
    {
        text::list_contains(&self.groups, group)
    }
}

/// Configuration for an OIDC login client (confidential client, code flow).
#[derive(Clone)]
pub struct BffConfig {
    /// Issuer URL, e.g. `https://auth.example.com/auth/v1`.
    pub issuer: String,
    /// OIDC client id.
    pub client_id: String,
    /// OIDC client secret.
    pub client_secret: String,
    /// How often (seconds) to re-run OIDC discovery in the background so the
    /// cached JWKS picks up provider key rotation without a restart. 0
    /// disables.
    pub discovery_refresh_interval_seconds: u64,
}

/// Session key under which the opaque OIDC session blob is stored.
pub const OIDC_SESSION_KEY: &'static str = "axum-oidc";

/// A JSON value. The members of an object have distinct names.
#[derive(Debug)]
pub enum Json {
    /// `null`.
    Null,
    /// `true` or `false`.
    Bool(bool),
    /// A number, as it is written.
    Number(String),
    /// A string.
    Text(String),
    /// An array.
    Array(Vec<Json>),
    /// An object.
    Object(Vec<(String, Json)>),
}

/// The first of `members` with that name.
pub open spec fn named_member(members: Seq<(String, Json)>, name: Seq<char>) -> Option<Json>
    decreases members.len(),
{
    if members.len() == 0 {
        None
    } else if members[0].0@ == name {
        Some(members[0].1)
    } else {
        named_member(members.skip(1), name)
    }
}

impl Json {
    /// The member `name`, where the value is an object that has it.
    pub open spec fn member(self, name: Seq<char>) -> Option<Json> {
        match self {
            Json::Object(members) => named_member(members@, name),
            _ => None,
        }
    }

    /// The member `name`, where the value is an object that has it.
    pub fn get(&self, name: &str) -> (value: Option<&Json>)
        ensures
            match value {
                Some(v) => self.member(name@) == Some(*v),
                None => self.member(name@) is None,
            },
    {
        match self {
            Json::Object(members) => {
                let mut i: usize = 0;
                assert(members@.skip(0) =~= members@);
                while i < members.len()
                    invariant
                        i <= members.len(),
                        self.member(name@) == named_member(members@.skip(i as int), name@),
                    decreases members.len() - i,
                {
                    assert(members@.skip(i as int).skip(1) =~= members@.skip(i + 1));
                    if text::str_eq(&members[i].0, name) {
                        return Some(&members[i].1);
                    }
                    i += 1;
                }
                None
            },
            _ => None,
        }
    }

    /// Whether the value is an object.
    pub fn is_object(&self) -> (object: bool)
        ensures
            object == (self is Object),
    {
        match self {
            Json::Object(_) => true,
            _ => false,
        }
    }

    /// Whether the value is `null`.
    pub fn is_null(&self) -> (null: bool)
        ensures
            null == (self is Null),
    {
        match self {
            Json::Null => true,
            _ => false,
        }
    }
}

/// Whether a stored session is authenticated but carries no refresh token.
pub open spec fn lacks_refresh_token(value: Json) -> bool {
    match value.member("Authenticated"@) {
        None => false,
        Some(session) => session is Object && match session.member("refresh_token"@) {
            None => true,
            Some(token) => token is Null,
        },
    }
}

/// Return whether a stored session is authenticated but carries no refresh token.
/// This indicates a provider misconfiguration that strands the session at token expiry.
///
/// A stored session is an externally tagged enum, an authenticated one being
/// `{"Authenticated": {"authenticated": {…}, "refresh_token": <str>|null}}`.
/// Anything else (`"Unauthenticated"`, `{"Pending": …}`, an unrecognised
/// shape) is not a misconfiguration and must stay quiet.
pub fn authenticated_without_refresh_token(value: &Json) -> (lacking: bool)
    ensures
        lacking == lacks_refresh_token(*value),
{
    match value.get("Authenticated") {
        None => false,
        Some(session) => session.is_object() && match session.get("refresh_token") {
            None => true,
            Some(token) => token.is_null(),
        },
    }
}

/// Nothing is reported but an object under the tag of an authenticated
/// session: any other shape stays quiet.
pub proof fn law_other_sessions_stay_quiet(value: Json)
    requires
        match value.member("Authenticated"@) {
            None => true,
            Some(session) => !(session is Object),
        },
    ensures
        !lacks_refresh_token(value),
{
}

/// The member of a name is the first one so named; an object without one, and
/// anything but an object, has none.
pub proof fn law_members(members: Vec<(String, Json)>, name: Seq<char>, i: int)
    ensures
        0 <= i < members@.len() && members@[i].0@ == name && (forall|j: int|
            0 <= j < i ==> (#[trigger] members@[j]).0@ != name) ==> Json::Object(members).member(
            name,
        ) == Some(members@[i].1),
        (forall|j: int| 0 <= j < members@.len() ==> (#[trigger] members@[j]).0@ != name)
            ==> Json::Object(members).member(name) is None,
{
    if 0 <= i < members@.len() && members@[i].0@ == name && forall|j: int|
        0 <= j < i ==> (#[trigger] members@[j]).0@ != name {
        lemma_first_member(members@, name, i);
    }
    if forall|j: int| 0 <= j < members@.len() ==> (#[trigger] members@[j]).0@ != name {
        lemma_no_member(members@, name);
    }
}

/// Only objects have members.
pub proof fn law_only_objects_have_members(value: Json, name: Seq<char>)
    requires
        !(value is Object),
    ensures
        value.member(name) is None,
{
}

/// The first member of a name is found.
proof fn lemma_first_member(members: Seq<(String, Json)>, name: Seq<char>, i: int)
    requires
        0 <= i < members.len(),
        members[i].0@ == name,
        forall|j: int| 0 <= j < i ==> (#[trigger] members[j]).0@ != name,
    ensures
        named_member(members, name) == Some(members[i].1),
    decreases i,
{
    if i > 0 {
        let rest = members.skip(1);
        assert(members[0].0@ != name);
        assert forall|j: int| 0 <= j < i - 1 implies (#[trigger] rest[j]).0@ != name by {
            assert(rest[j] == members[j + 1]);
        }
        lemma_first_member(rest, name, i - 1);
    }
}

/// A name that no member has is not found.
proof fn lemma_no_member(members: Seq<(String, Json)>, name: Seq<char>)
    requires
        forall|j: int| 0 <= j < members.len() ==> (#[trigger] members[j]).0@ != name,
    ensures
        named_member(members, name) is None,
    decreases members.len(),
{
    if members.len() > 0 {
        let rest = members.skip(1);
        assert(members[0].0@ != name);
        assert forall|j: int| 0 <= j < rest.len() implies (#[trigger] rest[j]).0@ != name by {
            assert(rest[j] == members[j + 1]);
        }
        lemma_no_member(rest, name);
    }
}

/// A session is reported exactly when there is an object under the tag of an
/// authenticated session, and its refresh token is missing or null.
pub proof fn law_reported_sessions(value: Json)
    ensures
        lacks_refresh_token(value) <==> {
            let session = value.member("Authenticated"@);
            let token = session->0.member("refresh_token"@);
            &&& session is Some
            &&& session->0 is Object
            &&& token is None || token->0 is Null
        },
{
}

/// A user holds exactly the groups that are listed.
pub proof fn law_held_groups(claims: GroupsClaims, group: Seq<char>)
    ensures
        claims@.contains(group) <==> exists|i: int|
            0 <= i < claims.groups@.len() && #[trigger] claims.groups@[i]@ == group,
        claims@.len() == claims.groups@.len(),
        forall|i: int|
            0 <= i < claims.groups@.len() ==> #[trigger] claims@[i] == claims.groups@[i]@,
{
    let all = claims@;
    if all.contains(group) {
        let i = choose|i: int| 0 <= i < all.len() && all[i] == group;
        assert(claims.groups@[i]@ == group);
    }
    if exists|i: int| 0 <= i < claims.groups@.len() && #[trigger] claims.groups@[i]@ == group {
        let i = choose|i: int|
            0 <= i < claims.groups@.len() && #[trigger] claims.groups@[i]@ == group;
        assert(all[i] == group);
    }
}

} // verus!
