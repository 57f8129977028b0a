//! Rules of the login stack.

use axum_oidc::{EmptyAdditionalClaims, OidcSession};
use oidc_stack::bff::csrf::{layer_or_untrusting, layer_trusting, OriginProblem};
use oidc_stack::bff::session::SameSite;
use oidc_stack::bff::stack::{
    auth_me, check_group, endpoint_method, endpoint_path, first_error, recover_oidc_callback_error, CallbackAnswer,
    Endpoint, Layer, Method, SessionClaims,
};
use oidc_stack::bff::{
    authenticated_without_refresh_token, build_csrf_layer, build_session_layer,
    clear_session_cookie_header, BffAuth, BffConfig, BffError, BffOptions, GroupsClaims, Json,
    origin_problem, OIDC_SESSION_KEY,
};
use oidc_stack::discovery::DiscoveryError;
use oidc_stack::status::StatusCode;

fn object(members: Vec<(&str, Json)>) -> Json {
    Json::Object(
        members
            .into_iter()
            .map(|(name, value)| (name.to_string(), value))
            .collect(),
    )
}

fn text(value: &str) -> Json {
    Json::Text(value.to_string())
}

/// Canary: `authenticated_without_refresh_token` reads a JSON shape axum-oidc
/// never promised. `Default` is the only `OidcSession` an outsider can
/// construct, but it still pins the two assumptions that would break silently
/// on an upgrade: the newtype is transparent, and the inner enum is externally
/// tagged.
#[test]
fn oidc_session_serializes_as_externally_tagged_enum() {
    let session = OidcSession::<
        EmptyAdditionalClaims,
        axum_oidc::openidconnect::core::CoreGenderClaim,
    >::default();
    let value = serde_json::to_value(session).expect("serializes");
    assert_eq!(value, serde_json::Value::from("Unauthenticated"));
}

#[test]
fn warns_only_for_an_authenticated_session_without_a_refresh_token() {
    let authenticated = |refresh_token| {
        object(vec![(
            "Authenticated",
            object(vec![
                (
                    "authenticated",
                    object(vec![
                        ("id_token", text("j.w.t")),
                        ("access_token", text("at")),
                        ("user_info", object(vec![])),
                    ]),
                ),
                ("refresh_token", refresh_token),
            ]),
        )])
    };

    // The bug this exists to announce.
    assert!(authenticated_without_refresh_token(&authenticated(Json::Null)));
    // A healthy session must stay quiet.
    assert!(!authenticated_without_refresh_token(&authenticated(text("rt"))));
    // Neither is a misconfiguration: no session, or a login in flight.
    assert!(!authenticated_without_refresh_token(&text("Unauthenticated")));
    assert!(!authenticated_without_refresh_token(&object(vec![(
        "Pending",
        object(vec![("nonce", text("n"))])
    )])));
    // An unrecognised shape is not evidence of a missing refresh token.
    assert!(!authenticated_without_refresh_token(&object(vec![])));
    // An authenticated session missing the field entirely still has none.
    assert!(authenticated_without_refresh_token(&object(vec![(
        "Authenticated",
        object(vec![("authenticated", object(vec![]))])
    )])));
    assert_eq!(OIDC_SESSION_KEY, "axum-oidc");
}

#[test]
fn only_null_counts_as_no_token() {
    let session = |token| object(vec![("Authenticated", object(vec![("refresh_token", token)]))]);
    assert!(!authenticated_without_refresh_token(&session(Json::Bool(false))));
    assert!(!authenticated_without_refresh_token(&session(Json::Number("0".to_string()))));
    assert!(!authenticated_without_refresh_token(&session(Json::Array(vec![]))));
}

#[test]
fn an_unrecognised_shape_under_the_tag_stays_quiet() {
    for shape in [
        Json::Null,
        Json::Bool(true),
        Json::Number("1".to_string()),
        text("x"),
        Json::Array(vec![Json::Null]),
    ] {
        assert!(!authenticated_without_refresh_token(&object(vec![("Authenticated", shape)])));
    }
    assert!(authenticated_without_refresh_token(&object(vec![("Authenticated", object(vec![]))])));
}

#[test]
fn group_membership() {
    let claims = GroupsClaims {
        groups: vec!["users".to_string(), "admins".to_string()],
    };
    assert!(claims.has_group("admins"));
    assert!(!claims.has_group("admin"));
    assert!(!GroupsClaims::default().has_group(""));
}

fn user(groups: &[&str]) -> SessionClaims {
    SessionClaims {
        sub: "user-1".to_string(),
        email: Some("a@b.c".to_string()),
        name: None,
        given_name: Some("Ada".to_string()),
        family_name: Some("Lovelace".to_string()),
        additional_claims: GroupsClaims {
            groups: groups.iter().map(|g| g.to_string()).collect(),
        },
    }
}

#[test]
fn the_gate_and_me_decide_alike() {
    for (claims, group, expected) in [
        (None, None, Err(StatusCode::Unauthorized)),
        (None, Some("admins"), Err(StatusCode::Unauthorized)),
        (Some(user(&[])), None, Ok(())),
        (Some(user(&["users"])), Some("admins"), Err(StatusCode::Forbidden)),
        (Some(user(&["users", "admins"])), Some("admins"), Ok(())),
    ] {
        assert_eq!(check_group(claims.as_ref(), group), expected);
        assert_eq!(auth_me(claims, group).map(|_| ()), expected);
    }
    assert_eq!(StatusCode::Unauthorized.as_u16(), 401);
    assert_eq!(StatusCode::Forbidden.as_u16(), 403);
    assert_eq!(StatusCode::InternalServerError.as_u16(), 500);
}

#[test]
fn me_shows_a_name_with_fallbacks() {
    let shown = |name: Option<&str>, given: Option<&str>, family: Option<&str>| {
        let mut claims = user(&["users"]);
        claims.name = name.map(|n| n.to_string());
        claims.given_name = given.map(|n| n.to_string());
        claims.family_name = family.map(|n| n.to_string());
        auth_me(Some(claims), None).unwrap().name
    };
    assert_eq!(shown(Some("Countess"), Some("Ada"), None).as_deref(), Some("Countess"));
    assert_eq!(shown(None, Some("Ada"), Some("Lovelace")).as_deref(), Some("Ada Lovelace"));
    assert_eq!(shown(None, Some("Ada"), None).as_deref(), Some("Ada"));
    assert_eq!(shown(None, None, Some("Lovelace")).as_deref(), Some("Lovelace"));
    assert_eq!(shown(None, None, None), None);

    let me = auth_me(Some(user(&["users"])), Some("users")).unwrap();
    assert_eq!(me.sub, "user-1");
    assert_eq!(me.email.as_deref(), Some("a@b.c"));
    assert_eq!(me.groups, vec!["users".to_string()]);
}

#[test]
fn only_server_errors_of_the_callback_are_rewritten() {
    for status in [200, 302, 400, 404, 499, 600] {
        assert!(matches!(
            recover_oidc_callback_error(status, "/oops"),
            CallbackAnswer::Forward
        ));
    }
    for status in [500, 502, 599] {
        match recover_oidc_callback_error(status, "/oops") {
            CallbackAnswer::FlushAndRedirect(to) => assert_eq!(to, "/oops"),
            CallbackAnswer::Forward => panic!("{status} forwarded"),
        }
    }
}

#[test]
fn session_layer_defaults() {
    let layer = build_session_layer("myapp_sid", true);
    assert_eq!(layer.cookie.name, "myapp_sid");
    assert_eq!(layer.cookie.path, "/");
    assert_eq!(layer.cookie.same_site, SameSite::Lax);
    assert!(layer.cookie.http_only);
    assert!(layer.cookie.secure);
    assert!(layer.signed);
    assert!(layer.always_save);
    assert_eq!(layer.inactivity_seconds, 604_800);
}

#[test]
fn removal_cookie_mirrors_the_session_cookie() {
    let header = clear_session_cookie_header("myapp_sid", true);
    let fixed = "myapp_sid=; HttpOnly; SameSite=Lax; Secure; Path=/; Max-Age=0; Expires=";
    assert!(header.starts_with(fixed), "{header}");
    assert!(!header[fixed.len()..].contains(';'), "{header}");
    assert!(header.ends_with(" GMT"), "{header}");
    // A year back: the year is the present one or the two before.
    let year: i64 = chrono::Utc::now().timestamp() / 31_556_952 + 1970;
    assert!(
        [year - 2, year - 1, year].iter().any(|y| header.contains(&format!(" {y} "))),
        "{header}"
    );

    let header = clear_session_cookie_header("sid", false);
    assert!(
        header.starts_with("sid=; HttpOnly; SameSite=Lax; Path=/; Max-Age=0; Expires="),
        "{header}"
    );
}

fn trusts(layer: &tower_http::csrf::CsrfLayer, origin: &str) -> bool {
    format!("{layer:?}").contains(&format!("\"{origin}\""))
}

fn trusts_nobody(layer: &tower_http::csrf::CsrfLayer) -> bool {
    format!("{layer:?}") == format!("{:?}", tower_http::csrf::CsrfLayer::new())
}

#[test]
fn csrf_layer_trusts_the_service_s_own_origin() {
    let layer = build_csrf_layer("https://App.example.com:8443/some/path?x=1");
    assert!(trusts(&layer, "https://app.example.com:8443"), "{layer:?}");
    // The default port is no part of an origin.
    let layer = build_csrf_layer("https://app.example.com:443");
    assert!(trusts(&layer, "https://app.example.com"), "{layer:?}");
}

#[test]
fn csrf_layer_without_a_usable_origin_trusts_nobody() {
    for public_url in ["not a url", "", "file:///tmp/x", "mailto:a@b.c"] {
        assert!(trusts_nobody(&build_csrf_layer(public_url)), "{public_url}");
    }
    assert!(trusts_nobody(&layer_trusting(Err("no URL".to_string()))));
    assert!(trusts_nobody(&layer_or_untrusting(Err("no origin".to_string()))));
    assert!(trusts_nobody(&layer_trusting(Ok("null".to_string()))));
    assert!(trusts(
        &layer_trusting(Ok("https://a.example".to_string())),
        "https://a.example"
    ));
}

#[test]
fn an_untrusting_layer_has_a_reason() {
    match origin_problem("not a url") {
        Some(OriginProblem::UnparsableUrl(cause)) => {
            assert_eq!(cause, "relative URL without a base")
        }
        other => panic!("{other:?}"),
    }
    match origin_problem("mailto:a@b.c") {
        Some(OriginProblem::InvalidOrigin(origin, cause)) => {
            assert_eq!(origin, "null");
            let said = tower_http::csrf::CsrfLayer::new().add_trusted_origin("null");
            assert_eq!(cause, said.unwrap_err().to_string());
        }
        other => panic!("{other:?}"),
    }
    assert!(origin_problem("https://app.example.com/").is_none());
}

fn config(interval: u64) -> BffConfig {
    BffConfig {
        issuer: "https://auth.example.com/auth/v1".to_string(),
        client_id: "app".to_string(),
        client_secret: "shh".to_string(),
        discovery_refresh_interval_seconds: interval,
    }
}

const ISSUER: &str = "https://auth.example.com/auth/v1/";

fn connect(public_url: &str, opts: BffOptions) -> Result<BffAuth, BffError> {
    BffAuth::connect(&config(60), public_url, opts, Ok(ISSUER.to_string()))
}

#[test]
fn each_endpoint_redirects_to_its_own_place() {
    let mut opts = BffOptions::with_defaults(true);
    opts.post_login_redirect = "/home".to_string();
    opts.callback_error_redirect = "/oops".to_string();
    opts.require_group = Some("admins".to_string());
    let bff = match connect("https://a.example/", opts) {
        Ok(bff) => bff,
        Err(e) => panic!("{}", e.message()),
    };
    for (endpoint, to, group) in [
        (Endpoint::Me, None, Some("admins")),
        (Endpoint::Login, Some("/home"), None),
        (Endpoint::Logout, Some("https://a.example"), None),
        (Endpoint::Protected, None, Some("admins")),
        (Endpoint::Callback, Some("/oops"), None),
        (Endpoint::Clear, Some("/auth/login"), None),
    ] {
        assert_eq!(bff.redirect_of(endpoint).as_deref(), to);
        assert_eq!(bff.group_of(endpoint).as_deref(), group);
    }
    let open = match connect("https://a.example", BffOptions::with_defaults(true)) {
        Ok(bff) => bff,
        Err(e) => panic!("{}", e.message()),
    };
    assert_eq!(open.group_of(Endpoint::Protected), None);
    assert_eq!(
        open.redirect_of(Endpoint::Callback),
        endpoint_path(Endpoint::Clear)
    );
}

#[test]
fn default_options() {
    let opts = BffOptions::with_defaults(true);
    assert_eq!(opts.cookie_name, "sid");
    assert_eq!(opts.post_login_redirect, "/");
    assert_eq!(opts.callback_error_redirect, "/auth/clear");
    assert_eq!(opts.require_group, None);
    assert_eq!(opts.scopes, vec!["profile", "email", "groups"]);
    assert!(opts.secure_cookies);
    assert!(!BffOptions::with_defaults(false).secure_cookies);
}

#[test]
fn connecting_derives_everything_from_the_public_url() {
    for public_url in ["https://app.example.com", "https://app.example.com//"] {
        let bff = match connect(public_url, BffOptions::with_defaults(false)) {
            Ok(bff) => bff,
            Err(e) => panic!("{}", e.message()),
        };
        assert_eq!(bff.client.issuer, ISSUER);
        assert_eq!(bff.client.client_id, "app");
        assert_eq!(bff.client.client_secret, "shh");
        assert_eq!(bff.client.scopes, vec!["profile", "email", "groups"]);
        assert_eq!(bff.client.redirect_url, "https://app.example.com/auth/callback");
        assert_eq!(bff.post_logout_uri, "https://app.example.com");
        assert_eq!(bff.session_layer.cookie.name, "sid");
        assert!(!bff.session_layer.cookie.secure);
        assert!(trusts(&bff.csrf_layer, "https://app.example.com"));
        assert_eq!(bff.rediscovery.map(|task| task.period_seconds), Some(60));
    }
    let quiet = BffAuth::connect(
        &config(0),
        "https://app.example.com",
        BffOptions::with_defaults(true),
        Ok(ISSUER.to_string()),
    );
    assert!(matches!(quiet, Ok(bff) if bff.rediscovery.is_none()));
}

#[test]
fn connecting_reports_what_is_wrong() {
    let failed = |outcome: Result<BffAuth, BffError>| match outcome {
        Err(e) => e,
        Ok(_) => panic!("connected"),
    };
    let opts = || BffOptions::with_defaults(true);

    let down = Err(DiscoveryError::Fetch("down".to_string()));
    let e = failed(BffAuth::connect(&config(60), "https://a.example", opts(), down));
    assert_eq!(
        e.message(),
        "OIDC discovery failed: failed to fetch OIDC discovery: down"
    );
    let nope = Ok("nope".to_string());
    let e = failed(BffAuth::connect(&config(60), "https://a.example", opts(), nope));
    assert_eq!(
        e.message(),
        "advertised issuer is not a valid issuer URL: relative URL without a base"
    );
    let e = failed(connect("not a uri", opts()));
    assert!(matches!(e, BffError::PublicUrl(_)));
    assert_eq!(
        e.message(),
        "public URL is not a valid URI: invalid uri character"
    );
    // The callback alone is a URI, the empty logout target is not.
    assert!(matches!(failed(connect("", opts())), BffError::PublicUrl(_)));

    let bff = connect("https://a.example", opts());
    let e = failed(bff.and_then(|bff| bff.discovered(Err("issuer mismatch".to_string()))));
    assert_eq!(e.message(), "OIDC client setup failed: issuer mismatch");
    assert!(connect("https://a.example", opts())
        .and_then(|bff| bff.discovered(Ok(())))
        .is_ok());
}

#[test]
fn the_first_failed_check_is_reported() {
    let bad = |text: &str| Err::<(), String>(text.to_string());
    assert!(first_error(Ok(()), Ok(()), Ok(())).is_ok());
    assert_eq!(
        first_error(bad("a"), bad("b"), bad("c")).unwrap_err().message(),
        "advertised issuer is not a valid issuer URL: a"
    );
    assert_eq!(
        first_error(Ok(()), bad("b"), bad("c")).unwrap_err().message(),
        "public URL is not a valid URI: b"
    );
    assert_eq!(
        first_error(Ok(()), Ok(()), bad("c")).unwrap_err().message(),
        "public URL is not a valid URI: c"
    );
    assert!(matches!(
        BffError::from(DiscoveryError::Fetch("x".to_string())),
        BffError::Discovery(_)
    ));
}

#[test]
fn routes_and_layers() {
    let mut opts = BffOptions::with_defaults(true);
    for group in [None, Some("admins".to_string())] {
        opts.require_group = group.clone();
        let bff = match connect("https://a.example", opts) {
            Ok(bff) => bff,
            Err(e) => panic!("{}", e.message()),
        };
        let mounts = bff.attach();
        let paths: Vec<Option<&str>> = mounts.iter().map(|m| m.path.as_deref()).collect();
        assert_eq!(
            paths,
            vec![
                Some("/auth/me"),
                Some("/auth/login"),
                Some("/auth/logout"),
                None,
                Some("/auth/callback"),
                Some("/auth/clear"),
            ]
        );
        for mount in &mounts {
            let mut expected = vec![Layer::Csrf, Layer::Session];
            match mount.endpoint {
                Endpoint::Clear => {}
                Endpoint::Me => expected.push(Layer::OidcAuth),
                Endpoint::Login | Endpoint::Logout => {
                    expected.extend([Layer::OidcAuth, Layer::OidcLogin])
                }
                Endpoint::Callback => expected.extend([Layer::OidcAuth, Layer::CallbackRecovery]),
                Endpoint::Protected => {
                    expected.push(Layer::OidcAuth);
                    if group.is_some() {
                        expected.push(Layer::GroupGate);
                    }
                }
            }
            assert_eq!(mount.layers, expected);
            assert_eq!(endpoint_path(mount.endpoint), mount.path);
            let method = match mount.endpoint {
                Endpoint::Protected => None,
                Endpoint::Callback => Some(Method::Any),
                _ => Some(Method::Get),
            };
            assert_eq!(mount.method, method);
            assert_eq!(endpoint_method(mount.endpoint), method);
        }
        opts = bff.opts;
    }
}
