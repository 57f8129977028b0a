# oidc-stack

OIDC building blocks for Rust services, verified with Verus.

| Module | Contents |
|---|---|
| `validator`, `jwt` | Local JWT validation against a key set (resource servers). |
| `dropshot` | Bearer-token authentication of requests on top of `validator`. |
| `bff` | Rules of a login stack: session cookie, CSRF layer, `/auth/*` routes, group gate. |
| `proxy` | What goes to a backend API with the session's bearer token, and what comes back. |
| `signed_request`, `timestamp`, `hexadecimal` | HMAC-SHA256 `{timestamp}.{body}` signing and verification for inter-service calls. |
| `discovery`, `location` | Which issuer and which URLs are used. |
| `refresh` | When background refreshes run. |

`src/` is the verified library. Its public functions state in their `ensures` what
they return. Three of them read a clock (`verify`, `validate_token`, `authenticate`)
and say what they return for some reading of it; a fourth,
`clear_session_cookie_header`, dates its cookie by one. Laws that relate several functions are public proof functions whose
names begin with `law_`. Calls into other crates stand in small wrappers, each
with a comment that says what is taken on trust.

`app/` is the ordinary Rust around it: HTTP, timers, axum, tower-sessions and
dropshot. It fetches what the library asks for and converts values.

`tests/` runs the library against the real crates.
