# kiro_oauth

The verified core of the Builder ID (AWS OIDC device-code) login of the
admin API.

- `src/session.rs`: the registry of pending logins (`OauthSessions`, a map
  from login id to `OauthSession`), expiry clean-up, interval back-off and
  the choice of fresh, JavaScript-safe login ids.
- `src/oidc.rs`: the OIDC endpoints, region choice and request bodies.
- `src/proxy.rs`: proxy settings of a login.
- `src/flow.rs`: the steps of `start`, `poll` and `cancel`: what each does to
  the registry and what it answers, given the replies of the OIDC service.
- `src/auth.rs`: the admin key check.
- `src/text.rs`: whitespace trimming, text comparison, decimal rendering.
- `src/laws.rs`: properties that span several operations.
- `app/lib.rs`: axum handlers, reqwest calls, JSON shapes, the clock and
  the lock around the registry.

Times are milliseconds of a monotonic clock, read by the caller and passed
in as `now`.
