//! The requests sent to the AWS OIDC service and what it answers.

use vstd::prelude::*;
use vstd::string::StringExecFns;
use crate::text::{is_blank, is_blank_seq};

verus! {

/// The start URL of AWS Builder ID, the issuer that the logins go through.
pub const BUILDER_ID_START_URL: &'static str = "https://view.awsapps.com/start";
/// The client name the OIDC client registers under.
pub const OAUTH_CLIENT_NAME: &'static str = "kiro-rs";
/// The region used when a login request names none.
pub const DEFAULT_REGION: &'static str = "us-east-1";
/// The OAuth grant type of the device-code flow.
pub const DEVICE_CODE_GRANT_TYPE: &'static str = "urn:ietf:params:oauth:grant-type:device_code";
/// The grant type that lets the credential renew its access token.
pub const REFRESH_TOKEN_GRANT_TYPE: &'static str = "refresh_token";
/// The client type of the registered OIDC client.
pub const PUBLIC_CLIENT_TYPE: &'static str = "public";

pub const SCOPE_COMPLETIONS: &'static str = "codewhisperer:completions";
pub const SCOPE_ANALYSIS: &'static str = "codewhisperer:analysis";
pub const SCOPE_CONVERSATIONS: &'static str = "codewhisperer:conversations";
pub const SCOPE_TRANSFORMATIONS: &'static str = "codewhisperer:transformations";
pub const SCOPE_TASKASSIST: &'static str = "codewhisperer:taskassist";

/// Path of the client registration endpoint.
pub const REGISTER_PATH: &'static str = "/client/register";
/// Path of the device authorization endpoint.
pub const DEVICE_AUTHORIZATION_PATH: &'static str = "/device_authorization";
/// Path of the token endpoint.
pub const TOKEN_PATH: &'static str = "/token";

/// The scopes the OIDC client asks for, in order.
pub open spec fn oidc_scopes_seq() -> Seq<Seq<char>> {
    seq![
        SCOPE_COMPLETIONS@,
        SCOPE_ANALYSIS@,
        SCOPE_CONVERSATIONS@,
        SCOPE_TRANSFORMATIONS@,
        SCOPE_TASKASSIST@,
    ]
}

/// The grant types the OIDC client asks for, in order.
pub open spec fn grant_types_seq() -> Seq<Seq<char>> {
    seq![DEVICE_CODE_GRANT_TYPE@, REFRESH_TOKEN_GRANT_TYPE@]
}

/// The characters of each string of `v`.
pub open spec fn texts_view(v: Seq<String>) -> Seq<Seq<char>> {
    v.map_values(|s: String| s@)
}

/// The URL of endpoint `path` of the OIDC service of `region`.
pub open spec fn oidc_url_seq(region: Seq<char>, path: Seq<char>) -> Seq<char> {
    "https://oidc."@ + region + ".amazonaws.com"@ + path
}

/// The region a login goes to: the requested one unless it is missing or
/// blank, then the default region. A requested region is kept as given,
/// surrounding whitespace included.
pub open spec fn resolved_region_seq(region: Option<Seq<char>>) -> Seq<char> {
    match region {
        Some(r) => if is_blank_seq(r) { DEFAULT_REGION@ } else { r },
        None => DEFAULT_REGION@,
    }
}

/// Body of the client registration call.
pub struct RegisterClientRequest {
    pub client_name: String,
    pub client_type: String,
    pub scopes: Vec<String>,
    pub grant_types: Vec<String>,
    pub issuer_url: String,
}

/// What the client registration call answers.
pub struct RegisterClientResponse {
    pub client_id: String,
    pub client_secret: String,
}

/// Body of the device authorization call.
pub struct DeviceAuthRequest {
    pub client_id: String,
    pub client_secret: String,
    pub start_url: String,
}

/// What the device authorization call answers; `expires_in` and
/// `interval` are in seconds.
pub struct DeviceAuthResponse {
    pub device_code: String,
    pub user_code: String,
    pub verification_uri: String,
    pub verification_uri_complete: String,
    pub expires_in: u64,
    pub interval: u64,
}

/// Body of a token call.
pub struct TokenRequest {
    pub client_id: String,
    pub client_secret: String,
    pub grant_type: String,
    pub device_code: String,
}

/// The URL of endpoint `path` of the OIDC service of `region`.
pub fn oidc_url(region: &str, path: &str) -> (r: String)
    ensures
        r@ == oidc_url_seq(region@, path@),
{
    "https://oidc.".to_owned().concat(region).concat(".amazonaws.com").concat(path)
}

/// The region a login goes to.
pub fn resolve_region(region: &Option<String>) -> (r: String)
    ensures
        r@ == resolved_region_seq(region.deep_view()),
{
    match region {
        Some(s) => {
            if is_blank(s.as_str()) {
                DEFAULT_REGION.to_owned()
            } else {
                s.clone()
            }
        },
        None => DEFAULT_REGION.to_owned(),
    }
}

/// The body of the client registration call: a public client named
/// `kiro-rs`, with the CodeWhisperer scopes and the device-code and
/// refresh-token grants, issued by the Builder ID start URL.
pub fn register_client_request() -> (r: RegisterClientRequest)
    ensures
        r.client_name@ == OAUTH_CLIENT_NAME@,
        r.client_type@ == PUBLIC_CLIENT_TYPE@,
        texts_view(r.scopes@) == oidc_scopes_seq(),
        texts_view(r.grant_types@) == grant_types_seq(),
        r.issuer_url@ == BUILDER_ID_START_URL@,
{
    let mut scopes: Vec<String> = Vec::new();
    scopes.push(SCOPE_COMPLETIONS.to_owned());
    scopes.push(SCOPE_ANALYSIS.to_owned());
    scopes.push(SCOPE_CONVERSATIONS.to_owned());
    scopes.push(SCOPE_TRANSFORMATIONS.to_owned());
    scopes.push(SCOPE_TASKASSIST.to_owned());
    let mut grant_types: Vec<String> = Vec::new();
    grant_types.push(DEVICE_CODE_GRANT_TYPE.to_owned());
    grant_types.push(REFRESH_TOKEN_GRANT_TYPE.to_owned());
    let r = RegisterClientRequest {
        client_name: OAUTH_CLIENT_NAME.to_owned(),
        client_type: PUBLIC_CLIENT_TYPE.to_owned(),
        scopes,
        grant_types,
        issuer_url: BUILDER_ID_START_URL.to_owned(),
    };
    proof {
        assert(texts_view(r.scopes@) =~= oidc_scopes_seq());
        assert(texts_view(r.grant_types@) =~= grant_types_seq());
    }
    r
}

/// The body of the device authorization call for a registered client.
pub fn device_auth_request(client: &RegisterClientResponse) -> (r: DeviceAuthRequest)
    ensures
        r.client_id == client.client_id,
        r.client_secret == client.client_secret,
        r.start_url@ == BUILDER_ID_START_URL@,
{
    DeviceAuthRequest {
        client_id: client.client_id.clone(),
        client_secret: client.client_secret.clone(),
        start_url: BUILDER_ID_START_URL.to_owned(),
    }
}

/// What a failed call to the OIDC service reports: `HTTP`, the status as
/// displayed, a colon, and the body the service sent.
pub open spec fn http_failure_seq(status_line: Seq<char>, body: Seq<char>) -> Seq<char> {
    "HTTP "@ + status_line + ": "@ + body
}

/// The report of a failed call to the OIDC service.
pub fn http_failure_detail(status_line: &str, body: &str) -> (r: String)
    ensures
        r@ == http_failure_seq(status_line@, body@),
{
    "HTTP ".to_owned().concat(status_line).concat(": ").concat(body)
}

} // verus!
