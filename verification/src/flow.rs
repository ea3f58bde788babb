//! The decisions of the Builder ID login endpoints: what `start`, `poll`
//! and `cancel` do to the session registry and what they answer, given
//! the replies of the OIDC service.

use vstd::prelude::*;
use vstd::string::StringExecFns;
use crate::text::{same_text, decimal_seq, decimal_string};
use crate::proxy::{ProxyConfig, ProxyView, parse_proxy, proxy_from_settings, proxy_view_opt};
use crate::session::{
    OauthMeta, OauthSession, OauthSessions, JS_SAFE_MAX, unexpired, interval_raised, clone_text_opt,
};
use crate::oidc::{
    DEVICE_CODE_GRANT_TYPE, BUILDER_ID_START_URL, OAUTH_CLIENT_NAME, PUBLIC_CLIENT_TYPE,
    REGISTER_PATH, DEVICE_AUTHORIZATION_PATH, TOKEN_PATH, RegisterClientRequest,
    RegisterClientResponse, DeviceAuthResponse, TokenRequest, oidc_url, oidc_url_seq,
    resolve_region, resolved_region_seq, register_client_request, texts_view, oidc_scopes_seq,
    grant_types_seq,
};

verus! {

/// Seconds added to the polling interval when the service asks to slow down.
pub const SLOW_DOWN_BACKOFF_SECS: u64 = 5;

pub const AUTHORIZATION_PENDING: &'static str = "authorization_pending";
pub const SLOW_DOWN: &'static str = "slow_down";
pub const EXPIRED_TOKEN: &'static str = "expired_token";
pub const ACCESS_DENIED: &'static str = "access_denied";

pub const PROXY_INVALID_PREFIX: &'static str = "代理配置无效: ";
pub const CLIENT_BUILD_PREFIX: &'static str = "构建 HTTP 客户端失败: ";
pub const REGISTER_FAILED_PREFIX: &'static str = "注册 OIDC 客户端失败: ";
pub const DEVICE_AUTH_FAILED_PREFIX: &'static str = "启动设备授权失败: ";
pub const TOKEN_POLL_FAILED_PREFIX: &'static str = "轮询 Token 失败: ";
pub const TOKEN_PARSE_FAILED_PREFIX: &'static str = "解析 Token 响应失败: ";
pub const SESSION_MISSING_MESSAGE: &'static str = "登录会话不存在或已过期";
pub const SESSION_ENDED_MESSAGE: &'static str = "登录会话不存在或已结束";
pub const DEVICE_CODE_EXPIRED_MESSAGE: &'static str = "设备码已过期，请重新发起登录";
pub const MISSING_REFRESH_TOKEN_MESSAGE: &'static str = "Token 响应缺少 refreshToken";
pub const SESSION_CONSUMED_MESSAGE: &'static str = "会话已被并发消费";
pub const ACCESS_DENIED_MESSAGE: &'static str = "用户拒绝了授权";
pub const LOGIN_FAILED_PREFIX: &'static str = "登录失败: ";
pub const CANCELLED_PREFIX: &'static str = "登录会话 #";
pub const CANCELLED_SUFFIX: &'static str = " 已取消";
/// The authentication method of credentials that a Builder ID login adds.
pub const IDC_AUTH_METHOD: &'static str = "idc";

/// The class of an error answer.
#[derive(PartialEq, Eq, Debug, Clone, Copy)]
pub enum ErrorKind {
    InvalidRequest,
    InternalError,
    ApiError,
    NotFound,
}

/// An error answer: HTTP status, class and message.
#[derive(Debug)]
pub struct ErrorReply {
    pub status: u16,
    pub kind: ErrorKind,
    pub message: String,
}

/// 502: the OIDC service failed or answered something unusable.
pub fn bad_gateway(msg: String) -> (r: ErrorReply)
    ensures
        r.status == 502,
        r.kind == ErrorKind::ApiError,
        r.message == msg,
{
    ErrorReply { status: 502, kind: ErrorKind::ApiError, message: msg }
}

/// 500: something failed on this side.
pub fn internal_error(msg: String) -> (r: ErrorReply)
    ensures
        r.status == 500,
        r.kind == ErrorKind::InternalError,
        r.message == msg,
{
    ErrorReply { status: 500, kind: ErrorKind::InternalError, message: msg }
}

/// 400: the request cannot be served as given.
pub fn bad_request(msg: String) -> (r: ErrorReply)
    ensures
        r.status == 400,
        r.kind == ErrorKind::InvalidRequest,
        r.message == msg,
{
    ErrorReply { status: 400, kind: ErrorKind::InvalidRequest, message: msg }
}

/// 404: there is no such login.
pub fn not_found(msg: String) -> (r: ErrorReply)
    ensures
        r.status == 404,
        r.kind == ErrorKind::NotFound,
        r.message == msg,
{
    ErrorReply { status: 404, kind: ErrorKind::NotFound, message: msg }
}

/// The step of a login at which something outside failed.
#[derive(PartialEq, Eq, Debug, Clone, Copy)]
pub enum FailureStage {
    ProxyConfig,
    HttpClient,
    RegisterClient,
    DeviceAuthorization,
    TokenRequest,
    TokenResponse,
}

/// The status of the answer to a failure at `stage`.
pub open spec fn stage_status(stage: FailureStage) -> u16 {
    match stage {
        FailureStage::ProxyConfig => 400,
        FailureStage::HttpClient => 500,
        _ => 502,
    }
}

/// The class of the answer to a failure at `stage`.
pub open spec fn stage_kind(stage: FailureStage) -> ErrorKind {
    match stage {
        FailureStage::ProxyConfig => ErrorKind::InvalidRequest,
        FailureStage::HttpClient => ErrorKind::InternalError,
        _ => ErrorKind::ApiError,
    }
}

/// The words put before the detail of a failure at `stage`.
pub open spec fn stage_prefix(stage: FailureStage) -> Seq<char> {
    match stage {
        FailureStage::ProxyConfig => PROXY_INVALID_PREFIX@,
        FailureStage::HttpClient => CLIENT_BUILD_PREFIX@,
        FailureStage::RegisterClient => REGISTER_FAILED_PREFIX@,
        FailureStage::DeviceAuthorization => DEVICE_AUTH_FAILED_PREFIX@,
        FailureStage::TokenRequest => TOKEN_POLL_FAILED_PREFIX@,
        FailureStage::TokenResponse => TOKEN_PARSE_FAILED_PREFIX@,
    }
}

/// The answer to a failure at `stage`, `detail` saying what went wrong.
pub fn failure_reply(stage: FailureStage, detail: &str) -> (r: ErrorReply)
    ensures
        r.status == stage_status(stage),
        r.kind == stage_kind(stage),
        r.message@ == stage_prefix(stage) + detail@,
{
    match stage {
        FailureStage::ProxyConfig => bad_request(PROXY_INVALID_PREFIX.to_owned().concat(detail)),
        FailureStage::HttpClient => internal_error(CLIENT_BUILD_PREFIX.to_owned().concat(detail)),
        FailureStage::RegisterClient => bad_gateway(REGISTER_FAILED_PREFIX.to_owned().concat(detail)),
        FailureStage::DeviceAuthorization => bad_gateway(
            DEVICE_AUTH_FAILED_PREFIX.to_owned().concat(detail),
        ),
        FailureStage::TokenRequest => bad_gateway(TOKEN_POLL_FAILED_PREFIX.to_owned().concat(detail)),
        FailureStage::TokenResponse => bad_gateway(
            TOKEN_PARSE_FAILED_PREFIX.to_owned().concat(detail),
        ),
    }
}

/// A request to start a Builder ID login: the region to log in through and
/// the settings of the credential the login will add.
pub struct StartBuilderIdRequest {
    pub region: Option<String>,
    pub priority: u32,
    pub machine_id: Option<String>,
    pub auth_region: Option<String>,
    pub api_region: Option<String>,
    pub proxy_url: Option<String>,
    pub proxy_username: Option<String>,
    pub proxy_password: Option<String>,
    pub endpoint: Option<String>,
    pub email: Option<String>,
}

impl Default for StartBuilderIdRequest {
    fn default() -> (r: Self)
        ensures
            r.region is None,
            r.priority == 0,
            r.machine_id is None,
            r.auth_region is None,
            r.api_region is None,
            r.proxy_url is None,
            r.proxy_username is None,
            r.proxy_password is None,
            r.endpoint is None,
            r.email is None,
    {
        StartBuilderIdRequest {
            region: None,
            priority: 0,
            machine_id: None,
            auth_region: None,
            api_region: None,
            proxy_url: None,
            proxy_username: None,
            proxy_password: None,
            endpoint: None,
            email: None,
        }
    }
}

/// The answer to a started login: the login id to poll with and what the
/// user needs to authorize the device. `expires_in` and `interval` are in
/// seconds, as the OIDC service gave them.
pub struct StartBuilderIdResponse {
    pub login_id: u64,
    pub user_code: String,
    pub verification_uri: String,
    pub verification_uri_complete: String,
    pub expires_in: u64,
    pub interval: u64,
}

/// The outcome of one poll of a login.
pub enum PollBuilderIdResponse {
    Pending { interval: u64 },
    SlowDown { interval: u64 },
    Success { credential_id: u64, email: Option<String>, message: String },
    Expired { message: String },
    Denied { message: String },
    Error { message: String },
}

/// The proxy a login uses: its own when its settings name one, else the
/// default proxy of the service.
pub open spec fn chosen_proxy(own: Option<ProxyView>, default_proxy: Option<ProxyConfig>) -> Option<ProxyView> {
    match own {
        Some(p) => Some(p),
        None => proxy_view_opt(default_proxy),
    }
}

/// The body of the client registration call, as the OIDC service expects it.
pub open spec fn is_register_client_request(r: RegisterClientRequest) -> bool {
    &&& r.client_name@ == OAUTH_CLIENT_NAME@
    &&& r.client_type@ == PUBLIC_CLIENT_TYPE@
    &&& texts_view(r.scopes@) == oidc_scopes_seq()
    &&& texts_view(r.grant_types@) == grant_types_seq()
    &&& r.issuer_url@ == BUILDER_ID_START_URL@
}

/// What starting a login sends to the OIDC service, and through which proxy.
pub struct StartPlan {
    pub region: String,
    pub proxy: Option<ProxyConfig>,
    pub register_url: String,
    pub register_request: RegisterClientRequest,
    pub device_authorization_url: String,
}

/// First step of starting a login: drops the expired sessions, settles the
/// region and the proxy, and says what to send to the OIDC service.
pub fn plan_start(
    sessions: &mut OauthSessions,
    req: &StartBuilderIdRequest,
    default_proxy: Option<ProxyConfig>,
    now: u64,
) -> (res: Result<StartPlan, ErrorReply>)
    ensures
        final(sessions)@ == unexpired(old(sessions)@, now),
        res is Ok,
        res matches Ok(p) ==> {
            &&& p.region@ == resolved_region_seq(req.region.deep_view())
            &&& proxy_view_opt(p.proxy) == chosen_proxy(
                proxy_from_settings(
                    req.proxy_url.deep_view(),
                    req.proxy_username.deep_view(),
                    req.proxy_password.deep_view(),
                ),
                default_proxy,
            )
            &&& p.register_url@ == oidc_url_seq(p.region@, REGISTER_PATH@)
            &&& p.device_authorization_url@ == oidc_url_seq(p.region@, DEVICE_AUTHORIZATION_PATH@)
            &&& is_register_client_request(p.register_request)
        },
{
    sessions.gc_expired(now);
    let region = resolve_region(&req.region);
    let proxy = match parse_proxy(&req.proxy_url, &req.proxy_username, &req.proxy_password) {
        Ok(p) => match p {
            Some(own) => Some(own),
            None => default_proxy,
        },
        Err(e) => {
            return Err(failure_reply(FailureStage::ProxyConfig, e.as_str()));
        },
    };
    let register_url = oidc_url(region.as_str(), REGISTER_PATH);
    let device_authorization_url = oidc_url(region.as_str(), DEVICE_AUTHORIZATION_PATH);
    let register_request = register_client_request();
    Ok(StartPlan { region, proxy, register_url, register_request, device_authorization_url })
}

/// The settings of a login request that its session keeps.
pub open spec fn session_meta(req: StartBuilderIdRequest) -> OauthMeta {
    OauthMeta {
        priority: req.priority,
        machine_id: req.machine_id,
        auth_region: req.auth_region,
        api_region: req.api_region,
        proxy_url: req.proxy_url,
        proxy_username: req.proxy_username,
        proxy_password: req.proxy_password,
        endpoint: req.endpoint,
        email: req.email,
    }
}

/// The deadline of a device code handed out at `now` (milliseconds) and
/// valid for `expires_in` seconds; a deadline past the end of the clock
/// is the clock's last point.
pub open spec fn deadline(now: u64, expires_in: u64) -> u64 {
    if now + expires_in * 1000 > u64::MAX {
        u64::MAX
    } else {
        (now + expires_in * 1000) as u64
    }
}

/// The deadline of a device code handed out at `now`.
pub fn device_code_deadline(now: u64, expires_in: u64) -> (r: u64)
    ensures
        r == deadline(now, expires_in),
{
    match expires_in.checked_mul(1000) {
        Some(d) => now.saturating_add(d),
        None => u64::MAX,
    }
}

/// The session a login keeps once the device authorization has started.
/// The polling interval is at least one second.
pub open spec fn new_session(
    req: StartBuilderIdRequest,
    region: String,
    client: RegisterClientResponse,
    auth: DeviceAuthResponse,
    now: u64,
) -> OauthSession {
    OauthSession {
        client_id: client.client_id,
        client_secret: client.client_secret,
        device_code: auth.device_code,
        region,
        expires_at: deadline(now, auth.expires_in),
        interval: if auth.interval >= 1 { auth.interval } else { 1 },
        meta: session_meta(req),
    }
}

/// Last step of starting a login: stores the session under a fresh login
/// id and answers with what the user needs to authorize the device.
pub fn complete_start(
    sessions: &mut OauthSessions,
    req: StartBuilderIdRequest,
    region: String,
    client: RegisterClientResponse,
    auth: DeviceAuthResponse,
    now: u64,
) -> (res: StartBuilderIdResponse)
    requires
        old(sessions)@.len() < JS_SAFE_MAX - 1,
    ensures
        1 <= res.login_id < JS_SAFE_MAX,
        !old(sessions)@.contains_key(res.login_id),
        final(sessions)@ == old(sessions)@.insert(
            res.login_id,
            new_session(req, region, client, auth, now),
        ),
        final(sessions)@[res.login_id].client_id == client.client_id,
        final(sessions)@[res.login_id].client_secret == client.client_secret,
        final(sessions)@[res.login_id].device_code == auth.device_code,
        final(sessions)@[res.login_id].region == region,
        final(sessions)@[res.login_id].interval >= 1,
        final(sessions)@[res.login_id].expires_at >= now,
        forall|k: u64| #[trigger] old(sessions)@.contains_key(k) ==> final(sessions)@.contains_key(k)
            && final(sessions)@[k] == old(sessions)@[k],
        res.user_code == auth.user_code,
        res.verification_uri == auth.verification_uri,
        res.verification_uri_complete == auth.verification_uri_complete,
        res.expires_in == auth.expires_in,
        res.interval == auth.interval,
{
    let login_id = sessions.fresh_login_id();
    let interval = if auth.interval >= 1 { auth.interval } else { 1 };
    let meta = OauthMeta {
        priority: req.priority,
        machine_id: req.machine_id,
        auth_region: req.auth_region,
        api_region: req.api_region,
        proxy_url: req.proxy_url,
        proxy_username: req.proxy_username,
        proxy_password: req.proxy_password,
        endpoint: req.endpoint,
        email: req.email,
    };
    let session = OauthSession {
        client_id: client.client_id,
        client_secret: client.client_secret,
        device_code: auth.device_code,
        region,
        expires_at: device_code_deadline(now, auth.expires_in),
        interval,
        meta,
    };
    sessions.insert(login_id, session);
    StartBuilderIdResponse {
        login_id,
        user_code: auth.user_code,
        verification_uri: auth.verification_uri,
        verification_uri_complete: auth.verification_uri_complete,
        expires_in: auth.expires_in,
        interval: auth.interval,
    }
}

/// The token call of a pending login.
pub struct TokenCall {
    pub session: OauthSession,
    pub proxy: Option<ProxyConfig>,
    pub url: String,
    pub request: TokenRequest,
}

/// What the first step of a poll leads to: an answer right away, or a
/// token call to make.
pub enum PollStart {
    Finished(Result<PollBuilderIdResponse, ErrorReply>),
    Request(TokenCall),
}

/// `c` is the token call for session `s`: the device code grant for the
/// session's device code, sent to its region through its proxy (or the
/// default one).
pub open spec fn is_token_call(c: TokenCall, s: OauthSession, default_proxy: Option<ProxyConfig>) -> bool {
    &&& c.session == s
    &&& proxy_view_opt(c.proxy) == chosen_proxy(
        proxy_from_settings(
            s.meta.proxy_url.deep_view(),
            s.meta.proxy_username.deep_view(),
            s.meta.proxy_password.deep_view(),
        ),
        default_proxy,
    )
    &&& c.url@ == oidc_url_seq(s.region@, TOKEN_PATH@)
    &&& c.request.client_id == s.client_id
    &&& c.request.client_secret == s.client_secret
    &&& c.request.grant_type@ == DEVICE_CODE_GRANT_TYPE@
    &&& c.request.device_code == s.device_code
}

/// First step of a poll of login `login_id` at `now`: an unknown login is
/// not found; an expired one is dropped and reported expired; otherwise
/// the token call to make.
pub fn begin_poll(
    sessions: &mut OauthSessions,
    login_id: u64,
    default_proxy: Option<ProxyConfig>,
    now: u64,
) -> (res: PollStart)
    ensures
        !old(sessions)@.contains_key(login_id) ==> {
            &&& final(sessions)@ == old(sessions)@
            &&& res matches PollStart::Finished(Err(e))
            &&& e.status == 404
            &&& e.kind == ErrorKind::NotFound
            &&& e.message@ == SESSION_MISSING_MESSAGE@
        },
        old(sessions)@.contains_key(login_id) && now > old(sessions)@[login_id].expires_at ==> {
            &&& final(sessions)@ == old(sessions)@.remove(login_id)
            &&& res matches PollStart::Finished(Ok(PollBuilderIdResponse::Expired { message }))
            &&& message@ == DEVICE_CODE_EXPIRED_MESSAGE@
        },
        old(sessions)@.contains_key(login_id) && now <= old(sessions)@[login_id].expires_at ==> {
            &&& final(sessions)@ == old(sessions)@
            &&& res matches PollStart::Request(c)
            &&& is_token_call(c, old(sessions)@[login_id], default_proxy)
        },
{
    let session = match sessions.get(login_id) {
        Some(s) => s,
        None => {
            return PollStart::Finished(Err(not_found(SESSION_MISSING_MESSAGE.to_owned())));
        },
    };
    if now > session.expires_at {
        sessions.remove(login_id);
        return PollStart::Finished(
            Ok(PollBuilderIdResponse::Expired { message: DEVICE_CODE_EXPIRED_MESSAGE.to_owned() }),
        );
    }
    let proxy = match parse_proxy(
        &session.meta.proxy_url,
        &session.meta.proxy_username,
        &session.meta.proxy_password,
    ) {
        Ok(p) => match p {
            Some(own) => Some(own),
            None => default_proxy,
        },
        Err(e) => {
            return PollStart::Finished(Err(failure_reply(FailureStage::ProxyConfig, e.as_str())));
        },
    };
    let url = oidc_url(session.region.as_str(), TOKEN_PATH);
    let request = TokenRequest {
        client_id: session.client_id.clone(),
        client_secret: session.client_secret.clone(),
        grant_type: DEVICE_CODE_GRANT_TYPE.to_owned(),
        device_code: session.device_code.clone(),
    };
    PollStart::Request(TokenCall { session, proxy, url, request })
}

/// What the token endpoint answered. `Granted` is a success status with a
/// readable body; `Rejected` is any other status, with the `error` and
/// `error_description` fields of the body when it could be read, the
/// status as displayed, and the raw body.
pub enum TokenReply {
    Granted { refresh_token: Option<String> },
    Rejected {
        error: Option<String>,
        error_description: Option<String>,
        status_line: String,
        body: String,
    },
}

/// A credential to add for a finished login.
pub struct AddCredentialRequest {
    pub refresh_token: Option<String>,
    pub auth_method: String,
    pub client_id: Option<String>,
    pub client_secret: Option<String>,
    pub priority: u32,
    pub region: Option<String>,
    pub auth_region: Option<String>,
    pub api_region: Option<String>,
    pub machine_id: Option<String>,
    pub email: Option<String>,
    pub proxy_url: Option<String>,
    pub proxy_username: Option<String>,
    pub proxy_password: Option<String>,
    pub kiro_api_key: Option<String>,
    pub endpoint: Option<String>,
}

/// `r` is the credential of session `s` with refresh token `token`: an
/// IdC credential with the session's client, region and settings.
pub open spec fn is_credential_for(r: AddCredentialRequest, s: OauthSession, token: String) -> bool {
    &&& r.refresh_token == Some(token)
    &&& r.auth_method@ == IDC_AUTH_METHOD@
    &&& r.client_id == Some(s.client_id)
    &&& r.client_secret == Some(s.client_secret)
    &&& r.priority == s.meta.priority
    &&& r.region == Some(s.region)
    &&& r.auth_region == s.meta.auth_region
    &&& r.api_region == s.meta.api_region
    &&& r.machine_id == s.meta.machine_id
    &&& r.email == s.meta.email
    &&& r.proxy_url == s.meta.proxy_url
    &&& r.proxy_username == s.meta.proxy_username
    &&& r.proxy_password == s.meta.proxy_password
    &&& r.kiro_api_key is None
    &&& r.endpoint == s.meta.endpoint
}

/// What a poll leads to once the token endpoint answered: an answer, or a
/// credential to add (whose outcome the caller reports).
pub enum PollNext {
    Finished(Result<PollBuilderIdResponse, ErrorReply>),
    AddCredential(AddCredentialRequest),
}

/// The error code of a rejected token call; an absent code reads as empty.
pub open spec fn error_code_seq(error: Option<String>) -> Seq<char> {
    match error {
        Some(e) => e@,
        None => ""@,
    }
}

/// What a login failure reports: the error description, else the error
/// code, else the HTTP status and body.
pub open spec fn failure_detail_seq(
    error: Option<String>,
    error_description: Option<String>,
    status_line: Seq<char>,
    body: Seq<char>,
) -> Seq<char> {
    match error_description {
        Some(d) => d@,
        None => match error {
            Some(e) => e@,
            None => "HTTP "@ + status_line + " "@ + body,
        },
    }
}

/// The interval reported after a slow-down of login `id`: the raised
/// interval of the stored session, or the polled session's interval plus
/// the back-off when the session is gone.
pub open spec fn slowed_interval(m: Map<u64, OauthSession>, id: u64, polled: OauthSession) -> u64 {
    if m.contains_key(id) {
        m[id].interval
    } else {
        (polled.interval + SLOW_DOWN_BACKOFF_SECS) as u64
    }
}

/// Whether a granted token call for login `id` adds a credential: only
/// while the login's session is still there to be claimed.
pub open spec fn grant_adds_credential(m: Map<u64, OauthSession>, id: u64) -> bool {
    m.contains_key(id)
}

/// The registry after a granted token call for login `id` carrying a
/// refresh token: the session is claimed (removed) when it is there.
pub open spec fn after_grant(m: Map<u64, OauthSession>, id: u64) -> Map<u64, OauthSession> {
    if m.contains_key(id) {
        m.remove(id)
    } else {
        m
    }
}

/// How a poll of login `login_id` (whose session read `session`) goes on
/// once the token endpoint answered `reply`.
pub fn on_token_reply(
    sessions: &mut OauthSessions,
    login_id: u64,
    session: &OauthSession,
    reply: TokenReply,
) -> (res: PollNext)
    requires
        match reply {
            TokenReply::Rejected { error, .. } =>
                error_code_seq(error) == SLOW_DOWN@ && !old(sessions)@.contains_key(login_id)
                    ==> session.interval + SLOW_DOWN_BACKOFF_SECS <= u64::MAX,
            _ => true,
        },
    ensures
        match reply {
            TokenReply::Granted { refresh_token: None } => {
                &&& final(sessions)@ == old(sessions)@
                &&& res matches PollNext::Finished(Err(e))
                &&& e.status == 502
                &&& e.kind == ErrorKind::ApiError
                &&& e.message@ == MISSING_REFRESH_TOKEN_MESSAGE@
            },
            TokenReply::Granted { refresh_token: Some(token) } => {
                &&& final(sessions)@ == after_grant(old(sessions)@, login_id)
                &&& (res is AddCredential) == grant_adds_credential(old(sessions)@, login_id)
                &&& if old(sessions)@.contains_key(login_id) {
                    &&& final(sessions)@ == old(sessions)@.remove(login_id)
                    &&& res matches PollNext::AddCredential(r)
                    &&& is_credential_for(r, old(sessions)@[login_id], token)
                } else {
                    &&& final(sessions)@ == old(sessions)@
                    &&& res matches PollNext::Finished(Err(e))
                    &&& e.status == 500
                    &&& e.kind == ErrorKind::InternalError
                    &&& e.message@ == SESSION_CONSUMED_MESSAGE@
                }
            },
            TokenReply::Rejected { error, error_description, status_line, body } => {
                let code = error_code_seq(error);
                if code == AUTHORIZATION_PENDING@ {
                    &&& final(sessions)@ == old(sessions)@
                    &&& res == PollNext::Finished(
                        Ok(PollBuilderIdResponse::Pending { interval: session.interval }),
                    )
                } else if code == SLOW_DOWN@ {
                    &&& final(sessions)@ == interval_raised(
                        old(sessions)@, login_id, SLOW_DOWN_BACKOFF_SECS,
                    )
                    &&& res == PollNext::Finished(
                        Ok(PollBuilderIdResponse::SlowDown {
                            interval: slowed_interval(final(sessions)@, login_id, *session),
                        }),
                    )
                } else if code == EXPIRED_TOKEN@ {
                    &&& final(sessions)@ == old(sessions)@.remove(login_id)
                    &&& res matches PollNext::Finished(Ok(PollBuilderIdResponse::Expired { message }))
                    &&& message@ == DEVICE_CODE_EXPIRED_MESSAGE@
                } else if code == ACCESS_DENIED@ {
                    &&& final(sessions)@ == old(sessions)@.remove(login_id)
                    &&& res matches PollNext::Finished(Ok(PollBuilderIdResponse::Denied { message }))
                    &&& message@ == ACCESS_DENIED_MESSAGE@
                } else {
                    &&& final(sessions)@ == old(sessions)@
                    &&& res matches PollNext::Finished(Ok(PollBuilderIdResponse::Error { message }))
                    &&& message@ == LOGIN_FAILED_PREFIX@ + failure_detail_seq(
                        error, error_description, status_line@, body@,
                    )
                }
            },
        },
{
    match reply {
        TokenReply::Granted { refresh_token } => {
            let token = match refresh_token {
                Some(t) => t,
                None => {
                    return PollNext::Finished(
                        Err(bad_gateway(MISSING_REFRESH_TOKEN_MESSAGE.to_owned())),
                    );
                },
            };
            let taken = match sessions.remove(login_id) {
                Some(s) => s,
                None => {
                    return PollNext::Finished(
                        Err(internal_error(SESSION_CONSUMED_MESSAGE.to_owned())),
                    );
                },
            };
            let email = clone_text_opt(&taken.meta.email);
            PollNext::AddCredential(AddCredentialRequest {
                refresh_token: Some(token),
                auth_method: IDC_AUTH_METHOD.to_owned(),
                client_id: Some(taken.client_id),
                client_secret: Some(taken.client_secret),
                priority: taken.meta.priority,
                region: Some(taken.region),
                auth_region: taken.meta.auth_region,
                api_region: taken.meta.api_region,
                machine_id: taken.meta.machine_id,
                email,
                proxy_url: taken.meta.proxy_url,
                proxy_username: taken.meta.proxy_username,
                proxy_password: taken.meta.proxy_password,
                kiro_api_key: None,
                endpoint: taken.meta.endpoint,
            })
        },
        TokenReply::Rejected { error, error_description, status_line, body } => {
            let code: &str = match &error {
                Some(e) => e.as_str(),
                None => "",
            };
            if same_text(code, AUTHORIZATION_PENDING) {
                PollNext::Finished(Ok(PollBuilderIdResponse::Pending { interval: session.interval }))
            } else if same_text(code, SLOW_DOWN) {
                sessions.increase_interval(login_id, SLOW_DOWN_BACKOFF_SECS);
                let interval = match sessions.get(login_id) {
                    Some(s) => s.interval,
                    None => session.interval + SLOW_DOWN_BACKOFF_SECS,
                };
                PollNext::Finished(Ok(PollBuilderIdResponse::SlowDown { interval }))
            } else if same_text(code, EXPIRED_TOKEN) {
                sessions.remove(login_id);
                PollNext::Finished(
                    Ok(PollBuilderIdResponse::Expired { message: DEVICE_CODE_EXPIRED_MESSAGE.to_owned() }),
                )
            } else if same_text(code, ACCESS_DENIED) {
                sessions.remove(login_id);
                PollNext::Finished(
                    Ok(PollBuilderIdResponse::Denied { message: ACCESS_DENIED_MESSAGE.to_owned() }),
                )
            } else {
                let detail: String = match error_description {
                    Some(d) => d,
                    None => match error {
                        Some(e) => e,
                        None => "HTTP ".to_owned().concat(status_line.as_str()).concat(" ").concat(
                            body.as_str(),
                        ),
                    },
                };
                let message = LOGIN_FAILED_PREFIX.to_owned().concat(detail.as_str());
                PollNext::Finished(Ok(PollBuilderIdResponse::Error { message }))
            }
        },
    }
}

/// What adding a credential answered.
pub struct AddCredentialResponse {
    pub credential_id: u64,
    pub email: Option<String>,
    pub message: String,
}

/// The answer to a poll whose login finished and whose credential was
/// handed to the credential store: on success the credential's id, email
/// and message; on failure the store's own error, passed on unchanged.
/// The session stays claimed either way.
pub fn credential_added_reply(
    outcome: Result<AddCredentialResponse, ErrorReply>,
) -> (r: Result<PollBuilderIdResponse, ErrorReply>)
    ensures
        match outcome {
            Ok(a) => r == Ok::<PollBuilderIdResponse, ErrorReply>(
                PollBuilderIdResponse::Success {
                    credential_id: a.credential_id,
                    email: a.email,
                    message: a.message,
                },
            ),
            Err(e) => r == Err::<PollBuilderIdResponse, ErrorReply>(e),
        },
{
    match outcome {
        Ok(a) => Ok(
            PollBuilderIdResponse::Success {
                credential_id: a.credential_id,
                email: a.email,
                message: a.message,
            },
        ),
        Err(e) => Err(e),
    }
}

/// The message of a cancelled login.
pub open spec fn cancelled_message_seq(login_id: u64) -> Seq<char> {
    CANCELLED_PREFIX@ + decimal_seq(login_id as nat) + CANCELLED_SUFFIX@
}

/// Cancels login `login_id`: the session is dropped; the answer says it was
/// cancelled, or that there was no such login.
pub fn cancel_builder_id(sessions: &mut OauthSessions, login_id: u64) -> (res: Result<String, ErrorReply>)
    ensures
        final(sessions)@ == old(sessions)@.remove(login_id),
        res is Ok <==> old(sessions)@.contains_key(login_id),
        res matches Ok(m) ==> m@ == cancelled_message_seq(login_id),
        res matches Err(e) ==> {
            &&& e.status == 404
            &&& e.kind == ErrorKind::NotFound
            &&& e.message@ == SESSION_ENDED_MESSAGE@
        },
{
    let existed = sessions.remove(login_id).is_some();
    if existed {
        let id = decimal_string(login_id);
        Ok(CANCELLED_PREFIX.to_owned().concat(id.as_str()).concat(CANCELLED_SUFFIX))
    } else {
        Err(not_found(SESSION_ENDED_MESSAGE.to_owned()))
    }
}

} // verus!
