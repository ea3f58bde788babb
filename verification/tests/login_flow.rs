use kiro_oauth::session::{OauthMeta, OauthSession, OauthSessions, JS_SAFE_MAX};
use kiro_oauth::oidc::{
    http_failure_detail, oidc_url, resolve_region, register_client_request, device_auth_request, RegisterClientResponse,
    DeviceAuthResponse,
};
use kiro_oauth::flow::{
    plan_start, complete_start, begin_poll, on_token_reply, cancel_builder_id, failure_reply,
    bad_gateway, internal_error, bad_request, not_found, ErrorKind, FailureStage, PollStart,
    PollNext, PollBuilderIdResponse, StartBuilderIdRequest, TokenReply, AddCredentialResponse,
    credential_added_reply, device_code_deadline,
};
use kiro_oauth::proxy::ProxyConfig;

fn some(s: &str) -> Option<String> {
    Some(s.to_string())
}

fn session(expires_at: u64, interval: u64) -> OauthSession {
    OauthSession {
        client_id: "cid".to_string(),
        client_secret: "csecret".to_string(),
        device_code: "dev".to_string(),
        region: "us-east-1".to_string(),
        expires_at,
        interval,
        meta: OauthMeta {
            priority: 3,
            machine_id: some("m1"),
            auth_region: some("ar"),
            api_region: some("pr"),
            proxy_url: None,
            proxy_username: None,
            proxy_password: None,
            endpoint: some("ep"),
            email: some("a@b.c"),
        },
    }
}

fn rejected(error: Option<&str>, description: Option<&str>) -> TokenReply {
    TokenReply::Rejected {
        error: error.map(|s| s.to_string()),
        error_description: description.map(|s| s.to_string()),
        status_line: "400 Bad Request".to_string(),
        body: "{\"x\":1}".to_string(),
    }
}

#[test]
fn registry_insert_get_remove() {
    let mut m = OauthSessions::new();
    assert_eq!(m.len(), 0);
    m.insert(5, session(100, 5));
    let got = m.get(5).unwrap();
    assert_eq!(got.client_id, "cid");
    assert_eq!(got.meta.email, some("a@b.c"));
    assert!(m.get(6).is_none());
    let taken = m.remove(5).unwrap();
    assert_eq!(taken.device_code, "dev");
    assert!(m.get(5).is_none());
    assert!(m.remove(5).is_none());
}

#[test]
fn gc_drops_sessions_not_after_now() {
    let mut m = OauthSessions::new();
    m.insert(1, session(99, 5));
    m.insert(2, session(100, 5));
    m.insert(3, session(101, 5));
    m.gc_expired(100);
    assert!(m.get(1).is_none());
    assert!(m.get(2).is_none());
    assert!(m.get(3).is_some());
    assert_eq!(m.len(), 1);
    m.gc_expired(100);
    assert_eq!(m.len(), 1);
}

#[test]
fn increase_interval_saturates_and_ignores_unknown_ids() {
    let mut m = OauthSessions::new();
    m.insert(1, session(100, 5));
    m.insert(2, session(100, u64::MAX - 2));
    m.increase_interval(1, 5);
    m.increase_interval(2, 5);
    m.increase_interval(3, 5);
    assert_eq!(m.get(1).unwrap().interval, 10);
    assert_eq!(m.get(2).unwrap().interval, u64::MAX);
    assert!(m.get(3).is_none());
    assert_eq!(m.len(), 2);
}

#[test]
fn fresh_login_ids_are_unused_and_js_safe() {
    let mut m = OauthSessions::new();
    for _ in 0..50 {
        let id = m.fresh_login_id();
        assert!(id >= 1 && id < JS_SAFE_MAX);
        assert!(m.get(id).is_none());
        m.insert(id, session(100, 5));
    }
    assert_eq!(m.len(), 50);
    assert_eq!(JS_SAFE_MAX, (1u64 << 53) - 1);
}

#[test]
fn oidc_urls_and_region() {
    assert_eq!(oidc_url("eu-west-1", "/token"), "https://oidc.eu-west-1.amazonaws.com/token");
    assert_eq!(resolve_region(&None), "us-east-1");
    assert_eq!(resolve_region(&some("  ")), "us-east-1");
    assert_eq!(resolve_region(&some(" eu-west-1")), " eu-west-1");
}

#[test]
fn register_and_device_requests() {
    let r = register_client_request();
    assert_eq!(r.client_name, "kiro-rs");
    assert_eq!(r.client_type, "public");
    assert_eq!(
        r.scopes,
        vec![
            "codewhisperer:completions",
            "codewhisperer:analysis",
            "codewhisperer:conversations",
            "codewhisperer:transformations",
            "codewhisperer:taskassist",
        ]
    );
    assert_eq!(r.grant_types, vec!["urn:ietf:params:oauth:grant-type:device_code", "refresh_token"]);
    assert_eq!(r.issuer_url, "https://view.awsapps.com/start");
    let client = RegisterClientResponse { client_id: "i".to_string(), client_secret: "s".to_string() };
    let d = device_auth_request(&client);
    assert_eq!(d.client_id, "i");
    assert_eq!(d.client_secret, "s");
    assert_eq!(d.start_url, "https://view.awsapps.com/start");
}

#[test]
fn error_replies() {
    let e = bad_gateway("x".to_string());
    assert_eq!((e.status, e.kind, e.message.as_str()), (502, ErrorKind::ApiError, "x"));
    let e = internal_error("y".to_string());
    assert_eq!((e.status, e.kind), (500, ErrorKind::InternalError));
    let e = bad_request("z".to_string());
    assert_eq!((e.status, e.kind), (400, ErrorKind::InvalidRequest));
    let e = not_found("w".to_string());
    assert_eq!((e.status, e.kind), (404, ErrorKind::NotFound));
    let e = failure_reply(FailureStage::RegisterClient, "boom");
    assert_eq!(e.status, 502);
    assert_eq!(e.message, "注册 OIDC 客户端失败: boom");
    let e = failure_reply(FailureStage::HttpClient, "tls");
    assert_eq!(e.status, 500);
    assert_eq!(e.message, "构建 HTTP 客户端失败: tls");
    let e = failure_reply(FailureStage::ProxyConfig, "bad");
    assert_eq!((e.status, e.kind), (400, ErrorKind::InvalidRequest));
    assert_eq!(e.message, "代理配置无效: bad");
    assert_eq!(failure_reply(FailureStage::DeviceAuthorization, "d").message, "启动设备授权失败: d");
    assert_eq!(failure_reply(FailureStage::TokenRequest, "t").message, "轮询 Token 失败: t");
    assert_eq!(failure_reply(FailureStage::TokenResponse, "p").message, "解析 Token 响应失败: p");
}

#[test]
fn start_plans_and_completes_a_login() {
    let mut m = OauthSessions::new();
    m.insert(9, session(10, 5));
    let req = StartBuilderIdRequest {
        region: some("eu-central-1"),
        priority: 7,
        proxy_url: some("direct"),
        email: some("me@x.y"),
        ..StartBuilderIdRequest::default()
    };
    let default_proxy = Some(ProxyConfig::new("http://global:1"));
    let plan = plan_start(&mut m, &req, default_proxy, 20).ok().unwrap();
    assert!(m.get(9).is_none());
    assert_eq!(plan.region, "eu-central-1");
    assert_eq!(plan.proxy.as_ref().unwrap().url, "http://global:1");
    assert_eq!(plan.register_url, "https://oidc.eu-central-1.amazonaws.com/client/register");
    assert_eq!(plan.device_authorization_url, "https://oidc.eu-central-1.amazonaws.com/device_authorization");

    let client = RegisterClientResponse { client_id: "i".to_string(), client_secret: "s".to_string() };
    let auth = DeviceAuthResponse {
        device_code: "dc".to_string(),
        user_code: "ABCD-EFGH".to_string(),
        verification_uri: "https://v".to_string(),
        verification_uri_complete: "https://v?c=ABCD".to_string(),
        expires_in: 600,
        interval: 0,
    };
    let resp = complete_start(&mut m, req, plan.region, client, auth, 20);
    assert!(resp.login_id >= 1 && resp.login_id < JS_SAFE_MAX);
    assert_eq!(resp.user_code, "ABCD-EFGH");
    assert_eq!(resp.verification_uri_complete, "https://v?c=ABCD");
    assert_eq!(resp.expires_in, 600);
    assert_eq!(resp.interval, 0);
    let s = m.get(resp.login_id).unwrap();
    assert_eq!(s.expires_at, 20 + 600_000);
    assert_eq!(s.interval, 1);
    assert_eq!(s.device_code, "dc");
    assert_eq!(s.region, "eu-central-1");
    assert_eq!(s.meta.priority, 7);
    assert_eq!(s.meta.email, some("me@x.y"));
    assert_eq!(s.meta.proxy_url, some("direct"));
}

#[test]
fn start_uses_own_proxy_when_given() {
    let mut m = OauthSessions::new();
    let req = StartBuilderIdRequest {
        proxy_url: some(" http://own:2 "),
        proxy_username: some("u"),
        proxy_password: some("p"),
        ..StartBuilderIdRequest::default()
    };
    let plan = plan_start(&mut m, &req, Some(ProxyConfig::new("http://global:1")), 0).ok().unwrap();
    let p = plan.proxy.unwrap();
    assert_eq!(p.url, "http://own:2");
    assert_eq!(p.username, some("u"));
    assert_eq!(plan.region, "us-east-1");
}

#[test]
fn poll_unknown_expired_and_live_logins() {
    let mut m = OauthSessions::new();
    match begin_poll(&mut m, 1, None, 0) {
        PollStart::Finished(Err(e)) => {
            assert_eq!(e.status, 404);
            assert_eq!(e.message, "登录会话不存在或已过期");
        }
        _ => panic!("expected not found"),
    }
    m.insert(1, session(100, 5));
    match begin_poll(&mut m, 1, None, 100) {
        PollStart::Request(call) => {
            assert_eq!(call.url, "https://oidc.us-east-1.amazonaws.com/token");
            assert_eq!(call.request.grant_type, "urn:ietf:params:oauth:grant-type:device_code");
            assert_eq!(call.request.device_code, "dev");
            assert_eq!(call.request.client_id, "cid");
            assert!(call.proxy.is_none());
            assert_eq!(call.session.interval, 5);
        }
        _ => panic!("expected a token call"),
    }
    match begin_poll(&mut m, 1, None, 101) {
        PollStart::Finished(Ok(PollBuilderIdResponse::Expired { message })) => {
            assert_eq!(message, "设备码已过期，请重新发起登录");
        }
        _ => panic!("expected expired"),
    }
    assert!(m.get(1).is_none());
}

#[test]
fn token_granted_adds_credential_and_ends_login() {
    let mut m = OauthSessions::new();
    m.insert(4, session(100, 5));
    let snap = m.get(4).unwrap();
    match on_token_reply(&mut m, 4, &snap, TokenReply::Granted { refresh_token: some("rt") }) {
        PollNext::AddCredential(r) => {
            assert_eq!(r.refresh_token, some("rt"));
            assert_eq!(r.auth_method, "idc");
            assert_eq!(r.client_id, some("cid"));
            assert_eq!(r.client_secret, some("csecret"));
            assert_eq!(r.region, some("us-east-1"));
            assert_eq!(r.priority, 3);
            assert_eq!(r.machine_id, some("m1"));
            assert_eq!(r.email, some("a@b.c"));
            assert_eq!(r.endpoint, some("ep"));
            assert!(r.kiro_api_key.is_none());
        }
        _ => panic!("expected credential"),
    }
    assert!(m.get(4).is_none());
    match on_token_reply(&mut m, 4, &snap, TokenReply::Granted { refresh_token: some("rt") }) {
        PollNext::Finished(Err(e)) => {
            assert_eq!(e.status, 500);
            assert_eq!(e.message, "会话已被并发消费");
        }
        _ => panic!("expected consumed"),
    }
    match on_token_reply(&mut m, 4, &snap, TokenReply::Granted { refresh_token: None }) {
        PollNext::Finished(Err(e)) => {
            assert_eq!(e.status, 502);
            assert_eq!(e.message, "Token 响应缺少 refreshToken");
        }
        _ => panic!("expected missing token"),
    }
}

#[test]
fn token_rejections() {
    let mut m = OauthSessions::new();
    m.insert(4, session(100, 5));
    let snap = m.get(4).unwrap();
    match on_token_reply(&mut m, 4, &snap, rejected(Some("authorization_pending"), None)) {
        PollNext::Finished(Ok(PollBuilderIdResponse::Pending { interval })) => assert_eq!(interval, 5),
        _ => panic!("expected pending"),
    }
    match on_token_reply(&mut m, 4, &snap, rejected(Some("slow_down"), Some("easy"))) {
        PollNext::Finished(Ok(PollBuilderIdResponse::SlowDown { interval })) => assert_eq!(interval, 10),
        _ => panic!("expected slow down"),
    }
    match on_token_reply(&mut m, 4, &snap, rejected(Some("slow_down"), None)) {
        PollNext::Finished(Ok(PollBuilderIdResponse::SlowDown { interval })) => assert_eq!(interval, 15),
        _ => panic!("expected slow down"),
    }
    assert_eq!(m.get(4).unwrap().interval, 15);
    match on_token_reply(&mut m, 4, &snap, rejected(Some("weird"), Some("it broke"))) {
        PollNext::Finished(Ok(PollBuilderIdResponse::Error { message })) => {
            assert_eq!(message, "登录失败: it broke")
        }
        _ => panic!("expected error"),
    }
    match on_token_reply(&mut m, 4, &snap, rejected(Some("weird"), None)) {
        PollNext::Finished(Ok(PollBuilderIdResponse::Error { message })) => {
            assert_eq!(message, "登录失败: weird")
        }
        _ => panic!("expected error"),
    }
    match on_token_reply(&mut m, 4, &snap, rejected(None, None)) {
        PollNext::Finished(Ok(PollBuilderIdResponse::Error { message })) => {
            assert_eq!(message, "登录失败: HTTP 400 Bad Request {\"x\":1}")
        }
        _ => panic!("expected error"),
    }
    assert!(m.get(4).is_some());
    match on_token_reply(&mut m, 4, &snap, rejected(Some("access_denied"), None)) {
        PollNext::Finished(Ok(PollBuilderIdResponse::Denied { message })) => {
            assert_eq!(message, "用户拒绝了授权")
        }
        _ => panic!("expected denied"),
    }
    assert!(m.get(4).is_none());
    m.insert(4, session(100, 5));
    match on_token_reply(&mut m, 4, &snap, rejected(Some("expired_token"), None)) {
        PollNext::Finished(Ok(PollBuilderIdResponse::Expired { .. })) => {}
        _ => panic!("expected expired"),
    }
    assert!(m.get(4).is_none());
    match on_token_reply(&mut m, 4, &snap, rejected(Some("slow_down"), None)) {
        PollNext::Finished(Ok(PollBuilderIdResponse::SlowDown { interval })) => assert_eq!(interval, 10),
        _ => panic!("expected slow down"),
    }
}

#[test]
fn cancel_once_then_not_found() {
    let mut m = OauthSessions::new();
    m.insert(42, session(100, 5));
    assert_eq!(cancel_builder_id(&mut m, 42).unwrap(), "登录会话 #42 已取消");
    let e = cancel_builder_id(&mut m, 42).unwrap_err();
    assert_eq!(e.status, 404);
    assert_eq!(e.kind, ErrorKind::NotFound);
    assert_eq!(e.message, "登录会话不存在或已结束");
}

#[test]
fn new_login_keeps_pending_logins() {
    let mut m = OauthSessions::new();
    m.insert(11, session(1_000, 5));
    m.insert(12, session(2_000, 7));
    let client = RegisterClientResponse { client_id: "i".to_string(), client_secret: "s".to_string() };
    let auth = DeviceAuthResponse {
        device_code: "dc".to_string(),
        user_code: "U".to_string(),
        verification_uri: "v".to_string(),
        verification_uri_complete: "vc".to_string(),
        expires_in: 5,
        interval: 3,
    };
    let resp = complete_start(&mut m, StartBuilderIdRequest::default(), "r".to_string(), client, auth, 0);
    assert!(resp.login_id != 11 && resp.login_id != 12);
    assert_eq!(m.len(), 3);
    assert_eq!(m.get(11).unwrap().expires_at, 1_000);
    assert_eq!(m.get(12).unwrap().interval, 7);
    assert_eq!(m.get(resp.login_id).unwrap().interval, 3);
}

#[test]
fn session_kept_by_gc_is_not_expired_on_poll() {
    let mut m = OauthSessions::new();
    m.insert(8, session(100, 5));
    m.gc_expired(99);
    assert!(m.get(8).is_some());
    match begin_poll(&mut m, 8, None, 99) {
        PollStart::Request(_) => {}
        _ => panic!("expected a token call"),
    }
}

#[test]
fn credential_store_reply_becomes_poll_answer() {
    let ok = credential_added_reply(Ok(AddCredentialResponse {
        credential_id: 17,
        email: some("x@y.z"),
        message: "added".to_string(),
    }));
    match ok {
        Ok(PollBuilderIdResponse::Success { credential_id, email, message }) => {
            assert_eq!(credential_id, 17);
            assert_eq!(email, some("x@y.z"));
            assert_eq!(message, "added");
        }
        _ => panic!("expected success"),
    }
    let err = credential_added_reply(Err(bad_request("duplicate".to_string())));
    match err {
        Err(e) => {
            assert_eq!(e.status, 400);
            assert_eq!(e.kind, ErrorKind::InvalidRequest);
            assert_eq!(e.message, "duplicate");
        }
        _ => panic!("expected the store's error"),
    }
}

#[test]
fn at_most_one_credential_per_login() {
    let mut m = OauthSessions::new();
    m.insert(4, session(100, 5));
    let snap = m.get(4).unwrap();
    let mut added = 0;
    for _ in 0..4 {
        if let PollNext::AddCredential(_) =
            on_token_reply(&mut m, 4, &snap, TokenReply::Granted { refresh_token: some("rt") })
        {
            added += 1;
        }
    }
    assert_eq!(added, 1);
}

#[test]
fn deadlines_saturate_at_the_end_of_the_clock() {
    assert_eq!(device_code_deadline(20, 600), 600_020);
    assert_eq!(device_code_deadline(u64::MAX - 10, 1), u64::MAX);
    assert_eq!(device_code_deadline(0, u64::MAX), u64::MAX);
    let mut m = OauthSessions::new();
    let client = RegisterClientResponse { client_id: "i".to_string(), client_secret: "s".to_string() };
    let auth = DeviceAuthResponse {
        device_code: "dc".to_string(),
        user_code: "U".to_string(),
        verification_uri: "v".to_string(),
        verification_uri_complete: "vc".to_string(),
        expires_in: u64::MAX / 10,
        interval: 3,
    };
    let resp = complete_start(&mut m, StartBuilderIdRequest::default(), "r".to_string(), client, auth, 5);
    assert_eq!(m.get(resp.login_id).unwrap().expires_at, u64::MAX);
}

#[test]
fn http_failure_report() {
    assert_eq!(http_failure_detail("400 Bad Request", "{}"), "HTTP 400 Bad Request: {}");
}
