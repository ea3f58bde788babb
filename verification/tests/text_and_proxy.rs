use kiro_oauth::text::{trimmed, is_blank, same_text, decimal_string};
use kiro_oauth::proxy::{parse_proxy, ProxyConfig};
use kiro_oauth::auth::{admin_key_accepted, keys_equal};

fn some(s: &str) -> Option<String> {
    Some(s.to_string())
}

#[test]
fn trimmed_drops_unicode_whitespace_at_both_ends() {
    assert_eq!(trimmed("  \t http://p:8080 \n\u{3000}"), "http://p:8080");
    assert_eq!(trimmed("a b"), "a b");
    assert_eq!(trimmed(" \u{a0} "), "");
    assert_eq!(trimmed(trimmed("  x  ")), trimmed("  x  "));
}

#[test]
fn blank_detection() {
    assert!(is_blank(""));
    assert!(is_blank(" \t\n"));
    assert!(!is_blank(" eu-west-1 "));
}

#[test]
fn same_text_compares_characters() {
    assert!(same_text("direct", "direct"));
    assert!(!same_text("Direct", "direct"));
    assert!(!same_text("direct ", "direct"));
}

#[test]
fn decimal_rendering() {
    assert_eq!(decimal_string(0), "0");
    assert_eq!(decimal_string(7), "7");
    assert_eq!(decimal_string(1234567890), "1234567890");
    assert_eq!(decimal_string(u64::MAX), "18446744073709551615");
}

#[test]
fn proxy_absent_blank_or_direct_is_none() {
    assert!(parse_proxy(&None, &some("u"), &some("p")).unwrap().is_none());
    assert!(parse_proxy(&some("   "), &None, &None).unwrap().is_none());
    assert!(parse_proxy(&some(""), &None, &None).unwrap().is_none());
    assert!(parse_proxy(&some(" direct "), &some("u"), &some("p")).unwrap().is_none());
}

#[test]
fn proxy_url_is_trimmed_and_credentials_need_both_parts() {
    let p = parse_proxy(&some("  socks5://h:1080 "), &some("alice"), &some("pw")).unwrap().unwrap();
    assert_eq!(p.url, "socks5://h:1080");
    assert_eq!(p.username, some("alice"));
    assert_eq!(p.password, some("pw"));

    let q = parse_proxy(&some("http://h"), &some("alice"), &None).unwrap().unwrap();
    assert_eq!(q.url, "http://h");
    assert!(q.username.is_none() && q.password.is_none());

    let r = parse_proxy(&some("http://h"), &some(""), &some("pw")).unwrap().unwrap();
    assert!(r.username.is_none() && r.password.is_none());

    let t = parse_proxy(&some("http://h"), &some(" "), &some("")).unwrap().unwrap();
    assert_eq!(t.username, some(" "));
    assert_eq!(t.password, some(""));
}

#[test]
fn proxy_ignores_surrounding_whitespace_law() {
    let a = parse_proxy(&some(" \thttp://h:3128\n"), &some("u"), &some("p")).unwrap().unwrap();
    let b = parse_proxy(&some("http://h:3128"), &some("u"), &some("p")).unwrap().unwrap();
    assert_eq!(a.url, b.url);
    assert_eq!(a.username, b.username);
    assert_eq!(a.password, b.password);
}

#[test]
fn proxy_config_builders() {
    let p = ProxyConfig::new("http://x").with_auth("me", "secret");
    assert_eq!(p.url, "http://x");
    assert_eq!(p.username, some("me"));
    assert_eq!(p.password, some("secret"));
}

#[test]
fn admin_key_check() {
    assert!(admin_key_accepted(&some("k-123"), "k-123"));
    assert!(!admin_key_accepted(&some("k-124"), "k-123"));
    assert!(!admin_key_accepted(&some("k-12"), "k-123"));
    assert!(!admin_key_accepted(&None, "k-123"));
    assert!(keys_equal("密钥", "密钥"));
    assert!(!keys_equal("密钥", "密码"));
}
