//! Proxy settings of a login session.

use vstd::prelude::*;
use crate::text::{trim_seq, trimmed, same_text};

verus! {

/// A proxy to send the OIDC requests through, with optional basic credentials.
pub struct ProxyConfig {
    pub url: String,
    pub username: Option<String>,
    pub password: Option<String>,
}

/// What a `ProxyConfig` holds, as character sequences.
pub struct ProxyView {
    pub url: Seq<char>,
    pub username: Option<Seq<char>>,
    pub password: Option<Seq<char>>,
}

impl View for ProxyConfig {
    type V = ProxyView;

    open spec fn view(&self) -> ProxyView {
        ProxyView {
            url: self.url@,
            username: self.username.deep_view(),
            password: self.password.deep_view(),
        }
    }
}

/// The view of an optional proxy.
pub open spec fn proxy_view_opt(p: Option<ProxyConfig>) -> Option<ProxyView> {
    match p {
        Some(c) => Some(c@),
        None => None,
    }
}

impl Clone for ProxyConfig {
    fn clone(&self) -> (r: Self)
        ensures
            r == *self,
    {
        ProxyConfig {
            url: self.url.clone(),
            username: match &self.username {
                Some(u) => Some(u.clone()),
                None => None,
            },
            password: match &self.password {
                Some(p) => Some(p.clone()),
                None => None,
            },
        }
    }
}

impl ProxyConfig {
    /// A proxy at `url`, without credentials.
    pub fn new(url: &str) -> (r: ProxyConfig)
        ensures
            r@ == (ProxyView { url: url@, username: None, password: None }),
    {
        ProxyConfig { url: url.to_owned(), username: None, password: None }
    }

    /// The same proxy with basic credentials.
    pub fn with_auth(self, username: &str, password: &str) -> (r: ProxyConfig)
        ensures
            r@ == (ProxyView { url: self@.url, username: Some(username@), password: Some(password@) }),
    {
        ProxyConfig { url: self.url, username: Some(username.to_owned()), password: Some(password.to_owned()) }
    }
}

/// The proxy that a session's settings ask for: none when the URL is
/// missing, blank or `direct` (after trimming); otherwise the trimmed URL,
/// with credentials when both a non-empty user name and a password are set.
pub open spec fn proxy_from_settings(
    url: Option<Seq<char>>,
    username: Option<Seq<char>>,
    password: Option<Seq<char>>,
) -> Option<ProxyView> {
    match url {
        None => None,
        Some(u) => {
            let t = trim_seq(u);
            if t.len() == 0 || t == "direct"@ {
                None
            } else {
                match (username, password) {
                    (Some(user), Some(pass)) if user.len() > 0 =>
                        Some(ProxyView { url: t, username: Some(user), password: Some(pass) }),
                    _ => Some(ProxyView { url: t, username: None, password: None }),
                }
            }
        }
    }
}

/// Reads the proxy settings of a login request. Every input is accepted.
pub fn parse_proxy(
    url: &Option<String>,
    username: &Option<String>,
    password: &Option<String>,
) -> (res: Result<Option<ProxyConfig>, String>)
    ensures
        res is Ok,
        res matches Ok(p) ==> proxy_view_opt(p) == proxy_from_settings(
            url.deep_view(),
            username.deep_view(),
            password.deep_view(),
        ),
{
    match url {
        None => Ok(None),
        Some(raw) => {
            let u = trimmed(raw.as_str());
            if u.is_empty() || same_text(u, "direct") {
                Ok(None)
            } else {
                let mut cfg = ProxyConfig::new(u);
                match (username, password) {
                    (Some(user), Some(pass)) => {
                        if !user.as_str().is_empty() {
                            cfg = cfg.with_auth(user.as_str(), pass.as_str());
                        }
                    },
                    _ => {},
                }
                Ok(Some(cfg))
            }
        },
    }
}

} // verus!
