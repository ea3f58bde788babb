//! Properties of the library that span several operations.

use vstd::prelude::*;
use crate::text::{is_white_space, trim_start_seq, trim_end_seq, trim_seq};

use crate::proxy::proxy_from_settings;
use crate::session::{OauthSession, unexpired, interval_raised, lookup};
use crate::flow::{
    grant_adds_credential, after_grant, new_session, is_credential_for, is_token_call,
    cancelled_message_seq, deadline, StartBuilderIdRequest, AddCredentialRequest, TokenCall,
    failure_detail_seq, slowed_interval,
    CANCELLED_PREFIX, CANCELLED_SUFFIX,
};
use crate::oidc::{RegisterClientResponse, DeviceAuthResponse, TOKEN_PATH, DEVICE_CODE_GRANT_TYPE};
use crate::proxy::{ProxyConfig, ProxyView, proxy_view_opt};
use crate::text::{decimal_seq, digit_char};

verus! {

proof fn lemma_trim_start_shape(s: Seq<char>)
    ensures
        trim_start_seq(s).len() == 0 || !is_white_space(trim_start_seq(s)[0]),
    decreases s.len(),
{
    if s.len() > 0 && is_white_space(s[0]) {
        lemma_trim_start_shape(s.drop_first());
    }
}

proof fn lemma_trim_end_shape(s: Seq<char>)
    ensures
        trim_end_seq(s).len() == 0 || !is_white_space(trim_end_seq(s).last()),
        trim_end_seq(s).len() <= s.len(),
        trim_end_seq(s) == s.subrange(0, trim_end_seq(s).len() as int),
    decreases s.len(),
{
    if s.len() > 0 && is_white_space(s.last()) {
        lemma_trim_end_shape(s.drop_last());
        let t = trim_end_seq(s.drop_last());
        assert(s.drop_last().subrange(0, t.len() as int) =~= s.subrange(0, t.len() as int));
    } else {
        assert(s.subrange(0, s.len() as int) =~= s);
    }
}

proof fn lemma_trim_start_fixed(s: Seq<char>)
    requires
        s.len() == 0 || !is_white_space(s[0]),
    ensures
        trim_start_seq(s) == s,
{
}

proof fn lemma_trim_end_fixed(s: Seq<char>)
    requires
        s.len() == 0 || !is_white_space(s.last()),
    ensures
        trim_end_seq(s) == s,
{
}

/// Trimming twice trims no more than trimming once.
pub proof fn law_trim_idempotent(s: Seq<char>)
    ensures
        trim_seq(trim_seq(s)) == trim_seq(s),
{
    let a = trim_start_seq(s);
    lemma_trim_start_shape(s);
    let t = trim_end_seq(a);
    lemma_trim_end_shape(a);
    if t.len() > 0 {
        assert(t[0] == a[0]);
    }
    lemma_trim_start_fixed(t);
    lemma_trim_end_fixed(t);
}

/// Whitespace around the proxy URL of a login request changes nothing:
/// settings with a trimmed URL name the same proxy.
pub proof fn law_proxy_ignores_surrounding_whitespace(
    url: Seq<char>,
    username: Option<Seq<char>>,
    password: Option<Seq<char>>,
)
    ensures
        proxy_from_settings(Some(trim_seq(url)), username, password)
            == proxy_from_settings(Some(url), username, password),
{
    law_trim_idempotent(url);
}

/// A proxy URL of `direct`, or a blank one, means no proxy of the login's
/// own, whatever the credentials.
pub proof fn law_direct_or_blank_means_no_proxy(
    url: Seq<char>,
    username: Option<Seq<char>>,
    password: Option<Seq<char>>,
)
    requires
        trim_seq(url) == "direct"@ || trim_seq(url).len() == 0,
    ensures
        proxy_from_settings(Some(url), username, password) is None,
        proxy_from_settings(None, username, password) is None,
{
}

/// A stored session is read back as stored.
pub proof fn law_get_after_insert(m: Map<u64, OauthSession>, id: u64, s: OauthSession)
    ensures
        lookup(m.insert(id, s), id) == Some(s),
{
}

/// A removed session is gone: a lookup of its id finds nothing, so a later
/// poll or cancel of the same login answers "not found".
pub proof fn law_lookup_after_remove(m: Map<u64, OauthSession>, id: u64)
    ensures
        lookup(m.remove(id), id) is None,
        !m.remove(id).contains_key(id),
{
}

/// Storing a session under an id that no pending login uses leaves every
/// pending login as it was.
pub proof fn law_new_login_keeps_others(m: Map<u64, OauthSession>, id: u64, s: OauthSession)
    requires
        m.dom().finite(),
        !m.contains_key(id),
    ensures
        forall|k: u64| #[trigger] m.contains_key(k) ==> m.insert(id, s).contains_key(k) && m.insert(id, s)[k] == m[k],
        m.insert(id, s).len() == m.len() + 1,
{
    assert(m.insert(id, s).dom() =~= m.dom().insert(id));
}

/// After expired sessions are dropped at `now`, exactly the sessions whose
/// deadline lies after `now` remain, unchanged.
pub proof fn law_gc_keeps_exactly_live(m: Map<u64, OauthSession>, now: u64)
    ensures
        forall|k: u64| #[trigger] unexpired(m, now).contains_key(k) <==> (m.contains_key(k) && m[k].expires_at > now),
        forall|k: u64| #[trigger] unexpired(m, now).contains_key(k) ==> unexpired(m, now)[k] == m[k],
{
}

/// Dropping expired sessions twice drops no more than once, and dropping
/// them at a later time covers an earlier drop.
pub proof fn law_gc_idempotent_and_monotone(m: Map<u64, OauthSession>, t1: u64, t2: u64)
    requires
        t1 <= t2,
    ensures
        unexpired(unexpired(m, t1), t1) == unexpired(m, t1),
        unexpired(unexpired(m, t1), t2) == unexpired(m, t2),
{
    assert(unexpired(unexpired(m, t1), t1) =~= unexpired(m, t1));
    assert(unexpired(unexpired(m, t1), t2) =~= unexpired(m, t2));
}

/// A slow-down never shortens the polling interval, and changes nothing
/// but that interval of that one login.
pub proof fn law_slow_down_only_lengthens(m: Map<u64, OauthSession>, id: u64, extra: u64)
    ensures
        interval_raised(m, id, extra).dom() == m.dom(),
        m.contains_key(id) ==> interval_raised(m, id, extra)[id].interval >= m[id].interval,
        m.contains_key(id) ==> interval_raised(m, id, extra)[id].interval == (
            if m[id].interval + extra > u64::MAX { u64::MAX as int } else { m[id].interval + extra }),
        m.contains_key(id) ==> ({
            let s = interval_raised(m, id, extra)[id];
            &&& s.client_id == m[id].client_id
            &&& s.client_secret == m[id].client_secret
            &&& s.device_code == m[id].device_code
            &&& s.region == m[id].region
            &&& s.expires_at == m[id].expires_at
            &&& s.meta == m[id].meta
        }),
        forall|k: u64| k != id && #[trigger] m.contains_key(k) ==> interval_raised(m, id, extra)[k] == m[k],
{
    if m.contains_key(id) {
        assert(interval_raised(m, id, extra).dom() =~= m.dom());
    }
}

/// A session that survives the drop of expired sessions at `now` is not
/// reported expired by a poll at `now`.
pub proof fn law_live_session_not_expired_on_poll(m: Map<u64, OauthSession>, now: u64, id: u64)
    requires
        unexpired(m, now).contains_key(id),
    ensures
        m.contains_key(id),
        !(now > m[id].expires_at),
{
}

/// The number of credentials that `k` granted token calls for login `id`,
/// one after the other, add to the store.
pub open spec fn credentials_added(m: Map<u64, OauthSession>, id: u64, k: nat) -> nat
    decreases k,
{
    if k == 0 {
        0
    } else {
        (if grant_adds_credential(m, id) { 1nat } else { 0nat })
            + credentials_added(after_grant(m, id), id, (k - 1) as nat)
    }
}

/// However many polls of one login get a granted token (the registry lock
/// puts them one after the other), at most one adds a credential: the first
/// claims the session, and every later one finds it gone.
pub proof fn law_one_credential_per_login(m: Map<u64, OauthSession>, id: u64, k: nat)
    ensures
        credentials_added(m, id, k) == (if k > 0 && m.contains_key(id) { 1nat } else { 0nat }),
        credentials_added(m, id, k) <= 1,
    decreases k,
{
    if k > 0 {
        let next = after_grant(m, id);
        assert(!next.contains_key(id));
        law_one_credential_per_login(next, id, (k - 1) as nat);
    }
}

/// The session a started login stores keeps the registered client exactly
/// (id as id, secret as secret), the device code, the region and every
/// setting of the request; its interval is the service's, raised to at
/// least one second; its deadline is `expires_in` seconds after `now`, or
/// the end of the clock when that lies beyond it.
pub proof fn law_started_session_keeps_client_and_settings(
    req: StartBuilderIdRequest,
    region: String,
    client: RegisterClientResponse,
    auth: DeviceAuthResponse,
    now: u64,
)
    ensures
        ({
            let s = new_session(req, region, client, auth, now);
            &&& s.client_id == client.client_id
            &&& s.client_secret == client.client_secret
            &&& s.device_code == auth.device_code
            &&& s.region == region
            &&& s.meta.priority == req.priority
            &&& s.meta.machine_id == req.machine_id
            &&& s.meta.auth_region == req.auth_region
            &&& s.meta.api_region == req.api_region
            &&& s.meta.proxy_url == req.proxy_url
            &&& s.meta.proxy_username == req.proxy_username
            &&& s.meta.proxy_password == req.proxy_password
            &&& s.meta.endpoint == req.endpoint
            &&& s.meta.email == req.email
            &&& s.interval >= 1
            &&& (auth.interval >= 1 ==> s.interval == auth.interval)
            &&& (auth.interval == 0 ==> s.interval == 1)
            &&& s.expires_at >= now
            &&& (now + auth.expires_in * 1000 <= u64::MAX ==> s.expires_at == now + auth.expires_in * 1000)
            &&& (now + auth.expires_in * 1000 > u64::MAX ==> s.expires_at == u64::MAX)
        }),
{
}

/// A later deadline never comes from a shorter validity.
pub proof fn law_deadline_monotone(now: u64, a: u64, b: u64)
    requires
        a <= b,
    ensures
        deadline(now, a) <= deadline(now, b),
        deadline(now, a) >= now,
{
}

/// The credential that a finished login adds carries the refresh token,
/// is an IdC credential of the session's client (id as id, secret as
/// secret) in the session's region, and keeps each setting of the login in
/// its own place: the auth region as auth region, the API region as API
/// region, and so on; it has no API key.
pub proof fn law_credential_keeps_each_setting(r: AddCredentialRequest, s: OauthSession, token: String)
    requires
        is_credential_for(r, s, token),
    ensures
        r.refresh_token == Some(token),
        r.auth_method@ == "idc"@,
        r.client_id == Some(s.client_id),
        r.client_secret == Some(s.client_secret),
        r.region == Some(s.region),
        r.priority == s.meta.priority,
        r.auth_region == s.meta.auth_region,
        r.api_region == s.meta.api_region,
        r.machine_id == s.meta.machine_id,
        r.email == s.meta.email,
        r.proxy_url == s.meta.proxy_url,
        r.proxy_username == s.meta.proxy_username,
        r.proxy_password == s.meta.proxy_password,
        r.endpoint == s.meta.endpoint,
        r.kiro_api_key is None,
{
}

/// A token call goes through the login's own proxy whenever its settings
/// name one; only when they name none does it use the default proxy (or
/// none). It asks the token endpoint of the session's region for the
/// device-code grant of the session's own client and device code.
pub proof fn law_token_call_uses_login_proxy(c: TokenCall, s: OauthSession, default_proxy: Option<ProxyConfig>)
    requires
        is_token_call(c, s, default_proxy),
    ensures
        crate::proxy::proxy_from_settings(
            s.meta.proxy_url.deep_view(),
            s.meta.proxy_username.deep_view(),
            s.meta.proxy_password.deep_view(),
        ) matches Some(p) ==> proxy_view_opt(c.proxy) == Some(p),
        crate::proxy::proxy_from_settings(
            s.meta.proxy_url.deep_view(),
            s.meta.proxy_username.deep_view(),
            s.meta.proxy_password.deep_view(),
        ) is None ==> proxy_view_opt(c.proxy) == proxy_view_opt(default_proxy),
        c.url@ == "https://oidc."@ + s.region@ + ".amazonaws.com"@ + "/token"@,
        c.request.client_id == s.client_id,
        c.request.client_secret == s.client_secret,
        c.request.device_code == s.device_code,
        c.request.grant_type@ == "urn:ietf:params:oauth:grant-type:device_code"@,
        c.session == s,
{
}

/// The value of a string of decimal digits, read from the left.
pub open spec fn decimal_value(d: Seq<char>) -> nat
    decreases d.len(),
{
    if d.len() == 0 {
        0
    } else {
        decimal_value(d.drop_last()) * 10 + (d.last() as u32 - '0' as u32) as nat
    }
}

/// True when every character of `d` is an ASCII digit and there is one.
pub open spec fn all_digits(d: Seq<char>) -> bool {
    d.len() > 0 && forall|i: int| 0 <= i < d.len() ==> '0' <= #[trigger] d[i] && d[i] <= '9'
}

proof fn lemma_digit_value(d: nat)
    requires
        d < 10,
    ensures
        '0' <= digit_char(d) && digit_char(d) <= '9',
        (digit_char(d) as u32 - '0' as u32) as nat == d,
{
}

proof fn lemma_decimal_reads_back(n: nat)
    ensures
        all_digits(decimal_seq(n)),
        decimal_value(decimal_seq(n)) == n,
    decreases n,
{
    if n < 10 {
        lemma_digit_value(n);
        assert(decimal_seq(n) == seq![digit_char(n)]);
        assert(seq![digit_char(n)].drop_last() =~= Seq::<char>::empty());
        assert(decimal_value(decimal_seq(n)) == decimal_value(Seq::<char>::empty()) * 10 + n);
    } else {
        lemma_digit_value(n % 10);
        lemma_decimal_reads_back(n / 10);
        let d = decimal_seq(n);
        assert(d == decimal_seq(n / 10).push(digit_char(n % 10)));
        assert(d.drop_last() =~= decimal_seq(n / 10));
        assert forall|i: int| 0 <= i < d.len() implies '0' <= #[trigger] d[i] && d[i] <= '9' by {
            if i < d.len() - 1 {
                assert(d[i] == decimal_seq(n / 10)[i]);
            }
        }
        assert(decimal_value(d) == decimal_value(decimal_seq(n / 10)) * 10 + n % 10);
        assert(n == (n / 10) * 10 + n % 10);
    }
}

/// The message of a cancelled login names the whole login id: it is the
/// cancel prefix, a run of decimal digits that reads back as exactly
/// `login_id` (for every `u64`), and the cancel suffix.
pub proof fn law_cancel_message_names_the_login(login_id: u64)
    ensures
        exists|d: Seq<char>| {
            &&& cancelled_message_seq(login_id) == CANCELLED_PREFIX@ + d + CANCELLED_SUFFIX@
            &&& all_digits(d)
            &&& decimal_value(d) == login_id
        },
{
    lemma_decimal_reads_back(login_id as nat);
    let d = decimal_seq(login_id as nat);
    assert(cancelled_message_seq(login_id) == CANCELLED_PREFIX@ + d + CANCELLED_SUFFIX@);
}

/// The ASCII white-space characters: tab, line feed, vertical tab, form
/// feed, carriage return and space.
pub open spec fn is_ascii_space(c: char) -> bool {
    c == '\t' || c == '\n' || c == '\u{b}' || c == '\u{c}' || c == '\r' || c == ' '
}

/// Every ASCII white-space character counts as white space.
pub proof fn law_ascii_spaces_are_white_space(c: char)
    requires
        is_ascii_space(c),
    ensures
        is_white_space(c),
{
}

proof fn lemma_trim_start_skips(w: Seq<char>, x: Seq<char>)
    requires
        forall|i: int| 0 <= i < w.len() ==> is_white_space(#[trigger] w[i]),
    ensures
        trim_start_seq(w + x) == trim_start_seq(x),
    decreases w.len(),
{
    if w.len() > 0 {
        assert((w + x)[0] == w[0]);
        assert((w + x).drop_first() =~= w.drop_first() + x);
        assert forall|i: int| 0 <= i < w.drop_first().len() implies is_white_space(
            #[trigger] w.drop_first()[i],
        ) by {
            assert(w.drop_first()[i] == w[i + 1]);
        }
        lemma_trim_start_skips(w.drop_first(), x);
    } else {
        assert(w + x =~= x);
    }
}

proof fn lemma_trim_end_skips(x: Seq<char>, w: Seq<char>)
    requires
        forall|i: int| 0 <= i < w.len() ==> is_white_space(#[trigger] w[i]),
    ensures
        trim_end_seq(x + w) == trim_end_seq(x),
    decreases w.len(),
{
    if w.len() > 0 {
        assert((x + w).last() == w.last());
        assert((x + w).drop_last() =~= x + w.drop_last());
        assert forall|i: int| 0 <= i < w.drop_last().len() implies is_white_space(
            #[trigger] w.drop_last()[i],
        ) by {
            assert(w.drop_last()[i] == w[i]);
        }
        lemma_trim_end_skips(x, w.drop_last());
    } else {
        assert(x + w =~= x);
    }
}

proof fn lemma_trim_start_append(s: Seq<char>, w: Seq<char>)
    requires
        forall|i: int| 0 <= i < w.len() ==> is_white_space(#[trigger] w[i]),
    ensures
        trim_start_seq(s + w) == (if trim_start_seq(s).len() > 0 {
            trim_start_seq(s) + w
        } else {
            Seq::<char>::empty()
        }),
    decreases s.len(),
{
    if s.len() == 0 {
        assert(s + w =~= w);
        lemma_trim_start_skips(w, Seq::<char>::empty());
        assert(w + Seq::<char>::empty() =~= w);
    } else if is_white_space(s[0]) {
        assert((s + w)[0] == s[0]);
        assert((s + w).drop_first() =~= s.drop_first() + w);
        lemma_trim_start_append(s.drop_first(), w);
    } else {
        assert((s + w)[0] == s[0]);
    }
}

/// Trimming ignores any run of white space added at either end: a proxy
/// URL pasted with a line ending (`\r\n`) or padded with tabs and spaces
/// reads as the bare URL.
pub proof fn law_trim_ignores_added_white_space(w1: Seq<char>, s: Seq<char>, w2: Seq<char>)
    requires
        forall|i: int| 0 <= i < w1.len() ==> is_ascii_space(#[trigger] w1[i]),
        forall|i: int| 0 <= i < w2.len() ==> is_ascii_space(#[trigger] w2[i]),
    ensures
        trim_seq(w1 + s + w2) == trim_seq(s),
{
    assert forall|i: int| 0 <= i < w1.len() implies is_white_space(#[trigger] w1[i]) by {
        law_ascii_spaces_are_white_space(w1[i]);
    }
    assert forall|i: int| 0 <= i < w2.len() implies is_white_space(#[trigger] w2[i]) by {
        law_ascii_spaces_are_white_space(w2[i]);
    }
    assert(w1 + s + w2 =~= w1 + (s + w2));
    lemma_trim_start_skips(w1, s + w2);
    lemma_trim_start_append(s, w2);
    if trim_start_seq(s).len() > 0 {
        lemma_trim_end_skips(trim_start_seq(s), w2);
    }
}

/// The characters of the Unicode `White_Space` property, one by one.
pub open spec fn unicode_spaces() -> Seq<char> {
    seq![
        '\t', '\n', '\u{b}', '\u{c}', '\r', ' ', '\u{85}', '\u{a0}', '\u{1680}',
        '\u{2000}', '\u{2001}', '\u{2002}', '\u{2003}', '\u{2004}', '\u{2005}', '\u{2006}',
        '\u{2007}', '\u{2008}', '\u{2009}', '\u{200a}', '\u{2028}', '\u{2029}', '\u{202f}',
        '\u{205f}', '\u{3000}',
    ]
}

/// A character counts as white space exactly when it is one of the
/// characters of the Unicode `White_Space` property.
pub proof fn law_white_space_is_the_unicode_set(c: char)
    ensures
        is_white_space(c) <==> unicode_spaces().contains(c),
{
    let u = unicode_spaces();
    if is_white_space(c) {
        let v = c as u32;
        if v == 0x09 { assert(u[0] == c); }
        else if v == 0x0a { assert(u[1] == c); }
        else if v == 0x0b { assert(u[2] == c); }
        else if v == 0x0c { assert(u[3] == c); }
        else if v == 0x0d { assert(u[4] == c); }
        else if v == 0x20 { assert(u[5] == c); }
        else if v == 0x85 { assert(u[6] == c); }
        else if v == 0xa0 { assert(u[7] == c); }
        else if v == 0x1680 { assert(u[8] == c); }
        else if v == 0x2000 { assert(u[9] == c); }
        else if v == 0x2001 { assert(u[10] == c); }
        else if v == 0x2002 { assert(u[11] == c); }
        else if v == 0x2003 { assert(u[12] == c); }
        else if v == 0x2004 { assert(u[13] == c); }
        else if v == 0x2005 { assert(u[14] == c); }
        else if v == 0x2006 { assert(u[15] == c); }
        else if v == 0x2007 { assert(u[16] == c); }
        else if v == 0x2008 { assert(u[17] == c); }
        else if v == 0x2009 { assert(u[18] == c); }
        else if v == 0x200a { assert(u[19] == c); }
        else if v == 0x2028 { assert(u[20] == c); }
        else if v == 0x2029 { assert(u[21] == c); }
        else if v == 0x202f { assert(u[22] == c); }
        else if v == 0x205f { assert(u[23] == c); }
        else { assert(u[24] == c); }
    }
    if u.contains(c) {
        let i = choose|i: int| 0 <= i < u.len() && u[i] == c;
        assert(is_white_space(u[i]));
    }
}

/// What a login failure reports: the service's error description when it
/// sent one; else its error code; else `HTTP`, the status and the body.
pub proof fn law_failure_detail_prefers_description(
    error: Option<String>,
    error_description: Option<String>,
    status_line: Seq<char>,
    body: Seq<char>,
)
    ensures
        error_description matches Some(d) ==> failure_detail_seq(error, error_description, status_line, body) == d@,
        error_description is None ==> (error matches Some(e) ==> failure_detail_seq(error, error_description, status_line, body) == e@),
        error_description is None && error is None ==> failure_detail_seq(error, error_description, status_line, body)
            == "HTTP "@ + status_line + " "@ + body,
{
}

/// A login's own proxy, when its settings name one, is at the trimmed URL,
/// which is neither blank nor `direct`; it has credentials exactly when a
/// non-empty user name and a password are both given, and then they are
/// those two, each in its own place.
pub proof fn law_proxy_settings_shape(
    url: Option<Seq<char>>,
    username: Option<Seq<char>>,
    password: Option<Seq<char>>,
)
    ensures
        crate::proxy::proxy_from_settings(url, username, password) is Some <==> (url is Some
            && trim_seq(url.unwrap()).len() > 0 && trim_seq(url.unwrap()) != "direct"@),
        crate::proxy::proxy_from_settings(url, username, password) matches Some(p) ==> {
            &&& url is Some && p.url == trim_seq(url.unwrap())
            &&& (p.username is Some <==> (username is Some && username.unwrap().len() > 0 && password is Some))
            &&& (p.username is Some ==> p.username == username && p.password == password)
            &&& (p.username is None ==> p.password is None)
        },
{
}

/// After a slow-down, the poll reports the stored interval raised by five
/// seconds (saturating); when the session is gone meanwhile, the polled
/// interval plus five seconds.
pub proof fn law_slow_down_reports_raised_interval(m: Map<u64, OauthSession>, id: u64, polled: OauthSession)
    ensures
        m.contains_key(id) ==> slowed_interval(interval_raised(m, id, 5), id, polled) == (
            if m[id].interval + 5 > u64::MAX { u64::MAX as int } else { m[id].interval + 5 }),
        !m.contains_key(id) && polled.interval + 5 <= u64::MAX ==> slowed_interval(
            interval_raised(m, id, 5), id, polled) == polled.interval + 5,
{
}

} // verus!
