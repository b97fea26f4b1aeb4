//! The cookies that carry a session: which are set on sign-in and how they are
//! cleared on sign-out.

use vstd::prelude::*;
use vstd::string::*;
use crate::text::same_text;

verus! {

/// One cookie to set. Every session cookie is valid for the whole site, hidden from
/// scripts, and sent on same-site requests and top-level navigation.
#[derive(Debug)]
pub struct SessionCookie {
    pub name: String,
    pub value: String,
    pub path: String,
    pub http_only: bool,
    pub same_site_lax: bool,
    /// Sent over TLS only.
    pub secure: bool,
    /// Expires at once: the browser drops the cookie.
    pub expires_now: bool,
}

/// Whether cookies are restricted to TLS in an environment: everywhere but locally.
pub open spec fn secure_in(app_env: Seq<char>) -> bool {
    app_env != "local"@
}

/// What a session cookie looks like.
pub open spec fn is_session_cookie(
    c: SessionCookie,
    name: Seq<char>,
    value: Seq<char>,
    app_env: Seq<char>,
    expires_now: bool,
) -> bool {
    &&& c.name@ == name
    &&& c.value@ == value
    &&& c.path@ == "/"@
    &&& c.http_only
    &&& c.same_site_lax
    &&& c.secure == secure_in(app_env)
    &&& c.expires_now == expires_now
}

/// Builds one session cookie.
pub fn session_cookie(name: &str, value: &str, app_env: &str, expires_now: bool) -> (c: SessionCookie)
    ensures
        is_session_cookie(c, name@, value@, app_env@, expires_now),
{
    SessionCookie {
        name: name.to_string(),
        value: value.to_string(),
        path: "/".to_string(),
        http_only: true,
        same_site_lax: true,
        secure: !same_text(app_env, "local"),
        expires_now,
    }
}

/// The cookies set on sign-in: access token, refresh token and provider tag.
pub fn login_cookies(access_token: &str, refresh_token: &str, provider: &str, app_env: &str) -> (cookies:
    Vec<SessionCookie>)
    ensures
        cookies.len() == 3,
        is_session_cookie(cookies[0], "access_token"@, access_token@, app_env@, false),
        is_session_cookie(cookies[1], "refresh_token"@, refresh_token@, app_env@, false),
        is_session_cookie(cookies[2], "provider"@, provider@, app_env@, false),
{
    let mut cookies: Vec<SessionCookie> = Vec::new();
    cookies.push(session_cookie("access_token", access_token, app_env, false));
    cookies.push(session_cookie("refresh_token", refresh_token, app_env, false));
    cookies.push(session_cookie("provider", provider, app_env, false));
    cookies
}

/// The cookies set on sign-out: the same three, empty and expired.
pub fn logout_cookies(app_env: &str) -> (cookies: Vec<SessionCookie>)
    ensures
        cookies.len() == 3,
        is_session_cookie(cookies[0], "access_token"@, Seq::empty(), app_env@, true),
        is_session_cookie(cookies[1], "refresh_token"@, Seq::empty(), app_env@, true),
        is_session_cookie(cookies[2], "provider"@, Seq::empty(), app_env@, true),
{
    proof {
        reveal_strlit("");
    }
    let mut cookies: Vec<SessionCookie> = Vec::new();
    cookies.push(session_cookie("access_token", "", app_env, true));
    cookies.push(session_cookie("refresh_token", "", app_env, true));
    cookies.push(session_cookie("provider", "", app_env, true));
    assert(""@ =~= Seq::<char>::empty());
    cookies
}

} // verus!
