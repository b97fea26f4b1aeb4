//! Sign-in with the external provider and session reconciliation.
//!
//! The provider is reached by the caller. This module says what to send, judges what
//! came back, and decides what to write.

use vstd::prelude::*;
use vstd::string::*;
use std::sync::Arc;
use crate::config::AppConfig;
use crate::constants::GOOGLE_PROVIDER;
use crate::dto::{GoogleTokenError, GoogleTokenResponse, GoogleUserResult};
use crate::entities::{
    Role, User, UserOauthProvider, UserOauthProviderView, UserRole, UserRoleView, UserSession,
    UserSessionView,
};
use crate::error::{AppError, DbError};
use crate::text::{join2, same_text};

verus! {

/// The sign-in service over the repositories of users (`U`), roles (`R`), sessions
/// (`S`) and identity links (`O`).
#[derive(Clone)]
pub struct OauthService<U, R, S, O> {
    pub cfg: Arc<AppConfig>,
    pub user_repo: Arc<U>,
    pub role_repo: Arc<R>,
    pub user_session_repo: Arc<S>,
    pub oauth_provider_repo: Arc<O>,
}

/// How a request to the provider ended.
#[derive(Debug)]
pub enum ProviderReply<T> {
    /// The provider answered with success and this body.
    Success(T),
    /// The provider answered with an error status and this body.
    Rejected(GoogleTokenError),
    /// No answer arrived; the text describes the transport failure.
    Unreachable(String),
}

/// What reconciliation does to the session of a user.
#[derive(Debug)]
pub enum SessionWrite {
    /// The stored session stands; nothing is written.
    Keep(UserSession),
    /// The stored session is overwritten with this one.
    Update(UserSession),
    /// No session was stored; this one is inserted.
    Create(UserSession),
}

/// A [`SessionWrite`] as plain values.
pub enum SessionWriteView {
    Keep(UserSessionView),
    Update(UserSessionView),
    Create(UserSessionView),
}

impl View for SessionWrite {
    type V = SessionWriteView;

    open spec fn view(&self) -> SessionWriteView {
        match self {
            SessionWrite::Keep(s) => SessionWriteView::Keep(s@),
            SessionWrite::Update(s) => SessionWriteView::Update(s@),
            SessionWrite::Create(s) => SessionWriteView::Create(s@),
        }
    }
}

impl SessionWriteView {
    /// The session that is stored once the write is done.
    pub open spec fn session(self) -> UserSessionView {
        match self {
            SessionWriteView::Keep(s) => s,
            SessionWriteView::Update(s) => s,
            SessionWriteView::Create(s) => s,
        }
    }

    /// Whether anything is written.
    pub open spec fn writes(self) -> bool {
        !(self is Keep)
    }
}

impl SessionWrite {
    /// The session that is stored once the write is done.
    pub fn session(&self) -> (s: &UserSession)
        ensures
            s@ == self@.session(),
    {
        match self {
            SessionWrite::Keep(s) => s,
            SessionWrite::Update(s) => s,
            SessionWrite::Create(s) => s,
        }
    }
}

/// Where to go after the provider named the user.
#[derive(Debug)]
pub enum ExternalLogin {
    /// The address belongs to a local user: reconcile the session, create nothing.
    Existing(User),
    /// The address is unknown: create the user, then reconcile the session.
    Register,
}

/// The rows that registration inserts together.
#[derive(Debug)]
pub struct Registration {
    pub user: User,
    pub link: UserOauthProvider,
    pub membership: UserRole,
}

/// The end of a session that starts at `now` and lives `ttl` seconds: `now + ttl`,
/// or `now` where that instant cannot be written. Without a lifetime there is no end.
pub open spec fn session_end(ttl: Option<i64>, now: i64) -> Option<i64> {
    match ttl {
        Some(t) => if i64::MIN <= now + t <= i64::MAX {
            Some((now + t) as i64)
        } else {
            Some(now)
        },
        None => None,
    }
}

/// What reconciliation does, given the stored session of the user if there is one:
/// a stored session with the same refresh token stands as it is; one with another
/// refresh token takes the new token pair and end; without a stored session a new
/// one is made.
pub open spec fn reconciled(
    found: Option<UserSessionView>,
    user_id: Seq<char>,
    access_token: Seq<char>,
    refresh_token: Seq<char>,
    expires_at: Option<i64>,
    new_id: Seq<char>,
    now: i64,
) -> SessionWriteView {
    match found {
        Some(stored) => if stored.refresh_token != refresh_token {
            SessionWriteView::Update(
                UserSessionView { access_token, refresh_token, expires_at, ..stored },
            )
        } else {
            SessionWriteView::Keep(stored)
        },
        None => SessionWriteView::Create(
            UserSessionView {
                id: new_id,
                user_id,
                access_token,
                refresh_token,
                expires_at,
                created_at: now,
            },
        ),
    }
}

/// The stored session that a lookup found. A lookup that failed, for whatever
/// reason, found none.
pub open spec fn found_session(lookup: Result<UserSession, AppError>) -> Option<UserSessionView> {
    match lookup {
        Ok(s) => Some(s@),
        Err(_) => None,
    }
}

/// Computes [`session_end`].
pub fn session_expiry(ttl: Option<i64>, now: i64) -> (end: Option<i64>)
    ensures
        end == session_end(ttl, now),
{
    match ttl {
        Some(t) => match now.checked_add(t) {
            Some(e) => Some(e),
            None => Some(now),
        },
        None => None,
    }
}

/// Surfaces a refusal of the provider: `invalid_grant` means the grant is not (or no
/// longer) good, which is an authorization failure; every other code is handed on as
/// a failure of the provider.
pub fn classify_rejection(refusal: &GoogleTokenError) -> (e: AppError)
    ensures
        refusal.error@ == "invalid_grant"@ ==> e is Unauthorized,
        refusal.error@ != "invalid_grant"@ ==> (e matches AppError::Oauth2ProviderError(m) && m@
            == refusal.error@),
{
    if same_text(refusal.error.as_str(), "invalid_grant") {
        AppError::Unauthorized
    } else {
        AppError::Oauth2ProviderError(refusal.error.clone())
    }
}

/// One field of a form.
fn field(name: &str, value: &str) -> (f: (String, String))
    ensures
        f.0@ == name@,
        f.1@ == value@,
{
    (name.to_string(), value.to_string())
}

/// The default role, or why registration cannot proceed: a missing default role
/// is a misconfiguration that the operator must mend; any other failure is
/// handed on with its description.
pub fn default_role(lookup: Result<Role, AppError>) -> (role: Result<Role, AppError>)
    ensures
        match lookup {
            Ok(found) => role == Ok::<Role, AppError>(found),
            Err(AppError::SqlxError(DbError::RowNotFound)) => role matches Err(
                AppError::ProcessError(m),
            ) && m@ == "Default Role is not Found please contact Administrator!"@,
            Err(other) => role matches Err(AppError::ProcessError(m)) && m@ == other.text(),
        },
{
    match lookup {
        Ok(found) => Ok(found),
        Err(err) => {
            if err.is_row_not_found() {
                Err(
                    AppError::ProcessError(
                        "Default Role is not Found please contact Administrator!".to_string(),
                    ),
                )
            } else {
                Err(err.as_process_error())
            }
        },
    }
}

impl<U, R, S, O> OauthService<U, R, S, O> {
    /// A service over the configuration and the repositories.
    pub fn new(
        cfg: Arc<AppConfig>,
        user_repo: Arc<U>,
        role_repo: Arc<R>,
        user_session_repo: Arc<S>,
        oauth_provider_repo: Arc<O>,
    ) -> (svc: Self)
        ensures
            svc.cfg == cfg,
            svc.user_repo == user_repo,
            svc.role_repo == role_repo,
            svc.user_session_repo == user_session_repo,
            svc.oauth_provider_repo == oauth_provider_repo,
    {
        Self { cfg, user_repo, role_repo, user_session_repo, oauth_provider_repo }
    }

    /// The form that exchanges an authorization code for tokens.
    pub fn token_request(&self, code: &str) -> (form: Vec<(String, String)>)
        ensures
            form.len() == 5,
            form[0].0@ == "code"@ && form[0].1@ == code@,
            form[1].0@ == "client_id"@ && form[1].1@ == self.cfg.google_client_id@,
            form[2].0@ == "client_secret"@ && form[2].1@ == self.cfg.google_client_secret@,
            form[3].0@ == "redirect_uri"@ && form[3].1@ == self.cfg.google_redirect_url@,
            form[4].0@ == "grant_type"@ && form[4].1@ == "authorization_code"@,
    {
        let mut form: Vec<(String, String)> = Vec::new();
        form.push(field("code", code));
        form.push(field("client_id", self.cfg.google_client_id.as_str()));
        form.push(field("client_secret", self.cfg.google_client_secret.as_str()));
        form.push(field("redirect_uri", self.cfg.google_redirect_url.as_str()));
        form.push(field("grant_type", "authorization_code"));
        form
    }

    /// The body that asks the provider for a new token pair.
    pub fn refresh_request(&self, refresh_token: &str) -> (body: Vec<(String, String)>)
        ensures
            body.len() == 4,
            body[0].0@ == "client_id"@ && body[0].1@ == self.cfg.google_client_id@,
            body[1].0@ == "client_secret"@ && body[1].1@ == self.cfg.google_client_secret@,
            body[2].0@ == "refresh_token"@ && body[2].1@ == refresh_token@,
            body[3].0@ == "grant_type"@ && body[3].1@ == "refresh_token"@,
    {
        let mut body: Vec<(String, String)> = Vec::new();
        body.push(field("client_id", self.cfg.google_client_id.as_str()));
        body.push(field("client_secret", self.cfg.google_client_secret.as_str()));
        body.push(field("refresh_token", refresh_token));
        body.push(field("grant_type", "refresh_token"));
        body
    }

    /// The address that serves the profile of the user behind an access token.
    pub fn userinfo_url(access_token: &str) -> (url: String)
        ensures
            url@ == "https://www.googleapis.com/oauth2/v3/userinfo?alt=json&access_token="@
                + access_token@,
    {
        join2("https://www.googleapis.com/oauth2/v3/userinfo?alt=json&access_token=", access_token)
    }

    /// The `Authorization` header that accompanies a profile request.
    pub fn bearer(id_token: &str) -> (header: String)
        ensures
            header@ == "Bearer "@ + id_token@,
    {
        join2("Bearer ", id_token)
    }

    /// The address that revokes an access token.
    pub fn revoke_url(access_token: &str) -> (url: String)
        ensures
            url@ == "https://oauth2.googleapis.com/revoke?token="@ + access_token@,
    {
        join2("https://oauth2.googleapis.com/revoke?token=", access_token)
    }

    /// Judges the answer to a code exchange: the tokens on success; a refusal
    /// classified by its code; a transport failure as "failed to authorize".
    pub fn google_login(reply: ProviderReply<GoogleTokenResponse>) -> (tokens: Result<
        GoogleTokenResponse,
        AppError,
    >)
        ensures
            match reply {
                ProviderReply::Success(body) => tokens == Ok::<GoogleTokenResponse, AppError>(body),
                ProviderReply::Rejected(refusal) => tokens matches Err(e) && (if refusal.error@
                    == "invalid_grant"@ {
                    e is Unauthorized
                } else {
                    e matches AppError::Oauth2ProviderError(m) && m@ == refusal.error@
                }),
                ProviderReply::Unreachable(_) => tokens matches Err(
                    AppError::Oauth2FailedToAuthorize,
                ),
            },
    {
        match reply {
            ProviderReply::Success(body) => Ok(body),
            ProviderReply::Rejected(refusal) => Err(classify_rejection(&refusal)),
            ProviderReply::Unreachable(_) => Err(AppError::Oauth2FailedToAuthorize),
        }
    }

    /// Judges the answer to a profile request, as [`Self::google_login`] judges the
    /// answer to a code exchange.
    pub fn fetch_google_user(reply: ProviderReply<GoogleUserResult>) -> (profile: Result<
        GoogleUserResult,
        AppError,
    >)
        ensures
            match reply {
                ProviderReply::Success(body) => profile == Ok::<GoogleUserResult, AppError>(body),
                ProviderReply::Rejected(refusal) => profile matches Err(e) && (if refusal.error@
                    == "invalid_grant"@ {
                    e is Unauthorized
                } else {
                    e matches AppError::Oauth2ProviderError(m) && m@ == refusal.error@
                }),
                ProviderReply::Unreachable(_) => profile matches Err(
                    AppError::Oauth2FailedToAuthorize,
                ),
            },
    {
        match reply {
            ProviderReply::Success(body) => Ok(body),
            ProviderReply::Rejected(refusal) => Err(classify_rejection(&refusal)),
            ProviderReply::Unreachable(_) => Err(AppError::Oauth2FailedToAuthorize),
        }
    }

    /// Judges the answer to a refresh request. A transport failure is handed on with
    /// its description.
    pub fn google_refresh_token(reply: ProviderReply<GoogleTokenResponse>) -> (tokens: Result<
        GoogleTokenResponse,
        AppError,
    >)
        ensures
            match reply {
                ProviderReply::Success(body) => tokens == Ok::<GoogleTokenResponse, AppError>(body),
                ProviderReply::Rejected(refusal) => tokens matches Err(e) && (if refusal.error@
                    == "invalid_grant"@ {
                    e is Unauthorized
                } else {
                    e matches AppError::Oauth2ProviderError(m) && m@ == refusal.error@
                }),
                ProviderReply::Unreachable(why) => tokens matches Err(AppError::ProcessError(m))
                    && m@ == why@,
            },
    {
        match reply {
            ProviderReply::Success(body) => Ok(body),
            ProviderReply::Rejected(refusal) => Err(classify_rejection(&refusal)),
            ProviderReply::Unreachable(why) => Err(AppError::ProcessError(why)),
        }
    }

    /// Judges how a revocation request ended: any answer counts as done; a transport
    /// failure is handed on with its description.
    pub fn google_revoke_token(sent: Result<(), String>) -> (done: Result<(), AppError>)
        ensures
            match sent {
                Ok(_) => done is Ok,
                Err(why) => done matches Err(AppError::ProcessError(m)) && m@ == why@,
            },
    {
        match sent {
            Ok(_) => Ok(()),
            Err(why) => Err(AppError::ProcessError(why)),
        }
    }

    /// Chooses the path after the provider named the user, given what the lookup of
    /// the address returned: a local user with that address is signed in as found;
    /// where the lookup found none, or failed, the user is registered.
    pub fn login_path(lookup: Result<User, AppError>) -> (path: ExternalLogin)
        ensures
            match lookup {
                Ok(user) => path == ExternalLogin::Existing(user),
                Err(_) => path is Register,
            },
    {
        match lookup {
            Ok(user) => ExternalLogin::Existing(user),
            Err(_) => ExternalLogin::Register,
        }
    }

    /// The rows that register the user of a profile: the account, its link to the
    /// provider under the provider's subject, and its membership in the default role.
    pub fn register_user_from_google(
        profile: &GoogleUserResult,
        default_role: &Role,
        user_id: String,
        link_id: String,
        now: i64,
    ) -> (rows: Registration)
        ensures
            rows.user@ == profile.account(user_id@, now),
            rows.link@ == (UserOauthProviderView {
                id: link_id@,
                user_id: user_id@,
                provider: GOOGLE_PROVIDER@,
                provider_user_id: profile.sub@,
            }),
            rows.membership@ == (UserRoleView {
                user_id: user_id@,
                role_id: default_role.id@,
                created_at: now,
                updated_at: now,
            }),
    {
        let user = profile.to_user_at(user_id, now);
        let link = UserOauthProvider::create(
            link_id,
            user.id.clone(),
            GOOGLE_PROVIDER.to_string(),
            profile.sub.clone(),
        );
        let membership = UserRole::create(user.id.clone(), default_role.id.clone(), now);
        Registration { user, link, membership }
    }

    /// Reconciles the session of a user with a new token pair, given what the lookup
    /// of the user's stored session returned. The session ends `ttl_seconds` after
    /// `now`. See [`reconciled`].
    pub fn get_or_create_session(
        lookup: Result<UserSession, AppError>,
        user_id: &str,
        access_token: &str,
        refresh_token: &str,
        ttl_seconds: Option<i64>,
        new_id: String,
        now: i64,
    ) -> (write: SessionWrite)
        ensures
            write@ == reconciled(
                found_session(lookup),
                user_id@,
                access_token@,
                refresh_token@,
                session_end(ttl_seconds, now),
                new_id@,
                now,
            ),
    {
        let expires_at = session_expiry(ttl_seconds, now);
        match lookup {
            Ok(stored) => {
                let mut session = stored;
                if !same_text(session.refresh_token.as_str(), refresh_token) {
                    session.update(access_token.to_string(), refresh_token.to_string(), expires_at);
                    SessionWrite::Update(session)
                } else {
                    SessionWrite::Keep(session)
                }
            },
            Err(_) => SessionWrite::Create(
                UserSession::create(
                    new_id,
                    user_id.to_string(),
                    access_token.to_string(),
                    refresh_token.to_string(),
                    expires_at,
                    now,
                ),
            ),
        }
    }
}

/// What reconciliation writes, if it writes: see [`reconciled`]. `None` where the
/// stored session stands.
pub fn session_write(
    lookup: Result<UserSession, AppError>,
    user_id: &str,
    access_token: &str,
    refresh_token: &str,
    ttl_seconds: Option<i64>,
    new_id: String,
    now: i64,
) -> (write: Option<SessionWrite>)
    ensures
        ({
            let due = reconciled(
                found_session(lookup),
                user_id@,
                access_token@,
                refresh_token@,
                session_end(ttl_seconds, now),
                new_id@,
                now,
            );
            match write {
                Some(w) => due.writes() && w@ == due,
                None => !due.writes(),
            }
        }),
{
    match OauthService::<u8, u8, u8, u8>::get_or_create_session(
        lookup,
        user_id,
        access_token,
        refresh_token,
        ttl_seconds,
        new_id,
        now,
    ) {
        SessionWrite::Keep(_) => None,
        write => Some(write),
    }
}

/// Signing in again with the same tokens writes nothing: whatever a first
/// reconciliation stored, a second one with the same refresh token keeps it, and so
/// does every one after it.
pub proof fn lemma_reconciliation_is_idempotent(
    found: Option<UserSessionView>,
    user_id: Seq<char>,
    access_token: Seq<char>,
    refresh_token: Seq<char>,
    expires_at: Option<i64>,
    new_id: Seq<char>,
    now: i64,
    later_expires_at: Option<i64>,
    later_id: Seq<char>,
    later: i64,
)
    ensures
        ({
            let first = reconciled(
                found,
                user_id,
                access_token,
                refresh_token,
                expires_at,
                new_id,
                now,
            );
            let second = reconciled(
                Some(first.session()),
                user_id,
                access_token,
                refresh_token,
                later_expires_at,
                later_id,
                later,
            );
            &&& first.session().refresh_token == refresh_token
            &&& second == SessionWriteView::Keep(first.session())
            &&& !second.writes()
        }),
{
}

/// The stored sessions, as rows. At most one row per user is the invariant.
pub open spec fn one_session_per_user(rows: Seq<UserSessionView>) -> bool {
    forall|i: int, j: int|
        0 <= i < rows.len() && 0 <= j < rows.len() && i != j ==> (#[trigger] rows[i]).user_id != (
        #[trigger] rows[j]).user_id
}

/// Whether `found` is what a lookup by user finds in `rows`.
pub open spec fn session_lookup(rows: Seq<UserSessionView>, user_id: Seq<char>, found: Option<
    UserSessionView,
>) -> bool {
    match found {
        Some(s) => rows.contains(s) && s.user_id == user_id,
        None => forall|i: int| 0 <= i < rows.len() ==> (#[trigger] rows[i]).user_id != user_id,
    }
}

/// The rows after a write: an update replaces the row of the user, a creation adds one.
pub open spec fn rows_after(rows: Seq<UserSessionView>, write: SessionWriteView) -> Seq<
    UserSessionView,
> {
    match write {
        SessionWriteView::Keep(_) => rows,
        SessionWriteView::Update(s) => rows.map_values(
            |row: UserSessionView| if row.user_id == s.user_id {
                s
            } else {
                row
            },
        ),
        SessionWriteView::Create(s) => rows.push(s),
    }
}

/// Reconciliation never leaves a user with two sessions, and afterwards a lookup
/// finds the session it decided on.
pub proof fn lemma_one_session_per_user(
    rows: Seq<UserSessionView>,
    found: Option<UserSessionView>,
    user_id: Seq<char>,
    access_token: Seq<char>,
    refresh_token: Seq<char>,
    expires_at: Option<i64>,
    new_id: Seq<char>,
    now: i64,
)
    requires
        one_session_per_user(rows),
        session_lookup(rows, user_id, found),
    ensures
        ({
            let write = reconciled(
                found,
                user_id,
                access_token,
                refresh_token,
                expires_at,
                new_id,
                now,
            );
            &&& one_session_per_user(rows_after(rows, write))
            &&& session_lookup(rows_after(rows, write), user_id, Some(write.session()))
        }),
{
    let write = reconciled(found, user_id, access_token, refresh_token, expires_at, new_id, now);
    let after = rows_after(rows, write);
    match found {
        Some(stored) => {
            let k = choose|k: int| 0 <= k < rows.len() && rows[k] == stored;
            if write is Update {
                assert(after[k] == write.session());
            } else {
                assert(after[k] == stored);
            }
        },
        None => {
            assert(after[rows.len() as int] == write.session());
        },
    }
}

} // verus!
