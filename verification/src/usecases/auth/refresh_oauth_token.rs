//! Token refresh.

use vstd::prelude::*;
use vstd::string::*;
use std::sync::Arc;
use crate::constants::{
    ACCESS_TOKEN_HOURS, EMAIL_PROVIDER, GOOGLE_PROVIDER, REFRESH_TOKEN_HOURS,
    SESSION_TTL_SECONDS,
};
use crate::dto::GoogleTokenResponse;
use crate::entities::{UserSession, UserSessionView};
use crate::error::{AppError, DbError};
use crate::flow::{fail, out_of_turn, unexpected, Effect, Event, Step};
use crate::jwt_maker::{
    issued_access, issued_refresh, refresh_readable, signed_with, token_payload, JwtMaker,
    RefreshTokenClaims,
};
use crate::services::oauth_svc::{session_end, session_expiry, OauthService, ProviderReply};
use crate::text::same_text;

verus! {

/// How a failed session lookup is surfaced on refresh: a missing session as an
/// invalid one, any other failure with its description.
pub fn session_or_error(lookup: Result<UserSession, AppError>) -> (session: Result<
    UserSession,
    AppError,
>)
    ensures
        match lookup {
            Ok(found) => session == Ok::<UserSession, AppError>(found),
            Err(AppError::SqlxError(DbError::RowNotFound)) => session matches Err(
                AppError::UnauthorizedError(m),
            ) && m@ == "Invalid Session, try to relogin"@,
            Err(other) => session matches Err(AppError::ProcessError(m)) && m@ == other.text(),
        },
{
    match lookup {
        Ok(found) => Ok(found),
        Err(err) => {
            if err.is_row_not_found() {
                Err(AppError::UnauthorizedError("Invalid Session, try to relogin".to_string()))
            } else {
                Err(err.as_process_error())
            }
        },
    }
}

/// The pair that the maker issues to `subject` at `now`: its access token of one
/// hour and its refresh token of seven days. `None` where it has not both.
pub open spec fn new_pair(maker: JwtMaker, subject: Seq<char>, now: i64) -> Option<
    (Seq<char>, Seq<char>),
> {
    match (
        maker.access_token(subject, now, ACCESS_TOKEN_HOURS),
        maker.refresh_token(subject, now, REFRESH_TOKEN_HOURS),
    ) {
        (Some(access), Some(refresh)) => Some((access, refresh)),
        _ => None,
    }
}

/// Whether a pair carries what tokens issued to `subject` at `now` are to carry: the
/// subject, this service as issuer, and a lifetime of one hour and of seven days.
pub open spec fn pair_carries(subject: Seq<char>, now: i64, access: Seq<char>, refresh: Seq<char>) -> bool {
    &&& issued_access(subject, now, ACCESS_TOKEN_HOURS) is Some
    &&& issued_refresh(subject, now, REFRESH_TOKEN_HOURS) is Some
    &&& token_payload(access) == issued_access(subject, now, ACCESS_TOKEN_HOURS)
    &&& token_payload(refresh) == issued_refresh(subject, now, REFRESH_TOKEN_HOURS)
}

/// The mechanism by which a token pair is refreshed.
#[derive(Debug, PartialEq, Eq, Structural, Clone, Copy)]
pub enum RefreshPath {
    /// The provider issues the new pair.
    Google,
    /// This service issues the new pair.
    Email,
}

/// A refreshed session and the pair handed to the client.
#[derive(Debug)]
pub struct Refreshed {
    pub session: UserSession,
    pub access_token: String,
    pub refresh_token: String,
}

/// Token refresh.
pub struct RefreshOauthToken<U, R, S, O> {
    pub jwt_maker: Arc<JwtMaker>,
    pub user_session_repo: Arc<S>,
    pub oauth_svc: Arc<OauthService<U, R, S, O>>,
}

impl<U, R, S, O> RefreshOauthToken<U, R, S, O> {
    /// The use case over its collaborators.
    pub fn new(
        jwt_maker: Arc<JwtMaker>,
        user_session_repo: Arc<S>,
        oauth_svc: Arc<OauthService<U, R, S, O>>,
    ) -> (uc: Self)
        ensures
            uc.jwt_maker == jwt_maker,
            uc.user_session_repo == user_session_repo,
            uc.oauth_svc == oauth_svc,
    {
        Self { jwt_maker, user_session_repo, oauth_svc }
    }

    /// Chooses the refresh mechanism by the provider tag; an unknown tag is refused.
    pub fn path(provider: &str) -> (path: Result<RefreshPath, AppError>)
        ensures
            provider@ == GOOGLE_PROVIDER@ ==> path == Ok::<RefreshPath, AppError>(
                RefreshPath::Google,
            ),
            provider@ != GOOGLE_PROVIDER@ && provider@ == EMAIL_PROVIDER@ ==> path == Ok::<
                RefreshPath,
                AppError,
            >(RefreshPath::Email),
            provider@ != GOOGLE_PROVIDER@ && provider@ != EMAIL_PROVIDER@ ==> path matches Err(
                AppError::InvalidOauthProvider,
            ),
    {
        if same_text(provider, GOOGLE_PROVIDER) {
            Ok(RefreshPath::Google)
        } else if same_text(provider, EMAIL_PROVIDER) {
            Ok(RefreshPath::Email)
        } else {
            Err(AppError::InvalidOauthProvider)
        }
    }

    /// The session to refresh, or why there is none: a missing session is invalid,
    /// and a session that has ended at `now` is expired. Only a session returned
    /// here may be refreshed, so that neither the provider is asked nor a token
    /// minted for an expired one.
    pub fn live_session(lookup: Result<UserSession, AppError>, now: i64) -> (session: Result<
        UserSession,
        AppError,
    >)
        ensures
            match lookup {
                Ok(found) => if UserSession::expired_at(found@, now) {
                    session matches Err(AppError::RefreshTokenExpired)
                } else {
                    session == Ok::<UserSession, AppError>(found)
                },
                Err(AppError::SqlxError(DbError::RowNotFound)) => session matches Err(
                    AppError::UnauthorizedError(m),
                ) && m@ == "Invalid Session, try to relogin"@,
                Err(other) => session matches Err(AppError::ProcessError(m)) && m@
                    == other.text(),
            },
    {
        match session_or_error(lookup) {
            Ok(found) => {
                if found.is_expired(now) {
                    Err(AppError::RefreshTokenExpired)
                } else {
                    Ok(found)
                }
            },
            Err(e) => Err(e),
        }
    }

    /// Takes over the pair that the provider issued: the session gets the new access
    /// and refresh tokens and ends seven days after `now`; the client gets the
    /// identity token and the refresh token.
    pub fn google_refresh_token(session: UserSession, tokens: GoogleTokenResponse, now: i64) -> (out:
        Refreshed)
        ensures
            out.session@ == (UserSessionView {
                access_token: tokens.access_token@,
                refresh_token: tokens.refresh_token@,
                expires_at: session_end(Some(SESSION_TTL_SECONDS), now),
                ..session@
            }),
            out.access_token@ == tokens.id_token@,
            out.refresh_token@ == tokens.refresh_token@,
    {
        let mut session = session;
        session.update(
            tokens.access_token.clone(),
            tokens.refresh_token.clone(),
            session_expiry(Some(SESSION_TTL_SECONDS), now),
        );
        Refreshed { session, access_token: tokens.id_token, refresh_token: tokens.refresh_token }
    }

    /// What the verification of a refresh token comes to: the claims of a token that
    /// was accepted; for one that was rejected, whatever the reason, that it has
    /// expired.
    pub fn counted_expired(verified: Result<RefreshTokenClaims, AppError>) -> (claims: Result<
        RefreshTokenClaims,
        AppError,
    >)
        ensures
            match verified {
                Ok(c) => claims == Ok::<RefreshTokenClaims, AppError>(c),
                Err(_) => claims matches Err(AppError::RefreshTokenExpired),
            },
    {
        match verified {
            Ok(c) => Ok(c),
            Err(_) => Err(AppError::RefreshTokenExpired),
        }
    }

    /// Verifies a refresh token of this service. Whatever is wrong with it, a bad
    /// signature or an elapsed lifetime, it counts as expired. A token that is
    /// accepted is signed with the secret of this service, and its claims are those
    /// that the token carries; a token that carries no readable claims is never
    /// accepted.
    pub fn email_claims(&self, refresh_token: &str) -> (claims: Result<RefreshTokenClaims, AppError>)
        ensures
            match claims {
                Ok(c) => token_payload(refresh_token@) matches Some(held) && c.stated_by(held),
                Err(e) => e is RefreshTokenExpired,
            },
            token_payload(refresh_token@) matches Some(held) && !refresh_readable(held) ==> claims
                is Err,
            token_payload(refresh_token@) is None ==> claims is Err,
            claims is Ok ==> signed_with(refresh_token@, self.jwt_maker.secret()),
    {
        Self::counted_expired(self.jwt_maker.verify_refresh_token(refresh_token))
    }

    /// Issues a new pair for the subject of a verified refresh token, given what the
    /// lookup of the subject's session returned: the session must be live; it then
    /// gets the maker's pair for the subject at `now` (see [`new_pair`]), signed
    /// with the secret of this service, and ends seven days after `now`. Where the maker has no such pair, the answer is a
    /// token error.
    pub fn email_refresh_token(
        &self,
        claims: &RefreshTokenClaims,
        lookup: Result<UserSession, AppError>,
        now: i64,
    ) -> (out: Result<Refreshed, AppError>)
        ensures
            match lookup {
                Ok(found) => if UserSession::expired_at(found@, now) {
                    out matches Err(AppError::RefreshTokenExpired)
                } else {
                    match new_pair(*self.jwt_maker, claims.sub@, now) {
                        Some((access, refresh)) => {
                            &&& out matches Ok(r) && r.access_token@ == access && r.refresh_token@
                                == refresh && r.session@ == (UserSessionView {
                                access_token: access,
                                refresh_token: refresh,
                                expires_at: session_end(Some(SESSION_TTL_SECONDS), now),
                                ..found@
                            })
                            &&& pair_carries(claims.sub@, now, access, refresh)
                        },
                        None => out matches Err(e) && e is JWTError,
                    }
                },
                Err(AppError::SqlxError(DbError::RowNotFound)) => out matches Err(
                    AppError::UnauthorizedError(m),
                ) && m@ == "Invalid Session, try to relogin"@,
                Err(other) => out matches Err(AppError::ProcessError(m)) && m@ == other.text(),
            },
            out matches Ok(r) ==> signed_with(r.access_token@, self.jwt_maker.secret())
                && signed_with(r.refresh_token@, self.jwt_maker.secret()),
    {
        let mut session = match Self::live_session(lookup, now) {
            Ok(s) => s,
            Err(e) => {
                return Err(e);
            },
        };
        let access_token = match self.jwt_maker.make_token_at(
            claims.sub.clone(),
            ACCESS_TOKEN_HOURS,
            now,
        ) {
            Ok(t) => t,
            Err(e) => {
                return Err(e);
            },
        };
        let refresh_token = match self.jwt_maker.make_refresh_token_at(
            claims.sub.clone(),
            REFRESH_TOKEN_HOURS,
            now,
        ) {
            Ok(t) => t,
            Err(e) => {
                return Err(e);
            },
        };
        session.update(
            access_token.clone(),
            refresh_token.clone(),
            session_expiry(Some(SESSION_TTL_SECONDS), now),
        );
        Ok(Refreshed { session, access_token, refresh_token })
    }
}


/// Where a token refresh stands.
#[derive(Debug)]
pub enum RefreshState {
    /// The session that holds the refresh token is being looked up.
    AwaitingSessionByToken { refresh_token: String },
    /// The provider is being asked for a new pair for this session.
    AwaitingProvider { session: UserSession },
    /// The session of the subject of a verified refresh token is being looked up.
    AwaitingSessionOfSubject { claims: RefreshTokenClaims },
    /// The refreshed session is being written; this pair is then handed out.
    AwaitingUpdate { access_token: String, refresh_token: String },
}

/// Whether a refresh waits for the lookup of a session, on either path.
pub open spec fn awaits_session(state: RefreshState) -> bool {
    state is AwaitingSessionByToken || state is AwaitingSessionOfSubject
}

/// A session has expired as soon as its end lies before `now`, be it by one second; a
/// refresh then ends as expired (see [`RefreshOauthToken::resume`]): the step is
/// done, so the provider is not asked, no token is minted and the session is not
/// written.
pub proof fn lemma_session_past_its_end_has_expired(found: UserSessionView, end: i64, now: i64)
    requires
        found.expires_at == Some(end),
        end < now,
    ensures
        UserSession::expired_at(found, now),
{
}

/// How the provider's refusal of a request is surfaced.
pub open spec fn refused(e: AppError, code: Seq<char>) -> bool {
    if code == "invalid_grant"@ {
        e is Unauthorized
    } else {
        e matches AppError::Oauth2ProviderError(m) && m@ == code
    }
}

/// How a failed session lookup ends a refresh.
pub open spec fn no_session(e: AppError, why: AppError) -> bool {
    match why {
        AppError::SqlxError(DbError::RowNotFound) => e matches AppError::UnauthorizedError(m) && m@
            == "Invalid Session, try to relogin"@,
        other => e matches AppError::ProcessError(m) && m@ == other.text(),
    }
}

impl<U, R, S, O> RefreshOauthToken<U, R, S, O> {
    /// Begins a refresh. With Google the session that holds the refresh token is
    /// looked up first; with email the token is verified first and the session of
    /// its subject looked up then: the token that goes on is signed with the secret
    /// of this service, the claims that go on are those that it carries, and a token
    /// that is rejected, or carries no readable claims, ends the refresh as expired
    /// before anything is looked up. An unknown provider is
    /// refused.
    pub fn execute(&self, provider: &str, refresh_token: &str) -> (step: Step<
        RefreshState,
        (String, String),
    >)
        ensures
            provider@ == GOOGLE_PROVIDER@ ==> (step matches Step::Next(
                RefreshState::AwaitingSessionByToken { refresh_token: held },
                Effect::FindSessionByRefreshToken(asked),
            ) && held@ == refresh_token@ && asked@ == refresh_token@),
            provider@ != GOOGLE_PROVIDER@ && provider@ == EMAIL_PROVIDER@ ==> match step {
                Step::Next(
                    RefreshState::AwaitingSessionOfSubject { claims },
                    Effect::FindSessionOfUser(id),
                ) => id@ == claims.sub@ && (token_payload(refresh_token@) matches Some(held)
                    && claims.stated_by(held)) && signed_with(
                    refresh_token@,
                    self.jwt_maker.secret(),
                ),
                Step::Done(Err(e)) => e is RefreshTokenExpired,
                _ => false,
            },
            provider@ != GOOGLE_PROVIDER@ && provider@ == EMAIL_PROVIDER@ && token_payload(
                refresh_token@,
            ) is None ==> step is Done,
            provider@ != GOOGLE_PROVIDER@ && provider@ == EMAIL_PROVIDER@ && (token_payload(
                refresh_token@,
            ) matches Some(held) && !refresh_readable(held)) ==> step is Done,
            provider@ != GOOGLE_PROVIDER@ && provider@ != EMAIL_PROVIDER@ ==> step matches Step::Done(
                Err(AppError::InvalidOauthProvider),
            ),
    {
        match Self::path(provider) {
            Err(e) => fail(e),
            Ok(RefreshPath::Google) => Step::Next(
                RefreshState::AwaitingSessionByToken { refresh_token: refresh_token.to_string() },
                Effect::FindSessionByRefreshToken(refresh_token.to_string()),
            ),
            Ok(RefreshPath::Email) => match self.email_claims(refresh_token) {
                Err(e) => fail(e),
                Ok(claims) => {
                    let id = claims.sub.clone();
                    Step::Next(
                        RefreshState::AwaitingSessionOfSubject { claims },
                        Effect::FindSessionOfUser(id),
                    )
                },
            },
        }
    }

    /// Goes on with a refresh after what was asked for has happened.
    ///
    /// A session that is missing or has ended at `now` ends the refresh before the
    /// provider is asked or a token minted. The provider's answer is judged as on
    /// sign-in. The refreshed session takes the new pair and ends seven days after
    /// `now`; once it is written, the pair is handed out.
    pub fn resume(&self, state: RefreshState, event: Event, now: i64) -> (step: Step<
        RefreshState,
        (String, String),
    >)
        ensures
            awaits_session(state) && (event matches Event::Session(Ok(found))
                && UserSession::expired_at(found@, now)) ==> step matches Step::Done(
                Err(AppError::RefreshTokenExpired),
            ),
            match (state, event) {
                (
                    RefreshState::AwaitingSessionByToken { refresh_token },
                    Event::Session(lookup),
                ) => match lookup {
                    Ok(found) => if UserSession::expired_at(found@, now) {
                        step matches Step::Done(Err(AppError::RefreshTokenExpired))
                    } else {
                        step matches Step::Next(
                            RefreshState::AwaitingProvider { session },
                            Effect::RefreshAtProvider(body),
                        ) && session == found && body.len() == 4 && body[2].0@ == "refresh_token"@
                            && body[2].1@ == refresh_token@
                    },
                    Err(why) => step matches Step::Done(Err(e)) && no_session(e, why),
                },
                (RefreshState::AwaitingProvider { session }, Event::Tokens(answer)) => match answer {
                    Err(e) => step == Step::<RefreshState, (String, String)>::Done(Err(e)),
                    Ok(ProviderReply::Success(tokens)) => step matches Step::Next(
                        RefreshState::AwaitingUpdate { access_token, refresh_token },
                        Effect::UpdateSession(written),
                    ) && written@ == (UserSessionView {
                        access_token: tokens.access_token@,
                        refresh_token: tokens.refresh_token@,
                        expires_at: session_end(Some(SESSION_TTL_SECONDS), now),
                        ..session@
                    }) && access_token@ == tokens.id_token@ && refresh_token@
                        == tokens.refresh_token@,
                    Ok(ProviderReply::Rejected(refusal)) => step matches Step::Done(Err(e))
                        && refused(e, refusal.error@),
                    Ok(ProviderReply::Unreachable(why)) => step matches Step::Done(
                        Err(AppError::ProcessError(m)),
                    ) && m@ == why@,
                },
                (
                    RefreshState::AwaitingSessionOfSubject { claims },
                    Event::Session(lookup),
                ) => match lookup {
                    Ok(found) => if UserSession::expired_at(found@, now) {
                        step matches Step::Done(Err(AppError::RefreshTokenExpired))
                    } else {
                        match new_pair(*self.jwt_maker, claims.sub@, now) {
                            Some((access, refresh)) => {
                                &&& step matches Step::Next(
                                    RefreshState::AwaitingUpdate { access_token, refresh_token },
                                    Effect::UpdateSession(written),
                                ) && access_token@ == access && refresh_token@ == refresh
                                    && written@ == (UserSessionView {
                                    access_token: access,
                                    refresh_token: refresh,
                                    expires_at: session_end(Some(SESSION_TTL_SECONDS), now),
                                    ..found@
                                })
                                &&& pair_carries(claims.sub@, now, access, refresh)
                            },
                            None => step matches Step::Done(Err(e)) && e is JWTError,
                        }
                    },
                    Err(why) => step matches Step::Done(Err(e)) && no_session(e, why),
                },
                (
                    RefreshState::AwaitingUpdate { access_token, refresh_token },
                    Event::Written(written),
                ) => match written {
                    Ok(_) => step == Step::<RefreshState, (String, String)>::Done(
                        Ok((access_token, refresh_token)),
                    ),
                    Err(e) => step == Step::<RefreshState, (String, String)>::Done(Err(e)),
                },
                _ => step matches Step::Done(Err(e)) && out_of_turn(e),
            },
    {
        match (state, event) {
            (RefreshState::AwaitingSessionByToken { refresh_token }, Event::Session(lookup)) => {
                match Self::live_session(lookup, now) {
                    Err(e) => fail(e),
                    Ok(session) => {
                        let body = self.oauth_svc.refresh_request(refresh_token.as_str());
                        Step::Next(
                            RefreshState::AwaitingProvider { session },
                            Effect::RefreshAtProvider(body),
                        )
                    },
                }
            },
            (RefreshState::AwaitingProvider { session }, Event::Tokens(answer)) => {
                let reply = match answer {
                    Ok(r) => r,
                    Err(e) => {
                        return fail(e);
                    },
                };
                match OauthService::<U, R, S, O>::google_refresh_token(reply) {
                    Err(e) => fail(e),
                    Ok(tokens) => {
                        let out = Self::google_refresh_token(session, tokens, now);
                        Step::Next(
                            RefreshState::AwaitingUpdate {
                                access_token: out.access_token,
                                refresh_token: out.refresh_token,
                            },
                            Effect::UpdateSession(out.session),
                        )
                    },
                }
            },
            (RefreshState::AwaitingSessionOfSubject { claims }, Event::Session(lookup)) => {
                match self.email_refresh_token(&claims, lookup, now) {
                    Err(e) => fail(e),
                    Ok(out) => Step::Next(
                        RefreshState::AwaitingUpdate {
                            access_token: out.access_token,
                            refresh_token: out.refresh_token,
                        },
                        Effect::UpdateSession(out.session),
                    ),
                }
            },
            (
                RefreshState::AwaitingUpdate { access_token, refresh_token },
                Event::Written(written),
            ) => match written {
                Ok(_) => Step::Done(Ok((access_token, refresh_token))),
                Err(e) => fail(e),
            },
            _ => unexpected(),
        }
    }
}

} // verus!
