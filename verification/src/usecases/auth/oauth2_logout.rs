//! Sign-out.

use vstd::prelude::*;
use vstd::string::*;
use std::sync::Arc;
use crate::constants::{EMAIL_PROVIDER, GOOGLE_PROVIDER};
use crate::entities::UserSession;
use crate::error::{AppError, DbError};
use crate::flow::{fail, out_of_turn, unexpected, Effect, Event, Step};
use crate::services::oauth_svc::OauthService;
use crate::services::redis_svc::RedisService;
use crate::text::same_text;

verus! {

/// Where a sign-out stands.
#[derive(Debug)]
pub enum LogoutState {
    /// The session of the user is being looked up.
    AwaitingSession { provider: String, subject: String },
    /// The access token is being revoked at the provider.
    AwaitingRevocation { subject: String },
    /// The cached user is being evicted.
    AwaitingEviction,
}

/// Sign-out.
#[derive(Clone)]
pub struct Oauth2Logout<U, R, S, O, C> {
    pub user_session_repo: Arc<S>,
    pub oauth_svc: Arc<OauthService<U, R, S, O>>,
    pub redis_svc: Arc<RedisService<C>>,
}

impl<U, R, S, O, C> Oauth2Logout<U, R, S, O, C> {
    /// The use case over its collaborators.
    pub fn new(
        user_session_repo: Arc<S>,
        oauth_svc: Arc<OauthService<U, R, S, O>>,
        redis_svc: Arc<RedisService<C>>,
    ) -> (uc: Self)
        ensures
            uc.user_session_repo == user_session_repo,
            uc.oauth_svc == oauth_svc,
            uc.redis_svc == redis_svc,
    {
        Self { user_session_repo, oauth_svc, redis_svc }
    }

    /// The token to revoke at the provider on sign-out, given what the lookup of
    /// the session returned. Without a session the user is not signed in. With
    /// Google the access token of the session is revoked; with email nothing is.
    pub fn revocation(provider: &str, session: Result<UserSession, AppError>) -> (revoke: Result<
        Option<String>,
        AppError,
    >)
        ensures
            match session {
                Err(AppError::SqlxError(DbError::RowNotFound)) => revoke matches Err(
                    AppError::Unauthorized,
                ),
                Err(other) => revoke == Err::<Option<String>, AppError>(other),
                Ok(s) => if provider@ == GOOGLE_PROVIDER@ {
                    revoke matches Ok(Some(token)) && token@ == s.access_token@
                } else if provider@ == EMAIL_PROVIDER@ {
                    revoke matches Ok(None)
                } else {
                    revoke matches Err(AppError::InvalidOauthProvider)
                },
            },
    {
        let found = match session {
            Ok(s) => s,
            Err(err) => {
                if err.is_row_not_found() {
                    return Err(AppError::Unauthorized);
                } else {
                    return Err(err);
                }
            },
        };
        if same_text(provider, GOOGLE_PROVIDER) {
            Ok(Some(found.access_token))
        } else if same_text(provider, EMAIL_PROVIDER) {
            Ok(None)
        } else {
            Err(AppError::InvalidOauthProvider)
        }
    }

    /// Begins the sign-out of the user `user_id`, who signed in at `provider` as
    /// `subject`: the session of the user is looked up.
    pub fn execute(provider: &str, user_id: &str, subject: &str) -> (step: Step<LogoutState, ()>)
        ensures
            step matches Step::Next(
                LogoutState::AwaitingSession { provider: tag, subject: held },
                Effect::FindSessionOfUser(id),
            ) && tag@ == provider@ && held@ == subject@ && id@ == user_id@,
    {
        Step::Next(
            LogoutState::AwaitingSession {
                provider: provider.to_string(),
                subject: subject.to_string(),
            },
            Effect::FindSessionOfUser(user_id.to_string()),
        )
    }

    /// Goes on with a sign-out after what was asked for has happened.
    ///
    /// With Google the access token of the session is revoked at the provider
    /// first; a revocation that could not be sent ends the sign-out with the
    /// description of the failure. The user cached under the subject is evicted
    /// last, so that the next request resolves the user anew; how the eviction
    /// ended is how the sign-out ends.
    pub fn resume(state: LogoutState, event: Event) -> (step: Step<LogoutState, ()>)
        ensures
            match (state, event) {
                (
                    LogoutState::AwaitingSession { provider, subject },
                    Event::Session(lookup),
                ) => match lookup {
                    Err(AppError::SqlxError(DbError::RowNotFound)) => step matches Step::Done(
                        Err(AppError::Unauthorized),
                    ),
                    Err(other) => step == Step::<LogoutState, ()>::Done(Err(other)),
                    Ok(session) => if provider@ == GOOGLE_PROVIDER@ {
                        step matches Step::Next(
                            LogoutState::AwaitingRevocation { subject: held },
                            Effect::RevokeAtProvider(url),
                        ) && held == subject && url@
                            == "https://oauth2.googleapis.com/revoke?token="@
                            + session.access_token@
                    } else if provider@ == EMAIL_PROVIDER@ {
                        step matches Step::Next(
                            LogoutState::AwaitingEviction,
                            Effect::EvictCachedUser(key),
                        ) && key@ == "current_user_"@ + subject@
                    } else {
                        step matches Step::Done(Err(AppError::InvalidOauthProvider))
                    },
                },
                (LogoutState::AwaitingRevocation { subject }, Event::Revoked(sent)) => match sent {
                    Ok(_) => step matches Step::Next(
                        LogoutState::AwaitingEviction,
                        Effect::EvictCachedUser(key),
                    ) && key@ == "current_user_"@ + subject@,
                    Err(why) => step matches Step::Done(Err(AppError::ProcessError(m))) && m@
                        == why@,
                },
                (LogoutState::AwaitingEviction, Event::Written(written)) => step == Step::<
                    LogoutState,
                    (),
                >::Done(written),
                _ => step matches Step::Done(Err(e)) && out_of_turn(e),
            },
    {
        match (state, event) {
            (LogoutState::AwaitingSession { provider, subject }, Event::Session(lookup)) => {
                match Self::revocation(provider.as_str(), lookup) {
                    Err(e) => fail(e),
                    Ok(Some(token)) => Step::Next(
                        LogoutState::AwaitingRevocation { subject },
                        Effect::RevokeAtProvider(
                            OauthService::<U, R, S, O>::revoke_url(token.as_str()),
                        ),
                    ),
                    Ok(None) => Step::Next(
                        LogoutState::AwaitingEviction,
                        Effect::EvictCachedUser(
                            RedisService::<C>::current_user_key(subject.as_str()),
                        ),
                    ),
                }
            },
            (LogoutState::AwaitingRevocation { subject }, Event::Revoked(sent)) => {
                match OauthService::<U, R, S, O>::google_revoke_token(sent) {
                    Err(e) => fail(e),
                    Ok(_) => Step::Next(
                        LogoutState::AwaitingEviction,
                        Effect::EvictCachedUser(
                            RedisService::<C>::current_user_key(subject.as_str()),
                        ),
                    ),
                }
            },
            (LogoutState::AwaitingEviction, Event::Written(written)) => Step::Done(written),
            _ => unexpected(),
        }
    }
}

} // verus!
