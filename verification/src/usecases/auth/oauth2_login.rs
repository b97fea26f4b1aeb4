//! Sign-in with an external provider.

use vstd::prelude::*;
use vstd::string::*;
use std::sync::Arc;
use crate::constants::{GOOGLE_PROVIDER, SESSION_TTL_SECONDS};
use crate::dto::{GoogleTokenResponse, GoogleUserResult, Oauth2Request};
use crate::entities::{UserOauthProviderView, UserRoleView};
use crate::error::{AppError, DbError};
use crate::flow::{fail, out_of_turn, unexpected, Effect, Event, Fresh, Step};
use crate::services::oauth_svc::{
    default_role, found_session, reconciled, session_end, session_write, ExternalLogin,
    OauthService, ProviderReply,
};
use crate::text::same_text;
use crate::usecases::auth::refresh_oauth_token::refused;

verus! {

/// Where a sign-in with the provider stands.
#[derive(Debug)]
pub enum ExternalLoginState {
    /// The authorization code is being exchanged for tokens.
    AwaitingTokens,
    /// The profile of the user behind the tokens is being fetched.
    AwaitingProfile { tokens: GoogleTokenResponse },
    /// The local user with the address of the profile is being looked up.
    AwaitingUser { tokens: GoogleTokenResponse, profile: GoogleUserResult },
    /// The default role is being looked up, for a user who is to be registered.
    AwaitingDefaultRole { tokens: GoogleTokenResponse, profile: GoogleUserResult },
    /// The rows of the new user are being inserted.
    AwaitingInsert { tokens: GoogleTokenResponse },
    /// The stored session of the user is being looked up.
    AwaitingSession { tokens: GoogleTokenResponse, user_id: String },
    /// The session is being written.
    AwaitingWrite { tokens: GoogleTokenResponse },
}

/// Sign-in with an external provider.
#[derive(Clone)]
pub struct Oauth2Login<U, R, S, O> {
    pub oauth_svc: Arc<OauthService<U, R, S, O>>,
}

impl<U, R, S, O> Oauth2Login<U, R, S, O> {
    /// The use case over the sign-in service.
    pub fn new(oauth_svc: Arc<OauthService<U, R, S, O>>) -> (uc: Self)
        ensures
            uc.oauth_svc == oauth_svc,
    {
        Self { oauth_svc }
    }

    /// The pair handed to the client after sign-in with the provider: the provider's
    /// identity token, which serves as access token, and its refresh token.
    pub fn tokens_of(tokens: GoogleTokenResponse) -> (pair: (String, String))
        ensures
            pair.0 == tokens.id_token,
            pair.1 == tokens.refresh_token,
    {
        (tokens.id_token, tokens.refresh_token)
    }

    /// Begins a sign-in with `provider`: with Google the authorization code is
    /// exchanged for tokens; any other provider is refused.
    pub fn execute(&self, provider: &str, req: &Oauth2Request) -> (step: Step<
        ExternalLoginState,
        (String, String),
    >)
        ensures
            provider@ != GOOGLE_PROVIDER@ ==> step matches Step::Done(
                Err(AppError::InvalidOauthProvider),
            ),
            provider@ == GOOGLE_PROVIDER@ ==> (step matches Step::Next(
                ExternalLoginState::AwaitingTokens,
                Effect::ExchangeCode(form),
            ) && form.len() == 5 && form[0].0@ == "code"@ && form[0].1@ == req.code@ && form[4].0@
                == "grant_type"@ && form[4].1@ == "authorization_code"@),
    {
        if same_text(provider, GOOGLE_PROVIDER) {
            Step::Next(
                ExternalLoginState::AwaitingTokens,
                Effect::ExchangeCode(self.oauth_svc.token_request(req.code.as_str())),
            )
        } else {
            fail(AppError::InvalidOauthProvider)
        }
    }

    /// Goes on with a sign-in after what was asked for has happened.
    ///
    /// The provider's answers are judged: a refusal with `invalid_grant` is an
    /// authorization failure, any other refusal a failure of the provider with its code,
    /// no answer a failure to authorize. With the tokens the profile is fetched,
    /// with the profile the local user looked up. A user who exists is signed in as
    /// found and nothing is inserted; one who does not is registered in the default
    /// role, linked to the provider under the provider's subject. The session of
    /// the user is then reconciled with the provider's pair, to end seven days
    /// after now, and the identity token and the refresh token are handed out.
    pub fn resume(state: ExternalLoginState, event: Event, fresh: Fresh) -> (step: Step<
        ExternalLoginState,
        (String, String),
    >)
        ensures
            match (state, event) {
                (ExternalLoginState::AwaitingTokens, Event::Tokens(answer)) => match answer {
                    Err(e) => step == Step::<ExternalLoginState, (String, String)>::Done(Err(e)),
                    Ok(ProviderReply::Success(tokens)) => step matches Step::Next(
                        ExternalLoginState::AwaitingProfile { tokens: held },
                        Effect::FetchProfile { url, bearer },
                    ) && held == tokens && url@
                        == "https://www.googleapis.com/oauth2/v3/userinfo?alt=json&access_token="@
                        + tokens.access_token@ && bearer@ == "Bearer "@ + tokens.id_token@,
                    Ok(ProviderReply::Rejected(refusal)) => step matches Step::Done(Err(e))
                        && refused(e, refusal.error@),
                    Ok(ProviderReply::Unreachable(_)) => step matches Step::Done(
                        Err(AppError::Oauth2FailedToAuthorize),
                    ),
                },
                (
                    ExternalLoginState::AwaitingProfile { tokens },
                    Event::Profile(answer),
                ) => match answer {
                    Err(e) => step == Step::<ExternalLoginState, (String, String)>::Done(Err(e)),
                    Ok(ProviderReply::Success(profile)) => step matches Step::Next(
                        ExternalLoginState::AwaitingUser { tokens: held, profile: kept },
                        Effect::FindUserByEmail(email),
                    ) && held == tokens && kept == profile && email@ == profile.email@,
                    Ok(ProviderReply::Rejected(refusal)) => step matches Step::Done(Err(e))
                        && refused(e, refusal.error@),
                    Ok(ProviderReply::Unreachable(_)) => step matches Step::Done(
                        Err(AppError::Oauth2FailedToAuthorize),
                    ),
                },
                (
                    ExternalLoginState::AwaitingUser { tokens, profile },
                    Event::User(lookup),
                ) => match lookup {
                    Ok(user) => step matches Step::Next(
                        ExternalLoginState::AwaitingSession { tokens: held, user_id },
                        Effect::FindSessionOfUser(id),
                    ) && held == tokens && user_id@ == user.id@ && id@ == user.id@,
                    Err(_) => step matches Step::Next(
                        ExternalLoginState::AwaitingDefaultRole { tokens: held, profile: kept },
                        Effect::FindDefaultRole,
                    ) && held == tokens && kept == profile,
                },
                (
                    ExternalLoginState::AwaitingDefaultRole { tokens, profile },
                    Event::Role(lookup),
                ) => match lookup {
                    Ok(role) => step matches Step::Next(
                        ExternalLoginState::AwaitingInsert { tokens: held },
                        Effect::InsertRegistration(rows),
                    ) && held == tokens && rows.user@ == profile.account(fresh.user_id@, fresh.now)
                        && rows.link@ == (UserOauthProviderView {
                        id: fresh.link_id@,
                        user_id: fresh.user_id@,
                        provider: GOOGLE_PROVIDER@,
                        provider_user_id: profile.sub@,
                    }) && rows.membership@ == (UserRoleView {
                        user_id: fresh.user_id@,
                        role_id: role.id@,
                        created_at: fresh.now,
                        updated_at: fresh.now,
                    }),
                    Err(AppError::SqlxError(DbError::RowNotFound)) => step matches Step::Done(
                        Err(AppError::ProcessError(m)),
                    ) && m@ == "Default Role is not Found please contact Administrator!"@,
                    Err(other) => step matches Step::Done(Err(AppError::ProcessError(m))) && m@
                        == other.text(),
                },
                (
                    ExternalLoginState::AwaitingInsert { tokens },
                    Event::Registered(inserted),
                ) => match inserted {
                    Ok(user) => step matches Step::Next(
                        ExternalLoginState::AwaitingSession { tokens: held, user_id },
                        Effect::FindSessionOfUser(id),
                    ) && held == tokens && user_id@ == user.id@ && id@ == user.id@,
                    Err(e) => step == Step::<ExternalLoginState, (String, String)>::Done(Err(e)),
                },
                (
                    ExternalLoginState::AwaitingSession { tokens, user_id },
                    Event::Session(lookup),
                ) => {
                    let due = reconciled(
                        found_session(lookup),
                        user_id@,
                        tokens.access_token@,
                        tokens.refresh_token@,
                        session_end(Some(SESSION_TTL_SECONDS), fresh.now),
                        fresh.session_id@,
                        fresh.now,
                    );
                    if due.writes() {
                        step matches Step::Next(
                            ExternalLoginState::AwaitingWrite { tokens: held },
                            Effect::WriteSession(write),
                        ) && write@ == due && held == tokens
                    } else {
                        step == Step::<ExternalLoginState, (String, String)>::Done(
                            Ok((tokens.id_token, tokens.refresh_token)),
                        )
                    }
                },
                (
                    ExternalLoginState::AwaitingWrite { tokens },
                    Event::Written(written),
                ) => match written {
                    Ok(_) => step == Step::<ExternalLoginState, (String, String)>::Done(
                        Ok((tokens.id_token, tokens.refresh_token)),
                    ),
                    Err(why) => step matches Step::Done(Err(AppError::ProcessError(m))) && m@
                        == why.text(),
                },
                _ => step matches Step::Done(Err(e)) && out_of_turn(e),
            },
    {
        match (state, event) {
            (ExternalLoginState::AwaitingTokens, Event::Tokens(answer)) => {
                let reply = match answer {
                    Ok(r) => r,
                    Err(e) => {
                        return fail(e);
                    },
                };
                match OauthService::<U, R, S, O>::google_login(reply) {
                    Err(e) => fail(e),
                    Ok(tokens) => {
                        let url = OauthService::<U, R, S, O>::userinfo_url(
                            tokens.access_token.as_str(),
                        );
                        let bearer = OauthService::<U, R, S, O>::bearer(tokens.id_token.as_str());
                        Step::Next(
                            ExternalLoginState::AwaitingProfile { tokens },
                            Effect::FetchProfile { url, bearer },
                        )
                    },
                }
            },
            (ExternalLoginState::AwaitingProfile { tokens }, Event::Profile(answer)) => {
                let reply = match answer {
                    Ok(r) => r,
                    Err(e) => {
                        return fail(e);
                    },
                };
                match OauthService::<U, R, S, O>::fetch_google_user(reply) {
                    Err(e) => fail(e),
                    Ok(profile) => {
                        let email = profile.email.clone();
                        Step::Next(
                            ExternalLoginState::AwaitingUser { tokens, profile },
                            Effect::FindUserByEmail(email),
                        )
                    },
                }
            },
            (ExternalLoginState::AwaitingUser { tokens, profile }, Event::User(lookup)) => {
                match OauthService::<U, R, S, O>::login_path(lookup) {
                    ExternalLogin::Existing(user) => {
                        let id = user.id.clone();
                        Step::Next(
                            ExternalLoginState::AwaitingSession { tokens, user_id: user.id },
                            Effect::FindSessionOfUser(id),
                        )
                    },
                    ExternalLogin::Register => Step::Next(
                        ExternalLoginState::AwaitingDefaultRole { tokens, profile },
                        Effect::FindDefaultRole,
                    ),
                }
            },
            (ExternalLoginState::AwaitingDefaultRole { tokens, profile }, Event::Role(lookup)) => {
                match default_role(lookup) {
                    Err(e) => fail(e),
                    Ok(role) => {
                        let rows = OauthService::<U, R, S, O>::register_user_from_google(
                            &profile,
                            &role,
                            fresh.user_id,
                            fresh.link_id,
                            fresh.now,
                        );
                        Step::Next(
                            ExternalLoginState::AwaitingInsert { tokens },
                            Effect::InsertRegistration(rows),
                        )
                    },
                }
            },
            (ExternalLoginState::AwaitingInsert { tokens }, Event::Registered(inserted)) => {
                match inserted {
                    Ok(user) => {
                        let id = user.id.clone();
                        Step::Next(
                            ExternalLoginState::AwaitingSession { tokens, user_id: user.id },
                            Effect::FindSessionOfUser(id),
                        )
                    },
                    Err(e) => fail(e),
                }
            },
            (ExternalLoginState::AwaitingSession { tokens, user_id }, Event::Session(lookup)) => {
                match session_write(
                    lookup,
                    user_id.as_str(),
                    tokens.access_token.as_str(),
                    tokens.refresh_token.as_str(),
                    Some(SESSION_TTL_SECONDS),
                    fresh.session_id,
                    fresh.now,
                ) {
                    Some(write) => Step::Next(
                        ExternalLoginState::AwaitingWrite { tokens },
                        Effect::WriteSession(write),
                    ),
                    None => Step::Done(Ok(Self::tokens_of(tokens))),
                }
            },
            (ExternalLoginState::AwaitingWrite { tokens }, Event::Written(written)) => {
                match written {
                    Ok(_) => Step::Done(Ok(Self::tokens_of(tokens))),
                    Err(why) => fail(why.as_process_error()),
                }
            },
            _ => unexpected(),
        }
    }
}

} // verus!
