//! Sign-in with email and password.

use vstd::prelude::*;
use vstd::string::*;
use std::sync::Arc;
use crate::constants::{ACCESS_TOKEN_HOURS, REFRESH_TOKEN_HOURS, SESSION_TTL_SECONDS};
use crate::dto::EmailLoginRequest;
use crate::entities::User;
use crate::error::{AppError, DbError};
use crate::flow::{fail, out_of_turn, unexpected, Effect, Event, Fresh, Step};
use crate::jwt_maker::{issued_access, issued_refresh, signed_with, token_payload, JwtMaker};
use crate::password::{password_accepted, verify_password};
use crate::services::oauth_svc::{
    found_session, reconciled, session_end, session_write, OauthService,
};

verus! {

/// The token pair of a user whose session is to be reconciled.
#[derive(Debug)]
pub struct SessionRequest {
    pub user_id: String,
    pub access_token: String,
    pub refresh_token: String,
    pub ttl_seconds: Option<i64>,
}

/// A session request as plain values.
pub struct SessionRequestView {
    pub user_id: Seq<char>,
    pub access_token: Seq<char>,
    pub refresh_token: Seq<char>,
    pub ttl_seconds: Option<i64>,
}

impl View for SessionRequest {
    type V = SessionRequestView;

    open spec fn view(&self) -> SessionRequestView {
        SessionRequestView {
            user_id: self.user_id@,
            access_token: self.access_token@,
            refresh_token: self.refresh_token@,
            ttl_seconds: self.ttl_seconds,
        }
    }
}

/// The encoded hash that a password is checked against: the stored one, or the empty
/// text for an account without a password, which no password matches.
pub open spec fn stored_hash(user: User) -> Seq<char> {
    match user.password_hash {
        Some(h) => h@,
        None => Seq::empty(),
    }
}

/// Where a sign-in stands.
#[derive(Debug)]
pub enum EmailLoginState {
    /// The user of the address is being looked up.
    AwaitingUser { req: EmailLoginRequest },
    /// The stored session of the user is being looked up.
    AwaitingSession { session: SessionRequest },
    /// The session is being written; this pair is then handed out.
    AwaitingWrite { access_token: String, refresh_token: String },
}

/// Sign-in with email and password.
#[derive(Clone)]
pub struct EmailLogin<U, R, S, O> {
    pub user_repo: Arc<U>,
    pub jwt_maker: Arc<JwtMaker>,
    pub oauth_svc: Arc<OauthService<U, R, S, O>>,
}

impl<U, R, S, O> EmailLogin<U, R, S, O> {
    /// The use case over its collaborators.
    pub fn new(
        user_repo: Arc<U>,
        jwt_maker: Arc<JwtMaker>,
        oauth_svc: Arc<OauthService<U, R, S, O>>,
    ) -> (uc: Self)
        ensures
            uc.user_repo == user_repo,
            uc.jwt_maker == jwt_maker,
            uc.oauth_svc == oauth_svc,
    {
        Self { user_repo, jwt_maker, oauth_svc }
    }

    /// The user to sign in, or why there is none: an unknown address is reported as
    /// such, with the address; any other failure with its description.
    pub fn known_user(email: &str, lookup: Result<User, AppError>) -> (user: Result<User, AppError>)
        ensures
            match lookup {
                Ok(found) => user == Ok::<User, AppError>(found),
                Err(AppError::SqlxError(DbError::RowNotFound)) => user matches Err(
                    AppError::UserNotExist(m),
                ) && m@ == email@,
                Err(other) => user matches Err(AppError::ProcessError(m)) && m@ == other.text(),
            },
    {
        match lookup {
            Ok(found) => Ok(found),
            Err(err) => {
                if err.is_row_not_found() {
                    Err(AppError::UserNotExist(email.to_string()))
                } else {
                    Err(err.as_process_error())
                }
            },
        }
    }

    /// Checks the password of a known user. A mismatch is an authorization failure;
    /// it is never reported as an unknown user.
    pub fn check_password(user: &User, password: &str) -> (checked: Result<(), AppError>)
        ensures
            checked is Ok == password_accepted(stored_hash(*user), vstd::utf8::encode_utf8(password@)),
            checked matches Err(e) ==> (e matches AppError::UnauthorizedError(m) && m@
                == "Invalid Credentials"@),
    {
        let verified = match &user.password_hash {
            Some(hash) => verify_password(hash.as_str(), password.as_bytes()),
            None => {
                let none = String::new();
                verify_password(none.as_str(), password.as_bytes())
            },
        };
        match verified {
            Ok(_) => Ok(()),
            Err(_) => Err(AppError::UnauthorizedError("Invalid Credentials".to_string())),
        }
    }

    /// How a sign-in at `now` goes on once the lookup of the address has ended: with
    /// an unknown user or a wrong password it ends; else the maker's access token
    /// of one hour and its refresh token of seven days are minted for the user,
    /// whose session is then to be reconciled. The tokens are signed with the
    /// maker's secret and carry the user as subject and their lifetimes. Where the maker has no such token, the sign-in ends with
    /// a token error.
    pub open spec fn signed_in(
        maker: JwtMaker,
        now: i64,
        req: EmailLoginRequest,
        lookup: Result<User, AppError>,
        next: Result<SessionRequest, AppError>,
    ) -> bool {
        match lookup {
            Err(AppError::SqlxError(DbError::RowNotFound)) => next matches Err(
                AppError::UserNotExist(m),
            ) && m@ == req.email@,
            Err(other) => next matches Err(AppError::ProcessError(m)) && m@ == other.text(),
            Ok(user) => if !password_accepted(
                stored_hash(user),
                vstd::utf8::encode_utf8(req.password@),
            ) {
                next matches Err(AppError::UnauthorizedError(m)) && m@ == "Invalid Credentials"@
            } else {
                match (
                    maker.access_token(user.id@, now, ACCESS_TOKEN_HOURS),
                    maker.refresh_token(user.id@, now, REFRESH_TOKEN_HOURS),
                ) {
                    (Some(access), Some(refresh)) => {
                        &&& next matches Ok(session) && session@ == (SessionRequestView {
                            user_id: user.id@,
                            access_token: access,
                            refresh_token: refresh,
                            ttl_seconds: Some(SESSION_TTL_SECONDS),
                        })
                        &&& signed_with(access, maker.secret())
                        &&& signed_with(refresh, maker.secret())
                        &&& token_payload(access) == issued_access(
                            user.id@,
                            now,
                            ACCESS_TOKEN_HOURS,
                        )
                        &&& token_payload(refresh) == issued_refresh(
                            user.id@,
                            now,
                            REFRESH_TOKEN_HOURS,
                        )
                    },
                    _ => next matches Err(e) && e is JWTError,
                }
            },
        }
    }

    /// Checks user and password and mints the tokens of a sign-in at `now`, given
    /// what the lookup of the address returned. See [`Self::signed_in`].
    pub fn sign_in(&self, req: &EmailLoginRequest, lookup: Result<User, AppError>, now: i64) -> (next:
        Result<SessionRequest, AppError>)
        ensures
            Self::signed_in(*self.jwt_maker, now, *req, lookup, next),
    {
        let user = match Self::known_user(req.email.as_str(), lookup) {
            Ok(u) => u,
            Err(e) => {
                return Err(e);
            },
        };
        match Self::check_password(&user, req.password.as_str()) {
            Err(e) => {
                return Err(e);
            },
            Ok(_) => {},
        }
        let access_token = match self.jwt_maker.make_token_at(
            user.id.clone(),
            ACCESS_TOKEN_HOURS,
            now,
        ) {
            Ok(t) => t,
            Err(e) => {
                return Err(e);
            },
        };
        let refresh_token = match self.jwt_maker.make_refresh_token_at(
            user.id.clone(),
            REFRESH_TOKEN_HOURS,
            now,
        ) {
            Ok(t) => t,
            Err(e) => {
                return Err(e);
            },
        };
        Ok(
            SessionRequest {
                user_id: user.id,
                access_token,
                refresh_token,
                ttl_seconds: Some(SESSION_TTL_SECONDS),
            },
        )
    }

    /// Begins a sign-in: a request that is not valid ends it before anything is
    /// read; else the user of the address is looked up.
    pub fn execute(&self, req: EmailLoginRequest) -> (step: Step<EmailLoginState, (String, String)>)
        ensures
            !req.valid() ==> step matches Step::Done(Err(AppError::ValidationError(_))),
            req.valid() ==> (step matches Step::Next(
                EmailLoginState::AwaitingUser { req: held },
                Effect::FindUserByEmail(email),
            ) && held == req && email@ == req.email@),
    {
        match req.validate() {
            Err(e) => fail(e),
            Ok(_) => {
                let email = req.email.clone();
                Step::Next(EmailLoginState::AwaitingUser { req }, Effect::FindUserByEmail(email))
            },
        }
    }

    /// Goes on with a sign-in after what was asked for has happened.
    ///
    /// After the lookup of the address, user and password are checked and the
    /// tokens minted (see [`Self::signed_in`]); the stored session of the user is
    /// looked up next. It is reconciled with the new pair: where it stands as it
    /// is, the pair is handed out at once, else after the session has been written.
    /// A failed write ends the sign-in with the description of the failure.
    pub fn resume(&self, state: EmailLoginState, event: Event, fresh: Fresh) -> (step: Step<
        EmailLoginState,
        (String, String),
    >)
        ensures
            match (state, event) {
                (EmailLoginState::AwaitingUser { req }, Event::User(lookup)) => match step {
                    Step::Next(
                        EmailLoginState::AwaitingSession { session },
                        Effect::FindSessionOfUser(id),
                    ) => Self::signed_in(*self.jwt_maker, fresh.now, req, lookup, Ok(session))
                        && id@ == session.user_id@,
                    Step::Done(Err(e)) => Self::signed_in(
                        *self.jwt_maker,
                        fresh.now,
                        req,
                        lookup,
                        Err(e),
                    ),
                    _ => false,
                },
                (EmailLoginState::AwaitingSession { session }, Event::Session(lookup)) => {
                    let due = reconciled(
                        found_session(lookup),
                        session.user_id@,
                        session.access_token@,
                        session.refresh_token@,
                        session_end(session.ttl_seconds, fresh.now),
                        fresh.session_id@,
                        fresh.now,
                    );
                    if due.writes() {
                        step matches Step::Next(
                            EmailLoginState::AwaitingWrite { access_token, refresh_token },
                            Effect::WriteSession(write),
                        ) && write@ == due && access_token == session.access_token
                            && refresh_token == session.refresh_token
                    } else {
                        step == Step::<EmailLoginState, (String, String)>::Done(
                            Ok((session.access_token, session.refresh_token)),
                        )
                    }
                },
                (
                    EmailLoginState::AwaitingWrite { access_token, refresh_token },
                    Event::Written(written),
                ) => match written {
                    Ok(_) => step == Step::<EmailLoginState, (String, String)>::Done(
                        Ok((access_token, refresh_token)),
                    ),
                    Err(why) => step matches Step::Done(Err(AppError::ProcessError(m))) && m@
                        == why.text(),
                },
                _ => step matches Step::Done(Err(e)) && out_of_turn(e),
            },
    {
        match (state, event) {
            (EmailLoginState::AwaitingUser { req }, Event::User(lookup)) => {
                match self.sign_in(&req, lookup, fresh.now) {
                    Err(e) => fail(e),
                    Ok(session) => {
                        let id = session.user_id.clone();
                        Step::Next(
                            EmailLoginState::AwaitingSession { session },
                            Effect::FindSessionOfUser(id),
                        )
                    },
                }
            },
            (EmailLoginState::AwaitingSession { session }, Event::Session(lookup)) => {
                match session_write(
                    lookup,
                    session.user_id.as_str(),
                    session.access_token.as_str(),
                    session.refresh_token.as_str(),
                    session.ttl_seconds,
                    fresh.session_id,
                    fresh.now,
                ) {
                    Some(write) => Step::Next(
                        EmailLoginState::AwaitingWrite {
                            access_token: session.access_token,
                            refresh_token: session.refresh_token,
                        },
                        Effect::WriteSession(write),
                    ),
                    None => Step::Done(Ok((session.access_token, session.refresh_token))),
                }
            },
            (
                EmailLoginState::AwaitingWrite { access_token, refresh_token },
                Event::Written(written),
            ) => match written {
                Ok(_) => Step::Done(Ok((access_token, refresh_token))),
                Err(why) => fail(why.as_process_error()),
            },
            _ => unexpected(),
        }
    }
}

} // verus!
