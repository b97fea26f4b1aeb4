//! Registration with email and password.

use vstd::prelude::*;
use vstd::string::*;
use std::sync::Arc;
use crate::constants::EMAIL_PROVIDER;
use crate::dto::EmailRegisterRequest;
use crate::entities::{
    Role, User, UserOauthProvider, UserOauthProviderView, UserRole, UserRoleView, UserView,
};
use crate::error::{AppError, DbError};
use crate::flow::{fail, out_of_turn, unexpected, Effect, Event, Fresh, Step};
use crate::password::{hash_password, hashing_failed, password_accepted};
use crate::services::oauth_svc::{default_role as default_role_or_error, Registration};

verus! {

/// The rows of a user registered with a password, as plain values; the password hash
/// is whatever hashing returned.
pub open spec fn password_registration(
    rows: Registration,
    email: Seq<char>,
    role_id: Seq<char>,
    user_id: Seq<char>,
    link_id: Seq<char>,
    now: i64,
) -> bool {
    &&& rows.user@.password_hash is Some
    &&& rows.user@ == (UserView {
        id: user_id,
        email,
        password_hash: rows.user@.password_hash,
        fullname: Some(User::name_from_email(email)),
        avatar_url: None,
        is_active: true,
        created_at: now,
        updated_at: now,
        deleted_at: None,
    })
    &&& rows.link@ == (UserOauthProviderView {
        id: link_id,
        user_id,
        provider: EMAIL_PROVIDER@,
        provider_user_id: user_id,
    })
    &&& rows.membership@ == (UserRoleView { user_id, role_id, created_at: now, updated_at: now })
}

/// Whether the stored hash of the registered user verifies `password`.
pub open spec fn hash_verifies(rows: Registration, password: Seq<char>) -> bool {
    rows.user@.password_hash matches Some(h) && password_accepted(
        h,
        vstd::utf8::encode_utf8(password),
    )
}

/// The rows of a user registered with a password, given how hashing the password
/// ended: with a hash, the account that stores this hash, its link to itself under
/// the email mechanism, and its membership in `role_id`; without one, the failure as
/// a processing error.
pub fn registration_rows(
    hashed: Result<String, argon2::password_hash::Error>,
    email: String,
    role_id: &str,
    user_id: String,
    link_id: String,
    now: i64,
) -> (rows: Result<Registration, AppError>)
    ensures
        match hashed {
            Ok(h) => rows matches Ok(r) && password_registration(
                r,
                email@,
                role_id@,
                user_id@,
                link_id@,
                now,
            ) && r.user@.password_hash == Some(h@),
            Err(_) => rows matches Err(e) && e is ProcessError,
        },
{
    let hashed = match hashed {
        Ok(h) => h,
        Err(err) => {
            return Err(hashing_failed(&err));
        },
    };
    let user = User::create(user_id, email, Some(hashed), now);
    let link = UserOauthProvider::create(
        link_id,
        user.id.clone(),
        EMAIL_PROVIDER.to_string(),
        user.id.clone(),
    );
    let membership = UserRole::create(user.id.clone(), role_id.to_string(), now);
    Ok(Registration { user, link, membership })
}

/// Hashes the password and builds the rows of a user registered with it (see
/// [`registration_rows`]). The hash is salted at random, so its text is not told;
/// whatever it is, it verifies the password. Hashing may fail, and the failure is a
/// processing error.
pub fn register_with_password(
    email: String,
    password: &str,
    role_id: &str,
    user_id: String,
    link_id: String,
    now: i64,
) -> (rows: Result<Registration, AppError>)
    ensures
        match rows {
            Ok(r) => password_registration(r, email@, role_id@, user_id@, link_id@, now)
                && hash_verifies(r, password@),
            Err(e) => e is ProcessError,
        },
{
    registration_rows(hash_password(password.as_bytes()), email, role_id, user_id, link_id, now)
}

/// Where a registration stands.
#[derive(Debug)]
pub enum RegisterState {
    /// The address is being looked up, to see whether it is taken.
    AwaitingExisting { req: EmailRegisterRequest },
    /// The default role is being looked up.
    AwaitingDefaultRole { req: EmailRegisterRequest },
    /// The rows are being inserted.
    AwaitingInsert,
}

/// Registration with email and password.
#[derive(Clone)]
pub struct EmailRegister<U, R> {
    pub user_repo: Arc<U>,
    pub role_repo: Arc<R>,
}

impl<U, R> EmailRegister<U, R> {
    /// The use case over its collaborators.
    pub fn new(user_repo: Arc<U>, role_repo: Arc<R>) -> (uc: Self)
        ensures
            uc.user_repo == user_repo,
            uc.role_repo == role_repo,
    {
        Self { user_repo, role_repo }
    }

    /// What a registration inserts for a free address, given what the lookup of the
    /// default role returned: without a default role it ends with a description of
    /// the misconfiguration, with any other failure of the lookup with the
    /// description of that; else the rows are those of the user in the default role,
    /// with a hash that verifies the password, unless hashing failed.
    pub open spec fn registered(
        req: EmailRegisterRequest,
        default_role: Result<Role, AppError>,
        fresh: Fresh,
        rows: Result<Registration, AppError>,
    ) -> bool {
        match default_role {
            Err(AppError::SqlxError(DbError::RowNotFound)) => rows matches Err(
                AppError::ProcessError(m),
            ) && m@ == "Default Role is not Found please contact Administrator!"@,
            Err(other) => rows matches Err(AppError::ProcessError(m)) && m@ == other.text(),
            Ok(role) => match rows {
                Ok(r) => password_registration(
                    r,
                    req.email@,
                    role.id@,
                    fresh.user_id@,
                    fresh.link_id@,
                    fresh.now,
                ) && hash_verifies(r, req.password@),
                Err(e) => e is ProcessError,
            },
        }
    }

    /// Builds the rows of a registration for a free address. See
    /// [`Self::registered`].
    pub fn registration(req: EmailRegisterRequest, default_role: Result<Role, AppError>, fresh: Fresh) -> (rows:
        Result<Registration, AppError>)
        ensures
            Self::registered(req, default_role, fresh, rows),
    {
        let role = match default_role_or_error(default_role) {
            Ok(r) => r,
            Err(e) => {
                return Err(e);
            },
        };
        register_with_password(
            req.email,
            req.password.as_str(),
            role.id.as_str(),
            fresh.user_id,
            fresh.link_id,
            fresh.now,
        )
    }

    /// Begins a registration: a request that is not valid ends it before anything
    /// is read; else the address is looked up.
    pub fn execute(req: EmailRegisterRequest) -> (step: Step<RegisterState, User>)
        ensures
            !req.valid() ==> step matches Step::Done(Err(AppError::ValidationError(_))),
            req.valid() ==> (step matches Step::Next(
                RegisterState::AwaitingExisting { req: held },
                Effect::FindUserByEmail(email),
            ) && held == req && email@ == req.email@),
    {
        match req.validate() {
            Err(e) => fail(e),
            Ok(_) => {
                let email = req.email.clone();
                Step::Next(RegisterState::AwaitingExisting { req }, Effect::FindUserByEmail(email))
            },
        }
    }

    /// Goes on with a registration after what was asked for has happened.
    ///
    /// An address whose lookup found a user is taken and ends the registration;
    /// else the default role is looked up, the password hashed, and the rows of the
    /// user are inserted together (see [`Self::registered`]). The user is handed
    /// out as stored; a failed insert ends the registration with the description of
    /// the failure.
    pub fn resume(state: RegisterState, event: Event, fresh: Fresh) -> (step: Step<RegisterState, User>)
        ensures
            match (state, event) {
                (RegisterState::AwaitingExisting { req }, Event::User(lookup)) => match lookup {
                    Ok(_) => step matches Step::Done(Err(AppError::UserEmailAlreadyExist)),
                    Err(_) => step matches Step::Next(
                        RegisterState::AwaitingDefaultRole { req: held },
                        Effect::FindDefaultRole,
                    ) && held == req,
                },
                (RegisterState::AwaitingDefaultRole { req }, Event::Role(lookup)) => match step {
                    Step::Next(RegisterState::AwaitingInsert, Effect::InsertRegistration(rows)) =>
                        Self::registered(req, lookup, fresh, Ok(rows)),
                    Step::Done(Err(e)) => Self::registered(req, lookup, fresh, Err(e)),
                    _ => false,
                },
                (RegisterState::AwaitingInsert, Event::Registered(inserted)) => match inserted {
                    Ok(user) => step == Step::<RegisterState, User>::Done(Ok(user)),
                    Err(why) => step matches Step::Done(Err(AppError::ProcessError(m))) && m@
                        == why.text(),
                },
                _ => step matches Step::Done(Err(e)) && out_of_turn(e),
            },
    {
        match (state, event) {
            (RegisterState::AwaitingExisting { req }, Event::User(lookup)) => match lookup {
                Ok(_) => fail(AppError::UserEmailAlreadyExist),
                Err(_) => Step::Next(
                    RegisterState::AwaitingDefaultRole { req },
                    Effect::FindDefaultRole,
                ),
            },
            (RegisterState::AwaitingDefaultRole { req }, Event::Role(lookup)) => {
                match Self::registration(req, lookup, fresh) {
                    Err(e) => fail(e),
                    Ok(rows) => Step::Next(
                        RegisterState::AwaitingInsert,
                        Effect::InsertRegistration(rows),
                    ),
                }
            },
            (RegisterState::AwaitingInsert, Event::Registered(inserted)) => match inserted {
                Ok(user) => Step::Done(Ok(user)),
                Err(why) => fail(why.as_process_error()),
            },
            _ => unexpected(),
        }
    }
}

} // verus!
