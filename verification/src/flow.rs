//! The protocol between a use case and its caller.
//!
//! A use case reads and writes its stores and talks to the provider through its
//! caller: it names an [`Effect`], the caller carries the effect out and reports the
//! [`Event`] that came of it, and the use case goes on from there until it is done.
//! The use case decides what happens and in which order; the caller decides nothing.

use vstd::prelude::*;
use crate::dto::{GoogleTokenResponse, GoogleUserResult};
use crate::entities::{Role, User, UserFull, UserOauthProvider, UserSession};
use crate::error::AppError;
use crate::google_jwt::Jwks;
use crate::policy::PolicyChange;
use crate::services::oauth_svc::{ProviderReply, Registration, SessionWrite};
use crate::usecases::auth::seed_super_admin::SuperAdminSeed;

verus! {

/// What a use case asks its caller to do next.
#[derive(Debug)]
pub enum Effect {
    /// Look a user up by address.
    FindUserByEmail(String),
    /// Look a user up by identifier.
    FindUserById(String),
    /// Look up the link of an identity at a provider.
    FindIdentityLink { provider: String, provider_user_id: String },
    /// List the live roles of a user.
    FindRolesOfUser(String),
    /// Look up the live default role.
    FindDefaultRole,
    /// Look a live role up by name.
    FindRoleByName(String),
    /// Look a live role up by identifier.
    FindRoleById(String),
    /// List every live role.
    FindAllRoles,
    /// List so many live roles after skipping so many, and count all live roles.
    FindRolePage { limit: i64, offset: i64 },
    /// Insert a role.
    InsertRole(Role),
    /// Overwrite name and default flag of the role with this identifier.
    UpdateRole(Role),
    /// Mark the role with this identifier deleted.
    DeleteRole(String),
    /// Apply the changes to the policy state, in order, up to the first that fails.
    ApplyPolicyChanges(Vec<PolicyChange>),
    /// Look up the session of a user.
    FindSessionOfUser(String),
    /// Look up the session that holds a refresh token.
    FindSessionByRefreshToken(String),
    /// Insert the rows of a registration, all or none.
    InsertRegistration(Registration),
    /// Write what seeding an administrator writes: the grant first, then the role
    /// and the rows of the administrator, these all or none.
    InsertSeed(SuperAdminSeed),
    /// Write a session: overwrite the stored one or insert a new one.
    WriteSession(SessionWrite),
    /// Overwrite the token pair and the end of a stored session.
    UpdateSession(UserSession),
    /// Exchange an authorization code for tokens with this form.
    ExchangeCode(Vec<(String, String)>),
    /// Fetch the profile of a user from `url` with this `Authorization` header.
    FetchProfile { url: String, bearer: String },
    /// Ask the provider for a new token pair with this body.
    RefreshAtProvider(Vec<(String, String)>),
    /// Revoke a token at the provider by a request to this address.
    RevokeAtProvider(String),
    /// Fetch the provider's signing keys.
    FetchProviderKeys,
    /// Read the cached user under this key.
    ReadCachedUser(String),
    /// Cache the user under this key for so many seconds.
    CacheUser { key: String, user: UserFull, ttl: u64 },
    /// Evict the cached user under this key.
    EvictCachedUser(String),
}

/// What came of an effect.
#[derive(Debug)]
pub enum Event {
    /// A user lookup ended.
    User(Result<User, AppError>),
    /// A link lookup ended.
    Link(Result<UserOauthProvider, AppError>),
    /// A listing of roles ended.
    Roles(Result<Vec<Role>, AppError>),
    /// A role lookup ended.
    Role(Result<Role, AppError>),
    /// A page of roles, with the number of all roles, was read, or was not.
    RolePage(Result<(Vec<Role>, i64), AppError>),
    /// A session lookup ended.
    Session(Result<UserSession, AppError>),
    /// A registration was inserted: the user as stored.
    Registered(Result<User, AppError>),
    /// A write, an eviction or a cache entry ended.
    Written(Result<(), AppError>),
    /// A token request ended; an answer that cannot be read is an error.
    Tokens(Result<ProviderReply<GoogleTokenResponse>, AppError>),
    /// A profile request ended; an answer that cannot be read is an error.
    Profile(Result<ProviderReply<GoogleUserResult>, AppError>),
    /// A revocation ended; the error is the description of a transport failure.
    Revoked(Result<(), String>),
    /// The provider's keys arrived, or did not.
    Keys(Result<Jwks, AppError>),
    /// A cache read ended.
    CachedUser(Result<UserFull, AppError>),
}

/// Where a use case stands after a step.
#[derive(Debug)]
pub enum Step<S, T> {
    /// The caller is to carry out the effect and to resume the use case in this
    /// state with what came of it.
    Next(S, Effect),
    /// The use case has ended.
    Done(Result<T, AppError>),
}

/// Fresh values that a step may need: the current instant and unused identifiers.
#[derive(Debug)]
pub struct Fresh {
    pub now: i64,
    pub user_id: String,
    pub link_id: String,
    pub role_id: String,
    pub session_id: String,
}

/// The error of a use case that is resumed with an event it did not ask for.
pub open spec fn out_of_turn(e: AppError) -> bool {
    e matches AppError::ProcessError(m) && m@ == "unexpected event"@
}

/// Ends a use case that was resumed with an event it did not ask for.
pub fn unexpected<S, T>() -> (step: Step<S, T>)
    ensures
        step matches Step::Done(Err(e)) && out_of_turn(e),
{
    Step::Done(Err(AppError::ProcessError("unexpected event".to_string())))
}

/// Ends a use case with an error.
pub fn fail<S, T>(e: AppError) -> (step: Step<S, T>)
    ensures
        step == Step::<S, T>::Done(Err(e)),
{
    Step::Done(Err(e))
}

} // verus!
