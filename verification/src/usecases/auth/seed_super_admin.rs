//! Seeding of the first administrator.

use vstd::prelude::*;
use vstd::string::*;
use std::sync::Arc;
use crate::constants::SUPER_ADMIN_ROLE;
use crate::dto::EmailRegisterRequest;
use crate::entities::{Role, RoleView, User};
use crate::error::{AppError, DbError};
use crate::flow::{fail, out_of_turn, unexpected, Effect, Event, Fresh, Step};
use crate::policy::{PolicyChange, PolicyChangeView};
use crate::rbac::{rule_of, Rbac};
use crate::services::oauth_svc::Registration;
use crate::text::join3;
use crate::usecases::auth::email_register::{
    hash_verifies, password_registration, register_with_password,
};

verus! {

/// What seeding the first administrator writes.
#[derive(Debug)]
pub struct SuperAdminSeed {
    /// The reserved role, where it has to be created.
    pub new_role: Option<Role>,
    /// The grant of every action on every object to the new role. It is written to
    /// the policy state before the role row is inserted; where the insert then
    /// fails, the grant stays behind without its role.
    pub grant: Option<PolicyChange>,
    /// The rows of the administrator.
    pub rows: Registration,
}

/// Where a seeding stands.
#[derive(Debug)]
pub enum SeedState {
    /// The address is being looked up, to see whether it is taken.
    AwaitingExisting { req: EmailRegisterRequest },
    /// The reserved role is being looked up.
    AwaitingRole { req: EmailRegisterRequest },
    /// The grant, the role and the rows are being written.
    AwaitingInsert,
}

/// Seeding of the first administrator.
#[derive(Clone)]
pub struct SeedSuperAdmin<U, R> {
    pub user_repo: Arc<U>,
    pub role_repo: Arc<R>,
    pub rbac: Arc<Rbac>,
}

impl<U, R> SeedSuperAdmin<U, R> {
    /// The use case over its collaborators.
    pub fn new(user_repo: Arc<U>, role_repo: Arc<R>, rbac: Arc<Rbac>) -> (uc: Self)
        ensures
            uc.user_repo == user_repo,
            uc.role_repo == role_repo,
            uc.rbac == rbac,
    {
        Self { user_repo, role_repo, rbac }
    }

    /// The message for an address that is registered already.
    pub open spec fn taken_text(email: Seq<char>) -> Seq<char> {
        "User with email "@ + email + " already exist"@
    }

    /// What a seeding writes for a free address, given what the lookup of the
    /// reserved role returned: a role that exists is used; a missing one is created
    /// with a fresh identifier and granted everything; any other failure of the
    /// lookup ends the seeding as it is. The administrator is registered like any
    /// user, in the reserved role, with a hash that verifies the password.
    pub open spec fn seeded(
        req: EmailRegisterRequest,
        role_lookup: Result<Role, AppError>,
        fresh: Fresh,
        seed: Result<SuperAdminSeed, AppError>,
    ) -> bool {
        match role_lookup {
            Ok(role) => match seed {
                Ok(s) => s.new_role is None && s.grant is None && password_registration(
                    s.rows,
                    req.email@,
                    role.id@,
                    fresh.user_id@,
                    fresh.link_id@,
                    fresh.now,
                ) && hash_verifies(s.rows, req.password@),
                Err(e) => e is ProcessError,
            },
            Err(AppError::SqlxError(DbError::RowNotFound)) => match seed {
                Ok(s) => {
                    &&& s.new_role matches Some(role) && role@ == (RoleView {
                        id: fresh.role_id@,
                        name: SUPER_ADMIN_ROLE@,
                        is_default: false,
                        created_at: fresh.now,
                        updated_at: fresh.now,
                        deleted_at: None,
                    })
                    &&& s.grant matches Some(grant) && grant@ == PolicyChangeView::Add(
                        seq![fresh.role_id@, "*"@, "*"@],
                    )
                    &&& password_registration(
                        s.rows,
                        req.email@,
                        fresh.role_id@,
                        fresh.user_id@,
                        fresh.link_id@,
                        fresh.now,
                    )
                    &&& hash_verifies(s.rows, req.password@)
                },
                Err(e) => e is ProcessError,
            },
            Err(other) => seed == Err::<SuperAdminSeed, AppError>(other),
        }
    }

    /// Builds what a seeding writes for a free address. See [`Self::seeded`].
    pub fn seed(req: EmailRegisterRequest, role_lookup: Result<Role, AppError>, fresh: Fresh) -> (seed:
        Result<SuperAdminSeed, AppError>)
        ensures
            Self::seeded(req, role_lookup, fresh, seed),
    {
        let (role_key, new_role, grant) = match role_lookup {
            Ok(role) => (role.id, None, None),
            Err(err) => {
                if err.is_row_not_found() {
                    let role = Role::create(
                        fresh.role_id,
                        SUPER_ADMIN_ROLE.to_string(),
                        false,
                        fresh.now,
                    );
                    let grant = PolicyChange::Add(rule_of(role.id.as_str(), "*", "*"));
                    (role.id.clone(), Some(role), Some(grant))
                } else {
                    return Err(err);
                }
            },
        };
        match register_with_password(
            req.email,
            req.password.as_str(),
            role_key.as_str(),
            fresh.user_id,
            fresh.link_id,
            fresh.now,
        ) {
            Ok(rows) => Ok(SuperAdminSeed { new_role, grant, rows }),
            Err(e) => Err(e),
        }
    }

    /// Begins a seeding: the address is looked up.
    pub fn execute(req: EmailRegisterRequest) -> (step: Step<SeedState, ()>)
        ensures
            step matches Step::Next(
                SeedState::AwaitingExisting { req: held },
                Effect::FindUserByEmail(email),
            ) && held == req && email@ == req.email@,
    {
        let email = req.email.clone();
        Step::Next(SeedState::AwaitingExisting { req }, Effect::FindUserByEmail(email))
    }

    /// Goes on with a seeding after what was asked for has happened.
    ///
    /// An address whose lookup found a user is refused. Else the reserved role is
    /// looked up, and the grant, the role and the rows of the administrator are
    /// written (see [`Self::seeded`]); how the write ended is how the seeding ends.
    pub fn resume(state: SeedState, event: Event, fresh: Fresh) -> (step: Step<SeedState, ()>)
        ensures
            match (state, event) {
                (SeedState::AwaitingExisting { req }, Event::User(lookup)) => match lookup {
                    Ok(_) => step matches Step::Done(Err(AppError::ResourceExist(m))) && m@
                        == Self::taken_text(req.email@),
                    Err(_) => step matches Step::Next(
                        SeedState::AwaitingRole { req: held },
                        Effect::FindRoleByName(name),
                    ) && held == req && name@ == SUPER_ADMIN_ROLE@,
                },
                (SeedState::AwaitingRole { req }, Event::Role(lookup)) => match step {
                    Step::Next(SeedState::AwaitingInsert, Effect::InsertSeed(seed)) => Self::seeded(
                        req,
                        lookup,
                        fresh,
                        Ok(seed),
                    ),
                    Step::Done(Err(e)) => Self::seeded(req, lookup, fresh, Err(e)),
                    _ => false,
                },
                (SeedState::AwaitingInsert, Event::Written(written)) => step == Step::<
                    SeedState,
                    (),
                >::Done(written),
                _ => step matches Step::Done(Err(e)) && out_of_turn(e),
            },
    {
        match (state, event) {
            (SeedState::AwaitingExisting { req }, Event::User(lookup)) => match lookup {
                Ok(_) => fail(
                    AppError::ResourceExist(
                        join3("User with email ", req.email.as_str(), " already exist"),
                    ),
                ),
                Err(_) => Step::Next(
                    SeedState::AwaitingRole { req },
                    Effect::FindRoleByName(SUPER_ADMIN_ROLE.to_string()),
                ),
            },
            (SeedState::AwaitingRole { req }, Event::Role(lookup)) => {
                match Self::seed(req, lookup, fresh) {
                    Err(e) => fail(e),
                    Ok(seed) => Step::Next(SeedState::AwaitingInsert, Effect::InsertSeed(seed)),
                }
            },
            (SeedState::AwaitingInsert, Event::Written(written)) => Step::Done(written),
            _ => unexpected(),
        }
    }
}

} // verus!
