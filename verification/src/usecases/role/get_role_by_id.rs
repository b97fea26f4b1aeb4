//! A role with its permissions.

use vstd::prelude::*;
use vstd::string::*;
use std::sync::Arc;
use crate::dto::RoleWithPermission;
use crate::flow::{fail, out_of_turn, unexpected, Effect, Event, Step};
use crate::policy::{permissions_of, policy_permissions};
use crate::rbac::{enforcer_policies, matches_subject_fn, Rbac};

verus! {

/// Where the showing of a role stands.
#[derive(Debug)]
pub enum GetRoleState {
    /// The role is being looked up.
    AwaitingRole,
}

/// A role with its permissions.
#[derive(Clone)]
pub struct GetRoleById<R> {
    pub role_repo: Arc<R>,
    pub rbac: Arc<Rbac>,
}

impl<R> GetRoleById<R> {
    /// The use case over its collaborators.
    pub fn new(role_repo: Arc<R>, rbac: Arc<Rbac>) -> (uc: Self)
        ensures
            uc.role_repo == role_repo,
            uc.rbac == rbac,
    {
        Self { role_repo, rbac }
    }

    /// Begins the showing of a role: the role is looked up.
    pub fn execute(id: &str) -> (step: Step<GetRoleState, RoleWithPermission>)
        ensures
            step matches Step::Next(GetRoleState::AwaitingRole, Effect::FindRoleById(asked))
                && asked@ == id@,
    {
        Step::Next(GetRoleState::AwaitingRole, Effect::FindRoleById(id.to_string()))
    }

    /// Shows the role that the lookup found, with the permissions that the rules
    /// listed under it grant, in wire form. A role that cannot be found ends the
    /// request as the lookup did.
    pub fn resume(state: GetRoleState, event: Event, enforcer: &casbin::Enforcer) -> (step: Step<
        GetRoleState,
        RoleWithPermission,
    >)
        ensures
            match (state, event) {
                (GetRoleState::AwaitingRole, Event::Role(lookup)) => match lookup {
                    Err(e) => step == Step::<GetRoleState, RoleWithPermission>::Done(Err(e)),
                    Ok(found) => step matches Step::Done(Ok(shown)) && shown.role == found
                        && shown.permissions.deep_view() == permissions_of(
                        enforcer_policies(*enforcer).filter(matches_subject_fn(found.id@)),
                    ),
                },
                _ => step matches Step::Done(Err(e)) && out_of_turn(e),
            },
    {
        match (state, event) {
            (GetRoleState::AwaitingRole, Event::Role(lookup)) => {
                let role = match lookup {
                    Ok(r) => r,
                    Err(e) => {
                        return fail(e);
                    },
                };
                let current = Rbac::policies_of_subject(enforcer, role.id.as_str());
                let permissions = policy_permissions(&current);
                Step::Done(Ok(RoleWithPermission { role, permissions }))
            },
            _ => unexpected(),
        }
    }
}

} // verus!
