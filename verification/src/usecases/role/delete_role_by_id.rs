//! Removal of a role.

use vstd::prelude::*;
use vstd::string::*;
use std::sync::Arc;
use crate::constants::SUPER_ADMIN_ROLE;
use crate::error::AppError;
use crate::flow::{fail, out_of_turn, unexpected, Effect, Event, Step};
use crate::policy::{push_changes, removals, PolicyChange, PolicyChangeView};
use crate::rbac::{enforcer_policies, matches_subject_fn, Rbac};
use crate::text::same_text;

verus! {

/// Where the removal of a role stands.
#[derive(Debug)]
pub enum DeleteRoleState {
    /// The role is being looked up.
    AwaitingRole,
    /// The role is being marked deleted; its rules are removed then.
    AwaitingDelete { plan: Vec<PolicyChange> },
    /// The rules of the role are being removed.
    AwaitingPolicies,
}

/// Removal of a role.
#[derive(Clone)]
pub struct DeleteRoleById<R> {
    pub role_repo: Arc<R>,
    pub rbac: Arc<Rbac>,
}

impl<R> DeleteRoleById<R> {
    /// The use case over its collaborators.
    pub fn new(role_repo: Arc<R>, rbac: Arc<Rbac>) -> (uc: Self)
        ensures
            uc.role_repo == role_repo,
            uc.rbac == rbac,
    {
        Self { role_repo, rbac }
    }

    /// Begins the removal of a role: the role is looked up.
    pub fn execute(id: &str) -> (step: Step<DeleteRoleState, ()>)
        ensures
            step matches Step::Next(DeleteRoleState::AwaitingRole, Effect::FindRoleById(asked))
                && asked@ == id@,
    {
        Step::Next(DeleteRoleState::AwaitingRole, Effect::FindRoleById(id.to_string()))
    }

    /// Goes on with the removal of a role after what was asked for has happened,
    /// reading the rules of the role from the enforcer.
    ///
    /// A role that cannot be found ends the removal as the lookup did. The reserved
    /// administrator role cannot be removed. The role is marked deleted first; then
    /// every rule listed under it is removed.
    pub fn resume(state: DeleteRoleState, event: Event, enforcer: &casbin::Enforcer) -> (step: Step<
        DeleteRoleState,
        (),
    >)
        ensures
            match (state, event) {
                (DeleteRoleState::AwaitingRole, Event::Role(lookup)) => match lookup {
                    Err(e) => step == Step::<DeleteRoleState, ()>::Done(Err(e)),
                    Ok(found) => if found.name@ == SUPER_ADMIN_ROLE@ {
                        step matches Step::Done(Err(AppError::ProcessError(m))) && m@
                            == "Cannot delete super admin role"@
                    } else {
                        step matches Step::Next(
                            DeleteRoleState::AwaitingDelete { plan },
                            Effect::DeleteRole(id),
                        ) && id@ == found.id@ && plan.deep_view() == removals(
                            enforcer_policies(*enforcer).filter(matches_subject_fn(found.id@)),
                        )
                    },
                },
                (
                    DeleteRoleState::AwaitingDelete { plan },
                    Event::Written(written),
                ) => match written {
                    Ok(_) => step matches Step::Next(
                        DeleteRoleState::AwaitingPolicies,
                        Effect::ApplyPolicyChanges(changes),
                    ) && changes == plan,
                    Err(e) => step == Step::<DeleteRoleState, ()>::Done(Err(e)),
                },
                (DeleteRoleState::AwaitingPolicies, Event::Written(written)) => step == Step::<
                    DeleteRoleState,
                    (),
                >::Done(written),
                _ => step matches Step::Done(Err(e)) && out_of_turn(e),
            },
    {
        match (state, event) {
            (DeleteRoleState::AwaitingRole, Event::Role(lookup)) => {
                let role = match lookup {
                    Ok(r) => r,
                    Err(e) => {
                        return fail(e);
                    },
                };
                if same_text(role.name.as_str(), SUPER_ADMIN_ROLE) {
                    return fail(
                        AppError::ProcessError("Cannot delete super admin role".to_string()),
                    );
                }
                let current = Rbac::policies_of_subject(enforcer, role.id.as_str());
                let mut plan: Vec<PolicyChange> = Vec::new();
                assert(plan.deep_view() =~= Seq::<PolicyChangeView>::empty());
                push_changes(&mut plan, &current, false);
                assert(plan.deep_view() =~= removals(current.deep_view()));
                Step::Next(DeleteRoleState::AwaitingDelete { plan }, Effect::DeleteRole(role.id))
            },
            (DeleteRoleState::AwaitingDelete { plan }, Event::Written(written)) => {
                match written {
                    Ok(_) => Step::Next(
                        DeleteRoleState::AwaitingPolicies,
                        Effect::ApplyPolicyChanges(plan),
                    ),
                    Err(e) => fail(e),
                }
            },
            (DeleteRoleState::AwaitingPolicies, Event::Written(written)) => Step::Done(written),
            _ => unexpected(),
        }
    }
}

} // verus!
