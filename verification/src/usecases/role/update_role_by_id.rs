//! Change of a role.

use vstd::prelude::*;
use vstd::string::*;
use std::sync::Arc;
use crate::dto::CreateOrUpdateRole;
use crate::entities::{Role, RoleView};
use crate::error::AppError;
use crate::flow::{fail, out_of_turn, unexpected, Effect, Event, Step};
use crate::policy::{opt_list_view, plan_role_update, update_plan};
use crate::rbac::{enforcer_policies, matches_subject_fn, Rbac};
use crate::usecases::role::default_guard;

verus! {

/// Where the change of a role stands.
#[derive(Debug)]
pub enum UpdateRoleState {
    /// The live default role is being looked up, for a role that is to be the default.
    AwaitingDefault { id: String, req: CreateOrUpdateRole },
    /// The role is being looked up.
    AwaitingRole { req: CreateOrUpdateRole },
    /// The rules of the role are being brought in line with the wanted permissions.
    AwaitingPolicies { role: Role },
    /// The changed role is being written.
    AwaitingUpdate,
}

/// Change of a role.
#[derive(Clone)]
pub struct UpdateRoleById<R> {
    pub role_repo: Arc<R>,
    pub rbac: Arc<Rbac>,
}

impl<R> UpdateRoleById<R> {
    /// The use case over its collaborators.
    pub fn new(role_repo: Arc<R>, rbac: Arc<Rbac>) -> (uc: Self)
        ensures
            uc.role_repo == role_repo,
            uc.rbac == rbac,
    {
        Self { role_repo, rbac }
    }

    /// Begins the change of a role. A role that is to be the default needs the
    /// lookup of the live default role first; any other change goes on to the
    /// lookup of the role at once.
    pub fn execute(id: &str, req: CreateOrUpdateRole) -> (step: Step<UpdateRoleState, ()>)
        ensures
            req.is_default ==> (step matches Step::Next(
                UpdateRoleState::AwaitingDefault { id: held_id, req: held },
                Effect::FindDefaultRole,
            ) && held == req && held_id@ == id@),
            !req.is_default ==> (step matches Step::Next(
                UpdateRoleState::AwaitingRole { req: held },
                Effect::FindRoleById(asked),
            ) && held == req && asked@ == id@),
    {
        if req.is_default {
            Step::Next(
                UpdateRoleState::AwaitingDefault { id: id.to_string(), req },
                Effect::FindDefaultRole,
            )
        } else {
            Step::Next(UpdateRoleState::AwaitingRole { req }, Effect::FindRoleById(id.to_string()))
        }
    }

    /// Goes on with the change of a role after what was asked for has happened,
    /// reading the rules of the role from the enforcer.
    ///
    /// A second default role is refused: where the lookup found a live default
    /// role, the change ends. A role that cannot be found ends it as the lookup
    /// did. The rules of the role are brought in line with the permissions asked
    /// for (see [`update_plan`]), and then the role is written with its new name
    /// and default flag.
    pub fn resume(state: UpdateRoleState, event: Event, enforcer: &casbin::Enforcer, now: i64) -> (step:
        Step<UpdateRoleState, ()>)
        ensures
            match (state, event) {
                (
                    UpdateRoleState::AwaitingDefault { id, req },
                    Event::Role(lookup),
                ) => if req.is_default && lookup is Ok {
                    step matches Step::Done(Err(AppError::ResourceExist(m))) && m@
                        == "Default role already exist"@
                } else {
                    step matches Step::Next(
                        UpdateRoleState::AwaitingRole { req: held },
                        Effect::FindRoleById(asked),
                    ) && held == req && asked@ == id@
                },
                (UpdateRoleState::AwaitingRole { req }, Event::Role(lookup)) => match lookup {
                    Err(e) => step == Step::<UpdateRoleState, ()>::Done(Err(e)),
                    Ok(found) => step matches Step::Next(
                        UpdateRoleState::AwaitingPolicies { role },
                        Effect::ApplyPolicyChanges(plan),
                    ) && role@ == (RoleView {
                        name: req.name@,
                        is_default: req.is_default,
                        updated_at: now,
                        ..found@
                    }) && plan.deep_view() == update_plan(
                        found.id@,
                        enforcer_policies(*enforcer).filter(matches_subject_fn(found.id@)),
                        opt_list_view(req.permissions),
                    ),
                },
                (
                    UpdateRoleState::AwaitingPolicies { role },
                    Event::Written(written),
                ) => match written {
                    Ok(_) => step matches Step::Next(
                        UpdateRoleState::AwaitingUpdate,
                        Effect::UpdateRole(changed),
                    ) && changed == role,
                    Err(e) => step == Step::<UpdateRoleState, ()>::Done(Err(e)),
                },
                (UpdateRoleState::AwaitingUpdate, Event::Written(written)) => step == Step::<
                    UpdateRoleState,
                    (),
                >::Done(written),
                _ => step matches Step::Done(Err(e)) && out_of_turn(e),
            },
    {
        match (state, event) {
            (UpdateRoleState::AwaitingDefault { id, req }, Event::Role(lookup)) => {
                match default_guard(req.is_default, lookup.is_ok()) {
                    Err(e) => fail(e),
                    Ok(_) => Step::Next(
                        UpdateRoleState::AwaitingRole { req },
                        Effect::FindRoleById(id),
                    ),
                }
            },
            (UpdateRoleState::AwaitingRole { req }, Event::Role(lookup)) => {
                let mut role = match lookup {
                    Ok(r) => r,
                    Err(e) => {
                        return fail(e);
                    },
                };
                let current = Rbac::policies_of_subject(enforcer, role.id.as_str());
                let plan = plan_role_update(role.id.as_str(), &current, &req.permissions);
                role.update_at(req.name.as_str(), req.is_default, now);
                Step::Next(
                    UpdateRoleState::AwaitingPolicies { role },
                    Effect::ApplyPolicyChanges(plan),
                )
            },
            (UpdateRoleState::AwaitingPolicies { role }, Event::Written(written)) => {
                match written {
                    Ok(_) => Step::Next(UpdateRoleState::AwaitingUpdate, Effect::UpdateRole(role)),
                    Err(e) => fail(e),
                }
            },
            (UpdateRoleState::AwaitingUpdate, Event::Written(written)) => Step::Done(written),
            _ => unexpected(),
        }
    }
}

} // verus!
