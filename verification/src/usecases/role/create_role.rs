//! Creation of a role.

use vstd::prelude::*;
use vstd::string::*;
use std::sync::Arc;
use crate::dto::CreateOrUpdateRole;
use crate::entities::{Role, RoleView};
use crate::error::AppError;
use crate::flow::{fail, out_of_turn, unexpected, Effect, Event, Fresh, Step};
use crate::policy::{
    absent_rules, added_rules, additions, lemma_additions_are_added, push_changes, removals,
    rules_absent_from, PolicyChange, PolicyChangeView, Rule,
};
use crate::rbac::Rbac;
use crate::usecases::role::{asked, default_guard};

verus! {

/// Where the creation of a role stands.
#[derive(Debug)]
pub enum CreateRoleState {
    /// The live default role is being looked up, for a role that is to be the default.
    AwaitingDefault { req: CreateOrUpdateRole },
    /// The rules of the role are being added to the policy state.
    AwaitingPolicies { role: Role, rules: Vec<Vec<String>> },
    /// The role is being inserted; these rules were added for it.
    AwaitingInsert { rules: Vec<Vec<String>> },
    /// The rules of a role that could not be created are being taken back; the
    /// creation then ends with this error.
    AwaitingUndo { error: AppError },
}

/// Creation of a role.
#[derive(Clone)]
pub struct CreateRole<R> {
    pub role_repo: Arc<R>,
    pub rbac: Arc<Rbac>,
}

impl<R> CreateRole<R> {
    /// The use case over its collaborators.
    pub fn new(role_repo: Arc<R>, rbac: Arc<Rbac>) -> (uc: Self)
        ensures
            uc.role_repo == role_repo,
            uc.rbac == rbac,
    {
        Self { role_repo, rbac }
    }

    /// The role that a request describes and the additions that grant it the
    /// well-formed permissions asked for; malformed permissions are passed over.
    pub open spec fn planned(req: CreateOrUpdateRole, fresh: Fresh, role: Role, plan: Vec<PolicyChange>) -> bool {
        &&& role@ == (RoleView {
            id: fresh.role_id@,
            name: req.name@,
            is_default: req.is_default,
            created_at: fresh.now,
            updated_at: fresh.now,
            deleted_at: None,
        })
        &&& plan.deep_view() == additions(
            rules_absent_from(fresh.role_id@, asked(req.permissions), Seq::empty()),
        )
    }

    /// Builds the role of a request and the additions of its permissions.
    pub fn plan(req: &CreateOrUpdateRole, fresh: Fresh) -> (out: (Role, Vec<PolicyChange>))
        ensures
            Self::planned(*req, fresh, out.0, out.1),
    {
        let role = req.to_role_at(fresh.role_id, fresh.now);
        let mut plan: Vec<PolicyChange> = Vec::new();
        assert(plan.deep_view() =~= Seq::<PolicyChangeView>::empty());
        let none: Vec<String> = Vec::new();
        assert(none.deep_view() =~= Seq::<Seq<char>>::empty());
        let rules = match &req.permissions {
            Some(permissions) => absent_rules(role.id.as_str(), permissions, &none),
            None => absent_rules(role.id.as_str(), &none, &none),
        };
        push_changes(&mut plan, &rules, true);
        assert(plan.deep_view() =~= additions(rules.deep_view()));
        (role, plan)
    }

    /// What a creation asks of the policy state first: the additions of the rules
    /// planned for the role, which are kept for the case that they have to be taken
    /// back.
    pub open spec fn begun(
        req: CreateOrUpdateRole,
        fresh: Fresh,
        step: Step<CreateRoleState, Role>,
    ) -> bool {
        step matches Step::Next(
            CreateRoleState::AwaitingPolicies { role, rules },
            Effect::ApplyPolicyChanges(plan),
        ) && Self::planned(req, fresh, role, plan) && plan.deep_view() == additions(
            rules.deep_view(),
        )
    }

    /// The first step of a creation that may go on to its permissions.
    fn begin(req: &CreateOrUpdateRole, fresh: Fresh) -> (step: Step<CreateRoleState, Role>)
        ensures
            Self::begun(*req, fresh, step),
    {
        let (role, plan) = Self::plan(req, fresh);
        let rules = added_rules(&plan);
        proof {
            lemma_additions_are_added(
                rules_absent_from(fresh.role_id@, asked(req.permissions), Seq::empty()),
            );
        }
        Step::Next(
            CreateRoleState::AwaitingPolicies { role, rules },
            Effect::ApplyPolicyChanges(plan),
        )
    }

    /// Takes back the rules of a role that could not be created, and keeps the
    /// error that the creation is to end with.
    fn undo(rules: &Vec<Vec<String>>, error: AppError) -> (step: Step<CreateRoleState, Role>)
        ensures
            Self::undone(rules.deep_view(), error, step),
    {
        let mut plan: Vec<PolicyChange> = Vec::new();
        assert(plan.deep_view() =~= Seq::<PolicyChangeView>::empty());
        push_changes(&mut plan, rules, false);
        assert(plan.deep_view() =~= removals(rules.deep_view()));
        Step::Next(CreateRoleState::AwaitingUndo { error }, Effect::ApplyPolicyChanges(plan))
    }

    /// Whether a step takes back `rules` and keeps `error` for the end.
    pub open spec fn undone(rules: Seq<Rule>, error: AppError, step: Step<CreateRoleState, Role>) -> bool {
        step matches Step::Next(
            CreateRoleState::AwaitingUndo { error: kept },
            Effect::ApplyPolicyChanges(plan),
        ) && kept == error && plan.deep_view() == removals(rules)
    }

    /// Begins the creation of a role. A role that is to be the default needs the
    /// lookup of the live default role first; any other role goes on to its
    /// permissions at once.
    pub fn execute(req: CreateOrUpdateRole, fresh: Fresh) -> (step: Step<CreateRoleState, Role>)
        ensures
            req.is_default ==> (step matches Step::Next(
                CreateRoleState::AwaitingDefault { req: held },
                Effect::FindDefaultRole,
            ) && held == req),
            !req.is_default ==> Self::begun(req, fresh, step),
    {
        if req.is_default {
            Step::Next(CreateRoleState::AwaitingDefault { req }, Effect::FindDefaultRole)
        } else {
            Self::begin(&req, fresh)
        }
    }

    /// Goes on with the creation of a role after what was asked for has happened.
    ///
    /// A second default role is refused: where the lookup found a live default
    /// role, the creation ends. The rules are added to the policy state before the
    /// role is inserted. Role and rules are written together or not at all: where
    /// adding the rules fails, or the insert of the role fails after they were
    /// added, the rules are taken back, and the creation then ends with the error
    /// of the step that failed.
    pub fn resume(state: CreateRoleState, event: Event, fresh: Fresh) -> (step: Step<
        CreateRoleState,
        Role,
    >)
        ensures
            match (state, event) {
                (CreateRoleState::AwaitingDefault { req }, Event::Role(lookup)) => if req.is_default
                    && lookup is Ok {
                    step matches Step::Done(Err(AppError::ResourceExist(m))) && m@
                        == "Default role already exist"@
                } else {
                    Self::begun(req, fresh, step)
                },
                (
                    CreateRoleState::AwaitingPolicies { role, rules },
                    Event::Written(written),
                ) => match written {
                    Ok(_) => step matches Step::Next(
                        CreateRoleState::AwaitingInsert { rules: kept },
                        Effect::InsertRole(inserted),
                    ) && inserted == role && kept == rules,
                    Err(e) => Self::undone(rules.deep_view(), e, step),
                },
                (CreateRoleState::AwaitingInsert { rules }, Event::Role(stored)) => match stored {
                    Ok(role) => step == Step::<CreateRoleState, Role>::Done(Ok(role)),
                    Err(e) => Self::undone(rules.deep_view(), e, step),
                },
                (CreateRoleState::AwaitingUndo { error }, Event::Written(_)) => step == Step::<
                    CreateRoleState,
                    Role,
                >::Done(Err(error)),
                _ => step matches Step::Done(Err(e)) && out_of_turn(e),
            },
    {
        match (state, event) {
            (CreateRoleState::AwaitingDefault { req }, Event::Role(lookup)) => {
                match default_guard(req.is_default, lookup.is_ok()) {
                    Err(e) => fail(e),
                    Ok(_) => Self::begin(&req, fresh),
                }
            },
            (CreateRoleState::AwaitingPolicies { role, rules }, Event::Written(written)) => {
                match written {
                    Ok(_) => Step::Next(
                        CreateRoleState::AwaitingInsert { rules },
                        Effect::InsertRole(role),
                    ),
                    Err(e) => Self::undo(&rules, e),
                }
            },
            (CreateRoleState::AwaitingInsert { rules }, Event::Role(stored)) => match stored {
                Ok(role) => Step::Done(Ok(role)),
                Err(e) => Self::undo(&rules, e),
            },
            (CreateRoleState::AwaitingUndo { error }, Event::Written(_)) => fail(error),
            _ => unexpected(),
        }
    }
}

} // verus!
