//! Every role.

use vstd::prelude::*;
use std::sync::Arc;
use crate::entities::Role;
use crate::flow::{out_of_turn, unexpected, Effect, Event, Step};

verus! {

/// Where the listing of the roles stands.
#[derive(Debug)]
pub enum GetAllRoleState {
    /// The roles are being listed.
    AwaitingRoles,
}

/// Every role.
#[derive(Clone)]
pub struct GetAllRole<R> {
    pub role_repo: Arc<R>,
}

impl<R> GetAllRole<R> {
    /// The use case over the role repository.
    pub fn new(role_repo: Arc<R>) -> (uc: Self)
        ensures
            uc.role_repo == role_repo,
    {
        Self { role_repo }
    }

    /// Begins the listing: every live role is asked for.
    pub fn execute() -> (step: Step<GetAllRoleState, Vec<Role>>)
        ensures
            step matches Step::Next(GetAllRoleState::AwaitingRoles, Effect::FindAllRoles),
    {
        Step::Next(GetAllRoleState::AwaitingRoles, Effect::FindAllRoles)
    }

    /// Hands out the roles as they were listed.
    pub fn resume(state: GetAllRoleState, event: Event) -> (step: Step<GetAllRoleState, Vec<Role>>)
        ensures
            match (state, event) {
                (GetAllRoleState::AwaitingRoles, Event::Roles(listed)) => step == Step::<
                    GetAllRoleState,
                    Vec<Role>,
                >::Done(listed),
                _ => step matches Step::Done(Err(e)) && out_of_turn(e),
            },
    {
        match (state, event) {
            (GetAllRoleState::AwaitingRoles, Event::Roles(listed)) => Step::Done(listed),
            _ => unexpected(),
        }
    }
}

} // verus!
