//! Role administration: creating, changing, removing and showing roles together with
//! the permissions they grant.

pub mod create_role;
pub mod delete_role_by_id;
pub mod get_all_role;
pub mod get_paginated_role;
pub mod get_role_by_id;
pub mod update_role_by_id;

use vstd::prelude::*;
use vstd::string::*;
use std::sync::Arc;
use crate::constants::ROLE_MANAGEMENT;
use crate::entities::{Role, RoleView};
use crate::error::AppError;
use crate::rbac::{granted, undecided, Rbac};

verus! {

/// Whether the rows hold a live default role.
pub open spec fn has_default(roles: Seq<RoleView>) -> bool {
    exists|i: int| 0 <= i < roles.len() && is_live_default(#[trigger] roles[i])
}

/// Whether a role is the default and not deleted.
pub open spec fn is_live_default(role: RoleView) -> bool {
    role.is_default && role.deleted_at is None
}

/// At most one live role is the default.
pub open spec fn at_most_one_default(roles: Seq<RoleView>) -> bool {
    forall|i: int, j: int|
        0 <= i < roles.len() && 0 <= j < roles.len() && i != j ==> !(is_live_default(
            #[trigger] roles[i],
        ) && is_live_default(#[trigger] roles[j]))
}

/// Refuses a second default role: a role may be made the default only while no live
/// role is.
pub fn default_guard(wants_default: bool, default_exists: bool) -> (checked: Result<(), AppError>)
    ensures
        checked is Ok == !(wants_default && default_exists),
        checked matches Err(e) ==> (e matches AppError::ResourceExist(m) && m@
            == "Default role already exist"@),
{
    if wants_default && default_exists {
        Err(AppError::ResourceExist("Default role already exist".to_string()))
    } else {
        Ok(())
    }
}

/// A role that passed the guard can be added without making a second default.
pub proof fn lemma_create_keeps_one_default(roles: Seq<RoleView>, role: RoleView)
    requires
        at_most_one_default(roles),
        !(role.is_default && has_default(roles)),
    ensures
        at_most_one_default(roles.push(role)),
{
    let after = roles.push(role);
    assert forall|i: int, j: int|
        0 <= i < after.len() && 0 <= j < after.len() && i != j implies !(is_live_default(
        #[trigger] after[i],
    ) && is_live_default(#[trigger] after[j])) by {
        if i < roles.len() && j < roles.len() {
            assert(after[i] == roles[i] && after[j] == roles[j]);
        } else if i < roles.len() {
            assert(after[i] == roles[i]);
            if is_live_default(roles[i]) {
                assert(has_default(roles));
            }
        } else {
            assert(after[j] == roles[j]);
            if is_live_default(roles[j]) {
                assert(has_default(roles));
            }
        }
    }
}

/// A change that passed the guard can be written without making a second default.
pub proof fn lemma_update_keeps_one_default(
    roles: Seq<RoleView>,
    at: int,
    name: Seq<char>,
    is_default: bool,
    now: i64,
)
    requires
        at_most_one_default(roles),
        0 <= at < roles.len(),
        !(is_default && has_default(roles)),
    ensures
        at_most_one_default(
            roles.update(at, RoleView { name, is_default, updated_at: now, ..roles[at] }),
        ),
{
    let changed = RoleView { name, is_default, updated_at: now, ..roles[at] };
    let after = roles.update(at, changed);
    assert forall|i: int, j: int|
        0 <= i < after.len() && 0 <= j < after.len() && i != j implies !(is_live_default(
        #[trigger] after[i],
    ) && is_live_default(#[trigger] after[j])) by {
        if i != at && j != at {
            assert(after[i] == roles[i] && after[j] == roles[j]);
        } else if i == at {
            assert(after[j] == roles[j]);
            if is_live_default(roles[j]) {
                assert(has_default(roles));
            }
        } else {
            assert(after[i] == roles[i]);
            if is_live_default(roles[i]) {
                assert(has_default(roles));
            }
        }
    }
}

/// Admits the holder of `roles` to role administration: to `action` on the role
/// management object. Whom the policy does not allow is forbidden; an error of the
/// enforcer is handed on.
pub fn may_manage_roles(enforcer: &casbin::Enforcer, roles: &Vec<Role>, action: &str) -> (admitted:
    Result<(), AppError>)
    ensures
        roles.len() == 0 ==> admitted matches Err(AppError::Forbidden),
        roles.len() > 0 ==> (if granted(*enforcer, roles[0].id@, ROLE_MANAGEMENT@, action@) {
            admitted is Ok
        } else if undecided(*enforcer, roles[0].id@, ROLE_MANAGEMENT@, action@) {
            admitted matches Err(AppError::CasbinError(_))
        } else {
            admitted matches Err(AppError::Forbidden)
        }),
{
    match Rbac::check_access(enforcer, roles, ROLE_MANAGEMENT, action) {
        Ok(true) => Ok(()),
        Ok(false) => Err(AppError::Forbidden),
        Err(e) => Err(e),
    }
}

/// The permissions asked for, or none.
pub open spec fn asked(permissions: Option<Vec<String>>) -> Seq<Seq<char>> {
    match permissions {
        Some(list) => list.deep_view(),
        None => Seq::empty(),
    }
}

} // verus!
