//! A page of roles.

use vstd::prelude::*;
use vstd::string::*;
use std::sync::Arc;
use crate::entities::Role;
use crate::error::AppError;
use crate::flow::{fail, out_of_turn, unexpected, Effect, Event, Step};
use crate::pagination::{page_count, page_offset, PaginatedResponse, PaginationMeta};

verus! {

/// Where the showing of a page of roles stands.
#[derive(Debug)]
pub enum RolePageState {
    /// The page is being read.
    AwaitingPage { page: i64, limit: i64 },
}

/// A page of roles.
#[derive(Clone)]
pub struct GetPaginatedRole<R> {
    pub role_repo: Arc<R>,
}

impl<R> GetPaginatedRole<R> {
    /// The use case over the role repository.
    pub fn new(role_repo: Arc<R>) -> (uc: Self)
        ensures
            uc.role_repo == role_repo,
    {
        Self { role_repo }
    }

    /// Begins the showing of page `page`, counted from one, at `limit` roles per
    /// page: the roles after the first `(page - 1) * limit` are asked for. A page
    /// so far out that this number cannot be written is refused.
    pub fn execute(page: i64, limit: i64) -> (step: Step<RolePageState, PaginatedResponse<Role>>)
        ensures
            i64::MIN <= (page - 1) * limit <= i64::MAX ==> step == Step::<
                RolePageState,
                PaginatedResponse<Role>,
            >::Next(
                RolePageState::AwaitingPage { page, limit },
                Effect::FindRolePage { limit, offset: ((page - 1) * limit) as i64 },
            ),
            !(i64::MIN <= (page - 1) * limit <= i64::MAX) ==> (step matches Step::Done(
                Err(AppError::ProcessError(m)),
            ) && m@ == "page out of range"@),
    {
        match page_offset(page, limit) {
            Some(offset) => Step::Next(
                RolePageState::AwaitingPage { page, limit },
                Effect::FindRolePage { limit, offset },
            ),
            None => fail(AppError::ProcessError("page out of range".to_string())),
        }
    }

    /// Puts the page together with its paging figures once it has been read.
    pub fn resume(state: RolePageState, event: Event) -> (step: Step<
        RolePageState,
        PaginatedResponse<Role>,
    >)
        ensures
            match (state, event) {
                (RolePageState::AwaitingPage { page, limit }, Event::RolePage(read)) => match read {
                    Ok((roles, total_items)) => step matches Step::Done(Ok(out)) && out.items
                        == roles && out.pagination.total_items == total_items
                        && out.pagination.total_pages == page_count(
                        total_items as int,
                        limit as int,
                    ) && out.pagination.current_page == page as i32
                        && out.pagination.items_per_page == limit as i32,
                    Err(e) => step == Step::<RolePageState, PaginatedResponse<Role>>::Done(Err(e)),
                },
                _ => step matches Step::Done(Err(e)) && out_of_turn(e),
            },
    {
        match (state, event) {
            (RolePageState::AwaitingPage { page, limit }, Event::RolePage(read)) => match read {
                Ok((roles, total_items)) => Step::Done(
                    Ok(
                        PaginatedResponse {
                            items: roles,
                            pagination: PaginationMeta::of(total_items, page, limit),
                        },
                    ),
                ),
                Err(e) => fail(e),
            },
            _ => unexpected(),
        }
    }
}

} // verus!
