//! Paging arithmetic for list endpoints.

use vstd::prelude::*;

verus! {

/// Paging figures returned next to a page of items.
pub struct PaginationMeta {
    pub total_items: i64,
    pub total_pages: i64,
    pub current_page: i32,
    pub items_per_page: i32,
}

/// Paging parameters as they arrive in a query string.
pub struct PaginationQuery {
    pub limit: Option<i64>,
    pub page: Option<i64>,
}

/// The page shown where a query names none.
pub const DEFAULT_PAGE: i64 = 1;

/// The page size where a query names none.
pub const DEFAULT_LIMIT: i64 = 15;

impl PaginationQuery {
    /// The page asked for: the first where none is named.
    pub fn page_or_default(&self) -> (page: i64)
        ensures
            page == (match self.page {
                Some(p) => p,
                None => DEFAULT_PAGE,
            }),
    {
        match self.page {
            Some(p) => p,
            None => DEFAULT_PAGE,
        }
    }

    /// The page size asked for: fifteen where none is named.
    pub fn limit_or_default(&self) -> (limit: i64)
        ensures
            limit == (match self.limit {
                Some(l) => l,
                None => DEFAULT_LIMIT,
            }),
    {
        match self.limit {
            Some(l) => l,
            None => DEFAULT_LIMIT,
        }
    }
}

/// A page of items with its paging figures.
pub struct PaginatedResponse<T> {
    pub items: Vec<T>,
    pub pagination: PaginationMeta,
}

/// Number of pages needed for `total_items` items at `limit` items per page: the
/// quotient rounded up. There are no pages where the count is negative or the page
/// size is not positive.
pub open spec fn page_count(total_items: int, limit: int) -> int {
    if total_items >= 0 && limit > 0 {
        (total_items + limit - 1) / limit
    } else {
        0
    }
}

/// Computes [`page_count`].
pub fn total_pages(total_items: i64, limit: i64) -> (pages: i64)
    ensures
        pages == page_count(total_items as int, limit as int),
{
    if total_items < 0 || limit <= 0 {
        return 0;
    }
    let whole: i64 = total_items / limit;
    let rest: i64 = total_items % limit;
    assert(total_items == whole * limit + rest) by (nonlinear_arith)
        requires
            whole == total_items / limit,
            rest == total_items % limit,
            limit > 0,
    ;
    if rest == 0 {
        assert((total_items + limit - 1) / (limit as int) == whole) by (nonlinear_arith)
            requires
                total_items == whole * limit,
                limit > 0,
        ;
        whole
    } else {
        assert((total_items + limit - 1) / (limit as int) == whole + 1) by (nonlinear_arith)
            requires
                total_items == whole * limit + rest,
                0 < rest < limit,
        ;
        assert(whole < i64::MAX) by (nonlinear_arith)
            requires
                total_items == whole * limit + rest,
                0 < rest < limit,
                total_items <= i64::MAX,
                whole >= 0,
        ;
        whole + 1
    }
}

/// The number of rows to skip before page `page` at `limit` rows per page, counting
/// pages from one; `None` where the number cannot be written.
pub fn page_offset(page: i64, limit: i64) -> (offset: Option<i64>)
    ensures
        match offset {
            Some(o) => o == (page - 1) * limit,
            None => !(i64::MIN <= (page - 1) * limit <= i64::MAX),
        },
{
    match page.checked_sub(1) {
        Some(before) => before.checked_mul(limit),
        None => {
            if limit == 0 {
                Some(0)
            } else {
                assert(!(i64::MIN <= (page - 1) * limit <= i64::MAX)) by (nonlinear_arith)
                    requires
                        page == i64::MIN,
                        limit != 0,
                ;
                None
            }
        },
    }
}

impl PaginationMeta {
    /// The figures for page `page` of `total_items` items at `limit` items per page.
    /// Page number and page size are cut to 32 bits.
    pub fn of(total_items: i64, page: i64, limit: i64) -> (meta: PaginationMeta)
        ensures
            meta.total_items == total_items,
            meta.total_pages == page_count(total_items as int, limit as int),
            meta.current_page == page as i32,
            meta.items_per_page == limit as i32,
    {
        PaginationMeta {
            total_items,
            total_pages: total_pages(total_items, limit),
            current_page: #[verifier::truncate]
            (page as i32),
            items_per_page: #[verifier::truncate]
            (limit as i32),
        }
    }
}

} // verus!
