//! Pagination of a result listing.

use vstd::prelude::*;

verus! {

/// Number of results the site shows on one page.
pub const PAGE_SIZE: u32 = 20;

/// Position within a paginated result listing.
#[derive(Debug, Clone, Copy, PartialEq, Eq, Structural)]
pub struct Page {
    /// The page that was requested.
    pub current: u32,
    /// The number of pages the listing has.
    pub of: u32,
    /// The number of results in the whole listing.
    pub total: u32,
}

/// Pages needed to show `total` results: one page for up to a full page of
/// results, otherwise `total / PAGE_SIZE` rounded up.
pub open spec fn page_count(total: int) -> int {
    if total > PAGE_SIZE {
        (total + PAGE_SIZE - 1) / (PAGE_SIZE as int)
    } else {
        1
    }
}

/// The pages of a listing are just enough for its results: together they
/// hold every result, and, where there is more than one page, the last holds
/// at least one.
pub proof fn lemma_page_count_is_ceiling(total: int)
    requires
        0 <= total,
    ensures
        page_count(total) >= 1,
        page_count(total) * PAGE_SIZE >= total,
        total > PAGE_SIZE ==> (page_count(total) - 1) * PAGE_SIZE < total,
{
}

impl Page {
    /// Pagination for page `current` of a listing with `total` results.
    pub open spec fn of_total(current: u32, total: u32) -> Page {
        Page { current, of: page_count(total as int) as u32, total }
    }

    /// Pagination for page `current` of a listing with `total` results.
    pub fn create(current: u32, total: u32) -> (page: Page)
        ensures
            page == Page::of_total(current, total),
            page.of == page_count(total as int),
    {
        let of: u32 = if total > PAGE_SIZE {
            let full: u32 = total / PAGE_SIZE;
            if total % PAGE_SIZE > 0 {
                full + 1
            } else {
                full
            }
        } else {
            1
        };
        Page { current, of, total }
    }
}

} // verus!
