//! Result and parameter types of the query surface.
use vstd::prelude::*;

verus! {

/// Corpus-level counts.  Dates are seconds since the Unix epoch, UTC.
#[derive(Clone, Debug, PartialEq)]
pub struct BookmarkStats {
    pub total_bookmarks: i64,
    pub unique_authors: i64,
    pub unique_tags: i64,
    pub favorite_bookmarks: i64,
    pub earliest_date: Option<i64>,
    pub latest_date: Option<i64>,
    /// Tag names with the number of linked bookmarks, most used first.
    pub top_tags: Vec<(String, i64)>,
}

/// The options of a filtered search.
#[derive(Clone, Debug, Default, PartialEq)]
pub struct SearchFilters {
    pub query: Option<String>,
    pub tags: Vec<String>,
    pub author: Option<String>,
    pub date_from: Option<i64>,
    pub date_to: Option<i64>,
    pub has_media: Option<bool>,
}

/// A page request.
#[derive(Clone, Copy, Debug, PartialEq, Eq, Structural)]
pub struct Pagination {
    pub offset: usize,
    pub limit: usize,
}

impl Default for Pagination {
    /// The first fifty items.
    fn default() -> (r: Pagination)
        ensures
            r.offset == 0 && r.limit == 50,
    {
        Pagination { offset: 0, limit: 50 }
    }
}

/// One page of items with the total they were taken from.
#[derive(Clone, Debug, PartialEq)]
pub struct PaginatedResponse<T> {
    pub items: Vec<T>,
    pub total: i64,
    pub offset: usize,
    pub limit: usize,
    pub has_more: bool,
}

impl<T> PaginatedResponse<T> {
    /// A page; more items follow when the page ends before the total.
    pub fn new(items: Vec<T>, total: i64, offset: usize, limit: usize) -> (r: PaginatedResponse<T>)
        requires
            offset + items@.len() <= usize::MAX,
        ensures
            r.items == items,
            r.total == total,
            r.offset == offset,
            r.limit == limit,
            r.has_more == (offset + items@.len() < total),
    {
        let end = offset + items.len();
        let has_more = if total < 0 {
            false
        } else {
            (end as u128) < (total as u128)
        };
        PaginatedResponse { items, total, offset, limit, has_more }
    }
}

} // verus!
