//! The operations that a desktop shell offers over a storage handle, with
//! their defaults, and the shapes they answer with.  Errors reach the shell
//! as messages.
use vstd::prelude::*;

use crate::dates::parse_rfc3339;
use crate::models::Bookmark;
use crate::queries::{BookmarkStats, PaginatedResponse};
use crate::storage::Database;
use crate::text::trim;

verus! {

/// What `chrono::DateTime::to_rfc3339` writes for an instant, when the
/// instant can be represented.
pub uninterp spec fn rfc3339_text_of(ts: i64) -> Option<Seq<char>>;

/// Relies on `chrono::DateTime::from_timestamp` and `DateTime::to_rfc3339`:
/// the instant written in RFC 3339, or `None` when out of range.
#[verifier::external_body]
fn rfc3339_text(ts: i64) -> (r: Option<String>)
    ensures
        match r {
            Some(s) => rfc3339_text_of(ts) == Some(s@),
            None => rfc3339_text_of(ts) is None,
        },
{
    chrono::DateTime::from_timestamp(ts, 0).map(|d| d.to_rfc3339())
}

/// Corpus statistics with dates written in RFC 3339.
#[derive(Clone, Debug, PartialEq)]
pub struct StatsResponse {
    pub total_bookmarks: i64,
    pub unique_authors: i64,
    pub unique_tags: i64,
    pub favorite_bookmarks: i64,
    pub earliest_date: Option<String>,
    pub latest_date: Option<String>,
    pub top_tags: Vec<(String, i64)>,
}

/// The preview of a linked page.
#[derive(Clone, Debug, PartialEq)]
pub struct LinkPreview {
    pub url: String,
    pub final_url: String,
    pub title: Option<String>,
    pub description: Option<String>,
    pub image_url: Option<String>,
    pub site_name: Option<String>,
}

/// An optional instant written in RFC 3339.
pub open spec fn date_text(ts: Option<i64>) -> Option<Seq<char>> {
    match ts {
        Some(t) => rfc3339_text_of(t),
        None => None,
    }
}

/// The text of an optional string.
pub open spec fn opt_text(s: Option<String>) -> Option<Seq<char>> {
    match s {
        Some(v) => Some(v@),
        None => None,
    }
}

fn date_string(ts: Option<i64>) -> (r: Option<String>)
    ensures
        opt_text(r) == date_text(ts),
{
    match ts {
        Some(t) => rfc3339_text(t),
        None => None,
    }
}

impl StatsResponse {
    /// The statistics with their dates written in RFC 3339.
    pub fn from_stats(stats: BookmarkStats) -> (r: StatsResponse)
        ensures
            r.total_bookmarks == stats.total_bookmarks,
            r.unique_authors == stats.unique_authors,
            r.unique_tags == stats.unique_tags,
            r.favorite_bookmarks == stats.favorite_bookmarks,
            opt_text(r.earliest_date) == date_text(stats.earliest_date),
            opt_text(r.latest_date) == date_text(stats.latest_date),
            r.top_tags == stats.top_tags,
    {
        StatsResponse {
            total_bookmarks: stats.total_bookmarks,
            unique_authors: stats.unique_authors,
            unique_tags: stats.unique_tags,
            favorite_bookmarks: stats.favorite_bookmarks,
            earliest_date: date_string(stats.earliest_date),
            latest_date: date_string(stats.latest_date),
            top_tags: stats.top_tags,
        }
    }
}

/// A page of records, newest first, with the corpus total; by default the
/// first fifty.
pub fn get_bookmarks(db: &Database, offset: Option<usize>, limit: Option<usize>) -> (r: Result<
    PaginatedResponse<Bookmark>,
    String,
>)
    ensures
        r matches Ok(p) ==> p.offset == (match offset {
            Some(o) => o,
            None => 0,
        }) && p.limit == (match limit {
            Some(l) => l,
            None => 50,
        }),
{
    let offset = match offset {
        Some(o) => o,
        None => 0,
    };
    let limit = match limit {
        Some(l) => l,
        None => 50,
    };
    let items = match db.get_bookmarks(offset, limit) {
        Ok(v) => v,
        Err(e) => return Err(e.message()),
    };
    let stats = match db.get_stats() {
        Ok(s) => s,
        Err(e) => return Err(e.message()),
    };
    if items.len() <= usize::MAX - offset {
        Ok(PaginatedResponse::new(items, stats.total_bookmarks, offset, limit))
    } else {
        Ok(PaginatedResponse { items, total: stats.total_bookmarks, offset, limit, has_more: false })
    }
}

/// Records by tag when one is given, else by full-text query when it is not
/// blank, else the newest; at most `limit` (by default a hundred).
pub fn search_bookmarks(
    db: &Database,
    query: Option<String>,
    tag: Option<String>,
    limit: Option<usize>,
) -> (r: Result<Vec<Bookmark>, String>) {
    let limit = match limit {
        Some(l) => l,
        None => 100,
    };
    let found = if let Some(t) = tag {
        db.get_bookmarks_by_tag(t.as_str(), 0, limit)
    } else {
        match query {
            Some(q) => {
                if trim(q.as_str()).unicode_len() > 0 {
                    db.search(q.as_str(), limit)
                } else {
                    db.get_bookmarks(0, limit)
                }
            },
            None => db.get_bookmarks(0, limit),
        }
    };
    match found {
        Ok(v) => Ok(v),
        Err(e) => Err(e.message()),
    }
}

/// Corpus statistics with dates in RFC 3339.
pub fn get_stats(db: &Database) -> (r: Result<StatsResponse, String>) {
    match db.get_stats() {
        Ok(s) => Ok(StatsResponse::from_stats(s)),
        Err(e) => Err(e.message()),
    }
}

/// Deletes a record; whether one was removed.
pub fn delete_bookmark(db: &Database, id: String) -> (r: Result<bool, String>) {
    match db.delete_bookmark(id.as_str()) {
        Ok(b) => Ok(b),
        Err(e) => Err(e.message()),
    }
}

/// Flips the favorite flag of a record; the new value.
pub fn toggle_favorite(db: &Database, id: String) -> (r: Result<bool, String>) {
    match db.toggle_favorite(id.as_str()) {
        Ok(b) => Ok(b),
        Err(e) => Err(e.message()),
    }
}

/// A page of favorites; by default the first fifty.
pub fn get_favorites(db: &Database, offset: Option<usize>, limit: Option<usize>) -> (r: Result<
    Vec<Bookmark>,
    String,
>) {
    let offset = match offset {
        Some(o) => o,
        None => 0,
    };
    let limit = match limit {
        Some(l) => l,
        None => 50,
    };
    match db.get_favorites(offset, limit) {
        Ok(v) => Ok(v),
        Err(e) => Err(e.message()),
    }
}

/// An optional RFC 3339 date as an instant; text that does not parse is
/// ignored.
pub fn optional_date(s: &Option<String>) -> (r: Option<i64>)
    ensures
        match s {
            Some(v) => r == crate::dates::rfc3339_time_of(v@),
            None => r is None,
        },
{
    match s {
        Some(v) => parse_rfc3339(v.as_str()),
        None => None,
    }
}

/// A filtered search with dates in RFC 3339 (ignored when they do not
/// parse), favorites off and at most a hundred results by default.
pub fn search_with_filters(
    db: &Database,
    query: Option<String>,
    tag: Option<String>,
    author: Option<String>,
    from_date: Option<String>,
    to_date: Option<String>,
    favorites_only: Option<bool>,
    has_media: Option<bool>,
    limit: Option<usize>,
) -> (r: Result<Vec<Bookmark>, String>) {
    let from = optional_date(&from_date);
    let to = optional_date(&to_date);
    let q = match &query {
        Some(v) => Some(v.as_str()),
        None => None,
    };
    let t = match &tag {
        Some(v) => Some(v.as_str()),
        None => None,
    };
    let a = match &author {
        Some(v) => Some(v.as_str()),
        None => None,
    };
    let favorites_only = match favorites_only {
        Some(f) => f,
        None => false,
    };
    let limit = match limit {
        Some(l) => l,
        None => 100,
    };
    match db.search_with_filters(q, t, a, from, to, favorites_only, has_media, limit) {
        Ok(v) => Ok(v),
        Err(e) => Err(e.message()),
    }
}

} // verus!
