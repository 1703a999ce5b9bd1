use eterea_core::sql::{compose_filter_query, prepare_fts_query, SqlValue};
use eterea_core::{Bookmark, BookmarkBuilder, Database, Error, FileKind, Ingester, MediaType, PaginatedResponse};

fn record(url: &str, content: &str, at: i64, handle: &str, tags: &[&str], media: &[&str]) -> Bookmark {
    let mut b = BookmarkBuilder::new().tweet_url(url).content(content).tweeted_at(at).author_handle(handle);
    for t in tags {
        b = b.add_tag(t);
    }
    for m in media {
        b = b.add_media(m);
    }
    b.build().unwrap()
}

const LEGACY_CSV: &str = "Tweet Date,Posted By,Profile Pic,Profile URL,Twitter Handle,Tweet URL,Content,Tags,Comments,Media
\"02:51 PM, May 01, 2024\",Alice,,https://x.com/alice,alice,https://x.com/alice/status/1,Hello world,\"rust, db\",,https://pbs.twimg.com/media/a.jpg
\"May 02, 2024 10:00 AM\",Bob,,,bob,https://x.com/bob/status/2,Second post,,,
bad date,Carol,,,carol,https://x.com/carol/status/3,Skipped,,,
";

#[test]
fn reimport_is_idempotent() {
    let db = Database::open_memory().unwrap();
    let ingester = Ingester::new();
    assert_eq!(ingester.ingest_csv(LEGACY_CSV, &db).unwrap(), 2);
    assert_eq!(ingester.ingest_csv(LEGACY_CSV, &db).unwrap(), 0);
    assert_eq!(db.get_stats().unwrap().total_bookmarks, 2);
}

#[test]
fn small_batches_give_same_count() {
    let db = Database::open_memory().unwrap();
    let ingester = Ingester::new().with_batch_size(1);
    assert_eq!(ingester.ingest_csv(LEGACY_CSV, &db).unwrap(), 2);
    assert_eq!(db.get_bookmarks(0, 10).unwrap().len(), 2);
}

#[test]
fn undetected_csv_is_rejected() {
    let db = Database::open_memory().unwrap();
    let r = Ingester::new().ingest_csv("a,b\n1,2\n", &db);
    assert_eq!(r, Err(Error::InvalidFormat("a,b".to_string())));
}

#[test]
fn file_kinds() {
    assert_eq!(Ingester::file_kind("CSV"), Ok(FileKind::Csv));
    assert_eq!(Ingester::file_kind("json"), Ok(FileKind::Json));
    assert_eq!(Ingester::file_kind("Txt"), Err(Error::UnsupportedFileType("txt".to_string())));
}

#[test]
fn round_trip_by_id() {
    let db = Database::open_memory().unwrap();
    let mut b = BookmarkBuilder::new()
        .tweet_url("https://x.com/a/status/9")
        .content("content here")
        .note_text("a note")
        .tweeted_at(1714575060)
        .author_handle("ann")
        .author_name("Ann")
        .author_profile_url("https://x.com/ann")
        .author_profile_image("https://img/ann.png")
        .comments("my comment")
        .add_tag("one")
        .add_tag("two")
        .add_media("https://pbs.twimg.com/media/p.png")
        .add_media("https://x/clip.mp4")
        .build()
        .unwrap();
    b.is_favorite = true;
    assert_eq!(db.insert_bookmarks(&[b.clone()]).unwrap(), 1);
    let got = db.get_bookmark(&b.id).unwrap().unwrap();
    assert_eq!(got.id, b.id);
    assert_eq!(got.tweet_url, b.tweet_url);
    assert_eq!(got.content, b.content);
    assert_eq!(got.note_text, b.note_text);
    assert_eq!(got.tweeted_at, b.tweeted_at);
    assert_eq!(got.imported_at, b.imported_at);
    assert_eq!(got.author_handle, b.author_handle);
    assert_eq!(got.author_name, b.author_name);
    assert_eq!(got.author_profile_url, b.author_profile_url);
    assert_eq!(got.author_profile_image, b.author_profile_image);
    assert_eq!(got.comments, b.comments);
    assert_eq!(got.is_favorite, true);
    assert_eq!(got.tags, b.tags);
    assert_eq!(got.media, b.media);
    assert_eq!(db.get_bookmark("missing").unwrap(), None);
}

#[test]
fn duplicates_leave_one_row() {
    let db = Database::open_memory().unwrap();
    let mut total = 0;
    for i in 0..5 {
        let b = record("https://x.com/same/status/1", &format!("version {}", i), i, "same", &[], &[]);
        total += db.insert_bookmarks(&[b]).unwrap();
    }
    let batch: Vec<Bookmark> =
        (0..3).map(|i| record("https://x.com/same/status/1", "again", i, "same", &[], &[])).collect();
    let report = db.insert_batch(&batch).unwrap();
    assert_eq!(report.inserted, 0);
    assert_eq!(report.skipped, 3);
    assert_eq!(total, 1);
    assert_eq!(db.get_stats().unwrap().total_bookmarks, 1);
}

#[test]
fn favorites_and_tag_filter() {
    let db = Database::open_memory().unwrap();
    let a = record("ua", "alpha", 3, "h1", &["x"], &[]);
    let b = record("ub", "beta", 2, "h2", &["x"], &[]);
    let c = record("uc", "gamma", 1, "h3", &["y"], &[]);
    assert_eq!(db.insert_bookmarks(&[a.clone(), b.clone(), c.clone()]).unwrap(), 3);
    db.set_favorite(&a.id, true).unwrap();
    db.set_favorite(&c.id, true).unwrap();
    let found = db.search_with_filters(None, Some("x"), None, None, None, true, None, 10).unwrap();
    assert_eq!(found.len(), 1);
    assert_eq!(found[0].id, a.id);
    let favs = db.get_favorites(0, 10).unwrap();
    assert_eq!(favs.len(), 2);
    assert_eq!(favs[0].id, a.id);
}

#[test]
fn filters_with_text_author_dates_and_media() {
    let db = Database::open_memory().unwrap();
    let a = record("ua", "rust databases", 100, "ann", &[], &["https://pbs.twimg.com/media/a.jpg"]);
    let b = record("ub", "rust compilers", 200, "bob", &[], &[]);
    let c = record("uc", "cooking", 300, "ann", &[], &[]);
    db.insert_bookmarks(&[a.clone(), b.clone(), c.clone()]).unwrap();
    let r = db.search_with_filters(Some("rust"), None, None, None, None, false, None, 10).unwrap();
    assert_eq!(r.len(), 2);
    let r = db.search_with_filters(Some("rus"), None, Some("bob"), None, None, false, None, 10).unwrap();
    assert_eq!(r.len(), 1);
    assert_eq!(r[0].id, b.id);
    let r = db.search_with_filters(None, None, None, Some(150), Some(300), false, None, 10).unwrap();
    assert_eq!(r.iter().map(|x| x.id.clone()).collect::<Vec<_>>(), vec![c.id.clone(), b.id.clone()]);
    let r = db.search_with_filters(None, None, None, None, None, false, Some(true), 10).unwrap();
    assert_eq!(r.len(), 1);
    assert_eq!(r[0].media[0].media_type, MediaType::Image);
    let r = db.search_with_filters(None, None, None, None, None, false, Some(false), 10).unwrap();
    assert_eq!(r.len(), 2);
    let r = db.search_with_filters(Some("  "), None, Some("o'brien"), None, None, false, None, 10).unwrap();
    assert_eq!(r.len(), 0);
    let r = db.get_bookmarks_by_date_range(Some(150), None, 0, 10).unwrap();
    assert_eq!(r.len(), 2);
    assert_eq!(db.get_bookmarks_by_author("ann", 0, 10).unwrap().len(), 2);
}

#[test]
fn cascade_delete_keeps_shared_tag() {
    let db = Database::open_memory().unwrap();
    let a = record("ua", "shared topic", 1, "h", &["shared"], &["https://pbs.twimg.com/media/a.jpg"]);
    let b = record("ub", "other topic", 2, "h", &["shared"], &[]);
    db.insert_bookmarks(&[a.clone(), b.clone()]).unwrap();
    assert_eq!(db.search("shared", 10).unwrap().len(), 2);
    assert_eq!(db.delete_bookmark(&a.id).unwrap(), true);
    assert_eq!(db.delete_bookmark(&a.id).unwrap(), false);
    assert!(db.load_bookmark_media(&a.id).unwrap().is_empty());
    assert!(db.load_bookmark_tags(&a.id).unwrap().is_empty());
    let left = db.search("shared", 10).unwrap();
    assert_eq!(left.len(), 1);
    assert_eq!(left[0].id, b.id);
    assert_eq!(db.search("topic", 10).unwrap().len(), 1);
    let tags = db.get_all_tags().unwrap();
    assert_eq!(tags, vec![("shared".to_string(), 1)]);
    assert_eq!(db.get_bookmarks_by_tag("shared", 0, 10).unwrap()[0].id, b.id);
}

#[test]
fn toggle_and_stats() {
    let db = Database::open_memory().unwrap();
    let a = record("ua", "one", 10, "h1", &["t1", "t2"], &[]);
    let b = record("ub", "two", 20, "h2", &["t1"], &[]);
    db.insert_bookmarks(&[a.clone(), b.clone()]).unwrap();
    assert_eq!(db.toggle_favorite(&a.id).unwrap(), true);
    assert_eq!(db.toggle_favorite(&a.id).unwrap(), false);
    assert_eq!(db.toggle_favorite(&a.id).unwrap(), true);
    assert!(matches!(db.toggle_favorite("missing"), Err(Error::Database(_))));
    let s = db.get_stats().unwrap();
    assert_eq!(s.total_bookmarks, 2);
    assert_eq!(s.unique_authors, 2);
    assert_eq!(s.unique_tags, 2);
    assert_eq!(s.favorite_bookmarks, 1);
    assert_eq!(s.earliest_date, Some(10));
    assert_eq!(s.latest_date, Some(20));
    assert_eq!(s.top_tags[0], ("t1".to_string(), 2));
    let empty = Database::open_memory().unwrap().get_stats().unwrap();
    assert_eq!(empty.earliest_date, None);
}

#[test]
fn tags_differing_in_case_share_one_catalog_entry() {
    let db = Database::open_memory().unwrap();
    let a = record("ua", "one", 10, "h1", &["Rust", "rust"], &[]);
    assert_eq!(db.insert_bookmarks(&[a.clone()]).unwrap(), 1);
    assert_eq!(db.get_stats().unwrap().unique_tags, 1);
    assert_eq!(db.load_bookmark_tags(&a.id).unwrap(), vec!["Rust"]);
}

#[test]
fn comments_are_searchable() {
    let db = Database::open_memory().unwrap();
    let b = BookmarkBuilder::new()
        .tweet_url("uc")
        .content("plain text")
        .tweeted_at(1)
        .author_handle("h")
        .comments("remember zeppelin")
        .build()
        .unwrap();
    db.insert_bookmarks(&[b.clone()]).unwrap();
    let found = db.search("zeppelin", 10).unwrap();
    assert_eq!(found.len(), 1);
    assert_eq!(found[0].id, b.id);
    assert_eq!(found[0].comments.as_deref(), Some("remember zeppelin"));
}

#[test]
fn batch_failure_on_empty_input_is_zero() {
    let db = Database::open_memory().unwrap();
    assert_eq!(Ingester::new().insert_bookmarks(&vec![], &db), Ok(0));
    let report = db.insert_batch(&[]).unwrap();
    assert_eq!(report.inserted + report.skipped, 0);
}

#[test]
fn fts_query_escapes_and_prefixes() {
    assert_eq!(prepare_fts_query("rust  say\"hi"), "\"rust\"* \"say\"\"hi\"*");
    assert_eq!(prepare_fts_query("   "), "");
}

#[test]
fn filter_query_binds_user_values() {
    let q = compose_filter_query(None, Some("x'; DROP TABLE bookmarks; --"), None, None, None, true, None, 5);
    assert!(!q.sql.contains("DROP"));
    assert!(q.sql.contains("t.name = ? AND b.is_favorite = 1"));
    assert_eq!(q.params, vec![SqlValue::Text("x'; DROP TABLE bookmarks; --".to_string()), SqlValue::Integer(5)]);
    let q = compose_filter_query(Some("hello"), None, None, Some(1), None, false, Some(false), 3);
    assert!(q.sql.contains("bookmarks_fts MATCH ? AND b.tweeted_at >= ? AND NOT EXISTS"));
    assert!(q.sql.ends_with("ORDER BY bm25(bookmarks_fts), b.tweeted_at DESC LIMIT ?"));
    assert_eq!(q.params, vec![SqlValue::Text("\"hello\"*".to_string()), SqlValue::Integer(1), SqlValue::Integer(3)]);
}

#[test]
fn pagination_flags() {
    let p = PaginatedResponse::new(vec![1, 2], 5, 0, 2);
    assert!(p.has_more);
    let p = PaginatedResponse::new(vec![1, 2], 5, 3, 2);
    assert!(!p.has_more);
    let p: PaginatedResponse<i32> = PaginatedResponse::new(vec![], -1, 0, 2);
    assert!(!p.has_more);
}
