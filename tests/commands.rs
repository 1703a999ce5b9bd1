use eterea_core::commands::{
    delete_bookmark, get_bookmarks, get_favorites, get_stats, optional_date, search_bookmarks,
    search_with_filters, toggle_favorite,
};
use eterea_core::sql::{bookmark_row, media_type_code, media_type_from_code, row_to_bookmark, SqlValue};
use eterea_core::storage::{decode_rows, has_favorite_column, media_of_rows, single_int, tag_counts_of, texts_of};
use eterea_core::{Bookmark, BookmarkBuilder, BookmarkStats, BuildError, Database, Error, MediaType, StatsResponse};

fn record(url: &str, content: &str, at: i64, tags: &[&str]) -> Bookmark {
    let mut b = BookmarkBuilder::new().tweet_url(url).content(content).tweeted_at(at).author_handle("h");
    for t in tags {
        b = b.add_tag(t);
    }
    b.build().unwrap()
}

fn seeded() -> (Database, Vec<Bookmark>) {
    let db = Database::open_memory().unwrap();
    let v = vec![
        record("u1", "first post", 1714575060, &["a"]),
        record("u2", "second post", 1714575070, &["b"]),
        record("u3", "third post", 1714575080, &["a"]),
    ];
    assert_eq!(db.insert_bookmarks(&v).unwrap(), 3);
    (db, v)
}

#[test]
fn error_messages() {
    assert_eq!(Error::InvalidFormat("x".to_string()).message(), "Invalid file format: x");
    assert_eq!(Error::UnsupportedFileType("txt".to_string()).message(), "Unsupported file type: txt");
    assert_eq!(Error::Database("boom".to_string()).message(), "Database error: boom");
    assert_eq!(Error::Other("plain".to_string()).message(), "plain");
    assert_eq!(Error::Build(BuildError::MissingTweetUrl).message(), "tweet_url is required");
}

#[test]
fn stats_response_writes_rfc3339() {
    let stats = BookmarkStats {
        total_bookmarks: 2,
        unique_authors: 1,
        unique_tags: 0,
        favorite_bookmarks: 0,
        earliest_date: Some(1714575060),
        latest_date: None,
        top_tags: vec![],
    };
    let r = StatsResponse::from_stats(stats);
    assert_eq!(r.earliest_date.as_deref(), Some("2024-05-01T14:51:00+00:00"));
    assert_eq!(r.latest_date, None);
    assert_eq!(r.total_bookmarks, 2);
}

#[test]
fn command_defaults_and_paths() {
    let (db, v) = seeded();
    let page = get_bookmarks(&db, None, None).unwrap();
    assert_eq!(page.offset, 0);
    assert_eq!(page.limit, 50);
    assert_eq!(page.total, 3);
    assert!(!page.has_more);
    assert_eq!(page.items[0].tweet_url, "u3");
    let page = get_bookmarks(&db, Some(0), Some(1)).unwrap();
    assert!(page.has_more);
    assert_eq!(search_bookmarks(&db, Some("second".to_string()), None, None).unwrap().len(), 1);
    assert_eq!(search_bookmarks(&db, Some("second".to_string()), Some("a".to_string()), None).unwrap().len(), 2);
    assert_eq!(search_bookmarks(&db, Some("   ".to_string()), None, Some(2)).unwrap().len(), 2);
    assert_eq!(toggle_favorite(&db, v[0].id.clone()), Ok(true));
    assert_eq!(get_favorites(&db, None, None).unwrap().len(), 1);
    assert_eq!(get_stats(&db).unwrap().favorite_bookmarks, 1);
    let found = search_with_filters(
        &db,
        None,
        None,
        None,
        Some("2024-05-01T14:51:05Z".to_string()),
        Some("not a date".to_string()),
        None,
        None,
        None,
    )
    .unwrap();
    assert_eq!(found.len(), 2);
    assert_eq!(delete_bookmark(&db, v[1].id.clone()), Ok(true));
    assert_eq!(get_stats(&db).unwrap().total_bookmarks, 2);
    assert_eq!(optional_date(&Some("2024-05-01T14:51:00Z".to_string())), Some(1714575060));
    assert_eq!(optional_date(&None), None);
}

#[test]
fn decoders() {
    let b = record("u9", "c", 5, &[]);
    let row = bookmark_row(&b);
    assert_eq!(row.len(), 12);
    let back = row_to_bookmark(&row).unwrap();
    assert_eq!(back.id, b.id);
    assert_eq!(back.tweet_url, "u9");
    assert_eq!(back.tweeted_at, 5);
    let mut broken = row.clone();
    broken[4] = SqlValue::Text("x".to_string());
    assert_eq!(row_to_bookmark(&broken), None);
    assert_eq!(decode_rows(&vec![row.clone(), broken, row]).len(), 2);

    let t = |s: &str| SqlValue::Text(s.to_string());
    let rows = vec![vec![t("a")], vec![SqlValue::Null], vec![t("b")]];
    assert_eq!(texts_of(&rows), vec!["a", "b"]);
    let rows = vec![vec![t("x"), SqlValue::Integer(3)], vec![t("y"), SqlValue::Null]];
    assert_eq!(tag_counts_of(&rows), vec![("x".to_string(), 3)]);
    let rows = vec![vec![t("https://m/1"), t("gif")], vec![t("https://m/2"), t("weird")]];
    let media = media_of_rows(&rows);
    assert_eq!(media[0].media_type, MediaType::Gif);
    assert_eq!(media[1].media_type, MediaType::Unknown);
    assert_eq!(media_type_from_code(media_type_code(MediaType::Video)), MediaType::Video);
    let listing = vec![vec![SqlValue::Integer(0), t("id")], vec![SqlValue::Integer(1), t("IS_Favorite")]];
    assert!(has_favorite_column(&listing));
    assert!(!has_favorite_column(&listing[..1].to_vec()));
    assert_eq!(single_int(&vec![vec![SqlValue::Integer(7)]]), Some(7));
    assert_eq!(single_int(&vec![vec![SqlValue::Null]]), None);
    assert_eq!(single_int(&vec![]), None);
}
