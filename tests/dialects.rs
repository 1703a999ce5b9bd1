use eterea_core::ingestion::parse_csv_rows;
use eterea_core::{BuildError, CsvFormat, Error, JsonParser, LegacyCsvParser, MediaType, NewCsvParser, RawJsonBookmark, RawMedia};

fn row(fields: &[&str]) -> Vec<String> {
    fields.iter().map(|f| f.to_string()).collect()
}

#[test]
fn detects_legacy_headers() {
    let h = row(&["Tweet Date", "Posted By", "Profile Pic"]);
    assert_eq!(CsvFormat::detect(&h), Ok(CsvFormat::Legacy));
    let h = row(&["Something", "POSTED BY"]);
    assert_eq!(CsvFormat::detect(&h), Ok(CsvFormat::Legacy));
}

#[test]
fn detects_new_headers() {
    let h = row(&["profile_image_url_https", "screen_name", "name"]);
    assert_eq!(CsvFormat::detect(&h), Ok(CsvFormat::New));
    let h = row(&["Tweeted_At"]);
    assert_eq!(CsvFormat::detect(&h), Ok(CsvFormat::New));
}

#[test]
fn undetected_headers_fail() {
    let h = row(&["Foo", "Bar"]);
    assert_eq!(CsvFormat::detect(&h), Err(Error::InvalidFormat("foo,bar".to_string())));
    assert!(matches!(parse_csv_rows(vec![]), Err(Error::InvalidFormat(_))));
}

#[test]
fn legacy_record_by_position() {
    let rec = row(&[
        "02:51 PM, May 01, 2024",
        "Alice",
        "https://img.example.com/a.png",
        "https://x.com/alice",
        "alice",
        "https://x.com/alice/status/1",
        "Hello world",
        " rust, programming ,,rust",
        "nice one",
        "https://pbs.twimg.com/media/x.jpg; https://v.example.com/v.mp4 ;",
    ]);
    let b = LegacyCsvParser::new().parse_record(&rec).unwrap();
    assert_eq!(b.tweet_url, "https://x.com/alice/status/1");
    assert_eq!(b.content, "Hello world");
    assert_eq!(b.tweeted_at, 1714575060);
    assert_eq!(b.author_handle, "alice");
    assert_eq!(b.author_name, "Alice");
    assert_eq!(b.author_profile_url.as_deref(), Some("https://x.com/alice"));
    assert_eq!(b.author_profile_image.as_deref(), Some("https://img.example.com/a.png"));
    assert_eq!(b.comments.as_deref(), Some("nice one"));
    assert_eq!(b.tags, vec!["rust", "programming"]);
    assert_eq!(b.media.len(), 2);
    assert_eq!(b.media[0].media_type, MediaType::Image);
    assert_eq!(b.media[1].url, "https://v.example.com/v.mp4");
    assert_eq!(b.media[1].media_type, MediaType::Video);
}

#[test]
fn empty_poster_name_defaults_to_handle() {
    let rec = row(&["02:51 PM, May 01, 2024", "", "", "", "alice", "https://x.com/alice/status/7"]);
    let b = LegacyCsvParser::new().parse_record(&rec).unwrap();
    assert_eq!(b.author_name, "alice");
    assert!(b.tags.is_empty());
    assert!(b.media.is_empty());
}

#[test]
fn short_legacy_record_with_bad_date_is_rejected() {
    let rec = row(&["not a date", "Alice"]);
    assert!(matches!(LegacyCsvParser::new().parse_record(&rec), Err(Error::DateParse(_))));
}

#[test]
fn new_record_by_position() {
    let rec = row(&[
        "https://img.example.com/b.png",
        "bob",
        "",
        "Full text",
        "",
        "2025-08-25T10:52:35.000Z",
        "https://x.com/bob/status/2",
    ]);
    let b = NewCsvParser::new().parse_record(&rec).unwrap();
    assert_eq!(b.author_handle, "bob");
    assert_eq!(b.author_name, "bob");
    assert_eq!(b.content, "Full text");
    assert_eq!(b.note_text, None);
    assert_eq!(b.tweeted_at, 1756119155);
    assert_eq!(b.author_profile_image.as_deref(), Some("https://img.example.com/b.png"));
}

#[test]
fn parse_skips_failing_rows_and_keeps_order() {
    let rows = vec![
        row(&["profile_image_url_https", "screen_name", "name", "full_text", "note_tweet_text", "tweeted_at", "tweet_url"]),
        row(&["", "a", "A", "one", "", "2025-08-25T10:52:35.000Z", "u1"]),
        row(&["", "b", "B", "two", "", "garbage", "u2"]),
        row(&["", "c", "C", "three", "n", "2025-08-25T10:52:35", "u3"]),
    ];
    let v = parse_csv_rows(rows).unwrap();
    assert_eq!(v.len(), 2);
    assert_eq!(v[0].tweet_url, "u1");
    assert_eq!(v[1].tweet_url, "u3");
    assert_eq!(v[1].note_text.as_deref(), Some("n"));
}

fn text(s: &str) -> Option<String> {
    Some(s.to_string())
}

#[test]
fn json_aliases_first_present_wins() {
    let raw = RawJsonBookmark {
        url: text("https://x.com/c/status/3"),
        text: text("body"),
        content: text("ignored"),
        created_at: text("2018-10-10T20:19:24Z"),
        author_handle: text("carol"),
        username: text("ignored"),
        display_name: text("Carol"),
        profile_image: text("https://img.example.com/c.png"),
        tags: Some(vec!["a".to_string(), "".to_string(), "a".to_string(), "b".to_string()]),
        media: Some(vec![
            RawMedia { url: None, media_url: text("https://pbs.twimg.com/media/q"), media_type: text("photo") },
            RawMedia { url: text(""), media_url: text("https://x/y.gif"), media_type: None },
        ]),
        ..Default::default()
    };
    let b = JsonParser::new().convert_raw(&raw).unwrap();
    assert_eq!(b.tweet_url, "https://x.com/c/status/3");
    assert_eq!(b.content, "body");
    assert_eq!(b.author_handle, "carol");
    assert_eq!(b.author_name, "Carol");
    assert_eq!(b.tweeted_at, 1539202764);
    assert_eq!(b.author_profile_image.as_deref(), Some("https://img.example.com/c.png"));
    assert_eq!(b.tags, vec!["a", "b"]);
    assert_eq!(b.media.len(), 1);
    assert_eq!(b.media[0].media_type, MediaType::Image);
}

#[test]
fn json_entry_without_url_or_date_fails() {
    let no_url = RawJsonBookmark { tweeted_at: text("2018-10-10T20:19:24Z"), ..Default::default() };
    assert!(matches!(JsonParser::new().convert_raw(&no_url), Err(Error::Other(_))));
    let no_date = RawJsonBookmark { tweet_url: text("u"), ..Default::default() };
    assert!(matches!(JsonParser::new().convert_raw(&no_date), Err(Error::Other(_))));
    let no_handle = RawJsonBookmark {
        tweet_url: text("u"),
        tweeted_at: text("2018-10-10T20:19:24Z"),
        ..Default::default()
    };
    assert_eq!(
        JsonParser::new().convert_raw(&no_handle),
        Err(Error::Build(BuildError::MissingAuthorHandle))
    );
    let entries = vec![no_url, no_date, no_handle, RawJsonBookmark {
        tweet_url: text("ok"),
        tweeted_at: text("2018-10-10T20:19:24Z"),
        username: text("dan"),
        name: text(""),
        ..Default::default()
    }];
    let v = JsonParser::new().parse(&entries);
    assert_eq!(v.len(), 1);
    assert_eq!(v[0].author_handle, "dan");
    assert_eq!(v[0].author_name, "dan");
}
