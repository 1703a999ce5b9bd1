use eterea_core::{BookmarkBuilder, BuildError, MediaType};

#[test]
fn test_bookmark_builder() {
    let bookmark = BookmarkBuilder::new()
        .tweet_url("https://twitter.com/user/status/123")
        .content("Hello world! #rust @rustlang")
        .tweeted_at(chrono::Utc::now().timestamp())
        .author_handle("rustacean")
        .author_name("Rust Developer")
        .add_tag("programming")
        .build()
        .unwrap();

    assert_eq!(bookmark.author_handle, "rustacean");
    assert_eq!(bookmark.tags, vec!["programming"]);

    let hashtags = bookmark.extract_hashtags();
    assert_eq!(hashtags, vec!["rust"]);

    let mentions = bookmark.extract_mentions();
    assert_eq!(mentions, vec!["rustlang"]);
}

#[test]
fn hashtags_are_lowercased_in_order() {
    let b = BookmarkBuilder::new()
        .tweet_url("u")
        .content("#Rust and #WASM with @Ferris")
        .tweeted_at(0)
        .author_handle("h")
        .build()
        .unwrap();
    assert_eq!(b.extract_hashtags(), vec!["rust", "wasm"]);
    assert_eq!(b.extract_mentions(), vec!["ferris"]);
}

#[test]
fn build_reports_each_missing_field() {
    assert_eq!(BookmarkBuilder::new().build().unwrap_err(), BuildError::MissingTweetUrl);
    assert_eq!(BookmarkBuilder::new().tweet_url("u").build().unwrap_err(), BuildError::MissingTweetedAt);
    assert_eq!(
        BookmarkBuilder::new().tweet_url("u").tweeted_at(5).build().unwrap_err(),
        BuildError::MissingAuthorHandle
    );
    assert_eq!(BuildError::MissingAuthorHandle.message(), "author_handle is required");
}

#[test]
fn build_defaults_and_search_blob() {
    let b = BookmarkBuilder::new()
        .tweet_url("u")
        .tweeted_at(7)
        .author_handle("alice")
        .note_text("")
        .note_text("note")
        .comments("")
        .author_profile_url("")
        .add_tag("x")
        .add_tag("x")
        .add_tag("")
        .add_tag("X")
        .build()
        .unwrap();
    assert_eq!(b.content, "");
    assert_eq!(b.author_name, "alice");
    assert_eq!(b.note_text, Some("note".to_string()));
    assert_eq!(b.comments, None);
    assert_eq!(b.author_profile_url, None);
    assert_eq!(b.tags, vec!["x", "X"]);
    let named = BookmarkBuilder::new().tweet_url("u").tweeted_at(1).author_handle("h").author_name("").build().unwrap();
    assert_eq!(named.author_name, "h");
    assert!(!b.is_favorite);
    assert_eq!(b.tweeted_at, 7);
    assert_eq!(b.search_text, " alice alice note x X");
    assert_eq!(b.id.len(), 36);
}

#[test]
fn media_classification() {
    assert_eq!(MediaType::detect("https://pbs.twimg.com/media/abc?format=png"), MediaType::Image);
    assert_eq!(MediaType::detect("https://example.com/clip.MP4"), MediaType::Video);
    assert_eq!(MediaType::detect("https://example.com/tweet_video/funny.gif"), MediaType::Gif);
    assert_eq!(MediaType::detect("https://example.com/page"), MediaType::Unknown);
    assert_eq!(MediaType::detect("https://example.com/photo.JPEG"), MediaType::Image);
    assert_eq!(MediaType::classify("https://video.example.com/x"), MediaType::Video);
}

#[test]
fn add_media_classifies_and_ignores_empty() {
    let b = BookmarkBuilder::new()
        .add_media("")
        .add_media("https://pbs.twimg.com/media/a.jpg")
        .add_media("https://v.example.com/a.mp4");
    assert_eq!(b.media.len(), 2);
    assert_eq!(b.media[0].media_type, MediaType::Image);
    assert_eq!(b.media[1].media_type, MediaType::Video);
    assert_eq!(b.media[1].url, "https://v.example.com/a.mp4");
}
