//! The canonical bookmark record and the validating builder that produces it.
use vstd::prelude::*;

use crate::text::{contains_str, join_spec, join_with, lower_of, lowercase, seq_contains};

verus! {

/// The kind of a media attachment, inferred from its URL.
#[derive(Clone, Copy, Debug, PartialEq, Eq, Structural)]
pub enum MediaType {
    Image,
    Video,
    Gif,
    Unknown,
}

/// The kind that a lower-cased URL classifies as: animated-image patterns
/// first, then video patterns, then image patterns.
pub open spec fn media_kind(lower: Seq<char>) -> MediaType {
    if seq_contains(lower, ".gif"@) || seq_contains(lower, "gif"@) {
        MediaType::Gif
    } else if seq_contains(lower, ".mp4"@) || seq_contains(lower, "video"@) {
        MediaType::Video
    } else if seq_contains(lower, ".jpg"@) || seq_contains(lower, ".jpeg"@) || seq_contains(
        lower,
        ".png"@,
    ) || seq_contains(lower, ".webp"@) || seq_contains(lower, "pbs.twimg.com"@) {
        MediaType::Image
    } else {
        MediaType::Unknown
    }
}

/// Classification of a lower-cased URL: one naming a GIF is animated; one
/// naming an MP4 or a video, and no GIF, is a video; one on the image CDN or
/// with an image extension, and naming neither, is an image; one with none
/// of these markers is unknown.
pub proof fn lemma_media_classification(lower: Seq<char>)
    ensures
        seq_contains(lower, "gif"@) ==> media_kind(lower) == MediaType::Gif,
        !seq_contains(lower, ".gif"@) && !seq_contains(lower, "gif"@) && (seq_contains(lower, ".mp4"@)
            || seq_contains(lower, "video"@)) ==> media_kind(lower) == MediaType::Video,
        !seq_contains(lower, ".gif"@) && !seq_contains(lower, "gif"@) && !seq_contains(lower, ".mp4"@)
            && !seq_contains(lower, "video"@) && (seq_contains(lower, "pbs.twimg.com"@)
            || seq_contains(lower, ".jpg"@) || seq_contains(lower, ".jpeg"@) || seq_contains(
            lower,
            ".png"@,
        ) || seq_contains(lower, ".webp"@)) ==> media_kind(lower) == MediaType::Image,
        !seq_contains(lower, ".gif"@) && !seq_contains(lower, "gif"@) && !seq_contains(lower, ".mp4"@)
            && !seq_contains(lower, "video"@) && !seq_contains(lower, "pbs.twimg.com"@)
            && !seq_contains(lower, ".jpg"@) && !seq_contains(lower, ".jpeg"@) && !seq_contains(
            lower,
            ".png"@,
        ) && !seq_contains(lower, ".webp"@) ==> media_kind(lower) == MediaType::Unknown,
{
}

impl MediaType {
    /// Classifies an already lower-cased URL.
    pub fn classify(lower: &str) -> (r: MediaType)
        ensures
            r == media_kind(lower@),
    {
        if contains_str(lower, ".gif") || contains_str(lower, "gif") {
            MediaType::Gif
        } else if contains_str(lower, ".mp4") || contains_str(lower, "video") {
            MediaType::Video
        } else if contains_str(lower, ".jpg") || contains_str(lower, ".jpeg") || contains_str(
            lower,
            ".png",
        ) || contains_str(lower, ".webp") || contains_str(lower, "pbs.twimg.com") {
            MediaType::Image
        } else {
            MediaType::Unknown
        }
    }

    /// Classifies a URL by its lower-cased form.
    pub fn detect(url: &str) -> (r: MediaType)
        ensures
            r == media_kind(lower_of(url@)),
    {
        let lower = lowercase(url);
        MediaType::classify(lower.as_str())
    }
}

/// A media attachment: a URL and its classified kind.
#[derive(Clone, Debug, PartialEq)]
pub struct Media {
    pub url: String,
    pub media_type: MediaType,
}

/// Author information.
#[derive(Clone, Debug, PartialEq)]
pub struct Author {
    pub handle: String,
    pub name: String,
    pub profile_url: Option<String>,
    pub profile_image: Option<String>,
}

/// A single bookmarked post with its metadata.  Timestamps are seconds since
/// the Unix epoch, in UTC.
#[derive(Clone, Debug, PartialEq)]
pub struct Bookmark {
    /// Opaque unique identifier, generated on creation.
    pub id: String,
    /// Source URL of the post; the natural key.
    pub tweet_url: String,
    pub content: String,
    pub note_text: Option<String>,
    /// When the post was made.
    pub tweeted_at: i64,
    /// When the bookmark was imported.
    pub imported_at: i64,
    pub author_handle: String,
    pub author_name: String,
    pub author_profile_url: Option<String>,
    pub author_profile_image: Option<String>,
    pub tags: Vec<String>,
    pub comments: Option<String>,
    pub media: Vec<Media>,
    pub is_favorite: bool,
    /// Derived text that feeds the search index.
    pub search_text: String,
}

/// The text of an optional field as a list of zero or one parts.
pub open spec fn opt_part(o: Option<String>) -> Seq<Seq<char>> {
    match o {
        Some(s) => seq![s@],
        None => Seq::<Seq<char>>::empty(),
    }
}

/// The parts of the search blob: content, handle, name, note, comment, tags.
pub open spec fn search_parts(b: Bookmark) -> Seq<Seq<char>> {
    seq![b.content@, b.author_handle@, b.author_name@] + opt_part(b.note_text) + opt_part(
        b.comments,
    ) + b.tags.deep_view()
}

/// The search blob: the parts joined with single spaces.
pub open spec fn search_blob(b: Bookmark) -> Seq<char> {
    join_spec(search_parts(b), " "@)
}

/// The two records agree on every field but the search blob.
pub open spec fn same_fields(a: Bookmark, b: Bookmark) -> bool {
    &&& a.id == b.id
    &&& a.tweet_url == b.tweet_url
    &&& a.content == b.content
    &&& a.note_text == b.note_text
    &&& a.tweeted_at == b.tweeted_at
    &&& a.imported_at == b.imported_at
    &&& a.author_handle == b.author_handle
    &&& a.author_name == b.author_name
    &&& a.author_profile_url == b.author_profile_url
    &&& a.author_profile_image == b.author_profile_image
    &&& a.tags == b.tags
    &&& a.comments == b.comments
    &&& a.media == b.media
    &&& a.is_favorite == b.is_favorite
}

/// What the pattern `#(\w+)` captures in a text, match by match.
pub uninterp spec fn hashtag_captures(s: Seq<char>) -> Seq<Seq<char>>;

/// What the pattern `@(\w+)` captures in a text, match by match.
pub uninterp spec fn mention_captures(s: Seq<char>) -> Seq<Seq<char>>;

/// Relies on `regex::Regex::captures_iter` with the pattern `#(\w+)`: the
/// first group of each match, in order.
#[verifier::external_body]
fn find_hashtags(s: &str) -> (r: Vec<String>)
    ensures
        r.deep_view() == hashtag_captures(s@),
{
    let re = regex::Regex::new(r"#(\w+)").unwrap();
    re.captures_iter(s).filter_map(|c| c.get(1).map(|m| m.as_str().to_string())).collect()
}

/// Relies on `regex::Regex::captures_iter` with the pattern `@(\w+)`: the
/// first group of each match, in order.
#[verifier::external_body]
fn find_mentions(s: &str) -> (r: Vec<String>)
    ensures
        r.deep_view() == mention_captures(s@),
{
    let re = regex::Regex::new(r"@(\w+)").unwrap();
    re.captures_iter(s).filter_map(|c| c.get(1).map(|m| m.as_str().to_string())).collect()
}

/// Relies on `uuid::Uuid::new_v4`: a fresh random identifier, as text.
#[verifier::external_body]
fn new_id() -> (r: String) {
    uuid::Uuid::new_v4().to_string()
}

/// Relies on `chrono::Utc::now`: the current time in whole seconds.
#[verifier::external_body]
fn now_seconds() -> (r: i64) {
    chrono::Utc::now().timestamp()
}

/// Lower-cases each word.
pub fn lower_all(words: &Vec<String>) -> (r: Vec<String>)
    ensures
        r.deep_view() == words.deep_view().map_values(|w: Seq<char>| lower_of(w)),
{
    let mut out: Vec<String> = Vec::new();
    let mut i: usize = 0;
    while i < words.len()
        invariant
            i <= words@.len(),
            out@.len() == i,
            forall|k: int| 0 <= k < i ==> out@[k]@ == lower_of(words@[k]@),
        decreases words@.len() - i,
    {
        let l = lowercase(words[i].as_str());
        out.push(l);
        i = i + 1;
    }
    assert(out.deep_view() =~= words.deep_view().map_values(|w: Seq<char>| lower_of(w)));
    out
}

/// Collects the optional text fields and tags into the search parts.
fn collect_parts(b: &Bookmark) -> (r: Vec<String>)
    ensures
        r.deep_view() == search_parts(*b),
{
    let mut parts: Vec<String> = Vec::new();
    parts.push(b.content.clone());
    parts.push(b.author_handle.clone());
    parts.push(b.author_name.clone());
    if let Some(n) = &b.note_text {
        parts.push(n.clone());
    }
    if let Some(c) = &b.comments {
        parts.push(c.clone());
    }
    let ghost start = parts.deep_view();
    assert(start =~= seq![b.content@, b.author_handle@, b.author_name@] + opt_part(b.note_text)
        + opt_part(b.comments));
    let mut i: usize = 0;
    while i < b.tags.len()
        invariant
            i <= b.tags@.len(),
            parts@.len() == start.len() + i,
            forall|k: int| 0 <= k < start.len() ==> parts@[k]@ == start[k],
            forall|k: int| 0 <= k < i ==> parts@[start.len() + k]@ == b.tags@[k]@,
        decreases b.tags@.len() - i,
    {
        parts.push(b.tags[i].clone());
        i = i + 1;
    }
    assert(parts.deep_view() =~= start + b.tags.deep_view());
    parts
}

impl Bookmark {
    /// A new record with a fresh identifier, the current import time, no
    /// optional fields, and its search blob.
    pub fn new(
        tweet_url: String,
        content: String,
        tweeted_at: i64,
        author_handle: String,
        author_name: String,
    ) -> (r: Bookmark)
        ensures
            r.tweet_url == tweet_url,
            r.content == content,
            r.tweeted_at == tweeted_at,
            r.author_handle == author_handle,
            r.author_name == author_name,
            r.note_text is None,
            r.author_profile_url is None,
            r.author_profile_image is None,
            r.tags@.len() == 0,
            r.comments is None,
            r.media@.len() == 0,
            !r.is_favorite,
            r.search_text@ == search_blob(r),
    {
        let mut b = Bookmark {
            id: new_id(),
            tweet_url,
            content,
            note_text: None,
            tweeted_at,
            imported_at: now_seconds(),
            author_handle,
            author_name,
            author_profile_url: None,
            author_profile_image: None,
            tags: Vec::new(),
            comments: None,
            media: Vec::new(),
            is_favorite: false,
            search_text: String::new(),
        };
        b.compute_search_text();
        b
    }

    /// Recomputes the search blob from the current field values.
    pub fn compute_search_text(&mut self)
        ensures
            same_fields(*final(self), *old(self)),
            final(self).search_text@ == search_blob(*old(self)),
    {
        let parts = collect_parts(self);
        self.search_text = join_with(&parts, " ");
    }

    /// The hashtags of the content, lower-cased, in order of appearance.
    pub fn extract_hashtags(&self) -> (r: Vec<String>)
        ensures
            r.deep_view() == hashtag_captures(self.content@).map_values(
                |w: Seq<char>| lower_of(w),
            ),
    {
        let found = find_hashtags(self.content.as_str());
        lower_all(&found)
    }

    /// The mentions of the content, lower-cased, in order of appearance.
    pub fn extract_mentions(&self) -> (r: Vec<String>)
        ensures
            r.deep_view() == mention_captures(self.content@).map_values(
                |w: Seq<char>| lower_of(w),
            ),
    {
        let found = find_mentions(self.content.as_str());
        lower_all(&found)
    }
}

/// The required field that a builder lacked.
#[derive(Clone, Copy, Debug, PartialEq, Eq, Structural)]
pub enum BuildError {
    MissingTweetUrl,
    MissingTweetedAt,
    MissingAuthorHandle,
}

/// The description of a missing field.
pub open spec fn build_error_text(e: BuildError) -> Seq<char> {
    match e {
        BuildError::MissingTweetUrl => "tweet_url is required"@,
        BuildError::MissingTweetedAt => "tweeted_at is required"@,
        BuildError::MissingAuthorHandle => "author_handle is required"@,
    }
}

impl BuildError {
    /// A description that names the missing field.
    pub fn message(&self) -> (r: String)
        ensures
            r@ == build_error_text(*self),
    {
        match self {
            BuildError::MissingTweetUrl => "tweet_url is required".to_string(),
            BuildError::MissingTweetedAt => "tweeted_at is required".to_string(),
            BuildError::MissingAuthorHandle => "author_handle is required".to_string(),
        }
    }
}

/// Gathers the fields of a record from one parsed row or entry; `build`
/// validates them.
#[derive(Clone, Debug, Default)]
pub struct BookmarkBuilder {
    pub tweet_url: Option<String>,
    pub content: Option<String>,
    pub note_text: Option<String>,
    pub tweeted_at: Option<i64>,
    pub author_handle: Option<String>,
    pub author_name: Option<String>,
    pub author_profile_url: Option<String>,
    pub author_profile_image: Option<String>,
    pub tags: Vec<String>,
    pub comments: Option<String>,
    pub media: Vec<Media>,
}

/// The optional text holds exactly `s`.
pub open spec fn holds(o: Option<String>, s: Seq<char>) -> bool {
    o matches Some(v) && v@ == s
}

/// An optional setter's result: `s` when it is not empty, else what was there.
pub open spec fn set_unless_empty(before: Option<String>, after: Option<String>, s: Seq<char>) -> bool {
    if s.len() == 0 {
        after == before
    } else {
        holds(after, s)
    }
}

/// The text of an optional string, or the empty text.
pub open spec fn text_or_empty(o: Option<String>) -> Seq<char> {
    match o {
        Some(v) => v@,
        None => Seq::<char>::empty(),
    }
}

/// A copy of a string slice as an optional `String`, or `None` when empty.
fn non_empty(s: &str) -> (r: Option<String>)
    ensures
        s@.len() == 0 ==> r is None,
        s@.len() > 0 ==> holds(r, s@),
{
    if s.unicode_len() == 0 {
        None
    } else {
        Some(s.to_string())
    }
}

impl BookmarkBuilder {
    /// A builder with no field set.
    pub fn new() -> (r: BookmarkBuilder)
        ensures
            r.tweet_url is None,
            r.content is None,
            r.note_text is None,
            r.tweeted_at is None,
            r.author_handle is None,
            r.author_name is None,
            r.author_profile_url is None,
            r.author_profile_image is None,
            r.tags@.len() == 0,
            r.comments is None,
            r.media@.len() == 0,
    {
        BookmarkBuilder {
            tweet_url: None,
            content: None,
            note_text: None,
            tweeted_at: None,
            author_handle: None,
            author_name: None,
            author_profile_url: None,
            author_profile_image: None,
            tags: Vec::new(),
            comments: None,
            media: Vec::new(),
        }
    }

    pub fn tweet_url(self, url: &str) -> (r: BookmarkBuilder)
        ensures
            r == (BookmarkBuilder { tweet_url: r.tweet_url, ..self }),
            holds(r.tweet_url, url@),
    {
        BookmarkBuilder { tweet_url: Some(url.to_string()), ..self }
    }

    pub fn content(self, content: &str) -> (r: BookmarkBuilder)
        ensures
            r == (BookmarkBuilder { content: r.content, ..self }),
            holds(r.content, content@),
    {
        BookmarkBuilder { content: Some(content.to_string()), ..self }
    }

    /// Sets the extended text unless `note` is empty.
    pub fn note_text(self, note: &str) -> (r: BookmarkBuilder)
        ensures
            r == (BookmarkBuilder { note_text: r.note_text, ..self }),
            set_unless_empty(self.note_text, r.note_text, note@),
    {
        if note.unicode_len() == 0 {
            self
        } else {
            BookmarkBuilder { note_text: non_empty(note), ..self }
        }
    }

    pub fn tweeted_at(self, at: i64) -> (r: BookmarkBuilder)
        ensures
            r == (BookmarkBuilder { tweeted_at: Some(at), ..self }),
    {
        BookmarkBuilder { tweeted_at: Some(at), ..self }
    }

    pub fn author_handle(self, handle: &str) -> (r: BookmarkBuilder)
        ensures
            r == (BookmarkBuilder { author_handle: r.author_handle, ..self }),
            holds(r.author_handle, handle@),
    {
        BookmarkBuilder { author_handle: Some(handle.to_string()), ..self }
    }

    /// Sets the display name unless `name` is empty; an unset name defaults
    /// to the handle when the record is built.
    pub fn author_name(self, name: &str) -> (r: BookmarkBuilder)
        ensures
            r == (BookmarkBuilder { author_name: r.author_name, ..self }),
            set_unless_empty(self.author_name, r.author_name, name@),
    {
        if name.unicode_len() == 0 {
            self
        } else {
            BookmarkBuilder { author_name: non_empty(name), ..self }
        }
    }

    /// Sets the profile URL unless `url` is empty.
    pub fn author_profile_url(self, url: &str) -> (r: BookmarkBuilder)
        ensures
            r == (BookmarkBuilder { author_profile_url: r.author_profile_url, ..self }),
            set_unless_empty(self.author_profile_url, r.author_profile_url, url@),
    {
        if url.unicode_len() == 0 {
            self
        } else {
            BookmarkBuilder { author_profile_url: non_empty(url), ..self }
        }
    }

    /// Sets the avatar URL unless `url` is empty.
    pub fn author_profile_image(self, url: &str) -> (r: BookmarkBuilder)
        ensures
            r == (BookmarkBuilder { author_profile_image: r.author_profile_image, ..self }),
            set_unless_empty(self.author_profile_image, r.author_profile_image, url@),
    {
        if url.unicode_len() == 0 {
            self
        } else {
            BookmarkBuilder { author_profile_image: non_empty(url), ..self }
        }
    }

    pub fn tags(self, tags: Vec<String>) -> (r: BookmarkBuilder)
        ensures
            r == (BookmarkBuilder { tags: tags, ..self }),
    {
        BookmarkBuilder { tags, ..self }
    }

    /// Appends `tag` unless it is empty or already present (exact match).
    pub fn add_tag(self, tag: &str) -> (r: BookmarkBuilder)
        ensures
            r == (BookmarkBuilder { tags: r.tags, ..self }),
            r.tags.deep_view() == (if tag@.len() > 0 && !self.tags.deep_view().contains(tag@) {
                self.tags.deep_view().push(tag@)
            } else {
                self.tags.deep_view()
            }),
    {
        if tag.unicode_len() == 0 {
            return self;
        }
        let wanted = tag.to_string();
        let mut i: usize = 0;
        while i < self.tags.len()
            invariant
                wanted@ == tag@,
                i <= self.tags@.len(),
                forall|k: int| 0 <= k < i ==> self.tags@[k]@ != tag@,
            decreases self.tags@.len() - i,
        {
            if self.tags[i] == wanted {
                assert(self.tags.deep_view()[i as int] == tag@);
                return self;
            }
            i = i + 1;
        }
        assert(!self.tags.deep_view().contains(tag@));
        let mut tags = self.tags;
        tags.push(tag.to_string());
        assert(tags.deep_view() =~= self.tags.deep_view().push(tag@));
        BookmarkBuilder { tags, ..self }
    }

    /// Sets the comment unless `comments` is empty.
    pub fn comments(self, comments: &str) -> (r: BookmarkBuilder)
        ensures
            r == (BookmarkBuilder { comments: r.comments, ..self }),
            set_unless_empty(self.comments, r.comments, comments@),
    {
        if comments.unicode_len() == 0 {
            self
        } else {
            BookmarkBuilder { comments: non_empty(comments), ..self }
        }
    }

    pub fn media(self, media: Vec<Media>) -> (r: BookmarkBuilder)
        ensures
            r == (BookmarkBuilder { media: media, ..self }),
    {
        BookmarkBuilder { media, ..self }
    }

    /// Appends an attachment for `url`, classified by its URL, unless `url`
    /// is empty.
    pub fn add_media(self, url: &str) -> (r: BookmarkBuilder)
        ensures
            r == (BookmarkBuilder { media: r.media, ..self }),
            url@.len() == 0 ==> r.media == self.media,
            url@.len() > 0 ==> r.media@.len() == self.media@.len() + 1 && r.media@.drop_last()
                == self.media@ && r.media@.last().url@ == url@ && r.media@.last().media_type
                == media_kind(lower_of(url@)),
    {
        if url.unicode_len() == 0 {
            return self;
        }
        let media_type = MediaType::detect(url);
        let mut media = self.media;
        media.push(Media { url: url.to_string(), media_type });
        assert(media@.drop_last() =~= self.media@);
        BookmarkBuilder { media, ..self }
    }

    /// Validates the required fields and builds the record: the source URL,
    /// the post time and the author handle are required, the display name
    /// defaults to the handle and the content to the empty text.
    pub fn build(self) -> (r: Result<Bookmark, BuildError>)
        ensures
            self.tweet_url is None ==> r == Err::<Bookmark, BuildError>(
                BuildError::MissingTweetUrl,
            ),
            self.tweet_url is Some && self.tweeted_at is None ==> r == Err::<Bookmark, BuildError>(
                BuildError::MissingTweetedAt,
            ),
            self.tweet_url is Some && self.tweeted_at is Some && self.author_handle is None ==> r
                == Err::<Bookmark, BuildError>(BuildError::MissingAuthorHandle),
            self.tweet_url is Some && self.tweeted_at is Some && self.author_handle is Some ==> r
                is Ok,
            r matches Ok(b) ==> built_from(self, b),
    {
        let tweet_url = match self.tweet_url {
            Some(u) => u,
            None => return Err(BuildError::MissingTweetUrl),
        };
        let tweeted_at = match self.tweeted_at {
            Some(t) => t,
            None => return Err(BuildError::MissingTweetedAt),
        };
        let author_handle = match self.author_handle {
            Some(h) => h,
            None => return Err(BuildError::MissingAuthorHandle),
        };
        let content = match self.content {
            Some(c) => c,
            None => String::new(),
        };
        let author_name = match self.author_name {
            Some(n) => n,
            None => author_handle.clone(),
        };
        let mut b = Bookmark::new(tweet_url, content, tweeted_at, author_handle, author_name);
        b.note_text = self.note_text;
        b.author_profile_url = self.author_profile_url;
        b.author_profile_image = self.author_profile_image;
        b.tags = self.tags;
        b.comments = self.comments;
        b.media = self.media;
        b.is_favorite = false;
        b.compute_search_text();
        Ok(b)
    }
}

/// `b` is the record that a builder with all required fields yields.
pub open spec fn built_from(f: BookmarkBuilder, b: Bookmark) -> bool {
    &&& f.tweet_url == Some(b.tweet_url)
    &&& b.content@ == text_or_empty(f.content)
    &&& f.tweeted_at == Some(b.tweeted_at)
    &&& f.author_handle == Some(b.author_handle)
    &&& b.author_name@ == (match f.author_name {
        Some(n) => n@,
        None => b.author_handle@,
    })
    &&& b.note_text == f.note_text
    &&& b.author_profile_url == f.author_profile_url
    &&& b.author_profile_image == f.author_profile_image
    &&& b.tags == f.tags
    &&& b.comments == f.comments
    &&& b.media == f.media
    &&& !b.is_favorite
    &&& b.search_text@ == search_blob(b)
}

} // verus!
