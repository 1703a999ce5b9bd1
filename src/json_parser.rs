//! The JSON dialect: an array of objects whose logical fields each accept
//! several names.  The first name present wins.
use vstd::prelude::*;

use crate::csv_parser::{media_of_urls, media_view, with_tag};
use crate::dates::{json_time_of, parse_rfc3339, parse_zoned};
use crate::error::Error;
use crate::models::{
    search_blob, set_unless_empty, text_or_empty, Bookmark, BookmarkBuilder, BuildError, Media,
    MediaType,
};
use crate::text::lower_of;

verus! {

/// One media object of a JSON entry.
#[derive(Clone, Debug, Default, PartialEq)]
pub struct RawMedia {
    pub url: Option<String>,
    pub media_url: Option<String>,
    pub media_type: Option<String>,
}

/// One JSON entry with every field name that the dialect accepts.
#[derive(Clone, Debug, Default, PartialEq)]
pub struct RawJsonBookmark {
    pub tweet_url: Option<String>,
    pub url: Option<String>,
    pub full_text: Option<String>,
    pub text: Option<String>,
    pub content: Option<String>,
    pub note_tweet_text: Option<String>,
    pub tweeted_at: Option<String>,
    pub created_at: Option<String>,
    pub screen_name: Option<String>,
    pub author_handle: Option<String>,
    pub username: Option<String>,
    pub name: Option<String>,
    pub author_name: Option<String>,
    pub display_name: Option<String>,
    pub profile_image_url_https: Option<String>,
    pub profile_image: Option<String>,
    pub tags: Option<Vec<String>>,
    pub media: Option<Vec<RawMedia>>,
}

/// The first of two optional texts that is present.
pub open spec fn first_text(a: Option<String>, b: Option<String>) -> Option<String> {
    if a is Some {
        a
    } else {
        b
    }
}

fn first_of(a: &Option<String>, b: &Option<String>) -> (r: Option<String>)
    ensures
        r == first_text(*a, *b),
{
    match a {
        Some(v) => Some(v.clone()),
        None => match b {
            Some(v) => Some(v.clone()),
            None => None,
        },
    }
}

/// The tags that `add_tag` leaves after adding each of `ts` in turn.
pub open spec fn tags_added(start: Seq<Seq<char>>, ts: Seq<Seq<char>>) -> Seq<Seq<char>>
    decreases ts.len(),
{
    if ts.len() == 0 {
        start
    } else {
        with_tag(tags_added(start, ts.drop_last()), ts.last())
    }
}

/// The media URLs of a list of media objects: the first name present of
/// each, when not empty.
pub open spec fn json_media_urls(ms: Seq<RawMedia>) -> Seq<Seq<char>>
    decreases ms.len(),
{
    if ms.len() == 0 {
        Seq::<Seq<char>>::empty()
    } else {
        let prev = json_media_urls(ms.drop_last());
        match first_text(ms.last().url, ms.last().media_url) {
            Some(u) => if u@.len() > 0 {
                prev.push(u@)
            } else {
                prev
            },
            None => prev,
        }
    }
}

/// The date text of an entry.
pub open spec fn json_date(raw: RawJsonBookmark) -> Option<String> {
    first_text(raw.tweeted_at, raw.created_at)
}

/// The handle field of an entry: the first of its aliases present.
pub open spec fn json_handle_field(raw: RawJsonBookmark) -> Option<String> {
    first_text(first_text(raw.screen_name, raw.author_handle), raw.username)
}

/// The entry converts: it has a date that parses, a post URL and a handle.
pub open spec fn json_ok(raw: RawJsonBookmark) -> bool {
    &&& json_date(raw) is Some
    &&& json_time_of(json_date(raw)->0@) is Some
    &&& first_text(raw.tweet_url, raw.url) is Some
    &&& json_handle_field(raw) is Some
}

/// The handle of an entry, or the empty text.
pub open spec fn json_handle(raw: RawJsonBookmark) -> Seq<char> {
    text_or_empty(json_handle_field(raw))
}

/// `b` is the record that a JSON entry with post time `t` describes.
pub open spec fn json_record(raw: RawJsonBookmark, t: i64, b: Bookmark) -> bool {
    &&& (first_text(raw.tweet_url, raw.url) matches Some(u) && b.tweet_url@ == u@)
    &&& b.content@ == text_or_empty(first_text(first_text(raw.full_text, raw.text), raw.content))
    &&& b.tweeted_at == t
    &&& b.author_handle@ == json_handle(raw)
    &&& b.author_name@ == crate::csv_parser::name_or_handle(
        text_or_empty(first_text(first_text(raw.name, raw.author_name), raw.display_name)),
        json_handle(raw),
    )
    &&& set_unless_empty(None, b.note_text, text_or_empty(raw.note_tweet_text))
    &&& set_unless_empty(None, b.author_profile_image, text_or_empty(first_text(raw.profile_image_url_https, raw.profile_image)))
    &&& b.author_profile_url is None
    &&& b.comments is None
    &&& b.tags.deep_view() == (match raw.tags {
        Some(ts) => tags_added(Seq::<Seq<char>>::empty(), ts.deep_view()),
        None => Seq::<Seq<char>>::empty(),
    })
    &&& media_view(b.media@) == (match raw.media {
        Some(ms) => media_of_urls(json_media_urls(ms@)),
        None => Seq::<(Seq<char>, MediaType)>::empty(),
    })
    &&& !b.is_favorite
    &&& b.search_text@ == search_blob(b)
}

/// The entries that convert, in order.
pub open spec fn json_kept(raws: Seq<RawJsonBookmark>) -> Seq<RawJsonBookmark>
    decreases raws.len(),
{
    if raws.len() == 0 {
        raws
    } else {
        let prev = json_kept(raws.drop_last());
        if json_ok(raws.last()) {
            prev.push(raws.last())
        } else {
            prev
        }
    }
}

fn add_tags(b: BookmarkBuilder, ts: &Vec<String>) -> (r: BookmarkBuilder)
    ensures
        r == (BookmarkBuilder { tags: r.tags, ..b }),
        r.tags.deep_view() == tags_added(b.tags.deep_view(), ts.deep_view()),
{
    let ghost all = ts.deep_view();
    let mut cur = b;
    let mut i: usize = 0;
    while i < ts.len()
        invariant
            all == ts.deep_view(),
            i <= all.len(),
            cur == (BookmarkBuilder { tags: cur.tags, ..b }),
            cur.tags.deep_view() == tags_added(b.tags.deep_view(), all.subrange(0, i as int)),
        decreases all.len() - i,
    {
        assert(all.subrange(0, i + 1).drop_last() =~= all.subrange(0, i as int));
        assert(all[i as int] == ts@[i as int]@);
        cur = cur.add_tag(ts[i].as_str());
        i = i + 1;
    }
    assert(all.subrange(0, all.len() as int) =~= all);
    cur
}

fn add_raw_media(b: BookmarkBuilder, ms: &Vec<RawMedia>) -> (r: BookmarkBuilder)
    ensures
        r == (BookmarkBuilder { media: r.media, ..b }),
        media_view(r.media@) == media_view(b.media@) + media_of_urls(json_media_urls(ms@)),
{
    let mut cur = b;
    let mut i: usize = 0;
    assert(media_view(b.media@) + media_of_urls(json_media_urls(ms@.subrange(0, 0))) =~= media_view(b.media@));
    while i < ms.len()
        invariant
            i <= ms@.len(),
            cur == (BookmarkBuilder { media: cur.media, ..b }),
            media_view(cur.media@) == media_view(b.media@) + media_of_urls(
                json_media_urls(ms@.subrange(0, i as int)),
            ),
        decreases ms@.len() - i,
    {
        assert(ms@.subrange(0, i + 1).drop_last() =~= ms@.subrange(0, i as int));
        let u = first_of(&ms[i].url, &ms[i].media_url);
        match u {
            Some(u) => {
                let ghost before = cur.media@;
                cur = cur.add_media(u.as_str());
                proof {
                    if u@.len() > 0 {
                        assert(cur.media@ =~= before.push(cur.media@.last()));
                        assert(media_view(cur.media@) =~= media_view(before).push(
                            (u@, media_kind_of(u@)),
                        ));
                        assert(media_of_urls(json_media_urls(ms@.subrange(0, i + 1))) =~= media_of_urls(
                            json_media_urls(ms@.subrange(0, i as int)),
                        ).push((u@, media_kind_of(u@))));
                    }
                }
            },
            None => {},
        }
        i = i + 1;
    }
    assert(ms@.subrange(0, ms@.len() as int) =~= ms@);
    cur
}

/// The kind of a URL, by its lower-cased form.
pub open spec fn media_kind_of(u: Seq<char>) -> MediaType {
    crate::models::media_kind(lower_of(u))
}

/// Parser for JSON exports.
#[derive(Clone, Copy, Debug, Default)]
pub struct JsonParser;

impl JsonParser {
    pub fn new() -> (r: JsonParser) {
        JsonParser
    }

    /// Parses a JSON-dialect date; a missing date is an error.
    pub fn parse_date(&self, s: &Option<String>) -> (r: Result<i64, Error>)
        ensures
            match s {
                None => r matches Err(Error::Other(_)),
                Some(v) => match json_time_of(v@) {
                    Some(t) => r == Ok::<i64, Error>(t),
                    None => r matches Err(Error::DateParse(m)) && m@ == v@,
                },
            },
    {
        match s {
            None => Err(Error::Other("missing date".to_string())),
            Some(v) => {
                if let Some(t) = parse_rfc3339(v.as_str()) {
                    return Ok(t);
                }
                if let Some(t) = parse_zoned(v.as_str(), "%a %b %d %H:%M:%S %z %Y") {
                    return Ok(t);
                }
                Err(Error::DateParse(v.clone()))
            }
        }
    }

    /// Converts one entry: fails when the date is missing or matches no
    /// known pattern, when the post URL is missing, or when no handle is
    /// given.
    pub fn convert_raw(&self, raw: &RawJsonBookmark) -> (r: Result<Bookmark, Error>)
        ensures
            json_ok(*raw) ==> (r matches Ok(b) && json_record(*raw, json_time_of(json_date(*raw)->0@)->0, b)),
            !json_ok(*raw) ==> r is Err,
            json_date(*raw) is None ==> r matches Err(Error::Other(_)),
            json_date(*raw) is Some && json_time_of(json_date(*raw)->0@) is None ==> r matches Err(Error::DateParse(_)),
            json_date(*raw) is Some && json_time_of(json_date(*raw)->0@) is Some && first_text(
                raw.tweet_url,
                raw.url,
            ) is None ==> r matches Err(Error::Other(_)),
            json_date(*raw) is Some && json_time_of(json_date(*raw)->0@) is Some && first_text(
                raw.tweet_url,
                raw.url,
            ) is Some && json_handle_field(*raw) is None ==> r == Err::<Bookmark, Error>(
                Error::Build(BuildError::MissingAuthorHandle),
            ),
    {
        let date = first_of(&raw.tweeted_at, &raw.created_at);
        let tweeted_at = match self.parse_date(&date) {
            Ok(t) => t,
            Err(e) => return Err(e),
        };
        let tweet_url = match first_of(&raw.tweet_url, &raw.url) {
            Some(u) => u,
            None => return Err(Error::Other("missing tweet URL".to_string())),
        };
        let handle = first_of(&first_of(&raw.screen_name, &raw.author_handle), &raw.username);
        let name = match first_of(&first_of(&raw.name, &raw.author_name), &raw.display_name) {
            Some(n) => n,
            None => String::new(),
        };
        let content = match first_of(&first_of(&raw.full_text, &raw.text), &raw.content) {
            Some(c) => c,
            None => String::new(),
        };
        let note = match &raw.note_tweet_text {
            Some(n) => n.clone(),
            None => String::new(),
        };
        let mut builder = BookmarkBuilder::new().tweet_url(tweet_url.as_str()).content(
            content.as_str(),
        ).note_text(note.as_str()).tweeted_at(tweeted_at).author_name(name.as_str());
        if let Some(h) = &handle {
            builder = builder.author_handle(h.as_str());
        }
        if let Some(img) = first_of(&raw.profile_image_url_https, &raw.profile_image) {
            builder = builder.author_profile_image(img.as_str());
        }
        assert(builder.tags.deep_view() =~= Seq::<Seq<char>>::empty());
        assert(builder.media@ =~= Seq::<Media>::empty());
        assert(media_view(Seq::<Media>::empty()) =~= Seq::<(Seq<char>, MediaType)>::empty());
        if let Some(ts) = &raw.tags {
            builder = add_tags(builder, ts);
        }
        if let Some(ms) = &raw.media {
            builder = add_raw_media(builder, ms);
            assert(media_view(Seq::<Media>::empty()) + media_of_urls(json_media_urls(ms@))
                =~= media_of_urls(json_media_urls(ms@)));
        }
        match builder.build() {
            Ok(b) => Ok(b),
            Err(e) => Err(Error::Build(e)),
        }
    }

    /// Converts every entry; an entry that fails is skipped and the others
    /// are kept in order.
    pub fn parse(&self, entries: &Vec<RawJsonBookmark>) -> (r: Vec<Bookmark>)
        ensures
            r@.len() == json_kept(entries@).len(),
            forall|j: int|
                0 <= j < r@.len() ==> {
                    let raw = #[trigger] json_kept(entries@)[j];
                    json_record(raw, json_time_of(json_date(raw)->0@)->0, r@[j])
                },
    {
        let mut out: Vec<Bookmark> = Vec::new();
        let mut i: usize = 0;
        while i < entries.len()
            invariant
                i <= entries@.len(),
                out@.len() == json_kept(entries@.subrange(0, i as int)).len(),
                forall|j: int|
                    0 <= j < out@.len() ==> {
                        let raw = #[trigger] json_kept(entries@.subrange(0, i as int))[j];
                        json_record(raw, json_time_of(json_date(raw)->0@)->0, out@[j])
                    },
            decreases entries@.len() - i,
        {
            assert(entries@.subrange(0, i + 1).drop_last() =~= entries@.subrange(0, i as int));
            match self.convert_raw(&entries[i]) {
                Ok(b) => {
                    out.push(b);
                },
                Err(_) => {},
            }
            i = i + 1;
        }
        assert(entries@.subrange(0, entries@.len() as int) =~= entries@);
        out
    }
}

} // verus!
