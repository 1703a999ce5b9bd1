//! The two CSV dialects: detection by header row, and positional parsing of
//! each record into a canonical bookmark.
//!
//! Legacy columns: post date, poster name, avatar URL, profile URL, handle,
//! post URL, text, comma-separated tags, comment, semicolon-separated media.
//! New columns: avatar URL, handle, name, text, note text, timestamp, post URL.
use vstd::prelude::*;

use crate::dates::{
    clean, cleaned, legacy_time_of, new_time_of, parse_naive, parse_rfc3339,
};
use crate::error::Error;
use crate::models::{
    media_kind, MediaType, search_blob, set_unless_empty, Bookmark, BookmarkBuilder, Media,
};
use crate::text::{
    join_spec, join_with, lower_of, lowercase, seq_contains, split_on, split_spec, trim, trim_of,
    contains_str,
};

verus! {

/// What the `csv` crate reads from a text, record by record (the header
/// row first): the fields of each record, or `None` for one it cannot read.
pub uninterp spec fn csv_records_of(s: Seq<char>) -> Seq<Option<Seq<Seq<char>>>>;

/// Relies on `csv::ReaderBuilder` and `Reader::records` (no header
/// handling, records of any length): each record's fields in order, or
/// `None` where the reader reported an error for that record.
#[verifier::external_body]
pub(crate) fn read_csv_records(data: &str) -> (r: Vec<Option<Vec<String>>>)
    ensures
        r@.len() == csv_records_of(data@).len(),
        forall|i: int|
            0 <= i < r@.len() ==> match #[trigger] r@[i] {
                Some(v) => csv_records_of(data@)[i] == Some(v.deep_view()),
                None => csv_records_of(data@)[i] is None,
            },
{
    let mut reader = csv::ReaderBuilder::new().has_headers(false).flexible(true).from_reader(
        data.as_bytes(),
    );
    reader.records().map(|rec| rec.ok().map(|fields| fields.iter().map(|f| f.to_string()).collect())).collect()
}

/// The fields of the readable records, in order.
pub open spec fn readable(recs: Seq<Option<Seq<Seq<char>>>>) -> Seq<Seq<Seq<char>>>
    decreases recs.len(),
{
    if recs.len() == 0 {
        Seq::<Seq<Seq<char>>>::empty()
    } else {
        let prev = readable(recs.drop_last());
        match recs.last() {
            Some(v) => prev.push(v),
            None => prev,
        }
    }
}

/// The table a CSV text yields: its header row followed by its readable
/// records; `None` when the header row itself cannot be read.
pub open spec fn csv_table(s: Seq<char>) -> Option<Seq<Seq<Seq<char>>>> {
    let recs = csv_records_of(s);
    if recs.len() == 0 {
        Some(Seq::<Seq<Seq<char>>>::empty())
    } else {
        match recs[0] {
            Some(h) => Some(seq![h] + readable(recs.drop_first())),
            None => None,
        }
    }
}

fn copy_row(v: &Vec<String>) -> (r: Vec<String>)
    ensures
        r.deep_view() == v.deep_view(),
{
    let mut out: Vec<String> = Vec::new();
    let mut i: usize = 0;
    while i < v.len()
        invariant
            i <= v@.len(),
            out@.len() == i,
            forall|k: int| 0 <= k < i ==> out@[k]@ == v@[k]@,
        decreases v@.len() - i,
    {
        out.push(v[i].clone());
        i = i + 1;
    }
    assert(out.deep_view() =~= v.deep_view());
    out
}

/// Reads a CSV text into its table; a record that cannot be read is
/// skipped, and only an unreadable header row fails.
pub fn read_csv_table(data: &str) -> (r: Option<Vec<Vec<String>>>)
    ensures
        match r {
            Some(t) => csv_table(data@) == Some(t.deep_view()),
            None => csv_table(data@) is None,
        },
{
    let recs = read_csv_records(data);
    let ghost all = csv_records_of(data@);
    let mut table: Vec<Vec<String>> = Vec::new();
    if recs.len() == 0 {
        assert(table.deep_view() =~= Seq::<Seq<Seq<char>>>::empty());
        return Some(table);
    }
    match &recs[0] {
        Some(h) => {
            table.push(copy_row(h));
        },
        None => {
            assert(all[0] is None);
            return None;
        },
    }
    let ghost head = table.deep_view();
    let ghost rest = all.drop_first();
    let mut i: usize = 1;
    assert(rest.subrange(0, 0) =~= Seq::<Option<Seq<Seq<char>>>>::empty());
    assert(head + readable(rest.subrange(0, 0)) =~= head);
    while i < recs.len()
        invariant
            all == csv_records_of(data@),
            recs@.len() == all.len(),
            rest == all.drop_first(),
            forall|k: int|
                0 <= k < recs@.len() ==> match #[trigger] recs@[k] {
                    Some(v) => all[k] == Some(v.deep_view()),
                    None => all[k] is None,
                },
            1 <= i <= recs@.len(),
            table.deep_view() == head + readable(rest.subrange(0, i - 1)),
        decreases recs@.len() - i,
    {
        assert(rest.subrange(0, i as int).drop_last() =~= rest.subrange(0, i - 1));
        assert(rest[i - 1] == all[i as int]);
        let ghost before = table.deep_view();
        match &recs[i] {
            Some(v) => {
                table.push(copy_row(v));
                assert(table.deep_view() =~= before.push(v.deep_view()));
            },
            None => {},
        }
        i = i + 1;
    }
    assert(rest.subrange(0, rest.len() as int) =~= rest);
    assert(head =~= seq![all[0]->0]);
    Some(table)
}

/// The CSV dialect of an export.
#[derive(Clone, Copy, Debug, PartialEq, Eq, Structural)]
pub enum CsvFormat {
    /// Date- and poster-centric columns ("Tweet Date", "Posted By").
    Legacy,
    /// Handle- and timestamp-centric columns ("screen_name", "tweeted_at").
    New,
}

/// The dialect that a lower-cased, comma-joined header row indicates.
pub open spec fn csv_dialect(h: Seq<char>) -> Option<CsvFormat> {
    if seq_contains(h, "tweet date"@) || seq_contains(h, "posted by"@) {
        Some(CsvFormat::Legacy)
    } else if seq_contains(h, "screen_name"@) || seq_contains(h, "tweeted_at"@) {
        Some(CsvFormat::New)
    } else {
        None
    }
}

/// The header row as it is matched: joined with commas, lower-cased.
pub open spec fn header_text(headers: Seq<Seq<char>>) -> Seq<char> {
    lower_of(join_spec(headers, ","@))
}

/// A header row that names a legacy marker is legacy; otherwise one that
/// names a new-dialect marker is new; one that names neither is undetected.
pub proof fn lemma_detection_markers(h: Seq<char>)
    ensures
        seq_contains(h, "tweet date"@) || seq_contains(h, "posted by"@) ==> csv_dialect(h) == Some(
            CsvFormat::Legacy,
        ),
        !(seq_contains(h, "tweet date"@) || seq_contains(h, "posted by"@)) && (seq_contains(
            h,
            "screen_name"@,
        ) || seq_contains(h, "tweeted_at"@)) ==> csv_dialect(h) == Some(CsvFormat::New),
        !seq_contains(h, "tweet date"@) && !seq_contains(h, "posted by"@) && !seq_contains(
            h,
            "screen_name"@,
        ) && !seq_contains(h, "tweeted_at"@) ==> csv_dialect(h) is None,
{
}

impl CsvFormat {
    /// Classifies a lower-cased, comma-joined header row.
    pub fn classify(lower_headers: &str) -> (r: Option<CsvFormat>)
        ensures
            r == csv_dialect(lower_headers@),
    {
        if contains_str(lower_headers, "tweet date") || contains_str(lower_headers, "posted by") {
            Some(CsvFormat::Legacy)
        } else if contains_str(lower_headers, "screen_name") || contains_str(
            lower_headers,
            "tweeted_at",
        ) {
            Some(CsvFormat::New)
        } else {
            None
        }
    }

    /// Detects the dialect from the header row; fails with `InvalidFormat`
    /// carrying the matched header text when no marker is present.
    pub fn detect(headers: &Vec<String>) -> (r: Result<CsvFormat, Error>)
        ensures
            match csv_dialect(header_text(headers.deep_view())) {
                Some(f) => r == Ok::<CsvFormat, Error>(f),
                None => r matches Err(Error::InvalidFormat(m)) && m@ == header_text(
                    headers.deep_view(),
                ),
            },
    {
        let joined = join_with(headers, ",");
        let lower = lowercase(joined.as_str());
        match CsvFormat::classify(lower.as_str()) {
            Some(f) => Ok(f),
            None => Err(Error::InvalidFormat(lower)),
        }
    }
}

/// The field at position `i`, or the empty text when the record is shorter.
pub open spec fn field_of(rec: Seq<Seq<char>>, i: int) -> Seq<char> {
    if 0 <= i < rec.len() {
        rec[i]
    } else {
        Seq::<char>::empty()
    }
}

fn field(rec: &Vec<String>, i: usize) -> (r: &str)
    ensures
        r@ == field_of(rec.deep_view(), i as int),
{
    if i < rec.len() {
        assert(rec.deep_view()[i as int] == rec@[i as int]@);
        rec[i].as_str()
    } else {
        proof {
            reveal_strlit("");
        }
        assert(""@ =~= Seq::<char>::empty());
        ""
    }
}

/// The tag list after `add_tag(t)`.
pub open spec fn with_tag(tags: Seq<Seq<char>>, t: Seq<char>) -> Seq<Seq<char>> {
    if t.len() > 0 && !tags.contains(t) {
        tags.push(t)
    } else {
        tags
    }
}

/// The tags that the trimmed pieces add, one after another, to `start`.
pub open spec fn tags_from(start: Seq<Seq<char>>, pieces: Seq<Seq<char>>) -> Seq<Seq<char>>
    decreases pieces.len(),
{
    if pieces.len() == 0 {
        start
    } else {
        with_tag(tags_from(start, pieces.drop_last()), trim_of(pieces.last()))
    }
}

/// The trimmed, non-empty pieces in order.
pub open spec fn urls_from(pieces: Seq<Seq<char>>) -> Seq<Seq<char>>
    decreases pieces.len(),
{
    if pieces.len() == 0 {
        Seq::<Seq<char>>::empty()
    } else {
        let prev = urls_from(pieces.drop_last());
        let u = trim_of(pieces.last());
        if u.len() > 0 {
            prev.push(u)
        } else {
            prev
        }
    }
}

/// A media list as URL texts and kinds.
pub open spec fn media_view(m: Seq<Media>) -> Seq<(Seq<char>, MediaType)> {
    m.map_values(|x: Media| (x.url@, x.media_type))
}

/// The attachments that a list of URLs yields.
pub open spec fn media_of_urls(urls: Seq<Seq<char>>) -> Seq<(Seq<char>, MediaType)> {
    urls.map_values(|u: Seq<char>| (u, media_kind(lower_of(u))))
}

/// The tags of a legacy tag field.
pub open spec fn legacy_tags(f: Seq<char>) -> Seq<Seq<char>> {
    if f.len() == 0 {
        Seq::<Seq<char>>::empty()
    } else {
        tags_from(Seq::<Seq<char>>::empty(), split_spec(f, ','))
    }
}

/// The media URLs of a legacy media field.
pub open spec fn legacy_media(f: Seq<char>) -> Seq<Seq<char>> {
    if f.len() == 0 {
        Seq::<Seq<char>>::empty()
    } else {
        urls_from(split_spec(f, ';'))
    }
}

/// A display name, or the handle when the name is empty.
pub open spec fn name_or_handle(name: Seq<char>, handle: Seq<char>) -> Seq<char> {
    if name.len() == 0 {
        handle
    } else {
        name
    }
}

/// `b` is the record that a legacy row with post time `t` describes.
pub open spec fn legacy_record(rec: Seq<Seq<char>>, t: i64, b: Bookmark) -> bool {
    &&& b.tweet_url@ == field_of(rec, 5)
    &&& b.content@ == field_of(rec, 6)
    &&& b.tweeted_at == t
    &&& b.author_handle@ == field_of(rec, 4)
    &&& b.author_name@ == name_or_handle(field_of(rec, 1), field_of(rec, 4))
    &&& set_unless_empty(None, b.author_profile_url, field_of(rec, 3))
    &&& set_unless_empty(None, b.author_profile_image, field_of(rec, 2))
    &&& set_unless_empty(None, b.comments, field_of(rec, 8))
    &&& b.note_text is None
    &&& b.tags.deep_view() == legacy_tags(field_of(rec, 7))
    &&& media_view(b.media@) == media_of_urls(legacy_media(field_of(rec, 9)))
    &&& !b.is_favorite
    &&& b.search_text@ == search_blob(b)
}

/// `b` is the record that a new-dialect row with post time `t` describes.
pub open spec fn new_record(rec: Seq<Seq<char>>, t: i64, b: Bookmark) -> bool {
    &&& b.tweet_url@ == field_of(rec, 6)
    &&& b.content@ == field_of(rec, 3)
    &&& b.tweeted_at == t
    &&& b.author_handle@ == field_of(rec, 1)
    &&& b.author_name@ == name_or_handle(field_of(rec, 2), field_of(rec, 1))
    &&& set_unless_empty(None, b.note_text, field_of(rec, 4))
    &&& set_unless_empty(None, b.author_profile_image, field_of(rec, 0))
    &&& b.author_profile_url is None
    &&& b.comments is None
    &&& b.tags@.len() == 0
    &&& b.media@.len() == 0
    &&& !b.is_favorite
    &&& b.search_text@ == search_blob(b)
}

/// The legacy rows whose date parses, in order.
pub open spec fn legacy_kept(rows: Seq<Seq<Seq<char>>>) -> Seq<Seq<Seq<char>>>
    decreases rows.len(),
{
    if rows.len() == 0 {
        rows
    } else {
        let prev = legacy_kept(rows.drop_last());
        if legacy_time_of(field_of(rows.last(), 0)) is Some {
            prev.push(rows.last())
        } else {
            prev
        }
    }
}

/// The new-dialect rows whose date parses, in order.
pub open spec fn new_kept(rows: Seq<Seq<Seq<char>>>) -> Seq<Seq<Seq<char>>>
    decreases rows.len(),
{
    if rows.len() == 0 {
        rows
    } else {
        let prev = new_kept(rows.drop_last());
        if new_time_of(field_of(rows.last(), 5)) is Some {
            prev.push(rows.last())
        } else {
            prev
        }
    }
}

/// Parser for the legacy dialect.
#[derive(Clone, Copy, Debug, Default)]
pub struct LegacyCsvParser;

/// Parser for the new dialect.
#[derive(Clone, Copy, Debug, Default)]
pub struct NewCsvParser;

/// Adds each trimmed piece of `f` split at commas as a tag.
fn add_split_tags(b: BookmarkBuilder, f: &str) -> (r: BookmarkBuilder)
    ensures
        r == (BookmarkBuilder { tags: r.tags, ..b }),
        r.tags.deep_view() == tags_from(b.tags.deep_view(), split_spec(f@, ',')),
{
    let pieces = split_on(f, ',');
    let ghost ps = pieces.deep_view();
    let mut cur = b;
    let mut i: usize = 0;
    while i < pieces.len()
        invariant
            ps == pieces.deep_view(),
            ps == split_spec(f@, ','),
            i <= ps.len(),
            cur == (BookmarkBuilder { tags: cur.tags, ..b }),
            cur.tags.deep_view() == tags_from(b.tags.deep_view(), ps.subrange(0, i as int)),
        decreases ps.len() - i,
    {
        assert(ps.subrange(0, i + 1).drop_last() =~= ps.subrange(0, i as int));
        assert(ps[i as int] == pieces@[i as int]@);
        let t = trim(pieces[i].as_str());
        cur = cur.add_tag(t.as_str());
        i = i + 1;
    }
    assert(ps.subrange(0, ps.len() as int) =~= ps);
    cur
}

/// Adds each trimmed, non-empty piece of `f` split at semicolons as a media
/// attachment.
fn add_split_media(b: BookmarkBuilder, f: &str) -> (r: BookmarkBuilder)
    ensures
        r == (BookmarkBuilder { media: r.media, ..b }),
        media_view(r.media@) == media_view(b.media@) + media_of_urls(urls_from(split_spec(f@, ';'))),
{
    let pieces = split_on(f, ';');
    let ghost ps = pieces.deep_view();
    let mut cur = b;
    let mut i: usize = 0;
    assert(media_view(b.media@) + media_of_urls(urls_from(ps.subrange(0, 0))) =~= media_view(b.media@));
    while i < pieces.len()
        invariant
            ps == pieces.deep_view(),
            ps == split_spec(f@, ';'),
            i <= ps.len(),
            cur == (BookmarkBuilder { media: cur.media, ..b }),
            media_view(cur.media@) == media_view(b.media@) + media_of_urls(
                urls_from(ps.subrange(0, i as int)),
            ),
        decreases ps.len() - i,
    {
        assert(ps.subrange(0, i + 1).drop_last() =~= ps.subrange(0, i as int));
        assert(ps[i as int] == pieces@[i as int]@);
        let u = trim(pieces[i].as_str());
        let ghost before = cur.media@;
        cur = cur.add_media(u.as_str());
        proof {
            if u@.len() > 0 {
                assert(cur.media@ =~= before.push(cur.media@.last()));
                assert(media_view(cur.media@) =~= media_view(before).push(
                    (u@, media_kind(lower_of(u@))),
                ));
                assert(media_of_urls(urls_from(ps.subrange(0, i + 1))) =~= media_of_urls(
                    urls_from(ps.subrange(0, i as int)),
                ).push((u@, media_kind(lower_of(u@)))));
            }
        }
        i = i + 1;
    }
    assert(ps.subrange(0, ps.len() as int) =~= ps);
    cur
}

impl LegacyCsvParser {
    pub fn new() -> (r: LegacyCsvParser) {
        LegacyCsvParser
    }

    /// Parses a legacy-dialect date such as "02:51 PM, May 01, 2024".
    pub fn parse_legacy_date(&self, s: &str) -> (r: Result<i64, Error>)
        ensures
            match legacy_time_of(s@) {
                Some(t) => r == Ok::<i64, Error>(t),
                None => r matches Err(Error::DateParse(m)) && m@ == cleaned(s@),
            },
    {
        let c = clean(s);
        if let Some(t) = parse_naive(c.as_str(), "%I:%M %p, %b %d, %Y") {
            return Ok(t);
        }
        if let Some(t) = parse_naive(c.as_str(), "%b %d, %Y %I:%M %p") {
            return Ok(t);
        }
        if let Some(t) = parse_rfc3339(c.as_str()) {
            return Ok(t);
        }
        Err(Error::DateParse(c))
    }

    /// Parses one record by position; fails only when the date matches no
    /// known pattern.
    pub fn parse_record(&self, rec: &Vec<String>) -> (r: Result<Bookmark, Error>)
        ensures
            match legacy_time_of(field_of(rec.deep_view(), 0)) {
                Some(t) => r matches Ok(b) && legacy_record(rec.deep_view(), t, b),
                None => r matches Err(Error::DateParse(_)),
            },
    {
        let tweeted_at = match self.parse_legacy_date(field(rec, 0)) {
            Ok(t) => t,
            Err(e) => return Err(e),
        };
        let mut builder = BookmarkBuilder::new().tweet_url(field(rec, 5)).content(
            field(rec, 6),
        ).tweeted_at(tweeted_at).author_handle(field(rec, 4)).author_name(
            field(rec, 1),
        ).author_profile_url(field(rec, 3)).author_profile_image(field(rec, 2)).comments(
            field(rec, 8),
        );
        assert(builder.tags.deep_view() =~= Seq::<Seq<char>>::empty());
        assert(builder.media@ =~= Seq::<Media>::empty());
        let tags = field(rec, 7);
        if tags.unicode_len() > 0 {
            builder = add_split_tags(builder, tags);
        }
        let media = field(rec, 9);
        if media.unicode_len() > 0 {
            builder = add_split_media(builder, media);
        }
        assert(media_view(Seq::<Media>::empty()) + media_of_urls(
            legacy_media(field_of(rec.deep_view(), 9)),
        ) =~= media_of_urls(legacy_media(field_of(rec.deep_view(), 9))));
        assert(media_view(Seq::<Media>::empty()) =~= Seq::<(Seq<char>, MediaType)>::empty());
        match builder.build() {
            Ok(b) => Ok(b),
            Err(e) => Err(Error::Build(e)),
        }
    }

    /// Parses every record (header row excluded); a record that fails is
    /// skipped and the others are kept in order.
    pub fn parse(&self, records: &Vec<Vec<String>>) -> (r: Vec<Bookmark>)
        ensures
            r@.len() == legacy_kept(records.deep_view()).len(),
            forall|j: int|
                0 <= j < r@.len() ==> {
                    let rec = #[trigger] legacy_kept(records.deep_view())[j];
                    legacy_record(rec, legacy_time_of(field_of(rec, 0))->0, r@[j])
                },
    {
        let ghost rows = records.deep_view();
        let mut out: Vec<Bookmark> = Vec::new();
        let mut i: usize = 0;
        while i < records.len()
            invariant
                rows == records.deep_view(),
                i <= rows.len(),
                out@.len() == legacy_kept(rows.subrange(0, i as int)).len(),
                forall|j: int|
                    0 <= j < out@.len() ==> {
                        let rec = #[trigger] legacy_kept(rows.subrange(0, i as int))[j];
                        legacy_record(rec, legacy_time_of(field_of(rec, 0))->0, out@[j])
                    },
            decreases rows.len() - i,
        {
            assert(rows.subrange(0, i + 1).drop_last() =~= rows.subrange(0, i as int));
            assert(rows[i as int] == records@[i as int].deep_view());
            match self.parse_record(&records[i]) {
                Ok(b) => {
                    out.push(b);
                },
                Err(_) => {},
            }
            i = i + 1;
        }
        assert(rows.subrange(0, rows.len() as int) =~= rows);
        out
    }
}

impl NewCsvParser {
    pub fn new() -> (r: NewCsvParser) {
        NewCsvParser
    }

    /// Parses a new-dialect date such as "2025-08-25T10:52:35.000Z".
    pub fn parse_new_date(&self, s: &str) -> (r: Result<i64, Error>)
        ensures
            match new_time_of(s@) {
                Some(t) => r == Ok::<i64, Error>(t),
                None => r matches Err(Error::DateParse(m)) && m@ == cleaned(s@),
            },
    {
        let c = clean(s);
        if let Some(t) = parse_rfc3339(c.as_str()) {
            return Ok(t);
        }
        if let Some(t) = parse_naive(c.as_str(), "%Y-%m-%dT%H:%M:%S%.fZ") {
            return Ok(t);
        }
        if let Some(t) = parse_naive(c.as_str(), "%Y-%m-%dT%H:%M:%S") {
            return Ok(t);
        }
        Err(Error::DateParse(c))
    }

    /// Parses one record by position; fails only when the date matches no
    /// known pattern.
    pub fn parse_record(&self, rec: &Vec<String>) -> (r: Result<Bookmark, Error>)
        ensures
            match new_time_of(field_of(rec.deep_view(), 5)) {
                Some(t) => r matches Ok(b) && new_record(rec.deep_view(), t, b),
                None => r matches Err(Error::DateParse(_)),
            },
    {
        let tweeted_at = match self.parse_new_date(field(rec, 5)) {
            Ok(t) => t,
            Err(e) => return Err(e),
        };
        let builder = BookmarkBuilder::new().tweet_url(field(rec, 6)).content(
            field(rec, 3),
        ).note_text(field(rec, 4)).tweeted_at(tweeted_at).author_handle(
            field(rec, 1),
        ).author_name(field(rec, 2)).author_profile_image(field(rec, 0));
        match builder.build() {
            Ok(b) => Ok(b),
            Err(e) => Err(Error::Build(e)),
        }
    }

    /// Parses every record (header row excluded); a record that fails is
    /// skipped and the others are kept in order.
    pub fn parse(&self, records: &Vec<Vec<String>>) -> (r: Vec<Bookmark>)
        ensures
            r@.len() == new_kept(records.deep_view()).len(),
            forall|j: int|
                0 <= j < r@.len() ==> {
                    let rec = #[trigger] new_kept(records.deep_view())[j];
                    new_record(rec, new_time_of(field_of(rec, 5))->0, r@[j])
                },
    {
        let ghost rows = records.deep_view();
        let mut out: Vec<Bookmark> = Vec::new();
        let mut i: usize = 0;
        while i < records.len()
            invariant
                rows == records.deep_view(),
                i <= rows.len(),
                out@.len() == new_kept(rows.subrange(0, i as int)).len(),
                forall|j: int|
                    0 <= j < out@.len() ==> {
                        let rec = #[trigger] new_kept(rows.subrange(0, i as int))[j];
                        new_record(rec, new_time_of(field_of(rec, 5))->0, out@[j])
                    },
            decreases rows.len() - i,
        {
            assert(rows.subrange(0, i + 1).drop_last() =~= rows.subrange(0, i as int));
            assert(rows[i as int] == records@[i as int].deep_view());
            match self.parse_record(&records[i]) {
                Ok(b) => {
                    out.push(b);
                },
                Err(_) => {},
            }
            i = i + 1;
        }
        assert(rows.subrange(0, rows.len() as int) =~= rows);
        out
    }
}

} // verus!
