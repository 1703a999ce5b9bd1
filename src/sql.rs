//! The relational side of the store that involves no I/O: the values bound
//! to statements and read back from rows, the record codec, the full-text
//! query syntax and the filtered-query composer.
use vstd::prelude::*;

use crate::models::{Bookmark, Media, MediaType};
use crate::text::{join_spec, join_with, split_words, trim, trim_of, words_of};

verus! {

/// A value bound to a statement or read from a column.
#[derive(Clone, Debug, PartialEq)]
pub enum SqlValue {
    Null,
    Integer(i64),
    Text(String),
}

/// The storage class a column is read as.
#[derive(Clone, Copy, Debug, PartialEq, Eq, Structural)]
pub enum ColumnKind {
    Integer,
    Text,
}

/// A bound value as plain data.
pub enum SqlArg {
    Null,
    Int(int),
    Str(Seq<char>),
}

pub open spec fn arg_of(v: SqlValue) -> SqlArg {
    match v {
        SqlValue::Null => SqlArg::Null,
        SqlValue::Integer(i) => SqlArg::Int(i as int),
        SqlValue::Text(s) => SqlArg::Str(s@),
    }
}

pub open spec fn args_of(vs: Seq<SqlValue>) -> Seq<SqlArg> {
    vs.map_values(|v: SqlValue| arg_of(v))
}

/// An optional text as a value: the text, or NULL.
pub open spec fn opt_value(o: Option<String>) -> SqlValue {
    match o {
        Some(s) => SqlValue::Text(s),
        None => SqlValue::Null,
    }
}

/// The values bound when a record is inserted, in column order: id, URL,
/// content, note, post time, import time, handle, name, profile URL, avatar
/// URL, comment, favorite flag.
pub open spec fn row_of(b: Bookmark) -> Seq<SqlValue> {
    seq![
        SqlValue::Text(b.id),
        SqlValue::Text(b.tweet_url),
        SqlValue::Text(b.content),
        opt_value(b.note_text),
        SqlValue::Integer(b.tweeted_at),
        SqlValue::Integer(b.imported_at),
        SqlValue::Text(b.author_handle),
        SqlValue::Text(b.author_name),
        opt_value(b.author_profile_url),
        opt_value(b.author_profile_image),
        opt_value(b.comments),
        SqlValue::Integer(if b.is_favorite { 1 } else { 0 }),
    ]
}

fn opt_to_value(o: &Option<String>) -> (r: SqlValue)
    ensures
        r == opt_value(*o),
{
    match o {
        Some(s) => SqlValue::Text(s.clone()),
        None => SqlValue::Null,
    }
}

/// The values to bind when inserting `b`.
pub fn bookmark_row(b: &Bookmark) -> (r: Vec<SqlValue>)
    ensures
        r@ == row_of(*b),
{
    let mut v: Vec<SqlValue> = Vec::new();
    v.push(SqlValue::Text(b.id.clone()));
    v.push(SqlValue::Text(b.tweet_url.clone()));
    v.push(SqlValue::Text(b.content.clone()));
    v.push(opt_to_value(&b.note_text));
    v.push(SqlValue::Integer(b.tweeted_at));
    v.push(SqlValue::Integer(b.imported_at));
    v.push(SqlValue::Text(b.author_handle.clone()));
    v.push(SqlValue::Text(b.author_name.clone()));
    v.push(opt_to_value(&b.author_profile_url));
    v.push(opt_to_value(&b.author_profile_image));
    v.push(opt_to_value(&b.comments));
    v.push(SqlValue::Integer(if b.is_favorite { 1 } else { 0 }));
    assert(v@ =~= row_of(*b));
    v
}

/// The column kinds of a record row, in the order of `row_of`.
pub fn bookmark_columns() -> (r: Vec<ColumnKind>)
    ensures
        r@.len() == 12,
{
    let mut v: Vec<ColumnKind> = Vec::new();
    v.push(ColumnKind::Text);
    v.push(ColumnKind::Text);
    v.push(ColumnKind::Text);
    v.push(ColumnKind::Text);
    v.push(ColumnKind::Integer);
    v.push(ColumnKind::Integer);
    v.push(ColumnKind::Text);
    v.push(ColumnKind::Text);
    v.push(ColumnKind::Text);
    v.push(ColumnKind::Text);
    v.push(ColumnKind::Text);
    v.push(ColumnKind::Integer);
    v
}

/// The text in column `i`, when it holds one.
pub open spec fn text_at(row: Seq<SqlValue>, i: int) -> Option<String> {
    if 0 <= i < row.len() && row[i] is Text {
        Some(row[i]->Text_0)
    } else {
        None
    }
}

/// Column `i` as an optional text: a text, or NULL.
pub open spec fn opt_text_at(row: Seq<SqlValue>, i: int) -> Option<Option<String>> {
    if 0 <= i < row.len() && row[i] is Text {
        Some(Some(row[i]->Text_0))
    } else if 0 <= i < row.len() && row[i] is Null {
        Some(None)
    } else {
        None
    }
}

/// The integer in column `i`, when it holds one.
pub open spec fn int_at(row: Seq<SqlValue>, i: int) -> Option<i64> {
    if 0 <= i < row.len() && row[i] is Integer {
        Some(row[i]->Integer_0)
    } else {
        None
    }
}

/// Every column of a record row holds a value of its kind.
pub open spec fn row_decodes(row: Seq<SqlValue>) -> bool {
    &&& text_at(row, 0) is Some
    &&& text_at(row, 1) is Some
    &&& text_at(row, 2) is Some
    &&& opt_text_at(row, 3) is Some
    &&& int_at(row, 4) is Some
    &&& int_at(row, 5) is Some
    &&& text_at(row, 6) is Some
    &&& text_at(row, 7) is Some
    &&& opt_text_at(row, 8) is Some
    &&& opt_text_at(row, 9) is Some
    &&& opt_text_at(row, 10) is Some
}

/// The scalar fields of `b` are those that `row` holds; a favorite flag
/// that is missing reads as false.
pub open spec fn row_fits(row: Seq<SqlValue>, b: Bookmark) -> bool {
    &&& text_at(row, 0) == Some(b.id)
    &&& text_at(row, 1) == Some(b.tweet_url)
    &&& text_at(row, 2) == Some(b.content)
    &&& opt_text_at(row, 3) == Some(b.note_text)
    &&& int_at(row, 4) == Some(b.tweeted_at)
    &&& int_at(row, 5) == Some(b.imported_at)
    &&& text_at(row, 6) == Some(b.author_handle)
    &&& text_at(row, 7) == Some(b.author_name)
    &&& opt_text_at(row, 8) == Some(b.author_profile_url)
    &&& opt_text_at(row, 9) == Some(b.author_profile_image)
    &&& opt_text_at(row, 10) == Some(b.comments)
    &&& b.is_favorite == (int_at(row, 11) matches Some(f) && f != 0)
}

/// The two records agree on every scalar field.
pub open spec fn same_scalars(a: Bookmark, b: Bookmark) -> bool {
    &&& a.id == b.id
    &&& a.tweet_url == b.tweet_url
    &&& a.content == b.content
    &&& a.note_text == b.note_text
    &&& a.tweeted_at == b.tweeted_at
    &&& a.imported_at == b.imported_at
    &&& a.author_handle == b.author_handle
    &&& a.author_name == b.author_name
    &&& a.author_profile_url == b.author_profile_url
    &&& a.author_profile_image == b.author_profile_image
    &&& a.comments == b.comments
    &&& a.is_favorite == b.is_favorite
}

/// A record written with the values of `row_of` and read back from those
/// values has the scalar fields it was written with.
pub proof fn lemma_row_round_trip(b: Bookmark, c: Bookmark)
    requires
        row_fits(row_of(b), c),
    ensures
        row_decodes(row_of(b)),
        same_scalars(b, c),
{
}

fn text_col(row: &Vec<SqlValue>, i: usize) -> (r: Option<String>)
    ensures
        r == text_at(row@, i as int),
{
    if i < row.len() {
        match &row[i] {
            SqlValue::Text(s) => Some(s.clone()),
            _ => None,
        }
    } else {
        None
    }
}

fn opt_text_col(row: &Vec<SqlValue>, i: usize) -> (r: Option<Option<String>>)
    ensures
        r == opt_text_at(row@, i as int),
{
    if i < row.len() {
        match &row[i] {
            SqlValue::Text(s) => Some(Some(s.clone())),
            SqlValue::Null => Some(None),
            _ => None,
        }
    } else {
        None
    }
}

fn int_col(row: &Vec<SqlValue>, i: usize) -> (r: Option<i64>)
    ensures
        r == int_at(row@, i as int),
{
    if i < row.len() {
        match &row[i] {
            SqlValue::Integer(v) => Some(*v),
            _ => None,
        }
    } else {
        None
    }
}

/// Reads a record from a row, without tags, media or search blob; `None`
/// when a column does not hold a value of its kind.
pub fn row_to_bookmark(row: &Vec<SqlValue>) -> (r: Option<Bookmark>)
    ensures
        r is Some <==> row_decodes(row@),
        r matches Some(b) ==> row_fits(row@, b) && b.tags@.len() == 0 && b.media@.len() == 0
            && b.search_text@.len() == 0,
{
    let id = text_col(row, 0)?;
    let tweet_url = text_col(row, 1)?;
    let content = text_col(row, 2)?;
    let note_text = opt_text_col(row, 3)?;
    let tweeted_at = int_col(row, 4)?;
    let imported_at = int_col(row, 5)?;
    let author_handle = text_col(row, 6)?;
    let author_name = text_col(row, 7)?;
    let author_profile_url = opt_text_col(row, 8)?;
    let author_profile_image = opt_text_col(row, 9)?;
    let comments = opt_text_col(row, 10)?;
    let is_favorite = match int_col(row, 11) {
        Some(f) => f != 0,
        None => false,
    };
    Some(
        Bookmark {
            id,
            tweet_url,
            content,
            note_text,
            tweeted_at,
            imported_at,
            author_handle,
            author_name,
            author_profile_url,
            author_profile_image,
            tags: Vec::new(),
            comments,
            media: Vec::new(),
            is_favorite,
            search_text: String::new(),
        },
    )
}

/// The stored name of a media kind.
pub open spec fn code_of(t: MediaType) -> Seq<char> {
    match t {
        MediaType::Image => "image"@,
        MediaType::Video => "video"@,
        MediaType::Gif => "gif"@,
        MediaType::Unknown => "unknown"@,
    }
}

/// The media kind a stored name reads as; an unknown name reads as unknown.
pub open spec fn type_of_code(s: Seq<char>) -> MediaType {
    if s == "image"@ {
        MediaType::Image
    } else if s == "video"@ {
        MediaType::Video
    } else if s == "gif"@ {
        MediaType::Gif
    } else {
        MediaType::Unknown
    }
}

/// A media kind stored by its name reads back as the same kind.
pub proof fn lemma_media_code_round_trip(t: MediaType)
    ensures
        type_of_code(code_of(t)) == t,
{
    reveal_strlit("image");
    reveal_strlit("video");
    reveal_strlit("gif");
    reveal_strlit("unknown");
    assert("video"@[0] != "image"@[0]);
    assert("gif"@.len() != "image"@.len());
    assert("gif"@.len() != "video"@.len());
    assert("unknown"@.len() != "image"@.len());
    assert("unknown"@.len() != "video"@.len());
    assert("unknown"@.len() != "gif"@.len());
}

pub fn media_type_code(t: MediaType) -> (r: &'static str)
    ensures
        r@ == code_of(t),
{
    match t {
        MediaType::Image => "image",
        MediaType::Video => "video",
        MediaType::Gif => "gif",
        MediaType::Unknown => "unknown",
    }
}

pub fn media_type_from_code(s: &str) -> (r: MediaType)
    ensures
        r == type_of_code(s@),
{
    let owned = s.to_string();
    if owned == "image".to_string() {
        MediaType::Image
    } else if owned == "video".to_string() {
        MediaType::Video
    } else if owned == "gif".to_string() {
        MediaType::Gif
    } else {
        MediaType::Unknown
    }
}

/// Reads a media row: its URL and its stored kind name.
pub fn media_from_row(row: &Vec<SqlValue>) -> (r: Option<Media>)
    ensures
        r is Some <==> (text_at(row@, 0) is Some && text_at(row@, 1) is Some),
        r matches Some(m) ==> Some(m.url) == text_at(row@, 0) && m.media_type == type_of_code(
            text_at(row@, 1)->0@,
        ),
{
    let url = text_col(row, 0)?;
    let code = text_col(row, 1)?;
    Some(Media { url, media_type: media_type_from_code(code.as_str()) })
}

/// A word with each double quote doubled.
pub open spec fn escape_quotes(w: Seq<char>) -> Seq<char>
    decreases w.len(),
{
    if w.len() == 0 {
        w
    } else if w.last() == '"' {
        escape_quotes(w.drop_last()) + seq!['"', '"']
    } else {
        escape_quotes(w.drop_last()).push(w.last())
    }
}

/// A word as a quoted prefix-match term.
pub open spec fn fts_term(w: Seq<char>) -> Seq<char> {
    "\""@ + escape_quotes(w) + "\"*"@
}

/// The full-text query for a user's text: each whitespace-separated word as
/// a quoted prefix term, joined with spaces.
pub open spec fn fts_query(q: Seq<char>) -> Seq<char> {
    join_spec(words_of(q).map_values(|w: Seq<char>| fts_term(w)), " "@)
}

fn quote_term(w: &str) -> (r: String)
    ensures
        r@ == fts_term(w@),
{
    let n = w.unicode_len();
    let mut out = "\"".to_string();
    let mut i: usize = 0;
    while i < n
        invariant
            n == w@.len(),
            i <= n,
            out@ == "\""@ + escape_quotes(w@.subrange(0, i as int)),
        decreases n - i,
    {
        let c = w.get_char(i);
        assert(w@.subrange(0, i + 1).drop_last() =~= w@.subrange(0, i as int));
        if c == '"' {
            out.append("\"\"");
            proof {
                reveal_strlit("\"\"");
            }
            assert(out@ =~= "\""@ + escape_quotes(w@.subrange(0, i + 1)));
        } else {
            let mut one: Vec<char> = Vec::new();
            one.push(c);
            let s = crate::text::string_of(&one);
            out.append(s.as_str());
            assert(out@ =~= "\""@ + escape_quotes(w@.subrange(0, i + 1)));
        }
        i = i + 1;
    }
    assert(w@.subrange(0, n as int) =~= w@);
    out.append("\"*");
    assert(out@ =~= fts_term(w@));
    out
}

/// Turns a user's search text into a full-text query of prefix terms, with
/// the query syntax's quote character escaped.
pub fn prepare_fts_query(q: &str) -> (r: String)
    ensures
        r@ == fts_query(q@),
{
    let words = split_words(q);
    let mut terms: Vec<String> = Vec::new();
    let mut i: usize = 0;
    while i < words.len()
        invariant
            i <= words@.len(),
            words.deep_view() == words_of(q@),
            terms@.len() == i,
            forall|k: int| 0 <= k < i ==> terms@[k]@ == fts_term(words@[k]@),
        decreases words@.len() - i,
    {
        let t = quote_term(words[i].as_str());
        terms.push(t);
        i = i + 1;
    }
    assert(terms.deep_view() =~= words_of(q@).map_values(|w: Seq<char>| fts_term(w)));
    join_with(&terms, " ")
}

/// The columns of a record row, as every read selects them.
pub const RECORD_COLUMNS: &'static str = "b.id, b.tweet_url, b.content, b.note_text, b.tweeted_at, b.imported_at, b.author_handle, b.author_name, b.author_profile_url, b.author_profile_image, b.comments, b.is_favorite";

/// Which filters a filtered search applies.
#[derive(Clone, Copy, Debug, PartialEq, Eq, Structural)]
pub struct FilterShape {
    pub text: bool,
    pub tag: bool,
    pub author: bool,
    pub from: bool,
    pub to: bool,
    pub favorites_only: bool,
    pub has_media: Option<bool>,
}

/// A composed statement: its text and the values bound to its `?` marks in
/// order.
#[derive(Clone, Debug, PartialEq)]
pub struct FilterQuery {
    pub sql: String,
    pub params: Vec<SqlValue>,
}

/// Appends `s` when `c` holds.
pub open spec fn when(c: bool, s: Seq<char>) -> Seq<char> {
    if c {
        s
    } else {
        Seq::<char>::empty()
    }
}

/// The joins a shape needs.
pub open spec fn filter_joins(f: FilterShape) -> Seq<char> {
    when(f.text, " JOIN bookmarks_fts_content fc ON fc.bookmark_id = b.id JOIN bookmarks_fts fts ON fts.rowid = fc.rowid"@)
        + when(f.tag, " JOIN bookmark_tags bt ON bt.bookmark_id = b.id JOIN tags t ON t.id = bt.tag_id"@)
        + when(f.has_media == Some(true), " JOIN media m ON m.bookmark_id = b.id"@)
}

/// Adds `s` to the list when `c` holds.
pub open spec fn push_when(l: Seq<Seq<char>>, c: bool, s: Seq<char>) -> Seq<Seq<char>> {
    if c {
        l.push(s)
    } else {
        l
    }
}

/// The predicates of a shape, in order; every user value is a `?` mark.
pub open spec fn filter_conditions(f: FilterShape) -> Seq<Seq<char>> {
    let c0 = push_when(Seq::<Seq<char>>::empty(), f.text, "bookmarks_fts MATCH ?"@);
    let c1 = push_when(c0, f.tag, "t.name = ?"@);
    let c2 = push_when(c1, f.author, "b.author_handle = ?"@);
    let c3 = push_when(c2, f.from, "b.tweeted_at >= ?"@);
    let c4 = push_when(c3, f.to, "b.tweeted_at <= ?"@);
    let c5 = push_when(c4, f.favorites_only, "b.is_favorite = 1"@);
    push_when(c5, f.has_media == Some(false), "NOT EXISTS (SELECT 1 FROM media m WHERE m.bookmark_id = b.id)"@)
}

/// The statement text of a shape: predicates combined with AND, newest
/// first, full-text matches ranked by relevance first.
pub open spec fn filter_sql(f: FilterShape) -> Seq<char> {
    let conds = filter_conditions(f);
    "SELECT DISTINCT "@ + RECORD_COLUMNS@ + " FROM bookmarks b"@ + filter_joins(f) + when(
        conds.len() > 0,
        " WHERE "@ + join_spec(conds, " AND "@),
    ) + (if f.text {
        " ORDER BY bm25(bookmarks_fts), b.tweeted_at DESC"@
    } else {
        " ORDER BY b.tweeted_at DESC"@
    }) + " LIMIT ?"@
}

/// Adds `a` to the list when `c` holds.
pub open spec fn arg_when(l: Seq<SqlArg>, c: bool, a: SqlArg) -> Seq<SqlArg> {
    if c {
        l.push(a)
    } else {
        l
    }
}

/// The search text is blank: nothing but whitespace.
pub open spec fn blank(q: Seq<char>) -> bool {
    trim_of(q).len() == 0
}

/// The shape of a filtered search's arguments.
pub open spec fn shape_of(
    query: Option<Seq<char>>,
    tag: Option<Seq<char>>,
    author: Option<Seq<char>>,
    from: Option<i64>,
    to: Option<i64>,
    favorites_only: bool,
    has_media: Option<bool>,
) -> FilterShape {
    FilterShape {
        text: query matches Some(q) && !blank(q),
        tag: tag is Some,
        author: author is Some,
        from: from is Some,
        to: to is Some,
        favorites_only,
        has_media,
    }
}

/// The values bound for a filtered search, in the order of their marks.
pub open spec fn filter_args(
    query: Option<Seq<char>>,
    tag: Option<Seq<char>>,
    author: Option<Seq<char>>,
    from: Option<i64>,
    to: Option<i64>,
    limit: usize,
) -> Seq<SqlArg> {
    let a0 = arg_when(
        Seq::<SqlArg>::empty(),
        query matches Some(q) && !blank(q),
        SqlArg::Str(fts_query(query->0)),
    );
    let a1 = arg_when(a0, tag is Some, SqlArg::Str(tag->0));
    let a2 = arg_when(a1, author is Some, SqlArg::Str(author->0));
    let a3 = arg_when(a2, from is Some, SqlArg::Int(from->0 as int));
    let a4 = arg_when(a3, to is Some, SqlArg::Int(to->0 as int));
    a4.push(SqlArg::Int(limit_value(limit) as int))
}

/// A row limit as a bound integer, capped at the largest one.
pub open spec fn limit_value(limit: usize) -> i64 {
    if limit > i64::MAX as usize {
        i64::MAX
    } else {
        limit as i64
    }
}

pub fn limit_arg(limit: usize) -> (r: i64)
    ensures
        r == limit_value(limit),
{
    if limit > i64::MAX as usize {
        i64::MAX
    } else {
        limit as i64
    }
}

/// The view of an optional string slice.
pub open spec fn opt_view(o: Option<&str>) -> Option<Seq<char>> {
    match o {
        Some(s) => Some(s@),
        None => None,
    }
}

fn push_cond(conds: &mut Vec<String>, c: bool, s: &str)
    ensures
        final(conds).deep_view() == push_when(old(conds).deep_view(), c, s@),
{
    if c {
        conds.push(s.to_string());
        assert(final(conds).deep_view() =~= old(conds).deep_view().push(s@));
    }
}

fn filter_params(
    query: Option<&str>,
    tag: Option<&str>,
    author: Option<&str>,
    from: Option<i64>,
    to: Option<i64>,
    limit: usize,
) -> (r: (Vec<SqlValue>, bool))
    ensures
        args_of(r.0@) == filter_args(opt_view(query), opt_view(tag), opt_view(author), from, to, limit),
        r.1 == (opt_view(query) matches Some(q) && !blank(q)),
{
    let mut params: Vec<SqlValue> = Vec::new();
    let text = match query {
        Some(q) => {
            let t = trim(q);
            if t.unicode_len() > 0 {
                params.push(SqlValue::Text(prepare_fts_query(q)));
                true
            } else {
                false
            }
        },
        None => false,
    };
    if let Some(t) = tag {
        params.push(SqlValue::Text(t.to_string()));
    }
    if let Some(a) = author {
        params.push(SqlValue::Text(a.to_string()));
    }
    if let Some(v) = from {
        params.push(SqlValue::Integer(v));
    }
    if let Some(v) = to {
        params.push(SqlValue::Integer(v));
    }
    params.push(SqlValue::Integer(limit_arg(limit)));
    assert(args_of(params@) =~= filter_args(
        opt_view(query),
        opt_view(tag),
        opt_view(author),
        from,
        to,
        limit,
    ));
    (params, text)
}

fn joins_for(f: FilterShape) -> (r: String)
    ensures
        r@ == filter_joins(f),
{
    let mut sql = String::new();
    if f.text {
        sql.append(" JOIN bookmarks_fts_content fc ON fc.bookmark_id = b.id JOIN bookmarks_fts fts ON fts.rowid = fc.rowid");
    }
    if f.tag {
        sql.append(" JOIN bookmark_tags bt ON bt.bookmark_id = b.id JOIN tags t ON t.id = bt.tag_id");
    }
    if f.has_media == Some(true) {
        sql.append(" JOIN media m ON m.bookmark_id = b.id");
    }
    assert(sql@ =~= filter_joins(f));
    sql
}

fn conditions_for(f: FilterShape) -> (r: Vec<String>)
    ensures
        r.deep_view() == filter_conditions(f),
{
    let mut conds: Vec<String> = Vec::new();
    push_cond(&mut conds, f.text, "bookmarks_fts MATCH ?");
    push_cond(&mut conds, f.tag, "t.name = ?");
    push_cond(&mut conds, f.author, "b.author_handle = ?");
    push_cond(&mut conds, f.from, "b.tweeted_at >= ?");
    push_cond(&mut conds, f.to, "b.tweeted_at <= ?");
    push_cond(&mut conds, f.favorites_only, "b.is_favorite = 1");
    push_cond(
        &mut conds,
        f.has_media == Some(false),
        "NOT EXISTS (SELECT 1 FROM media m WHERE m.bookmark_id = b.id)",
    );
    conds
}

/// The statement text for a shape of filters.
pub fn filter_statement(f: FilterShape) -> (r: String)
    ensures
        r@ == filter_sql(f),
{
    let mut sql = "SELECT DISTINCT ".to_string();
    sql.append(RECORD_COLUMNS);
    sql.append(" FROM bookmarks b");
    let joins = joins_for(f);
    sql.append(joins.as_str());
    let conds = conditions_for(f);
    let ghost before_where = sql@;
    if conds.len() > 0 {
        sql.append(" WHERE ");
        let w = join_with(&conds, " AND ");
        sql.append(w.as_str());
    }
    assert(sql@ =~= before_where + when(
        filter_conditions(f).len() > 0,
        " WHERE "@ + join_spec(filter_conditions(f), " AND "@),
    ));
    if f.text {
        sql.append(" ORDER BY bm25(bookmarks_fts), b.tweeted_at DESC");
    } else {
        sql.append(" ORDER BY b.tweeted_at DESC");
    }
    sql.append(" LIMIT ?");
    assert(sql@ =~= filter_sql(f));
    sql
}

/// Composes a filtered search.  Every user-supplied value is bound as a
/// parameter; the statement text depends only on which filters are present.
pub fn compose_filter_query(
    query: Option<&str>,
    tag: Option<&str>,
    author: Option<&str>,
    from: Option<i64>,
    to: Option<i64>,
    favorites_only: bool,
    has_media: Option<bool>,
    limit: usize,
) -> (r: FilterQuery)
    ensures
        r.sql@ == filter_sql(
            shape_of(
                opt_view(query),
                opt_view(tag),
                opt_view(author),
                from,
                to,
                favorites_only,
                has_media,
            ),
        ),
        args_of(r.params@) == filter_args(
            opt_view(query),
            opt_view(tag),
            opt_view(author),
            from,
            to,
            limit,
        ),
{
    let (params, text) = filter_params(query, tag, author, from, to, limit);
    let shape = FilterShape {
        text,
        tag: tag.is_some(),
        author: author.is_some(),
        from: from.is_some(),
        to: to.is_some(),
        favorites_only,
        has_media,
    };
    let sql = filter_statement(shape);
    FilterQuery { sql, params }
}

/// The statement text of a filtered search never depends on the values of
/// the search text, tag, author or dates, only on which of them are given:
/// user values reach the store as bound parameters alone.
pub proof fn lemma_filter_text_independent_of_values(
    q1: Option<Seq<char>>,
    q2: Option<Seq<char>>,
    t1: Option<Seq<char>>,
    t2: Option<Seq<char>>,
    a1: Option<Seq<char>>,
    a2: Option<Seq<char>>,
    f1: Option<i64>,
    f2: Option<i64>,
    u1: Option<i64>,
    u2: Option<i64>,
    favorites_only: bool,
    has_media: Option<bool>,
)
    requires
        (q1 matches Some(q) && !blank(q)) == (q2 matches Some(q) && !blank(q)),
        t1 is Some == t2 is Some,
        a1 is Some == a2 is Some,
        f1 is Some == f2 is Some,
        u1 is Some == u2 is Some,
    ensures
        filter_sql(shape_of(q1, t1, a1, f1, u1, favorites_only, has_media)) == filter_sql(
            shape_of(q2, t2, a2, f2, u2, favorites_only, has_media),
        ),
{
    assert(shape_of(q1, t1, a1, f1, u1, favorites_only, has_media) == shape_of(
        q2,
        t2,
        a2,
        f2,
        u2,
        favorites_only,
        has_media,
    ));
}

/// A filtered search asking for favorites and a tag restricts to both: the
/// statement carries the tag join, both predicates, and combines its
/// predicates with AND.
pub proof fn lemma_favorites_and_tag_combined(f: FilterShape)
    requires
        f.tag,
        f.favorites_only,
    ensures
        filter_conditions(f).contains("t.name = ?"@),
        filter_conditions(f).contains("b.is_favorite = 1"@),
        filter_joins(f) == when(f.text, " JOIN bookmarks_fts_content fc ON fc.bookmark_id = b.id JOIN bookmarks_fts fts ON fts.rowid = fc.rowid"@)
            + " JOIN bookmark_tags bt ON bt.bookmark_id = b.id JOIN tags t ON t.id = bt.tag_id"@
            + when(f.has_media == Some(true), " JOIN media m ON m.bookmark_id = b.id"@),
{
    let conds = filter_conditions(f);
    let c0 = push_when(Seq::<Seq<char>>::empty(), f.text, "bookmarks_fts MATCH ?"@);
    let c1 = push_when(c0, f.tag, "t.name = ?"@);
    assert(c1.last() == "t.name = ?"@);
    let c2 = push_when(c1, f.author, "b.author_handle = ?"@);
    let c3 = push_when(c2, f.from, "b.tweeted_at >= ?"@);
    let c4 = push_when(c3, f.to, "b.tweeted_at <= ?"@);
    let c5 = push_when(c4, f.favorites_only, "b.is_favorite = 1"@);
    assert(c5.last() == "b.is_favorite = 1"@);
    assert(c5[c1.len() - 1] == "t.name = ?"@);
    assert(conds[c1.len() - 1] == "t.name = ?"@);
    assert(conds[c5.len() - 1] == "b.is_favorite = 1"@);
}

/// An optional text as a bound value: the text, or NULL.
pub open spec fn opt_arg(o: Option<String>) -> SqlArg {
    match o {
        Some(s) => SqlArg::Str(s@),
        None => SqlArg::Null,
    }
}

/// The values of a record's search-shadow row: id, content, note, handle,
/// name, tags joined with spaces, comment.
pub open spec fn shadow_args(b: Bookmark) -> Seq<SqlArg> {
    seq![
        SqlArg::Str(b.id@),
        SqlArg::Str(b.content@),
        opt_arg(b.note_text),
        SqlArg::Str(b.author_handle@),
        SqlArg::Str(b.author_name@),
        SqlArg::Str(join_spec(b.tags.deep_view(), " "@)),
        opt_arg(b.comments),
    ]
}

/// The values to bind for a record's search-shadow row.
pub fn shadow_row(b: &Bookmark) -> (r: Vec<SqlValue>)
    ensures
        args_of(r@) == shadow_args(*b),
{
    let mut v: Vec<SqlValue> = Vec::new();
    v.push(SqlValue::Text(b.id.clone()));
    v.push(SqlValue::Text(b.content.clone()));
    v.push(opt_to_value(&b.note_text));
    v.push(SqlValue::Text(b.author_handle.clone()));
    v.push(SqlValue::Text(b.author_name.clone()));
    v.push(SqlValue::Text(join_with(&b.tags, " ")));
    v.push(opt_to_value(&b.comments));
    assert(args_of(v@) =~= shadow_args(*b));
    v
}

/// The values to bind for a media row of record `id`.
pub fn media_row(id: &str, m: &Media) -> (r: Vec<SqlValue>)
    ensures
        args_of(r@) == seq![SqlArg::Str(id@), SqlArg::Str(m.url@), SqlArg::Str(code_of(m.media_type))],
{
    let mut v: Vec<SqlValue> = Vec::new();
    v.push(SqlValue::Text(id.to_string()));
    v.push(SqlValue::Text(m.url.clone()));
    v.push(SqlValue::Text(media_type_code(m.media_type).to_string()));
    assert(args_of(v@) =~= seq![SqlArg::Str(id@), SqlArg::Str(m.url@), SqlArg::Str(code_of(m.media_type))]);
    v
}

/// The values to bind for the link of record `id` to tag `tag_id`.
pub fn link_row(id: &str, tag_id: i64) -> (r: Vec<SqlValue>)
    ensures
        args_of(r@) == seq![SqlArg::Str(id@), SqlArg::Int(tag_id as int)],
{
    let mut v: Vec<SqlValue> = Vec::new();
    v.push(SqlValue::Text(id.to_string()));
    v.push(SqlValue::Integer(tag_id));
    assert(args_of(v@) =~= seq![SqlArg::Str(id@), SqlArg::Int(tag_id as int)]);
    v
}

/// A single text to bind.
pub fn text_arg(s: &str) -> (r: Vec<SqlValue>)
    ensures
        args_of(r@) == seq![SqlArg::Str(s@)],
{
    let mut v: Vec<SqlValue> = Vec::new();
    v.push(SqlValue::Text(s.to_string()));
    assert(args_of(v@) =~= seq![SqlArg::Str(s@)]);
    v
}

/// The values to bind for a page: the row limit, then the offset.
pub fn page_args(offset: usize, limit: usize) -> (r: Vec<SqlValue>)
    ensures
        args_of(r@) == seq![SqlArg::Int(limit_value(limit) as int), SqlArg::Int(limit_value(offset) as int)],
{
    let mut v: Vec<SqlValue> = Vec::new();
    v.push(SqlValue::Integer(limit_arg(limit)));
    v.push(SqlValue::Integer(limit_arg(offset)));
    assert(args_of(v@) =~= seq![SqlArg::Int(limit_value(limit) as int), SqlArg::Int(limit_value(offset) as int)]);
    v
}

/// The values to bind for a page filtered by one text: the text, the row
/// limit, the offset.
pub fn text_page_args(s: &str, offset: usize, limit: usize) -> (r: Vec<SqlValue>)
    ensures
        args_of(r@) == seq![
            SqlArg::Str(s@),
            SqlArg::Int(limit_value(limit) as int),
            SqlArg::Int(limit_value(offset) as int),
        ],
{
    let mut v: Vec<SqlValue> = Vec::new();
    v.push(SqlValue::Text(s.to_string()));
    v.push(SqlValue::Integer(limit_arg(limit)));
    v.push(SqlValue::Integer(limit_arg(offset)));
    assert(args_of(v@) =~= seq![
        SqlArg::Str(s@),
        SqlArg::Int(limit_value(limit) as int),
        SqlArg::Int(limit_value(offset) as int),
    ]);
    v
}

/// The values to bind for a full-text search: the prefix query, the row
/// limit.
pub fn search_args(query: &str, limit: usize) -> (r: Vec<SqlValue>)
    ensures
        args_of(r@) == seq![SqlArg::Str(fts_query(query@)), SqlArg::Int(limit_value(limit) as int)],
{
    let mut v: Vec<SqlValue> = Vec::new();
    v.push(SqlValue::Text(prepare_fts_query(query)));
    v.push(SqlValue::Integer(limit_arg(limit)));
    assert(args_of(v@) =~= seq![SqlArg::Str(fts_query(query@)), SqlArg::Int(limit_value(limit) as int)]);
    v
}

/// The bounds of a date range, defaulting to zero and the largest time.
pub open spec fn range_bounds(from: Option<i64>, to: Option<i64>) -> (i64, i64) {
    (
        match from {
            Some(t) => t,
            None => 0,
        },
        match to {
            Some(t) => t,
            None => i64::MAX,
        },
    )
}

/// The values to bind for a page of a date range: the two bounds, the row
/// limit, the offset.
pub fn date_range_args(from: Option<i64>, to: Option<i64>, offset: usize, limit: usize) -> (r: Vec<
    SqlValue,
>)
    ensures
        args_of(r@) == seq![
            SqlArg::Int(range_bounds(from, to).0 as int),
            SqlArg::Int(range_bounds(from, to).1 as int),
            SqlArg::Int(limit_value(limit) as int),
            SqlArg::Int(limit_value(offset) as int),
        ],
{
    let lo = match from {
        Some(t) => t,
        None => 0,
    };
    let hi = match to {
        Some(t) => t,
        None => i64::MAX,
    };
    let mut v: Vec<SqlValue> = Vec::new();
    v.push(SqlValue::Integer(lo));
    v.push(SqlValue::Integer(hi));
    v.push(SqlValue::Integer(limit_arg(limit)));
    v.push(SqlValue::Integer(limit_arg(offset)));
    assert(args_of(v@) =~= seq![
        SqlArg::Int(range_bounds(from, to).0 as int),
        SqlArg::Int(range_bounds(from, to).1 as int),
        SqlArg::Int(limit_value(limit) as int),
        SqlArg::Int(limit_value(offset) as int),
    ]);
    v
}

/// The values to bind when setting a favorite flag: the id, then 1 or 0.
pub fn favorite_args(id: &str, favorite: bool) -> (r: Vec<SqlValue>)
    ensures
        args_of(r@) == seq![SqlArg::Str(id@), SqlArg::Int(if favorite { 1 } else { 0 })],
{
    let mut v: Vec<SqlValue> = Vec::new();
    v.push(SqlValue::Text(id.to_string()));
    v.push(SqlValue::Integer(if favorite { 1 } else { 0 }));
    assert(args_of(v@) =~= seq![SqlArg::Str(id@), SqlArg::Int(if favorite { 1 } else { 0 })]);
    v
}

} // verus!
