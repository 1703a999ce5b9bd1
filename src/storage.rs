//! Durable storage on an embedded SQLite database: a record table keyed by
//! identifier with a unique natural key, a case-insensitive tag catalog, a
//! junction table, a media table, and a full-text index kept in step with a
//! shadow table by triggers.
use vstd::prelude::*;

use crate::error::Error;
use rusqlite::Error as SqliteError;
use crate::csv_parser::media_view;
use crate::models::{Bookmark, Media, MediaType};
use crate::queries::BookmarkStats;
use crate::sql::{
    bookmark_columns, bookmark_row, compose_filter_query, date_range_args, favorite_args, link_row,
    media_from_row, media_row, page_args, search_args, shadow_row, text_arg, text_page_args,
    type_of_code, row_to_bookmark, same_scalars, text_at, ColumnKind, SqlValue,
};
use crate::text::{lower_of, lowercase};

verus! {

#[verifier::external_type_specification]
#[verifier::external_body]
pub struct ExConnection(rusqlite::Connection);

#[verifier::external_type_specification]
#[verifier::external_body]
pub struct ExSqliteError(SqliteError);

/// Relies on `rusqlite::Connection::open`: opens or creates the database
/// file at `path`.
#[verifier::external_body]
fn connect(path: &str) -> (r: Result<rusqlite::Connection, SqliteError>) {
    rusqlite::Connection::open(path)
}

/// Relies on `rusqlite::Connection::open_in_memory`: a fresh private database.
#[verifier::external_body]
fn connect_in_memory() -> (r: Result<rusqlite::Connection, SqliteError>) {
    rusqlite::Connection::open_in_memory()
}

/// Relies on `rusqlite::Connection::execute_batch`: runs the statements in
/// order, stopping at the first that fails.
#[verifier::external_body]
fn run_script(conn: &rusqlite::Connection, sql: &str) -> (r: Result<(), SqliteError>) {
    conn.execute_batch(sql)
}

#[verifier::external_type_specification]
#[verifier::external_body]
pub struct ExSqliteValue(rusqlite::types::Value);

/// Relies on `rusqlite::types::Value`: each value as the SQLite value of
/// the same storage class, in order.
#[verifier::external_body]
fn bind(args: &Vec<SqlValue>) -> (r: Vec<rusqlite::types::Value>) {
    args.iter().map(|v| match v {
        SqlValue::Null => rusqlite::types::Value::Null,
        SqlValue::Integer(i) => rusqlite::types::Value::Integer(*i),
        SqlValue::Text(s) => rusqlite::types::Value::Text(s.clone()),
    }).collect()
}

/// Relies on `rusqlite::Connection::execute`: runs one statement with
/// `values` bound to its marks in order; `Ok` holds the number of rows
/// changed.
#[verifier::external_body]
fn run(conn: &rusqlite::Connection, sql: &str, values: Vec<rusqlite::types::Value>) -> (r: Result<
    usize,
    SqliteError,
>) {
    conn.execute(sql, rusqlite::params_from_iter(values))
}

/// Relies on `rusqlite::Statement::query` and `Rows::next`: the rows of a
/// query with `values` bound, each column read as the kind given for it
/// (NULL as `Null`).
#[verifier::external_body]
fn fetch(
    conn: &rusqlite::Connection,
    sql: &str,
    values: Vec<rusqlite::types::Value>,
    kinds: &Vec<ColumnKind>,
) -> (r: Result<Vec<Vec<SqlValue>>, SqliteError>)
    ensures
        r matches Ok(rows) ==> forall|i: int| 0 <= i < rows@.len() ==> #[trigger] rows@[i]@.len() == kinds@.len(),
{
    let mut stmt = conn.prepare(sql)?;
    let mut rows = stmt.query(rusqlite::params_from_iter(values))?;
    let mut out = Vec::new();
    while let Some(row) = rows.next()? {
        let mut fields = Vec::new();
        for (i, k) in kinds.iter().enumerate() {
            fields.push(match k {
                ColumnKind::Integer => row.get::<_, Option<i64>>(i)?.map_or(SqlValue::Null, SqlValue::Integer),
                ColumnKind::Text => row.get::<_, Option<String>>(i)?.map_or(SqlValue::Null, SqlValue::Text),
            });
        }
        out.push(fields);
    }
    Ok(out)
}

/// Relies on `rusqlite::Error::SqliteFailure`: whether SQLite reported the
/// failure with its constraint-violation code.
#[verifier::external_body]
fn is_constraint_violation(e: &SqliteError) -> (r: bool) {
    match e {
        rusqlite::Error::SqliteFailure(f, _) => f.code == rusqlite::ErrorCode::ConstraintViolation,
        _ => false,
    }
}

/// Relies on the `Display` of `rusqlite::Error`: its message.
#[verifier::external_body]
fn error_message(e: &SqliteError) -> (r: String) {
    e.to_string()
}

fn db_error(e: &SqliteError) -> (r: Error)
    ensures
        r is Database,
{
    Error::Database(error_message(e))
}

/// Session settings applied on every open.
pub const PRAGMAS: &'static str = "PRAGMA journal_mode = WAL;
PRAGMA synchronous = NORMAL;
PRAGMA cache_size = -64000;
PRAGMA temp_store = MEMORY;
PRAGMA foreign_keys = ON;";

/// The schema, created when missing.
pub const SCHEMA: &'static str = "
CREATE TABLE IF NOT EXISTS bookmarks (
    id TEXT PRIMARY KEY,
    tweet_url TEXT UNIQUE NOT NULL,
    content TEXT NOT NULL,
    note_text TEXT,
    tweeted_at INTEGER NOT NULL,
    imported_at INTEGER NOT NULL,
    author_handle TEXT NOT NULL,
    author_name TEXT NOT NULL,
    author_profile_url TEXT,
    author_profile_image TEXT,
    comments TEXT,
    is_favorite INTEGER DEFAULT 0
);
CREATE TABLE IF NOT EXISTS tags (
    id INTEGER PRIMARY KEY AUTOINCREMENT,
    name TEXT UNIQUE NOT NULL COLLATE NOCASE
);
CREATE TABLE IF NOT EXISTS bookmark_tags (
    bookmark_id TEXT NOT NULL,
    tag_id INTEGER NOT NULL,
    PRIMARY KEY (bookmark_id, tag_id),
    FOREIGN KEY (bookmark_id) REFERENCES bookmarks(id) ON DELETE CASCADE,
    FOREIGN KEY (tag_id) REFERENCES tags(id) ON DELETE CASCADE
);
CREATE TABLE IF NOT EXISTS media (
    id INTEGER PRIMARY KEY AUTOINCREMENT,
    bookmark_id TEXT NOT NULL,
    url TEXT NOT NULL,
    media_type TEXT NOT NULL,
    FOREIGN KEY (bookmark_id) REFERENCES bookmarks(id) ON DELETE CASCADE
);
CREATE VIRTUAL TABLE IF NOT EXISTS bookmarks_fts USING fts5(
    content, note_text, author_handle, author_name, tags_text, comments,
    content='bookmarks_fts_content', content_rowid='rowid', tokenize='porter unicode61'
);
CREATE TABLE IF NOT EXISTS bookmarks_fts_content (
    rowid INTEGER PRIMARY KEY,
    bookmark_id TEXT NOT NULL,
    content TEXT,
    note_text TEXT,
    author_handle TEXT,
    author_name TEXT,
    tags_text TEXT,
    comments TEXT,
    FOREIGN KEY (bookmark_id) REFERENCES bookmarks(id) ON DELETE CASCADE
);
CREATE INDEX IF NOT EXISTS idx_bookmarks_tweeted_at ON bookmarks(tweeted_at DESC);
CREATE INDEX IF NOT EXISTS idx_bookmarks_author_handle ON bookmarks(author_handle);
CREATE INDEX IF NOT EXISTS idx_bookmarks_imported_at ON bookmarks(imported_at DESC);
CREATE INDEX IF NOT EXISTS idx_bookmark_tags_bookmark ON bookmark_tags(bookmark_id);
CREATE INDEX IF NOT EXISTS idx_bookmark_tags_tag ON bookmark_tags(tag_id);
CREATE INDEX IF NOT EXISTS idx_media_bookmark ON media(bookmark_id);
CREATE INDEX IF NOT EXISTS idx_fts_content_bookmark ON bookmarks_fts_content(bookmark_id);
CREATE TRIGGER IF NOT EXISTS bookmarks_fts_insert AFTER INSERT ON bookmarks_fts_content BEGIN
    INSERT INTO bookmarks_fts(rowid, content, note_text, author_handle, author_name, tags_text, comments)
    VALUES (NEW.rowid, NEW.content, NEW.note_text, NEW.author_handle, NEW.author_name, NEW.tags_text, NEW.comments);
END;
CREATE TRIGGER IF NOT EXISTS bookmarks_fts_delete AFTER DELETE ON bookmarks_fts_content BEGIN
    INSERT INTO bookmarks_fts(bookmarks_fts, rowid, content, note_text, author_handle, author_name, tags_text, comments)
    VALUES ('delete', OLD.rowid, OLD.content, OLD.note_text, OLD.author_handle, OLD.author_name, OLD.tags_text, OLD.comments);
END;
CREATE TRIGGER IF NOT EXISTS bookmarks_fts_update AFTER UPDATE ON bookmarks_fts_content BEGIN
    INSERT INTO bookmarks_fts(bookmarks_fts, rowid, content, note_text, author_handle, author_name, tags_text, comments)
    VALUES ('delete', OLD.rowid, OLD.content, OLD.note_text, OLD.author_handle, OLD.author_name, OLD.tags_text, OLD.comments);
    INSERT INTO bookmarks_fts(rowid, content, note_text, author_handle, author_name, tags_text, comments)
    VALUES (NEW.rowid, NEW.content, NEW.note_text, NEW.author_handle, NEW.author_name, NEW.tags_text, NEW.comments);
END;
";

/// What became of one record of a batch.
#[derive(Clone, Copy, Debug, PartialEq, Eq, Structural)]
pub enum InsertOutcome {
    Inserted,
    /// A record with the same natural key was already stored.
    SkippedDuplicate,
}

/// What became of a batch.
#[derive(Clone, Copy, Debug, PartialEq, Eq, Structural)]
pub struct BatchReport {
    pub inserted: usize,
    pub skipped: usize,
}

/// The one integer of a one-row, one-column result; NULL or nothing reads
/// as `None`.
pub fn single_int(rows: &Vec<Vec<SqlValue>>) -> (r: Option<i64>)
    ensures
        r matches Some(v) ==> rows@.len() > 0 && rows@[0]@.len() > 0 && rows@[0]@[0]
            == SqlValue::Integer(v),
        r is None ==> rows@.len() == 0 || rows@[0]@.len() == 0 || !(rows@[0]@[0] is Integer),
{
    if rows.len() == 0 || rows[0].len() == 0 {
        return None;
    }
    match &rows[0][0] {
        SqlValue::Integer(v) => Some(*v),
        _ => None,
    }
}

/// The texts of the first column, from the rows where it holds one, in
/// order.
pub open spec fn first_texts(rows: Seq<Seq<SqlValue>>) -> Seq<Seq<char>>
    decreases rows.len(),
{
    if rows.len() == 0 {
        Seq::<Seq<char>>::empty()
    } else {
        let prev = first_texts(rows.drop_last());
        match text_at(rows.last(), 0) {
            Some(t) => prev.push(t@),
            None => prev,
        }
    }
}

/// The rows as lists of values.
pub open spec fn row_views(rows: Seq<Vec<SqlValue>>) -> Seq<Seq<SqlValue>> {
    rows.map_values(|r: Vec<SqlValue>| r@)
}

/// The first column of each row that holds a text, in order.
pub fn texts_of(rows: &Vec<Vec<SqlValue>>) -> (r: Vec<String>)
    ensures
        r.deep_view() == first_texts(row_views(rows@)),
{
    let ghost all = row_views(rows@);
    let mut out: Vec<String> = Vec::new();
    let mut i: usize = 0;
    while i < rows.len()
        invariant
            all == row_views(rows@),
            i <= rows@.len(),
            out.deep_view() == first_texts(all.subrange(0, i as int)),
        decreases rows@.len() - i,
    {
        assert(all.subrange(0, i + 1).drop_last() =~= all.subrange(0, i as int));
        assert(all[i as int] == rows@[i as int]@);
        if rows[i].len() > 0 {
            if let SqlValue::Text(s) = &rows[i][0] {
                out.push(s.clone());
                assert(out.deep_view() =~= first_texts(all.subrange(0, i as int)).push(s@));
            }
        }
        i = i + 1;
    }
    assert(all.subrange(0, all.len() as int) =~= all);
    out
}

/// The (name, count) pairs of the rows whose first column holds a text and
/// second an integer, in order.
pub open spec fn name_counts(rows: Seq<Seq<SqlValue>>) -> Seq<(Seq<char>, i64)>
    decreases rows.len(),
{
    if rows.len() == 0 {
        Seq::<(Seq<char>, i64)>::empty()
    } else {
        let prev = name_counts(rows.drop_last());
        match (text_at(rows.last(), 0), crate::sql::int_at(rows.last(), 1)) {
            (Some(t), Some(n)) => prev.push((t@, n)),
            _ => prev,
        }
    }
}

/// The (text, integer) pairs of two-column rows, in order.
pub fn tag_counts_of(rows: &Vec<Vec<SqlValue>>) -> (r: Vec<(String, i64)>)
    ensures
        r@.map_values(|p: (String, i64)| (p.0@, p.1)) == name_counts(row_views(rows@)),
{
    let ghost all = row_views(rows@);
    let mut out: Vec<(String, i64)> = Vec::new();
    let mut i: usize = 0;
    while i < rows.len()
        invariant
            all == row_views(rows@),
            i <= rows@.len(),
            out@.map_values(|p: (String, i64)| (p.0@, p.1)) == name_counts(all.subrange(0, i as int)),
        decreases rows@.len() - i,
    {
        assert(all.subrange(0, i + 1).drop_last() =~= all.subrange(0, i as int));
        assert(all[i as int] == rows@[i as int]@);
        let ghost before = out@;
        if rows[i].len() > 1 {
            if let SqlValue::Text(s) = &rows[i][0] {
                if let SqlValue::Integer(n) = &rows[i][1] {
                    out.push((s.clone(), *n));
                    assert(out@.map_values(|p: (String, i64)| (p.0@, p.1)) =~= before.map_values(
                        |p: (String, i64)| (p.0@, p.1),
                    ).push((s@, *n)));
                }
            }
        }
        i = i + 1;
    }
    assert(all.subrange(0, all.len() as int) =~= all);
    out
}

/// The rows that read as records, in order.
pub open spec fn decodable(rows: Seq<Seq<SqlValue>>) -> Seq<Seq<SqlValue>>
    decreases rows.len(),
{
    if rows.len() == 0 {
        rows
    } else {
        let prev = decodable(rows.drop_last());
        if crate::sql::row_decodes(rows.last()) {
            prev.push(rows.last())
        } else {
            prev
        }
    }
}

/// Reads the records of a result; rows that do not read as records are
/// skipped.
pub fn decode_rows(rows: &Vec<Vec<SqlValue>>) -> (r: Vec<Bookmark>)
    ensures
        r@.len() == decodable(row_views(rows@)).len(),
        forall|j: int|
            0 <= j < r@.len() ==> crate::sql::row_fits(
                #[trigger] decodable(row_views(rows@))[j],
                r@[j],
            ),
{
    let ghost all = row_views(rows@);
    let mut out: Vec<Bookmark> = Vec::new();
    let mut i: usize = 0;
    while i < rows.len()
        invariant
            all == row_views(rows@),
            i <= rows@.len(),
            out@.len() == decodable(all.subrange(0, i as int)).len(),
            forall|j: int|
                0 <= j < out@.len() ==> crate::sql::row_fits(
                    #[trigger] decodable(all.subrange(0, i as int))[j],
                    out@[j],
                ),
        decreases rows@.len() - i,
    {
        assert(all.subrange(0, i + 1).drop_last() =~= all.subrange(0, i as int));
        assert(all[i as int] == rows@[i as int]@);
        if let Some(b) = row_to_bookmark(&rows[i]) {
            out.push(b);
        }
        i = i + 1;
    }
    assert(all.subrange(0, all.len() as int) =~= all);
    out
}

/// The media that the rows describe, skipping rows without a URL and kind
/// name, in order.
pub open spec fn media_rows(rows: Seq<Seq<SqlValue>>) -> Seq<(Seq<char>, MediaType)>
    decreases rows.len(),
{
    if rows.len() == 0 {
        Seq::<(Seq<char>, MediaType)>::empty()
    } else {
        let prev = media_rows(rows.drop_last());
        match (text_at(rows.last(), 0), text_at(rows.last(), 1)) {
            (Some(u), Some(c)) => prev.push((u@, type_of_code(c@))),
            _ => prev,
        }
    }
}

/// Reads the media rows of a result.
pub fn media_of_rows(rows: &Vec<Vec<SqlValue>>) -> (r: Vec<Media>)
    ensures
        media_view(r@) == media_rows(row_views(rows@)),
{
    let ghost all = row_views(rows@);
    let mut out: Vec<Media> = Vec::new();
    let mut i: usize = 0;
    while i < rows.len()
        invariant
            all == row_views(rows@),
            i <= rows@.len(),
            media_view(out@) == media_rows(all.subrange(0, i as int)),
        decreases rows@.len() - i,
    {
        assert(all.subrange(0, i + 1).drop_last() =~= all.subrange(0, i as int));
        assert(all[i as int] == rows@[i as int]@);
        let ghost before = out@;
        if let Some(m) = media_from_row(&rows[i]) {
            out.push(m);
            assert(media_view(out@) =~= media_view(before).push((m.url@, m.media_type)));
        }
        i = i + 1;
    }
    assert(all.subrange(0, all.len() as int) =~= all);
    out
}

/// A `table_info` row names the favorite column, compared without regard
/// to case.
pub open spec fn names_favorite(row: Seq<SqlValue>) -> bool {
    text_at(row, 1) matches Some(n) && lower_of(n@) == "is_favorite"@
}

/// Whether a `table_info` listing names the favorite column.
pub fn has_favorite_column(rows: &Vec<Vec<SqlValue>>) -> (r: bool)
    ensures
        r == exists|i: int| 0 <= i < rows@.len() && #[trigger] names_favorite(rows@[i]@),
{
    let wanted = "is_favorite".to_string();
    let mut i: usize = 0;
    while i < rows.len()
        invariant
            wanted@ == "is_favorite"@,
            i <= rows@.len(),
            forall|k: int| 0 <= k < i ==> !#[trigger] names_favorite(rows@[k]@),
        decreases rows@.len() - i,
    {
        if rows[i].len() > 1 {
            if let SqlValue::Text(name) = &rows[i][1] {
                let lower = lowercase(name.as_str());
                if lower == wanted {
                    assert(names_favorite(rows@[i as int]@));
                    return true;
                }
            }
        }
        i = i + 1;
    }
    false
}

fn one_kind(k: ColumnKind) -> (r: Vec<ColumnKind>)
    ensures
        r@ == seq![k],
{
    let mut v: Vec<ColumnKind> = Vec::new();
    v.push(k);
    assert(v@ =~= seq![k]);
    v
}

/// What an attempted record-row insert means for the batch: `None` when it
/// went in and the record's other rows follow; a skip when the store
/// reported a constraint violation (the natural key is taken); otherwise a
/// storage error with the store's message.
pub fn record_outcome(ok: bool, constraint: bool, msg: String) -> (r: Option<Result<InsertOutcome, Error>>)
    ensures
        ok ==> r is None,
        !ok && constraint ==> r == Some(Ok::<InsertOutcome, Error>(InsertOutcome::SkippedDuplicate)),
        !ok && !constraint ==> (r matches Some(Err(Error::Database(m))) && m@ == msg@),
{
    if ok {
        None
    } else if constraint {
        Some(Ok(InsertOutcome::SkippedDuplicate))
    } else {
        Some(Err(Error::Database(msg)))
    }
}

/// The report after one more record's outcome.
pub fn tally(report: BatchReport, outcome: InsertOutcome) -> (r: BatchReport)
    requires
        report.inserted + report.skipped < usize::MAX,
    ensures
        outcome == InsertOutcome::Inserted ==> r.inserted == report.inserted + 1 && r.skipped == report.skipped,
        outcome == InsertOutcome::SkippedDuplicate ==> r.skipped == report.skipped + 1 && r.inserted == report.inserted,
{
    match outcome {
        InsertOutcome::Inserted => BatchReport { inserted: report.inserted + 1, skipped: report.skipped },
        InsertOutcome::SkippedDuplicate => BatchReport { inserted: report.inserted, skipped: report.skipped + 1 },
    }
}

/// The favorite flag read back after a toggle: the stored integer as a
/// flag, or an error when no row holds one.
pub fn read_back_flag(v: Option<i64>) -> (r: Result<bool, Error>)
    ensures
        match v {
            Some(n) => r == Ok::<bool, Error>(n != 0),
            None => r matches Err(Error::Database(_)),
        },
{
    match v {
        Some(n) => Ok(n != 0),
        None => Err(Error::Database("Query returned no rows".to_string())),
    }
}

/// Whether a statement that changed `changed` rows removed any.
pub fn row_removed(changed: usize) -> (r: bool)
    ensures
        r == (changed > 0),
{
    changed > 0
}

/// A count that the store left out reads as zero.
pub fn count_or_zero(v: Option<i64>) -> (r: i64)
    ensures
        r == (match v {
            Some(n) => n,
            None => 0,
        }),
{
    match v {
        Some(n) => n,
        None => 0,
    }
}

/// The storage handle.  It owns one connection and does no locking of its
/// own: callers serialize access to it.
pub struct Database {
    conn: rusqlite::Connection,
}

impl Database {
    /// Opens or creates the database at `path` and brings its schema up to
    /// date.  The parent directory must exist.
    pub fn open(path: &str) -> (r: Result<Database, Error>)
        ensures
            r matches Err(e) ==> e is Database,
    {
        let conn = match connect(path) {
            Ok(c) => c,
            Err(e) => return Err(db_error(&e)),
        };
        let db = Database { conn };
        db.initialize()?;
        Ok(db)
    }

    /// Opens a fresh private in-memory database with the schema.
    pub fn open_memory() -> (r: Result<Database, Error>)
        ensures
            r matches Err(e) ==> e is Database,
    {
        let conn = match connect_in_memory() {
            Ok(c) => c,
            Err(e) => return Err(db_error(&e)),
        };
        let db = Database { conn };
        db.initialize()?;
        Ok(db)
    }

    fn script(&self, sql: &str) -> (r: Result<(), Error>)
        ensures
            r matches Err(e) ==> e is Database,
    {
        match run_script(&self.conn, sql) {
            Ok(()) => Ok(()),
            Err(e) => Err(db_error(&e)),
        }
    }

    fn execute(&self, sql: &str, args: &Vec<SqlValue>) -> (r: Result<usize, Error>)
        ensures
            r matches Err(e) ==> e is Database,
    {
        match run(&self.conn, sql, bind(args)) {
            Ok(n) => Ok(n),
            Err(e) => Err(db_error(&e)),
        }
    }

    fn rows(&self, sql: &str, args: &Vec<SqlValue>, kinds: &Vec<ColumnKind>) -> (r: Result<
        Vec<Vec<SqlValue>>,
        Error,
    >)
        ensures
            r matches Ok(rows) ==> forall|i: int| 0 <= i < rows@.len() ==> #[trigger] rows@[i]@.len() == kinds@.len(),
            r matches Err(e) ==> e is Database,
    {
        match fetch(&self.conn, sql, bind(args), kinds) {
            Ok(rows) => Ok(rows),
            Err(e) => Err(db_error(&e)),
        }
    }

    fn initialize(&self) -> (r: Result<(), Error>)
        ensures
            r matches Err(e) ==> e is Database,
    {
        self.script(PRAGMAS)?;
        self.script(SCHEMA)?;
        self.ensure_is_favorite_column()
    }

    /// Adds the favorite column to a table created before it existed.
    fn ensure_is_favorite_column(&self) -> (r: Result<(), Error>)
        ensures
            r matches Err(e) ==> e is Database,
    {
        let mut kinds: Vec<ColumnKind> = Vec::new();
        kinds.push(ColumnKind::Integer);
        kinds.push(ColumnKind::Text);
        let listing = self.rows("PRAGMA table_info(bookmarks)", &Vec::new(), &kinds)?;
        if !has_favorite_column(&listing) {
            self.execute("ALTER TABLE bookmarks ADD COLUMN is_favorite INTEGER DEFAULT 0", &Vec::new())?;
        }
        Ok(())
    }

    /// Inserts a batch in one transaction.  A record whose natural key is
    /// already stored is skipped; any other failure rolls the whole batch
    /// back and is returned.
    pub fn insert_batch(&self, bookmarks: &[Bookmark]) -> (r: Result<BatchReport, Error>)
        ensures
            r matches Ok(rep) ==> rep.inserted + rep.skipped == bookmarks@.len(),
            r matches Err(e) ==> e is Database,
    {
        self.execute("BEGIN IMMEDIATE", &Vec::new())?;
        let mut report = BatchReport { inserted: 0, skipped: 0 };
        let mut i: usize = 0;
        while i < bookmarks.len()
            invariant
                i <= bookmarks@.len(),
                report.inserted + report.skipped == i,
            decreases bookmarks@.len() - i,
        {
            match self.insert_bookmark_internal(&bookmarks[i]) {
                Ok(outcome) => {
                    report = tally(report, outcome);
                },
                Err(e) => {
                    self.execute("ROLLBACK", &Vec::new())?;
                    return Err(e);
                },
            }
            i = i + 1;
        }
        self.execute("COMMIT", &Vec::new())?;
        Ok(report)
    }

    /// Inserts a batch in one transaction and returns how many records were
    /// new; duplicates of stored natural keys are not counted.
    pub fn insert_bookmarks(&self, bookmarks: &[Bookmark]) -> (r: Result<usize, Error>)
        ensures
            r matches Ok(n) ==> n <= bookmarks@.len(),
            r matches Err(e) ==> e is Database,
    {
        let report = self.insert_batch(bookmarks)?;
        Ok(report.inserted)
    }

    /// Inserts one record with its tag links, media rows and search-shadow
    /// row.  A clash of natural keys on the record row is a skip.
    fn insert_bookmark_internal(&self, b: &Bookmark) -> (r: Result<InsertOutcome, Error>)
        ensures
            r matches Err(e) ==> e is Database,
    {
        let row = bookmark_row(b);
        let attempt = run(
            &self.conn,
            "INSERT INTO bookmarks (id, tweet_url, content, note_text, tweeted_at, imported_at, author_handle, author_name, author_profile_url, author_profile_image, comments, is_favorite) VALUES (?1, ?2, ?3, ?4, ?5, ?6, ?7, ?8, ?9, ?10, ?11, ?12)",
            bind(&row),
        );
        let decided = match &attempt {
            Ok(_) => record_outcome(true, false, String::new()),
            Err(e) => record_outcome(false, is_constraint_violation(e), error_message(e)),
        };
        if let Some(outcome) = decided {
            return outcome;
        }
        let mut i: usize = 0;
        while i < b.tags.len()
            invariant
                i <= b.tags@.len(),
            decreases b.tags@.len() - i,
        {
            let name = text_arg(b.tags[i].as_str());
            self.execute("INSERT OR IGNORE INTO tags (name) VALUES (?1)", &name)?;
            let ids = self.rows(
                "SELECT id FROM tags WHERE name = ?1",
                &name,
                &one_kind(ColumnKind::Integer),
            )?;
            let tag_id = match single_int(&ids) {
                Some(id) => id,
                None => return Err(Error::Database("tag id not found".to_string())),
            };
            self.execute(
                "INSERT OR IGNORE INTO bookmark_tags (bookmark_id, tag_id) VALUES (?1, ?2)",
                &link_row(b.id.as_str(), tag_id),
            )?;
            i = i + 1;
        }
        let mut j: usize = 0;
        while j < b.media.len()
            invariant
                j <= b.media@.len(),
            decreases b.media@.len() - j,
        {
            self.execute(
                "INSERT INTO media (bookmark_id, url, media_type) VALUES (?1, ?2, ?3)",
                &media_row(b.id.as_str(), &b.media[j]),
            )?;
            j = j + 1;
        }
        self.execute(
            "INSERT INTO bookmarks_fts_content (bookmark_id, content, note_text, author_handle, author_name, tags_text, comments) VALUES (?1, ?2, ?3, ?4, ?5, ?6, ?7)",
            &shadow_row(b),
        )?;
        Ok(InsertOutcome::Inserted)
    }

    /// Runs a record query and hydrates each record with its tags and media.
    fn read_bookmarks(&self, sql: &str, args: &Vec<SqlValue>) -> (r: Result<Vec<Bookmark>, Error>)
        ensures
            r matches Err(e) ==> e is Database,
    {
        let rows = self.rows(sql, args, &bookmark_columns())?;
        let mut out = decode_rows(&rows);
        self.hydrate_bookmarks(&mut out)?;
        Ok(out)
    }

    /// Loads the tags and media of each record; its other fields stay.
    fn hydrate_bookmarks(&self, bookmarks: &mut Vec<Bookmark>) -> (r: Result<(), Error>)
        ensures
            final(bookmarks)@.len() == old(bookmarks)@.len(),
            forall|k: int|
                0 <= k < final(bookmarks)@.len() ==> same_scalars(
                    #[trigger] final(bookmarks)@[k],
                    old(bookmarks)@[k],
                ),
            r matches Err(e) ==> e is Database,
    {
        let mut i: usize = 0;
        let n = bookmarks.len();
        while i < n
            invariant
                n == bookmarks@.len(),
                n == old(bookmarks)@.len(),
                i <= n,
                forall|k: int| 0 <= k < n ==> same_scalars(#[trigger] bookmarks@[k], old(bookmarks)@[k]),
            decreases n - i,
        {
            let tags = self.load_bookmark_tags(bookmarks[i].id.as_str())?;
            let media = self.load_bookmark_media(bookmarks[i].id.as_str())?;
            let ghost prev = bookmarks@;
            let mut b = bookmarks.remove(i);
            b.tags = tags;
            b.media = media;
            bookmarks.insert(i, b);
            assert(bookmarks@ =~= prev.update(i as int, b));
            i = i + 1;
        }
        Ok(())
    }

    /// Full-text search: each word of `query` as a prefix term, best
    /// matches first, then newest first.
    pub fn search(&self, query: &str, limit: usize) -> (r: Result<Vec<Bookmark>, Error>)
        ensures
            r matches Err(e) ==> e is Database,
    {
        let args = search_args(query, limit);
        self.read_bookmarks(
            "SELECT b.id, b.tweet_url, b.content, b.note_text, b.tweeted_at, b.imported_at, b.author_handle, b.author_name, b.author_profile_url, b.author_profile_image, b.comments, b.is_favorite FROM bookmarks b JOIN bookmarks_fts_content fc ON fc.bookmark_id = b.id JOIN bookmarks_fts fts ON fts.rowid = fc.rowid WHERE bookmarks_fts MATCH ?1 ORDER BY bm25(bookmarks_fts), b.tweeted_at DESC LIMIT ?2",
            &args,
        )
    }

    /// A page of all records, newest first.
    pub fn get_bookmarks(&self, offset: usize, limit: usize) -> (r: Result<Vec<Bookmark>, Error>)
        ensures
            r matches Err(e) ==> e is Database,
    {
        self.read_bookmarks(
            "SELECT b.id, b.tweet_url, b.content, b.note_text, b.tweeted_at, b.imported_at, b.author_handle, b.author_name, b.author_profile_url, b.author_profile_image, b.comments, b.is_favorite FROM bookmarks b ORDER BY b.tweeted_at DESC LIMIT ?1 OFFSET ?2",
            &page_args(offset, limit),
        )
    }

    /// A page of the records linked to the tag `tag`, newest first.
    pub fn get_bookmarks_by_tag(&self, tag: &str, offset: usize, limit: usize) -> (r: Result<
        Vec<Bookmark>,
        Error,
    >)
        ensures
            r matches Err(e) ==> e is Database,
    {
        self.read_bookmarks(
            "SELECT b.id, b.tweet_url, b.content, b.note_text, b.tweeted_at, b.imported_at, b.author_handle, b.author_name, b.author_profile_url, b.author_profile_image, b.comments, b.is_favorite FROM bookmarks b JOIN bookmark_tags bt ON bt.bookmark_id = b.id JOIN tags t ON t.id = bt.tag_id WHERE t.name = ?1 ORDER BY b.tweeted_at DESC LIMIT ?2 OFFSET ?3",
            &text_page_args(tag, offset, limit),
        )
    }

    /// A page of the records by the author with handle `handle`, newest first.
    pub fn get_bookmarks_by_author(&self, handle: &str, offset: usize, limit: usize) -> (r: Result<
        Vec<Bookmark>,
        Error,
    >)
        ensures
            r matches Err(e) ==> e is Database,
    {
        self.read_bookmarks(
            "SELECT b.id, b.tweet_url, b.content, b.note_text, b.tweeted_at, b.imported_at, b.author_handle, b.author_name, b.author_profile_url, b.author_profile_image, b.comments, b.is_favorite FROM bookmarks b WHERE b.author_handle = ?1 ORDER BY b.tweeted_at DESC LIMIT ?2 OFFSET ?3",
            &text_page_args(handle, offset, limit),
        )
    }

    /// The record with identifier `id`, with its tags and media.
    pub fn get_bookmark(&self, id: &str) -> (r: Result<Option<Bookmark>, Error>)
        ensures
            r matches Err(e) ==> e is Database,
    {
        let mut found = self.read_bookmarks(
            "SELECT b.id, b.tweet_url, b.content, b.note_text, b.tweeted_at, b.imported_at, b.author_handle, b.author_name, b.author_profile_url, b.author_profile_image, b.comments, b.is_favorite FROM bookmarks b WHERE b.id = ?1",
            &text_arg(id),
        )?;
        if found.len() == 0 {
            Ok(None)
        } else {
            Ok(Some(found.swap_remove(0)))
        }
    }

    /// Deletes a record with its tag links, media rows and index entry;
    /// whether a record was removed.
    pub fn delete_bookmark(&self, id: &str) -> (r: Result<bool, Error>)
        ensures
            r matches Err(e) ==> e is Database,
    {
        let n = self.execute("DELETE FROM bookmarks WHERE id = ?1", &text_arg(id))?;
        Ok(row_removed(n))
    }

    /// Flips the favorite flag of a record and returns the new value.
    pub fn toggle_favorite(&self, id: &str) -> (r: Result<bool, Error>)
        ensures
            r matches Err(e) ==> e is Database,
    {
        self.execute("UPDATE bookmarks SET is_favorite = NOT is_favorite WHERE id = ?1", &text_arg(id))?;
        let rows = self.rows(
            "SELECT is_favorite FROM bookmarks WHERE id = ?1",
            &text_arg(id),
            &one_kind(ColumnKind::Integer),
        )?;
        read_back_flag(single_int(&rows))
    }

    /// Sets the favorite flag of a record.
    pub fn set_favorite(&self, id: &str, favorite: bool) -> (r: Result<(), Error>)
        ensures
            r matches Err(e) ==> e is Database,
    {
        self.execute("UPDATE bookmarks SET is_favorite = ?2 WHERE id = ?1", &favorite_args(id, favorite))?;
        Ok(())
    }

    /// A page of the favorite records, newest first.
    pub fn get_favorites(&self, offset: usize, limit: usize) -> (r: Result<Vec<Bookmark>, Error>)
        ensures
            r matches Err(e) ==> e is Database,
    {
        self.read_bookmarks(
            "SELECT b.id, b.tweet_url, b.content, b.note_text, b.tweeted_at, b.imported_at, b.author_handle, b.author_name, b.author_profile_url, b.author_profile_image, b.comments, b.is_favorite FROM bookmarks b WHERE b.is_favorite = 1 ORDER BY b.tweeted_at DESC LIMIT ?1 OFFSET ?2",
            &page_args(offset, limit),
        )
    }

    /// A page of the records posted within the inclusive range, newest
    /// first; a missing bound is zero or the largest time.
    pub fn get_bookmarks_by_date_range(
        &self,
        from: Option<i64>,
        to: Option<i64>,
        offset: usize,
        limit: usize,
    ) -> (r: Result<Vec<Bookmark>, Error>)
        ensures
            r matches Err(e) ==> e is Database,
    {
        let args = date_range_args(from, to, offset, limit);
        self.read_bookmarks(
            "SELECT b.id, b.tweet_url, b.content, b.note_text, b.tweeted_at, b.imported_at, b.author_handle, b.author_name, b.author_profile_url, b.author_profile_image, b.comments, b.is_favorite FROM bookmarks b WHERE b.tweeted_at >= ?1 AND b.tweeted_at <= ?2 ORDER BY b.tweeted_at DESC LIMIT ?3 OFFSET ?4",
            &args,
        )
    }

    /// Search combining any of: a full-text query, a tag, an author, a date
    /// range, favorites only, and media presence.  All user values are bound
    /// as parameters.
    pub fn search_with_filters(
        &self,
        query: Option<&str>,
        tag: Option<&str>,
        author: Option<&str>,
        from_date: Option<i64>,
        to_date: Option<i64>,
        favorites_only: bool,
        has_media: Option<bool>,
        limit: usize,
    ) -> (r: Result<Vec<Bookmark>, Error>)
        ensures
            r matches Err(e) ==> e is Database,
    {
        let q = compose_filter_query(
            query,
            tag,
            author,
            from_date,
            to_date,
            favorites_only,
            has_media,
            limit,
        );
        self.read_bookmarks(q.sql.as_str(), &q.params)
    }

    /// Every tag of the catalog with the number of linked records, most used
    /// first.
    pub fn get_all_tags(&self) -> (r: Result<Vec<(String, i64)>, Error>)
        ensures
            r matches Err(e) ==> e is Database,
    {
        let mut kinds: Vec<ColumnKind> = Vec::new();
        kinds.push(ColumnKind::Text);
        kinds.push(ColumnKind::Integer);
        let rows = self.rows(
            "SELECT t.name, COUNT(bt.bookmark_id) AS count FROM tags t LEFT JOIN bookmark_tags bt ON bt.tag_id = t.id GROUP BY t.id ORDER BY count DESC",
            &Vec::new(),
            &kinds,
        )?;
        Ok(tag_counts_of(&rows))
    }

    fn count(&self, sql: &str) -> (r: Result<Option<i64>, Error>)
        ensures
            r matches Err(e) ==> e is Database,
    {
        let rows = self.rows(sql, &Vec::new(), &one_kind(ColumnKind::Integer))?;
        Ok(single_int(&rows))
    }

    /// Corpus statistics, recomputed on every call.
    pub fn get_stats(&self) -> (r: Result<BookmarkStats, Error>)
        ensures
            r matches Err(e) ==> e is Database,
    {
        let total = self.count("SELECT COUNT(*) FROM bookmarks")?;
        let authors = self.count("SELECT COUNT(DISTINCT author_handle) FROM bookmarks")?;
        let tags = self.count("SELECT COUNT(*) FROM tags")?;
        let favorites = self.count("SELECT COUNT(*) FROM bookmarks WHERE is_favorite = 1")?;
        let earliest = self.count("SELECT MIN(tweeted_at) FROM bookmarks")?;
        let latest = self.count("SELECT MAX(tweeted_at) FROM bookmarks")?;
        let top_tags = self.get_all_tags()?;
        Ok(
            BookmarkStats {
                total_bookmarks: count_or_zero(total),
                unique_authors: count_or_zero(authors),
                unique_tags: count_or_zero(tags),
                favorite_bookmarks: count_or_zero(favorites),
                earliest_date: earliest,
                latest_date: latest,
                top_tags,
            },
        )
    }

    /// The tags of a record, in the order they were linked.
    pub fn load_bookmark_tags(&self, bookmark_id: &str) -> (r: Result<Vec<String>, Error>)
        ensures
            r matches Err(e) ==> e is Database,
    {
        let rows = self.rows(
            "SELECT t.name FROM tags t JOIN bookmark_tags bt ON bt.tag_id = t.id WHERE bt.bookmark_id = ?1 ORDER BY bt.rowid",
            &text_arg(bookmark_id),
            &one_kind(ColumnKind::Text),
        )?;
        Ok(texts_of(&rows))
    }

    /// The media of a record, in the order they were stored.
    pub fn load_bookmark_media(&self, bookmark_id: &str) -> (r: Result<Vec<Media>, Error>)
        ensures
            r matches Err(e) ==> e is Database,
    {
        let mut kinds: Vec<ColumnKind> = Vec::new();
        kinds.push(ColumnKind::Text);
        kinds.push(ColumnKind::Text);
        let rows = self.rows(
            "SELECT url, media_type FROM media WHERE bookmark_id = ?1 ORDER BY id",
            &text_arg(bookmark_id),
            &kinds,
        )?;
        Ok(media_of_rows(&rows))
    }
}

} // verus!
