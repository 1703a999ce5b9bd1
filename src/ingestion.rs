//! The ingestion engine: classify an export, parse it into canonical
//! records, and persist them in fixed-size transactional batches.
use vstd::prelude::*;

use crate::csv_parser::{
    csv_table, csv_dialect, header_text, legacy_kept, legacy_record, new_kept, new_record,
    read_csv_table, CsvFormat, LegacyCsvParser, NewCsvParser,
};
use crate::dates::{legacy_time_of, new_time_of};
use crate::csv_parser::field_of;
use crate::error::Error;
use crate::json_parser::{json_kept, JsonParser, RawJsonBookmark};
use crate::models::Bookmark;
use crate::storage::Database;
use crate::text::{lower_of, lowercase};

verus! {

/// The kind of an export file, by its extension.
#[derive(Clone, Copy, Debug, PartialEq, Eq, Structural)]
pub enum FileKind {
    Csv,
    Json,
}

/// The kind that a lower-cased extension names.
pub open spec fn kind_of_extension(lower: Seq<char>) -> Option<FileKind> {
    if lower == "csv"@ {
        Some(FileKind::Csv)
    } else if lower == "json"@ {
        Some(FileKind::Json)
    } else {
        None
    }
}

/// The header row of a table: its first row, or nothing when it is empty.
pub open spec fn headers_of(rows: Seq<Seq<Seq<char>>>) -> Seq<Seq<char>> {
    if rows.len() > 0 {
        rows[0]
    } else {
        Seq::<Seq<char>>::empty()
    }
}

/// The records of a table: every row after the header row.
pub open spec fn records_of(rows: Seq<Seq<Seq<char>>>) -> Seq<Seq<Seq<char>>> {
    if rows.len() > 0 {
        rows.subrange(1, rows.len() as int)
    } else {
        rows
    }
}

/// Detects the dialect of a CSV table and parses its records; rows that
/// fail are skipped.
pub fn parse_csv_rows(rows: Vec<Vec<String>>) -> (r: Result<Vec<Bookmark>, Error>)
    ensures
        ({
            let t = rows.deep_view();
            let recs = records_of(t);
            match csv_dialect(header_text(headers_of(t))) {
                None => r matches Err(Error::InvalidFormat(_)),
                Some(CsvFormat::Legacy) => r matches Ok(v) && v@.len() == legacy_kept(recs).len()
                    && forall|j: int|
                    0 <= j < v@.len() ==> {
                        let rec = #[trigger] legacy_kept(recs)[j];
                        legacy_record(rec, legacy_time_of(field_of(rec, 0))->0, v@[j])
                    },
                Some(CsvFormat::New) => r matches Ok(v) && v@.len() == new_kept(recs).len()
                    && forall|j: int|
                    0 <= j < v@.len() ==> {
                        let rec = #[trigger] new_kept(recs)[j];
                        new_record(rec, new_time_of(field_of(rec, 5))->0, v@[j])
                    },
            }
        }),
{
    let ghost t = rows.deep_view();
    let mut head = rows;
    let records = if head.len() > 0 {
        head.split_off(1)
    } else {
        Vec::new()
    };
    let headers = if head.len() > 0 {
        head.swap_remove(0)
    } else {
        Vec::new()
    };
    assert(headers.deep_view() =~= headers_of(t));
    assert(records.deep_view() =~= records_of(t));
    let format = CsvFormat::detect(&headers)?;
    match format {
        CsvFormat::Legacy => Ok(LegacyCsvParser::new().parse(&records)),
        CsvFormat::New => Ok(NewCsvParser::new().parse(&records)),
    }
}

/// Drives detection, parsing and batched persistence.
#[derive(Clone, Copy, Debug, PartialEq, Eq, Structural)]
pub struct Ingester {
    /// Records per transaction; never zero.
    pub batch_size: usize,
}

impl Default for Ingester {
    fn default() -> (r: Ingester)
        ensures
            r.batch_size == 1000,
    {
        Ingester::new()
    }
}

impl Ingester {
    /// An engine with batches of a thousand records.
    pub fn new() -> (r: Ingester)
        ensures
            r.batch_size == 1000,
    {
        Ingester { batch_size: 1000 }
    }

    pub fn with_batch_size(self, size: usize) -> (r: Ingester)
        requires
            size > 0,
        ensures
            r.batch_size == size,
    {
        Ingester { batch_size: size }
    }

    /// The kind of export that a file extension names, compared without
    /// regard to case.
    pub fn file_kind(extension: &str) -> (r: Result<FileKind, Error>)
        ensures
            match kind_of_extension(lower_of(extension@)) {
                Some(k) => r == Ok::<FileKind, Error>(k),
                None => r matches Err(Error::UnsupportedFileType(e)) && e@ == lower_of(
                    extension@,
                ),
            },
    {
        let lower = lowercase(extension);
        if lower == "csv".to_string() {
            Ok(FileKind::Csv)
        } else if lower == "json".to_string() {
            Ok(FileKind::Json)
        } else {
            Err(Error::UnsupportedFileType(lower))
        }
    }

    /// Ingests the text of a CSV export: detects its dialect, parses its
    /// records and stores them; returns how many records were new.
    pub fn ingest_csv(&self, data: &str, db: &Database) -> (r: Result<usize, Error>)
        requires
            self.batch_size > 0,
        ensures
            csv_table(data@) is None <==> r matches Err(Error::Csv(_)),
            (csv_table(data@) matches Some(t) && csv_dialect(header_text(headers_of(t))) is None)
                <==> r matches Err(Error::InvalidFormat(_)),
            csv_table(data@) matches Some(t) && csv_dialect(header_text(headers_of(t))) is Some
                && csv_parsed_len(t) == 0 ==> r == Ok::<usize, Error>(0),
            r matches Ok(n) ==> (csv_table(data@) matches Some(t) && n <= csv_parsed_len(t)),
            r matches Err(e) ==> e is Csv || e is InvalidFormat || e is Database,
    {
        let rows = match read_csv_table(data) {
            Some(rows) => rows,
            None => return Err(Error::Csv("the CSV header row could not be read".to_string())),
        };
        let bookmarks = parse_csv_rows(rows)?;
        self.insert_bookmarks(&bookmarks, db)
    }

    /// Ingests the entries of a JSON export; returns how many records were
    /// new.
    pub fn ingest_json(&self, entries: &Vec<RawJsonBookmark>, db: &Database) -> (r: Result<usize, Error>)
        requires
            self.batch_size > 0,
        ensures
            json_kept(entries@).len() == 0 ==> r == Ok::<usize, Error>(0),
            r matches Ok(n) ==> n <= json_kept(entries@).len(),
            r matches Err(e) ==> e is Database,
    {
        let bookmarks = JsonParser::new().parse(entries);
        self.insert_bookmarks(&bookmarks, db)
    }

    /// Stores the records in batches of `batch_size`, each in its own
    /// transaction, and returns how many were new.  The first batch that
    /// fails for a reason other than a duplicate ends the run.
    pub fn insert_bookmarks(&self, bookmarks: &Vec<Bookmark>, db: &Database) -> (r: Result<usize, Error>)
        requires
            self.batch_size > 0,
        ensures
            bookmarks@.len() == 0 ==> r == Ok::<usize, Error>(0),
            r matches Ok(n) ==> n <= bookmarks@.len(),
            r matches Err(e) ==> e is Database,
    {
        let n = bookmarks.len();
        let mut inserted: usize = 0;
        let mut start: usize = 0;
        while start < n
            invariant
                n == bookmarks@.len(),
                self.batch_size > 0,
                start <= n,
                inserted <= start,
            decreases n - start,
        {
            let end = batch_end(start, n, self.batch_size);
            let chunk = vstd::slice::slice_subrange(bookmarks.as_slice(), start, end);
            let added = db.insert_bookmarks(chunk)?;
            inserted = inserted + added;
            start = end;
        }
        Ok(inserted)
    }
}

/// The number of records that a CSV table parses to.
pub open spec fn csv_parsed_len(t: Seq<Seq<Seq<char>>>) -> nat {
    match csv_dialect(header_text(headers_of(t))) {
        Some(CsvFormat::Legacy) => legacy_kept(records_of(t)).len(),
        Some(CsvFormat::New) => new_kept(records_of(t)).len(),
        None => 0,
    }
}

/// The end of the batch that starts at `start`: `size` records on, or the
/// end of the `n` records, whichever comes first.
pub fn batch_end(start: usize, n: usize, size: usize) -> (r: usize)
    requires
        start < n,
        size > 0,
    ensures
        r == (if start + size < n { start + size } else { n as int }),
        start < r <= n,
{
    if n - start > size {
        start + size
    } else {
        n
    }
}

} // verus!
