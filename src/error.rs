//! Errors of the ingestion and storage engine.
use vstd::prelude::*;

use crate::models::{build_error_text, BuildError};

verus! {

/// Why a file, a row or a storage operation failed.
#[derive(Clone, Debug, PartialEq, Eq)]
pub enum Error {
    /// The store reported a failure other than a duplicate natural key.
    Database(String),
    Io(String),
    Csv(String),
    Json(String),
    /// No known date pattern matched the text.
    DateParse(String),
    /// The CSV headers match no known dialect.
    InvalidFormat(String),
    /// The file extension is not one that can be ingested.
    UnsupportedFileType(String),
    /// A required field was missing.
    Build(BuildError),
    Other(String),
}

/// The message `prefix` followed by `detail`.
fn prefixed(prefix: &str, detail: &String) -> (r: String)
    ensures
        r@ == prefix@ + detail@,
{
    let mut out = prefix.to_string();
    out.append(detail.as_str());
    out
}

/// The description of an error: a prefix naming its kind, then its detail.
pub open spec fn error_text(e: Error) -> Seq<char> {
    match e {
        Error::Database(d) => "Database error: "@ + d@,
        Error::Io(d) => "IO error: "@ + d@,
        Error::Csv(d) => "CSV parsing error: "@ + d@,
        Error::Json(d) => "JSON parsing error: "@ + d@,
        Error::DateParse(d) => "Could not parse date: "@ + d@,
        Error::InvalidFormat(d) => "Invalid file format: "@ + d@,
        Error::UnsupportedFileType(d) => "Unsupported file type: "@ + d@,
        Error::Build(b) => build_error_text(b),
        Error::Other(d) => d@,
    }
}

impl Error {
    /// A description of the error for people.
    pub fn message(&self) -> (r: String)
        ensures
            r@ == error_text(*self),
    {
        match self {
            Error::Database(d) => prefixed("Database error: ", d),
            Error::Io(d) => prefixed("IO error: ", d),
            Error::Csv(d) => prefixed("CSV parsing error: ", d),
            Error::Json(d) => prefixed("JSON parsing error: ", d),
            Error::DateParse(d) => prefixed("Could not parse date: ", d),
            Error::InvalidFormat(d) => prefixed("Invalid file format: ", d),
            Error::UnsupportedFileType(d) => prefixed("Unsupported file type: ", d),
            Error::Build(b) => b.message(),
            Error::Other(d) => d.clone(),
        }
    }
}

} // verus!
