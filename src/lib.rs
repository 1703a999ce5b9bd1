//! Ingestion and storage engine for exported social-media bookmarks.
//!
//! Exports in three dialects (two CSV, one JSON) are detected, parsed into
//! one canonical record type, and stored in an embedded SQLite database with
//! a full-text index; records are deduplicated by their source URL.
pub mod commands;
pub mod csv_parser;
pub mod dates;
pub mod error;
pub mod ingestion;
pub mod json_parser;
pub mod models;
pub mod queries;
pub mod search;
pub mod sql;
pub mod storage;
pub mod text;

pub use commands::{LinkPreview, StatsResponse};
pub use csv_parser::{CsvFormat, LegacyCsvParser, NewCsvParser};
pub use error::Error;
pub use ingestion::{FileKind, Ingester};
pub use json_parser::{JsonParser, RawJsonBookmark, RawMedia};
pub use models::{Author, Bookmark, BookmarkBuilder, BuildError, Media, MediaType};
pub use queries::{BookmarkStats, PaginatedResponse, Pagination, SearchFilters};
pub use search::{extract_snippet, highlight_matches};
pub use storage::{BatchReport, Database};
