//! Persistence and export rules for analyses of time-coded events.
//!
//! An analysis is a study of one media file: a name, a path, a duration and
//! the event types that a user marks while watching. This library holds the
//! rules for storing analyses and for exporting what was marked. It does no
//! input or output of its own. Each operation of the repository is a state
//! machine: it asks its caller for one thing at a time with a `Request`, is
//! told how that went with a `Reply`, and decides what comes next.
//!
//! - `model`: the records, and the stored text of a category.
//! - `error`: the failures that the operations report.
//! - `protocol`: requests, replies and outcomes.
//! - `create`: creating an analysis with its event types in one transaction.
//! - `fetch`: listing the analyses, and reading one with its event types.
//! - `save`, `export`: writing the marked occurrences as a CSV document.
//! - `storage`: the steps that make the storage ready.
//! - `statements`: the SQL text behind the requests.
//! - `csv_format`, `csv_writer`: the bytes of a CSV record, and the `csv`
//!   crate's writer that produces them.
//! - `bulk_insert`: the `sqlx` crate's query builder for the bulk insert.
//! - `engine`: what the operations take for granted of the storage engine.
//! - `laws`: what holds of whole runs of the operations over such an engine.

pub mod bulk_insert;
pub mod create;
pub mod csv_format;
pub mod csv_writer;
pub mod engine;
pub mod error;
pub mod export;
pub mod fetch;
pub mod laws;
pub mod model;
pub mod protocol;
pub mod save;
pub mod statements;
pub mod storage;
