//! Flattens a fantasy-football dataset into delimited tables.
//!
//! A dataset arrives as one JSON document. The crate decodes it into typed
//! records, renders the player records as a comma-delimited table with a
//! header row, and keeps the registry of tables that queries may name.
//!
//! The library reads no file and opens no connection. It is handed bytes and
//! hands back the file that is to be written; contracts state what each
//! function returns, over the models in [`json`], [`schema`] and
//! [`delimited`].

pub mod decode;
pub mod delimited;
pub mod error;
pub mod ingest;
pub mod json;
pub mod mode;
pub mod models;
pub mod payload;
pub mod query;
pub mod records;
pub mod schema;
pub mod table;
pub mod text;
