//! A small content-ingestion and persistence core.
//!
//! The library models an artwork-ingestion service: a JSON document type for
//! loosely-typed upstream search responses, a best-effort metadata extractor,
//! an in-memory record store with transactional create/read/update/delete
//! semantics, a tagged-operation dispatcher over that store, and a batch
//! ingestion loop with per-item failure isolation.

pub mod error;
pub mod extract;
pub mod ingest;
pub mod json;
pub mod laws;
pub mod ops;
pub mod store;

pub use error::Error;
