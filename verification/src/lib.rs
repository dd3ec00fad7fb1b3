//! SurrealDB-backed vector search.
//!
//! The library writes filter expressions and search statements, and decides the course of a
//! search and of an insertion: what is asked of the embedding model and of the database, in
//! which order, and what comes of each outcome. The asking itself is left to the caller.

pub mod decimal;
pub mod distance;
pub mod error;
pub mod filter;
pub mod grouping;
pub mod insertion;
pub mod json;
pub mod laws;
pub mod record;
pub mod search;
pub mod statement;
pub mod store;
pub mod surreal;
mod text;
pub mod whole_insertion;
pub mod whole_search;

pub use distance::SurrealDistanceFunction;
pub use error::VectorStoreError;
pub use filter::SurrealSearchFilter;
pub use insertion::InsertStep;
pub use record::{CreateRecord, Embedding, SearchResult, SearchResultOnlyId};
pub use search::{BoundQuery, BoundThreshold, PendingSearch, SearchStart, VectorSearchRequest};
pub use store::SurrealVectorStore;
