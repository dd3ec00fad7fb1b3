//! How a search or an insertion fails.

use vstd::prelude::*;

verus! {

/// Errors from vector store operations, over the embedding model's error type `E` and the
/// database client's error type `D`.
#[derive(Debug)]
pub enum VectorStoreError<E, D> {
    /// The embedding model failed.
    EmbeddingError(E),
    /// A document could not be written to or read from JSON.
    JsonError(serde_json::Error),
    /// The database client failed.
    DatastoreError(D),
}

} // verus!
