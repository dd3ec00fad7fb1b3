//! The rows that the store reads and writes.
//!
//! Scores and vectors are type parameters: `S` is the type of a score, `V` that of a vector.

use surrealdb::types::RecordId;
use vstd::prelude::*;

use crate::error::VectorStoreError;
use crate::surreal;

verus! {

/// One embedded text and its vector.
#[derive(Debug)]
pub struct Embedding<V> {
    /// The text that was embedded.
    pub document: String,
    /// The vector of the text.
    pub vec: V,
}

/// The SurrealDB row shape inserted by an insertion.
#[derive(Debug)]
pub struct CreateRecord<V> {
    /// The document as JSON.
    pub document: serde_json::Value,
    /// The text that the vector was computed from.
    pub embedded_text: String,
    /// The vector.
    pub embedding: V,
}

/// The SurrealDB row shape returned by vector searches with documents.
#[derive(Debug)]
pub struct SearchResult<S> {
    /// The record that was found.
    pub id: RecordId,
    /// The document as JSON.
    pub document: serde_json::Value,
    /// The record's score.
    pub distance: S,
}

/// The SurrealDB row shape returned by id-only vector searches.
#[derive(Debug)]
pub struct SearchResultOnlyId<S> {
    /// The record that was found.
    pub id: RecordId,
    /// The record's score.
    pub distance: S,
}

/// Whether `result` is what a row with this score and id gives where `decoded` came of its
/// document: score, record id and document, or the failure to read the document.
pub open spec fn row_gives<S, T, E, D>(
    distance: S,
    id: RecordId,
    decoded: Result<T, serde_json::Error>,
    result: Result<(S, String, T), VectorStoreError<E, D>>,
) -> bool {
    match decoded {
        Ok(document) => {
            &&& result is Ok
            &&& result->Ok_0.0 == distance
            &&& result->Ok_0.1@ == surreal::record_id_sql(id)
            &&& result->Ok_0.2 == document
        },
        Err(error) => result == Err::<(S, String, T), VectorStoreError<E, D>>(
            VectorStoreError::JsonError(error),
        ),
    }
}

impl<S> SearchResult<S> {
    /// Puts together the result of a row from its parts, the document already read.
    pub fn assemble<T, E, D>(
        distance: S,
        id: RecordId,
        decoded: Result<T, serde_json::Error>,
    ) -> (result: Result<(S, String, T), VectorStoreError<E, D>>)
        ensures
            row_gives(distance, id, decoded, result),
    {
        match decoded {
            Ok(document) => Ok((distance, surreal::record_id_to_sql(&id), document)),
            Err(error) => Err(VectorStoreError::JsonError(error)),
        }
    }

    /// Reads the document with `decode` and gives score, record id and document.
    pub fn into_result<T, E, D, F: Fn(serde_json::Value) -> Result<T, serde_json::Error>>(
        self,
        decode: &F,
    ) -> (result: Result<(S, String, T), VectorStoreError<E, D>>)
        requires
            call_requires(*decode, (self.document,)),
        ensures
            exists|decoded: Result<T, serde_json::Error>| #[trigger]
                call_ensures(*decode, (self.document,), decoded) && row_gives(
                    self.distance,
                    self.id,
                    decoded,
                    result,
                ),
    {
        let decoded = decode(self.document);
        Self::assemble(self.distance, self.id, decoded)
    }
}

impl<S> SearchResultOnlyId<S> {
    /// Gives score and record id.
    pub fn into_result(self) -> (result: (S, String))
        ensures
            result.0 == self.distance,
            result.1@ == surreal::record_id_sql(self.id),
    {
        (self.distance, surreal::record_id_to_sql(&self.id))
    }
}

} // verus!
