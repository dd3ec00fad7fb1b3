//! The course of a vector search.
//!
//! A search has two pieces of outside work, embedding the query text and running the statement.
//! What is to be done, with what, and what comes of each outcome is decided here.

use vstd::prelude::*;

use crate::error::VectorStoreError;
use crate::filter::SurrealSearchFilter;
use crate::record::{SearchResult, SearchResultOnlyId};
use crate::surreal;

verus! {

/// What a caller asks of a vector search.
#[derive(Debug)]
pub struct VectorSearchRequest<S> {
    /// The text to embed and search with.
    pub query: String,
    /// The maximum number of results.
    pub samples: u64,
    /// The score that bounds the results.
    pub threshold: Option<S>,
    /// The condition on results.
    pub filter: Option<SurrealSearchFilter>,
}

impl<S> VectorSearchRequest<S> {
    /// The filter's SurrealQL text, `true` where there is none.
    pub open spec fn filter_text(self) -> Seq<char> {
        match self.filter {
            Some(filter) => filter@,
            None => "true"@,
        }
    }
}

/// What the statement's `$threshold` is bound to.
#[derive(Debug)]
pub enum BoundThreshold<S> {
    /// The score that the request gave.
    Given(S),
    /// Zero, where the request gave none and the statement does not read it.
    Zero,
}

/// The binding of a request's threshold.
pub open spec fn bound_threshold<S>(threshold: Option<S>) -> BoundThreshold<S> {
    match threshold {
        Some(score) => BoundThreshold::Given(score),
        None => BoundThreshold::Zero,
    }
}

/// A search whose query text is yet to be embedded.
#[derive(Debug)]
pub struct PendingSearch<S> {
    /// The SurrealQL statement.
    pub statement: String,
    /// The table to search.
    pub tablename: String,
    /// The threshold to bind.
    pub threshold: BoundThreshold<S>,
}

/// A statement together with the value of each of its parameters, named as the field is.
#[derive(Debug)]
pub struct BoundQuery<V, S> {
    /// The SurrealQL statement.
    pub statement: String,
    /// The vector of the query text.
    pub vec: V,
    /// The table to search.
    pub tablename: String,
    /// The threshold.
    pub threshold: BoundThreshold<S>,
}

/// How a search begins.
#[derive(Debug)]
pub enum SearchStart<S> {
    /// No results are wanted: nothing is asked of the model or the database.
    Empty,
    /// The query text is to be embedded.
    Embed {
        /// The text to embed.
        text: String,
        /// The search, waiting for the vector.
        search: PendingSearch<S>,
    },
}

/// Whether `result` is what comes of a search once it is known what came of embedding its query
/// text: the statement to run, or the failure of the embedding.
pub open spec fn after_embedding<V, S, E, D>(
    search: PendingSearch<S>,
    outcome: Result<V, E>,
    result: Result<BoundQuery<V, S>, VectorStoreError<E, D>>,
) -> bool {
    match outcome {
        Ok(vec) => {
            &&& result is Ok
            &&& result->Ok_0.statement == search.statement
            &&& result->Ok_0.vec == vec
            &&& result->Ok_0.tablename == search.tablename
            &&& result->Ok_0.threshold == search.threshold
        },
        Err(error) => result == Err::<BoundQuery<V, S>, VectorStoreError<E, D>>(
            VectorStoreError::EmbeddingError(error),
        ),
    }
}

impl<S> PendingSearch<S> {
    /// Takes the outcome of the embedding: the statement to run, or the end of the search.
    pub fn embedded<V, E, D>(self, outcome: Result<V, E>) -> (result: Result<
        BoundQuery<V, S>,
        VectorStoreError<E, D>,
    >)
        ensures
            after_embedding(self, outcome, result),
    {
        match outcome {
            Ok(vec) => Ok(
                BoundQuery {
                    statement: self.statement,
                    vec,
                    tablename: self.tablename,
                    threshold: self.threshold,
                },
            ),
            Err(error) => Err(VectorStoreError::EmbeddingError(error)),
        }
    }
}

/// Whether `decode` may have read the document of `row`.
pub open spec fn readable<S, T, F: Fn(serde_json::Value) -> Result<T, serde_json::Error>>(
    row: SearchResult<S>,
    decode: F,
) -> bool {
    exists|document: T| call_ensures(decode, (row.document,), Ok(document))
}

/// Whether `decode` may have failed with `error` on the document of `row`.
pub open spec fn unreadable<S, T, F: Fn(serde_json::Value) -> Result<T, serde_json::Error>>(
    row: SearchResult<S>,
    decode: F,
    error: serde_json::Error,
) -> bool {
    call_ensures(decode, (row.document,), Err(error))
}

/// Whether `found` is the result of `row` under `decode`.
pub open spec fn found_in<S, T, F: Fn(serde_json::Value) -> Result<T, serde_json::Error>>(
    row: SearchResult<S>,
    decode: F,
    found: (S, String, T),
) -> bool {
    &&& found.0 == row.distance
    &&& found.1@ == surreal::record_id_sql(row.id)
    &&& call_ensures(decode, (row.document,), Ok(found.2))
}

/// Whether `result` is what a search gives for `rows`: one result per row, in order, or the
/// failure of the first row whose document could not be read.
pub open spec fn documents_of<
    S,
    T,
    E,
    D,
    F: Fn(serde_json::Value) -> Result<T, serde_json::Error>,
>(
    rows: Seq<SearchResult<S>>,
    decode: F,
    result: Result<Vec<(S, String, T)>, VectorStoreError<E, D>>,
) -> bool {
    match result {
        Ok(found) => {
            &&& found@.len() == rows.len()
            &&& forall|i: int|
                0 <= i < rows.len() ==> found_in(#[trigger] rows[i], decode, found@[i])
        },
        Err(VectorStoreError::JsonError(error)) => exists|k: int|
            0 <= k < rows.len() && unreadable::<S, T, F>(#[trigger] rows[k], decode, error) && (
            forall|i: int| 0 <= i < k ==> readable::<S, T, F>(#[trigger] rows[i], decode)),
        Err(_) => false,
    }
}

/// Whether `found` is what an id-only search gives for `rows`: one result per row, in order.
pub open spec fn ids_of<S>(rows: Seq<SearchResultOnlyId<S>>, found: Seq<(S, String)>) -> bool {
    &&& found.len() == rows.len()
    &&& forall|i: int|
        0 <= i < rows.len() ==> {
            &&& (#[trigger] found[i]).0 == rows[i].distance
            &&& found[i].1@ == surreal::record_id_sql(rows[i].id)
        }
}

/// Whether `result` is what a search with documents ends in on the database's answer.
pub open spec fn documents_answered<
    S,
    T,
    E,
    D,
    F: Fn(serde_json::Value) -> Result<T, serde_json::Error>,
>(
    answer: Result<Seq<SearchResult<S>>, D>,
    decode: F,
    result: Result<Vec<(S, String, T)>, VectorStoreError<E, D>>,
) -> bool {
    match answer {
        Ok(rows) => documents_of(rows, decode, result),
        Err(error) => result == Err::<Vec<(S, String, T)>, VectorStoreError<E, D>>(
            VectorStoreError::DatastoreError(error),
        ),
    }
}

/// Whether `result` is what an id-only search ends in on the database's answer.
pub open spec fn ids_answered<S, E, D>(
    answer: Result<Seq<SearchResultOnlyId<S>>, D>,
    result: Result<Vec<(S, String)>, VectorStoreError<E, D>>,
) -> bool {
    match answer {
        Ok(rows) => result is Ok && ids_of(rows, result->Ok_0@),
        Err(error) => result == Err::<Vec<(S, String)>, VectorStoreError<E, D>>(
            VectorStoreError::DatastoreError(error),
        ),
    }
}

/// The rows of an answer as a mathematical sequence.
pub open spec fn rows_of<R, D>(answer: Result<Vec<R>, D>) -> Result<Seq<R>, D> {
    match answer {
        Ok(rows) => Ok(rows@),
        Err(error) => Err(error),
    }
}

/// Ends a search that wants no results, with none.
pub fn finish_empty<R, E, D>() -> (result: Result<Vec<R>, VectorStoreError<E, D>>)
    ensures
        result is Ok,
        result->Ok_0@ == Seq::<R>::empty(),
{
    Ok(Vec::new())
}

/// Takes the database's answer to a search with documents and ends the search.
pub fn finish_documents<
    S,
    T,
    E,
    D,
    F: Fn(serde_json::Value) -> Result<T, serde_json::Error>,
>(answer: Result<Vec<SearchResult<S>>, D>, decode: &F) -> (result: Result<
    Vec<(S, String, T)>,
    VectorStoreError<E, D>,
>)
    requires
        answer matches Ok(rows) ==> forall|i: int|
            0 <= i < rows@.len() ==> call_requires(*decode, ((#[trigger] rows@[i]).document,)),
    ensures
        documents_answered(rows_of(answer), *decode, result),
{
    let rows = match answer {
        Ok(rows) => rows,
        Err(error) => return Err(VectorStoreError::DatastoreError(error)),
    };
    let ghost all = rows@;
    let mut found: Vec<(S, String, T)> = Vec::new();
    for row in rest: rows
        invariant
            answer is Ok && answer->Ok_0@ == all,
            rest.seq() == all,
            found@.len() == rest.index(),
            forall|i: int|
                0 <= i < all.len() ==> call_requires(*decode, ((#[trigger] all[i]).document,)),
            forall|i: int| 0 <= i < found@.len() ==> found_in(#[trigger] all[i], *decode, found@[i]),
    {
        let ghost k = found@.len() as int;
        assert(row == all[k]);
        match row.into_result::<T, E, D, F>(decode) {
            Ok(result) => {
                found.push(result);
                assert(found_in(all[k], *decode, found@[k]));
            },
            Err(error) => {
                assert forall|i: int| 0 <= i < k implies readable::<S, T, F>(
                    #[trigger] all[i],
                    *decode,
                ) by {
                    assert(found_in(all[i], *decode, found@[i]));
                }
                assert(unreadable::<S, T, F>(all[k], *decode, error->JsonError_0));
                return Err(error);
            },
        }
    }
    Ok(found)
}

/// Takes the database's answer to an id-only search and ends the search.
pub fn finish_ids<S, E, D>(answer: Result<Vec<SearchResultOnlyId<S>>, D>) -> (result: Result<
    Vec<(S, String)>,
    VectorStoreError<E, D>,
>)
    ensures
        ids_answered(rows_of(answer), result),
{
    let rows = match answer {
        Ok(rows) => rows,
        Err(error) => return Err(VectorStoreError::DatastoreError(error)),
    };
    let ghost all = rows@;
    let mut found: Vec<(S, String)> = Vec::new();
    for row in rest: rows
        invariant
            rest.seq() == all,
            found@.len() == rest.index(),
            ids_of(all.take(found@.len() as int), found@),
    {
        let ghost k = found@.len() as int;
        assert(row == all[k]);
        found.push(row.into_result());
        assert(ids_of(all.take(k + 1), found@));
    }
    assert(all.take(found@.len() as int) =~= all);
    Ok(found)
}

/// The id-only search reports what the search with documents reports, less the documents: over
/// rows with the same ids and scores, both give the same scores and ids in the same order.
pub proof fn id_search_drops_documents_only<
    S,
    T,
    E,
    D,
    F: Fn(serde_json::Value) -> Result<T, serde_json::Error>,
>(
    rows: Seq<SearchResult<S>>,
    id_rows: Seq<SearchResultOnlyId<S>>,
    decode: F,
    found: Vec<(S, String, T)>,
    ids: Seq<(S, String)>,
)
    requires
        id_rows.len() == rows.len(),
        forall|i: int|
            0 <= i < rows.len() ==> (#[trigger] id_rows[i]).id == rows[i].id && id_rows[i].distance
                == rows[i].distance,
        documents_of::<S, T, E, D, F>(rows, decode, Ok(found)),
        ids_of(id_rows, ids),
    ensures
        ids.len() == found@.len(),
        forall|i: int|
            0 <= i < ids.len() ==> (#[trigger] ids[i]).0 == found@[i].0 && ids[i].1@
                == found@[i].1@,
{
    assert forall|i: int| 0 <= i < ids.len() implies (#[trigger] ids[i]).0 == found@[i].0
        && ids[i].1@ == found@[i].1@ by {
        assert(found_in(rows[i], decode, found@[i]));
        assert(id_rows[i].id == rows[i].id);
    }
}

/// Where `decode` reads each document in one way only, the first document that it cannot read
/// decides a search: without one the search gives a result for every row, and with one it fails
/// with that document's error, whatever follows.
pub proof fn first_unreadable_document_decides<
    S,
    T,
    E,
    D,
    F: Fn(serde_json::Value) -> Result<T, serde_json::Error>,
>(
    rows: Seq<SearchResult<S>>,
    decode: F,
    reading: spec_fn(serde_json::Value) -> Result<T, serde_json::Error>,
    result: Result<Vec<(S, String, T)>, VectorStoreError<E, D>>,
)
    requires
        forall|document: serde_json::Value, outcome: Result<T, serde_json::Error>|
            #[trigger] call_ensures(decode, (document,), outcome) ==> outcome == reading(document),
        documents_of(rows, decode, result),
    ensures
        (forall|i: int| 0 <= i < rows.len() ==> reading((#[trigger] rows[i]).document) is Ok)
            ==> result is Ok && forall|i: int|
            0 <= i < rows.len() ==> Ok::<T, serde_json::Error>(result->Ok_0@[i].2) == reading(
                (#[trigger] rows[i]).document,
            ),
        forall|k: int|
            0 <= k < rows.len() && reading((#[trigger] rows[k]).document) is Err && (forall|i: int|
                0 <= i < k ==> reading((#[trigger] rows[i]).document) is Ok) ==> result == Err::<
                Vec<(S, String, T)>,
                VectorStoreError<E, D>,
            >(VectorStoreError::JsonError(reading(rows[k].document)->Err_0)),
{
}

} // verus!
