//! Whole searches: what a search asks of the embedding model and of the database, and how it
//! ends.

use vstd::prelude::*;

use crate::error::VectorStoreError;
use crate::record::{SearchResult, SearchResultOnlyId};
use crate::search;
use crate::search::{BoundQuery, BoundThreshold, SearchStart, VectorSearchRequest};
use crate::statement;
use crate::store::SurrealVectorStore;

verus! {

/// A statement together with the value of each of its parameters.
#[verifier::ext_equal]
pub struct Statement<V, S> {
    /// The SurrealQL text.
    pub text: Seq<char>,
    /// The vector.
    pub vec: V,
    /// The table.
    pub tablename: Seq<char>,
    /// The threshold.
    pub threshold: BoundThreshold<S>,
}

/// How the outside work of a search turns out: what the model makes of each text, and what the
/// database answers to each statement, in rows of type `R`.
#[verifier::reject_recursive_types(V)]
#[verifier::reject_recursive_types(S)]
pub struct Outside<V, S, R, E, D> {
    /// What embedding a text gives.
    pub embed: spec_fn(Seq<char>) -> Result<V, E>,
    /// What running a statement gives.
    pub answer: spec_fn(Statement<V, S>) -> Result<Seq<R>, D>,
}

/// What a search asked for, and the rows or the failure that it came to.
pub struct Run<V, S, R, E, D> {
    /// The texts that were embedded.
    pub texts: Seq<Seq<char>>,
    /// The statements that were run.
    pub statements: Seq<Statement<V, S>>,
    /// The rows, or the failure.
    pub rows: Result<Seq<R>, VectorStoreError<E, D>>,
}

/// A bound query as a mathematical statement.
pub open spec fn statement_of<V, S>(query: BoundQuery<V, S>) -> Statement<V, S> {
    Statement {
        text: query.statement@,
        vec: query.vec,
        tablename: query.tablename@,
        threshold: query.threshold,
    }
}

/// The course of a search from its start to its end. A search that wants no results asks for
/// nothing and comes to no rows. Any other embeds one text; if that fails, it runs no statement
/// and comes to that failure. Otherwise it runs one statement, and comes to the rows of the answer
/// or to its failure.
pub open spec fn run<V, S, R, E, D>(
    start: SearchStart<S>,
    outside: Outside<V, S, R, E, D>,
) -> Run<V, S, R, E, D> {
    match start {
        SearchStart::Empty => Run { texts: seq![], statements: seq![], rows: Ok(seq![]) },
        SearchStart::Embed { text, search } => match (outside.embed)(text@) {
            Err(error) => Run {
                texts: seq![text@],
                statements: seq![],
                rows: Err(VectorStoreError::EmbeddingError(error)),
            },
            Ok(vec) => {
                let statement = Statement {
                    text: search.statement@,
                    vec,
                    tablename: search.tablename@,
                    threshold: search.threshold,
                };
                Run {
                    texts: seq![text@],
                    statements: seq![statement],
                    rows: match (outside.answer)(statement) {
                        Ok(rows) => Ok(rows),
                        Err(error) => Err(VectorStoreError::DatastoreError(error)),
                    },
                }
            },
        },
    }
}

/// Whether `result` is what a search with documents ends in.
pub open spec fn ends_in_documents<
    V,
    S,
    T,
    E,
    D,
    F: Fn(serde_json::Value) -> Result<T, serde_json::Error>,
>(
    start: SearchStart<S>,
    outside: Outside<V, S, SearchResult<S>, E, D>,
    decode: F,
    result: Result<Vec<(S, String, T)>, VectorStoreError<E, D>>,
) -> bool {
    match run(start, outside).rows {
        Ok(rows) => search::documents_of(rows, decode, result),
        Err(error) => result == Err::<Vec<(S, String, T)>, VectorStoreError<E, D>>(error),
    }
}

/// Whether `result` is what an id-only search ends in.
pub open spec fn ends_in_ids<V, S, E, D>(
    start: SearchStart<S>,
    outside: Outside<V, S, SearchResultOnlyId<S>, E, D>,
    result: Result<Vec<(S, String)>, VectorStoreError<E, D>>,
) -> bool {
    match run(start, outside).rows {
        Ok(rows) => result is Ok && search::ids_of(rows, result->Ok_0@),
        Err(error) => result == Err::<Vec<(S, String)>, VectorStoreError<E, D>>(error),
    }
}

/// The statement that a store runs for a request, once the query text has become `vec`.
pub open spec fn requested_statement<C, Model, V, S>(
    store: SurrealVectorStore<C, Model>,
    with_document: bool,
    request: VectorSearchRequest<S>,
    vec: V,
) -> Statement<V, S> {
    Statement {
        text: statement::search(
            store.distance(),
            with_document,
            request.samples as nat,
            request.filter_text(),
            request.threshold is Some,
        ),
        vec,
        tablename: store.table(),
        threshold: search::bound_threshold(request.threshold),
    }
}

/// A search for no documents asks nothing of the model or the database, and ends well with no
/// results, whatever the outside work would have come to.
pub proof fn no_samples_give_no_documents<
    C,
    Model,
    V,
    S,
    T,
    E,
    D,
    F: Fn(serde_json::Value) -> Result<T, serde_json::Error>,
>(
    store: SurrealVectorStore<C, Model>,
    request: VectorSearchRequest<S>,
    start: SearchStart<S>,
    outside: Outside<V, S, SearchResult<S>, E, D>,
    decode: F,
    result: Result<Vec<(S, String, T)>, VectorStoreError<E, D>>,
)
    requires
        request.samples == 0,
        store.begins(true, request, start),
        ends_in_documents(start, outside, decode, result),
    ensures
        run(start, outside).texts.len() == 0,
        run(start, outside).statements.len() == 0,
        result is Ok && result->Ok_0@.len() == 0,
{
}

/// A search for no ids asks nothing of the model or the database, and ends well with no results,
/// whatever the outside work would have come to.
pub proof fn no_samples_give_no_ids<C, Model, V, S, E, D>(
    store: SurrealVectorStore<C, Model>,
    request: VectorSearchRequest<S>,
    start: SearchStart<S>,
    outside: Outside<V, S, SearchResultOnlyId<S>, E, D>,
    result: Result<Vec<(S, String)>, VectorStoreError<E, D>>,
)
    requires
        request.samples == 0,
        store.begins(false, request, start),
        ends_in_ids(start, outside, result),
    ensures
        run(start, outside).texts.len() == 0,
        run(start, outside).statements.len() == 0,
        result is Ok && result->Ok_0@.len() == 0,
{
}

/// A search for results embeds the query text once. Where that fails, no statement is run and
/// the search comes to that failure. Otherwise the one statement that the request calls for is
/// run, and the search comes to its rows, or to the database's failure.
pub proof fn search_asks_what_the_request_calls_for<C, Model, V, S, R, E, D>(
    store: SurrealVectorStore<C, Model>,
    with_document: bool,
    request: VectorSearchRequest<S>,
    start: SearchStart<S>,
    outside: Outside<V, S, R, E, D>,
)
    requires
        request.samples > 0,
        store.begins(with_document, request, start),
    ensures
        run(start, outside).texts == seq![request.query@],
        match (outside.embed)(request.query@) {
            Err(error) => {
                &&& run(start, outside).statements == Seq::<Statement<V, S>>::empty()
                &&& run(start, outside).rows == Err::<Seq<R>, VectorStoreError<E, D>>(
                    VectorStoreError::EmbeddingError(error),
                )
            },
            Ok(vec) => {
                let statement = requested_statement(store, with_document, request, vec);
                &&& run(start, outside).statements == seq![statement]
                &&& run(start, outside).rows == match (outside.answer)(statement) {
                    Ok(rows) => Ok::<Seq<R>, VectorStoreError<E, D>>(rows),
                    Err(error) => Err(VectorStoreError::DatastoreError(error)),
                }
            },
        },
{
    if let Ok(vec) = (outside.embed)(request.query@) {
        let statement = requested_statement(store, with_document, request, vec);
        assert(run(start, outside).statements[0] =~= statement);
    }
}

/// The steps of a search with documents, each taken with the outcome of the one before, make up
/// the whole: `bound` is what the embedding led to, `answer` what the database gave for it, and
/// `result` what the search ended in.
pub proof fn steps_make_up_a_document_search<
    V,
    S,
    T,
    E,
    D,
    F: Fn(serde_json::Value) -> Result<T, serde_json::Error>,
>(
    start: SearchStart<S>,
    outside: Outside<V, S, SearchResult<S>, E, D>,
    decode: F,
    bound: Result<BoundQuery<V, S>, VectorStoreError<E, D>>,
    answer: Result<Vec<SearchResult<S>>, D>,
    result: Result<Vec<(S, String, T)>, VectorStoreError<E, D>>,
)
    requires
        match start {
            SearchStart::Empty => result is Ok && result->Ok_0@ == Seq::<(S, String, T)>::empty(),
            SearchStart::Embed { text, search } => {
                &&& search::after_embedding(search, (outside.embed)(text@), bound)
                &&& match bound {
                    Err(error) => result == Err::<
                        Vec<(S, String, T)>,
                        VectorStoreError<E, D>,
                    >(error),
                    Ok(query) => {
                        &&& search::rows_of(answer) == (outside.answer)(statement_of(query))
                        &&& search::documents_answered(search::rows_of(answer), decode, result)
                    },
                }
            },
        },
    ensures
        ends_in_documents(start, outside, decode, result),
{
}

/// The steps of an id-only search, each taken with the outcome of the one before, make up the
/// whole.
pub proof fn steps_make_up_an_id_search<V, S, E, D>(
    start: SearchStart<S>,
    outside: Outside<V, S, SearchResultOnlyId<S>, E, D>,
    bound: Result<BoundQuery<V, S>, VectorStoreError<E, D>>,
    answer: Result<Vec<SearchResultOnlyId<S>>, D>,
    result: Result<Vec<(S, String)>, VectorStoreError<E, D>>,
)
    requires
        match start {
            SearchStart::Empty => result is Ok && result->Ok_0@ == Seq::<(S, String)>::empty(),
            SearchStart::Embed { text, search } => {
                &&& search::after_embedding(search, (outside.embed)(text@), bound)
                &&& match bound {
                    Err(error) => result == Err::<Vec<(S, String)>, VectorStoreError<E, D>>(
                        error,
                    ),
                    Ok(query) => {
                        &&& search::rows_of(answer) == (outside.answer)(statement_of(query))
                        &&& search::ids_answered(search::rows_of(answer), result)
                    },
                }
            },
        },
    ensures
        ends_in_ids(start, outside, result),
{
}

} // verus!
