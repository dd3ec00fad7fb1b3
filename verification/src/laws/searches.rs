//! What searches promise: what they ask for, and what they report of the answer.

use surrealdb::types::RecordId;
use vstd::prelude::*;

use crate::decimal;
use crate::distance::SurrealDistanceFunction;
use crate::error::VectorStoreError;
use crate::filter::SurrealSearchFilter;
use crate::laws::statements;
use crate::laws::stores;
use crate::record::{SearchResult, SearchResultOnlyId};
use crate::search;
use crate::search::{BoundQuery, BoundThreshold, PendingSearch, SearchStart, VectorSearchRequest};
use crate::statement;
use crate::store::SurrealVectorStore;
use crate::surreal;

verus! {

/// Whether `start` is how `store` began a search for `request`, with documents or for ids only.
pub open spec fn begun<C, Model, S>(
    store: SurrealVectorStore<C, Model>,
    with_document: bool,
    request: VectorSearchRequest<S>,
    start: SearchStart<S>,
) -> bool {
    if with_document {
        call_ensures(SurrealVectorStore::<C, Model>::top_n::<S>, (&store, request), start)
    } else {
        call_ensures(SurrealVectorStore::<C, Model>::top_n_ids::<S>, (&store, request), start)
    }
}

/// The text of a request's filter is that of the filter it holds, whatever else is asked for, and
/// `true` where it holds none.
pub proof fn requests_keep_their_filter<C, Model, S>(
    request: VectorSearchRequest<S>,
    text: String,
    filter_text: String,
)
    requires
        call_ensures(SurrealVectorStore::<C, Model>::filter_expression::<S>, (&request,), text),
        request.filter is Some ==> call_ensures(
            SurrealSearchFilter::inner,
            (request.filter->0,),
            filter_text,
        ),
    ensures
        request.filter is Some ==> text@ == filter_text@,
        request.filter is None ==> text@ == "true"@,
{
}

/// A search begins with nothing to do exactly where no results are wanted.
pub proof fn searches_for_nothing_ask_for_nothing<C, Model, S>(
    store: SurrealVectorStore<C, Model>,
    with_document: bool,
    request: VectorSearchRequest<S>,
    start: SearchStart<S>,
)
    requires
        begun(store, with_document, request, start),
    ensures
        start is Empty <==> request.samples == 0,
{
}

/// A search embeds the text that was asked about, and binds the table that its store was made for
/// and the threshold of the request, or zero where it has none.
pub proof fn searches_embed_and_bind_what_was_asked<C, Model, S>(
    store: SurrealVectorStore<C, Model>,
    model: Model,
    client: C,
    table: Option<String>,
    mode: SurrealDistanceFunction,
    with_document: bool,
    request: VectorSearchRequest<S>,
    start: SearchStart<S>,
)
    requires
        stores::made(store, model, client, table, mode),
        request.samples > 0,
        begun(store, with_document, request, start),
    ensures
        start is Embed,
        start->text@ == request.query@,
        table is Some ==> start->search.tablename@ == table->0@,
        table is None ==> start->search.tablename@ == "documents"@,
        request.threshold is Some ==> start->search.threshold == BoundThreshold::Given(
            request.threshold->0,
        ),
        request.threshold is None ==> start->search.threshold == BoundThreshold::<S>::Zero,
{
}

/// The statement of a search is the one that is written for its store's mode and for the
/// request's number of samples and filter, with a threshold where the request has one, and with
/// documents unless only ids are wanted.
pub proof fn searches_run_the_statement_of_the_request<C, Model, S>(
    store: SurrealVectorStore<C, Model>,
    model: Model,
    client: C,
    table: Option<String>,
    mode: SurrealDistanceFunction,
    with_document: bool,
    request: VectorSearchRequest<S>,
    start: SearchStart<S>,
    filter_text: String,
    filter: &str,
    text: String,
)
    requires
        stores::made(store, model, client, table, mode),
        request.samples > 0,
        begun(store, with_document, request, start),
        match request.filter {
            Some(given) => {
                &&& call_ensures(SurrealSearchFilter::inner, (given,), filter_text)
                &&& filter@ == filter_text@
            },
            None => filter@ == "true"@,
        },
        call_ensures(
            statement::search_text,
            (mode, with_document, request.samples, filter, request.threshold is Some),
            text,
        ),
    ensures
        start is Embed,
        start->search.statement@ == text@,
{
}

proof fn indexed_text_regrouped(
    head: Seq<char>,
    source: Seq<char>,
    filter: Seq<char>,
    operator: Seq<char>,
    count: Seq<char>,
    comma: Seq<char>,
    vector: Seq<char>,
    order: Seq<char>,
)
    ensures
        head + source + (filter + operator + count + comma + count + vector) + order + count == head
            + (source + filter + operator + count + comma + count + (vector + order)) + count,
{
    assert(head + source + (filter + operator + count + comma + count + vector) + order + count
        =~= head + (source + filter + operator + count + comma + count + (vector + order))
        + count);
}

proof fn filtered_records_spelled_out(
    mode: SurrealDistanceFunction,
    with_document: bool,
    samples: nat,
    filter: Seq<char>,
    count: Seq<char>,
    records: Seq<char>,
)
    requires
        filter != ""@ && filter != "true"@,
        count == decimal::numeral(samples),
        records == "SELECT "@ + (if with_document {
            "id, document"@
        } else {
            "id"@
        }) + (if mode is Jaccard {
            ", vector::similarity::jaccard($vec, embedding) AS distance FROM type::table($tablename) WHERE "@
                + filter + " ORDER BY distance DESC LIMIT "@
        } else {
            ", vector::distance::knn() AS distance FROM type::table($tablename) WHERE "@ + filter
                + " AND embedding <|"@ + count + ","@ + count
                + "|> $vec ORDER BY distance ASC LIMIT "@
        }) + count,
    ensures
        statement::search(mode, with_document, samples, filter, false) == records,
{
    let head = "SELECT "@ + (if with_document {
        "id, document"@
    } else {
        "id"@
    });
    if mode is Jaccard {
        let source =
            ", vector::similarity::jaccard($vec, embedding) AS distance FROM type::table($tablename) WHERE "@;
        let order = " ORDER BY distance DESC LIMIT "@;
        statements::jaccard_search_spelled_out(with_document, samples, filter, count);
        assert(head + source + filter + order =~= head + (source + filter + order));
    } else {
        let source = ", vector::distance::knn() AS distance FROM type::table($tablename) WHERE "@;
        statements::indexed_search_spelled_out(mode, with_document, samples, filter, count);
        indexed_text_regrouped(
            head,
            source,
            filter,
            " AND embedding <|"@,
            count,
            ","@,
            "|> $vec"@,
            " ORDER BY distance ASC LIMIT "@,
        );
        reveal_strlit("|> $vec");
        reveal_strlit(" ORDER BY distance ASC LIMIT ");
        reveal_strlit("|> $vec ORDER BY distance ASC LIMIT ");
        assert("|> $vec ORDER BY distance ASC LIMIT "@ =~= "|> $vec"@
            + " ORDER BY distance ASC LIMIT "@);
    }
}

/// The filter of a request stands whole in the `WHERE` clause of the statement that its search
/// runs, whatever the query, the number of samples and the threshold are: in front of the
/// nearest-record condition where the index is used, and by itself where it is not. Only the empty
/// filter and `true` are left out.
pub proof fn searches_keep_to_the_filter<C, Model, S>(
    store: SurrealVectorStore<C, Model>,
    model: Model,
    client: C,
    table: Option<String>,
    mode: SurrealDistanceFunction,
    with_document: bool,
    request: VectorSearchRequest<S>,
    start: SearchStart<S>,
    filter: String,
    count: String,
    records: Seq<char>,
)
    requires
        stores::made(store, model, client, table, mode),
        request.samples > 0,
        begun(store, with_document, request, start),
        request.filter is Some,
        call_ensures(SurrealSearchFilter::inner, (request.filter->0,), filter),
        filter@ != ""@ && filter@ != "true"@,
        call_ensures(decimal::decimal_text, (request.samples,), count),
        records == "SELECT "@ + (if with_document {
            "id, document"@
        } else {
            "id"@
        }) + (if mode is Jaccard {
            ", vector::similarity::jaccard($vec, embedding) AS distance FROM type::table($tablename) WHERE "@
                + filter@ + " ORDER BY distance DESC LIMIT "@
        } else {
            ", vector::distance::knn() AS distance FROM type::table($tablename) WHERE "@ + filter@
                + " AND embedding <|"@ + count@ + ","@ + count@
                + "|> $vec ORDER BY distance ASC LIMIT "@
        }) + count@,
    ensures
        start is Embed,
        request.threshold is None ==> start->search.statement@ == records,
        request.threshold is Some ==> start->search.statement@ == (if with_document {
            "SELECT id, document, distance FROM ("@
        } else {
            "SELECT id, distance FROM ("@
        }) + records + (if mode is Jaccard {
            ") WHERE distance >= $threshold ORDER BY distance DESC LIMIT "@
        } else {
            ") WHERE distance <= $threshold ORDER BY distance ASC LIMIT "@
        }) + count@,
{
    let samples = request.samples as nat;
    filtered_records_spelled_out(mode, with_document, samples, filter@, count@, records);
    statements::bounded_search_spelled_out(mode, with_document, samples, filter@, records, count@);
}

/// What was embedded is bound to the statement, with the table and the threshold that were waiting
/// for it; a failed embedding ends the search with its error.
pub proof fn embeddings_are_bound_to_the_statement<V, S, E, D>(
    search: PendingSearch<S>,
    outcome: Result<V, E>,
    result: Result<BoundQuery<V, S>, VectorStoreError<E, D>>,
)
    requires
        call_ensures(PendingSearch::<S>::embedded::<V, E, D>, (search, outcome), result),
    ensures
        outcome is Ok ==> {
            &&& result is Ok
            &&& result->Ok_0.vec == outcome->Ok_0
            &&& result->Ok_0.statement@ == search.statement@
            &&& result->Ok_0.tablename@ == search.tablename@
            &&& result->Ok_0.threshold == search.threshold
        },
        outcome is Err ==> result == Err::<BoundQuery<V, S>, VectorStoreError<E, D>>(
            VectorStoreError::EmbeddingError(outcome->Err_0),
        ),
{
}

/// A search that wants no results ends well, with none.
pub proof fn searches_for_nothing_end_well<R, E, D>(result: Result<Vec<R>, VectorStoreError<E, D>>)
    requires
        call_ensures(search::finish_empty::<R, E, D>, (), result),
    ensures
        result is Ok,
        result->Ok_0@.len() == 0,
{
}

/// A search reports every row of the answer, in the order of the answer, each with its own score,
/// id and document, where `decode` can read all the documents.
pub proof fn every_row_is_reported<
    S,
    T,
    E,
    D,
    F: Fn(serde_json::Value) -> Result<T, serde_json::Error>,
>(
    rows: Vec<SearchResult<S>>,
    decode: F,
    result: Result<Vec<(S, String, T)>, VectorStoreError<E, D>>,
)
    requires
        call_ensures(search::finish_documents::<S, T, E, D, F>, (Ok(rows), &decode), result),
        forall|i: int, error: serde_json::Error|
            0 <= i < rows@.len() ==> !#[trigger] call_ensures(
                decode,
                (rows@[i].document,),
                Err(error),
            ),
    ensures
        result is Ok,
        result->Ok_0@.len() == rows@.len(),
        forall|i: int|
            0 <= i < rows@.len() ==> {
                &&& (#[trigger] result->Ok_0@[i]).0 == rows@[i].distance
                &&& result->Ok_0@[i].1@ == surreal::record_id_sql(rows@[i].id)
                &&& call_ensures(decode, (rows@[i].document,), Ok(result->Ok_0@[i].2))
            },
{
    if result is Ok {
        assert forall|i: int| 0 <= i < rows@.len() implies {
            &&& (#[trigger] result->Ok_0@[i]).0 == rows@[i].distance
            &&& result->Ok_0@[i].1@ == surreal::record_id_sql(rows@[i].id)
            &&& call_ensures(decode, (rows@[i].document,), Ok(result->Ok_0@[i].2))
        } by {
            assert(search::found_in(rows@[i], decode, result->Ok_0@[i]));
        }
    } else {
        let error = result->Err_0->JsonError_0;
        let k = choose|k: int|
            0 <= k < rows@.len() && search::unreadable::<S, T, F>(
                #[trigger] rows@[k],
                decode,
                error,
            );
        assert(call_ensures(decode, (rows@[k].document,), Err::<T, serde_json::Error>(error)));
    }
}

/// Whether `decode` can have read `document`.
pub open spec fn can_read<T, F: Fn(serde_json::Value) -> Result<T, serde_json::Error>>(
    decode: F,
    document: serde_json::Value,
) -> bool {
    exists|read: T| call_ensures(decode, (document,), Ok(read))
}

/// A search that ends well reports every row of the answer, in order, each with its own score, id
/// and document. One that does not fails on a document of the answer: the first that `decode`
/// could not read, with the error that reading it gave.
pub proof fn searches_report_all_rows_or_the_first_failure<
    S,
    T,
    E,
    D,
    F: Fn(serde_json::Value) -> Result<T, serde_json::Error>,
>(
    rows: Vec<SearchResult<S>>,
    decode: F,
    result: Result<Vec<(S, String, T)>, VectorStoreError<E, D>>,
)
    requires
        call_ensures(search::finish_documents::<S, T, E, D, F>, (Ok(rows), &decode), result),
    ensures
        result is Ok ==> result->Ok_0@.len() == rows@.len() && forall|i: int|
            0 <= i < rows@.len() ==> {
                &&& (#[trigger] result->Ok_0@[i]).0 == rows@[i].distance
                &&& result->Ok_0@[i].1@ == surreal::record_id_sql(rows@[i].id)
                &&& call_ensures(decode, (rows@[i].document,), Ok(result->Ok_0@[i].2))
            },
        result is Err ==> result->Err_0 is JsonError && exists|k: int|
            0 <= k < rows@.len() && call_ensures(
                decode,
                ((#[trigger] rows@[k]).document,),
                Err::<T, serde_json::Error>(result->Err_0->JsonError_0),
            ) && forall|i: int|
                0 <= i < k ==> can_read::<T, F>(decode, (#[trigger] rows@[i]).document),
{
    if result is Ok {
        assert forall|i: int| 0 <= i < rows@.len() implies {
            &&& (#[trigger] result->Ok_0@[i]).0 == rows@[i].distance
            &&& result->Ok_0@[i].1@ == surreal::record_id_sql(rows@[i].id)
            &&& call_ensures(decode, (rows@[i].document,), Ok(result->Ok_0@[i].2))
        } by {
            assert(search::found_in(rows@[i], decode, result->Ok_0@[i]));
        }
    } else {
        let error = result->Err_0->JsonError_0;
        let k = choose|k: int|
            0 <= k < rows@.len() && search::unreadable::<S, T, F>(
                #[trigger] rows@[k],
                decode,
                error,
            ) && (forall|i: int|
                0 <= i < k ==> search::readable::<S, T, F>(#[trigger] rows@[i], decode));
        assert(call_ensures(decode, (rows@[k].document,), Err::<T, serde_json::Error>(error)));
        assert forall|i: int| 0 <= i < k implies can_read::<T, F>(
            decode,
            (#[trigger] rows@[i]).document,
        ) by {
            assert(search::readable::<S, T, F>(rows@[i], decode));
        }
    }
}

/// Where `decode` reads each document in one way only, a search reports what it reads; the first
/// document that it cannot read ends the search with its error, whatever follows.
pub proof fn searches_report_what_is_read<
    S,
    T,
    E,
    D,
    F: Fn(serde_json::Value) -> Result<T, serde_json::Error>,
>(
    rows: Vec<SearchResult<S>>,
    decode: F,
    reading: spec_fn(serde_json::Value) -> Result<T, serde_json::Error>,
    result: Result<Vec<(S, String, T)>, VectorStoreError<E, D>>,
)
    requires
        call_ensures(search::finish_documents::<S, T, E, D, F>, (Ok(rows), &decode), result),
        forall|document: serde_json::Value, outcome: Result<T, serde_json::Error>|
            #[trigger] call_ensures(decode, (document,), outcome) ==> outcome == reading(document),
    ensures
        (forall|i: int| 0 <= i < rows@.len() ==> reading((#[trigger] rows@[i]).document) is Ok)
            ==> result is Ok && result->Ok_0@.len() == rows@.len() && forall|i: int|
            0 <= i < rows@.len() ==> (#[trigger] result->Ok_0@[i]).2 == reading(
                rows@[i].document,
            )->Ok_0,
        forall|k: int|
            0 <= k < rows@.len() && reading((#[trigger] rows@[k]).document) is Err && (forall|
                i: int,
            |
                0 <= i < k ==> reading((#[trigger] rows@[i]).document) is Ok) ==> result == Err::<
                Vec<(S, String, T)>,
                VectorStoreError<E, D>,
            >(VectorStoreError::JsonError(reading(rows@[k].document)->Err_0)),
{
    searches_report_all_rows_or_the_first_failure::<S, T, E, D, F>(rows, decode, result);
}

/// An id-only search reports every row of the answer, in the order of the answer, each with its
/// own score and id.
pub proof fn every_id_is_reported<S, E, D>(
    rows: Vec<SearchResultOnlyId<S>>,
    result: Result<Vec<(S, String)>, VectorStoreError<E, D>>,
)
    requires
        call_ensures(search::finish_ids::<S, E, D>, (Ok(rows),), result),
    ensures
        result is Ok,
        result->Ok_0@.len() == rows@.len(),
        forall|i: int|
            0 <= i < rows@.len() ==> {
                &&& (#[trigger] result->Ok_0@[i]).0 == rows@[i].distance
                &&& result->Ok_0@[i].1@ == surreal::record_id_sql(rows@[i].id)
            },
{
}

/// A failed query ends either kind of search with the database's error.
pub proof fn failed_queries_end_searches<
    S,
    T,
    E,
    D,
    F: Fn(serde_json::Value) -> Result<T, serde_json::Error>,
>(
    error: D,
    decode: F,
    documents: Result<Vec<(S, String, T)>, VectorStoreError<E, D>>,
    ids: Result<Vec<(S, String)>, VectorStoreError<E, D>>,
)
    requires
        call_ensures(search::finish_documents::<S, T, E, D, F>, (Err(error), &decode), documents),
        call_ensures(search::finish_ids::<S, E, D>, (Err(error),), ids),
    ensures
        documents == Err::<Vec<(S, String, T)>, VectorStoreError<E, D>>(
            VectorStoreError::DatastoreError(error),
        ),
        ids == Err::<Vec<(S, String)>, VectorStoreError<E, D>>(
            VectorStoreError::DatastoreError(error),
        ),
{
}

/// A row by itself gives its score, its id and its document, or the failure to read the document.
pub proof fn rows_give_score_id_and_document<
    S,
    T,
    E,
    D,
    F: Fn(serde_json::Value) -> Result<T, serde_json::Error>,
>(
    row: SearchResult<S>,
    decode: F,
    result: Result<(S, String, T), VectorStoreError<E, D>>,
)
    requires
        call_ensures(SearchResult::<S>::into_result::<T, E, D, F>, (row, &decode), result),
    ensures
        result is Ok ==> {
            &&& result->Ok_0.0 == row.distance
            &&& result->Ok_0.1@ == surreal::record_id_sql(row.id)
            &&& call_ensures(decode, (row.document,), Ok(result->Ok_0.2))
        },
        result is Err ==> {
            &&& result->Err_0 is JsonError
            &&& call_ensures(
                decode,
                (row.document,),
                Err::<T, serde_json::Error>(result->Err_0->JsonError_0),
            )
        },
{
}

/// A result put together from its parts holds those parts, or the failure that came in place of
/// the document.
pub proof fn results_hold_their_parts<S, T, E, D>(
    distance: S,
    id: RecordId,
    decoded: Result<T, serde_json::Error>,
    result: Result<(S, String, T), VectorStoreError<E, D>>,
)
    requires
        call_ensures(SearchResult::<S>::assemble::<T, E, D>, (distance, id, decoded), result),
    ensures
        decoded is Ok ==> {
            &&& result is Ok
            &&& result->Ok_0.0 == distance
            &&& result->Ok_0.1@ == surreal::record_id_sql(id)
            &&& result->Ok_0.2 == decoded->Ok_0
        },
        decoded is Err ==> result == Err::<(S, String, T), VectorStoreError<E, D>>(
            VectorStoreError::JsonError(decoded->Err_0),
        ),
{
}

/// An id-only row by itself gives its score and its id.
pub proof fn id_rows_give_score_and_id<S>(row: SearchResultOnlyId<S>, result: (S, String))
    requires
        call_ensures(SearchResultOnlyId::<S>::into_result, (row,), result),
    ensures
        result.0 == row.distance,
        result.1@ == surreal::record_id_sql(row.id),
{
}

} // verus!
