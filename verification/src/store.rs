//! The vector store.

use vstd::prelude::*;

use crate::distance::SurrealDistanceFunction;
use crate::insertion;
use crate::insertion::InsertStep;
use crate::record::Embedding;
use crate::search;
use crate::search::{BoundThreshold, PendingSearch, SearchStart, VectorSearchRequest};
use crate::statement;

verus! {

/// A vector store backed by SurrealDB records and vector indexes, over a database client `C`
/// and an embedding model `Model`.
pub struct SurrealVectorStore<C, Model> {
    model: Model,
    surreal: C,
    documents_table: String,
    distance_function: SurrealDistanceFunction,
}

impl<C, Model> SurrealVectorStore<C, Model> {
    /// The embedding model.
    pub closed spec fn embedding_model(self) -> Model {
        self.model
    }

    /// The database client.
    pub closed spec fn client(self) -> C {
        self.surreal
    }

    /// The name of the table that holds the documents.
    pub closed spec fn table(self) -> Seq<char> {
        self.documents_table@
    }

    /// The distance mode.
    pub closed spec fn distance(self) -> SurrealDistanceFunction {
        self.distance_function
    }

    /// Whether `start` is how a search for `request` begins: with nothing to do where no results
    /// are wanted, and otherwise with the query text to embed, the statement and what to bind.
    pub open spec fn begins<S>(
        self,
        with_document: bool,
        request: VectorSearchRequest<S>,
        start: SearchStart<S>,
    ) -> bool {
        match start {
            SearchStart::Empty => request.samples == 0,
            SearchStart::Embed { text, search } => {
                &&& request.samples > 0
                &&& text@ == request.query@
                &&& search.statement@ == statement::search(
                    self.distance(),
                    with_document,
                    request.samples as nat,
                    request.filter_text(),
                    request.threshold is Some,
                )
                &&& search.tablename@ == self.table()
                &&& search.threshold == search::bound_threshold(request.threshold)
            },
        }
    }

    /// Creates a vector store for the given SurrealDB client, table, and distance mode.
    pub fn new(
        model: Model,
        surreal: C,
        documents_table: Option<String>,
        distance_function: SurrealDistanceFunction,
    ) -> (store: Self)
        ensures
            store.embedding_model() == model,
            store.client() == surreal,
            store.table() == match documents_table {
                Some(table) => table@,
                None => "documents"@,
            },
            store.distance() == distance_function,
    {
        SurrealVectorStore {
            model,
            surreal,
            documents_table: documents_table.unwrap_or("documents".to_owned()),
            distance_function,
        }
    }

    /// Creates a store targeting the default `documents` table with cosine distance semantics.
    pub fn with_defaults(model: Model, surreal: C) -> (store: Self)
        ensures
            store.embedding_model() == model,
            store.client() == surreal,
            store.table() == "documents"@,
            store.distance() == SurrealDistanceFunction::Cosine,
    {
        Self::new(model, surreal, None, SurrealDistanceFunction::Cosine)
    }

    /// Returns the underlying SurrealDB client for schema management or custom queries.
    pub fn inner_client(&self) -> (client: &C)
        ensures
            *client == self.client(),
    {
        &self.surreal
    }

    /// Returns the embedding model.
    pub fn model(&self) -> (model: &Model)
        ensures
            *model == self.embedding_model(),
    {
        &self.model
    }

    /// Writes the statement of a search in the store's distance mode.
    pub fn search_query(
        &self,
        with_document: bool,
        samples: u64,
        filter: &str,
        has_threshold: bool,
    ) -> (query: String)
        ensures
            query@ == statement::search(
                self.distance(),
                with_document,
                samples as nat,
                filter@,
                has_threshold,
            ),
    {
        statement::search_text(
            self.distance_function,
            with_document,
            samples,
            filter,
            has_threshold,
        )
    }

    /// The text of a request's filter, `true` where it has none.
    pub fn filter_expression<S>(req: &VectorSearchRequest<S>) -> (filter: String)
        ensures
            filter@ == req.filter_text(),
    {
        match &req.filter {
            Some(filter) => filter.clone().inner(),
            None => "true".to_owned(),
        }
    }

    fn begin<S>(&self, with_document: bool, req: VectorSearchRequest<S>) -> (start: SearchStart<S>)
        ensures
            self.begins(with_document, req, start),
    {
        if req.samples == 0 {
            return SearchStart::Empty;
        }
        let filter = Self::filter_expression(&req);
        let statement = self.search_query(
            with_document,
            req.samples,
            filter.as_str(),
            req.threshold.is_some(),
        );
        SearchStart::Embed {
            text: req.query,
            search: PendingSearch {
                statement,
                tablename: self.documents_table.clone(),
                threshold: match req.threshold {
                    Some(score) => BoundThreshold::Given(score),
                    None => BoundThreshold::Zero,
                },
            },
        }
    }

    /// Begins the search for the top n documents based on the distance to the given query.
    pub fn top_n<S>(&self, req: VectorSearchRequest<S>) -> (start: SearchStart<S>)
        ensures
            self.begins(true, req, start),
    {
        self.begin(true, req)
    }

    /// Same as `top_n`, for the document ids only.
    pub fn top_n_ids<S>(&self, req: VectorSearchRequest<S>) -> (start: SearchStart<S>)
        ensures
            self.begins(false, req, start),
    {
        self.begin(false, req)
    }

    /// Begins the insertion of documents, each with its embeddings, into the store's table.
    pub fn insert_documents<Doc, V, E, D>(
        &self,
        documents: Vec<(Doc, Vec<Embedding<V>>)>,
    ) -> (step: InsertStep<Doc, V, E, D>)
        ensures
            step.course() == insertion::next_document::<Doc, V, E, D>(
                self.table(),
                insertion::entries(documents@),
            ),
    {
        InsertStep::first(self.documents_table.clone(), documents)
    }
}

} // verus!
