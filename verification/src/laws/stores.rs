//! What a store promises of its parts.

use vstd::prelude::*;

use crate::distance::SurrealDistanceFunction;
use crate::statement;
use crate::store::SurrealVectorStore;

verus! {

/// Whether `store` was made for this model, client, table and distance mode, by either of the
/// calls that make a store.
pub open spec fn made<C, Model>(
    store: SurrealVectorStore<C, Model>,
    model: Model,
    client: C,
    table: Option<String>,
    mode: SurrealDistanceFunction,
) -> bool {
    ||| call_ensures(SurrealVectorStore::<C, Model>::new, (model, client, table, mode), store)
    ||| {
        &&& table is None
        &&& mode is Cosine
        &&& call_ensures(SurrealVectorStore::<C, Model>::with_defaults, (model, client), store)
    }
}

/// A store hands back the client and the model that it was made with.
pub proof fn stores_keep_client_and_model<C, Model>(
    store: SurrealVectorStore<C, Model>,
    model: Model,
    client: C,
    table: Option<String>,
    mode: SurrealDistanceFunction,
    client_again: &C,
    model_again: &Model,
)
    requires
        made(store, model, client, table, mode),
        call_ensures(SurrealVectorStore::<C, Model>::inner_client, (&store,), client_again),
        call_ensures(SurrealVectorStore::<C, Model>::model, (&store,), model_again),
    ensures
        *client_again == client,
        *model_again == model,
{
}

/// A store writes the statements of the distance mode that it was made with.
pub proof fn stores_write_the_statements_of_their_mode<C, Model>(
    store: SurrealVectorStore<C, Model>,
    model: Model,
    client: C,
    table: Option<String>,
    mode: SurrealDistanceFunction,
    with_document: bool,
    samples: u64,
    filter: &str,
    has_threshold: bool,
    query: String,
    text: String,
)
    requires
        made(store, model, client, table, mode),
        call_ensures(
            SurrealVectorStore::<C, Model>::search_query,
            (&store, with_document, samples, filter, has_threshold),
            query,
        ),
        call_ensures(
            statement::search_text,
            (mode, with_document, samples, filter, has_threshold),
            text,
        ),
    ensures
        query@ == text@,
{
}

} // verus!
