//! What insertions promise: which step each document and each embedding is taken in, and how an
//! insertion ends.
//!
//! A step is known by its number. `encode` and `create` give what came of the outside work of the
//! step with a number, and `starts` the number of the step at which each document is taken up.

use vstd::prelude::*;

use crate::distance::SurrealDistanceFunction;
use crate::error::VectorStoreError;
use crate::insertion;
use crate::insertion::{AwaitingDocument, AwaitingRecord, InsertStep};
use crate::laws::stores;
use crate::record::Embedding;
use crate::store::SurrealVectorStore;

verus! {

/// Whether step `n` was handed the outcome of its outside work, and gave the one after it. Nothing
/// follows a step that ends the insertion.
pub open spec fn handed_on<Doc, V, E, D>(
    steps: Seq<InsertStep<Doc, V, E, D>>,
    encode: spec_fn(int) -> Result<serde_json::Value, serde_json::Error>,
    create: spec_fn(int) -> Result<(), D>,
    n: int,
) -> bool {
    match steps[n] {
        InsertStep::Encode { encoding, .. } => call_ensures(
            AwaitingDocument::<Doc, V>::encoded::<E, D>,
            (encoding, encode(n)),
            steps[n + 1],
        ),
        InsertStep::Create { creation, .. } => call_ensures(
            AwaitingRecord::<Doc, V>::created::<E, D>,
            (creation, create(n)),
            steps[n + 1],
        ),
        InsertStep::Finished(_) => false,
    }
}

/// Whether `steps` are steps of one insertion, each given by the one before it.
pub open spec fn carried_out<Doc, V, E, D>(
    steps: Seq<InsertStep<Doc, V, E, D>>,
    encode: spec_fn(int) -> Result<serde_json::Value, serde_json::Error>,
    create: spec_fn(int) -> Result<(), D>,
) -> bool {
    forall|n: int| 0 <= n < steps.len() - 1 ==> #[trigger] handed_on(steps, encode, create, n)
}

/// Whether `step` is how an insertion of `documents` begins: by the store, or on the store's table
/// by name.
pub open spec fn begun<C, Model, Doc, V, E, D>(
    store: SurrealVectorStore<C, Model>,
    table: Seq<char>,
    documents: Vec<(Doc, Vec<Embedding<V>>)>,
    step: InsertStep<Doc, V, E, D>,
) -> bool {
    ||| call_ensures(
        SurrealVectorStore::<C, Model>::insert_documents::<Doc, V, E, D>,
        (&store, documents),
        step,
    )
    ||| exists|name: String|
        name@ == table && #[trigger] call_ensures(
            InsertStep::<Doc, V, E, D>::first,
            (name, documents),
            step,
        )
}

/// Whether `starts[i]` steps come before the one that takes up document `i`: one for each document
/// before it and one for each embedding of these. The last entry counts the steps of them all.
pub open spec fn scheduled<Doc, V>(
    documents: Seq<(Doc, Vec<Embedding<V>>)>,
    starts: Seq<int>,
) -> bool {
    &&& starts.len() == documents.len() + 1
    &&& starts[0] == 0
    &&& forall|i: int|
        0 <= i < documents.len() ==> starts[i + 1] == starts[i] + 1 + (
        #[trigger] documents[i]).1@.len()
}

proof fn starts_increase<Doc, V>(
    documents: Seq<(Doc, Vec<Embedding<V>>)>,
    starts: Seq<int>,
    i: int,
    k: int,
)
    requires
        scheduled(documents, starts),
        0 <= i <= k <= documents.len(),
    ensures
        starts[i] <= starts[k],
    decreases k - i,
{
    if i < k {
        starts_increase(documents, starts, i, k - 1);
        assert(starts[k - 1 + 1] == starts[k - 1] + 1 + documents[k - 1].1@.len());
    }
}

proof fn document_is_taken_up<Doc, V, E, D>(
    table: Seq<char>,
    documents: Seq<(Doc, Vec<Embedding<V>>)>,
    starts: Seq<int>,
    steps: Seq<InsertStep<Doc, V, E, D>>,
    encode: spec_fn(int) -> Result<serde_json::Value, serde_json::Error>,
    create: spec_fn(int) -> Result<(), D>,
    i: int,
)
    requires
        scheduled(documents, starts),
        steps.len() > 0,
        steps[0].course() == insertion::next_document::<Doc, V, E, D>(
            table,
            insertion::entries(documents),
        ),
        carried_out(steps, encode, create),
        0 <= i <= documents.len(),
        starts[i] < steps.len(),
        forall|n: int| 0 <= n < starts[i] ==> #[trigger] encode(n) is Ok,
        forall|n: int| 0 <= n < starts[i] ==> #[trigger] create(n) is Ok,
    ensures
        starts[i] >= 0,
        steps[starts[i]].course() == insertion::next_document::<Doc, V, E, D>(
            table,
            insertion::entries(documents).skip(i),
        ),
    decreases i, 0nat,
{
    let all = insertion::entries(documents);
    if i == 0 {
        assert(all.skip(0) =~= all);
    } else {
        let embeddings = documents[i - 1].1@;
        assert(starts[i] == starts[i - 1] + 1 + embeddings.len());
        record_is_taken_up(
            table,
            documents,
            starts,
            steps,
            encode,
            create,
            i - 1,
            embeddings.len() as int,
        );
    }
}

proof fn record_is_taken_up<Doc, V, E, D>(
    table: Seq<char>,
    documents: Seq<(Doc, Vec<Embedding<V>>)>,
    starts: Seq<int>,
    steps: Seq<InsertStep<Doc, V, E, D>>,
    encode: spec_fn(int) -> Result<serde_json::Value, serde_json::Error>,
    create: spec_fn(int) -> Result<(), D>,
    i: int,
    j: int,
)
    requires
        scheduled(documents, starts),
        steps.len() > 0,
        steps[0].course() == insertion::next_document::<Doc, V, E, D>(
            table,
            insertion::entries(documents),
        ),
        carried_out(steps, encode, create),
        0 <= i < documents.len(),
        0 <= j <= documents[i].1@.len(),
        starts[i] + 1 + j < steps.len(),
        forall|n: int| 0 <= n < starts[i] + 1 + j ==> #[trigger] encode(n) is Ok,
        forall|n: int| 0 <= n < starts[i] + 1 + j ==> #[trigger] create(n) is Ok,
    ensures
        starts[i] >= 0,
        steps[starts[i] + 1 + j].course() == insertion::next_record::<Doc, V, E, D>(
            table,
            encode(starts[i])->Ok_0,
            documents[i].1@.skip(j),
            insertion::entries(documents).skip(i + 1),
        ),
    decreases i, (j + 1) as nat,
{
    let all = insertion::entries(documents);
    let embeddings = documents[i].1@;
    let n = starts[i] + j;
    if j == 0 {
        document_is_taken_up(table, documents, starts, steps, encode, create, i);
        assert(all.skip(i)[0] == all[i]);
        assert(all.skip(i).drop_first() =~= all.skip(i + 1));
        assert(embeddings.skip(0) =~= embeddings);
        assert(handed_on(steps, encode, create, n));
        assert(encode(n) is Ok);
    } else {
        record_is_taken_up(table, documents, starts, steps, encode, create, i, j - 1);
        assert(embeddings.skip(j - 1)[0] == embeddings[j - 1]);
        assert(embeddings.skip(j - 1).drop_first() =~= embeddings.skip(j));
        assert(handed_on(steps, encode, create, n));
        assert(create(n) is Ok);
    }
}

proof fn begun_is_on_course<C, Model, Doc, V, E, D>(
    store: SurrealVectorStore<C, Model>,
    model: Model,
    client: C,
    table: Option<String>,
    mode: SurrealDistanceFunction,
    name: Seq<char>,
    documents: Vec<(Doc, Vec<Embedding<V>>)>,
    step: InsertStep<Doc, V, E, D>,
)
    requires
        stores::made(store, model, client, table, mode),
        name == match table {
            Some(given) => given@,
            None => "documents"@,
        },
        begun(store, name, documents, step),
    ensures
        step.course() == insertion::next_document::<Doc, V, E, D>(
            name,
            insertion::entries(documents@),
        ),
{
}

/// An insertion takes the documents in order, for as long as nothing fails, and after the last of
/// them and of its embeddings it ends well.
pub proof fn insertions_take_every_document_in_order<C, Model, Doc, V, E, D>(
    store: SurrealVectorStore<C, Model>,
    model: Model,
    client: C,
    table: Option<String>,
    mode: SurrealDistanceFunction,
    name: Seq<char>,
    documents: Vec<(Doc, Vec<Embedding<V>>)>,
    starts: Seq<int>,
    steps: Seq<InsertStep<Doc, V, E, D>>,
    encode: spec_fn(int) -> Result<serde_json::Value, serde_json::Error>,
    create: spec_fn(int) -> Result<(), D>,
    i: int,
)
    requires
        stores::made(store, model, client, table, mode),
        name == match table {
            Some(given) => given@,
            None => "documents"@,
        },
        scheduled(documents@, starts),
        0 <= i <= documents@.len(),
        starts[i] < steps.len(),
        begun(store, name, documents, steps[0]),
        carried_out(steps, encode, create),
        forall|n: int| 0 <= n < starts[i] ==> #[trigger] encode(n) is Ok,
        forall|n: int| 0 <= n < starts[i] ==> #[trigger] create(n) is Ok,
    ensures
        0 <= starts[i],
        i < documents@.len() ==> {
            &&& steps[starts[i]] is Encode
            &&& steps[starts[i]]->document == documents@[i].0
        },
        i == documents@.len() ==> {
            &&& steps[starts[i]] == InsertStep::<Doc, V, E, D>::Finished(Ok(()))
            &&& steps.len() == starts[i] + 1
        },
{
    let all = insertion::entries(documents@);
    starts_increase(documents@, starts, 0, i);
    begun_is_on_course(store, model, client, table, mode, name, documents, steps[0]);
    document_is_taken_up(name, documents@, starts, steps, encode, create, i);
    if i < documents@.len() {
        assert(all.skip(i)[0] == all[i]);
    } else if starts[i] < steps.len() - 1 {
        assert(handed_on(steps, encode, create, starts[i]));
    }
}

/// An insertion takes every embedding of a document in order, each in a step of its own right
/// behind the document's, for as long as nothing fails. The step creates a record in the store's
/// table that holds the document's JSON, the embedded text and the vector.
pub proof fn insertions_take_every_embedding_in_order<C, Model, Doc, V, E, D>(
    store: SurrealVectorStore<C, Model>,
    model: Model,
    client: C,
    table: Option<String>,
    mode: SurrealDistanceFunction,
    name: Seq<char>,
    documents: Vec<(Doc, Vec<Embedding<V>>)>,
    starts: Seq<int>,
    steps: Seq<InsertStep<Doc, V, E, D>>,
    encode: spec_fn(int) -> Result<serde_json::Value, serde_json::Error>,
    create: spec_fn(int) -> Result<(), D>,
    i: int,
    j: int,
)
    requires
        stores::made(store, model, client, table, mode),
        name == match table {
            Some(given) => given@,
            None => "documents"@,
        },
        scheduled(documents@, starts),
        0 <= i < documents@.len(),
        0 <= j < documents@[i].1@.len(),
        starts[i] + 1 + j < steps.len(),
        begun(store, name, documents, steps[0]),
        carried_out(steps, encode, create),
        forall|n: int| 0 <= n < starts[i] + 1 + j ==> #[trigger] encode(n) is Ok,
        forall|n: int| 0 <= n < starts[i] + 1 + j ==> #[trigger] create(n) is Ok,
    ensures
        0 <= starts[i],
        steps[starts[i] + 1 + j] is Create,
        steps[starts[i] + 1 + j]->table@ == name,
        steps[starts[i] + 1 + j]->record.document == encode(starts[i])->Ok_0,
        steps[starts[i] + 1 + j]->record.embedded_text == documents@[i].1@[j].document,
        steps[starts[i] + 1 + j]->record.embedding == documents@[i].1@[j].vec,
{
    starts_increase(documents@, starts, 0, i);
    begun_is_on_course(store, model, client, table, mode, name, documents, steps[0]);
    record_is_taken_up(name, documents@, starts, steps, encode, create, i, j);
    assert(documents@[i].1@.skip(j)[0] == documents@[i].1@[j]);
}

/// The document whose steps hold the step with number `n`.
proof fn document_of_step<Doc, V>(
    documents: Seq<(Doc, Vec<Embedding<V>>)>,
    starts: Seq<int>,
    n: int,
    bound: int,
) -> (i: int)
    requires
        scheduled(documents, starts),
        0 <= bound <= documents.len(),
        0 <= n < starts[bound],
    ensures
        0 <= i < bound,
        starts[i] <= n < starts[i + 1],
    decreases bound,
{
    if bound == 0 {
        0
    } else if starts[bound - 1] <= n {
        bound - 1
    } else {
        document_of_step(documents, starts, n, bound - 1)
    }
}

/// Where nothing fails, an insertion that has come to its end has ended well, with one step for
/// each document, one for each embedding of each document, the end, and no others. So every
/// document was taken up, and every one of its embeddings was stored.
pub proof fn insertions_store_every_embedding<C, Model, Doc, V, E, D>(
    store: SurrealVectorStore<C, Model>,
    model: Model,
    client: C,
    table: Option<String>,
    mode: SurrealDistanceFunction,
    name: Seq<char>,
    documents: Vec<(Doc, Vec<Embedding<V>>)>,
    starts: Seq<int>,
    steps: Seq<InsertStep<Doc, V, E, D>>,
    encode: spec_fn(int) -> Result<serde_json::Value, serde_json::Error>,
    create: spec_fn(int) -> Result<(), D>,
)
    requires
        stores::made(store, model, client, table, mode),
        name == match table {
            Some(given) => given@,
            None => "documents"@,
        },
        scheduled(documents@, starts),
        steps.len() > 0,
        begun(store, name, documents, steps[0]),
        carried_out(steps, encode, create),
        steps.last() is Finished,
        forall|n: int| 0 <= n < steps.len() ==> #[trigger] encode(n) is Ok,
        forall|n: int| 0 <= n < steps.len() ==> #[trigger] create(n) is Ok,
    ensures
        steps.len() == starts.last() + 1,
        steps.last() == InsertStep::<Doc, V, E, D>::Finished(Ok(())),
        forall|i: int|
            0 <= i < documents@.len() ==> 0 <= #[trigger] starts[i] && starts[i] + 1
                + documents@[i].1@.len() < steps.len(),
{
    let last = steps.len() - 1;
    let count = documents@.len() as int;
    if last < starts.last() {
        let i = document_of_step(documents@, starts, last, count);
        assert(documents@[i].1@.len() == starts[i + 1] - starts[i] - 1);
        if last == starts[i] {
            insertions_take_every_document_in_order(
                store,
                model,
                client,
                table,
                mode,
                name,
                documents,
                starts,
                steps,
                encode,
                create,
                i,
            );
        } else {
            insertions_take_every_embedding_in_order(
                store,
                model,
                client,
                table,
                mode,
                name,
                documents,
                starts,
                steps,
                encode,
                create,
                i,
                last - starts[i] - 1,
            );
        }
    } else {
        insertions_take_every_document_in_order(
            store,
            model,
            client,
            table,
            mode,
            name,
            documents,
            starts,
            steps,
            encode,
            create,
            count,
        );
    }
    assert forall|i: int| 0 <= i < count implies 0 <= #[trigger] starts[i] && starts[i] + 1
        + documents@[i].1@.len() < steps.len() by {
        starts_increase(documents@, starts, 0, i);
        starts_increase(documents@, starts, i + 1, count);
        assert(documents@[i].1@.len() == starts[i + 1] - starts[i] - 1);
    }
}

proof fn records_created_before<C, Model, Doc, V, E, D>(
    store: SurrealVectorStore<C, Model>,
    model: Model,
    client: C,
    table: Option<String>,
    mode: SurrealDistanceFunction,
    name: Seq<char>,
    documents: Vec<(Doc, Vec<Embedding<V>>)>,
    starts: Seq<int>,
    steps: Seq<InsertStep<Doc, V, E, D>>,
    encode: spec_fn(int) -> Result<serde_json::Value, serde_json::Error>,
    create: spec_fn(int) -> Result<(), D>,
    creates: spec_fn(InsertStep<Doc, V, E, D>) -> bool,
    n: int,
) -> (i: int)
    requires
        stores::made(store, model, client, table, mode),
        name == match table {
            Some(given) => given@,
            None => "documents"@,
        },
        scheduled(documents@, starts),
        0 <= n < steps.len(),
        n <= starts.last(),
        begun(store, name, documents, steps[0]),
        carried_out(steps, encode, create),
        forall|k: int| 0 <= k < n ==> #[trigger] encode(k) is Ok,
        forall|k: int| 0 <= k < n ==> #[trigger] create(k) is Ok,
        forall|step: InsertStep<Doc, V, E, D>| #[trigger] creates(step) == (step is Create),
    ensures
        0 <= i <= documents@.len(),
        i < documents@.len() ==> starts[i] <= n < starts[i + 1],
        i == documents@.len() ==> n == starts.last(),
        steps.take(n).filter(creates).len() == n - i - (if i < documents@.len() && starts[i] < n {
            1int
        } else {
            0int
        }),
    decreases n,
{
    reveal(Seq::filter);
    let count = documents@.len() as int;
    if n == 0 {
        if count > 0 {
            assert(documents@[0].1@.len() == starts[1] - starts[0] - 1);
        }
        0
    } else {
        let before = records_created_before(
            store,
            model,
            client,
            table,
            mode,
            name,
            documents,
            starts,
            steps,
            encode,
            create,
            creates,
            n - 1,
        );
        starts_increase(documents@, starts, before, count);
        assert(before < count);
        assert(documents@[before].1@.len() == starts[before + 1] - starts[before] - 1);
        assert(steps.take(n).drop_last() =~= steps.take(n - 1));
        assert(steps.take(n).last() == steps[n - 1]);
        if n - 1 == starts[before] {
            insertions_take_every_document_in_order(
                store,
                model,
                client,
                table,
                mode,
                name,
                documents,
                starts,
                steps,
                encode,
                create,
                before,
            );
        } else {
            insertions_take_every_embedding_in_order(
                store,
                model,
                client,
                table,
                mode,
                name,
                documents,
                starts,
                steps,
                encode,
                create,
                before,
                n - 2 - starts[before],
            );
        }
        if n < starts[before + 1] {
            before
        } else {
            if before + 1 < count {
                assert(documents@[before + 1].1@.len() == starts[before + 2] - starts[before + 1]
                    - 1);
            }
            before + 1
        }
    }
}

/// Where nothing fails, an insertion tries to create exactly as many records as there are
/// embeddings, over all the documents.
pub proof fn insertions_create_one_record_per_embedding<C, Model, Doc, V, E, D>(
    store: SurrealVectorStore<C, Model>,
    model: Model,
    client: C,
    table: Option<String>,
    mode: SurrealDistanceFunction,
    name: Seq<char>,
    documents: Vec<(Doc, Vec<Embedding<V>>)>,
    starts: Seq<int>,
    steps: Seq<InsertStep<Doc, V, E, D>>,
    encode: spec_fn(int) -> Result<serde_json::Value, serde_json::Error>,
    create: spec_fn(int) -> Result<(), D>,
    embeddings: Seq<int>,
)
    requires
        stores::made(store, model, client, table, mode),
        name == match table {
            Some(given) => given@,
            None => "documents"@,
        },
        scheduled(documents@, starts),
        embeddings.len() == documents@.len() + 1,
        embeddings[0] == 0,
        forall|i: int|
            0 <= i < documents@.len() ==> embeddings[i + 1] == embeddings[i] + (
            #[trigger] documents@[i]).1@.len(),
        steps.len() > 0,
        begun(store, name, documents, steps[0]),
        carried_out(steps, encode, create),
        steps.last() is Finished,
        forall|n: int| 0 <= n < steps.len() ==> #[trigger] encode(n) is Ok,
        forall|n: int| 0 <= n < steps.len() ==> #[trigger] create(n) is Ok,
    ensures
        steps.filter(|step: InsertStep<Doc, V, E, D>| step is Create).len() == embeddings.last(),
{
    reveal(Seq::filter);
    let creates = |step: InsertStep<Doc, V, E, D>| step is Create;
    let last = steps.len() - 1;
    insertions_store_every_embedding(
        store,
        model,
        client,
        table,
        mode,
        name,
        documents,
        starts,
        steps,
        encode,
        create,
    );
    let i = records_created_before(
        store,
        model,
        client,
        table,
        mode,
        name,
        documents,
        starts,
        steps,
        encode,
        create,
        creates,
        last,
    );
    if i < documents@.len() {
        starts_increase(documents@, starts, i + 1, documents@.len() as int);
    }
    assert(steps.drop_last() =~= steps.take(last));
    embeddings_counted(documents@, starts, embeddings, documents@.len() as int);
}

proof fn embeddings_counted<Doc, V>(
    documents: Seq<(Doc, Vec<Embedding<V>>)>,
    starts: Seq<int>,
    embeddings: Seq<int>,
    i: int,
)
    requires
        scheduled(documents, starts),
        embeddings.len() == documents.len() + 1,
        embeddings[0] == 0,
        forall|i: int|
            0 <= i < documents.len() ==> embeddings[i + 1] == embeddings[i] + (
            #[trigger] documents[i]).1@.len(),
        0 <= i <= documents.len(),
    ensures
        starts[i] == embeddings[i] + i,
    decreases i,
{
    if i > 0 {
        embeddings_counted(documents, starts, embeddings, i - 1);
        assert(documents[i - 1].1@.len() == starts[i - 1 + 1] - starts[i - 1] - 1);
    }
}

/// The first failure ends an insertion: a document that cannot be turned into JSON with that
/// error, a record that the database refuses with the database's. No step follows.
pub proof fn failures_end_insertions<Doc, V, E, D>(
    steps: Seq<InsertStep<Doc, V, E, D>>,
    encode: spec_fn(int) -> Result<serde_json::Value, serde_json::Error>,
    create: spec_fn(int) -> Result<(), D>,
    n: int,
)
    requires
        carried_out(steps, encode, create),
        0 <= n < steps.len() - 1,
    ensures
        steps[n] is Encode && encode(n) is Err ==> {
            &&& steps.len() == n + 2
            &&& steps.last() == InsertStep::<Doc, V, E, D>::Finished(
                Err(VectorStoreError::JsonError(encode(n)->Err_0)),
            )
        },
        steps[n] is Create && create(n) is Err ==> {
            &&& steps.len() == n + 2
            &&& steps.last() == InsertStep::<Doc, V, E, D>::Finished(
                Err(VectorStoreError::DatastoreError(create(n)->Err_0)),
            )
        },
{
    assert(handed_on(steps, encode, create, n));
    if n + 1 < steps.len() - 1 {
        assert(handed_on(steps, encode, create, n + 1));
    }
}

} // verus!
