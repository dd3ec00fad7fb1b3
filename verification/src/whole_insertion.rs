//! Whole insertions: which records an insertion tries to create, and how it ends.

use vstd::prelude::*;

use crate::error::VectorStoreError;
use crate::insertion;
use crate::insertion::{Course, Entry, InsertStep};
use crate::record::{CreateRecord, Embedding};
use crate::search::{SearchStart, VectorSearchRequest};
use crate::store::SurrealVectorStore;

verus! {

/// A record and the table that it is to be created in.
pub type Attempt<V> = (Seq<char>, CreateRecord<V>);

/// How the outside work of an insertion turns out: what each document is as JSON, by the number
/// of documents before it, and what comes of each attempt to create a record, by the number of
/// attempts before it.
#[verifier::reject_recursive_types(Doc)]
#[verifier::reject_recursive_types(V)]
pub struct Outside<Doc, V, D> {
    /// What turning a document into JSON gives.
    pub encode: spec_fn(nat, Doc) -> Result<serde_json::Value, serde_json::Error>,
    /// What an attempt to create a record gives.
    pub create: spec_fn(nat, Attempt<V>) -> Result<(), D>,
}

/// The course that follows once the outside work of a course's step is done.
pub open spec fn follow<Doc, V, E, D>(
    course: Course<Doc, V, E, D>,
    outside: Outside<Doc, V, D>,
    encoded: nat,
    attempts: nat,
) -> Course<Doc, V, E, D> {
    match course {
        Course::Encode { table, document, embeddings, rest } => insertion::after_encoding(
            table,
            embeddings,
            rest,
            (outside.encode)(encoded, document),
        ),
        Course::Create { target, record, table, json, embeddings, rest } => {
            insertion::after_creation(
                table,
                json,
                embeddings,
                rest,
                (outside.create)(attempts, (target, record)),
            )
        },
        Course::Finished(result) => Course::Finished(result),
    }
}

/// The number of documents that a course has not begun.
pub open spec fn documents_left<Doc, V, E, D>(course: Course<Doc, V, E, D>) -> nat {
    match course {
        Course::Encode { rest, .. } => rest.len(),
        Course::Create { rest, .. } => rest.len(),
        Course::Finished(_) => 0,
    }
}

/// Whether a course waits for JSON, as a number.
pub open spec fn encodings_left<Doc, V, E, D>(course: Course<Doc, V, E, D>) -> nat {
    match course {
        Course::Encode { .. } => 1,
        _ => 0,
    }
}

/// The number of records that a course has still to create for its current document.
pub open spec fn records_left<Doc, V, E, D>(course: Course<Doc, V, E, D>) -> nat {
    match course {
        Course::Create { embeddings, .. } => embeddings.len() + 1,
        _ => 0,
    }
}

/// All the attempts of an insertion, those of `made` first, and the result that it ends with.
/// `encoded` documents were turned into JSON before.
pub open spec fn run<Doc, V, E, D>(
    course: Course<Doc, V, E, D>,
    outside: Outside<Doc, V, D>,
    encoded: nat,
    made: Seq<Attempt<V>>,
) -> (Seq<Attempt<V>>, Result<(), VectorStoreError<E, D>>)
    decreases documents_left(course), encodings_left(course), records_left(course),
{
    match course {
        Course::Encode { .. } => run(
            follow(course, outside, encoded, made.len()),
            outside,
            encoded + 1,
            made,
        ),
        Course::Create { target, record, .. } => run(
            follow(course, outside, encoded, made.len()),
            outside,
            encoded,
            made.push((target, record)),
        ),
        Course::Finished(result) => (made, result),
    }
}

/// The attempts that store one document: one record for each embedding, in order.
pub open spec fn attempts_for<V>(
    table: Seq<char>,
    json: serde_json::Value,
    embeddings: Seq<Embedding<V>>,
) -> Seq<Attempt<V>> {
    embeddings.map_values(|embedding: Embedding<V>| (table, insertion::record_for(json, embedding)))
}

/// The attempts that store all of `documents`, in order, where `encoded` documents were turned
/// into JSON before.
pub open spec fn all_attempts<Doc, V, D>(
    table: Seq<char>,
    documents: Seq<Entry<Doc, V>>,
    outside: Outside<Doc, V, D>,
    encoded: nat,
) -> Seq<Attempt<V>>
    decreases documents.len(),
{
    if documents.len() == 0 {
        seq![]
    } else {
        attempts_for(table, (outside.encode)(encoded, documents[0].0)->Ok_0, documents[0].1)
            + all_attempts(table, documents.drop_first(), outside, encoded + 1)
    }
}

/// Whether every document can be turned into JSON where `encoded` documents were before.
pub open spec fn all_encodable<Doc, V, D>(
    documents: Seq<Entry<Doc, V>>,
    outside: Outside<Doc, V, D>,
    encoded: nat,
) -> bool {
    forall|i: int|
        0 <= i < documents.len() ==> (outside.encode)(
            (encoded + i) as nat,
            (#[trigger] documents[i]).0,
        ) is Ok
}

/// Whether each of `attempts` succeeds where `before` attempts were made first.
pub open spec fn all_created<Doc, V, D>(
    attempts: Seq<Attempt<V>>,
    outside: Outside<Doc, V, D>,
    before: nat,
) -> bool {
    forall|n: int|
        0 <= n < attempts.len() ==> (outside.create)(
            (before + n) as nat,
            #[trigger] attempts[n],
        ) is Ok
}

proof fn all_created_splits<Doc, V, D>(
    head: Seq<Attempt<V>>,
    tail: Seq<Attempt<V>>,
    outside: Outside<Doc, V, D>,
    before: nat,
)
    requires
        all_created(head + tail, outside, before),
    ensures
        all_created(head, outside, before),
        all_created(tail, outside, before + head.len()),
{
    let whole = head + tail;
    assert forall|n: int| 0 <= n < head.len() implies (outside.create)(
        (before + n) as nat,
        #[trigger] head[n],
    ) is Ok by {
        assert(whole[n] == head[n]);
    }
    assert forall|n: int| 0 <= n < tail.len() implies (outside.create)(
        (before + head.len() + n) as nat,
        #[trigger] tail[n],
    ) is Ok by {
        assert(whole[head.len() + n] == tail[n]);
    }
}

proof fn tail_is_encodable<Doc, V, D>(
    documents: Seq<Entry<Doc, V>>,
    outside: Outside<Doc, V, D>,
    encoded: nat,
)
    requires
        all_encodable(documents, outside, encoded),
        documents.len() > 0,
    ensures
        (outside.encode)(encoded, documents[0].0) is Ok,
        all_encodable(documents.drop_first(), outside, encoded + 1),
{
    assert((outside.encode)((encoded + 0) as nat, documents[0].0) is Ok);
    let tail = documents.drop_first();
    assert forall|i: int| 0 <= i < tail.len() implies (outside.encode)(
        (encoded + 1 + i) as nat,
        (#[trigger] tail[i]).0,
    ) is Ok by {
        assert(tail[i] == documents[i + 1]);
    }
}

proof fn records_all_created<Doc, V, E, D>(
    table: Seq<char>,
    json: serde_json::Value,
    embeddings: Seq<Embedding<V>>,
    rest: Seq<Entry<Doc, V>>,
    outside: Outside<Doc, V, D>,
    encoded: nat,
    made: Seq<Attempt<V>>,
)
    requires
        all_created(attempts_for(table, json, embeddings), outside, made.len()),
    ensures
        run(
            insertion::next_record::<Doc, V, E, D>(table, json, embeddings, rest),
            outside,
            encoded,
            made,
        ) == run(
            insertion::next_document::<Doc, V, E, D>(table, rest),
            outside,
            encoded,
            made + attempts_for(table, json, embeddings),
        ),
    decreases embeddings.len(),
{
    let attempts = attempts_for(table, json, embeddings);
    if embeddings.len() == 0 {
        assert(made + attempts =~= made);
    } else {
        let tail = embeddings.drop_first();
        let tail_attempts = attempts_for(table, json, tail);
        assert((outside.create)((made.len() + 0) as nat, attempts[0]) is Ok);
        assert(attempts =~= seq![attempts[0]] + tail_attempts);
        all_created_splits(seq![attempts[0]], tail_attempts, outside, made.len());
        records_all_created::<Doc, V, E, D>(
            table,
            json,
            tail,
            rest,
            outside,
            encoded,
            made.push(attempts[0]),
        );
        assert(made.push(attempts[0]) + tail_attempts =~= made + attempts);
    }
}

proof fn record_refused<Doc, V, E, D>(
    table: Seq<char>,
    json: serde_json::Value,
    embeddings: Seq<Embedding<V>>,
    rest: Seq<Entry<Doc, V>>,
    outside: Outside<Doc, V, D>,
    encoded: nat,
    made: Seq<Attempt<V>>,
    k: int,
)
    requires
        0 <= k < embeddings.len(),
        all_created(attempts_for(table, json, embeddings).take(k), outside, made.len()),
        (outside.create)(
            (made.len() + k) as nat,
            attempts_for(table, json, embeddings)[k],
        ) is Err,
    ensures
        run(
            insertion::next_record::<Doc, V, E, D>(table, json, embeddings, rest),
            outside,
            encoded,
            made,
        ) == (
            made + attempts_for(table, json, embeddings).take(k + 1),
            Err::<(), VectorStoreError<E, D>>(
                VectorStoreError::DatastoreError(
                    (outside.create)(
                        (made.len() + k) as nat,
                        attempts_for(table, json, embeddings)[k],
                    )->Err_0,
                ),
            ),
        ),
    decreases k,
{
    let attempts = attempts_for(table, json, embeddings);
    if k == 0 {
        reveal_with_fuel(run, 2);
        assert(made.push(attempts[0]) =~= made + attempts.take(1));
    } else {
        let tail = embeddings.drop_first();
        let tail_attempts = attempts_for(table, json, tail);
        let now = made.push(attempts[0]);
        assert(attempts.take(k)[0] == attempts[0]);
        assert((outside.create)((made.len() + 0) as nat, attempts.take(k)[0]) is Ok);
        assert(attempts.take(k) =~= seq![attempts[0]] + tail_attempts.take(k - 1));
        all_created_splits(seq![attempts[0]], tail_attempts.take(k - 1), outside, made.len());
        assert(tail_attempts[k - 1] == attempts[k]);
        record_refused::<Doc, V, E, D>(table, json, tail, rest, outside, encoded, now, k - 1);
        assert(now + tail_attempts.take(k) =~= made + attempts.take(k + 1));
    }
}

/// An insertion goes on with what is left once all before it is stored: inserting `done` and
/// then `rest` comes to the attempts of `done` and whatever inserting `rest` after them comes to.
pub proof fn insertion_goes_on_with_the_rest<Doc, V, E, D>(
    table: Seq<char>,
    done: Seq<Entry<Doc, V>>,
    rest: Seq<Entry<Doc, V>>,
    outside: Outside<Doc, V, D>,
    encoded: nat,
    made: Seq<Attempt<V>>,
)
    requires
        all_encodable(done, outside, encoded),
        all_created(all_attempts(table, done, outside, encoded), outside, made.len()),
    ensures
        run(
            insertion::next_document::<Doc, V, E, D>(table, done + rest),
            outside,
            encoded,
            made,
        ) == run(
            insertion::next_document::<Doc, V, E, D>(table, rest),
            outside,
            encoded + done.len(),
            made + all_attempts(table, done, outside, encoded),
        ),
    decreases done.len(),
{
    let attempts = all_attempts(table, done, outside, encoded);
    if done.len() == 0 {
        assert(done + rest =~= rest);
        assert(made + attempts =~= made);
    } else {
        let json = (outside.encode)(encoded, done[0].0)->Ok_0;
        let head = attempts_for(table, json, done[0].1);
        let tail = done.drop_first();
        let tail_attempts = all_attempts(table, tail, outside, encoded + 1);
        assert((done + rest).drop_first() =~= tail + rest);
        assert((done + rest)[0] == done[0]);
        all_created_splits(head, tail_attempts, outside, made.len());
        tail_is_encodable(done, outside, encoded);
        records_all_created::<Doc, V, E, D>(
            table,
            json,
            done[0].1,
            tail + rest,
            outside,
            encoded + 1,
            made,
        );
        insertion_goes_on_with_the_rest::<Doc, V, E, D>(
            table,
            tail,
            rest,
            outside,
            encoded + 1,
            made + head,
        );
        assert((made + head) + tail_attempts =~= made + attempts);
    }
}

/// Where nothing fails, an insertion creates one record for every embedding of every document,
/// in order, in the store's table and nothing else, and ends well.
pub proof fn insertion_stores_everything<Doc, V, E, D>(
    table: Seq<char>,
    documents: Seq<Entry<Doc, V>>,
    outside: Outside<Doc, V, D>,
)
    requires
        all_encodable(documents, outside, 0),
        all_created(all_attempts(table, documents, outside, 0), outside, 0),
    ensures
        run(
            insertion::next_document::<Doc, V, E, D>(table, documents),
            outside,
            0,
            seq![],
        ) == (all_attempts(table, documents, outside, 0), Ok::<(), VectorStoreError<E, D>>(())),
{
    let none: Seq<Attempt<V>> = seq![];
    insertion_goes_on_with_the_rest::<Doc, V, E, D>(table, documents, seq![], outside, 0, none);
    assert(documents + seq![] =~= documents);
    let attempts = all_attempts(table, documents, outside, 0);
    assert(none + attempts =~= attempts);
}

/// A document that cannot be turned into JSON ends an insertion: the documents before it are
/// stored, nothing of it or after it is, and the insertion fails with its error.
pub proof fn unencodable_document_ends_insertion<Doc, V, E, D>(
    table: Seq<char>,
    documents: Seq<Entry<Doc, V>>,
    outside: Outside<Doc, V, D>,
    k: int,
)
    requires
        0 <= k < documents.len(),
        all_encodable(documents.take(k), outside, 0),
        all_created(all_attempts(table, documents.take(k), outside, 0), outside, 0),
        (outside.encode)(k as nat, documents[k].0) is Err,
    ensures
        run(
            insertion::next_document::<Doc, V, E, D>(table, documents),
            outside,
            0,
            seq![],
        ) == (
            all_attempts(table, documents.take(k), outside, 0),
            Err::<(), VectorStoreError<E, D>>(
                VectorStoreError::JsonError((outside.encode)(k as nat, documents[k].0)->Err_0),
            ),
        ),
{
    let none: Seq<Attempt<V>> = seq![];
    let done = documents.take(k);
    insertion_goes_on_with_the_rest::<Doc, V, E, D>(table, done, documents.skip(k), outside, 0, none);
    assert(done + documents.skip(k) =~= documents);
    let attempts = all_attempts(table, done, outside, 0);
    assert(none + attempts =~= attempts);
    reveal_with_fuel(run, 2);
}

proof fn refusal_ends_course<Doc, V, E, D>(
    table: Seq<char>,
    documents: Seq<Entry<Doc, V>>,
    rest: Seq<Entry<Doc, V>>,
    outside: Outside<Doc, V, D>,
    encoded: nat,
    made: Seq<Attempt<V>>,
    k: int,
)
    requires
        all_encodable(documents, outside, encoded),
        0 <= k < all_attempts(table, documents, outside, encoded).len(),
        all_created(all_attempts(table, documents, outside, encoded).take(k), outside, made.len()),
        (outside.create)(
            (made.len() + k) as nat,
            all_attempts(table, documents, outside, encoded)[k],
        ) is Err,
    ensures
        run(
            insertion::next_document::<Doc, V, E, D>(table, documents + rest),
            outside,
            encoded,
            made,
        ) == (
            made + all_attempts(table, documents, outside, encoded).take(k + 1),
            Err::<(), VectorStoreError<E, D>>(
                VectorStoreError::DatastoreError(
                    (outside.create)(
                        (made.len() + k) as nat,
                        all_attempts(table, documents, outside, encoded)[k],
                    )->Err_0,
                ),
            ),
        ),
    decreases documents.len(),
{
    let attempts = all_attempts(table, documents, outside, encoded);
    let json = (outside.encode)(encoded, documents[0].0)->Ok_0;
    let head = attempts_for(table, json, documents[0].1);
    let tail = documents.drop_first();
    let tail_attempts = all_attempts(table, tail, outside, encoded + 1);
    assert((documents + rest).drop_first() =~= tail + rest);
    assert((documents + rest)[0] == documents[0]);
    tail_is_encodable(documents, outside, encoded);
    if k < head.len() {
        assert(attempts.take(k) =~= head.take(k));
        assert(attempts[k] == head[k]);
        record_refused::<Doc, V, E, D>(
            table,
            json,
            documents[0].1,
            tail + rest,
            outside,
            encoded + 1,
            made,
            k,
        );
        assert(attempts.take(k + 1) =~= head.take(k + 1));
    } else {
        let j = k - head.len();
        assert(attempts.take(k) =~= head + tail_attempts.take(j));
        all_created_splits(head, tail_attempts.take(j), outside, made.len());
        records_all_created::<Doc, V, E, D>(
            table,
            json,
            documents[0].1,
            tail + rest,
            outside,
            encoded + 1,
            made,
        );
        assert(attempts[k] == tail_attempts[j]);
        assert((made + head).len() + j == made.len() + k);
        refusal_ends_course::<Doc, V, E, D>(
            table,
            tail,
            rest,
            outside,
            encoded + 1,
            made + head,
            j,
        );
        assert((made + head) + tail_attempts.take(j + 1) =~= made + attempts.take(k + 1));
    }
}

/// A record that the database refuses ends an insertion: the records before it are created, it
/// is tried once, nothing after it is tried, and the insertion fails with its error. The record
/// is one of those of the first `m` documents; what follows these plays no part.
pub proof fn refused_record_ends_insertion<Doc, V, E, D>(
    table: Seq<char>,
    documents: Seq<Entry<Doc, V>>,
    outside: Outside<Doc, V, D>,
    m: int,
    k: int,
)
    requires
        0 <= m <= documents.len(),
        all_encodable(documents.take(m), outside, 0),
        0 <= k < all_attempts(table, documents.take(m), outside, 0).len(),
        all_created(all_attempts(table, documents.take(m), outside, 0).take(k), outside, 0),
        (outside.create)(k as nat, all_attempts(table, documents.take(m), outside, 0)[k]) is Err,
    ensures
        run(
            insertion::next_document::<Doc, V, E, D>(table, documents),
            outside,
            0,
            seq![],
        ) == (
            all_attempts(table, documents.take(m), outside, 0).take(k + 1),
            Err::<(), VectorStoreError<E, D>>(
                VectorStoreError::DatastoreError(
                    (outside.create)(
                        k as nat,
                        all_attempts(table, documents.take(m), outside, 0)[k],
                    )->Err_0,
                ),
            ),
        ),
{
    let none: Seq<Attempt<V>> = seq![];
    let done = documents.take(m);
    let first = all_attempts(table, done, outside, 0).take(k + 1);
    refusal_ends_course::<Doc, V, E, D>(table, done, documents.skip(m), outside, 0, none, k);
    assert(done + documents.skip(m) =~= documents);
    assert(none + first =~= first);
}

/// Insertions compose: the attempts that store `first` and then `second` are those that store
/// `first`, followed by those that store `second`.
pub proof fn attempts_compose<Doc, V, D>(
    table: Seq<char>,
    first: Seq<Entry<Doc, V>>,
    second: Seq<Entry<Doc, V>>,
    outside: Outside<Doc, V, D>,
    encoded: nat,
)
    ensures
        all_attempts(table, first + second, outside, encoded) == all_attempts(
            table,
            first,
            outside,
            encoded,
        ) + all_attempts(table, second, outside, encoded + first.len()),
    decreases first.len(),
{
    let whole = first + second;
    let last = all_attempts(table, second, outside, encoded + first.len());
    if first.len() == 0 {
        assert(whole =~= second);
        assert(Seq::<Attempt<V>>::empty() + last =~= last);
    } else {
        let json = (outside.encode)(encoded, first[0].0)->Ok_0;
        let head = attempts_for(table, json, first[0].1);
        let tail = all_attempts(table, first.drop_first(), outside, encoded + 1);
        assert(whole[0] == first[0]);
        assert(whole.drop_first() =~= first.drop_first() + second);
        attempts_compose(table, first.drop_first(), second, outside, encoded + 1);
        assert(head + (tail + last) =~= (head + tail) + last);
    }
}

/// Whether `next` is the step that `step` leads to, by the contracts of the calls that take the
/// outcome of its outside work, where `encoded` documents and `attempts` records came before.
pub open spec fn leads_to<Doc, V, E, D>(
    step: InsertStep<Doc, V, E, D>,
    next: InsertStep<Doc, V, E, D>,
    outside: Outside<Doc, V, D>,
    encoded: nat,
    attempts: nat,
) -> bool {
    match step {
        InsertStep::Encode { document, encoding } => {
            next.course() == insertion::after_encoding::<Doc, V, E, D>(
                encoding.table(),
                encoding.embeddings(),
                encoding.rest(),
                (outside.encode)(encoded, document),
            )
        },
        InsertStep::Create { table, record, creation } => {
            next.course() == insertion::after_creation::<Doc, V, E, D>(
                creation.table(),
                creation.document(),
                creation.embeddings(),
                creation.rest(),
                (outside.create)(attempts, (table@, record)),
            )
        },
        InsertStep::Finished(_) => false,
    }
}

/// The step that a step leads to is on the course that follows.
pub proof fn steps_follow_the_course<Doc, V, E, D>(
    step: InsertStep<Doc, V, E, D>,
    next: InsertStep<Doc, V, E, D>,
    outside: Outside<Doc, V, D>,
    encoded: nat,
    attempts: nat,
)
    requires
        leads_to(step, next, outside, encoded, attempts),
    ensures
        next.course() == follow(step.course(), outside, encoded, attempts),
{
}

/// The number of documents that `steps` turn into JSON.
pub open spec fn encodings_in<Doc, V, E, D>(steps: Seq<InsertStep<Doc, V, E, D>>) -> nat
    decreases steps.len(),
{
    if steps.len() == 0 {
        0
    } else {
        encodings_in(steps.drop_last()) + if steps.last() is Encode {
            1nat
        } else {
            0nat
        }
    }
}

/// The attempts that `steps` make, in order.
pub open spec fn attempts_in<Doc, V, E, D>(steps: Seq<InsertStep<Doc, V, E, D>>) -> Seq<
    Attempt<V>,
>
    decreases steps.len(),
{
    if steps.len() == 0 {
        seq![]
    } else {
        match steps.last() {
            InsertStep::Create { table, record, .. } => attempts_in(steps.drop_last()).push(
                (table@, record),
            ),
            _ => attempts_in(steps.drop_last()),
        }
    }
}

/// Whether each of `steps` leads to the one after it.
pub open spec fn connected<Doc, V, E, D>(
    steps: Seq<InsertStep<Doc, V, E, D>>,
    outside: Outside<Doc, V, D>,
) -> bool {
    forall|i: int|
        0 <= i < steps.len() - 1 ==> leads_to(
            #[trigger] steps[i],
            steps[i + 1],
            outside,
            encodings_in(steps.take(i)),
            attempts_in(steps.take(i)).len(),
        )
}

proof fn steps_stay_on_course<Doc, V, E, D>(
    steps: Seq<InsertStep<Doc, V, E, D>>,
    outside: Outside<Doc, V, D>,
    k: int,
)
    requires
        0 <= k < steps.len(),
        connected(steps, outside),
    ensures
        run(steps[0].course(), outside, 0, seq![]) == run(
            steps[k].course(),
            outside,
            encodings_in(steps.take(k)),
            attempts_in(steps.take(k)),
        ),
    decreases k,
{
    if k > 0 {
        let before = steps.take(k - 1);
        steps_stay_on_course(steps, outside, k - 1);
        steps_follow_the_course(
            steps[k - 1],
            steps[k],
            outside,
            encodings_in(before),
            attempts_in(before).len(),
        );
        assert(steps.take(k).drop_last() =~= before);
        assert(steps.take(k).last() == steps[k - 1]);
    }
}

/// The steps of an insertion, each taken with the outcome of the one before, make up the whole:
/// steps that begin with the first for `documents` and end in `Finished` make the attempts, and
/// end in the result, that the insertion of `documents` comes to.
pub proof fn steps_make_up_an_insertion<Doc, V, E, D>(
    table: Seq<char>,
    documents: Seq<Entry<Doc, V>>,
    steps: Seq<InsertStep<Doc, V, E, D>>,
    outside: Outside<Doc, V, D>,
)
    requires
        steps.len() > 0,
        steps[0].course() == insertion::next_document::<Doc, V, E, D>(table, documents),
        connected(steps, outside),
        steps.last() is Finished,
    ensures
        run(
            insertion::next_document::<Doc, V, E, D>(table, documents),
            outside,
            0,
            seq![],
        ) == (attempts_in(steps), steps.last()->Finished_0),
{
    steps_stay_on_course(steps, outside, steps.len() - 1);
    assert(steps.take(steps.len() - 1) =~= steps.drop_last());
}

/// Whether all of `attempts` are for `table`.
pub open spec fn all_in<V>(attempts: Seq<Attempt<V>>, table: Seq<char>) -> bool {
    forall|n: int| 0 <= n < attempts.len() ==> (#[trigger] attempts[n]).0 == table
}

/// Whether a course creates records in `table` only.
pub open spec fn confined<Doc, V, E, D>(course: Course<Doc, V, E, D>, table: Seq<char>) -> bool {
    match course {
        Course::Encode { table: own, .. } => own == table,
        Course::Create { target, table: own, .. } => target == table && own == table,
        Course::Finished(_) => true,
    }
}

proof fn confined_course_stays_in_its_table<Doc, V, E, D>(
    course: Course<Doc, V, E, D>,
    table: Seq<char>,
    outside: Outside<Doc, V, D>,
    encoded: nat,
    made: Seq<Attempt<V>>,
)
    requires
        confined(course, table),
        all_in(made, table),
    ensures
        all_in(run(course, outside, encoded, made).0, table),
    decreases documents_left(course), encodings_left(course), records_left(course),
{
    match course {
        Course::Encode { .. } => {
            confined_course_stays_in_its_table(
                follow(course, outside, encoded, made.len()),
                table,
                outside,
                encoded + 1,
                made,
            );
        },
        Course::Create { target, record, .. } => {
            confined_course_stays_in_its_table(
                follow(course, outside, encoded, made.len()),
                table,
                outside,
                encoded,
                made.push((target, record)),
            );
        },
        Course::Finished(_) => {},
    }
}

/// A store searches the table that it inserts into: whatever comes of the outside work, every
/// record that an insertion tries to create goes to the table that a search binds.
pub proof fn searches_read_where_insertions_write<C, Model, S, Doc, V, E, D>(
    store: SurrealVectorStore<C, Model>,
    with_document: bool,
    request: VectorSearchRequest<S>,
    start: SearchStart<S>,
    documents: Seq<Entry<Doc, V>>,
    outside: Outside<Doc, V, D>,
)
    requires
        store.begins(with_document, request, start),
        request.samples > 0,
    ensures
        all_in(
            run(
                insertion::next_document::<Doc, V, E, D>(store.table(), documents),
                outside,
                0,
                seq![],
            ).0,
            start->search.tablename@,
        ),
{
    confined_course_stays_in_its_table(
        insertion::next_document::<Doc, V, E, D>(store.table(), documents),
        store.table(),
        outside,
        0,
        seq![],
    );
}

} // verus!
