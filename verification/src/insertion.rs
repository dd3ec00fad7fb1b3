//! The course of an insertion.
//!
//! Documents are taken in order. Each is turned into JSON once, and then one record is created
//! for each of its embeddings, in order. The first failure ends the insertion; what was created
//! before it stays. Turning a document into JSON and creating a record are outside work: a step
//! names the next piece, and its outcome leads to the step after it.

use std::collections::VecDeque;

use vstd::prelude::*;

use crate::error::VectorStoreError;
use crate::record::{CreateRecord, Embedding};

verus! {

/// An insertion whose current document is being turned into JSON.
pub struct AwaitingDocument<Doc, V> {
    table: String,
    embeddings: VecDeque<Embedding<V>>,
    rest: VecDeque<(Doc, Vec<Embedding<V>>)>,
}

/// An insertion whose current record is being created.
pub struct AwaitingRecord<Doc, V> {
    table: String,
    document: serde_json::Value,
    embeddings: VecDeque<Embedding<V>>,
    rest: VecDeque<(Doc, Vec<Embedding<V>>)>,
}

/// The next piece of an insertion's outside work.
pub enum InsertStep<Doc, V, E, D> {
    /// The document is to be turned into JSON.
    Encode {
        /// The document.
        document: Doc,
        /// The insertion, waiting for the JSON.
        encoding: AwaitingDocument<Doc, V>,
    },
    /// The record is to be created.
    Create {
        /// The table to create it in.
        table: String,
        /// The record.
        record: CreateRecord<V>,
        /// The insertion, waiting for the outcome.
        creation: AwaitingRecord<Doc, V>,
    },
    /// The insertion is over.
    Finished(Result<(), VectorStoreError<E, D>>),
}

/// A document and the embeddings to store it under.
pub type Entry<Doc, V> = (Doc, Seq<Embedding<V>>);

/// Documents as mathematical sequences of their embeddings.
pub open spec fn entries<Doc, V>(documents: Seq<(Doc, Vec<Embedding<V>>)>) -> Seq<Entry<Doc, V>> {
    documents.map_values(|entry: (Doc, Vec<Embedding<V>>)| (entry.0, entry.1@))
}

/// A step together with all that is still to be done after it.
pub enum Course<Doc, V, E, D> {
    Encode {
        table: Seq<char>,
        document: Doc,
        embeddings: Seq<Embedding<V>>,
        rest: Seq<Entry<Doc, V>>,
    },
    Create {
        target: Seq<char>,
        record: CreateRecord<V>,
        table: Seq<char>,
        json: serde_json::Value,
        embeddings: Seq<Embedding<V>>,
        rest: Seq<Entry<Doc, V>>,
    },
    Finished(Result<(), VectorStoreError<E, D>>),
}

/// The record that stores a document under one of its embeddings.
pub open spec fn record_for<V>(document: serde_json::Value, embedding: Embedding<V>) -> CreateRecord<
    V,
> {
    CreateRecord { document, embedded_text: embedding.document, embedding: embedding.vec }
}

/// The course on which the documents of `rest` are inserted.
pub open spec fn next_document<Doc, V, E, D>(
    table: Seq<char>,
    rest: Seq<Entry<Doc, V>>,
) -> Course<Doc, V, E, D> {
    if rest.len() == 0 {
        Course::Finished(Ok(()))
    } else {
        Course::Encode {
            table,
            document: rest[0].0,
            embeddings: rest[0].1,
            rest: rest.drop_first(),
        }
    }
}

/// The course on which `document` is stored under `embeddings`, and then the documents of `rest`
/// are inserted.
pub open spec fn next_record<Doc, V, E, D>(
    table: Seq<char>,
    document: serde_json::Value,
    embeddings: Seq<Embedding<V>>,
    rest: Seq<Entry<Doc, V>>,
) -> Course<Doc, V, E, D> {
    if embeddings.len() == 0 {
        next_document(table, rest)
    } else {
        Course::Create {
            target: table,
            record: record_for(document, embeddings[0]),
            table,
            json: document,
            embeddings: embeddings.drop_first(),
            rest,
        }
    }
}

/// The course once it is known what came of turning the current document into JSON.
pub open spec fn after_encoding<Doc, V, E, D>(
    table: Seq<char>,
    embeddings: Seq<Embedding<V>>,
    rest: Seq<Entry<Doc, V>>,
    outcome: Result<serde_json::Value, serde_json::Error>,
) -> Course<Doc, V, E, D> {
    match outcome {
        Ok(document) => next_record(table, document, embeddings, rest),
        Err(error) => Course::Finished(Err(VectorStoreError::JsonError(error))),
    }
}

/// The course once it is known what came of creating the current record.
pub open spec fn after_creation<Doc, V, E, D>(
    table: Seq<char>,
    document: serde_json::Value,
    embeddings: Seq<Embedding<V>>,
    rest: Seq<Entry<Doc, V>>,
    outcome: Result<(), D>,
) -> Course<Doc, V, E, D> {
    match outcome {
        Ok(_) => next_record(table, document, embeddings, rest),
        Err(error) => Course::Finished(Err(VectorStoreError::DatastoreError(error))),
    }
}

impl<Doc, V> AwaitingDocument<Doc, V> {
    /// The table to create records in.
    pub closed spec fn table(self) -> Seq<char> {
        self.table@
    }

    /// The embeddings of the current document.
    pub closed spec fn embeddings(self) -> Seq<Embedding<V>> {
        self.embeddings@
    }

    /// The documents that follow.
    pub closed spec fn rest(self) -> Seq<Entry<Doc, V>> {
        entries(self.rest@)
    }

    /// Takes the outcome of turning the current document into JSON.
    pub fn encoded<E, D>(
        self,
        outcome: Result<serde_json::Value, serde_json::Error>,
    ) -> (step: InsertStep<Doc, V, E, D>)
        ensures
            step.course() == after_encoding::<Doc, V, E, D>(
                self.table(),
                self.embeddings(),
                self.rest(),
                outcome,
            ),
    {
        match outcome {
            Ok(document) => advance_record(self.table, document, self.embeddings, self.rest),
            Err(error) => InsertStep::Finished(Err(VectorStoreError::JsonError(error))),
        }
    }
}

impl<Doc, V> AwaitingRecord<Doc, V> {
    /// The table to create records in.
    pub closed spec fn table(self) -> Seq<char> {
        self.table@
    }

    /// The current document as JSON.
    pub closed spec fn document(self) -> serde_json::Value {
        self.document
    }

    /// The embeddings of the current document that follow.
    pub closed spec fn embeddings(self) -> Seq<Embedding<V>> {
        self.embeddings@
    }

    /// The documents that follow.
    pub closed spec fn rest(self) -> Seq<Entry<Doc, V>> {
        entries(self.rest@)
    }

    /// Takes the outcome of creating the current record.
    pub fn created<E, D>(self, outcome: Result<(), D>) -> (step: InsertStep<Doc, V, E, D>)
        ensures
            step.course() == after_creation::<Doc, V, E, D>(
                self.table(),
                self.document(),
                self.embeddings(),
                self.rest(),
                outcome,
            ),
    {
        match outcome {
            Ok(_) => advance_record(self.table, self.document, self.embeddings, self.rest),
            Err(error) => InsertStep::Finished(Err(VectorStoreError::DatastoreError(error))),
        }
    }
}

impl<Doc, V, E, D> InsertStep<Doc, V, E, D> {
    /// The step together with all that is still to be done after it.
    pub open spec fn course(self) -> Course<Doc, V, E, D> {
        match self {
            InsertStep::Encode { document, encoding } => Course::Encode {
                table: encoding.table(),
                document,
                embeddings: encoding.embeddings(),
                rest: encoding.rest(),
            },
            InsertStep::Create { table, record, creation } => Course::Create {
                target: table@,
                record,
                table: creation.table(),
                json: creation.document(),
                embeddings: creation.embeddings(),
                rest: creation.rest(),
            },
            InsertStep::Finished(result) => Course::Finished(result),
        }
    }

    /// The first step of inserting `documents` into `table`.
    pub fn first(table: String, documents: Vec<(Doc, Vec<Embedding<V>>)>) -> (step: Self)
        ensures
            step.course() == next_document::<Doc, V, E, D>(table@, entries(documents@)),
    {
        advance_document(table, queue(documents))
    }
}

fn queue<T>(items: Vec<T>) -> (queued: VecDeque<T>)
    ensures
        queued@ == items@,
{
    let ghost all = items@;
    let mut queued: VecDeque<T> = VecDeque::new();
    for item in rest: items
        invariant
            rest.seq() == all,
            queued@ == all.take(rest.index() as int),
    {
        queued.push_back(item);
        assert(queued@ =~= all.take(rest.index() + 1));
    }
    assert(all.take(all.len() as int) =~= all);
    queued
}

fn advance_document<Doc, V, E, D>(
    table: String,
    rest: VecDeque<(Doc, Vec<Embedding<V>>)>,
) -> (step: InsertStep<Doc, V, E, D>)
    ensures
        step.course() == next_document::<Doc, V, E, D>(table@, entries(rest@)),
{
    let mut rest = rest;
    let ghost before = rest@;
    match rest.pop_front() {
        Some((document, embeddings)) => {
            assert(entries(rest@) =~= entries(before).drop_first());
            InsertStep::Encode {
                document,
                encoding: AwaitingDocument { table, embeddings: queue(embeddings), rest },
            }
        },
        None => InsertStep::Finished(Ok(())),
    }
}

fn advance_record<Doc, V, E, D>(
    table: String,
    document: serde_json::Value,
    embeddings: VecDeque<Embedding<V>>,
    rest: VecDeque<(Doc, Vec<Embedding<V>>)>,
) -> (step: InsertStep<Doc, V, E, D>)
    ensures
        step.course() == next_record::<Doc, V, E, D>(
            table@,
            document,
            embeddings@,
            entries(rest@),
        ),
{
    let mut embeddings = embeddings;
    let ghost before = embeddings@;
    match embeddings.pop_front() {
        Some(embedding) => {
            assert(embeddings@ =~= before.drop_first());
            InsertStep::Create {
                table: table.clone(),
                record: CreateRecord {
                    document: document.clone(),
                    embedded_text: embedding.document,
                    embedding: embedding.vec,
                },
                creation: AwaitingRecord { table, document, embeddings, rest },
            }
        },
        None => advance_document(table, rest),
    }
}

} // verus!
