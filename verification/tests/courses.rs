use rig_surrealdb::search::{finish_documents, finish_empty, finish_ids};
use rig_surrealdb::{
    BoundThreshold, CreateRecord, Embedding, InsertStep, SearchResult, SearchResultOnlyId,
    SearchStart, SurrealDistanceFunction, SurrealSearchFilter, SurrealVectorStore,
    VectorSearchRequest, VectorStoreError,
};
use surrealdb::types::{RecordId, Value};

type Failure = VectorStoreError<&'static str, &'static str>;

fn store() -> SurrealVectorStore<&'static str, u8> {
    SurrealVectorStore::with_defaults(3, "client")
}

fn request(samples: u64) -> VectorSearchRequest<f64> {
    VectorSearchRequest {
        query: "fruit query".to_string(),
        samples,
        threshold: None,
        filter: None,
    }
}

fn json_error() -> serde_json::Error {
    serde_json::from_str::<u8>("x").unwrap_err()
}

fn json(value: &str) -> serde_json::Value {
    serde_json::Value::String(value.to_string())
}

fn decode(document: serde_json::Value) -> Result<String, serde_json::Error> {
    serde_json::from_value(document)
}

fn row(key: &str, document: serde_json::Value, distance: f64) -> SearchResult<f64> {
    SearchResult { id: RecordId::new("documents", key), document, distance }
}

#[test]
fn a_store_keeps_its_parts() {
    let store = store();
    assert_eq!(*store.inner_client(), "client");
    assert_eq!(*store.model(), 3);
}

#[test]
fn no_samples_need_no_work() {
    assert!(matches!(store().top_n(request(0)), SearchStart::Empty));
    assert!(matches!(store().top_n_ids(request(0)), SearchStart::Empty));
}

#[test]
fn a_search_embeds_its_query_first() {
    let SearchStart::Embed { text, search } = store().top_n(request(3)) else {
        panic!("a search for three results has work to do");
    };
    assert_eq!(text, "fruit query");
    assert_eq!(search.tablename, "documents");
    assert!(matches!(search.threshold, BoundThreshold::Zero));
    assert_eq!(search.statement, store().search_query(true, 3, "true", false));
}

#[test]
fn a_search_carries_filter_threshold_and_table() {
    let store = SurrealVectorStore::new(
        0u8,
        "client",
        Some("words".to_string()),
        SurrealDistanceFunction::Jaccard,
    );
    let mut wanted = request(2);
    wanted.threshold = Some(0.25);
    wanted.filter = Some(SurrealSearchFilter::eq(
        "document.category",
        Value::String("fruit".to_string()),
    ));
    let SearchStart::Embed { search, .. } = store.top_n_ids(wanted) else {
        panic!("a search for two results has work to do");
    };
    assert_eq!(search.tablename, "words");
    assert_eq!(
        search.statement,
        "SELECT id, distance FROM (SELECT id, vector::similarity::jaccard($vec, embedding) AS distance FROM type::table($tablename) WHERE document.category = 'fruit' ORDER BY distance DESC LIMIT 2) WHERE distance >= $threshold ORDER BY distance DESC LIMIT 2"
    );
    let bound = search.embedded::<Vec<f64>, &str, &str>(Ok(vec![1.0, 0.0])).unwrap();
    assert_eq!(bound.vec, vec![1.0, 0.0]);
    assert_eq!(bound.tablename, "words");
    assert!(matches!(bound.threshold, BoundThreshold::Given(score) if score == 0.25));
    assert!(bound.statement.starts_with("SELECT id, distance FROM ("));
}

#[test]
fn a_failed_embedding_ends_a_search() {
    let SearchStart::Embed { search, .. } = store().top_n(request(1)) else {
        panic!("a search for one result has work to do");
    };
    let outcome: Result<_, Failure> = search.embedded::<u8, &str, &str>(Err("no model"));
    assert!(matches!(outcome, Err(VectorStoreError::EmbeddingError("no model"))));
}

#[test]
fn a_missing_filter_is_true() {
    let mut wanted = request(1);
    assert_eq!(SurrealVectorStore::<(), ()>::filter_expression(&wanted), "true");
    wanted.filter = Some(SurrealSearchFilter::from_expression("a = 1".to_string()));
    assert_eq!(SurrealVectorStore::<(), ()>::filter_expression(&wanted), "a = 1");
}

#[test]
fn rows_become_results_in_order() {
    let rows = vec![row("a", json("apple"), 0.0), row("b-b", json("banana"), 0.5)];
    let found: Result<_, Failure> = finish_documents(Ok(rows), &decode);
    assert_eq!(
        found.unwrap(),
        vec![
            (0.0, "documents:a".to_string(), "apple".to_string()),
            (0.5, "documents:`b-b`".to_string(), "banana".to_string()),
        ]
    );
}

#[test]
fn id_rows_become_the_same_results_without_documents() {
    let rows = vec![
        SearchResultOnlyId { id: RecordId::new("documents", "a"), distance: 0.0 },
        SearchResultOnlyId { id: RecordId::new("documents", "b-b"), distance: 0.5 },
    ];
    let ids: Result<_, Failure> = finish_ids(Ok(rows));
    let ids = ids.unwrap();
    let rows = vec![row("a", json("apple"), 0.0), row("b-b", json("banana"), 0.5)];
    let found: Result<_, Failure> = finish_documents(Ok(rows), &decode);
    let expected: Vec<(f64, String)> =
        found.unwrap().into_iter().map(|(distance, id, _)| (distance, id)).collect();
    assert_eq!(ids, expected);
    assert_eq!(ids[1].1, "documents:`b-b`");
}

#[test]
fn the_first_unreadable_document_decides() {
    let rows = vec![
        row("a", json("apple"), 0.0),
        row("b", serde_json::Value::Null, 0.1),
        row("c", serde_json::Value::Bool(true), 0.2),
    ];
    let found: Result<Vec<(f64, String, String)>, Failure> = finish_documents(Ok(rows), &decode);
    let expected = decode(serde_json::Value::Null).unwrap_err().to_string();
    match found {
        Err(VectorStoreError::JsonError(error)) => assert_eq!(error.to_string(), expected),
        other => panic!("unexpected result: {other:?}"),
    }
}

#[test]
fn a_failed_query_ends_a_search() {
    let found: Result<Vec<(f64, String, String)>, Failure> =
        finish_documents(Err("no database"), &decode);
    assert!(matches!(found, Err(VectorStoreError::DatastoreError("no database"))));
    let ids: Result<Vec<(f64, String)>, Failure> = finish_ids(Err("no database"));
    assert!(matches!(ids, Err(VectorStoreError::DatastoreError("no database"))));
}

#[test]
fn one_row_by_itself() {
    let found: Result<_, Failure> = row("a", json("apple"), 1.0).into_result(&decode);
    assert_eq!(found.unwrap(), (1.0, "documents:a".to_string(), "apple".to_string()));
    let failed: Result<(f64, String, String), Failure> =
        SearchResult::assemble(1.0, RecordId::new("documents", "a"), Err(json_error()));
    assert!(matches!(failed, Err(VectorStoreError::JsonError(_))));
}

fn embedding(text: &str, vec: i32) -> Embedding<i32> {
    Embedding { document: text.to_string(), vec }
}

fn documents() -> Vec<(&'static str, Vec<Embedding<i32>>)> {
    vec![
        ("apple", vec![embedding("crisp", 1), embedding("sweet", 2)]),
        ("nothing", vec![]),
        ("banana", vec![embedding("soft", 3)]),
    ]
}

type Attempts = Vec<(String, serde_json::Value, String, i32)>;

/// Runs an insertion of all the documents, refusing the record after `allowed` of them and the
/// document `broken`.
fn insert(allowed: usize, broken: &str) -> (Attempts, Result<(), Failure>) {
    insert_these(documents(), allowed, broken)
}

fn insert_these(
    documents: Vec<(&'static str, Vec<Embedding<i32>>)>,
    allowed: usize,
    broken: &str,
) -> (Attempts, Result<(), Failure>) {
    let mut attempts: Attempts = Vec::new();
    let mut step: InsertStep<&str, i32, &str, &str> = store().insert_documents(documents);
    loop {
        step = match step {
            InsertStep::Encode { document, encoding } => {
                if document == broken {
                    encoding.encoded(Err(json_error()))
                } else {
                    encoding.encoded(Ok(json(document)))
                }
            }
            InsertStep::Create { table, record, creation } => {
                let CreateRecord { document, embedded_text, embedding } = record;
                attempts.push((table, document, embedded_text, embedding));
                if attempts.len() > allowed {
                    creation.created(Err("full"))
                } else {
                    creation.created(Ok(()))
                }
            }
            InsertStep::Finished(result) => return (attempts, result),
        };
    }
}

fn attempt(document: &str, text: &str, vec: i32) -> (String, serde_json::Value, String, i32) {
    ("documents".to_string(), json(document), text.to_string(), vec)
}

#[test]
fn an_insertion_stores_every_embedding_in_order() {
    let (attempts, result) = insert(10, "");
    assert!(result.is_ok());
    assert_eq!(
        attempts,
        vec![
            attempt("apple", "crisp", 1),
            attempt("apple", "sweet", 2),
            attempt("banana", "soft", 3),
        ]
    );
}

#[test]
fn insertions_compose() {
    let (whole, _) = insert(10, "");
    for k in 0..4 {
        let mut first = documents();
        let second = first.split_off(k);
        let (mut attempts, _) = insert_these(first, 10, "");
        let (rest, _) = insert_these(second, 10, "");
        attempts.extend(rest);
        assert_eq!(attempts, whole);
    }
}

#[test]
fn equal_documents_may_be_encoded_differently() {
    let twice = vec![("apple", vec![embedding("crisp", 1)]), ("apple", vec![embedding("sweet", 2)])];
    let mut step: InsertStep<&str, i32, &str, &str> = store().insert_documents(twice);
    let mut encoded = 0;
    let mut created: Vec<serde_json::Value> = Vec::new();
    loop {
        step = match step {
            InsertStep::Encode { encoding, .. } => {
                encoded += 1;
                if encoded == 1 {
                    encoding.encoded(Ok(json("first")))
                } else {
                    encoding.encoded(Err(json_error()))
                }
            }
            InsertStep::Create { record, creation, .. } => {
                created.push(record.document);
                creation.created(Ok(()))
            }
            InsertStep::Finished(result) => {
                assert!(matches!(result, Err(VectorStoreError::JsonError(_))));
                break;
            }
        };
    }
    assert_eq!(created, vec![json("first")]);
}

#[test]
fn an_insertion_of_nothing_is_over_at_once() {
    let step: InsertStep<&str, i32, &str, &str> = store().insert_documents(vec![]);
    assert!(matches!(step, InsertStep::Finished(Ok(()))));
}

#[test]
fn a_refused_record_ends_an_insertion() {
    let (attempts, result) = insert(1, "");
    assert!(matches!(result, Err(VectorStoreError::DatastoreError("full"))));
    assert_eq!(attempts, vec![attempt("apple", "crisp", 1), attempt("apple", "sweet", 2)]);
}

#[test]
fn an_unencodable_document_ends_an_insertion() {
    let (attempts, result) = insert(10, "nothing");
    assert!(matches!(result, Err(VectorStoreError::JsonError(_))));
    assert_eq!(attempts, vec![attempt("apple", "crisp", 1), attempt("apple", "sweet", 2)]);
}

#[test]
fn searches_read_where_insertions_write() {
    let (attempts, _) = insert(10, "");
    for wanted in [store().top_n(request(1)), store().top_n_ids(request(1))] {
        let SearchStart::Embed { search, .. } = wanted else {
            panic!("a search for one result has work to do");
        };
        for (table, _, _, _) in &attempts {
            assert_eq!(*table, search.tablename);
        }
    }
}

#[test]
fn no_rows_give_no_results() {
    let found: Result<Vec<(f64, String, String)>, Failure> = finish_documents(Ok(vec![]), &decode);
    assert!(found.unwrap().is_empty());
    let ids: Result<Vec<(f64, String)>, Failure> = finish_ids(Ok(vec![]));
    assert!(ids.unwrap().is_empty());
}

type Asked = (Vec<String>, Vec<String>);

/// Runs an id-only search for `samples` results on a model and a database that may fail, and
/// records the texts and the statements that it asked for.
fn search_ids(
    samples: u64,
    embedding: Result<i32, &'static str>,
    answer: Result<Vec<SearchResultOnlyId<f64>>, &'static str>,
) -> (Asked, Result<Vec<(f64, String)>, Failure>) {
    let mut asked: Asked = (Vec::new(), Vec::new());
    match store().top_n_ids(request(samples)) {
        SearchStart::Empty => (asked, finish_empty()),
        SearchStart::Embed { text, search } => {
            asked.0.push(text);
            match search.embedded(embedding) {
                Err(error) => (asked, Err(error)),
                Ok(query) => {
                    asked.1.push(query.statement);
                    (asked, finish_ids(answer))
                }
            }
        }
    }
}

#[test]
fn a_search_for_nothing_asks_for_nothing() {
    let ((texts, statements), result) = search_ids(0, Err("no model"), Err("no database"));
    assert!(texts.is_empty() && statements.is_empty());
    assert!(result.unwrap().is_empty());
}

#[test]
fn a_search_without_a_vector_runs_no_statement() {
    let ((texts, statements), result) = search_ids(2, Err("no model"), Err("no database"));
    assert_eq!(texts, vec!["fruit query".to_string()]);
    assert!(statements.is_empty());
    assert!(matches!(result, Err(VectorStoreError::EmbeddingError("no model"))));
}

#[test]
fn a_search_runs_its_one_statement() {
    let statement = store().search_query(false, 2, "true", false);
    let ((texts, statements), result) = search_ids(2, Ok(1), Err("no database"));
    assert_eq!(texts, vec!["fruit query".to_string()]);
    assert_eq!(statements, vec![statement.clone()]);
    assert!(matches!(result, Err(VectorStoreError::DatastoreError("no database"))));

    let rows = vec![SearchResultOnlyId { id: RecordId::new("documents", "a"), distance: 0.5 }];
    let ((_, statements), result) = search_ids(2, Ok(1), Ok(rows));
    assert_eq!(statements, vec![statement]);
    assert_eq!(result.unwrap(), vec![(0.5, "documents:a".to_string())]);
}
