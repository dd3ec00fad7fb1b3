use rig_surrealdb::decimal::decimal_text;
use rig_surrealdb::statement::search_text;
use rig_surrealdb::{SurrealDistanceFunction, SurrealVectorStore};

fn vector_store(distance_function: SurrealDistanceFunction) -> SurrealVectorStore<(), ()> {
    SurrealVectorStore::new((), (), None, distance_function)
}

#[test]
fn index_backed_distances_share_the_knn_query_shape() {
    for distance_function in [
        SurrealDistanceFunction::Knn,
        SurrealDistanceFunction::Cosine,
        SurrealDistanceFunction::Euclidean,
        SurrealDistanceFunction::Hamming,
    ] {
        assert!(distance_function.uses_index_distance());
        assert_eq!(distance_function.knn_clause(4), "embedding <|4,4|> $vec");
        assert_eq!(
            distance_function.select_distance_expression(),
            "vector::distance::knn()"
        );
        assert_eq!(distance_function.threshold_operator(), "<=");
        assert_eq!(distance_function.sort_direction(), "ASC");
    }
}

#[test]
fn jaccard_queries_keep_similarity_semantics() {
    assert!(!SurrealDistanceFunction::Jaccard.uses_index_distance());
    assert_eq!(SurrealDistanceFunction::Jaccard.sort_direction(), "DESC");
    assert_eq!(SurrealDistanceFunction::Jaccard.threshold_operator(), ">=");
    assert_eq!(SurrealDistanceFunction::Jaccard.knn_clause(4), "true");
    assert_eq!(
        SurrealDistanceFunction::Jaccard.select_distance_expression(),
        "vector::similarity::jaccard($vec, embedding)"
    );
}

#[test]
fn cosine_threshold_queries_wrap_index_backed_inner_query() {
    let store = vector_store(SurrealDistanceFunction::Cosine);

    assert_eq!(
        store.search_query(true, 4, "flag = true", true),
        "SELECT id, document, distance FROM (SELECT id, document, vector::distance::knn() AS distance FROM type::table($tablename) WHERE flag = true AND embedding <|4,4|> $vec ORDER BY distance ASC LIMIT 4) WHERE distance <= $threshold ORDER BY distance ASC LIMIT 4"
    );
}

#[test]
fn unfiltered_queries_do_not_prefix_knn_with_true() {
    let store = vector_store(SurrealDistanceFunction::Cosine);

    assert_eq!(
        store.search_query(true, 4, "true", false),
        "SELECT id, document, vector::distance::knn() AS distance FROM type::table($tablename) WHERE embedding <|4,4|> $vec ORDER BY distance ASC LIMIT 4"
    );
}

#[test]
fn empty_filter_reads_as_true() {
    for distance in [SurrealDistanceFunction::Hamming, SurrealDistanceFunction::Jaccard] {
        for has_threshold in [false, true] {
            assert_eq!(
                search_text(distance, true, 7, "", has_threshold),
                search_text(distance, true, 7, "true", has_threshold)
            );
        }
    }
}

#[test]
fn jaccard_with_filter_keeps_the_filter_alone() {
    assert_eq!(
        search_text(SurrealDistanceFunction::Jaccard, false, 12, "flag = true", false),
        "SELECT id, vector::similarity::jaccard($vec, embedding) AS distance FROM type::table($tablename) WHERE flag = true ORDER BY distance DESC LIMIT 12"
    );
}

#[test]
fn jaccard_without_filter_has_a_constant_condition() {
    assert_eq!(
        search_text(SurrealDistanceFunction::Jaccard, false, 12, "", false),
        "SELECT id, vector::similarity::jaccard($vec, embedding) AS distance FROM type::table($tablename) WHERE true ORDER BY distance DESC LIMIT 12"
    );
}

#[test]
fn jaccard_threshold_keeps_large_similarities() {
    assert_eq!(
        search_text(SurrealDistanceFunction::Jaccard, true, 2, "true", true),
        "SELECT id, document, distance FROM (SELECT id, document, vector::similarity::jaccard($vec, embedding) AS distance FROM type::table($tablename) WHERE true ORDER BY distance DESC LIMIT 2) WHERE distance >= $threshold ORDER BY distance DESC LIMIT 2"
    );
}

#[test]
fn id_search_leaves_out_the_document_column() {
    for has_threshold in [false, true] {
        let with_document =
            search_text(SurrealDistanceFunction::Knn, true, 3, "a = 1", has_threshold);
        let ids = search_text(SurrealDistanceFunction::Knn, false, 3, "a = 1", has_threshold);
        assert_ne!(with_document, ids);
        assert_eq!(with_document.replace("id, document", "id"), ids);
    }
}

#[test]
fn index_backed_modes_write_one_statement() {
    let expected = search_text(SurrealDistanceFunction::Knn, true, 5, "x > 1", true);
    for distance in [
        SurrealDistanceFunction::Cosine,
        SurrealDistanceFunction::Euclidean,
        SurrealDistanceFunction::Hamming,
    ] {
        assert_eq!(search_text(distance, true, 5, "x > 1", true), expected);
    }
    assert_ne!(
        search_text(SurrealDistanceFunction::Jaccard, true, 5, "x > 1", true),
        expected
    );
}

#[test]
fn threshold_wraps_the_plain_statement() {
    let plain = search_text(SurrealDistanceFunction::Cosine, true, 9, "x > 1", false);
    assert_eq!(
        search_text(SurrealDistanceFunction::Cosine, true, 9, "x > 1", true),
        format!(
            "SELECT id, document, distance FROM ({plain}) WHERE distance <= $threshold ORDER BY distance ASC LIMIT 9"
        )
    );
}

#[test]
fn sample_counts_tell_statements_apart() {
    assert_ne!(
        search_text(SurrealDistanceFunction::Jaccard, true, 1, "", false),
        search_text(SurrealDistanceFunction::Jaccard, true, 11, "", false)
    );
}

#[test]
fn names_of_the_distance_modes() {
    assert_eq!(SurrealDistanceFunction::Cosine.to_string(), "cosine");
    assert_eq!(SurrealDistanceFunction::Knn.to_string(), "knn");
    assert_eq!(SurrealDistanceFunction::Euclidean.to_string(), "euclidean");
    assert_eq!(SurrealDistanceFunction::Hamming.to_string(), "hamming");
    assert_eq!(SurrealDistanceFunction::Jaccard.to_string(), "jaccard");
}

#[test]
fn decimal_numerals() {
    for n in [0u64, 1, 9, 10, 11, 99, 100, 1_536, 1_000_000, u64::MAX - 1, u64::MAX] {
        let text = decimal_text(n);
        assert_eq!(text, format!("{n}"));
        assert_eq!(text.parse::<u64>().unwrap(), n);
    }
}

#[test]
fn knn_clause_of_the_largest_count() {
    assert_eq!(
        SurrealDistanceFunction::Knn.knn_clause(u64::MAX),
        "embedding <|18446744073709551615,18446744073709551615|> $vec"
    );
}
