//! The distance modes of the store and the fragments of SurrealQL that each of them selects.

use vstd::prelude::*;

use crate::decimal;

verus! {

/// Selects the query semantics used by `SurrealVectorStore`.
///
/// In SurrealDB v3, `Knn`, `Cosine`, `Euclidean`, and `Hamming` all use the same index-backed
/// HNSW query path. For those variants, the effective metric comes from the vector index `DIST`
/// setting, so the index definition must match the chosen variant.
///
/// `Jaccard` remains a brute-force similarity query and does not use the index-backed KNN path.
#[derive(Clone, Copy, Debug)]
pub enum SurrealDistanceFunction {
    /// Uses SurrealDB's generic index-backed KNN path.
    ///
    /// The score semantics follow the vector index `DIST` setting.
    Knn,
    /// Uses the index-backed KNN path and expects the vector index to use `DIST HAMMING`.
    Hamming,
    /// Uses the index-backed KNN path and expects the vector index to use `DIST EUCLIDEAN`.
    Euclidean,
    /// Uses the index-backed KNN path and expects the vector index to use `DIST COSINE`.
    Cosine,
    /// Uses `vector::similarity::jaccard($vec, embedding)` directly instead of the index-backed
    /// KNN path.
    Jaccard,
}

impl SurrealDistanceFunction {
    /// Whether the score comes from the vector index: every mode but `Jaccard`.
    pub open spec fn index_backed(self) -> bool {
        self != SurrealDistanceFunction::Jaccard
    }

    /// The mode's name in lower case.
    pub open spec fn label(self) -> Seq<char> {
        match self {
            SurrealDistanceFunction::Cosine => "cosine"@,
            SurrealDistanceFunction::Knn => "knn"@,
            SurrealDistanceFunction::Euclidean => "euclidean"@,
            SurrealDistanceFunction::Hamming => "hamming"@,
            SurrealDistanceFunction::Jaccard => "jaccard"@,
        }
    }

    /// The expression whose value a search reports as `distance`.
    pub open spec fn score(self) -> Seq<char> {
        if self.index_backed() {
            "vector::distance::knn()"@
        } else {
            "vector::similarity::jaccard($vec, embedding)"@
        }
    }

    /// The condition that picks the `samples` nearest records: a KNN operator over the index,
    /// or a condition that always holds where no index is used.
    pub open spec fn nearest(self, samples: nat) -> Seq<char> {
        if self.index_backed() {
            "embedding <|"@ + decimal::numeral(samples) + ","@ + decimal::numeral(samples)
                + "|> $vec"@
        } else {
            "true"@
        }
    }

    /// The operator that keeps the scores on the near side of a threshold.
    pub open spec fn near_side(self) -> Seq<char> {
        if self.index_backed() {
            "<="@
        } else {
            ">="@
        }
    }

    /// The direction in which the nearest record comes first.
    pub open spec fn nearest_first(self) -> Seq<char> {
        if self.index_backed() {
            "ASC"@
        } else {
            "DESC"@
        }
    }

    /// The mode's name in lower case.
    pub fn to_string(&self) -> (name: String)
        ensures
            name@ == self.label(),
    {
        let name = match self {
            SurrealDistanceFunction::Cosine => "cosine",
            SurrealDistanceFunction::Knn => "knn",
            SurrealDistanceFunction::Euclidean => "euclidean",
            SurrealDistanceFunction::Hamming => "hamming",
            SurrealDistanceFunction::Jaccard => "jaccard",
        };
        name.to_owned()
    }

    /// Whether the score comes from the vector index.
    pub fn uses_index_distance(&self) -> (indexed: bool)
        ensures
            indexed == self.index_backed(),
    {
        !matches!(self, SurrealDistanceFunction::Jaccard)
    }

    /// The expression whose value a search reports as `distance`.
    pub fn select_distance_expression(&self) -> (expression: &'static str)
        ensures
            expression@ == self.score(),
    {
        match self {
            SurrealDistanceFunction::Jaccard => "vector::similarity::jaccard($vec, embedding)",
            _ => "vector::distance::knn()",
        }
    }

    /// The condition that picks the `samples` nearest records.
    pub fn knn_clause(&self, samples: u64) -> (clause: String)
        ensures
            clause@ == self.nearest(samples as nat),
    {
        match self {
            SurrealDistanceFunction::Knn
            | SurrealDistanceFunction::Cosine
            | SurrealDistanceFunction::Euclidean
            | SurrealDistanceFunction::Hamming => {
                let count = decimal::decimal_text(samples);
                let mut clause = "embedding <|".to_owned();
                clause.append(count.as_str());
                clause.append(",");
                clause.append(count.as_str());
                clause.append("|> $vec");
                clause
            },
            // Jaccard is the only variant whose query semantics do not come from the vector
            // index DIST setting, so it stays on the direct similarity path.
            SurrealDistanceFunction::Jaccard => "true".to_owned(),
        }
    }

    /// The operator that keeps the scores on the near side of a threshold.
    pub fn threshold_operator(&self) -> (operator: &'static str)
        ensures
            operator@ == self.near_side(),
    {
        match self {
            SurrealDistanceFunction::Jaccard => ">=",
            _ => "<=",
        }
    }

    /// The direction in which the nearest record comes first.
    pub fn sort_direction(&self) -> (direction: &'static str)
        ensures
            direction@ == self.nearest_first(),
    {
        match self {
            SurrealDistanceFunction::Jaccard => "DESC",
            _ => "ASC",
        }
    }
}

} // verus!
