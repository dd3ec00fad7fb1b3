//! What search statements promise: their text, in terms of what is searched for.

use vstd::prelude::*;

use crate::decimal;
use crate::distance::SurrealDistanceFunction;
use crate::statement;

verus! {

/// Every mode but `Jaccard` takes its score from the index and counts small scores as near;
/// `Jaccard` computes a similarity and counts large ones as near.
pub proof fn modes_say_what_is_near(
    mode: SurrealDistanceFunction,
    indexed: bool,
    score: &'static str,
    operator: &'static str,
    direction: &'static str,
)
    requires
        call_ensures(SurrealDistanceFunction::uses_index_distance, (&mode,), indexed),
        call_ensures(SurrealDistanceFunction::select_distance_expression, (&mode,), score),
        call_ensures(SurrealDistanceFunction::threshold_operator, (&mode,), operator),
        call_ensures(SurrealDistanceFunction::sort_direction, (&mode,), direction),
    ensures
        indexed == !(mode is Jaccard),
        mode is Jaccard ==> {
            &&& score@ == "vector::similarity::jaccard($vec, embedding)"@
            &&& operator@ == ">="@
            &&& direction@ == "DESC"@
        },
        !(mode is Jaccard) ==> {
            &&& score@ == "vector::distance::knn()"@
            &&& operator@ == "<="@
            &&& direction@ == "ASC"@
        },
{
}

/// Every mode has its name in lower case.
pub proof fn modes_have_their_names(mode: SurrealDistanceFunction, name: String)
    requires
        call_ensures(SurrealDistanceFunction::to_string, (&mode,), name),
    ensures
        mode is Knn ==> name@ == "knn"@,
        mode is Hamming ==> name@ == "hamming"@,
        mode is Euclidean ==> name@ == "euclidean"@,
        mode is Cosine ==> name@ == "cosine"@,
        mode is Jaccard ==> name@ == "jaccard"@,
{
}

/// The index is asked for as many records as are wanted, and looks at as many candidates;
/// `Jaccard` asks nothing of it.
pub proof fn the_index_is_asked_for_the_records_wanted(
    mode: SurrealDistanceFunction,
    samples: u64,
    count: String,
    clause: String,
)
    requires
        call_ensures(decimal::decimal_text, (samples,), count),
        call_ensures(SurrealDistanceFunction::knn_clause, (&mode, samples), clause),
    ensures
        mode is Jaccard ==> clause@ == "true"@,
        !(mode is Jaccard) ==> clause@ == "embedding <|"@ + count@ + ","@ + count@ + "|> $vec"@,
{
}

proof fn indexed_statement(columns: Seq<char>, condition: Seq<char>, count: Seq<char>)
    ensures
        "SELECT "@ + columns + ", "@ + "vector::distance::knn()"@
            + " AS distance FROM type::table($tablename) WHERE "@ + condition + (
        " ORDER BY distance "@ + "ASC"@ + " LIMIT "@ + count) == "SELECT "@ + columns
            + ", vector::distance::knn() AS distance FROM type::table($tablename) WHERE "@
            + condition + " ORDER BY distance ASC LIMIT "@ + count,
{
    reveal_strlit(", ");
    reveal_strlit("vector::distance::knn()");
    reveal_strlit(" AS distance FROM type::table($tablename) WHERE ");
    reveal_strlit(", vector::distance::knn() AS distance FROM type::table($tablename) WHERE ");
    reveal_strlit(" ORDER BY distance ");
    reveal_strlit("ASC");
    reveal_strlit(" LIMIT ");
    reveal_strlit(" ORDER BY distance ASC LIMIT ");
    let source = ", vector::distance::knn() AS distance FROM type::table($tablename) WHERE "@;
    let order = " ORDER BY distance ASC LIMIT "@;
    assert(", "@ + "vector::distance::knn()"@ + " AS distance FROM type::table($tablename) WHERE "@
        =~= source);
    assert(" ORDER BY distance "@ + "ASC"@ + " LIMIT "@ =~= order);
    assert("SELECT "@ + columns + ", "@ + "vector::distance::knn()"@
        + " AS distance FROM type::table($tablename) WHERE "@ =~= "SELECT "@ + columns + (", "@
        + "vector::distance::knn()"@ + " AS distance FROM type::table($tablename) WHERE "@));
    assert("SELECT "@ + columns + source + condition + (order + count) =~= "SELECT "@ + columns
        + source + condition + order + count);
}

pub(crate) proof fn indexed_search_spelled_out(
    mode: SurrealDistanceFunction,
    with_document: bool,
    samples: nat,
    filter: Seq<char>,
    count: Seq<char>,
)
    requires
        !(mode is Jaccard),
        count == decimal::numeral(samples),
    ensures
        filter != ""@ && filter != "true"@ ==> statement::search(
            mode,
            with_document,
            samples,
            filter,
            false,
        ) == "SELECT "@ + (if with_document {
            "id, document"@
        } else {
            "id"@
        }) + ", vector::distance::knn() AS distance FROM type::table($tablename) WHERE "@ + (filter
            + " AND embedding <|"@ + count + ","@ + count + "|> $vec"@)
            + " ORDER BY distance ASC LIMIT "@ + count,
        filter == ""@ || filter == "true"@ ==> statement::search(
            mode,
            with_document,
            samples,
            filter,
            false,
        ) == "SELECT "@ + (if with_document {
            "id, document"@
        } else {
            "id"@
        }) + ", vector::distance::knn() AS distance FROM type::table($tablename) WHERE "@ + (
        "embedding <|"@ + count + ","@ + count + "|> $vec"@) + " ORDER BY distance ASC LIMIT "@
            + count,
{
    let columns = if with_document {
        "id, document"@
    } else {
        "id"@
    };
    let nearest = "embedding <|"@ + count + ","@ + count + "|> $vec"@;
    reveal_strlit(" AND ");
    reveal_strlit("embedding <|");
    reveal_strlit(" AND embedding <|");
    assert(filter + " AND "@ + nearest =~= filter + " AND embedding <|"@ + count + ","@ + count
        + "|> $vec"@);
    indexed_statement(columns, filter + " AND "@ + nearest, count);
    indexed_statement(columns, nearest, count);
}

/// A search over the index selects, from the table that is bound, the records that meet the
/// filter, where there is one, and are among the nearest, nearest first, and no more than are
/// wanted.
pub proof fn indexed_searches_read_nearest_records(
    mode: SurrealDistanceFunction,
    with_document: bool,
    samples: u64,
    filter: &str,
    count: String,
    text: String,
)
    requires
        !(mode is Jaccard),
        call_ensures(decimal::decimal_text, (samples,), count),
        call_ensures(statement::search_text, (mode, with_document, samples, filter, false), text),
    ensures
        filter@ != ""@ && filter@ != "true"@ ==> text@ == "SELECT "@ + (if with_document {
            "id, document"@
        } else {
            "id"@
        }) + ", vector::distance::knn() AS distance FROM type::table($tablename) WHERE "@ + (filter@
            + " AND embedding <|"@ + count@ + ","@ + count@ + "|> $vec"@)
            + " ORDER BY distance ASC LIMIT "@ + count@,
        filter@ == ""@ || filter@ == "true"@ ==> text@ == "SELECT "@ + (if with_document {
            "id, document"@
        } else {
            "id"@
        }) + ", vector::distance::knn() AS distance FROM type::table($tablename) WHERE "@ + (
        "embedding <|"@ + count@ + ","@ + count@ + "|> $vec"@) + " ORDER BY distance ASC LIMIT "@
            + count@,
{
    indexed_search_spelled_out(mode, with_document, samples as nat, filter@, count@);
}

pub(crate) proof fn jaccard_search_spelled_out(
    with_document: bool,
    samples: nat,
    filter: Seq<char>,
    count: Seq<char>,
)
    requires
        count == decimal::numeral(samples),
    ensures
        statement::search(
            SurrealDistanceFunction::Jaccard,
            with_document,
            samples,
            filter,
            false,
        ) == "SELECT "@ + (if with_document {
            "id, document"@
        } else {
            "id"@
        })
            + ", vector::similarity::jaccard($vec, embedding) AS distance FROM type::table($tablename) WHERE "@
            + (if filter == ""@ {
            "true"@
        } else {
            filter
        }) + " ORDER BY distance DESC LIMIT "@ + count,
{
    reveal_strlit(", ");
    reveal_strlit("vector::similarity::jaccard($vec, embedding)");
    reveal_strlit(" AS distance FROM type::table($tablename) WHERE ");
    reveal_strlit(
        ", vector::similarity::jaccard($vec, embedding) AS distance FROM type::table($tablename) WHERE ",
    );
    reveal_strlit(" ORDER BY distance ");
    reveal_strlit("DESC");
    reveal_strlit(" LIMIT ");
    reveal_strlit(" ORDER BY distance DESC LIMIT ");
    let columns = if with_document {
        "id, document"@
    } else {
        "id"@
    };
    let condition = if filter == ""@ {
        "true"@
    } else {
        filter
    };
    let source =
        ", vector::similarity::jaccard($vec, embedding) AS distance FROM type::table($tablename) WHERE "@;
    let order = " ORDER BY distance DESC LIMIT "@;
    assert(", "@ + "vector::similarity::jaccard($vec, embedding)"@
        + " AS distance FROM type::table($tablename) WHERE "@ =~= source);
    assert(" ORDER BY distance "@ + "DESC"@ + " LIMIT "@ =~= order);
    assert("SELECT "@ + columns + ", "@ + "vector::similarity::jaccard($vec, embedding)"@
        + " AS distance FROM type::table($tablename) WHERE "@ =~= "SELECT "@ + columns + (", "@
        + "vector::similarity::jaccard($vec, embedding)"@
        + " AS distance FROM type::table($tablename) WHERE "@));
    assert("SELECT "@ + columns + source + condition + (order + count) =~= "SELECT "@ + columns
        + source + condition + order + count);
}

/// A `Jaccard` search selects, from the table that is bound, the records that meet the filter,
/// where there is one, or all of them, most similar first, and no more than are wanted.
pub proof fn jaccard_searches_read_similar_records(
    with_document: bool,
    samples: u64,
    filter: &str,
    count: String,
    text: String,
)
    requires
        call_ensures(decimal::decimal_text, (samples,), count),
        call_ensures(
            statement::search_text,
            (SurrealDistanceFunction::Jaccard, with_document, samples, filter, false),
            text,
        ),
    ensures
        text@ == "SELECT "@ + (if with_document {
            "id, document"@
        } else {
            "id"@
        })
            + ", vector::similarity::jaccard($vec, embedding) AS distance FROM type::table($tablename) WHERE "@
            + (if filter@ == ""@ {
            "true"@
        } else {
            filter@
        }) + " ORDER BY distance DESC LIMIT "@ + count@,
{
    jaccard_search_spelled_out(with_document, samples as nat, filter@, count@);
}

proof fn bounded_statement(
    columns: Seq<char>,
    plain: Seq<char>,
    operator: Seq<char>,
    direction: Seq<char>,
    count: Seq<char>,
    selection: Seq<char>,
    bound: Seq<char>,
)
    requires
        selection == "SELECT "@ + columns + ", distance FROM ("@,
        bound == ") WHERE distance "@ + operator + " $threshold"@ + " ORDER BY distance "@
            + direction + " LIMIT "@,
    ensures
        "SELECT "@ + columns + ", distance FROM ("@ + plain + ") WHERE distance "@ + operator
            + " $threshold"@ + (" ORDER BY distance "@ + direction + " LIMIT "@ + count)
            == selection + plain + bound + count,
{
    assert("SELECT "@ + columns + ", distance FROM ("@ + plain + ") WHERE distance "@ + operator
        + " $threshold"@ + (" ORDER BY distance "@ + direction + " LIMIT "@ + count) =~= selection
        + plain + bound + count);
}

pub(crate) proof fn bounded_search_spelled_out(
    mode: SurrealDistanceFunction,
    with_document: bool,
    samples: nat,
    filter: Seq<char>,
    plain: Seq<char>,
    count: Seq<char>,
)
    requires
        count == decimal::numeral(samples),
        plain == statement::search(mode, with_document, samples, filter, false),
    ensures
        statement::search(mode, with_document, samples, filter, true) == (if with_document {
            "SELECT id, document, distance FROM ("@
        } else {
            "SELECT id, distance FROM ("@
        }) + plain + (if mode is Jaccard {
            ") WHERE distance >= $threshold ORDER BY distance DESC LIMIT "@
        } else {
            ") WHERE distance <= $threshold ORDER BY distance ASC LIMIT "@
        }) + count,
{
    reveal_strlit("SELECT ");
    reveal_strlit("id");
    reveal_strlit("id, document");
    reveal_strlit(", distance FROM (");
    reveal_strlit("SELECT id, document, distance FROM (");
    reveal_strlit("SELECT id, distance FROM (");
    assert("SELECT "@ + "id, document"@ + ", distance FROM ("@
        =~= "SELECT id, document, distance FROM ("@);
    assert("SELECT "@ + "id"@ + ", distance FROM ("@ =~= "SELECT id, distance FROM ("@);
    reveal_strlit(") WHERE distance ");
    reveal_strlit("<=");
    reveal_strlit(">=");
    reveal_strlit(" $threshold");
    reveal_strlit(" ORDER BY distance ");
    reveal_strlit("ASC");
    reveal_strlit("DESC");
    reveal_strlit(" LIMIT ");
    reveal_strlit(") WHERE distance >= $threshold ORDER BY distance DESC LIMIT ");
    reveal_strlit(") WHERE distance <= $threshold ORDER BY distance ASC LIMIT ");
    assert(") WHERE distance "@ + "<="@ + " $threshold"@ + " ORDER BY distance "@ + "ASC"@
        + " LIMIT "@ =~= ") WHERE distance <= $threshold ORDER BY distance ASC LIMIT "@);
    assert(") WHERE distance "@ + ">="@ + " $threshold"@ + " ORDER BY distance "@ + "DESC"@
        + " LIMIT "@ =~= ") WHERE distance >= $threshold ORDER BY distance DESC LIMIT "@);
    let columns = if with_document {
        "id, document"@
    } else {
        "id"@
    };
    let selection = if with_document {
        "SELECT id, document, distance FROM ("@
    } else {
        "SELECT id, distance FROM ("@
    };
    if mode is Jaccard {
        bounded_statement(
            columns,
            plain,
            ">="@,
            "DESC"@,
            count,
            selection,
            ") WHERE distance >= $threshold ORDER BY distance DESC LIMIT "@,
        );
    } else {
        bounded_statement(
            columns,
            plain,
            "<="@,
            "ASC"@,
            count,
            selection,
            ") WHERE distance <= $threshold ORDER BY distance ASC LIMIT "@,
        );
    }
}

/// A threshold wraps the statement that the same search has without one, and keeps of its rows
/// those on the near side: scores up to the threshold where small ones are near, from the
/// threshold on where large ones are. Which side that is rests on the mode alone.
pub proof fn thresholds_keep_the_near_side(
    mode: SurrealDistanceFunction,
    with_document: bool,
    samples: u64,
    filter: &str,
    count: String,
    plain: String,
    bounded: String,
)
    requires
        call_ensures(decimal::decimal_text, (samples,), count),
        call_ensures(statement::search_text, (mode, with_document, samples, filter, false), plain),
        call_ensures(statement::search_text, (mode, with_document, samples, filter, true), bounded),
    ensures
        bounded@ == (if with_document {
            "SELECT id, document, distance FROM ("@
        } else {
            "SELECT id, distance FROM ("@
        }) + plain@ + (if mode is Jaccard {
            ") WHERE distance >= $threshold ORDER BY distance DESC LIMIT "@
        } else {
            ") WHERE distance <= $threshold ORDER BY distance ASC LIMIT "@
        }) + count@,
{
    bounded_search_spelled_out(mode, with_document, samples as nat, filter@, plain@, count@);
}

} // verus!
