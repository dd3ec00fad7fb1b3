//! The SurrealQL statement of a vector search.

use vstd::prelude::*;

use crate::decimal;
use crate::distance::SurrealDistanceFunction;
use crate::text::same_text;

verus! {

/// The columns that a search selects beside the score.
pub open spec fn columns(with_document: bool) -> Seq<char> {
    if with_document {
        "id, document"@
    } else {
        "id"@
    }
}

/// Whether a filter text asks for nothing: the empty text and the constant `true` do.
pub open spec fn unfiltered(filter: Seq<char>) -> bool {
    filter == ""@ || filter == "true"@
}

/// The condition that a search puts on records: the filter, the nearest-record condition of the
/// distance mode, or both, leaving out the one that asks for nothing.
pub open spec fn condition(
    distance: SurrealDistanceFunction,
    samples: nat,
    filter: Seq<char>,
) -> Seq<char> {
    if unfiltered(filter) {
        distance.nearest(samples)
    } else if !distance.index_backed() {
        filter
    } else {
        filter + " AND "@ + distance.nearest(samples)
    }
}

/// Nearest record first, at most `samples` of them.
pub open spec fn order_and_limit(distance: SurrealDistanceFunction, samples: nat) -> Seq<char> {
    " ORDER BY distance "@ + distance.nearest_first() + " LIMIT "@ + decimal::numeral(samples)
}

/// The statement without a threshold.
pub open spec fn nearest_records(
    distance: SurrealDistanceFunction,
    columns: Seq<char>,
    samples: nat,
    filter: Seq<char>,
) -> Seq<char> {
    "SELECT "@ + columns + ", "@ + distance.score()
        + " AS distance FROM type::table($tablename) WHERE "@ + condition(
        distance,
        samples,
        filter,
    ) + order_and_limit(distance, samples)
}

/// The statement that keeps, of what `statement` yields, the scores on the near side of the
/// threshold.
pub open spec fn within_threshold(
    distance: SurrealDistanceFunction,
    columns: Seq<char>,
    samples: nat,
    statement: Seq<char>,
) -> Seq<char> {
    "SELECT "@ + columns + ", distance FROM ("@ + statement + ") WHERE distance "@
        + distance.near_side() + " $threshold"@ + order_and_limit(distance, samples)
}

/// The statement of a vector search that selects `columns` beside the score.
pub open spec fn search_selecting(
    distance: SurrealDistanceFunction,
    columns: Seq<char>,
    samples: nat,
    filter: Seq<char>,
    has_threshold: bool,
) -> Seq<char> {
    let nearest = nearest_records(distance, columns, samples, filter);
    if has_threshold {
        within_threshold(distance, columns, samples, nearest)
    } else {
        nearest
    }
}

/// The statement of a vector search.
pub open spec fn search(
    distance: SurrealDistanceFunction,
    with_document: bool,
    samples: nat,
    filter: Seq<char>,
    has_threshold: bool,
) -> Seq<char> {
    search_selecting(distance, columns(with_document), samples, filter, has_threshold)
}

/// The index-backed modes share one statement: the metric comes from the index alone.
pub proof fn index_backed_modes_share_the_statement(
    left: SurrealDistanceFunction,
    right: SurrealDistanceFunction,
    with_document: bool,
    samples: nat,
    filter: Seq<char>,
    has_threshold: bool,
)
    requires
        left.index_backed(),
        right.index_backed(),
    ensures
        search(left, with_document, samples, filter, has_threshold) == search(
            right,
            with_document,
            samples,
            filter,
            has_threshold,
        ),
{
}

/// The filter `true` changes nothing: the statement is that of the empty filter, and its
/// condition is the nearest-record condition by itself.
pub proof fn true_filter_is_no_filter(
    distance: SurrealDistanceFunction,
    with_document: bool,
    samples: nat,
    has_threshold: bool,
)
    ensures
        condition(distance, samples, "true"@) == distance.nearest(samples),
        search(distance, with_document, samples, "true"@, has_threshold) == search(
            distance,
            with_document,
            samples,
            ""@,
            has_threshold,
        ),
{
}

/// `Jaccard` takes no part in the index-backed path: its condition is the filter as it stands,
/// or `true` where there is none, whatever the number of samples.
pub proof fn jaccard_condition_is_the_filter(samples: nat, filter: Seq<char>)
    ensures
        condition(SurrealDistanceFunction::Jaccard, samples, filter) == if unfiltered(filter) {
            "true"@
        } else {
            filter
        },
{
}

/// A threshold wraps the statement that the same search has without one.
pub proof fn threshold_wraps_the_search(
    distance: SurrealDistanceFunction,
    with_document: bool,
    samples: nat,
    filter: Seq<char>,
)
    ensures
        search(distance, with_document, samples, filter, true) == within_threshold(
            distance,
            columns(with_document),
            samples,
            search(distance, with_document, samples, filter, false),
        ),
{
}

/// The id-only search asks for the same records as the search with documents: the two
/// statements are one statement with two column lists.
pub proof fn id_search_differs_in_columns_only(
    distance: SurrealDistanceFunction,
    samples: nat,
    filter: Seq<char>,
    has_threshold: bool,
)
    ensures
        search(distance, true, samples, filter, has_threshold) == search_selecting(
            distance,
            "id, document"@,
            samples,
            filter,
            has_threshold,
        ),
        search(distance, false, samples, filter, has_threshold) == search_selecting(
            distance,
            "id"@,
            samples,
            filter,
            has_threshold,
        ),
{
}

proof fn last_word_is_unique(a: Seq<char>, x: Seq<char>, b: Seq<char>, y: Seq<char>)
    requires
        a.push(' ') + x == b.push(' ') + y,
        forall|i: int| 0 <= i < x.len() ==> x[i] != ' ',
        forall|i: int| 0 <= i < y.len() ==> y[i] != ' ',
    ensures
        x == y,
{
    let s = a.push(' ') + x;
    let t = b.push(' ') + y;
    assert(s.len() == a.len() + 1 + x.len());
    assert(t.len() == b.len() + 1 + y.len());
    if x.len() < y.len() {
        assert(s[a.len() as int] == ' ');
        assert(t[a.len() as int] == y[a.len() - b.len() - 1]);
    } else if y.len() < x.len() {
        assert(t[b.len() as int] == ' ');
        assert(s[b.len() as int] == x[b.len() - a.len() - 1]);
    } else {
        assert forall|i: int| 0 <= i < x.len() implies x[i] == y[i] by {
            assert(s[a.len() + 1 + i] == x[i]);
            assert(t[b.len() + 1 + i] == y[i]);
        }
        assert(x =~= y);
    }
}

proof fn search_ends_in_its_limit(
    distance: SurrealDistanceFunction,
    with_document: bool,
    samples: nat,
    filter: Seq<char>,
    has_threshold: bool,
) -> (start: Seq<char>)
    ensures
        search(distance, with_document, samples, filter, has_threshold) == start.push(' ')
            + decimal::numeral(samples),
{
    reveal_strlit(" LIMIT ");
    let statement = search(distance, with_document, samples, filter, has_threshold);
    let limit = decimal::numeral(samples);
    let start = statement.take(statement.len() - limit.len() - 1);
    assert(statement =~= start.push(' ') + limit);
    start
}

/// The limit is part of the statement: two searches with different sample counts never share
/// one, whatever else they ask for.
pub proof fn sample_counts_tell_searches_apart(
    left: SurrealDistanceFunction,
    left_document: bool,
    left_samples: nat,
    left_filter: Seq<char>,
    left_threshold: bool,
    right: SurrealDistanceFunction,
    right_document: bool,
    right_samples: nat,
    right_filter: Seq<char>,
    right_threshold: bool,
)
    requires
        left_samples != right_samples,
    ensures
        search(left, left_document, left_samples, left_filter, left_threshold) != search(
            right,
            right_document,
            right_samples,
            right_filter,
            right_threshold,
        ),
{
    let a = search_ends_in_its_limit(
        left,
        left_document,
        left_samples,
        left_filter,
        left_threshold,
    );
    let b = search_ends_in_its_limit(
        right,
        right_document,
        right_samples,
        right_filter,
        right_threshold,
    );
    let x = decimal::numeral(left_samples);
    let y = decimal::numeral(right_samples);
    decimal::numeral_has_digits_only(left_samples);
    decimal::numeral_has_digits_only(right_samples);
    if a.push(' ') + x == b.push(' ') + y {
        last_word_is_unique(a, x, b, y);
        decimal::numeral_is_injective(left_samples, right_samples);
    }
}

fn search_condition(distance: SurrealDistanceFunction, samples: u64, filter: &str) -> (text: String)
    ensures
        text@ == condition(distance, samples as nat, filter@),
{
    proof {
        reveal_strlit("true");
        reveal_strlit("embedding <|");
        if distance.index_backed() {
            assert(distance.nearest(samples as nat)[0] == 'e');
            assert("true"@[0] == 't');
        }
    }
    let nearest = distance.knn_clause(samples);
    if same_text(filter, "") || same_text(filter, "true") {
        nearest
    } else if same_text(nearest.as_str(), "true") {
        filter.to_owned()
    } else {
        let mut text = filter.to_owned();
        text.append(" AND ");
        text.append(nearest.as_str());
        text
    }
}

fn append_order_and_limit(text: &mut String, distance: SurrealDistanceFunction, samples: u64)
    ensures
        final(text)@ == old(text)@ + order_and_limit(distance, samples as nat),
{
    text.append(" ORDER BY distance ");
    text.append(distance.sort_direction());
    text.append(" LIMIT ");
    text.append(decimal::decimal_text(samples).as_str());
    assert(text@ =~= old(text)@ + order_and_limit(distance, samples as nat));
}

/// Writes the statement of a vector search.
pub fn search_text(
    distance: SurrealDistanceFunction,
    with_document: bool,
    samples: u64,
    filter: &str,
    has_threshold: bool,
) -> (text: String)
    ensures
        text@ == search(distance, with_document, samples as nat, filter@, has_threshold),
{
    let columns = if with_document {
        "id, document"
    } else {
        "id"
    };
    let mut inner_query = "SELECT ".to_owned();
    inner_query.append(columns);
    inner_query.append(", ");
    inner_query.append(distance.select_distance_expression());
    inner_query.append(" AS distance FROM type::table($tablename) WHERE ");
    inner_query.append(search_condition(distance, samples, filter).as_str());
    append_order_and_limit(&mut inner_query, distance, samples);
    if has_threshold {
        let mut outer_query = "SELECT ".to_owned();
        outer_query.append(columns);
        outer_query.append(", distance FROM (");
        outer_query.append(inner_query.as_str());
        outer_query.append(") WHERE distance ");
        outer_query.append(distance.threshold_operator());
        outer_query.append(" $threshold");
        append_order_and_limit(&mut outer_query, distance, samples);
        outer_query
    } else {
        inner_query
    }
}

} // verus!
