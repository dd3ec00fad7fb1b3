//! What filters promise: the text of each, in terms of the texts and values that it was made of.

use surrealdb::types::Value;
use vstd::prelude::*;

use crate::filter::SurrealSearchFilter;
use crate::surreal;

verus! {

/// A filter made from text gives that text back, and so does a copy of it.
pub proof fn expressions_come_back_unchanged(
    expression: String,
    filter: SurrealSearchFilter,
    copy: SurrealSearchFilter,
    text: String,
    text_of_copy: String,
    shown: String,
)
    requires
        call_ensures(SurrealSearchFilter::from_expression, (expression,), filter),
        call_ensures(SurrealSearchFilter::clone, (&filter,), copy),
        call_ensures(SurrealSearchFilter::inner, (filter,), text),
        call_ensures(SurrealSearchFilter::inner, (copy,), text_of_copy),
        call_ensures(SurrealSearchFilter::to_string, (&filter,), shown),
    ensures
        text@ == expression@,
        text_of_copy@ == expression@,
        shown@ == expression@,
{
}

/// The text of any filter is the same whether it is taken out, shown, or taken out of a copy.
pub proof fn filters_have_one_text(
    filter: SurrealSearchFilter,
    copy: SurrealSearchFilter,
    text: String,
    text_of_copy: String,
    shown: String,
)
    requires
        call_ensures(SurrealSearchFilter::clone, (&filter,), copy),
        call_ensures(SurrealSearchFilter::inner, (filter,), text),
        call_ensures(SurrealSearchFilter::inner, (copy,), text_of_copy),
        call_ensures(SurrealSearchFilter::to_string, (&filter,), shown),
    ensures
        text_of_copy@ == text@,
        shown@ == text@,
{
}

/// A condition is its key, its operator and its operand, one space apart.
pub proof fn conditions_are_key_operator_operand(
    key: &str,
    operator: &str,
    operand: &str,
    filter: SurrealSearchFilter,
    text: String,
)
    requires
        call_ensures(SurrealSearchFilter::condition, (key, operator, operand), filter),
        call_ensures(SurrealSearchFilter::inner, (filter,), text),
    ensures
        text@ == key@ + " "@ + operator@ + " "@ + operand@,
{
}

/// A comparison is its key, the sign of the comparison and the value's SurrealQL literal.
pub proof fn comparisons_are_key_sign_value(
    key: &str,
    value: Value,
    filter: SurrealSearchFilter,
    text: String,
)
    requires
        call_ensures(SurrealSearchFilter::inner, (filter,), text),
    ensures
        call_ensures(SurrealSearchFilter::eq, (key, value), filter) ==> text@ == key@ + " = "@
            + surreal::value_sql(value),
        call_ensures(SurrealSearchFilter::gt, (key, value), filter) ==> text@ == key@ + " > "@
            + surreal::value_sql(value),
        call_ensures(SurrealSearchFilter::lt, (key, value), filter) ==> text@ == key@ + " < "@
            + surreal::value_sql(value),
{
    let sql = surreal::value_sql(value);
    reveal_strlit(" ");
    reveal_strlit("=");
    reveal_strlit(">");
    reveal_strlit("<");
    reveal_strlit(" = ");
    reveal_strlit(" > ");
    reveal_strlit(" < ");
    assert(key@ + " "@ + "="@ + " "@ + sql =~= key@ + " = "@ + sql);
    assert(key@ + " "@ + ">"@ + " "@ + sql =~= key@ + " > "@ + sql);
    assert(key@ + " "@ + "<"@ + " "@ + sql =~= key@ + " < "@ + sql);
}

proof fn spaced_operator(key: Seq<char>, operator: Seq<char>, spaced: Seq<char>, operand: Seq<char>)
    requires
        spaced == " "@ + operator + " "@,
    ensures
        key + " "@ + operator + " "@ + operand == key + spaced + operand,
{
    assert(key + " "@ + operator + " "@ + operand =~= key + spaced + operand);
}

/// A test of what a value contains, or of what it is contained in, is its key, the SurrealQL
/// operator of the test and the SurrealQL literal of what it is tested against.
pub proof fn containment_tests_are_key_operator_value(
    key: String,
    value: Value,
    filter: SurrealSearchFilter,
    text: String,
)
    requires
        call_ensures(SurrealSearchFilter::inner, (filter,), text),
    ensures
        call_ensures(SurrealSearchFilter::contains, (key, value), filter) ==> text@ == key@
            + " CONTAINS "@ + surreal::value_sql(value),
        call_ensures(SurrealSearchFilter::does_not_contain, (key, value), filter) ==> text@
            == key@ + " CONTAINSNOT "@ + surreal::value_sql(value),
        call_ensures(SurrealSearchFilter::all, (key, value), filter) ==> text@ == key@
            + " CONTAINSALL "@ + surreal::value_sql(value),
        call_ensures(SurrealSearchFilter::any, (key, value), filter) ==> text@ == key@
            + " CONTAINSANY "@ + surreal::value_sql(value),
        call_ensures(SurrealSearchFilter::member, (key, value), filter) ==> text@ == key@
            + " IN "@ + surreal::value_sql(value),
        call_ensures(SurrealSearchFilter::not_member, (key, value), filter) ==> text@ == key@
            + " NOTIN "@ + surreal::value_sql(value),
{
    let sql = surreal::value_sql(value);
    reveal_strlit(" ");
    reveal_strlit("CONTAINS");
    reveal_strlit("CONTAINSNOT");
    reveal_strlit("CONTAINSALL");
    reveal_strlit("CONTAINSANY");
    reveal_strlit("IN");
    reveal_strlit("NOTIN");
    reveal_strlit(" CONTAINS ");
    reveal_strlit(" CONTAINSNOT ");
    reveal_strlit(" CONTAINSALL ");
    reveal_strlit(" CONTAINSANY ");
    reveal_strlit(" IN ");
    reveal_strlit(" NOTIN ");
    assert(" CONTAINS "@ =~= " "@ + "CONTAINS"@ + " "@);
    assert(" CONTAINSNOT "@ =~= " "@ + "CONTAINSNOT"@ + " "@);
    assert(" CONTAINSALL "@ =~= " "@ + "CONTAINSALL"@ + " "@);
    assert(" CONTAINSANY "@ =~= " "@ + "CONTAINSANY"@ + " "@);
    assert(" IN "@ =~= " "@ + "IN"@ + " "@);
    assert(" NOTIN "@ =~= " "@ + "NOTIN"@ + " "@);
    spaced_operator(key@, "CONTAINS"@, " CONTAINS "@, sql);
    spaced_operator(key@, "CONTAINSNOT"@, " CONTAINSNOT "@, sql);
    spaced_operator(key@, "CONTAINSALL"@, " CONTAINSALL "@, sql);
    spaced_operator(key@, "CONTAINSANY"@, " CONTAINSANY "@, sql);
    spaced_operator(key@, "IN"@, " IN "@, sql);
    spaced_operator(key@, "NOTIN"@, " NOTIN "@, sql);
}

/// A test of where a value lies is its key, the SurrealQL operator of the test and the SurrealQL
/// literal of the geometry.
pub proof fn geometry_tests_are_key_operator_value(
    key: String,
    geometry: Value,
    filter: SurrealSearchFilter,
    text: String,
)
    requires
        call_ensures(SurrealSearchFilter::inner, (filter,), text),
    ensures
        call_ensures(SurrealSearchFilter::inside, (key, geometry), filter) ==> text@ == key@
            + " INSIDE "@ + surreal::value_sql(geometry),
        call_ensures(SurrealSearchFilter::outside, (key, geometry), filter) ==> text@ == key@
            + " OUTSIDE "@ + surreal::value_sql(geometry),
        call_ensures(SurrealSearchFilter::intersects, (key, geometry), filter) ==> text@ == key@
            + " INTERSECTS "@ + surreal::value_sql(geometry),
{
    let sql = surreal::value_sql(geometry);
    reveal_strlit(" ");
    reveal_strlit("INSIDE");
    reveal_strlit("OUTSIDE");
    reveal_strlit("INTERSECTS");
    reveal_strlit(" INSIDE ");
    reveal_strlit(" OUTSIDE ");
    reveal_strlit(" INTERSECTS ");
    assert(" INSIDE "@ =~= " "@ + "INSIDE"@ + " "@);
    assert(" OUTSIDE "@ =~= " "@ + "OUTSIDE"@ + " "@);
    assert(" INTERSECTS "@ =~= " "@ + "INTERSECTS"@ + " "@);
    spaced_operator(key@, "INSIDE"@, " INSIDE "@, sql);
    spaced_operator(key@, "OUTSIDE"@, " OUTSIDE "@, sql);
    spaced_operator(key@, "INTERSECTS"@, " INTERSECTS "@, sql);
}

/// A text search takes its query, and a pattern match its pattern between slashes, as given.
pub proof fn text_tests_take_their_operand_as_given(
    key: String,
    operand: &str,
    filter: SurrealSearchFilter,
    text: String,
)
    requires
        call_ensures(SurrealSearchFilter::inner, (filter,), text),
    ensures
        call_ensures(SurrealSearchFilter::matches, (key, operand), filter) ==> text@ == key@
            + " @@ "@ + operand@,
        call_ensures(SurrealSearchFilter::regex, (key, operand), filter) ==> text@ == key@
            + " = /"@ + operand@ + "/"@,
{
    reveal_strlit(" ");
    reveal_strlit("@@");
    reveal_strlit(" @@ ");
    reveal_strlit("=");
    reveal_strlit("/");
    reveal_strlit(" = /");
    assert(" @@ "@ =~= " "@ + "@@"@ + " "@);
    spaced_operator(key@, "@@"@, " @@ "@, operand@);
    assert(key@ + " "@ + "="@ + " "@ + ("/"@ + operand@ + "/"@) =~= key@ + " = /"@ + operand@
        + "/"@);
}

/// In a combination each operand stands whole inside one pair of parentheses of its own, whatever
/// it is.
pub proof fn combined_filters_stand_in_parentheses(
    left: SurrealSearchFilter,
    right: SurrealSearchFilter,
    combined: SurrealSearchFilter,
    left_text: String,
    right_text: String,
    text: String,
)
    requires
        call_ensures(SurrealSearchFilter::inner, (left,), left_text),
        call_ensures(SurrealSearchFilter::inner, (right,), right_text),
        call_ensures(SurrealSearchFilter::inner, (combined,), text),
    ensures
        call_ensures(SurrealSearchFilter::and, (left, right), combined) ==> text@ == "("@
            + left_text@ + ") AND ("@ + right_text@ + ")"@,
        call_ensures(SurrealSearchFilter::or, (left, right), combined) ==> text@ == "("@
            + left_text@ + ") OR ("@ + right_text@ + ")"@,
        call_ensures(SurrealSearchFilter::not, (left,), combined) ==> text@ == "NOT ("@
            + left_text@ + ")"@,
{
    let l = left_text@;
    let r = right_text@;
    reveal_strlit("(");
    reveal_strlit(")");
    reveal_strlit(" AND ");
    reveal_strlit(" OR ");
    reveal_strlit("NOT ");
    reveal_strlit(") AND (");
    reveal_strlit(") OR (");
    reveal_strlit("NOT (");
    assert("("@ + l + ")"@ + " AND "@ + ("("@ + r + ")"@) =~= "("@ + l + ") AND ("@ + r + ")"@);
    assert("("@ + l + ")"@ + " OR "@ + ("("@ + r + ")"@) =~= "("@ + l + ") OR ("@ + r + ")"@);
    assert("NOT "@ + ("("@ + l + ")"@) =~= "NOT ("@ + l + ")"@);
}

} // verus!
