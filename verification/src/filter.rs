//! Filter expressions: SurrealQL conditions that a search places in its `WHERE` clause.

use surrealdb::types::Value;
use vstd::prelude::*;

use crate::surreal;

verus! {

/// A SurrealDB-native filter expression used in vector search queries.
#[derive(Debug)]
pub struct SurrealSearchFilter(String);

/// The text of a condition on one key: key, operator and operand, one space apart.
pub open spec fn infix(key: Seq<char>, operator: Seq<char>, operand: Seq<char>) -> Seq<char> {
    key + " "@ + operator + " "@ + operand
}

/// An expression in parentheses.
pub open spec fn group(expression: Seq<char>) -> Seq<char> {
    "("@ + expression + ")"@
}

/// The conjunction of two expressions.
pub open spec fn conjunction(left: Seq<char>, right: Seq<char>) -> Seq<char> {
    group(left) + " AND "@ + group(right)
}

/// The disjunction of two expressions.
pub open spec fn disjunction(left: Seq<char>, right: Seq<char>) -> Seq<char> {
    group(left) + " OR "@ + group(right)
}

/// The negation of an expression.
pub open spec fn negation(expression: Seq<char>) -> Seq<char> {
    "NOT "@ + group(expression)
}

impl View for SurrealSearchFilter {
    type V = Seq<char>;

    /// The SurrealQL text of the filter.
    closed spec fn view(&self) -> Seq<char> {
        self.0@
    }
}

impl Clone for SurrealSearchFilter {
    fn clone(&self) -> (copy: Self)
        ensures
            copy@ == self@,
    {
        SurrealSearchFilter(self.0.clone())
    }
}

fn grouped(expression: &str) -> (text: String)
    ensures
        text@ == group(expression@),
{
    let mut text = "(".to_owned();
    text.append(expression);
    text.append(")");
    text
}

impl SurrealSearchFilter {
    /// Takes SurrealQL text as a filter, unchanged.
    pub fn from_expression(expression: String) -> (filter: Self)
        ensures
            filter@ == expression@,
    {
        SurrealSearchFilter(expression)
    }

    /// The SurrealQL text of the filter.
    pub fn inner(self) -> (expression: String)
        ensures
            expression@ == self@,
    {
        self.0
    }

    /// A copy of the SurrealQL text of the filter.
    pub fn to_string(&self) -> (expression: String)
        ensures
            expression@ == self@,
    {
        self.0.clone()
    }

    /// The condition `key operator operand` on SurrealQL text.
    pub fn condition(key: &str, operator: &str, operand: &str) -> (filter: Self)
        ensures
            filter@ == infix(key@, operator@, operand@),
    {
        let mut text = key.to_owned();
        text.append(" ");
        text.append(operator);
        text.append(" ");
        text.append(operand);
        SurrealSearchFilter(text)
    }

    /// Test if the value at `key` equals `value`
    pub fn eq(key: &str, value: Value) -> (filter: Self)
        ensures
            filter@ == infix(key@, "="@, surreal::value_sql(value)),
    {
        Self::condition(key, "=", surreal::value_to_sql(&value).as_str())
    }

    /// Test if the value at `key` is greater than `value`
    pub fn gt(key: &str, value: Value) -> (filter: Self)
        ensures
            filter@ == infix(key@, ">"@, surreal::value_sql(value)),
    {
        Self::condition(key, ">", surreal::value_to_sql(&value).as_str())
    }

    /// Test if the value at `key` is less than `value`
    pub fn lt(key: &str, value: Value) -> (filter: Self)
        ensures
            filter@ == infix(key@, "<"@, surreal::value_sql(value)),
    {
        Self::condition(key, "<", surreal::value_to_sql(&value).as_str())
    }

    /// Test if both filters hold
    pub fn and(self, rhs: Self) -> (filter: Self)
        ensures
            filter@ == conjunction(self@, rhs@),
    {
        let mut text = grouped(self.0.as_str());
        text.append(" AND ");
        text.append(grouped(rhs.0.as_str()).as_str());
        SurrealSearchFilter(text)
    }

    /// Test if at least one of the filters holds
    pub fn or(self, rhs: Self) -> (filter: Self)
        ensures
            filter@ == disjunction(self@, rhs@),
    {
        let mut text = grouped(self.0.as_str());
        text.append(" OR ");
        text.append(grouped(rhs.0.as_str()).as_str());
        SurrealSearchFilter(text)
    }

    /// Test if the filter does not hold
    pub fn not(self) -> (filter: Self)
        ensures
            filter@ == negation(self@),
    {
        let mut text = "NOT ".to_owned();
        text.append(grouped(self.0.as_str()).as_str());
        SurrealSearchFilter(text)
    }

    /// Test if the value at `key` contains `val`
    pub fn contains(key: String, val: Value) -> (filter: Self)
        ensures
            filter@ == infix(key@, "CONTAINS"@, surreal::value_sql(val)),
    {
        Self::condition(key.as_str(), "CONTAINS", surreal::value_to_sql(&val).as_str())
    }

    /// Test if the value at `key` does *not* contain `val`
    pub fn does_not_contain(key: String, val: Value) -> (filter: Self)
        ensures
            filter@ == infix(key@, "CONTAINSNOT"@, surreal::value_sql(val)),
    {
        Self::condition(key.as_str(), "CONTAINSNOT", surreal::value_to_sql(&val).as_str())
    }

    /// Test if the value at `key` contains every element of `vals`
    /// `vals` should be a SurrealDB collection
    pub fn all(key: String, vals: Value) -> (filter: Self)
        ensures
            filter@ == infix(key@, "CONTAINSALL"@, surreal::value_sql(vals)),
    {
        Self::condition(key.as_str(), "CONTAINSALL", surreal::value_to_sql(&vals).as_str())
    }

    /// Test if the value at `key` contains any elements of `vals`
    /// `vals` should be a SurrealDB collection
    pub fn any(key: String, vals: Value) -> (filter: Self)
        ensures
            filter@ == infix(key@, "CONTAINSANY"@, surreal::value_sql(vals)),
    {
        Self::condition(key.as_str(), "CONTAINSANY", surreal::value_to_sql(&vals).as_str())
    }

    /// Test if the value at `key` is a member of `vals`
    /// `vals` should be a SurrealDB collection
    pub fn member(key: String, vals: Value) -> (filter: Self)
        ensures
            filter@ == infix(key@, "IN"@, surreal::value_sql(vals)),
    {
        Self::condition(key.as_str(), "IN", surreal::value_to_sql(&vals).as_str())
    }

    /// Test if the value at `key` is *not* a member of `vals`
    /// `vals` should be a SurrealDB collection
    pub fn not_member(key: String, vals: Value) -> (filter: Self)
        ensures
            filter@ == infix(key@, "NOTIN"@, surreal::value_sql(vals)),
    {
        Self::condition(key.as_str(), "NOTIN", surreal::value_to_sql(&vals).as_str())
    }

    /// Test if the value at `key` is inside `geometry`
    pub fn inside(key: String, geometry: Value) -> (filter: Self)
        ensures
            filter@ == infix(key@, "INSIDE"@, surreal::value_sql(geometry)),
    {
        Self::condition(key.as_str(), "INSIDE", surreal::value_to_sql(&geometry).as_str())
    }

    /// Test if the value at `key` is outside `geometry`
    pub fn outside(key: String, geometry: Value) -> (filter: Self)
        ensures
            filter@ == infix(key@, "OUTSIDE"@, surreal::value_sql(geometry)),
    {
        Self::condition(key.as_str(), "OUTSIDE", surreal::value_to_sql(&geometry).as_str())
    }

    /// Test if the value at `key` intersects `geometry`
    pub fn intersects(key: String, geometry: Value) -> (filter: Self)
        ensures
            filter@ == infix(key@, "INTERSECTS"@, surreal::value_sql(geometry)),
    {
        Self::condition(key.as_str(), "INTERSECTS", surreal::value_to_sql(&geometry).as_str())
    }

    /// SurrealDB text search
    pub fn matches(key: String, query: &str) -> (filter: Self)
        ensures
            filter@ == infix(key@, "@@"@, query@),
    {
        Self::condition(key.as_str(), "@@", query)
    }

    /// Check if the value at `key` matches regex `pattern`
    /// `pattern` should be a valid surrealDB regex
    pub fn regex(key: String, pattern: &str) -> (filter: Self)
        ensures
            filter@ == infix(key@, "="@, "/"@ + pattern@ + "/"@),
    {
        let mut literal = "/".to_owned();
        literal.append(pattern);
        literal.append("/");
        Self::condition(key.as_str(), "=", literal.as_str())
    }
}

} // verus!
