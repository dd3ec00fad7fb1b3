use rig_surrealdb::SurrealSearchFilter;
use surrealdb::types::{Array, Number, RecordId, Value};

fn text(value: &str) -> Value {
    Value::String(value.to_string())
}

fn number(value: i64) -> Value {
    Value::Number(Number::Int(value))
}

fn list(values: &[&str]) -> Value {
    let mut items: Vec<Value> = Vec::new();
    for value in values {
        items.push(text(value));
    }
    Value::Array(Array::from(items))
}

#[test]
fn comparisons_render_the_value() {
    assert_eq!(
        SurrealSearchFilter::eq("document.category", text("fruit")).inner(),
        "document.category = 'fruit'"
    );
    assert_eq!(SurrealSearchFilter::gt("price", number(5)).inner(), "price > 5");
    assert_eq!(SurrealSearchFilter::lt("price", number(-5)).inner(), "price < -5");
    assert_eq!(
        SurrealSearchFilter::eq("price", Value::Number(Number::Float(1.5))).inner(),
        "price = 1.5f"
    );
}

#[test]
fn quotes_in_a_value_are_escaped() {
    assert_eq!(
        SurrealSearchFilter::eq("name", text("it's")).inner(),
        "name = \"it's\""
    );
    assert_eq!(
        SurrealSearchFilter::eq("name", text("a\\b")).inner(),
        "name = 'a\\\\b'"
    );
}

#[test]
fn constants_render_as_keywords() {
    assert_eq!(SurrealSearchFilter::eq("a", Value::None).inner(), "a = NONE");
    assert_eq!(SurrealSearchFilter::eq("a", Value::Null).inner(), "a = NULL");
    assert_eq!(SurrealSearchFilter::eq("a", Value::Bool(true)).inner(), "a = true");
}

#[test]
fn record_ids_render_as_references() {
    assert_eq!(
        SurrealSearchFilter::eq("id", Value::RecordId(RecordId::new("person", "tobie"))).inner(),
        "id = person:tobie"
    );
}

#[test]
fn combinations_are_grouped() {
    let a = SurrealSearchFilter::eq("a", number(1));
    let b = SurrealSearchFilter::eq("b", number(2));
    assert_eq!(a.clone().and(b.clone()).inner(), "(a = 1) AND (b = 2)");
    assert_eq!(a.clone().or(b.clone()).inner(), "(a = 1) OR (b = 2)");
    assert_eq!(a.clone().not().inner(), "NOT (a = 1)");
    assert_eq!(
        a.clone().or(b).and(a).not().inner(),
        "NOT (((a = 1) OR (b = 2)) AND (a = 1))"
    );
}

#[test]
fn containment_filters() {
    let key = || "tags".to_string();
    assert_eq!(
        SurrealSearchFilter::contains(key(), text("x")).inner(),
        "tags CONTAINS 'x'"
    );
    assert_eq!(
        SurrealSearchFilter::does_not_contain(key(), text("x")).inner(),
        "tags CONTAINSNOT 'x'"
    );
    assert_eq!(
        SurrealSearchFilter::all(key(), list(&["x", "y"])).inner(),
        "tags CONTAINSALL ['x', 'y']"
    );
    assert_eq!(
        SurrealSearchFilter::any(key(), list(&["x"])).inner(),
        "tags CONTAINSANY ['x']"
    );
}

#[test]
fn membership_filters() {
    assert_eq!(
        SurrealSearchFilter::member("tag".to_string(), list(&[])).inner(),
        "tag IN []"
    );
    assert_eq!(
        SurrealSearchFilter::not_member("tag".to_string(), list(&["x"])).inner(),
        "tag NOTIN ['x']"
    );
}

#[test]
fn geospatial_filters() {
    let key = || "place".to_string();
    assert_eq!(
        SurrealSearchFilter::inside(key(), text("area")).inner(),
        "place INSIDE 'area'"
    );
    assert_eq!(
        SurrealSearchFilter::outside(key(), text("area")).inner(),
        "place OUTSIDE 'area'"
    );
    assert_eq!(
        SurrealSearchFilter::intersects(key(), text("area")).inner(),
        "place INTERSECTS 'area'"
    );
}

#[test]
fn text_filters_take_their_operand_as_it_is() {
    assert_eq!(
        SurrealSearchFilter::matches("body".to_string(), "'red apple'").inner(),
        "body @@ 'red apple'"
    );
    assert_eq!(
        SurrealSearchFilter::regex("body".to_string(), "^a.*z$").inner(),
        "body = /^a.*z$/"
    );
}

#[test]
fn expressions_are_kept_as_given() {
    let filter = SurrealSearchFilter::from_expression("flag".to_string());
    assert_eq!(filter.to_string(), "flag");
    assert_eq!(filter.clone().inner(), "flag");
    assert_eq!(
        SurrealSearchFilter::condition("k", "~", "v").inner(),
        "k ~ v"
    );
}

#[test]
fn combinations_nest_well_and_are_never_absent() {
    let plain = SurrealSearchFilter::from_expression(String::new());
    let constant = SurrealSearchFilter::from_expression("true".to_string());
    for filter in [
        plain.clone().and(constant.clone()),
        plain.clone().or(constant.clone()),
        plain.not(),
        constant.not(),
        SurrealSearchFilter::condition("", "", ""),
    ] {
        let text = filter.inner();
        assert!(text != "" && text != "true");
        assert_eq!(text.matches('(').count(), text.matches(')').count());
    }
}
