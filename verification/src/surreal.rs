//! What the library takes from `surrealdb::types`: values and record ids, carried through
//! unread, and their SurrealQL text.

use surrealdb::types::{RecordId, ToSql, Value};
use vstd::prelude::*;

verus! {

/// A SurrealDB value (`surrealdb::types::Value`), opaque here.
#[verifier::external_type_specification]
#[verifier::external_body]
pub struct ExValue(Value);

/// A SurrealDB record id (`surrealdb::types::RecordId`), opaque here.
#[verifier::external_type_specification]
#[verifier::external_body]
pub struct ExRecordId(RecordId);

/// The SurrealQL literal that `Value::to_sql` writes for a value.
pub uninterp spec fn value_sql(value: Value) -> Seq<char>;

/// The SurrealQL record id (`table:key`) that `RecordId::to_sql` writes.
pub uninterp spec fn record_id_sql(id: RecordId) -> Seq<char>;

/// Calls `surrealdb::types::ToSql::to_sql` on a `Value`: the text is the value's SurrealQL
/// literal, fixed by the value alone. How each kind of value is written is not
/// described here.
#[verifier::external_body]
pub(crate) fn value_to_sql(value: &Value) -> (sql: String)
    ensures
        sql@ == value_sql(*value),
{
    value.to_sql()
}

/// Calls `surrealdb::types::ToSql::to_sql` on a `RecordId`: the text is the escaped table name,
/// a colon and the key, fixed by the id alone. How names and keys are escaped is not described
/// here.
#[verifier::external_body]
pub(crate) fn record_id_to_sql(id: &RecordId) -> (sql: String)
    ensures
        sql@ == record_id_sql(*id),
{
    id.to_sql()
}

} // verus!
