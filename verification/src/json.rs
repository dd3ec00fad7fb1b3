//! What the library takes from `serde_json`: documents and errors, carried through unread.

use vstd::prelude::*;

verus! {

/// A JSON document (`serde_json::Value`), opaque here.
#[verifier::external_type_specification]
#[verifier::external_body]
pub struct ExJsonValue(serde_json::Value);

/// A failed conversion to or from JSON (`serde_json::Error`), opaque here.
#[verifier::external_type_specification]
#[verifier::external_body]
pub struct ExJsonError(serde_json::Error);

/// `serde_json::Value::clone`: the copy is the same document.
pub assume_specification[ <serde_json::Value as Clone>::clone ](
    document: &serde_json::Value,
) -> (copy: serde_json::Value)
    ensures
        copy == *document,
;

} // verus!
