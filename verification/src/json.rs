//! A JSON document, for the parts of API responses that the CLI passes through unread.

use vstd::prelude::*;

verus! {

/// One member of a JSON object.
pub struct JsonMember {
    pub key: String,
    pub value: JsonValue,
}

/// A JSON value. Numbers keep their JSON text.
pub enum JsonValue {
    Null,
    Bool(bool),
    Number(String),
    String(String),
    Array(Vec<JsonValue>),
    Object(Vec<JsonMember>),
}

} // verus!
