//! An opaque JSON value.
//!
//! A few upstream fields are defined as "any JSON value" for forward
//! compatibility.  They are carried through the client as this explicit
//! variant type and never inspected by the core's logic; a composite value
//! (an array or an object) is carried as its serialized text.

use vstd::prelude::*;

verus! {

/// One untyped JSON value.
#[derive(Debug, PartialEq, Eq)]
pub enum JsonValue {
    /// The JSON null.
    Null,
    /// A JSON boolean.
    Bool(bool),
    /// A JSON number with an integer value.
    Int(i64),
    /// Any other JSON number, kept as its decimal text.
    Num(String),
    /// A JSON string.
    Text(String),
    /// A JSON array or object, kept as its serialized text.
    Composite(String),
}

impl Clone for JsonValue {
    fn clone(&self) -> (r: Self)
        ensures
            r == *self,
    {
        match self {
            JsonValue::Null => JsonValue::Null,
            JsonValue::Bool(b) => JsonValue::Bool(*b),
            JsonValue::Int(n) => JsonValue::Int(*n),
            JsonValue::Num(s) => JsonValue::Num(s.clone()),
            JsonValue::Text(s) => JsonValue::Text(s.clone()),
            JsonValue::Composite(s) => JsonValue::Composite(s.clone()),
        }
    }
}

impl JsonValue {
    /// Whether this value is the JSON null.
    pub fn is_null(&self) -> (r: bool)
        ensures
            r == (*self matches JsonValue::Null),
    {
        match self {
            JsonValue::Null => true,
            _ => false,
        }
    }
}

} // verus!
