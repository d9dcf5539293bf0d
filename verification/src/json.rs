//! JSON values, as they come in configuration and in the canonical Compose
//! model.

use vstd::prelude::*;

verus! {

/// A JSON value: a string by its content, any other value by its JSON text.
#[derive(Debug, Clone)]
pub enum JsonValue {
    /// A string.
    Text(String),
    /// A number, `true`, `false`, `null`, an array or an object, as it is
    /// written.
    Literal(String),
}

} // verus!
