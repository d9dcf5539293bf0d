//! Content in canonical form, as it goes into a hash.

use crate::json::JsonValue;
use vstd::prelude::*;

verus! {

/// Content in canonical form.
#[derive(Debug)]
pub enum Canonical {
    /// Nothing.
    Absent,
    /// Yes or no.
    Flag(bool),
    /// A text.
    Text(String),
    /// A JSON value.
    Json(JsonValue),
    /// Values in order.
    List(Vec<Canonical>),
    /// Values by key, in key order.
    Entries(Vec<(String, Canonical)>),
    /// A named object and its fields.
    Object(String, Vec<(String, Canonical)>),
}

/// Content in canonical form, by what it holds.
pub enum Content {
    /// Nothing.
    Absent,
    /// Yes or no.
    Flag(bool),
    /// A text.
    Text(Seq<char>),
    /// A JSON string.
    JsonText(Seq<char>),
    /// Another JSON value, as it is written.
    JsonLiteral(Seq<char>),
    /// Values in order.
    List(Seq<Content>),
    /// Values by key, in key order.
    Entries(Seq<(Seq<char>, Content)>),
    /// A named object and its fields.
    Object(Seq<char>, Seq<(Seq<char>, Content)>),
}

impl View for Canonical {
    type V = Content;

    open spec fn view(&self) -> Content
        decreases self,
    {
        match self {
            Canonical::Absent => Content::Absent,
            Canonical::Flag(value) => Content::Flag(*value),
            Canonical::Text(text) => Content::Text(text@),
            Canonical::Json(JsonValue::Text(text)) => Content::JsonText(text@),
            Canonical::Json(JsonValue::Literal(text)) => Content::JsonLiteral(text@),
            Canonical::List(items) => Content::List(
                Seq::new(
                    items@.len(),
                    |i: int|
                        if 0 <= i < items@.len() {
                            items@[i].view()
                        } else {
                            Content::Absent
                        },
                ),
            ),
            Canonical::Entries(entries) => Content::Entries(
                Seq::new(
                    entries@.len(),
                    |i: int|
                        if 0 <= i < entries@.len() {
                            (entries@[i].0@, entries@[i].1.view())
                        } else {
                            (Seq::empty(), Content::Absent)
                        },
                ),
            ),
            Canonical::Object(name, fields) => Content::Object(
                name@,
                Seq::new(
                    fields@.len(),
                    |i: int|
                        if 0 <= i < fields@.len() {
                            (fields@[i].0@, fields@[i].1.view())
                        } else {
                            (Seq::empty(), Content::Absent)
                        },
                ),
            ),
        }
    }
}

} // verus!
