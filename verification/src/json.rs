//! JSON values as the library reads and builds them.
//!
//! Text is turned into these values, and back, by the application (with
//! serde_json); the library only walks and edits them. Numbers keep their
//! literal text.

use vstd::prelude::*;
use crate::text::str_eq;

verus! {

/// A JSON value. Object members keep their order.
#[derive(Debug)]
pub enum JsonValue {
    Null,
    Bool(bool),
    Number(String),
    Str(String),
    Array(Vec<JsonValue>),
    Object(Vec<(String, JsonValue)>),
}

/// The mathematical content of a `JsonValue`.
pub enum JsonView {
    Null,
    Bool(bool),
    Number(Seq<char>),
    Str(Seq<char>),
    Array(Seq<JsonView>),
    Object(Seq<(Seq<char>, JsonView)>),
}

/// The content of a JSON value.
pub open spec fn json_view(v: &JsonValue) -> JsonView
    decreases v,
{
    match v {
        JsonValue::Null => JsonView::Null,
        JsonValue::Bool(b) => JsonView::Bool(*b),
        JsonValue::Number(n) => JsonView::Number(n@),
        JsonValue::Str(s) => JsonView::Str(s@),
        JsonValue::Array(a) => JsonView::Array(
            Seq::new(
                a@.len(),
                |i: int|
                    if 0 <= i < a@.len() {
                        json_view(&a@[i])
                    } else {
                        JsonView::Null
                    },
            ),
        ),
        JsonValue::Object(es) => JsonView::Object(members_view_inner(es)),
    }
}

/// The content of an object's members.
pub open spec fn members_view_inner(es: &Vec<(String, JsonValue)>) -> Seq<(Seq<char>, JsonView)>
    decreases es,
{
    Seq::new(
        es@.len(),
        |i: int|
            if 0 <= i < es@.len() {
                (es@[i].0@, json_view(&es@[i].1))
            } else {
                (Seq::empty(), JsonView::Null)
            },
    )
}

} // verus!
