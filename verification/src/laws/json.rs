//! Laws of JSON values.

use vstd::prelude::*;

use crate::json::{Json, JsonView, Scalar};
use crate::json;

verus! {

/// An object has a field under a key exactly where the key was set, with the
/// value that it was set to last; other keys do not matter.
pub proof fn law_fields(
    fields: Map<Seq<char>, JsonView>,
    key: Seq<char>,
    other: Seq<char>,
    value: JsonView,
)
    ensures
        JsonView::Object(Map::empty()).field(key) is None,
        JsonView::Object(fields.insert(key, value)).field(key) == Some(value),
        other != key ==> JsonView::Object(fields.insert(key, value)).field(other)
            == JsonView::Object(fields).field(other),
        JsonView::Object(fields).field(key) == (if fields.dom().contains(key) {
            Some(fields[key])
        } else {
            None
        }),
{
}

/// Nothing but an object has fields.
pub proof fn law_only_objects_have_fields(value: JsonView, key: Seq<char>)
    requires
        !(value is Object),
    ensures
        value.field(key) is None,
{
}

/// A value is read as a text, an integer, a truth value, a number or an array
/// exactly where it is one, and as what it is.
pub proof fn law_kinds_are_told_apart(value: JsonView, key: Seq<char>)
    ensures
        value.text() == (match value {
            JsonView::Text(s) => Some(s),
            _ => None,
        }),
        value.integer() == (match value {
            JsonView::Integer(i) => Some(i),
            _ => None,
        }),
        value.boolean() == (match value {
            JsonView::Bool(b) => Some(b),
            _ => None,
        }),
        value.array() == (match value {
            JsonView::Array(items) => Some(items),
            _ => None,
        }),
        value.number() == (if value is Integer || value is Number {
            Some(value)
        } else {
            None
        }),
        value.text_field(key) == (match value.field(key) {
            Some(JsonView::Text(s)) => Some(s),
            _ => None,
        }),
        value.integer_field(key) == (match value.field(key) {
            Some(JsonView::Integer(i)) => Some(i),
            _ => None,
        }),
        value.boolean_field(key) == (match value.field(key) {
            Some(JsonView::Bool(b)) => Some(b),
            _ => None,
        }),
        value.number_field(key) == (match value.field(key) {
            Some(JsonView::Integer(i)) => Some(JsonView::Integer(i)),
            Some(JsonView::Number(n)) => Some(JsonView::Number(n)),
            _ => None,
        }),
{
}

/// The view of a value tells everything of it: two values of a plain kind have
/// the same view only where they are the same, and an array has the views of
/// its items in order.
pub proof fn law_value_is_what_it_holds(json: Json, i: int)
    ensures
        match json {
            Json::Null => json@ == JsonView::Null,
            Json::Bool(b) => json@ == JsonView::Bool(b),
            Json::Integer(n) => json@ == JsonView::Integer(n),
            Json::Number(n) => json@ == (match json::number_integer(n) {
                Some(k) => JsonView::Integer(k),
                None => JsonView::Number(n),
            }),
            Json::Text(s) => json@ == JsonView::Text(s@),
            Json::Array(items) => {
                &&& json@ is Array
                &&& json@->Array_0.len() == items@.len()
                &&& 0 <= i < items@.len() ==> json@->Array_0[i] == items@[i]@
            },
            Json::Object(fields) => json@ == JsonView::Object(fields@),
        },
{
    match json {
        Json::Array(items) => json::lemma_views(items@),
        _ => {},
    }
}

/// The view of a number is the number.
pub proof fn law_number_is_what_it_holds(scalar: Scalar)
    ensures
        match scalar {
            Scalar::Integer(i) => scalar@ == JsonView::Integer(i),
            Scalar::Number(n) => scalar@ == json::number_view(n) && json::number_view(n) == (
            match json::number_integer(n) {
                Some(k) => JsonView::Integer(k),
                None => JsonView::Number(n),
            }),
        },
{
}

/// An array of texts has the texts of the list in order.
pub proof fn law_texts_in_order(items: Seq<String>, i: int)
    ensures
        json::texts_view(items) is Array,
        json::texts_view(items)->Array_0.len() == items.len(),
        0 <= i < items.len() ==> json::texts_view(items)->Array_0[i] == JsonView::Text(items[i]@),
{
}

/// What an optional value, text or number is.
pub proof fn law_optionals(json: &Json, text: &str, scalar: Scalar)
    ensures
        json::optional_view(Some(json)) == Some(json@),
        json::optional_view(None) is None,
        json::optional_text(Some(text)) == Some(text@),
        json::optional_text(None) is None,
        json::optional_scalar(Some(scalar)) == Some(scalar@),
        json::optional_scalar(None) is None,
{
}

} // verus!
