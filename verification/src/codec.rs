//! JSON text.
//!
//! `serde_json` reads and writes the text. Its [`serde_json::Value`] is opaque
//! here but for one layer: [`open_value`] shows the outermost layer of such a
//! value and [`close_value`] puts one around others. What lies below a layer is
//! converted by verified code.

use vstd::prelude::*;

use crate::json::{
    clone_number, entries_map, lemma_to_map, lemma_views_push, number_view, views, Fields, Json,
    JsonView,
};
use crate::text::same;

verus! {

/// A JSON value of `serde_json`.
#[verifier::external_type_specification]
#[verifier::external_body]
pub struct ExValue(serde_json::Value);

/// What a value of `serde_json` holds.
pub uninterp spec fn value_view(value: serde_json::Value) -> JsonView;

/// The outermost layer of a value of `serde_json`.
pub enum Layer {
    Null,
    Bool(bool),
    Integer(i64),
    Number(serde_json::Number),
    Text(String),
    Array(Vec<serde_json::Value>),
    Object(Vec<(String, serde_json::Value)>),
}

/// What the values of a list hold.
pub open spec fn value_views(values: Seq<serde_json::Value>) -> Seq<JsonView> {
    Seq::new(values.len(), |i: int| value_view(values[i]))
}

/// The map that a list of entries stands for, the later entries over the
/// earlier ones.
pub open spec fn entry_views(entries: Seq<(String, serde_json::Value)>) -> Map<
    Seq<char>,
    JsonView,
>
    decreases entries.len(),
{
    if entries.len() == 0 {
        Map::empty()
    } else {
        entry_views(entries.drop_last()).insert(
            entries.last().0@,
            value_view(entries.last().1),
        )
    }
}

/// Whether no two entries have the same key.
pub open spec fn distinct_keys(entries: Seq<(String, serde_json::Value)>) -> bool {
    forall|i: int, j: int|
        0 <= i < j < entries.len() ==> #[trigger] entries[i].0@ != #[trigger] entries[j].0@
}

/// What a layer holds, with all that lies below it.
pub open spec fn layer_view(layer: Layer) -> JsonView {
    match layer {
        Layer::Null => JsonView::Null,
        Layer::Bool(b) => JsonView::Bool(b),
        Layer::Integer(i) => JsonView::Integer(i),
        Layer::Number(n) => number_view(n),
        Layer::Text(s) => JsonView::Text(s@),
        Layer::Array(values) => JsonView::Array(value_views(values@)),
        Layer::Object(entries) => JsonView::Object(entry_views(entries@)),
    }
}

/// The variants of `serde_json::Value` told apart. The keys of an object differ
/// from one another, as they come out of its map.
#[verifier::external_body]
fn open_value(value: serde_json::Value) -> (r: Layer)
    ensures
        layer_view(r) == value_view(value),
        r matches Layer::Object(entries) ==> distinct_keys(entries@),
{
    match value {
        serde_json::Value::Null => Layer::Null,
        serde_json::Value::Bool(b) => Layer::Bool(b),
        serde_json::Value::Number(n) => Layer::Number(n),
        serde_json::Value::String(s) => Layer::Text(s),
        serde_json::Value::Array(values) => Layer::Array(values),
        serde_json::Value::Object(map) => Layer::Object(map.into_iter().collect()),
    }
}

/// The variants of `serde_json::Value` put together. An integer becomes the
/// `serde_json::Number` that `From<i64>` makes of it. An object, whose keys must
/// differ from one another, is collected into a `serde_json::Map`.
#[verifier::external_body]
fn close_value(layer: Layer) -> (r: serde_json::Value)
    requires
        layer matches Layer::Object(entries) ==> distinct_keys(entries@),
    ensures
        value_view(r) == layer_view(layer),
{
    match layer {
        Layer::Null => serde_json::Value::Null,
        Layer::Bool(b) => serde_json::Value::Bool(b),
        Layer::Integer(i) => serde_json::Value::Number(serde_json::Number::from(i)),
        Layer::Number(n) => serde_json::Value::Number(n),
        Layer::Text(s) => serde_json::Value::String(s),
        Layer::Array(values) => serde_json::Value::Array(values),
        Layer::Object(entries) => serde_json::Value::Object(entries.into_iter().collect()),
    }
}

/// What `serde_json::from_str` makes of a text: the value that it denotes, or
/// the message of the error.
pub uninterp spec fn json_read(text: Seq<char>) -> Result<JsonView, Seq<char>>;

/// `serde_json::from_str` into a `serde_json::Value`. The error is given as the
/// text that its `Display` writes.
#[verifier::external_body]
fn read_value(text: &str) -> (r: Result<serde_json::Value, String>)
    ensures
        match r {
            Ok(value) => json_read(text@) == Ok::<JsonView, Seq<char>>(value_view(value)),
            Err(message) => json_read(text@) == Err::<JsonView, Seq<char>>(message@),
        },
{
    serde_json::from_str::<serde_json::Value>(text).map_err(|e| e.to_string())
}

/// The compact text of a JSON value, as `serde_json` writes it.
pub uninterp spec fn json_compact(value: JsonView) -> Seq<char>;

/// `Display` of `serde_json::Value`: the compact text. It is one line: the
/// compact form breaks no lines, and a line feed in a text or a key is written
/// as an escape.
#[verifier::external_body]
fn write_compact(value: &serde_json::Value) -> (r: String)
    ensures
        r@ == json_compact(value_view(*value)),
        !r@.contains('\n'),
{
    format!("{value}")
}

/// `serde_json::to_vec` of a `serde_json::Value`: the bytes of the compact text.
/// Such a value has text keys and no error of its own, and a vector takes every
/// byte, so the call succeeds.
#[verifier::external_body]
fn write_bytes(value: &serde_json::Value) -> (r: Option<Vec<u8>>)
    ensures
        r is Some,
        r->0@ == vstd::utf8::encode_utf8(json_compact(value_view(*value))),
{
    serde_json::to_vec(value).ok()
}

/// The indented text of a JSON value, as `serde_json` writes it.
pub uninterp spec fn json_pretty(value: JsonView) -> Seq<char>;

/// `serde_json::to_string_pretty` of a `serde_json::Value`: the indented text.
/// It succeeds for the same reasons as the compact form.
#[verifier::external_body]
fn write_pretty(value: &serde_json::Value) -> (r: Option<String>)
    ensures
        r is Some,
        r->0@ == json_pretty(value_view(*value)),
{
    serde_json::to_string_pretty(value).ok()
}

proof fn lemma_entry_in_map(entries: Seq<(String, serde_json::Value)>, i: int)
    requires
        0 <= i < entries.len(),
        distinct_keys(entries),
    ensures
        entry_views(entries).dom().contains(entries[i].0@),
        entry_views(entries)[entries[i].0@] == value_view(entries[i].1),
        entry_views(entries).dom().finite(),
    decreases entries.len(),
{
    lemma_entry_views_finite(entries);
    if i < entries.len() - 1 {
        lemma_shorter_keys(entries);
        assert(entries[i].0@ != entries[entries.len() - 1].0@);
        lemma_entry_in_map(entries.drop_last(), i);
        assert(entries.drop_last()[i] == entries[i]);
    }
}

proof fn lemma_shorter_keys(entries: Seq<(String, serde_json::Value)>)
    requires
        entries.len() > 0,
        distinct_keys(entries),
    ensures
        distinct_keys(entries.drop_last()),
{
    let shorter = entries.drop_last();
    assert forall|i: int, j: int| 0 <= i < j < shorter.len() implies #[trigger] shorter[i].0@
        != #[trigger] shorter[j].0@ by {
        assert(entries[i].0@ != entries[j].0@);
    }
}

proof fn lemma_entry_views_finite(entries: Seq<(String, serde_json::Value)>)
    ensures
        entry_views(entries).dom().finite(),
    decreases entries.len(),
{
    if entries.len() > 0 {
        lemma_entry_views_finite(entries.drop_last());
    }
}

/// The library's form of a value of `serde_json`.
fn json_of(value: serde_json::Value) -> (r: Json)
    ensures
        r@ == value_view(value),
    decreases value_view(value),
{
    match open_value(value) {
        Layer::Null => Json::Null,
        Layer::Bool(b) => Json::Bool(b),
        Layer::Integer(i) => Json::Integer(i),
        Layer::Number(n) => Json::Number(n),
        Layer::Text(s) => Json::Text(s),
        Layer::Array(values) => {
            let ghost all = values@;
            let mut items: Vec<Json> = Vec::new();
            for item in it: values
                invariant
                    it.seq() == all,
                    value_view(value) == JsonView::Array(value_views(all)),
                    views(items@) == value_views(all.take(it.index() as int)),
            {
                proof {
                    let i = it.index() as int;
                    let whole = value_view(value);
                    assert(whole->Array_0[i] == value_view(item));
                    assert(decreases_to!(whole => whole->Array_0));
                    assert(decreases_to!(whole->Array_0 => whole->Array_0[i]));
                    assert(value_views(all.take(i)).push(value_view(item)) =~= value_views(
                        all.take(i + 1),
                    ));
                }
                let json = json_of(item);
                proof {
                    lemma_views_push(items@, json);
                }
                items.push(json);
            }
            assert(all.take(all.len() as int) =~= all);
            Json::Array(items)
        },
        Layer::Object(entries) => {
            let ghost all = entries@;
            let mut fields = Fields::new();
            for entry in it: entries
                invariant
                    it.seq() == all,
                    value_view(value) == JsonView::Object(entry_views(all)),
                    distinct_keys(all),
                    fields@ == entry_views(all.take(it.index() as int)),
            {
                proof {
                    let i = it.index() as int;
                    let whole = value_view(value);
                    lemma_entry_in_map(all, i);
                    assert(decreases_to!(whole => whole->Object_0));
                    assert(decreases_to!(whole->Object_0 => whole->Object_0[all[i].0@]));
                    assert(all.take(i + 1).drop_last() =~= all.take(i));
                }
                let (key, inner) = entry;
                let json = json_of(inner);
                fields.put(key.as_str(), json);
            }
            assert(all.take(all.len() as int) =~= all);
            Json::Object(fields)
        },
    }
}

/// An entry put in the place of one under the same key sets that key alone.
proof fn lemma_entry_replaced(
    entries: Seq<(String, serde_json::Value)>,
    at: int,
    entry: (String, serde_json::Value),
)
    requires
        0 <= at < entries.len(),
        distinct_keys(entries),
        entries[at].0@ == entry.0@,
    ensures
        entry_views(entries.update(at, entry)) == entry_views(entries).insert(
            entry.0@,
            value_view(entry.1),
        ),
        distinct_keys(entries.update(at, entry)),
    decreases entries.len(),
{
    let updated = entries.update(at, entry);
    let shorter = entries.drop_last();
    let last = entries.len() - 1;
    if at == last {
        assert(updated.drop_last() =~= shorter);
    } else {
        lemma_shorter_keys(entries);
        lemma_entry_replaced(shorter, at, entry);
        assert(updated.drop_last() =~= shorter.update(at, entry));
        assert(updated.last() == entries[last]);
        assert(entries[at].0@ != entries[last].0@);
    }
    assert forall|i: int, j: int| 0 <= i < j < updated.len() implies #[trigger] updated[i].0@
        != #[trigger] updated[j].0@ by {
        assert(entries[i].0@ != entries[j].0@);
    }
    assert(entry_views(updated) =~= entry_views(entries).insert(entry.0@, value_view(entry.1)));
}

/// Sets the entry under a key: in the place of the one that is there, or at the
/// end.
fn set_entry(entries: &mut Vec<(String, serde_json::Value)>, key: &str, value: serde_json::Value)
    requires
        distinct_keys(old(entries)@),
    ensures
        distinct_keys(final(entries)@),
        entry_views(final(entries)@) == entry_views(old(entries)@).insert(
            key@,
            value_view(value),
        ),
{
    let ghost before = entries@;
    let mut i: usize = 0;
    while i < entries.len()
        invariant
            i <= entries.len(),
            entries@ == before,
            before == old(entries)@,
            distinct_keys(before),
            forall|j: int| 0 <= j < i ==> (#[trigger] before[j]).0@ != key@,
        decreases entries.len() - i,
    {
        if same(entries[i].0.as_str(), key) {
            let entry = (key.to_owned(), value);
            proof {
                lemma_entry_replaced(before, i as int, entry);
            }
            entries.set(i, entry);
            return;
        }
        i = i + 1;
    }
    entries.push((key.to_owned(), value));
    assert(entries@.drop_last() =~= before);
    assert forall|a: int, b: int| 0 <= a < b < entries@.len() implies #[trigger] entries@[a].0@
        != #[trigger] entries@[b].0@ by {
        if b < before.len() {
            assert(before[a].0@ != before[b].0@);
        } else {
            assert(before[a].0@ != key@);
        }
    }
}

/// The `serde_json` form of a value of the library.
fn value_of(json: &Json) -> (r: serde_json::Value)
    ensures
        value_view(r) == json@,
    decreases json,
{
    match json {
        Json::Null => close_value(Layer::Null),
        Json::Bool(b) => close_value(Layer::Bool(*b)),
        Json::Integer(i) => close_value(Layer::Integer(*i)),
        Json::Number(n) => close_value(Layer::Number(clone_number(n))),
        Json::Text(s) => close_value(Layer::Text(s.clone())),
        Json::Array(items) => {
            let mut values: Vec<serde_json::Value> = Vec::new();
            let mut i: usize = 0;
            while i < items.len()
                invariant
                    i <= items.len(),
                    json matches Json::Array(v) && v == items,
                    value_views(values@) == views(items@.take(i as int)),
                decreases items.len() - i,
            {
                let value = value_of(&items[i]);
                let ghost before = values@;
                values.push(value);
                proof {
                    assert(value_views(values@) =~= value_views(before).push(items@[i as int]@));
                    lemma_views_push(items@.take(i as int), items@[i as int]);
                    assert(items@.take(i as int).push(items@[i as int]) =~= items@.take(i + 1));
                }
                i = i + 1;
            }
            assert(items@.take(i as int) =~= items@);
            close_value(Layer::Array(values))
        },
        Json::Object(fields) => {
            let mut entries: Vec<(String, serde_json::Value)> = Vec::new();
            let mut i: usize = 0;
            while i < fields.entries.len()
                invariant
                    i <= fields.entries.len(),
                    json matches Json::Object(f) && f == fields,
                    distinct_keys(entries@),
                    entry_views(entries@) == entries_map(fields.entries@.take(i as int)),
                decreases fields.entries.len() - i,
            {
                assert(decreases_to!(json => fields.entries@[i as int].1));
                let value = value_of(&fields.entries[i].1);
                set_entry(&mut entries, fields.entries[i].0.as_str(), value);
                proof {
                    let taken = fields.entries@.take(i + 1);
                    assert(taken.drop_last() =~= fields.entries@.take(i as int));
                }
                i = i + 1;
            }
            proof {
                assert(fields.entries@.take(i as int) =~= fields.entries@);
                lemma_to_map(*fields);
            }
            close_value(Layer::Object(entries))
        },
    }
}

/// Reads a JSON text. An error comes with its message.
pub fn parse_json(text: &str) -> (r: Result<Json, String>)
    ensures
        match r {
            Ok(json) => json_read(text@) == Ok::<JsonView, Seq<char>>(json@),
            Err(message) => json_read(text@) == Err::<JsonView, Seq<char>>(message@),
        },
{
    match read_value(text) {
        Ok(value) => Ok(json_of(value)),
        Err(message) => Err(message),
    }
}

/// The compact text of a JSON value, which is one line.
pub fn compact_text(json: &Json) -> (r: String)
    ensures
        r@ == json_compact(json@),
        !r@.contains('\n'),
{
    write_compact(&value_of(json))
}

/// The bytes of the compact text of a JSON value.
pub fn compact_bytes(json: &Json) -> (r: Vec<u8>)
    ensures
        r@ == vstd::utf8::encode_utf8(json_compact(json@)),
{
    match write_bytes(&value_of(json)) {
        Some(bytes) => bytes,
        None => Vec::new(),
    }
}

/// The indented text of a JSON value.
pub fn pretty_text(json: &Json) -> (r: String)
    ensures
        r@ == json_pretty(json@),
{
    match write_pretty(&value_of(json)) {
        Some(text) => text,
        None => compact_text(json),
    }
}

} // verus!
