//! JSON values.
//!
//! [`Json`] is the value that the rest of the library reads and builds, and
//! [`JsonView`] is what such a value is: an object is a finite map from keys to
//! values, whatever order its fields were written in.

use vstd::prelude::*;

use crate::text::same;

verus! {

/// A number of `serde_json`, carried through as it is.
#[verifier::external_type_specification]
#[verifier::external_body]
pub struct ExNumber(serde_json::Number);

/// `serde_json::Number::clone`, whose impl is derived over a private copyable
/// value: the clone is the same number.
#[verifier::external_body]
pub(crate) fn clone_number(number: &serde_json::Number) -> (r: serde_json::Number)
    ensures
        r == *number,
{
    number.clone()
}

/// `serde_json::Number::as_i64`: the integer that a number is, where it is an
/// integer of the range of `i64`.
pub uninterp spec fn number_integer(number: serde_json::Number) -> Option<i64>;

/// `serde_json::Number::as_i64` answers by the number alone.
pub assume_specification[ serde_json::Number::as_i64 ](number: &serde_json::Number) -> (r:
    Option<i64>)
    ensures
        r == number_integer(*number),
;

/// What a number of `serde_json` is as a JSON value.
pub open spec fn number_view(number: serde_json::Number) -> JsonView {
    match number_integer(number) {
        Some(i) => JsonView::Integer(i),
        None => JsonView::Number(number),
    }
}

/// What a JSON value is.
#[verifier::ext_equal]
pub enum JsonView {
    Null,
    Bool(bool),
    /// A number that is an integer of the range of `i64`.
    Integer(i64),
    /// Any other number: a greater integer, or one with a fraction or exponent.
    Number(serde_json::Number),
    Text(Seq<char>),
    Array(Seq<JsonView>),
    Object(Map<Seq<char>, JsonView>),
}

impl JsonView {
    /// The field of an object under a key; anything else has no fields.
    pub open spec fn field(self, key: Seq<char>) -> Option<JsonView> {
        match self {
            JsonView::Object(fields) => if fields.dom().contains(key) {
                Some(fields[key])
            } else {
                None
            },
            _ => None,
        }
    }

    pub open spec fn text(self) -> Option<Seq<char>> {
        match self {
            JsonView::Text(s) => Some(s),
            _ => None,
        }
    }

    pub open spec fn integer(self) -> Option<i64> {
        match self {
            JsonView::Integer(i) => Some(i),
            _ => None,
        }
    }

    pub open spec fn boolean(self) -> Option<bool> {
        match self {
            JsonView::Bool(b) => Some(b),
            _ => None,
        }
    }

    /// The value, where it is a number.
    pub open spec fn number(self) -> Option<JsonView> {
        match self {
            JsonView::Integer(_) => Some(self),
            JsonView::Number(_) => Some(self),
            _ => None,
        }
    }

    pub open spec fn array(self) -> Option<Seq<JsonView>> {
        match self {
            JsonView::Array(items) => Some(items),
            _ => None,
        }
    }

    /// The text that the field under a key holds, where it holds a text.
    pub open spec fn text_field(self, key: Seq<char>) -> Option<Seq<char>> {
        match self.field(key) {
            Some(value) => value.text(),
            None => None,
        }
    }

    /// The integer that the field under a key holds, where it holds one.
    pub open spec fn integer_field(self, key: Seq<char>) -> Option<i64> {
        match self.field(key) {
            Some(value) => value.integer(),
            None => None,
        }
    }

    /// The number that the field under a key holds, where it holds one.
    pub open spec fn number_field(self, key: Seq<char>) -> Option<JsonView> {
        match self.field(key) {
            Some(value) => value.number(),
            None => None,
        }
    }

    /// The truth value that the field under a key holds, where it holds one.
    pub open spec fn boolean_field(self, key: Seq<char>) -> Option<bool> {
        match self.field(key) {
            Some(value) => value.boolean(),
            None => None,
        }
    }
}

/// A JSON number.
#[derive(Debug)]
pub enum Scalar {
    Integer(i64),
    /// Any number, an integer too.
    Number(serde_json::Number),
}

impl View for Scalar {
    type V = JsonView;

    open spec fn view(&self) -> JsonView {
        match self {
            Scalar::Integer(i) => JsonView::Integer(*i),
            Scalar::Number(n) => number_view(*n),
        }
    }
}

impl Clone for Scalar {
    fn clone(&self) -> (r: Scalar)
        ensures
            r@ == self@,
    {
        match self {
            Scalar::Integer(i) => Scalar::Integer(*i),
            Scalar::Number(n) => Scalar::Number(clone_number(n)),
        }
    }
}

/// What an optional number is.
pub open spec fn optional_scalar(value: Option<Scalar>) -> Option<JsonView> {
    match value {
        Some(number) => Some(number@),
        None => None,
    }
}

/// A JSON value.
#[derive(Debug)]
pub enum Json {
    Null,
    Bool(bool),
    Integer(i64),
    /// Any number, an integer too.
    Number(serde_json::Number),
    Text(String),
    Array(Vec<Json>),
    Object(Fields),
}

/// The fields of a JSON object. Of two fields under one key the later counts.
#[derive(Debug)]
pub struct Fields {
    pub(crate) entries: Vec<(String, Json)>,
}

impl Json {
    pub open spec fn to_view(self) -> JsonView
        decreases self,
    {
        match self {
            Json::Null => JsonView::Null,
            Json::Bool(b) => JsonView::Bool(b),
            Json::Integer(i) => JsonView::Integer(i),
            Json::Number(n) => number_view(n),
            Json::Text(s) => JsonView::Text(s@),
            Json::Array(items) => JsonView::Array(views(items@)),
            Json::Object(fields) => JsonView::Object(fields.to_map()),
        }
    }
}

/// What the values of a list are.
pub open spec fn views(items: Seq<Json>) -> Seq<JsonView>
    decreases items,
{
    if items.len() == 0 {
        Seq::empty()
    } else {
        views(items.drop_last()).push(items.last().to_view())
    }
}

/// The map that a list of entries stands for, the later entries over the
/// earlier ones.
pub open spec fn entries_map(entries: Seq<(String, Json)>) -> Map<Seq<char>, JsonView>
    decreases entries,
{
    if entries.len() == 0 {
        Map::empty()
    } else {
        entries_map(entries.drop_last()).insert(entries.last().0@, entries.last().1.to_view())
    }
}

impl Fields {
    pub closed spec fn to_map(self) -> Map<Seq<char>, JsonView>
        decreases self,
    {
        entries_map(self.entries@)
    }
}

impl View for Json {
    type V = JsonView;

    open spec fn view(&self) -> JsonView {
        self.to_view()
    }
}

impl View for Fields {
    type V = Map<Seq<char>, JsonView>;

    open spec fn view(&self) -> Map<Seq<char>, JsonView> {
        self.to_map()
    }
}

/// `views` keeps the order and the number of the values.
pub proof fn lemma_views(items: Seq<Json>)
    ensures
        views(items).len() == items.len(),
        forall|i: int| 0 <= i < items.len() ==> #[trigger] views(items)[i] == items[i]@,
    decreases items.len(),
{
    if items.len() > 0 {
        lemma_views(items.drop_last());
    }
}

/// `views` of a list with one more value at its end.
pub proof fn lemma_views_push(items: Seq<Json>, item: Json)
    ensures
        views(items.push(item)) == views(items).push(item@),
{
    assert(items.push(item).drop_last() =~= items);
}

/// The entries of a field list are what its map is made of.
pub(crate) proof fn lemma_to_map(fields: Fields)
    ensures
        fields@ == entries_map(fields.entries@),
{
}

proof fn lemma_keys(entries: Seq<(String, Json)>)
    ensures
        forall|k: int|
            0 <= k < entries.len() ==> entries_map(entries).dom().contains(
                (#[trigger] entries[k]).0@,
            ),
    decreases entries.len(),
{
    if entries.len() > 0 {
        let shorter = entries.drop_last();
        lemma_keys(shorter);
        assert forall|k: int| 0 <= k < entries.len() implies entries_map(entries).dom().contains(
            (#[trigger] entries[k]).0@,
        ) by {
            if k < shorter.len() {
                assert(shorter[k] == entries[k]);
            }
        }
    }
}

proof fn lemma_key_of_entry(entries: Seq<(String, Json)>, key: Seq<char>)
    requires
        entries_map(entries).dom().contains(key),
    ensures
        exists|k: int| 0 <= k < entries.len() && (#[trigger] entries[k]).0@ == key,
    decreases entries.len(),
{
    if entries.len() > 0 {
        let last = entries.len() - 1;
        if entries[last].0@ != key {
            let shorter = entries.drop_last();
            lemma_key_of_entry(shorter, key);
            let k = choose|k: int| 0 <= k < shorter.len() && (#[trigger] shorter[k]).0@ == key;
            assert(entries[k].0@ == key);
        }
    }
}

/// What an optional reference to a JSON value is.
pub open spec fn optional_view(value: Option<&Json>) -> Option<JsonView> {
    match value {
        Some(json) => Some(json@),
        None => None,
    }
}

/// What an optional string is.
pub open spec fn optional_text(value: Option<&str>) -> Option<Seq<char>> {
    match value {
        Some(s) => Some(s@),
        None => None,
    }
}

impl Fields {
    /// No fields.
    pub fn new() -> (r: Fields)
        ensures
            r@ == Map::<Seq<char>, JsonView>::empty(),
    {
        Fields { entries: Vec::new() }
    }

    /// Sets the field under a key.
    pub fn put(&mut self, key: &str, value: Json)
        ensures
            final(self)@ == old(self)@.insert(key@, value@),
    {
        let ghost before = self.entries@;
        self.entries.push((key.to_owned(), value));
        assert(self.entries@.drop_last() =~= before);
    }

    /// These fields and one more.
    pub fn with(self, key: &str, value: Json) -> (r: Fields)
        ensures
            r@ == self@.insert(key@, value@),
    {
        let mut fields = self;
        fields.put(key, value);
        fields
    }

    /// The value under a key.
    pub fn get(&self, key: &str) -> (r: Option<&Json>)
        ensures
            optional_view(r) == JsonView::Object(self@).field(key@),
    {
        let mut i: usize = self.entries.len();
        assert(self.entries@.take(i as int) =~= self.entries@);
        while i > 0
            invariant
                i <= self.entries.len(),
                JsonView::Object(self@).field(key@) == JsonView::Object(
                    entries_map(self.entries@.take(i as int)),
                ).field(key@),
            decreases i,
        {
            i = i - 1;
            let entry = &self.entries[i];
            assert(self.entries@.take(i + 1).drop_last() =~= self.entries@.take(i as int));
            assert(self.entries@.take(i + 1).last() == entry);
            if same(entry.0.as_str(), key) {
                return Some(&entry.1);
            }
        }
        None
    }

    /// Whether there are no fields but under the two keys.
    pub fn has_only(&self, a: &str, b: &str) -> (r: bool)
        ensures
            r == (forall|key: Seq<char>| #[trigger]
                self@.dom().contains(key) ==> key == a@ || key == b@),
    {
        proof {
            lemma_keys(self.entries@);
        }
        let mut i: usize = 0;
        while i < self.entries.len()
            invariant
                i <= self.entries.len(),
                forall|k: int|
                    0 <= k < self.entries@.len() ==> self@.dom().contains(
                        (#[trigger] self.entries@[k]).0@,
                    ),
                forall|k: int|
                    0 <= k < i ==> (#[trigger] self.entries@[k]).0@ == a@ || self.entries@[k].0@
                        == b@,
            decreases self.entries.len() - i,
        {
            let key = self.entries[i].0.as_str();
            if !same(key, a) && !same(key, b) {
                assert(self@.dom().contains(self.entries@[i as int].0@));
                return false;
            }
            i = i + 1;
        }
        assert forall|key: Seq<char>| #[trigger] self@.dom().contains(key) implies key == a@
            || key == b@ by {
            lemma_key_of_entry(self.entries@, key);
        }
        true
    }

    fn clone_fields(&self) -> (r: Fields)
        ensures
            r@ == self@,
        decreases self,
    {
        let mut entries: Vec<(String, Json)> = Vec::new();
        let mut i: usize = 0;
        while i < self.entries.len()
            invariant
                i <= self.entries.len(),
                entries_map(entries@) == entries_map(self.entries@.take(i as int)),
            decreases self.entries.len() - i,
        {
            let ghost before = entries@;
            assert(decreases_to!(self => self.entries@[i as int].1));
            entries.push((self.entries[i].0.clone(), self.entries[i].1.clone_json()));
            assert(entries@.drop_last() =~= before);
            assert(self.entries@.take(i + 1).drop_last() =~= self.entries@.take(i as int));
            i = i + 1;
        }
        assert(self.entries@.take(i as int) =~= self.entries@);
        Fields { entries }
    }
}

impl Json {
    fn clone_json(&self) -> (r: Json)
        ensures
            r@ == self@,
        decreases self,
    {
        match self {
            Json::Null => Json::Null,
            Json::Bool(b) => Json::Bool(*b),
            Json::Integer(i) => Json::Integer(*i),
            Json::Number(n) => Json::Number(clone_number(n)),
            Json::Text(s) => Json::Text(s.clone()),
            Json::Array(items) => {
                let mut copies: Vec<Json> = Vec::new();
                let mut i: usize = 0;
                while i < items.len()
                    invariant
                        i <= items.len(),
                        self matches Json::Array(v) && v == items,
                        views(copies@) == views(items@.take(i as int)),
                    decreases items.len() - i,
                {
                    let copy = items[i].clone_json();
                    proof {
                        lemma_views_push(copies@, copy);
                        lemma_views_push(items@.take(i as int), items@[i as int]);
                        assert(items@.take(i as int).push(items@[i as int]) =~= items@.take(i + 1));
                    }
                    copies.push(copy);
                    i = i + 1;
                }
                assert(items@.take(i as int) =~= items@);
                Json::Array(copies)
            },
            Json::Object(fields) => Json::Object(fields.clone_fields()),
        }
    }
}

impl Json {
    /// A text.
    pub fn text(s: &str) -> (r: Json)
        ensures
            r@ == JsonView::Text(s@),
    {
        Json::Text(s.to_owned())
    }

    /// The field of an object under a key.
    pub fn get(&self, key: &str) -> (r: Option<&Json>)
        ensures
            optional_view(r) == self@.field(key@),
    {
        match self {
            Json::Object(fields) => fields.get(key),
            _ => None,
        }
    }

    pub fn as_str(&self) -> (r: Option<&str>)
        ensures
            optional_text(r) == self@.text(),
    {
        match self {
            Json::Text(s) => Some(s.as_str()),
            _ => None,
        }
    }

    pub fn as_i64(&self) -> (r: Option<i64>)
        ensures
            r == self@.integer(),
    {
        match self {
            Json::Integer(i) => Some(*i),
            Json::Number(n) => n.as_i64(),
            _ => None,
        }
    }

    pub fn as_bool(&self) -> (r: Option<bool>)
        ensures
            r == self@.boolean(),
    {
        match self {
            Json::Bool(b) => Some(*b),
            _ => None,
        }
    }

    pub fn as_array(&self) -> (r: Option<&Vec<Json>>)
        ensures
            match r {
                Some(items) => self@.array() == Some(views(items@)),
                None => self@.array() is None,
            },
    {
        match self {
            Json::Array(items) => Some(items),
            _ => None,
        }
    }

    /// The value, where it is a number.
    pub fn as_number(&self) -> (r: Option<Scalar>)
        ensures
            optional_scalar(r) == self@.number(),
    {
        match self {
            Json::Integer(i) => Some(Scalar::Integer(*i)),
            Json::Number(n) => Some(Scalar::Number(clone_number(n))),
            _ => None,
        }
    }

    /// The number that the field under a key holds.
    pub fn number_field(&self, key: &str) -> (r: Option<Scalar>)
        ensures
            optional_scalar(r) == self@.number_field(key@),
    {
        match self.get(key) {
            Some(value) => value.as_number(),
            None => None,
        }
    }

    /// The text that the field under a key holds.
    pub fn text_field(&self, key: &str) -> (r: Option<&str>)
        ensures
            optional_text(r) == self@.text_field(key@),
    {
        match self.get(key) {
            Some(value) => value.as_str(),
            None => None,
        }
    }

    /// The integer that the field under a key holds.
    pub fn integer_field(&self, key: &str) -> (r: Option<i64>)
        ensures
            r == self@.integer_field(key@),
    {
        match self.get(key) {
            Some(value) => value.as_i64(),
            None => None,
        }
    }

    /// The truth value that the field under a key holds.
    pub fn boolean_field(&self, key: &str) -> (r: Option<bool>)
        ensures
            r == self@.boolean_field(key@),
    {
        match self.get(key) {
            Some(value) => value.as_bool(),
            None => None,
        }
    }
}

/// The array of the texts of a list.
pub open spec fn texts_view(items: Seq<String>) -> JsonView {
    JsonView::Array(items.map_values(|s: String| JsonView::Text(s@)))
}

/// Makes an array of texts.
pub fn text_array(items: &Vec<String>) -> (r: Json)
    ensures
        r@ == texts_view(items@),
{
    let ghost all = items@.map_values(|s: String| JsonView::Text(s@));
    let mut list: Vec<Json> = Vec::new();
    let mut i: usize = 0;
    while i < items.len()
        invariant
            i <= items.len(),
            all == items@.map_values(|s: String| JsonView::Text(s@)),
            views(list@) == all.take(i as int),
        decreases items.len() - i,
    {
        let json = Json::text(items[i].as_str());
        proof {
            lemma_views_push(list@, json);
            assert(all[i as int] == json@);
            assert(all.take(i as int).push(json@) =~= all.take(i + 1));
        }
        list.push(json);
        i = i + 1;
    }
    assert(all.take(i as int) =~= all);
    Json::Array(list)
}

impl Clone for Json {
    fn clone(&self) -> (r: Json)
        ensures
            r@ == self@,
    {
        self.clone_json()
    }
}

impl Clone for Fields {
    fn clone(&self) -> (r: Fields)
        ensures
            r@ == self@,
    {
        self.clone_fields()
    }
}

} // verus!
