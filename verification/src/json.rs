//! JSON documents as plain data: what a request body carries and what a
//! response body was parsed into.

use vstd::prelude::*;

use crate::text::texts;

verus! {

/// A JSON document. Numbers that are no 64-bit integer are kept as the text
/// they were written with.
#[derive(Debug, PartialEq, Eq)]
pub enum Json {
    Null,
    Bool(bool),
    Integer(i64),
    Real(String),
    Text(String),
    Array(Vec<Json>),
    Object(Vec<(String, Json)>),
}

/// The mathematical value of a [`Json`] document.
pub enum JsonValue {
    Null,
    Bool(bool),
    Integer(int),
    Real(Seq<char>),
    Text(Seq<char>),
    Array(Seq<JsonValue>),
    Object(Seq<(Seq<char>, JsonValue)>),
}

/// The value that a document stands for.
pub open spec fn value_of(json: Json) -> JsonValue
    decreases json,
{
    match json {
        Json::Null => JsonValue::Null,
        Json::Bool(b) => JsonValue::Bool(b),
        Json::Integer(n) => JsonValue::Integer(n as int),
        Json::Real(t) => JsonValue::Real(t@),
        Json::Text(t) => JsonValue::Text(t@),
        Json::Array(items) => JsonValue::Array(
            Seq::new(
                items@.len(),
                |i: int|
                    if 0 <= i < items@.len() {
                        value_of(items@[i])
                    } else {
                        JsonValue::Null
                    },
            ),
        ),
        Json::Object(fields) => JsonValue::Object(
            Seq::new(
                fields@.len(),
                |i: int|
                    if 0 <= i < fields@.len() {
                        (fields@[i].0@, value_of(fields@[i].1))
                    } else {
                        (Seq::empty(), JsonValue::Null)
                    },
            ),
        ),
    }
}

impl View for Json {
    type V = JsonValue;

    open spec fn view(&self) -> JsonValue {
        value_of(*self)
    }
}

/// The value of the first field named `key`, if there is one.
pub open spec fn field_of(fields: Seq<(Seq<char>, JsonValue)>, key: Seq<char>) -> Option<
    JsonValue,
>
    decreases fields.len(),
{
    if fields.len() == 0 {
        None
    } else if fields[0].0 == key {
        Some(fields[0].1)
    } else {
        field_of(fields.drop_first(), key)
    }
}

/// The member `key` of an object; nothing for any other kind of value.
pub open spec fn member(value: JsonValue, key: Seq<char>) -> Option<JsonValue> {
    match value {
        JsonValue::Object(fields) => field_of(fields, key),
        _ => None,
    }
}

/// The keys of an object's fields, in order.
pub open spec fn keys_of(fields: Seq<(Seq<char>, JsonValue)>) -> Seq<Seq<char>> {
    Seq::new(fields.len(), |i: int| fields[i].0)
}

/// An array of text items.
pub open spec fn text_array(items: Seq<Seq<char>>) -> JsonValue {
    JsonValue::Array(Seq::new(items.len(), |i: int| JsonValue::Text(items[i])))
}

/// An array of objects with the single field `key`, one object for each item.
pub open spec fn keyed_array(key: Seq<char>, items: Seq<Seq<char>>) -> JsonValue {
    JsonValue::Array(
        Seq::new(items.len(), |i: int| JsonValue::Object(seq![(key, JsonValue::Text(items[i]))])),
    )
}

/// The field that a member which is always sent contributes.
pub open spec fn field(key: Seq<char>, value: JsonValue) -> Seq<(Seq<char>, JsonValue)> {
    seq![(key, value)]
}

/// The field that an optional member contributes: none where it is absent.
pub open spec fn optional_field(key: Seq<char>, value: Option<JsonValue>) -> Seq<
    (Seq<char>, JsonValue),
> {
    match value {
        Some(v) => seq![(key, v)],
        None => Seq::empty(),
    }
}

/// The value of an optional document.
pub open spec fn json_value(value: Option<Json>) -> Option<JsonValue> {
    match value {
        Some(v) => Some(v@),
        None => None,
    }
}

/// An optional text as a JSON value.
pub open spec fn json_text(value: Option<Seq<char>>) -> Option<JsonValue> {
    match value {
        Some(t) => Some(JsonValue::Text(t)),
        None => None,
    }
}

/// An optional number as a JSON value.
pub open spec fn json_number(value: Option<u32>) -> Option<JsonValue> {
    match value {
        Some(n) => Some(JsonValue::Integer(n as int)),
        None => None,
    }
}

/// An optional boolean as a JSON value.
pub open spec fn json_flag(value: Option<bool>) -> Option<JsonValue> {
    match value {
        Some(b) => Some(JsonValue::Bool(b)),
        None => None,
    }
}

/// An optional list of texts as a JSON array.
pub open spec fn json_list(value: Option<Vec<String>>) -> Option<JsonValue> {
    match value {
        Some(items) => Some(text_array(crate::text::owned_texts(items@))),
        None => None,
    }
}

/// The fields of an object as they stand in its value.
pub open spec fn fields_value(fields: Seq<(String, Json)>) -> Seq<(Seq<char>, JsonValue)> {
    Seq::new(fields.len(), |i: int| (fields[i].0@, value_of(fields[i].1)))
}

/// The place of the first field named `key`, if there is one.
fn position(fields: &Vec<(String, Json)>, key: &str) -> (r: Option<usize>)
    ensures
        match r {
            Some(at) => at < fields@.len() && field_of(fields_value(fields@), key@) == Some(
                value_of(fields@[at as int].1),
            ),
            None => field_of(fields_value(fields@), key@) is None,
        },
{
    let ghost all = fields_value(fields@);
    let wanted = key.to_owned();
    let mut i: usize = 0;
    assert(all.skip(0) =~= all);
    while i < fields.len()
        invariant
            i <= fields.len(),
            wanted@ == key@,
            all == fields_value(fields@),
            field_of(all, key@) == field_of(all.skip(i as int), key@),
        decreases fields.len() - i,
    {
        let ghost rest = all.skip(i as int);
        assert(rest[0] == all[i as int]);
        assert(rest.drop_first() =~= all.skip(i as int + 1));
        if fields[i].0 == wanted {
            assert(field_of(rest, key@) == Some(rest[0].1));
            return Some(i);
        }
        assert(field_of(rest, key@) == field_of(rest.drop_first(), key@));
        i += 1;
    }
    assert(all.skip(i as int).len() == 0);
    None
}

impl Json {
    /// The member `key` of this object, if this is an object that has one.
    pub fn get(&self, key: &str) -> (r: Option<&Json>)
        ensures
            match r {
                Some(found) => member(self@, key@) == Some(found@),
                None => member(self@, key@) is None,
            },
    {
        match self {
            Json::Object(fields) => {
                assert(self@->Object_0 =~= fields_value(fields@));
                match position(fields, key) {
                    Some(at) => Some(&fields[at].1),
                    None => None,
                }
            },
            _ => None,
        }
    }

    /// Takes the member `key` out of this object, if this is an object that
    /// has one; the rest of the document is given up.
    pub fn take(self, key: &str) -> (r: Option<Json>)
        ensures
            match r {
                Some(found) => member(self@, key@) == Some(found@),
                None => member(self@, key@) is None,
            },
    {
        match self {
            Json::Object(fields) => {
                assert(self@->Object_0 =~= fields_value(fields@));
                let mut fields = fields;
                match position(&fields, key) {
                    Some(at) => {
                        let entry = fields.remove(at);
                        Some(entry.1)
                    },
                    None => None,
                }
            },
            _ => None,
        }
    }

    /// A text value.
    pub fn text(value: &str) -> (j: Json)
        ensures
            j@ == JsonValue::Text(value@),
    {
        Json::Text(value.to_owned())
    }

    /// An array of text values, in the order of `items`.
    pub fn text_list(items: &[&str]) -> (j: Json)
        ensures
            j@ == text_array(texts(items@)),
    {
        let mut out: Vec<Json> = Vec::new();
        let mut i: usize = 0;
        while i < items.len()
            invariant
                i <= items.len(),
                out@.len() == i,
                forall|k: int| 0 <= k < i ==> (#[trigger] out@[k])@ == JsonValue::Text(items@[k]@),
            decreases items.len() - i,
        {
            out.push(Json::Text(items[i].to_owned()));
            i += 1;
        }
        let j = Json::Array(out);
        assert(j@->Array_0 =~= text_array(texts(items@))->Array_0);
        j
    }

    /// An array of text values copied from owned strings.
    pub fn owned_text_list(items: &Vec<String>) -> (j: Json)
        ensures
            j@ == text_array(crate::text::owned_texts(items@)),
    {
        let mut out: Vec<Json> = Vec::new();
        let mut i: usize = 0;
        while i < items.len()
            invariant
                i <= items.len(),
                out@.len() == i,
                forall|k: int| 0 <= k < i ==> (#[trigger] out@[k])@ == JsonValue::Text(items@[k]@),
            decreases items.len() - i,
        {
            out.push(Json::Text(items[i].clone()));
            i += 1;
        }
        let j = Json::Array(out);
        assert(j@->Array_0 =~= text_array(crate::text::owned_texts(items@))->Array_0);
        j
    }

    /// An array with one object `{ key: item }` for each item.
    pub fn keyed_list(key: &str, items: &Vec<String>) -> (j: Json)
        ensures
            j@ == keyed_array(key@, crate::text::owned_texts(items@)),
    {
        let mut out: Vec<Json> = Vec::new();
        let mut i: usize = 0;
        while i < items.len()
            invariant
                i <= items.len(),
                out@.len() == i,
                forall|k: int|
                    0 <= k < i ==> (#[trigger] out@[k])@ == JsonValue::Object(
                        seq![(key@, JsonValue::Text(items@[k]@))],
                    ),
            decreases items.len() - i,
        {
            let mut fields: Vec<(String, Json)> = Vec::new();
            let value = Json::Text(items[i].clone());
            assert(value@ == JsonValue::Text(items@[i as int]@));
            fields.push((key.to_owned(), value));
            let object = Json::Object(fields);
            assert(object@->Object_0 =~= seq![(key@, JsonValue::Text(items@[i as int]@))]);
            out.push(object);
            i += 1;
        }
        let j = Json::Array(out);
        assert(j@->Array_0 =~= keyed_array(key@, crate::text::owned_texts(items@))->Array_0);
        j
    }

    /// An object with the single field `key`.
    pub fn single(key: &str, value: Json) -> (j: Json)
        ensures
            j@ == JsonValue::Object(seq![(key@, value@)]),
    {
        let mut fields: Vec<(String, Json)> = Vec::new();
        fields.push((key.to_owned(), value));
        let j = Json::Object(fields);
        assert(j@->Object_0 =~= seq![(key@, value@)]);
        j
    }
}

/// A growing list of object fields, with the value it stands for.
pub struct Fields {
    pub entries: Vec<(String, Json)>,
}

impl View for Fields {
    type V = Seq<(Seq<char>, JsonValue)>;

    open spec fn view(&self) -> Seq<(Seq<char>, JsonValue)> {
        Seq::new(self.entries@.len(), |i: int| (self.entries@[i].0@, self.entries@[i].1@))
    }
}

impl Fields {
    /// No fields yet.
    pub fn new() -> (f: Fields)
        ensures
            f@ == Seq::<(Seq<char>, JsonValue)>::empty(),
    {
        let f = Fields { entries: Vec::new() };
        assert(f@ =~= Seq::empty());
        f
    }

    /// Adds the field `key` at the end.
    pub fn put(&mut self, key: &str, value: Json)
        ensures
            final(self)@ == old(self)@.push((key@, value@)),
    {
        self.entries.push((key.to_owned(), value));
        assert(self@ =~= old(self)@.push((key@, value@)));
    }

    /// Adds a text member.
    pub fn text(&mut self, key: &str, value: &str)
        ensures
            final(self)@ == old(self)@ + field(key@, JsonValue::Text(value@)),
    {
        self.put(key, Json::text(value));
        assert(self@ =~= old(self)@ + field(key@, JsonValue::Text(value@)));
    }

    /// Adds a number member.
    pub fn number(&mut self, key: &str, value: u32)
        ensures
            final(self)@ == old(self)@ + field(key@, JsonValue::Integer(value as int)),
    {
        self.put(key, Json::Integer(value as i64));
        assert(self@ =~= old(self)@ + field(key@, JsonValue::Integer(value as int)));
    }

    /// Adds a boolean member.
    pub fn flag(&mut self, key: &str, value: bool)
        ensures
            final(self)@ == old(self)@ + field(key@, JsonValue::Bool(value)),
    {
        self.put(key, Json::Bool(value));
        assert(self@ =~= old(self)@ + field(key@, JsonValue::Bool(value)));
    }

    /// Adds a member that is an array of texts.
    pub fn list(&mut self, key: &str, value: &Vec<String>)
        ensures
            final(self)@ == old(self)@ + field(key@, text_array(crate::text::owned_texts(value@))),
    {
        self.put(key, Json::owned_text_list(value));
        assert(self@ =~= old(self)@ + field(
            key@,
            text_array(crate::text::owned_texts(value@)),
        ));
    }

    /// Adds a member that is an array of objects `{ inner: item }`.
    pub fn keyed_list(&mut self, key: &str, inner: &str, value: &Vec<String>)
        ensures
            final(self)@ == old(self)@ + field(
                key@,
                keyed_array(inner@, crate::text::owned_texts(value@)),
            ),
    {
        self.put(key, Json::keyed_list(inner, value));
        assert(self@ =~= old(self)@ + field(
            key@,
            keyed_array(inner@, crate::text::owned_texts(value@)),
        ));
    }

    /// Adds an optional text member where it is present.
    pub fn optional_text(&mut self, key: &str, value: &Option<String>)
        ensures
            final(self)@ == old(self)@ + optional_field(
                key@,
                json_text(crate::auth::text_view(*value)),
            ),
    {
        match value {
            Some(v) => {
                self.put(key, Json::text(v.as_str()));
            },
            None => {},
        }
        assert(self@ =~= old(self)@ + optional_field(
            key@,
            json_text(crate::auth::text_view(*value)),
        ));
    }

    /// Adds an optional number member where it is present.
    pub fn optional_number(&mut self, key: &str, value: Option<u32>)
        ensures
            final(self)@ == old(self)@ + optional_field(key@, json_number(value)),
    {
        match value {
            Some(n) => {
                self.put(key, Json::Integer(n as i64));
            },
            None => {},
        }
        assert(self@ =~= old(self)@ + optional_field(key@, json_number(value)));
    }

    /// Adds an optional boolean member where it is present.
    pub fn optional_flag(&mut self, key: &str, value: Option<bool>)
        ensures
            final(self)@ == old(self)@ + optional_field(key@, json_flag(value)),
    {
        match value {
            Some(b) => {
                self.put(key, Json::Bool(b));
            },
            None => {},
        }
        assert(self@ =~= old(self)@ + optional_field(key@, json_flag(value)));
    }

    /// Adds an optional array of texts where it is present.
    pub fn optional_list(&mut self, key: &str, value: &Option<Vec<String>>)
        ensures
            final(self)@ == old(self)@ + optional_field(key@, json_list(*value)),
    {
        match value {
            Some(items) => {
                self.put(key, Json::owned_text_list(items));
            },
            None => {},
        }
        assert(self@ =~= old(self)@ + optional_field(key@, json_list(*value)));
    }

    /// Adds an optional member of any kind where it is present.
    pub fn optional_value(&mut self, key: &str, value: Option<Json>)
        ensures
            final(self)@ == old(self)@ + optional_field(key@, json_value(value)),
    {
        match value {
            Some(v) => {
                let ghost added = v@;
                self.put(key, v);
                assert(self@ =~= old(self)@ + optional_field(key@, Some(added)));
            },
            None => {
                assert(self@ =~= old(self)@ + optional_field(key@, None));
            },
        }
    }

    /// The object that holds these fields, in order.
    pub fn into_object(self) -> (j: Json)
        ensures
            j@ == JsonValue::Object(self@),
    {
        let ghost fields = self@;
        let j = Json::Object(self.entries);
        assert(j@->Object_0 =~= fields);
        j
    }
}

} // verus!
