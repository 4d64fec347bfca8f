//! JSON documents as values, and the lookup of a field by its key.

use vstd::prelude::*;

verus! {

/// A JSON document as this service handles it. A number carries no value:
/// no rule of the service reads one.
#[derive(Debug, PartialEq, Eq)]
pub enum JsonValue {
    Null,
    Bool(bool),
    Number,
    Text(String),
    Array(Vec<JsonValue>),
    Object(Vec<(String, JsonValue)>),
}

/// The mathematical value of a JSON document. An object is the sequence of
/// its fields as they were written, so a key may occur more than once.
pub ghost enum Json {
    Null,
    Bool(bool),
    Number,
    Text(Seq<char>),
    Array(Seq<Json>),
    Object(Seq<(Seq<char>, Json)>),
}

/// The mathematical value of a document.
pub open spec fn json_of(value: JsonValue) -> Json
    decreases value,
{
    match value {
        JsonValue::Null => Json::Null,
        JsonValue::Bool(b) => Json::Bool(b),
        JsonValue::Number => Json::Number,
        JsonValue::Text(s) => Json::Text(s@),
        JsonValue::Array(items) => Json::Array(
            Seq::new(
                items@.len(),
                |i: int|
                    if 0 <= i < items@.len() {
                        json_of(items@[i])
                    } else {
                        Json::Null
                    },
            ),
        ),
        JsonValue::Object(fields) => Json::Object(
            Seq::new(
                fields@.len(),
                |i: int|
                    if 0 <= i < fields@.len() {
                        (fields@[i].0@, json_of(fields@[i].1))
                    } else {
                        (Seq::empty(), Json::Null)
                    },
            ),
        ),
    }
}

impl View for JsonValue {
    type V = Json;

    open spec fn view(&self) -> Json {
        json_of(*self)
    }
}

/// The fields of an object as the view of the document has them.
pub open spec fn fields_view(fields: Seq<(String, JsonValue)>) -> Seq<(Seq<char>, Json)> {
    Seq::new(fields.len(), |i: int| (fields[i].0@, fields[i].1@))
}

/// The items of an array as the view of the document has them.
pub open spec fn items_view(items: Seq<JsonValue>) -> Seq<Json> {
    Seq::new(items.len(), |i: int| items[i]@)
}

/// The view of an object is the object of the views of its fields.
pub(crate) proof fn lemma_object_view(value: JsonValue)
    requires
        value is Object,
    ensures
        value@ == Json::Object(fields_view(value->Object_0@)),
{
    assert(value@->Object_0 =~= fields_view(value->Object_0@));
}

/// The view of an array is the array of the views of its items.
pub(crate) proof fn lemma_array_view(value: JsonValue)
    requires
        value is Array,
    ensures
        value@ == Json::Array(items_view(value->Array_0@)),
{
    assert(value@->Array_0 =~= items_view(value->Array_0@));
}

/// Where a key stands in a list of keys.
#[derive(Clone, Copy, Debug, PartialEq, Eq, Structural)]
pub enum Place {
    /// The key does not occur.
    Missing,
    /// The key occurs once, at this index.
    At(usize),
    /// The key occurs twice or more.
    Repeated,
}

/// The key does not occur before `end`.
pub open spec fn absent_before(keys: Seq<Seq<char>>, key: Seq<char>, end: int) -> bool {
    forall|i: int| 0 <= i < end && i < keys.len() ==> #[trigger] keys[i] != key
}

/// The key occurs at `at` and nowhere else.
pub open spec fn only_at(keys: Seq<Seq<char>>, key: Seq<char>, at: int) -> bool {
    &&& 0 <= at < keys.len()
    &&& keys[at] == key
    &&& forall|i: int| 0 <= i < keys.len() && i != at ==> #[trigger] keys[i] != key
}

/// Where `key` stands among `keys`.
pub open spec fn place(keys: Seq<Seq<char>>, key: Seq<char>) -> Place {
    if absent_before(keys, key, keys.len() as int) {
        Place::Missing
    } else if exists|at: usize| only_at(keys, key, at as int) {
        Place::At(choose|at: usize| only_at(keys, key, at as int))
    } else {
        Place::Repeated
    }
}

/// A key that occurs at one index and nowhere else stands at that index.
pub(crate) proof fn lemma_place_at(keys: Seq<Seq<char>>, key: Seq<char>, at: usize)
    requires
        only_at(keys, key, at as int),
    ensures
        place(keys, key) == Place::At(at),
{
    assert(!absent_before(keys, key, keys.len() as int)) by {
        assert(keys[at as int] == key);
    }
    let chosen = choose|c: usize| only_at(keys, key, c as int);
    assert(chosen == at) by {
        if chosen != at {
            assert(keys[at as int] != key);
        }
    }
}

/// The value that an object holds under `key`, where the key occurs once.
pub open spec fn value_under(fields: Seq<(Seq<char>, Json)>, key: Seq<char>) -> Option<Json> {
    match place(field_keys(fields), key) {
        Place::At(at) => Some(fields[at as int].1),
        _ => None,
    }
}

/// The keys of a list of keyed entries.
pub open spec fn keys_of<V>(entries: Seq<(String, V)>) -> Seq<Seq<char>> {
    Seq::new(entries.len(), |i: int| entries[i].0@)
}

/// The keys of the fields of an object.
pub open spec fn field_keys(fields: Seq<(Seq<char>, Json)>) -> Seq<Seq<char>> {
    Seq::new(fields.len(), |i: int| fields[i].0)
}

/// Finds where `key` stands among the keys of `entries`.
pub fn find_key<V>(entries: &Vec<(String, V)>, key: &str) -> (r: Place)
    ensures
        r == place(keys_of(entries@), key@),
        r matches Place::At(at) ==> at < entries.len() && entries[at as int].0@ == key@,
{
    let ghost keys = keys_of(entries@);
    let key = String::from_str(key);
    let mut found: Option<usize> = None;
    let mut repeated = false;
    let mut i: usize = 0;
    while i < entries.len()
        invariant
            i <= entries.len(),
            keys == keys_of(entries@),
            found is None ==> absent_before(keys, key@, i as int) && !repeated,
            found is Some ==> found->0 < i && keys[found->0 as int] == key@,
            found is Some && !repeated ==> forall|j: int|
                0 <= j < i && j != found->0 ==> #[trigger] keys[j] != key@,
            repeated ==> exists|j: int, k: int|
                0 <= j < k < i && #[trigger] keys[j] == key@ && #[trigger] keys[k] == key@,
        decreases entries.len() - i,
    {
        if entries[i].0 == key {
            if found.is_some() {
                repeated = true;
                assert(keys[found->0 as int] == key@ && keys[i as int] == key@);
            } else {
                found = Some(i);
            }
        }
        i = i + 1;
    }
    match found {
        None => Place::Missing,
        Some(at) => {
            assert(!absent_before(keys, key@, keys.len() as int)) by {
                assert(keys[at as int] == key@);
            }
            if repeated {
                assert(!exists|at: usize| only_at(keys, key@, at as int)) by {
                    let (j, k) = choose|j: int, k: int|
                        0 <= j < k < keys.len() && #[trigger] keys[j] == key@ && #[trigger] keys[k]
                            == key@;
                    assert forall|at: usize| !only_at(keys, key@, at as int) by {
                        if only_at(keys, key@, at as int) {
                            assert(keys[j] != key@ || keys[k] != key@);
                        }
                    }
                }
                Place::Repeated
            } else {
                assert(only_at(keys, key@, at as int));
                let ghost chosen = choose|at: usize| only_at(keys, key@, at as int);
                assert(chosen == at) by {
                    if chosen != at {
                        assert(keys[at as int] != key@);
                    }
                }
                Place::At(at)
            }
        },
    }
}

} // verus!
