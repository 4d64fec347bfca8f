//! What the service takes in and gives out: the body of a request to create
//! a person, the query of a search, and a person as a response shows it.
//! The keys are the Portuguese names that clients use.

use vstd::prelude::*;
use crate::date::{parse_date, date_text, BirthDate, Date};
use crate::identifier::{hyphenated, PersonId};
use crate::json::{
    field_keys, fields_view, find_key, items_view, keys_of, lemma_array_view, lemma_object_view,
    place, Json, JsonValue, Place,
};
use crate::structs::person::{Person, PersonView};

verus! {

/// The body of a request to create a person, once it was found well formed.
#[derive(Clone, Debug, PartialEq, Eq)]
pub struct CreatePersonBody {
    pub nickname: String,
    pub name: String,
    pub birth_date: BirthDate,
    pub stacks: Option<Vec<String>>,
}

pub ghost struct CreatePersonBodyView {
    pub nickname: Seq<char>,
    pub name: Seq<char>,
    pub birth_date: Date,
    pub stacks: Option<Seq<Seq<char>>>,
}

impl View for CreatePersonBody {
    type V = CreatePersonBodyView;

    open spec fn view(&self) -> CreatePersonBodyView {
        CreatePersonBodyView {
            nickname: self.nickname@,
            name: self.name@,
            birth_date: self.birth_date@,
            stacks: self.stacks.deep_view(),
        }
    }
}

/// Why a body is refused: the first of these that holds of it.
#[derive(Clone, Copy, Debug, PartialEq, Eq, Structural)]
pub enum BodyError {
    /// The document is not an object.
    NotAnObject,
    /// `apelido` is missing, repeated, not a string, or empty.
    Nickname,
    /// `nome` is missing, repeated, not a string, or empty.
    Name,
    /// `nascimento` is missing, repeated, not a string, or no date written
    /// as `YYYY-MM-DD`.
    BirthDate,
    /// `stack` is repeated, or neither null nor a list of strings.
    Stacks,
}

/// The text that an object holds under `key`: the key occurs once and its
/// value is a string.
pub open spec fn text_field(fields: Seq<(Seq<char>, Json)>, key: Seq<char>) -> Option<Seq<char>> {
    match place(field_keys(fields), key) {
        Place::At(at) => match fields[at as int].1 {
            Json::Text(s) => Some(s),
            _ => None,
        },
        _ => None,
    }
}

/// Every item is a string.
pub open spec fn all_text(items: Seq<Json>) -> bool {
    forall|i: int| 0 <= i < items.len() ==> #[trigger] items[i] is Text
}

/// The strings of a list of strings.
pub open spec fn texts_of(items: Seq<Json>) -> Seq<Seq<char>> {
    Seq::new(items.len(), |i: int| items[i]->Text_0)
}

/// The list that an object holds under `key`: none where the key is missing
/// or its value null, the strings where its value is a list of strings.
/// The outer `None` says that the field is neither.
pub open spec fn optional_texts(fields: Seq<(Seq<char>, Json)>, key: Seq<char>) -> Option<
    Option<Seq<Seq<char>>>,
> {
    match place(field_keys(fields), key) {
        Place::Missing => Some(None),
        Place::At(at) => match fields[at as int].1 {
            Json::Null => Some(None),
            Json::Array(items) => if all_text(items) {
                Some(Some(texts_of(items)))
            } else {
                None
            },
            _ => None,
        },
        Place::Repeated => None,
    }
}

/// A non-empty string under `key`.
pub open spec fn has_name(fields: Seq<(Seq<char>, Json)>, key: Seq<char>) -> bool {
    text_field(fields, key) matches Some(s) && s.len() > 0
}

/// A date written as `YYYY-MM-DD` under `key`.
pub open spec fn has_date(fields: Seq<(Seq<char>, Json)>, key: Seq<char>) -> bool {
    text_field(fields, key) matches Some(s) && parse_date(s) is Some
}

/// What a JSON document means as the body of a request to create a person.
pub open spec fn body_of_json(value: Json) -> Result<CreatePersonBodyView, BodyError> {
    match value {
        Json::Object(fields) => {
            if !has_name(fields, "apelido"@) {
                Err(BodyError::Nickname)
            } else if !has_name(fields, "nome"@) {
                Err(BodyError::Name)
            } else if !has_date(fields, "nascimento"@) {
                Err(BodyError::BirthDate)
            } else if optional_texts(fields, "stack"@) is None {
                Err(BodyError::Stacks)
            } else {
                Ok(
                    CreatePersonBodyView {
                        nickname: text_field(fields, "apelido"@)->0,
                        name: text_field(fields, "nome"@)->0,
                        birth_date: parse_date(text_field(fields, "nascimento"@)->0)->0,
                        stacks: optional_texts(fields, "stack"@)->0,
                    },
                )
            }
        },
        _ => Err(BodyError::NotAnObject),
    }
}

/// The string under `key`, where the key occurs once with a string.
fn text_under<'a>(fields: &'a Vec<(String, JsonValue)>, key: &str) -> (r: Option<&'a String>)
    ensures
        r is Some <==> text_field(fields_view(fields@), key@) is Some,
        r is Some ==> r->0@ == text_field(fields_view(fields@), key@)->0,
{
    proof {
        assert(field_keys(fields_view(fields@)) =~= keys_of(fields@));
    }
    match find_key(fields, key) {
        Place::At(at) => match &fields[at].1 {
            JsonValue::Text(s) => Some(s),
            _ => None,
        },
        _ => None,
    }
}

/// The strings of a list, where every item is one.
fn texts_in(items: &Vec<JsonValue>) -> (r: Option<Vec<String>>)
    ensures
        r is Some <==> all_text(items_view(items@)),
        r is Some ==> r->0.deep_view() == texts_of(items_view(items@)),
{
    let ghost all = items_view(items@);
    let mut texts: Vec<String> = Vec::new();
    let mut i: usize = 0;
    while i < items.len()
        invariant
            i <= items.len(),
            all == items_view(items@),
            texts.len() == i,
            forall|j: int| 0 <= j < i ==> #[trigger] all[j] is Text,
            forall|j: int| 0 <= j < i ==> (#[trigger] texts[j])@ == all[j]->Text_0,
        decreases items.len() - i,
    {
        match &items[i] {
            JsonValue::Text(s) => {
                texts.push(s.clone());
            },
            _ => {
                assert(!(all[i as int] is Text));
                return None;
            },
        }
        i = i + 1;
    }
    assert(texts.deep_view() =~= texts_of(all));
    Some(texts)
}

/// The list under `key`: see `optional_texts`.
fn texts_under(fields: &Vec<(String, JsonValue)>, key: &str) -> (r: Option<Option<Vec<String>>>)
    ensures
        r is Some <==> optional_texts(fields_view(fields@), key@) is Some,
        r is Some ==> r->0.deep_view() == optional_texts(fields_view(fields@), key@)->0,
{
    proof {
        assert(field_keys(fields_view(fields@)) =~= keys_of(fields@));
    }
    match find_key(fields, key) {
        Place::Missing => Some(None),
        Place::At(at) => match &fields[at].1 {
            JsonValue::Null => Some(None),
            JsonValue::Array(items) => {
                proof {
                    lemma_array_view(fields[at as int].1);
                }
                match texts_in(items) {
                    Some(texts) => Some(Some(texts)),
                    None => None,
                }
            },
            _ => None,
        },
        Place::Repeated => None,
    }
}

impl CreatePersonBody {
    /// The view of what reading a body gave.
    pub open spec fn read_view(r: Result<CreatePersonBody, BodyError>) -> Result<
        CreatePersonBodyView,
        BodyError,
    > {
        match r {
            Ok(body) => Ok(body@),
            Err(e) => Err(e),
        }
    }

    /// Reads the body of a request to create a person from a JSON document.
    ///
    /// The document must be an object with the strings `apelido` and `nome`,
    /// neither empty, and the date `nascimento`; `stack` may be left out, be
    /// null, or be a list of strings. Other keys are passed over. A key of
    /// these four that occurs twice makes the body ill formed.
    pub fn from_json(value: &JsonValue) -> (r: Result<CreatePersonBody, BodyError>)
        ensures
            CreatePersonBody::read_view(r) == body_of_json(value@),
    {
        match value {
            JsonValue::Object(fields) => {
                proof {
                    lemma_object_view(*value);
                }
                let nickname = match text_under(fields, "apelido") {
                    Some(s) => if s.as_str().is_empty() {
                        return Err(BodyError::Nickname);
                    } else {
                        s.clone()
                    },
                    None => {
                        return Err(BodyError::Nickname);
                    },
                };
                let name = match text_under(fields, "nome") {
                    Some(s) => if s.as_str().is_empty() {
                        return Err(BodyError::Name);
                    } else {
                        s.clone()
                    },
                    None => {
                        return Err(BodyError::Name);
                    },
                };
                let birth_date = match text_under(fields, "nascimento") {
                    Some(s) => match BirthDate::parse(s.as_str()) {
                        Some(date) => date,
                        None => {
                            return Err(BodyError::BirthDate);
                        },
                    },
                    None => {
                        return Err(BodyError::BirthDate);
                    },
                };
                let stacks = match texts_under(fields, "stack") {
                    Some(stacks) => stacks,
                    None => {
                        return Err(BodyError::Stacks);
                    },
                };
                Ok(CreatePersonBody { nickname, name, birth_date, stacks })
            },
            _ => Err(BodyError::NotAnObject),
        }
    }
}

/// The query of a search: the term that the parameter `t` gives.
#[derive(Clone, Debug, PartialEq, Eq)]
pub struct SearchPersonQuery {
    pub search_term: String,
}

/// The term of a search among the parameters of a query: the value of `t`,
/// where `t` occurs exactly once.
pub open spec fn term_of_params(params: Seq<(String, String)>) -> Option<Seq<char>> {
    match place(keys_of(params), "t"@) {
        Place::At(at) => Some(params[at as int].1@),
        _ => None,
    }
}

impl SearchPersonQuery {
    /// Reads the query of a search from the decoded parameters of the
    /// request, each a key and a value. `t` must occur, and only once;
    /// other parameters are passed over.
    pub fn from_params(params: &Vec<(String, String)>) -> (r: Option<SearchPersonQuery>)
        ensures
            r is Some <==> term_of_params(params@) is Some,
            r is Some ==> r->0.search_term@ == term_of_params(params@)->0,
    {
        match find_key(params, "t") {
            Place::At(at) => Some(SearchPersonQuery { search_term: params[at].1.clone() }),
            _ => None,
        }
    }
}

/// A person as a response shows it.
#[derive(Clone, Debug, PartialEq, Eq)]
pub struct PersonBody {
    pub id: PersonId,
    pub nickname: String,
    pub name: String,
    pub birth_date: BirthDate,
    pub stacks: Option<Vec<String>>,
}

impl View for PersonBody {
    type V = PersonView;

    open spec fn view(&self) -> PersonView {
        PersonView {
            id: self.id,
            nickname: self.nickname@,
            name: self.name@,
            birth_date: self.birth_date@,
            stacks: self.stacks.deep_view(),
        }
    }
}

/// A list of strings as a JSON array.
pub open spec fn texts_json(texts: Seq<Seq<char>>) -> Json {
    Json::Array(Seq::new(texts.len(), |i: int| Json::Text(texts[i])))
}

/// The stacks of a person in a response: the list, or null where the
/// person has none.
pub open spec fn stacks_json(stacks: Option<Seq<Seq<char>>>) -> Json {
    match stacks {
        Some(texts) => texts_json(texts),
        None => Json::Null,
    }
}

/// A person in a response: an object with the keys `id`, `apelido`, `nome`,
/// `nascimento` and `stack`, in this order.
pub open spec fn person_json(person: PersonView) -> Json {
    Json::Object(
        seq![
            ("id"@, Json::Text(hyphenated(person.id.bits))),
            ("apelido"@, Json::Text(person.nickname)),
            ("nome"@, Json::Text(person.name)),
            ("nascimento"@, Json::Text(date_text(person.birth_date))),
            ("stack"@, stacks_json(person.stacks)),
        ],
    )
}

/// A copy of a list of strings.
pub fn copy_texts(texts: &Vec<String>) -> (copy: Vec<String>)
    ensures
        copy.deep_view() == texts.deep_view(),
{
    let mut copy: Vec<String> = Vec::new();
    let mut i: usize = 0;
    while i < texts.len()
        invariant
            i <= texts.len(),
            copy.len() == i,
            forall|j: int| 0 <= j < i ==> (#[trigger] copy[j])@ == texts[j]@,
        decreases texts.len() - i,
    {
        copy.push(texts[i].clone());
        i = i + 1;
    }
    assert(copy.deep_view() =~= texts.deep_view());
    copy
}

/// A list of strings as a JSON array.
fn texts_to_json(texts: &Vec<String>) -> (value: JsonValue)
    ensures
        value@ == texts_json(texts.deep_view()),
{
    let mut items: Vec<JsonValue> = Vec::new();
    let mut i: usize = 0;
    while i < texts.len()
        invariant
            i <= texts.len(),
            items.len() == i,
            forall|j: int| 0 <= j < i ==> (#[trigger] items[j])@ == Json::Text(texts[j]@),
        decreases texts.len() - i,
    {
        items.push(JsonValue::Text(texts[i].clone()));
        i = i + 1;
    }
    let value = JsonValue::Array(items);
    proof {
        lemma_array_view(value);
        assert(items_view(items@) =~= texts_json(texts.deep_view())->Array_0);
    }
    value
}

impl PersonBody {
    /// A person as a response shows it: field for field the person.
    pub fn from_person(person: &Person) -> (body: PersonBody)
        ensures
            body@ == person@,
    {
        PersonBody {
            id: person.id,
            nickname: person.nickname.clone(),
            name: person.name.clone(),
            birth_date: person.birth_date,
            stacks: match &person.stacks {
                Some(texts) => Some(copy_texts(texts)),
                None => None,
            },
        }
    }

    /// The JSON document of the person.
    pub fn to_json(&self) -> (value: JsonValue)
        ensures
            value@ == person_json(self@),
    {
        let stacks = match &self.stacks {
            Some(texts) => texts_to_json(texts),
            None => JsonValue::Null,
        };
        let mut fields: Vec<(String, JsonValue)> = Vec::new();
        fields.push((String::from_str("id"), JsonValue::Text(self.id.to_text())));
        fields.push((String::from_str("apelido"), JsonValue::Text(self.nickname.clone())));
        fields.push((String::from_str("nome"), JsonValue::Text(self.name.clone())));
        fields.push((String::from_str("nascimento"), JsonValue::Text(self.birth_date.to_text())));
        fields.push((String::from_str("stack"), stacks));
        let value = JsonValue::Object(fields);
        proof {
            lemma_object_view(value);
            assert(fields_view(fields@) =~= person_json(self@)->Object_0);
        }
        value
    }
}

} // verus!
