//! The rules of a small HTTP service that keeps persons: what each request
//! asks of the store, and what each outcome of the store is answered with.
//!
//! Nothing here reads a socket or talks to a store. A handler comes in two
//! halves: the first turns the request into what the store is asked, or
//! into a refusal; the second turns what the store gave back into the
//! response.

use vstd::prelude::*;
use crate::http::{bare, json_reply, Body, BodyView, ContentType, Response, ResponseView, StatusCode};
use crate::identifier::{hyphenated, is_random_uuid, uuid_parse, PersonId};
use crate::json::{items_view, lemma_array_view, Json, JsonValue};
use crate::search::{filter_for, search_filter, SearchFilter, SearchFilterView};
use crate::structs::api::{
    body_of_json, person_json, term_of_params, CreatePersonBody, PersonBody, SearchPersonQuery,
};
use crate::structs::person::{people_view, person_of, Person, PersonView};
use crate::text::{decimal, decimal_string};

pub mod configuration;
pub mod date;
pub mod http;
pub mod identifier;
pub mod json;
pub mod repository;
pub mod search;
pub mod structs;
pub mod text;

verus! {

/// The store could not be reached, or it failed the operation.
#[derive(Clone, Copy, Debug, PartialEq, Eq, Structural)]
pub struct StorageFailure;

/// How a search in the store ended.
#[derive(Clone, Debug, PartialEq, Eq)]
pub enum SearchOutcome {
    /// The store refused the search or could not be reached.
    Failed,
    /// The store began to answer and failed before the end.
    Interrupted,
    /// The store gave these persons, in this order.
    Found(Vec<Person>),
}

pub ghost enum SearchOutcomeView {
    Failed,
    Interrupted,
    Found(Seq<PersonView>),
}

impl View for SearchOutcome {
    type V = SearchOutcomeView;

    open spec fn view(&self) -> SearchOutcomeView {
        match self {
            SearchOutcome::Failed => SearchOutcomeView::Failed,
            SearchOutcome::Interrupted => SearchOutcomeView::Interrupted,
            SearchOutcome::Found(people) => SearchOutcomeView::Found(people_view(people@)),
        }
    }
}

/// The path under which a person is found.
pub open spec fn person_path(id: PersonId) -> Seq<char> {
    "/pessoas/"@ + hyphenated(id.bits)
}

/// A list of persons as a JSON array, in the order of the list.
pub open spec fn people_json(people: Seq<PersonView>) -> Json {
    Json::Array(Seq::new(people.len(), |i: int| person_json(people[i])))
}

/// The answer to a health check.
pub open spec fn health_check_reply() -> ResponseView {
    bare(StatusCode::Success)
}

/// The answer to a request for one person, given what the store found.
pub open spec fn get_person_reply(found: Result<Option<PersonView>, StorageFailure>) -> ResponseView {
    match found {
        Ok(Some(person)) => json_reply(person_json(person)),
        Ok(None) => bare(StatusCode::NotFound),
        Err(_) => bare(StatusCode::InternalServerError),
    }
}

/// The answer to a request to create a person, given how the insertion went.
pub open spec fn create_person_reply(
    person: PersonView,
    inserted: Result<(), StorageFailure>,
) -> ResponseView {
    match inserted {
        Ok(_) => ResponseView {
            status: StatusCode::Created,
            content_type: Some(ContentType::Json),
            location: Some(person_path(person.id)),
            body: BodyView::Json(person_json(person)),
        },
        Err(_) => bare(StatusCode::InternalServerError),
    }
}

/// The answer to a search, given how it ended. A search that the store
/// broke off is answered like one that found nobody.
pub open spec fn search_persons_reply(outcome: SearchOutcomeView) -> ResponseView {
    match outcome {
        SearchOutcomeView::Found(people) => json_reply(people_json(people)),
        SearchOutcomeView::Interrupted => json_reply(people_json(Seq::empty())),
        SearchOutcomeView::Failed => bare(StatusCode::InternalServerError),
    }
}

/// The answer to a request for the number of persons, given the count.
pub open spec fn count_persons_reply(counted: Result<u64, StorageFailure>) -> ResponseView {
    match counted {
        Ok(count) => ResponseView {
            status: StatusCode::Success,
            content_type: Some(ContentType::PlainText),
            location: None,
            body: BodyView::Text(decimal(count as nat)),
        },
        Err(_) => bare(StatusCode::InternalServerError),
    }
}

/// What a request is turned into before the store is asked: the thing to
/// ask for, or the response that refuses the request.
pub open spec fn refusal_view<T>(r: Result<T, Response>) -> Result<T, ResponseView> {
    match r {
        Ok(t) => Ok(t),
        Err(response) => Err(response@),
    }
}

/// The person that a request for one person names, given what the last
/// segment of its path was read as.
pub open spec fn get_person_target(parsed: Option<PersonId>) -> Result<PersonId, ResponseView> {
    match parsed {
        Some(id) => Ok(id),
        None => Err(bare(StatusCode::BadRequest)),
    }
}

/// The filter of a search, given the parameters of the request.
pub open spec fn search_persons_target(params: Seq<(String, String)>) -> Result<
    SearchFilterView,
    ResponseView,
> {
    match term_of_params(params) {
        Some(term) => Ok(filter_for(term)),
        None => Err(bare(StatusCode::BadRequest)),
    }
}

/// Answers a health check: 200 and nothing else, whatever the state of the
/// store.
pub fn health_check() -> (response: Response)
    ensures
        response@ == health_check_reply(),
{
    Response::bare(StatusCode::Success)
}

/// Says which person a request for one person names.
///
/// `parsed` is what the last segment of the path was read as. A segment
/// that is no identifier is refused with 400 and the store is not asked.
pub fn get_person_lookup(parsed: Option<PersonId>) -> (r: Result<PersonId, Response>)
    ensures
        refusal_view(r) == get_person_target(parsed),
{
    match parsed {
        Some(id) => Ok(id),
        None => Err(Response::bare(StatusCode::BadRequest)),
    }
}

/// Reads the last segment of the path of a request for one person.
///
/// The segment is read as the `uuid` crate reads it. The hyphenated form of
/// an identifier, as responses show it, names that identifier.
pub fn get_person_request(segment: &str) -> (r: Result<PersonId, Response>)
    ensures
        refusal_view(r) == get_person_target(PersonId::of_parsed(uuid_parse(segment@))),
        forall|id: PersonId| segment@ == #[trigger] hyphenated(id.bits) ==> r == Ok::<PersonId, Response>(id),
{
    get_person_lookup(PersonId::parse(segment))
}

/// Answers a request for one person: the person with 200, 404 where the
/// store has no such person, 500 where the store failed.
pub fn get_person(found: Result<Option<Person>, StorageFailure>) -> (response: Response)
    ensures
        response@ == get_person_reply(
            match found {
                Ok(Some(person)) => Ok(Some(person@)),
                Ok(None) => Ok(None),
                Err(e) => Err(e),
            },
        ),
{
    match found {
        Ok(Some(dev)) => Response::json(PersonBody::from_person(&dev).to_json()),
        Ok(None) => Response::bare(StatusCode::NotFound),
        Err(_) => Response::bare(StatusCode::InternalServerError),
    }
}

/// Makes the person that a request to create one asks for, under a fresh
/// identifier.
///
/// `body` is the body of the request as a JSON document, or nothing where
/// it was no JSON at all. An ill-formed body is refused with 422 and no
/// person is made, so nothing can be stored. The identifier is drawn at
/// random: of it only the version and variant are known. Nothing is asked
/// of the nickname but that it is there: two persons may have the same.
pub fn create_person_request(body: Option<&JsonValue>) -> (r: Result<Person, Response>)
    ensures
        match body {
            Some(value) => match body_of_json(value@) {
                Ok(fields) => r is Ok && r->Ok_0@ == person_of(fields, r->Ok_0.id) && is_random_uuid(
                    r->Ok_0.id.bits,
                ),
                Err(_) => r is Err && r->Err_0@ == bare(StatusCode::UnprocessableEntity),
            },
            None => r is Err && r->Err_0@ == bare(StatusCode::UnprocessableEntity),
        },
{
    match body {
        Some(value) => match CreatePersonBody::from_json(value) {
            Ok(fields) => Ok(Person::new(fields, PersonId::random())),
            Err(_) => Err(Response::bare(StatusCode::UnprocessableEntity)),
        },
        None => Err(Response::bare(StatusCode::UnprocessableEntity)),
    }
}

/// Answers a request to create a person: 201 with the person and the path
/// to it in `Location` where it was stored, 500 where the store failed.
pub fn create_person(user: &Person, inserted: Result<(), StorageFailure>) -> (response: Response)
    ensures
        response@ == create_person_reply(user@, inserted),
{
    match inserted {
        Ok(_) => {
            let location = String::from_str("/pessoas/").concat(user.id.to_text().as_str());
            Response {
                status: StatusCode::Created,
                content_type: Some(ContentType::Json),
                location: Some(location),
                body: Body::Json(PersonBody::from_person(user).to_json()),
            }
        },
        Err(_) => Response::bare(StatusCode::InternalServerError),
    }
}

/// Says what a search asks of the store.
///
/// `params` are the decoded parameters of the query, each a key and a
/// value. Without exactly one `t` the request is refused with 400 and the
/// store is not asked.
pub fn search_persons_request(params: &Vec<(String, String)>) -> (r: Result<SearchFilter, Response>)
    ensures
        match search_persons_target(params@) {
            Ok(filter) => r is Ok && r->Ok_0@ == filter,
            Err(refusal) => r is Err && r->Err_0@ == refusal,
        },
{
    match SearchPersonQuery::from_params(params) {
        Some(query) => Ok(search_filter(query.search_term.as_str())),
        None => Err(Response::bare(StatusCode::BadRequest)),
    }
}

/// Answers a search: 200 with the persons that the store gave, in its
/// order; 200 with an empty list where the store broke off; 500 where the
/// store refused the search.
pub fn search_persons(outcome: SearchOutcome) -> (response: Response)
    ensures
        response@ == search_persons_reply(outcome@),
{
    match outcome {
        SearchOutcome::Failed => Response::bare(StatusCode::InternalServerError),
        SearchOutcome::Interrupted => {
            let value = JsonValue::Array(Vec::new());
            proof {
                lemma_array_view(value);
                assert(items_view(value->Array_0@) =~= people_json(Seq::empty())->Array_0);
            }
            Response::json(value)
        },
        SearchOutcome::Found(found_devs) => {
            let mut items: Vec<JsonValue> = Vec::new();
            let mut i: usize = 0;
            while i < found_devs.len()
                invariant
                    i <= found_devs.len(),
                    items.len() == i,
                    forall|j: int| 0 <= j < i ==> (#[trigger] items[j])@ == person_json(found_devs[j]@),
                decreases found_devs.len() - i,
            {
                items.push(PersonBody::from_person(&found_devs[i]).to_json());
                i = i + 1;
            }
            let value = JsonValue::Array(items);
            proof {
                lemma_array_view(value);
                assert(items_view(items@) =~= people_json(people_view(found_devs@))->Array_0);
            }
            Response::json(value)
        },
    }
}

/// Answers a request for the number of persons: 200 with the count in
/// decimal as plain text, 500 where the store failed.
pub fn count_persons(counted: Result<u64, StorageFailure>) -> (response: Response)
    ensures
        response@ == count_persons_reply(counted),
{
    match counted {
        Ok(count) => Response {
            status: StatusCode::Success,
            content_type: Some(ContentType::PlainText),
            location: None,
            body: Body::Text(decimal_string(count)),
        },
        Err(_) => Response::bare(StatusCode::InternalServerError),
    }
}

} // verus!
