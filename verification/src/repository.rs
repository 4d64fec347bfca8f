//! The store as the service takes it to be, and what the service as a whole
//! then does.
//!
//! The store is one collection of persons, each kept under its identifier.
//! The service reaches it through four operations: insert one, find one,
//! find those that match a term, and count. This module states what each
//! of them does to a collection, puts the two halves of each handler
//! around it, and proves what follows for a client of the service.

use vstd::prelude::*;
use crate::date::{date_text, lemma_parsed_date_text};
use crate::http::{bare, json_reply, BodyView, ResponseView, StatusCode};
use crate::identifier::{hyphenated, PersonId};
use crate::json::{field_keys, lemma_place_at, only_at, place, value_under, Json, Place};
use crate::search::person_matches;
use crate::structs::api::{
    all_text, body_of_json, has_date, has_name, person_json, stacks_json, text_field,
    texts_json, texts_of,
};
use crate::structs::person::{person_of, PersonView};
use crate::text::decimal;
use crate::{
    count_persons_reply, create_person_reply, get_person_reply, get_person_target,
    health_check_reply, people_json, search_persons_reply, search_persons_target,
    SearchOutcomeView, StorageFailure,
};

verus! {

/// The collection of persons in the store, each under its identifier.
pub ghost struct Collection {
    pub documents: Map<PersonId, PersonView>,
}

impl Collection {
    /// The collection has finitely many persons, each under its own
    /// identifier.
    pub open spec fn well_formed(self) -> bool {
        &&& self.documents.dom().finite()
        &&& forall|id: PersonId| #[trigger]
            self.documents.dom().contains(id) ==> self.documents[id].id == id
    }

    /// The collection without a person.
    pub open spec fn empty() -> Collection {
        Collection { documents: Map::empty() }
    }

    /// Some person is kept under `id`.
    pub open spec fn holds(self, id: PersonId) -> bool {
        self.documents.dom().contains(id)
    }

    /// `person` is one of the persons of the collection.
    pub open spec fn has(self, person: PersonView) -> bool {
        self.holds(person.id) && self.documents[person.id] == person
    }

    /// Insert one: the collection with `person` added. An identifier that
    /// is taken is not given twice: the insertion fails and leaves the
    /// collection as it was.
    pub open spec fn insert_one(self, person: PersonView) -> Result<Collection, StorageFailure> {
        if self.holds(person.id) {
            Err(StorageFailure)
        } else {
            Ok(Collection { documents: self.documents.insert(person.id, person) })
        }
    }

    /// Find one: the person under `id`, if there is one.
    pub open spec fn find_one(self, id: PersonId) -> Option<PersonView> {
        if self.holds(id) {
            Some(self.documents[id])
        } else {
            None
        }
    }

    /// Count: the number of persons.
    pub open spec fn count_documents(self) -> nat {
        self.documents.dom().len()
    }

    /// Find: `found` lists the persons of the collection that match
    /// `term`, in whatever order, and nobody else.
    pub open spec fn finds(self, term: Seq<char>, found: Seq<PersonView>) -> bool {
        forall|person: PersonView| #[trigger]
            found.contains(person) <==> self.has(person) && person_matches(person, term)
    }

    /// The collection after the persons of a list were inserted one after
    /// the other, an insertion that fails leaving it as it was.
    pub open spec fn insert_all(self, people: Seq<PersonView>) -> Collection
        decreases people.len(),
    {
        if people.len() == 0 {
            self
        } else {
            let before = self.insert_all(people.drop_last());
            match before.insert_one(people.last()) {
                Ok(after) => after,
                Err(_) => before,
            }
        }
    }
}

/// What a request to create a person does: the collection afterwards and
/// the response. `body` is the body of the request and `id` the identifier
/// that was drawn for it.
pub open spec fn serve_create(store: Collection, body: Json, id: PersonId) -> (
    Collection,
    ResponseView,
) {
    match body_of_json(body) {
        Err(_) => (store, bare(StatusCode::UnprocessableEntity)),
        Ok(fields) => {
            let person = person_of(fields, id);
            match store.insert_one(person) {
                Ok(next) => (next, create_person_reply(person, Ok(()))),
                Err(failure) => (store, create_person_reply(person, Err(failure))),
            }
        },
    }
}

/// The response to a request for the person under `id`.
pub open spec fn serve_get(store: Collection, id: PersonId) -> ResponseView {
    get_person_reply(Ok(store.find_one(id)))
}

/// The response to a request for the number of persons.
pub open spec fn serve_count(store: Collection) -> ResponseView {
    count_persons_reply(Ok(store.count_documents() as u64))
}

/// The response to a search of which the store gave `found`.
pub open spec fn serve_search(found: Seq<PersonView>) -> ResponseView {
    search_persons_reply(SearchOutcomeView::Found(found))
}

/// The five keys of a person in a response are five different keys.
proof fn lemma_person_keys(person: PersonView)
    ensures
        ({
            let keys = field_keys(person_json(person)->Object_0);
            &&& only_at(keys, "id"@, 0)
            &&& only_at(keys, "apelido"@, 1)
            &&& only_at(keys, "nome"@, 2)
            &&& only_at(keys, "nascimento"@, 3)
            &&& only_at(keys, "stack"@, 4)
        }),
{
    reveal_strlit("id");
    reveal_strlit("apelido");
    reveal_strlit("nome");
    reveal_strlit("nascimento");
    reveal_strlit("stack");
    let keys = field_keys(person_json(person)->Object_0);
    assert(keys.len() == 5);
    assert(keys[0] == "id"@ && keys[0].len() == 2);
    assert(keys[1] == "apelido"@ && keys[1].len() == 7);
    assert(keys[2] == "nome"@ && keys[2].len() == 4);
    assert(keys[3] == "nascimento"@ && keys[3].len() == 10);
    assert(keys[4] == "stack"@ && keys[4].len() == 5);
}

/// What a person in a response holds under each of its keys.
pub proof fn lemma_person_json_fields(person: PersonView)
    ensures
        ({
            let shown = person_json(person)->Object_0;
            &&& value_under(shown, "id"@) == Some(Json::Text(hyphenated(person.id.bits)))
            &&& value_under(shown, "apelido"@) == Some(Json::Text(person.nickname))
            &&& value_under(shown, "nome"@) == Some(Json::Text(person.name))
            &&& value_under(shown, "nascimento"@) == Some(
                Json::Text(date_text(person.birth_date)),
            )
            &&& value_under(shown, "stack"@) == Some(stacks_json(person.stacks))
        }),
{
    let shown = person_json(person)->Object_0;
    let keys = field_keys(shown);
    lemma_person_keys(person);
    lemma_place_at(keys, "id"@, 0);
    lemma_place_at(keys, "apelido"@, 1);
    lemma_place_at(keys, "nome"@, 2);
    lemma_place_at(keys, "nascimento"@, 3);
    lemma_place_at(keys, "stack"@, 4);
}

/// A well-formed request to create a person is answered with what it gave.
///
/// Where the store takes the person, the response is 201, its `Location` is
/// `/pessoas/` and the identifier, and its body shows that identifier
/// under `id` and, under `apelido`, `nome` and `nascimento`, the very
/// values of the request. Under `stack` it shows the value of the request,
/// and null where the request had none.
pub proof fn lemma_created_person_echoes_body(store: Collection, body: Json, id: PersonId)
    requires
        body_of_json(body) is Ok,
        !store.holds(id),
    ensures
        ({
            let asked = body->Object_0;
            let reply = serve_create(store, body, id).1;
            let shown = reply.body->Json_0->Object_0;
            &&& body is Object
            &&& reply.status == StatusCode::Created
            &&& reply.location == Some("/pessoas/"@ + hyphenated(id.bits))
            &&& reply.body is Json
            &&& reply.body->Json_0 is Object
            &&& value_under(shown, "id"@) == Some(Json::Text(hyphenated(id.bits)))
            &&& value_under(shown, "apelido"@) == value_under(asked, "apelido"@)
            &&& value_under(shown, "nome"@) == value_under(asked, "nome"@)
            &&& value_under(shown, "nascimento"@) == value_under(asked, "nascimento"@)
            &&& value_under(shown, "stack"@) == Some(
                match value_under(asked, "stack"@) {
                    Some(value) => value,
                    None => Json::Null,
                },
            )
        }),
{
    let asked = body->Object_0;
    let fields = body_of_json(body)->Ok_0;
    let person = person_of(fields, id);
    lemma_person_json_fields(person);
    assert(has_name(asked, "apelido"@) && has_name(asked, "nome"@) && has_date(
        asked,
        "nascimento"@,
    ));
    lemma_parsed_date_text(text_field(asked, "nascimento"@)->0);
    match place(field_keys(asked), "stack"@) {
        Place::At(at) => {
            match asked[at as int].1 {
                Json::Array(items) => {
                    assert(all_text(items));
                    assert(texts_json(texts_of(items))->Array_0 =~= items) by {
                        assert forall|i: int| 0 <= i < items.len() implies Json::Text(
                            texts_of(items)[i],
                        ) == items[i] by {
                            assert(items[i] is Text);
                        }
                    }
                },
                _ => {},
            }
        },
        _ => {},
    }
}

/// A request with an ill-formed body is answered with 422 and leaves the
/// collection as it was.
pub proof fn lemma_ill_formed_body_stores_nothing(store: Collection, body: Json, id: PersonId)
    requires
        body_of_json(body) is Err,
    ensures
        serve_create(store, body, id) == (store, bare(StatusCode::UnprocessableEntity)),
{
}

/// A body is ill formed where `nome` or `apelido` is missing or is no
/// string, and where `stack` is a list with an item that is no string.
pub proof fn lemma_ill_formed_bodies(body: Json)
    requires
        body matches Json::Object(fields) ==> {
            ||| place(field_keys(fields), "nome"@) is Missing
            ||| place(field_keys(fields), "apelido"@) is Missing
            ||| (value_under(fields, "nome"@) matches Some(value) && !(value is Text))
            ||| (value_under(fields, "apelido"@) matches Some(value) && !(value is Text))
            ||| (value_under(fields, "stack"@) matches Some(Json::Array(items)) && !all_text(items))
        },
    ensures
        body_of_json(body) is Err,
{
}

/// Where a person was created, the identifier was not taken before.
pub proof fn lemma_created_identifier_is_new(store: Collection, body: Json, id: PersonId)
    requires
        serve_create(store, body, id).1.status == StatusCode::Created,
    ensures
        !store.holds(id),
        serve_create(store, body, id).0.holds(id),
{
}

/// A person that was created is found under its identifier, and the body
/// of that response is the body of the response that created it.
pub proof fn lemma_created_person_is_found(store: Collection, body: Json, id: PersonId)
    requires
        body_of_json(body) is Ok,
        !store.holds(id),
    ensures
        ({
            let (next, created) = serve_create(store, body, id);
            &&& created.status == StatusCode::Created
            &&& serve_get(next, id).status == StatusCode::Success
            &&& serve_get(next, id).body == created.body
        }),
{
}

/// An identifier under which nothing is kept is answered with 404.
pub proof fn lemma_unknown_person_is_not_found(store: Collection, id: PersonId)
    requires
        !store.holds(id),
    ensures
        serve_get(store, id) == bare(StatusCode::NotFound),
{
}

/// Inserting keeps a collection well formed, and adds one to the count
/// where it succeeds.
pub proof fn lemma_insert_one(store: Collection, person: PersonView)
    requires
        store.well_formed(),
    ensures
        match store.insert_one(person) {
            Ok(next) => {
                &&& !store.holds(person.id)
                &&& next.well_formed()
                &&& next.has(person)
                &&& next.count_documents() == store.count_documents() + 1
                &&& forall|other: PersonView| store.has(other) ==> next.has(other)
            },
            Err(_) => store.holds(person.id),
        },
{
}

/// The identifiers of a list of persons are all different.
pub open spec fn distinct_ids(people: Seq<PersonView>) -> bool {
    forall|i: int, j: int|
        0 <= i < j < people.len() ==> (#[trigger] people[i]).id != (#[trigger] people[j]).id
}

/// After persons with different identifiers were inserted into an empty
/// collection, the collection holds just their identifiers and as many
/// persons as were inserted.
pub proof fn lemma_insert_all(people: Seq<PersonView>)
    requires
        distinct_ids(people),
    ensures
        Collection::empty().insert_all(people).well_formed(),
        Collection::empty().insert_all(people).count_documents() == people.len(),
        forall|id: PersonId|
            Collection::empty().insert_all(people).holds(id) <==> exists|i: int|
                0 <= i < people.len() && (#[trigger] people[i]).id == id,
    decreases people.len(),
{
    let start = Collection::empty();
    if people.len() == 0 {
        assert(start.documents.dom() =~= Set::empty());
    } else {
        let rest = people.drop_last();
        let last = people.last();
        assert(distinct_ids(rest)) by {
            assert forall|i: int, j: int| 0 <= i < j < rest.len() implies (#[trigger] rest[i]).id != (
            #[trigger] rest[j]).id by {
                assert(rest[i] == people[i] && rest[j] == people[j]);
            }
        }
        lemma_insert_all(rest);
        let before = start.insert_all(rest);
        assert(!before.holds(last.id)) by {
            if before.holds(last.id) {
                let i = choose|i: int| 0 <= i < rest.len() && (#[trigger] rest[i]).id == last.id;
                assert(rest[i] == people[i]);
                assert(people[i].id != people[people.len() - 1].id);
            }
        }
        lemma_insert_one(before, last);
        let after = start.insert_all(people);
        assert(after == before.insert_one(last)->Ok_0);
        assert forall|id: PersonId| after.holds(id) <==> exists|i: int|
            0 <= i < people.len() && (#[trigger] people[i]).id == id by {
            if after.holds(id) {
                if id == last.id {
                    assert(people[people.len() - 1].id == id);
                } else {
                    assert(before.holds(id));
                    let i = choose|i: int| 0 <= i < rest.len() && (#[trigger] rest[i]).id == id;
                    assert(people[i].id == id);
                }
            }
            if exists|i: int| 0 <= i < people.len() && (#[trigger] people[i]).id == id {
                let i = choose|i: int| 0 <= i < people.len() && (#[trigger] people[i]).id == id;
                if i < rest.len() {
                    assert(rest[i].id == id);
                    assert(before.holds(id));
                }
            }
        }
    }
}

/// The count of an empty collection is answered with `0`, and the count
/// after persons with different identifiers were inserted with their
/// number in decimal.
pub proof fn lemma_count_after_inserts(people: Seq<PersonView>)
    requires
        distinct_ids(people),
        people.len() <= u64::MAX,
    ensures
        serve_count(Collection::empty()).body == BodyView::Text(seq!['0']),
        serve_count(Collection::empty().insert_all(people)).status == StatusCode::Success,
        serve_count(Collection::empty().insert_all(people)).body == BodyView::Text(
            decimal(people.len()),
        ),
{
    lemma_insert_all(people);
    assert(Collection::empty().documents.dom() =~= Set::empty());
    assert(decimal(0) =~= seq!['0']);
}

/// A person of the collection that matches the term is in the response to
/// the search, which is a 200.
pub proof fn lemma_search_shows_matching(
    store: Collection,
    term: Seq<char>,
    found: Seq<PersonView>,
    person: PersonView,
)
    requires
        store.finds(term, found),
        store.has(person),
        person_matches(person, term),
    ensures
        serve_search(found).status == StatusCode::Success,
        serve_search(found).body is Json,
        serve_search(found).body->Json_0 is Array,
        serve_search(found).body->Json_0->Array_0.contains(person_json(person)),
{
    assert(found.contains(person));
    let i = choose|i: int| 0 <= i < found.len() && found[i] == person;
    assert(people_json(found)->Array_0[i] == person_json(person));
}

/// A search for a term that no person of the collection matches is
/// answered with 200 and an empty list.
pub proof fn lemma_search_without_match_is_empty(
    store: Collection,
    term: Seq<char>,
    found: Seq<PersonView>,
)
    requires
        store.finds(term, found),
        forall|person: PersonView| store.has(person) ==> !person_matches(person, term),
    ensures
        serve_search(found) == json_reply(Json::Array(Seq::empty())),
{
    if found.len() > 0 {
        assert(found.contains(found[0]));
    }
    assert(people_json(found)->Array_0 =~= Seq::empty());
}

/// A request that is refused before the store is asked is refused with a
/// status of the 4xx class.
pub proof fn lemma_refusals_are_client_errors(
    body: Json,
    id: PersonId,
    store: Collection,
    parsed: Option<PersonId>,
    params: Seq<(String, String)>,
)
    ensures
        body_of_json(body) is Err ==> 400 <= serve_create(store, body, id).1.status.number() < 500,
        get_person_target(parsed) matches Err(refusal) ==> 400 <= refusal.status.number() < 500,
        search_persons_target(params) matches Err(refusal) ==> 400 <= refusal.status.number()
            < 500,
{
}

/// The health check is answered with 200 and an empty body. The response
/// depends on nothing, so not on the store.
pub proof fn lemma_health_check_is_bare()
    ensures
        health_check_reply().status == StatusCode::Success,
        health_check_reply().body == BodyView::Empty,
        health_check_reply().content_type.is_none(),
        health_check_reply().location.is_none(),
{
}

} // verus!
