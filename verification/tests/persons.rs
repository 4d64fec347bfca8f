use rinha_backend_2023_q3::date::BirthDate;
use rinha_backend_2023_q3::http::{Body, ContentType, Response, StatusCode};
use rinha_backend_2023_q3::identifier::PersonId;
use rinha_backend_2023_q3::json::JsonValue;
use rinha_backend_2023_q3::structs::api::{BodyError, CreatePersonBody, PersonBody, SearchPersonQuery};
use rinha_backend_2023_q3::structs::person::Person;
use rinha_backend_2023_q3::{
    count_persons, create_person, create_person_request, get_person, get_person_request,
    get_person_lookup, search_persons, search_persons_request, SearchOutcome, StorageFailure,
};

fn text(value: &str) -> JsonValue {
    JsonValue::Text(String::from(value))
}

fn object(fields: Vec<(&str, JsonValue)>) -> JsonValue {
    JsonValue::Object(fields.into_iter().map(|(key, value)| (String::from(key), value)).collect())
}

fn valid_fields() -> Vec<(&'static str, JsonValue)> {
    vec![
        ("apelido", text("ana")),
        ("nome", text("Ana Barbosa")),
        ("nascimento", text("1985-09-23")),
        ("stack", JsonValue::Array(vec![text("Node"), text("Postgres")])),
    ]
}

fn without(key: &str) -> JsonValue {
    object(valid_fields().into_iter().filter(|(k, _)| *k != key).collect())
}

fn with(key: &str, value: JsonValue) -> JsonValue {
    let mut fields: Vec<(&str, JsonValue)> =
        valid_fields().into_iter().filter(|(k, _)| *k != key).collect();
    fields.push((if key == "apelido" { "apelido" } else if key == "nome" { "nome" } else if key == "nascimento" { "nascimento" } else { "stack" }, value));
    object(fields)
}

fn ana(bits: u128) -> Person {
    Person {
        id: PersonId { bits },
        nickname: String::from("ana"),
        name: String::from("Ana Barbosa"),
        birth_date: BirthDate::new(1985, 9, 23).expect("a date"),
        stacks: Some(vec![String::from("Node"), String::from("Postgres")]),
    }
}

fn ana_json(id: &str) -> JsonValue {
    object(vec![
        ("id", text(id)),
        ("apelido", text("ana")),
        ("nome", text("Ana Barbosa")),
        ("nascimento", text("1985-09-23")),
        ("stack", JsonValue::Array(vec![text("Node"), text("Postgres")])),
    ])
}

fn refused(status: StatusCode) -> Response {
    Response { status, content_type: None, location: None, body: Body::Empty }
}

#[test]
fn a_valid_body_is_read() {
    let body = CreatePersonBody::from_json(&object(valid_fields())).expect("a body");
    assert_eq!(body.nickname, "ana");
    assert_eq!(body.name, "Ana Barbosa");
    assert_eq!(body.birth_date, BirthDate::new(1985, 9, 23).expect("a date"));
    assert_eq!(body.stacks, Some(vec![String::from("Node"), String::from("Postgres")]));
}

#[test]
fn a_body_without_stack_or_with_null_has_no_stacks_and_an_empty_list_is_a_list() {
    assert_eq!(CreatePersonBody::from_json(&without("stack")).expect("a body").stacks, None);
    assert_eq!(
        CreatePersonBody::from_json(&with("stack", JsonValue::Null)).expect("a body").stacks,
        None
    );
    assert_eq!(
        CreatePersonBody::from_json(&with("stack", JsonValue::Array(vec![])))
            .expect("a body")
            .stacks,
        Some(vec![])
    );
}

#[test]
fn other_keys_of_a_body_are_passed_over() {
    let mut fields = valid_fields();
    fields.insert(0, ("id", text("chosen-by-the-client")));
    fields.push(("extra", JsonValue::Object(vec![])));
    fields.push(("extra", JsonValue::Number));
    let body = CreatePersonBody::from_json(&object(fields)).expect("a body");
    assert_eq!(body.nickname, "ana");
}

#[test]
fn what_is_no_object_is_no_body() {
    for value in [
        JsonValue::Null,
        JsonValue::Bool(true),
        JsonValue::Number,
        text("nome"),
        JsonValue::Array(vec![text("ana"), text("Ana"), text("1985-09-23")]),
    ] {
        assert_eq!(CreatePersonBody::from_json(&value), Err(BodyError::NotAnObject));
    }
}

#[test]
fn a_body_is_refused_for_its_nickname() {
    assert_eq!(CreatePersonBody::from_json(&without("apelido")), Err(BodyError::Nickname));
    for value in [JsonValue::Null, JsonValue::Number, JsonValue::Bool(false), text(""), JsonValue::Array(vec![])] {
        assert_eq!(
            CreatePersonBody::from_json(&with("apelido", value)),
            Err(BodyError::Nickname)
        );
    }
    let mut twice = valid_fields();
    twice.push(("apelido", text("ana")));
    assert_eq!(CreatePersonBody::from_json(&object(twice)), Err(BodyError::Nickname));
    assert_eq!(CreatePersonBody::from_json(&object(vec![])), Err(BodyError::Nickname));
}

#[test]
fn a_body_is_refused_for_its_name() {
    assert_eq!(CreatePersonBody::from_json(&without("nome")), Err(BodyError::Name));
    for value in [JsonValue::Null, JsonValue::Number, text(""), JsonValue::Object(vec![])] {
        assert_eq!(CreatePersonBody::from_json(&with("nome", value)), Err(BodyError::Name));
    }
    let mut twice = valid_fields();
    twice.push(("nome", text("Ana")));
    assert_eq!(CreatePersonBody::from_json(&object(twice)), Err(BodyError::Name));
}

#[test]
fn a_body_is_refused_for_its_birth_date() {
    assert_eq!(CreatePersonBody::from_json(&without("nascimento")), Err(BodyError::BirthDate));
    for value in [
        JsonValue::Null,
        JsonValue::Number,
        text(""),
        text("1985-02-30"),
        text("23/09/1985"),
        text("1985-9-23"),
    ] {
        assert_eq!(
            CreatePersonBody::from_json(&with("nascimento", value)),
            Err(BodyError::BirthDate)
        );
    }
}

#[test]
fn a_body_is_refused_for_its_stacks() {
    for value in [
        JsonValue::Number,
        text("Node"),
        JsonValue::Bool(true),
        JsonValue::Object(vec![]),
        JsonValue::Array(vec![text("Node"), JsonValue::Number]),
        JsonValue::Array(vec![JsonValue::Null]),
        JsonValue::Array(vec![JsonValue::Array(vec![text("Node")])]),
    ] {
        assert_eq!(CreatePersonBody::from_json(&with("stack", value)), Err(BodyError::Stacks));
    }
    let mut twice = valid_fields();
    twice.push(("stack", JsonValue::Null));
    assert_eq!(CreatePersonBody::from_json(&object(twice)), Err(BodyError::Stacks));
}

#[test]
fn the_first_fault_of_a_body_is_named() {
    assert_eq!(
        CreatePersonBody::from_json(&object(vec![("stack", JsonValue::Number)])),
        Err(BodyError::Nickname)
    );
    assert_eq!(
        CreatePersonBody::from_json(&object(vec![("apelido", text("a")), ("stack", JsonValue::Number)])),
        Err(BodyError::Name)
    );
    assert_eq!(
        CreatePersonBody::from_json(&object(vec![
            ("apelido", text("a")),
            ("nome", text("b")),
            ("stack", JsonValue::Number)
        ])),
        Err(BodyError::BirthDate)
    );
}

#[test]
fn an_ill_formed_body_is_answered_with_422_and_makes_no_person() {
    let ill_formed = [
        without("nome"),
        without("apelido"),
        with("nome", JsonValue::Number),
        with("apelido", JsonValue::Number),
        with("stack", JsonValue::Array(vec![text("Node"), JsonValue::Number])),
        with("nascimento", text("yesterday")),
        JsonValue::Null,
    ];
    for body in ill_formed.iter() {
        let refusal = create_person_request(Some(body)).expect_err("a refusal");
        assert_eq!(refusal.status.as_u16(), 422);
        assert_eq!(refusal, refused(StatusCode::UnprocessableEntity));
    }
    let refusal = create_person_request(None).expect_err("a refusal");
    assert_eq!(refusal, refused(StatusCode::UnprocessableEntity));
}

#[test]
fn a_created_person_echoes_the_request_under_a_fresh_identifier() {
    let first = create_person_request(Some(&object(valid_fields()))).expect("a person");
    let second = create_person_request(Some(&object(valid_fields()))).expect("a person");
    assert_ne!(first.id, second.id);
    assert_eq!(first.nickname, "ana");
    assert_eq!(first.birth_date.to_text(), "1985-09-23");

    let response = create_person(&first, Ok(()));
    let id = first.id.to_text();
    assert_eq!(response.status, StatusCode::Created);
    assert_eq!(response.content_type, Some(ContentType::Json));
    assert_eq!(response.location, Some(format!("/pessoas/{}", id)));
    assert_eq!(response.body, Body::Json(ana_json(&id)));
}

#[test]
fn a_person_without_stacks_shows_null() {
    let person = create_person_request(Some(&without("stack"))).expect("a person");
    assert_eq!(person.stacks, None);
    let body = PersonBody::from_person(&person).to_json();
    match body {
        JsonValue::Object(fields) => {
            assert_eq!(fields.len(), 5);
            assert_eq!(fields[4], (String::from("stack"), JsonValue::Null));
        }
        other => panic!("{:?}", other),
    }
    let empty = create_person_request(Some(&with("stack", JsonValue::Array(vec![])))).expect("a person");
    match PersonBody::from_person(&empty).to_json() {
        JsonValue::Object(fields) => {
            assert_eq!(fields[4], (String::from("stack"), JsonValue::Array(vec![])));
        }
        other => panic!("{:?}", other),
    }
}

#[test]
fn a_person_is_made_of_a_body_and_an_identifier() {
    let body = CreatePersonBody::from_json(&object(valid_fields())).expect("a body");
    assert_eq!(Person::new(body, PersonId { bits: 9 }), ana(9));
}

#[test]
fn a_failed_insertion_is_answered_with_500() {
    let response = create_person(&ana(1), Err(StorageFailure));
    assert_eq!(response, refused(StatusCode::InternalServerError));
    assert_eq!(response.status.as_u16(), 500);
}

#[test]
fn a_created_person_is_fetched_with_the_same_body() {
    let person = create_person_request(Some(&object(valid_fields()))).expect("a person");
    let created = create_person(&person, Ok(()));
    let location = created.location.clone().expect("a location");
    let segment = location.strip_prefix("/pessoas/").expect("the path of a person");
    let id = get_person_request(segment).expect("an identifier");
    assert_eq!(id, person.id);
    let fetched = get_person(Ok(Some(person.clone())));
    assert_eq!(fetched.status, StatusCode::Success);
    assert_eq!(fetched.content_type, Some(ContentType::Json));
    assert_eq!(fetched.location, None);
    assert_eq!(fetched.body, created.body);
}

#[test]
fn a_person_is_shown_with_the_keys_of_the_interface() {
    let response = get_person(Ok(Some(ana(0x550e8400e29b41d4a716446655440000))));
    assert_eq!(response.status.as_u16(), 200);
    assert_eq!(
        response.body,
        Body::Json(ana_json("550e8400-e29b-41d4-a716-446655440000"))
    );
}

#[test]
fn an_unknown_identifier_is_answered_with_404() {
    let id = get_person_request(&PersonId::random().to_text()).expect("an identifier");
    assert_eq!(id.to_text().len(), 36);
    let response = get_person(Ok(None));
    assert_eq!(response, refused(StatusCode::NotFound));
    assert_eq!(response.status.as_u16(), 404);
}

#[test]
fn a_failed_lookup_is_answered_with_500() {
    assert_eq!(get_person(Err(StorageFailure)), refused(StatusCode::InternalServerError));
}

#[test]
fn a_segment_that_is_no_identifier_is_answered_with_400() {
    for segment in ["", "42", "ana", "550e8400-e29b-41d4-a716"] {
        let refusal = get_person_request(segment).expect_err("a refusal");
        assert_eq!(refusal, refused(StatusCode::BadRequest));
        assert_eq!(refusal.status.as_u16(), 400);
    }
    assert_eq!(get_person_lookup(None), Err(refused(StatusCode::BadRequest)));
    assert_eq!(get_person_lookup(Some(PersonId { bits: 3 })), Ok(PersonId { bits: 3 }));
}

#[test]
fn the_count_is_answered_in_decimal_as_plain_text() {
    let none = count_persons(Ok(0));
    assert_eq!(none.status, StatusCode::Success);
    assert_eq!(none.content_type, Some(ContentType::PlainText));
    assert_eq!(none.location, None);
    assert_eq!(none.body, Body::Text(String::from("0")));
    assert_eq!(count_persons(Ok(3)).body, Body::Text(String::from("3")));
    assert_eq!(count_persons(Ok(46576)).body, Body::Text(String::from("46576")));
    assert_eq!(
        count_persons(Ok(u64::MAX)).body,
        Body::Text(String::from("18446744073709551615"))
    );
}

#[test]
fn a_failed_count_is_answered_with_500() {
    assert_eq!(count_persons(Err(StorageFailure)), refused(StatusCode::InternalServerError));
}

#[test]
fn a_search_needs_the_term_once() {
    let pair = |key: &str, value: &str| (String::from(key), String::from(value));
    let filter = search_persons_request(&vec![pair("page", "2"), pair("t", "Node.js")]).expect("a filter");
    assert_eq!(filter.pattern, "Node\\.js");
    assert_eq!(filter.options, "i");
    assert_eq!(filter.any_of.len(), 3);

    let empty_term = search_persons_request(&vec![pair("t", "")]).expect("a filter");
    assert_eq!(empty_term.pattern, "");

    for params in [vec![], vec![pair("q", "node")], vec![pair("T", "node")], vec![pair("t", "a"), pair("t", "b")]] {
        let refusal = search_persons_request(&params).expect_err("a refusal");
        assert_eq!(refusal, refused(StatusCode::BadRequest));
    }
    assert_eq!(
        SearchPersonQuery::from_params(&vec![pair("t", "ana")]),
        Some(SearchPersonQuery { search_term: String::from("ana") })
    );
    assert_eq!(SearchPersonQuery::from_params(&vec![]), None);
}

#[test]
fn a_search_shows_the_persons_found_in_their_order() {
    let first = ana(0x550e8400e29b41d4a716446655440000);
    let mut second = ana(0x550e8400e29b41d4a716446655440001);
    second.stacks = None;
    let response = search_persons(SearchOutcome::Found(vec![first, second]));
    assert_eq!(response.status, StatusCode::Success);
    assert_eq!(response.content_type, Some(ContentType::Json));
    assert_eq!(response.location, None);
    let items = match response.body {
        Body::Json(JsonValue::Array(items)) => items,
        other => panic!("{:?}", other),
    };
    assert_eq!(items.len(), 2);
    assert_eq!(items[0], ana_json("550e8400-e29b-41d4-a716-446655440000"));
    match &items[1] {
        JsonValue::Object(fields) => {
            assert_eq!(fields[0].1, text("550e8400-e29b-41d4-a716-446655440001"));
            assert_eq!(fields[4].1, JsonValue::Null);
        }
        other => panic!("{:?}", other),
    }
}

#[test]
fn a_search_that_finds_nobody_is_answered_with_an_empty_list() {
    let response = search_persons(SearchOutcome::Found(vec![]));
    assert_eq!(response.status.as_u16(), 200);
    assert_eq!(response.body, Body::Json(JsonValue::Array(vec![])));
}

#[test]
fn a_search_that_broke_off_is_answered_with_an_empty_list() {
    let response = search_persons(SearchOutcome::Interrupted);
    assert_eq!(response.status, StatusCode::Success);
    assert_eq!(response.content_type, Some(ContentType::Json));
    assert_eq!(response.body, Body::Json(JsonValue::Array(vec![])));
}

#[test]
fn a_search_that_failed_is_answered_with_500() {
    assert_eq!(search_persons(SearchOutcome::Failed), refused(StatusCode::InternalServerError));
}
