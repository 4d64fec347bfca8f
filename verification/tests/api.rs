use rinha_backend_2023_q3::http::{Body, StatusCode};
use rinha_backend_2023_q3::json::{find_key, JsonValue, Place};
use rinha_backend_2023_q3::{create_person, create_person_request, health_check};

fn text(value: &str) -> JsonValue {
    JsonValue::Text(String::from(value))
}

fn under<'a>(fields: &'a Vec<(String, JsonValue)>, key: &str) -> &'a JsonValue {
    match find_key(fields, key) {
        Place::At(at) => &fields[at].1,
        other => panic!("{} is {:?}", key, other),
    }
}

#[test]
fn health_check_works() {
    let response = health_check();
    assert!(response.status.is_success());
    assert_eq!(Body::Empty, response.body);
}

#[test]
fn it_returns_a_dev_given_a_valid_body() {
    let body = JsonValue::Object(vec![
        (String::from("apelido"), text("foo")),
        (String::from("nome"), text("bye")),
        (String::from("nascimento"), text("1992-11-23")),
        (String::from("stack"), JsonValue::Array(vec![text("Rust"), text("Ruby")])),
    ]);

    let person = create_person_request(Some(&body)).expect("failed request");
    let response = create_person(&person, Ok(()));

    assert_eq!(response.status, StatusCode::Created);
    assert_eq!(response.status.as_u16(), 201);
    assert!(response
        .location
        .as_ref()
        .expect("header not found")
        .starts_with("/pessoas/"));
    let response_body = match response.body {
        Body::Json(JsonValue::Object(fields)) => fields,
        other => panic!("{:?}", other),
    };
    assert_eq!(under(&response_body, "apelido"), &text("foo"));
    assert_eq!(under(&response_body, "nome"), &text("bye"));
    assert_eq!(under(&response_body, "nascimento"), &text("1992-11-23"));
    assert_eq!(
        under(&response_body, "stack"),
        &JsonValue::Array(vec![text("Rust"), text("Ruby")])
    );
}
