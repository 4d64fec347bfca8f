use rinha_backend_2023_q3::health_check;
use rinha_backend_2023_q3::http::{Body, StatusCode};

#[test]
fn returns_200_ok() {
    let response = health_check();
    assert_eq!(response.status, StatusCode::Success);
    assert_eq!(response.status.as_u16(), 200);
    assert_eq!(Body::Empty, response.body);
    assert_eq!(response.content_type, None);
    assert_eq!(response.location, None);
}
