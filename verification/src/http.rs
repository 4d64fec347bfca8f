//! The responses that the service gives: a status, two headers and a body.

use vstd::prelude::*;
use crate::json::{Json, JsonValue};

verus! {

/// The statuses that the service answers with.
#[derive(Clone, Copy, Debug, PartialEq, Eq, Structural)]
pub enum StatusCode {
    /// 200
    Success,
    /// 201
    Created,
    /// 400
    BadRequest,
    /// 404
    NotFound,
    /// 422
    UnprocessableEntity,
    /// 500
    InternalServerError,
}

impl StatusCode {
    /// The number of the status.
    pub open spec fn number(self) -> int {
        match self {
            StatusCode::Success => 200,
            StatusCode::Created => 201,
            StatusCode::BadRequest => 400,
            StatusCode::NotFound => 404,
            StatusCode::UnprocessableEntity => 422,
            StatusCode::InternalServerError => 500,
        }
    }

    /// The number of the status.
    pub fn as_u16(&self) -> (n: u16)
        ensures
            n == self.number(),
    {
        match self {
            StatusCode::Success => 200,
            StatusCode::Created => 201,
            StatusCode::BadRequest => 400,
            StatusCode::NotFound => 404,
            StatusCode::UnprocessableEntity => 422,
            StatusCode::InternalServerError => 500,
        }
    }

    /// Whether the status is one of the 2xx class.
    pub fn is_success(&self) -> (b: bool)
        ensures
            b == (200 <= self.number() < 300),
    {
        match self {
            StatusCode::Success | StatusCode::Created => true,
            _ => false,
        }
    }

    /// Whether the status is one of the 4xx class.
    pub fn is_client_error(&self) -> (b: bool)
        ensures
            b == (400 <= self.number() < 500),
    {
        match self {
            StatusCode::BadRequest | StatusCode::NotFound | StatusCode::UnprocessableEntity => true,
            _ => false,
        }
    }
}

/// The media types of the bodies that the service sends.
#[derive(Clone, Copy, Debug, PartialEq, Eq, Structural)]
pub enum ContentType {
    Json,
    PlainText,
}

impl ContentType {
    /// The value of the `Content-Type` header.
    pub open spec fn text(self) -> Seq<char> {
        match self {
            ContentType::Json => "application/json"@,
            ContentType::PlainText => "text/plain"@,
        }
    }

    /// The value of the `Content-Type` header.
    pub fn as_str(&self) -> (s: &'static str)
        ensures
            s@ == self.text(),
    {
        match self {
            ContentType::Json => "application/json",
            ContentType::PlainText => "text/plain",
        }
    }
}

/// The body of a response.
#[derive(Debug, PartialEq, Eq)]
pub enum Body {
    Empty,
    Text(String),
    Json(JsonValue),
}

pub ghost enum BodyView {
    Empty,
    Text(Seq<char>),
    Json(Json),
}

impl View for Body {
    type V = BodyView;

    open spec fn view(&self) -> BodyView {
        match self {
            Body::Empty => BodyView::Empty,
            Body::Text(s) => BodyView::Text(s@),
            Body::Json(v) => BodyView::Json(v@),
        }
    }
}

/// A response: the status, the `Content-Type` and `Location` headers where
/// they are set, and the body.
#[derive(Debug, PartialEq, Eq)]
pub struct Response {
    pub status: StatusCode,
    pub content_type: Option<ContentType>,
    pub location: Option<String>,
    pub body: Body,
}

pub ghost struct ResponseView {
    pub status: StatusCode,
    pub content_type: Option<ContentType>,
    pub location: Option<Seq<char>>,
    pub body: BodyView,
}

impl View for Response {
    type V = ResponseView;

    open spec fn view(&self) -> ResponseView {
        ResponseView {
            status: self.status,
            content_type: self.content_type,
            location: match self.location {
                Some(s) => Some(s@),
                None => None,
            },
            body: self.body@,
        }
    }
}

/// The response that is a status and nothing else.
pub open spec fn bare(status: StatusCode) -> ResponseView {
    ResponseView { status, content_type: None, location: None, body: BodyView::Empty }
}

/// A 200 response with a JSON body.
pub open spec fn json_reply(body: Json) -> ResponseView {
    ResponseView {
        status: StatusCode::Success,
        content_type: Some(ContentType::Json),
        location: None,
        body: BodyView::Json(body),
    }
}

impl Response {
    /// The response that is a status and nothing else.
    pub fn bare(status: StatusCode) -> (r: Response)
        ensures
            r@ == bare(status),
    {
        Response { status, content_type: None, location: None, body: Body::Empty }
    }

    /// A 200 response with a JSON body.
    pub fn json(body: JsonValue) -> (r: Response)
        ensures
            r@ == json_reply(body@),
    {
        Response {
            status: StatusCode::Success,
            content_type: Some(ContentType::Json),
            location: None,
            body: Body::Json(body),
        }
    }
}

} // verus!
