//! Turning an operation's encoded outcome into an HTTP response.

use vstd::prelude::*;
use actix_web::http::StatusCode;
use actix_web::HttpResponse;
use crate::message::APIError;

verus! {

/// actix-web's `HttpResponse`, carried through as an opaque value.
#[verifier::external_type_specification]
#[verifier::external_body]
pub struct ExHttpResponse(HttpResponse);

/// What `HttpResponseBuilder::body` returns for a builder fresh from `HttpResponse::build`:
/// the response with the status `status` whose body is the text `body`.
pub uninterp spec fn response_with_body(status: u16, body: Seq<char>) -> HttpResponse;

/// What `HttpResponseBuilder::finish` returns for a builder fresh from
/// `HttpResponse::build`: the response with the status `status` and an empty body.
pub uninterp spec fn response_without_body(status: u16) -> HttpResponse;

/// Calls `HttpResponse::build` with the status code of that number, then `body` on the
/// builder. Trusted, not proved: a fresh builder holds the status and nothing else, and
/// `body` puts the text in as the body, so the response depends on the two arguments
/// alone. `StatusCode::from_u16` accepts the numbers from 100 to 599.
#[verifier::external_body]
fn respond_with_body(status: u16, body: String) -> (response: HttpResponse)
    requires
        100 <= status < 600,
    ensures
        response == response_with_body(status, body@),
{
    HttpResponse::build(StatusCode::from_u16(status).unwrap()).body(body)
}

/// Calls `HttpResponse::build` with the status code of that number, then `finish` on the
/// builder. Trusted, not proved: `finish` is `body` with the empty body, so the response
/// depends on the status alone. `StatusCode::from_u16` accepts the numbers from 100 to 599.
#[verifier::external_body]
fn respond_without_body(status: u16) -> (response: HttpResponse)
    requires
        100 <= status < 600,
    ensures
        response == response_without_body(status),
{
    HttpResponse::build(StatusCode::from_u16(status).unwrap()).finish()
}

/// The body to send, given what encoding a reply produced: a reply that could not be
/// encoded is an internal error.
pub fn encoded_body(encoded: Option<String>) -> (r: Result<String, APIError>)
    ensures
        r == (match encoded {
            Some(body) => Ok::<String, APIError>(body),
            None => Err(APIError::InternalServerError),
        }),
{
    match encoded {
        Some(body) => Ok(body),
        None => Err(APIError::InternalServerError),
    }
}

impl APIError {
    /// The HTTP status that reports this error.
    pub open spec fn status(self) -> u16 {
        match self {
            APIError::NotFound => 404,
            APIError::BadRequest => 400,
            APIError::InternalServerError => 500,
        }
    }

    fn status_code(&self) -> (code: u16)
        ensures
            code == self.status(),
    {
        match self {
            APIError::NotFound => 404,
            APIError::BadRequest => 400,
            APIError::InternalServerError => 500,
        }
    }
}

/// The response that renders an outcome: status 200 around the body of a success, and
/// the error's status, without a body, for a failure.
pub open spec fn resolved(r: Result<String, APIError>) -> HttpResponse {
    match r {
        Ok(body) => response_with_body(200, body@),
        Err(e) => response_without_body(e.status()),
    }
}

/// An outcome that can be rendered as an HTTP response.
pub trait TodoMessageResultSolver {
    /// Renders the outcome.
    fn resolve(self) -> HttpResponse;
}

impl TodoMessageResultSolver for Result<String, APIError> {
    fn resolve(self) -> (response: HttpResponse)
        ensures
            response == resolved(self),
    {
        match self {
            Ok(s) => respond_with_body(200, s),
            Err(e) => respond_without_body(e.status_code()),
        }
    }
}

} // verus!
