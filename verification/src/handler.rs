//! What a handler answers: the status code and the body for each outcome
//! of the service. Handlers sort nothing themselves; a failure keeps the
//! kind that the service gave it.

use vstd::prelude::*;
use vstd::string::*;

use crate::domain::response::{ApiResponse, ErrorResponse, UploadResponse};
use crate::error::{Resource, ServiceError};
use crate::http;
use crate::service::file::UploadFailure;
use crate::text::{opt_text, str_eq};

verus! {

/// The body that tells that something was done.
#[derive(Debug, PartialEq, Eq)]
pub struct StatusMessage {
    pub status: String,
    pub message: String,
}

/// The body that tells what was wrong with a form.
#[derive(Debug, PartialEq, Eq)]
pub struct ErrorBody {
    pub error: String,
}

/// Why the form of a post could not be used.
#[derive(Debug, Clone, Copy, PartialEq, Eq, Structural)]
pub enum PostFormFailure {
    /// The form could not be read as a multipart request.
    UnreadableForm,
    /// The part that holds the post could not be read.
    UnreadablePostData,
    /// The part that holds the post is not a post.
    InvalidPostData,
    /// The form holds no part with the post.
    MissingPostData,
}

/// `reply` is the failure `error` as a handler answers it: the status code
/// of its kind, and its envelope.
pub open spec fn is_failure_reply(error: ServiceError, reply: (u16, ErrorResponse)) -> bool {
    &&& reply.0 == error.spec_status_code()
    &&& reply.1.status@ == error.spec_status()
    &&& reply.1.message@ == error.spec_message()
}

/// `reply` is what a handler answers `answer` with, where success is
/// answered with the status `success`.
pub open spec fn is_reply<T>(
    success: u16,
    answer: Result<T, ServiceError>,
    reply: Result<(u16, T), (u16, ErrorResponse)>,
) -> bool {
    match answer {
        Ok(body) => reply == Ok::<(u16, T), (u16, ErrorResponse)>((success, body)),
        Err(e) => reply matches Err(failure) && is_failure_reply(e, failure),
    }
}

/// `reply` is what a handler answers a lookup or a change with: the row
/// that was found, with `200`; `404` where the service found none; and
/// else the failure.
pub open spec fn is_found_reply<T>(
    resource: Resource,
    answer: Result<Option<T>, ServiceError>,
    reply: Result<(u16, T), (u16, ErrorResponse)>,
) -> bool {
    match answer {
        Ok(Some(body)) => reply == Ok::<(u16, T), (u16, ErrorResponse)>((http::OK, body)),
        Ok(None) => reply matches Err(failure) && is_failure_reply(
            ServiceError::NotFound(resource),
            failure,
        ),
        Err(e) => reply matches Err(failure) && is_failure_reply(e, failure),
    }
}

/// `reply` is what a handler answers a removal with: `200` and the word
/// that the row is gone, or the failure.
pub open spec fn is_deleted_reply(
    resource: Resource,
    answer: Result<ApiResponse<()>, ServiceError>,
    reply: Result<(u16, StatusMessage), (u16, ErrorResponse)>,
) -> bool {
    match answer {
        Ok(_) => {
            &&& reply matches Ok(done)
            &&& done.0 == http::OK
            &&& done.1.status@ == "success"@
            &&& done.1.message@ == resource.spec_deleted_message()
        },
        Err(e) => reply matches Err(failure) && is_failure_reply(e, failure),
    }
}

/// Answers a failure: the status code of its kind, and its envelope.
pub fn failure_reply(error: &ServiceError) -> (reply: (u16, ErrorResponse))
    ensures
        is_failure_reply(*error, reply),
{
    (error.status_code(), error.to_response())
}

/// Answers a listing or a change: `200` with the body, or the failure.
pub fn ok_reply<T>(answer: Result<T, ServiceError>) -> (reply: Result<
    (u16, T),
    (u16, ErrorResponse),
>)
    ensures
        is_reply(http::OK, answer, reply),
{
    match answer {
        Ok(body) => Ok((http::OK, body)),
        Err(e) => Err(failure_reply(&e)),
    }
}

/// Answers a creation: `201` with the body, or the failure.
pub fn created_reply<T>(answer: Result<T, ServiceError>) -> (reply: Result<
    (u16, T),
    (u16, ErrorResponse),
>)
    ensures
        is_reply(http::CREATED, answer, reply),
{
    match answer {
        Ok(body) => Ok((http::CREATED, body)),
        Err(e) => Err(failure_reply(&e)),
    }
}

/// Answers a lookup, or a change that may find nothing: `200` with the
/// body, `404` where there is none, or the failure.
pub fn found_reply<T>(resource: Resource, answer: Result<Option<T>, ServiceError>) -> (reply:
    Result<(u16, T), (u16, ErrorResponse)>)
    ensures
        is_found_reply(resource, answer, reply),
{
    match answer {
        Ok(Some(body)) => Ok((http::OK, body)),
        Ok(None) => Err(failure_reply(&ServiceError::NotFound(resource))),
        Err(e) => Err(failure_reply(&e)),
    }
}

/// Answers a removal: `200` and the word that the row is gone, or the
/// failure.
pub fn deleted_reply(resource: Resource, answer: Result<ApiResponse<()>, ServiceError>) -> (reply:
    Result<(u16, StatusMessage), (u16, ErrorResponse)>)
    ensures
        is_deleted_reply(resource, answer, reply),
{
    match answer {
        Ok(_) => Ok(
            (
                http::OK,
                StatusMessage {
                    status: String::from_str("success"),
                    message: resource.deleted_message(),
                },
            ),
        ),
        Err(e) => Err(failure_reply(&e)),
    }
}

impl PostFormFailure {
    pub open spec fn spec_message(self) -> Seq<char> {
        match self {
            PostFormFailure::UnreadableForm => "Failed to process form data"@,
            PostFormFailure::UnreadablePostData => "Failed to read post data"@,
            PostFormFailure::InvalidPostData => "Invalid post data format"@,
            PostFormFailure::MissingPostData => "Missing post data"@,
        }
    }

    /// What a handler answers a form with that it cannot use: `400` and
    /// what was wrong.
    pub fn reply(&self) -> (reply: (u16, ErrorBody))
        ensures
            reply.0 == http::BAD_REQUEST,
            reply.1.error@ == self.spec_message(),
    {
        let error = match self {
            PostFormFailure::UnreadableForm => String::from_str("Failed to process form data"),
            PostFormFailure::UnreadablePostData => String::from_str("Failed to read post data"),
            PostFormFailure::InvalidPostData => String::from_str("Invalid post data format"),
            PostFormFailure::MissingPostData => String::from_str("Missing post data"),
        };
        (http::BAD_REQUEST, ErrorBody { error })
    }
}

/// Whether a part of the form of a post holds the post: the part named
/// `post_data`.
pub fn is_post_data_field(field_name: Option<&str>) -> (wanted: bool)
    ensures
        wanted == (opt_text(field_name) == Some("post_data"@)),
{
    match field_name {
        Some(name) => str_eq(name, "post_data"),
        None => false,
    }
}

/// What the handler of a post answers an upload with that failed: the
/// status of the failure, and its message.
pub fn upload_failure_reply(failure: UploadFailure) -> (reply: (u16, ErrorBody))
    ensures
        reply.0 == failure.spec_status_code(),
        reply.1.error@ == failure.spec_message(),
{
    let body: UploadResponse = failure.response();
    (failure.status_code(), ErrorBody { error: body.message })
}

} // verus!
