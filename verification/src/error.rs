//! What can go wrong, and how it is told to the client. The gateways report
//! raw failures; the service layer sorts each into one of four kinds; the
//! handlers only turn a kind into a status code.

use vstd::prelude::*;
use vstd::string::*;

use crate::domain::response::ErrorResponse;
use crate::http;

verus! {

/// The resources that the backend keeps.
#[derive(Debug, Clone, Copy, PartialEq, Eq, Structural)]
pub enum Resource {
    Category,
    Post,
    Comment,
    User,
}

/// A failure as a gateway reports it.
#[derive(Debug, PartialEq, Eq)]
pub enum GatewayError {
    /// The row that the operation names is not there.
    RecordNotFound,
    /// The operation needs the id of a row and was given none.
    IdRequired,
    /// Anything else that the store reports, with its own words.
    Backend(String),
}

/// A failure as the service layer classifies it.
#[derive(Debug, PartialEq, Eq)]
pub enum ServiceError {
    /// The row that the request names is not there.
    NotFound(Resource),
    /// The request lacks something that the operation needs.
    ValidationFailed(String),
    /// The request did not prove who sent it.
    AuthenticationFailed,
    /// The store failed. The text is for the operator and is never sent to
    /// the client.
    PersistenceError(String),
}

impl Resource {
    pub open spec fn spec_not_found_message(self) -> Seq<char> {
        match self {
            Resource::Category => "Category not found"@,
            Resource::Post => "Post not found"@,
            Resource::Comment => "Comment not found"@,
            Resource::User => "User not found"@,
        }
    }

    pub open spec fn spec_id_required_message(self) -> Seq<char> {
        match self {
            Resource::Category => "Category ID is required"@,
            Resource::Post => "Post ID is required"@,
            Resource::Comment => "Comment ID is required"@,
            Resource::User => "User ID is required"@,
        }
    }

    pub open spec fn spec_deleted_message(self) -> Seq<char> {
        match self {
            Resource::Category => "Category deleted successfully"@,
            Resource::Post => "Post deleted successfully"@,
            Resource::Comment => "Comment deleted successfully"@,
            Resource::User => "User deleted successfully"@,
        }
    }

    /// The message that tells that a row of this resource was removed.
    pub fn deleted_message(&self) -> (message: String)
        ensures
            message@ == self.spec_deleted_message(),
    {
        match self {
            Resource::Category => String::from_str("Category deleted successfully"),
            Resource::Post => String::from_str("Post deleted successfully"),
            Resource::Comment => String::from_str("Comment deleted successfully"),
            Resource::User => String::from_str("User deleted successfully"),
        }
    }

    /// The message that tells that a row of this resource is not there.
    pub fn not_found_message(&self) -> (message: String)
        ensures
            message@ == self.spec_not_found_message(),
    {
        match self {
            Resource::Category => String::from_str("Category not found"),
            Resource::Post => String::from_str("Post not found"),
            Resource::Comment => String::from_str("Comment not found"),
            Resource::User => String::from_str("User not found"),
        }
    }

    /// The message that tells that a change names no row of this resource.
    pub fn id_required_message(&self) -> (message: String)
        ensures
            message@ == self.spec_id_required_message(),
    {
        match self {
            Resource::Category => String::from_str("Category ID is required"),
            Resource::Post => String::from_str("Post ID is required"),
            Resource::Comment => String::from_str("Comment ID is required"),
            Resource::User => String::from_str("User ID is required"),
        }
    }
}

/// `kind` is what a gateway failure on `resource` is sorted into: a missing
/// row is `NotFound`, a missing id is `ValidationFailed` with the message
/// that asks for it, and everything else is `PersistenceError` with the
/// store's words.
pub open spec fn classifies(resource: Resource, error: GatewayError, kind: ServiceError) -> bool {
    match error {
        GatewayError::RecordNotFound => kind == ServiceError::NotFound(resource),
        GatewayError::IdRequired => kind matches ServiceError::ValidationFailed(text) && text@
            == resource.spec_id_required_message(),
        GatewayError::Backend(text) => kind == ServiceError::PersistenceError(text),
    }
}

impl ServiceError {
    /// The status code of each kind.
    pub open spec fn spec_status_code(&self) -> u16 {
        match self {
            ServiceError::NotFound(_) => http::NOT_FOUND,
            ServiceError::ValidationFailed(_) => http::BAD_REQUEST,
            ServiceError::AuthenticationFailed => http::UNAUTHORIZED,
            ServiceError::PersistenceError(_) => http::INTERNAL_SERVER_ERROR,
        }
    }

    /// The `status` word of each kind: `error` where the store failed,
    /// `fail` where the request was at fault.
    pub open spec fn spec_status(&self) -> Seq<char> {
        match self {
            ServiceError::PersistenceError(_) => "error"@,
            _ => "fail"@,
        }
    }

    /// The message that the client sees. A store failure shows a fixed
    /// text: what the store said stays inside.
    pub open spec fn spec_message(&self) -> Seq<char> {
        match self {
            ServiceError::NotFound(resource) => resource.spec_not_found_message(),
            ServiceError::ValidationFailed(text) => text@,
            ServiceError::AuthenticationFailed => "Authentication failed"@,
            ServiceError::PersistenceError(_) => "Internal server error"@,
        }
    }

    /// Sorts a gateway failure on `resource` into its kind.
    pub fn classify(resource: Resource, error: GatewayError) -> (kind: ServiceError)
        ensures
            classifies(resource, error, kind),
    {
        match error {
            GatewayError::RecordNotFound => ServiceError::NotFound(resource),
            GatewayError::IdRequired => ServiceError::ValidationFailed(
                resource.id_required_message(),
            ),
            GatewayError::Backend(text) => ServiceError::PersistenceError(text),
        }
    }

    /// The id that a change names, or the failure that a change without one
    /// is answered with. A change must name the row that it is for before
    /// any store is asked.
    pub fn require_id(resource: Resource, id: Option<i32>) -> (checked: Result<i32, ServiceError>)
        ensures
            match id {
                Some(named) => checked == Ok::<i32, ServiceError>(named),
                None => checked matches Err(ServiceError::ValidationFailed(text)) && text@
                    == resource.spec_id_required_message(),
            },
    {
        match id {
            Some(named) => Ok(named),
            None => Err(ServiceError::ValidationFailed(resource.id_required_message())),
        }
    }

    /// The status code that a handler answers this failure with.
    pub fn status_code(&self) -> (code: u16)
        ensures
            code == self.spec_status_code(),
    {
        match self {
            ServiceError::NotFound(_) => http::NOT_FOUND,
            ServiceError::ValidationFailed(_) => http::BAD_REQUEST,
            ServiceError::AuthenticationFailed => http::UNAUTHORIZED,
            ServiceError::PersistenceError(_) => http::INTERNAL_SERVER_ERROR,
        }
    }

    /// The envelope that a handler answers this failure with.
    pub fn to_response(&self) -> (body: ErrorResponse)
        ensures
            body.status@ == self.spec_status(),
            body.message@ == self.spec_message(),
    {
        match self {
            ServiceError::NotFound(resource) => ErrorResponse {
                status: String::from_str("fail"),
                message: resource.not_found_message(),
            },
            ServiceError::ValidationFailed(text) => ErrorResponse {
                status: String::from_str("fail"),
                message: text.clone(),
            },
            ServiceError::AuthenticationFailed => ErrorResponse {
                status: String::from_str("fail"),
                message: String::from_str("Authentication failed"),
            },
            ServiceError::PersistenceError(_) => ErrorResponse {
                status: String::from_str("error"),
                message: String::from_str("Internal server error"),
            },
        }
    }
}

} // verus!
