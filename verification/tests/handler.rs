use example_seaorm_axum::domain::response::{ApiResponse, ErrorResponse};
use example_seaorm_axum::error::{Resource, ServiceError};
use example_seaorm_axum::handler::{
    created_reply, deleted_reply, failure_reply, found_reply, is_post_data_field, ok_reply,
    upload_failure_reply, ErrorBody, PostFormFailure, StatusMessage,
};
use example_seaorm_axum::service::file::UploadFailure;

fn fail(message: &str) -> ErrorResponse {
    ErrorResponse { status: "fail".to_string(), message: message.to_string() }
}

fn hidden() -> ErrorResponse {
    ErrorResponse { status: "error".to_string(), message: "Internal server error".to_string() }
}

#[test]
fn failure_reply_maps_each_kind_to_its_status() {
    assert_eq!(
        failure_reply(&ServiceError::NotFound(Resource::User)),
        (404, fail("User not found"))
    );
    assert_eq!(
        failure_reply(&ServiceError::ValidationFailed("Post ID is required".to_string())),
        (400, fail("Post ID is required"))
    );
    assert_eq!(
        failure_reply(&ServiceError::AuthenticationFailed),
        (401, fail("Authentication failed"))
    );
    assert_eq!(failure_reply(&ServiceError::PersistenceError("boom".to_string())), (500, hidden()));
}

#[test]
fn ok_reply_answers_with_200() {
    assert_eq!(ok_reply(Ok(5)), Ok((200, 5)));
    assert_eq!(
        ok_reply::<i32>(Err(ServiceError::PersistenceError("boom".to_string()))),
        Err((500, hidden()))
    );
}

#[test]
fn created_reply_answers_with_201() {
    assert_eq!(created_reply(Ok("made")), Ok((201, "made")));
    assert_eq!(
        created_reply::<i32>(Err(ServiceError::ValidationFailed("no".to_string()))),
        Err((400, fail("no")))
    );
}

#[test]
fn found_reply_answers_nothing_found_with_404() {
    assert_eq!(found_reply(Resource::Category, Ok(Some(1))), Ok((200, 1)));
    assert_eq!(
        found_reply::<i32>(Resource::Category, Ok(None)),
        Err((404, fail("Category not found")))
    );
    assert_eq!(found_reply::<i32>(Resource::Post, Ok(None)), Err((404, fail("Post not found"))));
    assert_eq!(
        found_reply::<i32>(Resource::Comment, Ok(None)),
        Err((404, fail("Comment not found")))
    );
    assert_eq!(
        found_reply::<i32>(Resource::Post, Err(ServiceError::NotFound(Resource::Post))),
        Err((404, fail("Post not found")))
    );
    assert_eq!(
        found_reply::<i32>(Resource::Post, Err(ServiceError::PersistenceError("x".to_string()))),
        Err((500, hidden()))
    );
}

#[test]
fn deleted_reply_says_that_the_row_is_gone() {
    assert_eq!(
        deleted_reply(Resource::Category, Ok(ApiResponse { data: () })),
        Ok((
            200,
            StatusMessage {
                status: "success".to_string(),
                message: "Category deleted successfully".to_string(),
            }
        ))
    );
    assert_eq!(
        deleted_reply(Resource::Post, Err(ServiceError::NotFound(Resource::Post))),
        Err((404, fail("Post not found")))
    );
}

#[test]
fn unusable_forms_are_answered_with_400() {
    let cases = [
        (PostFormFailure::UnreadableForm, "Failed to process form data"),
        (PostFormFailure::UnreadablePostData, "Failed to read post data"),
        (PostFormFailure::InvalidPostData, "Invalid post data format"),
        (PostFormFailure::MissingPostData, "Missing post data"),
    ];
    for (failure, message) in cases {
        assert_eq!(failure.reply(), (400, ErrorBody { error: message.to_string() }));
    }
}

#[test]
fn post_data_field_is_the_one_named_post_data() {
    assert!(is_post_data_field(Some("post_data")));
    assert!(!is_post_data_field(Some("file")));
    assert!(!is_post_data_field(Some("post_data ")));
    assert!(!is_post_data_field(None));
}

#[test]
fn failed_upload_is_answered_with_its_status_and_message() {
    assert_eq!(
        upload_failure_reply(UploadFailure::EmptyFile),
        (400, ErrorBody { error: "File is empty or invalid".to_string() })
    );
    assert_eq!(
        upload_failure_reply(UploadFailure::FileNotWritten),
        (500, ErrorBody { error: "Failed to write file".to_string() })
    );
}
