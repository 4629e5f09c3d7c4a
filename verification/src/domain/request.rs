//! What a client sends.

use vstd::prelude::*;

verus! {

#[derive(Debug, Clone, PartialEq)]
pub struct RegisterRequest {
    pub firstname: String,
    pub lastname: String,
    pub email: String,
    pub password: String,
}

#[derive(Debug, Clone, PartialEq)]
pub struct LoginRequest {
    pub email: String,
    pub password: String,
}

#[derive(Clone, Debug)]
pub struct CreateCategoryRequest {
    pub name: String,
}

/// A change to a category. `id` names the category; the path of the request
/// supplies it. A `name` of `None` leaves the name as it is.
#[derive(Clone, Debug)]
pub struct UpdateCategoryRequest {
    pub id: Option<i32>,
    pub name: Option<String>,
}

#[derive(Debug)]
pub struct CreatePostRequest {
    pub title: String,
    pub body: String,
    pub img: String,
    pub category_id: i32,
    pub user_id: i32,
    pub user_name: String,
}

/// A change to a post. `post_id` names the post; the path of the request
/// supplies it.
#[derive(Debug)]
pub struct UpdatePostRequest {
    pub post_id: Option<i32>,
    pub title: String,
    pub body: String,
    pub img: String,
    pub category_id: i32,
    pub user_id: i32,
    pub user_name: String,
}

#[derive(Debug, Clone, PartialEq)]
pub struct CreateCommentRequest {
    pub id_post_comment: i32,
    pub user_name_comment: String,
    pub comment: String,
}

/// A change to a comment. `id_comment` names the comment.
#[derive(Debug, Clone, PartialEq)]
pub struct UpdateCommentRequest {
    pub id_comment: Option<i32>,
    pub user_name_comment: String,
    pub comment: String,
}

#[derive(Debug, Clone, PartialEq)]
pub struct CreateUserRequest {
    pub firstname: String,
    pub lastname: String,
    pub email: String,
    pub password: String,
}

/// A change to a user. A field of `None` is left as it is.
#[derive(Debug, Clone, PartialEq)]
pub struct UpdateUserRequest {
    pub id: Option<i32>,
    pub firstname: Option<String>,
    pub lastname: Option<String>,
    pub email: Option<String>,
    pub password: Option<String>,
}

impl UpdateCategoryRequest {
    /// The same change, aimed at the category `id`.
    pub fn for_id(self, id: i32) -> (aimed: Self)
        ensures
            aimed.id == Some(id),
            aimed.name == self.name,
    {
        UpdateCategoryRequest { id: Some(id), name: self.name }
    }
}

impl UpdateUserRequest {
    /// The same change, aimed at the user `id`.
    pub fn for_id(self, id: i32) -> (aimed: Self)
        ensures
            aimed == (UpdateUserRequest { id: Some(id), ..self }),
    {
        UpdateUserRequest { id: Some(id), ..self }
    }
}

impl CreatePostRequest {
    /// The same post, showing the stored image `file_name`.
    pub fn with_image(self, file_name: String) -> (shown: Self)
        ensures
            shown == (CreatePostRequest { img: file_name, ..self }),
    {
        CreatePostRequest { img: file_name, ..self }
    }
}

impl UpdatePostRequest {
    /// The same change, aimed at the post `post_id`.
    pub fn for_post(self, post_id: i32) -> (aimed: Self)
        ensures
            aimed == (UpdatePostRequest { post_id: Some(post_id), ..self }),
    {
        UpdatePostRequest { post_id: Some(post_id), ..self }
    }

    /// The same change, showing the stored image `file_name`.
    pub fn with_image(self, file_name: String) -> (shown: Self)
        ensures
            shown == (UpdatePostRequest { img: file_name, ..self }),
    {
        UpdatePostRequest { img: file_name, ..self }
    }
}

} // verus!
