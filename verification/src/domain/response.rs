//! What a client gets back.

use vstd::prelude::*;
use vstd::std_specs::convert::FromSpecImpl;

use crate::entities::{Category, Comment, Post, User};

verus! {

/// The envelope of a successful answer.
#[derive(Debug)]
pub struct ApiResponse<T> {
    pub data: T,
}

/// The envelope of one page of a listing. `total` counts every row that
/// matches the search, whichever page is shown.
#[derive(Debug)]
pub struct ApiResponsePagination<T> {
    pub data: T,
    pub total: i64,
    pub page: i32,
    pub page_size: i32,
}

/// The envelope of a failure. `status` is `fail` where the request was at
/// fault and `error` where the backend was.
#[derive(Debug, PartialEq, Eq)]
pub struct ErrorResponse {
    pub status: String,
    pub message: String,
}

#[derive(Debug, PartialEq, Eq)]
pub struct CategoryResponse {
    pub id: i32,
    pub name: String,
}

#[derive(Debug, PartialEq, Eq)]
pub struct PostResponse {
    pub id: i32,
    pub title: String,
    pub body: String,
    pub slug: String,
    pub img: String,
    pub category_id: i32,
    pub user_id: i32,
    pub user_name: String,
}

/// One comment of a post, with the post's id and title beside it.
#[derive(Debug, PartialEq, Eq)]
pub struct PostRelationResponse {
    pub post_id: i32,
    pub title: String,
    pub comment_id: i32,
    pub id_post_comment: i32,
    pub user_name_comment: String,
    pub comment: String,
}

#[derive(Debug, PartialEq, Eq)]
pub struct CommentResponse {
    pub id: i32,
    pub id_post_comment: i32,
    pub user_name_comment: String,
    pub comment: String,
}

/// A user as shown to clients: without the password hash.
#[derive(Debug, PartialEq, Eq)]
pub struct UserResponse {
    pub id: i32,
    pub firstname: String,
    pub lastname: String,
    pub email: String,
}

/// The body that an upload is answered with.
#[derive(Debug, PartialEq, Eq)]
pub struct UploadResponse {
    pub message: String,
    pub file_name: String,
    pub file_path: String,
}

/// The body that the removal of a file is answered with.
#[derive(Debug, PartialEq, Eq)]
pub struct DeleteResponse {
    pub message: String,
}

impl From<Category> for CategoryResponse {
    fn from(category: Category) -> (shown: Self) {
        CategoryResponse { id: category.id, name: category.name }
    }
}

impl FromSpecImpl<Category> for CategoryResponse {
    open spec fn obeys_from_spec() -> bool {
        true
    }

    open spec fn from_spec(category: Category) -> Self {
        CategoryResponse::spec_from(category)
    }
}

impl CategoryResponse {
    /// The category as clients see it.
    pub open spec fn spec_from(category: Category) -> Self {
        CategoryResponse { id: category.id, name: category.name }
    }
}

impl From<Post> for PostResponse {
    fn from(post: Post) -> (shown: Self) {
        PostResponse {
            id: post.id,
            title: post.title,
            body: post.body,
            slug: post.slug,
            img: post.img,
            category_id: post.category_id,
            user_id: post.user_id,
            user_name: post.user_name,
        }
    }
}

impl FromSpecImpl<Post> for PostResponse {
    open spec fn obeys_from_spec() -> bool {
        true
    }

    open spec fn from_spec(post: Post) -> Self {
        PostResponse::spec_from(post)
    }
}

impl PostResponse {
    /// The post as clients see it.
    pub open spec fn spec_from(post: Post) -> Self {
        PostResponse {
            id: post.id,
            title: post.title,
            body: post.body,
            slug: post.slug,
            img: post.img,
            category_id: post.category_id,
            user_id: post.user_id,
            user_name: post.user_name,
        }
    }
}

impl From<Comment> for CommentResponse {
    fn from(comment: Comment) -> (shown: Self) {
        CommentResponse {
            id: comment.id,
            id_post_comment: comment.id_post_comment,
            user_name_comment: comment.user_name_comment,
            comment: comment.comment,
        }
    }
}

impl FromSpecImpl<Comment> for CommentResponse {
    open spec fn obeys_from_spec() -> bool {
        true
    }

    open spec fn from_spec(comment: Comment) -> Self {
        CommentResponse::spec_from(comment)
    }
}

impl CommentResponse {
    /// The comment as clients see it.
    pub open spec fn spec_from(comment: Comment) -> Self {
        CommentResponse {
            id: comment.id,
            id_post_comment: comment.id_post_comment,
            user_name_comment: comment.user_name_comment,
            comment: comment.comment,
        }
    }
}

impl From<User> for UserResponse {
    fn from(user: User) -> (shown: Self) {
        UserResponse {
            id: user.id,
            firstname: user.firstname,
            lastname: user.lastname,
            email: user.email,
        }
    }
}

impl FromSpecImpl<User> for UserResponse {
    open spec fn obeys_from_spec() -> bool {
        true
    }

    open spec fn from_spec(user: User) -> Self {
        UserResponse::spec_from(user)
    }
}

impl UserResponse {
    /// The user as clients see it: everything but the password hash.
    pub open spec fn spec_from(user: User) -> Self {
        UserResponse {
            id: user.id,
            firstname: user.firstname,
            lastname: user.lastname,
            email: user.email,
        }
    }
}

impl PostRelationResponse {
    /// The row that pairs `post` with `comment`.
    pub open spec fn spec_from_post_and_comment(post: Post, comment: Comment) -> Self {
        PostRelationResponse {
            post_id: post.id,
            title: post.title,
            comment_id: comment.id,
            id_post_comment: comment.id_post_comment,
            user_name_comment: comment.user_name_comment,
            comment: comment.comment,
        }
    }

    /// Pairs a post with one of its comments.
    pub fn from_post_and_comment(post: &Post, comment: &Comment) -> (row: Self)
        ensures
            row == Self::spec_from_post_and_comment(*post, *comment),
    {
        PostRelationResponse {
            post_id: post.id,
            title: post.title.clone(),
            comment_id: comment.id,
            id_post_comment: comment.id_post_comment,
            user_name_comment: comment.user_name_comment.clone(),
            comment: comment.comment.clone(),
        }
    }
}

} // verus!
