//! The rows that the gateways keep, one type per resource, and what a
//! request makes of a row: the row that a creation keeps under a new id,
//! and the row that a change puts in the place of the old one.

use vstd::prelude::*;

use crate::domain::request::{
    CreateCategoryRequest, CreateCommentRequest, CreatePostRequest, CreateUserRequest,
    UpdateCategoryRequest, UpdateCommentRequest, UpdatePostRequest, UpdateUserRequest,
};

verus! {

/// A category that posts are filed under.
#[derive(Debug, PartialEq, Eq)]
pub struct Category {
    pub id: i32,
    pub name: String,
}

/// A post. `category_id` and `user_id` name a category and a user; neither
/// is checked to exist.
#[derive(Debug, PartialEq, Eq)]
pub struct Post {
    pub id: i32,
    pub title: String,
    pub body: String,
    pub slug: String,
    pub img: String,
    pub category_id: i32,
    pub user_id: i32,
    pub user_name: String,
}

/// A comment on the post whose id is `id_post_comment`.
#[derive(Debug, PartialEq, Eq)]
pub struct Comment {
    pub id: i32,
    pub id_post_comment: i32,
    pub user_name_comment: String,
    pub comment: String,
}

/// A user. `password` holds the hash, never the password itself.
#[derive(Debug, PartialEq, Eq)]
pub struct User {
    pub id: i32,
    pub firstname: String,
    pub lastname: String,
    pub email: String,
    pub password: String,
}

impl Clone for Category {
    fn clone(&self) -> (copy: Self)
        ensures
            copy == *self,
    {
        Category { id: self.id, name: self.name.clone() }
    }
}

impl Clone for Post {
    fn clone(&self) -> (copy: Self)
        ensures
            copy == *self,
    {
        Post {
            id: self.id,
            title: self.title.clone(),
            body: self.body.clone(),
            slug: self.slug.clone(),
            img: self.img.clone(),
            category_id: self.category_id,
            user_id: self.user_id,
            user_name: self.user_name.clone(),
        }
    }
}

impl Clone for Comment {
    fn clone(&self) -> (copy: Self)
        ensures
            copy == *self,
    {
        Comment {
            id: self.id,
            id_post_comment: self.id_post_comment,
            user_name_comment: self.user_name_comment.clone(),
            comment: self.comment.clone(),
        }
    }
}

impl Clone for User {
    fn clone(&self) -> (copy: Self)
        ensures
            copy == *self,
    {
        User {
            id: self.id,
            firstname: self.firstname.clone(),
            lastname: self.lastname.clone(),
            email: self.email.clone(),
            password: self.password.clone(),
        }
    }
}

/// The text that a change leaves in a field: the new one where the change
/// gives one, else the old one.
pub open spec fn spec_or_kept(given: Option<String>, kept: String) -> String {
    match given {
        Some(text) => text,
        None => kept,
    }
}

/// The text that a change leaves in a field.
pub fn or_kept(given: &Option<String>, kept: String) -> (text: String)
    ensures
        text == spec_or_kept(*given, kept),
{
    match given {
        Some(text) => text.clone(),
        None => kept,
    }
}

/// The category that a request makes under the id `id`.
pub open spec fn spec_named(id: i32, input: CreateCategoryRequest) -> Category {
    Category { id, name: input.name }
}

/// The category that a change makes of `row`: the same id, and the new name
/// where the change gives one.
pub open spec fn spec_renamed(row: Category, input: UpdateCategoryRequest) -> Category {
    Category { id: row.id, name: spec_or_kept(input.name, row.name) }
}

/// The post that a request makes under the id `id`. Its slug is its title.
pub open spec fn spec_posted(id: i32, input: CreatePostRequest) -> Post {
    Post {
        id,
        title: input.title,
        body: input.body,
        slug: input.title,
        img: input.img,
        category_id: input.category_id,
        user_id: input.user_id,
        user_name: input.user_name,
    }
}

/// The post that a change makes of `row`: the same id and slug, everything
/// else as the change says.
pub open spec fn spec_edited(row: Post, input: UpdatePostRequest) -> Post {
    Post {
        id: row.id,
        title: input.title,
        body: input.body,
        slug: row.slug,
        img: input.img,
        category_id: input.category_id,
        user_id: input.user_id,
        user_name: input.user_name,
    }
}

/// The comment that a request makes under the id `id`.
pub open spec fn spec_remarked(id: i32, input: CreateCommentRequest) -> Comment {
    Comment {
        id,
        id_post_comment: input.id_post_comment,
        user_name_comment: input.user_name_comment,
        comment: input.comment,
    }
}

/// The comment that a change makes of `row`: the same id on the same post,
/// with the name and the text that the change gives.
pub open spec fn spec_reworded(row: Comment, input: UpdateCommentRequest) -> Comment {
    Comment {
        id: row.id,
        id_post_comment: row.id_post_comment,
        user_name_comment: input.user_name_comment,
        comment: input.comment,
    }
}

/// The user that a request makes under the id `id`. The password of the
/// request is kept as it comes: hashing it is the caller's part.
pub open spec fn spec_enrolled(id: i32, input: CreateUserRequest) -> User {
    User {
        id,
        firstname: input.firstname,
        lastname: input.lastname,
        email: input.email,
        password: input.password,
    }
}

/// The user that a change makes of `row`: the same id, and each field as
/// the change gives it, or as it was where the change gives none.
pub open spec fn spec_amended(row: User, input: UpdateUserRequest) -> User {
    User {
        id: row.id,
        firstname: spec_or_kept(input.firstname, row.firstname),
        lastname: spec_or_kept(input.lastname, row.lastname),
        email: spec_or_kept(input.email, row.email),
        password: spec_or_kept(input.password, row.password),
    }
}

impl Category {
    /// The category that a request makes under the id `id`.
    pub fn named(id: i32, input: &CreateCategoryRequest) -> (row: Category)
        ensures
            row == spec_named(id, *input),
    {
        Category { id, name: input.name.clone() }
    }

    /// The category that a change makes of this one.
    pub fn renamed(self, input: &UpdateCategoryRequest) -> (row: Category)
        ensures
            row == spec_renamed(self, *input),
    {
        Category { id: self.id, name: or_kept(&input.name, self.name) }
    }
}

impl Post {
    /// The post that a request makes under the id `id`.
    pub fn posted(id: i32, input: &CreatePostRequest) -> (row: Post)
        ensures
            row == spec_posted(id, *input),
    {
        Post {
            id,
            title: input.title.clone(),
            body: input.body.clone(),
            slug: input.title.clone(),
            img: input.img.clone(),
            category_id: input.category_id,
            user_id: input.user_id,
            user_name: input.user_name.clone(),
        }
    }

    /// The post that a change makes of this one.
    pub fn edited(self, input: &UpdatePostRequest) -> (row: Post)
        ensures
            row == spec_edited(self, *input),
    {
        Post {
            id: self.id,
            title: input.title.clone(),
            body: input.body.clone(),
            slug: self.slug,
            img: input.img.clone(),
            category_id: input.category_id,
            user_id: input.user_id,
            user_name: input.user_name.clone(),
        }
    }
}

impl Comment {
    /// The comment that a request makes under the id `id`.
    pub fn remarked(id: i32, input: &CreateCommentRequest) -> (row: Comment)
        ensures
            row == spec_remarked(id, *input),
    {
        Comment {
            id,
            id_post_comment: input.id_post_comment,
            user_name_comment: input.user_name_comment.clone(),
            comment: input.comment.clone(),
        }
    }

    /// The comment that a change makes of this one.
    pub fn reworded(self, input: &UpdateCommentRequest) -> (row: Comment)
        ensures
            row == spec_reworded(self, *input),
    {
        Comment {
            id: self.id,
            id_post_comment: self.id_post_comment,
            user_name_comment: input.user_name_comment.clone(),
            comment: input.comment.clone(),
        }
    }
}

impl User {
    /// The user that a request makes under the id `id`.
    pub fn enrolled(id: i32, input: &CreateUserRequest) -> (row: User)
        ensures
            row == spec_enrolled(id, *input),
    {
        User {
            id,
            firstname: input.firstname.clone(),
            lastname: input.lastname.clone(),
            email: input.email.clone(),
            password: input.password.clone(),
        }
    }

    /// The user that a change makes of this one.
    pub fn amended(self, input: &UpdateUserRequest) -> (row: User)
        ensures
            row == spec_amended(self, *input),
    {
        User {
            id: self.id,
            firstname: or_kept(&input.firstname, self.firstname),
            lastname: or_kept(&input.lastname, self.lastname),
            email: or_kept(&input.email, self.email),
            password: or_kept(&input.password, self.password),
        }
    }
}

} // verus!
