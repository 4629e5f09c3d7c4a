use vstd::prelude::*;

use crate::domain::request::{CreatePostRequest, UpdatePostRequest};
use crate::domain::response::{
    ApiResponse, ApiResponsePagination, PostRelationResponse, PostResponse,
};
use crate::entities::{spec_edited, spec_posted, Comment, Post};
use crate::error::{GatewayError, Resource, ServiceError};
use crate::gateway::{is_found, is_inserted, is_listed, is_removed, is_replaced};
use crate::pagination::{spec_page, spec_search, PageRequest};
use crate::record::{has_key, position_of, unique_keys};
use crate::relation::spec_relation;
use crate::service::answers::listed_view;
use crate::text::opt_string;

verus! {

/// What a gateway may answer when asked for the relation rows of the post
/// `post_id`: one row per comment of that post, in the order of the
/// comments; or a failure of the store, which a reliable store never is.
/// A post without comments and a post that is not there both give no row.
pub open spec fn is_related(
    posts: Seq<Post>,
    comments: Seq<Comment>,
    post_id: int,
    related: Result<Vec<PostRelationResponse>, GatewayError>,
    reliable: bool,
) -> bool {
    match related {
        Ok(rows) => rows@ == spec_relation(posts, comments, post_id),
        Err(e) => e is Backend && !reliable,
    }
}

/// The persistence gateway of posts. It reads the comments that refer to a
/// post, and changes none. Every method is one call on the store, and
/// `calls` counts them.
pub trait PostsRepositoryTrait {
    /// The posts that the store holds, in its order.
    spec fn rows(&self) -> Seq<Post>;

    /// The comments that the store holds, in its order.
    spec fn comments(&self) -> Seq<Comment>;

    /// The number of calls made so far.
    spec fn calls(&self) -> nat;

    /// Whether the store answers every lookup, listing, change and removal:
    /// a reliable store fails none of them for reasons of its own.
    spec fn reliable(&self) -> bool;

    /// Whether the store takes one more row: a reliable store with room
    /// fails no insertion either.
    spec fn has_room(&self) -> bool;

    /// What the gateway keeps between calls.
    spec fn inv(&self) -> bool;

    /// A gateway in order holds no two posts with the same id.
    proof fn lemma_unique(&self)
        requires
            self.inv(),
        ensures
            unique_keys(self.rows()),
    ;

    fn get_all_posts(&mut self, page: i32, page_size: i32, search: Option<String>) -> (listed:
        Result<(Vec<Post>, i64), GatewayError>)
        requires
            old(self).inv(),
            page >= 1,
            page_size >= 1,
        ensures
            final(self).inv(),
            final(self).rows() == old(self).rows(),
            final(self).comments() == old(self).comments(),
            final(self).calls() == old(self).calls() + 1,
            final(self).reliable() == old(self).reliable(),
            final(self).has_room() == old(self).has_room(),
            is_listed(
                old(self).rows(),
                opt_string(search),
                page as int,
                page_size as int,
                listed_view(listed),
                old(self).reliable(),
            ),
    ;

    fn get_post(&mut self, post_id: i32) -> (found: Result<Option<Post>, GatewayError>)
        requires
            old(self).inv(),
        ensures
            final(self).inv(),
            final(self).rows() == old(self).rows(),
            final(self).comments() == old(self).comments(),
            final(self).calls() == old(self).calls() + 1,
            final(self).reliable() == old(self).reliable(),
            final(self).has_room() == old(self).has_room(),
            is_found(old(self).rows(), post_id as int, found, old(self).reliable()),
    ;

    fn get_post_relation(&mut self, post_id: i32) -> (related: Result<
        Vec<PostRelationResponse>,
        GatewayError,
    >)
        requires
            old(self).inv(),
        ensures
            final(self).inv(),
            final(self).rows() == old(self).rows(),
            final(self).comments() == old(self).comments(),
            final(self).calls() == old(self).calls() + 1,
            final(self).reliable() == old(self).reliable(),
            final(self).has_room() == old(self).has_room(),
            is_related(
                old(self).rows(),
                old(self).comments(),
                post_id as int,
                related,
                old(self).reliable(),
            ),
    ;

    fn create_post(&mut self, input: &CreatePostRequest) -> (made: Result<Post, GatewayError>)
        requires
            old(self).inv(),
        ensures
            final(self).inv(),
            final(self).comments() == old(self).comments(),
            final(self).calls() == old(self).calls() + 1,
            final(self).reliable() == old(self).reliable(),
            is_inserted(old(self).rows(), final(self).rows(), made),
            made matches Ok(row) ==> row == spec_posted(row.id, *input),
            old(self).reliable() && old(self).has_room() ==> made is Ok,
    ;

    fn update_post(&mut self, input: &UpdatePostRequest) -> (replaced: Result<Post, GatewayError>)
        requires
            old(self).inv(),
        ensures
            final(self).inv(),
            final(self).comments() == old(self).comments(),
            final(self).calls() == old(self).calls() + 1,
            final(self).reliable() == old(self).reliable(),
            final(self).has_room() == old(self).has_room(),
            is_replaced(
                old(self).rows(),
                final(self).rows(),
                input.post_id,
                |row: Post| spec_edited(row, *input),
                replaced,
                old(self).reliable(),
            ),
    ;

    fn delete_post(&mut self, post_id: i32) -> (removed: Result<(), GatewayError>)
        requires
            old(self).inv(),
        ensures
            final(self).inv(),
            final(self).comments() == old(self).comments(),
            final(self).calls() == old(self).calls() + 1,
            final(self).reliable() == old(self).reliable(),
            final(self).has_room() == old(self).has_room(),
            is_removed(
                old(self).rows(),
                final(self).rows(),
                post_id as int,
                removed,
                old(self).reliable(),
            ),
    ;
}

/// The posts as clients see them, in the same order.
pub open spec fn shown_posts(rows: Seq<Post>) -> Seq<PostResponse> {
    rows.map_values(|row: Post| PostResponse::spec_from(row))
}

/// What the service may answer a listing of `rows` with: the page that was
/// asked for, among the posts that the search keeps, and the number of all
/// that it keeps; or `PersistenceError`, which a reliable store never
/// causes.
pub open spec fn is_posts_page_answer(
    rows: Seq<Post>,
    request: PageRequest,
    answer: Result<ApiResponsePagination<Vec<PostResponse>>, ServiceError>,
    reliable: bool,
) -> bool {
    match answer {
        Ok(page) => {
            let kept = spec_search(rows, opt_string(request.search));
            &&& page.data@ == shown_posts(
                spec_page(kept, request.page as int, request.page_size as int),
            )
            &&& page.total == kept.len()
            &&& page.page == request.page
            &&& page.page_size == request.page_size
        },
        Err(e) => e is PersistenceError && !reliable,
    }
}

/// What the service may answer a lookup of `id` with: the post with that
/// id, or `None` where there is none; or `PersistenceError`, which a
/// reliable store never causes.
pub open spec fn is_post_lookup_answer(
    rows: Seq<Post>,
    id: int,
    answer: Result<Option<ApiResponse<PostResponse>>, ServiceError>,
    reliable: bool,
) -> bool {
    match answer {
        Ok(Some(found)) => has_key(rows, id) && found.data == PostResponse::spec_from(
            rows[position_of(rows, id)],
        ),
        Ok(None) => !has_key(rows, id),
        Err(e) => e is PersistenceError && !reliable,
    }
}

/// What the service may answer when asked for the relation rows of the
/// post `post_id`: one row per comment of that post; or
/// `PersistenceError`, which a reliable store never causes.
pub open spec fn is_relation_answer(
    posts: Seq<Post>,
    comments: Seq<Comment>,
    post_id: int,
    answer: Result<ApiResponse<Vec<PostRelationResponse>>, ServiceError>,
    reliable: bool,
) -> bool {
    match answer {
        Ok(rows) => rows.data@ == spec_relation(posts, comments, post_id),
        Err(e) => e is PersistenceError && !reliable,
    }
}

/// What the service may answer a creation with, and what it leaves of the
/// posts `before`: the new post, kept at the end under an id that none had;
/// or `PersistenceError`, and nothing changes.
pub open spec fn is_post_creation_answer(
    before: Seq<Post>,
    after: Seq<Post>,
    input: CreatePostRequest,
    answer: Result<ApiResponse<PostResponse>, ServiceError>,
) -> bool {
    match answer {
        Ok(made) => {
            &&& made.data == PostResponse::spec_from(spec_posted(made.data.id, input))
            &&& !has_key(before, made.data.id as int)
            &&& after == before.push(spec_posted(made.data.id, input))
        },
        Err(e) => e is PersistenceError && after == before,
    }
}

/// What the service may answer a change with, and what it leaves of the
/// posts `before`. A change without an id is `ValidationFailed`. A change
/// of a post that is there answers with the changed post and puts it in
/// the place of the old one. Otherwise nothing changes: `NotFound` says
/// that no post has that id, and `PersistenceError` is never caused by a
/// reliable store.
pub open spec fn is_post_change_answer(
    before: Seq<Post>,
    after: Seq<Post>,
    input: UpdatePostRequest,
    answer: Result<ApiResponse<PostResponse>, ServiceError>,
    reliable: bool,
) -> bool {
    match input.post_id {
        None => {
            &&& after == before
            &&& answer matches Err(ServiceError::ValidationFailed(text))
            &&& text@ == Resource::Post.spec_id_required_message()
        },
        Some(id) => match answer {
            Ok(changed) => {
                let at = position_of(before, id as int);
                &&& has_key(before, id as int)
                &&& changed.data == PostResponse::spec_from(spec_edited(before[at], input))
                &&& after == before.update(at, spec_edited(before[at], input))
            },
            Err(e) => after == before && match e {
                ServiceError::NotFound(resource) => resource == Resource::Post && !has_key(
                    before,
                    id as int,
                ),
                ServiceError::PersistenceError(_) => !reliable,
                _ => false,
            },
        },
    }
}

/// What the service may answer a removal with, and what it leaves of the
/// posts `before`: on success the post with that id is gone. Otherwise
/// nothing changes: `NotFound` says that no post has that id, and
/// `PersistenceError` is never caused by a reliable store.
pub open spec fn is_post_removal_answer(
    before: Seq<Post>,
    after: Seq<Post>,
    id: int,
    answer: Result<ApiResponse<()>, ServiceError>,
    reliable: bool,
) -> bool {
    match answer {
        Ok(_) => has_key(before, id) && after == before.remove(position_of(before, id)),
        Err(e) => after == before && match e {
            ServiceError::NotFound(resource) => resource == Resource::Post && !has_key(before, id),
            ServiceError::PersistenceError(_) => !reliable,
            _ => false,
        },
    }
}

/// The service of posts. Each operation makes one call on the store,
/// but for a change that names no post, which makes none.
pub trait PostsServiceTrait {
    /// The posts that the store behind the service holds.
    spec fn posts(&self) -> Seq<Post>;

    /// The comments that the store behind the service holds.
    spec fn comments(&self) -> Seq<Comment>;

    /// The number of calls made on the store so far.
    spec fn calls(&self) -> nat;

    /// Whether the store behind the service is reliable.
    spec fn reliable(&self) -> bool;

    /// Whether the store behind the service takes one more row.
    spec fn has_room(&self) -> bool;

    /// What the service keeps between calls.
    spec fn inv(&self) -> bool;

    fn get_all_posts(&mut self, req: PageRequest) -> (answer: Result<
        ApiResponsePagination<Vec<PostResponse>>,
        ServiceError,
    >)
        requires
            old(self).inv(),
            req.wf(),
        ensures
            final(self).inv(),
            final(self).posts() == old(self).posts(),
            final(self).comments() == old(self).comments(),
            final(self).calls() == old(self).calls() + 1,
            final(self).reliable() == old(self).reliable(),
            final(self).has_room() == old(self).has_room(),
            is_posts_page_answer(old(self).posts(), req, answer, old(self).reliable()),
    ;

    fn get_post(&mut self, post_id: i32) -> (answer: Result<
        Option<ApiResponse<PostResponse>>,
        ServiceError,
    >)
        requires
            old(self).inv(),
        ensures
            final(self).inv(),
            final(self).posts() == old(self).posts(),
            final(self).comments() == old(self).comments(),
            final(self).calls() == old(self).calls() + 1,
            final(self).reliable() == old(self).reliable(),
            final(self).has_room() == old(self).has_room(),
            is_post_lookup_answer(old(self).posts(), post_id as int, answer, old(self).reliable()),
    ;

    fn get_post_relation(&mut self, post_id: i32) -> (answer: Result<
        ApiResponse<Vec<PostRelationResponse>>,
        ServiceError,
    >)
        requires
            old(self).inv(),
        ensures
            final(self).inv(),
            final(self).posts() == old(self).posts(),
            final(self).comments() == old(self).comments(),
            final(self).calls() == old(self).calls() + 1,
            final(self).reliable() == old(self).reliable(),
            final(self).has_room() == old(self).has_room(),
            is_relation_answer(
                old(self).posts(),
                old(self).comments(),
                post_id as int,
                answer,
                old(self).reliable(),
            ),
    ;

    fn create_post(&mut self, input: &CreatePostRequest) -> (answer: Result<
        ApiResponse<PostResponse>,
        ServiceError,
    >)
        requires
            old(self).inv(),
        ensures
            final(self).inv(),
            final(self).comments() == old(self).comments(),
            final(self).calls() == old(self).calls() + 1,
            final(self).reliable() == old(self).reliable(),
            is_post_creation_answer(old(self).posts(), final(self).posts(), *input, answer),
            old(self).reliable() && old(self).has_room() ==> answer is Ok,
    ;

    fn update_post(&mut self, input: &UpdatePostRequest) -> (answer: Result<
        ApiResponse<PostResponse>,
        ServiceError,
    >)
        requires
            old(self).inv(),
        ensures
            final(self).inv(),
            final(self).comments() == old(self).comments(),
            final(self).calls() == old(self).calls() + (if input.post_id is Some {
                1nat
            } else {
                0nat
            }),
            final(self).reliable() == old(self).reliable(),
            final(self).has_room() == old(self).has_room(),
            is_post_change_answer(
                old(self).posts(),
                final(self).posts(),
                *input,
                answer,
                old(self).reliable(),
            ),
    ;

    fn delete_post(&mut self, post_id: i32) -> (answer: Result<ApiResponse<()>, ServiceError>)
        requires
            old(self).inv(),
        ensures
            final(self).inv(),
            final(self).comments() == old(self).comments(),
            final(self).calls() == old(self).calls() + 1,
            final(self).reliable() == old(self).reliable(),
            final(self).has_room() == old(self).has_room(),
            is_post_removal_answer(
                old(self).posts(),
                final(self).posts(),
                post_id as int,
                answer,
                old(self).reliable(),
            ),
    ;
}

/// A change that names no post fails validation, and the posts stay as
/// they were.
pub proof fn lemma_post_change_without_id(
    before: Seq<Post>,
    after: Seq<Post>,
    input: UpdatePostRequest,
    answer: Result<ApiResponse<PostResponse>, ServiceError>,
    reliable: bool,
)
    requires
        input.post_id is None,
        is_post_change_answer(before, after, input, answer, reliable),
    ensures
        answer matches Err(ServiceError::ValidationFailed(_)),
        after == before,
{
}

/// A lookup of a post that is not there answers `None`. Only a store that
/// is not reliable can make it fail, and then with `PersistenceError`.
pub proof fn lemma_post_lookup_of_missing(
    rows: Seq<Post>,
    id: int,
    answer: Result<Option<ApiResponse<PostResponse>>, ServiceError>,
    reliable: bool,
)
    requires
        !has_key(rows, id),
        is_post_lookup_answer(rows, id, answer, reliable),
    ensures
        answer matches Ok(found) ==> found is None,
        answer matches Err(e) ==> e is PersistenceError && !reliable,
        reliable ==> answer matches Ok(None),
{
}

/// A change of a post that is not there fails and adds no row. Over a
/// reliable store it fails with `NotFound`, never with `PersistenceError`.
pub proof fn lemma_post_change_of_missing(
    before: Seq<Post>,
    after: Seq<Post>,
    input: UpdatePostRequest,
    answer: Result<ApiResponse<PostResponse>, ServiceError>,
    reliable: bool,
)
    requires
        input.post_id matches Some(id) && !has_key(before, id as int),
        is_post_change_answer(before, after, input, answer, reliable),
    ensures
        answer is Err,
        after == before,
        reliable ==> answer == Err::<ApiResponse<PostResponse>, ServiceError>(
            ServiceError::NotFound(Resource::Post),
        ),
{
}

/// The removal of a post that is not there fails and changes nothing. Over
/// a reliable store it fails with `NotFound`, never with
/// `PersistenceError`.
pub proof fn lemma_post_removal_of_missing(
    before: Seq<Post>,
    after: Seq<Post>,
    id: int,
    answer: Result<ApiResponse<()>, ServiceError>,
    reliable: bool,
)
    requires
        !has_key(before, id),
        is_post_removal_answer(before, after, id, answer, reliable),
    ensures
        answer is Err,
        after == before,
        reliable ==> answer == Err::<ApiResponse<()>, ServiceError>(
            ServiceError::NotFound(Resource::Post),
        ),
{
}

/// The relation rows that the service answers with, for a post with N
/// comments, are N: the row at each index pairs the post with its comment
/// at that index.
pub proof fn lemma_relation_answer_of_post(
    posts: Seq<Post>,
    comments: Seq<Comment>,
    at: int,
    answer: Result<ApiResponse<Vec<PostRelationResponse>>, ServiceError>,
    reliable: bool,
)
    requires
        unique_keys(posts),
        0 <= at < posts.len(),
        is_relation_answer(posts, comments, posts[at].id as int, answer, reliable),
    ensures
        answer matches Ok(rows) ==> rows.data@ == crate::relation::rows_of(
            posts[at],
            crate::relation::comments_of(comments, posts[at].id as int),
        ),
        answer matches Ok(rows) ==> rows.data@.len() == crate::relation::comments_of(
            comments,
            posts[at].id as int,
        ).len(),
        answer matches Err(e) ==> e is PersistenceError && !reliable,
{
    crate::relation::lemma_relation_of_post(posts, comments, at);
}

/// The service answers with no relation row for a post without comments
/// and for a post that is not there alike, and with no failure for either.
pub proof fn lemma_relation_answer_without_rows(
    posts: Seq<Post>,
    comments: Seq<Comment>,
    post_id: int,
    answer: Result<ApiResponse<Vec<PostRelationResponse>>, ServiceError>,
    reliable: bool,
)
    requires
        unique_keys(posts),
        !has_key(posts, post_id) || crate::relation::comments_of(comments, post_id).len() == 0,
        is_relation_answer(posts, comments, post_id, answer, reliable),
    ensures
        answer matches Ok(rows) ==> rows.data@.len() == 0,
        answer matches Err(e) ==> e is PersistenceError && !reliable,
{
    if has_key(posts, post_id) {
        crate::relation::lemma_relation_without_comments(posts, comments, post_id);
    } else {
        crate::relation::lemma_relation_of_missing_post(posts, comments, post_id);
    }
}

} // verus!
