//! The service of posts: the operations that ask the gateway and answer
//! the client.

use vstd::prelude::*;

use crate::abstract_trait::post::{shown_posts, PostsRepositoryTrait, PostsServiceTrait};
use crate::domain::request::{CreatePostRequest, UpdatePostRequest};
use crate::domain::response::{
    ApiResponse, ApiResponsePagination, PostRelationResponse, PostResponse,
};
use crate::entities::{Comment, Post};
use crate::error::{Resource, ServiceError};
use crate::pagination::PageRequest;
use crate::service::answers::{lookup_answer, page_answer, passed_on, row_answer, shown_rows};

verus! {

/// Whether a change may be handed to the gateway: it must name the post
/// that it is for.
pub fn check_change(input: &UpdatePostRequest) -> (checked: Result<i32, ServiceError>)
    ensures
        match input.post_id {
            Some(id) => checked == Ok::<i32, ServiceError>(id),
            None => checked matches Err(ServiceError::ValidationFailed(text)) && text@
                == Resource::Post.spec_id_required_message(),
        },
{
    ServiceError::require_id(Resource::Post, input.post_id)
}

/// The service of posts over a gateway.
pub struct PostService<R: PostsRepositoryTrait> {
    repository: R,
}

impl<R: PostsRepositoryTrait> PostService<R> {
    /// The gateway that the service asks.
    pub closed spec fn gateway(&self) -> R {
        self.repository
    }

    pub fn new(repository: R) -> (service: Self)
        requires
            repository.inv(),
        ensures
            service.inv(),
            service.gateway() == repository,
    {
        PostService { repository }
    }

    /// The gateway that the service asks.
    pub fn repository(&self) -> (repository: &R)
        ensures
            *repository == self.gateway(),
    {
        &self.repository
    }
}

impl<R: PostsRepositoryTrait> PostsServiceTrait for PostService<R> {
    open spec fn posts(&self) -> Seq<Post> {
        self.gateway().rows()
    }

    open spec fn comments(&self) -> Seq<Comment> {
        self.gateway().comments()
    }

    open spec fn calls(&self) -> nat {
        self.gateway().calls()
    }

    open spec fn reliable(&self) -> bool {
        self.gateway().reliable()
    }

    open spec fn has_room(&self) -> bool {
        self.gateway().has_room()
    }

    open spec fn inv(&self) -> bool {
        self.gateway().inv()
    }

    fn get_all_posts(&mut self, req: PageRequest) -> (answer: Result<
        ApiResponsePagination<Vec<PostResponse>>,
        ServiceError,
    >) {
        let listed = self.repository.get_all_posts(req.page, req.page_size, req.search.clone());
        proof {
            let found = crate::service::answers::listed_view(listed);
            if found is Ok {
                assert(shown_rows::<Post, PostResponse>(found->Ok_0.0) =~= shown_posts(found->Ok_0.0));
            }
        }
        page_answer(Resource::Post, &req, listed)
    }

    fn get_post(&mut self, post_id: i32) -> (answer: Result<
        Option<ApiResponse<PostResponse>>,
        ServiceError,
    >) {
        let found = self.repository.get_post(post_id);
        lookup_answer(Resource::Post, found)
    }

    fn get_post_relation(&mut self, post_id: i32) -> (answer: Result<
        ApiResponse<Vec<PostRelationResponse>>,
        ServiceError,
    >) {
        let related = self.repository.get_post_relation(post_id);
        passed_on(Resource::Post, related)
    }

    fn create_post(&mut self, input: &CreatePostRequest) -> (answer: Result<
        ApiResponse<PostResponse>,
        ServiceError,
    >) {
        let made = self.repository.create_post(input);
        row_answer(Resource::Post, made)
    }

    fn update_post(&mut self, input: &UpdatePostRequest) -> (answer: Result<
        ApiResponse<PostResponse>,
        ServiceError,
    >) {
        match check_change(input) {
            Ok(_) => {
                let replaced = self.repository.update_post(input);
                row_answer(Resource::Post, replaced)
            },
            Err(e) => Err(e),
        }
    }

    fn delete_post(&mut self, post_id: i32) -> (answer: Result<ApiResponse<()>, ServiceError>) {
        let removed = self.repository.delete_post(post_id);
        passed_on(Resource::Post, removed)
    }
}

} // verus!
