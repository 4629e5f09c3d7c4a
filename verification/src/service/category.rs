//! The service of categories: the operations that ask the gateway and
//! answer the client.

use vstd::prelude::*;

use crate::abstract_trait::category::{shown, CategoryRepositoryTrait, CategoryServiceTrait};
use crate::domain::request::{CreateCategoryRequest, UpdateCategoryRequest};
use crate::domain::response::{ApiResponse, ApiResponsePagination, CategoryResponse};
use crate::entities::Category;
use crate::error::{Resource, ServiceError};
use crate::pagination::PageRequest;
use crate::service::answers::{
    change_answer, lookup_answer, page_answer, passed_on, row_answer, shown_rows,
};

verus! {

/// Whether a change may be handed to the gateway: it must name the category
/// that it is for.
pub fn check_change(input: &UpdateCategoryRequest) -> (checked: Result<i32, ServiceError>)
    ensures
        match input.id {
            Some(id) => checked == Ok::<i32, ServiceError>(id),
            None => checked matches Err(ServiceError::ValidationFailed(text)) && text@
                == Resource::Category.spec_id_required_message(),
        },
{
    ServiceError::require_id(Resource::Category, input.id)
}

/// The service of categories over a gateway.
pub struct CategoryService<R: CategoryRepositoryTrait> {
    repository: R,
}

impl<R: CategoryRepositoryTrait> CategoryService<R> {
    /// The gateway that the service asks.
    pub closed spec fn gateway(&self) -> R {
        self.repository
    }

    pub fn new(repository: R) -> (service: Self)
        requires
            repository.inv(),
        ensures
            service.inv(),
            service.gateway() == repository,
    {
        CategoryService { repository }
    }

    /// The gateway that the service asks.
    pub fn repository(&self) -> (repository: &R)
        ensures
            *repository == self.gateway(),
    {
        &self.repository
    }
}

impl<R: CategoryRepositoryTrait> CategoryServiceTrait for CategoryService<R> {
    open spec fn categories(&self) -> Seq<Category> {
        self.gateway().rows()
    }

    open spec fn calls(&self) -> nat {
        self.gateway().calls()
    }

    open spec fn reliable(&self) -> bool {
        self.gateway().reliable()
    }

    open spec fn has_room(&self) -> bool {
        self.gateway().has_room()
    }

    open spec fn inv(&self) -> bool {
        self.gateway().inv()
    }

    fn get_categories(&mut self, req: PageRequest) -> (answer: Result<
        ApiResponsePagination<Vec<CategoryResponse>>,
        ServiceError,
    >) {
        let listed = self.repository.find_all(req.page, req.page_size, req.search.clone());
        proof {
            let found = crate::service::answers::listed_view(listed);
            if found is Ok {
                assert(shown_rows::<Category, CategoryResponse>(found->Ok_0.0) =~= shown(found->Ok_0.0));
            }
        }
        page_answer(Resource::Category, &req, listed)
    }

    fn get_category(&mut self, id: i32) -> (answer: Result<
        Option<ApiResponse<CategoryResponse>>,
        ServiceError,
    >) {
        let found = self.repository.find_by_id(id);
        lookup_answer(Resource::Category, found)
    }

    fn create_category(&mut self, input: &CreateCategoryRequest) -> (answer: Result<
        ApiResponse<CategoryResponse>,
        ServiceError,
    >) {
        let made = self.repository.create(input);
        row_answer(Resource::Category, made)
    }

    fn update_category(&mut self, input: &UpdateCategoryRequest) -> (answer: Result<
        Option<ApiResponse<CategoryResponse>>,
        ServiceError,
    >) {
        match check_change(input) {
            Ok(_) => {
                let replaced = self.repository.update(input);
                change_answer(Resource::Category, replaced)
            },
            Err(e) => Err(e),
        }
    }

    fn delete_category(&mut self, id: i32) -> (answer: Result<ApiResponse<()>, ServiceError>) {
        let removed = self.repository.delete(id);
        passed_on(Resource::Category, removed)
    }
}

} // verus!
