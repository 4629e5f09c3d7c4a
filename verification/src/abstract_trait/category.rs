use vstd::prelude::*;

use crate::domain::request::{CreateCategoryRequest, UpdateCategoryRequest};
use crate::domain::response::{ApiResponse, ApiResponsePagination, CategoryResponse};
use crate::entities::{spec_named, spec_renamed, Category};
use crate::error::{GatewayError, Resource, ServiceError};
use crate::gateway::{is_found, is_inserted, is_listed, is_removed, is_replaced};
use crate::service::answers::listed_view;
use crate::pagination::{spec_page, spec_search, PageRequest};
use crate::record::{has_key, position_of, unique_keys};
use crate::text::opt_string;

verus! {

/// The persistence gateway of categories. Every method is one call on
/// the store, and `calls` counts them.
pub trait CategoryRepositoryTrait {
    /// The categories that the store holds, in its order.
    spec fn rows(&self) -> Seq<Category>;

    /// The number of calls made so far.
    spec fn calls(&self) -> nat;

    /// Whether the store answers every lookup, listing, change and removal:
    /// a reliable store fails none of them for reasons of its own.
    spec fn reliable(&self) -> bool;

    /// Whether the store takes one more row: a reliable store with room
    /// fails no insertion either.
    spec fn has_room(&self) -> bool;

    /// What the gateway keeps between calls.
    spec fn inv(&self) -> bool;

    /// A gateway in order holds no two categories with the same id.
    proof fn lemma_unique(&self)
        requires
            self.inv(),
        ensures
            unique_keys(self.rows()),
    ;

    fn find_all(&mut self, page: i32, page_size: i32, search: Option<String>) -> (listed: Result<
        (Vec<Category>, i64),
        GatewayError,
    >)
        requires
            old(self).inv(),
            page >= 1,
            page_size >= 1,
        ensures
            final(self).inv(),
            final(self).rows() == old(self).rows(),
            final(self).calls() == old(self).calls() + 1,
            final(self).reliable() == old(self).reliable(),
            final(self).has_room() == old(self).has_room(),
            is_listed(
                old(self).rows(),
                opt_string(search),
                page as int,
                page_size as int,
                listed_view(listed),
                old(self).reliable(),
            ),
    ;

    fn find_by_id(&mut self, id: i32) -> (found: Result<Option<Category>, GatewayError>)
        requires
            old(self).inv(),
        ensures
            final(self).inv(),
            final(self).rows() == old(self).rows(),
            final(self).calls() == old(self).calls() + 1,
            final(self).reliable() == old(self).reliable(),
            final(self).has_room() == old(self).has_room(),
            is_found(old(self).rows(), id as int, found, old(self).reliable()),
    ;

    fn create(&mut self, input: &CreateCategoryRequest) -> (made: Result<Category, GatewayError>)
        requires
            old(self).inv(),
        ensures
            final(self).inv(),
            final(self).calls() == old(self).calls() + 1,
            final(self).reliable() == old(self).reliable(),
            is_inserted(old(self).rows(), final(self).rows(), made),
            made matches Ok(row) ==> row == spec_named(row.id, *input),
            old(self).reliable() && old(self).has_room() ==> made is Ok,
    ;

    fn update(&mut self, input: &UpdateCategoryRequest) -> (replaced: Result<
        Category,
        GatewayError,
    >)
        requires
            old(self).inv(),
        ensures
            final(self).inv(),
            final(self).calls() == old(self).calls() + 1,
            final(self).reliable() == old(self).reliable(),
            final(self).has_room() == old(self).has_room(),
            is_replaced(
                old(self).rows(),
                final(self).rows(),
                input.id,
                |row: Category| spec_renamed(row, *input),
                replaced,
                old(self).reliable(),
            ),
    ;

    fn delete(&mut self, id: i32) -> (removed: Result<(), GatewayError>)
        requires
            old(self).inv(),
        ensures
            final(self).inv(),
            final(self).calls() == old(self).calls() + 1,
            final(self).reliable() == old(self).reliable(),
            final(self).has_room() == old(self).has_room(),
            is_removed(
                old(self).rows(),
                final(self).rows(),
                id as int,
                removed,
                old(self).reliable(),
            ),
    ;
}

/// The categories as clients see them, in the same order.
pub open spec fn shown(rows: Seq<Category>) -> Seq<CategoryResponse> {
    rows.map_values(|row: Category| CategoryResponse::spec_from(row))
}

/// What the service may answer a listing of `rows` with: the page that was
/// asked for, among the categories that the search keeps, and the number of
/// all that it keeps; or `PersistenceError`, which a reliable store never
/// causes.
pub open spec fn is_page_answer(
    rows: Seq<Category>,
    request: PageRequest,
    answer: Result<ApiResponsePagination<Vec<CategoryResponse>>, ServiceError>,
    reliable: bool,
) -> bool {
    match answer {
        Ok(page) => {
            let kept = spec_search(rows, opt_string(request.search));
            &&& page.data@ == shown(spec_page(kept, request.page as int, request.page_size as int))
            &&& page.total == kept.len()
            &&& page.page == request.page
            &&& page.page_size == request.page_size
        },
        Err(e) => e is PersistenceError && !reliable,
    }
}

/// What the service may answer a lookup of `id` with: the category with
/// that id, or `None` where there is none; or `PersistenceError`, which a
/// reliable store never causes.
pub open spec fn is_lookup_answer(
    rows: Seq<Category>,
    id: int,
    answer: Result<Option<ApiResponse<CategoryResponse>>, ServiceError>,
    reliable: bool,
) -> bool {
    match answer {
        Ok(Some(found)) => has_key(rows, id) && found.data == CategoryResponse::spec_from(
            rows[position_of(rows, id)],
        ),
        Ok(None) => !has_key(rows, id),
        Err(e) => e is PersistenceError && !reliable,
    }
}

/// What the service may answer a creation with, and what it leaves of the
/// categories `before`: the new category, kept at the end under an id that
/// none had; or `PersistenceError`, and nothing changes.
pub open spec fn is_creation_answer(
    before: Seq<Category>,
    after: Seq<Category>,
    input: CreateCategoryRequest,
    answer: Result<ApiResponse<CategoryResponse>, ServiceError>,
) -> bool {
    match answer {
        Ok(made) => {
            &&& made.data == CategoryResponse::spec_from(spec_named(made.data.id, input))
            &&& !has_key(before, made.data.id as int)
            &&& after == before.push(spec_named(made.data.id, input))
        },
        Err(e) => e is PersistenceError && after == before,
    }
}

/// What the service may answer a change with, and what it leaves of the
/// categories `before`. A change without an id is `ValidationFailed`. A
/// change of a category that is there answers with the changed category and
/// puts it in the place of the old one. Otherwise nothing changes:
/// `NotFound` says that no category has that id, and `PersistenceError` is
/// never caused by a reliable store.
pub open spec fn is_change_answer(
    before: Seq<Category>,
    after: Seq<Category>,
    input: UpdateCategoryRequest,
    answer: Result<Option<ApiResponse<CategoryResponse>>, ServiceError>,
    reliable: bool,
) -> bool {
    match input.id {
        None => {
            &&& after == before
            &&& answer matches Err(ServiceError::ValidationFailed(text))
            &&& text@ == Resource::Category.spec_id_required_message()
        },
        Some(id) => match answer {
            Ok(changed) => {
                let at = position_of(before, id as int);
                &&& has_key(before, id as int)
                &&& changed matches Some(row)
                &&& row.data == CategoryResponse::spec_from(spec_renamed(before[at], input))
                &&& after == before.update(at, spec_renamed(before[at], input))
            },
            Err(e) => after == before && match e {
                ServiceError::NotFound(resource) => resource == Resource::Category && !has_key(
                    before,
                    id as int,
                ),
                ServiceError::PersistenceError(_) => !reliable,
                _ => false,
            },
        },
    }
}

/// What the service may answer a removal with, and what it leaves of the
/// categories `before`: on success the category with that id is gone.
/// Otherwise nothing changes: `NotFound` says that no category has that
/// id, and `PersistenceError` is never caused by a reliable store.
pub open spec fn is_removal_answer(
    before: Seq<Category>,
    after: Seq<Category>,
    id: int,
    answer: Result<ApiResponse<()>, ServiceError>,
    reliable: bool,
) -> bool {
    match answer {
        Ok(_) => has_key(before, id) && after == before.remove(position_of(before, id)),
        Err(e) => after == before && match e {
            ServiceError::NotFound(resource) => resource == Resource::Category && !has_key(
                before,
                id,
            ),
            ServiceError::PersistenceError(_) => !reliable,
            _ => false,
        },
    }
}

/// The service of categories. Each operation makes one call on the
/// store, but for a change that names no category, which makes none.
pub trait CategoryServiceTrait {
    /// The categories that the store behind the service holds.
    spec fn categories(&self) -> Seq<Category>;

    /// The number of calls made on the store so far.
    spec fn calls(&self) -> nat;

    /// Whether the store behind the service is reliable.
    spec fn reliable(&self) -> bool;

    /// Whether the store behind the service takes one more row.
    spec fn has_room(&self) -> bool;

    /// What the service keeps between calls.
    spec fn inv(&self) -> bool;

    fn get_categories(&mut self, req: PageRequest) -> (answer: Result<
        ApiResponsePagination<Vec<CategoryResponse>>,
        ServiceError,
    >)
        requires
            old(self).inv(),
            req.wf(),
        ensures
            final(self).inv(),
            final(self).categories() == old(self).categories(),
            final(self).calls() == old(self).calls() + 1,
            final(self).reliable() == old(self).reliable(),
            final(self).has_room() == old(self).has_room(),
            is_page_answer(old(self).categories(), req, answer, old(self).reliable()),
    ;

    fn get_category(&mut self, id: i32) -> (answer: Result<
        Option<ApiResponse<CategoryResponse>>,
        ServiceError,
    >)
        requires
            old(self).inv(),
        ensures
            final(self).inv(),
            final(self).categories() == old(self).categories(),
            final(self).calls() == old(self).calls() + 1,
            final(self).reliable() == old(self).reliable(),
            final(self).has_room() == old(self).has_room(),
            is_lookup_answer(old(self).categories(), id as int, answer, old(self).reliable()),
    ;

    fn create_category(&mut self, input: &CreateCategoryRequest) -> (answer: Result<
        ApiResponse<CategoryResponse>,
        ServiceError,
    >)
        requires
            old(self).inv(),
        ensures
            final(self).inv(),
            final(self).calls() == old(self).calls() + 1,
            final(self).reliable() == old(self).reliable(),
            is_creation_answer(old(self).categories(), final(self).categories(), *input, answer),
            old(self).reliable() && old(self).has_room() ==> answer is Ok,
    ;

    fn update_category(&mut self, input: &UpdateCategoryRequest) -> (answer: Result<
        Option<ApiResponse<CategoryResponse>>,
        ServiceError,
    >)
        requires
            old(self).inv(),
        ensures
            final(self).inv(),
            final(self).calls() == old(self).calls() + (if input.id is Some { 1nat } else { 0nat }),
            final(self).reliable() == old(self).reliable(),
            final(self).has_room() == old(self).has_room(),
            is_change_answer(
                old(self).categories(),
                final(self).categories(),
                *input,
                answer,
                old(self).reliable(),
            ),
    ;

    fn delete_category(&mut self, id: i32) -> (answer: Result<ApiResponse<()>, ServiceError>)
        requires
            old(self).inv(),
        ensures
            final(self).inv(),
            final(self).calls() == old(self).calls() + 1,
            final(self).reliable() == old(self).reliable(),
            final(self).has_room() == old(self).has_room(),
            is_removal_answer(
                old(self).categories(),
                final(self).categories(),
                id as int,
                answer,
                old(self).reliable(),
            ),
    ;
}

/// A change that names no category fails validation, and the categories
/// stay as they were.
pub proof fn lemma_change_without_id(
    before: Seq<Category>,
    after: Seq<Category>,
    input: UpdateCategoryRequest,
    answer: Result<Option<ApiResponse<CategoryResponse>>, ServiceError>,
    reliable: bool,
)
    requires
        input.id is None,
        is_change_answer(before, after, input, answer, reliable),
    ensures
        answer matches Err(ServiceError::ValidationFailed(_)),
        after == before,
{
}

/// A lookup of a category that is not there answers `None`. Only a store
/// that is not reliable can make it fail, and then with
/// `PersistenceError`.
pub proof fn lemma_lookup_of_missing(
    rows: Seq<Category>,
    id: int,
    answer: Result<Option<ApiResponse<CategoryResponse>>, ServiceError>,
    reliable: bool,
)
    requires
        !has_key(rows, id),
        is_lookup_answer(rows, id, answer, reliable),
    ensures
        answer matches Ok(found) ==> found is None,
        answer matches Err(e) ==> e is PersistenceError && !reliable,
        reliable ==> answer matches Ok(None),
{
}

/// A change of a category that is not there fails and adds no row. Over a
/// reliable store it fails with `NotFound`, never with `PersistenceError`.
pub proof fn lemma_change_of_missing(
    before: Seq<Category>,
    after: Seq<Category>,
    input: UpdateCategoryRequest,
    answer: Result<Option<ApiResponse<CategoryResponse>>, ServiceError>,
    reliable: bool,
)
    requires
        input.id matches Some(id) && !has_key(before, id as int),
        is_change_answer(before, after, input, answer, reliable),
    ensures
        answer is Err,
        after == before,
        reliable ==> answer == Err::<Option<ApiResponse<CategoryResponse>>, ServiceError>(
            ServiceError::NotFound(Resource::Category),
        ),
{
}

/// The removal of a category that is not there fails and changes nothing.
/// Over a reliable store it fails with `NotFound`, never with
/// `PersistenceError`.
pub proof fn lemma_removal_of_missing(
    before: Seq<Category>,
    after: Seq<Category>,
    id: int,
    answer: Result<ApiResponse<()>, ServiceError>,
    reliable: bool,
)
    requires
        !has_key(before, id),
        is_removal_answer(before, after, id, answer, reliable),
    ensures
        answer is Err,
        after == before,
        reliable ==> answer == Err::<ApiResponse<()>, ServiceError>(
            ServiceError::NotFound(Resource::Category),
        ),
{
}

/// Over a reliable store, a lookup, a change and a removal of a category
/// that is there go through.
pub proof fn lemma_present_goes_through(
    before: Seq<Category>,
    after: Seq<Category>,
    input: UpdateCategoryRequest,
    looked_up: Result<Option<ApiResponse<CategoryResponse>>, ServiceError>,
    changed: Result<Option<ApiResponse<CategoryResponse>>, ServiceError>,
    removed: Result<ApiResponse<()>, ServiceError>,
)
    requires
        input.id matches Some(id) && has_key(before, id as int),
    ensures
        is_lookup_answer(before, input.id->0 as int, looked_up, true) ==> looked_up matches Ok(
            Some(_),
        ),
        is_change_answer(before, after, input, changed, true) ==> changed matches Ok(Some(_)),
        is_removal_answer(before, after, input.id->0 as int, removed, true) ==> removed is Ok,
{
}

} // verus!
