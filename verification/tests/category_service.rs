use example_seaorm_axum::abstract_trait::{CategoryRepositoryTrait, CategoryServiceTrait};
use example_seaorm_axum::domain::{
    ApiResponse, CategoryResponse, CreateCategoryRequest, UpdateCategoryRequest,
};
use example_seaorm_axum::entities::Category;
use example_seaorm_axum::error::{GatewayError, Resource, ServiceError};
use example_seaorm_axum::memory::InMemoryCategoryRepository;
use example_seaorm_axum::pagination::PageRequest;
use example_seaorm_axum::service::answers::{
    change_answer, lookup_answer, page_answer, passed_on, row_answer, show_all,
};
use example_seaorm_axum::service::category::check_change;
use example_seaorm_axum::service::CategoryService;

fn service_with(names: &[&str]) -> CategoryService<InMemoryCategoryRepository> {
    let mut service = CategoryService::new(InMemoryCategoryRepository::new());
    for name in names {
        service.create_category(&CreateCategoryRequest { name: name.to_string() }).unwrap();
    }
    service
}

fn page(page: i32, page_size: i32, search: Option<&str>) -> PageRequest {
    PageRequest::new(page, page_size, search.map(|s| s.to_string())).unwrap()
}

fn shown(id: i32, name: &str) -> CategoryResponse {
    CategoryResponse { id, name: name.to_string() }
}

#[test]
fn created_category_is_found_by_a_search_for_part_of_its_name() {
    let mut service = CategoryService::new(InMemoryCategoryRepository::new());
    let made = service.create_category(&CreateCategoryRequest { name: "tech".to_string() });
    let made = made.unwrap().data;
    assert_eq!(made.name, "tech");
    let listing = service.get_categories(page(1, 10, Some("tec"))).unwrap();
    assert_eq!(listing.data, vec![made]);
    assert_eq!(listing.total, 1);
    assert_eq!(listing.page, 1);
    assert_eq!(listing.page_size, 10);
}

#[test]
fn ids_rise_from_one_and_are_never_used_again() {
    let mut service = service_with(&["a", "b", "c"]);
    assert_eq!(service.get_category(1).unwrap().unwrap().data, shown(1, "a"));
    assert_eq!(service.get_category(3).unwrap().unwrap().data, shown(3, "c"));
    service.delete_category(3).unwrap();
    let made = service.create_category(&CreateCategoryRequest { name: "d".to_string() });
    assert_eq!(made.unwrap().data, shown(4, "d"));
}

#[test]
fn listing_pages_through_the_matches() {
    let mut service = service_with(&["tech", "art", "biotech", "technology", "craft"]);
    let first = service.get_categories(page(1, 2, Some("tech"))).unwrap();
    assert_eq!(first.data, vec![shown(1, "tech"), shown(3, "biotech")]);
    assert_eq!(first.total, 3);
    let second = service.get_categories(page(2, 2, Some("tech"))).unwrap();
    assert_eq!(second.data, vec![shown(4, "technology")]);
    assert_eq!(second.total, 3);
    let beyond = service.get_categories(page(3, 2, Some("tech"))).unwrap();
    assert!(beyond.data.is_empty());
    assert_eq!(beyond.total, 3);
    assert_eq!(beyond.page, 3);
    let all = service.get_categories(page(1, 50, None)).unwrap();
    assert_eq!(all.data.len(), 5);
    assert_eq!(all.total, 5);
}

#[test]
fn category_update_without_an_id_fails_validation_and_asks_no_store() {
    let mut service = service_with(&["tech"]);
    let before = service.repository().call_count();
    let answer =
        service.update_category(&UpdateCategoryRequest { id: None, name: Some("x".to_string()) });
    assert_eq!(
        answer.err(),
        Some(ServiceError::ValidationFailed("Category ID is required".to_string()))
    );
    assert_eq!(service.repository().call_count(), before);
    assert_eq!(service.get_category(1).unwrap().unwrap().data, shown(1, "tech"));
}

#[test]
fn each_other_operation_is_one_call() {
    let mut service = CategoryService::new(InMemoryCategoryRepository::new());
    assert_eq!(service.repository().call_count(), 0);
    service.create_category(&CreateCategoryRequest { name: "a".to_string() }).unwrap();
    assert_eq!(service.repository().call_count(), 1);
    service.get_category(1).unwrap();
    assert_eq!(service.repository().call_count(), 2);
    service.get_categories(page(1, 10, None)).unwrap();
    assert_eq!(service.repository().call_count(), 3);
    service.update_category(&UpdateCategoryRequest { id: Some(1), name: None }).unwrap();
    assert_eq!(service.repository().call_count(), 4);
    service.delete_category(1).unwrap();
    assert_eq!(service.repository().call_count(), 5);
    assert!(service.delete_category(1).is_err());
    assert_eq!(service.repository().call_count(), 6);
}

#[test]
fn get_of_a_missing_category_is_none() {
    let mut service = service_with(&["tech"]);
    assert_eq!(service.get_category(2).unwrap().map(|found| found.data), None);
    assert_eq!(service.get_category(0).unwrap().map(|found| found.data), None);
    assert_eq!(service.get_category(-1).unwrap().map(|found| found.data), None);
}

#[test]
fn update_of_a_missing_category_is_not_found_and_adds_nothing() {
    let mut service = service_with(&["tech"]);
    let answer =
        service.update_category(&UpdateCategoryRequest { id: Some(9), name: Some("x".to_string()) });
    assert_eq!(answer.err(), Some(ServiceError::NotFound(Resource::Category)));
    assert_eq!(service.repository().len(), 1);
    assert_eq!(service.get_category(9).unwrap().map(|found| found.data), None);
}

#[test]
fn delete_of_a_missing_category_is_not_found() {
    let mut service = service_with(&["tech"]);
    assert_eq!(
        service.delete_category(9).err(),
        Some(ServiceError::NotFound(Resource::Category))
    );
    assert_eq!(service.repository().len(), 1);
}

#[test]
fn update_renames_in_place() {
    let mut service = service_with(&["a", "b", "c"]);
    let answer =
        service.update_category(&UpdateCategoryRequest { id: Some(2), name: Some("B".to_string()) });
    assert_eq!(answer.unwrap().unwrap().data, shown(2, "B"));
    let all = service.get_categories(page(1, 10, None)).unwrap();
    assert_eq!(all.data, vec![shown(1, "a"), shown(2, "B"), shown(3, "c")]);
}

#[test]
fn update_without_a_name_keeps_the_name() {
    let mut service = service_with(&["a"]);
    let answer = service.update_category(&UpdateCategoryRequest { id: Some(1), name: None });
    assert_eq!(answer.unwrap().unwrap().data, shown(1, "a"));
}

#[test]
fn delete_takes_the_row_out_and_keeps_the_order() {
    let mut service = service_with(&["a", "b", "c"]);
    service.delete_category(2).unwrap();
    let all = service.get_categories(page(1, 10, None)).unwrap();
    assert_eq!(all.data, vec![shown(1, "a"), shown(3, "c")]);
    assert_eq!(all.total, 2);
    assert_eq!(service.get_category(2).unwrap().map(|found| found.data), None);
}

#[test]
fn category_gateway_reports_a_change_without_an_id() {
    let mut repository = InMemoryCategoryRepository::new();
    let answer = repository.update(&UpdateCategoryRequest { id: None, name: None });
    assert_eq!(answer, Err(GatewayError::IdRequired));
    assert_eq!(repository.call_count(), 1);
}

#[test]
fn gateway_lists_rows_with_their_count() {
    let mut repository = InMemoryCategoryRepository::new();
    repository.create(&CreateCategoryRequest { name: "tech".to_string() }).unwrap();
    repository.create(&CreateCategoryRequest { name: "art".to_string() }).unwrap();
    let (rows, total) = repository.find_all(1, 1, None).unwrap();
    assert_eq!(rows, vec![Category { id: 1, name: "tech".to_string() }]);
    assert_eq!(total, 2);
    assert_eq!(repository.find_by_id(2), Ok(Some(Category { id: 2, name: "art".to_string() })));
    assert_eq!(repository.delete(5), Err(GatewayError::RecordNotFound));
}

#[test]
fn category_answers_sort_gateway_failures() {
    let down = || GatewayError::Backend("down".to_string());
    let hidden = || Some(ServiceError::PersistenceError("down".to_string()));
    let kind = Resource::Category;
    assert_eq!(lookup_answer::<Category, CategoryResponse>(kind, Err(down())).err(), hidden());
    assert_eq!(row_answer::<Category, CategoryResponse>(kind, Err(down())).err(), hidden());
    assert_eq!(
        change_answer::<Category, CategoryResponse>(kind, Err(GatewayError::RecordNotFound)).err(),
        Some(ServiceError::NotFound(Resource::Category))
    );
    assert_eq!(
        change_answer::<Category, CategoryResponse>(kind, Err(GatewayError::IdRequired)).err(),
        Some(ServiceError::ValidationFailed("Category ID is required".to_string()))
    );
    assert_eq!(
        passed_on::<()>(kind, Err(GatewayError::RecordNotFound)).err(),
        Some(ServiceError::NotFound(Resource::Category))
    );
    assert_eq!(
        page_answer::<Category, CategoryResponse>(kind, &page(1, 10, None), Err(down())).err(),
        hidden()
    );
}

#[test]
fn category_answers_show_what_the_gateway_found() {
    let row = || Category { id: 3, name: "art".to_string() };
    let kind = Resource::Category;
    let found: Option<ApiResponse<CategoryResponse>> =
        lookup_answer(kind, Ok(Some(row()))).unwrap();
    assert_eq!(found.unwrap().data, shown(3, "art"));
    let missing: Option<ApiResponse<CategoryResponse>> =
        lookup_answer::<Category, CategoryResponse>(kind, Ok(None)).unwrap();
    assert!(missing.is_none());
    let made: ApiResponse<CategoryResponse> = row_answer(kind, Ok(row())).unwrap();
    assert_eq!(made.data, shown(3, "art"));
    let changed: Option<ApiResponse<CategoryResponse>> = change_answer(kind, Ok(row())).unwrap();
    assert_eq!(changed.unwrap().data, shown(3, "art"));
    assert_eq!(passed_on(kind, Ok(())).map(|done: ApiResponse<()>| done.data), Ok(()));
    let listing = page_answer::<Category, CategoryResponse>(
        kind,
        &page(2, 1, None),
        Ok((vec![row()], 7)),
    )
    .unwrap();
    assert_eq!(listing.data, vec![shown(3, "art")]);
    assert_eq!((listing.total, listing.page, listing.page_size), (7, 2, 1));
    let all: Vec<CategoryResponse> = show_all(&vec![row(), row()]);
    assert_eq!(all, vec![shown(3, "art"), shown(3, "art")]);
}

#[test]
fn category_check_change_wants_an_id() {
    assert_eq!(check_change(&UpdateCategoryRequest { id: Some(4), name: None }), Ok(4));
    assert_eq!(
        check_change(&UpdateCategoryRequest { id: None, name: None }),
        Err(ServiceError::ValidationFailed("Category ID is required".to_string()))
    );
}
