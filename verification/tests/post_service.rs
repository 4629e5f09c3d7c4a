use example_seaorm_axum::abstract_trait::{PostsRepositoryTrait, PostsServiceTrait};
use example_seaorm_axum::domain::{
    CreateCommentRequest, CreatePostRequest, PostRelationResponse, PostResponse, UpdatePostRequest,
};
use example_seaorm_axum::entities::Post;
use example_seaorm_axum::error::{GatewayError, Resource, ServiceError};
use example_seaorm_axum::memory::InMemoryPostRepository;
use example_seaorm_axum::pagination::PageRequest;
use example_seaorm_axum::service::answers::{lookup_answer, page_answer, passed_on, row_answer};
use example_seaorm_axum::service::posts::check_change;
use example_seaorm_axum::service::PostService;

fn create(title: &str) -> CreatePostRequest {
    CreatePostRequest {
        title: title.to_string(),
        body: format!("about {}", title),
        img: format!("{}.png", title),
        category_id: 1,
        user_id: 7,
        user_name: "ann".to_string(),
    }
}

fn update(post_id: Option<i32>, title: &str) -> UpdatePostRequest {
    UpdatePostRequest {
        post_id,
        title: title.to_string(),
        body: format!("more about {}", title),
        img: format!("{}.jpg", title),
        category_id: 2,
        user_id: 8,
        user_name: "bob".to_string(),
    }
}

fn shown(id: i32, title: &str) -> PostResponse {
    PostResponse {
        id,
        title: title.to_string(),
        body: format!("about {}", title),
        slug: title.to_string(),
        img: format!("{}.png", title),
        category_id: 1,
        user_id: 7,
        user_name: "ann".to_string(),
    }
}

fn remark(post_id: i32, text: &str) -> CreateCommentRequest {
    CreateCommentRequest {
        id_post_comment: post_id,
        user_name_comment: "cat".to_string(),
        comment: text.to_string(),
    }
}

fn page(page: i32, page_size: i32, search: Option<&str>) -> PageRequest {
    PageRequest::new(page, page_size, search.map(|s| s.to_string())).unwrap()
}

fn service_with(titles: &[&str]) -> PostService<InMemoryPostRepository> {
    let mut service = PostService::new(InMemoryPostRepository::new());
    for title in titles {
        service.create_post(&create(title)).unwrap();
    }
    service
}

#[test]
fn created_post_takes_its_title_as_slug() {
    let mut service = PostService::new(InMemoryPostRepository::new());
    let made = service.create_post(&create("rust")).unwrap().data;
    assert_eq!(made, shown(1, "rust"));
    assert_eq!(service.get_post(1).unwrap().unwrap().data, shown(1, "rust"));
}

#[test]
fn posts_are_searched_by_title() {
    let mut service = service_with(&["rust in action", "verus", "trust", "go"]);
    let listing = service.get_all_posts(page(1, 10, Some("rust"))).unwrap();
    assert_eq!(listing.data, vec![shown(1, "rust in action"), shown(3, "trust")]);
    assert_eq!(listing.total, 2);
    let by_body = service.get_all_posts(page(1, 10, Some("about"))).unwrap();
    assert!(by_body.data.is_empty());
    assert_eq!(by_body.total, 0);
    let second = service.get_all_posts(page(2, 3, None)).unwrap();
    assert_eq!(second.data, vec![shown(4, "go")]);
    assert_eq!(second.total, 4);
}

#[test]
fn update_replaces_everything_but_id_and_slug() {
    let mut service = service_with(&["a", "b"]);
    let changed = service.update_post(&update(Some(2), "B")).unwrap().data;
    assert_eq!(
        changed,
        PostResponse {
            id: 2,
            title: "B".to_string(),
            body: "more about B".to_string(),
            slug: "b".to_string(),
            img: "B.jpg".to_string(),
            category_id: 2,
            user_id: 8,
            user_name: "bob".to_string(),
        }
    );
    assert_eq!(service.get_post(2).unwrap().unwrap().data, changed);
    assert_eq!(service.get_post(1).unwrap().unwrap().data, shown(1, "a"));
}

#[test]
fn post_update_without_an_id_fails_validation_and_asks_no_store() {
    let mut service = service_with(&["a"]);
    let before = service.repository().call_count();
    assert_eq!(
        service.update_post(&update(None, "B")).err(),
        Some(ServiceError::ValidationFailed("Post ID is required".to_string()))
    );
    assert_eq!(service.repository().call_count(), before);
    assert_eq!(service.get_post(1).unwrap().unwrap().data, shown(1, "a"));
}

#[test]
fn missing_post_is_none_for_get_and_not_found_for_update_and_delete() {
    let mut service = service_with(&["a"]);
    assert!(service.get_post(5).unwrap().is_none());
    assert_eq!(
        service.update_post(&update(Some(5), "B")).err(),
        Some(ServiceError::NotFound(Resource::Post))
    );
    assert_eq!(service.delete_post(5).err(), Some(ServiceError::NotFound(Resource::Post)));
    assert_eq!(service.repository().len(), 1);
}

#[test]
fn delete_takes_the_post_out() {
    let mut service = service_with(&["a", "b"]);
    service.delete_post(1).unwrap();
    assert!(service.get_post(1).unwrap().is_none());
    let all = service.get_all_posts(page(1, 10, None)).unwrap();
    assert_eq!(all.data, vec![shown(2, "b")]);
}

#[test]
fn relation_gives_one_row_per_comment_of_the_post() {
    let mut repository = InMemoryPostRepository::new();
    repository.create_post(&create("one")).unwrap();
    repository.create_post(&create("two")).unwrap();
    repository.add_comment(&remark(2, "first")).unwrap();
    repository.add_comment(&remark(1, "other")).unwrap();
    repository.add_comment(&remark(2, "second")).unwrap();
    let mut service = PostService::new(repository);
    let rows = service.get_post_relation(2).unwrap().data;
    assert_eq!(
        rows,
        vec![
            PostRelationResponse {
                post_id: 2,
                title: "two".to_string(),
                comment_id: 1,
                id_post_comment: 2,
                user_name_comment: "cat".to_string(),
                comment: "first".to_string(),
            },
            PostRelationResponse {
                post_id: 2,
                title: "two".to_string(),
                comment_id: 3,
                id_post_comment: 2,
                user_name_comment: "cat".to_string(),
                comment: "second".to_string(),
            },
        ]
    );
}

#[test]
fn relation_of_a_post_without_comments_and_of_a_missing_post_is_empty() {
    let mut repository = InMemoryPostRepository::new();
    repository.create_post(&create("one")).unwrap();
    repository.add_comment(&remark(7, "dangling")).unwrap();
    let mut service = PostService::new(repository);
    assert_eq!(service.get_post_relation(1).unwrap().data, Vec::new());
    assert_eq!(service.get_post_relation(2).unwrap().data, Vec::new());
    assert_eq!(service.get_post_relation(7).unwrap().data, Vec::new());
}

#[test]
fn adding_a_comment_is_no_call_on_the_post_gateway() {
    let mut repository = InMemoryPostRepository::new();
    let made = repository.add_comment(&remark(1, "hello")).unwrap();
    assert_eq!(made.id, 1);
    assert_eq!(made.id_post_comment, 1);
    assert_eq!(made.comment, "hello");
    assert_eq!(repository.call_count(), 0);
    assert_eq!(repository.len(), 0);
}

#[test]
fn each_operation_is_one_call() {
    let mut service = service_with(&["a"]);
    assert_eq!(service.repository().call_count(), 1);
    service.get_post(1).unwrap();
    service.get_post_relation(1).unwrap();
    service.get_all_posts(page(1, 1, None)).unwrap();
    assert_eq!(service.repository().call_count(), 4);
    service.update_post(&update(Some(1), "A")).unwrap();
    service.delete_post(1).unwrap();
    assert_eq!(service.repository().call_count(), 6);
}

#[test]
fn post_gateway_reports_a_change_without_an_id() {
    let mut repository = InMemoryPostRepository::new();
    assert_eq!(repository.update_post(&update(None, "x")), Err(GatewayError::IdRequired));
    assert_eq!(repository.delete_post(1), Err(GatewayError::RecordNotFound));
    assert_eq!(repository.get_post(1), Ok(None));
    assert_eq!(repository.get_all_posts(1, 10, None), Ok((Vec::new(), 0)));
}

#[test]
fn post_answers_sort_gateway_failures() {
    let down = || GatewayError::Backend("down".to_string());
    let hidden = || Some(ServiceError::PersistenceError("down".to_string()));
    let kind = Resource::Post;
    assert_eq!(lookup_answer::<Post, PostResponse>(kind, Err(down())).err(), hidden());
    assert_eq!(passed_on::<Vec<PostRelationResponse>>(kind, Err(down())).err(), hidden());
    assert_eq!(
        page_answer::<Post, PostResponse>(kind, &page(1, 1, None), Err(down())).err(),
        hidden()
    );
    assert_eq!(
        row_answer::<Post, PostResponse>(kind, Err(GatewayError::RecordNotFound)).err(),
        Some(ServiceError::NotFound(Resource::Post))
    );
    assert_eq!(
        row_answer::<Post, PostResponse>(kind, Err(GatewayError::IdRequired)).err(),
        Some(ServiceError::ValidationFailed("Post ID is required".to_string()))
    );
    assert_eq!(
        passed_on::<()>(kind, Err(GatewayError::RecordNotFound)).err(),
        Some(ServiceError::NotFound(Resource::Post))
    );
}

#[test]
fn post_answers_show_what_the_gateway_found() {
    let row = || Post {
        id: 1,
        title: "a".to_string(),
        body: "about a".to_string(),
        slug: "a".to_string(),
        img: "a.png".to_string(),
        category_id: 1,
        user_id: 7,
        user_name: "ann".to_string(),
    };
    let kind = Resource::Post;
    let found = lookup_answer::<Post, PostResponse>(kind, Ok(Some(row()))).unwrap();
    assert_eq!(found.unwrap().data, shown(1, "a"));
    assert!(lookup_answer::<Post, PostResponse>(kind, Ok(None)).unwrap().is_none());
    assert_eq!(row_answer::<Post, PostResponse>(kind, Ok(row())).unwrap().data, shown(1, "a"));
    assert!(passed_on(kind, Ok(())).is_ok());
    let rows: Vec<PostRelationResponse> = Vec::new();
    assert_eq!(passed_on(kind, Ok(rows)).unwrap().data, Vec::new());
    let listing =
        page_answer::<Post, PostResponse>(kind, &page(3, 4, None), Ok((vec![row()], 9))).unwrap();
    assert_eq!(listing.data, vec![shown(1, "a")]);
    assert_eq!((listing.total, listing.page, listing.page_size), (9, 3, 4));
}

#[test]
fn post_check_change_wants_an_id() {
    assert_eq!(check_change(&update(Some(4), "x")), Ok(4));
    assert_eq!(
        check_change(&update(None, "x")),
        Err(ServiceError::ValidationFailed("Post ID is required".to_string()))
    );
}
