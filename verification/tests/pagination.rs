use example_seaorm_axum::entities::Category;
use example_seaorm_axum::error::ServiceError;
use example_seaorm_axum::pagination::{
    list, page_window, search, window_of, PageRequest, PageWindow,
};

fn categories(names: &[&str]) -> Vec<Category> {
    let mut rows = Vec::new();
    let mut id = 1;
    for name in names {
        rows.push(Category { id, name: name.to_string() });
        id += 1;
    }
    rows
}

fn names(rows: &[Category]) -> Vec<String> {
    rows.iter().map(|row| row.name.clone()).collect()
}

fn request(page: i32, page_size: i32, search: Option<&str>) -> PageRequest {
    PageRequest::new(page, page_size, search.map(|s| s.to_string())).unwrap()
}

#[test]
fn offset_is_pages_before_times_page_size() {
    assert_eq!(page_window(1, 10), PageWindow { offset: 0, limit: 10 });
    assert_eq!(page_window(2, 10), PageWindow { offset: 10, limit: 10 });
    assert_eq!(page_window(3, 25), PageWindow { offset: 50, limit: 25 });
    assert_eq!(page_window(7, 1), PageWindow { offset: 6, limit: 1 });
}

#[test]
fn offset_of_the_largest_page_does_not_overflow() {
    let window = page_window(i32::MAX, i32::MAX);
    assert_eq!(window.offset, 2147483646u64 * 2147483647u64);
    assert_eq!(window.limit, 2147483647);
}

#[test]
fn request_needs_a_page_and_a_size_of_at_least_one() {
    assert!(PageRequest::new(1, 1, None).is_some());
    assert!(PageRequest::new(0, 10, None).is_none());
    assert!(PageRequest::new(1, 0, None).is_none());
    assert!(PageRequest::new(-1, 10, None).is_none());
    assert!(PageRequest::new(1, -5, None).is_none());
    let made = PageRequest::new(4, 20, Some("x".to_string())).unwrap();
    assert_eq!(made.page, 4);
    assert_eq!(made.page_size, 20);
    assert_eq!(made.search, Some("x".to_string()));
    assert_eq!(made.window(), PageWindow { offset: 60, limit: 20 });
}

#[test]
fn bounds_stay_inside_the_rows() {
    assert_eq!(PageWindow { offset: 0, limit: 10 }.bounds(3), (0, 3));
    assert_eq!(PageWindow { offset: 2, limit: 10 }.bounds(3), (2, 3));
    assert_eq!(PageWindow { offset: 3, limit: 10 }.bounds(3), (3, 3));
    assert_eq!(PageWindow { offset: 50, limit: 10 }.bounds(3), (3, 3));
    assert_eq!(PageWindow { offset: 1, limit: 1 }.bounds(3), (1, 2));
    assert_eq!(PageWindow { offset: u64::MAX, limit: u64::MAX }.bounds(3), (3, 3));
    assert_eq!(PageWindow { offset: 1, limit: u64::MAX }.bounds(3), (1, 3));
    assert_eq!(PageWindow { offset: 0, limit: 0 }.bounds(3), (0, 0));
}

#[test]
fn search_keeps_matching_rows_in_order() {
    let rows = categories(&["tech", "art", "biotech", "Tech", "craft"]);
    let kept = search(&rows, &Some("tech".to_string()));
    assert_eq!(names(&kept), vec!["tech", "biotech"]);
    assert_eq!(kept[1].id, 3);
    let all = search(&rows, &None);
    assert_eq!(all, rows);
    let none = search(&rows, &Some("zzz".to_string()));
    assert!(none.is_empty());
}

#[test]
fn window_of_copies_the_rows_of_the_window() {
    let rows = categories(&["a", "b", "c", "d", "e"]);
    assert_eq!(names(&window_of(&rows, PageWindow { offset: 1, limit: 2 })), vec!["b", "c"]);
    assert_eq!(names(&window_of(&rows, PageWindow { offset: 4, limit: 2 })), vec!["e"]);
    assert!(window_of(&rows, PageWindow { offset: 5, limit: 2 }).is_empty());
}

#[test]
fn page_never_holds_more_than_page_size() {
    let rows = categories(&["a", "b", "c", "d", "e", "f", "g"]);
    for page in 1..5 {
        for page_size in 1..9 {
            let result = list(&rows, &request(page, page_size, None));
            assert!(result.items.len() <= page_size as usize);
            assert!(result.items.len() as i64 <= result.total_count);
            assert_eq!(result.total_count, 7);
        }
    }
}

#[test]
fn total_count_counts_matches_whatever_the_page() {
    let rows = categories(&["tech", "art", "biotech", "technology", "craft"]);
    let first = list(&rows, &request(1, 2, Some("tech")));
    let second = list(&rows, &request(2, 2, Some("tech")));
    let wide = list(&rows, &request(1, 100, Some("tech")));
    assert_eq!(first.total_count, 3);
    assert_eq!(second.total_count, 3);
    assert_eq!(wide.total_count, 3);
    assert_eq!(names(&first.items), vec!["tech", "biotech"]);
    assert_eq!(names(&second.items), vec!["technology"]);
    assert_eq!(names(&wide.items), vec!["tech", "biotech", "technology"]);
}

#[test]
fn page_beyond_the_last_is_empty_with_the_same_total() {
    let rows = categories(&["tech", "art", "biotech"]);
    let beyond = list(&rows, &request(3, 2, None));
    assert!(beyond.items.is_empty());
    assert_eq!(beyond.total_count, 3);
    let far = list(&rows, &request(i32::MAX, i32::MAX, Some("tech")));
    assert!(far.items.is_empty());
    assert_eq!(far.total_count, 2);
}

#[test]
fn listing_of_no_rows_is_empty() {
    let rows: Vec<Category> = Vec::new();
    let result = list(&rows, &request(1, 10, Some("a")));
    assert!(result.items.is_empty());
    assert_eq!(result.total_count, 0);
}

#[test]
fn checked_request_fails_validation_below_one() {
    let refused = ServiceError::ValidationFailed("page and page_size must be at least 1".to_string());
    assert_eq!(PageRequest::checked(0, 10, None), Err(refused));
    assert!(PageRequest::checked(3, 0, None).is_err());
    assert_eq!(
        PageRequest::checked(3, 7, Some("x".to_string())),
        Ok(PageRequest { page: 3, page_size: 7, search: Some("x".to_string()) })
    );
}

#[test]
fn default_page_is_the_first_with_ten_rows() {
    assert_eq!(example_seaorm_axum::pagination::DEFAULT_PAGE, 1);
    assert_eq!(example_seaorm_axum::pagination::DEFAULT_PAGE_SIZE, 10);
}
