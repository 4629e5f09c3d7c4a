use example_seaorm_axum::domain::response::PostRelationResponse;
use example_seaorm_axum::entities::{Comment, Post};
use example_seaorm_axum::relation::{flatten, join, select_comments};

fn post(id: i32, title: &str) -> Post {
    Post {
        id,
        title: title.to_string(),
        body: format!("body of {}", title),
        slug: title.to_string(),
        img: format!("{}.png", id),
        category_id: 1,
        user_id: 7,
        user_name: "ann".to_string(),
    }
}

fn comment(id: i32, post_id: i32, text: &str) -> Comment {
    Comment {
        id,
        id_post_comment: post_id,
        user_name_comment: format!("user{}", id),
        comment: text.to_string(),
    }
}

fn row(post_id: i32, title: &str, comment_id: i32, text: &str) -> PostRelationResponse {
    PostRelationResponse {
        post_id,
        title: title.to_string(),
        comment_id,
        id_post_comment: post_id,
        user_name_comment: format!("user{}", comment_id),
        comment: text.to_string(),
    }
}

#[test]
fn from_post_and_comment_pairs_the_fields() {
    let made = PostRelationResponse::from_post_and_comment(&post(3, "rust"), &comment(9, 3, "hi"));
    assert_eq!(
        made,
        PostRelationResponse {
            post_id: 3,
            title: "rust".to_string(),
            comment_id: 9,
            id_post_comment: 3,
            user_name_comment: "user9".to_string(),
            comment: "hi".to_string(),
        }
    );
}

#[test]
fn select_comments_keeps_those_of_the_post_in_order() {
    let comments =
        vec![comment(1, 3, "a"), comment(2, 4, "b"), comment(3, 3, "c"), comment(4, 5, "d")];
    assert_eq!(select_comments(&comments, 3), vec![comment(1, 3, "a"), comment(3, 3, "c")]);
    assert_eq!(select_comments(&comments, 9), Vec::<Comment>::new());
}

#[test]
fn join_finds_the_post_with_its_comments() {
    let posts = vec![post(1, "one"), post(2, "two"), post(3, "three")];
    let comments = vec![comment(1, 2, "a"), comment(2, 1, "b"), comment(3, 2, "c")];
    let groups = join(&posts, &comments, 2);
    assert_eq!(groups, vec![(post(2, "two"), vec![comment(1, 2, "a"), comment(3, 2, "c")])]);
}

#[test]
fn join_of_a_missing_post_is_empty() {
    let posts = vec![post(1, "one")];
    let comments = vec![comment(1, 2, "a")];
    assert!(join(&posts, &comments, 2).is_empty());
}

#[test]
fn post_with_n_comments_gives_n_rows() {
    let posts = vec![post(1, "one"), post(2, "two")];
    let comments = vec![
        comment(1, 2, "a"),
        comment(2, 1, "b"),
        comment(3, 2, "c"),
        comment(4, 2, "d"),
    ];
    let rows = flatten(&join(&posts, &comments, 2));
    assert_eq!(rows, vec![row(2, "two", 1, "a"), row(2, "two", 3, "c"), row(2, "two", 4, "d")]);
}

#[test]
fn rows_pair_the_post_with_distinct_comments() {
    let posts = vec![post(5, "five")];
    let comments = vec![comment(10, 5, "x"), comment(11, 5, "x"), comment(12, 5, "y")];
    let rows = flatten(&join(&posts, &comments, 5));
    assert_eq!(rows.len(), 3);
    for made in &rows {
        assert_eq!(made.post_id, 5);
        assert_eq!(made.title, "five");
    }
    let ids: Vec<i32> = rows.iter().map(|made| made.comment_id).collect();
    assert_eq!(ids, vec![10, 11, 12]);
}

#[test]
fn post_without_comments_and_missing_post_both_give_no_rows() {
    let posts = vec![post(1, "one")];
    let comments = vec![comment(1, 9, "elsewhere")];
    assert!(flatten(&join(&posts, &comments, 1)).is_empty());
    assert!(flatten(&join(&posts, &comments, 2)).is_empty());
}

#[test]
fn flatten_goes_group_after_group() {
    let groups = vec![
        (post(1, "one"), vec![comment(1, 1, "a"), comment(2, 1, "b")]),
        (post(2, "two"), Vec::new()),
        (post(3, "three"), vec![comment(3, 3, "c")]),
    ];
    assert_eq!(
        flatten(&groups),
        vec![row(1, "one", 1, "a"), row(1, "one", 2, "b"), row(3, "three", 3, "c")]
    );
    assert!(flatten(&Vec::new()).is_empty());
}
