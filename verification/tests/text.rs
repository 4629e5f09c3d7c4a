use example_seaorm_axum::text::{chars_of, contains, starts_with, str_eq};

#[test]
fn str_eq_tells_equal_from_unequal() {
    assert!(str_eq("image/png", "image/png"));
    assert!(!str_eq("image/png", "image/pn"));
    assert!(!str_eq("image/png", "image/jpg"));
    assert!(str_eq("", ""));
    assert!(!str_eq("", "a"));
}

#[test]
fn chars_of_gives_each_character() {
    assert_eq!(chars_of("héllo"), vec!['h', 'é', 'l', 'l', 'o']);
    assert_eq!(chars_of(""), Vec::<char>::new());
}

#[test]
fn contains_finds_a_term_anywhere() {
    assert!(contains("tech", "tec"));
    assert!(contains("tech", "ech"));
    assert!(contains("tech", "tech"));
    assert!(contains("tech", "c"));
    assert!(!contains("tech", "techs"));
    assert!(!contains("tech", "th"));
}

#[test]
fn contains_finds_the_empty_term_everywhere() {
    assert!(contains("tech", ""));
    assert!(contains("", ""));
    assert!(!contains("", "a"));
}

#[test]
fn contains_tells_upper_case_from_lower_case() {
    assert!(!contains("Tech", "tec"));
    assert!(contains("Tech", "Tec"));
}

#[test]
fn contains_compares_by_character() {
    assert!(contains("naïve café", "ïve"));
    assert!(contains("naïve café", "é"));
    assert!(!contains("naïve café", "e caf "));
}

#[test]
fn starts_with_looks_at_the_beginning_only() {
    assert!(starts_with("Bearer abc", "Bearer "));
    assert!(!starts_with("bearer abc", "Bearer "));
    assert!(!starts_with("Bear", "Bearer "));
    assert!(!starts_with("xBearer abc", "Bearer "));
    assert!(starts_with("anything", ""));
}
