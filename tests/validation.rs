use random_img_server::errors::AppError;
use random_img_server::validator::{find_q, parse_query, validate_query, QueryOpts, MAX_QUERY_LEN, MIN_QUERY_LEN};

fn term(n: usize) -> String {
    "x".repeat(n)
}

#[test]
fn term_of_two_chars_is_rejected() {
    let raw = format!("q={}", term(2));
    assert_eq!(
        parse_query(Some(raw.as_str())),
        Err(AppError::ValidationError { min: 3, max: 30, actual: 2 })
    );
}

#[test]
fn term_of_three_chars_is_accepted() {
    let raw = format!("q={}", term(3));
    assert_eq!(parse_query(Some(raw.as_str())), Ok(QueryOpts { query: term(3) }));
}

#[test]
fn term_of_thirty_chars_is_accepted() {
    let raw = format!("q={}", term(30));
    assert_eq!(parse_query(Some(raw.as_str())), Ok(QueryOpts { query: term(30) }));
}

#[test]
fn term_of_thirty_one_chars_is_rejected() {
    let raw = format!("q={}", term(31));
    assert_eq!(
        parse_query(Some(raw.as_str())),
        Err(AppError::ValidationError { min: 3, max: 30, actual: 31 })
    );
}

#[test]
fn bounds_are_three_and_thirty() {
    assert_eq!(MIN_QUERY_LEN, 3);
    assert_eq!(MAX_QUERY_LEN, 30);
}

#[test]
fn missing_query_string_is_rejected() {
    assert_eq!(
        parse_query(None),
        Err(AppError::SomeError { msg: "failed parsing query".to_string() })
    );
}

#[test]
fn query_without_q_is_rejected() {
    assert_eq!(
        parse_query(Some("term=cats")),
        Err(AppError::SomeError { msg: "only qs 'q' is accepted".to_string() })
    );
    assert_eq!(
        parse_query(Some("")),
        Err(AppError::SomeError { msg: "only qs 'q' is accepted".to_string() })
    );
}

#[test]
fn cats_is_accepted() {
    assert_eq!(parse_query(Some("q=cats")), Ok(QueryOpts { query: "cats".to_string() }));
}

#[test]
fn q_among_other_parameters() {
    assert_eq!(find_q("page=2&q=dogs&lang=en"), Some("dogs".to_string()));
    assert_eq!(find_q("q=first&q=second"), Some("first".to_string()));
    assert_eq!(find_q("aq=x&q=y"), Some("y".to_string()));
    assert_eq!(find_q("q="), Some(String::new()));
    assert_eq!(find_q("q"), None);
    assert_eq!(find_q("&&"), None);
}

#[test]
fn length_counts_characters_not_bytes() {
    assert_eq!(validate_query("äöü"), Ok(()));
    assert_eq!(
        validate_query("äö"),
        Err(AppError::ValidationError { min: 3, max: 30, actual: 2 })
    );
}

#[test]
fn empty_term_is_rejected() {
    assert_eq!(
        parse_query(Some("q=")),
        Err(AppError::ValidationError { min: 3, max: 30, actual: 0 })
    );
}
