use sks::request::{build_request, decimal_text, SearchInput, BASE_URL, DEFAULT_LIMIT, DEFAULT_PAGE};

fn input(query: &str, limit: u32, page: u32, sort: &str) -> SearchInput {
    SearchInput {
        query: query.to_string(),
        limit,
        page,
        sort: sort.to_string(),
        api_key: "k123".to_string(),
    }
}

#[test]
fn url_for_plain_query() {
    let r = build_request(&input("python", 10, 1, "recent"));
    assert_eq!(
        r.url,
        "https://skillsmp.com/api/v1/skills/search?q=python&limit=10&page=1&sortBy=recent"
    );
}

#[test]
fn url_encodes_spaces_and_symbols() {
    let r = build_request(&input("rust lang&c=1", 5, 2, "stars"));
    assert_eq!(
        r.url,
        "https://skillsmp.com/api/v1/skills/search?q=rust%20lang%26c%3D1&limit=5&page=2&sortBy=stars"
    );
}

#[test]
fn url_encodes_utf8_bytes_in_upper_case_hex() {
    let r = build_request(&input("café", 3, 7, "recent"));
    assert_eq!(
        r.url,
        "https://skillsmp.com/api/v1/skills/search?q=caf%C3%A9&limit=3&page=7&sortBy=recent"
    );
}

#[test]
fn url_keeps_unreserved_characters() {
    let r = build_request(&input("a-b_c.d~E9", 1, 1, "recent"));
    assert!(r.url.contains("?q=a-b_c.d~E9&limit=1&"));
}

#[test]
fn url_with_empty_query_and_unknown_sort() {
    let r = build_request(&input("", 0, 0, "weird"));
    assert_eq!(
        r.url,
        "https://skillsmp.com/api/v1/skills/search?q=&limit=0&page=0&sortBy=weird"
    );
}

#[test]
fn url_with_largest_numbers() {
    let r = build_request(&input("x", u32::MAX, u32::MAX, "stars"));
    assert!(r.url.ends_with("?q=x&limit=4294967295&page=4294967295&sortBy=stars"));
}

#[test]
fn query_parameter_is_delimited() {
    let r = build_request(&input("a&b=c#d", 10, 1, "recent"));
    let q = r.url.split("?q=").nth(1).unwrap().split('&').next().unwrap();
    assert_eq!(q, "a%26b%3Dc%23d");
}

#[test]
fn headers_carry_bearer_token_and_content_type() {
    let r = build_request(&input("python", 10, 1, "recent"));
    assert_eq!(
        r.headers,
        vec![
            ("Authorization".to_string(), "Bearer k123".to_string()),
            ("Content-Type".to_string(), "application/json".to_string()),
        ]
    );
}

#[test]
fn url_starts_with_base() {
    let r = build_request(&input("q", 1, 1, "recent"));
    assert!(r.url.starts_with(BASE_URL));
    assert_eq!(BASE_URL, "https://skillsmp.com/api/v1");
}

#[test]
fn decimal_of_small_and_large_numbers() {
    assert_eq!(decimal_text(0), "0");
    assert_eq!(decimal_text(9), "9");
    assert_eq!(decimal_text(10), "10");
    assert_eq!(decimal_text(1203), "1203");
    assert_eq!(decimal_text(u32::MAX), "4294967295");
}

#[test]
fn new_input_has_defaults() {
    let i = SearchInput::new("rust".to_string(), "key".to_string());
    assert_eq!(i.query, "rust");
    assert_eq!(i.api_key, "key");
    assert_eq!(i.limit, 10);
    assert_eq!(i.page, 1);
    assert_eq!(DEFAULT_LIMIT, 10);
    assert_eq!(DEFAULT_PAGE, 1);
    assert_eq!(i.sort, "recent");
}
