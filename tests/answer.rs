use sks::decode::{decode, decode_json, DecodeError};
use sks::json::{get_field, Json};
use sks::model::{AiOutput, AiSkill, ApiError, ApiResponse, Pagination, ResponseData, Skill};
use sks::project::{project, ProjectionError};

fn pagination_json(page: u32, total: u32) -> String {
    format!(
        "{{\"page\":{},\"limit\":10,\"total\":{},\"totalPages\":1,\"hasNext\":false,\"hasPrev\":false}}",
        page, total
    )
}

fn body_with_skills(skills: &str, page: u32, total: u32) -> Vec<u8> {
    format!(
        "{{\"success\":true,\"data\":{{\"skills\":[{}],\"pagination\":{}}}}}",
        skills,
        pagination_json(page, total)
    )
    .into_bytes()
}

fn output_of(body: &[u8], query: &str) -> Result<AiOutput, ProjectionError> {
    project(decode(body).unwrap(), query.to_string())
}

#[test]
fn decodes_a_full_answer() {
    let body = body_with_skills(
        "{\"id\":\"s1\",\"name\":\"Foo\",\"author\":\"bar\",\"description\":\"d\",\
         \"githubUrl\":\"https://g\",\"skillUrl\":\"https://x\",\"stars\":42}",
        2,
        31,
    );
    let r = decode(&body).unwrap();
    assert_eq!(r.success, Some(true));
    assert_eq!(r.error, None);
    let data = r.data.unwrap();
    assert_eq!(
        data.skills,
        vec![Skill {
            id: "s1".to_string(),
            name: "Foo".to_string(),
            author: "bar".to_string(),
            description: Some("d".to_string()),
            github_url: Some("https://g".to_string()),
            skill_url: Some("https://x".to_string()),
            stars: Some(42),
        }]
    );
    assert_eq!(
        data.pagination,
        Pagination { page: 2, limit: 10, total: 31, total_pages: 1, has_next: false, has_prev: false }
    );
}

#[test]
fn decodes_an_empty_object() {
    let r = decode(b"{}").unwrap();
    assert_eq!(r, ApiResponse { success: None, data: None, error: None });
}

#[test]
fn null_members_are_absent() {
    let r = decode(b"{\"success\":null,\"data\":null,\"error\":null}").unwrap();
    assert_eq!(r, ApiResponse { success: None, data: None, error: None });
}

#[test]
fn unknown_members_are_ignored() {
    let r = decode(b"{\"success\":false,\"extra\":[1,2],\"error\":{\"code\":\"E1\",\"message\":\"m\",\"x\":0}}")
        .unwrap();
    assert_eq!(r.success, Some(false));
    assert_eq!(
        r.error,
        Some(ApiError { code: Some("E1".to_string()), message: Some("m".to_string()) })
    );
}

#[test]
fn invalid_json_is_a_syntax_error() {
    assert_eq!(decode(b"{\"success\": tru"), Err(DecodeError::Syntax));
    assert_eq!(decode(b""), Err(DecodeError::Syntax));
}

#[test]
fn non_object_is_a_shape_error() {
    assert_eq!(decode(b"[]"), Err(DecodeError::Shape));
    assert_eq!(decode(b"42"), Err(DecodeError::Shape));
}

#[test]
fn stars_as_text_is_a_shape_error() {
    let body = body_with_skills("{\"id\":\"1\",\"name\":\"a\",\"author\":\"b\",\"stars\":\"42\"}", 1, 1);
    assert_eq!(decode(&body), Err(DecodeError::Shape));
}

#[test]
fn negative_or_fractional_or_huge_stars_are_shape_errors() {
    for stars in ["-1", "1.5", "4294967296"] {
        let skill = format!("{{\"id\":\"1\",\"name\":\"a\",\"author\":\"b\",\"stars\":{}}}", stars);
        assert_eq!(decode(&body_with_skills(&skill, 1, 1)), Err(DecodeError::Shape));
    }
}

#[test]
fn largest_stars_decode() {
    let body = body_with_skills("{\"id\":\"1\",\"name\":\"a\",\"author\":\"b\",\"stars\":4294967295}", 1, 1);
    assert_eq!(decode(&body).unwrap().data.unwrap().skills[0].stars, Some(u32::MAX));
}

#[test]
fn missing_required_name_is_a_shape_error() {
    let body = body_with_skills("{\"id\":\"1\",\"author\":\"b\"}", 1, 1);
    assert_eq!(decode(&body), Err(DecodeError::Shape));
}

#[test]
fn success_as_text_is_a_shape_error() {
    assert_eq!(decode(b"{\"success\":\"yes\"}"), Err(DecodeError::Shape));
}

#[test]
fn missing_pagination_is_a_shape_error() {
    assert_eq!(decode(b"{\"data\":{\"skills\":[]}}"), Err(DecodeError::Shape));
}

#[test]
fn decoding_twice_gives_equal_answers() {
    let body = body_with_skills(
        "{\"id\":\"1\",\"name\":\"a\",\"author\":\"b\",\"stars\":3},{\"id\":\"2\",\"name\":\"c\",\"author\":\"d\"}",
        1,
        2,
    );
    assert_eq!(decode(&body), decode(&body));
    assert_eq!(decode(b"nope"), decode(b"nope"));
}

#[test]
fn decode_json_reads_a_document() {
    let doc = Json::Object(vec![
        ("success".to_string(), Json::Bool(true)),
        ("error".to_string(), Json::Object(vec![("message".to_string(), Json::Str("m".to_string()))])),
    ]);
    let r = decode_json(&doc).unwrap();
    assert_eq!(r.success, Some(true));
    assert_eq!(r.error, Some(ApiError { code: None, message: Some("m".to_string()) }));
    assert_eq!(decode_json(&Json::Null), Err(DecodeError::Shape));
    assert_eq!(decode_json(&Json::Object(vec![("success".to_string(), Json::Number(Some(1)))])), Err(DecodeError::Shape));
}

#[test]
fn last_of_repeated_keys_wins() {
    let fields = vec![
        ("a".to_string(), Json::Bool(true)),
        ("a".to_string(), Json::Bool(false)),
        ("b".to_string(), Json::Null),
    ];
    assert_eq!(get_field(&fields, "a"), Some(&Json::Bool(false)));
    assert_eq!(get_field(&fields, "b"), Some(&Json::Null));
    assert_eq!(get_field(&fields, "c"), None);
}

#[test]
fn nulls_project_to_defaults() {
    let body = body_with_skills(
        "{\"id\":\"1\",\"name\":\"a\",\"author\":\"b\",\"description\":null,\"stars\":null,\"skillUrl\":null}",
        1,
        1,
    );
    let out = output_of(&body, "q").unwrap();
    assert_eq!(
        out.skills,
        vec![AiSkill {
            name: "a".to_string(),
            author: "b".to_string(),
            description: String::new(),
            stars: 0,
            url: String::new(),
        }]
    );
}

#[test]
fn rate_limited_failure() {
    let r = output_of(b"{\"success\":false,\"error\":{\"code\":\"429\",\"message\":\"Rate limited\"}}", "q");
    let e = r.unwrap_err();
    assert_eq!(e, ProjectionError::ApiFailure("Rate limited".to_string()));
    assert_eq!(e.describe(), "Error: Rate limited");
}

#[test]
fn failure_without_error_is_unknown() {
    let e = output_of(b"{\"success\":false}", "q").unwrap_err();
    assert_eq!(e, ProjectionError::ApiFailure("Unknown error".to_string()));
    assert_eq!(e.describe(), "Error: Unknown error");
}

#[test]
fn failure_without_message_is_unknown() {
    let e = output_of(b"{\"success\":false,\"error\":{\"code\":\"E\"}}", "q").unwrap_err();
    assert_eq!(e.describe(), "Error: Unknown error");
}

#[test]
fn failure_wins_over_data() {
    let body = format!(
        "{{\"success\":false,\"error\":{{\"message\":\"down\"}},\"data\":{{\"skills\":[],\"pagination\":{}}}}}",
        pagination_json(1, 0)
    );
    let e = output_of(body.as_bytes(), "q").unwrap_err();
    assert_eq!(e, ProjectionError::ApiFailure("down".to_string()));
}

#[test]
fn missing_data_fails() {
    assert_eq!(output_of(b"{\"success\":true}", "q"), Err(ProjectionError::MissingData));
    assert_eq!(output_of(b"{}", "q"), Err(ProjectionError::MissingData));
    assert_eq!(ProjectionError::MissingData.describe(), "Error: the answer holds no data");
}

#[test]
fn empty_result_echoes_query_and_page() {
    let body = format!("{{\"data\":{{\"skills\":[],\"pagination\":{}}}}}", pagination_json(3, 0));
    let out = output_of(body.as_bytes(), "nothing here").unwrap();
    assert_eq!(
        out,
        AiOutput { query: "nothing here".to_string(), total_results: 0, page: 3, skills: vec![] }
    );
}

#[test]
fn single_skill_projection() {
    let body = body_with_skills(
        "{\"id\":\"i\",\"name\":\"Foo\",\"author\":\"bar\",\"stars\":42,\"skillUrl\":\"https://x\",\"githubUrl\":\"https://g\"}",
        1,
        1,
    );
    let out = output_of(&body, "foo").unwrap();
    assert_eq!(out.query, "foo");
    assert_eq!(out.total_results, 1);
    assert_eq!(
        out.skills,
        vec![AiSkill {
            name: "Foo".to_string(),
            author: "bar".to_string(),
            description: String::new(),
            stars: 42,
            url: "https://x".to_string(),
        }]
    );
}

#[test]
fn github_url_is_not_a_fallback() {
    let body = body_with_skills("{\"id\":\"i\",\"name\":\"n\",\"author\":\"a\",\"githubUrl\":\"https://g\"}", 1, 1);
    assert_eq!(output_of(&body, "q").unwrap().skills[0].url, "");
}

#[test]
fn projection_keeps_order() {
    let body = body_with_skills(
        "{\"id\":\"1\",\"name\":\"zeta\",\"author\":\"a\",\"stars\":1},\
         {\"id\":\"2\",\"name\":\"alpha\",\"author\":\"b\",\"stars\":99},\
         {\"id\":\"3\",\"name\":\"mid\",\"author\":\"c\",\"stars\":5}",
        1,
        3,
    );
    let out = output_of(&body, "q").unwrap();
    let names: Vec<&str> = out.skills.iter().map(|s| s.name.as_str()).collect();
    assert_eq!(names, vec!["zeta", "alpha", "mid"]);
}

#[test]
fn project_built_response_directly() {
    let resp = ApiResponse {
        success: None,
        data: Some(ResponseData {
            skills: vec![],
            pagination: Pagination { page: 4, limit: 5, total: 17, total_pages: 4, has_next: false, has_prev: true },
        }),
        error: None,
    };
    let out = project(resp, "x".to_string()).unwrap();
    assert_eq!(out.total_results, 17);
    assert_eq!(out.page, 4);
}
