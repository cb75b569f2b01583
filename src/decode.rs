//! Tolerant decoding of the service's answer.
//!
//! Every member of the envelope may be missing or `null`. Inside a present
//! part, the members that the model holds without `Option` are required.
//! Members that the model does not know are ignored. A present member of the
//! wrong JSON type fails the whole decode.

use vstd::prelude::*;
use crate::json::{Json, lookup, get_field, parsed_json, parse_json};
use crate::model::{
    ApiError, ApiResponse, ApiResponseView, Pagination, ResponseData, ResponseDataView, Skill,
};

verus! {

/// Why an answer could not be decoded.
#[derive(Debug, Clone, Copy, PartialEq, Eq, Structural)]
pub enum DecodeError {
    /// The body is not one well-formed JSON document.
    Syntax,
    /// The document does not have the shape of an answer.
    Shape,
}

/// A required string member.
pub open spec fn string_at(fs: Seq<(String, Json)>, key: Seq<char>) -> Option<String> {
    match lookup(fs, key) {
        Some(Json::Str(s)) => Some(s),
        _ => None,
    }
}

/// An optional string member: `Some(None)` when missing or `null`, `None` when
/// present with another type.
pub open spec fn opt_string_at(fs: Seq<(String, Json)>, key: Seq<char>) -> Option<Option<String>> {
    match lookup(fs, key) {
        None => Some(None),
        Some(Json::Null) => Some(None),
        Some(Json::Str(s)) => Some(Some(s)),
        _ => None,
    }
}

/// A JSON number that is an integer in `0 ..= u32::MAX`.
pub open spec fn u32_of(j: Json) -> Option<u32> {
    match j {
        Json::Number(Some(n)) => if n <= u32::MAX {
            Some(n as u32)
        } else {
            None
        },
        _ => None,
    }
}

pub open spec fn u32_at(fs: Seq<(String, Json)>, key: Seq<char>) -> Option<u32> {
    match lookup(fs, key) {
        Some(j) => u32_of(j),
        None => None,
    }
}

pub open spec fn opt_u32_at(fs: Seq<(String, Json)>, key: Seq<char>) -> Option<Option<u32>> {
    match lookup(fs, key) {
        None => Some(None),
        Some(Json::Null) => Some(None),
        Some(j) => match u32_of(j) {
            Some(n) => Some(Some(n)),
            None => None,
        },
    }
}

pub open spec fn bool_at(fs: Seq<(String, Json)>, key: Seq<char>) -> Option<bool> {
    match lookup(fs, key) {
        Some(Json::Bool(b)) => Some(b),
        _ => None,
    }
}

pub open spec fn opt_bool_at(fs: Seq<(String, Json)>, key: Seq<char>) -> Option<Option<bool>> {
    match lookup(fs, key) {
        None => Some(None),
        Some(Json::Null) => Some(None),
        Some(Json::Bool(b)) => Some(Some(b)),
        _ => None,
    }
}

/// A catalogue entry: an object with string members `id`, `name`, `author`,
/// and optional `description`, `githubUrl`, `skillUrl` (strings) and `stars`.
pub open spec fn skill_of(j: Json) -> Option<Skill> {
    match j {
        Json::Object(fs) => {
            let id = string_at(fs@, "id"@);
            let name = string_at(fs@, "name"@);
            let author = string_at(fs@, "author"@);
            let description = opt_string_at(fs@, "description"@);
            let github_url = opt_string_at(fs@, "githubUrl"@);
            let skill_url = opt_string_at(fs@, "skillUrl"@);
            let stars = opt_u32_at(fs@, "stars"@);
            if id is Some && name is Some && author is Some && description is Some
                && github_url is Some && skill_url is Some && stars is Some {
                Some(
                    Skill {
                        id: id->Some_0,
                        name: name->Some_0,
                        author: author->Some_0,
                        description: description->Some_0,
                        github_url: github_url->Some_0,
                        skill_url: skill_url->Some_0,
                        stars: stars->Some_0,
                    },
                )
            } else {
                None
            }
        },
        _ => None,
    }
}

/// Every element is a catalogue entry; the entries in the same order.
pub open spec fn skills_of(items: Seq<Json>) -> Option<Seq<Skill>> {
    if forall|i: int| 0 <= i < items.len() ==> (#[trigger] skill_of(items[i])) is Some {
        Some(Seq::new(items.len(), |i: int| skill_of(items[i])->Some_0))
    } else {
        None
    }
}

/// Page metadata: the integers `page`, `limit`, `total`, `totalPages` and the
/// flags `hasNext`, `hasPrev`, all required.
pub open spec fn pagination_of(j: Json) -> Option<Pagination> {
    match j {
        Json::Object(fs) => {
            let page = u32_at(fs@, "page"@);
            let limit = u32_at(fs@, "limit"@);
            let total = u32_at(fs@, "total"@);
            let total_pages = u32_at(fs@, "totalPages"@);
            let has_next = bool_at(fs@, "hasNext"@);
            let has_prev = bool_at(fs@, "hasPrev"@);
            if page is Some && limit is Some && total is Some && total_pages is Some
                && has_next is Some && has_prev is Some {
                Some(
                    Pagination {
                        page: page->Some_0,
                        limit: limit->Some_0,
                        total: total->Some_0,
                        total_pages: total_pages->Some_0,
                        has_next: has_next->Some_0,
                        has_prev: has_prev->Some_0,
                    },
                )
            } else {
                None
            }
        },
        _ => None,
    }
}

/// The payload: an array `skills` of entries and a `pagination` object.
pub open spec fn data_of(j: Json) -> Option<ResponseDataView> {
    match j {
        Json::Object(fs) => match (lookup(fs@, "skills"@), lookup(fs@, "pagination"@)) {
            (Some(Json::Array(items)), Some(p)) => match (skills_of(items@), pagination_of(p)) {
                (Some(skills), Some(pagination)) => Some(
                    ResponseDataView { skills, pagination },
                ),
                _ => None,
            },
            _ => None,
        },
        _ => None,
    }
}

/// The error object: optional string members `code` and `message`.
pub open spec fn error_of(j: Json) -> Option<ApiError> {
    match j {
        Json::Object(fs) => {
            let code = opt_string_at(fs@, "code"@);
            let message = opt_string_at(fs@, "message"@);
            if code is Some && message is Some {
                Some(ApiError { code: code->Some_0, message: message->Some_0 })
            } else {
                None
            }
        },
        _ => None,
    }
}

/// The envelope: an object with optional `success` (a flag), `data` and `error`.
pub open spec fn response_of(j: Json) -> Option<ApiResponseView> {
    match j {
        Json::Object(fs) => {
            let success = opt_bool_at(fs@, "success"@);
            let data = match lookup(fs@, "data"@) {
                None => Some(None),
                Some(Json::Null) => Some(None),
                Some(d) => match data_of(d) {
                    Some(v) => Some(Some(v)),
                    None => None,
                },
            };
            let error = match lookup(fs@, "error"@) {
                None => Some(None),
                Some(Json::Null) => Some(None),
                Some(e) => match error_of(e) {
                    Some(v) => Some(Some(v)),
                    None => None,
                },
            };
            if success is Some && data is Some && error is Some {
                Some(
                    ApiResponseView {
                        success: success->Some_0,
                        data: data->Some_0,
                        error: error->Some_0,
                    },
                )
            } else {
                None
            }
        },
        _ => None,
    }
}

/// What decoding a body gives.
pub open spec fn decoded(body: Seq<u8>) -> Result<ApiResponseView, DecodeError> {
    match parsed_json(body) {
        None => Err(DecodeError::Syntax),
        Some(j) => match response_of(j) {
            Some(r) => Ok(r),
            None => Err(DecodeError::Shape),
        },
    }
}

fn string_field(fs: &Vec<(String, Json)>, key: &str) -> (r: Option<String>)
    ensures
        r == string_at(fs@, key@),
{
    match get_field(fs, key) {
        Some(Json::Str(s)) => Some(s.clone()),
        _ => None,
    }
}

fn opt_string_field(fs: &Vec<(String, Json)>, key: &str) -> (r: Option<Option<String>>)
    ensures
        r == opt_string_at(fs@, key@),
{
    match get_field(fs, key) {
        None => Some(None),
        Some(Json::Null) => Some(None),
        Some(Json::Str(s)) => Some(Some(s.clone())),
        _ => None,
    }
}

fn u32_value(j: &Json) -> (r: Option<u32>)
    ensures
        r == u32_of(*j),
{
    match j {
        Json::Number(Some(n)) => if *n <= u32::MAX as u64 {
            Some(*n as u32)
        } else {
            None
        },
        _ => None,
    }
}

fn u32_field(fs: &Vec<(String, Json)>, key: &str) -> (r: Option<u32>)
    ensures
        r == u32_at(fs@, key@),
{
    match get_field(fs, key) {
        Some(j) => u32_value(j),
        None => None,
    }
}

fn opt_u32_field(fs: &Vec<(String, Json)>, key: &str) -> (r: Option<Option<u32>>)
    ensures
        r == opt_u32_at(fs@, key@),
{
    match get_field(fs, key) {
        None => Some(None),
        Some(Json::Null) => Some(None),
        Some(j) => match u32_value(j) {
            Some(n) => Some(Some(n)),
            None => None,
        },
    }
}

fn bool_field(fs: &Vec<(String, Json)>, key: &str) -> (r: Option<bool>)
    ensures
        r == bool_at(fs@, key@),
{
    match get_field(fs, key) {
        Some(Json::Bool(b)) => Some(*b),
        _ => None,
    }
}

fn opt_bool_field(fs: &Vec<(String, Json)>, key: &str) -> (r: Option<Option<bool>>)
    ensures
        r == opt_bool_at(fs@, key@),
{
    match get_field(fs, key) {
        None => Some(None),
        Some(Json::Null) => Some(None),
        Some(Json::Bool(b)) => Some(Some(*b)),
        _ => None,
    }
}

fn skill_value(j: &Json) -> (r: Option<Skill>)
    ensures
        r == skill_of(*j),
{
    match j {
        Json::Object(fs) => {
            let id = string_field(fs, "id");
            let name = string_field(fs, "name");
            let author = string_field(fs, "author");
            let description = opt_string_field(fs, "description");
            let github_url = opt_string_field(fs, "githubUrl");
            let skill_url = opt_string_field(fs, "skillUrl");
            let stars = opt_u32_field(fs, "stars");
            match (id, name, author, description, github_url, skill_url, stars) {
                (
                    Some(id),
                    Some(name),
                    Some(author),
                    Some(description),
                    Some(github_url),
                    Some(skill_url),
                    Some(stars),
                ) => Some(Skill { id, name, author, description, github_url, skill_url, stars }),
                _ => None,
            }
        },
        _ => None,
    }
}

fn skills_value(items: &Vec<Json>) -> (r: Option<Vec<Skill>>)
    ensures
        match r {
            Some(v) => skills_of(items@) == Some(v@),
            None => skills_of(items@) is None,
        },
{
    let mut out: Vec<Skill> = Vec::new();
    let mut i: usize = 0;
    while i < items.len()
        invariant
            i <= items@.len(),
            out@.len() == i,
            forall|k: int| 0 <= k < i ==> skill_of(items@[k]) == Some(#[trigger] out@[k]),
        decreases items@.len() - i,
    {
        match skill_value(&items[i]) {
            Some(s) => out.push(s),
            None => {
                assert(skill_of(items@[i as int]) is None);
                return None;
            },
        }
        i = i + 1;
    }
    assert forall|k: int| 0 <= k < items@.len() implies (#[trigger] skill_of(items@[k])) is Some by {
        assert(skill_of(items@[k]) == Some(out@[k]));
    }
    assert(out@ =~= Seq::new(items@.len(), |k: int| skill_of(items@[k])->Some_0));
    Some(out)
}

fn pagination_value(j: &Json) -> (r: Option<Pagination>)
    ensures
        r == pagination_of(*j),
{
    match j {
        Json::Object(fs) => {
            let page = u32_field(fs, "page");
            let limit = u32_field(fs, "limit");
            let total = u32_field(fs, "total");
            let total_pages = u32_field(fs, "totalPages");
            let has_next = bool_field(fs, "hasNext");
            let has_prev = bool_field(fs, "hasPrev");
            match (page, limit, total, total_pages, has_next, has_prev) {
                (
                    Some(page),
                    Some(limit),
                    Some(total),
                    Some(total_pages),
                    Some(has_next),
                    Some(has_prev),
                ) => Some(Pagination { page, limit, total, total_pages, has_next, has_prev }),
                _ => None,
            }
        },
        _ => None,
    }
}

fn data_value(j: &Json) -> (r: Option<ResponseData>)
    ensures
        match r {
            Some(d) => data_of(*j) == Some(d@),
            None => data_of(*j) is None,
        },
{
    match j {
        Json::Object(fs) => match (get_field(fs, "skills"), get_field(fs, "pagination")) {
            (Some(Json::Array(items)), Some(p)) => match (skills_value(items), pagination_value(p)) {
                (Some(skills), Some(pagination)) => Some(ResponseData { skills, pagination }),
                _ => None,
            },
            _ => None,
        },
        _ => None,
    }
}

fn error_value(j: &Json) -> (r: Option<ApiError>)
    ensures
        r == error_of(*j),
{
    match j {
        Json::Object(fs) => match (opt_string_field(fs, "code"), opt_string_field(fs, "message")) {
            (Some(code), Some(message)) => Some(ApiError { code, message }),
            _ => None,
        },
        _ => None,
    }
}

/// Decodes an answer from its parsed JSON document.
pub fn decode_json(j: &Json) -> (r: Result<ApiResponse, DecodeError>)
    ensures
        match r {
            Ok(resp) => response_of(*j) == Some(resp@),
            Err(e) => response_of(*j) is None && e == DecodeError::Shape,
        },
{
    match j {
        Json::Object(fs) => {
            let success = opt_bool_field(fs, "success");
            let data = match get_field(fs, "data") {
                None => Some(None),
                Some(Json::Null) => Some(None),
                Some(d) => match data_value(d) {
                    Some(v) => Some(Some(v)),
                    None => None,
                },
            };
            let error = match get_field(fs, "error") {
                None => Some(None),
                Some(Json::Null) => Some(None),
                Some(e) => match error_value(e) {
                    Some(v) => Some(Some(v)),
                    None => None,
                },
            };
            match (success, data, error) {
                (Some(success), Some(data), Some(error)) => Ok(ApiResponse { success, data, error }),
                _ => Err(DecodeError::Shape),
            }
        },
        _ => Err(DecodeError::Shape),
    }
}

/// Decodes an answer from the raw bytes of its body.
pub fn decode(body: &[u8]) -> (r: Result<ApiResponse, DecodeError>)
    ensures
        match r {
            Ok(resp) => decoded(body@) == Ok::<ApiResponseView, DecodeError>(resp@),
            Err(e) => decoded(body@) == Err::<ApiResponseView, DecodeError>(e),
        },
{
    match parse_json(body) {
        None => Err(DecodeError::Syntax),
        Some(j) => decode_json(&j),
    }
}

/// Decoding depends on the body alone: two decodes of the same bytes give
/// structurally equal answers, or the same error.
pub proof fn lemma_decode_repeatable(
    body: Seq<u8>,
    again: Seq<u8>,
    first: Result<ApiResponseView, DecodeError>,
    second: Result<ApiResponseView, DecodeError>,
)
    requires
        again == body,
        first == decoded(body),
        second == decoded(again),
    ensures
        first == second,
{
}

} // verus!
