//! The service's answer and the compact output document.

use vstd::prelude::*;

verus! {

/// The error object of a failed answer.
#[derive(Debug, Clone, PartialEq)]
pub struct ApiError {
    pub code: Option<String>,
    pub message: Option<String>,
}

/// One catalogue entry, as the service describes it.
#[derive(Debug, Clone, PartialEq)]
pub struct Skill {
    pub id: String,
    pub name: String,
    pub author: String,
    pub description: Option<String>,
    pub github_url: Option<String>,
    pub skill_url: Option<String>,
    pub stars: Option<u32>,
}

/// Where the returned page stands in the whole result set.
#[derive(Debug, Clone, Copy, PartialEq, Eq)]
pub struct Pagination {
    pub page: u32,
    pub limit: u32,
    pub total: u32,
    pub total_pages: u32,
    pub has_next: bool,
    pub has_prev: bool,
}

/// The payload of a successful answer.
#[derive(Debug, Clone, PartialEq)]
pub struct ResponseData {
    pub skills: Vec<Skill>,
    pub pagination: Pagination,
}

/// The envelope of every answer; each part may be missing.
#[derive(Debug, Clone, PartialEq)]
pub struct ApiResponse {
    pub success: Option<bool>,
    pub data: Option<ResponseData>,
    pub error: Option<ApiError>,
}

/// One entry of the output document.
#[derive(Debug, Clone, PartialEq)]
pub struct AiSkill {
    pub name: String,
    pub author: String,
    pub description: String,
    pub stars: u32,
    pub url: String,
}

/// The output document.
#[derive(Debug, Clone, PartialEq)]
pub struct AiOutput {
    pub query: String,
    pub total_results: u32,
    pub page: u32,
    pub skills: Vec<AiSkill>,
}

pub ghost struct ResponseDataView {
    pub skills: Seq<Skill>,
    pub pagination: Pagination,
}

pub ghost struct ApiResponseView {
    pub success: Option<bool>,
    pub data: Option<ResponseDataView>,
    pub error: Option<ApiError>,
}

pub ghost struct AiOutputView {
    pub query: String,
    pub total_results: u32,
    pub page: u32,
    pub skills: Seq<AiSkill>,
}

impl View for ResponseData {
    type V = ResponseDataView;

    open spec fn view(&self) -> ResponseDataView {
        ResponseDataView { skills: self.skills@, pagination: self.pagination }
    }
}

impl View for ApiResponse {
    type V = ApiResponseView;

    open spec fn view(&self) -> ApiResponseView {
        ApiResponseView {
            success: self.success,
            data: match self.data {
                Some(d) => Some(d@),
                None => None,
            },
            error: self.error,
        }
    }
}

impl View for AiOutput {
    type V = AiOutputView;

    open spec fn view(&self) -> AiOutputView {
        AiOutputView {
            query: self.query,
            total_results: self.total_results,
            page: self.page,
            skills: self.skills@,
        }
    }
}

} // verus!
