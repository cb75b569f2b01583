//! Projection of a decoded answer into the compact output document.

use vstd::prelude::*;
use crate::model::{
    AiOutput, AiOutputView, AiSkill, ApiResponse, ApiResponseView, ResponseDataView, Skill,
};

verus! {

/// Why an answer yields no output document.
#[derive(Debug, Clone, PartialEq)]
pub enum ProjectionError {
    /// The service said `success: false`; the message to show the user.
    ApiFailure(String),
    /// The answer did not report failure, yet carries no payload.
    MissingData,
}

/// The text of an optional string, empty when absent.
pub open spec fn text_or_empty(s: Option<String>) -> Seq<char> {
    match s {
        Some(t) => t@,
        None => Seq::empty(),
    }
}

/// The message shown for a failed answer: the error's message, or
/// `Unknown error` when the answer gives none.
pub open spec fn failure_message(resp: ApiResponseView) -> Seq<char> {
    match resp.error {
        Some(e) => match e.message {
            Some(m) => m@,
            None => "Unknown error"@,
        },
        None => "Unknown error"@,
    }
}

/// `a` is the output entry for `s`: name and author as given, the description
/// and the entry's page address empty when absent, no stars counted as zero.
pub open spec fn skill_projects(s: Skill, a: AiSkill) -> bool {
    &&& a.name == s.name
    &&& a.author == s.author
    &&& a.description@ == text_or_empty(s.description)
    &&& a.stars == match s.stars {
        Some(n) => n,
        None => 0u32,
    }
    &&& a.url@ == text_or_empty(s.skill_url)
}

/// `out` is the output document for `data` and the query text `query`: the
/// entries projected one for one, in the same order.
pub open spec fn output_of(data: ResponseDataView, query: String, out: AiOutputView) -> bool {
    &&& out.query == query
    &&& out.total_results == data.pagination.total
    &&& out.page == data.pagination.page
    &&& out.skills.len() == data.skills.len()
    &&& forall|i: int|
        0 <= i < data.skills.len() ==> skill_projects(data.skills[i], #[trigger] out.skills[i])
}

/// `r` is what projecting `resp` for `query` gives.
pub open spec fn projects(
    resp: ApiResponseView,
    query: String,
    r: Result<AiOutputView, ProjectionError>,
) -> bool {
    if resp.success == Some(false) {
        match r {
            Err(ProjectionError::ApiFailure(m)) => m@ == failure_message(resp),
            _ => false,
        }
    } else {
        match resp.data {
            None => r == Err::<AiOutputView, ProjectionError>(ProjectionError::MissingData),
            Some(data) => match r {
                Ok(out) => output_of(data, query, out),
                Err(_) => false,
            },
        }
    }
}

pub open spec fn result_view(r: Result<AiOutput, ProjectionError>) -> Result<AiOutputView, ProjectionError> {
    match r {
        Ok(out) => Ok(out@),
        Err(e) => Err(e),
    }
}

fn text_or_empty_of(s: &Option<String>) -> (r: String)
    ensures
        r@ == text_or_empty(*s),
{
    match s {
        Some(t) => t.clone(),
        None => String::new(),
    }
}

fn project_skill(s: &Skill) -> (r: AiSkill)
    ensures
        skill_projects(*s, r),
{
    AiSkill {
        name: s.name.clone(),
        author: s.author.clone(),
        description: text_or_empty_of(&s.description),
        stars: match s.stars {
            Some(n) => n,
            None => 0,
        },
        url: text_or_empty_of(&s.skill_url),
    }
}

/// Turns a decoded answer into the output document for the query text `query`.
///
/// An answer with `success: false` fails with its message; one that does not
/// say so and has no payload fails with `MissingData`; any other succeeds.
pub fn project(response: ApiResponse, query: String) -> (r: Result<AiOutput, ProjectionError>)
    ensures
        projects(response@, query, result_view(r)),
{
    if response.success == Some(false) {
        let message = match &response.error {
            Some(e) => match &e.message {
                Some(m) => m.clone(),
                None => String::from_str("Unknown error"),
            },
            None => String::from_str("Unknown error"),
        };
        return Err(ProjectionError::ApiFailure(message));
    }
    match &response.data {
        None => Err(ProjectionError::MissingData),
        Some(data) => {
            let mut skills: Vec<AiSkill> = Vec::new();
            let mut i: usize = 0;
            while i < data.skills.len()
                invariant
                    i <= data.skills@.len(),
                    skills@.len() == i,
                    forall|k: int|
                        0 <= k < i ==> skill_projects(data.skills@[k], #[trigger] skills@[k]),
                decreases data.skills@.len() - i,
            {
                let a = project_skill(&data.skills[i]);
                skills.push(a);
                i = i + 1;
            }
            Ok(
                AiOutput {
                    query,
                    total_results: data.pagination.total,
                    page: data.pagination.page,
                    skills,
                },
            )
        },
    }
}

impl ProjectionError {
    /// The line shown to the user: `Error: ` and the service's message for a
    /// failed answer.
    pub fn describe(&self) -> (r: String)
        ensures
            match self {
                ProjectionError::ApiFailure(m) => r@ == "Error: "@ + m@,
                ProjectionError::MissingData => r@ == "Error: the answer holds no data"@,
            },
    {
        match self {
            ProjectionError::ApiFailure(m) => {
                let mut r = String::from_str("Error: ");
                r.append(m.as_str());
                r
            },
            ProjectionError::MissingData => String::from_str("Error: the answer holds no data"),
        }
    }
}

/// An answer that does not report failure and carries a payload always
/// projects, whatever entries lack: a missing description or address becomes
/// empty text and missing stars become zero.
pub proof fn lemma_projection_defaults(
    resp: ApiResponseView,
    query: String,
    r: Result<AiOutputView, ProjectionError>,
)
    requires
        resp.success != Some(false),
        resp.data is Some,
        projects(resp, query, r),
    ensures
        r is Ok,
        forall|i: int|
            0 <= i < resp.data->Some_0.skills.len() ==> {
                let s = #[trigger] resp.data->Some_0.skills[i];
                let a = r->Ok_0.skills[i];
                &&& s.description is None ==> a.description@ == Seq::<char>::empty()
                &&& s.stars is None ==> a.stars == 0
                &&& s.skill_url is None ==> a.url@ == Seq::<char>::empty()
            },
{
    let data = resp.data->Some_0;
    let out = r->Ok_0;
    assert forall|i: int| 0 <= i < data.skills.len() implies {
        let s = #[trigger] data.skills[i];
        let a = out.skills[i];
        &&& s.description is None ==> a.description@ == Seq::<char>::empty()
        &&& s.stars is None ==> a.stars == 0
        &&& s.skill_url is None ==> a.url@ == Seq::<char>::empty()
    } by {
        assert(skill_projects(data.skills[i], out.skills[i]));
    }
}

/// An empty payload with a total of zero projects to an empty document that
/// echoes the query and the page.
pub proof fn lemma_projection_empty(
    resp: ApiResponseView,
    query: String,
    r: Result<AiOutputView, ProjectionError>,
)
    requires
        resp.success != Some(false),
        resp.data is Some,
        resp.data->Some_0.skills.len() == 0,
        resp.data->Some_0.pagination.total == 0,
        projects(resp, query, r),
    ensures
        r is Ok,
        r->Ok_0.query == query,
        r->Ok_0.total_results == 0,
        r->Ok_0.page == resp.data->Some_0.pagination.page,
        r->Ok_0.skills.len() == 0,
{
}

/// Projection keeps the entries in the order the answer gives them: the
/// `i`-th output entry has the name and author of the `i`-th entry.
pub proof fn lemma_projection_keeps_order(
    resp: ApiResponseView,
    query: String,
    r: Result<AiOutputView, ProjectionError>,
)
    requires
        projects(resp, query, r),
        r is Ok,
    ensures
        resp.data is Some,
        r->Ok_0.skills.len() == resp.data->Some_0.skills.len(),
        forall|i: int|
            0 <= i < r->Ok_0.skills.len() ==> (#[trigger] r->Ok_0.skills[i]).name
                == resp.data->Some_0.skills[i].name && r->Ok_0.skills[i].author
                == resp.data->Some_0.skills[i].author,
{
    let data = resp.data->Some_0;
    let out = r->Ok_0;
    assert forall|i: int| 0 <= i < out.skills.len() implies (#[trigger] out.skills[i]).name
        == data.skills[i].name && out.skills[i].author == data.skills[i].author by {
        assert(skill_projects(data.skills[i], out.skills[i]));
    }
}

} // verus!
