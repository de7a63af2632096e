use vstd::prelude::*;

use crate::api::errors::{api_error_is, ApiError};
use crate::domain::task::{listed_statuses, visible_statuses, NewTask, Status, Task, UpdateTask};
use crate::text::{trim, trim_str, utf8_len};

verus! {

broadcast use vstd::string::group_string_axioms;

/// Longest title accepted, in characters.
pub const MAX_TITLE_LEN: usize = 128;

/// Longest description accepted, in bytes.
pub const MAX_DESCRIPTION_LEN: usize = 16 * 1024;

/// Query string for `GET /api/v1/tasks`.
#[derive(Debug, Clone, Copy, Default)]
pub struct ListQuery {
    pub include_terminal: bool,
}

impl ListQuery {
    /// The statuses the listing returns: `Done` and `Cancelled` only on request.
    pub fn statuses(&self) -> (v: Vec<Status>)
        ensures
            v@ == listed_statuses(self.include_terminal),
    {
        visible_statuses(self.include_terminal)
    }
}

/// JSON body for `POST /api/v1/tasks`.
#[derive(Debug, Clone)]
pub struct CreateBody {
    pub title: String,
    pub description: Option<String>,
}

/// JSON body for `PUT /api/v1/tasks/{id}`.
#[derive(Debug, Clone)]
pub struct UpdateBody {
    pub title: String,
    pub description: Option<String>,
}

/// JSON body for `POST /api/v1/tasks/{id}/status`.
#[derive(Debug, Clone, Copy)]
pub struct StatusBody {
    pub status: Status,
}

/// JSON body for `POST /api/v1/tasks/reorder`.
#[derive(Debug, Clone)]
pub struct ReorderBody {
    pub ids: Vec<i64>,
}

/// Response body for `POST /api/v1/tasks/reorder`.
#[derive(Debug, Clone, Copy)]
pub struct ReorderResult {
    pub rewritten: u64,
}

/// The title a request yields: trimmed, 1 to 128 characters.
pub open spec fn title_check(raw: Seq<char>) -> Result<Seq<char>, Seq<char>> {
    let t = trim(raw);
    if t.len() == 0 {
        Err("title must not be empty"@)
    } else if t.len() > MAX_TITLE_LEN {
        Err("title must be at most 128 characters"@)
    } else {
        Ok(t)
    }
}

/// The description a request yields: trimmed, absent when blank, at most 16 KiB.
pub open spec fn description_check(raw: Option<Seq<char>>) -> Result<Option<Seq<char>>, Seq<char>> {
    match raw {
        None => Ok(None),
        Some(v) => {
            let t = trim(v);
            if t.len() == 0 {
                Ok(None)
            } else if utf8_len(t) > MAX_DESCRIPTION_LEN {
                Err("description must be at most 16384 bytes"@)
            } else {
                Ok(Some(t))
            }
        },
    }
}

/// `r` answers a check with outcome `c` (a 400 carrying the message on failure).
pub open spec fn answers<T>(r: Result<T, ApiError>, c: Result<Seq<char>, Seq<char>>, value: spec_fn(T) -> Seq<char>) -> bool {
    match c {
        Ok(v) => r matches Ok(x) && value(x) == v,
        Err(m) => r matches Err(e) && api_error_is(e, 400, "bad_request"@, m),
    }
}

/// Trim and validate a required title field.
pub fn trim_required_title(raw: &str) -> (r: Result<String, ApiError>)
    ensures
        answers(r, title_check(raw@), |s: String| s@),
{
    let trimmed = trim_str(raw);
    if trimmed.as_str().is_empty() {
        return Err(ApiError::bad_request("title must not be empty".to_owned()));
    }
    if crate::text::chars_of(trimmed.as_str()).len() > MAX_TITLE_LEN {
        return Err(ApiError::bad_request("title must be at most 128 characters".to_owned()));
    }
    Ok(trimmed)
}

/// The characters of an optional string.
pub open spec fn opt_chars(s: Option<String>) -> Option<Seq<char>> {
    match s {
        Some(v) => Some(v@),
        None => None,
    }
}

/// Normalise and validate an optional description.
pub fn sanitize_description(raw: Option<&str>) -> (r: Result<Option<String>, ApiError>)
    ensures
        ({
            let raw_chars = match raw {
                Some(s) => Some(s@),
                None => None,
            };
            match description_check(raw_chars) {
                Ok(d) => r matches Ok(x) && opt_chars(x) == d,
                Err(m) => r matches Err(e) && api_error_is(e, 400, "bad_request"@, m),
            }
        }),
{
    let value = match raw {
        Some(v) => v,
        None => return Ok(None),
    };
    let trimmed = trim_str(value);
    if trimmed.as_str().is_empty() {
        return Ok(None);
    }
    if trimmed.as_str().as_bytes().len() > MAX_DESCRIPTION_LEN {
        return Err(ApiError::bad_request("description must be at most 16384 bytes".to_owned()));
    }
    Ok(Some(trimmed))
}

/// The task to create from a request body: the title is checked first.
pub fn new_task(body: &CreateBody) -> (r: Result<NewTask, ApiError>)
    ensures
        r matches Ok(t) ==> title_check(body.title@) == Ok::<Seq<char>, Seq<char>>(t.title@)
            && description_check(opt_chars(body.description)) == Ok::<Option<Seq<char>>, Seq<char>>(
            opt_chars(t.description),
        ),
        title_check(body.title@) matches Err(m) ==> (r matches Err(e) && api_error_is(
            e,
            400,
            "bad_request"@,
            m,
        )),
        title_check(body.title@) is Ok ==> (description_check(opt_chars(body.description)) matches Err(
            m,
        ) ==> (r matches Err(e) && api_error_is(e, 400, "bad_request"@, m))),
        title_check(body.title@) is Ok && description_check(opt_chars(body.description)) is Ok
            ==> r is Ok,
{
    let title = trim_required_title(body.title.as_str())?;
    let description = sanitize_description(
        match &body.description {
            Some(d) => Some(d.as_str()),
            None => None,
        },
    )?;
    Ok(NewTask { title, description })
}

/// The edit to apply from a request body: the title is checked first.
pub fn update_task(body: &UpdateBody) -> (r: Result<UpdateTask, ApiError>)
    ensures
        r matches Ok(t) ==> title_check(body.title@) == Ok::<Seq<char>, Seq<char>>(t.title@)
            && description_check(opt_chars(body.description)) == Ok::<Option<Seq<char>>, Seq<char>>(
            opt_chars(t.description),
        ),
        title_check(body.title@) matches Err(m) ==> (r matches Err(e) && api_error_is(
            e,
            400,
            "bad_request"@,
            m,
        )),
        title_check(body.title@) is Ok ==> (description_check(opt_chars(body.description)) matches Err(
            m,
        ) ==> (r matches Err(e) && api_error_is(e, 400, "bad_request"@, m))),
        title_check(body.title@) is Ok && description_check(opt_chars(body.description)) is Ok
            ==> r is Ok,
{
    let title = trim_required_title(body.title.as_str())?;
    let description = sanitize_description(
        match &body.description {
            Some(d) => Some(d.as_str()),
            None => None,
        },
    )?;
    Ok(UpdateTask { title, description })
}

/// A task lookup answered as the API does: 404 `"task not found"` when absent.
pub fn found(task: Option<Task>) -> (r: Result<Task, ApiError>)
    ensures
        task matches Some(t) ==> r matches Ok(x) && x == t,
        task is None ==> (r matches Err(e) && api_error_is(e, 404, "not_found"@, "task not found"@)),
{
    match task {
        Some(t) => Ok(t),
        None => Err(ApiError::not_found("task not found".to_owned())),
    }
}

/// A request body the JSON extractor rejected: 400 with the rejection text.
pub fn json_rejection(body_text: String) -> (e: ApiError)
    ensures
        api_error_is(e, 400, "bad_request"@, body_text@),
{
    ApiError::bad_request(body_text)
}

/// The reorder response for `rewritten` rows.
pub fn reorder_result(rewritten: usize) -> (r: ReorderResult)
    ensures
        r.rewritten == rewritten,
{
    ReorderResult { rewritten: rewritten as u64 }
}

} // verus!
