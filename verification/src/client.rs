use vstd::prelude::*;
use vstd::string::StringExecFns;

use crate::error::ApiError;
use crate::error::RequestFailed;
use crate::task::TaskFilter;

verus! {

/// The versioned REST root that every task, project and label endpoint is
/// a sub-path of.
pub open spec fn base_url() -> Seq<char> {
    "https://api.todoist.com/rest/v2"@
}

/// The full URL of one request: the fixed base, then the sub-path.
pub fn full_url(sub_path: &String) -> (r: String)
    ensures
        r@ == base_url() + sub_path@,
{
    String::from_str("https://api.todoist.com/rest/v2").concat(sub_path.as_str())
}

/// The authorization header attached to every call: its name, and the
/// bearer value carrying the caller's token.
pub fn bearer_header(token: String) -> (r: (String, String))
    ensures
        r.0@ == "Authorization"@,
        r.1@ == "Bearer "@ + token@,
{
    (String::from_str("Authorization"), String::from_str("Bearer ").concat(token.as_str()))
}

/// The listing sub-path: `/tasks`, with the filter's query string
/// appended verbatim when a filter is present.
pub fn find_path(filter: Option<TaskFilter>) -> (r: String)
    ensures
        match filter {
            Some(f) => r@ == "/tasks"@ + "?filter="@ + f.day_filter@,
            None => r@ == "/tasks"@,
        },
{
    match filter {
        Some(f) => {
            let q = f.to_string();
            String::from_str("/tasks").concat(q.as_str())
        },
        None => String::from_str("/tasks"),
    }
}

/// The sub-path that fetches one task by identifier.
pub fn view_path(id: &String) -> (r: String)
    ensures
        r@ == "/tasks/"@ + id@,
{
    String::from_str("/tasks/").concat(id.as_str())
}

/// The sub-path that fetches one project by identifier.
pub fn project_view_path(id: &String) -> (r: String)
    ensures
        r@ == "/projects/"@ + id@,
{
    String::from_str("/projects/").concat(id.as_str())
}

/// The sub-path that lists all projects.
pub fn projects_path() -> (r: String)
    ensures
        r@ == "/projects"@,
{
    String::from_str("/projects")
}

/// The sub-path that lists all labels.
pub fn labels_path() -> (r: String)
    ensures
        r@ == "/labels"@,
{
    String::from_str("/labels")
}

/// The sub-path that creates a task.
pub fn create_path() -> (r: String)
    ensures
        r@ == "/tasks"@,
{
    String::from_str("/tasks")
}

/// The full URL that closes one task: the base, the task sub-path with
/// the identifier, then the close suffix.
pub fn close_url(id: &String) -> (r: String)
    ensures
        r@ == base_url() + "/tasks/"@ + id@ + "/close"@,
{
    let r = String::from_str("https://api.todoist.com/rest/v2/tasks/").concat(
        id.as_str(),
    ).concat("/close");
    proof {
        reveal_strlit("https://api.todoist.com/rest/v2");
        reveal_strlit("/tasks/");
        reveal_strlit("https://api.todoist.com/rest/v2/tasks/");
        assert("https://api.todoist.com/rest/v2/tasks/"@ =~= base_url() + "/tasks/"@);
        assert(r@ =~= base_url() + "/tasks/"@ + id@ + "/close"@);
    }
    r
}

/// What one attempted round trip that expects a typed body came back
/// with: the decoded body, a delivered response whose body did not match
/// the expected shape, or no response at all.
pub enum FetchReply<T> {
    Decoded(T),
    Undecodable(String),
    TransportFailed(String),
}

/// Classify the outcome of a typed fetch: a decoded body is the result; a
/// delivered body of the wrong shape (which a non-success response also
/// produces) is a decode error carrying the reported detail; no response
/// is a transport error carrying the cause verbatim.
pub fn fetch_result<T>(reply: FetchReply<T>) -> (r: Result<T, ApiError>)
    ensures
        match reply {
            FetchReply::Decoded(v) => r == Ok::<T, ApiError>(v),
            FetchReply::Undecodable(m) => r == Err::<T, ApiError>(ApiError::DecodeError(m)),
            FetchReply::TransportFailed(m) => r == Err::<T, ApiError>(
                ApiError::TransportError(m),
            ),
        },
{
    match reply {
        FetchReply::Decoded(v) => Ok(v),
        FetchReply::Undecodable(m) => Err(ApiError::DecodeError(m)),
        FetchReply::TransportFailed(m) => Err(ApiError::TransportError(m)),
    }
}

/// What the close call, which expects no body, came back with: a
/// delivered response with its success flag and status text, or no
/// response at all.
pub enum CloseReply {
    Delivered { success: bool, status: String },
    TransportFailed(String),
}

/// Classify the outcome of closing a task: a delivered success is the
/// content-less result; a delivered non-success status is `RequestFailed`
/// carrying exactly that status text — never a transport error; only the
/// absence of any response is a transport error.
pub fn close_result(reply: CloseReply) -> (r: Result<(), ApiError>)
    ensures
        match reply {
            CloseReply::Delivered { success, status } => {
                &&& success ==> r == Ok::<(), ApiError>(())
                &&& !success ==> (match r {
                    Err(ApiError::RequestFailed(rf)) => rf.spec_code() == status@,
                    _ => false,
                })
            },
            CloseReply::TransportFailed(m) => r == Err::<(), ApiError>(
                ApiError::TransportError(m),
            ),
        },
{
    match reply {
        CloseReply::Delivered { success, status } => {
            if success {
                Ok(())
            } else {
                Err(ApiError::RequestFailed(RequestFailed::new(status)))
            }
        },
        CloseReply::TransportFailed(m) => Err(ApiError::TransportError(m)),
    }
}

} // verus!
