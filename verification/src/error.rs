use vstd::prelude::*;
use vstd::string::StringExecFns;

verus! {

/// Error for a content-less operation that the server answered with a
/// non-success status; it carries the status text.
#[derive(Debug, Clone)]
pub struct RequestFailed {
    err_code: String,
}

impl RequestFailed {
    /// The status text the server answered with.
    pub closed spec fn spec_code(&self) -> Seq<char> {
        self.err_code@
    }

    pub fn new(err_code: String) -> (r: RequestFailed)
        ensures
            r.spec_code() == err_code@,
    {
        RequestFailed { err_code }
    }

    /// The status text carried by this error.
    pub fn code(&self) -> (r: &String)
        ensures
            r@ == self.spec_code(),
    {
        &self.err_code
    }

    /// One human-readable line describing the failure.
    pub fn message(&self) -> (r: String)
        ensures
            r@ == "the request failed with status code "@ + self.spec_code(),
    {
        String::from_str("the request failed with status code ").concat(self.err_code.as_str())
    }
}

/// Error for a name-based project lookup that matched nothing.
#[derive(Debug, Clone)]
pub struct ProjectNotFound {}

impl ProjectNotFound {
    pub fn new() -> (r: ProjectNotFound)
        ensures
            r == (ProjectNotFound {}),
    {
        ProjectNotFound {}
    }

    /// One human-readable line describing the failure.
    pub fn message(&self) -> (r: String)
        ensures
            r@ == "the project was not found"@,
    {
        String::from_str("the project was not found")
    }
}

/// The error taxonomy of the client layer. Every operation surfaces its
/// failure as one of these; none is silently swallowed.
#[derive(Debug, Clone)]
pub enum ApiError {
    /// Connectivity failure: no response arrived; the cause is surfaced
    /// verbatim.
    TransportError(String),
    /// A non-success status on a content-less operation.
    RequestFailed(RequestFailed),
    /// A response body that does not match the expected shape.
    DecodeError(String),
    /// A name-based lookup that matched nothing.
    NotFound(ProjectNotFound),
}

impl ApiError {
    /// The single human-readable line shown for the failure.
    pub fn message(&self) -> (r: String)
        ensures
            match *self {
                ApiError::TransportError(m) => r@ == m@,
                ApiError::RequestFailed(e) => r@ == "the request failed with status code "@
                    + e.spec_code(),
                ApiError::DecodeError(m) => r@ == m@,
                ApiError::NotFound(_) => r@ == "the project was not found"@,
            },
    {
        match self {
            ApiError::TransportError(m) => m.clone(),
            ApiError::RequestFailed(e) => e.message(),
            ApiError::DecodeError(m) => m.clone(),
            ApiError::NotFound(e) => e.message(),
        }
    }
}

} // verus!
