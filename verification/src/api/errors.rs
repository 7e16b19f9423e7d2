//! The errors of the task and project endpoints, and what each is answered.

use vstd::prelude::*;

verus! {

/// The body of an error reply: why the request failed.
pub struct ErrorResponse {
    pub reason: String,
}

impl ErrorResponse {
    pub fn new(reason: &str) -> (r: ErrorResponse)
        ensures
            r.reason@ == reason@,
    {
        ErrorResponse { reason: String::from_str(reason) }
    }
}

/// Errors of the task endpoints.
pub enum TaskError {
    NotFound,
    InvalidPatch,
    InternalError,
    /// A database failure, by its message.
    Database(String),
}

/// The HTTP status of a task error.
pub open spec fn task_error_status(e: TaskError) -> u16 {
    match e {
        TaskError::NotFound => 404,
        TaskError::InvalidPatch => 400,
        TaskError::InternalError => 500,
        TaskError::Database(_) => 500,
    }
}

/// The text of a task error: the variant's name, or the database's message.
pub open spec fn task_error_text(e: TaskError) -> Seq<char> {
    match e {
        TaskError::NotFound => "NotFound"@,
        TaskError::InvalidPatch => "InvalidPatch"@,
        TaskError::InternalError => "InternalError"@,
        TaskError::Database(m) => m@,
    }
}

impl TaskError {
    pub fn status_code(&self) -> (r: u16)
        ensures
            r == task_error_status(*self),
    {
        match self {
            TaskError::NotFound => 404,
            TaskError::InvalidPatch => 400,
            TaskError::InternalError => 500,
            TaskError::Database(_) => 500,
        }
    }

    /// The error's text.
    pub fn to_text(&self) -> (r: String)
        ensures
            r@ == task_error_text(*self),
    {
        match self {
            TaskError::NotFound => String::from_str("NotFound"),
            TaskError::InvalidPatch => String::from_str("InvalidPatch"),
            TaskError::InternalError => String::from_str("InternalError"),
            TaskError::Database(m) => m.clone(),
        }
    }

    /// The reply to a task error: its status, and its text as the body.
    pub fn error_response(&self) -> (r: (u16, String))
        ensures
            r.0 == task_error_status(*self),
            r.1@ == task_error_text(*self),
    {
        (self.status_code(), self.to_text())
    }
}

/// Errors of the project endpoints.
pub enum ProjectError {
    NotFound,
    InvalidPatch,
    InternalError,
}

/// The HTTP status of a project error.
pub open spec fn project_error_status(e: ProjectError) -> u16 {
    match e {
        ProjectError::NotFound => 404,
        ProjectError::InvalidPatch => 400,
        ProjectError::InternalError => 500,
    }
}

/// The reason a project error gives.
pub open spec fn project_error_reason(e: ProjectError) -> Seq<char> {
    match e {
        ProjectError::NotFound => "Project not found"@,
        ProjectError::InvalidPatch => "Invalid patch"@,
        ProjectError::InternalError => "Internal error"@,
    }
}

/// The text of a project error: the variant's name.
pub open spec fn project_error_text(e: ProjectError) -> Seq<char> {
    match e {
        ProjectError::NotFound => "NotFound"@,
        ProjectError::InvalidPatch => "InvalidPatch"@,
        ProjectError::InternalError => "InternalError"@,
    }
}

impl ProjectError {
    pub fn status_code(&self) -> (r: u16)
        ensures
            r == project_error_status(*self),
    {
        match self {
            ProjectError::NotFound => 404,
            ProjectError::InvalidPatch => 400,
            ProjectError::InternalError => 500,
        }
    }

    /// The error's text.
    pub fn to_text(&self) -> (r: String)
        ensures
            r@ == project_error_text(*self),
    {
        match self {
            ProjectError::NotFound => String::from_str("NotFound"),
            ProjectError::InvalidPatch => String::from_str("InvalidPatch"),
            ProjectError::InternalError => String::from_str("InternalError"),
        }
    }

    /// The reply to a project error: its status, and the body that gives
    /// its reason.
    pub fn error_response(&self) -> (r: (u16, ErrorResponse))
        ensures
            r.0 == project_error_status(*self),
            r.1.reason@ == project_error_reason(*self),
    {
        let body = match self {
            ProjectError::NotFound => ErrorResponse::new("Project not found"),
            ProjectError::InvalidPatch => ErrorResponse::new("Invalid patch"),
            ProjectError::InternalError => ErrorResponse::new("Internal error"),
        };
        (self.status_code(), body)
    }
}

/// The steps of an update through a JSON patch, any of which can fail.
pub enum UpdateStep {
    /// The request carries no authenticated user.
    Authorize,
    /// Reading the stored record.
    Fetch,
    /// Turning the record into a JSON document.
    Encode,
    /// Applying the patch to the document.
    Patch,
    /// Reading the record back from the patched document.
    Decode,
    /// Storing the updated record.
    Store,
}

/// Whether a failure at this step is the client's: a patch that does not
/// apply, or that leaves a document that is no longer a record.
pub open spec fn client_fault(step: UpdateStep) -> bool {
    step is Patch || step is Decode
}

impl TaskError {
    /// The error that answers a failed step of a task update.
    pub fn for_failed_step(step: UpdateStep) -> (r: TaskError)
        ensures
            r == (if client_fault(step) {
                TaskError::InvalidPatch
            } else {
                TaskError::InternalError
            }),
    {
        match step {
            UpdateStep::Patch | UpdateStep::Decode => TaskError::InvalidPatch,
            _ => TaskError::InternalError,
        }
    }
}

impl ProjectError {
    /// The error that answers a failed step of a project request.
    pub fn for_failed_step(step: UpdateStep) -> (r: ProjectError)
        ensures
            r == (if client_fault(step) {
                ProjectError::InvalidPatch
            } else {
                ProjectError::InternalError
            }),
    {
        match step {
            UpdateStep::Patch | UpdateStep::Decode => ProjectError::InvalidPatch,
            _ => ProjectError::InternalError,
        }
    }
}

/// A failed update is answered `400 Bad Request` when the patch is at fault
/// and `500 Internal Server Error` otherwise, by the task and the project
/// endpoints alike.
pub proof fn lemma_failed_step_status(step: UpdateStep)
    ensures
        task_error_status(
            if client_fault(step) {
                TaskError::InvalidPatch
            } else {
                TaskError::InternalError
            },
        ) == (if client_fault(step) {
            400u16
        } else {
            500u16
        }),
        project_error_status(
            if client_fault(step) {
                ProjectError::InvalidPatch
            } else {
                ProjectError::InternalError
            },
        ) == (if client_fault(step) {
            400u16
        } else {
            500u16
        }),
{
}

} // verus!
