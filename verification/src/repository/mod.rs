//! What the repositories compute before they talk to the database, and the
//! in-memory task store.

pub mod objects;
pub mod project;
pub mod storage;
pub mod task;

use vstd::prelude::*;
use crate::text::{uuid_text, uuid_to_string};

verus! {

/// Why a repository refuses a request.
pub enum RepositoryError {
    /// A task update that changes no field.
    NothingToUpdate,
    /// A project update that changes neither the name nor the settings.
    NothingToUpdateInProject,
    /// No task with this identifier is stored.
    TaskNotFound(u128),
}

/// The message of a repository error, as the service reports it.
pub open spec fn repository_error_text(e: RepositoryError) -> Seq<char> {
    match e {
        RepositoryError::NothingToUpdate => "Nothing to update"@,
        RepositoryError::NothingToUpdateInProject => "Nothing to update in project"@,
        RepositoryError::TaskNotFound(id) => "Task not found: "@ + uuid_text(id),
    }
}

impl RepositoryError {
    /// The message of the error.
    pub fn message(&self) -> (r: String)
        ensures
            r@ == repository_error_text(*self),
    {
        match self {
            RepositoryError::NothingToUpdate => String::from_str("Nothing to update"),
            RepositoryError::NothingToUpdateInProject => String::from_str(
                "Nothing to update in project",
            ),
            RepositoryError::TaskNotFound(id) => {
                let mut r = String::from_str("Task not found: ");
                r.append(uuid_to_string(*id).as_str());
                r
            },
        }
    }
}

} // verus!
