//! The task record of the in-memory store.

use vstd::prelude::*;

verus! {

/// A task as the in-memory store keeps it.
pub struct TaskDbo {
    pub id: u128,
    pub project_id: u128,
    pub title: String,
    pub description: String,
}

impl Clone for TaskDbo {
    fn clone(&self) -> (r: Self)
        ensures
            r == *self,
    {
        TaskDbo {
            id: self.id,
            project_id: self.project_id,
            title: self.title.clone(),
            description: self.description.clone(),
        }
    }
}

} // verus!
