//! The statement that updates a stored task.

use vstd::prelude::*;
use crate::models::task::{task_all_fields, task_changes, TaskDbo};
use crate::repository::RepositoryError;
use crate::text::{join_clauses, uuid_text, uuid_to_string};

verus! {

/// `Update Tasks <clauses> WHERE id = '<id>'`.
pub open spec fn task_update_sql(clauses: Seq<char>, id: u128) -> Seq<char> {
    "Update Tasks "@ + clauses + " WHERE id = '"@ + uuid_text(id) + "'"@
}

/// The statement that stores `task` over the stored task with its id: with
/// the earlier value `old`, it sets the fields that differ, and is refused
/// when none does; without it, it sets every field.
pub fn update_statement(task: &TaskDbo, old: Option<TaskDbo>) -> (r: Result<String, RepositoryError>)
    ensures
        match old {
            Some(o) => match r {
                Ok(s) => task_changes(*task, o).len() > 0 && s@ == task_update_sql(
                    join_clauses(task_changes(*task, o)),
                    task.id,
                ),
                Err(e) => task_changes(*task, o).len() == 0 && e == RepositoryError::NothingToUpdate,
            },
            None => r matches Ok(s) && s@ == task_update_sql(
                join_clauses(task_all_fields(*task)),
                task.id,
            ),
        },
{
    let update = match old {
        Some(o) => task.get_update(o),
        None => task.get_force_update(),
    };
    match update {
        None => Err(RepositoryError::NothingToUpdate),
        Some(clauses) => {
            let mut sql = String::from_str("Update Tasks ");
            sql.append(clauses.as_str());
            sql.append(" WHERE id = '");
            sql.append(uuid_to_string(task.id).as_str());
            sql.append("'");
            Ok(sql)
        },
    }
}

} // verus!
