//! Tasks: their identifiers, the stored record, the view handed to clients
//! and the assignment clauses that update a stored record.

use vstd::prelude::*;
use crate::text::{assignment, bool_text, bool_to_text, join_clauses, push_assignment, quote, quoted, uuid_text, uuid_to_string};

verus! {

/// Identifier of a task.
pub struct TaskId {
    pub id: u128,
}

impl TaskId {
    pub fn from(value: u128) -> (r: TaskId)
        ensures
            r.id == value,
    {
        TaskId { id: value }
    }

    /// The identifier the task id wraps.
    pub fn into(self) -> (r: u128)
        ensures
            r == self.id,
    {
        self.id
    }
}

/// What a client sends to create a task.
pub struct CreateTask {
    pub project_id: u128,
    pub title: String,
    pub description: String,
}

/// A task as it is stored.
pub struct TaskDbo {
    pub id: u128,
    pub project_id: u128,
    pub title: String,
    pub description: String,
    pub completed: bool,
}

/// A task as it is shown to a client.
pub struct TaskView {
    pub id: u128,
    pub title: String,
    pub description: String,
    pub completed: bool,
}

impl Clone for TaskDbo {
    fn clone(&self) -> (r: Self)
        ensures
            r == *self,
    {
        TaskDbo {
            id: self.id,
            project_id: self.project_id,
            title: self.title.clone(),
            description: self.description.clone(),
            completed: self.completed,
        }
    }
}

impl TaskView {
    /// The view of a stored task: everything but the project it belongs to.
    pub fn from(value: TaskDbo) -> (r: TaskView)
        ensures
            r.id == value.id,
            r.title == value.title,
            r.description == value.description,
            r.completed == value.completed,
    {
        TaskView {
            id: value.id,
            title: value.title,
            description: value.description,
            completed: value.completed,
        }
    }
}

/// The assignment for `field` when `changed`, else nothing.
pub open spec fn clause_if(changed: bool, field: Seq<char>, value: Seq<char>) -> Seq<Seq<char>> {
    if changed {
        seq![assignment(field, value)]
    } else {
        Seq::empty()
    }
}

/// The assignments that turn `old` into `new`: one for each field that
/// differs, in the order of the fields, strings and identifiers quoted, the
/// completion flag bare.
pub open spec fn task_changes(new: TaskDbo, old: TaskDbo) -> Seq<Seq<char>> {
    clause_if(new.id != old.id, "id"@, quoted(uuid_text(new.id)))
        + clause_if(new.project_id != old.project_id, "project_id"@, quoted(uuid_text(new.project_id)))
        + clause_if(new.title@ != old.title@, "title"@, quoted(new.title@))
        + clause_if(new.description@ != old.description@, "description"@, quoted(new.description@))
        + clause_if(new.completed != old.completed, "completed"@, bool_text(new.completed))
}

/// The assignments that set every field of `task`, each value quoted.
pub open spec fn task_all_fields(task: TaskDbo) -> Seq<Seq<char>> {
    seq![
        assignment("id"@, quoted(uuid_text(task.id))),
        assignment("project_id"@, quoted(uuid_text(task.project_id))),
        assignment("title"@, quoted(task.title@)),
        assignment("description"@, quoted(task.description@)),
        assignment("completed"@, quoted(bool_text(task.completed))),
    ]
}

impl TaskDbo {
    /// The assignment clauses that turn `old` into `self`, joined by commas;
    /// `None` when no field differs.
    pub fn get_update(&self, old: Self) -> (r: Option<String>)
        ensures
            match r {
                None => task_changes(*self, old).len() == 0,
                Some(s) => task_changes(*self, old).len() > 0 && s@ == join_clauses(
                    task_changes(*self, old),
                ),
            },
    {
        let mut update = String::new();
        let ghost mut parts: Seq<Seq<char>> = Seq::empty();
        let mut first = true;
        if self.id != old.id {
            let value = quote(uuid_to_string(self.id).as_str());
            push_assignment(&mut update, Ghost(parts), first, "id", value.as_str());
            proof {
                parts = parts.push(assignment("id"@, value@));
            }
            first = false;
        }
        assert(parts =~= clause_if(self.id != old.id, "id"@, quoted(uuid_text(self.id))));
        let ghost p1 = parts;
        if self.project_id != old.project_id {
            let value = quote(uuid_to_string(self.project_id).as_str());
            push_assignment(&mut update, Ghost(parts), first, "project_id", value.as_str());
            proof {
                parts = parts.push(assignment("project_id"@, value@));
            }
            first = false;
        }
        assert(parts =~= p1 + clause_if(
            self.project_id != old.project_id,
            "project_id"@,
            quoted(uuid_text(self.project_id)),
        ));
        let ghost p2 = parts;
        if self.title != old.title {
            let value = quote(self.title.as_str());
            push_assignment(&mut update, Ghost(parts), first, "title", value.as_str());
            proof {
                parts = parts.push(assignment("title"@, value@));
            }
            first = false;
        }
        assert(parts =~= p2 + clause_if(self.title@ != old.title@, "title"@, quoted(self.title@)));
        let ghost p3 = parts;
        if self.description != old.description {
            let value = quote(self.description.as_str());
            push_assignment(&mut update, Ghost(parts), first, "description", value.as_str());
            proof {
                parts = parts.push(assignment("description"@, value@));
            }
            first = false;
        }
        assert(parts =~= p3 + clause_if(
            self.description@ != old.description@,
            "description"@,
            quoted(self.description@),
        ));
        let ghost p4 = parts;
        if self.completed != old.completed {
            let value = bool_to_text(self.completed);
            push_assignment(&mut update, Ghost(parts), first, "completed", value.as_str());
            proof {
                parts = parts.push(assignment("completed"@, value@));
            }
            first = false;
        }
        assert(parts =~= p4 + clause_if(
            self.completed != old.completed,
            "completed"@,
            bool_text(self.completed),
        ));
        assert(parts =~= task_changes(*self, old));
        if first {
            None
        } else {
            Some(update)
        }
    }

    /// The assignment clauses that set every field of `self`, joined by
    /// commas, each value quoted.
    pub fn get_force_update(&self) -> (r: Option<String>)
        ensures
            r matches Some(s) && s@ == join_clauses(task_all_fields(*self)),
    {
        let mut update = String::new();
        let id = quote(uuid_to_string(self.id).as_str());
        push_assignment(&mut update, Ghost(Seq::empty()), true, "id", id.as_str());
        let ghost p1 = seq![assignment("id"@, id@)];
        assert(Seq::<Seq<char>>::empty().push(assignment("id"@, id@)) =~= p1);
        let project_id = quote(uuid_to_string(self.project_id).as_str());
        push_assignment(&mut update, Ghost(p1), false, "project_id", project_id.as_str());
        let ghost p2 = p1.push(assignment("project_id"@, project_id@));
        let title = quote(self.title.as_str());
        push_assignment(&mut update, Ghost(p2), false, "title", title.as_str());
        let ghost p3 = p2.push(assignment("title"@, title@));
        let description = quote(self.description.as_str());
        push_assignment(&mut update, Ghost(p3), false, "description", description.as_str());
        let ghost p4 = p3.push(assignment("description"@, description@));
        let completed = quote(bool_to_text(self.completed).as_str());
        push_assignment(&mut update, Ghost(p4), false, "completed", completed.as_str());
        let ghost p5 = p4.push(assignment("completed"@, completed@));
        assert(p5 =~= task_all_fields(*self));
        Some(update)
    }
}

/// Two stored tasks hold the same values in every field.
pub open spec fn same_task(a: TaskDbo, b: TaskDbo) -> bool {
    &&& a.id == b.id
    &&& a.project_id == b.project_id
    &&& a.title@ == b.title@
    &&& a.description@ == b.description@
    &&& a.completed == b.completed
}

/// An update is refused exactly when it changes nothing: the clauses that
/// turn `old` into `new` are empty iff the two tasks agree on every field,
/// and there is one clause per differing field.
pub proof fn lemma_update_needed_iff_changed(new: TaskDbo, old: TaskDbo)
    ensures
        (task_changes(new, old).len() == 0) == same_task(new, old),
        task_changes(new, old).len() == (if new.id != old.id { 1int } else { 0int }) + (if new.project_id
            != old.project_id {
            1int
        } else {
            0int
        }) + (if new.title@ != old.title@ {
            1int
        } else {
            0int
        }) + (if new.description@ != old.description@ {
            1int
        } else {
            0int
        }) + (if new.completed != old.completed {
            1int
        } else {
            0int
        }),
{
}

/// Every clause of an update writes the new task's value into the field it
/// names, never the old one: a changed identifier as its quoted hyphenated
/// form, a changed title or description quoted as it now reads, and a
/// changed completion flag as `true` or `false` as it now stands, so that
/// re-opening a finished task writes `false`.
pub proof fn lemma_update_writes_new_values(new: TaskDbo, old: TaskDbo)
    ensures
        new.id != old.id ==> task_changes(new, old).contains(
            "SET \""@ + "id"@ + "\" = "@ + ("'"@ + uuid_text(new.id) + "'"@),
        ),
        new.project_id != old.project_id ==> task_changes(new, old).contains(
            "SET \""@ + "project_id"@ + "\" = "@ + ("'"@ + uuid_text(new.project_id) + "'"@),
        ),
        new.title@ != old.title@ ==> task_changes(new, old).contains(
            "SET \""@ + "title"@ + "\" = "@ + ("'"@ + new.title@ + "'"@),
        ),
        new.description@ != old.description@ ==> task_changes(new, old).contains(
            "SET \""@ + "description"@ + "\" = "@ + ("'"@ + new.description@ + "'"@),
        ),
        new.completed != old.completed ==> task_changes(new, old).last() == "SET \""@
            + "completed"@ + "\" = "@ + (if new.completed {
            "true"@
        } else {
            "false"@
        }),
{
    let a = clause_if(new.id != old.id, "id"@, quoted(uuid_text(new.id)));
    let b = clause_if(
        new.project_id != old.project_id,
        "project_id"@,
        quoted(uuid_text(new.project_id)),
    );
    let c = clause_if(new.title@ != old.title@, "title"@, quoted(new.title@));
    let d = clause_if(new.description@ != old.description@, "description"@, quoted(new.description@));
    let e = clause_if(new.completed != old.completed, "completed"@, bool_text(new.completed));
    let all = task_changes(new, old);
    assert(all == a + b + c + d + e);
    if new.id != old.id {
        assert(all[0] == a[0]);
    }
    if new.project_id != old.project_id {
        assert(all[a.len() as int] == b[0]);
    }
    if new.title@ != old.title@ {
        assert(all[(a.len() + b.len()) as int] == c[0]);
    }
    if new.description@ != old.description@ {
        assert(all[(a.len() + b.len() + c.len()) as int] == d[0]);
    }
}

} // verus!
